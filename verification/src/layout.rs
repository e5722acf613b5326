use vstd::prelude::*;

verus! {

/// Flat indices of pixel `k`, channel `j`, stay inside a buffer of `count`
/// pixels with `c` channels each.
pub proof fn lemma_flat_index(k: int, j: int, count: int, c: int)
    requires
        0 <= k < count,
        0 <= j < c,
    ensures
        0 <= k * c,
        k * c + j < count * c,
        (k + 1) * c == k * c + c,
        (k + 1) * c <= count * c,
{
    assert(0 <= k * c) by (nonlinear_arith)
        requires
            0 <= k,
            0 <= c,
    ;
    assert((k + 1) * c == k * c + c) by (nonlinear_arith);
    assert((k + 1) * c <= count * c) by (nonlinear_arith)
        requires
            k + 1 <= count,
            0 <= c,
    ;
}

/// Channel `j` of pixel `k` in a flat run of pixels with `c` channels each.
pub open spec fn channel<T>(s: Seq<T>, c: int, k: int, j: int) -> T {
    s[k * c + j]
}

/// All channels of pixel `k` in a flat run of pixels with `c` channels each.
pub open spec fn pixel_of<T>(s: Seq<T>, c: int, k: int) -> Seq<T> {
    Seq::new(c as nat, |j: int| channel(s, c, k, j))
}

/// Two channels of a flat run share a place only if they are the same channel
/// of the same pixel.
pub proof fn lemma_flat_index_unique(a: int, b: int, k: int, j: int, c: int)
    requires
        0 <= b < c,
        0 <= j < c,
        a * c + b == k * c + j,
    ensures
        a == k,
        b == j,
{
    if a < k {
        assert((a + 1) * c <= k * c) by (nonlinear_arith)
            requires
                a + 1 <= k,
                0 <= c,
        ;
        assert((a + 1) * c == a * c + c) by (nonlinear_arith);
    } else if k < a {
        assert((k + 1) * c <= a * c) by (nonlinear_arith)
            requires
                k + 1 <= a,
                0 <= c,
        ;
        assert((k + 1) * c == k * c + c) by (nonlinear_arith);
    }
}

/// Copies pixel `k` out of a flat run.
pub(crate) fn read_pixel<T: Copy, const C: usize>(data: &Vec<T>, k: usize) -> (p: [T; C])
    requires
        C >= 1,
        (k + 1) * C <= data.len(),
    ensures
        p@ == pixel_of(data@, C as int, k as int),
{
    proof {
        lemma_flat_index(k as int, 0, k + 1, C as int);
    }
    let mut p: [T; C] = vstd::array::array_fill_for_copy_types(data[k * C]);
    let mut j: usize = 0;
    while j < C
        invariant
            j <= C,
            (k + 1) * C <= data.len(),
            (k + 1) * C == k * C + C,
            0 <= k * C,
            p@.len() == C,
            forall|b: int| 0 <= b < j ==> p@[b] == #[trigger] channel(data@, C as int, k as int, b),
        decreases C - j,
    {
        p[j] = data[k * C + j];
        j += 1;
    }
    assert(p@ =~= pixel_of(data@, C as int, k as int));
    p
}

/// Appends one pixel to a flat run that holds `k` whole pixels.
pub(crate) fn push_pixel<T: Copy, const C: usize>(data: &mut Vec<T>, q: &[T; C], Ghost(k): Ghost<int>)
    requires
        0 <= k,
        old(data)@.len() == k * C,
    ensures
        final(data)@.len() == (k + 1) * C,
        pixel_of(final(data)@, C as int, k) == q@,
        forall|a: int|
            0 <= a < k ==> #[trigger] pixel_of(final(data)@, C as int, a) == pixel_of(
                old(data)@,
                C as int,
                a,
            ),
{
    let mut j: usize = 0;
    proof {
        assert((k + 1) * C == k * C + C) by (nonlinear_arith);
    }
    while j < C
        invariant
            0 <= k,
            j <= C,
            (k + 1) * C == k * C + C,
            data@.len() == k * C + j,
            old(data)@.len() == k * C,
            forall|i: int| 0 <= i < k * C ==> data@[i] == old(data)@[i],
            forall|b: int| 0 <= b < j ==> channel(data@, C as int, k as int, b) == #[trigger] q@[b],
        decreases C - j,
    {
        data.push(q[j]);
        j += 1;
    }
    proof {
        assert(pixel_of(data@, C as int, k) =~= q@);
        assert forall|a: int| 0 <= a < k implies #[trigger] pixel_of(data@, C as int, a)
            == pixel_of(old(data)@, C as int, a) by {
            assert forall|b: int| 0 <= b < C implies #[trigger] channel(data@, C as int, a, b) == channel(
                old(data)@,
                C as int,
                a,
                b,
            ) by {
                lemma_flat_index(a, b, k, C as int);
            }
            assert(pixel_of(data@, C as int, a) =~= pixel_of(old(data)@, C as int, a));
        }
    }
}

/// Overwrites pixel `k` of a flat run and leaves every other pixel as it was.
pub(crate) fn write_pixel<T: Copy, const C: usize>(data: &mut Vec<T>, k: usize, q: &[T; C])
    requires
        C >= 1,
        (k + 1) * C <= old(data).len(),
    ensures
        final(data)@.len() == old(data)@.len(),
        pixel_of(final(data)@, C as int, k as int) == q@,
        forall|a: int|
            0 <= a && a != k && (a + 1) * C <= old(data)@.len() ==> #[trigger] pixel_of(
                final(data)@,
                C as int,
                a,
            ) == pixel_of(
                old(data)@,
                C as int,
                a,
            ),
{
    proof {
        lemma_flat_index(k as int, 0, k + 1, C as int);
    }
    let mut j: usize = 0;
    while j < C
        invariant
            j <= C,
            (k + 1) * C == k * C + C,
            0 <= k * C,
            (k + 1) * C <= data.len(),
            data@.len() == old(data)@.len(),
            forall|i: int|
                0 <= i < data@.len() && !(k * C <= i < k * C + j) ==> data@[i] == old(data)@[i],
            forall|b: int| 0 <= b < j ==> channel(data@, C as int, k as int, b) == #[trigger] q@[b],
        decreases C - j,
    {
        data[k * C + j] = q[j];
        j += 1;
    }
    proof {
        assert(pixel_of(data@, C as int, k as int) =~= q@);
        assert forall|a: int|
            0 <= a && a != k && (a + 1) * C <= old(data)@.len() implies #[trigger] pixel_of(
            data@,
            C as int,
            a,
        ) == pixel_of(old(data)@, C as int, a) by {
            assert forall|b: int| 0 <= b < C implies #[trigger] channel(data@, C as int, a, b) == channel(
                old(data)@,
                C as int,
                a,
                b,
            ) by {
                lemma_flat_index(a, b, a + 1, C as int);
                if k * C <= a * C + b < k * C + C {
                    lemma_flat_index_unique(a, b, k as int, a * C + b - k * C, C as int);
                }
            }
            assert(pixel_of(data@, C as int, a) =~= pixel_of(old(data)@, C as int, a));
        }
    }
}

} // verus!
