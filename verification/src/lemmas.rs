use crate::image_buffer::{holds_pixel, maps_pixel, ImageBuffer};
use crate::iteration::{spliced, visible_channels};
use crate::layout::{channel, lemma_flat_index, pixel_of};
use crate::pixel::{cast_or_default_value, cast_value, ComponentModel, PixelComponent};
use vstd::prelude::*;

verus! {

/// Two flat runs of the same length that agree pixel by pixel are equal.
pub proof fn lemma_pixels_determine_run<T>(a: Seq<T>, b: Seq<T>, c: int, count: int)
    requires
        c >= 1,
        count >= 0,
        a.len() == count * c,
        b.len() == count * c,
        forall|k: int| 0 <= k < count ==> #[trigger] pixel_of(a, c, k) == pixel_of(b, c, k),
    ensures
        a == b,
{
    assert forall|i: int| 0 <= i < a.len() implies a[i] == b[i] by {
        let k = i / c;
        let j = i % c;
        vstd::arithmetic::div_mod::lemma_fundamental_div_mod(i, c);
        vstd::arithmetic::div_mod::lemma_mod_bound(i, c);
        assert(c * k == k * c) by (nonlinear_arith);
        assert(0 <= k < count) by (nonlinear_arith)
            requires
                0 <= i < count * c,
                i == k * c + j,
                0 <= j < c,
                c >= 1,
        ;
        assert(pixel_of(a, c, k)[j] == channel(a, c, k, j));
        assert(pixel_of(b, c, k)[j] == channel(b, c, k, j));
    }
    assert(a =~= b);
}

/// Every constructed buffer holds `width * height` pixels, and a read view
/// yields them in row-major order: item `k` is the visible part of the pixel
/// in column `k % width` of row `k / width`.
pub proof fn lemma_iteration_order<T: PixelComponent, const C: usize, const A: bool>(
    buf: &ImageBuffer<T, C, A>,
    skip_alpha: bool,
    k: int,
)
    requires
        buf.wf(),
        0 <= k < buf.pixel_count(),
    ensures
        buf.items(skip_alpha).len() == buf.width * buf.height,
        0 <= k % (buf.width as int) < buf.width,
        0 <= k / (buf.width as int) < buf.height,
        buf.items(skip_alpha)[k] == buf.pixel_at(
            k % (buf.width as int),
            k / (buf.width as int),
        ).subrange(0, visible_channels(C as int, A, skip_alpha)),
{
    let w = buf.width as int;
    let h = buf.height as int;
    assert(w > 0) by (nonlinear_arith)
        requires
            0 <= k < w * h,
            w >= 0,
    ;
    let x = k % w;
    let y = k / w;
    vstd::arithmetic::div_mod::lemma_fundamental_div_mod(k, w);
    vstd::arithmetic::div_mod::lemma_mod_bound(k, w);
    assert(w * y == y * w) by (nonlinear_arith);
    assert(0 <= y < h) by (nonlinear_arith)
        requires
            0 <= k < w * h,
            k == y * w + x,
            0 <= x < w,
    ;
    lemma_flat_index(k, 0, buf.pixel_count(), C as int);
    assert(pixel_of(buf@, C as int, k) =~= buf.pixel_at(x, y));
}

/// On a layout with an alpha channel, the view that skips alpha shows one
/// channel less than the layout has, and the view that includes alpha shows
/// them all.
pub proof fn lemma_alpha_visibility<T: PixelComponent, const C: usize>(
    buf: &ImageBuffer<T, C, true>,
    k: int,
)
    requires
        buf.wf(),
        0 <= k < buf.pixel_count(),
    ensures
        buf.items(true)[k].len() == C - 1,
        buf.items(false)[k].len() == C,
        buf.items(true)[k] == buf.items(false)[k].subrange(0, C - 1),
{
    assert(buf.items(true)[k] =~= buf.items(false)[k].subrange(0, C - 1));
}

/// Writing through an item of the view that skips alpha leaves the alpha
/// channel of every pixel as it was: the item of pixel `k` covers its first
/// `stride - 1` channels only.
pub proof fn lemma_skip_alpha_keeps_alpha<T>(
    s: Seq<T>,
    stride: int,
    count: int,
    k: int,
    item: Seq<T>,
    a: int,
)
    requires
        stride >= 1,
        s.len() == count * stride,
        0 <= k < count,
        0 <= a < count,
        item.len() == stride - 1,
    ensures
        spliced(s, k * stride, k * stride + stride - 1, item).len() == s.len(),
        channel(spliced(s, k * stride, k * stride + stride - 1, item), stride, a, stride - 1)
            == channel(s, stride, a, stride - 1),
{
    lemma_flat_index(k, stride - 1, count, stride);
    lemma_flat_index(a, stride - 1, count, stride);
    let t = spliced(s, k * stride, k * stride + stride - 1, item);
    let i = a * stride + stride - 1;
    if i < k * stride {
    } else {
        if a == k {
        } else {
            assert(i >= k * stride + stride) by (nonlinear_arith)
                requires
                    i == a * stride + stride - 1,
                    i >= k * stride,
                    a != k,
                    stride >= 1,
            ;
        }
    }
}

/// A buffer in which every pixel is `pel` reads back as `pel` through the
/// view that includes alpha, and as `pel` without its last channel through
/// the view that skips alpha, where the layout has an alpha channel.
pub proof fn lemma_uniform_fill<T: PixelComponent, const C: usize, const A: bool>(
    buf: &ImageBuffer<T, C, A>,
    pel: Seq<T>,
    k: int,
)
    requires
        buf.wf(),
        0 <= k < buf.pixel_count(),
        forall|n: int| 0 <= n < buf.pixel_count() ==> #[trigger] buf.pixel(n) == pel,
    ensures
        buf.items(false).len() == buf.pixel_count(),
        buf.items(true).len() == buf.pixel_count(),
        buf.items(false)[k] == pel,
        buf.items(true)[k] == (if A {
            pel.subrange(0, C - 1)
        } else {
            pel
        }),
{
    assert(buf.pixel(k) == pel);
    assert(buf.items(false)[k] =~= pel);
    if !A {
        assert(buf.items(true)[k] =~= pel);
    }
}

/// Mapping with a function that returns its argument gives a buffer equal to
/// the source.
pub proof fn lemma_map_identity<T: PixelComponent, const C: usize, const A: bool, F>(
    src: &ImageBuffer<T, C, A>,
    dst: &ImageBuffer<T, C, A>,
    f: &F,
) where F: FnMut(&[T; C]) -> [T; C]
    requires
        src.wf(),
        dst.wf(),
        dst.width == src.width,
        dst.height == src.height,
        forall|k: int| 0 <= k < src.pixel_count() ==> #[trigger] maps_pixel(f, src@, dst@, k),
        forall|p: [T; C], q: [T; C]| #[trigger] call_ensures(*f, (&p,), q) ==> q == p,
    ensures
        dst@ == src@,
{
    assert forall|k: int| 0 <= k < src.pixel_count() implies #[trigger] pixel_of(
        src@,
        C as int,
        k,
    ) == pixel_of(dst@, C as int, k) by {
        assert(maps_pixel(f, src@, dst@, k));
    }
    assert(src.pixel_count() >= 0) by (nonlinear_arith)
        requires
            src.pixel_count() == src.width * src.height,
            src.width >= 0,
            src.height >= 0,
    ;
    lemma_pixels_determine_run(src@, dst@, C as int, src.pixel_count());
}

/// Mapping with `f` and then with a function that undoes `f` gives a buffer
/// equal to the source.
pub proof fn lemma_map_inverse<
    T: PixelComponent,
    const C: usize,
    const A: bool,
    U: PixelComponent,
    const D: usize,
    const B: bool,
    F,
    G,
>(
    src: &ImageBuffer<T, C, A>,
    mid: &ImageBuffer<U, D, B>,
    dst: &ImageBuffer<T, C, A>,
    f: &F,
    g: &G,
) where F: FnMut(&[T; C]) -> [U; D], G: FnMut(&[U; D]) -> [T; C]
    requires
        src.wf(),
        dst.wf(),
        dst.width == src.width,
        dst.height == src.height,
        forall|k: int| 0 <= k < src.pixel_count() ==> #[trigger] maps_pixel(f, src@, mid@, k),
        forall|k: int| 0 <= k < src.pixel_count() ==> #[trigger] maps_pixel(g, mid@, dst@, k),
        forall|p: [T; C], q: [U; D], r: [T; C]|
            #[trigger] call_ensures(*f, (&p,), q) && #[trigger] call_ensures(*g, (&q,), r) ==> r
                == p,
    ensures
        dst@ == src@,
{
    assert forall|k: int| 0 <= k < src.pixel_count() implies #[trigger] pixel_of(
        src@,
        C as int,
        k,
    ) == pixel_of(dst@, C as int, k) by {
        assert(maps_pixel(f, src@, mid@, k));
        assert(maps_pixel(g, mid@, dst@, k));
        let (p, q) = choose|p: [T; C], q: [U; D]|
            holds_pixel(src@, k, p) && holds_pixel(mid@, k, q) && call_ensures(*f, (&p,), q);
        let (q2, r) = choose|q2: [U; D], r: [T; C]|
            holds_pixel(mid@, k, q2) && holds_pixel(dst@, k, r) && call_ensures(*g, (&q2,), r);
        assert(q@ == q2@);
        assert(q == q2);
    }
    assert(src.pixel_count() >= 0) by (nonlinear_arith)
        requires
            src.pixel_count() == src.width * src.height,
            src.width >= 0,
            src.height >= 0,
    ;
    lemma_pixels_determine_run(src@, dst@, C as int, src.pixel_count());
}

/// Taking channel `i` of a buffer as a plane and writing that plane into
/// channel `i` of another buffer of the same layout and dimensions gives that
/// buffer channel `i` of the first, and leaves its other channels as they were.
pub proof fn lemma_plane_round_trip<T: PixelComponent, const C: usize, const A: bool>(
    src: &ImageBuffer<T, C, A>,
    plane: &ImageBuffer<T, 1, false>,
    before: &ImageBuffer<T, C, A>,
    after: &ImageBuffer<T, C, A>,
    i: int,
)
    requires
        src.wf(),
        before.wf(),
        before.width == src.width,
        before.height == src.height,
        0 <= i < C,
        src.is_plane(plane, i),
        before.with_plane(plane, i, after),
    ensures
        forall|k: int|
            0 <= k < src.pixel_count() ==> #[trigger] after.component(k, i) == src.component(k, i),
        forall|k: int, j: int|
            0 <= k < src.pixel_count() && 0 <= j < C && j != i ==> #[trigger] after.component(k, j)
                == before.component(k, j),
{
    assert forall|k: int| 0 <= k < src.pixel_count() implies #[trigger] after.component(k, i)
        == src.component(k, i) by {
        assert(plane@[k] == src.component(k, i));
    }
}

/// A cast into a component type whose limit is at least as large loses
/// nothing: it succeeds, keeps the number, and the cast back returns the
/// component it started from.
pub proof fn lemma_widening_cast_round_trip<S: ComponentModel, D: ComponentModel>(c: S)
    requires
        S::limit() <= D::limit(),
    ensures
        cast_value::<S, D>(c) is Some,
        cast_or_default_value::<S, D>(c).value() == c.value(),
        cast_value::<D, S>(cast_or_default_value::<S, D>(c)) == Some(c),
{
    S::lemma_value_bijection(c, 0);
    D::lemma_value_bijection(D::of_value(0), c.value());
}

/// A cast of a number that the destination cannot hold gives the component
/// for zero, not the destination's limit.
pub proof fn lemma_cast_fallback_is_zero<S: ComponentModel, D: ComponentModel>(c: S)
    requires
        c.value() > D::limit(),
    ensures
        cast_value::<S, D>(c) is None,
        cast_or_default_value::<S, D>(c) == D::of_value(0),
        cast_or_default_value::<S, D>(c).value() == 0,
{
    D::lemma_value_bijection(D::of_value(0), 0);
}

} // verus!
