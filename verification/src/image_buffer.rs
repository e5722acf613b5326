use crate::layout::{
    channel, lemma_flat_index, lemma_flat_index_unique, pixel_of, push_pixel, read_pixel,
    write_pixel,
};
use crate::pixel::{
    cast_or_default, cast_or_default_value, ComponentModel, PixelComponent, PixelContainer,
};
use vstd::prelude::*;

pub use crate::iteration::{ImageBufferIterator, ImagebufferIteratorMut};

verus! {

/// A raster image held as one flat run of components, pixel after pixel in
/// row-major order, each pixel a run of `COMPONENTS_PER_PEL` components.
#[derive(Debug)]
pub struct ImageBuffer<
    Component: PixelComponent,
    const COMPONENTS_PER_PEL: usize,
    const HAS_ALPHA: bool,
> {
    pub data: Vec<Component>,
    pub width: usize,
    pub height: usize,
}

/// The error of a data vector whose length is not width times height times
/// the number of components per pixel.
pub open spec fn layout_mismatch() -> Seq<char> {
    "Data vector length does not match width, height, and number of components per pixel"@
}

/// The error of a plane index that is not below the number of components per
/// pixel.
pub open spec fn plane_index_out_of_range() -> Seq<char> {
    "Plane index out of bounds"@
}

/// `p` holds pixel `k` of a flat run of pixels.
pub open spec fn holds_pixel<T, const C: usize>(s: Seq<T>, k: int, p: [T; C]) -> bool {
    p@ == pixel_of(s, C as int, k)
}

/// `f` may be called on pixel `k` of `src`.
pub open spec fn accepts_pixel<S, const SC: usize, D, const DC: usize, F: FnMut(&[S; SC]) -> [
    D;
    DC
]>(f: &F, src: Seq<S>, k: int) -> bool {
    forall|p: [S; SC]| #[trigger] holds_pixel(src, k, p) ==> call_requires(*f, (&p,))
}

/// Pixel `k` of `dst` is what `f` returns for pixel `k` of `src`.
pub open spec fn maps_pixel<S, const SC: usize, D, const DC: usize, F: FnMut(&[S; SC]) -> [
    D;
    DC
]>(f: &F, src: Seq<S>, dst: Seq<D>, k: int) -> bool {
    exists|p: [S; SC], q: [D; DC]|
        holds_pixel(src, k, p) && holds_pixel(dst, k, q) && #[trigger] call_ensures(*f, (&p,), q)
}

/// Pixel `k` of a run with `sc` channels per pixel, cast channel by channel
/// into a pixel of `dc` channels: channels that the source lacks are zero,
/// channels that the destination lacks are dropped.
pub open spec fn cast_pixel<S: ComponentModel, D: ComponentModel>(
    src: Seq<S>,
    sc: int,
    dc: int,
    k: int,
) -> Seq<D> {
    Seq::new(
        dc as nat,
        |j: int|
            if j < sc {
                cast_or_default_value::<S, D>(channel(src, sc, k, j))
            } else {
                D::of_value(0)
            },
    )
}

impl<
    Component: PixelComponent,
    const COMPONENTS_PER_PEL: usize,
    const HAS_ALPHA: bool,
> View for ImageBuffer<Component, COMPONENTS_PER_PEL, HAS_ALPHA> {
    type V = Seq<Component>;

    open spec fn view(&self) -> Seq<Component> {
        self.data@
    }
}

impl<
    Component: PixelComponent,
    const COMPONENTS_PER_PEL: usize,
    const HAS_ALPHA: bool,
> ImageBuffer<Component, COMPONENTS_PER_PEL, HAS_ALPHA> {
    /// The number of pixels.
    pub open spec fn pixel_count(&self) -> int {
        self.width * self.height
    }

    /// The layout invariant: at least one channel, and exactly as many
    /// components as the dimensions ask for.
    pub open spec fn wf(&self) -> bool {
        &&& COMPONENTS_PER_PEL >= 1
        &&& self@.len() == self.width * self.height * COMPONENTS_PER_PEL
    }

    /// Channel `j` of pixel `k`, pixels counted in row-major order.
    pub open spec fn component(&self, k: int, j: int) -> Component {
        channel(self@, COMPONENTS_PER_PEL as int, k, j)
    }

    /// All channels of pixel `k`.
    pub open spec fn pixel(&self, k: int) -> Seq<Component> {
        pixel_of(self@, COMPONENTS_PER_PEL as int, k)
    }

    /// Wraps an existing flat run of components, which must have exactly the
    /// length that the dimensions ask for.
    pub fn with_data(data: Vec<Component>, width: usize, height: usize) -> (r: Result<
        Self,
        &'static str,
    >)
        requires
            COMPONENTS_PER_PEL >= 1,
        ensures
            r is Ok <==> data@.len() == width * height * COMPONENTS_PER_PEL,
            r matches Ok(b) ==> b.wf() && b@ == data@ && b.width == width && b.height == height,
            r matches Err(e) ==> e@ == layout_mismatch(),
    {
        proof {
            assert(width * height * COMPONENTS_PER_PEL >= width * height >= 0)
                by (nonlinear_arith)
                requires
                    COMPONENTS_PER_PEL >= 1,
                    width >= 0,
                    height >= 0,
            ;
        }
        let len = data.len();
        let fits = match width.checked_mul(height) {
            Some(pixels) => match pixels.checked_mul(COMPONENTS_PER_PEL) {
                Some(expected) => len == expected,
                None => false,
            },
            None => false,
        };
        if !fits {
            return Err(
                "Data vector length does not match width, height, and number of components per pixel",
            );
        }
        Ok(ImageBuffer { data, width, height })
    }

    /// The number of components that a buffer of these dimensions holds.
    fn storage_len(width: usize, height: usize) -> (n: usize)
        requires
            COMPONENTS_PER_PEL >= 1,
            width * height * COMPONENTS_PER_PEL <= usize::MAX,
        ensures
            n == width * height * COMPONENTS_PER_PEL,
            width * height <= usize::MAX,
    {
        proof {
            assert(width * height * COMPONENTS_PER_PEL >= width * height >= 0)
                by (nonlinear_arith)
                requires
                    COMPONENTS_PER_PEL >= 1,
                    width >= 0,
                    height >= 0,
            ;
        }
        width * height * COMPONENTS_PER_PEL
    }

    /// A buffer of the given dimensions with every component zero.
    pub fn empty(width: usize, height: usize) -> (r: Self)
        requires
            COMPONENTS_PER_PEL >= 1,
            width * height * COMPONENTS_PER_PEL <= usize::MAX,
        ensures
            r.wf(),
            r.width == width,
            r.height == height,
            forall|i: int| 0 <= i < r@.len() ==> r@[i] == Component::of_value(0),
    {
        let n = Self::storage_len(width, height);
        let zero = Component::zero();
        let mut data: Vec<Component> = Vec::with_capacity(n);
        let mut i: usize = 0;
        while i < n
            invariant
                i <= n,
                data@.len() == i,
                zero == Component::of_value(0),
                forall|t: int| 0 <= t < i ==> data@[t] == zero,
            decreases n - i,
        {
            data.push(zero);
            i += 1;
        }
        ImageBuffer { data, width, height }
    }

    /// A buffer of the given dimensions in which every pixel is `one_pel`,
    /// alpha channel included.
    pub fn with_val(one_pel: &[Component; COMPONENTS_PER_PEL], width: usize, height: usize) -> (r:
        Self)
        requires
            COMPONENTS_PER_PEL >= 1,
            width * height * COMPONENTS_PER_PEL <= usize::MAX,
        ensures
            r.wf(),
            r.width == width,
            r.height == height,
            forall|k: int| 0 <= k < r.pixel_count() ==> #[trigger] r.pixel(k) == one_pel@,
    {
        let n = Self::storage_len(width, height);
        let count = width * height;
        let mut data: Vec<Component> = Vec::with_capacity(n);
        let mut k: usize = 0;
        while k < count
            invariant
                k <= count,
                data@.len() == k * COMPONENTS_PER_PEL,
                forall|a: int|
                    0 <= a < k ==> #[trigger] pixel_of(data@, COMPONENTS_PER_PEL as int, a)
                        == one_pel@,
            decreases count - k,
        {
            push_pixel(&mut data, one_pel, Ghost(k as int));
            k += 1;
        }
        ImageBuffer { data, width, height }
    }

    /// The number of pixels in a row.
    pub fn width(&self) -> (r: usize)
        ensures
            r == self.width,
    {
        self.width
    }

    /// The number of rows.
    pub fn height(&self) -> (r: usize)
        ensures
            r == self.height,
    {
        self.height
    }

    /// The number of pixels of a well-formed buffer.
    pub(crate) fn count(&self) -> (n: usize)
        requires
            self.wf(),
        ensures
            n == self.pixel_count(),
            n * COMPONENTS_PER_PEL == self.data.len(),
    {
        proof {
            assert(self.data.len() <= usize::MAX);
            assert(self.width * self.height * COMPONENTS_PER_PEL >= self.width * self.height >= 0)
                by (nonlinear_arith)
                requires
                    COMPONENTS_PER_PEL >= 1,
                    self.width >= 0,
                    self.height >= 0,
            ;
        }
        self.width * self.height
    }

    /// A new buffer of the same layout in which every pixel is what `map_fn`
    /// returns for the pixel at the same place in this one.
    pub fn map<F>(&self, map_fn: &mut F) -> (r: Self) where
        F: FnMut(&[Component; COMPONENTS_PER_PEL]) -> [Component; COMPONENTS_PER_PEL],

        requires
            self.wf(),
            forall|k: int|
                0 <= k < self.pixel_count() ==> #[trigger] accepts_pixel(&*old(map_fn), self@, k),
        ensures
            r.wf(),
            r.width == self.width,
            r.height == self.height,
            forall|k: int|
                0 <= k < self.pixel_count() ==> #[trigger] maps_pixel(&*old(map_fn), self@, r@, k),
    {
        proof {
            assert(self.data.len() <= usize::MAX);
        }
        self.map_into::<F, Component, COMPONENTS_PER_PEL, HAS_ALPHA>(map_fn)
    }

    /// A new buffer, of any component type and layout, in which every pixel is
    /// what `map_fn` returns for the pixel at the same place in this one.
    pub fn map_into<
        F,
        NewComponent: PixelComponent,
        const NEW_COMPONENTS_PER_PEL: usize,
        const NEW_HAS_ALPHA: bool,
    >(&self, map_fn: &mut F) -> (r: ImageBuffer<
        NewComponent,
        NEW_COMPONENTS_PER_PEL,
        NEW_HAS_ALPHA,
    >) where F: FnMut(&[Component; COMPONENTS_PER_PEL]) -> [NewComponent; NEW_COMPONENTS_PER_PEL]
        requires
            self.wf(),
            NEW_COMPONENTS_PER_PEL >= 1,
            self.width * self.height * NEW_COMPONENTS_PER_PEL <= usize::MAX,
            forall|k: int|
                0 <= k < self.pixel_count() ==> #[trigger] accepts_pixel(&*old(map_fn), self@, k),
        ensures
            r.wf(),
            r.width == self.width,
            r.height == self.height,
            forall|k: int|
                0 <= k < self.pixel_count() ==> #[trigger] maps_pixel(&*old(map_fn), self@, r@, k),
    {
        let count = self.count();
        let mut data: Vec<NewComponent> = Vec::new();
        let mut k: usize = 0;
        while k < count
            invariant
                self.wf(),
                count == self.pixel_count(),
                count * COMPONENTS_PER_PEL == self.data.len(),
                k <= count,
                data@.len() == k * NEW_COMPONENTS_PER_PEL,
                *map_fn == *old(map_fn),
                forall|a: int|
                    0 <= a < self.pixel_count() ==> #[trigger] accepts_pixel(&*map_fn, self@, a),
                forall|a: int| 0 <= a < k ==> #[trigger] maps_pixel(&*map_fn, self@, data@, a),
            decreases count - k,
        {
            proof {
                lemma_flat_index(k as int, 0, count as int, COMPONENTS_PER_PEL as int);
            }
            let ghost before = data@;
            let p = read_pixel::<Component, COMPONENTS_PER_PEL>(&self.data, k);
            assert(accepts_pixel(&*map_fn, self@, k as int));
            assert(holds_pixel(self@, k as int, p));
            let q = map_fn(&p);
            push_pixel(&mut data, &q, Ghost(k as int));
            proof {
                assert(holds_pixel(data@, k as int, q));
                assert(maps_pixel(&*map_fn, self@, data@, k as int));
                assert forall|a: int| 0 <= a < k implies #[trigger] maps_pixel(
                    &*map_fn,
                    self@,
                    data@,
                    a,
                ) by {
                    assert(maps_pixel(&*map_fn, self@, before, a));
                }
            }
            k += 1;
        }
        ImageBuffer { data, width: self.width, height: self.height }
    }

    /// Replaces every pixel, in place, by what `map_fn` returns for it.
    pub fn apply<F>(&mut self, map_fn: &mut F) where
        F: FnMut(&[Component; COMPONENTS_PER_PEL]) -> [Component; COMPONENTS_PER_PEL],

        requires
            old(self).wf(),
            forall|k: int|
                0 <= k < old(self).pixel_count() ==> #[trigger] accepts_pixel(
                    &*old(map_fn),
                    old(self)@,
                    k,
                ),
        ensures
            final(self).wf(),
            final(self).width == old(self).width,
            final(self).height == old(self).height,
            forall|k: int|
                0 <= k < old(self).pixel_count() ==> #[trigger] maps_pixel(
                    &*old(map_fn),
                    old(self)@,
                    final(self)@,
                    k,
                ),
    {
        let count = self.count();
        let mut k: usize = 0;
        while k < count
            invariant
                self.wf(),
                self.width == old(self).width,
                self.height == old(self).height,
                count == self.pixel_count(),
                count * COMPONENTS_PER_PEL == self.data.len(),
                k <= count,
                *map_fn == *old(map_fn),
                forall|a: int|
                    0 <= a < count ==> #[trigger] accepts_pixel(&*map_fn, old(self)@, a),
                forall|a: int| 0 <= a < k ==> #[trigger] maps_pixel(&*map_fn, old(self)@, self@, a),
                forall|a: int|
                    k <= a < count ==> #[trigger] pixel_of(self@, COMPONENTS_PER_PEL as int, a)
                        == pixel_of(old(self)@, COMPONENTS_PER_PEL as int, a),
            decreases count - k,
        {
            proof {
                lemma_flat_index(k as int, 0, count as int, COMPONENTS_PER_PEL as int);
            }
            let ghost before = self@;
            let p = read_pixel::<Component, COMPONENTS_PER_PEL>(&self.data, k);
            assert(accepts_pixel(&*map_fn, old(self)@, k as int));
            assert(pixel_of(before, COMPONENTS_PER_PEL as int, k as int) == pixel_of(
                old(self)@,
                COMPONENTS_PER_PEL as int,
                k as int,
            ));
            assert(holds_pixel(old(self)@, k as int, p));
            let q = map_fn(&p);
            write_pixel(&mut self.data, k, &q);
            proof {
                assert(holds_pixel(self@, k as int, q));
                assert(maps_pixel(&*map_fn, old(self)@, self@, k as int));
                assert forall|a: int| 0 <= a < count && a != k implies #[trigger] pixel_of(
                    self@,
                    COMPONENTS_PER_PEL as int,
                    a,
                ) == pixel_of(before, COMPONENTS_PER_PEL as int, a) by {
                    lemma_flat_index(a, 0, count as int, COMPONENTS_PER_PEL as int);
                }
                assert forall|a: int| 0 <= a < k implies #[trigger] maps_pixel(
                    &*map_fn,
                    old(self)@,
                    self@,
                    a,
                ) by {
                    assert(maps_pixel(&*map_fn, old(self)@, before, a));
                }
            }
            k += 1;
        }
    }

    /// `plane` has this buffer's dimensions and holds channel `i` of each of
    /// its pixels.
    pub open spec fn is_plane(&self, plane: &ImageBuffer<Component, 1, false>, i: int) -> bool {
        &&& plane.wf()
        &&& plane.width == self.width
        &&& plane.height == self.height
        &&& forall|k: int|
            0 <= k < self.pixel_count() ==> #[trigger] plane@[k] == self.component(k, i)
    }

    /// `after` is this buffer with channel `i` of each pixel taken from
    /// `plane`, as far as the plane reaches, and everything else as it was.
    pub open spec fn with_plane(
        &self,
        plane: &ImageBuffer<Component, 1, false>,
        i: int,
        after: &Self,
    ) -> bool {
        forall|k: int, j: int|
            0 <= k < self.pixel_count() && 0 <= j < COMPONENTS_PER_PEL
                ==> #[trigger] after.component(k, j) == (if j == i && k < plane.pixel_count() {
                plane@[k]
            } else {
                self.component(k, j)
            })
    }

    /// The pixel in column `x` of row `y`: the run of components that starts
    /// at `(y * width + x) * COMPONENTS_PER_PEL`.
    pub open spec fn pixel_at(&self, x: int, y: int) -> Seq<Component> {
        self@.subrange(
            (y * self.width + x) * COMPONENTS_PER_PEL,
            (y * self.width + x) * COMPONENTS_PER_PEL + COMPONENTS_PER_PEL,
        )
    }

    /// A new buffer of another component type and layout, each channel the
    /// numeric cast of the channel at the same index.
    pub fn as_other<
        NewComponent: PixelComponent,
        const NEW_COMPONENTS_PER_PEL: usize,
        const NEW_HAS_ALPHA: bool,
    >(&self) -> (r: ImageBuffer<NewComponent, NEW_COMPONENTS_PER_PEL, NEW_HAS_ALPHA>)
        requires
            self.wf(),
            NEW_COMPONENTS_PER_PEL >= 1,
            self.width * self.height * NEW_COMPONENTS_PER_PEL <= usize::MAX,
        ensures
            r.wf(),
            r.width == self.width,
            r.height == self.height,
            forall|k: int|
                0 <= k < self.pixel_count() ==> #[trigger] r.pixel(k) == cast_pixel::<
                    Component,
                    NewComponent,
                >(self@, COMPONENTS_PER_PEL as int, NEW_COMPONENTS_PER_PEL as int, k),
    {
        let count = self.count();
        let zero = NewComponent::zero();
        let mut data: Vec<NewComponent> = Vec::new();
        let mut k: usize = 0;
        while k < count
            invariant
                self.wf(),
                count == self.pixel_count(),
                count * COMPONENTS_PER_PEL == self.data.len(),
                k <= count,
                zero == NewComponent::of_value(0),
                data@.len() == k * NEW_COMPONENTS_PER_PEL,
                forall|a: int|
                    0 <= a < k ==> #[trigger] pixel_of(data@, NEW_COMPONENTS_PER_PEL as int, a)
                        == cast_pixel::<Component, NewComponent>(
                        self@,
                        COMPONENTS_PER_PEL as int,
                        NEW_COMPONENTS_PER_PEL as int,
                        a,
                    ),
            decreases count - k,
        {
            proof {
                lemma_flat_index(k as int, 0, count as int, COMPONENTS_PER_PEL as int);
            }
            let mut q: [NewComponent; NEW_COMPONENTS_PER_PEL] =
                vstd::array::array_fill_for_copy_types(zero);
            let mut j: usize = 0;
            while j < COMPONENTS_PER_PEL && j < NEW_COMPONENTS_PER_PEL
                invariant
                    k < count,
                    count * COMPONENTS_PER_PEL == self.data.len(),
                    (k + 1) * COMPONENTS_PER_PEL <= count * COMPONENTS_PER_PEL,
                    (k + 1) * COMPONENTS_PER_PEL == k * COMPONENTS_PER_PEL + COMPONENTS_PER_PEL,
                    0 <= k * COMPONENTS_PER_PEL,
                    j <= COMPONENTS_PER_PEL,
                    j <= NEW_COMPONENTS_PER_PEL,
                    q@.len() == NEW_COMPONENTS_PER_PEL,
                    forall|b: int|
                        0 <= b < j ==> q@[b] == cast_or_default_value::<Component, NewComponent>(
                            #[trigger] channel(self@, COMPONENTS_PER_PEL as int, k as int, b),
                        ),
                    forall|b: int| j <= b < NEW_COMPONENTS_PER_PEL ==> q@[b] == zero,
                decreases COMPONENTS_PER_PEL - j,
            {
                q[j] = cast_or_default::<Component, NewComponent>(
                    self.data[k * COMPONENTS_PER_PEL + j],
                );
                j += 1;
            }
            proof {
                assert(q@ =~= cast_pixel::<Component, NewComponent>(
                    self@,
                    COMPONENTS_PER_PEL as int,
                    NEW_COMPONENTS_PER_PEL as int,
                    k as int,
                ));
            }
            push_pixel(&mut data, &q, Ghost(k as int));
            k += 1;
        }
        ImageBuffer { data, width: self.width, height: self.height }
    }

    /// Channel `i` of every pixel as a plane.
    fn plane(&self, i: usize) -> (r: ImageBuffer<Component, 1, false>)
        requires
            self.wf(),
            i < COMPONENTS_PER_PEL,
        ensures
            self.is_plane(&r, i as int),
    {
        let count = self.count();
        let mut data: Vec<Component> = Vec::new();
        let mut k: usize = 0;
        while k < count
            invariant
                self.wf(),
                i < COMPONENTS_PER_PEL,
                count == self.pixel_count(),
                count * COMPONENTS_PER_PEL == self.data.len(),
                k <= count,
                data@.len() == k,
                forall|a: int| 0 <= a < k ==> #[trigger] data@[a] == self.component(a, i as int),
            decreases count - k,
        {
            proof {
                lemma_flat_index(k as int, i as int, count as int, COMPONENTS_PER_PEL as int);
            }
            data.push(self.data[k * COMPONENTS_PER_PEL + i]);
            k += 1;
        }
        ImageBuffer { data, width: self.width, height: self.height }
    }

    /// Channel `I` of every pixel as a plane.
    pub fn get_plane_const<const I: usize>(&self) -> (r: ImageBuffer<Component, 1, false>)
        requires
            self.wf(),
            I < COMPONENTS_PER_PEL,
        ensures
            self.is_plane(&r, I as int),
    {
        self.plane(I)
    }

    /// The alpha channel as a plane, where the layout has one.
    pub fn get_alpha(&self) -> (r: Option<ImageBuffer<Component, 1, false>>)
        requires
            self.wf(),
        ensures
            r is Some <==> HAS_ALPHA,
            r matches Some(plane) ==> self.is_plane(&plane, COMPONENTS_PER_PEL - 1),
    {
        if !HAS_ALPHA {
            return None;
        }
        Some(self.plane(COMPONENTS_PER_PEL - 1))
    }

    /// Channel `i` of every pixel as a plane; an error where the layout has
    /// no channel `i`.
    pub fn get_plane(&self, i: usize) -> (r: Result<ImageBuffer<Component, 1, false>, &'static str>)
        requires
            self.wf(),
        ensures
            r is Ok <==> i < COMPONENTS_PER_PEL,
            r matches Ok(plane) ==> self.is_plane(&plane, i as int),
            r matches Err(e) ==> e@ == plane_index_out_of_range(),
    {
        if i >= COMPONENTS_PER_PEL {
            return Err("Plane index out of bounds");
        }
        Ok(self.plane(i))
    }

    /// Writes a plane into channel `I` of every pixel.
    pub fn put_plane_const<const I: usize>(&mut self, plane: &ImageBuffer<Component, 1, false>)
        requires
            old(self).wf(),
            plane.wf(),
            I < COMPONENTS_PER_PEL,
        ensures
            final(self).wf(),
            final(self).width == old(self).width,
            final(self).height == old(self).height,
            old(self).with_plane(plane, I as int, final(self)),
    {
        self.put_plane(I, plane)
    }

    /// Writes a plane into channel `i` of every pixel, pixel by pixel in
    /// row-major order, as far as both the buffer and the plane reach.
    pub fn put_plane(&mut self, i: usize, plane: &ImageBuffer<Component, 1, false>)
        requires
            old(self).wf(),
            plane.wf(),
            i < COMPONENTS_PER_PEL,
        ensures
            final(self).wf(),
            final(self).width == old(self).width,
            final(self).height == old(self).height,
            old(self).with_plane(plane, i as int, final(self)),
    {
        let own = self.count();
        let given = plane.count();
        let count = if own < given {
            own
        } else {
            given
        };
        let mut k: usize = 0;
        while k < count
            invariant
                self.wf(),
                plane.wf(),
                i < COMPONENTS_PER_PEL,
                self.width == old(self).width,
                self.height == old(self).height,
                own == self.pixel_count(),
                own * COMPONENTS_PER_PEL == self.data.len(),
                given == plane.pixel_count(),
                given == plane.data.len(),
                count <= own,
                count <= given,
                k <= count,
                forall|a: int, b: int|
                    0 <= a < own && 0 <= b < COMPONENTS_PER_PEL ==> #[trigger] self.component(a, b)
                        == (if b == i && a < k {
                        plane@[a]
                    } else {
                        old(self).component(a, b)
                    }),
            decreases count - k,
        {
            proof {
                lemma_flat_index(k as int, i as int, own as int, COMPONENTS_PER_PEL as int);
            }
            let ghost before = *self;
            self.data[k * COMPONENTS_PER_PEL + i] = plane.data[k];
            proof {
                assert forall|a: int, b: int|
                    0 <= a < own && 0 <= b < COMPONENTS_PER_PEL implies #[trigger] self.component(
                    a,
                    b,
                ) == (if b == i && a < k + 1 {
                    plane@[a]
                } else {
                    old(self).component(a, b)
                }) by {
                    lemma_flat_index(a, b, own as int, COMPONENTS_PER_PEL as int);
                    if a * COMPONENTS_PER_PEL + b == k * COMPONENTS_PER_PEL + i {
                        lemma_flat_index_unique(a, b, k as int, i as int, COMPONENTS_PER_PEL as int);
                    }
                    assert(before.component(a, b) == (if b == i && a < k {
                        plane@[a]
                    } else {
                        old(self).component(a, b)
                    }));
                }
            }
            k += 1;
        }
    }
}

impl<
    Component: PixelComponent,
    const COMPONENTS_PER_PEL: usize,
    const HAS_ALPHA: bool,
> PixelContainer for ImageBuffer<Component, COMPONENTS_PER_PEL, HAS_ALPHA> {
    type OnePixel = [Component; COMPONENTS_PER_PEL];

    type PixelBuffer = Vec<Component>;

    type OnePlane = ImageBuffer<Component, 1, false>;

    const HAS_ALPHA: bool = HAS_ALPHA;

    const NUM_COMPONENTS: usize = COMPONENTS_PER_PEL;

    open spec fn storage(&self) -> Vec<Component> {
        self.data
    }

    fn alpha_idx() -> (r: Option<usize>) {
        if HAS_ALPHA {
            Some(COMPONENTS_PER_PEL - 1)
        } else {
            None
        }
    }

    fn num_nonalpha_components() -> (r: usize) {
        if HAS_ALPHA {
            COMPONENTS_PER_PEL - 1
        } else {
            COMPONENTS_PER_PEL
        }
    }

    fn pixels(&self) -> (r: &Vec<Component>) {
        &self.data
    }

    fn pixels_mut(&mut self) -> (r: &mut Vec<Component>)
        ensures
            final(self).width == old(self).width,
            final(self).height == old(self).height,
    {
        &mut self.data
    }
}

impl<
    Component: PixelComponent,
    const COMPONENTS_PER_PEL: usize,
    const HAS_ALPHA: bool,
> Clone for ImageBuffer<Component, COMPONENTS_PER_PEL, HAS_ALPHA> {
    fn clone(&self) -> (r: Self)
        ensures
            r@ == self@,
            r.width == self.width,
            r.height == self.height,
    {
        let mut data: Vec<Component> = Vec::new();
        let mut i: usize = 0;
        while i < self.data.len()
            invariant
                i <= self.data.len(),
                data@ == self.data@.subrange(0, i as int),
            decreases self.data.len() - i,
        {
            data.push(self.data[i]);
            assert(data@ =~= self.data@.subrange(0, i + 1));
            i += 1;
        }
        assert(data@ =~= self.data@);
        ImageBuffer { data, width: self.width, height: self.height }
    }
}

impl<
    Component: PixelComponent,
    const COMPONENTS_PER_PEL: usize,
    const HAS_ALPHA: bool,
> Default for ImageBuffer<Component, COMPONENTS_PER_PEL, HAS_ALPHA> {
    /// The buffer without pixels.
    fn default() -> (r: Self)
        ensures
            r@ == Seq::<Component>::empty(),
            r.width == 0,
            r.height == 0,
    {
        ImageBuffer { data: Vec::new(), width: 0, height: 0 }
    }
}


} // verus!
