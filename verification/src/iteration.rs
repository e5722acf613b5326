use crate::image_buffer::ImageBuffer;
use crate::layout::{lemma_flat_index, pixel_of};
use crate::pixel::PixelComponent;
use vstd::prelude::*;

verus! {

/// How many channels of a pixel an iteration view shows: all of them, or all
/// but the alpha channel where the view skips alpha and the layout has one.
pub open spec fn visible_channels(stride: int, has_alpha: bool, skip_alpha: bool) -> int {
    if has_alpha && skip_alpha {
        stride - 1
    } else {
        stride
    }
}

/// What an iteration view yields, in order: of each pixel of `s`, the first
/// `visible` channels.
pub open spec fn view_items<T>(s: Seq<T>, stride: int, visible: int, count: int) -> Seq<Seq<T>> {
    Seq::new(count as nat, |k: int| pixel_of(s, stride, k).subrange(0, visible))
}

/// A read view of a buffer, pixel by pixel in row-major order.
pub struct ImageBufferIterator<
    'a,
    Component: PixelComponent,
    const COMPONENT_STRIDE: usize,
    const HAS_ALPHA: bool,
    const SKIP_ALPHA: bool,
> {
    pub data: &'a [Component],
    pub count: usize,
    pub position: usize,
}

impl<
    'a,
    Component: PixelComponent,
    const COMPONENT_STRIDE: usize,
    const HAS_ALPHA: bool,
    const SKIP_ALPHA: bool,
> ImageBufferIterator<'a, Component, COMPONENT_STRIDE, HAS_ALPHA, SKIP_ALPHA> {
    /// The view covers whole pixels and has not run past the last one.
    pub open spec fn wf(&self) -> bool {
        &&& COMPONENT_STRIDE >= 1
        &&& self.data@.len() == self.count * COMPONENT_STRIDE
        &&& self.position <= self.count
    }

    /// Every item of the view, those already yielded included.
    pub open spec fn items(&self) -> Seq<Seq<Component>> {
        view_items(
            self.data@,
            COMPONENT_STRIDE as int,
            visible_channels(COMPONENT_STRIDE as int, HAS_ALPHA, SKIP_ALPHA),
            self.count as int,
        )
    }

    /// The next pixel of the view, or `None` when every pixel has been yielded.
    pub fn next(&mut self) -> (r: Option<&'a [Component]>)
        requires
            old(self).wf(),
        ensures
            final(self).wf(),
            final(self).data@ == old(self).data@,
            final(self).count == old(self).count,
            old(self).position >= old(self).count ==> r is None && final(self).position == old(
                self,
            ).position,
            old(self).position < old(self).count ==> r is Some && r.unwrap()@ == old(
                self,
            ).items()[old(self).position as int] && final(self).position == old(self).position + 1,
    {
        if self.position >= self.count {
            return None;
        }
        proof {
            assert(self.data.len() <= usize::MAX);
            lemma_flat_index(
                self.position as int,
                0,
                self.count as int,
                COMPONENT_STRIDE as int,
            );
        }
        let start = self.position * COMPONENT_STRIDE;
        let visible = if HAS_ALPHA && SKIP_ALPHA {
            COMPONENT_STRIDE - 1
        } else {
            COMPONENT_STRIDE
        };
        let item = vstd::slice::slice_subrange(self.data, start, start + visible);
        proof {
            assert(item@ =~= self.items()[self.position as int]);
        }
        self.position += 1;
        Some(item)
    }
}

/// The run `s` with the components from `start` up to `end` replaced by `item`.
pub open spec fn spliced<T>(s: Seq<T>, start: int, end: int, item: Seq<T>) -> Seq<T> {
    s.subrange(0, start) + item + s.subrange(end, s.len() as int)
}

/// A mutating view of a buffer, pixel by pixel in row-major order. Each item
/// is lent out until the next one is asked for.
pub struct ImagebufferIteratorMut<
    'a,
    Component: PixelComponent,
    const COMPONENT_STRIDE: usize,
    const HAS_ALPHA: bool,
    const SKIP_ALPHA: bool,
> {
    pub data: &'a mut Vec<Component>,
    pub count: usize,
    pub position: usize,
}

impl<
    'a,
    Component: PixelComponent,
    const COMPONENT_STRIDE: usize,
    const HAS_ALPHA: bool,
    const SKIP_ALPHA: bool,
> ImagebufferIteratorMut<'a, Component, COMPONENT_STRIDE, HAS_ALPHA, SKIP_ALPHA> {
    /// The view covers whole pixels and has not run past the last one.
    pub open spec fn wf(&self) -> bool {
        &&& COMPONENT_STRIDE >= 1
        &&& self.data@.len() == self.count * COMPONENT_STRIDE
        &&& self.position <= self.count
    }

    /// How many channels of each pixel the view shows.
    pub open spec fn visible() -> int {
        visible_channels(COMPONENT_STRIDE as int, HAS_ALPHA, SKIP_ALPHA)
    }

    /// Every item of the view as the storage holds it now, those already
    /// yielded included.
    pub open spec fn items(&self) -> Seq<Seq<Component>> {
        view_items(self.data@, COMPONENT_STRIDE as int, Self::visible(), self.count as int)
    }

    /// The next pixel of the view, lent for writing, or `None` when every
    /// pixel has been yielded. Whatever the caller leaves in the item takes the
    /// place of the pixel's visible channels; nothing else in the storage
    /// changes.
    pub fn next(&mut self) -> (r: Option<&mut [Component]>)
        requires
            old(self).wf(),
        ensures
            final(self).count == old(self).count,
            *final(final(self).data) == *final(old(self).data),
            old(self).position >= old(self).count ==> r is None && final(self).position == old(
                self,
            ).position && final(self).data@ == old(self).data@,
            old(self).position < old(self).count ==> r is Some && r.unwrap()@ == old(
                self,
            ).items()[old(self).position as int] && final(self).position == old(self).position + 1
                && final(self).data@ == spliced(
                old(self).data@,
                old(self).position * COMPONENT_STRIDE,
                old(self).position * COMPONENT_STRIDE + Self::visible(),
                final(r.unwrap())@,
            ),
            old(self).position < old(self).count && final(r.unwrap())@.len() == r.unwrap()@.len()
                ==> final(self).wf(),
    {
        if self.position >= self.count {
            return None;
        }
        proof {
            assert(self.data.len() <= usize::MAX);
            lemma_flat_index(
                self.position as int,
                0,
                self.count as int,
                COMPONENT_STRIDE as int,
            );
        }
        let start = self.position * COMPONENT_STRIDE;
        let visible = if HAS_ALPHA && SKIP_ALPHA {
            COMPONENT_STRIDE - 1
        } else {
            COMPONENT_STRIDE
        };
        proof {
            assert(self.data@.subrange(start as int, start + visible) =~= self.items()[self.position as int]);
        }
        self.position += 1;
        let slice: &mut [Component] = self.data.as_mut_slice();
        let (_, tail) = slice.split_at_mut(start);
        let (item, _) = tail.split_at_mut(visible);
        Some(item)
    }
}

impl<
    Component: PixelComponent,
    const COMPONENTS_PER_PEL: usize,
    const HAS_ALPHA: bool,
> ImageBuffer<Component, COMPONENTS_PER_PEL, HAS_ALPHA> {
    /// What a read view of this buffer yields: of each pixel in row-major
    /// order, every channel, or every channel but alpha where `skip_alpha`
    /// is set and the layout has an alpha channel.
    pub open spec fn items(&self, skip_alpha: bool) -> Seq<Seq<Component>> {
        view_items(
            self@,
            COMPONENTS_PER_PEL as int,
            visible_channels(COMPONENTS_PER_PEL as int, HAS_ALPHA, skip_alpha),
            self.pixel_count(),
        )
    }

    /// The default read view, which skips the alpha channel.
    pub fn iter(&self) -> (r: ImageBufferIterator<
        '_,
        Component,
        COMPONENTS_PER_PEL,
        HAS_ALPHA,
        true,
    >)
        requires
            self.wf(),
        ensures
            r.wf(),
            r.position == 0,
            r.count == self.pixel_count(),
            r.items() == self.items(true),
    {
        self.iter_no_alpha()
    }

    /// The read view that skips the alpha channel.
    pub fn iter_no_alpha(&self) -> (r: ImageBufferIterator<
        '_,
        Component,
        COMPONENTS_PER_PEL,
        HAS_ALPHA,
        true,
    >)
        requires
            self.wf(),
        ensures
            r.wf(),
            r.position == 0,
            r.count == self.pixel_count(),
            r.items() == self.items(true),
    {
        let count = self.count();
        let r = ImageBufferIterator { data: self.data.as_slice(), count, position: 0 };
        r
    }

    /// The read view that shows every channel, alpha included.
    pub fn iter_with_alpha(&self) -> (r: ImageBufferIterator<
        '_,
        Component,
        COMPONENTS_PER_PEL,
        HAS_ALPHA,
        false,
    >)
        requires
            self.wf(),
        ensures
            r.wf(),
            r.position == 0,
            r.count == self.pixel_count(),
            r.items() == self.items(false),
    {
        let count = self.count();
        let r = ImageBufferIterator { data: self.data.as_slice(), count, position: 0 };
        r
    }

    /// The default mutating view, which skips the alpha channel.
    pub fn iter_mut(&mut self) -> (r: ImagebufferIteratorMut<
        '_,
        Component,
        COMPONENTS_PER_PEL,
        HAS_ALPHA,
        true,
    >)
        requires
            old(self).wf(),
        ensures
            r.wf(),
            r.position == 0,
            r.count == old(self).pixel_count(),
            *r.data == old(self).data,
            final(self).data == *final(r.data),
            final(self).width == old(self).width,
            final(self).height == old(self).height,
    {
        self.iter_no_alpha_mut()
    }

    /// The mutating view that skips the alpha channel.
    pub fn iter_no_alpha_mut(&mut self) -> (r: ImagebufferIteratorMut<
        '_,
        Component,
        COMPONENTS_PER_PEL,
        HAS_ALPHA,
        true,
    >)
        requires
            old(self).wf(),
        ensures
            r.wf(),
            r.position == 0,
            r.count == old(self).pixel_count(),
            *r.data == old(self).data,
            final(self).data == *final(r.data),
            final(self).width == old(self).width,
            final(self).height == old(self).height,
    {
        let count = self.count();
        ImagebufferIteratorMut { data: &mut self.data, count, position: 0 }
    }

    /// The mutating view that shows every channel, alpha included.
    pub fn iter_with_alpha_mut(&mut self) -> (r: ImagebufferIteratorMut<
        '_,
        Component,
        COMPONENTS_PER_PEL,
        HAS_ALPHA,
        false,
    >)
        requires
            old(self).wf(),
        ensures
            r.wf(),
            r.position == 0,
            r.count == old(self).pixel_count(),
            *r.data == old(self).data,
            final(self).data == *final(r.data),
            final(self).width == old(self).width,
            final(self).height == old(self).height,
    {
        let count = self.count();
        ImagebufferIteratorMut { data: &mut self.data, count, position: 0 }
    }
}

} // verus!
