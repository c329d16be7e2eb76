//! The single shared holder of the most recently decoded image: empty until
//! the first successful decode, thereafter always the latest published image.
//! The load worker is its sole writer; save workers only read it. The process
//! wraps it in its lock of choice; the contracts here pin down what one store
//! or read does to the held value.

use vstd::prelude::*;

use crate::image_data::DecodedImage;
use crate::image_data::ImageView;

verus! {

/// A cell holding no image yet, or the last successfully decoded image.
pub struct SharedImageSlot {
    current: Option<DecodedImage>,
}

impl View for SharedImageSlot {
    type V = Option<ImageView>;

    closed spec fn view(&self) -> Option<ImageView> {
        match self.current {
            Option::None => Option::None,
            Option::Some(img) => Option::Some(img@),
        }
    }
}

impl SharedImageSlot {
    /// Any image the slot holds is well formed.
    pub open spec fn wf(&self) -> bool {
        match self@ {
            Option::None => true,
            Option::Some(v) => v.wf(),
        }
    }

    /// A fresh slot holds nothing.
    pub fn new() -> (slot: Self)
        ensures
            slot@ is None,
            slot.wf(),
    {
        SharedImageSlot { current: Option::None }
    }

    /// Replaces the held value unconditionally: after the call the slot holds
    /// exactly the stored image, whatever it held before.
    pub fn store(&mut self, image: DecodedImage)
        requires
            image.wf(),
        ensures
            final(self)@ == Some(image@),
            final(self).wf(),
    {
        self.current = Option::Some(image);
    }

    /// Returns a copy of the current value without removing it: a copy of the
    /// held image, with the same width, height and pixels, or nothing if no
    /// image has been published yet.
    pub fn read(&self) -> (r: Option<DecodedImage>)
        ensures
            r is Some <==> self@ is Some,
            r matches Some(img) ==> Some(img@) == self@ && (self.wf() ==> img.wf()),
    {
        match &self.current {
            Option::None => Option::None,
            Option::Some(img) => Option::Some(img.duplicate()),
        }
    }
}

/// Law: once a store has published an image, any read of the slot in that
/// state yields an image with the stored width, height and pixels.
pub proof fn lemma_read_after_store(slot: SharedImageSlot, image: DecodedImage)
    requires
        slot@ == Some(image@),
    ensures
        forall|r: Option<DecodedImage>|
            call_ensures(SharedImageSlot::read, (&slot,), r) ==> (r matches Some(copy)
                && copy@ == image@),
{
}

} // verus!
