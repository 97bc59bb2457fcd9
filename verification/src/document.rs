//! The pages of one decode, in the order the engine completed them.

use vstd::prelude::*;

use crate::image::{Image, Raster};

verus! {

/// All images that one decode produced. The number of images is fixed; the
/// pixels of each may be changed.
#[derive(Debug)]
pub struct Document {
    images: Vec<Image>,
}

/// The rasters of a sequence of images.
pub open spec fn rasters(images: Seq<Image>) -> Seq<Raster> {
    Seq::new(images.len(), |i: int| images[i]@)
}

impl View for Document {
    type V = Seq<Raster>;

    closed spec fn view(&self) -> Seq<Raster> {
        rasters(self.images@)
    }
}

impl Document {
    /// The document that holds `images`, in their order.
    pub fn new(images: Vec<Image>) -> (document: Self)
        ensures
            document@ == rasters(images@),
    {
        Document { images }
    }

    /// The images, first page first.
    pub fn images(&self) -> (images: &[Image])
        ensures
            rasters(images@) == self@,
    {
        self.images.as_slice()
    }

    /// Number of images.
    pub fn len(&self) -> (len: usize)
        ensures
            len == self@.len(),
    {
        self.images.len()
    }

    /// Gives up the document for its images.
    pub fn into_inner(self) -> (images: Vec<Image>)
        ensures
            rasters(images@) == self@,
    {
        self.images
    }
}

impl std::ops::Index<usize> for Document {
    type Output = Image;

    fn index(&self, index: usize) -> (image: &Image)
        ensures
            image@ == self@[index as int],
    {
        &self.images[index]
    }
}

impl vstd::std_specs::core::IndexSpecImpl<usize> for Document {
    open spec fn index_req(&self, index: &usize) -> bool {
        *index < self@.len()
    }
}

impl Document {
    /// The image at `index`, for changing its pixels in place. The other
    /// images and the number of images stay as they are.
    pub fn index_mut(&mut self, index: usize) -> (image: &mut Image)
        requires
            index < old(self)@.len(),
        ensures
            image@ == old(self)@[index as int],
            final(self)@ == old(self)@.update(index as int, final(image)@),
    {
        &mut self.images[index]
    }
}

impl Clone for Document {
    /// A document with a copy of every image.
    fn clone(&self) -> (copy: Self)
        ensures
            copy@ == self@,
    {
        let mut images: Vec<Image> = Vec::with_capacity(self.images.len());
        let mut i: usize = 0;
        while i < self.images.len()
            invariant
                i <= self.images@.len(),
                images@.len() == i,
                forall|j: int| 0 <= j < i ==> images@[j]@ == self.images@[j]@,
            decreases self.images@.len() - i,
        {
            images.push(self.images[i].clone());
            i += 1;
        }
        Document { images }
    }
}

impl IntoIterator for Document {
    type Item = Image;

    type IntoIter = std::vec::IntoIter<Image>;

    fn into_iter(self) -> (iter: std::vec::IntoIter<Image>)
        ensures
            rasters(vstd::std_specs::vec::into_iter_elts(iter)) == self@,
    {
        self.images.into_iter()
    }
}

} // verus!
