//! A raw picture on its way to the encoder.

use vstd::prelude::*;

verus! {

/// One uncompressed picture: three planes borrowed from the caller, the row
/// stride of each, and the number of payload bytes.
///
/// A `Frame` owns no pixel. The planes must stay untouched until the send call
/// that the frame is used for has returned, which the borrow enforces. Nothing
/// relates the plane lengths to the strides; the encoder is the judge of that.
#[derive(Debug, Clone, Copy, PartialEq, PartialOrd)]
pub struct Frame<'a> {
    luma: &'a [u8],
    cb: &'a [u8],
    cr: &'a [u8],
    y_stride: u32,
    cr_stride: u32,
    cb_stride: u32,
    size: u32,
}

/// What a [`Frame`] holds, as mathematical values.
pub struct FrameView {
    /// Samples of the luma plane.
    pub luma: Seq<u8>,
    /// Samples of the blue-difference chroma plane.
    pub cb: Seq<u8>,
    /// Samples of the red-difference chroma plane.
    pub cr: Seq<u8>,
    /// Row stride of the luma plane.
    pub y_stride: u32,
    /// Row stride of the red-difference plane.
    pub cr_stride: u32,
    /// Row stride of the blue-difference plane.
    pub cb_stride: u32,
    /// Number of payload bytes.
    pub size: u32,
}

impl<'a> View for Frame<'a> {
    type V = FrameView;

    closed spec fn view(&self) -> FrameView {
        FrameView {
            luma: self.luma@,
            cb: self.cb@,
            cr: self.cr@,
            y_stride: self.y_stride,
            cr_stride: self.cr_stride,
            cb_stride: self.cb_stride,
            size: self.size,
        }
    }
}

impl<'a> Frame<'a> {
    /// A frame over the given planes. The strides are taken in the order luma,
    /// blue-difference, red-difference. Every value is kept as given.
    pub fn new(
        luma: &'a [u8],
        cb: &'a [u8],
        cr: &'a [u8],
        y_stride: u32,
        cb_stride: u32,
        cr_stride: u32,
        size: u32,
    ) -> (frame: Self)
        ensures
            frame@ == (FrameView {
                luma: luma@,
                cb: cb@,
                cr: cr@,
                y_stride,
                cr_stride,
                cb_stride,
                size,
            }),
    {
        Self { luma, cb, cr, y_stride, cr_stride, cb_stride, size }
    }

    /// The luma plane.
    pub fn luma(&self) -> (plane: &'a [u8])
        ensures
            plane@ == self@.luma,
    {
        self.luma
    }

    /// The blue-difference chroma plane.
    pub fn cb(&self) -> (plane: &'a [u8])
        ensures
            plane@ == self@.cb,
    {
        self.cb
    }

    /// The red-difference chroma plane.
    pub fn cr(&self) -> (plane: &'a [u8])
        ensures
            plane@ == self@.cr,
    {
        self.cr
    }

    /// Row stride of the luma plane.
    pub fn y_stride(&self) -> (stride: u32)
        ensures
            stride == self@.y_stride,
    {
        self.y_stride
    }

    /// Row stride of the blue-difference plane.
    pub fn cb_stride(&self) -> (stride: u32)
        ensures
            stride == self@.cb_stride,
    {
        self.cb_stride
    }

    /// Row stride of the red-difference plane.
    pub fn cr_stride(&self) -> (stride: u32)
        ensures
            stride == self@.cr_stride,
    {
        self.cr_stride
    }

    /// Number of payload bytes.
    pub fn size(&self) -> (size: u32)
        ensures
            size == self@.size,
    {
        self.size
    }
}

} // verus!
