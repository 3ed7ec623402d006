//! The buffer header: the record that accompanies every picture handed to the
//! encoder and every packet it hands out.
//!
//! Where the native record holds an address, this one holds the address as a
//! plain integer and never reads through it. The exception is the payload of a
//! picture, which is kept as the three borrowed planes themselves.

use vstd::prelude::*;

verus! {

/// How a picture is to be coded, or was coded.
#[derive(Debug, Copy, Clone, Hash, PartialEq, Eq, Structural)]
pub enum Av1PictureType {
    /// Predicted from other pictures.
    Av1InterPicture,
    /// Alternate reference.
    Av1AltRefPicture,
    /// Intra coded, without resetting the references.
    Av1IntraOnlyPicture,
    /// Key frame.
    Av1KeyPicture,
    /// Referenced by no other picture.
    Av1NonRefPicture,
    /// Shows a picture coded earlier.
    Av1ShowExistingPicture,
    /// Forward key frame.
    Av1FwKeyPicture,
    /// Switch frame.
    Av1SwitchPicture,
    /// No type set: the encoder chooses.
    Av1InvalidPicture,
}

impl Av1PictureType {
    /// The number that stands for this picture type on the native side.
    pub open spec fn spec_value(self) -> u32 {
        match self {
            Av1PictureType::Av1InterPicture => 0,
            Av1PictureType::Av1AltRefPicture => 1,
            Av1PictureType::Av1IntraOnlyPicture => 2,
            Av1PictureType::Av1KeyPicture => 3,
            Av1PictureType::Av1NonRefPicture => 4,
            Av1PictureType::Av1ShowExistingPicture => 6,
            Av1PictureType::Av1FwKeyPicture => 5,
            Av1PictureType::Av1SwitchPicture => 7,
            Av1PictureType::Av1InvalidPicture => 0xFF,
        }
    }

    /// The number that stands for this picture type on the native side.
    pub fn value(self) -> (value: u32)
        ensures
            value == self.spec_value(),
    {
        match self {
            Av1PictureType::Av1InterPicture => 0,
            Av1PictureType::Av1AltRefPicture => 1,
            Av1PictureType::Av1IntraOnlyPicture => 2,
            Av1PictureType::Av1KeyPicture => 3,
            Av1PictureType::Av1NonRefPicture => 4,
            Av1PictureType::Av1ShowExistingPicture => 6,
            Av1PictureType::Av1FwKeyPicture => 5,
            Av1PictureType::Av1SwitchPicture => 7,
            Av1PictureType::Av1InvalidPicture => 0xFF,
        }
    }

    /// The picture type that a number stands for, or `None` where it stands for none.
    pub fn from_value(value: u32) -> (found: Option<Self>)
        ensures
            match found {
                Some(v) => v.spec_value() == value,
                None => forall|v: Av1PictureType| v.spec_value() != value,
            },
    {
        match value {
            0 => Some(Av1PictureType::Av1InterPicture),
            1 => Some(Av1PictureType::Av1AltRefPicture),
            2 => Some(Av1PictureType::Av1IntraOnlyPicture),
            3 => Some(Av1PictureType::Av1KeyPicture),
            4 => Some(Av1PictureType::Av1NonRefPicture),
            5 => Some(Av1PictureType::Av1FwKeyPicture),
            6 => Some(Av1PictureType::Av1ShowExistingPicture),
            7 => Some(Av1PictureType::Av1SwitchPicture),
            0xFF => Some(Av1PictureType::Av1InvalidPicture),
            _ => None,
        }
    }
}

/// What a node of private data describes.
#[derive(Debug, Copy, Clone, Hash, PartialEq, Eq, Structural)]
pub enum PrivDataType {
    /// Data of the application, passed through untouched.
    PrivateData,
    /// A change of the reference scaling.
    RefFrameScalingEvent,
    /// A region-of-interest map.
    RoiMapEvent,
    /// A change of resolution.
    ResChangeEvent,
    /// A change of rate.
    RateChangeEvent,
    /// The number of node types.
    PrivateDataTypes,
}

impl PrivDataType {
    /// The number that stands for this node type on the native side.
    pub open spec fn spec_value(self) -> u32 {
        match self {
            PrivDataType::PrivateData => 0,
            PrivDataType::RefFrameScalingEvent => 1,
            PrivDataType::RoiMapEvent => 2,
            PrivDataType::ResChangeEvent => 3,
            PrivDataType::RateChangeEvent => 4,
            PrivDataType::PrivateDataTypes => 5,
        }
    }

    /// The number that stands for this node type on the native side.
    pub fn value(self) -> (value: u32)
        ensures
            value == self.spec_value(),
    {
        match self {
            PrivDataType::PrivateData => 0,
            PrivDataType::RefFrameScalingEvent => 1,
            PrivDataType::RoiMapEvent => 2,
            PrivDataType::ResChangeEvent => 3,
            PrivDataType::RateChangeEvent => 4,
            PrivDataType::PrivateDataTypes => 5,
        }
    }

    /// The node type that a number stands for, or `None` where it stands for none.
    pub fn from_value(value: u32) -> (found: Option<Self>)
        ensures
            match found {
                Some(v) => v.spec_value() == value,
                None => forall|v: PrivDataType| v.spec_value() != value,
            },
    {
        match value {
            0 => Some(PrivDataType::PrivateData),
            1 => Some(PrivDataType::RefFrameScalingEvent),
            2 => Some(PrivDataType::RoiMapEvent),
            3 => Some(PrivDataType::ResChangeEvent),
            4 => Some(PrivDataType::RateChangeEvent),
            5 => Some(PrivDataType::PrivateDataTypes),
            _ => None,
        }
    }
}

/// An opaque list of metadata attached to a buffer. Nothing of it is visible
/// on this side.
#[derive(Debug, Copy, Clone)]
pub struct SvtMetadataArray {
    _unused: [u8; 0],
}

/// One node in a chain of private data attached to a picture.
#[derive(Debug, Copy, Clone)]
pub struct PrivDataNode {
    /// What the node describes.
    pub node_type: PrivDataType,
    /// Address of the node's data.
    pub data: usize,
    /// Size of the data in bytes.
    pub size: u32,
    /// Address of the next node, zero at the end of the chain.
    pub next: usize,
}

impl PrivDataNode {
    /// The node whose every field is zero.
    pub open spec fn spec_default() -> PrivDataNode {
        PrivDataNode { node_type: PrivDataType::PrivateData, data: 0, size: 0, next: 0 }
    }
}

impl Default for PrivDataNode {
    /// The node whose every field is zero.
    fn default() -> (node: PrivDataNode)
        ensures
            node == PrivDataNode::spec_default(),
    {
        PrivDataNode { node_type: PrivDataType::PrivateData, data: 0, size: 0, next: 0 }
    }
}

/// The planes of one picture and the distance in samples from one row to the
/// next in each. The planes are borrowed; nothing is copied.
#[derive(Debug, Copy, Clone)]
pub struct SvtIOFormat<'a> {
    /// Luma plane.
    pub luma: &'a [u8],
    /// Blue-difference chroma plane.
    pub cb: &'a [u8],
    /// Red-difference chroma plane.
    pub cr: &'a [u8],
    /// Row stride of the luma plane.
    pub y_stride: u32,
    /// Row stride of the red-difference plane.
    pub cr_stride: u32,
    /// Row stride of the blue-difference plane.
    pub cb_stride: u32,
}

impl<'a> Default for SvtIOFormat<'a> {
    /// Three empty planes with strides of zero.
    fn default() -> (picture: SvtIOFormat<'a>)
        ensures
            picture.luma@.len() == 0,
            picture.cb@.len() == 0,
            picture.cr@.len() == 0,
            picture.y_stride == 0,
            picture.cr_stride == 0,
            picture.cb_stride == 0,
    {
        let empty: &'a [u8] = &[];
        SvtIOFormat { luma: empty, cb: empty, cr: empty, y_stride: 0, cr_stride: 0, cb_stride: 0 }
    }
}

/// The header of a buffer that crosses the boundary.
#[derive(Debug, Copy, Clone)]
pub struct BufferHeaderType<'a> {
    /// Size of the native record.
    pub size: u32,
    /// The picture carried, if any. An end-of-stream header carries none.
    pub p_buffer: Option<SvtIOFormat<'a>>,
    /// Number of payload bytes in use.
    pub n_filled_len: u32,
    /// Number of payload bytes allocated.
    pub n_alloc_len: u32,
    /// Address of the application's private data.
    pub p_app_private: usize,
    /// Address of the encoder's wrapper object.
    pub wrapper_ptr: usize,
    /// Tick count.
    pub n_tick_count: u32,
    /// Decoding timestamp.
    pub dts: i64,
    /// Presentation timestamp.
    pub pts: i64,
    /// Temporal layer of the picture.
    pub temporal_layer_index: u8,
    /// Quantizer used.
    pub qp: u32,
    /// Average quantizer over the picture.
    pub avg_qp: u32,
    /// Picture type asked for, or reported.
    pub pic_type: Av1PictureType,
    /// Sum of squared errors of the luma plane.
    pub luma_sse: u64,
    /// Sum of squared errors of the red-difference plane.
    pub cr_sse: u64,
    /// Sum of squared errors of the blue-difference plane.
    pub cb_sse: u64,
    /// Flag word, see [`crate::flags`].
    pub flags: u32,
    /// Structural similarity of the luma plane, as the bits of a double.
    pub luma_ssim: u64,
    /// Structural similarity of the red-difference plane, as the bits of a double.
    pub cr_ssim: u64,
    /// Structural similarity of the blue-difference plane, as the bits of a double.
    pub cb_ssim: u64,
    /// Address of the attached metadata list.
    pub metadata: usize,
}

impl<'a> BufferHeaderType<'a> {
    /// The header that carries nothing and whose every number is zero. Zero as
    /// a picture type is `Av1InterPicture`.
    pub open spec fn spec_default() -> BufferHeaderType<'a> {
        BufferHeaderType {
            size: 0,
            p_buffer: None,
            n_filled_len: 0,
            n_alloc_len: 0,
            p_app_private: 0,
            wrapper_ptr: 0,
            n_tick_count: 0,
            dts: 0,
            pts: 0,
            temporal_layer_index: 0,
            qp: 0,
            avg_qp: 0,
            pic_type: Av1PictureType::Av1InterPicture,
            luma_sse: 0,
            cr_sse: 0,
            cb_sse: 0,
            flags: 0,
            luma_ssim: 0,
            cr_ssim: 0,
            cb_ssim: 0,
            metadata: 0,
        }
    }
}

impl<'a> Default for BufferHeaderType<'a> {
    /// The header that carries nothing and whose every number is zero.
    fn default() -> (header: BufferHeaderType<'a>)
        ensures
            header == BufferHeaderType::<'a>::spec_default(),
    {
        BufferHeaderType {
            size: 0,
            p_buffer: None,
            n_filled_len: 0,
            n_alloc_len: 0,
            p_app_private: 0,
            wrapper_ptr: 0,
            n_tick_count: 0,
            dts: 0,
            pts: 0,
            temporal_layer_index: 0,
            qp: 0,
            avg_qp: 0,
            pic_type: Av1PictureType::Av1InterPicture,
            luma_sse: 0,
            cr_sse: 0,
            cb_sse: 0,
            flags: 0,
            luma_ssim: 0,
            cr_ssim: 0,
            cb_ssim: 0,
            metadata: 0,
        }
    }
}

/// What a successful receive call hands out: the flag word of the packet, its
/// bytes, and the address of the native buffer that holds them.
#[derive(Debug, Copy, Clone)]
pub struct OutputBuffer<'a> {
    /// Flag word of the header.
    pub flags: u32,
    /// The filled part of the payload.
    pub data: &'a [u8],
    /// Address of the native header, to be given back on release.
    pub p_buffer: usize,
}

} // verus!
