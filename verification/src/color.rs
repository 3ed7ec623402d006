//! Colour description: primaries, transfer function, matrix, range, bit depth,
//! chroma format and chroma sample position, each with the number that stands
//! for it on the native side.

use vstd::prelude::*;

verus! {

/// Colour primaries, numbered as in ITU-T H.273.
#[derive(Debug, Copy, Clone, Hash, PartialEq, Eq, Structural)]
pub enum ColorPrimaries {
    /// Reserved.
    CicpCpReserved0,
    /// BT.709.
    CicpCpBt709,
    /// Not specified.
    CicpCpUnspecified,
    /// Reserved.
    CicpCpReserved3,
    /// BT.470 System M.
    CicpCpBt470M,
    /// BT.470 System B, G.
    CicpCpBt470BG,
    /// BT.601.
    CicpCpBt601,
    /// SMPTE 240.
    CicpCpSmpte240,
    /// Generic film.
    CicpCpGenericFilm,
    /// BT.2020 and BT.2100.
    CicpCpBt2020,
    /// SMPTE 428, CIE XYZ.
    CicpCpXyz,
    /// SMPTE RP 431-2.
    CicpCpSmpte431,
    /// SMPTE EG 432-1.
    CicpCpSmpte432,
    /// Reserved.
    CicpCpReserved13,
    /// EBU Tech. 3213-E.
    CicpCpEbu3213,
    /// Reserved.
    CicpCpReserved23,
    /// Reserved.
    CicpCpReserved24,
    /// Reserved.
    CicpCpReserved25,
    /// Reserved.
    CicpCpReserved26,
}

impl ColorPrimaries {
    /// The number that stands for this choice of primaries on the native side.
    pub open spec fn spec_value(self) -> u32 {
        match self {
            ColorPrimaries::CicpCpReserved0 => 0,
            ColorPrimaries::CicpCpBt709 => 1,
            ColorPrimaries::CicpCpUnspecified => 2,
            ColorPrimaries::CicpCpReserved3 => 3,
            ColorPrimaries::CicpCpBt470M => 4,
            ColorPrimaries::CicpCpBt470BG => 5,
            ColorPrimaries::CicpCpBt601 => 6,
            ColorPrimaries::CicpCpSmpte240 => 7,
            ColorPrimaries::CicpCpGenericFilm => 8,
            ColorPrimaries::CicpCpBt2020 => 9,
            ColorPrimaries::CicpCpXyz => 10,
            ColorPrimaries::CicpCpSmpte431 => 11,
            ColorPrimaries::CicpCpSmpte432 => 12,
            ColorPrimaries::CicpCpReserved13 => 13,
            ColorPrimaries::CicpCpEbu3213 => 22,
            ColorPrimaries::CicpCpReserved23 => 23,
            ColorPrimaries::CicpCpReserved24 => 24,
            ColorPrimaries::CicpCpReserved25 => 25,
            ColorPrimaries::CicpCpReserved26 => 26,
        }
    }

    /// The number that stands for this choice of primaries on the native side.
    pub fn value(self) -> (value: u32)
        ensures
            value == self.spec_value(),
    {
        match self {
            ColorPrimaries::CicpCpReserved0 => 0,
            ColorPrimaries::CicpCpBt709 => 1,
            ColorPrimaries::CicpCpUnspecified => 2,
            ColorPrimaries::CicpCpReserved3 => 3,
            ColorPrimaries::CicpCpBt470M => 4,
            ColorPrimaries::CicpCpBt470BG => 5,
            ColorPrimaries::CicpCpBt601 => 6,
            ColorPrimaries::CicpCpSmpte240 => 7,
            ColorPrimaries::CicpCpGenericFilm => 8,
            ColorPrimaries::CicpCpBt2020 => 9,
            ColorPrimaries::CicpCpXyz => 10,
            ColorPrimaries::CicpCpSmpte431 => 11,
            ColorPrimaries::CicpCpSmpte432 => 12,
            ColorPrimaries::CicpCpReserved13 => 13,
            ColorPrimaries::CicpCpEbu3213 => 22,
            ColorPrimaries::CicpCpReserved23 => 23,
            ColorPrimaries::CicpCpReserved24 => 24,
            ColorPrimaries::CicpCpReserved25 => 25,
            ColorPrimaries::CicpCpReserved26 => 26,
        }
    }

    /// The choice of primaries that a number stands for, or `None` where it stands for none.
    pub fn from_value(value: u32) -> (found: Option<Self>)
        ensures
            match found {
                Some(v) => v.spec_value() == value,
                None => forall|v: ColorPrimaries| v.spec_value() != value,
            },
    {
        match value {
            0 => Some(ColorPrimaries::CicpCpReserved0),
            1 => Some(ColorPrimaries::CicpCpBt709),
            2 => Some(ColorPrimaries::CicpCpUnspecified),
            3 => Some(ColorPrimaries::CicpCpReserved3),
            4 => Some(ColorPrimaries::CicpCpBt470M),
            5 => Some(ColorPrimaries::CicpCpBt470BG),
            6 => Some(ColorPrimaries::CicpCpBt601),
            7 => Some(ColorPrimaries::CicpCpSmpte240),
            8 => Some(ColorPrimaries::CicpCpGenericFilm),
            9 => Some(ColorPrimaries::CicpCpBt2020),
            10 => Some(ColorPrimaries::CicpCpXyz),
            11 => Some(ColorPrimaries::CicpCpSmpte431),
            12 => Some(ColorPrimaries::CicpCpSmpte432),
            13 => Some(ColorPrimaries::CicpCpReserved13),
            22 => Some(ColorPrimaries::CicpCpEbu3213),
            23 => Some(ColorPrimaries::CicpCpReserved23),
            24 => Some(ColorPrimaries::CicpCpReserved24),
            25 => Some(ColorPrimaries::CicpCpReserved25),
            26 => Some(ColorPrimaries::CicpCpReserved26),
            _ => None,
        }
    }
}

/// Transfer functions, numbered as in ITU-T H.273.
#[derive(Debug, Copy, Clone, Hash, PartialEq, Eq, Structural)]
pub enum TransferCharacteristics {
    /// Reserved.
    CicpTcReserved0,
    /// BT.709.
    CicpTcBt709,
    /// Not specified.
    CicpTcUnspecified,
    /// Reserved.
    CicpTcReserved3,
    /// BT.470 System M.
    CicpTcBt470M,
    /// BT.470 System B, G.
    CicpTcBt470BG,
    /// BT.601.
    CicpTcBt601,
    /// SMPTE 240 M.
    CicpTcSmpte240,
    /// Linear.
    CicpTcLinear,
    /// Logarithmic, range 100 to 1.
    CicpTcLog100,
    /// Logarithmic, range 100 times the square root of 10 to 1.
    CicpTcLog100Sqrt10,
    /// IEC 61966-2-4.
    CicpTcIec61966,
    /// BT.1361.
    CicpTcBt1361,
    /// sRGB or sYCC.
    CicpTcSrgb,
    /// BT.2020 for 10-bit systems.
    CicpTcBt2020_10Bit,
    /// BT.2020 for 12-bit systems.
    CicpTcBt2020_12Bit,
    /// SMPTE ST 2084, the PQ curve.
    CicpTcSmpte2084,
    /// SMPTE ST 428.
    CicpTcSmpte428,
    /// Hybrid log-gamma.
    CicpTcHlg,
    /// Reserved.
    CicpTcReserved19,
    /// Reserved.
    CicpTcReserved20,
    /// Reserved.
    CicpTcReserved21,
    /// Reserved.
    CicpTcReserved22,
    /// Reserved.
    CicpTcReserved23,
}

impl TransferCharacteristics {
    /// The number that stands for this transfer function on the native side.
    pub open spec fn spec_value(self) -> u32 {
        match self {
            TransferCharacteristics::CicpTcReserved0 => 0,
            TransferCharacteristics::CicpTcBt709 => 1,
            TransferCharacteristics::CicpTcUnspecified => 2,
            TransferCharacteristics::CicpTcReserved3 => 3,
            TransferCharacteristics::CicpTcBt470M => 4,
            TransferCharacteristics::CicpTcBt470BG => 5,
            TransferCharacteristics::CicpTcBt601 => 6,
            TransferCharacteristics::CicpTcSmpte240 => 7,
            TransferCharacteristics::CicpTcLinear => 8,
            TransferCharacteristics::CicpTcLog100 => 9,
            TransferCharacteristics::CicpTcLog100Sqrt10 => 10,
            TransferCharacteristics::CicpTcIec61966 => 11,
            TransferCharacteristics::CicpTcBt1361 => 12,
            TransferCharacteristics::CicpTcSrgb => 13,
            TransferCharacteristics::CicpTcBt2020_10Bit => 14,
            TransferCharacteristics::CicpTcBt2020_12Bit => 15,
            TransferCharacteristics::CicpTcSmpte2084 => 16,
            TransferCharacteristics::CicpTcSmpte428 => 17,
            TransferCharacteristics::CicpTcHlg => 18,
            TransferCharacteristics::CicpTcReserved19 => 19,
            TransferCharacteristics::CicpTcReserved20 => 20,
            TransferCharacteristics::CicpTcReserved21 => 21,
            TransferCharacteristics::CicpTcReserved22 => 22,
            TransferCharacteristics::CicpTcReserved23 => 23,
        }
    }

    /// The number that stands for this transfer function on the native side.
    pub fn value(self) -> (value: u32)
        ensures
            value == self.spec_value(),
    {
        match self {
            TransferCharacteristics::CicpTcReserved0 => 0,
            TransferCharacteristics::CicpTcBt709 => 1,
            TransferCharacteristics::CicpTcUnspecified => 2,
            TransferCharacteristics::CicpTcReserved3 => 3,
            TransferCharacteristics::CicpTcBt470M => 4,
            TransferCharacteristics::CicpTcBt470BG => 5,
            TransferCharacteristics::CicpTcBt601 => 6,
            TransferCharacteristics::CicpTcSmpte240 => 7,
            TransferCharacteristics::CicpTcLinear => 8,
            TransferCharacteristics::CicpTcLog100 => 9,
            TransferCharacteristics::CicpTcLog100Sqrt10 => 10,
            TransferCharacteristics::CicpTcIec61966 => 11,
            TransferCharacteristics::CicpTcBt1361 => 12,
            TransferCharacteristics::CicpTcSrgb => 13,
            TransferCharacteristics::CicpTcBt2020_10Bit => 14,
            TransferCharacteristics::CicpTcBt2020_12Bit => 15,
            TransferCharacteristics::CicpTcSmpte2084 => 16,
            TransferCharacteristics::CicpTcSmpte428 => 17,
            TransferCharacteristics::CicpTcHlg => 18,
            TransferCharacteristics::CicpTcReserved19 => 19,
            TransferCharacteristics::CicpTcReserved20 => 20,
            TransferCharacteristics::CicpTcReserved21 => 21,
            TransferCharacteristics::CicpTcReserved22 => 22,
            TransferCharacteristics::CicpTcReserved23 => 23,
        }
    }

    /// The transfer function that a number stands for, or `None` where it stands for none.
    pub fn from_value(value: u32) -> (found: Option<Self>)
        ensures
            match found {
                Some(v) => v.spec_value() == value,
                None => forall|v: TransferCharacteristics| v.spec_value() != value,
            },
    {
        match value {
            0 => Some(TransferCharacteristics::CicpTcReserved0),
            1 => Some(TransferCharacteristics::CicpTcBt709),
            2 => Some(TransferCharacteristics::CicpTcUnspecified),
            3 => Some(TransferCharacteristics::CicpTcReserved3),
            4 => Some(TransferCharacteristics::CicpTcBt470M),
            5 => Some(TransferCharacteristics::CicpTcBt470BG),
            6 => Some(TransferCharacteristics::CicpTcBt601),
            7 => Some(TransferCharacteristics::CicpTcSmpte240),
            8 => Some(TransferCharacteristics::CicpTcLinear),
            9 => Some(TransferCharacteristics::CicpTcLog100),
            10 => Some(TransferCharacteristics::CicpTcLog100Sqrt10),
            11 => Some(TransferCharacteristics::CicpTcIec61966),
            12 => Some(TransferCharacteristics::CicpTcBt1361),
            13 => Some(TransferCharacteristics::CicpTcSrgb),
            14 => Some(TransferCharacteristics::CicpTcBt2020_10Bit),
            15 => Some(TransferCharacteristics::CicpTcBt2020_12Bit),
            16 => Some(TransferCharacteristics::CicpTcSmpte2084),
            17 => Some(TransferCharacteristics::CicpTcSmpte428),
            18 => Some(TransferCharacteristics::CicpTcHlg),
            19 => Some(TransferCharacteristics::CicpTcReserved19),
            20 => Some(TransferCharacteristics::CicpTcReserved20),
            21 => Some(TransferCharacteristics::CicpTcReserved21),
            22 => Some(TransferCharacteristics::CicpTcReserved22),
            23 => Some(TransferCharacteristics::CicpTcReserved23),
            _ => None,
        }
    }
}

/// Matrix coefficients, numbered as in ITU-T H.273.
#[derive(Debug, Copy, Clone, Hash, PartialEq, Eq, Structural)]
pub enum MatrixCoefficients {
    /// Identity matrix.
    CicpMcIdentity,
    /// BT.709.
    CicpMcBt709,
    /// Not specified.
    CicpMcUnspecified,
    /// Reserved.
    CicpMcReserved3,
    /// US FCC 73.628.
    CicpMcFcc,
    /// BT.470 System B, G.
    CicpMcBt470BG,
    /// BT.601.
    CicpMcBt601,
    /// SMPTE 240 M.
    CicpMcSmpte240,
    /// YCgCo.
    CicpMcSmpteYcgco,
    /// BT.2020 with non-constant luminance.
    CicpMcBt2020Ncl,
    /// BT.2020 with constant luminance.
    CicpMcBt2020Cl,
    /// SMPTE ST 2085.
    CicpMcSmpte2085,
    /// Derived from chromaticity, non-constant luminance.
    CicpMcChromatNcl,
    /// Derived from chromaticity, constant luminance.
    CicpMcChromatCl,
    /// BT.2100 ICtCp.
    CicpMcIctcp,
    /// Reserved.
    CicpMcReserved15,
    /// Reserved.
    CicpMcReserved16,
    /// Reserved.
    CicpMcReserved17,
    /// Reserved.
    CicpMcReserved18,
}

impl MatrixCoefficients {
    /// The number that stands for this matrix on the native side.
    pub open spec fn spec_value(self) -> u32 {
        match self {
            MatrixCoefficients::CicpMcIdentity => 0,
            MatrixCoefficients::CicpMcBt709 => 1,
            MatrixCoefficients::CicpMcUnspecified => 2,
            MatrixCoefficients::CicpMcReserved3 => 3,
            MatrixCoefficients::CicpMcFcc => 4,
            MatrixCoefficients::CicpMcBt470BG => 5,
            MatrixCoefficients::CicpMcBt601 => 6,
            MatrixCoefficients::CicpMcSmpte240 => 7,
            MatrixCoefficients::CicpMcSmpteYcgco => 8,
            MatrixCoefficients::CicpMcBt2020Ncl => 9,
            MatrixCoefficients::CicpMcBt2020Cl => 10,
            MatrixCoefficients::CicpMcSmpte2085 => 11,
            MatrixCoefficients::CicpMcChromatNcl => 12,
            MatrixCoefficients::CicpMcChromatCl => 13,
            MatrixCoefficients::CicpMcIctcp => 14,
            MatrixCoefficients::CicpMcReserved15 => 15,
            MatrixCoefficients::CicpMcReserved16 => 16,
            MatrixCoefficients::CicpMcReserved17 => 17,
            MatrixCoefficients::CicpMcReserved18 => 18,
        }
    }

    /// The number that stands for this matrix on the native side.
    pub fn value(self) -> (value: u32)
        ensures
            value == self.spec_value(),
    {
        match self {
            MatrixCoefficients::CicpMcIdentity => 0,
            MatrixCoefficients::CicpMcBt709 => 1,
            MatrixCoefficients::CicpMcUnspecified => 2,
            MatrixCoefficients::CicpMcReserved3 => 3,
            MatrixCoefficients::CicpMcFcc => 4,
            MatrixCoefficients::CicpMcBt470BG => 5,
            MatrixCoefficients::CicpMcBt601 => 6,
            MatrixCoefficients::CicpMcSmpte240 => 7,
            MatrixCoefficients::CicpMcSmpteYcgco => 8,
            MatrixCoefficients::CicpMcBt2020Ncl => 9,
            MatrixCoefficients::CicpMcBt2020Cl => 10,
            MatrixCoefficients::CicpMcSmpte2085 => 11,
            MatrixCoefficients::CicpMcChromatNcl => 12,
            MatrixCoefficients::CicpMcChromatCl => 13,
            MatrixCoefficients::CicpMcIctcp => 14,
            MatrixCoefficients::CicpMcReserved15 => 15,
            MatrixCoefficients::CicpMcReserved16 => 16,
            MatrixCoefficients::CicpMcReserved17 => 17,
            MatrixCoefficients::CicpMcReserved18 => 18,
        }
    }

    /// The matrix that a number stands for, or `None` where it stands for none.
    pub fn from_value(value: u32) -> (found: Option<Self>)
        ensures
            match found {
                Some(v) => v.spec_value() == value,
                None => forall|v: MatrixCoefficients| v.spec_value() != value,
            },
    {
        match value {
            0 => Some(MatrixCoefficients::CicpMcIdentity),
            1 => Some(MatrixCoefficients::CicpMcBt709),
            2 => Some(MatrixCoefficients::CicpMcUnspecified),
            3 => Some(MatrixCoefficients::CicpMcReserved3),
            4 => Some(MatrixCoefficients::CicpMcFcc),
            5 => Some(MatrixCoefficients::CicpMcBt470BG),
            6 => Some(MatrixCoefficients::CicpMcBt601),
            7 => Some(MatrixCoefficients::CicpMcSmpte240),
            8 => Some(MatrixCoefficients::CicpMcSmpteYcgco),
            9 => Some(MatrixCoefficients::CicpMcBt2020Ncl),
            10 => Some(MatrixCoefficients::CicpMcBt2020Cl),
            11 => Some(MatrixCoefficients::CicpMcSmpte2085),
            12 => Some(MatrixCoefficients::CicpMcChromatNcl),
            13 => Some(MatrixCoefficients::CicpMcChromatCl),
            14 => Some(MatrixCoefficients::CicpMcIctcp),
            15 => Some(MatrixCoefficients::CicpMcReserved15),
            16 => Some(MatrixCoefficients::CicpMcReserved16),
            17 => Some(MatrixCoefficients::CicpMcReserved17),
            18 => Some(MatrixCoefficients::CicpMcReserved18),
            _ => None,
        }
    }
}

/// Range of the sample values.
#[derive(Debug, Copy, Clone, Hash, PartialEq, Eq, Structural)]
pub enum ColorRange {
    /// Luma in 16 to 235, chroma in 16 to 240.
    CrStudioRange,
    /// All of 0 to 255.
    CrFullRange,
}

impl ColorRange {
    /// The number that stands for this range on the native side.
    pub open spec fn spec_value(self) -> u32 {
        match self {
            ColorRange::CrStudioRange => 0,
            ColorRange::CrFullRange => 1,
        }
    }

    /// The number that stands for this range on the native side.
    pub fn value(self) -> (value: u32)
        ensures
            value == self.spec_value(),
    {
        match self {
            ColorRange::CrStudioRange => 0,
            ColorRange::CrFullRange => 1,
        }
    }

    /// The range that a number stands for, or `None` where it stands for none.
    pub fn from_value(value: u32) -> (found: Option<Self>)
        ensures
            match found {
                Some(v) => v.spec_value() == value,
                None => forall|v: ColorRange| v.spec_value() != value,
            },
    {
        match value {
            0 => Some(ColorRange::CrStudioRange),
            1 => Some(ColorRange::CrFullRange),
            _ => None,
        }
    }
}

/// Bits per sample. The number of a depth is the depth itself.
#[derive(Debug, Copy, Clone, Hash, PartialEq, Eq, Structural)]
pub enum BitDepth {
    EightBit,
    TenBit,
    TwelveBit,
    /// Not supported by the encoder.
    FourteenBit,
    /// Not supported by the encoder.
    SixteenBit,
    /// Not supported by the encoder.
    ThirtytwoBit,
}

impl BitDepth {
    /// The number that stands for this depth on the native side.
    pub open spec fn spec_value(self) -> u32 {
        match self {
            BitDepth::EightBit => 8,
            BitDepth::TenBit => 10,
            BitDepth::TwelveBit => 12,
            BitDepth::FourteenBit => 14,
            BitDepth::SixteenBit => 16,
            BitDepth::ThirtytwoBit => 32,
        }
    }

    /// The number that stands for this depth on the native side.
    pub fn value(self) -> (value: u32)
        ensures
            value == self.spec_value(),
    {
        match self {
            BitDepth::EightBit => 8,
            BitDepth::TenBit => 10,
            BitDepth::TwelveBit => 12,
            BitDepth::FourteenBit => 14,
            BitDepth::SixteenBit => 16,
            BitDepth::ThirtytwoBit => 32,
        }
    }

    /// The depth that a number stands for, or `None` where it stands for none.
    pub fn from_value(value: u32) -> (found: Option<Self>)
        ensures
            match found {
                Some(v) => v.spec_value() == value,
                None => forall|v: BitDepth| v.spec_value() != value,
            },
    {
        match value {
            8 => Some(BitDepth::EightBit),
            10 => Some(BitDepth::TenBit),
            12 => Some(BitDepth::TwelveBit),
            14 => Some(BitDepth::FourteenBit),
            16 => Some(BitDepth::SixteenBit),
            32 => Some(BitDepth::ThirtytwoBit),
            _ => None,
        }
    }
}

/// Chroma subsampling format.
#[derive(Debug, Copy, Clone, Hash, PartialEq, Eq, Structural)]
pub enum ColorFormat {
    /// Luma only.
    YUV400,
    /// Chroma halved in both directions.
    YUV420,
    /// Chroma halved horizontally.
    YUV422,
    /// Chroma at full resolution.
    YUV444,
}

impl ColorFormat {
    /// The number that stands for this format on the native side.
    pub open spec fn spec_value(self) -> u32 {
        match self {
            ColorFormat::YUV400 => 0,
            ColorFormat::YUV420 => 1,
            ColorFormat::YUV422 => 2,
            ColorFormat::YUV444 => 3,
        }
    }

    /// The number that stands for this format on the native side.
    pub fn value(self) -> (value: u32)
        ensures
            value == self.spec_value(),
    {
        match self {
            ColorFormat::YUV400 => 0,
            ColorFormat::YUV420 => 1,
            ColorFormat::YUV422 => 2,
            ColorFormat::YUV444 => 3,
        }
    }

    /// The format that a number stands for, or `None` where it stands for none.
    pub fn from_value(value: u32) -> (found: Option<Self>)
        ensures
            match found {
                Some(v) => v.spec_value() == value,
                None => forall|v: ColorFormat| v.spec_value() != value,
            },
    {
        match value {
            0 => Some(ColorFormat::YUV400),
            1 => Some(ColorFormat::YUV420),
            2 => Some(ColorFormat::YUV422),
            3 => Some(ColorFormat::YUV444),
            _ => None,
        }
    }
}

/// Where a chroma sample lies relative to the luma samples.
#[derive(Debug, Copy, Clone, Hash, PartialEq, Eq, Structural)]
pub enum ChromaSamplePosition {
    /// Not known.
    CspUnknown,
    /// In the column of luma sample (0, 0), between two rows.
    CspVertical,
    /// At luma sample (0, 0).
    CspColocated,
    /// Reserved.
    CspReserved,
}

impl ChromaSamplePosition {
    /// The number that stands for this position on the native side.
    pub open spec fn spec_value(self) -> u32 {
        match self {
            ChromaSamplePosition::CspUnknown => 0,
            ChromaSamplePosition::CspVertical => 1,
            ChromaSamplePosition::CspColocated => 2,
            ChromaSamplePosition::CspReserved => 3,
        }
    }

    /// The number that stands for this position on the native side.
    pub fn value(self) -> (value: u32)
        ensures
            value == self.spec_value(),
    {
        match self {
            ChromaSamplePosition::CspUnknown => 0,
            ChromaSamplePosition::CspVertical => 1,
            ChromaSamplePosition::CspColocated => 2,
            ChromaSamplePosition::CspReserved => 3,
        }
    }

    /// The position that a number stands for, or `None` where it stands for none.
    pub fn from_value(value: u32) -> (found: Option<Self>)
        ensures
            match found {
                Some(v) => v.spec_value() == value,
                None => forall|v: ChromaSamplePosition| v.spec_value() != value,
            },
    {
        match value {
            0 => Some(ChromaSamplePosition::CspUnknown),
            1 => Some(ChromaSamplePosition::CspVertical),
            2 => Some(ChromaSamplePosition::CspColocated),
            3 => Some(ChromaSamplePosition::CspReserved),
            _ => None,
        }
    }
}

/// The colour description of a sequence.
#[derive(Debug, Copy, Clone)]
pub struct ColorConfig {
    /// Bits per sample.
    pub bit_depth: BitDepth,
    /// Whether the video has a luma plane only.
    pub mono_chrome: bool,
    /// Horizontal chroma subsampling.
    pub subsampling_x: u8,
    /// Vertical chroma subsampling.
    pub subsampling_y: u8,
    /// Colour primaries.
    pub color_primaries: ColorPrimaries,
    /// Transfer function.
    pub transfer_characteristics: TransferCharacteristics,
    /// Matrix coefficients.
    pub matrix_coefficients: MatrixCoefficients,
    /// Studio or full range.
    pub color_range: ColorRange,
    /// Position of the chroma samples in subsampled video.
    pub chroma_sample_position: ChromaSamplePosition,
    /// Whether the two chroma planes may have delta quantizers of their own.
    pub separate_uv_delta_q: bool,
}

} // verus!
