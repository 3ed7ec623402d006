//! The configuration record of the encoder and the records it is made of.
//!
//! The set of fields is that of the encoder core, field for field. A field that
//! holds an address on the native side holds the address as a plain integer
//! here; a field that holds a double holds its sixty-four bits. No field is
//! checked against the range that the core documents for it: the core does that
//! when the configuration is applied.

use crate::color::ChromaSamplePosition;
use crate::color::ColorFormat;
use crate::color::ColorPrimaries;
use crate::color::ColorRange;
use crate::color::MatrixCoefficients;
use crate::color::TransferCharacteristics;
use vstd::prelude::*;

verus! {

/// Bitstream profile.
#[derive(Debug, Copy, Clone, Hash, PartialEq, Eq, Structural)]
pub enum Av1SeqProfile {
    MainProfile,
    HighProfile,
    ProfessionalProfile,
}

impl Av1SeqProfile {
    /// The number that stands for this profile on the native side.
    pub open spec fn spec_value(self) -> u32 {
        match self {
            Av1SeqProfile::MainProfile => 0,
            Av1SeqProfile::HighProfile => 1,
            Av1SeqProfile::ProfessionalProfile => 2,
        }
    }

    /// The number that stands for this profile on the native side.
    pub fn value(self) -> (value: u32)
        ensures
            value == self.spec_value(),
    {
        match self {
            Av1SeqProfile::MainProfile => 0,
            Av1SeqProfile::HighProfile => 1,
            Av1SeqProfile::ProfessionalProfile => 2,
        }
    }

    /// The profile that a number stands for, or `None` where it stands for none.
    pub fn from_value(value: u32) -> (found: Option<Self>)
        ensures
            match found {
                Some(v) => v.spec_value() == value,
                None => forall|v: Av1SeqProfile| v.spec_value() != value,
            },
    {
        match value {
            0 => Some(Av1SeqProfile::MainProfile),
            1 => Some(Av1SeqProfile::HighProfile),
            2 => Some(Av1SeqProfile::ProfessionalProfile),
            _ => None,
        }
    }
}

/// How an intra refresh is coded.
#[derive(Debug, Copy, Clone, Hash, PartialEq, Eq, Structural)]
pub enum SvtAv1IntraRefreshType {
    /// Forward key frame, open group of pictures.
    SvtAv1FwdkfRefresh,
    /// Key frame, closed group of pictures.
    SvtAv1KfRefresh,
}

impl SvtAv1IntraRefreshType {
    /// The number that stands for this refresh type on the native side.
    pub open spec fn spec_value(self) -> u32 {
        match self {
            SvtAv1IntraRefreshType::SvtAv1FwdkfRefresh => 1,
            SvtAv1IntraRefreshType::SvtAv1KfRefresh => 2,
        }
    }

    /// The number that stands for this refresh type on the native side.
    pub fn value(self) -> (value: u32)
        ensures
            value == self.spec_value(),
    {
        match self {
            SvtAv1IntraRefreshType::SvtAv1FwdkfRefresh => 1,
            SvtAv1IntraRefreshType::SvtAv1KfRefresh => 2,
        }
    }

    /// The refresh type that a number stands for, or `None` where it stands for none.
    pub fn from_value(value: u32) -> (found: Option<Self>)
        ensures
            match found {
                Some(v) => v.spec_value() == value,
                None => forall|v: SvtAv1IntraRefreshType| v.spec_value() != value,
            },
    {
        match value {
            1 => Some(SvtAv1IntraRefreshType::SvtAv1FwdkfRefresh),
            2 => Some(SvtAv1IntraRefreshType::SvtAv1KfRefresh),
            _ => None,
        }
    }
}

/// Which frame becomes a switch frame when one is due.
#[derive(Debug, Copy, Clone, Hash, PartialEq, Eq, Structural)]
pub enum SFrameMode {
    /// The frame that is due, and only if it is a base-layer inter frame.
    SframeStrictBase,
    /// The frame that is due, or else the next base-layer inter frame.
    SframeNearestBase,
}

impl SFrameMode {
    /// The number that stands for this mode on the native side.
    pub open spec fn spec_value(self) -> u32 {
        match self {
            SFrameMode::SframeStrictBase => 1,
            SFrameMode::SframeNearestBase => 2,
        }
    }

    /// The number that stands for this mode on the native side.
    pub fn value(self) -> (value: u32)
        ensures
            value == self.spec_value(),
    {
        match self {
            SFrameMode::SframeStrictBase => 1,
            SFrameMode::SframeNearestBase => 2,
        }
    }

    /// The mode that a number stands for, or `None` where it stands for none.
    pub fn from_value(value: u32) -> (found: Option<Self>)
        ensures
            match found {
                Some(v) => v.spec_value() == value,
                None => forall|v: SFrameMode| v.spec_value() != value,
            },
    {
        match value {
            1 => Some(SFrameMode::SframeStrictBase),
            2 => Some(SFrameMode::SframeNearestBase),
            _ => None,
        }
    }
}

/// A set of CPU features, one bit each.
pub type CpuFlags = u64;

/// Decoder model parameters of one operating point.
#[derive(Debug, Default, Copy, Clone)]
pub struct OperatingParametersInfo {
    /// Delay between the arrival of the first bit and the removal of the first
    /// frame from the smoothing buffer.
    pub decoder_buffer_delay: u32,
    /// Together with the decoder delay, fixes when the first bit of a frame
    /// arrives.
    pub encoder_buffer_delay: u32,
    /// One where the smoothing buffer runs in low-delay mode.
    pub low_delay_mode_flag: u8,
}

/// One operating point of a sequence.
#[derive(Debug, Default, Copy, Clone)]
pub struct AV1OperatingPoint {
    /// Which layers the operating point decodes.
    pub op_idc: u32,
    /// Level of the operating point.
    pub seq_level_idx: u32,
    /// Tier of the operating point.
    pub seq_tier: u32,
    /// One where a decoder model comes with the operating point.
    pub decoder_model_present_for_this_op: u8,
    /// The decoder model parameters.
    pub operating_parameters_info: OperatingParametersInfo,
    /// One where an initial display delay is given.
    pub initial_display_delay_present_for_this_op: u32,
    /// The initial display delay.
    pub initial_display_delay: u32,
}

/// The same record under its other spelling.
pub type Av1OperatingPoint = AV1OperatingPoint;

/// Timing information of a sequence.
#[derive(Debug, Default, Copy, Clone)]
pub struct TimingInfo {
    /// Whether timing information is present.
    pub timing_info_present: bool,
    /// Time units per tick of the display clock.
    pub num_units_in_display_tick: u32,
    /// Time units per second.
    pub time_scale: u32,
    /// One where pictures are shown at equal intervals.
    pub equal_picture_interval: u8,
    /// Ticks between two pictures in output order.
    pub num_ticks_per_picture: u32,
}

/// Scaling of the reference frames.
#[derive(Debug, Default, Copy, Clone)]
pub struct RefFrameScale {
    /// Scaling mode.
    pub scale_mode: u8,
    /// Denominator for frames that are no key frames.
    pub scale_denom: u32,
    /// Denominator for key frames.
    pub scale_kf_denom: u32,
}

/// Parameters of the film grain synthesis for one frame.
#[derive(Debug, Default, Copy, Clone)]
pub struct AomFilmGrain {
    pub apply_grain: i32,
    pub update_parameters: i32,
    /// Points of the luma scaling function, as pairs of value and scaling.
    pub scaling_points_y: [[i32; 2]; 14],
    pub num_y_points: i32,
    /// Points of the blue-difference scaling function.
    pub scaling_points_cb: [[i32; 2]; 10],
    pub num_cb_points: i32,
    /// Points of the red-difference scaling function.
    pub scaling_points_cr: [[i32; 2]; 10],
    pub num_cr_points: i32,
    pub scaling_shift: i32,
    pub ar_coeff_lag: i32,
    /// Coefficients of the autoregressive filter, luma.
    pub ar_coeffs_y: [i32; 24],
    /// Coefficients of the autoregressive filter, blue-difference.
    pub ar_coeffs_cb: [i32; 25],
    /// Coefficients of the autoregressive filter, red-difference.
    pub ar_coeffs_cr: [i32; 25],
    pub ar_coeff_shift: i32,
    pub cb_mult: i32,
    pub cb_luma_mult: i32,
    pub cb_offset: i32,
    pub cr_mult: i32,
    pub cr_luma_mult: i32,
    pub cr_offset: i32,
    pub overlap_flag: i32,
    pub clip_to_restricted_range: i32,
    pub bit_depth: i32,
    pub chroma_scaling_from_luma: i32,
    pub grain_scale_shift: i32,
    pub random_seed: u16,
    pub ignore_ref: i32,
}

/// Content light level, both values big-endian.
#[derive(Debug, Default, Copy, Clone)]
pub struct ContentLightLevel {
    /// Maximum content light level.
    pub max_cll: u16,
    /// Maximum frame-average light level.
    pub max_fall: u16,
}

/// A chromaticity point, both coordinates big-endian.
#[derive(Debug, Default, Copy, Clone)]
pub struct SvtAv1ChromaPoints {
    pub x: u16,
    pub y: u16,
}

/// Description of the mastering display, all values big-endian.
#[derive(Debug, Default, Copy, Clone)]
pub struct SvtAv1MasteringDisplayInfo {
    /// Red primary.
    pub r: SvtAv1ChromaPoints,
    /// Green primary.
    pub g: SvtAv1ChromaPoints,
    /// Blue primary.
    pub b: SvtAv1ChromaPoints,
    /// White point.
    pub white_point: SvtAv1ChromaPoints,
    /// Maximum luminance.
    pub max_luma: u32,
    /// Minimum luminance.
    pub min_luma: u32,
}

/// A buffer of fixed size that belongs to somebody else.
#[derive(Debug, Copy, Clone)]
pub struct SvtAv1FixedBuf {
    /// Address of the data.
    pub buf: usize,
    /// Length of the data in bytes.
    pub sz: u64,
}

impl SvtAv1FixedBuf {
    /// The buffer at address zero, of length zero.
    pub open spec fn spec_default() -> SvtAv1FixedBuf {
        SvtAv1FixedBuf { buf: 0, sz: 0 }
    }
}

impl Default for SvtAv1FixedBuf {
    /// The buffer at address zero, of length zero.
    fn default() -> (buffer: SvtAv1FixedBuf)
        ensures
            buffer == SvtAv1FixedBuf::spec_default(),
    {
        SvtAv1FixedBuf { buf: 0, sz: 0 }
    }
}

/// The scaling events of a sequence: three arrays of `evt_num` entries each,
/// given by their addresses.
#[derive(Debug, Copy, Clone)]
pub struct SvtAv1FrameScaleEvts {
    /// Number of events.
    pub evt_num: u32,
    /// Address of the frame numbers at which the events start.
    pub start_frame_nums: usize,
    /// Address of the denominators for key frames.
    pub resize_kf_denoms: usize,
    /// Address of the denominators for the other frames.
    pub resize_denoms: usize,
}

impl SvtAv1FrameScaleEvts {
    /// No event, and no array.
    pub open spec fn spec_default() -> SvtAv1FrameScaleEvts {
        SvtAv1FrameScaleEvts {
            evt_num: 0,
            start_frame_nums: 0,
            resize_kf_denoms: 0,
            resize_denoms: 0,
        }
    }
}

impl Default for SvtAv1FrameScaleEvts {
    /// No event, and no array.
    fn default() -> (events: SvtAv1FrameScaleEvts)
        ensures
            events == SvtAv1FrameScaleEvts::spec_default(),
    {
        SvtAv1FrameScaleEvts {
            evt_num: 0,
            start_frame_nums: 0,
            resize_kf_denoms: 0,
            resize_denoms: 0,
        }
    }
}

/// Every setting of the encoder.
#[derive(Debug, Copy, Clone)]
pub struct SvtAv1EncConfiguration {
    /// Preset, from -2 to 13: the lower, the slower and the better.
    pub enc_mode: i8,
    /// Frames between two intra refreshes; -1 for none, -2 for automatic.
    pub intra_period_length: i32,
    /// How an intra refresh is coded.
    pub intra_refresh_type: SvtAv1IntraRefreshType,
    /// Number of hierarchical layers in a mini group of pictures.
    pub hierarchical_levels: u32,
    /// Prediction structure: low delay or random access.
    pub pred_structure: u8,
    /// Width of a frame in pixels, from 64 to 16384.
    pub source_width: u32,
    /// Height of a frame in pixels, from 64 to 8704.
    pub source_height: u32,
    /// Largest frame width that the sequence header announces.
    pub forced_max_frame_width: u32,
    /// Largest frame height that the sequence header announces.
    pub forced_max_frame_height: u32,
    /// Numerator of the frame rate.
    pub frame_rate_numerator: u32,
    /// Denominator of the frame rate.
    pub frame_rate_denominator: u32,
    /// Bit depth of the input, 8 or 10.
    pub encoder_bit_depth: u32,
    /// Chroma format of the input.
    pub encoder_color_format: ColorFormat,
    /// Bitstream profile.
    pub profile: Av1SeqProfile,
    /// Tier: 0 for main, 1 for high.
    pub tier: u32,
    /// Level, 0 to detect it from the stream.
    pub level: u32,
    /// Colour primaries.
    pub color_primaries: ColorPrimaries,
    /// Transfer function.
    pub transfer_characteristics: TransferCharacteristics,
    /// Matrix coefficients.
    pub matrix_coefficients: MatrixCoefficients,
    /// Studio or full range.
    pub color_range: ColorRange,
    /// Description of the mastering display.
    pub mastering_display: SvtAv1MasteringDisplayInfo,
    /// Content light level.
    pub content_light_level: ContentLightLevel,
    /// Position of the chroma samples.
    pub chroma_sample_position: ChromaSamplePosition,
    /// Rate control mode.
    pub rate_control_mode: u8,
    /// Quantizer of intra pictures under constant quantizer rate control.
    pub qp: u32,
    /// Whether the quantizer of each picture comes with the picture.
    pub use_qp_file: bool,
    /// Target bit rate in bits per second.
    pub target_bit_rate: u32,
    /// Maximum bit rate in bits per second.
    pub max_bit_rate: u32,
    /// Largest quantizer that rate control may use.
    pub max_qp_allowed: u32,
    /// Smallest quantizer that rate control may use.
    pub min_qp_allowed: u32,
    /// Lowest rate of a group of pictures, in percent of the target.
    pub vbr_min_section_pct: u32,
    /// Highest rate of a group of pictures, in percent of the target.
    pub vbr_max_section_pct: u32,
    /// Tolerated undershoot in percent.
    pub under_shoot_pct: u32,
    /// Tolerated overshoot in percent.
    pub over_shoot_pct: u32,
    /// Tolerated overshoot of the maximum bit rate in percent.
    pub mbr_over_shoot_pct: u32,
    /// Buffer level at the start, in milliseconds.
    pub starting_buffer_level_ms: i64,
    /// Buffer level to aim for, in milliseconds.
    pub optimal_buffer_level_ms: i64,
    /// Size of the buffer, in milliseconds.
    pub maximum_buffer_size_ms: i64,
    /// Statistics of an earlier pass.
    pub rc_stats_buffer: SvtAv1FixedBuf,
    /// Which pass of a multi-pass encode this is.
    pub pass: i32,
    /// Whether fixed quantizer index offsets per layer are used, and on top of what.
    pub use_fixed_qindex_offsets: u8,
    /// Quantizer index offset of each temporal layer.
    pub qindex_offsets: [i32; 6],
    /// Chroma quantizer index offset of key frames.
    pub key_frame_chroma_qindex_offset: i32,
    /// Quantizer index offset of key frames.
    pub key_frame_qindex_offset: i32,
    /// Chroma quantizer index offset of each temporal layer.
    pub chroma_qindex_offsets: [i32; 6],
    /// Offset of the luma DC quantizer index.
    pub luma_y_dc_qindex_offset: i32,
    /// Offset of the blue-difference DC quantizer index.
    pub chroma_u_dc_qindex_offset: i32,
    /// Offset of the blue-difference AC quantizer index.
    pub chroma_u_ac_qindex_offset: i32,
    /// Offset of the red-difference DC quantizer index.
    pub chroma_v_dc_qindex_offset: i32,
    /// Offset of the red-difference AC quantizer index.
    pub chroma_v_ac_qindex_offset: i32,
    /// Deblocking filter: off, on, or more exact.
    pub enable_dlf_flag: u8,
    /// Strength of the film grain denoising, 0 for none.
    pub film_grain_denoise_strength: u32,
    /// Whether the denoised picture is the one that is coded.
    pub film_grain_denoise_apply: u8,
    /// Level of the constrained directional enhancement filter, -1 for the default.
    pub cdef_level: i32,
    /// Restoration filtering, -1 for the default.
    pub enable_restoration_filtering: i32,
    /// Motion field motion vectors, -1 for the default.
    pub enable_mfmv: i32,
    /// Whether scene changes are detected.
    pub scene_change_detection: u32,
    /// Base-two logarithm of the number of tile columns.
    pub tile_columns: i32,
    /// Base-two logarithm of the number of tile rows.
    pub tile_rows: i32,
    /// Number of frames the encoder looks ahead.
    pub look_ahead_distance: u32,
    /// Whether the temporal dependency model runs in the look-ahead.
    pub enable_tpl_la: u8,
    /// For which frames a second coding attempt is allowed.
    pub recode_loop: u32,
    /// Whether the input is screen content.
    pub screen_content_mode: u32,
    /// Adaptive quantization within a frame.
    pub enable_adaptive_quantization: u8,
    /// Temporally filtered alternate reference frames: off, on, adaptive.
    pub enable_tf: u8,
    /// Whether overlay frames are coded.
    pub enable_overlays: bool,
    /// The metric to tune for.
    pub tune: u8,
    /// Super-resolution mode.
    pub superres_mode: u8,
    /// Super-resolution denominator.
    pub superres_denom: u8,
    /// Super-resolution denominator of key frames.
    pub superres_kf_denom: u8,
    /// Quantizer threshold of super-resolution.
    pub superres_qthres: u8,
    /// Quantizer threshold of super-resolution for key frames.
    pub superres_kf_qthres: u8,
    /// How the automatic super-resolution mode searches.
    pub superres_auto_search_type: u8,
    /// How far the stream is made easy to decode.
    pub fast_decode: u8,
    /// Frames between two switch frames, 0 for none.
    pub sframe_dist: i32,
    /// Which frame becomes a switch frame.
    pub sframe_mode: SFrameMode,
    /// Number of this channel.
    pub channel_id: u32,
    /// Number of channels that encode at the same time.
    pub active_channel_count: u32,
    /// How many threads and pictures in flight, 0 for the default.
    pub level_of_parallelism: u32,
    /// Number of processors the threads are pinned to, 0 for none.
    pub pin_threads: u32,
    /// Socket to run on, -1 for both.
    pub target_socket: i32,
    /// CPU features the encoder may use.
    pub use_cpu_flags: CpuFlags,
    /// Whether quality statistics are computed.
    pub stat_report: u32,
    /// Whether reconstructed pictures are put out.
    pub recon_enabled: bool,
    /// Whether key frames can be forced picture by picture.
    pub force_key_frames: bool,
    /// Whether the intra period counts seconds, not frames.
    pub multiply_keyint: bool,
    /// Reference scaling mode.
    pub resize_mode: u8,
    /// Scaling denominator, 8 to 16.
    pub resize_denom: u8,
    /// Scaling denominator of key frames, 8 to 16.
    pub resize_kf_denom: u8,
    /// Whether quantization matrices are used.
    pub enable_qm: bool,
    /// Lowest flatness of the quantization matrices.
    pub min_qm_level: u8,
    /// Highest flatness of the quantization matrices.
    pub max_qm_level: u8,
    /// Whether rate control matches the target per group of pictures.
    pub gop_constraint_rc: bool,
    /// Scale of lambda per frame update type, in 128ths.
    pub lambda_scale_factors: [i32; 7],
    /// Whether the size of a group of pictures adapts.
    pub enable_dg: bool,
    /// Size of the mini group right after a key frame, 0 for the default.
    pub startup_mg_size: u8,
    /// Quantizer offset of the first group of pictures.
    pub startup_qp_offset: i8,
    /// Reference scaling events.
    pub frame_scale_evts: SvtAv1FrameScaleEvts,
    /// Whether a region-of-interest map is used.
    pub enable_roi_map: bool,
    /// Strength of the temporal filter.
    pub tf_strength: u8,
    /// Address of a film grain table, see [`AomFilmGrain`]; zero for none.
    pub fgs_table: usize,
    /// Whether regions of low variance are boosted.
    pub enable_variance_boost: bool,
    /// Strength of the variance boost.
    pub variance_boost_strength: u8,
    /// Which octile of the variances decides the boost.
    pub variance_octile: u8,
    /// Bias towards sharpness, from -7 to 7.
    pub sharpness: i8,
    /// Curve of the variance boost.
    pub variance_boost_curve: u8,
    /// Quantizer bias for dark frames, 0 for none.
    pub luminance_qp_bias: u8,
    /// Whether coding is lossless.
    pub lossless: bool,
    /// Whether a still picture is coded.
    pub avif: bool,
    /// Quantizer index offset for fractional quality values.
    pub extended_crf_qindex_offset: u8,
    /// Compression of the quantizer scale across layers, as the bits of a double.
    pub qp_scale_compress_strength: u64,
    /// Whether transforms are at most 32 by 32.
    pub max_32_tx_size: bool,
    /// Lowest flatness of the chroma quantization matrices.
    pub min_chroma_qm_level: u8,
    /// Highest flatness of the chroma quantization matrices.
    pub max_chroma_qm_level: u8,
    /// Strength of the noise normalization.
    pub noise_norm_strength: u8,
    /// Strength of the temporal filter on key frames.
    pub kf_tf_strength: u8,
    /// Strength of the psychovisual rate distortion, as the bits of a double.
    pub psy_rd: u64,
    /// Alternative rate distortion metric: off, full, partial.
    pub spy_rd: u8,
    /// Whether boosting to very low quantizers is held back.
    pub low_q_taper: bool,
    /// Whether sharper transform decisions are made.
    pub sharp_tx: u8,
    /// Bit depth of the mode decision.
    pub hbd_mds: u8,
    /// Whether the most complex visual model is used.
    pub complex_hvs: u8,
    /// Whether the film grain block size follows the resolution.
    pub adaptive_film_grain: bool,
    /// Noise detection for the in-loop filters.
    pub filtering_noise_detection: u8,
    /// Room that the core keeps for fields to come.
    pub padding: [u8; 99],
}

} // verus!
