use svt_av1_enc::buffer::Av1PictureType;
use svt_av1_enc::buffer::BufferHeaderType;
use svt_av1_enc::buffer::OutputBuffer;
use svt_av1_enc::color::ChromaSamplePosition;
use svt_av1_enc::color::ColorFormat;
use svt_av1_enc::color::ColorPrimaries;
use svt_av1_enc::color::ColorRange;
use svt_av1_enc::color::MatrixCoefficients;
use svt_av1_enc::color::TransferCharacteristics;
use svt_av1_enc::config::c_string;
use svt_av1_enc::config::Finalize;
use svt_av1_enc::config::FinalizeStep;
use svt_av1_enc::configuration::Av1SeqProfile;
use svt_av1_enc::configuration::ContentLightLevel;
use svt_av1_enc::configuration::SFrameMode;
use svt_av1_enc::configuration::SvtAv1EncConfiguration;
use svt_av1_enc::configuration::SvtAv1FixedBuf;
use svt_av1_enc::configuration::SvtAv1FrameScaleEvts;
use svt_av1_enc::configuration::SvtAv1IntraRefreshType;
use svt_av1_enc::configuration::SvtAv1MasteringDisplayInfo;
use svt_av1_enc::encoder::Stage;
use svt_av1_enc::flags::SvtFlags;
use svt_av1_enc::flags::BUFFERFLAG_EOS;
use svt_av1_enc::flags::BUFFERFLAG_HAS_TD;
use svt_av1_enc::handle::TeardownCall;
use svt_av1_enc::handle::NativeHandle;
use svt_av1_enc::handle::Teardown;
use svt_av1_enc::ErrorType;
use svt_av1_enc::Frame;
use svt_av1_enc::SvtAv1Encoder;
use svt_av1_enc::SvtAv1EncoderConfig;

/// Address that stands for the component in these tests.
const COMPONENT: usize = 0x7f00_1000;

/// Builds a configuration stage the way a caller does, with a core that
/// constructs its component without fault.
fn create(width: u32, height: u32, preset: Option<i8>) -> SvtAv1EncoderConfig {
    let request = SvtAv1EncoderConfig::prepare(width, height, preset).expect("inputs in range");
    let handle = NativeHandle::acquire(ErrorType::ErrorNone, COMPONENT)
        .expect("Failed to init svt av1 handle");
    SvtAv1EncoderConfig::new(request, handle, core_defaults())
}

/// Finalizes a stage against a core that answers the two calls with the given
/// statuses. The second status is only looked at where the second call is due.
fn finalize(
    config: SvtAv1EncoderConfig,
    set_parameter: ErrorType,
    init: ErrorType,
) -> Result<SvtAv1Encoder, (ErrorType, Teardown)> {
    let pending = config.into_encoder();
    assert_eq!(pending.step(), FinalizeStep::SetParameter);
    match pending.advance(set_parameter) {
        Finalize::Pending(pending) => {
            assert_eq!(pending.step(), FinalizeStep::Init);
            match pending.advance(init) {
                Finalize::Ready(encoder) => Ok(encoder),
                Finalize::Failed(error, teardown) => Err((error, teardown)),
                Finalize::Pending(_) => panic!("no third call exists"),
            }
        }
        Finalize::Failed(error, teardown) => Err((error, teardown)),
        Finalize::Ready(_) => panic!("an encoder needs two calls"),
    }
}

/// Stands in for the parser of the core, for the one setting these tests use.
fn parse(
    config: &SvtAv1EncConfiguration,
    name: &[u8],
    value: &[u8],
) -> (ErrorType, SvtAv1EncConfiguration) {
    let mut config = *config;
    let text = std::str::from_utf8(&value[..value.len() - 1]).unwrap_or("");
    if name == b"qp\0" {
        match text.parse::<u32>() {
            Ok(qp) if qp <= 63 => {
                config.qp = qp;
                (ErrorType::ErrorNone, config)
            }
            _ => (ErrorType::ErrorBadParameter, config),
        }
    } else {
        (ErrorType::ErrorBadParameter, config)
    }
}

#[test]
fn init() {
    let enc = create(1920, 1080, None);
    assert!(enc.config.enc_mode == 10);
    assert!(enc.config.source_width == 1920);
    assert!(enc.config.source_height == 1080);

    let cfg = create(800, 600, Some(3));
    assert!(cfg.config.enc_mode == 3);
    assert!(cfg.config.source_width == 800);
    assert!(cfg.config.source_height == 600);

    finalize(cfg, ErrorType::ErrorNone, ErrorType::ErrorNone).unwrap();
}

#[test]
fn set_parameter() {
    let mut cfg = create(1920, 1080, None);
    let request = cfg.set_parameter_from_str("qp", "30").unwrap();
    let (status, parsed) = parse(&cfg.config, &request.name, &request.value);
    cfg.parameter_parsed(status, parsed).unwrap();
    assert!(cfg.config.qp == 30);

    finalize(cfg, ErrorType::ErrorNone, ErrorType::ErrorNone).unwrap();
}

/// A scripted encoder core: it turns every picture it is sent into one packet
/// and reports the shutdown once the end of the stream was sent and every
/// packet was handed out.
struct ScriptedCore {
    packets: Vec<Vec<u8>>,
    handed_out: usize,
    eos: bool,
}

impl ScriptedCore {
    fn send(&mut self, header: &BufferHeaderType<'_>) -> ErrorType {
        if header.flags & BUFFERFLAG_EOS != 0 {
            self.eos = true;
            return ErrorType::ErrorNone;
        }
        match header.p_buffer {
            Some(picture) => {
                let mut packet = vec![self.packets.len() as u8];
                packet.extend_from_slice(&picture.luma[..4]);
                packet.extend_from_slice(&header.n_filled_len.to_le_bytes());
                self.packets.push(packet);
                ErrorType::ErrorNone
            }
            None => ErrorType::ErrorBadParameter,
        }
    }

    fn receive(&mut self) -> (ErrorType, Option<OutputBuffer<'_>>) {
        if self.handed_out < self.packets.len() {
            let index = self.handed_out;
            self.handed_out += 1;
            let last = self.eos && self.handed_out == self.packets.len();
            let flags = if last { BUFFERFLAG_EOS | BUFFERFLAG_HAS_TD } else { BUFFERFLAG_HAS_TD };
            let output = OutputBuffer { flags, data: &self.packets[index], p_buffer: 0x9000 + index };
            (ErrorType::ErrorNone, Some(output))
        } else if self.eos {
            (ErrorType::NoErrorFifoShutdown, None)
        } else {
            (ErrorType::NoErrorEmptyQueue, None)
        }
    }
}

#[test]
fn encode_decode_from_y4m() {
    let width: usize = 64;
    let height: usize = 64;
    let frames: Vec<Vec<u8>> = (0..20u8)
        .map(|n| (0..width * height * 3 / 2).map(|i| (i as u8).wrapping_add(n)).collect())
        .collect();

    let mut svt_config = create(width as u32, height as u32, Some(1));
    svt_config.config.frame_rate_numerator = 30;
    svt_config.config.frame_rate_denominator = 1;
    svt_config.config.force_key_frames = true;

    let mut svt_encoder =
        finalize(svt_config, ErrorType::ErrorNone, ErrorType::ErrorNone).expect("Encoder");
    let mut core = ScriptedCore { packets: Vec::new(), handed_out: 0, eos: false };
    let mut encoded_frames = 0;

    for frame in &frames {
        let (y, chroma) = frame.split_at(width * height);
        let (u, v) = chroma.split_at(width * height / 4);
        let svt_frame = Frame::new(
            y,
            u,
            v,
            width as u32,
            (width / 2) as u32,
            (width / 2) as u32,
            (y.len() + u.len() + v.len()) as u32,
        );
        let header = svt_encoder.send_picture(svt_frame, None, true);
        let status = core.send(&header);
        svt_encoder.sent(&header, status).expect("Send frame");
        encoded_frames += 1;
    }
    let header = svt_encoder.send_eos();
    let status = core.send(&header);
    svt_encoder.sent(&header, status).expect("Send eos");
    assert_eq!(svt_encoder.stage(), Stage::Draining);

    let mut decoded_frames = 0;
    let mut released = Vec::new();
    loop {
        let (status, output) = core.receive();
        match svt_encoder.get_packet(status, output) {
            Ok(packet) => {
                let bytes = packet.to_vec();
                assert_eq!(bytes[0], decoded_frames as u8);
                assert_eq!(&bytes[5..], &6144u32.to_le_bytes()[..]);
                decoded_frames += 1;
                released.push(packet.release());
            }
            Err(error) => {
                assert_eq!(error, ErrorType::NoErrorFifoShutdown);
                break;
            }
        }
    }
    assert_eq!(svt_encoder.stage(), Stage::Terminal);
    assert_eq!(released.len(), 20);
    released.dedup();
    assert_eq!(released.len(), 20);

    assert_eq!(encoded_frames, decoded_frames);
}

#[test]
fn dimensions_at_the_bounds_are_accepted() {
    for (width, height) in [(64, 64), (16384, 8704), (64, 8704), (16384, 64)] {
        let stage = create(width, height, None);
        assert_eq!(stage.config.source_width, width);
        assert_eq!(stage.config.source_height, height);
        assert_eq!(stage.config.enc_mode, 10);
        assert_eq!(stage.addr(), COMPONENT);
    }
}

#[test]
fn dimensions_out_of_range_are_rejected() {
    for (width, height) in [
        (63, 1080),
        (16385, 1080),
        (1920, 63),
        (1920, 8705),
        (0, 0),
        (u32::MAX, u32::MAX),
    ] {
        let request = SvtAv1EncoderConfig::prepare(width, height, None);
        assert!(matches!(request, Err(ErrorType::ErrorBadParameter)));
    }
}

#[test]
fn presets_are_checked_against_their_range() {
    for preset in [-2i8, -1, 0, 5, 13] {
        let stage = create(1920, 1080, Some(preset));
        assert_eq!(stage.config.enc_mode, preset);
    }
    for preset in [-3i8, 14, i8::MIN, i8::MAX] {
        let request = SvtAv1EncoderConfig::prepare(1920, 1080, Some(preset));
        assert!(matches!(request, Err(ErrorType::ErrorBadParameter)));
    }
}

#[test]
fn a_request_remembers_what_was_asked() {
    let request = SvtAv1EncoderConfig::prepare(640, 480, Some(7)).unwrap();
    assert_eq!(request.width(), 640);
    assert_eq!(request.height(), 480);
    assert_eq!(request.preset(), Some(7));
}

#[test]
fn construction_touches_three_fields_only() {
    let stage = create(1280, 720, Some(4));
    let defaults = core_defaults();
    assert_eq!(stage.config.qp, defaults.qp);
    assert_eq!(stage.config.target_bit_rate, 2000513);
    assert_eq!(stage.config.max_qm_level, 15);
    assert_eq!(stage.config.psy_rd, 1.0f64.to_bits());
    assert_eq!(stage.config.padding, [0u8; 99]);
    assert!(stage.config.enable_dg);
}

#[test]
fn a_failed_construction_yields_no_handle() {
    for status in [
        ErrorType::ErrorInsufficientResources,
        ErrorType::ErrorUndefined,
        ErrorType::NoErrorEmptyQueue,
        ErrorType::ErrorMax,
    ] {
        assert!(NativeHandle::acquire(status, COMPONENT).is_none());
    }
    let handle = NativeHandle::acquire(ErrorType::ErrorNone, COMPONENT).unwrap();
    assert_eq!(handle.addr(), COMPONENT);
}

#[test]
fn c_strings_end_in_one_zero() {
    assert_eq!(c_string("qp"), Some(vec![b'q', b'p', 0]));
    assert_eq!(c_string(""), Some(vec![0]));
    assert_eq!(c_string("\u{e9}"), Some(vec![0xC3, 0xA9, 0]));
    assert_eq!(c_string("a\0b"), None);
    assert_eq!(c_string("\0"), None);
    assert_eq!(c_string("ab\0"), None);
}

#[test]
fn a_name_or_value_with_a_zero_byte_gives_no_request() {
    let cfg = create(1920, 1080, None);
    assert!(cfg.set_parameter_from_str("q\0p", "30").is_none());
    assert!(cfg.set_parameter_from_str("qp", "3\00").is_none());
    let request = cfg.set_parameter_from_str("preset", "-1").unwrap();
    assert_eq!(request.name, b"preset\0".to_vec());
    assert_eq!(request.value, b"-1\0".to_vec());
}

#[test]
fn a_rejected_setting_is_an_error_and_keeps_what_the_parser_left() {
    let mut cfg = create(1920, 1080, None);
    let request = cfg.set_parameter_from_str("no-such-setting", "1").unwrap();
    let (status, parsed) = parse(&cfg.config, &request.name, &request.value);
    assert_eq!(cfg.parameter_parsed(status, parsed), Err(ErrorType::ErrorBadParameter));
    assert_eq!(cfg.config.qp, 50);

    let mut touched = cfg.config;
    touched.qp = 12;
    assert_eq!(
        cfg.parameter_parsed(ErrorType::ErrorBadParameter, touched),
        Err(ErrorType::ErrorBadParameter)
    );
    assert_eq!(cfg.config.qp, 12);
    assert_eq!(cfg.addr(), COMPONENT);
}

#[test]
fn finalization_stops_at_the_first_failure() {
    let cfg = create(1920, 1080, None);
    let (error, teardown) =
        finalize(cfg, ErrorType::ErrorBadParameter, ErrorType::ErrorNone).unwrap_err();
    assert_eq!(error, ErrorType::ErrorBadParameter);
    assert!(!teardown.initialized());
    assert_eq!(teardown.addr(), COMPONENT);
    assert_eq!(teardown.calls(), (COMPONENT, vec![TeardownCall::DeinitHandle]));

    let cfg = create(1920, 1080, None);
    let (error, teardown) =
        finalize(cfg, ErrorType::ErrorNone, ErrorType::ErrorInsufficientResources).unwrap_err();
    assert_eq!(error, ErrorType::ErrorInsufficientResources);
    assert_eq!(teardown.calls(), (COMPONENT, vec![TeardownCall::DeinitHandle]));
}

#[test]
fn finalization_carries_the_settings() {
    let mut cfg = create(1920, 1080, Some(2));
    cfg.config.qp = 21;
    let pending = cfg.into_encoder();
    assert_eq!(pending.addr(), COMPONENT);
    assert_eq!(pending.config().qp, 21);
    assert_eq!(pending.config().enc_mode, 2);
    assert_eq!(pending.config().source_width, 1920);
}

#[test]
fn an_unused_configuration_destroys_its_component_only() {
    let cfg = create(1920, 1080, None);
    let teardown = cfg.teardown();
    assert!(!teardown.initialized());
    assert_eq!(teardown.calls(), (COMPONENT, vec![TeardownCall::DeinitHandle]));
}

fn encoder() -> SvtAv1Encoder {
    finalize(create(64, 64, None), ErrorType::ErrorNone, ErrorType::ErrorNone).unwrap()
}

#[test]
fn a_new_encoder_is_ready_on_the_same_component() {
    let encoder = encoder();
    assert_eq!(encoder.stage(), Stage::Ready);
    assert_eq!(encoder.addr(), COMPONENT);
}

#[test]
fn a_picture_header_carries_the_frame() {
    let (y, u, v) = (vec![1u8; 4096], vec![2u8; 1024], vec![3u8; 1024]);
    let frame = Frame::new(&y, &u, &v, 64, 32, 16, 6144);
    let header = encoder().send_picture(frame, Some(-5), false);
    let picture = header.p_buffer.unwrap();
    assert_eq!(picture.luma, &y[..]);
    assert_eq!(picture.cb, &u[..]);
    assert_eq!(picture.cr, &v[..]);
    assert_eq!(picture.y_stride, 64);
    assert_eq!(picture.cb_stride, 32);
    assert_eq!(picture.cr_stride, 16);
    assert_eq!(header.n_filled_len, 6144);
    assert_eq!(header.pts, -5);
    assert_eq!(header.pic_type, Av1PictureType::Av1InvalidPicture);
    assert_eq!(header.flags, 0);
    assert_eq!(header.size, 0);
    assert_eq!(header.n_alloc_len, 0);
    assert_eq!(header.dts, 0);
    assert_eq!(header.qp, 0);
    assert_eq!(header.p_app_private, 0);
    assert_eq!(header.metadata, 0);
}

#[test]
fn a_forced_key_frame_is_asked_for_by_type() {
    let planes = vec![0u8; 16];
    let frame = Frame::new(&planes, &planes, &planes, 4, 4, 4, 48);
    let header = encoder().send_picture(frame, None, true);
    assert_eq!(header.pic_type, Av1PictureType::Av1KeyPicture);
    assert_eq!(header.pic_type.value(), 3);
    assert_eq!(header.pts, 0);
    let header = encoder().send_picture(frame, None, false);
    assert_eq!(header.pic_type.value(), 0xFF);
}

#[test]
fn the_end_of_stream_header_is_a_flag_and_nothing_else() {
    let header = encoder().send_eos();
    assert_eq!(header.flags, 1);
    assert_eq!(header.flags, BUFFERFLAG_EOS);
    assert!(header.p_buffer.is_none());
    assert_eq!(header.n_filled_len, 0);
    assert_eq!(header.pts, 0);
    assert_eq!(header.pic_type, Av1PictureType::Av1InterPicture);
}

#[test]
fn the_default_header_is_all_zero() {
    let header = BufferHeaderType::default();
    assert!(header.p_buffer.is_none());
    assert_eq!(header.pic_type.value(), 0);
    assert_eq!(
        (header.size, header.n_filled_len, header.n_alloc_len, header.n_tick_count),
        (0, 0, 0, 0)
    );
    assert_eq!((header.dts, header.pts, header.temporal_layer_index), (0, 0, 0));
    assert_eq!((header.luma_sse, header.cr_sse, header.cb_sse, header.flags), (0, 0, 0, 0));
    assert_eq!((header.luma_ssim, header.cr_ssim, header.cb_ssim), (0, 0, 0));
    assert_eq!(f64::from_bits(header.luma_ssim), 0.0);
}

#[test]
fn only_an_accepted_end_of_stream_starts_the_drain() {
    let planes = vec![0u8; 16];
    let frame = Frame::new(&planes, &planes, &planes, 4, 4, 4, 48);
    let mut encoder = encoder();

    let picture = encoder.send_picture(frame, None, false);
    assert_eq!(encoder.sent(&picture, ErrorType::ErrorNone), Ok(()));
    assert_eq!(encoder.stage(), Stage::Ready);
    assert_eq!(
        encoder.sent(&picture, ErrorType::ErrorBadParameter),
        Err(ErrorType::ErrorBadParameter)
    );
    assert_eq!(encoder.stage(), Stage::Ready);

    let eos = encoder.send_eos();
    assert_eq!(
        encoder.sent(&eos, ErrorType::ErrorInsufficientResources),
        Err(ErrorType::ErrorInsufficientResources)
    );
    assert_eq!(encoder.stage(), Stage::Ready);
    assert_eq!(encoder.sent(&eos, ErrorType::ErrorNone), Ok(()));
    assert_eq!(encoder.stage(), Stage::Draining);

    assert_eq!(encoder.sent(&picture, ErrorType::ErrorNone), Ok(()));
    assert_eq!(encoder.stage(), Stage::Draining);
    assert_eq!(encoder.sent(&eos, ErrorType::ErrorNone), Ok(()));
    assert_eq!(encoder.stage(), Stage::Draining);
}

#[test]
fn polling_tells_empty_from_shutdown_from_fault() {
    let mut encoder = encoder();
    assert!(matches!(
        encoder.get_packet(ErrorType::NoErrorEmptyQueue, None),
        Err(ErrorType::NoErrorEmptyQueue)
    ));
    assert_eq!(encoder.stage(), Stage::Ready);
    assert!(matches!(
        encoder.get_packet(ErrorType::ErrorBadParameter, None),
        Err(ErrorType::ErrorBadParameter)
    ));
    assert_eq!(encoder.stage(), Stage::Ready);
    assert!(matches!(
        encoder.get_packet(ErrorType::DecNoOutputPicture, None),
        Err(ErrorType::DecNoOutputPicture)
    ));

    let eos = encoder.send_eos();
    encoder.sent(&eos, ErrorType::ErrorNone).unwrap();
    assert!(matches!(
        encoder.get_packet(ErrorType::NoErrorEmptyQueue, None),
        Err(ErrorType::NoErrorEmptyQueue)
    ));
    assert_eq!(encoder.stage(), Stage::Draining);
    assert!(matches!(
        encoder.get_packet(ErrorType::NoErrorFifoShutdown, None),
        Err(ErrorType::NoErrorFifoShutdown)
    ));
    assert_eq!(encoder.stage(), Stage::Terminal);

    assert!(matches!(
        encoder.get_packet(ErrorType::NoErrorEmptyQueue, None),
        Err(ErrorType::NoErrorEmptyQueue)
    ));
    assert_eq!(encoder.sent(&eos, ErrorType::ErrorNone), Ok(()));
    assert_eq!(encoder.stage(), Stage::Terminal);
}

#[test]
fn a_packet_wraps_what_was_handed_out() {
    let bytes = vec![0x12u8, 0x00, 0x0a, 0x0b];
    let mut encoder = encoder();
    let output = OutputBuffer { flags: 0x13, data: &bytes, p_buffer: 0xbeef };
    let packet = encoder.get_packet(ErrorType::ErrorNone, Some(output)).unwrap();
    assert_eq!(encoder.stage(), Stage::Ready);
    assert_eq!(packet.flags.bits(), 0x13);
    assert_eq!(packet.flags().bits(), 0x13);
    assert!(packet.flags.contains(SvtFlags::from_bits_retain(BUFFERFLAG_EOS)));
    assert!(!packet.flags.contains(SvtFlags::from_bits_retain(BUFFERFLAG_HAS_TD)));
    assert_eq!(&packet[..], &bytes[..]);
    assert_eq!(packet.len(), 4);
    assert_eq!(packet.to_vec(), bytes);
    assert_eq!(packet.release(), 0xbeef);
}

#[test]
fn an_empty_packet_is_a_packet() {
    let mut encoder = encoder();
    let output = OutputBuffer { flags: 0, data: &[], p_buffer: 8 };
    let packet = encoder.get_packet(ErrorType::ErrorNone, Some(output)).unwrap();
    assert!(packet.flags.is_empty());
    assert!(packet.to_vec().is_empty());
    assert_eq!(packet.release(), 8);
}

#[test]
fn teardown_is_the_same_at_every_stage() {
    let expected = (COMPONENT, vec![TeardownCall::Deinit, TeardownCall::DeinitHandle]);

    let ready = encoder();
    assert_eq!(ready.teardown().calls(), expected);

    let mut draining = encoder();
    let eos = draining.send_eos();
    draining.sent(&eos, ErrorType::ErrorNone).unwrap();
    assert_eq!(draining.stage(), Stage::Draining);
    assert_eq!(draining.teardown().calls(), expected);

    let mut terminal = encoder();
    let _ = terminal.get_packet(ErrorType::NoErrorFifoShutdown, None);
    assert_eq!(terminal.stage(), Stage::Terminal);
    let teardown = terminal.teardown();
    assert!(teardown.initialized());
    assert_eq!(teardown.addr(), COMPONENT);
    assert_eq!(teardown.calls(), expected);
}

#[test]
fn a_bare_handle_can_be_released() {
    let handle = NativeHandle::acquire(ErrorType::ErrorNone, 0x40).unwrap();
    assert_eq!(Teardown::new(handle, false).calls(), (0x40, vec![TeardownCall::DeinitHandle]));
}

/// Stands in for the defaults that the encoder core fills in.
fn core_defaults() -> SvtAv1EncConfiguration {
    SvtAv1EncConfiguration {
        enc_mode: 10,
        intra_period_length: -2,
        intra_refresh_type: SvtAv1IntraRefreshType::SvtAv1KfRefresh,
        hierarchical_levels: 5,
        pred_structure: 0,
        source_width: 0,
        source_height: 0,
        forced_max_frame_width: 0,
        forced_max_frame_height: 0,
        frame_rate_numerator: 0,
        frame_rate_denominator: 0,
        encoder_bit_depth: 10,
        encoder_color_format: ColorFormat::YUV420,
        profile: Av1SeqProfile::MainProfile,
        tier: 0,
        level: 0,
        color_primaries: ColorPrimaries::CicpCpUnspecified,
        transfer_characteristics: TransferCharacteristics::CicpTcUnspecified,
        matrix_coefficients: MatrixCoefficients::CicpMcUnspecified,
        color_range: ColorRange::CrStudioRange,
        mastering_display: SvtAv1MasteringDisplayInfo::default(),
        content_light_level: ContentLightLevel::default(),
        chroma_sample_position: ChromaSamplePosition::CspUnknown,
        rate_control_mode: 0,
        qp: 50,
        use_qp_file: false,
        target_bit_rate: 2000513,
        max_bit_rate: 0,
        max_qp_allowed: 63,
        min_qp_allowed: 4,
        vbr_min_section_pct: 0,
        vbr_max_section_pct: 2000,
        under_shoot_pct: 0,
        over_shoot_pct: 0,
        mbr_over_shoot_pct: 0,
        starting_buffer_level_ms: 600,
        optimal_buffer_level_ms: 600,
        maximum_buffer_size_ms: 1000,
        rc_stats_buffer: SvtAv1FixedBuf::default(),
        pass: 0,
        use_fixed_qindex_offsets: 0,
        qindex_offsets: [0; 6],
        key_frame_chroma_qindex_offset: 0,
        key_frame_qindex_offset: 0,
        chroma_qindex_offsets: [0; 6],
        luma_y_dc_qindex_offset: 0,
        chroma_u_dc_qindex_offset: 0,
        chroma_u_ac_qindex_offset: 0,
        chroma_v_dc_qindex_offset: 0,
        chroma_v_ac_qindex_offset: 0,
        enable_dlf_flag: 0,
        film_grain_denoise_strength: 0,
        film_grain_denoise_apply: 0,
        cdef_level: -1,
        enable_restoration_filtering: -1,
        enable_mfmv: -1,
        scene_change_detection: 1,
        tile_columns: 0,
        tile_rows: 0,
        look_ahead_distance: 0,
        enable_tpl_la: 0,
        recode_loop: 4,
        screen_content_mode: 0,
        enable_adaptive_quantization: 2,
        enable_tf: 1,
        enable_overlays: false,
        tune: 2,
        superres_mode: 0,
        superres_denom: 0,
        superres_kf_denom: 0,
        superres_qthres: 0,
        superres_kf_qthres: 0,
        superres_auto_search_type: 0,
        fast_decode: 0,
        sframe_dist: 0,
        sframe_mode: SFrameMode::SframeNearestBase,
        channel_id: 0,
        active_channel_count: 1,
        level_of_parallelism: 0,
        pin_threads: 0,
        target_socket: -1,
        use_cpu_flags: 0,
        stat_report: 0,
        recon_enabled: false,
        force_key_frames: false,
        multiply_keyint: false,
        resize_mode: 0,
        resize_denom: 0,
        resize_kf_denom: 0,
        enable_qm: true,
        min_qm_level: 0,
        max_qm_level: 15,
        gop_constraint_rc: false,
        lambda_scale_factors: [0; 7],
        enable_dg: true,
        startup_mg_size: 0,
        startup_qp_offset: 0,
        frame_scale_evts: SvtAv1FrameScaleEvts::default(),
        enable_roi_map: false,
        tf_strength: 0,
        fgs_table: 0,
        enable_variance_boost: false,
        variance_boost_strength: 0,
        variance_octile: 0,
        sharpness: 0,
        variance_boost_curve: 0,
        luminance_qp_bias: 0,
        lossless: false,
        avif: false,
        extended_crf_qindex_offset: 0,
        qp_scale_compress_strength: 1.0f64.to_bits(),
        max_32_tx_size: false,
        min_chroma_qm_level: 0,
        max_chroma_qm_level: 0,
        noise_norm_strength: 0,
        kf_tf_strength: 0,
        psy_rd: 1.0f64.to_bits(),
        spy_rd: 0,
        low_q_taper: false,
        sharp_tx: 0,
        hbd_mds: 0,
        complex_hvs: 0,
        adaptive_film_grain: false,
        filtering_noise_detection: 0,
        padding: [0; 99],
    }
}
