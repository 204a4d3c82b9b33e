use shiguredo_openh264::{
    EncodeParams, EncoderConfig, Error, FrameType, Level, NonZeroCount, SliceMode,
    SpatialLayerParams, apply_config_to_param, apply_profile_probe, apply_resolution, encoded_frame,
    frame_timestamp, frame_type_from_code, layer_count, layer_nal_count, nal_spans,
    skip_start_code, spatial_layer_count, split_parameter_sets, ComplexityMode, RateControlMode,
};

#[test]
fn skip_start_code_variants() {
    assert_eq!(skip_start_code(&[0, 0, 0, 1, 0x67, 1]), &[0x67, 1]);
    assert_eq!(skip_start_code(&[0, 0, 1, 0x68]), &[0x68]);
    assert_eq!(skip_start_code(&[0, 0, 2, 0x68]), &[0, 0, 2, 0x68]);
    assert_eq!(skip_start_code(&[0, 0, 0, 1]), &[] as &[u8]);
    assert_eq!(skip_start_code(&[]), &[] as &[u8]);
}

#[test]
fn split_parameter_sets_sorts_units() {
    let nals = vec![
        vec![0, 0, 0, 1, 0x67, 1, 2],
        vec![0, 0, 1, 0x68, 3],
        vec![0, 0, 0, 1, 0x65, 9, 9],
        vec![0, 0, 0, 1],
        vec![0x41, 5],
    ];
    let f = split_parameter_sets(FrameType::Idr, &nals);
    assert_eq!(f.frame_type, FrameType::Idr);
    assert_eq!(f.sps_list, vec![vec![0x67, 1, 2]]);
    assert_eq!(f.pps_list, vec![vec![0x68, 3]]);
    assert_eq!(f.data, vec![0, 0, 0, 1, 0x65, 9, 9, 0, 0, 0, 1, 0x41, 5]);
}

#[test]
fn nal_type_uses_low_five_bits() {
    // 0x27 = 0b0010_0111: type 7 with nal_ref_idc 1
    let f = split_parameter_sets(FrameType::P, &vec![vec![0, 0, 1, 0x27], vec![0, 0, 1, 0xe8]]);
    assert_eq!(f.sps_list, vec![vec![0x27]]);
    assert_eq!(f.pps_list, vec![vec![0xe8]]);
    assert!(f.data.is_empty());
}

#[test]
fn encoded_frame_types() {
    assert!(encoded_frame(4, &vec![vec![0, 0, 1, 0x65]]).is_none());
    assert_eq!(encoded_frame(1, &vec![]).unwrap().frame_type, FrameType::Idr);
    assert_eq!(encoded_frame(2, &vec![]).unwrap().frame_type, FrameType::I);
    assert_eq!(encoded_frame(3, &vec![]).unwrap().frame_type, FrameType::P);
    assert_eq!(encoded_frame(5, &vec![]).unwrap().frame_type, FrameType::P);
    assert_eq!(frame_type_from_code(0), Some(FrameType::P));
    assert_eq!(frame_type_from_code(4), None);
}

#[test]
fn nal_spans_pack_units() {
    let spans = nal_spans(&[10, 0, -4, 3, 7]).unwrap();
    assert_eq!(spans, vec![(0, 10), (10, 3), (13, 7)]);
    assert!(nal_spans(&[]).unwrap().is_empty());
    assert!(nal_spans(&[0, -1]).unwrap().is_empty());
}

#[test]
fn layer_counts_are_bounded() {
    assert_eq!(layer_count(0).unwrap(), 0);
    assert_eq!(layer_count(128).unwrap(), 128);
    assert!(matches!(layer_count(129), Err(Error::InvalidParameter(_))));
    assert!(layer_count(-1).is_err());
    assert_eq!(layer_nal_count(-5).unwrap(), 0);
    assert_eq!(layer_nal_count(0).unwrap(), 0);
    assert_eq!(layer_nal_count(65536).unwrap(), 65536);
    assert!(matches!(layer_nal_count(65537), Err(Error::InvalidParameter(_))));
}

#[test]
fn timestamps_follow_frame_rate() {
    assert_eq!(frame_timestamp(0, 30, 1), 0);
    assert_eq!(frame_timestamp(1, 30, 1), 33);
    assert_eq!(frame_timestamp(3, 30, 1), 100);
    assert_eq!(frame_timestamp(1, 30000, 1001), 33);
    assert_eq!(frame_timestamp(7, 1, 2), 14000);
    // no overflow for huge frame counts
    assert_eq!(frame_timestamp(usize::MAX, 4_294_967_295, 1), (usize::MAX as u128 * 1000 / 4_294_967_295) as i64);
}

fn layer() -> SpatialLayerParams {
    SpatialLayerParams {
        profile_idc: 0,
        level_idc: 0,
        video_width: 0,
        video_height: 0,
        frame_rate: None,
        spatial_bitrate: 0,
        max_spatial_bitrate: 0,
        slice_mode: 0,
        slice_num: 0,
        slice_size_constraint: 0,
    }
}

fn params(layers_in_use: i32) -> EncodeParams {
    EncodeParams {
        usage_type: 9,
        max_frame_rate: None,
        pic_width: 0,
        pic_height: 0,
        target_bitrate: 0,
        complexity_mode: 7,
        entropy_coding_mode_flag: 0,
        num_ref_frame: 0,
        multiple_thread_idc: 0,
        spatial_layer_num: layers_in_use,
        temporal_layer_num: 1,
        intra_period: 0,
        rc_mode: 0,
        max_qp: 51,
        min_qp: 0,
        enable_denoise: false,
        enable_background_detection: true,
        enable_adaptive_quant: true,
        enable_scene_change_detect: true,
        loop_filter_disable_idc: 0,
        enable_long_term_reference: false,
        ltr_ref_num: 0,
        spatial_layers: vec![layer(); 4],
    }
}

#[test]
fn apply_config_sets_every_field() {
    let config = EncoderConfig {
        level: Some(Level::L3_1),
        complexity_mode: Some(ComplexityMode::High),
        ref_frame_count: NonZeroCount::new(2),
        thread_count: NonZeroCount::new(4),
        spatial_layers: NonZeroCount::new(2),
        temporal_layers: NonZeroCount::new(3),
        intra_period: Some(60),
        rate_control_mode: Some(RateControlMode::Off),
        max_qp: Some(40),
        min_qp: Some(10),
        denoise: Some(true),
        deblocking_filter: Some(false),
        long_term_reference: Some(true),
        slice_mode: Some(SliceMode::FixedCount(4)),
        ..EncoderConfig::new(1280, 720, 2_000_000, 30000, 1001)
    };
    let mut p = params(1);
    apply_config_to_param(&mut p, &config);
    assert_eq!(p.usage_type, 0);
    assert_eq!(p.max_frame_rate.unwrap().numerator, 30000);
    assert_eq!(p.max_frame_rate.unwrap().denominator, 1001);
    assert_eq!((p.pic_width, p.pic_height, p.target_bitrate), (1280, 720, 2_000_000));
    assert_eq!(p.complexity_mode, 2);
    assert_eq!(p.num_ref_frame, 2);
    assert_eq!(p.multiple_thread_idc, 4);
    assert_eq!(p.spatial_layer_num, 2);
    assert_eq!(p.temporal_layer_num, 3);
    assert_eq!(p.intra_period, 60);
    assert_eq!(p.rc_mode, -1);
    assert_eq!((p.max_qp, p.min_qp), (40, 10));
    assert!(p.enable_denoise);
    assert!(p.enable_background_detection);
    assert_eq!(p.loop_filter_disable_idc, 1);
    assert!(p.enable_long_term_reference);
    assert_eq!(p.ltr_ref_num, 1);
    for i in 0..2 {
        let l = p.spatial_layers[i];
        assert_eq!(l.level_idc, 31);
        assert_eq!((l.video_width, l.video_height), (1280, 720));
        assert_eq!((l.spatial_bitrate, l.max_spatial_bitrate), (2_000_000, 4_000_000));
        assert_eq!((l.slice_mode, l.slice_num), (1, 4));
        assert!(l.frame_rate.is_some());
    }
    assert_eq!(p.spatial_layers[2].video_width, 0);
}

#[test]
fn apply_config_keeps_defaults_for_unset_fields() {
    let config = EncoderConfig::new(64, 64, 100_000, 30, 1);
    let mut p = params(1);
    apply_config_to_param(&mut p, &config);
    assert_eq!(p.complexity_mode, 7);
    assert_eq!(p.max_qp, 51);
    assert_eq!(p.spatial_layers[0].level_idc, 0);
    assert_eq!(p.spatial_layers[0].slice_mode, 0);
}

#[test]
fn out_of_range_layer_count_touches_no_layer() {
    assert_eq!(spatial_layer_count(5, 4), 0);
    assert_eq!(spatial_layer_count(-1, 4), 0);
    assert_eq!(spatial_layer_count(4, 4), 4);
    let config = EncoderConfig::new(64, 64, 100_000, 30, 1);
    let mut p = params(7);
    apply_config_to_param(&mut p, &config);
    assert_eq!(p.pic_width, 64);
    for i in 0..4 {
        assert_eq!(p.spatial_layers[i].video_width, 0);
    }
}

#[test]
fn probe_and_resolution_params() {
    let mut p = params(1);
    apply_profile_probe(&mut p, 66);
    assert_eq!((p.pic_width, p.pic_height, p.target_bitrate), (1920, 1080, 1_000_000));
    assert_eq!(p.spatial_layers[0].profile_idc, 66);
    assert_eq!(p.spatial_layers[0].max_spatial_bitrate, 2_000_000);
    assert_eq!(p.spatial_layers[1].profile_idc, 0);
    apply_resolution(&mut p, 160, 120);
    assert_eq!((p.pic_width, p.pic_height), (160, 120));
    assert_eq!((p.spatial_layers[0].video_width, p.spatial_layers[0].video_height), (160, 120));
    assert_eq!(p.target_bitrate, 1_000_000);
}

#[test]
fn level_codes() {
    assert_eq!(Level::L1.to_sys(), 10);
    assert_eq!(Level::L5_2.to_sys(), 52);
    assert_eq!(Level::L2_2.to_sys(), 22);
}
