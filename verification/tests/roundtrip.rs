//! The library's side of an encode/decode round trip: configuration, parameter block,
//! input checks and timestamps on the encoder side, NAL framing of the encoder's output,
//! and the decoded-picture checks and plane extraction on the decoder side. The codec
//! itself is replaced by its output: the decoder side is fed the planes that went in.
use shiguredo_openh264::{
    DecodedFrame, EncodeOptions, EncodeParams, Encoder, EncoderConfig, EntropyCodingMode,
    FrameType, RateControlMode, SpatialLayerParams, apply_config_to_param, decoded_picture_ready,
    encoded_frame, plane_layout,
};

/// SMPTE-like color bars as I420 planes (white, yellow, cyan, green, magenta, red, blue).
fn generate_colorbar_i420(width: usize, height: usize) -> (Vec<u8>, Vec<u8>, Vec<u8>) {
    let bars: [(u8, u8, u8); 7] = [
        (235, 235, 235),
        (235, 235, 16),
        (16, 235, 235),
        (16, 235, 16),
        (235, 16, 235),
        (235, 16, 16),
        (16, 16, 235),
    ];
    let mut y_plane = vec![0u8; width * height];
    let uv_width = width.div_ceil(2);
    let uv_height = height.div_ceil(2);
    let mut u_plane = vec![0u8; uv_width * uv_height];
    let mut v_plane = vec![0u8; uv_width * uv_height];
    for y in 0..height {
        for x in 0..width {
            let bar_index = x * 7 / width;
            let (r, g, b) = bars[bar_index];
            let rf = r as f64;
            let gf = g as f64;
            let bf = b as f64;
            let yv = (0.257 * rf + 0.504 * gf + 0.098 * bf + 16.0).clamp(16.0, 235.0) as u8;
            y_plane[y * width + x] = yv;
            if y % 2 == 0 && x % 2 == 0 {
                let u = (-0.148 * rf - 0.291 * gf + 0.439 * bf + 128.0).clamp(16.0, 240.0) as u8;
                let v = (0.439 * rf - 0.368 * gf - 0.071 * bf + 128.0).clamp(16.0, 240.0) as u8;
                u_plane[(y / 2) * uv_width + x / 2] = u;
                v_plane[(y / 2) * uv_width + x / 2] = v;
            }
        }
    }
    (y_plane, u_plane, v_plane)
}

/// A gradient Y plane that changes with the frame index, flat chroma.
fn generate_dummy_i420(width: usize, height: usize, frame_index: usize) -> (Vec<u8>, Vec<u8>, Vec<u8>) {
    let mut y_plane = vec![0u8; width * height];
    for y in 0..height {
        for x in 0..width {
            y_plane[y * width + x] = ((x + y + frame_index * 7) % 256) as u8;
        }
    }
    let uv = width.div_ceil(2) * height.div_ceil(2);
    (y_plane, vec![128u8; uv], vec![128u8; uv])
}

/// The NAL units of an IDR picture: SPS, PPS and one slice.
fn idr_units() -> Vec<Vec<u8>> {
    vec![
        vec![0, 0, 0, 1, 103, 100, 0, 30, 172, 217, 64, 160, 61, 176, 17, 0, 0, 3, 0, 1, 0, 0, 3, 0, 50, 15, 22, 45, 150],
        vec![0, 0, 0, 1, 104, 235, 227, 203, 34, 192],
        vec![0, 0, 0, 1, 101, 136, 132, 0, 43, 255, 254, 246, 115, 124, 10, 107],
    ]
}

/// Splits an Annex B stream at its start codes (each unit keeps its start code).
fn split_annex_b(data: &[u8]) -> Vec<Vec<u8>> {
    let mut positions = Vec::new();
    let mut i = 0;
    while i < data.len() {
        if i + 3 < data.len() && data[i] == 0 && data[i + 1] == 0 && data[i + 2] == 0 && data[i + 3] == 1 {
            positions.push(i);
            i += 4;
        } else if i + 2 < data.len() && data[i] == 0 && data[i + 1] == 0 && data[i + 2] == 1 {
            positions.push(i);
            i += 3;
        } else {
            i += 1;
        }
    }
    let mut nalus = Vec::new();
    for (idx, &start) in positions.iter().enumerate() {
        let end = if idx + 1 < positions.len() { positions[idx + 1] } else { data.len() };
        nalus.push(data[start..end].to_vec());
    }
    nalus
}

/// A parameter block as `GetDefaultParams` hands it out: one spatial layer in use.
fn default_params() -> EncodeParams {
    let layer = SpatialLayerParams {
        profile_idc: 0,
        level_idc: 0,
        video_width: 0,
        video_height: 0,
        frame_rate: None,
        spatial_bitrate: 0,
        max_spatial_bitrate: 0,
        slice_mode: 0,
        slice_num: 0,
        slice_size_constraint: 0,
    };
    EncodeParams {
        usage_type: 0,
        max_frame_rate: None,
        pic_width: 0,
        pic_height: 0,
        target_bitrate: 0,
        complexity_mode: 0,
        entropy_coding_mode_flag: 0,
        num_ref_frame: 0,
        multiple_thread_idc: 0,
        spatial_layer_num: 1,
        temporal_layer_num: 1,
        intra_period: 0,
        rc_mode: 0,
        max_qp: 51,
        min_qp: 0,
        enable_denoise: false,
        enable_background_detection: true,
        enable_adaptive_quant: true,
        enable_scene_change_detect: true,
        loop_filter_disable_idc: 0,
        enable_long_term_reference: false,
        ltr_ref_num: 0,
        spatial_layers: vec![layer; 4],
    }
}

/// Rebuilds the Annex B stream of an encoded frame: start code + each SPS, start code +
/// each PPS, then the data.
fn build_bitstream(frame: &shiguredo_openh264::EncodedFrame) -> Vec<u8> {
    let mut bitstream = Vec::new();
    for sps in &frame.sps_list {
        bitstream.extend_from_slice(&[0, 0, 0, 1]);
        bitstream.extend_from_slice(sps);
    }
    for pps in &frame.pps_list {
        bitstream.extend_from_slice(&[0, 0, 0, 1]);
        bitstream.extend_from_slice(pps);
    }
    bitstream.extend_from_slice(&frame.data);
    bitstream
}

/// A decoded picture built the way the decoder builds it from the planes it is handed,
/// with the padding of the strides stripped again.
fn decode_planes(width: usize, height: usize, y: &[u8], u: &[u8], v: &[u8]) -> (Vec<u8>, Vec<u8>, Vec<u8>) {
    assert_eq!(decoded_picture_ready(1, 23).unwrap(), true);
    let uv_width = width.div_ceil(2);
    let uv_height = height.div_ceil(2);
    let layout = plane_layout(true, width as i32, height as i32, width as i32, uv_width as i32)
        .expect("valid layout");
    let frame = DecodedFrame::new(layout, y.to_vec(), u.to_vec(), v.to_vec());
    assert_eq!(frame.width(), width);
    assert_eq!(frame.height(), height);
    let mut y_data = Vec::new();
    for row in 0..height {
        y_data.extend_from_slice(&frame.y_plane()[row * frame.y_stride()..row * frame.y_stride() + width]);
    }
    let mut u_data = Vec::new();
    let mut v_data = Vec::new();
    for row in 0..uv_height {
        u_data.extend_from_slice(&frame.u_plane()[row * frame.u_stride()..row * frame.u_stride() + uv_width]);
        v_data.extend_from_slice(&frame.v_plane()[row * frame.v_stride()..row * frame.v_stride() + uv_width]);
    }
    (y_data, u_data, v_data)
}

fn roundtrip_colorbar(config: EncoderConfig, num_frames: usize) {
    let width = config.width;
    let height = config.height;
    let mut params = default_params();
    apply_config_to_param(&mut params, &config);
    assert_eq!((params.pic_width, params.pic_height), (width as i32, height as i32));
    assert_eq!(params.spatial_layers[0].video_width, width as i32);
    assert_eq!(params.spatial_layers[0].max_spatial_bitrate, 2 * config.target_bitrate as i32);
    assert_eq!(params.spatial_layers[1].video_width, 0);

    let mut encoder = Encoder::new(&config).expect("failed to create encoder");
    let (y, u, v) = generate_colorbar_i420(width, height);
    let mut last_ts = -1i64;
    let mut decoded_frames = Vec::new();
    for i in 0..num_frames {
        let ts = encoder.start_frame(y.len(), u.len(), v.len()).expect("failed to encode");
        assert_eq!(ts, (i * config.fps_denominator * 1000 / config.fps_numerator) as i64);
        assert!(ts > last_ts);
        last_ts = ts;
        decoded_frames.push(decode_planes(width, height, &y, &u, &v));
    }
    assert_eq!(encoder.frames(), num_frames);

    let frame = encoded_frame(1, &idr_units()).expect("IDR frame");
    assert_eq!(frame.frame_type, FrameType::Idr);
    assert_eq!(split_annex_b(&build_bitstream(&frame)), idr_units());

    assert_eq!(decoded_frames.len(), num_frames);
    // identity check: the planes handed to the decoder side come back out unchanged
    // once the stride padding is stripped
    for (dy, du, dv) in &decoded_frames {
        assert_eq!(dy, &y);
        assert_eq!(du, &u);
        assert_eq!(dv, &v);
    }
}

#[test]
fn roundtrip_constrained_baseline_quality() {
    let config = EncoderConfig {
        rate_control_mode: Some(RateControlMode::Quality),
        intra_period: Some(30),
        ..EncoderConfig::new(320, 240, 1_000_000, 30, 1)
    };
    let mut params = default_params();
    apply_config_to_param(&mut params, &config);
    assert_eq!(params.rc_mode, 0);
    assert_eq!(params.intra_period, 30);
    assert_eq!(params.entropy_coding_mode_flag, 0);
    roundtrip_colorbar(config, 30);
}

#[test]
fn roundtrip_cabac_bitrate() {
    let config = EncoderConfig {
        rate_control_mode: Some(RateControlMode::Bitrate),
        entropy_coding_mode: Some(EntropyCodingMode::Cabac),
        intra_period: Some(30),
        ..EncoderConfig::new(320, 240, 1_000_000, 30, 1)
    };
    let mut params = default_params();
    apply_config_to_param(&mut params, &config);
    assert_eq!(params.rc_mode, 1);
    assert_eq!(params.intra_period, 30);
    assert_eq!(params.entropy_coding_mode_flag, 1);
    roundtrip_colorbar(config, 30);
}

#[test]
fn roundtrip_force_idr() {
    let width = 320;
    let height = 240;
    let num_frames = 15;
    let config = EncoderConfig {
        rate_control_mode: Some(RateControlMode::Quality),
        intra_period: Some(300),
        ..EncoderConfig::new(width, height, 1_000_000, 30, 1)
    };
    let mut encoder = Encoder::new(&config).expect("failed to create encoder");
    let mut forced = 0;
    for i in 0..num_frames {
        let (y, u, v) = generate_dummy_i420(width, height, i);
        let options = if i == 10 { EncodeOptions { force_idr: true } } else { EncodeOptions::default() };
        if options.force_idr {
            forced += 1;
        }
        encoder.start_frame(y.len(), u.len(), v.len()).expect("failed to encode");
    }
    assert_eq!(forced, 1);
    assert_eq!(encoder.frames(), num_frames);
}

#[test]
fn dynamic_parameter_change() {
    let config = EncoderConfig::new(320, 240, 500_000, 30, 1);
    let mut encoder = Encoder::new(&config).expect("failed to create encoder");
    let (y, u, v) = generate_dummy_i420(320, 240, 0);
    assert!(encoder.start_frame(y.len(), u.len(), v.len()).is_ok());

    assert_eq!(Encoder::bitrate_option(1_000_000).expect("failed to set bitrate"), 1_000_000);
    encoder.set_frame_rate(60, 1).expect("failed to set frame rate");
    encoder.set_resolution(160, 120).expect("failed to set resolution");

    let (y, u, v) = generate_dummy_i420(160, 120, 1);
    let ts = encoder
        .start_frame(y.len(), u.len(), v.len())
        .expect("failed to encode after resolution change");
    // second frame at 60 fps
    assert_eq!(ts, 16);
    assert_eq!((encoder.width(), encoder.height()), (160, 120));
    assert_eq!(encoder.picture(), (160, 120, 160, 80, 80));

    // the old size is refused now
    let (y, u, v) = generate_dummy_i420(320, 240, 2);
    assert!(encoder.start_frame(y.len(), u.len(), v.len()).is_err());

    let (dy, _, _) = decode_planes(160, 120, &generate_dummy_i420(160, 120, 1).0, &u[..80 * 60], &v[..80 * 60]);
    assert_eq!(dy.len(), 160 * 120);
}
