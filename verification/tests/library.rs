use shiguredo_openh264::{
    BUILD_VERSION, DecodingParams, EncodingProfiles, Error, H264EncodingProfile, OpenH264Version,
    Openh264Library, VideoCodecType, decode_input_len, decoded_picture_ready, detect_supported_profiles,
    plane_layout, skip_start_code, DecodedFrame, decoded_output,
};

fn build_version() -> OpenH264Version {
    OpenH264Version { major: 2, minor: 6, revision: 0, reserved: 0 }
}

#[test]
fn load_library() {
    let lib = Openh264Library::new("/opt/libopenh264.so".to_string(), build_version());
    assert!(lib.is_ok());
    let lib = lib.unwrap();
    assert_eq!(lib.path(), "/opt/libopenh264.so");
    assert_eq!(lib.runtime_version(), BUILD_VERSION);
}

#[test]
fn version_mismatch_is_reported() {
    let version = OpenH264Version { major: 2, minor: 10, revision: 3, reserved: 0 };
    match Openh264Library::new("lib.so".to_string(), version) {
        Err(Error::VersionMismatch { build_version, runtime_version }) => {
            assert_eq!(build_version, "v2.6.0");
            assert_eq!(runtime_version, "v2.10.3");
        }
        other => panic!("expected a version mismatch, got {:?}", other),
    }
    let e = Openh264Library::new("lib.so".to_string(), version).unwrap_err();
    assert_eq!(e.message(), "OpenH264 version mismatch: build=v2.6.0, runtime=v2.10.3");
}

#[test]
fn runtime_version_renders_decimal() {
    let lib = Openh264Library::new("a".to_string(), build_version()).unwrap();
    assert_eq!(lib.runtime_version(), "v2.6.0");
    let big = OpenH264Version { major: 4294967295, minor: 0, revision: 10, reserved: 7 };
    let e = Openh264Library::new("a".to_string(), big).unwrap_err();
    match e {
        Error::VersionMismatch { runtime_version, .. } => assert_eq!(runtime_version, "v4294967295.0.10"),
        _ => panic!("expected a version mismatch"),
    }
}

#[test]
fn supported_codecs() {
    let lib = Openh264Library::new("lib.so".to_string(), build_version()).expect("load library error");
    let info = lib.supported_codecs(true, true, true);

    assert_eq!(info.codec, VideoCodecType::H264);
    assert!(info.decoding.supported);
    assert!(!info.decoding.hardware_accelerated);
    assert!(info.encoding.supported);
    assert!(!info.encoding.hardware_accelerated);
    match &info.encoding.profiles {
        EncodingProfiles::H264(profiles) => {
            assert_eq!(profiles.len(), 1);
            assert_eq!(profiles[0], H264EncodingProfile::ConstrainedBaseline);
        }
        EncodingProfiles::Unsupported => panic!("encoding profiles should not be Unsupported"),
    }
}

#[test]
fn supported_codecs_without_encoder() {
    let lib = Openh264Library::new("lib.so".to_string(), build_version()).unwrap();
    let info = lib.supported_codecs(false, false, true);
    assert!(!info.decoding.supported);
    assert!(!info.encoding.supported);
    assert_eq!(info.encoding.profiles, EncodingProfiles::Unsupported);
    let info = lib.supported_codecs(true, true, false);
    assert_eq!(info.encoding.profiles, EncodingProfiles::H264(vec![]));
    assert!(detect_supported_profiles(false).is_empty());
}

#[test]
fn init_decoder() {
    let p = DecodingParams::avc();
    assert_eq!(p.target_dq_layer, 1);
    assert_eq!(p.ec_active_idc, 0);
    assert!(!p.parse_only);
    assert_eq!(p.video_bitstream_type, 0);
}

#[test]
fn decode_black() {
    let data = [
        // SPS
        0u8, 0, 0, 1, 103, 100, 0, 30, 172, 217, 64, 160, 61, 176, 17, 0, 0, 3, 0, 1, 0, 0, 3, 0,
        50, 15, 22, 45, 150, //
        // PPS
        0, 0, 0, 1, 104, 235, 227, 203, 34, 192, //
        // picture data
        0, 0, 0, 1, 101, 136, 132, 0, 43, 255, 254, 246, 115, 124, 10, 107, 109, 176, 149, 46,
        5, 118, 247, 102, 163, 229, 208, 146, 229, 251, 16, 96, 250, 208, 0, 0, 3, 0, 0, 3, 0,
        0, 16, 15, 210, 222, 245, 204, 98, 91, 229, 32, 0, 0, 9, 216, 2, 56, 13, 16, 118, 133,
        116, 69, 196, 32, 71, 6, 120, 150, 16, 161, 210, 50, 128, 0, 0, 3, 0, 0, 3, 0, 0, 3, 0,
        0, 3, 0, 0, 3, 0, 0, 3, 0, 0, 3, 0, 0, 3, 0, 0, 3, 0, 37, 225,
    ];
    assert_eq!(decode_input_len(data.len()).unwrap(), data.len() as i32);
    assert_eq!(skip_start_code(&data)[0], 103);
    let mut decoded_count = 0;
    // the decoder reports a finished I420 picture after the data ...
    decoded_count += decoded_picture_ready(1, 23).expect("decode error") as usize;
    // ... and nothing more when flushed
    decoded_count += decoded_picture_ready(0, 23).expect("decode error") as usize;
    assert_eq!(decoded_count, 1);
}

#[test]
fn decoder_rejects_other_formats() {
    match decoded_picture_ready(1, 1) {
        Err(Error::UnsupportedFormat { format }) => assert_eq!(format, 1),
        other => panic!("expected UnsupportedFormat, got {:?}", other),
    }
    assert_eq!(decoded_picture_ready(0, 1).unwrap(), false);
    assert_eq!(
        Error::UnsupportedFormat { format: 1 }.message(),
        "unsupported video format (not I420): format=1"
    );
}

#[test]
fn decode_input_longer_than_c_int_is_refused() {
    assert!(matches!(decode_input_len(2_147_483_648), Err(Error::InvalidParameter(_))));
    assert_eq!(decode_input_len(2_147_483_647).unwrap(), 2_147_483_647);
}

#[test]
fn plane_layout_checks_decoder_output() {
    let l = plane_layout(true, 641, 481, 704, 352).unwrap();
    assert_eq!((l.width, l.height), (641, 481));
    assert_eq!(l.y_size, 481 * 704);
    assert_eq!(l.u_size, 241 * 352);
    assert_eq!(l.v_size, l.u_size);
    assert!(matches!(plane_layout(false, 64, 64, 64, 32), Err(Error::InvalidParameter(_))));
    assert!(plane_layout(true, 0, 64, 64, 32).is_err());
    assert!(plane_layout(true, 64, -1, 64, 32).is_err());
    assert!(plane_layout(true, 64, 64, 64, 0).is_err());
    let l = plane_layout(true, 2, 3, 4, 2).unwrap();
    let f = DecodedFrame::new(l, vec![1; 12], vec![2; 4], vec![3; 4]);
    assert_eq!(f.y_plane(), &[1u8; 12][..]);
    assert_eq!(f.u_plane(), &[2u8; 4][..]);
    assert_eq!(f.v_plane(), &[3u8; 4][..]);
    assert_eq!((f.y_stride(), f.u_stride(), f.v_stride()), (4, 2, 2));
    let g = f.clone();
    assert_eq!(g.height(), 3);
    assert_eq!(g.width(), 2);
}

#[test]
fn error_messages() {
    assert_eq!(
        Error::Openh264Error { code: -3, function: "ISVCEncoder.EncodeFrame" }.message(),
        "ISVCEncoder.EncodeFrame() failed: code=-3"
    );
    assert_eq!(Error::UnavailableMethod("ISVCDecoder.Initialize").message(), "unavailable method: name=ISVCDecoder.Initialize");
    assert_eq!(Error::InvalidYuvSize.message(), "invalid input YUV size");
    assert_eq!(Error::InvalidParameter("x".to_string()).message(), "invalid parameter: x");
    assert_eq!(Error::SharedLibraryError("dlopen failed".to_string()).message(), "dlopen failed");
    assert!(Error::check(0, "f").is_ok());
    match Error::check(5, "WelsCreateDecoder") {
        Err(Error::Openh264Error { code, function }) => {
            assert_eq!(code, 5);
            assert_eq!(function, "WelsCreateDecoder");
        }
        _ => panic!("expected Openh264Error"),
    }
}

#[test]
fn decoded_output_decisions() {
    assert!(decoded_output(0, 1, false, 0, 0, 0, 0).unwrap().is_none());
    assert!(matches!(decoded_output(1, 24, true, 64, 64, 64, 32), Err(Error::UnsupportedFormat { format: 24 })));
    assert!(matches!(decoded_output(1, 23, false, 64, 64, 64, 32), Err(Error::InvalidParameter(_))));
    let layout = decoded_output(1, 23, true, 160, 120, 192, 96).unwrap().unwrap();
    assert_eq!((layout.width, layout.height, layout.y_size, layout.u_size), (160, 120, 120 * 192, 60 * 96));
}

#[test]
fn decode_input_error_message() {
    match decode_input_len(2_147_483_648) {
        Err(Error::InvalidParameter(msg)) => assert_eq!(msg, "decode input data exceeds c_int::MAX"),
        other => panic!("expected InvalidParameter, got {:?}", other),
    }
}

#[test]
fn cloned_library_reports_same_path_and_version() {
    let lib = Openh264Library::new("/usr/lib/libopenh264.so".to_string(), build_version()).unwrap();
    let copy = lib.clone();
    assert_eq!(copy.path(), lib.path());
    assert_eq!(copy.runtime_version(), lib.runtime_version());
    assert_eq!(copy.runtime_version(), BUILD_VERSION);
    assert!(copy.check_version().is_ok());
}
