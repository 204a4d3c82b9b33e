//! Verified core of a binding to Cisco's OpenH264 codec (Constrained Baseline up to
//! level 5.2, I420 pictures in and out).
//!
//! The library holds everything the binding decides: the validation of encoder settings,
//! the parameter blocks handed to OpenH264, the encoder's picture size, frame rate and
//! timestamps, the framing of encoded NAL units, the checks on what the decoder returns,
//! and the version and capability reports of a loaded library. Calling into the shared
//! library itself is left to the application around it.
pub mod text;
pub mod error;
pub mod config;
pub mod params;
pub mod library;
pub mod encoder;
pub mod bitstream;
pub mod decoder;

pub use error::Error;
pub use config::{
    ComplexityMode, EncoderConfig, EntropyCodingMode, Level, NonZeroCount, RateControlMode,
    SliceMode, build_config, validate_bitrate, validate_config, validate_dimensions,
    validate_frame_rate,
};
pub use params::{
    DecodingParams, EncodeParams, FrameRate, SpatialLayerParams, apply_config_to_param,
    apply_profile_probe, apply_resolution, spatial_layer_count,
};
pub use library::{
    BUILD_REPOSITORY, BUILD_VERSION, CodecInfo, DecodingInfo, EncodingInfo, EncodingProfiles,
    H264EncodingProfile, OpenH264Version, Openh264Library, VideoCodecType,
    detect_supported_profiles,
};
pub use encoder::{EncodeOptions, Encoder, FrameType, frame_timestamp, frame_type_from_code};
pub use bitstream::{
    EncodedFrame, encoded_frame, layer_count, layer_nal_count, nal_spans, skip_start_code,
    split_parameter_sets,
};
pub use decoder::{
    DecodedFrame, PlaneLayout, decode_input_len, decoded_output, decoded_picture_ready, plane_layout,
};
