//! The encoder and decoder parameter blocks that the binding hands to OpenH264,
//! as plain values, and how a configuration fills them in.
use vstd::prelude::*;
use crate::config::{NonZeroCount, count_within, value_within, ComplexityMode, EncoderConfig, EntropyCodingMode, RateControlMode, SliceMode, config_valid, dimensions_valid, level_idc};

verus! {

/// `EUsageType::CAMERA_VIDEO_REAL_TIME`.
pub const USAGE_CAMERA_VIDEO_REAL_TIME: u32 = 0;
/// `ECOMPLEXITY_MODE::LOW_COMPLEXITY`.
pub const COMPLEXITY_LOW: u32 = 0;
/// `ECOMPLEXITY_MODE::MEDIUM_COMPLEXITY`.
pub const COMPLEXITY_MEDIUM: u32 = 1;
/// `ECOMPLEXITY_MODE::HIGH_COMPLEXITY`.
pub const COMPLEXITY_HIGH: u32 = 2;
/// `RC_MODES::RC_QUALITY_MODE`.
pub const RC_QUALITY_MODE: i32 = 0;
/// `RC_MODES::RC_BITRATE_MODE`.
pub const RC_BITRATE_MODE: i32 = 1;
/// `RC_MODES::RC_TIMESTAMP_MODE`.
pub const RC_TIMESTAMP_MODE: i32 = 3;
/// `RC_MODES::RC_OFF_MODE`.
pub const RC_OFF_MODE: i32 = -1;
/// `SliceModeEnum::SM_SINGLE_SLICE`.
pub const SM_SINGLE_SLICE: u32 = 0;
/// `SliceModeEnum::SM_FIXEDSLCNUM_SLICE`.
pub const SM_FIXEDSLCNUM_SLICE: u32 = 1;
/// `SliceModeEnum::SM_SIZELIMITED_SLICE`.
pub const SM_SIZELIMITED_SLICE: u32 = 3;
/// `EProfileIdc::PRO_BASELINE`.
pub const PRO_BASELINE: u32 = 66;
/// `ERROR_CON_IDC::ERROR_CON_DISABLE`.
pub const ERROR_CON_DISABLE: u32 = 0;
/// `VIDEO_BITSTREAM_TYPE::VIDEO_BITSTREAM_AVC`.
pub const VIDEO_BITSTREAM_AVC: u32 = 0;
/// The number of spatial layer slots of `SEncParamExt` (`MAX_SPATIAL_LAYER_NUM`).
pub const MAX_SPATIAL_LAYER_NUM: usize = 4;

/// A frame rate as a fraction; the floating-point value OpenH264 takes is
/// `numerator / denominator`.
#[derive(Clone, Copy, Debug, PartialEq, Eq, Structural)]
pub struct FrameRate {
    /// The numerator.
    pub numerator: u32,
    /// The denominator.
    pub denominator: u32,
}

/// The settings of one spatial layer (`SSpatialLayerConfig`) that the binding reads or writes.
#[derive(Clone, Copy, Debug)]
pub struct SpatialLayerParams {
    /// `uiProfileIdc`
    pub profile_idc: u32,
    /// `uiLevelIdc`
    pub level_idc: u32,
    /// `iVideoWidth`
    pub video_width: i32,
    /// `iVideoHeight`
    pub video_height: i32,
    /// `fFrameRate`: `None` keeps the value OpenH264 supplied.
    pub frame_rate: Option<FrameRate>,
    /// `iSpatialBitrate`
    pub spatial_bitrate: i32,
    /// `iMaxSpatialBitrate`
    pub max_spatial_bitrate: i32,
    /// `sSliceArgument.uiSliceMode`
    pub slice_mode: u32,
    /// `sSliceArgument.uiSliceNum`
    pub slice_num: u32,
    /// `sSliceArgument.uiSliceSizeConstraint`
    pub slice_size_constraint: u32,
}

/// The encoder parameters (`SEncParamExt`) that the binding reads or writes.
#[derive(Clone, Debug)]
pub struct EncodeParams {
    /// `iUsageType`
    pub usage_type: u32,
    /// `fMaxFrameRate`: `None` keeps the value OpenH264 supplied.
    pub max_frame_rate: Option<FrameRate>,
    /// `iPicWidth`
    pub pic_width: i32,
    /// `iPicHeight`
    pub pic_height: i32,
    /// `iTargetBitrate`
    pub target_bitrate: i32,
    /// `iComplexityMode`
    pub complexity_mode: u32,
    /// `iEntropyCodingModeFlag`
    pub entropy_coding_mode_flag: i32,
    /// `iNumRefFrame`
    pub num_ref_frame: i32,
    /// `iMultipleThreadIdc`
    pub multiple_thread_idc: u16,
    /// `iSpatialLayerNum`
    pub spatial_layer_num: i32,
    /// `iTemporalLayerNum`
    pub temporal_layer_num: i32,
    /// `uiIntraPeriod`
    pub intra_period: u32,
    /// `iRCMode`
    pub rc_mode: i32,
    /// `iMaxQp`
    pub max_qp: i32,
    /// `iMinQp`
    pub min_qp: i32,
    /// `bEnableDenoise`
    pub enable_denoise: bool,
    /// `bEnableBackgroundDetection`
    pub enable_background_detection: bool,
    /// `bEnableAdaptiveQuant`
    pub enable_adaptive_quant: bool,
    /// `bEnableSceneChangeDetect`
    pub enable_scene_change_detect: bool,
    /// `iLoopFilterDisableIdc`
    pub loop_filter_disable_idc: i32,
    /// `bEnableLongTermReference`
    pub enable_long_term_reference: bool,
    /// `iLTRRefNum`
    pub ltr_ref_num: i32,
    /// `sSpatialLayers`, one entry per slot.
    pub spatial_layers: Vec<SpatialLayerParams>,
}

/// The decoder parameters (`SDecodingParam`) that the binding sets.
#[derive(Clone, Copy, Debug)]
pub struct DecodingParams {
    /// `uiTargetDqLayer`
    pub target_dq_layer: u8,
    /// `eEcActiveIdc`
    pub ec_active_idc: u32,
    /// `bParseOnly`
    pub parse_only: bool,
    /// `sVideoProperty.eVideoBsType`
    pub video_bitstream_type: u32,
}

impl DecodingParams {
    /// The parameters a decoder is initialized with: one target layer, error
    /// concealment off, full decoding, AVC bitstream.
    pub fn avc() -> (p: DecodingParams)
        ensures
            p.target_dq_layer == 1,
            p.ec_active_idc == ERROR_CON_DISABLE,
            !p.parse_only,
            p.video_bitstream_type == VIDEO_BITSTREAM_AVC,
    {
        DecodingParams {
            target_dq_layer: 1,
            ec_active_idc: ERROR_CON_DISABLE,
            parse_only: false,
            video_bitstream_type: VIDEO_BITSTREAM_AVC,
        }
    }
}

/// The number of spatial layer slots in use: `num` when it lies in `0..=slots`, 0 otherwise.
pub open spec fn active_layers(num: i32, slots: int) -> int {
    if 0 <= num && num <= slots {
        num as int
    } else {
        0
    }
}

/// The number of spatial layer slots in use, `iSpatialLayerNum` clamped to the slots there are:
/// an out-of-range count uses none.
pub fn spatial_layer_count(num: i32, slots: usize) -> (n: usize)
    ensures
        n == active_layers(num, slots as int),
{
    if 0 <= num && num as u64 <= slots as u64 {
        num as usize
    } else {
        0
    }
}

/// The `ECOMPLEXITY_MODE` code of a complexity mode.
pub open spec fn complexity_code(m: ComplexityMode) -> u32 {
    match m {
        ComplexityMode::Low => COMPLEXITY_LOW,
        ComplexityMode::Medium => COMPLEXITY_MEDIUM,
        ComplexityMode::High => COMPLEXITY_HIGH,
    }
}

/// The `RC_MODES` code of a rate control mode.
pub open spec fn rc_code(m: RateControlMode) -> i32 {
    match m {
        RateControlMode::Off => RC_OFF_MODE,
        RateControlMode::Quality => RC_QUALITY_MODE,
        RateControlMode::Bitrate => RC_BITRATE_MODE,
        RateControlMode::Timestamp => RC_TIMESTAMP_MODE,
    }
}

/// `iEntropyCodingModeFlag` for an entropy coding mode: 0 for CAVLC, 1 for CABAC.
pub open spec fn entropy_flag(m: EntropyCodingMode) -> i32 {
    match m {
        EntropyCodingMode::Cavlc => 0,
        EntropyCodingMode::Cabac => 1,
    }
}

/// The frame rate of a configuration.
pub open spec fn config_frame_rate(c: EncoderConfig) -> FrameRate {
    FrameRate { numerator: c.fps_numerator as u32, denominator: c.fps_denominator as u32 }
}

/// `v` where `o` is `Some(v)`, `keep` where it is `None`.
pub open spec fn or_keep<T>(o: Option<T>, keep: T) -> T {
    match o {
        Some(v) => v,
        None => keep,
    }
}

/// A spatial layer after a configuration is applied to it.
pub open spec fn layer_with_config(l: SpatialLayerParams, c: EncoderConfig) -> SpatialLayerParams {
    let sliced = match c.slice_mode {
        Some(SliceMode::Single) => SpatialLayerParams { slice_mode: SM_SINGLE_SLICE, ..l },
        Some(SliceMode::FixedCount(n)) => SpatialLayerParams {
            slice_mode: SM_FIXEDSLCNUM_SLICE,
            slice_num: n as u32,
            ..l
        },
        Some(SliceMode::SizeConstrained(n)) => SpatialLayerParams {
            slice_mode: SM_SIZELIMITED_SLICE,
            slice_size_constraint: n as u32,
            ..l
        },
        None => l,
    };
    SpatialLayerParams {
        level_idc: match c.level {
            Some(level) => level_idc(level),
            None => l.level_idc,
        },
        video_width: c.width as i32,
        video_height: c.height as i32,
        frame_rate: Some(config_frame_rate(c)),
        spatial_bitrate: c.target_bitrate as i32,
        max_spatial_bitrate: (c.target_bitrate * 2) as i32,
        ..sliced
    }
}

/// The parameters after a configuration is applied to `p`; the spatial layers are left as
/// they were (see `layers_applied`).
pub open spec fn params_with_config(p: EncodeParams, c: EncoderConfig) -> EncodeParams {
    EncodeParams {
        usage_type: USAGE_CAMERA_VIDEO_REAL_TIME,
        max_frame_rate: Some(config_frame_rate(c)),
        pic_width: c.width as i32,
        pic_height: c.height as i32,
        target_bitrate: c.target_bitrate as i32,
        complexity_mode: match c.complexity_mode {
            Some(m) => complexity_code(m),
            None => p.complexity_mode,
        },
        entropy_coding_mode_flag: match c.entropy_coding_mode {
            Some(m) => entropy_flag(m),
            None => p.entropy_coding_mode_flag,
        },
        num_ref_frame: match c.ref_frame_count {
            Some(n) => n@ as i32,
            None => p.num_ref_frame,
        },
        multiple_thread_idc: match c.thread_count {
            Some(n) => n@ as u16,
            None => p.multiple_thread_idc,
        },
        spatial_layer_num: match c.spatial_layers {
            Some(n) => n@ as i32,
            None => p.spatial_layer_num,
        },
        temporal_layer_num: match c.temporal_layers {
            Some(n) => n@ as i32,
            None => p.temporal_layer_num,
        },
        intra_period: match c.intra_period {
            Some(n) => n as u32,
            None => p.intra_period,
        },
        rc_mode: match c.rate_control_mode {
            Some(m) => rc_code(m),
            None => p.rc_mode,
        },
        max_qp: match c.max_qp {
            Some(q) => q as i32,
            None => p.max_qp,
        },
        min_qp: match c.min_qp {
            Some(q) => q as i32,
            None => p.min_qp,
        },
        enable_denoise: or_keep(c.denoise, p.enable_denoise),
        enable_background_detection: or_keep(c.background_detection, p.enable_background_detection),
        enable_adaptive_quant: or_keep(c.adaptive_quantization, p.enable_adaptive_quant),
        enable_scene_change_detect: or_keep(c.scene_change_detection, p.enable_scene_change_detect),
        loop_filter_disable_idc: match c.deblocking_filter {
            Some(on) => if on { 0i32 } else { 1i32 },
            None => p.loop_filter_disable_idc,
        },
        enable_long_term_reference: or_keep(c.long_term_reference, p.enable_long_term_reference),
        ltr_ref_num: match c.long_term_reference {
            Some(on) => if on { 1i32 } else { 0i32 },
            None => p.ltr_ref_num,
        },
        spatial_layers: p.spatial_layers,
    }
}

/// The picture, rate and layer-count fields of two parameter blocks agree.
pub open spec fn same_settings(a: EncodeParams, b: EncodeParams) -> bool {
    &&& a.usage_type == b.usage_type
    &&& a.max_frame_rate == b.max_frame_rate
    &&& a.pic_width == b.pic_width
    &&& a.pic_height == b.pic_height
    &&& a.target_bitrate == b.target_bitrate
    &&& a.complexity_mode == b.complexity_mode
    &&& a.entropy_coding_mode_flag == b.entropy_coding_mode_flag
    &&& a.num_ref_frame == b.num_ref_frame
    &&& a.multiple_thread_idc == b.multiple_thread_idc
    &&& a.spatial_layer_num == b.spatial_layer_num
    &&& a.temporal_layer_num == b.temporal_layer_num
}

/// The intra period, rate control, QP and feature-switch fields of two parameter blocks agree.
pub open spec fn same_features(a: EncodeParams, b: EncodeParams) -> bool {
    &&& a.intra_period == b.intra_period
    &&& a.rc_mode == b.rc_mode
    &&& a.max_qp == b.max_qp
    &&& a.min_qp == b.min_qp
    &&& a.enable_denoise == b.enable_denoise
    &&& a.enable_background_detection == b.enable_background_detection
    &&& a.enable_adaptive_quant == b.enable_adaptive_quant
    &&& a.enable_scene_change_detect == b.enable_scene_change_detect
    &&& a.loop_filter_disable_idc == b.loop_filter_disable_idc
    &&& a.enable_long_term_reference == b.enable_long_term_reference
    &&& a.ltr_ref_num == b.ltr_ref_num
}

/// The scalar fields of two parameter blocks agree.
pub open spec fn same_scalars(a: EncodeParams, b: EncodeParams) -> bool {
    same_settings(a, b) && same_features(a, b)
}

/// `after` is `before` with `f` applied to the first `n` layers and the others unchanged.
pub open spec fn layers_mapped(
    before: Seq<SpatialLayerParams>,
    after: Seq<SpatialLayerParams>,
    n: int,
    f: spec_fn(SpatialLayerParams) -> SpatialLayerParams,
) -> bool {
    &&& after.len() == before.len()
    &&& forall|i: int| 0 <= i < n ==> #[trigger] after[i] == f(before[i])
    &&& forall|i: int| n <= i < before.len() ==> #[trigger] after[i] == before[i]
}

/// The count held by `o` as a C `int`, or `keep` when there is none.
fn count_or_keep_i32(o: Option<NonZeroCount>, keep: i32) -> (r: i32)
    requires
        count_within(o, i32::MAX as int),
    ensures
        r == match o {
            Some(n) => n@ as i32,
            None => keep,
        },
{
    match o {
        Some(n) => n.get() as i32,
        None => keep,
    }
}

/// The value held by `o` as a C `int`, or `keep` when there is none.
fn value_or_keep_i32(o: Option<usize>, keep: i32) -> (r: i32)
    requires
        value_within(o, i32::MAX as int),
    ensures
        r == match o {
            Some(v) => v as i32,
            None => keep,
        },
{
    match o {
        Some(v) => v as i32,
        None => keep,
    }
}

/// The flag held by `o`, or `keep` when there is none.
fn flag_or_keep(o: Option<bool>, keep: bool) -> (r: bool)
    ensures
        r == or_keep(o, keep),
{
    match o {
        Some(v) => v,
        None => keep,
    }
}

/// Writes the picture, rate and layer-count fields of a configuration into the parameter block.
fn apply_config_to_settings(param: &mut EncodeParams, config: &EncoderConfig)
    requires
        config_valid(*config),
    ensures
        same_settings(*final(param), params_with_config(*old(param), *config)),
        same_features(*final(param), *old(param)),
        final(param).spatial_layers@ == old(param).spatial_layers@,
{
    let complexity_mode = match config.complexity_mode {
        Some(ComplexityMode::Low) => COMPLEXITY_LOW,
        Some(ComplexityMode::Medium) => COMPLEXITY_MEDIUM,
        Some(ComplexityMode::High) => COMPLEXITY_HIGH,
        None => param.complexity_mode,
    };
    let entropy_coding_mode_flag = match config.entropy_coding_mode {
        Some(EntropyCodingMode::Cavlc) => 0,
        Some(EntropyCodingMode::Cabac) => 1,
        None => param.entropy_coding_mode_flag,
    };
    let multiple_thread_idc = match config.thread_count {
        Some(n) => n.get() as u16,
        None => param.multiple_thread_idc,
    };
    param.usage_type = USAGE_CAMERA_VIDEO_REAL_TIME;
    param.max_frame_rate = Some(FrameRate {
        numerator: config.fps_numerator as u32,
        denominator: config.fps_denominator as u32,
    });
    param.pic_width = config.width as i32;
    param.pic_height = config.height as i32;
    param.target_bitrate = config.target_bitrate as i32;
    param.complexity_mode = complexity_mode;
    param.entropy_coding_mode_flag = entropy_coding_mode_flag;
    param.num_ref_frame = count_or_keep_i32(config.ref_frame_count, param.num_ref_frame);
    param.multiple_thread_idc = multiple_thread_idc;
    param.spatial_layer_num = count_or_keep_i32(config.spatial_layers, param.spatial_layer_num);
    param.temporal_layer_num = count_or_keep_i32(config.temporal_layers, param.temporal_layer_num);
}

/// Writes the intra period, rate control, QP and feature switches of a configuration into
/// the parameter block.
fn apply_config_to_features(param: &mut EncodeParams, config: &EncoderConfig)
    requires
        config_valid(*config),
    ensures
        same_features(*final(param), params_with_config(*old(param), *config)),
        same_settings(*final(param), *old(param)),
        final(param).spatial_layers@ == old(param).spatial_layers@,
{
    let intra_period = match config.intra_period {
        Some(n) => n as u32,
        None => param.intra_period,
    };
    let rc_mode = match config.rate_control_mode {
        Some(RateControlMode::Off) => RC_OFF_MODE,
        Some(RateControlMode::Quality) => RC_QUALITY_MODE,
        Some(RateControlMode::Bitrate) => RC_BITRATE_MODE,
        Some(RateControlMode::Timestamp) => RC_TIMESTAMP_MODE,
        None => param.rc_mode,
    };
    let loop_filter_disable_idc = match config.deblocking_filter {
        Some(true) => 0,
        Some(false) => 1,
        None => param.loop_filter_disable_idc,
    };
    let ltr_ref_num = match config.long_term_reference {
        Some(true) => 1,
        Some(false) => 0,
        None => param.ltr_ref_num,
    };
    param.intra_period = intra_period;
    param.rc_mode = rc_mode;
    param.max_qp = value_or_keep_i32(config.max_qp, param.max_qp);
    param.min_qp = value_or_keep_i32(config.min_qp, param.min_qp);
    param.enable_denoise = flag_or_keep(config.denoise, param.enable_denoise);
    param.enable_background_detection = flag_or_keep(config.background_detection, param.enable_background_detection);
    param.enable_adaptive_quant = flag_or_keep(config.adaptive_quantization, param.enable_adaptive_quant);
    param.enable_scene_change_detect = flag_or_keep(config.scene_change_detection, param.enable_scene_change_detect);
    param.loop_filter_disable_idc = loop_filter_disable_idc;
    param.enable_long_term_reference = flag_or_keep(config.long_term_reference, param.enable_long_term_reference);
    param.ltr_ref_num = ltr_ref_num;
}

/// Writes the size, frame rate, bitrates, level and slicing of a configuration into the
/// first `count` spatial layers.
fn apply_config_to_layers(layers: &mut Vec<SpatialLayerParams>, count: usize, config: &EncoderConfig)
    requires
        config_valid(*config),
        count <= old(layers)@.len(),
    ensures
        layers_mapped(old(layers)@, final(layers)@, count as int,
            |l: SpatialLayerParams| layer_with_config(l, *config)),
{
    let frame_rate = FrameRate {
        numerator: config.fps_numerator as u32,
        denominator: config.fps_denominator as u32,
    };
    let ghost before = layers@;
    let mut i: usize = 0;
    while i < count
        invariant
            config_valid(*config),
            0 <= i <= count,
            count <= before.len(),
            before == old(layers)@,
            frame_rate == config_frame_rate(*config),
            layers_mapped(before, layers@, i as int,
                |l: SpatialLayerParams| layer_with_config(l, *config)),
        decreases count - i,
    {
        let mut layer = layers[i];
        if let Some(level) = config.level {
            layer.level_idc = level.to_sys();
        }
        layer.video_width = config.width as i32;
        layer.video_height = config.height as i32;
        layer.frame_rate = Some(frame_rate);
        layer.spatial_bitrate = config.target_bitrate as i32;
        layer.max_spatial_bitrate = (config.target_bitrate * 2) as i32;
        if let Some(slice_mode) = config.slice_mode {
            match slice_mode {
                SliceMode::Single => {
                    layer.slice_mode = SM_SINGLE_SLICE;
                },
                SliceMode::FixedCount(n) => {
                    layer.slice_mode = SM_FIXEDSLCNUM_SLICE;
                    layer.slice_num = n as u32;
                },
                SliceMode::SizeConstrained(n) => {
                    layer.slice_mode = SM_SIZELIMITED_SLICE;
                    layer.slice_size_constraint = n as u32;
                },
            }
        }
        assert(layer == layer_with_config(before[i as int], *config));
        layers.set(i, layer);
        i = i + 1;
    }
}

/// Everything an accepted configuration puts into the parameter block reaches OpenH264
/// unchanged: no size, bitrate, count, period or QP is truncated by the narrower C types,
/// and the largest spatial bitrate is exactly twice the target bitrate.
pub proof fn lemma_accepted_config_values_exact(p: EncodeParams, l: SpatialLayerParams, c: EncoderConfig)
    requires
        config_valid(c),
    ensures
        params_with_config(p, c).pic_width == c.width,
        params_with_config(p, c).pic_height == c.height,
        params_with_config(p, c).target_bitrate == c.target_bitrate,
        params_with_config(p, c).max_frame_rate == Some(FrameRate {
            numerator: c.fps_numerator as u32,
            denominator: c.fps_denominator as u32,
        }),
        c.fps_numerator as u32 == c.fps_numerator,
        c.fps_denominator as u32 == c.fps_denominator,
        c.ref_frame_count matches Some(n) ==> params_with_config(p, c).num_ref_frame == n@,
        c.thread_count matches Some(n) ==> params_with_config(p, c).multiple_thread_idc == n@,
        c.spatial_layers matches Some(n) ==> params_with_config(p, c).spatial_layer_num == n@,
        c.temporal_layers matches Some(n) ==> params_with_config(p, c).temporal_layer_num == n@,
        c.intra_period matches Some(n) ==> params_with_config(p, c).intra_period == n,
        c.max_qp matches Some(q) ==> params_with_config(p, c).max_qp == q,
        c.min_qp matches Some(q) ==> params_with_config(p, c).min_qp == q,
        layer_with_config(l, c).video_width == c.width,
        layer_with_config(l, c).video_height == c.height,
        layer_with_config(l, c).spatial_bitrate == c.target_bitrate,
        layer_with_config(l, c).max_spatial_bitrate == 2 * c.target_bitrate,
        c.slice_mode matches Some(SliceMode::FixedCount(n)) ==> layer_with_config(l, c).slice_num == n,
        c.slice_mode matches Some(SliceMode::SizeConstrained(n)) ==>
            layer_with_config(l, c).slice_size_constraint == n,
{
}

/// A configuration that leaves every optional field unset keeps all of OpenH264's defaults:
/// only the usage, frame rate, picture size and target bitrate change.
pub proof fn lemma_unset_options_keep_defaults(p: EncodeParams, c: EncoderConfig)
    requires
        c.level is None && c.entropy_coding_mode is None && c.complexity_mode is None,
        c.ref_frame_count is None && c.thread_count is None,
        c.spatial_layers is None && c.temporal_layers is None,
        c.intra_period is None && c.rate_control_mode is None,
        c.max_qp is None && c.min_qp is None,
        c.denoise is None && c.background_detection is None,
        c.adaptive_quantization is None && c.scene_change_detection is None,
        c.deblocking_filter is None && c.long_term_reference is None,
        c.slice_mode is None,
    ensures
        params_with_config(p, c) == (EncodeParams {
            usage_type: USAGE_CAMERA_VIDEO_REAL_TIME,
            max_frame_rate: Some(config_frame_rate(c)),
            pic_width: c.width as i32,
            pic_height: c.height as i32,
            target_bitrate: c.target_bitrate as i32,
            ..p
        }),
        forall|l: SpatialLayerParams| #[trigger] layer_with_config(l, c) == (SpatialLayerParams {
            video_width: c.width as i32,
            video_height: c.height as i32,
            frame_rate: Some(config_frame_rate(c)),
            spatial_bitrate: c.target_bitrate as i32,
            max_spatial_bitrate: (c.target_bitrate * 2) as i32,
            ..l
        }),
{
}

/// Each complexity mode reaches OpenH264 as the code named after it (`LOW_COMPLEXITY` 0,
/// `MEDIUM_COMPLEXITY` 1, `HIGH_COMPLEXITY` 2), and different modes as different codes.
pub proof fn lemma_complexity_modes_keep_their_codes(p: EncodeParams, c1: EncoderConfig, c2: EncoderConfig)
    requires
        c1.complexity_mode is Some,
        c2.complexity_mode is Some,
    ensures
        c1.complexity_mode == Some(ComplexityMode::Low) ==> params_with_config(p, c1).complexity_mode == 0,
        c1.complexity_mode == Some(ComplexityMode::Medium) ==> params_with_config(p, c1).complexity_mode == 1,
        c1.complexity_mode == Some(ComplexityMode::High) ==> params_with_config(p, c1).complexity_mode == 2,
        c1.complexity_mode != c2.complexity_mode ==>
            params_with_config(p, c1).complexity_mode != params_with_config(p, c2).complexity_mode,
{
}

/// Each rate control mode reaches OpenH264 as the code named after it (`RC_OFF_MODE` -1,
/// `RC_QUALITY_MODE` 0, `RC_BITRATE_MODE` 1, `RC_TIMESTAMP_MODE` 3), and different modes as
/// different codes.
pub proof fn lemma_rate_control_modes_keep_their_codes(p: EncodeParams, c1: EncoderConfig, c2: EncoderConfig)
    requires
        c1.rate_control_mode is Some,
        c2.rate_control_mode is Some,
    ensures
        c1.rate_control_mode == Some(RateControlMode::Off) ==> params_with_config(p, c1).rc_mode == -1,
        c1.rate_control_mode == Some(RateControlMode::Quality) ==> params_with_config(p, c1).rc_mode == 0,
        c1.rate_control_mode == Some(RateControlMode::Bitrate) ==> params_with_config(p, c1).rc_mode == 1,
        c1.rate_control_mode == Some(RateControlMode::Timestamp) ==> params_with_config(p, c1).rc_mode == 3,
        c1.rate_control_mode != c2.rate_control_mode ==>
            params_with_config(p, c1).rc_mode != params_with_config(p, c2).rc_mode,
{
}

/// The entropy coding, deblocking and long-term reference switches reach OpenH264 as its
/// flags: CABAC sets `iEntropyCodingModeFlag` and CAVLC clears it; a deblocking filter that is
/// on leaves `iLoopFilterDisableIdc` at 0 and one that is off sets it to 1; long-term
/// reference on enables it with one reference frame, off disables it with none.
pub proof fn lemma_switches_keep_their_meaning(p: EncodeParams, c: EncoderConfig)
    ensures
        c.entropy_coding_mode == Some(EntropyCodingMode::Cavlc) ==> params_with_config(p, c).entropy_coding_mode_flag == 0,
        c.entropy_coding_mode == Some(EntropyCodingMode::Cabac) ==> params_with_config(p, c).entropy_coding_mode_flag == 1,
        c.deblocking_filter == Some(true) ==> params_with_config(p, c).loop_filter_disable_idc == 0,
        c.deblocking_filter == Some(false) ==> params_with_config(p, c).loop_filter_disable_idc == 1,
        c.long_term_reference == Some(true) ==> params_with_config(p, c).enable_long_term_reference
            && params_with_config(p, c).ltr_ref_num == 1,
        c.long_term_reference == Some(false) ==> !params_with_config(p, c).enable_long_term_reference
            && params_with_config(p, c).ltr_ref_num == 0,
        c.denoise matches Some(v) ==> params_with_config(p, c).enable_denoise == v,
        c.background_detection matches Some(v) ==> params_with_config(p, c).enable_background_detection == v,
        c.adaptive_quantization matches Some(v) ==> params_with_config(p, c).enable_adaptive_quant == v,
        c.scene_change_detection matches Some(v) ==> params_with_config(p, c).enable_scene_change_detect == v,
{
}

/// Each slice mode reaches every layer in use as the OpenH264 mode named after it
/// (`SM_SINGLE_SLICE` 0, `SM_FIXEDSLCNUM_SLICE` 1, `SM_SIZELIMITED_SLICE` 3), with its count or
/// size in the field that mode reads.
pub proof fn lemma_slice_modes_keep_their_codes(l: SpatialLayerParams, c: EncoderConfig)
    requires
        config_valid(c),
    ensures
        c.slice_mode == Some(SliceMode::Single) ==> layer_with_config(l, c).slice_mode == 0,
        c.slice_mode matches Some(SliceMode::FixedCount(n)) ==> layer_with_config(l, c).slice_mode == 1
            && layer_with_config(l, c).slice_num == n,
        c.slice_mode matches Some(SliceMode::SizeConstrained(n)) ==> layer_with_config(l, c).slice_mode == 3
            && layer_with_config(l, c).slice_size_constraint == n,
        c.slice_mode is None ==> layer_with_config(l, c).slice_mode == l.slice_mode
            && layer_with_config(l, c).slice_num == l.slice_num
            && layer_with_config(l, c).slice_size_constraint == l.slice_size_constraint,
{
}

/// Every spatial layer in use is set to the picture's own size: under a configuration, under
/// a change of size, and under the profile probe (whose picture is 1920x1080, the probed
/// profile in each layer).
pub proof fn lemma_layers_match_picture(
    p: EncodeParams,
    l: SpatialLayerParams,
    c: EncoderConfig,
    width: int,
    height: int,
    profile_idc: u32,
)
    ensures
        layer_with_config(l, c).video_width == params_with_config(p, c).pic_width,
        layer_with_config(l, c).video_height == params_with_config(p, c).pic_height,
        layer_with_config(l, c).frame_rate == params_with_config(p, c).max_frame_rate,
        layer_with_size(l, width, height).video_width == params_with_size(p, width, height).pic_width,
        layer_with_size(l, width, height).video_height == params_with_size(p, width, height).pic_height,
        layer_for_probe(l, profile_idc).video_width == params_for_probe(p).pic_width,
        layer_for_probe(l, profile_idc).video_height == params_for_probe(p).pic_height,
        layer_for_probe(l, profile_idc).frame_rate == params_for_probe(p).max_frame_rate,
        layer_for_probe(l, profile_idc).spatial_bitrate == params_for_probe(p).target_bitrate,
        layer_for_probe(l, profile_idc).max_spatial_bitrate == 2 * params_for_probe(p).target_bitrate,
        layer_for_probe(l, profile_idc).profile_idc == profile_idc,
        params_for_probe(p).pic_width == 1920 && params_for_probe(p).pic_height == 1080,
        params_for_probe(p).max_frame_rate == Some(FrameRate { numerator: 30, denominator: 1 }),
{
}

/// The spatial layers in use never exceed the slots of the parameter block, whatever
/// layer count OpenH264 reports.
pub proof fn lemma_active_layers_within_slots(num: i32, slots: int)
    requires
        slots >= 0,
    ensures
        0 <= active_layers(num, slots) <= slots,
{
}

/// Writes an encoder configuration into the parameter block, as OpenH264's `InitializeExt`
/// and `SetOption(ENCODER_OPTION_SVC_ENCODE_PARAM_EXT)` take it: the required fields always,
/// each optional one only where it is set, and the size, frame rate, bitrates, level and
/// slicing of each spatial layer in use.
pub fn apply_config_to_param(param: &mut EncodeParams, config: &EncoderConfig)
    requires
        config_valid(*config),
    ensures
        same_scalars(*final(param), params_with_config(*old(param), *config)),
        layers_mapped(
            old(param).spatial_layers@,
            final(param).spatial_layers@,
            active_layers(final(param).spatial_layer_num, old(param).spatial_layers@.len() as int),
            |l: SpatialLayerParams| layer_with_config(l, *config),
        ),
{
    apply_config_to_settings(param, config);
    apply_config_to_features(param, config);
    let count = spatial_layer_count(param.spatial_layer_num, param.spatial_layers.len());
    apply_config_to_layers(&mut param.spatial_layers, count, config);
}

/// The frame rate used to probe a profile: 30 frames per second.
pub open spec fn probe_frame_rate() -> FrameRate {
    FrameRate { numerator: 30, denominator: 1 }
}

/// The parameters after the profile probe settings are applied to `p` (1920x1080 at
/// 30 fps and 1 Mbps, camera usage); the spatial layers are left as they were.
pub open spec fn params_for_probe(p: EncodeParams) -> EncodeParams {
    EncodeParams {
        usage_type: USAGE_CAMERA_VIDEO_REAL_TIME,
        max_frame_rate: Some(probe_frame_rate()),
        pic_width: 1920,
        pic_height: 1080,
        target_bitrate: 1_000_000,
        ..p
    }
}

/// A spatial layer set up to probe the profile `profile_idc`.
pub open spec fn layer_for_probe(l: SpatialLayerParams, profile_idc: u32) -> SpatialLayerParams {
    SpatialLayerParams {
        profile_idc,
        video_width: 1920,
        video_height: 1080,
        frame_rate: Some(probe_frame_rate()),
        spatial_bitrate: 1_000_000,
        max_spatial_bitrate: 2_000_000,
        ..l
    }
}

/// Sets up the parameter block to probe whether the encoder accepts the profile
/// `profile_idc`: a 1920x1080 camera stream at 30 fps and 1 Mbps, each spatial layer in use
/// with that profile and a largest bitrate of 2 Mbps.
pub fn apply_profile_probe(param: &mut EncodeParams, profile_idc: u32)
    ensures
        same_scalars(*final(param), params_for_probe(*old(param))),
        layers_mapped(
            old(param).spatial_layers@,
            final(param).spatial_layers@,
            active_layers(old(param).spatial_layer_num, old(param).spatial_layers@.len() as int),
            |l: SpatialLayerParams| layer_for_probe(l, profile_idc),
        ),
{
    param.pic_width = 1920;
    param.pic_height = 1080;
    param.target_bitrate = 1_000_000;
    param.max_frame_rate = Some(FrameRate { numerator: 30, denominator: 1 });
    param.usage_type = USAGE_CAMERA_VIDEO_REAL_TIME;

    let count = spatial_layer_count(param.spatial_layer_num, param.spatial_layers.len());
    let ghost before = param.spatial_layers@;
    let ghost orig = *old(param);
    let mut i: usize = 0;
    while i < count
        invariant
            0 <= i <= count,
            count <= before.len(),
            before == orig.spatial_layers@,
            count == active_layers(orig.spatial_layer_num, before.len() as int),
            same_scalars(*param, params_for_probe(orig)),
            layers_mapped(before, param.spatial_layers@, i as int,
                |l: SpatialLayerParams| layer_for_probe(l, profile_idc)),
        decreases count - i,
    {
        let mut layer = param.spatial_layers[i];
        layer.profile_idc = profile_idc;
        layer.video_width = 1920;
        layer.video_height = 1080;
        layer.frame_rate = Some(FrameRate { numerator: 30, denominator: 1 });
        layer.spatial_bitrate = 1_000_000;
        layer.max_spatial_bitrate = 2_000_000;
        param.spatial_layers.set(i, layer);
        i = i + 1;
    }
}

/// The parameters after the picture size is changed to `width` x `height`; the spatial
/// layers are left as they were.
pub open spec fn params_with_size(p: EncodeParams, width: int, height: int) -> EncodeParams {
    EncodeParams { pic_width: width as i32, pic_height: height as i32, ..p }
}

/// A spatial layer resized to `width` x `height`.
pub open spec fn layer_with_size(l: SpatialLayerParams, width: int, height: int) -> SpatialLayerParams {
    SpatialLayerParams { video_width: width as i32, video_height: height as i32, ..l }
}

/// Changes the picture size in the parameter block, and in each spatial layer in use,
/// keeping every other setting.
pub fn apply_resolution(param: &mut EncodeParams, width: usize, height: usize)
    requires
        dimensions_valid(width as int, height as int),
    ensures
        same_scalars(*final(param), params_with_size(*old(param), width as int, height as int)),
        layers_mapped(
            old(param).spatial_layers@,
            final(param).spatial_layers@,
            active_layers(old(param).spatial_layer_num, old(param).spatial_layers@.len() as int),
            |l: SpatialLayerParams| layer_with_size(l, width as int, height as int),
        ),
{
    param.pic_width = width as i32;
    param.pic_height = height as i32;

    let count = spatial_layer_count(param.spatial_layer_num, param.spatial_layers.len());
    let ghost before = param.spatial_layers@;
    let ghost orig = *old(param);
    let mut i: usize = 0;
    while i < count
        invariant
            dimensions_valid(width as int, height as int),
            before == orig.spatial_layers@,
            count == active_layers(orig.spatial_layer_num, before.len() as int),
            same_scalars(*param, params_with_size(orig, width as int, height as int)),
            0 <= i <= count,
            count <= before.len(),
            layers_mapped(before, param.spatial_layers@, i as int,
                |l: SpatialLayerParams| layer_with_size(l, width as int, height as int)),
        decreases count - i,
    {
        let mut layer = param.spatial_layers[i];
        layer.video_width = width as i32;
        layer.video_height = height as i32;
        param.spatial_layers.set(i, layer);
        i = i + 1;
    }
}

} // verus!
