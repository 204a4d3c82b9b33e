//! Encoder configuration and its validation.
use vstd::prelude::*;
use crate::error::{Error, invalid_with};

verus! {

/// A count that is never zero (a number of frames, threads or layers).
#[derive(Clone, Copy, Debug)]
pub struct NonZeroCount {
    value: usize,
}

impl View for NonZeroCount {
    type V = usize;

    closed spec fn view(&self) -> usize {
        self.value
    }
}

impl NonZeroCount {
    #[verifier::type_invariant]
    spec fn positive(self) -> bool {
        self.value > 0
    }

    /// `Some` count holding `n` when `n` is not zero, `None` otherwise.
    pub fn new(n: usize) -> (r: Option<NonZeroCount>)
        ensures
            n == 0 <==> r is None,
            r matches Some(c) ==> c@ == n,
    {
        if n == 0 {
            None
        } else {
            Some(NonZeroCount { value: n })
        }
    }

    /// The count.
    pub fn get(self) -> (n: usize)
        ensures
            n == self@,
            n > 0,
    {
        proof { use_type_invariant(&self); }
        self.value
    }
}

/// H.264 level.
#[derive(Debug, Clone, Copy, PartialEq, Eq, Structural)]
pub enum Level {
    /// Level 1.0
    L1,
    /// Level 1.1
    L1_1,
    /// Level 1.2
    L1_2,
    /// Level 1.3
    L1_3,
    /// Level 2.0
    L2,
    /// Level 2.1
    L2_1,
    /// Level 2.2
    L2_2,
    /// Level 3.0
    L3,
    /// Level 3.1
    L3_1,
    /// Level 3.2
    L3_2,
    /// Level 4.0
    L4,
    /// Level 4.1
    L4_1,
    /// Level 4.2
    L4_2,
    /// Level 5.0
    L5,
    /// Level 5.1
    L5_1,
    /// Level 5.2
    L5_2,
}

/// OpenH264's `ELevelIdc` code of a level: ten times the level number.
pub open spec fn level_idc(level: Level) -> u32 {
    match level {
        Level::L1 => 10,
        Level::L1_1 => 11,
        Level::L1_2 => 12,
        Level::L1_3 => 13,
        Level::L2 => 20,
        Level::L2_1 => 21,
        Level::L2_2 => 22,
        Level::L3 => 30,
        Level::L3_1 => 31,
        Level::L3_2 => 32,
        Level::L4 => 40,
        Level::L4_1 => 41,
        Level::L4_2 => 42,
        Level::L5 => 50,
        Level::L5_1 => 51,
        Level::L5_2 => 52,
    }
}

/// Each level reaches OpenH264 as ten times its number (level 3.1 as 31), so different
/// levels as different codes, all between 10 (level 1) and 52 (level 5.2).
pub proof fn lemma_level_codes(a: Level, b: Level)
    ensures
        a != b ==> level_idc(a) != level_idc(b),
        10 <= level_idc(a) <= 52,
        a == Level::L1 ==> level_idc(a) == 10,
        a == Level::L3_1 ==> level_idc(a) == 31,
        a == Level::L5_2 ==> level_idc(a) == 52,
        1 <= level_idc(a) / 10 <= 5 && level_idc(a) % 10 <= 3,
{
}

impl Level {
    /// The `ELevelIdc` code that OpenH264 uses for this level.
    pub fn to_sys(self) -> (code: u32)
        ensures
            code == level_idc(self),
    {
        match self {
            Level::L1 => 10,
            Level::L1_1 => 11,
            Level::L1_2 => 12,
            Level::L1_3 => 13,
            Level::L2 => 20,
            Level::L2_1 => 21,
            Level::L2_2 => 22,
            Level::L3 => 30,
            Level::L3_1 => 31,
            Level::L3_2 => 32,
            Level::L4 => 40,
            Level::L4_1 => 41,
            Level::L4_2 => 42,
            Level::L5 => 50,
            Level::L5_1 => 51,
            Level::L5_2 => 52,
        }
    }
}

/// Entropy coding mode.
#[derive(Debug, Clone, Copy, PartialEq, Eq, Structural)]
pub enum EntropyCodingMode {
    /// CAVLC (Context-Adaptive Variable-Length Coding)
    Cavlc,
    /// CABAC (Context-Adaptive Binary Arithmetic Coding)
    Cabac,
}

/// Complexity mode.
#[derive(Debug, Clone, Copy, PartialEq, Eq, Structural)]
pub enum ComplexityMode {
    /// Lowest complexity (fastest).
    Low,
    /// Medium complexity.
    Medium,
    /// High complexity (best quality).
    High,
}

/// Rate control mode.
#[derive(Debug, Clone, Copy, PartialEq, Eq, Structural)]
pub enum RateControlMode {
    /// Rate control off (fastest).
    Off,
    /// Quality mode.
    Quality,
    /// Bitrate mode.
    Bitrate,
    /// Timestamp mode.
    Timestamp,
}

/// Slice mode.
#[derive(Debug, Clone, Copy, PartialEq, Eq, Structural)]
pub enum SliceMode {
    /// A single slice per picture (fastest).
    Single,
    /// A fixed number of slices.
    FixedCount(usize),
    /// Slices limited in size.
    SizeConstrained(usize),
}

/// Settings of an encoder.
///
/// The optional fields left at `None` keep the value of OpenH264's `GetDefaultParams`.
#[derive(Debug, Clone)]
pub struct EncoderConfig {
    /// Width of the pictures.
    pub width: usize,
    /// Height of the pictures.
    pub height: usize,
    /// Target bitrate (bps).
    pub target_bitrate: usize,
    /// Numerator of the frame rate.
    pub fps_numerator: usize,
    /// Denominator of the frame rate.
    pub fps_denominator: usize,
    /// H.264 level (None: chosen by OpenH264).
    pub level: Option<Level>,
    /// Entropy coding mode (None: CAVLC).
    pub entropy_coding_mode: Option<EntropyCodingMode>,
    /// Complexity mode (None: low complexity).
    pub complexity_mode: Option<ComplexityMode>,
    /// Number of reference frames (None: chosen by OpenH264).
    pub ref_frame_count: Option<NonZeroCount>,
    /// Number of threads (None: OpenH264's default).
    pub thread_count: Option<NonZeroCount>,
    /// Number of spatial layers (None: 1).
    pub spatial_layers: Option<NonZeroCount>,
    /// Number of temporal layers (None: 1).
    pub temporal_layers: Option<NonZeroCount>,
    /// Intra frame period (None: OpenH264's default).
    pub intra_period: Option<usize>,
    /// Rate control mode (None: quality mode).
    pub rate_control_mode: Option<RateControlMode>,
    /// Largest QP (None: 51).
    pub max_qp: Option<usize>,
    /// Smallest QP (None: 0).
    pub min_qp: Option<usize>,
    /// Denoising (None: off).
    pub denoise: Option<bool>,
    /// Background detection (None: on).
    pub background_detection: Option<bool>,
    /// Adaptive quantization (None: on).
    pub adaptive_quantization: Option<bool>,
    /// Scene change detection (None: on).
    pub scene_change_detection: Option<bool>,
    /// Deblocking filter (None: on).
    pub deblocking_filter: Option<bool>,
    /// Long-term reference frames (None: off).
    pub long_term_reference: Option<bool>,
    /// Slice mode (None: single slice).
    pub slice_mode: Option<SliceMode>,
}

impl EncoderConfig {
    /// A configuration with the required fields set and every optional one `None`.
    pub fn new(
        width: usize,
        height: usize,
        target_bitrate: usize,
        fps_numerator: usize,
        fps_denominator: usize,
    ) -> (c: EncoderConfig)
        ensures
            c.width == width,
            c.height == height,
            c.target_bitrate == target_bitrate,
            c.fps_numerator == fps_numerator,
            c.fps_denominator == fps_denominator,
            c.level is None,
            c.entropy_coding_mode is None,
            c.complexity_mode is None,
            c.ref_frame_count is None,
            c.thread_count is None,
            c.spatial_layers is None,
            c.temporal_layers is None,
            c.intra_period is None,
            c.rate_control_mode is None,
            c.max_qp is None,
            c.min_qp is None,
            c.denoise is None,
            c.background_detection is None,
            c.adaptive_quantization is None,
            c.scene_change_detection is None,
            c.deblocking_filter is None,
            c.long_term_reference is None,
            c.slice_mode is None,
    {
        EncoderConfig {
            width,
            height,
            target_bitrate,
            fps_numerator,
            fps_denominator,
            level: None,
            entropy_coding_mode: None,
            complexity_mode: None,
            ref_frame_count: None,
            thread_count: None,
            spatial_layers: None,
            temporal_layers: None,
            intra_period: None,
            rate_control_mode: None,
            max_qp: None,
            min_qp: None,
            denoise: None,
            background_detection: None,
            adaptive_quantization: None,
            scene_change_detection: None,
            deblocking_filter: None,
            long_term_reference: None,
            slice_mode: None,
        }
    }
}

/// The largest picture, in macroblocks, that level 5.2 allows (4096x2304).
pub const MAX_FRAME_SIZE_IN_MBS: u64 = 36864;

/// The largest quantization parameter of H.264.
pub const MAX_QP: usize = 51;

/// The number of 16x16 macroblocks that cover `n` pixels.
pub open spec fn macroblocks(n: int) -> int {
    (n + 15) / 16
}

/// A picture size that fits a C `int` in each dimension, is not empty, and is
/// no larger than level 5.2 allows.
pub open spec fn dimensions_valid(width: int, height: int) -> bool {
    &&& 0 < width <= i32::MAX
    &&& 0 < height <= i32::MAX
    &&& macroblocks(width) * macroblocks(height) <= MAX_FRAME_SIZE_IN_MBS
}

/// A frame rate whose numerator and denominator are non-zero and fit a `u32`.
pub open spec fn frame_rate_valid(numerator: int, denominator: int) -> bool {
    &&& 0 < numerator <= u32::MAX
    &&& 0 < denominator <= u32::MAX
}

/// A bitrate that can be handed to OpenH264 as a C `int`.
pub open spec fn bitrate_valid(bitrate: int) -> bool {
    bitrate <= i32::MAX
}

/// A target bitrate whose double (the largest spatial bitrate) fits a C `int`.
pub open spec fn target_bitrate_valid(bitrate: int) -> bool {
    bitrate <= i32::MAX / 2
}

/// An optional count no larger than `max`.
pub open spec fn count_within(c: Option<NonZeroCount>, max: int) -> bool {
    match c {
        Some(c) => c@ <= max,
        None => true,
    }
}

/// An optional value no larger than `max`.
pub open spec fn value_within(v: Option<usize>, max: int) -> bool {
    match v {
        Some(v) => v <= max,
        None => true,
    }
}

/// QP bounds within 0..=51, the smallest no larger than the largest.
pub open spec fn qp_valid(min_qp: Option<usize>, max_qp: Option<usize>) -> bool {
    &&& value_within(max_qp, MAX_QP as int)
    &&& value_within(min_qp, MAX_QP as int)
    &&& match (min_qp, max_qp) {
        (Some(lo), Some(hi)) => lo <= hi,
        _ => true,
    }
}

/// A slice mode whose count or size is non-zero and fits a `u32`.
pub open spec fn slice_mode_valid(mode: Option<SliceMode>) -> bool {
    match mode {
        Some(SliceMode::FixedCount(n)) => 0 < n <= u32::MAX,
        Some(SliceMode::SizeConstrained(n)) => 0 < n <= u32::MAX,
        _ => true,
    }
}

/// The configurations that an encoder accepts.
pub open spec fn config_valid(c: EncoderConfig) -> bool {
    &&& frame_rate_valid(c.fps_numerator as int, c.fps_denominator as int)
    &&& dimensions_valid(c.width as int, c.height as int)
    &&& target_bitrate_valid(c.target_bitrate as int)
    &&& count_within(c.ref_frame_count, i32::MAX as int)
    &&& count_within(c.thread_count, u16::MAX as int)
    &&& count_within(c.spatial_layers, i32::MAX as int)
    &&& count_within(c.temporal_layers, i32::MAX as int)
    &&& value_within(c.intra_period, u32::MAX as int)
    &&& qp_valid(c.min_qp, c.max_qp)
    &&& slice_mode_valid(c.slice_mode)
}

/// A product of two numbers in `0..=bound` is at most `bound * bound`.
proof fn lemma_mul_bounded(a: int, b: int, bound: int)
    by (nonlinear_arith)
    requires
        0 <= a <= bound,
        0 <= b <= bound,
    ensures
        a * b <= bound * bound,
{
}

/// The message of the error `validate_dimensions` returns for a size it refuses.
pub open spec fn dimensions_error(width: int, height: int) -> Seq<char> {
    if width == 0 || height == 0 {
        "width and height must be non-zero"@
    } else if width > i32::MAX || height > i32::MAX {
        "width and height must fit in c_int"@
    } else {
        "frame size exceeds the level 5.2 limit of 36864 macroblocks"@
    }
}

/// The message of the error `validate_frame_rate` returns for a frame rate it refuses.
pub open spec fn frame_rate_error(numerator: int, denominator: int) -> Seq<char> {
    if numerator == 0 || denominator == 0 {
        "fps_numerator and fps_denominator must be non-zero"@
    } else {
        "fps_numerator and fps_denominator must fit in u32"@
    }
}

/// The message of the error `validate_config` returns for a configuration it refuses:
/// that of the first check that fails, in the order frame rate, size, target bitrate,
/// reference frames, threads, spatial layers, temporal layers, intra period, largest QP,
/// smallest QP, QP order, slice mode.
pub open spec fn config_error(c: EncoderConfig) -> Seq<char> {
    if !frame_rate_valid(c.fps_numerator as int, c.fps_denominator as int) {
        frame_rate_error(c.fps_numerator as int, c.fps_denominator as int)
    } else if !dimensions_valid(c.width as int, c.height as int) {
        dimensions_error(c.width as int, c.height as int)
    } else if !target_bitrate_valid(c.target_bitrate as int) {
        "target_bitrate must not exceed c_int::MAX / 2 (iMaxSpatialBitrate = target_bitrate * 2 must fit in c_int)"@
    } else if !count_within(c.ref_frame_count, i32::MAX as int) {
        "ref_frame_count must fit in c_int"@
    } else if !count_within(c.thread_count, u16::MAX as int) {
        "thread_count must fit in c_ushort"@
    } else if !count_within(c.spatial_layers, i32::MAX as int) {
        "spatial_layers must fit in c_int"@
    } else if !count_within(c.temporal_layers, i32::MAX as int) {
        "temporal_layers must fit in c_int"@
    } else if !value_within(c.intra_period, u32::MAX as int) {
        "intra_period must fit in c_uint"@
    } else if !value_within(c.max_qp, MAX_QP as int) {
        "max_qp must not exceed 51"@
    } else if !value_within(c.min_qp, MAX_QP as int) {
        "min_qp must not exceed 51"@
    } else if !qp_valid(c.min_qp, c.max_qp) {
        "min_qp must not exceed max_qp"@
    } else {
        match c.slice_mode {
            Some(SliceMode::FixedCount(_)) => "SliceMode::FixedCount must be in 1..=u32::MAX"@,
            _ => "SliceMode::SizeConstrained must be in 1..=u32::MAX"@,
        }
    }
}

/// Checks a picture size: `Ok` exactly when `dimensions_valid` holds.
pub fn validate_dimensions(width: usize, height: usize) -> (r: Result<(), Error>)
    ensures
        r is Ok <==> dimensions_valid(width as int, height as int),
        r matches Err(e) ==> invalid_with(e, dimensions_error(width as int, height as int)),
{
    if width == 0 || height == 0 {
        return Err(Error::invalid_parameter("width and height must be non-zero"));
    }
    if width > 2147483647 || height > 2147483647 {
        return Err(Error::invalid_parameter("width and height must fit in c_int"));
    }
    let w: u64 = width as u64;
    let h: u64 = height as u64;
    let mb_w: u64 = (w + 15) / 16;
    let mb_h: u64 = (h + 15) / 16;
    proof {
        lemma_mul_bounded(mb_w as int, mb_h as int, 134217728);
    }
    if mb_w * mb_h > MAX_FRAME_SIZE_IN_MBS {
        return Err(Error::invalid_parameter("frame size exceeds the level 5.2 limit of 36864 macroblocks"));
    }
    Ok(())
}

/// Checks a frame rate: `Ok` exactly when `frame_rate_valid` holds.
pub fn validate_frame_rate(fps_numerator: usize, fps_denominator: usize) -> (r: Result<(), Error>)
    ensures
        r is Ok <==> frame_rate_valid(fps_numerator as int, fps_denominator as int),
        r matches Err(e) ==> invalid_with(e, frame_rate_error(fps_numerator as int, fps_denominator as int)),
{
    if fps_numerator == 0 || fps_denominator == 0 {
        return Err(Error::invalid_parameter("fps_numerator and fps_denominator must be non-zero"));
    }
    if fps_numerator as u64 > 4294967295u64 || fps_denominator as u64 > 4294967295u64 {
        return Err(Error::invalid_parameter("fps_numerator and fps_denominator must fit in u32"));
    }
    Ok(())
}

/// Checks a bitrate handed to a running encoder: `Ok` exactly when `bitrate_valid` holds.
pub fn validate_bitrate(bitrate: usize) -> (r: Result<(), Error>)
    ensures
        r is Ok <==> bitrate_valid(bitrate as int),
        r matches Err(e) ==> invalid_with(e, "bitrate must fit in c_int"@),
{
    if bitrate as u64 > 2147483647u64 {
        return Err(Error::invalid_parameter("bitrate must fit in c_int"));
    }
    Ok(())
}

/// Checks that an optional count is at most `max`.
fn validate_count(c: Option<NonZeroCount>, max: u64, msg: &str) -> (r: Result<(), Error>)
    ensures
        r is Ok <==> count_within(c, max as int),
        r matches Err(e) ==> invalid_with(e, msg@),
{
    match c {
        Some(n) => {
            if n.get() as u64 > max {
                Err(Error::invalid_parameter(msg))
            } else {
                Ok(())
            }
        },
        None => Ok(()),
    }
}

/// Checks that an optional value is at most `max`.
fn validate_value(v: Option<usize>, max: u64, msg: &str) -> (r: Result<(), Error>)
    ensures
        r is Ok <==> value_within(v, max as int),
        r matches Err(e) ==> invalid_with(e, msg@),
{
    match v {
        Some(n) => {
            if n as u64 > max {
                Err(Error::invalid_parameter(msg))
            } else {
                Ok(())
            }
        },
        None => Ok(()),
    }
}

/// Checks every field of a configuration before it reaches OpenH264:
/// `Ok` exactly when `config_valid` holds, `InvalidParameter` otherwise.
pub fn validate_config(config: &EncoderConfig) -> (r: Result<(), Error>)
    ensures
        r is Ok <==> config_valid(*config),
        r matches Err(e) ==> invalid_with(e, config_error(*config)),
{
    if let Err(e) = validate_frame_rate(config.fps_numerator, config.fps_denominator) {
        return Err(e);
    }
    if let Err(e) = validate_dimensions(config.width, config.height) {
        return Err(e);
    }
    if config.target_bitrate as u64 > 1073741823u64 {
        return Err(Error::invalid_parameter("target_bitrate must not exceed c_int::MAX / 2 (iMaxSpatialBitrate = target_bitrate * 2 must fit in c_int)"));
    }
    if let Err(e) = validate_count(config.ref_frame_count, 2147483647, "ref_frame_count must fit in c_int") {
        return Err(e);
    }
    if let Err(e) = validate_count(config.thread_count, 65535, "thread_count must fit in c_ushort") {
        return Err(e);
    }
    if let Err(e) = validate_count(config.spatial_layers, 2147483647, "spatial_layers must fit in c_int") {
        return Err(e);
    }
    if let Err(e) = validate_count(config.temporal_layers, 2147483647, "temporal_layers must fit in c_int") {
        return Err(e);
    }
    if let Err(e) = validate_value(config.intra_period, 4294967295, "intra_period must fit in c_uint") {
        return Err(e);
    }
    if let Err(e) = validate_value(config.max_qp, 51, "max_qp must not exceed 51") {
        return Err(e);
    }
    if let Err(e) = validate_value(config.min_qp, 51, "min_qp must not exceed 51") {
        return Err(e);
    }
    if let (Some(lo), Some(hi)) = (config.min_qp, config.max_qp) {
        if lo > hi {
            return Err(Error::invalid_parameter("min_qp must not exceed max_qp"));
        }
    }
    match config.slice_mode {
        Some(SliceMode::FixedCount(n)) => {
            if n == 0 || n as u64 > 4294967295u64 {
                return Err(Error::invalid_parameter("SliceMode::FixedCount must be in 1..=u32::MAX"));
            }
        },
        Some(SliceMode::SizeConstrained(n)) => {
            if n == 0 || n as u64 > 4294967295u64 {
                return Err(Error::invalid_parameter("SliceMode::SizeConstrained must be in 1..=u32::MAX"));
            }
        },
        _ => {},
    }
    Ok(())
}

/// Every configuration the encoder accepts has a non-empty picture and a non-zero frame
/// rate numerator and denominator.
pub proof fn lemma_accepted_config_is_nonzero(c: EncoderConfig)
    requires
        config_valid(c),
    ensures
        c.width > 0,
        c.height > 0,
        c.fps_numerator > 0,
        c.fps_denominator > 0,
{
}

/// QP bounds in 0..=51 are accepted whenever the smallest does not exceed the largest, equal
/// bounds (a fixed QP) included; a configuration otherwise valid is then valid.
pub proof fn lemma_ordered_qp_bounds_accepted(c: EncoderConfig)
    requires
        frame_rate_valid(c.fps_numerator as int, c.fps_denominator as int),
        dimensions_valid(c.width as int, c.height as int),
        target_bitrate_valid(c.target_bitrate as int),
        count_within(c.ref_frame_count, i32::MAX as int),
        count_within(c.thread_count, u16::MAX as int),
        count_within(c.spatial_layers, i32::MAX as int),
        count_within(c.temporal_layers, i32::MAX as int),
        value_within(c.intra_period, u32::MAX as int),
        slice_mode_valid(c.slice_mode),
        c.min_qp matches Some(lo) ==> lo <= 51,
        c.max_qp matches Some(hi) ==> hi <= 51,
        c.min_qp matches Some(lo) ==> (c.max_qp matches Some(hi) ==> lo <= hi),
    ensures
        config_valid(c),
{
}

/// A QP bound above 51, or a smallest bound above the largest, is refused.
pub proof fn lemma_disordered_qp_bounds_refused(c: EncoderConfig)
    requires
        (c.min_qp matches Some(lo) && lo > 51) || (c.max_qp matches Some(hi) && hi > 51)
            || (c.min_qp matches Some(lo) && (c.max_qp matches Some(hi) && lo > hi)),
    ensures
        !config_valid(c),
{
}

/// An accepted picture size covers at most 36864 * 256 pixels (4096 x 2304 is the largest
/// 16:9 size).
pub proof fn lemma_accepted_size_bounds_pixels(width: int, height: int)
    requires
        dimensions_valid(width, height),
    ensures
        width * height <= MAX_FRAME_SIZE_IN_MBS * 256,
{
    let mw = macroblocks(width);
    let mh = macroblocks(height);
    lemma_mul_le_pair(width, height, 16 * mw, 16 * mh);
    assert((16 * mw) * (16 * mh) == 256 * (mw * mh)) by (nonlinear_arith);
}

/// Products are monotone in both non-negative factors.
proof fn lemma_mul_le_pair(a: int, b: int, c: int, d: int)
    by (nonlinear_arith)
    requires
        0 <= a <= c,
        0 <= b <= d,
    ensures
        a * b <= c * d,
{
}

/// The number that the two bytes `lo`, `hi` encode in little-endian order.
pub open spec fn le_u16(lo: u8, hi: u8) -> int {
    lo + 256 * hi
}

/// The number that four bytes encode in little-endian order.
pub open spec fn le_u32(b0: u8, b1: u8, b2: u8, b3: u8) -> int {
    b0 + 256 * b1 + 65536 * b2 + 16777216 * b3
}

/// A configuration read from a byte string: `None` for fewer than
/// 12 bytes; otherwise the width, height, target bitrate, frame rate numerator and
/// denominator from bytes 0-1, 2-3, 4-7, 8-9 and 10-11 in little-endian order, every
/// optional field unset.
pub fn build_config(data: &[u8]) -> (r: Option<EncoderConfig>)
    ensures
        r is None <==> data@.len() < 12,
        r matches Some(c) ==> {
            &&& c.width == le_u16(data@[0], data@[1])
            &&& c.height == le_u16(data@[2], data@[3])
            &&& c.target_bitrate == le_u32(data@[4], data@[5], data@[6], data@[7])
            &&& c.fps_numerator == le_u16(data@[8], data@[9])
            &&& c.fps_denominator == le_u16(data@[10], data@[11])
            &&& c.level is None && c.entropy_coding_mode is None && c.complexity_mode is None
            &&& c.ref_frame_count is None && c.thread_count is None
            &&& c.spatial_layers is None && c.temporal_layers is None
            &&& c.intra_period is None && c.rate_control_mode is None
            &&& c.max_qp is None && c.min_qp is None
            &&& c.denoise is None && c.background_detection is None
            &&& c.adaptive_quantization is None && c.scene_change_detection is None
            &&& c.deblocking_filter is None && c.long_term_reference is None
            &&& c.slice_mode is None
        },
{
    if data.len() < 12 {
        return None;
    }
    let width = data[0] as usize + 256 * (data[1] as usize);
    let height = data[2] as usize + 256 * (data[3] as usize);
    let target_bitrate = (data[4] as u64 + 256 * (data[5] as u64) + 65536 * (data[6] as u64)
        + 16777216 * (data[7] as u64)) as usize;
    let fps_numerator = data[8] as usize + 256 * (data[9] as usize);
    let fps_denominator = data[10] as usize + 256 * (data[11] as usize);
    Some(EncoderConfig::new(width, height, target_bitrate, fps_numerator, fps_denominator))
}

} // verus!
