//! The encoder's own state: picture size, frame rate and frame counter, and the
//! decisions each encoder operation makes on them.
use vstd::prelude::*;
use crate::error::{Error, invalid_with};
use crate::config::{
    EncoderConfig, config_valid, dimensions_valid, frame_rate_valid, bitrate_valid,
    validate_config, validate_dimensions, validate_frame_rate, validate_bitrate,
    config_error, dimensions_error, frame_rate_error,
};

verus! {

/// `EVideoFrameType::videoFrameTypeIDR`.
pub const FRAME_TYPE_IDR: u32 = 1;
/// `EVideoFrameType::videoFrameTypeI`.
pub const FRAME_TYPE_I: u32 = 2;
/// `EVideoFrameType::videoFrameTypeSkip`.
pub const FRAME_TYPE_SKIP: u32 = 4;

/// The type of an encoded frame (OpenH264's `EVideoFrameType`; a skipped frame yields no
/// `EncodedFrame` and has no variant).
#[derive(Debug, Clone, Copy, PartialEq, Eq, Structural)]
pub enum FrameType {
    /// IDR frame (NAL unit type 5): decoding can start here; SPS and PPS come with it.
    Idr,
    /// I frame (NAL unit type 1, intra slices).
    I,
    /// P frame (NAL unit type 1, inter slices).
    P,
}

/// The frame type of an `EVideoFrameType` code: `None` for a skipped frame, P for any code
/// other than IDR, I and skip.
pub open spec fn frame_type_of(code: u32) -> Option<FrameType> {
    if code == FRAME_TYPE_SKIP {
        None
    } else if code == FRAME_TYPE_IDR {
        Some(FrameType::Idr)
    } else if code == FRAME_TYPE_I {
        Some(FrameType::I)
    } else {
        Some(FrameType::P)
    }
}

/// The frame type that OpenH264 reports with `code` (`None` for a skipped frame).
pub fn frame_type_from_code(code: u32) -> (t: Option<FrameType>)
    ensures
        t == frame_type_of(code),
{
    if code == FRAME_TYPE_SKIP {
        None
    } else if code == FRAME_TYPE_IDR {
        Some(FrameType::Idr)
    } else if code == FRAME_TYPE_I {
        Some(FrameType::I)
    } else {
        Some(FrameType::P)
    }
}

/// Options of one `encode` call.
#[derive(Debug, Clone)]
pub struct EncodeOptions {
    /// Encode the next frame as an IDR frame (OpenH264's `ForceIntraFrame(true)`).
    pub force_idr: bool,
}

impl Default for EncodeOptions {
    fn default() -> (o: EncodeOptions)
        ensures
            !o.force_idr,
    {
        EncodeOptions { force_idr: false }
    }
}

/// The state of an encoder as plain numbers.
pub struct EncoderModel {
    /// Picture width.
    pub width: int,
    /// Picture height.
    pub height: int,
    /// Frames encoded so far.
    pub frames: int,
    /// Frame rate numerator.
    pub fps_numerator: int,
    /// Frame rate denominator.
    pub fps_denominator: int,
}

/// The state an encoder has under `config` once it has encoded `frames` frames.
pub open spec fn configured_model(config: EncoderConfig, frames: int) -> EncoderModel {
    EncoderModel {
        width: config.width as int,
        height: config.height as int,
        frames,
        fps_numerator: config.fps_numerator as int,
        fps_denominator: config.fps_denominator as int,
    }
}

/// Reconfiguring an encoder with `set_config` leaves it in the state of a new encoder for
/// the same configuration, except that the frame counter (and so the timestamps) goes on.
pub proof fn lemma_reconfigured_is_new_but_counter(config: EncoderConfig, frames: int)
    ensures
        configured_model(config, frames) == (EncoderModel { frames, ..configured_model(config, 0) }),
{
}

/// The presentation time, in milliseconds, of frame number `frames` at
/// `fps_numerator / fps_denominator` frames per second.
pub open spec fn timestamp_ms(frames: int, fps_numerator: int, fps_denominator: int) -> int {
    frames * fps_denominator * 1000 / fps_numerator
}

/// The width of the chroma planes of an I420 picture `n` pixels wide (and their height for
/// `n` pixels high).
pub open spec fn half_up(n: int) -> int {
    (n + 1) / 2
}

/// Timestamps never go back: a later frame has a timestamp no smaller than an earlier one.
pub proof fn lemma_timestamps_nondecreasing(f1: int, f2: int, fps_numerator: int, fps_denominator: int)
    requires
        0 <= f1 <= f2,
        fps_numerator > 0,
        fps_denominator > 0,
    ensures
        0 <= timestamp_ms(f1, fps_numerator, fps_denominator) <= timestamp_ms(f2, fps_numerator, fps_denominator),
{
    lemma_mul_le(f1, fps_denominator, f2, fps_denominator);
    assert(f1 * fps_denominator * 1000 <= f2 * fps_denominator * 1000);
    lemma_div_monotone(f1 * fps_denominator * 1000, f2 * fps_denominator * 1000, fps_numerator);
}

/// The first frame has timestamp 0, and every `fps_numerator` frames the timestamp moves
/// on by exactly `fps_denominator` seconds (1000 milliseconds each).
pub proof fn lemma_timestamps_follow_frame_rate(frames: int, fps_numerator: int, fps_denominator: int)
    requires
        frames >= 0,
        fps_numerator > 0,
        fps_denominator > 0,
    ensures
        timestamp_ms(0, fps_numerator, fps_denominator) == 0,
        timestamp_ms(frames + fps_numerator, fps_numerator, fps_denominator)
            == timestamp_ms(frames, fps_numerator, fps_denominator) + 1000 * fps_denominator,
{
    assert((frames + fps_numerator) * fps_denominator * 1000
        == frames * fps_denominator * 1000 + fps_numerator * (1000 * fps_denominator))
        by (nonlinear_arith);
    lemma_div_add_multiple(frames * fps_denominator * 1000, 1000 * fps_denominator, fps_numerator);
}

/// Adding a multiple of the divisor adds that many to the quotient.
proof fn lemma_div_add_multiple(a: int, k: int, d: int)
    by (nonlinear_arith)
    requires
        d > 0,
    ensures
        (a + d * k) / d == a / d + k,
{
}

/// A chroma plane covers the luma plane at half resolution: half a dimension rounded up is
/// the dimension halved exactly when it is even and one more otherwise, so for an even
/// picture four chroma samples stand for each luma one.
pub proof fn lemma_chroma_covers_luma(width: int, height: int)
    requires
        width > 0,
        height > 0,
    ensures
        2 * half_up(width) == width || 2 * half_up(width) == width + 1,
        2 * half_up(height) == height || 2 * half_up(height) == height + 1,
        width % 2 == 0 && height % 2 == 0 ==> 4 * (half_up(width) * half_up(height)) == width * height,
{
    if width % 2 == 0 && height % 2 == 0 {
        let hw = half_up(width);
        let hh = half_up(height);
        assert(width == 2 * hw && height == 2 * hh);
        assert(4 * (hw * hh) == (2 * hw) * (2 * hh)) by (nonlinear_arith);
    }
}

/// The frame type codes OpenH264 reports map to the types named after them: 1 (IDR) to
/// `Idr`, 2 (I) to `I`, 3 (P) to `P`, and 4 (skip) to no frame.
pub proof fn lemma_frame_type_codes()
    ensures
        frame_type_of(1) == Some(FrameType::Idr),
        frame_type_of(2) == Some(FrameType::I),
        frame_type_of(3) == Some(FrameType::P),
        frame_type_of(4) is None,
        forall|code: u32| code != 4 ==> (#[trigger] frame_type_of(code)) is Some,
{
}

/// Division by a positive number is monotone on non-negative numbers.
proof fn lemma_div_monotone(a: int, b: int, d: int)
    by (nonlinear_arith)
    requires
        0 <= a <= b,
        d > 0,
    ensures
        0 <= a / d <= b / d,
{
}

/// The encoder's state: the size of the pictures it takes, its frame rate and the number of
/// frames it has encoded.
#[derive(Debug, Clone, Copy)]
pub struct Encoder {
    width: usize,
    height: usize,
    frames: usize,
    fps_numerator: usize,
    fps_denominator: usize,
}

impl View for Encoder {
    type V = EncoderModel;

    closed spec fn view(&self) -> EncoderModel {
        EncoderModel {
            width: self.width as int,
            height: self.height as int,
            frames: self.frames as int,
            fps_numerator: self.fps_numerator as int,
            fps_denominator: self.fps_denominator as int,
        }
    }
}

/// A product of two numbers in `0..=bound_a` and `0..=bound_b` is at most `bound_a * bound_b`.
proof fn lemma_mul_le(a: int, b: int, bound_a: int, bound_b: int)
    by (nonlinear_arith)
    requires
        0 <= a <= bound_a,
        0 <= b <= bound_b,
    ensures
        0 <= a * b <= bound_a * bound_b,
{
}

impl Encoder {
    /// The state is consistent: a valid picture size and frame rate, a frame counter that
    /// fits a `usize`.
    pub open spec fn wf(&self) -> bool {
        &&& dimensions_valid(self@.width, self@.height)
        &&& frame_rate_valid(self@.fps_numerator, self@.fps_denominator)
        &&& 0 <= self@.frames <= usize::MAX
    }

    /// The state of a new encoder for `config`, when `validate_config` accepts it
    /// (its error otherwise): the configured size and frame rate, no frame encoded yet.
    pub fn new(config: &EncoderConfig) -> (r: Result<Encoder, Error>)
        ensures
            r is Ok <==> config_valid(*config),
            r matches Err(e) ==> invalid_with(e, config_error(*config)),
            r matches Ok(enc) ==> enc.wf() && enc@ == configured_model(*config, 0),
    {
        if let Err(e) = validate_config(config) {
            return Err(e);
        }
        Ok(Encoder {
            width: config.width,
            height: config.height,
            frames: 0,
            fps_numerator: config.fps_numerator,
            fps_denominator: config.fps_denominator,
        })
    }

    /// The picture width.
    pub fn width(&self) -> (w: usize)
        ensures
            w == self@.width,
    {
        self.width
    }

    /// The picture height.
    pub fn height(&self) -> (h: usize)
        ensures
            h == self@.height,
    {
        self.height
    }

    /// The number of frames encoded so far.
    pub fn frames(&self) -> (n: usize)
        ensures
            n == self@.frames,
    {
        self.frames
    }

    /// The frame rate numerator.
    pub fn fps_numerator(&self) -> (n: usize)
        ensures
            n == self@.fps_numerator,
    {
        self.fps_numerator
    }

    /// The frame rate denominator.
    pub fn fps_denominator(&self) -> (d: usize)
        ensures
            d == self@.fps_denominator,
    {
        self.fps_denominator
    }

    /// The source picture geometry handed to OpenH264 (`SSourcePicture`): width, height and
    /// the strides of the Y, U and V planes (the width, and half the width rounded up twice).
    pub fn picture(&self) -> (p: (i32, i32, i32, i32, i32))
        requires
            self.wf(),
        ensures
            p.0 == self@.width,
            p.1 == self@.height,
            p.2 == self@.width,
            p.3 == half_up(self@.width),
            p.4 == half_up(self@.width),
    {
        let w = self.width as i32;
        let h = self.height as i32;
        let half = ((self.width + 1) / 2) as i32;
        (w, h, w, half, half)
    }

    /// Changes the frame rate, when `validate_frame_rate` accepts it (its error otherwise,
    /// with the state unchanged).
    pub fn set_frame_rate(&mut self, fps_numerator: usize, fps_denominator: usize) -> (r: Result<(), Error>)
        requires
            old(self).wf(),
        ensures
            final(self).wf(),
            r is Ok <==> frame_rate_valid(fps_numerator as int, fps_denominator as int),
            r matches Err(e) ==> invalid_with(e, frame_rate_error(fps_numerator as int, fps_denominator as int)),
            r is Ok ==> final(self)@ == (EncoderModel {
                fps_numerator: fps_numerator as int,
                fps_denominator: fps_denominator as int,
                ..old(self)@
            }),
            r is Err ==> final(self)@ == old(self)@,
    {
        if let Err(e) = validate_frame_rate(fps_numerator, fps_denominator) {
            return Err(e);
        }
        self.fps_numerator = fps_numerator;
        self.fps_denominator = fps_denominator;
        Ok(())
    }

    /// Changes the picture size, when `validate_dimensions` accepts it (its error otherwise,
    /// with the state unchanged).
    pub fn set_resolution(&mut self, width: usize, height: usize) -> (r: Result<(), Error>)
        requires
            old(self).wf(),
        ensures
            final(self).wf(),
            r is Ok <==> dimensions_valid(width as int, height as int),
            r matches Err(e) ==> invalid_with(e, dimensions_error(width as int, height as int)),
            r is Ok ==> final(self)@ == (EncoderModel {
                width: width as int,
                height: height as int,
                ..old(self)@
            }),
            r is Err ==> final(self)@ == old(self)@,
    {
        if let Err(e) = validate_dimensions(width, height) {
            return Err(e);
        }
        self.width = width;
        self.height = height;
        Ok(())
    }

    /// Takes over the picture size and frame rate of a new configuration, when
    /// `validate_config` accepts it (its error otherwise, with the state unchanged);
    /// the frame counter goes on.
    pub fn set_config(&mut self, config: &EncoderConfig) -> (r: Result<(), Error>)
        requires
            old(self).wf(),
        ensures
            final(self).wf(),
            r is Ok <==> config_valid(*config),
            r matches Err(e) ==> invalid_with(e, config_error(*config)),
            r is Ok ==> final(self)@ == configured_model(*config, old(self)@.frames),
            r is Err ==> final(self)@ == old(self)@,
    {
        if let Err(e) = validate_config(config) {
            return Err(e);
        }
        self.width = config.width;
        self.height = config.height;
        self.fps_numerator = config.fps_numerator;
        self.fps_denominator = config.fps_denominator;
        Ok(())
    }

    /// The bitrate to hand to `SetOption(ENCODER_OPTION_BITRATE)`, when
    /// `validate_bitrate` accepts it (its error otherwise).
    pub fn bitrate_option(bitrate: usize) -> (r: Result<i32, Error>)
        ensures
            r is Ok <==> bitrate_valid(bitrate as int),
            r matches Ok(b) ==> b == bitrate,
            r matches Err(e) ==> invalid_with(e, "bitrate must fit in c_int"@),
    {
        if let Err(e) = validate_bitrate(bitrate) {
            return Err(e);
        }
        Ok(bitrate as i32)
    }

    /// The sizes the Y plane and each chroma plane of an input picture must have:
    /// `height * width` and `half_up(height) * half_up(width)`, or `None` where they do not
    /// fit a `usize`.
    pub fn plane_sizes(&self) -> (r: Option<(usize, usize)>)
        requires
            self.wf(),
        ensures
            r matches Some(s) ==> s.0 == self@.height * self@.width
                && s.1 == half_up(self@.height) * half_up(self@.width),
            r is None ==> self@.height * self@.width > usize::MAX
                || half_up(self@.height) * half_up(self@.width) > usize::MAX,
    {
        let y_stride = self.width;
        let uv_stride = (self.width + 1) / 2;
        let uv_height = (self.height + 1) / 2;
        let y_size = match self.height.checked_mul(y_stride) {
            Some(s) => s,
            None => return None,
        };
        let uv_size = match uv_height.checked_mul(uv_stride) {
            Some(s) => s,
            None => return None,
        };
        Some((y_size, uv_size))
    }

    /// Starts encoding a picture whose planes have the lengths `y_len`, `u_len`, `v_len`:
    /// `InvalidYuvSize` (state unchanged) unless they are the sizes of `plane_sizes`;
    /// otherwise the frame is counted and its timestamp, in milliseconds, returned.
    pub fn start_frame(&mut self, y_len: usize, u_len: usize, v_len: usize) -> (r: Result<i64, Error>)
        requires
            old(self).wf(),
            old(self)@.frames < usize::MAX,
        ensures
            final(self).wf(),
            r is Ok <==> (y_len == old(self)@.height * old(self)@.width
                && u_len == half_up(old(self)@.height) * half_up(old(self)@.width)
                && v_len == u_len),
            r matches Err(e) ==> e is InvalidYuvSize,
            r is Err ==> final(self)@ == old(self)@,
            r matches Ok(ts) ==> ts == timestamp_ms(
                old(self)@.frames,
                old(self)@.fps_numerator,
                old(self)@.fps_denominator,
            ) as i64,
            r is Ok ==> final(self)@ == (EncoderModel { frames: old(self)@.frames + 1, ..old(self)@ }),
    {
        let sizes = self.plane_sizes();
        let (y_size, uv_size) = match sizes {
            Some(s) => s,
            None => return Err(Error::InvalidYuvSize),
        };
        if y_len != y_size || u_len != uv_size || v_len != uv_size {
            return Err(Error::InvalidYuvSize);
        }
        let ts = frame_timestamp(self.frames, self.fps_numerator, self.fps_denominator);
        self.frames = self.frames + 1;
        Ok(ts)
    }
}

/// The timestamp, in milliseconds, of frame number `frames` at
/// `fps_numerator / fps_denominator` frames per second (computed without overflow, then
/// narrowed to the 64 bits OpenH264 takes).
pub fn frame_timestamp(frames: usize, fps_numerator: usize, fps_denominator: usize) -> (ts: i64)
    requires
        frame_rate_valid(fps_numerator as int, fps_denominator as int),
    ensures
        ts == timestamp_ms(frames as int, fps_numerator as int, fps_denominator as int) as i64,
{
    let f: u128 = frames as u128;
    let d: u128 = fps_denominator as u128;
    let n: u128 = fps_numerator as u128;
    proof {
        lemma_mul_le(f as int, d as int, 0xffff_ffff_ffff_ffff, 0xffff_ffff);
        lemma_mul_le((f * d) as int, 1000, 0xffff_ffff_ffff_ffffint * 0xffff_ffffint, 1000);
    }
    let product: u128 = f * d * 1000;
    let ms: u128 = product / n;
    ms as i64
}

} // verus!
