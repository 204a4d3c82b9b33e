//! The decisions of the decoder: which input it passes on, which output it takes, and the
//! decoded picture it builds from OpenH264's planes.
use vstd::prelude::*;
use crate::error::{Error, invalid_with};
use crate::encoder::half_up;

verus! {

/// `EVideoFormatType::videoFormatI420`.
pub const VIDEO_FORMAT_I420: u32 = 23;

/// The length of a bitstream chunk as the C `int` that `DecodeFrameNoDelay` takes:
/// `InvalidParameter` when it does not fit.
pub fn decode_input_len(len: usize) -> (r: Result<i32, Error>)
    ensures
        r is Ok <==> len <= i32::MAX,
        r matches Ok(n) ==> n == len,
        r matches Err(e) ==> invalid_with(e, "decode input data exceeds c_int::MAX"@),
{
    if len as u64 > 2147483647u64 {
        return Err(Error::invalid_parameter("decode input data exceeds c_int::MAX"));
    }
    Ok(len as i32)
}

/// What a decoding call (`DecodeFrameNoDelay` or `FlushFrame`) produced, from the
/// buffer status and picture format it reported: no picture unless the status is 1;
/// `UnsupportedFormat` for a picture that is not I420; a picture otherwise.
pub fn decoded_picture_ready(buffer_status: i32, format: u32) -> (r: Result<bool, Error>)
    ensures
        r == (if buffer_status != 1 {
            Ok(false)
        } else if format != VIDEO_FORMAT_I420 {
            Err(Error::UnsupportedFormat { format })
        } else {
            Ok(true)
        }),
{
    if buffer_status != 1 {
        return Ok(false);
    }
    if format != VIDEO_FORMAT_I420 {
        return Err(Error::UnsupportedFormat { format });
    }
    Ok(true)
}

/// The geometry of a decoded I420 picture and the byte counts of its planes.
#[derive(Debug, Clone, Copy, PartialEq, Eq, Structural)]
pub struct PlaneLayout {
    /// Picture width.
    pub width: usize,
    /// Picture height.
    pub height: usize,
    /// Stride of the Y plane.
    pub y_stride: usize,
    /// Stride of the U plane.
    pub u_stride: usize,
    /// Stride of the V plane (that of the U plane).
    pub v_stride: usize,
    /// Bytes of the Y plane: `height * y_stride`.
    pub y_size: usize,
    /// Bytes of the U plane: `half_up(height) * u_stride`.
    pub u_size: usize,
    /// Bytes of the V plane: `half_up(height) * v_stride`.
    pub v_size: usize,
}

/// A layout whose sizes and strides are positive and whose plane byte counts are what the
/// height and strides give.
pub open spec fn layout_consistent(l: PlaneLayout) -> bool {
    &&& l.width > 0 && l.height > 0 && l.y_stride > 0 && l.u_stride > 0
    &&& l.v_stride == l.u_stride
    &&& l.y_size == l.height * l.y_stride
    &&& l.u_size == half_up(l.height as int) * l.u_stride
    &&& l.v_size == l.u_size
}

/// The message of the error `plane_layout` returns for what it refuses: a missing plane,
/// then a size or stride that is not positive, then a Y plane, then a U plane whose byte
/// count does not fit a `usize`.
pub open spec fn plane_layout_error(
    planes_present: bool,
    width: i32,
    height: i32,
    y_stride: i32,
    u_stride: i32,
) -> Seq<char> {
    if !planes_present {
        "decoded frame plane pointer is null"@
    } else if width <= 0 || height <= 0 || y_stride <= 0 || u_stride <= 0 {
        "decoded frame has non-positive dimensions or strides"@
    } else if height * y_stride > usize::MAX {
        "decoded Y plane size overflows"@
    } else {
        "decoded U plane size overflows"@
    }
}

/// The layout of a decoded picture, from what OpenH264 reports: the width, height and the
/// strides of the Y and U planes (`iWidth`, `iHeight`, `iStride`), and whether the three
/// plane pointers (`pDst`) are set. `InvalidParameter` for a missing plane, a size or
/// stride that is not positive, or a plane whose byte count does not fit a `usize`.
pub fn plane_layout(
    planes_present: bool,
    width: i32,
    height: i32,
    y_stride: i32,
    u_stride: i32,
) -> (r: Result<PlaneLayout, Error>)
    ensures
        r is Ok <==> {
            &&& planes_present
            &&& width > 0 && height > 0 && y_stride > 0 && u_stride > 0
            &&& height * y_stride <= usize::MAX
            &&& half_up(height as int) * u_stride <= usize::MAX
        },
        r matches Ok(l) ==> {
            &&& layout_consistent(l)
            &&& l.width == width && l.height == height
            &&& l.y_stride == y_stride && l.u_stride == u_stride && l.v_stride == u_stride
            &&& l.y_size == height * y_stride
            &&& l.u_size == half_up(height as int) * u_stride
            &&& l.v_size == l.u_size
        },
        r matches Err(e) ==> invalid_with(e, plane_layout_error(planes_present, width, height, y_stride, u_stride)),
{
    if !planes_present {
        return Err(Error::invalid_parameter("decoded frame plane pointer is null"));
    }
    if width <= 0 || height <= 0 || y_stride <= 0 || u_stride <= 0 {
        return Err(Error::invalid_parameter("decoded frame has non-positive dimensions or strides"));
    }
    let width = width as usize;
    let height = height as usize;
    let y_stride = y_stride as usize;
    let u_stride = u_stride as usize;
    let v_stride = u_stride;
    let uv_height = height / 2 + height % 2;
    assert(uv_height == half_up(height as int));
    let y_size = match height.checked_mul(y_stride) {
        Some(s) => s,
        None => return Err(Error::invalid_parameter("decoded Y plane size overflows")),
    };
    let u_size = match uv_height.checked_mul(u_stride) {
        Some(s) => s,
        None => return Err(Error::invalid_parameter("decoded U plane size overflows")),
    };
    let v_size = match uv_height.checked_mul(v_stride) {
        Some(s) => s,
        None => return Err(Error::invalid_parameter("decoded V plane size overflows")),
    };
    Ok(PlaneLayout { width, height, y_stride, u_stride, v_stride, y_size, u_size, v_size })
}

/// What a decoding call (`DecodeFrameNoDelay` or `FlushFrame`) returned, from the buffer
/// information it filled in: `None` when no picture is ready, the picture's layout when an
/// I420 picture is, and the error of `decoded_picture_ready` or `plane_layout` otherwise.
pub fn decoded_output(
    buffer_status: i32,
    format: u32,
    planes_present: bool,
    width: i32,
    height: i32,
    y_stride: i32,
    u_stride: i32,
) -> (r: Result<Option<PlaneLayout>, Error>)
    ensures
        buffer_status != 1 ==> r == Ok::<Option<PlaneLayout>, Error>(None),
        buffer_status == 1 && format != VIDEO_FORMAT_I420 ==>
            r == Err::<Option<PlaneLayout>, Error>(Error::UnsupportedFormat { format }),
        buffer_status == 1 && format == VIDEO_FORMAT_I420 ==> {
            &&& (r is Ok <==> {
                &&& planes_present
                &&& width > 0 && height > 0 && y_stride > 0 && u_stride > 0
                &&& height * y_stride <= usize::MAX
                &&& half_up(height as int) * u_stride <= usize::MAX
            })
            &&& (r matches Ok(l) ==> l matches Some(layout) && {
                &&& layout_consistent(layout)
                &&& layout.width == width && layout.height == height
                &&& layout.y_stride == y_stride && layout.u_stride == u_stride
            })
            &&& (r matches Err(e) ==> invalid_with(e, plane_layout_error(planes_present, width, height, y_stride, u_stride)))
        },
{
    match decoded_picture_ready(buffer_status, format) {
        Err(e) => Err(e),
        Ok(false) => Ok(None),
        Ok(true) => match plane_layout(planes_present, width, height, y_stride, u_stride) {
            Ok(layout) => Ok(Some(layout)),
            Err(e) => Err(e),
        },
    }
}

/// A decoded picture (I420, YUV 4:2:0 planar). It owns its plane data, so it does not
/// depend on the decoder that produced it.
#[derive(Debug)]
pub struct DecodedFrame {
    layout: PlaneLayout,
    y_data: Vec<u8>,
    u_data: Vec<u8>,
    v_data: Vec<u8>,
}

impl Clone for DecodedFrame {
    fn clone(&self) -> (c: DecodedFrame)
        ensures
            c.spec_layout() == self.spec_layout(),
            c.spec_y() == self.spec_y(),
            c.spec_u() == self.spec_u(),
            c.spec_v() == self.spec_v(),
    {
        proof { use_type_invariant(self); }
        DecodedFrame {
            layout: self.layout,
            y_data: self.y_data.clone(),
            u_data: self.u_data.clone(),
            v_data: self.v_data.clone(),
        }
    }
}

impl DecodedFrame {
    #[verifier::type_invariant]
    spec fn planes_fit_layout(self) -> bool {
        &&& layout_consistent(self.layout)
        &&& self.y_data@.len() == self.layout.y_size
        &&& self.u_data@.len() == self.layout.u_size
        &&& self.v_data@.len() == self.layout.v_size
    }

    /// The geometry of the picture.
    pub closed spec fn spec_layout(&self) -> PlaneLayout {
        self.layout
    }

    /// The bytes of the Y plane.
    pub closed spec fn spec_y(&self) -> Seq<u8> {
        self.y_data@
    }

    /// The bytes of the U plane.
    pub closed spec fn spec_u(&self) -> Seq<u8> {
        self.u_data@
    }

    /// The bytes of the V plane.
    pub closed spec fn spec_v(&self) -> Seq<u8> {
        self.v_data@
    }

    /// A picture of layout `layout` holding the planes copied out of the decoder, each as
    /// long as the layout says.
    pub fn new(layout: PlaneLayout, y_data: Vec<u8>, u_data: Vec<u8>, v_data: Vec<u8>) -> (f: DecodedFrame)
        requires
            layout_consistent(layout),
            y_data@.len() == layout.y_size,
            u_data@.len() == layout.u_size,
            v_data@.len() == layout.v_size,
        ensures
            f.spec_layout() == layout,
            f.spec_y() == y_data@,
            f.spec_u() == u_data@,
            f.spec_v() == v_data@,
    {
        DecodedFrame { layout, y_data, u_data, v_data }
    }

    /// The Y plane.
    pub fn y_plane(&self) -> (p: &[u8])
        ensures
            p@ == self.spec_y(),
            p@.len() == self.spec_layout().y_size,
            layout_consistent(self.spec_layout()),
    {
        proof { use_type_invariant(self); }
        self.y_data.as_slice()
    }

    /// The U plane.
    pub fn u_plane(&self) -> (p: &[u8])
        ensures
            p@ == self.spec_u(),
            p@.len() == self.spec_layout().u_size,
            layout_consistent(self.spec_layout()),
    {
        proof { use_type_invariant(self); }
        self.u_data.as_slice()
    }

    /// The V plane.
    pub fn v_plane(&self) -> (p: &[u8])
        ensures
            p@ == self.spec_v(),
            p@.len() == self.spec_layout().v_size,
            layout_consistent(self.spec_layout()),
    {
        proof { use_type_invariant(self); }
        self.v_data.as_slice()
    }

    /// The stride of the Y plane.
    pub fn y_stride(&self) -> (s: usize)
        ensures
            s == self.spec_layout().y_stride,
    {
        self.layout.y_stride
    }

    /// The stride of the U plane.
    pub fn u_stride(&self) -> (s: usize)
        ensures
            s == self.spec_layout().u_stride,
    {
        self.layout.u_stride
    }

    /// The stride of the V plane.
    pub fn v_stride(&self) -> (s: usize)
        ensures
            s == self.spec_layout().v_stride,
    {
        self.layout.v_stride
    }

    /// The picture width.
    pub fn width(&self) -> (w: usize)
        ensures
            w == self.spec_layout().width,
    {
        self.layout.width
    }

    /// The picture height.
    pub fn height(&self) -> (h: usize)
        ensures
            h == self.spec_layout().height,
    {
        self.layout.height
    }
}

} // verus!
