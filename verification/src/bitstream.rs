//! Annex B framing of encoded NAL units.
use vstd::prelude::*;
use vstd::slice::slice_to_vec;
use crate::error::{Error, invalid_with};
use crate::encoder::{FrameType, frame_type_from_code, frame_type_of};

verus! {

/// The length of the Annex B start code that opens `data`: 4 for `00 00 00 01`,
/// 3 for `00 00 01`, 0 when neither opens it.
pub open spec fn start_code_len(data: Seq<u8>) -> int {
    if data.len() >= 4 && data[0] == 0 && data[1] == 0 && data[2] == 0 && data[3] == 1 {
        4
    } else if data.len() >= 3 && data[0] == 0 && data[1] == 0 && data[2] == 1 {
        3
    } else {
        0
    }
}

/// The NAL unit body: `data` without its leading start code.
pub open spec fn nal_body(data: Seq<u8>) -> Seq<u8> {
    data.skip(start_code_len(data))
}

/// A NAL unit is its start code (none, `00 00 01` or `00 00 00 01`) followed by its body.
pub proof fn lemma_start_code_then_body(data: Seq<u8>)
    ensures
        data =~= data.take(start_code_len(data)) + nal_body(data),
        start_code_len(data) == 0 || data.take(start_code_len(data)) =~= seq![0u8, 0u8, 1u8]
            || data.take(start_code_len(data)) =~= seq![0u8, 0u8, 0u8, 1u8],
{
}

/// Skips an Annex B start code (`00 00 00 01` or `00 00 01`) and returns the NAL unit body.
pub fn skip_start_code(data: &[u8]) -> (body: &[u8])
    ensures
        body@ == nal_body(data@),
{
    let n = data.len();
    if n >= 4 && data[0] == 0 && data[1] == 0 && data[2] == 0 && data[3] == 1 {
        slice_from(data, 4)
    } else if n >= 3 && data[0] == 0 && data[1] == 0 && data[2] == 1 {
        slice_from(data, 3)
    } else {
        data
    }
}

/// The tail of `data` from index `start` on.
fn slice_from(data: &[u8], start: usize) -> (tail: &[u8])
    requires
        start <= data@.len(),
    ensures
        tail@ == data@.skip(start as int),
{
    let (_, tail) = data.split_at(start);
    tail
}

/// The most layers an encoded frame reports (`MAX_LAYER_NUM_OF_FRAME`).
pub const MAX_LAYER_NUM_OF_FRAME: i32 = 128;

/// The most NAL units one layer of an encoded frame may report.
pub const MAX_NAL_COUNT: i32 = 65536;

/// The number of layers of an encoded frame (`iLayerNum`): it must lie in `0..=128`.
pub fn layer_count(layer_num: i32) -> (r: Result<usize, Error>)
    ensures
        r is Ok <==> 0 <= layer_num <= MAX_LAYER_NUM_OF_FRAME,
        r matches Ok(n) ==> n == layer_num,
        r matches Err(e) ==> invalid_with(e, "iLayerNum is out of range"@),
{
    if layer_num < 0 || layer_num > MAX_LAYER_NUM_OF_FRAME {
        return Err(Error::invalid_parameter("iLayerNum is out of range"));
    }
    Ok(layer_num as usize)
}

/// The number of NAL units to read from a layer (`iNalCount`): none for a count of zero or
/// less, and an error for a count above 65536.
pub fn layer_nal_count(nal_count: i32) -> (r: Result<usize, Error>)
    ensures
        r is Ok <==> nal_count <= MAX_NAL_COUNT,
        r matches Ok(n) ==> if nal_count <= 0 { n == 0 } else { n == nal_count },
        r matches Err(e) ==> invalid_with(e, "iNalCount exceeds the upper bound"@),
{
    if nal_count <= 0 {
        return Ok(0);
    }
    if nal_count > MAX_NAL_COUNT {
        return Err(Error::invalid_parameter("iNalCount exceeds the upper bound"));
    }
    Ok(nal_count as usize)
}

/// The sum of the positive lengths in `lengths`.
pub open spec fn positive_total(lengths: Seq<i32>) -> int
    decreases lengths.len(),
{
    if lengths.len() == 0 {
        0
    } else {
        positive_total(lengths.drop_last()) + if lengths.last() > 0 {
            lengths.last() as int
        } else {
            0
        }
    }
}

/// Where each NAL unit of a layer lies in the layer's bitstream buffer: `(offset, length)`
/// for each positive length, in order, the units packed back to back; a length of zero or
/// less names no unit and takes no room.
pub open spec fn nal_spans_of(lengths: Seq<i32>) -> Seq<(usize, usize)>
    decreases lengths.len(),
{
    if lengths.len() == 0 {
        seq![]
    } else if lengths.last() > 0 {
        nal_spans_of(lengths.drop_last()).push(
            (positive_total(lengths.drop_last()) as usize, lengths.last() as usize),
        )
    } else {
        nal_spans_of(lengths.drop_last())
    }
}

/// The positive total of a prefix is at most that of the whole.
proof fn lemma_positive_total_prefix(lengths: Seq<i32>, i: int)
    requires
        0 <= i <= lengths.len(),
    ensures
        0 <= positive_total(lengths.take(i)) <= positive_total(lengths),
    decreases lengths.len(),
{
    if i == lengths.len() {
        assert(lengths.take(i) =~= lengths);
        lemma_positive_total_nonneg(lengths);
    } else {
        lemma_positive_total_prefix(lengths.drop_last(), i);
        assert(lengths.drop_last().take(i) =~= lengths.take(i));
    }
}

/// A positive total is never negative.
proof fn lemma_positive_total_nonneg(lengths: Seq<i32>)
    ensures
        positive_total(lengths) >= 0,
    decreases lengths.len(),
{
    if lengths.len() > 0 {
        lemma_positive_total_nonneg(lengths.drop_last());
    }
}

/// The NAL units of a layer are read back to back without overlap: the first starts at
/// offset 0, each has a positive length and starts where the one before it ends, and the
/// last ends at the total of the positive lengths.
pub proof fn lemma_nal_spans_packed(lengths: Seq<i32>)
    requires
        positive_total(lengths) <= usize::MAX,
    ensures
        forall|i: int| 0 <= i < nal_spans_of(lengths).len() ==> #[trigger] nal_spans_of(lengths)[i].1 > 0,
        nal_spans_of(lengths).len() > 0 ==> nal_spans_of(lengths)[0].0 == 0,
        nal_spans_of(lengths).len() == 0 ==> positive_total(lengths) == 0,
        forall|i: int| 0 <= i < nal_spans_of(lengths).len() - 1 ==>
            nal_spans_of(lengths)[i].0 + nal_spans_of(lengths)[i].1 == #[trigger] nal_spans_of(lengths)[i + 1].0,
        nal_spans_of(lengths).len() > 0 ==>
            nal_spans_of(lengths).last().0 + nal_spans_of(lengths).last().1 == positive_total(lengths),
    decreases lengths.len(),
{
    if lengths.len() > 0 {
        let prefix = lengths.drop_last();
        lemma_positive_total_nonneg(prefix);
        lemma_nal_spans_packed(prefix);
    }
}

/// The lengths in `s` that are positive, in order.
pub open spec fn positive_lengths(s: Seq<i32>) -> Seq<i32> {
    s.filter(|x: i32| x > 0)
}

/// The sum of the lengths in `s`.
pub open spec fn sum_lengths(s: Seq<i32>) -> int {
    s.fold_left(0int, |acc: int, x: i32| acc + x)
}

/// Summing a sequence extended by one length adds that length.
proof fn lemma_sum_lengths_push(s: Seq<i32>, x: i32)
    ensures
        sum_lengths(s.push(x)) == sum_lengths(s) + x,
{
    assert(s.push(x).drop_last() =~= s);
}

/// The positive lengths of a sequence extended by one length.
proof fn lemma_positive_lengths_push(s: Seq<i32>, x: i32)
    ensures
        positive_lengths(s.push(x)) == if x > 0 {
            positive_lengths(s).push(x)
        } else {
            positive_lengths(s)
        },
{
    s.lemma_filter_push(x, |x: i32| x > 0);
}

/// A sum of positive lengths is never negative.
proof fn lemma_sum_positive_nonneg(s: Seq<i32>)
    ensures
        sum_lengths(positive_lengths(s)) >= 0,
    decreases s.len(),
{
    if s.len() > 0 {
        let p = s.drop_last();
        lemma_sum_positive_nonneg(p);
        assert(p.push(s.last()) =~= s);
        lemma_positive_lengths_push(p, s.last());
        if s.last() > 0 {
            lemma_sum_lengths_push(positive_lengths(p), s.last());
        }
    }
}

/// The positive total of the lengths is the sum of the positive lengths.
proof fn lemma_positive_total_is_sum(s: Seq<i32>)
    ensures
        positive_total(s) == sum_lengths(positive_lengths(s)),
    decreases s.len(),
{
    if s.len() > 0 {
        let p = s.drop_last();
        lemma_positive_total_is_sum(p);
        assert(p.push(s.last()) =~= s);
        lemma_positive_lengths_push(p, s.last());
        if s.last() > 0 {
            lemma_sum_lengths_push(positive_lengths(p), s.last());
        }
    }
}

/// The NAL units of a layer are exactly the positive reported lengths, one unit for each,
/// in order: unit `k` is as long as the `k`-th positive length and starts at the sum of the
/// positive lengths before it. No unit is cut short, merged or read from inside another.
pub proof fn lemma_nal_spans_follow_lengths(lengths: Seq<i32>)
    requires
        sum_lengths(positive_lengths(lengths)) <= usize::MAX,
    ensures
        nal_spans_of(lengths).len() == positive_lengths(lengths).len(),
        forall|k: int| 0 <= k < positive_lengths(lengths).len() ==> {
            &&& (#[trigger] nal_spans_of(lengths)[k]).1 as int == positive_lengths(lengths)[k] as int
            &&& nal_spans_of(lengths)[k].0 as int == sum_lengths(positive_lengths(lengths).take(k))
        },
    decreases lengths.len(),
{
    if lengths.len() > 0 {
        let p = lengths.drop_last();
        let x = lengths.last();
        assert(p.push(x) =~= lengths);
        lemma_positive_lengths_push(p, x);
        lemma_positive_total_is_sum(p);
        lemma_sum_positive_nonneg(p);
        let pp = positive_lengths(p);
        if x > 0 {
            lemma_sum_lengths_push(pp, x);
        }
        lemma_nal_spans_follow_lengths(p);
        let pos = positive_lengths(lengths);
        assert forall|k: int| 0 <= k < pos.len() implies {
            &&& (#[trigger] nal_spans_of(lengths)[k]).1 as int == pos[k] as int
            &&& nal_spans_of(lengths)[k].0 as int == sum_lengths(pos.take(k))
        } by {
            if k < pp.len() {
                assert(pos.take(k) =~= pp.take(k));
                assert(pos[k] == pp[k]);
                assert(nal_spans_of(lengths)[k] == nal_spans_of(p)[k]);
            } else {
                assert(x > 0);
                assert(pos.take(k) =~= pp);
                assert(pos[k] == x);
            }
        }
    } else {
        reveal(Seq::filter);
    }
}

/// The spans of the NAL units of a layer whose units have the lengths `lengths`
/// (`pNalLengthInByte`), as `nal_spans_of` gives them; `InvalidParameter` where the end of a
/// unit does not fit a `usize`.
pub fn nal_spans(lengths: &[i32]) -> (r: Result<Vec<(usize, usize)>, Error>)
    ensures
        r is Ok <==> positive_total(lengths@) <= usize::MAX,
        r matches Ok(spans) ==> spans@ == nal_spans_of(lengths@),
        r is Ok <==> sum_lengths(positive_lengths(lengths@)) <= usize::MAX,
        r matches Ok(spans) ==> {
            &&& spans@.len() == positive_lengths(lengths@).len()
            &&& forall|k: int| 0 <= k < spans@.len() ==> {
                &&& (#[trigger] spans@[k]).1 as int == positive_lengths(lengths@)[k] as int
                &&& spans@[k].0 as int == sum_lengths(positive_lengths(lengths@).take(k))
            }
        },
        r matches Err(e) ==> invalid_with(e, "NAL offset overflows"@),
{
    proof {
        lemma_positive_total_is_sum(lengths@);
    }
    let mut spans: Vec<(usize, usize)> = Vec::new();
    let mut offset: usize = 0;
    let mut i: usize = 0;
    while i < lengths.len()
        invariant
            0 <= i <= lengths@.len(),
            offset == positive_total(lengths@.take(i as int)),
            spans@ == nal_spans_of(lengths@.take(i as int)),
            positive_total(lengths@) == sum_lengths(positive_lengths(lengths@)),
        decreases lengths@.len() - i,
    {
        proof {
            assert(lengths@.take(i + 1).drop_last() =~= lengths@.take(i as int));
        }
        let nal_len = lengths[i];
        if nal_len > 0 {
            let len = nal_len as usize;
            let next = match offset.checked_add(len) {
                Some(n) => n,
                None => {
                    proof {
                        lemma_positive_total_prefix(lengths@, i + 1);
                    }
                    return Err(Error::invalid_parameter("NAL offset overflows"));
                },
            };
            spans.push((offset, len));
            offset = next;
        }
        i = i + 1;
    }
    proof {
        assert(lengths@.take(lengths@.len() as int) =~= lengths@);
        lemma_nal_spans_follow_lengths(lengths@);
    }
    Ok(spans)
}

/// The NAL unit type (the low five bits of the first byte of the body) of an Annex B NAL
/// unit, `None` where the unit has no body.
pub open spec fn nal_unit_type(nal: Seq<u8>) -> Option<u8> {
    let body = nal_body(nal);
    if body.len() > 0 {
        Some((body[0] % 32) as u8)
    } else {
        None
    }
}

/// NAL unit type of a sequence parameter set.
pub const NAL_TYPE_SPS: u8 = 7;
/// NAL unit type of a picture parameter set.
pub const NAL_TYPE_PPS: u8 = 8;

/// Whether a NAL unit is a parameter set (SPS or PPS).
pub open spec fn is_parameter_set(nal: Seq<u8>) -> bool {
    nal_unit_type(nal) == Some(NAL_TYPE_SPS) || nal_unit_type(nal) == Some(NAL_TYPE_PPS)
}

/// The bodies (start code removed) of the NAL units of type `t`, in order.
pub open spec fn bodies_of_type(nals: Seq<Seq<u8>>, t: u8) -> Seq<Seq<u8>>
    decreases nals.len(),
{
    if nals.len() == 0 {
        seq![]
    } else if nal_unit_type(nals.last()) == Some(t) {
        bodies_of_type(nals.drop_last(), t).push(nal_body(nals.last()))
    } else {
        bodies_of_type(nals.drop_last(), t)
    }
}

/// The NAL units that are not parameter sets, start codes kept, joined in order.
pub open spec fn stream_data(nals: Seq<Seq<u8>>) -> Seq<u8>
    decreases nals.len(),
{
    if nals.len() == 0 {
        seq![]
    } else if is_parameter_set(nals.last()) {
        stream_data(nals.drop_last())
    } else {
        stream_data(nals.drop_last()) + nals.last()
    }
}

/// Whether the body of an Annex B unit starts with a byte whose low five bits are `t`.
pub open spec fn body_starts_with_type(nal: Seq<u8>, t: u8) -> bool {
    nal_body(nal).len() > 0 && nal_body(nal)[0] % 32 == t
}

/// The units of a given NAL type are taken whole and only they: there is one body for each
/// input unit whose body starts with a byte of that type, and every body kept is non-empty
/// and starts with such a byte.
pub proof fn lemma_bodies_are_units_of_their_type(nals: Seq<Seq<u8>>, t: u8)
    requires
        t < 32,
    ensures
        bodies_of_type(nals, t).len() == nals.filter(|n: Seq<u8>| body_starts_with_type(n, t)).len(),
        forall|i: int| 0 <= i < bodies_of_type(nals, t).len() ==> {
            &&& (#[trigger] bodies_of_type(nals, t)[i]).len() > 0
            &&& bodies_of_type(nals, t)[i][0] % 32 == t
        },
    decreases nals.len(),
{
    let pred = |n: Seq<u8>| body_starts_with_type(n, t);
    if nals.len() == 0 {
        reveal(Seq::filter);
    } else {
        let p = nals.drop_last();
        let x = nals.last();
        assert(p.push(x) =~= nals);
        p.lemma_filter_push(x, pred);
        lemma_bodies_are_units_of_their_type(p, t);
        assert(nal_unit_type(x) == Some(t) <==> body_starts_with_type(x, t));
    }
}

/// An encoded frame.
#[derive(Debug, Clone)]
pub struct EncodedFrame {
    /// The frame type.
    pub frame_type: FrameType,
    /// The SPS bodies, without start code (IDR frames only).
    pub sps_list: Vec<Vec<u8>>,
    /// The PPS bodies, without start code (IDR frames only).
    pub pps_list: Vec<Vec<u8>>,
    /// The compressed data in Annex B form, SPS and PPS units left out.
    pub data: Vec<u8>,
}

/// The low five bits of a byte are its remainder modulo 32.
proof fn lemma_low_five_bits(b: u8)
    ensures
        b & 0x1f == b % 32,
{
    assert(b & 0x1f == b % 32) by (bit_vector);
}

/// Sorts the NAL units of an encoded frame, in order: SPS and PPS bodies go to their
/// lists without their start codes; every other unit, and any unit without a body, is
/// appended to the data as it is.
pub fn split_parameter_sets(frame_type: FrameType, nals: &Vec<Vec<u8>>) -> (frame: EncodedFrame)
    ensures
        frame.frame_type == frame_type,
        frame.sps_list.deep_view() == bodies_of_type(nals.deep_view(), NAL_TYPE_SPS),
        frame.pps_list.deep_view() == bodies_of_type(nals.deep_view(), NAL_TYPE_PPS),
        frame.data@ == stream_data(nals.deep_view()),
{
    let mut sps_list: Vec<Vec<u8>> = Vec::new();
    let mut pps_list: Vec<Vec<u8>> = Vec::new();
    let mut data: Vec<u8> = Vec::new();
    let ghost all = nals.deep_view();
    let mut i: usize = 0;
    while i < nals.len()
        invariant
            0 <= i <= nals@.len(),
            all == nals.deep_view(),
            sps_list.deep_view() == bodies_of_type(all.take(i as int), NAL_TYPE_SPS),
            pps_list.deep_view() == bodies_of_type(all.take(i as int), NAL_TYPE_PPS),
            data@ == stream_data(all.take(i as int)),
        decreases nals@.len() - i,
    {
        let nal: &[u8] = nals[i].as_slice();
        proof {
            assert(all.take(i + 1).drop_last() =~= all.take(i as int));
            assert(all.take(i + 1).last() == nal@);
        }
        let body = skip_start_code(nal);
        if body.len() > 0 {
            let first = body[0];
            proof { lemma_low_five_bits(first); }
            let nal_type = first & 0x1f;
            assert(nal_unit_type(nal@) == Some(nal_type));
            if nal_type == NAL_TYPE_SPS {
                let v = slice_to_vec(body);
                let ghost before = sps_list.deep_view();
                sps_list.push(v);
                assert(v.deep_view() =~= body@);
                assert(sps_list.deep_view() =~= before.push(body@));
            } else if nal_type == NAL_TYPE_PPS {
                let v = slice_to_vec(body);
                let ghost before = pps_list.deep_view();
                pps_list.push(v);
                assert(v.deep_view() =~= body@);
                assert(pps_list.deep_view() =~= before.push(body@));
            } else {
                append_bytes(&mut data, nal);
            }
        } else {
            append_bytes(&mut data, nal);
        }
        proof {
            assert(sps_list.deep_view() =~= bodies_of_type(all.take(i + 1), NAL_TYPE_SPS));
            assert(pps_list.deep_view() =~= bodies_of_type(all.take(i + 1), NAL_TYPE_PPS));
        }
        i = i + 1;
    }
    proof {
        assert(all.take(nals@.len() as int) =~= all);
    }
    EncodedFrame { frame_type, sps_list, pps_list, data }
}

/// Appends the bytes of `src` to `dst`.
fn append_bytes(dst: &mut Vec<u8>, src: &[u8])
    ensures
        final(dst)@ == old(dst)@ + src@,
{
    let mut i: usize = 0;
    while i < src.len()
        invariant
            0 <= i <= src@.len(),
            dst@ == old(dst)@ + src@.take(i as int),
        decreases src@.len() - i,
    {
        dst.push(src[i]);
        proof {
            assert(src@.take(i + 1) =~= src@.take(i as int).push(src@[i as int]));
        }
        i = i + 1;
    }
    proof {
        assert(src@.take(src@.len() as int) =~= src@);
    }
}

/// The encoded frame for the frame type code `frame_type_code` (`eFrameType`) and the NAL
/// units of all its layers in order: `None` for a skipped frame.
pub fn encoded_frame(frame_type_code: u32, nals: &Vec<Vec<u8>>) -> (r: Option<EncodedFrame>)
    ensures
        frame_type_of(frame_type_code) is None <==> r is None,
        r matches Some(frame) ==> {
            &&& Some(frame.frame_type) == frame_type_of(frame_type_code)
            &&& frame.sps_list.deep_view() == bodies_of_type(nals.deep_view(), NAL_TYPE_SPS)
            &&& frame.pps_list.deep_view() == bodies_of_type(nals.deep_view(), NAL_TYPE_PPS)
            &&& frame.data@ == stream_data(nals.deep_view())
        },
{
    match frame_type_from_code(frame_type_code) {
        None => None,
        Some(frame_type) => Some(split_parameter_sets(frame_type, nals)),
    }
}

} // verus!
