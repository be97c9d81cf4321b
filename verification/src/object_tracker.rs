//! The object tracker: boxes come in as a tensor, and the numbers of the
//! tracks they belong to go out.

use vstd::prelude::*;

use crate::bytes::{
    capacity, law_le32_inverts_writing, law_low_bytes_round_trip, le32, low_bytes, number_in,
    read_le32,
};
use crate::media::{Buffer, FlowError};
use crate::tensor::{
    law_header_is_unique, law_header_size, TensorMetaInfo, TENSOR_META_SIZE,
};
use crate::tracks::{encode_tracks, law_list_layout, tracks_bytes};

verus! {

/// The bytes of a box: four numbers.
pub const TENSOR_BBOX_SIZE: usize = 16;

/// The settings of the element. It has none.
#[derive(Debug, Clone, Copy)]
pub struct Settings {}

impl Default for Settings {
    fn default() -> (r: Settings) {
        Settings {  }
    }
}

/// What the tracker is started with.
#[derive(Debug, Clone, Copy)]
pub struct State {
    /// How many workers it has.
    pub shards: usize,
    /// How many boxes of a track it remembers.
    pub bbox_history: usize,
    /// For how many frames a track may be out of sight.
    pub max_idle_epochs: usize,
}

impl Default for State {
    fn default() -> (r: State)
        ensures
            r == (State { shards: 1, bbox_history: 10, max_idle_epochs: 1 }),
    {
        State { shards: 1, bbox_history: 10, max_idle_epochs: 1 }
    }
}

/// A box in a picture.
#[derive(Debug, Clone, Copy, PartialEq, Eq, Structural)]
pub struct TensorBBox {
    pub x: u32,
    pub y: u32,
    pub w: u32,
    pub h: u32,
}

/// The box in the sixteen bytes at `at`.
pub open spec fn box_at(data: Seq<u8>, at: int) -> TensorBBox {
    TensorBBox {
        x: le32(data, at),
        y: le32(data, at + 4),
        w: le32(data, at + 8),
        h: le32(data, at + 12),
    }
}

/// Where a box stands in a tensor: the boxes follow the header, each as many
/// numbers after the one before it as the first dimension says.
pub open spec fn box_offset(meta: TensorMetaInfo, i: int) -> int {
    meta.header_size() + i * (meta.dimension@[0] * 4)
}

/// Whether all boxes that a tensor claims to hold are there. The second
/// dimension says how many these are.
pub open spec fn boxes_fit(meta: TensorMetaInfo, len: nat) -> bool {
    forall|i: int|
        0 <= i < meta.dimension@[1] ==> #[trigger] box_offset(meta, i) + TENSOR_BBOX_SIZE <= len
}

/// The boxes of a tensor.
pub open spec fn boxes_in(meta: TensorMetaInfo, data: Seq<u8>) -> Seq<TensorBBox> {
    Seq::new(meta.dimension@[1] as nat, |i: int| box_at(data, box_offset(meta, i)))
}

/// Reads the boxes of a tensor with the given header, `None` where some of
/// them are not there.
pub fn read_boxes(meta: &TensorMetaInfo, data: &[u8]) -> (r: Option<Vec<TensorBBox>>)
    ensures
        match r {
            Some(boxes) => boxes_fit(*meta, data@.len()) && boxes@ == boxes_in(*meta, data@),
            None => !boxes_fit(*meta, data@.len()),
        },
{
    let count: u32 = meta.dimension[1];
    let stride: u64 = meta.dimension[0] as u64 * 4;
    let len: usize = data.len();
    let mut boxes: Vec<TensorBBox> = Vec::new();
    let mut at: usize = meta.get_header_size();
    let mut i: u32 = 0;
    while i < count
        invariant
            i <= count,
            count == meta.dimension@[1],
            stride == meta.dimension@[0] * 4,
            len == data@.len(),
            i < count ==> at == box_offset(*meta, i as int),
            boxes@.len() == i,
            forall|j: int|
                0 <= j < i ==> {
                    &&& #[trigger] box_offset(*meta, j) + TENSOR_BBOX_SIZE <= len
                    &&& boxes@[j] == box_at(data@, box_offset(*meta, j))
                },
        decreases count - i,
    {
        proof {
            let wide = meta.dimension@[0] * 4;
            assert((i + 1) * wide == i * wide + wide) by (nonlinear_arith);
            assert(box_offset(*meta, i + 1) == at + stride);
        }
        if at > len || len - at < TENSOR_BBOX_SIZE {
            return None;
        }
        boxes.push(
            TensorBBox {
                x: read_le32(data, at),
                y: read_le32(data, at + 4),
                w: read_le32(data, at + 8),
                h: read_le32(data, at + 12),
            },
        );
        i = i + 1;
        if i < count {
            if stride > (len - at) as u64 {
                return None;
            }
            at = at + stride as usize;
        }
    }
    assert(boxes@ =~= boxes_in(*meta, data@));
    Some(boxes)
}

/// The element.
#[derive(Debug)]
pub struct ObjectTracker {
    pub state: State,
}

impl ObjectTracker {
    /// The boxes in a buffer. A buffer has to say what time it is for; one
    /// that is too short for a header holds nothing, and one whose header or
    /// boxes are broken is refused.
    pub fn sink_chain(&self, buffer: &Buffer) -> (r: Result<Option<Vec<TensorBBox>>, FlowError>)
        ensures
            match r {
                Ok(Some(boxes)) => {
                    &&& buffer.pts is Some
                    &&& exists|meta: TensorMetaInfo|
                        {
                            &&& #[trigger] meta.encoded_at_start(buffer.data@)
                            &&& boxes_fit(meta, buffer.data@.len())
                            &&& boxes@ == boxes_in(meta, buffer.data@)
                        }
                },
                Ok(None) => buffer.pts is Some && buffer.data@.len() < TENSOR_META_SIZE,
                Err(e) => {
                    &&& e == FlowError::Error
                    &&& buffer.pts is None || (buffer.data@.len() >= TENSOR_META_SIZE && forall|
                        meta: TensorMetaInfo,
                    | #[trigger]
                        meta.encoded_at_start(buffer.data@) ==> !boxes_fit(
                            meta,
                            buffer.data@.len(),
                        ))
                },
            },
    {
        if buffer.pts.is_none() {
            return Err(FlowError::Error);
        }
        let data: &[u8] = buffer.data.as_slice();
        if data.len() < TENSOR_META_SIZE {
            return Ok(None);
        }
        match TensorMetaInfo::read(data) {
            Some(meta) => match read_boxes(&meta, data) {
                Some(boxes) => Ok(Some(boxes)),
                None => {
                    assert forall|other: TensorMetaInfo| #[trigger]
                        other.encoded_at_start(buffer.data@) implies !boxes_fit(
                        other,
                        buffer.data@.len(),
                    ) by {
                        law_header_is_unique(meta, other, buffer.data@);
                        if boxes_fit(other, buffer.data@.len()) {
                            assert forall|i: int| 0 <= i < meta.dimension@[1] implies #[trigger]
                                box_offset(meta, i) + TENSOR_BBOX_SIZE <= buffer.data@.len() by {
                                assert(box_offset(meta, i) == box_offset(other, i));
                            }
                        }
                    }
                    Err(FlowError::Error)
                },
            },
            None => Err(FlowError::Error),
        }
    }

    /// The bytes that go out for the tracks that the boxes belong to.
    pub fn output(&self, track_ids: &Vec<u64>) -> (r: Vec<u8>)
        requires
            8 + 8 * track_ids@.len() <= isize::MAX,
        ensures
            r@ == tracks_bytes(track_ids@),
    {
        encode_tracks(track_ids)
    }
}

/// No box is read from beyond the end of the buffer, and where the boxes do
/// not overlap, none of them shares a byte with another.
pub proof fn law_boxes_lie_apart(meta: TensorMetaInfo, len: nat, i: int, j: int)
    requires
        boxes_fit(meta, len),
        meta.dimension@[0] >= 4,
        0 <= i < j < meta.dimension@[1],
    ensures
        0 <= box_offset(meta, i),
        box_offset(meta, i) + TENSOR_BBOX_SIZE <= box_offset(meta, j),
        box_offset(meta, j) + TENSOR_BBOX_SIZE <= len,
{
    let wide = meta.dimension@[0] * 4;
    assert(0 <= i * wide) by (nonlinear_arith)
        requires
            0 <= i,
            0 <= wide,
    ;
    assert(i * wide + wide <= j * wide) by (nonlinear_arith)
        requires
            i < j,
            0 <= wide,
    ;
}

/// A box as bytes: its four numbers, each as four bytes, least significant
/// byte first.
pub open spec fn box_bytes(b: TensorBBox) -> Seq<u8> {
    low_bytes(b.x as nat, 4) + low_bytes(b.y as nat, 4) + low_bytes(b.w as nat, 4) + low_bytes(
        b.h as nat,
        4,
    )
}

/// Reading a box inverts writing it, and each of its numbers is read from four
/// bytes of its own.
pub proof fn law_box_reads_what_was_written(data: Seq<u8>, at: int, b: TensorBBox)
    requires
        0 <= at <= data.len() - 16,
    ensures
        data.subrange(at, at + 16) == box_bytes(b) ==> box_at(data, at) == b,
        box_at(data, at).x == number_in(data.subrange(at, at + 4)),
        box_at(data, at).y == number_in(data.subrange(at + 4, at + 8)),
        box_at(data, at).w == number_in(data.subrange(at + 8, at + 12)),
        box_at(data, at).h == number_in(data.subrange(at + 12, at + 16)),
{
    let all = data.subrange(at, at + 16);
    reveal_with_fuel(capacity, 5);
    law_low_bytes_round_trip(b.x as nat, 4);
    law_low_bytes_round_trip(b.y as nat, 4);
    law_low_bytes_round_trip(b.w as nat, 4);
    law_low_bytes_round_trip(b.h as nat, 4);
    law_le32_inverts_writing(data, at, b.x);
    law_le32_inverts_writing(data, at + 4, b.y);
    law_le32_inverts_writing(data, at + 8, b.w);
    law_le32_inverts_writing(data, at + 12, b.h);
    if all == box_bytes(b) {
        assert(data.subrange(at, at + 4) =~= all.subrange(0, 4));
        assert(data.subrange(at + 4, at + 8) =~= all.subrange(4, 8));
        assert(data.subrange(at + 8, at + 12) =~= all.subrange(8, 12));
        assert(data.subrange(at + 12, at + 16) =~= all.subrange(12, 16));
        assert(all.subrange(0, 4) =~= low_bytes(b.x as nat, 4));
        assert(all.subrange(4, 8) =~= low_bytes(b.y as nat, 4));
        assert(all.subrange(8, 12) =~= low_bytes(b.w as nat, 4));
        assert(all.subrange(12, 16) =~= low_bytes(b.h as nat, 4));
    }
}

/// Where the first box of a tensor starts: behind the 128 bytes of a header of
/// version 1.0, by its two numbers, and at the start of anything else.
pub open spec fn first_box(meta: TensorMetaInfo) -> int {
    if meta.magic == 4276997357 && meta.version == 3724546048 {
        128
    } else {
        0
    }
}

/// Whether a box was written at its place in a tensor: as many numbers of four
/// bytes after the first box as the first dimension says, for each box before
/// it.
pub open spec fn box_written(meta: TensorMetaInfo, data: Seq<u8>, i: int, b: TensorBBox) -> bool {
    let at = first_box(meta) + 4 * meta.dimension@[0] * i;
    at + 16 <= data.len() && data.subrange(at, at + 16) == box_bytes(b)
}

/// All boxes that were written are read, in order and with nothing left out:
/// as many as the second dimension says, each as many numbers after the one
/// before it as the first dimension says.
pub proof fn law_boxes_read_what_was_written(
    meta: TensorMetaInfo,
    data: Seq<u8>,
    boxes: Seq<TensorBBox>,
)
    requires
        boxes.len() == meta.dimension@[1],
        forall|i: int|
            0 <= i < boxes.len() ==> box_written(meta, data, i, #[trigger] boxes[i]),
    ensures
        boxes_fit(meta, data.len()),
        boxes_in(meta, data) == boxes,
{
    law_header_size(meta);
    let wide = meta.dimension@[0] * 4;
    assert forall|i: int| 0 <= i < boxes.len() implies box_offset(meta, i) == first_box(meta) + 4
        * meta.dimension@[0] * i && box_at(data, box_offset(meta, i)) == #[trigger] boxes[i]
        && box_offset(meta, i) + 16 <= data.len() by {
        assert(i * wide == 4 * meta.dimension@[0] * i && 0 <= i * wide) by (nonlinear_arith)
            requires
                wide == meta.dimension@[0] * 4,
                0 <= i,
        ;
        assert(box_written(meta, data, i, boxes[i]));
        law_box_reads_what_was_written(data, box_offset(meta, i), boxes[i]);
    }
    assert forall|i: int| 0 <= i < meta.dimension@[1] implies #[trigger] box_offset(meta, i)
        + TENSOR_BBOX_SIZE <= data.len() by {
        assert(box_at(data, box_offset(meta, i)) == boxes[i]);
    }
    assert(boxes_in(meta, data) =~= boxes);
}

/// A tensor that claims a box of which even one byte is missing does not hold
/// what it claims.
pub proof fn law_missing_boxes_are_noticed(meta: TensorMetaInfo, len: nat, i: int)
    requires
        0 <= i < meta.dimension@[1],
        first_box(meta) + 4 * meta.dimension@[0] * i + 16 > len,
    ensures
        !boxes_fit(meta, len),
{
    law_header_size(meta);
    let wide = meta.dimension@[0] * 4;
    assert(i * wide == 4 * meta.dimension@[0] * i) by (nonlinear_arith)
        requires
            wide == meta.dimension@[0] * 4,
    ;
    assert(box_offset(meta, i) + TENSOR_BBOX_SIZE > len);
}

/// The boxes that were written into a buffer behind its header are what is
/// taken of it; a buffer without a time or with a box missing is refused, and
/// one too short for a header holds nothing.
pub proof fn law_sink_chain(
    tracker: &ObjectTracker,
    buffer: &Buffer,
    meta: TensorMetaInfo,
    boxes: Seq<TensorBBox>,
    result: Result<Option<Vec<TensorBBox>>, FlowError>,
)
    requires
        call_ensures(ObjectTracker::sink_chain, (tracker, buffer), result),
        meta.encoded_at_start(buffer.data@),
        boxes.len() == meta.dimension@[1],
        forall|i: int|
            0 <= i < boxes.len() ==> box_written(meta, buffer.data@, i, #[trigger] boxes[i]),
    ensures
        buffer.pts is None ==> result is Err && result->Err_0 == FlowError::Error,
        buffer.pts is Some ==> result is Ok && result->Ok_0 is Some && result->Ok_0->0@ == boxes,
{
    law_boxes_read_what_was_written(meta, buffer.data@, boxes);
    if buffer.pts is Some && result is Ok && result->Ok_0 is Some {
        let found = choose|found: TensorMetaInfo|
            {
                &&& #[trigger] found.encoded_at_start(buffer.data@)
                &&& boxes_fit(found, buffer.data@.len())
                &&& result->Ok_0->0@ == boxes_in(found, buffer.data@)
            };
        law_header_is_unique(meta, found, buffer.data@);
        assert forall|i: int| 0 <= i < boxes.len() implies boxes_in(found, buffer.data@)[i]
            == boxes_in(meta, buffer.data@)[i] by {
            assert(box_offset(found, i) == box_offset(meta, i));
        }
        assert(boxes_in(found, buffer.data@) =~= boxes_in(meta, buffer.data@));
    }
}

/// What goes out for tracks is a list that gives them back.
pub proof fn law_output(tracker: &ObjectTracker, track_ids: &Vec<u64>, out: Vec<u8>, i: int)
    requires
        8 + 8 * track_ids@.len() <= isize::MAX,
        call_ensures(ObjectTracker::output, (tracker, track_ids), out),
    ensures
        out@.len() == 8 + 8 * track_ids@.len(),
        number_in(out@.subrange(0, 8)) == track_ids@.len(),
        0 <= i < track_ids@.len() ==> number_in(out@.subrange(8 + 8 * i, 16 + 8 * i))
            == track_ids@[i],
{
    law_list_layout(track_ids@, out@, i);
}

} // verus!
