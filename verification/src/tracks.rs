//! Lists of track numbers, as they travel from the tracker to the voice gate.

use vstd::prelude::*;

use crate::bytes::{law_low_bytes_round_trip, lemma_capacity_of_eight, low_bytes, number_in};

verus! {

#[verifier::external_type_specification]
#[verifier::external_body]
pub struct ExBincodeError(bincode::ErrorKind);

/// The numbers as eight bytes each, least significant byte first, one after
/// the other.
pub open spec fn numbers_bytes(ids: Seq<u64>) -> Seq<u8>
    decreases ids.len(),
{
    if ids.len() == 0 {
        Seq::empty()
    } else {
        numbers_bytes(ids.drop_last()) + low_bytes(ids.last() as nat, 8)
    }
}

/// A list as bytes: how many numbers there are, and then the numbers.
pub open spec fn tracks_bytes(ids: Seq<u64>) -> Seq<u8> {
    low_bytes(ids.len(), 8) + numbers_bytes(ids)
}

/// The number in the eight bytes at `at`.
pub open spec fn number_at(data: Seq<u8>, at: int) -> nat {
    number_in(data.subrange(at, at + 8))
}

/// Whether the bytes start with a list.
pub open spec fn starts_with_tracks(data: Seq<u8>) -> bool {
    data.len() >= 8 && data.len() >= 8 + 8 * number_at(data, 0)
}

/// Whether the bytes start with the list `ids`.
pub open spec fn starts_with(data: Seq<u8>, ids: Seq<u64>) -> bool {
    &&& starts_with_tracks(data)
    &&& ids.len() == number_at(data, 0)
    &&& forall|i: int|
        0 <= i < ids.len() ==> (#[trigger] ids[i]) as nat == number_at(data, 8 + 8 * i)
}

/// Calls `bincode::serialize` on a list of numbers, which cannot fail. The
/// bytes are how many numbers there are and then the numbers, each as eight
/// bytes, least significant byte first.
#[verifier::external_body]
pub(crate) fn encode_tracks(ids: &Vec<u64>) -> (r: Vec<u8>)
    requires
        8 + 8 * ids@.len() <= isize::MAX,
    ensures
        r@ == tracks_bytes(ids@),
{
    bincode::serialize(ids).unwrap()
}

/// Calls `bincode::deserialize` for a list of numbers. It fails where there
/// are too few bytes for the number of numbers that the first eight give, or
/// for these eight; bytes after the list are left alone.
#[verifier::external_body]
pub(crate) fn decode_tracks(data: &[u8]) -> (r: Result<Vec<u64>, Box<bincode::ErrorKind>>)
    ensures
        match r {
            Ok(ids) => starts_with(data@, ids@),
            Err(_) => !starts_with_tracks(data@),
        },
{
    bincode::deserialize(data)
}

/// Whether the bytes start with a list.
pub fn is_track_list(data: &[u8]) -> (r: bool)
    ensures
        r == starts_with_tracks(data@),
{
    decode_tracks(data).is_ok()
}

/// Whether the bytes start with a list that holds anything.
pub fn has_tracks(data: &[u8]) -> (r: bool)
    ensures
        r == (starts_with_tracks(data@) && number_at(data@, 0) > 0),
{
    match decode_tracks(data) {
        Ok(ids) => ids.len() > 0,
        Err(_) => false,
    }
}

/// A list that was turned into bytes can be read back, whatever follows it,
/// and is the only one that can.
pub proof fn law_tracks_round_trip(ids: Seq<u64>, rest: Seq<u8>)
    requires
        ids.len() <= u64::MAX,
    ensures
        starts_with(tracks_bytes(ids) + rest, ids),
        forall|other: Seq<u64>| #[trigger]
            starts_with(tracks_bytes(ids) + rest, other) ==> other == ids,
{
    let data = tracks_bytes(ids) + rest;
    lemma_capacity_of_eight();
    law_low_bytes_round_trip(ids.len(), 8);
    lemma_numbers_bytes(ids);
    assert(data.subrange(0, 8) =~= low_bytes(ids.len(), 8));
    assert forall|i: int| 0 <= i < ids.len() implies (#[trigger] ids[i]) as nat == number_at(
        data,
        8 + 8 * i,
    ) by {
        assert(data.subrange(8 + 8 * i, 8 + 8 * i + 8) =~= numbers_bytes(ids).subrange(
            8 * i,
            8 * i + 8,
        ));
    }
    assert forall|other: Seq<u64>| #[trigger] starts_with(data, other) implies other == ids by {
        assert(other =~= ids);
    }
}

proof fn lemma_numbers_bytes(ids: Seq<u64>)
    ensures
        numbers_bytes(ids).len() == 8 * ids.len(),
        forall|i: int|
            0 <= i < ids.len() ==> number_in(numbers_bytes(ids).subrange(8 * i, 8 * i + 8)) == (
            #[trigger] ids[i]) as nat,
    decreases ids.len(),
{
    if ids.len() > 0 {
        let before = ids.drop_last();
        lemma_numbers_bytes(before);
        lemma_capacity_of_eight();
        law_low_bytes_round_trip(ids.last() as nat, 8);
        assert forall|i: int| 0 <= i < ids.len() implies number_in(
            numbers_bytes(ids).subrange(8 * i, 8 * i + 8),
        ) == (#[trigger] ids[i]) as nat by {
            if i < before.len() {
                assert(ids[i] == before[i]);
                assert(numbers_bytes(ids).subrange(8 * i, 8 * i + 8) =~= numbers_bytes(
                    before,
                ).subrange(8 * i, 8 * i + 8));
            } else {
                assert(numbers_bytes(ids).subrange(8 * i, 8 * i + 8) =~= low_bytes(
                    ids.last() as nat,
                    8,
                ));
            }
        }
    }
}

/// A list takes eight bytes for how many numbers it has and eight for each of
/// them, and can be read from no fewer.
pub proof fn law_list_layout(ids: Seq<u64>, data: Seq<u8>, i: int)
    requires
        ids.len() <= u64::MAX,
    ensures
        tracks_bytes(ids).len() == 8 + 8 * ids.len(),
        number_in(tracks_bytes(ids).subrange(0, 8)) == ids.len(),
        0 <= i < ids.len() ==> number_in(tracks_bytes(ids).subrange(8 + 8 * i, 16 + 8 * i))
            == ids[i],
        data.len() < 8 ==> !starts_with_tracks(data),
        data.len() >= 8 ==> (starts_with_tracks(data) <==> data.len() >= 8 + 8 * number_in(
            data.subrange(0, 8),
        )),
{
    let all = tracks_bytes(ids);
    lemma_capacity_of_eight();
    law_low_bytes_round_trip(ids.len(), 8);
    lemma_numbers_bytes(ids);
    assert(all.subrange(0, 8) =~= low_bytes(ids.len(), 8));
    if 0 <= i < ids.len() {
        assert(all.subrange(8 + 8 * i, 16 + 8 * i) =~= numbers_bytes(ids).subrange(
            8 * i,
            8 * i + 8,
        ));
    }
}

} // verus!
