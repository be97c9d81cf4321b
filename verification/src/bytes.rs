//! Numbers as bytes, in either order.

use vstd::prelude::*;

verus! {

/// The number in the four bytes at `at`, least significant byte first.
pub open spec fn le32(data: Seq<u8>, at: int) -> u32 {
    (data[at] + data[at + 1] * 0x100 + data[at + 2] * 0x1_0000 + data[at + 3]
        * 0x100_0000) as u32
}

/// Reads the number in the four bytes at `at`, least significant byte first.
pub fn read_le32(data: &[u8], at: usize) -> (r: u32)
    requires
        at + 4 <= data@.len(),
    ensures
        r == le32(data@, at as int),
{
    data[at] as u32 + data[at + 1] as u32 * 0x100 + data[at + 2] as u32 * 0x1_0000
        + data[at + 3] as u32 * 0x100_0000
}

/// A number as four bytes, most significant byte first.
pub open spec fn be32(n: u32) -> Seq<u8> {
    seq![
        (n / 0x100_0000) as u8,
        ((n / 0x1_0000) % 0x100) as u8,
        ((n / 0x100) % 0x100) as u8,
        (n % 0x100) as u8,
    ]
}

/// Appends a number as four bytes, most significant byte first.
pub fn push_be32(data: &mut Vec<u8>, n: u32)
    ensures
        final(data)@ == old(data)@ + be32(n),
{
    data.push((n / 0x100_0000) as u8);
    data.push(((n / 0x1_0000) % 0x100) as u8);
    data.push(((n / 0x100) % 0x100) as u8);
    data.push((n % 0x100) as u8);
    assert(data@ =~= old(data)@ + be32(n));
}

/// The low 32 bits of a length.
pub open spec fn low32(len: nat) -> u32 {
    (len % 0x1_0000_0000) as u32
}

/// Cuts a length down to its low 32 bits.
pub fn truncate_len(len: usize) -> (r: u32)
    ensures
        r == low32(len as nat),
{
    (len as u64 % 0x1_0000_0000) as u32
}

/// Appends the bytes of `more`.
pub fn push_all(data: &mut Vec<u8>, more: &[u8])
    ensures
        final(data)@ == old(data)@ + more@,
{
    data.extend_from_slice(more);
    assert(data@ =~= old(data)@ + more@);
}

/// The number in the four bytes at `at`, most significant byte first.
pub open spec fn be32_at(data: Seq<u8>, at: int) -> int {
    data[at] * 0x100_0000 + data[at + 1] * 0x1_0000 + data[at + 2] * 0x100 + data[at + 3]
}

/// A number written as four bytes can be read back.
pub proof fn law_be32_round_trip(n: u32)
    ensures
        be32_at(be32(n), 0) == n,
{
    assert((n / 0x100_0000) as u8 as u32 == n / 0x100_0000) by (bit_vector);
    assert(n == (n / 0x100_0000) * 0x100_0000 + ((n / 0x1_0000) % 0x100) * 0x1_0000 + ((n / 0x100)
        % 0x100) * 0x100 + n % 0x100) by (bit_vector);
}

/// The low `width` bytes of a number, least significant byte first.
pub open spec fn low_bytes(n: nat, width: nat) -> Seq<u8>
    decreases width,
{
    if width == 0 {
        Seq::empty()
    } else {
        seq![(n % 0x100) as u8] + low_bytes(n / 0x100, (width - 1) as nat)
    }
}

/// The number in the bytes, least significant byte first.
pub open spec fn number_in(data: Seq<u8>) -> nat
    decreases data.len(),
{
    if data.len() == 0 {
        0
    } else {
        data[0] as nat + 0x100 * number_in(data.drop_first())
    }
}

/// How many numbers `width` bytes can hold.
pub open spec fn capacity(width: nat) -> nat
    decreases width,
{
    if width == 0 {
        1
    } else {
        0x100 * capacity((width - 1) as nat)
    }
}

/// A number that fits in `width` bytes can be read back from them.
pub proof fn law_low_bytes_round_trip(n: nat, width: nat)
    requires
        n < capacity(width),
    ensures
        low_bytes(n, width).len() == width,
        number_in(low_bytes(n, width)) == n,
    decreases width,
{
    if width > 0 {
        law_low_bytes_round_trip(n / 0x100, (width - 1) as nat);
        assert(low_bytes(n, width).drop_first() =~= low_bytes(n / 0x100, (width - 1) as nat));
    }
}

/// Any 64-bit number fits in eight bytes.
pub proof fn lemma_capacity_of_eight()
    ensures
        capacity(8) == u64::MAX + 1,
{
    reveal_with_fuel(capacity, 9);
}

/// Four bytes hold the number that their weights 1, 256, 65536 and 16777216
/// give.
pub proof fn law_weights_of_four(data: Seq<u8>)
    requires
        data.len() == 4,
    ensures
        number_in(data) == data[0] as nat + 256 * data[1] as nat + 65536 * data[2] as nat + 16777216
            * data[3] as nat,
{
    reveal_with_fuel(number_in, 5);
    let one = data.drop_first();
    let two = one.drop_first();
    let three = two.drop_first();
    assert(three.drop_first().len() == 0);
}

/// Reading four bytes inverts writing a number as four bytes, least
/// significant byte first.
pub proof fn law_le32_inverts_writing(data: Seq<u8>, at: int, n: u32)
    requires
        0 <= at <= data.len() - 4,
    ensures
        le32(data, at) as nat == number_in(data.subrange(at, at + 4)),
        data.subrange(at, at + 4) == low_bytes(n as nat, 4) ==> le32(data, at) == n,
{
    let four = data.subrange(at, at + 4);
    law_weights_of_four(four);
    assert(data[at] == four[0] && data[at + 1] == four[1] && data[at + 2] == four[2] && data[at + 3]
        == four[3]);
    reveal_with_fuel(capacity, 5);
    law_low_bytes_round_trip(n as nat, 4);
}

/// The two orders of bytes are each other's reverse.
pub proof fn law_orders_are_reversed(n: u32)
    ensures
        be32(n) == low_bytes(n as nat, 4).reverse(),
        number_in(be32(n).reverse()) == n,
{
    reveal_with_fuel(low_bytes, 5);
    let low = low_bytes(n as nat, 4);
    assert((n as nat / 0x100) / 0x100 == n as nat / 0x1_0000);
    assert((n as nat / 0x1_0000) / 0x100 == n as nat / 0x100_0000);
    assert(n as nat / 0x100_0000 < 0x100);
    assert(low =~= seq![
        (n as nat % 0x100) as u8,
        ((n as nat / 0x100) % 0x100) as u8,
        ((n as nat / 0x1_0000) % 0x100) as u8,
        ((n as nat / 0x100_0000) % 0x100) as u8,
    ]);
    assert(be32(n) =~= low.reverse());
    assert(be32(n).reverse() =~= low);
    reveal_with_fuel(capacity, 5);
    law_low_bytes_round_trip(n as nat, 4);
}

/// A length that fits 32 bits is kept, and any other loses whole multiples of
/// 4294967296.
pub proof fn law_low32(len: nat)
    ensures
        len <= 4294967295 ==> low32(len) as nat == len,
        (len - low32(len)) % 4294967296 == 0,
{
}

} // verus!
