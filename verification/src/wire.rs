//! The byte layout of the values that messages are made of.
//!
//! Integers stand in little-endian order at their full width, a sequence is
//! led by its length as an eight-byte integer, and a text is the sequence of
//! its UTF-8 bytes.
//!
//! Every layout `wire_*` comes with a function `take_*` that reads one value
//! off the front of some bytes and hands back the rest. For each pair two
//! lemmas say that reading undoes writing, and that what was read had been
//! written that way.
use vstd::prelude::*;
use vstd::utf8::*;

use crate::addr::SocketAddr;

verus! {

/// The number of values that `width` bytes can hold.
pub open spec fn byte_range(width: nat) -> nat
    decreases width,
{
    if width == 0 {
        1
    } else {
        256 * byte_range((width - 1) as nat)
    }
}

/// The lowest `width` bytes of `n`, least significant byte first.
pub open spec fn le_bytes(n: nat, width: nat) -> Seq<u8>
    decreases width,
{
    if width == 0 {
        seq![]
    } else {
        seq![(n % 256) as u8] + le_bytes(n / 256, (width - 1) as nat)
    }
}

/// The number that `bytes` stand for, least significant byte first.
pub open spec fn le_value(bytes: Seq<u8>) -> nat
    decreases bytes.len(),
{
    if bytes.len() == 0 {
        0
    } else {
        bytes[0] as nat + 256 * le_value(bytes.skip(1))
    }
}

pub proof fn lemma_le_bytes_len(n: nat, width: nat)
    ensures
        le_bytes(n, width).len() == width,
    decreases width,
{
    if width > 0 {
        lemma_le_bytes_len(n / 256, (width - 1) as nat);
    }
}

/// A number that fits into `width` bytes is read back from them.
pub proof fn lemma_le_value_of_bytes(n: nat, width: nat)
    requires
        n < byte_range(width),
    ensures
        le_value(le_bytes(n, width)) == n,
    decreases width,
{
    if width > 0 {
        let rest = le_bytes(n / 256, (width - 1) as nat);
        assert(le_bytes(n, width).skip(1) =~= rest);
        lemma_le_value_of_bytes(n / 256, (width - 1) as nat);
    }
}

/// Bytes are written back from the number that they stand for.
pub proof fn lemma_le_bytes_of_value(bytes: Seq<u8>)
    ensures
        le_bytes(le_value(bytes), bytes.len()) == bytes,
    decreases bytes.len(),
{
    if bytes.len() > 0 {
        lemma_le_bytes_of_value(bytes.skip(1));
        assert(bytes =~= seq![bytes[0]] + bytes.skip(1));
    }
}

pub proof fn lemma_le_value_bound(bytes: Seq<u8>)
    ensures
        le_value(bytes) < byte_range(bytes.len()),
    decreases bytes.len(),
{
    if bytes.len() > 0 {
        lemma_le_value_bound(bytes.skip(1));
    }
}

pub proof fn lemma_byte_ranges()
    ensures
        byte_range(2) == 0x1_0000,
        byte_range(4) == 0x1_0000_0000,
        byte_range(8) == 0x1_0000_0000_0000_0000,
{
    reveal_with_fuel(byte_range, 9);
}

/// Reads an integer of `width` bytes.
pub open spec fn take_int(bytes: Seq<u8>, width: nat) -> Option<(nat, Seq<u8>)> {
    if bytes.len() >= width {
        Some((le_value(bytes.take(width as int)), bytes.skip(width as int)))
    } else {
        None
    }
}

pub proof fn lemma_take_int_of_bytes(n: nat, width: nat, rest: Seq<u8>)
    requires
        n < byte_range(width),
    ensures
        take_int(le_bytes(n, width) + rest, width) == Some((n, rest)),
{
    lemma_le_bytes_len(n, width);
    lemma_le_value_of_bytes(n, width);
    let bytes = le_bytes(n, width) + rest;
    assert(bytes.take(width as int) =~= le_bytes(n, width));
    assert(bytes.skip(width as int) =~= rest);
}

pub proof fn lemma_bytes_of_take_int(bytes: Seq<u8>, width: nat)
    ensures
        take_int(bytes, width) matches Some((n, rest)) ==> n < byte_range(width) && bytes
            == le_bytes(n, width) + rest,
{
    if bytes.len() >= width {
        let front = bytes.take(width as int);
        lemma_le_bytes_of_value(front);
        lemma_le_value_bound(front);
        assert(bytes =~= front + bytes.skip(width as int));
    }
}

/// Some bytes, led by their number.
#[verifier::opaque]
pub open spec fn wire_bytes(data: Seq<u8>) -> Seq<u8> {
    le_bytes(data.len(), 8) + data
}

/// Whether the number of `data` can stand in front of it.
pub open spec fn fits(data: Seq<u8>) -> bool {
    data.len() < byte_range(8)
}

/// Reads some bytes that are led by their number.
#[verifier::opaque]
pub open spec fn take_bytes(bytes: Seq<u8>) -> Option<(Seq<u8>, Seq<u8>)> {
    match take_int(bytes, 8) {
        Some((n, rest)) => if n <= rest.len() {
            Some((rest.take(n as int), rest.skip(n as int)))
        } else {
            None
        },
        None => None,
    }
}

pub proof fn lemma_take_bytes_of_wire(data: Seq<u8>, rest: Seq<u8>)
    requires
        fits(data),
    ensures
        take_bytes(wire_bytes(data) + rest) == Some((data, rest)),
{
    reveal(wire_bytes);
    reveal(take_bytes);
    assert(wire_bytes(data) + rest =~= le_bytes(data.len(), 8) + (data + rest));
    lemma_take_int_of_bytes(data.len(), 8, data + rest);
    assert((data + rest).take(data.len() as int) =~= data);
    assert((data + rest).skip(data.len() as int) =~= rest);
}

pub proof fn lemma_wire_of_take_bytes(bytes: Seq<u8>)
    ensures
        take_bytes(bytes) matches Some((data, rest)) ==> fits(data) && bytes == wire_bytes(data)
            + rest,
{
    reveal(wire_bytes);
    reveal(take_bytes);
    lemma_bytes_of_take_int(bytes, 8);
    if let Some((n, rest)) = take_int(bytes, 8) {
        if n <= rest.len() {
            assert(bytes =~= wire_bytes(rest.take(n as int)) + rest.skip(n as int));
        }
    }
}

/// A text: its UTF-8 bytes, led by their number.
#[verifier::opaque]
pub open spec fn wire_text(text: Seq<char>) -> Seq<u8> {
    wire_bytes(encode_utf8(text))
}

/// Whether the length of `text` can stand in front of it.
pub open spec fn text_fits(text: Seq<char>) -> bool {
    fits(encode_utf8(text))
}

/// Reads a text.
#[verifier::opaque]
pub open spec fn take_text(bytes: Seq<u8>) -> Option<(Seq<char>, Seq<u8>)> {
    match take_bytes(bytes) {
        Some((data, rest)) => if valid_utf8(data) {
            Some((decode_utf8(data), rest))
        } else {
            None
        },
        None => None,
    }
}

pub proof fn lemma_take_text_of_wire(text: Seq<char>, rest: Seq<u8>)
    requires
        text_fits(text),
    ensures
        take_text(wire_text(text) + rest) == Some((text, rest)),
{
    reveal(wire_text);
    reveal(take_text);
    lemma_take_bytes_of_wire(encode_utf8(text), rest);
    encode_utf8_valid_utf8(text);
    encode_utf8_decode_utf8(text);
}

pub proof fn lemma_wire_of_take_text(bytes: Seq<u8>)
    ensures
        take_text(bytes) matches Some((text, rest)) ==> text_fits(text) && bytes == wire_text(text)
            + rest,
{
    reveal(wire_text);
    reveal(take_text);
    lemma_wire_of_take_bytes(bytes);
    if let Some((data, rest)) = take_bytes(bytes) {
        if valid_utf8(data) {
            decode_utf8_encode_utf8(data);
        }
    }
}

/// Texts one behind the other.
pub open spec fn wire_texts(texts: Seq<Seq<char>>) -> Seq<u8>
    decreases texts.len(),
{
    if texts.len() == 0 {
        seq![]
    } else {
        wire_text(texts[0]) + wire_texts(texts.skip(1))
    }
}

/// Whether the length of each text can stand in front of it.
pub open spec fn texts_fit(texts: Seq<Seq<char>>) -> bool {
    forall|i: int| 0 <= i < texts.len() ==> #[trigger] text_fits(texts[i])
}

/// Reads `count` texts.
pub open spec fn take_texts(bytes: Seq<u8>, count: nat) -> Option<(Seq<Seq<char>>, Seq<u8>)>
    decreases count,
{
    if count == 0 {
        Some((seq![], bytes))
    } else {
        match take_text(bytes) {
            Some((first, rest)) => match take_texts(rest, (count - 1) as nat) {
                Some((others, end)) => Some((seq![first] + others, end)),
                None => None,
            },
            None => None,
        }
    }
}

pub proof fn lemma_take_texts_of_wire(texts: Seq<Seq<char>>, rest: Seq<u8>)
    requires
        texts_fit(texts),
    ensures
        take_texts(wire_texts(texts) + rest, texts.len()) == Some((texts, rest)),
    decreases texts.len(),
{
    if texts.len() == 0 {
        assert(wire_texts(texts) + rest =~= rest);
        assert(texts =~= seq![]);
    } else {
        let others = texts.skip(1);
        assert forall|i: int| 0 <= i < others.len() implies #[trigger] text_fits(others[i]) by {
            assert(text_fits(texts[i + 1]));
        }
        lemma_take_texts_of_wire(others, rest);
        assert(wire_texts(texts) + rest =~= wire_text(texts[0]) + (wire_texts(others) + rest));
        lemma_take_text_of_wire(texts[0], wire_texts(others) + rest);
        assert(seq![texts[0]] + others =~= texts);
    }
}

pub proof fn lemma_wire_of_take_texts(bytes: Seq<u8>, count: nat)
    ensures
        take_texts(bytes, count) matches Some((texts, rest)) ==> texts.len() == count && texts_fit(
            texts,
        ) && bytes == wire_texts(texts) + rest,
    decreases count,
{
    if count == 0 {
        assert(wire_texts(seq![]) + bytes =~= bytes);
    } else {
        lemma_wire_of_take_text(bytes);
        if let Some((first, rest)) = take_text(bytes) {
            lemma_wire_of_take_texts(rest, (count - 1) as nat);
            if let Some((others, end)) = take_texts(rest, (count - 1) as nat) {
                let texts = seq![first] + others;
                assert(texts.skip(1) =~= others);
                assert forall|i: int| 0 <= i < texts.len() implies #[trigger] text_fits(
                    texts[i],
                ) by {
                    if i > 0 {
                        assert(text_fits(others[i - 1]));
                    }
                }
                assert(bytes =~= wire_texts(texts) + end);
            }
        }
    }
}

/// An address: a four-byte mark of its family, its octets and its port.
#[verifier::opaque]
pub open spec fn wire_addr(addr: SocketAddr) -> Seq<u8> {
    match addr {
        SocketAddr::V4 { octets, port } => le_bytes(0, 4) + octets@ + le_bytes(port as nat, 2),
        SocketAddr::V6 { octets, port, .. } => le_bytes(1, 4) + octets@ + le_bytes(port as nat, 2),
    }
}

/// What the layout keeps of an address: all but the flow information and the
/// scope of an IPv6 address.
pub open spec fn addr_sent(addr: SocketAddr) -> SocketAddr {
    match addr {
        SocketAddr::V4 { .. } => addr,
        SocketAddr::V6 { octets, port, .. } => SocketAddr::V6 {
            octets,
            port,
            flowinfo: 0,
            scope_id: 0,
        },
    }
}

/// The first four of `bytes`, as octets.
pub open spec fn octets4(bytes: Seq<u8>) -> [u8; 4] {
    [bytes[0], bytes[1], bytes[2], bytes[3]]
}

/// The first sixteen of `bytes`, as octets.
pub open spec fn octets16(bytes: Seq<u8>) -> [u8; 16] {
    [
        bytes[0],
        bytes[1],
        bytes[2],
        bytes[3],
        bytes[4],
        bytes[5],
        bytes[6],
        bytes[7],
        bytes[8],
        bytes[9],
        bytes[10],
        bytes[11],
        bytes[12],
        bytes[13],
        bytes[14],
        bytes[15],
    ]
}

/// Reads an address.
#[verifier::opaque]
pub open spec fn take_addr(bytes: Seq<u8>) -> Option<(SocketAddr, Seq<u8>)> {
    match take_int(bytes, 4) {
        Some((family, rest)) => if family == 0 && rest.len() >= 4 {
            match take_int(rest.skip(4), 2) {
                Some((port, end)) => Some(
                    (SocketAddr::V4 { octets: octets4(rest), port: port as u16 }, end),
                ),
                None => None,
            }
        } else if family == 1 && rest.len() >= 16 {
            match take_int(rest.skip(16), 2) {
                Some((port, end)) => Some(
                    (
                        SocketAddr::V6 {
                            octets: octets16(rest),
                            port: port as u16,
                            flowinfo: 0,
                            scope_id: 0,
                        },
                        end,
                    ),
                ),
                None => None,
            }
        } else {
            None
        },
        None => None,
    }
}

pub proof fn lemma_take_addr_of_wire(addr: SocketAddr, rest: Seq<u8>)
    ensures
        take_addr(wire_addr(addr) + rest) == Some((addr_sent(addr), rest)),
{
    reveal(wire_addr);
    reveal(take_addr);
    lemma_byte_ranges();
    match addr {
        SocketAddr::V4 { octets, port } => {
            let tail = le_bytes(port as nat, 2) + rest;
            assert(wire_addr(addr) + rest =~= le_bytes(0, 4) + (octets@ + tail));
            lemma_take_int_of_bytes(0, 4, octets@ + tail);
            assert((octets@ + tail).skip(4) =~= tail);
            lemma_take_int_of_bytes(port as nat, 2, rest);
            assert(octets4(octets@ + tail)@ =~= octets@);
            assert(octets4(octets@ + tail) =~= octets);
        },
        SocketAddr::V6 { octets, port, .. } => {
            let tail = le_bytes(port as nat, 2) + rest;
            assert(wire_addr(addr) + rest =~= le_bytes(1, 4) + (octets@ + tail));
            lemma_take_int_of_bytes(1, 4, octets@ + tail);
            assert((octets@ + tail).skip(16) =~= tail);
            lemma_take_int_of_bytes(port as nat, 2, rest);
            assert(octets16(octets@ + tail)@ =~= octets@);
            assert(octets16(octets@ + tail) =~= octets);
        },
    }
}

pub proof fn lemma_wire_of_take_addr(bytes: Seq<u8>)
    ensures
        take_addr(bytes) matches Some((addr, rest)) ==> addr_sent(addr) == addr && bytes == wire_addr(
            addr,
        ) + rest,
{
    reveal(wire_addr);
    reveal(take_addr);
    lemma_byte_ranges();
    lemma_bytes_of_take_int(bytes, 4);
    if let Some((family, rest)) = take_int(bytes, 4) {
        if family == 0 && rest.len() >= 4 {
            lemma_bytes_of_take_int(rest.skip(4), 2);
            if let Some((port, end)) = take_int(rest.skip(4), 2) {
                assert(octets4(rest)@ =~= rest.take(4));
                assert(rest =~= rest.take(4) + rest.skip(4));
                assert(bytes =~= le_bytes(0, 4) + rest.take(4) + le_bytes(port, 2) + end);
            }
        } else if family == 1 && rest.len() >= 16 {
            lemma_bytes_of_take_int(rest.skip(16), 2);
            if let Some((port, end)) = take_int(rest.skip(16), 2) {
                assert(octets16(rest)@ =~= rest.take(16));
                assert(rest =~= rest.take(16) + rest.skip(16));
                assert(bytes =~= le_bytes(1, 4) + rest.take(16) + le_bytes(port, 2) + end);
            }
        }
    }
}

} // verus!
