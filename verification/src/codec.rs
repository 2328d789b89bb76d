//! Single values to bytes and back, through bincode.
//!
//! The functions named `serialize_*` and `deserialize_*` hold the calls into
//! bincode and are trusted. The functions `put_*` and `take_*` are built on
//! them: the first append a value to a buffer, the second read one off the
//! front of a slice.
//!
//! No contract speaks of memory that cannot be had: like everything that fills
//! a `Vec`, the functions here end the program if it is missing.
use vstd::prelude::*;
use vstd::slice::slice_subrange;
use vstd::utf8::*;

use crate::addr::SocketAddr;
use crate::wire;

verus! {

/// Calls `bincode::serialize` on a `u16`: it succeeds, with two bytes in
/// little-endian order.
#[verifier::external_body]
fn serialize_u16(value: u16) -> (bytes: Result<Vec<u8>, bincode::Error>)
    ensures
        bytes is Ok,
        bytes->Ok_0@ == wire::le_bytes(value as nat, 2),
{
    bincode::serialize(&value)
}

/// Calls `bincode::serialize` on a `u32`: it succeeds, with four bytes in
/// little-endian order.
#[verifier::external_body]
fn serialize_u32(value: u32) -> (bytes: Result<Vec<u8>, bincode::Error>)
    ensures
        bytes is Ok,
        bytes->Ok_0@ == wire::le_bytes(value as nat, 4),
{
    bincode::serialize(&value)
}

/// Calls `bincode::serialize` on a `u64`: it succeeds, with eight bytes in
/// little-endian order.
#[verifier::external_body]
fn serialize_u64(value: u64) -> (bytes: Result<Vec<u8>, bincode::Error>)
    ensures
        bytes is Ok,
        bytes->Ok_0@ == wire::le_bytes(value as nat, 8),
{
    bincode::serialize(&value)
}

/// Calls `bincode::serialize` on a `str`: it succeeds, with the UTF-8 bytes
/// behind their number, which takes eight bytes.
#[verifier::external_body]
fn serialize_str(value: &str) -> (bytes: Result<Vec<u8>, bincode::Error>)
    ensures
        bytes is Ok,
        bytes->Ok_0@ == wire::wire_text(value@),
{
    bincode::serialize(value)
}

/// Calls `bincode::serialize` on a slice of bytes: it succeeds, with the bytes
/// behind their number, which takes eight bytes.
#[verifier::external_body]
fn serialize_bytes(value: &[u8]) -> (bytes: Result<Vec<u8>, bincode::Error>)
    ensures
        bytes is Ok,
        bytes->Ok_0@ == wire::wire_bytes(value@),
{
    bincode::serialize(value)
}

/// Calls `bincode::deserialize` for a `u16`: it reads the first two bytes in
/// little-endian order, ignores what follows them, and fails exactly if there
/// are fewer.
#[verifier::external_body]
fn deserialize_u16(bytes: &[u8]) -> (value: Result<u16, bincode::Error>)
    ensures
        match value {
            Ok(v) => bytes@.len() >= 2 && v == wire::le_value(bytes@.take(2)),
            Err(_) => bytes@.len() < 2,
        },
{
    bincode::deserialize(bytes)
}

/// Calls `bincode::deserialize` for a `u32`: it reads the first four bytes in
/// little-endian order, ignores what follows them, and fails exactly if there
/// are fewer.
#[verifier::external_body]
fn deserialize_u32(bytes: &[u8]) -> (value: Result<u32, bincode::Error>)
    ensures
        match value {
            Ok(v) => bytes@.len() >= 4 && v == wire::le_value(bytes@.take(4)),
            Err(_) => bytes@.len() < 4,
        },
{
    bincode::deserialize(bytes)
}

/// Calls `bincode::deserialize` for a `u64`: it reads the first eight bytes in
/// little-endian order, ignores what follows them, and fails exactly if there
/// are fewer.
#[verifier::external_body]
fn deserialize_u64(bytes: &[u8]) -> (value: Result<u64, bincode::Error>)
    ensures
        match value {
            Ok(v) => bytes@.len() >= 8 && v == wire::le_value(bytes@.take(8)),
            Err(_) => bytes@.len() < 8,
        },
{
    bincode::deserialize(bytes)
}

/// Calls `bincode::deserialize` for a `String`: it reads a number of eight
/// bytes and then that many bytes, which are the text in UTF-8, and ignores
/// what follows them. It fails exactly if bytes are missing or are not UTF-8.
#[verifier::external_body]
fn deserialize_string(bytes: &[u8]) -> (value: Result<String, bincode::Error>)
    ensures
        match value {
            Ok(v) => wire::take_bytes(bytes@) matches Some((data, _)) && valid_utf8(data) && v@
                == decode_utf8(data),
            Err(_) => wire::take_bytes(bytes@) matches Some((data, _)) ==> !valid_utf8(data),
        },
{
    bincode::deserialize(bytes)
}

/// Calls `bincode::deserialize` for a vector of bytes: it reads a number of
/// eight bytes and then that many bytes, and ignores what follows them. It
/// fails exactly if bytes are missing.
#[verifier::external_body]
fn deserialize_byte_vec(bytes: &[u8]) -> (value: Result<Vec<u8>, bincode::Error>)
    ensures
        match value {
            Ok(v) => wire::take_bytes(bytes@) matches Some((data, _)) && v@ == data,
            Err(_) => wire::take_bytes(bytes@) is None,
        },
{
    bincode::deserialize(bytes)
}

/// Calls `bincode::deserialize` for four octets: it reads the first four bytes
/// as they stand, ignores what follows them, and fails exactly if there are
/// fewer.
#[verifier::external_body]
fn deserialize_octets4(bytes: &[u8]) -> (value: Result<[u8; 4], bincode::Error>)
    ensures
        match value {
            Ok(v) => bytes@.len() >= 4 && v@ == bytes@.take(4),
            Err(_) => bytes@.len() < 4,
        },
{
    bincode::deserialize(bytes)
}

/// Calls `bincode::deserialize` for sixteen octets: it reads the first sixteen
/// bytes as they stand, ignores what follows them, and fails exactly if there
/// are fewer.
#[verifier::external_body]
fn deserialize_octets16(bytes: &[u8]) -> (value: Result<[u8; 16], bincode::Error>)
    ensures
        match value {
            Ok(v) => bytes@.len() >= 16 && v@ == bytes@.take(16),
            Err(_) => bytes@.len() < 16,
        },
{
    bincode::deserialize(bytes)
}

/// Calls `serde::de::Error::invalid_value` for a bincode error that says which
/// number was found where `expected` should stand. Nothing is claimed of the
/// error, which is opaque.
#[verifier::external_body]
pub(crate) fn invalid_number(found: u32, expected: &str) -> (error: bincode::Error) {
    serde::de::Error::invalid_value(serde::de::Unexpected::Unsigned(found as u64), &expected)
}

/// Appends a `u16`.
pub fn put_u16(out: &mut Vec<u8>, value: u16) -> (done: Result<(), bincode::Error>)
    ensures
        done is Ok,
        final(out)@ == old(out)@ + wire::le_bytes(value as nat, 2),
{
    let mut bytes = serialize_u16(value)?;
    out.append(&mut bytes);
    Ok(())
}

/// Appends a `u32`.
pub fn put_u32(out: &mut Vec<u8>, value: u32) -> (done: Result<(), bincode::Error>)
    ensures
        done is Ok,
        final(out)@ == old(out)@ + wire::le_bytes(value as nat, 4),
{
    let mut bytes = serialize_u32(value)?;
    out.append(&mut bytes);
    Ok(())
}

/// Appends a `u64`.
pub fn put_u64(out: &mut Vec<u8>, value: u64) -> (done: Result<(), bincode::Error>)
    ensures
        done is Ok,
        final(out)@ == old(out)@ + wire::le_bytes(value as nat, 8),
{
    let mut bytes = serialize_u64(value)?;
    out.append(&mut bytes);
    Ok(())
}

/// Appends a text.
pub fn put_text(out: &mut Vec<u8>, text: &str) -> (done: Result<(), bincode::Error>)
    ensures
        done is Ok,
        final(out)@ == old(out)@ + wire::wire_text(text@),
        wire::text_fits(text@),
{
    proof {
        wire::lemma_byte_ranges();
    }
    let length: usize = text.as_bytes().len();
    assert(length == encode_utf8(text@).len());
    let mut bytes = serialize_str(text)?;
    out.append(&mut bytes);
    Ok(())
}

/// Appends some bytes, led by their number.
pub fn put_bytes(out: &mut Vec<u8>, data: &[u8]) -> (done: Result<(), bincode::Error>)
    ensures
        done is Ok,
        final(out)@ == old(out)@ + wire::wire_bytes(data@),
        wire::fits(data@),
{
    proof {
        wire::lemma_byte_ranges();
    }
    let length: usize = data.len();
    assert(length == data@.len());
    let mut bytes = serialize_bytes(data)?;
    out.append(&mut bytes);
    Ok(())
}

/// Appends texts one behind the other.
pub fn put_texts(out: &mut Vec<u8>, texts: &Vec<String>) -> (done: Result<(), bincode::Error>)
    ensures
        done is Ok,
        final(out)@ == old(out)@ + wire::wire_texts(texts@.map_values(|text: String| text@)),
        wire::texts_fit(texts@.map_values(|text: String| text@)),
{
    let ghost all = texts@.map_values(|text: String| text@);
    let ghost start = out@;
    let mut i: usize = 0;
    assert(all.skip(0) =~= all);
    while i < texts.len()
        invariant
            i <= texts@.len(),
            all == texts@.map_values(|text: String| text@),
            out@ + wire::wire_texts(all.skip(i as int)) == start + wire::wire_texts(all),
            forall|j: int| 0 <= j < i ==> #[trigger] wire::text_fits(all[j]),
        decreases texts.len() - i,
    {
        let ghost before = out@;
        put_text(out, texts[i].as_str())?;
        proof {
            assert(all[i as int] == texts@[i as int]@);
            assert(all.skip(i as int).skip(1) =~= all.skip(i + 1));
            assert(out@ + wire::wire_texts(all.skip(i + 1)) =~= before + wire::wire_texts(
                all.skip(i as int),
            ));
        }
        i += 1;
    }
    assert(wire::wire_texts(all.skip(i as int)) =~= seq![]);
    assert(out@ =~= start + wire::wire_texts(all));
    Ok(())
}

/// Appends bytes as they stand.
fn put_octets(out: &mut Vec<u8>, octets: &[u8])
    ensures
        final(out)@ == old(out)@ + octets@,
{
    let ghost start = out@;
    let mut i: usize = 0;
    while i < octets.len()
        invariant
            i <= octets@.len(),
            out@ == start + octets@.take(i as int),
        decreases octets@.len() - i,
    {
        out.push(octets[i]);
        assert(octets@.take(i + 1) =~= octets@.take(i as int).push(octets@[i as int]));
        i += 1;
    }
    assert(octets@.take(i as int) =~= octets@);
}

/// Appends an address.
pub fn put_addr(out: &mut Vec<u8>, addr: SocketAddr) -> (done: Result<(), bincode::Error>)
    ensures
        done is Ok,
        final(out)@ == old(out)@ + wire::wire_addr(addr),
{
    proof {
        reveal(wire::wire_addr);
    }
    let ghost start = out@;
    match addr {
        SocketAddr::V4 { octets, port } => {
            put_u32(out, 0)?;
            put_octets(out, &octets);
            put_u16(out, port)?;
        },
        SocketAddr::V6 { octets, port, .. } => {
            put_u32(out, 1)?;
            put_octets(out, &octets);
            put_u16(out, port)?;
        },
    }
    assert(out@ =~= start + wire::wire_addr(addr));
    Ok(())
}

/// Reads a `u16` off the front.
pub fn take_u16<'a>(bytes: &'a [u8]) -> (taken: Result<(u16, &'a [u8]), bincode::Error>)
    ensures
        match taken {
            Ok((value, rest)) => wire::take_int(bytes@, 2) == Some((value as nat, rest@)),
            Err(_) => wire::take_int(bytes@, 2) is None,
        },
{
    let value: u16 = deserialize_u16(bytes)?;
    Ok((value, slice_subrange(bytes, 2, bytes.len())))
}

/// Reads a `u32` off the front.
pub fn take_u32<'a>(bytes: &'a [u8]) -> (taken: Result<(u32, &'a [u8]), bincode::Error>)
    ensures
        match taken {
            Ok((value, rest)) => wire::take_int(bytes@, 4) == Some((value as nat, rest@)),
            Err(_) => wire::take_int(bytes@, 4) is None,
        },
{
    let value: u32 = deserialize_u32(bytes)?;
    Ok((value, slice_subrange(bytes, 4, bytes.len())))
}

/// Reads a `u64` off the front.
pub fn take_u64<'a>(bytes: &'a [u8]) -> (taken: Result<(u64, &'a [u8]), bincode::Error>)
    ensures
        match taken {
            Ok((value, rest)) => wire::take_int(bytes@, 8) == Some((value as nat, rest@)),
            Err(_) => wire::take_int(bytes@, 8) is None,
        },
{
    let value: u64 = deserialize_u64(bytes)?;
    Ok((value, slice_subrange(bytes, 8, bytes.len())))
}

/// Reads a text off the front.
pub fn take_text<'a>(bytes: &'a [u8]) -> (taken: Result<(String, &'a [u8]), bincode::Error>)
    ensures
        match taken {
            Ok((text, rest)) => wire::take_text(bytes@) == Some((text@, rest@)),
            Err(_) => wire::take_text(bytes@) is None,
        },
{
    proof {
        reveal(wire::take_bytes);
        reveal(wire::take_text);
    }
    let text = deserialize_string(bytes)?;
    proof {
        if let Some((data, _)) = wire::take_bytes(bytes@) {
            decode_utf8_encode_utf8(data);
        }
    }
    let length: usize = text.as_str().as_bytes().len();
    let end: usize = bytes.len();
    let rest = slice_subrange(bytes, 8 + length, end);
    assert(rest@ =~= bytes@.skip(8).skip(length as int));
    Ok((text, rest))
}

/// Reads some bytes that are led by their number off the front.
pub fn take_bytes<'a>(bytes: &'a [u8]) -> (taken: Result<(Vec<u8>, &'a [u8]), bincode::Error>)
    ensures
        match taken {
            Ok((data, rest)) => wire::take_bytes(bytes@) == Some((data@, rest@)),
            Err(_) => wire::take_bytes(bytes@) is None,
        },
{
    proof {
        reveal(wire::take_bytes);
    }
    let data = deserialize_byte_vec(bytes)?;
    let end: usize = bytes.len();
    let rest = slice_subrange(bytes, 8 + data.len(), end);
    assert(rest@ =~= bytes@.skip(8).skip(data@.len() as int));
    Ok((data, rest))
}

/// Reads `count` texts off the front.
pub fn take_texts<'a>(bytes: &'a [u8], count: u64) -> (taken: Result<
    (Vec<String>, &'a [u8]),
    bincode::Error,
>)
    ensures
        match taken {
            Ok((texts, rest)) => wire::take_texts(bytes@, count as nat) == Some(
                (texts@.map_values(|text: String| text@), rest@),
            ),
            Err(_) => wire::take_texts(bytes@, count as nat) is None,
        },
{
    let mut texts: Vec<String> = Vec::new();
    let mut rest = bytes;
    let mut i: u64 = 0;
    let ghost whole = wire::take_texts(bytes@, count as nat);
    proof {
        if let Some((others, _)) = whole {
            assert(texts@.map_values(|text: String| text@) + others =~= others);
        }
    }
    while i < count
        invariant
            i <= count,
            whole == wire::take_texts(bytes@, count as nat),
            whole == match wire::take_texts(rest@, (count - i) as nat) {
                Some((others, end)) => Some(
                    (texts@.map_values(|text: String| text@) + others, end),
                ),
                None => None,
            },
        decreases count - i,
    {
        let ghost read = texts@.map_values(|text: String| text@);
        let (text, tail) = take_text(rest)?;
        proof {
            let now = texts@.push(text).map_values(|text: String| text@);
            assert(now =~= read.push(text@));
            if let Some((others, _)) = wire::take_texts(tail@, (count - i - 1) as nat) {
                assert(read + (seq![text@] + others) =~= now + others);
            }
        }
        texts.push(text);
        rest = tail;
        i += 1;
    }
    assert(texts@.map_values(|text: String| text@) + seq![] =~= texts@.map_values(
        |text: String| text@,
    ));
    Ok((texts, rest))
}

/// Reads an address off the front.
pub fn take_addr<'a>(bytes: &'a [u8]) -> (taken: Result<(SocketAddr, &'a [u8]), bincode::Error>)
    ensures
        match taken {
            Ok((addr, rest)) => wire::take_addr(bytes@) == Some((addr, rest@)),
            Err(_) => wire::take_addr(bytes@) is None,
        },
{
    proof {
        reveal(wire::take_addr);
    }
    let (family, rest) = take_u32(bytes)?;
    if family == 0 {
        let octets = deserialize_octets4(rest)?;
        let (port, end) = take_u16(slice_subrange(rest, 4, rest.len()))?;
        assert(octets@ =~= wire::octets4(rest@)@);
        assert(octets =~= wire::octets4(rest@));
        Ok((SocketAddr::V4 { octets, port }, end))
    } else if family == 1 {
        let octets = deserialize_octets16(rest)?;
        let (port, end) = take_u16(slice_subrange(rest, 16, rest.len()))?;
        assert(octets@ =~= wire::octets16(rest@)@);
        assert(octets =~= wire::octets16(rest@));
        Ok((SocketAddr::V6 { octets, port, flowinfo: 0, scope_id: 0 }, end))
    } else {
        Err(invalid_number(family, "`V4` or `V6`"))
    }
}

} // verus!
