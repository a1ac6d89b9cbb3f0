//! Passing values across the boundary to the caller.
//!
//! The caller hands in a region of memory and a length, and gets results
//! through places that it names. A place may be left out; nothing is written
//! then. A buffer that this layer hands out stays with the caller until the
//! caller gives it back through `free_ptr`.
//!
//! A region is a slice here, a place that may be left out is an optional
//! mutable reference, and a pointer variable of the caller is an optional
//! vector: `None` for the null pointer.

use vstd::prelude::*;
use vstd::slice::slice_subrange;
use vstd::slice::slice_to_vec;
use vstd::string::StrSliceExecFns;
use vstd::string::StringExecFns;
use vstd::utf8::decode_utf8;
use vstd::utf8::encode_utf8;
use vstd::utf8::valid_utf8;

verus! {

/// What `String::from_utf8_lossy` makes of bytes that are not valid UTF-8.
pub uninterp spec fn utf8_repaired(bytes: Seq<u8>) -> Seq<char>;

/// The text that a region of bytes is read as. Valid UTF-8 is read as it
/// stands; in other bytes, what cannot be read is replaced.
pub open spec fn lossy_text(bytes: Seq<u8>) -> Seq<char> {
    if valid_utf8(bytes) {
        decode_utf8(bytes)
    } else {
        utf8_repaired(bytes)
    }
}

/// The bytes that a `(region, length)` pair denotes: the first `length` bytes
/// of the region.
pub open spec fn denoted(region: Seq<u8>, length: u32) -> Seq<u8> {
    region.subrange(0, length as int)
}

/// The length that is reported for a buffer of `len` bytes or elements.
pub open spec fn reported_length(len: nat) -> u32 {
    len as u32
}

/// The bytes of a list of texts in one buffer: the texts in their order, a
/// comma between each two.
pub open spec fn comma_joined(texts: Seq<String>) -> Seq<char>
    decreases texts.len(),
{
    if texts.len() == 0 {
        Seq::empty()
    } else if texts.len() == 1 {
        texts[0]@
    } else {
        comma_joined(texts.drop_last()) + ","@ + texts.last()@
    }
}

/// `String::from_utf8_lossy` reads valid UTF-8 as the text that it encodes. Of
/// other bytes it makes a text of its own, which the contract only names.
#[verifier::external_body]
fn decode_lossy(bytes: &[u8]) -> (text: String)
    ensures
        valid_utf8(bytes@) ==> text@ == decode_utf8(bytes@),
        !valid_utf8(bytes@) ==> text@ == utf8_repaired(bytes@),
{
    String::from_utf8_lossy(bytes).into_owned()
}

/// Writes `val` to the place `ptr`, unless the place is left out.
pub fn set_u32_ptr(ptr: Option<&mut u32>, val: u32)
    ensures
        ptr is Some ==> *final(ptr->0) == val,
{
    match ptr {
        Some(place) => {
            *place = val;
        },
        None => {},
    }
}

/// Writes `val` to the place `ptr`, unless the place is left out.
pub fn set_i32_ptr(ptr: Option<&mut i32>, val: i32)
    ensures
        ptr is Some ==> *final(ptr->0) == val,
{
    match ptr {
        Some(place) => {
            *place = val;
        },
        None => {},
    }
}

/// Writes `val` to the place `ptr`, unless the place is left out.
pub fn set_i16_ptr(ptr: Option<&mut i16>, val: i16)
    ensures
        ptr is Some ==> *final(ptr->0) == val,
{
    match ptr {
        Some(place) => {
            *place = val;
        },
        None => {},
    }
}

/// Writes `val` to the place `ptr`, unless the place is left out.
pub fn set_i64_ptr(ptr: Option<&mut i64>, val: i64)
    ensures
        ptr is Some ==> *final(ptr->0) == val,
{
    match ptr {
        Some(place) => {
            *place = val;
        },
        None => {},
    }
}

/// Writes `val` to the place `ptr`, unless the place is left out.
pub fn set_u64_ptr(ptr: Option<&mut u64>, val: u64)
    ensures
        ptr is Some ==> *final(ptr->0) == val,
{
    match ptr {
        Some(place) => {
            *place = val;
        },
        None => {},
    }
}

/// Reads the text in the first `cstr_length` bytes of a region. The region
/// need not end in a zero byte and need not be valid UTF-8.
pub fn from_cstr(cstr: &[u8], cstr_length: u32) -> (text: String)
    requires
        cstr_length <= cstr@.len(),
    ensures
        text@ == lossy_text(denoted(cstr@, cstr_length)),
{
    decode_lossy(slice_subrange(cstr, 0, cstr_length as usize))
}

/// Reads the text in the first `cstr_length` bytes of a region, or nothing
/// where no region is given.
pub fn try_from_cstr(cstr: Option<&[u8]>, cstr_length: u32) -> (text: Option<String>)
    requires
        cstr is Some ==> cstr_length <= cstr->0@.len(),
    ensures
        match cstr {
            Some(region) => text is Some && text->0@ == lossy_text(denoted(region@, cstr_length)),
            None => text is None,
        },
{
    match cstr {
        Some(region) => Some(from_cstr(region, cstr_length)),
        None => None,
    }
}

/// Reads the text in the first `cstr_length` bytes of a region, or `default`
/// where no region is given.
pub fn from_cstr_or_default(cstr: Option<&[u8]>, cstr_length: u32, default: &str) -> (text: String)
    requires
        cstr is Some ==> cstr_length <= cstr->0@.len(),
    ensures
        text@ == match cstr {
            Some(region) => lossy_text(denoted(region@, cstr_length)),
            None => default@,
        },
{
    match cstr {
        Some(region) => from_cstr(region, cstr_length),
        None => String::from_str(default),
    }
}

/// The first `cba_length` bytes of a region.
pub fn from_cba<'a>(cba: &'a [u8], cba_length: u32) -> (bytes: &'a [u8])
    requires
        cba_length <= cba@.len(),
    ensures
        bytes@ == denoted(cba@, cba_length),
{
    slice_subrange(cba, 0, cba_length as usize)
}

/// Hands the caller a new buffer with a copy of `val`, unless the place for
/// it is left out.
pub fn set_byte_buf(ptr: Option<&mut Option<Vec<u8>>>, val: &[u8])
    ensures
        ptr is Some ==> (*final(ptr->0)) is Some && (*final(ptr->0))->0@ == val@,
{
    match ptr {
        Some(place) => {
            *place = Some(slice_to_vec(val));
        },
        None => {},
    }
}

/// Hands the caller a new buffer with the bytes of `val` and reports their
/// number, unless the place for the buffer is left out. Without a place for
/// the buffer, no length is reported either.
pub fn set_cstr(ptr: Option<&mut Option<Vec<u8>>>, cstr_len: Option<&mut u32>, val: String)
    ensures
        ptr is Some ==> (*final(ptr->0)) is Some && (*final(ptr->0))->0@ == encode_utf8(val@),
        ptr is Some && cstr_len is Some ==> *final(cstr_len->0) == reported_length(
            encode_utf8(val@).len(),
        ),
        ptr is None && cstr_len is Some ==> *final(cstr_len->0) == *(cstr_len->0),
{
    set_cstr_from_str(ptr, cstr_len, val.as_str());
}

/// Hands the caller a new buffer with the bytes of `val` and reports their
/// number, unless the place for the buffer is left out. Without a place for
/// the buffer, no length is reported either.
pub fn set_cstr_from_str(ptr: Option<&mut Option<Vec<u8>>>, cstr_len: Option<&mut u32>, val: &str)
    ensures
        ptr is Some ==> (*final(ptr->0)) is Some && (*final(ptr->0))->0@ == encode_utf8(val@),
        ptr is Some && cstr_len is Some ==> *final(cstr_len->0) == reported_length(
            encode_utf8(val@).len(),
        ),
        ptr is None && cstr_len is Some ==> *final(cstr_len->0) == *(cstr_len->0),
{
    match ptr {
        Some(place) => {
            let bytes = val.as_bytes_vec();
            let length = bytes.len() as u32;
            *place = Some(bytes);
            set_u32_ptr(cstr_len, length);
        },
        None => {},
    }
}

/// Joins texts into one, a comma between each two.
pub fn join_with_commas(val: &[String]) -> (joined: String)
    ensures
        joined@ == comma_joined(val@),
{
    let mut joined = String::new();
    let mut i: usize = 0;
    while i < val.len()
        invariant
            i <= val@.len(),
            joined@ == comma_joined(val@.take(i as int)),
        decreases val@.len() - i,
    {
        proof {
            let next = val@.take(i + 1);
            assert(next.drop_last() == val@.take(i as int));
            assert(next.last() == val@[i as int]);
            if i == 0 {
                assert(next[0] == val@[0]);
                assert(Seq::<char>::empty() + val@[0]@ == val@[0]@);
            }
        }
        if i > 0 {
            joined.append(",");
        }
        joined.append(val[i].as_str());
        i = i + 1;
    }
    assert(val@.take(i as int) == val@);
    joined
}

/// Hands the caller one new buffer with all the texts of `val`, a comma
/// between each two, and reports the number of its bytes, unless the place
/// for the buffer is left out.
pub fn set_cstr_array(ptr: Option<&mut Option<Vec<u8>>>, cstr_len: Option<&mut u32>, val: &[String])
    ensures
        ptr is Some ==> (*final(ptr->0)) is Some && (*final(ptr->0))->0@ == encode_utf8(
            comma_joined(val@),
        ),
        ptr is Some && cstr_len is Some ==> *final(cstr_len->0) == reported_length(
            encode_utf8(comma_joined(val@)).len(),
        ),
        ptr is None && cstr_len is Some ==> *final(cstr_len->0) == *(cstr_len->0),
{
    match ptr {
        Some(place) => {
            let joined = join_with_commas(val);
            set_cstr_from_str(Some(place), cstr_len, joined.as_str());
        },
        None => {},
    }
}

/// Hands the caller a new buffer with a copy of the numbers of `val`, unless
/// the place for it is left out.
pub fn set_u32_buf(ptr: Option<&mut Option<Vec<u32>>>, val: &[u32])
    ensures
        ptr is Some ==> (*final(ptr->0)) is Some && (*final(ptr->0))->0@ == val@,
{
    match ptr {
        Some(place) => {
            *place = Some(slice_to_vec(val));
        },
        None => {},
    }
}

/// Takes back a buffer that this layer handed out and sets the caller's
/// pointer to null. A pointer that is null already stays null.
pub fn free_ptr<T>(ptr: &mut Option<Vec<T>>)
    ensures
        *final(ptr) is None,
{
    *ptr = None;
}

/// Bytes that were handed out with their length are read back as they were,
/// where their number fits the 32 bits of a length.
pub proof fn lemma_bytes_round_trip(val: Seq<u8>)
    requires
        val.len() <= u32::MAX,
    ensures
        denoted(val, reported_length(val.len())) == val,
{
}

/// A text that was handed out with its length is read back as it was, where
/// the number of its bytes fits the 32 bits of a length.
pub proof fn lemma_text_round_trip(text: Seq<char>)
    requires
        encode_utf8(text).len() <= u32::MAX,
    ensures
        lossy_text(denoted(encode_utf8(text), reported_length(encode_utf8(text).len()))) == text,
{
    lemma_bytes_round_trip(encode_utf8(text));
    vstd::utf8::encode_utf8_valid_utf8(text);
    vstd::utf8::encode_utf8_decode_utf8(text);
}

} // verus!
