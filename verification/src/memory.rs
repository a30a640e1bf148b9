//! The memory layout in which the guest hands a result string to the host.
//!
//! A result is published as three leaked allocations:
//! - the string's bytes;
//! - a descriptor of three `i32` words: the address of the bytes, the string
//!   type tag and the byte length;
//! - a nine-byte header: a status byte (`0` for success, `1` for failure),
//!   the little-endian address of the descriptor, and the little-endian
//!   number of descriptors that follow (always one).
use std::mem::ManuallyDrop;
use vstd::bytes::*;
use vstd::prelude::*;
use vstd::utf8::{encode_utf8, encode_utf8_decode_utf8};

verus! {

/// Type tag that marks a descriptor entry as a string.
pub const STRING_TYPE_TAG: i32 = 31;

/// Number of descriptors that a header announces.
pub const DESCRIPTOR_COUNT: u32 = 1;

/// Status byte of a result: `0` for success, `1` for failure.
pub open spec fn status_byte(ok: bool) -> u8 {
    if ok {
        0
    } else {
        1
    }
}

/// The descriptor of a string stored at `value_addr` whose UTF-8 form is
/// `value_len` bytes long; the length is truncated to 32 bits as on wasm32.
pub open spec fn descriptor_words(value_addr: i32, value_len: usize) -> Seq<i32> {
    seq![value_addr, STRING_TYPE_TAG, value_len as i32]
}

/// The nine header bytes that point the host at a descriptor.
pub open spec fn header_bytes(ok: bool, descriptor_addr: i32) -> Seq<u8> {
    seq![status_byte(ok)] + spec_u32_to_le_bytes(descriptor_addr as u32) + spec_u32_to_le_bytes(
        DESCRIPTOR_COUNT,
    )
}

/// Builds the descriptor of a string stored at `value_addr` with `value_len` bytes.
pub fn result_descriptor(value_addr: i32, value_len: usize) -> (words: Vec<i32>)
    ensures
        words@ == descriptor_words(value_addr, value_len),
        words@.len() == 3,
        words@[0] == value_addr,
        words@[1] == 31,
        words@[2] as u32 as int == value_len as int % 0x1_0000_0000,
{
    proof {
        lemma_descriptor_fields(value_addr, value_len);
    }
    let mut words: Vec<i32> = Vec::with_capacity(3);
    words.push(value_addr);
    words.push(STRING_TYPE_TAG);
    words.push(value_len as i32);
    words
}

/// Builds the header that reports `ok` and points at the descriptor stored at
/// `descriptor_addr`.
pub fn result_header(ok: bool, descriptor_addr: i32) -> (bytes: Vec<u8>)
    ensures
        bytes@ == header_bytes(ok, descriptor_addr),
        bytes@.len() == 9,
{
    let mut bytes: Vec<u8> = Vec::with_capacity(9);
    bytes.push(if ok { 0u8 } else { 1u8 });
    let mut addr_bytes = u32_to_le_bytes(descriptor_addr as u32);
    bytes.append(&mut addr_bytes);
    let mut count_bytes = u32_to_le_bytes(DESCRIPTOR_COUNT);
    bytes.append(&mut count_bytes);
    bytes
}

/// A descriptor holds the string's address, the tag 31, and the byte length
/// as an unsigned 32-bit number: the length itself below 2^32, and below
/// 2^31 also as a signed word.
pub proof fn lemma_descriptor_fields(value_addr: i32, value_len: usize)
    ensures
        descriptor_words(value_addr, value_len).len() == 3,
        descriptor_words(value_addr, value_len)[0] == value_addr,
        descriptor_words(value_addr, value_len)[1] == 31,
        descriptor_words(value_addr, value_len)[2] as u32 as int == value_len as int % 0x1_0000_0000,
        value_len < 0x8000_0000 ==> descriptor_words(value_addr, value_len)[2] == value_len,
{
    let w = descriptor_words(value_addr, value_len)[2];
    assert(w == value_len as i32);
    assert((value_len as i32) as u32 == (value_len as u64 % 0x1_0000_0000u64) as u32) by (bit_vector);
    assert(value_len < 0x8000_0000 ==> (value_len as i32) as int == value_len as int) by (bit_vector);
}

/// The header gives back what was put into it: the status byte tells success
/// from failure, bytes 1..5 read back as the descriptor's address and bytes
/// 5..9 as a count of one descriptor.
pub proof fn lemma_result_header_round_trip(ok: bool, descriptor_addr: i32)
    ensures
        header_bytes(ok, descriptor_addr).len() == 9,
        (header_bytes(ok, descriptor_addr)[0] == 0) == ok,
        spec_u32_from_le_bytes(header_bytes(ok, descriptor_addr).subrange(1, 5)) as i32
            == descriptor_addr,
        spec_u32_from_le_bytes(header_bytes(ok, descriptor_addr).subrange(5, 9))
            == DESCRIPTOR_COUNT,
{
    lemma_auto_spec_u32_to_from_le_bytes();
    let h = header_bytes(ok, descriptor_addr);
    assert(h.subrange(1, 5) =~= spec_u32_to_le_bytes(descriptor_addr as u32));
    assert(h.subrange(5, 9) =~= spec_u32_to_le_bytes(DESCRIPTOR_COUNT));
    assert((descriptor_addr as u32) as i32 == descriptor_addr) by (bit_vector);
}

/// Address of the bytes of a string that will not be freed
/// (`String::as_ptr`), truncated to 32 bits. The address depends on the
/// allocator, so nothing is stated of it.
#[verifier::external_body]
fn kept_string_addr(kept: &ManuallyDrop<String>) -> i32 {
    kept.as_ptr() as i32
}

/// Address of the elements of a vector of words that will not be freed
/// (`Vec::as_ptr`), truncated to 32 bits. The address depends on the
/// allocator, so nothing is stated of it.
#[verifier::external_body]
fn kept_words_addr(kept: &ManuallyDrop<Vec<i32>>) -> i32 {
    kept.as_ptr() as i32
}

/// Address of the elements of a vector of bytes that will not be freed
/// (`Vec::as_ptr`), truncated to 32 bits. The address depends on the
/// allocator, so nothing is stated of it.
#[verifier::external_body]
fn kept_bytes_addr(kept: &ManuallyDrop<Vec<u8>>) -> i32 {
    kept.as_ptr() as i32
}

/// What `host_result` hands to the host: each piece it leaves in memory and
/// the address at which it left it.
pub struct PublishedResult {
    /// Address of the string's UTF-8 bytes.
    pub value_addr: i32,
    /// The string's UTF-8 bytes.
    pub payload: Seq<u8>,
    /// Address of the descriptor.
    pub descriptor_addr: i32,
    /// The descriptor's words.
    pub descriptor: Seq<i32>,
    /// Address of the header.
    pub header_addr: i32,
    /// The header's bytes.
    pub header: Seq<u8>,
}

/// Publishes `value` for the host and returns the address of its header,
/// with a ghost record of what was left at which address.
///
/// The string's UTF-8 bytes, its descriptor (`result_descriptor`, holding
/// the bytes' address and their count) and its header (`result_header`,
/// holding `ok` and the descriptor's address) are put in `ManuallyDrop` in
/// that order, so that they outlive the call.
/// Which addresses the allocator hands out is not known here; the record
/// states what each address was handed.
pub fn host_result(ok: bool, value: String) -> (r: (i32, Ghost<PublishedResult>))
    ensures
        r.1@.header_addr == r.0,
        r.1@.payload == encode_utf8(value@),
        r.1@.descriptor == descriptor_words(r.1@.value_addr, encode_utf8(value@).len() as usize),
        r.1@.header == header_bytes(ok, r.1@.descriptor_addr),
        r.1@.header.len() == 9,
        (r.1@.header[0] == 0) == ok,
        spec_u32_from_le_bytes(r.1@.header.subrange(1, 5)) as i32 == r.1@.descriptor_addr,
        spec_u32_from_le_bytes(r.1@.header.subrange(5, 9)) == 1,
        r.1@.descriptor.len() == 3,
        r.1@.descriptor[0] == r.1@.value_addr,
        r.1@.descriptor[1] == 31,
        r.1@.descriptor[2] as u32 as int == (encode_utf8(value@).len() as usize) as int % 0x1_0000_0000,
{
    let ghost payload = encode_utf8(value@);
    let value_len: usize = value.as_str().len();
    let kept_value = ManuallyDrop::new(value);
    let value_addr: i32 = kept_string_addr(&kept_value);
    let descriptor = result_descriptor(value_addr, value_len);
    let ghost descriptor_seq = descriptor@;
    let kept_descriptor = ManuallyDrop::new(descriptor);
    let descriptor_addr: i32 = kept_words_addr(&kept_descriptor);
    let header = result_header(ok, descriptor_addr);
    let ghost header_seq = header@;
    let kept_header = ManuallyDrop::new(header);
    let header_addr: i32 = kept_bytes_addr(&kept_header);
    proof {
        lemma_result_header_round_trip(ok, descriptor_addr);
        lemma_descriptor_fields(value_addr, value_len);
    }
    (
        header_addr,
        Ghost(
            PublishedResult {
                value_addr,
                payload,
                descriptor_addr,
                descriptor: descriptor_seq,
                header_addr,
                header: header_seq,
            },
        ),
    )
}

/// Two published records agree on every field that is not an address (the
/// status byte, the count, the tag, the length and the payload bytes)
/// exactly when they were published for the same status and the same
/// string.
pub proof fn lemma_records_agree_iff_inputs_agree(
    ok1: bool,
    value1: Seq<char>,
    ok2: bool,
    value2: Seq<char>,
    descriptor_addr1: i32,
    descriptor_addr2: i32,
    value_addr1: i32,
    value_addr2: i32,
)
    ensures
        ({
            let h1 = header_bytes(ok1, descriptor_addr1);
            let h2 = header_bytes(ok2, descriptor_addr2);
            let d1 = descriptor_words(value_addr1, encode_utf8(value1).len() as usize);
            let d2 = descriptor_words(value_addr2, encode_utf8(value2).len() as usize);
            (h1[0] == h2[0] && h1.subrange(5, 9) == h2.subrange(5, 9) && d1[1] == d2[1] && d1[2]
                == d2[2] && encode_utf8(value1) == encode_utf8(value2)) <==> (ok1 == ok2 && value1
                == value2)
        }),
{
    let h1 = header_bytes(ok1, descriptor_addr1);
    let h2 = header_bytes(ok2, descriptor_addr2);
    lemma_auto_spec_u32_to_from_le_bytes();
    assert(h1.subrange(5, 9) =~= spec_u32_to_le_bytes(DESCRIPTOR_COUNT));
    assert(h2.subrange(5, 9) =~= spec_u32_to_le_bytes(DESCRIPTOR_COUNT));
    encode_utf8_decode_utf8(value1);
    encode_utf8_decode_utf8(value2);
}

} // verus!
