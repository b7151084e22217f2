use vstd::prelude::*;
use vstd::utf8::encode_utf8;
use crate::aggregate::{error_text, Error};
use crate::scratch::EventsScratch;
use crate::store::{from_version_filter, select_from_version, stored_views, StoredEvent, StoredView};

verus! {

/// The lowest `width` bytes of `n`, least significant first.
pub open spec fn le_bytes(n: nat, width: nat) -> Seq<u8>
    decreases width,
{
    if width == 0 {
        Seq::empty()
    } else {
        seq![(n % 256) as u8] + le_bytes(n / 256, (width - 1) as nat)
    }
}

/// An unsigned length written as eight little-endian bytes.
pub open spec fn fixed_len(n: nat) -> Seq<u8> {
    le_bytes(n, 8)
}

/// A signed 64-bit integer written as eight little-endian two's-complement
/// bytes.
pub open spec fn fixed_i64(v: int) -> Seq<u8> {
    if v < 0 {
        le_bytes((v + 0x1_0000_0000_0000_0000) as nat, 8)
    } else {
        le_bytes(v as nat, 8)
    }
}

/// A text: its UTF-8 length, then its UTF-8 bytes.
pub open spec fn text_bytes(s: Seq<char>) -> Seq<u8> {
    fixed_len(encode_utf8(s).len()) + encode_utf8(s)
}

/// A byte string: its length, then its bytes.
pub open spec fn blob_bytes(b: Seq<u8>) -> Seq<u8> {
    fixed_len(b.len()) + b
}

/// One stored event: version, type, body.
pub open spec fn row_bytes(r: StoredView) -> Seq<u8> {
    fixed_i64(r.version) + text_bytes(r.event_type) + blob_bytes(r.body)
}

/// The rows one after another, with nothing between them.
pub open spec fn rows_body(rows: Seq<StoredView>) -> Seq<u8>
    decreases rows.len(),
{
    if rows.len() == 0 {
        Seq::empty()
    } else {
        row_bytes(rows[0]) + rows_body(rows.drop_first())
    }
}

/// A list of stored events: the count, then each row.
pub open spec fn rows_bytes(rows: Seq<StoredView>) -> Seq<u8> {
    fixed_len(rows.len()) + rows_body(rows)
}

/// Declares bincode's error kind, the error of its serializer.
#[verifier::external_type_specification]
#[verifier::external_body]
pub struct ExBincodeErrorKind(bincode::ErrorKind);

/// Relies on `bincode::serialize` with its default options (fixed-width
/// little-endian integers, no size limit): a string is written as its UTF-8
/// length in eight bytes and then its UTF-8 bytes; with no limit, writing
/// into a `Vec` does not fail.
#[verifier::external_body]
fn serialize_text(s: &str) -> (r: Result<Vec<u8>, Box<bincode::ErrorKind>>)
    ensures
        r is Ok,
        r matches Ok(b) ==> b@ == text_bytes(s@),
{
    bincode::serialize(s)
}

/// Relies on `bincode::serialize` with its default options: a sequence is
/// written as its length in eight bytes and then its elements; a tuple as its
/// fields in order; an `i64` as eight little-endian bytes; a string and a
/// byte slice as their length and then their bytes. With no size limit,
/// writing into a `Vec` does not fail.
#[verifier::external_body]
fn serialize_rows(rows: &Vec<StoredEvent>) -> (r: Result<Vec<u8>, Box<bincode::ErrorKind>>)
    ensures
        r is Ok,
        r matches Ok(b) ==> b@ == rows_bytes(stored_views(rows@)),
{
    let fields: Vec<(i64, &str, &[u8])> = rows.iter().map(
        |e| (e.version, e.event_type.as_str(), e.body.as_slice()),
    ).collect();
    bincode::serialize(&fields)
}

/// Stages the text of a domain error for the guest to read.
pub fn stage_error(e: &Error) -> (r: EventsScratch)
    ensures
        r.read_ptr == 0,
        r.buffer@ == text_bytes(error_text(*e)),
{
    let text = e.message();
    let bytes = match serialize_text(text.as_str()) {
        Ok(b) => b,
        Err(_) => {
            proof {
                assert(false);
            }
            Vec::new()
        },
    };
    EventsScratch::new(bytes)
}

/// Stages, for the guest to read, the rows of a stream that a read from
/// `from_version` returns.
pub fn stage_events(rows: &Vec<StoredEvent>, from_version: i64) -> (r: EventsScratch)
    ensures
        r.read_ptr == 0,
        r.buffer@ == rows_bytes(from_version_filter(stored_views(rows@), from_version as int)),
{
    let selected = select_from_version(rows, from_version);
    let bytes = match serialize_rows(&selected) {
        Ok(b) => b,
        Err(_) => {
            proof {
                assert(false);
            }
            Vec::new()
        },
    };
    EventsScratch::new(bytes)
}

} // verus!
