//! The framing of messages in a buffer of received bytes.
//!
//! A message is a prefix of the buffer that ends where its braces balance.
//! The buffer is a `bytes::BytesMut`. What it holds is reached through the
//! three functions at the head of this file, whose contracts are assumed
//! and not proved; everything else is verified against them.

use bytes::Buf;
use bytes::BytesMut;
use std::str::Utf8Error;
use vstd::prelude::*;
use vstd::slice::slice_subrange;
use vstd::string::StringSliceAdditionalSpecFns;
use vstd::utf8::{decode_utf8, valid_utf8};

verus! {

/// The buffer type of the `bytes` crate: a growable run of bytes.
#[verifier::external_type_specification]
#[verifier::external_body]
pub struct ExBytesMut(BytesMut);

/// The error of `core::str::from_utf8`.
#[verifier::external_type_specification]
#[verifier::external_body]
pub struct ExUtf8Error(Utf8Error);

/// The bytes that a buffer holds, in order.
pub uninterp spec fn buffer_bytes(buffer: &BytesMut) -> Seq<u8>;

/// `<BytesMut as AsRef<[u8]>>::as_ref`: the bytes that the buffer holds, as
/// a slice. Nothing is proved of it; it is believed to return exactly the
/// contents of the buffer.
#[verifier::external_body]
fn contents(buffer: &BytesMut) -> (r: &[u8])
    ensures
        r@ == buffer_bytes(buffer),
{
    buffer.as_ref()
}

/// `<BytesMut as bytes::Buf>::advance`: drops the first `count` bytes of
/// the buffer and keeps the rest. The call panics when `count` exceeds the
/// length of the buffer, so that is excluded.
#[verifier::external_body]
fn advance_buffer(buffer: &mut BytesMut, count: usize)
    requires
        count <= buffer_bytes(old(buffer)).len(),
    ensures
        buffer_bytes(final(buffer)) == buffer_bytes(old(buffer)).skip(count as int),
{
    buffer.advance(count)
}

/// `core::str::from_utf8`: the bytes as text. It succeeds exactly on valid
/// UTF-8, and the text it returns is encoded by the very bytes it was given.
#[verifier::external_body]
fn utf8_text(bytes: &[u8]) -> (r: Result<&str, Utf8Error>)
    ensures
        r is Ok == valid_utf8(bytes@),
        r matches Ok(text) ==> text.spec_bytes() == bytes@,
{
    std::str::from_utf8(bytes)
}

/// The byte `{`.
pub const OPEN_BRACE: u8 = 123;

/// The byte `}`.
pub const CLOSE_BRACE: u8 = 125;

/// The byte of a line feed.
pub const NEW_LINE: u8 = 10;

/// The number of `{` less the number of `}` among the first `k` bytes.
pub open spec fn depth(bytes: Seq<u8>, k: int) -> int
    decreases k,
{
    if k <= 0 {
        0
    } else if bytes[k - 1] == OPEN_BRACE {
        depth(bytes, k - 1) + 1
    } else if bytes[k - 1] == CLOSE_BRACE {
        depth(bytes, k - 1) - 1
    } else {
        depth(bytes, k - 1)
    }
}

/// Whether the first `k` bytes end with a `}` that balances the braces
/// before it.
pub open spec fn closes_at(bytes: Seq<u8>, k: int) -> bool {
    0 < k <= bytes.len() && bytes[k - 1] == CLOSE_BRACE && depth(bytes, k) == 0
}

/// The least `j` up to `k` at which the braces close, or 0 if there is none.
pub open spec fn first_close(bytes: Seq<u8>, k: int) -> int
    decreases k,
{
    if k <= 0 {
        0
    } else {
        let before = first_close(bytes, k - 1);
        if before != 0 {
            before
        } else if closes_at(bytes, k) {
            k
        } else {
            0
        }
    }
}

/// The greatest `j` up to `k` at which the braces close, or 0 if there is
/// none.
pub open spec fn last_close(bytes: Seq<u8>, k: int) -> int
    decreases k,
{
    if k <= 0 {
        0
    } else if closes_at(bytes, k) {
        k
    } else {
        last_close(bytes, k - 1)
    }
}

/// Whether the braces of the bytes are paired: they close somewhere, or no
/// `{` is left open at the end.
pub open spec fn balanced(bytes: Seq<u8>) -> bool {
    first_close(bytes, bytes.len() as int) != 0 || depth(bytes, bytes.len() as int) <= 0
}

/// Whether the bytes hold a message: with a `{` among them, their braces
/// are paired; without one, a line has ended.
pub open spec fn is_ready(bytes: Seq<u8>) -> bool {
    if bytes.contains(OPEN_BRACE) {
        balanced(bytes)
    } else {
        bytes.contains(NEW_LINE)
    }
}

/// The length of the message at the head of the bytes: up to the first
/// close of the braces if the bytes start with `{`, else up to the last.
pub open spec fn message_length(bytes: Seq<u8>) -> int {
    if bytes[0] == OPEN_BRACE {
        first_close(bytes, bytes.len() as int)
    } else {
        last_close(bytes, bytes.len() as int)
    }
}

/// The depth after `k` bytes is between `-k` and `k`, and the closes up to
/// `k` are at most `k`.
pub proof fn lemma_brace_bounds(bytes: Seq<u8>, k: int)
    requires
        0 <= k,
    ensures
        -k <= depth(bytes, k) <= k,
        0 <= first_close(bytes, k) <= k,
        0 <= last_close(bytes, k) <= k,
    decreases k,
{
    if k > 0 {
        lemma_brace_bounds(bytes, k - 1);
    }
}

/// A message taken from a buffer.
#[derive(Debug, PartialEq)]
pub enum Message {
    /// The text of a document, and the number of bytes that it took.
    Document { content: String, byte_len: usize },
}

/// Why no message was taken.
#[derive(Debug)]
pub enum Error {
    /// The buffer does not hold a whole message yet.
    Incomplete(String),
    /// The bytes of the message are not text.
    System(Utf8Error),
}

/// What a pass over the braces of a buffer finds.
struct Braces {
    depth: i128,
    first: usize,
    last: usize,
}

/// Passes over the bytes once and counts their braces.
fn scan_braces(bytes: &[u8]) -> (r: Braces)
    ensures
        r.depth == depth(bytes@, bytes@.len() as int),
        r.first == first_close(bytes@, bytes@.len() as int),
        r.last == last_close(bytes@, bytes@.len() as int),
{
    let mut found = Braces { depth: 0, first: 0, last: 0 };
    let mut i: usize = 0;
    while i < bytes.len()
        invariant
            i <= bytes@.len(),
            found.depth == depth(bytes@, i as int),
            found.first == first_close(bytes@, i as int),
            found.last == last_close(bytes@, i as int),
        decreases bytes@.len() - i,
    {
        proof {
            lemma_brace_bounds(bytes@, i as int);
        }
        let b = bytes[i];
        if b == OPEN_BRACE {
            found.depth = found.depth + 1;
        } else if b == CLOSE_BRACE {
            found.depth = found.depth - 1;
            if found.depth == 0 {
                found.last = i + 1;
                if found.first == 0 {
                    found.first = i + 1;
                }
            }
        }
        i = i + 1;
    }
    found
}

/// Whether the byte is among the bytes.
fn has_byte(bytes: &[u8], byte: u8) -> (r: bool)
    ensures
        r == bytes@.contains(byte),
{
    let mut i: usize = 0;
    while i < bytes.len()
        invariant
            i <= bytes@.len(),
            forall|k: int| 0 <= k < i ==> bytes@[k] != byte,
        decreases bytes@.len() - i,
    {
        if bytes[i] == byte {
            return true;
        }
        i = i + 1;
    }
    false
}

/// The message of the error for bytes that hold no message yet.
pub open spec fn incomplete_message(bytes: Seq<u8>) -> Seq<char> {
    if bytes.contains(OPEN_BRACE) {
        "Unmatched braces. Message currently not ready"@
    } else {
        "Message currently not ready"@
    }
}

impl Message {
    /// Whether the buffer holds a message.
    pub fn ready(cursor: &BytesMut) -> (r: Result<(), Error>)
        ensures
            r is Ok == is_ready(buffer_bytes(cursor)),
            r matches Err(e) ==> e matches Error::Incomplete(m) && m@ == incomplete_message(
                buffer_bytes(cursor),
            ),
    {
        let bytes = contents(cursor);
        if has_byte(bytes, OPEN_BRACE) {
            Message::check_balanced_braces(cursor)
        } else if has_byte(bytes, NEW_LINE) {
            Ok(())
        } else {
            Err(Error::Incomplete(String::from_str("Message currently not ready")))
        }
    }

    /// Whether the braces in the buffer are paired.
    pub fn check_balanced_braces(cursor: &BytesMut) -> (r: Result<(), Error>)
        ensures
            r is Ok == balanced(buffer_bytes(cursor)),
            r matches Err(e) ==> e matches Error::Incomplete(m) && m@
                == "Unmatched braces. Message currently not ready"@,
    {
        let found = scan_braces(contents(cursor));
        if found.first == 0 && found.depth > 0 {
            Err(Error::Incomplete(String::from_str("Unmatched braces. Message currently not ready")))
        } else {
            Ok(())
        }
    }

    /// The message at the head of the buffer: the bytes up to the place
    /// where the braces close, as text. The buffer must not be empty.
    pub fn parse(cursor: &BytesMut) -> (r: Result<Message, Error>)
        requires
            buffer_bytes(cursor).len() > 0,
        ensures
            ({
                let bytes = buffer_bytes(cursor);
                let head = bytes.take(message_length(bytes));
                match r {
                    Ok(Message::Document { content, byte_len }) => {
                        &&& valid_utf8(head)
                        &&& byte_len == message_length(bytes)
                        &&& content@ == decode_utf8(head)
                    },
                    Err(Error::System(_)) => !valid_utf8(head),
                    Err(Error::Incomplete(_)) => false,
                }
            }),
    {
        let bytes = contents(cursor);
        let found = scan_braces(bytes);
        proof {
            lemma_brace_bounds(bytes@, bytes@.len() as int);
        }
        let end = if bytes[0] == OPEN_BRACE {
            found.first
        } else {
            found.last
        };
        let slice = slice_subrange(bytes, 0, end);
        match utf8_text(slice) {
            Ok(content) => {
                proof {
                    vstd::utf8::encode_utf8_decode_utf8(content@);
                }
                Ok(Message::Document { content: String::from_str(content), byte_len: end })
            },
            Err(e) => Err(Error::System(e)),
        }
    }
}

/// Takes the message at the head of the buffer, if the buffer holds one:
/// the message leaves the buffer and its text is returned. A buffer that
/// holds no message yet is left as it is, and so is one whose message is not
/// text, which is an error.
pub fn parse_message(buffer: &mut BytesMut) -> (r: Result<Option<String>, Error>)
    ensures
        ({
            let bytes = buffer_bytes(old(buffer));
            let length = message_length(bytes);
            if !is_ready(bytes) {
                r matches Ok(None) && buffer_bytes(final(buffer)) == bytes
            } else if valid_utf8(bytes.take(length)) {
                &&& r matches Ok(Some(content)) && content@ == decode_utf8(bytes.take(length))
                &&& buffer_bytes(final(buffer)) == bytes.skip(length)
            } else {
                r matches Err(Error::System(_)) && buffer_bytes(final(buffer)) == bytes
            }
        }),
{
    match Message::ready(buffer) {
        Ok(_) => {
            proof {
                lemma_brace_bounds(buffer_bytes(buffer), buffer_bytes(buffer).len() as int);
            }
            match Message::parse(buffer) {
                Ok(Message::Document { content, byte_len }) => {
                    advance_buffer(buffer, byte_len);
                    Ok(Some(content))
                },
                Err(Error::Incomplete(_)) => Ok(None),
                Err(Error::System(e)) => Err(Error::System(e)),
            }
        },
        Err(_) => Ok(None),
    }
}

/// What a connection does with its buffer before it reads.
#[derive(Debug)]
pub enum Step {
    /// Hand out the message; an empty message ends the conversation with
    /// nothing.
    Deliver(Option<String>),
    /// Read more bytes.
    Read,
}

/// Decides what to do before a read: a connection whose buffer holds a
/// message hands it out, and any other reads on.
pub fn before_read(buffer: &mut BytesMut) -> (r: Result<Step, Error>)
    ensures
        ({
            let bytes = buffer_bytes(old(buffer));
            let length = message_length(bytes);
            if !is_ready(bytes) {
                r matches Ok(Step::Read) && buffer_bytes(final(buffer)) == bytes
            } else if valid_utf8(bytes.take(length)) {
                &&& buffer_bytes(final(buffer)) == bytes.skip(length)
                &&& r matches Ok(Step::Deliver(message))
                &&& if decode_utf8(bytes.take(length)).len() == 0 {
                    message is None
                } else {
                    message matches Some(text) && text@ == decode_utf8(bytes.take(length))
                }
            } else {
                r matches Err(Error::System(_)) && buffer_bytes(final(buffer)) == bytes
            }
        }),
{
    match parse_message(buffer)? {
        Some(message) => {
            if message.as_str().is_empty() {
                Ok(Step::Deliver(None))
            } else {
                Ok(Step::Deliver(Some(message)))
            }
        },
        None => Ok(Step::Read),
    }
}

/// What a read means for a connection.
#[derive(Debug, Copy, Clone, PartialEq, Eq, Structural)]
pub enum ReadOutcome {
    /// Bytes came in: look at the buffer again.
    Continue,
    /// Nothing came in and nothing is left: the peer is done.
    Closed,
    /// Nothing came in while part of a message is left: the peer is gone.
    Reset,
}

/// Decides what a read of `bytes_read` bytes means.
pub fn after_read(buffer: &BytesMut, bytes_read: usize) -> (r: ReadOutcome)
    ensures
        r == if bytes_read != 0 {
            ReadOutcome::Continue
        } else if buffer_bytes(buffer).len() == 0 {
            ReadOutcome::Closed
        } else {
            ReadOutcome::Reset
        },
{
    if bytes_read == 0 {
        if contents(buffer).len() == 0 {
            ReadOutcome::Closed
        } else {
            ReadOutcome::Reset
        }
    } else {
        ReadOutcome::Continue
    }
}

} // verus!
