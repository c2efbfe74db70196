//! Path values and their two wire representations.
//!
//! In the binary protocol the server sends one version tag followed by the
//! UTF-8 text of the path, and expects the bare text back. In the text
//! protocol both directions carry the bare text.

use byteorder::ReadBytesExt;
use vstd::prelude::*;
use vstd::std_specs::cmp::PartialEqSpecImpl;
use vstd::utf8::*;

verus! {

/// An `ltree` label path such as `a.b.c`, held as the text PostgreSQL shows.
///
/// No label syntax is checked here; the server does that.
#[derive(Debug)]
pub struct Ltree(pub String);

impl View for Ltree {
    type V = Seq<char>;

    open spec fn view(&self) -> Seq<char> {
        self.0@
    }
}

impl Clone for Ltree {
    fn clone(&self) -> (r: Self)
        ensures
            r@ == self@,
    {
        Ltree(self.0.clone())
    }
}

impl PartialEq for Ltree {
    fn eq(&self, other: &Self) -> (r: bool) {
        self.0 == other.0
    }
}

impl PartialEqSpecImpl for Ltree {
    open spec fn obeys_eq_spec() -> bool {
        true
    }

    open spec fn eq_spec(&self, other: &Self) -> bool {
        self@ == other@
    }
}

/// Whether a serialized value is SQL `NULL`.
#[derive(Clone, Copy, Debug, PartialEq, Eq, Structural)]
pub enum IsNull {
    Yes,
    No,
}

/// Why a payload was not accepted as a path value.
#[derive(Clone, Copy, Debug, PartialEq, Eq, Structural)]
pub enum DecodeError {
    /// The binary payload ended before its version tag.
    UnexpectedEof,
    /// The text of the payload is not valid UTF-8.
    InvalidUtf8,
}

/// The error of a failed read from a byte source.
#[verifier::external_type_specification]
#[verifier::external_body]
pub struct ExIoError(std::io::Error);

/// The error of a failed UTF-8 check.
#[verifier::external_type_specification]
#[verifier::external_body]
pub struct ExUtf8Error(core::str::Utf8Error);

/// The version tag that the `ltree` extension writes in front of a binary
/// payload.
pub const BINARY_VERSION: i8 = 1;

/// The bytes a path has on the wire, in the binary and the text protocol
/// alike: its UTF-8 text, with no version tag, length or terminator.
pub open spec fn wire_bytes(path: Seq<char>) -> Seq<u8> {
    encode_utf8(path)
}

/// The signed value of a version tag byte.
pub open spec fn version_tag(byte: u8) -> i8 {
    byte as i8
}

/// What a text-protocol payload decodes to.
pub open spec fn text_decoding(bytes: Seq<u8>) -> Result<Seq<char>, DecodeError> {
    if valid_utf8(bytes) {
        Ok(decode_utf8(bytes))
    } else {
        Err(DecodeError::InvalidUtf8)
    }
}

/// What a binary-protocol payload decodes to: the text behind the version
/// tag, whatever the tag is.
pub open spec fn binary_decoding(bytes: Seq<u8>) -> Result<Seq<char>, DecodeError> {
    if bytes.len() == 0 {
        Err(DecodeError::UnexpectedEof)
    } else {
        text_decoding(bytes.skip(1))
    }
}

/// The outcome of a decoding, with the path taken by its text.
pub open spec fn decoded(r: Result<Ltree, DecodeError>) -> Result<Seq<char>, DecodeError> {
    match r {
        Ok(path) => Ok(path@),
        Err(e) => Err(e),
    }
}

/// `byteorder::ReadBytesExt::read_i8` on a byte slice: it fails exactly when
/// the slice is empty, and otherwise yields the first byte as a signed
/// integer together with the bytes that follow it.
#[verifier::external_body]
fn read_i8<'a>(raw: &'a [u8]) -> (r: Result<(i8, &'a [u8]), std::io::Error>)
    ensures
        r is Err <==> raw@.len() == 0,
        r matches Ok((tag, rest)) ==> tag == version_tag(raw@[0]) && rest@ == raw@.skip(1),
{
    let mut rest = raw;
    let tag = rest.read_i8()?;
    Ok((tag, rest))
}

/// `core::str::from_utf8` succeeds exactly on valid UTF-8, and the string
/// slice it yields has the given bytes.
pub assume_specification<'a>[ core::str::from_utf8 ](v: &'a [u8]) -> (r: Result<
    &'a str,
    core::str::Utf8Error,
>)
    ensures
        r is Ok <==> valid_utf8(v@),
        r matches Ok(s) ==> encode_utf8(s@) == v@,
;

impl Ltree {
    /// Appends the binary-protocol form of the path to `out`.
    pub fn to_sql(&self, out: &mut Vec<u8>) -> (r: IsNull)
        ensures
            final(out)@ == old(out)@ + wire_bytes(self@),
            r == IsNull::No,
    {
        out.extend_from_slice(self.0.as_str().as_bytes());
        IsNull::No
    }

    /// Appends the text-protocol form of the path to `out`: the string
    /// itself, unescaped.
    pub fn to_sql_text(&self, out: &mut Vec<u8>) -> (r: IsNull)
        ensures
            final(out)@ == old(out)@ + wire_bytes(self@),
            r == IsNull::No,
    {
        out.extend_from_slice(self.0.as_str().as_bytes());
        IsNull::No
    }

    /// Splits a binary payload into its version tag and the bytes of the
    /// path text.
    ///
    /// The tag is handed back unjudged; [`BINARY_VERSION`] is the only one
    /// the extension has written so far.
    pub fn read_version<'a>(value: &'a [u8]) -> (r: Result<(i8, &'a [u8]), DecodeError>)
        ensures
            value@.len() == 0 ==> r == Err::<(i8, &[u8]), DecodeError>(DecodeError::UnexpectedEof),
            value@.len() > 0 ==> r is Ok && r->Ok_0.0 == version_tag(value@[0]) && r->Ok_0.1@
                == value@.skip(1),
    {
        match read_i8(value) {
            Ok(split) => Ok(split),
            Err(_) => Err(DecodeError::UnexpectedEof),
        }
    }

    /// Decodes a text-protocol payload: the bytes are the path text.
    pub fn from_sql_text(value: &[u8]) -> (r: Result<Ltree, DecodeError>)
        ensures
            decoded(r) == text_decoding(value@),
            !valid_utf8(value@) ==> r == Err::<Ltree, DecodeError>(DecodeError::InvalidUtf8),
    {
        match core::str::from_utf8(value) {
            Ok(text) => {
                proof {
                    encode_utf8_decode_utf8(text@);
                }
                Ok(Ltree(text.to_owned()))
            },
            Err(_) => Err(DecodeError::InvalidUtf8),
        }
    }

    /// Decodes a binary-protocol payload: one version tag, then the path
    /// text to the end of the payload.
    ///
    /// The version tag is read and not enforced. An empty payload and a
    /// payload whose text is not valid UTF-8 are the two failures.
    pub fn from_sql(value: &[u8]) -> (r: Result<Ltree, DecodeError>)
        ensures
            decoded(r) == binary_decoding(value@),
            value@.len() == 0 ==> r == Err::<Ltree, DecodeError>(DecodeError::UnexpectedEof),
            value@.len() > 0 && !valid_utf8(value@.skip(1)) ==> r == Err::<Ltree, DecodeError>(
                DecodeError::InvalidUtf8,
            ),
    {
        match Ltree::read_version(value) {
            Ok((_, text)) => Ltree::from_sql_text(text),
            Err(e) => Err(e),
        }
    }
}

impl DecodeError {
    /// A sentence that says what was wrong with the payload.
    pub fn message(&self) -> (r: &'static str)
        ensures
            r@ == match *self {
                DecodeError::UnexpectedEof => "ltree payload is empty: no version tag"@,
                DecodeError::InvalidUtf8 => "ltree payload is not valid UTF-8"@,
            },
    {
        match self {
            DecodeError::UnexpectedEof => "ltree payload is empty: no version tag",
            DecodeError::InvalidUtf8 => "ltree payload is not valid UTF-8",
        }
    }
}

/// A path written in the binary form and read back behind a version tag,
/// whichever tag it is, is the same path.
pub proof fn lemma_binary_round_trip(path: Seq<char>, tag: u8)
    ensures
        binary_decoding(seq![tag] + wire_bytes(path)) == Ok::<Seq<char>, DecodeError>(path),
{
    let payload = seq![tag] + wire_bytes(path);
    assert(payload.skip(1) =~= wire_bytes(path));
    encode_utf8_valid_utf8(path);
    encode_utf8_decode_utf8(path);
}

/// A path written in the text form and read back is the same path.
pub proof fn lemma_text_round_trip(path: Seq<char>)
    ensures
        text_decoding(wire_bytes(path)) == Ok::<Seq<char>, DecodeError>(path),
{
    encode_utf8_valid_utf8(path);
    encode_utf8_decode_utf8(path);
}

/// A binary payload that decodes to a path is its version tag followed by
/// the bytes that the path is written as.
pub proof fn lemma_binary_payload_shape(bytes: Seq<u8>, path: Seq<char>)
    requires
        binary_decoding(bytes) == Ok::<Seq<char>, DecodeError>(path),
    ensures
        bytes == seq![bytes[0]] + wire_bytes(path),
{
    decode_utf8_encode_utf8(bytes.skip(1));
    assert(bytes =~= seq![bytes[0]] + bytes.skip(1));
}

} // verus!
