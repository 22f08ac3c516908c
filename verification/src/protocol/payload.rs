//! Payload codec: the structured MessagePack bodies carried inside the wire
//! envelope.
//!
//! Three payload kinds travel over the protocol: an embed request
//! `[text, model-or-nil]`, an embed response (a bare float array on output;
//! on input also the map shapes `{"embedding": [...]}` and
//! `{"vector": [...]}`), and an error object `[message]`.  The codec emits
//! one canonical MessagePack form for each — 32-bit-length strings and
//! arrays, so every value has a single encoding — and the parse
//! specifications say exactly which byte sequences are accepted.
//!
//! A float component is never interpreted numerically here: it is carried as
//! the raw bit pattern of a 32-bit float, written big-endian after the
//! MessagePack float tag.

use crate::models::EmbeddingError;
use vstd::prelude::*;
use vstd::slice::slice_subrange;
use vstd::slice::slice_to_vec;
use vstd::utf8::decode_utf8;
use vstd::utf8::encode_utf8;
use vstd::utf8::is_ascii_chars;
use vstd::utf8::is_ascii_chars_encode_utf8;
use vstd::utf8::valid_utf8;

verus! {

broadcast use vstd::utf8::encode_utf8_valid_utf8, vstd::utf8::encode_utf8_decode_utf8;

/// MessagePack tag of a 32-bit-length string.
pub const TAG_STR32: u8 = 0xdb;

/// MessagePack tag of a 32-bit-length array.
pub const TAG_ARRAY32: u8 = 0xdd;

/// MessagePack tag of a 32-bit float.
pub const TAG_F32: u8 = 0xca;

/// MessagePack nil.
pub const TAG_NIL: u8 = 0xc0;

/// MessagePack tag of a one-entry map.
pub const TAG_MAP1: u8 = 0x81;

/// MessagePack tag of a one-element array.
pub const TAG_FIXARRAY1: u8 = 0x91;

/// MessagePack tag of a two-element array.
pub const TAG_FIXARRAY2: u8 = 0x92;

/// First MessagePack fixstr tag (length 0); the length rides in the tag.
pub const TAG_FIXSTR_BASE: u8 = 0xa0;

/// Last MessagePack fixstr tag (length 31).
pub const TAG_FIXSTR_MAX: u8 = 0xbf;

/// MessagePack tag of an 8-bit-length string.
pub const TAG_STR8: u8 = 0xd9;

/// MessagePack tag of a 16-bit-length string.
pub const TAG_STR16: u8 = 0xda;

/// First MessagePack fixarray tag (length 0); the length rides in the tag.
pub const TAG_FIXARRAY_BASE: u8 = 0x90;

/// Last MessagePack fixarray tag (length 15).
pub const TAG_FIXARRAY_MAX: u8 = 0x9f;

/// MessagePack tag of a 16-bit-length array.
pub const TAG_ARRAY16: u8 = 0xdc;

/// Embedding request: the text to embed and an optional model name.
#[derive(Debug, Clone)]
pub struct EmbedRequest {
    /// Text to embed.
    pub text: String,
    /// Optional model name (the default model serves if absent).
    pub model: Option<String>,
}

/// Embedding response.  The three shapes are semantically identical; the
/// codec always emits `DirectArray` and accepts all three.
#[derive(Debug, Clone)]
pub enum EmbedResponse {
    /// Direct array format: `[c0, c1, ...]`.
    DirectArray(Vec<u32>),
    /// Wrapped format: `{"embedding": [...]}`.
    Wrapped { embedding: Vec<u32> },
    /// Alternative wrapped format: `{"vector": [...]}`.
    VectorWrapped { vector: Vec<u32> },
}

impl EmbedResponse {
    /// The embedding components, whichever shape holds them.
    pub open spec fn spec_embedding(self) -> Seq<u32> {
        match self {
            EmbedResponse::DirectArray(v) => v@,
            EmbedResponse::Wrapped { embedding } => embedding@,
            EmbedResponse::VectorWrapped { vector } => vector@,
        }
    }

    /// The shape the response takes on the wire.
    pub open spec fn spec_shape(self) -> ParsedPayload {
        match self {
            EmbedResponse::DirectArray(v) => ParsedPayload::Direct(v@),
            EmbedResponse::Wrapped { embedding } => ParsedPayload::Wrapped(embedding@),
            EmbedResponse::VectorWrapped { vector } => ParsedPayload::Vector(vector@),
        }
    }

    /// Wraps an embedding in the canonical output shape.
    pub fn new(embedding: Vec<u32>) -> (r: EmbedResponse)
        ensures
            r == EmbedResponse::DirectArray(embedding),
    {
        EmbedResponse::DirectArray(embedding)
    }

    /// The embedding components regardless of shape.
    pub fn get_embedding(&self) -> (r: &Vec<u32>)
        ensures
            r@ == self.spec_embedding(),
    {
        match self {
            EmbedResponse::DirectArray(v) => v,
            EmbedResponse::Wrapped { embedding } => embedding,
            EmbedResponse::VectorWrapped { vector } => vector,
        }
    }
}

/// Error response payload.
#[derive(Debug, Clone)]
pub struct ErrorResponse {
    pub error: String,
}

/// Which of the accepted response shapes a payload took, with its components.
pub enum ParsedPayload {
    /// A bare float array.
    Direct(Seq<u32>),
    /// `{"embedding": [...]}`.
    Wrapped(Seq<u32>),
    /// `{"vector": [...]}`.
    Vector(Seq<u32>),
}

// ---------------------------------------------------------------------------
// Big-endian 32-bit lengths and float bit patterns
// ---------------------------------------------------------------------------

/// The four big-endian bytes of `x`.
pub open spec fn spec_u32_to_be_bytes(x: u32) -> Seq<u8> {
    seq![
        ((x >> 24) & 0xff) as u8,
        ((x >> 16) & 0xff) as u8,
        ((x >> 8) & 0xff) as u8,
        (x & 0xff) as u8,
    ]
}

/// The value four big-endian bytes hold.
pub open spec fn spec_u32_from_be_bytes(s: Seq<u8>) -> u32
    recommends
        s.len() == 4,
{
    ((s[0] as u32) << 24) | ((s[1] as u32) << 16) | ((s[2] as u32) << 8) | (s[3] as u32)
}

/// Both directions of the big-endian conversion are inverses.
pub proof fn lemma_u32_be_roundtrip()
    ensures
        forall|x: u32|
            {
                &&& #[trigger] spec_u32_to_be_bytes(x).len() == 4
                &&& spec_u32_from_be_bytes(spec_u32_to_be_bytes(x)) == x
            },
        forall|s: Seq<u8>|
            s.len() == 4 ==> #[trigger] spec_u32_to_be_bytes(spec_u32_from_be_bytes(s)) == s,
{
    assert forall|x: u32|
        {
            &&& #[trigger] spec_u32_to_be_bytes(x).len() == 4
            &&& spec_u32_from_be_bytes(spec_u32_to_be_bytes(x)) == x
        } by {
        assert(((x >> 24) & 0xff) < 256 && ((x >> 16) & 0xff) < 256 && ((x >> 8) & 0xff) < 256
            && (x & 0xff) < 256) by (bit_vector);
        assert((((x >> 24) & 0xff) as u32) << 24 | (((x >> 16) & 0xff) as u32) << 16 | (((x >> 8)
            & 0xff) as u32) << 8 | ((x & 0xff) as u32) == x) by (bit_vector);
    }
    assert forall|s: Seq<u8>| s.len() == 4 implies #[trigger] spec_u32_to_be_bytes(
        spec_u32_from_be_bytes(s),
    ) == s by {
        let x = spec_u32_from_be_bytes(s);
        let s0 = s[0] as u32;
        let s1 = s[1] as u32;
        let s2 = s[2] as u32;
        let s3 = s[3] as u32;
        assert((x == s0 << 24 | s1 << 16 | s2 << 8 | s3 && s0 < 256 && s1 < 256 && s2 < 256 && s3
            < 256) ==> s0 == ((x >> 24) & 0xff) && s1 == ((x >> 16) & 0xff) && s2 == ((x >> 8)
            & 0xff) && s3 == (x & 0xff)) by (bit_vector);
        assert(spec_u32_to_be_bytes(spec_u32_from_be_bytes(s)) =~= s);
    }
}

/// Appends the four big-endian bytes of `x`.
fn push_u32_be(out: &mut Vec<u8>, x: u32)
    ensures
        final(out)@ == old(out)@ + spec_u32_to_be_bytes(x),
{
    proof {
        assert(((x >> 24) & 0xff) < 256 && ((x >> 16) & 0xff) < 256 && ((x >> 8) & 0xff) < 256 && (
        x & 0xff) < 256) by (bit_vector);
    }
    out.push(((x >> 24) & 0xff) as u8);
    out.push(((x >> 16) & 0xff) as u8);
    out.push(((x >> 8) & 0xff) as u8);
    out.push((x & 0xff) as u8);
    assert(out@ =~= old(out)@ + spec_u32_to_be_bytes(x));
}

/// Reads the value of four big-endian bytes.
fn u32_from_be_bytes(s: &[u8]) -> (x: u32)
    requires
        s@.len() == 4,
    ensures
        x == spec_u32_from_be_bytes(s@),
{
    ((s[0] as u32) << 24) | ((s[1] as u32) << 16) | ((s[2] as u32) << 8) | (s[3] as u32)
}

/// The value two big-endian bytes hold.
pub open spec fn spec_u16_from_be_bytes(s: Seq<u8>) -> u16
    recommends
        s.len() == 2,
{
    ((s[0] as u16) << 8) | (s[1] as u16)
}

/// Reads the value of two big-endian bytes.
fn u16_from_be_bytes(s: &[u8]) -> (x: u16)
    requires
        s@.len() == 2,
    ensures
        x == spec_u16_from_be_bytes(s@),
{
    ((s[0] as u16) << 8) | (s[1] as u16)
}

// ---------------------------------------------------------------------------
// Strings
// ---------------------------------------------------------------------------

/// The canonical MessagePack encoding of a text: the 32-bit-length string
/// tag, the big-endian byte length of the UTF-8 form, then that form.
pub open spec fn msg_str(t: Seq<char>) -> Seq<u8> {
    seq![TAG_STR32] + spec_u32_to_be_bytes(encode_utf8(t).len() as u32) + encode_utf8(t)
}

/// The byte length and header size of a string starting `d`, whichever of
/// the standard width variants (fixstr, 8-, 16- or 32-bit length) the tag
/// declares.
pub open spec fn str_header(d: Seq<u8>) -> Option<(int, int)> {
    if d.len() < 1 {
        None
    } else if TAG_FIXSTR_BASE <= d[0] && d[0] <= TAG_FIXSTR_MAX {
        Some(((d[0] - TAG_FIXSTR_BASE) as int, 1))
    } else if d[0] == TAG_STR8 {
        if d.len() < 2 {
            None
        } else {
            Some((d[1] as int, 2))
        }
    } else if d[0] == TAG_STR16 {
        if d.len() < 3 {
            None
        } else {
            Some((spec_u16_from_be_bytes(d.subrange(1, 3)) as int, 3))
        }
    } else if d[0] == TAG_STR32 {
        if d.len() < 5 {
            None
        } else {
            Some((spec_u32_from_be_bytes(d.subrange(1, 5)) as int, 5))
        }
    } else {
        None
    }
}

/// Parses a string at the front of `d`, in any of the standard width
/// variants: the text and the count of bytes its encoding occupies, or
/// nothing if no string starts `d`.
pub open spec fn parse_str(d: Seq<u8>) -> Option<(Seq<char>, int)> {
    match str_header(d) {
        None => None,
        Some((l, h)) => if d.len() < h + l {
            None
        } else if !valid_utf8(d.subrange(h, h + l)) {
            None
        } else {
            Some((decode_utf8(d.subrange(h, h + l)), h + l))
        },
    }
}

/// A canonical string encoding parses back to its text, whatever follows it.
pub proof fn lemma_msg_str_parse(t: Seq<char>, rest: Seq<u8>)
    requires
        encode_utf8(t).len() <= u32::MAX,
    ensures
        parse_str(msg_str(t) + rest) == Some((t, msg_str(t).len() as int)),
{
    lemma_u32_be_roundtrip();
    let d = msg_str(t) + rest;
    let l = encode_utf8(t).len() as int;
    assert(d[0] == TAG_STR32);
    assert(d.subrange(1, 5) =~= spec_u32_to_be_bytes(encode_utf8(t).len() as u32));
    assert(spec_u32_from_be_bytes(d.subrange(1, 5)) as int == l);
    assert(str_header(d) == Some((l, 5int)));
    assert(d.subrange(5, 5 + l) =~= encode_utf8(t));
}

/// Relies on `String::from_utf8`: it succeeds exactly on valid UTF-8 input
/// and the returned string's UTF-8 form is the input bytes.
#[verifier::external_body]
pub(crate) fn bytes_to_string(bytes: Vec<u8>) -> (r: Option<String>)
    ensures
        r is Some <==> valid_utf8(bytes@),
        r matches Some(s) ==> encode_utf8(s@) == bytes@,
{
    String::from_utf8(bytes).ok()
}

/// Appends the canonical encoding of `s`, refusing a text whose UTF-8 form
/// cannot carry a 32-bit length.
fn push_msg_str(out: &mut Vec<u8>, s: &str) -> (ok: bool)
    ensures
        ok <==> encode_utf8(s@).len() <= u32::MAX,
        ok ==> final(out)@ == old(out)@ + msg_str(s@),
        !ok ==> final(out)@ == old(out)@,
{
    let b = s.as_bytes();
    if b.len() > u32::MAX as usize {
        return false;
    }
    out.push(TAG_STR32);
    push_u32_be(out, b.len() as u32);
    out.extend_from_slice(b);
    assert(out@ =~= old(out)@ + msg_str(s@));
    true
}

/// Reads a canonical string starting at `pos`, returning the text and the
/// count of bytes consumed; the result is what [`parse_str`] says of the
/// bytes from `pos` on.
fn read_msg_str(data: &[u8], pos: usize) -> (r: Option<(String, usize)>)
    requires
        pos <= data@.len(),
    ensures
        match r {
            Some(p) => {
                &&& parse_str(data@.skip(pos as int)) == Some((p.0@, p.1 as int))
                &&& pos + p.1 <= data@.len()
                &&& p.1 >= 1
            },
            None => parse_str(data@.skip(pos as int)) is None,
        },
{
    let ghost d = data@.skip(pos as int);
    if data.len() == pos {
        return None;
    }
    assert(d[0] == data@[pos as int]);
    let tag = data[pos];
    let (l, h): (usize, usize) = if TAG_FIXSTR_BASE <= tag && tag <= TAG_FIXSTR_MAX {
        ((tag - TAG_FIXSTR_BASE) as usize, 1)
    } else if tag == TAG_STR8 {
        if data.len() - pos < 2 {
            return None;
        }
        assert(d[1] == data@[pos + 1]);
        (data[pos + 1] as usize, 2)
    } else if tag == TAG_STR16 {
        if data.len() - pos < 3 {
            return None;
        }
        assert(d.subrange(1, 3) =~= data@.subrange(pos + 1, pos + 3));
        (u16_from_be_bytes(slice_subrange(data, pos + 1, pos + 3)) as usize, 3)
    } else if tag == TAG_STR32 {
        if data.len() - pos < 5 {
            return None;
        }
        assert(d.subrange(1, 5) =~= data@.subrange(pos + 1, pos + 5));
        (u32_from_be_bytes(slice_subrange(data, pos + 1, pos + 5)) as usize, 5)
    } else {
        return None;
    };
    assert(str_header(d) == Some((l as int, h as int)));
    if data.len() - (pos + h) < l {
        return None;
    }
    assert(d.subrange(h as int, h + l) =~= data@.subrange(pos + h, pos + h + l));
    let bytes = slice_to_vec(slice_subrange(data, pos + h, pos + h + l));
    match bytes_to_string(bytes) {
        None => None,
        Some(s) => Some((s, h + l)),
    }
}

// ---------------------------------------------------------------------------
// Requests
// ---------------------------------------------------------------------------

/// The optional model name as a sequence of characters.
pub open spec fn spec_model_view(m: Option<String>) -> Option<Seq<char>> {
    match m {
        Some(s) => Some(s@),
        None => None,
    }
}

/// The canonical encoding of an embed request: a two-element array holding
/// the text and either the model name or nil.
pub open spec fn spec_serialize_request(text: Seq<char>, model: Option<Seq<char>>) -> Seq<u8> {
    seq![TAG_FIXARRAY2] + msg_str(text) + (match model {
        Some(m) => msg_str(m),
        None => seq![TAG_NIL],
    })
}

/// Parses a whole byte sequence as an embed request: a two-element array
/// (in any standard array width) holding the text and either the model name
/// or nil, strings in any standard string width.
pub open spec fn parse_request(d: Seq<u8>) -> Option<(Seq<char>, Option<Seq<char>>)> {
    match array_header(d) {
        None => None,
        Some((c, h)) => if c != 2 {
            None
        } else {
            match parse_str(d.skip(h)) {
                None => None,
                Some((t, n)) => {
                    let rest = d.skip(h + n);
                    if rest.len() == 1 && rest[0] == TAG_NIL {
                        Some((t, None))
                    } else {
                        match parse_str(rest) {
                            None => None,
                            Some((m, n2)) => if rest.len() == n2 {
                                Some((t, Some(m)))
                            } else {
                                None
                            },
                        }
                    }
                },
            }
        },
    }
}

/// Serializes a request to its canonical payload bytes; fails only on a text
/// or model name whose UTF-8 form cannot carry a 32-bit length.
pub fn serialize_request(request: &EmbedRequest) -> (r: Result<Vec<u8>, EmbeddingError>)
    ensures
        r is Ok <==> encode_utf8(request.text@).len() <= u32::MAX && (request.model matches Some(m)
            ==> encode_utf8(m@).len() <= u32::MAX),
        r matches Ok(v) ==> v@ == spec_serialize_request(
            request.text@,
            spec_model_view(request.model),
        ),
        r matches Err(e) ==> e is InvalidInput,
{
    let mut out: Vec<u8> = Vec::new();
    out.push(TAG_FIXARRAY2);
    if !push_msg_str(&mut out, request.text.as_str()) {
        return Err(EmbeddingError::InvalidInput {
            message: "request text too long to encode".to_owned(),
        });
    }
    match &request.model {
        Some(m) => {
            if !push_msg_str(&mut out, m.as_str()) {
                return Err(EmbeddingError::InvalidInput {
                    message: "model name too long to encode".to_owned(),
                });
            }
        },
        None => {
            out.push(TAG_NIL);
        },
    }
    assert(out@ =~= spec_serialize_request(request.text@, spec_model_view(request.model)));
    Ok(out)
}

/// Deserializes payload bytes as an embed request; the result is exactly
/// what [`parse_request`] says of the bytes.
pub fn deserialize_request(data: &[u8]) -> (r: Result<EmbedRequest, EmbeddingError>)
    ensures
        match r {
            Ok(req) => parse_request(data@) == Some((req.text@, spec_model_view(req.model))),
            Err(e) => parse_request(data@) is None && e is InvalidInput,
        },
{
    proof {
        assert(data@.skip(0) =~= data@);
    }
    let header = match read_array_header(data, 0) {
        None => {
            return Err(malformed_request());
        },
        Some(p) => p,
    };
    if header.0 != 2 {
        return Err(malformed_request());
    }
    let h = header.1;
    let text_part = match read_msg_str(data, h) {
        None => {
            return Err(malformed_request());
        },
        Some(p) => p,
    };
    let text = text_part.0;
    let total = data.len();
    assert(h + text_part.1 <= total);
    let pos = h + text_part.1;
    let ghost rest = data@.skip(pos as int);
    if pos == data.len() {
        return Err(malformed_request());
    }
    assert(rest[0] == data@[pos as int]);
    if data[pos] == TAG_NIL {
        if pos + 1 == data.len() {
            return Ok(EmbedRequest { text, model: None });
        }
        return Err(malformed_request());
    }
    let model_part = match read_msg_str(data, pos) {
        None => {
            return Err(malformed_request());
        },
        Some(p) => p,
    };
    if pos + model_part.1 == data.len() {
        Ok(EmbedRequest { text, model: Some(model_part.0) })
    } else {
        Err(malformed_request())
    }
}

/// The rejection of a payload that is not a canonical request encoding.
fn malformed_request() -> (r: EmbeddingError)
    ensures
        r is InvalidInput,
{
    EmbeddingError::InvalidInput { message: "malformed request payload".to_owned() }
}

/// A serialized request deserializes to the same text and model name.
pub proof fn lemma_request_roundtrip(text: Seq<char>, model: Option<Seq<char>>)
    requires
        encode_utf8(text).len() <= u32::MAX,
        model matches Some(m) ==> encode_utf8(m).len() <= u32::MAX,
    ensures
        parse_request(spec_serialize_request(text, model)) == Some((text, model)),
{
    let d = spec_serialize_request(text, model);
    let tail: Seq<u8> = match model {
        Some(m) => msg_str(m),
        None => seq![TAG_NIL],
    };
    assert(d[0] == TAG_FIXARRAY2);
    assert(array_header(d) == Some((2int, 1int)));
    assert(d.skip(1) =~= msg_str(text) + tail);
    lemma_msg_str_parse(text, tail);
    let n = msg_str(text).len() as int;
    let rest = d.skip(1 + n);
    assert(rest =~= tail);
    match model {
        None => {
            assert(rest.len() == 1 && rest[0] == TAG_NIL);
        },
        Some(m) => {
            assert(rest =~= msg_str(m) + Seq::<u8>::empty());
            lemma_msg_str_parse(m, Seq::<u8>::empty());
            assert(rest[0] == TAG_STR32);
            assert(parse_request(d) == Some((text, Some(m))));
        },
    }
}

// ---------------------------------------------------------------------------
// Float arrays and responses
// ---------------------------------------------------------------------------

/// The element bytes of a float array: each component is the float tag and
/// the four big-endian bytes of its bit pattern.
pub open spec fn msg_f32_elems(vals: Seq<u32>) -> Seq<u8>
    decreases vals.len(),
{
    if vals.len() == 0 {
        Seq::empty()
    } else {
        msg_f32_elems(vals.drop_last()) + seq![TAG_F32] + spec_u32_to_be_bytes(vals.last())
    }
}

/// The canonical encoding of a float array: the 32-bit-length array tag, the
/// big-endian component count, then the elements.
pub open spec fn msg_f32_array(vals: Seq<u32>) -> Seq<u8> {
    seq![TAG_ARRAY32] + spec_u32_to_be_bytes(vals.len() as u32) + msg_f32_elems(vals)
}

/// Each component occupies five bytes.
pub proof fn lemma_f32_elems_len(vals: Seq<u32>)
    ensures
        msg_f32_elems(vals).len() == 5 * vals.len(),
    decreases vals.len(),
{
    if vals.len() > 0 {
        lemma_f32_elems_len(vals.drop_last());
    }
}

/// Where each component sits: the tag at its start, the bit pattern after.
pub proof fn lemma_f32_elems_index(vals: Seq<u32>, i: int)
    requires
        0 <= i < vals.len(),
    ensures
        msg_f32_elems(vals)[5 * i] == TAG_F32,
        msg_f32_elems(vals).subrange(5 * i + 1, 5 * i + 5) == spec_u32_to_be_bytes(vals[i]),
    decreases vals.len(),
{
    lemma_u32_be_roundtrip();
    lemma_f32_elems_len(vals);
    lemma_f32_elems_len(vals.drop_last());
    if i < vals.len() - 1 {
        lemma_f32_elems_index(vals.drop_last(), i);
        assert(msg_f32_elems(vals).subrange(5 * i + 1, 5 * i + 5) =~= msg_f32_elems(
            vals.drop_last(),
        ).subrange(5 * i + 1, 5 * i + 5));
    } else {
        assert(msg_f32_elems(vals).subrange(5 * i + 1, 5 * i + 5) =~= spec_u32_to_be_bytes(
            vals.last(),
        ));
    }
}

/// The element count and header size of an array starting `d`, whichever
/// of the standard width variants (fixarray, 16- or 32-bit length) the tag
/// declares.
pub open spec fn array_header(d: Seq<u8>) -> Option<(int, int)> {
    if d.len() < 1 {
        None
    } else if TAG_FIXARRAY_BASE <= d[0] && d[0] <= TAG_FIXARRAY_MAX {
        Some(((d[0] - TAG_FIXARRAY_BASE) as int, 1))
    } else if d[0] == TAG_ARRAY16 {
        if d.len() < 3 {
            None
        } else {
            Some((spec_u16_from_be_bytes(d.subrange(1, 3)) as int, 3))
        }
    } else if d[0] == TAG_ARRAY32 {
        if d.len() < 5 {
            None
        } else {
            Some((spec_u32_from_be_bytes(d.subrange(1, 5)) as int, 5))
        }
    } else {
        None
    }
}

/// Parses a float array at the front of `d`, in any of the standard width
/// variants: the component bit patterns and the count of bytes occupied.
pub open spec fn parse_f32_array(d: Seq<u8>) -> Option<(Seq<u32>, int)> {
    match array_header(d) {
        None => None,
        Some((c, h)) => if d.len() < h + 5 * c {
            None
        } else if exists|i: int| 0 <= i < c && #[trigger] d[h + 5 * i] != TAG_F32 {
            None
        } else {
            Some(
                (
                    Seq::new(c as nat, |i: int| spec_u32_from_be_bytes(
                        d.subrange(h + 5 * i + 1, h + 5 * i + 5),
                    )),
                    h + 5 * c,
                ),
            )
        },
    }
}

/// A canonical float array parses back to its components, whatever follows.
pub proof fn lemma_f32_array_parse(vals: Seq<u32>, rest: Seq<u8>)
    requires
        vals.len() <= u32::MAX,
    ensures
        parse_f32_array(msg_f32_array(vals) + rest) == Some(
            (vals, msg_f32_array(vals).len() as int),
        ),
{
    lemma_u32_be_roundtrip();
    lemma_f32_elems_len(vals);
    let d = msg_f32_array(vals) + rest;
    let c = vals.len() as int;
    assert(d[0] == TAG_ARRAY32);
    assert(d.subrange(1, 5) =~= spec_u32_to_be_bytes(vals.len() as u32));
    assert(spec_u32_from_be_bytes(d.subrange(1, 5)) as int == c);
    assert(array_header(d) == Some((c, 5int)));
    assert(d.len() >= 5 + 5 * c);
    assert forall|i: int| 0 <= i < c implies #[trigger] d[5 + 5 * i] == TAG_F32 by {
        lemma_f32_elems_index(vals, i);
        assert(d[5 + 5 * i] == msg_f32_elems(vals)[5 * i]);
    }
    let parsed = Seq::new(
        c as nat,
        |i: int| spec_u32_from_be_bytes(d.subrange(5 + 5 * i + 1, 5 + 5 * i + 5)),
    );
    assert forall|i: int| 0 <= i < c implies parsed[i] == vals[i] by {
        lemma_f32_elems_index(vals, i);
        assert(d.subrange(5 + 5 * i + 1, 5 + 5 * i + 5) =~= msg_f32_elems(vals).subrange(
            5 * i + 1,
            5 * i + 5,
        ));
    }
    assert(parsed =~= vals);
    assert(msg_f32_array(vals).len() as int == 5 + 5 * c);
}

/// Appends the canonical float array encoding of `vals`, refusing a vector
/// whose count cannot carry a 32-bit length.
fn push_f32_array(out: &mut Vec<u8>, vals: &Vec<u32>) -> (ok: bool)
    ensures
        ok <==> vals@.len() <= u32::MAX,
        ok ==> final(out)@ == old(out)@ + msg_f32_array(vals@),
        !ok ==> final(out)@ == old(out)@,
{
    if vals.len() > u32::MAX as usize {
        return false;
    }
    out.push(TAG_ARRAY32);
    push_u32_be(out, vals.len() as u32);
    let ghost base = out@;
    let mut i: usize = 0;
    while i < vals.len()
        invariant
            i <= vals@.len(),
            out@ == base + msg_f32_elems(vals@.subrange(0, i as int)),
        decreases vals@.len() - i,
    {
        out.push(TAG_F32);
        push_u32_be(out, vals[i]);
        proof {
            let prefix = vals@.subrange(0, i + 1);
            assert(prefix.drop_last() =~= vals@.subrange(0, i as int));
            assert(prefix.last() == vals@[i as int]);
            assert(out@ =~= base + msg_f32_elems(prefix));
        }
        i += 1;
    }
    assert(vals@.subrange(0, vals@.len() as int) =~= vals@);
    assert(out@ =~= old(out)@ + msg_f32_array(vals@));
    true
}

/// Reads an array header starting at `pos`: the element count and the
/// header size, whichever of the standard width variants the tag declares.
fn read_array_header(data: &[u8], pos: usize) -> (r: Option<(usize, usize)>)
    requires
        pos <= data@.len(),
    ensures
        match r {
            Some(p) => {
                &&& array_header(data@.skip(pos as int)) == Some((p.0 as int, p.1 as int))
                &&& pos + p.1 <= data@.len()
                &&& 1 <= p.1 <= 5
                &&& p.0 <= u32::MAX
            },
            None => array_header(data@.skip(pos as int)) is None,
        },
{
    let ghost d = data@.skip(pos as int);
    if data.len() == pos {
        return None;
    }
    assert(d[0] == data@[pos as int]);
    let tag = data[pos];
    if TAG_FIXARRAY_BASE <= tag && tag <= TAG_FIXARRAY_MAX {
        Some((((tag - TAG_FIXARRAY_BASE) as usize), 1))
    } else if tag == TAG_ARRAY16 {
        if data.len() - pos < 3 {
            return None;
        }
        assert(d.subrange(1, 3) =~= data@.subrange(pos + 1, pos + 3));
        Some((u16_from_be_bytes(slice_subrange(data, pos + 1, pos + 3)) as usize, 3))
    } else if tag == TAG_ARRAY32 {
        if data.len() - pos < 5 {
            return None;
        }
        assert(d.subrange(1, 5) =~= data@.subrange(pos + 1, pos + 5));
        Some((u32_from_be_bytes(slice_subrange(data, pos + 1, pos + 5)) as usize, 5))
    } else {
        None
    }
}

/// Reads a float array starting at `pos`, in any of the standard width
/// variants, returning the component bit patterns and the count of bytes
/// consumed; the result is what [`parse_f32_array`] says of the bytes from
/// `pos` on.
fn read_f32_array(data: &[u8], pos: usize) -> (r: Option<(Vec<u32>, usize)>)
    requires
        pos <= data@.len(),
    ensures
        match r {
            Some(p) => {
                &&& parse_f32_array(data@.skip(pos as int)) == Some((p.0@, p.1 as int))
                &&& pos + p.1 <= data@.len()
            },
            None => parse_f32_array(data@.skip(pos as int)) is None,
        },
{
    let ghost d = data@.skip(pos as int);
    let header = match read_array_header(data, pos) {
        None => {
            return None;
        },
        Some(p) => p,
    };
    let c = header.0;
    let h = header.1;
    let avail = (data.len() - pos) - h;
    if avail / 5 < c {
        assert(d.len() < h + 5 * (c as int)) by (nonlinear_arith)
            requires
                avail == d.len() - h,
                avail / 5 < c,
                d.len() >= h,
        ;
        return None;
    }
    assert(h + 5 * (c as int) <= d.len()) by (nonlinear_arith)
        requires
            avail == d.len() - h,
            avail / 5 >= c,
            d.len() >= h,
    ;
    let mut vals: Vec<u32> = Vec::new();
    let mut i: usize = 0;
    while i < c
        invariant
            i <= c,
            data@.len() <= usize::MAX,
            pos <= data@.len(),
            d == data@.skip(pos as int),
            array_header(d) == Some((c as int, h as int)),
            1 <= h <= 5,
            c <= u32::MAX,
            h + 5 * c <= d.len(),
            pos + h + 5 * c <= data@.len(),
            vals@.len() == i,
            forall|j: int|
                0 <= j < i ==> vals@[j] == spec_u32_from_be_bytes(
                    data@.subrange(
                        pos + h + 5 * j + 1,
                        pos + h + 5 * j + 5,
                    ),
                ),
            forall|j: int| 0 <= j < i ==> #[trigger] data@[pos + h + 5 * j] == TAG_F32,
        decreases c - i,
    {
        assert(pos + h + 5 * (i as int) + 5 <= pos + h + 5 * (c as int)) by (nonlinear_arith)
            requires
                i < c,
        ;
        if data[pos + h + 5 * i] != TAG_F32 {
            proof {
                assert(d[h + 5 * (i as int)] == data@[pos + h + 5 * (i as int)]);
                assert(exists|k: int| 0 <= k < c && #[trigger] d[h + 5 * k] != TAG_F32) by {
                    assert(0 <= (i as int) < c && d[h + 5 * (i as int)] != TAG_F32);
                }
            }
            return None;
        }
        let v = u32_from_be_bytes(slice_subrange(data, pos + h + 5 * i + 1, pos + h + 5 * i + 5));
        vals.push(v);
        i += 1;
    }
    proof {
        assert forall|k: int| 0 <= k < c implies #[trigger] d[h + 5 * k] == TAG_F32 by {
            assert(d[h + 5 * k] == data@[pos + h + 5 * k]);
        }
        let parsed = Seq::new(
            c as nat,
            |k: int| spec_u32_from_be_bytes(d.subrange(h + 5 * k + 1, h + 5 * k + 5)),
        );
        assert forall|k: int| 0 <= k < c implies vals@[k] == parsed[k] by {
            assert(d.subrange(h + 5 * k + 1, h + 5 * k + 5) =~= data@.subrange(
                pos + h + 5 * k + 1,
                pos + h + 5 * k + 5,
            ));
        }
        assert(vals@ =~= parsed);
    }
    Some((vals, h + 5 * c))
}

/// Serializes a response to its canonical payload bytes — always the bare
/// array shape, whichever shape the value holds; fails only on a component
/// count that cannot carry a 32-bit length.
pub fn serialize_response(response: &EmbedResponse) -> (r: Result<Vec<u8>, EmbeddingError>)
    ensures
        r is Ok <==> response.spec_embedding().len() <= u32::MAX,
        r matches Ok(v) ==> v@ == msg_f32_array(response.spec_embedding()),
{
    let mut out: Vec<u8> = Vec::new();
    if !push_f32_array(&mut out, response.get_embedding()) {
        return Err(EmbeddingError::InvalidInput {
            message: "embedding too long to encode".to_owned(),
        });
    }
    assert(out@ =~= msg_f32_array(response.spec_embedding()));
    Ok(out)
}

/// Parses a whole byte sequence as an embed response, accepting the three
/// shapes: a bare array, `{"embedding": [...]}` and `{"vector": [...]}`,
/// arrays and strings in any standard width.
pub open spec fn parse_response(d: Seq<u8>) -> Option<ParsedPayload> {
    if d.len() >= 1 && d[0] == TAG_MAP1 {
        match parse_str(d.skip(1)) {
            None => None,
            Some((k, n)) => {
                match parse_f32_array(d.skip(1 + n)) {
                    None => None,
                    Some((v, n2)) => if d.len() == 1 + n + n2 {
                        if k == "embedding"@ {
                            Some(ParsedPayload::Wrapped(v))
                        } else if k == "vector"@ {
                            Some(ParsedPayload::Vector(v))
                        } else {
                            None
                        }
                    } else {
                        None
                    },
                }
            },
        }
    } else {
        match parse_f32_array(d) {
            None => None,
            Some((v, n)) => if d.len() == n {
                Some(ParsedPayload::Direct(v))
            } else {
                None
            },
        }
    }
}

/// Deserializes payload bytes as an embed response; the accepted shape is
/// kept in the returned variant, and the result is exactly what
/// [`parse_response`] says of the bytes.
pub fn deserialize_response(data: &[u8]) -> (r: Result<EmbedResponse, EmbeddingError>)
    ensures
        match r {
            Ok(resp) => parse_response(data@) == Some(resp.spec_shape()),
            Err(_) => parse_response(data@) is None,
        },
{
    proof {
        assert(data@.skip(0) =~= data@);
    }
    if data.len() < 1 {
        return Err(malformed_response());
    }
    if data[0] != TAG_MAP1 {
        let arr = match read_f32_array(data, 0) {
            None => {
                return Err(malformed_response());
            },
            Some(p) => p,
        };
        if arr.1 == data.len() {
            return Ok(EmbedResponse::DirectArray(arr.0));
        }
        return Err(malformed_response());
    }
    let key_part = match read_msg_str(data, 1) {
        None => {
            return Err(malformed_response());
        },
        Some(p) => p,
    };
    let pos = 1 + key_part.1;
    let arr = match read_f32_array(data, pos) {
        None => {
            return Err(malformed_response());
        },
        Some(p) => p,
    };
    if pos + arr.1 != data.len() {
        return Err(malformed_response());
    }
    if key_part.0 == "embedding".to_owned() {
        Ok(EmbedResponse::Wrapped { embedding: arr.0 })
    } else if key_part.0 == "vector".to_owned() {
        Ok(EmbedResponse::VectorWrapped { vector: arr.0 })
    } else {
        Err(malformed_response())
    }
}

/// The rejection of a payload that is not an accepted response encoding.
fn malformed_response() -> (r: EmbeddingError)
    ensures
        r is InvalidInput,
{
    EmbeddingError::InvalidInput { message: "malformed response payload".to_owned() }
}

/// A serialized response parses back as the bare array of the same
/// components, whichever shape it was built from.
pub proof fn lemma_response_roundtrip(response: EmbedResponse)
    requires
        response.spec_embedding().len() <= u32::MAX,
    ensures
        parse_response(msg_f32_array(response.spec_embedding())) == Some(
            ParsedPayload::Direct(response.spec_embedding()),
        ),
{
    let vals = response.spec_embedding();
    lemma_f32_array_parse(vals, Seq::<u8>::empty());
    let d = msg_f32_array(vals);
    assert(d =~= d + Seq::<u8>::empty());
    assert(d[0] == TAG_ARRAY32);
    assert(d[0] != TAG_MAP1);
}

/// The map shape `{"embedding": [...]}` parses to the wrapped variant of
/// the same components.
pub proof fn lemma_wrapped_embedding_accepted(vals: Seq<u32>)
    requires
        vals.len() <= u32::MAX,
    ensures
        parse_response(seq![TAG_MAP1] + msg_str("embedding"@) + msg_f32_array(vals)) == Some(
            ParsedPayload::Wrapped(vals),
        ),
{
    reveal_strlit("embedding");
    assert("embedding"@.len() == 9);
    assert(is_ascii_chars("embedding"@));
    lemma_wrapped_shape(vals, "embedding"@);
}

/// The map shape `{"vector": [...]}` parses to its variant of the same
/// components.
pub proof fn lemma_wrapped_vector_accepted(vals: Seq<u32>)
    requires
        vals.len() <= u32::MAX,
    ensures
        parse_response(seq![TAG_MAP1] + msg_str("vector"@) + msg_f32_array(vals)) == Some(
            ParsedPayload::Vector(vals),
        ),
{
    reveal_strlit("embedding");
    reveal_strlit("vector");
    assert("embedding"@.len() == 9);
    assert("vector"@.len() == 6);
    assert(is_ascii_chars("vector"@));
    lemma_wrapped_shape(vals, "vector"@);
}

/// The common reasoning of the two map shapes: a one-entry map whose key is
/// an ASCII text and whose value is a canonical float array parses as that
/// key with those components.
proof fn lemma_wrapped_shape(vals: Seq<u32>, key: Seq<char>)
    requires
        vals.len() <= u32::MAX,
        is_ascii_chars(key),
        key.len() <= u32::MAX,
    ensures
        ({
            let d = seq![TAG_MAP1] + msg_str(key) + msg_f32_array(vals);
            &&& d[0] == TAG_MAP1
            &&& parse_str(d.skip(1)) == Some((key, msg_str(key).len() as int))
            &&& parse_f32_array(d.skip(1 + msg_str(key).len() as int)) == Some(
                (vals, msg_f32_array(vals).len() as int),
            )
            &&& d.len() == 1 + msg_str(key).len() + msg_f32_array(vals).len()
        }),
{
    is_ascii_chars_encode_utf8(key);
    let d = seq![TAG_MAP1] + msg_str(key) + msg_f32_array(vals);
    assert(d[0] == TAG_MAP1);
    assert(d.skip(1) =~= msg_str(key) + msg_f32_array(vals));
    lemma_msg_str_parse(key, msg_f32_array(vals));
    let n = msg_str(key).len() as int;
    assert(d.skip(1 + n) =~= msg_f32_array(vals) + Seq::<u8>::empty());
    lemma_f32_array_parse(vals, Seq::<u8>::empty());
}

// ---------------------------------------------------------------------------
// Errors
// ---------------------------------------------------------------------------

/// The canonical encoding of an error payload: a one-element array holding
/// the message.
pub open spec fn spec_serialize_error(message: Seq<char>) -> Seq<u8> {
    seq![TAG_FIXARRAY1] + msg_str(message)
}

/// Serializes an error to its canonical payload bytes; fails only on a
/// message whose UTF-8 form cannot carry a 32-bit length.
pub fn serialize_error(error: &ErrorResponse) -> (r: Result<Vec<u8>, EmbeddingError>)
    ensures
        r is Ok <==> encode_utf8(error.error@).len() <= u32::MAX,
        r matches Ok(v) ==> v@ == spec_serialize_error(error.error@),
{
    let mut out: Vec<u8> = Vec::new();
    out.push(TAG_FIXARRAY1);
    if !push_msg_str(&mut out, error.error.as_str()) {
        return Err(EmbeddingError::InvalidInput {
            message: "error message too long to encode".to_owned(),
        });
    }
    assert(out@ =~= spec_serialize_error(error.error@));
    Ok(out)
}

} // verus!
