//! HTTP gateway message types and their validation rules.
//!
//! The gateway itself (routing, JSON, sockets) lives outside the verified
//! core; these are the request and response shapes it exchanges and the
//! decision logic of the embed endpoint: which requests are admitted and
//! which coded error each rejected request earns.

use crate::protocol::payload::bytes_to_string;
use vstd::prelude::*;
use vstd::string::StringExecFns;
use vstd::utf8::decode_utf8;
use vstd::utf8::encode_utf8;
use vstd::utf8::is_ascii_chars;
use vstd::utf8::is_ascii_chars_encode_utf8;

verus! {

broadcast use vstd::utf8::encode_utf8_valid_utf8, vstd::utf8::encode_utf8_decode_utf8;

/// Longest admitted request text, in bytes of its UTF-8 form.
pub const MAX_TEXT_BYTES: usize = 8192;

/// Embed request body of the HTTP gateway.
///
/// `chunk_style` and `chunk_size` are accepted for compatibility but not
/// consumed by the core.
#[derive(Debug, Clone)]
pub struct HttpEmbedRequest {
    /// Text to embed.
    pub text: String,
    /// Chunking style; defaults to "recursive".
    pub chunk_style: String,
    /// Chunk size; defaults to 100.
    pub chunk_size: usize,
    /// Optional model name.
    pub model: Option<String>,
}

/// The default chunking style of a request that names none.
pub fn default_chunk_style() -> (r: String)
    ensures
        r@ == "recursive"@,
{
    "recursive".to_owned()
}

/// The default chunk size of a request that names none.
pub fn default_chunk_size() -> (r: usize)
    ensures
        r == 100,
{
    100
}

/// The length of a text in bytes of its UTF-8 form.
fn text_byte_len(s: &str) -> (n: usize)
    ensures
        n == encode_utf8(s@).len(),
{
    s.as_bytes().len()
}

/// The character of one decimal digit.
pub open spec fn spec_digit_char(d: nat) -> char
    recommends
        d < 10,
{
    ((0x30 + d) as u8) as char
}

/// The decimal digits of `n`, most significant first.
pub open spec fn spec_decimal_digits(n: nat) -> Seq<char>
    decreases n,
{
    if n < 10 {
        seq![spec_digit_char(n)]
    } else {
        spec_decimal_digits(n / 10) + seq![spec_digit_char(n % 10)]
    }
}

/// The characters a digit-byte sequence spells, low-order byte first.
spec fn spec_low_chars(rev: Seq<u8>) -> Seq<char> {
    rev.reverse().map_values(|b: u8| b as char)
}

/// Appending a low-order digit byte prepends its character.
proof fn lemma_low_chars_push(rev: Seq<u8>, b: u8)
    ensures
        spec_low_chars(rev.push(b)) == seq![b as char] + spec_low_chars(rev),
{
    assert(rev.push(b).reverse() =~= seq![b] + rev.reverse());
    assert(spec_low_chars(rev.push(b)) =~= seq![b as char] + spec_low_chars(rev));
}

/// The decimal digit characters are ASCII.
proof fn lemma_decimal_digits_ascii(n: nat)
    ensures
        is_ascii_chars(spec_decimal_digits(n)),
        spec_decimal_digits(n).len() >= 1,
    decreases n,
{
    if n >= 10 {
        lemma_decimal_digits_ascii(n / 10);
    }
}

/// The decimal text of `n`.
fn decimal_string(n: usize) -> (s: String)
    ensures
        s@ == spec_decimal_digits(n as nat),
{
    let mut v: usize = n;
    let mut rev: Vec<u8> = Vec::new();
    loop
        invariant_except_break
            spec_decimal_digits(n as nat) == spec_decimal_digits(v as nat) + spec_low_chars(rev@),
        invariant
            forall|j: int| 0 <= j < rev@.len() ==> 0x30 <= #[trigger] rev@[j] <= 0x39,
        ensures
            spec_decimal_digits(n as nat) == spec_low_chars(rev@),
            forall|j: int| 0 <= j < rev@.len() ==> 0x30 <= #[trigger] rev@[j] <= 0x39,
        decreases v,
    {
        let b = 0x30 + (v % 10) as u8;
        proof {
            lemma_low_chars_push(rev@, b);
            if v < 10 {
                assert(spec_decimal_digits(v as nat) == seq![spec_digit_char(v as nat)]);
            } else {
                assert(spec_decimal_digits(v as nat) == spec_decimal_digits((v as nat) / 10)
                    + seq![spec_digit_char((v as nat) % 10)]);
            }
            assert(spec_decimal_digits((v as nat) / 10) + seq![b as char] + spec_low_chars(rev@)
                =~= spec_decimal_digits((v as nat) / 10) + (seq![b as char] + spec_low_chars(
                rev@,
            )));
            assert(seq![spec_digit_char(v as nat)] + spec_low_chars(rev@) =~= seq![b as char]
                + spec_low_chars(rev@) || v >= 10);
        }
        rev.push(b);
        if v < 10 {
            break;
        }
        v = v / 10;
    }
    let mut bytes: Vec<u8> = Vec::new();
    let mut i: usize = rev.len();
    while i > 0
        invariant
            i <= rev@.len(),
            bytes@.len() == rev@.len() - i,
            forall|j: int|
                0 <= j < bytes@.len() ==> (#[trigger] bytes@[j]) == rev@[rev@.len() - 1 - j],
        decreases i,
    {
        i = i - 1;
        bytes.push(rev[i]);
    }
    proof {
        assert(bytes@ =~= rev@.reverse());
        lemma_decimal_digits_ascii(n as nat);
        is_ascii_chars_encode_utf8(spec_decimal_digits(n as nat));
        assert(encode_utf8(spec_decimal_digits(n as nat)) =~= bytes@);
    }
    match bytes_to_string(bytes) {
        Some(s) => {
            proof {
                assert(decode_utf8(encode_utf8(s@)) == s@);
                assert(decode_utf8(encode_utf8(spec_decimal_digits(n as nat)))
                    == spec_decimal_digits(n as nat));
            }
            s
        },
        None => {
            proof {
                assert(false);
            }
            String::new()
        },
    }
}

/// The rejection message of an over-long text, reporting the offending
/// length.
pub open spec fn spec_too_long_message(length: nat) -> Seq<char> {
    "Text exceeds maximum length of 8192 characters (got "@ + spec_decimal_digits(length)
        + ")"@
}

/// Builds the rejection message of an over-long text.
fn too_long_message(length: usize) -> (m: String)
    ensures
        m@ == spec_too_long_message(length as nat),
{
    "Text exceeds maximum length of 8192 characters (got ".to_owned().concat(
        decimal_string(length).as_str(),
    ).concat(")")
}

impl HttpEmbedRequest {
    /// Admits the request exactly when its text is non-empty and at most
    /// [`MAX_TEXT_BYTES`] bytes long.
    pub fn validate(&self) -> (r: Result<(), String>)
        ensures
            r is Ok <==> 1 <= encode_utf8(self.text@).len() <= MAX_TEXT_BYTES,
            encode_utf8(self.text@).len() == 0 ==> (r matches Err(m) && m@
                == "Text field cannot be empty"@),
            encode_utf8(self.text@).len() > MAX_TEXT_BYTES ==> (r matches Err(m) && m@
                == spec_too_long_message(encode_utf8(self.text@).len())),
    {
        let n = text_byte_len(self.text.as_str());
        if n == 0 {
            return Err("Text field cannot be empty".to_owned());
        }
        if n > MAX_TEXT_BYTES {
            return Err(too_long_message(n));
        }
        Ok(())
    }
}

/// Error response body of the HTTP gateway, with a stable code.
#[derive(Debug, Clone)]
pub struct HttpErrorResponse {
    /// Error message.
    pub error: String,
    /// Stable error code, when one applies.
    pub code: Option<String>,
    /// Additional details, when any help.
    pub details: Option<String>,
}

impl HttpErrorResponse {
    /// A bare error message without code or details.
    pub fn new(error: &str) -> (r: HttpErrorResponse)
        ensures
            r.error@ == error@,
            r.code is None,
            r.details is None,
    {
        HttpErrorResponse { error: error.to_owned(), code: None, details: None }
    }

    /// The same error with a code attached.
    pub fn with_code(self, code: &str) -> (r: HttpErrorResponse)
        ensures
            r.error == self.error,
            r.code matches Some(c) && c@ == code@,
            r.details == self.details,
    {
        HttpErrorResponse { error: self.error, code: Some(code.to_owned()), details: self.details }
    }

    /// The same error with details attached.
    pub fn with_details(self, details: &str) -> (r: HttpErrorResponse)
        ensures
            r.error == self.error,
            r.code == self.code,
            r.details matches Some(d) && d@ == details@,
    {
        HttpErrorResponse { error: self.error, code: self.code, details: Some(details.to_owned()) }
    }

    /// The rejection of a request missing required fields.
    pub fn missing_fields() -> (r: HttpErrorResponse)
        ensures
            r.error@ == "Missing required fields"@,
            r.code matches Some(c) && c@ == "MISSING_REQUIRED_FIELDS"@,
            r.details is None,
    {
        HttpErrorResponse {
            error: "Missing required fields".to_owned(),
            code: Some("MISSING_REQUIRED_FIELDS".to_owned()),
            details: None,
        }
    }

    /// The rejection of an empty request text.
    pub fn empty_text() -> (r: HttpErrorResponse)
        ensures
            r.error@ == "Text field cannot be empty"@,
            r.code matches Some(c) && c@ == "EMPTY_TEXT"@,
            r.details is None,
    {
        HttpErrorResponse {
            error: "Text field cannot be empty".to_owned(),
            code: Some("EMPTY_TEXT".to_owned()),
            details: None,
        }
    }

    /// The rejection of an over-long request text, reporting the offending
    /// length.
    pub fn text_too_long(length: usize) -> (r: HttpErrorResponse)
        ensures
            r.error@ == spec_too_long_message(length as nat),
            r.code matches Some(c) && c@ == "TEXT_TOO_LONG"@,
            r.details is None,
    {
        HttpErrorResponse {
            error: too_long_message(length),
            code: Some("TEXT_TOO_LONG".to_owned()),
            details: None,
        }
    }

    /// The failure reported while the model is still loading.
    pub fn model_not_ready() -> (r: HttpErrorResponse)
        ensures
            r.error@ == "Embedding model is still loading, please try again later"@,
            r.code matches Some(c) && c@ == "MODEL_NOT_READY"@,
            r.details is None,
    {
        HttpErrorResponse {
            error: "Embedding model is still loading, please try again later".to_owned(),
            code: Some("MODEL_NOT_READY".to_owned()),
            details: None,
        }
    }

    /// An internal failure, with its details carried along.
    pub fn internal_error(details: &str) -> (r: HttpErrorResponse)
        ensures
            r.error@ == "Internal server error occurred during embedding generation"@,
            r.code matches Some(c) && c@ == "INTERNAL_ERROR"@,
            r.details matches Some(d) && d@ == details@,
    {
        HttpErrorResponse {
            error: "Internal server error occurred during embedding generation".to_owned(),
            code: Some("INTERNAL_ERROR".to_owned()),
            details: Some(details.to_owned()),
        }
    }
}

/// The decision core of the embed endpoint: admits the request or picks the
/// coded rejection the gateway sends back.
pub fn validate_embed_request(req: &HttpEmbedRequest) -> (r: Result<(), HttpErrorResponse>)
    ensures
        r is Ok <==> 1 <= encode_utf8(req.text@).len() <= MAX_TEXT_BYTES,
        encode_utf8(req.text@).len() == 0 ==> (r matches Err(e) && e.code matches Some(c) && c@
            == "EMPTY_TEXT"@),
        encode_utf8(req.text@).len() > MAX_TEXT_BYTES ==> (r matches Err(e) && e.code
            matches Some(c) && c@ == "TEXT_TOO_LONG"@ && e.error@ == spec_too_long_message(
            encode_utf8(req.text@).len(),
        )),
{
    let n = text_byte_len(req.text.as_str());
    if n == 0 {
        Err(HttpErrorResponse::empty_text())
    } else if n > MAX_TEXT_BYTES {
        Err(HttpErrorResponse::text_too_long(n))
    } else {
        Ok(())
    }
}

/// Health check response of the HTTP gateway.
#[derive(Debug, Clone)]
pub struct HealthResponse {
    pub status: String,
    pub model: String,
    pub version: String,
    pub embedding_dimension: usize,
}

impl HealthResponse {
    /// The healthy report, carrying the probed model and its dimension.
    pub fn healthy(model: &str, dimension: usize) -> (r: HealthResponse)
        ensures
            r.status@ == "healthy"@,
            r.model@ == model@,
            r.version@ == "0.1.0"@,
            r.embedding_dimension == dimension,
    {
        HealthResponse {
            status: "healthy".to_owned(),
            model: model.to_owned(),
            version: "0.1.0".to_owned(),
            embedding_dimension: dimension,
        }
    }
}

} // verus!
