//! Contracts of the functions of std and of outside crates that the library calls. Nothing here
//! is proved: each contract says what the documentation or the source of the function gives.
use vstd::prelude::*;
use vstd::utf8::*;

verus! {

/// The metadata of a gRPC call, as tonic hands it over.
#[verifier::external_type_specification]
#[verifier::external_body]
pub struct ExMetadataMap(tonic::metadata::MetadataMap);

/// Why base64 text could not be decoded.
#[verifier::external_type_specification]
#[verifier::external_body]
pub struct ExDecodeError(base64::DecodeError);

/// The HTTP client that an adapter sends its requests with.
#[verifier::external_type_specification]
#[verifier::external_body]
pub struct ExClient(reqwest::Client);

/// Why an HTTP client could not be built.
#[verifier::external_type_specification]
#[verifier::external_body]
pub struct ExClientError(reqwest::Error);

/// Why bytes are no UTF-8 text.
#[verifier::external_type_specification]
#[verifier::external_body]
pub struct ExFromUtf8Error(std::string::FromUtf8Error);

/// What a metadata map holds: under each key that `MetadataMap::get` finds, the bytes of the value
/// that it hands back.
pub uninterp spec fn metadata_entries(meta: tonic::metadata::MetadataMap) -> Map<Seq<char>, Seq<u8>>;

/// Whether a byte may stand in a header value that is read as text: visible ASCII, space or tab.
pub open spec fn is_visible_ascii(b: u8) -> bool {
    32 <= b < 127 || b == 9
}

/// Whether a header value can be read as text.
pub open spec fn is_header_text(bytes: Seq<u8>) -> bool {
    forall|i: int| 0 <= i < bytes.len() ==> is_visible_ascii(#[trigger] bytes[i])
}

/// The text of ASCII bytes, one character for each.
pub open spec fn ascii_text(bytes: Seq<u8>) -> Seq<char> {
    Seq::new(bytes.len(), |i: int| bytes[i] as char)
}

/// The value under `key` as text, if there is one and it is text.
pub open spec fn entry_text(entries: Map<Seq<char>, Seq<u8>>, key: Seq<char>) -> Option<Seq<char>> {
    if entries.contains_key(key) && is_header_text(entries[key]) {
        Some(ascii_text(entries[key]))
    } else {
        None
    }
}

/// `tonic::metadata::MetadataMap::get`, with the value read by `MetadataValue::to_str`: the value
/// under `key` as text; nothing when there is none or when it holds a byte that is not visible
/// ASCII, space or tab.
#[verifier::external_body]
pub(crate) fn metadata_text(meta: &tonic::metadata::MetadataMap, key: &str) -> (text: Option<String>)
    ensures
        match text {
            Some(t) => entry_text(metadata_entries(*meta), key@) == Some(t@),
            None => entry_text(metadata_entries(*meta), key@) is None,
        },
{
    meta.get(key).and_then(|v| v.to_str().ok()).map(str::to_string)
}

/// `reqwest::header::HeaderValue::from_bytes` and `HeaderValue::to_str`: a header value as text,
/// unless it holds a byte that is not visible ASCII, space or tab.
#[verifier::external_body]
pub(crate) fn header_text(bytes: &[u8]) -> (text: Option<String>)
    ensures
        match text {
            Some(t) => is_header_text(bytes@) && t@ == ascii_text(bytes@),
            None => !is_header_text(bytes@),
        },
{
    let value = reqwest::header::HeaderValue::from_bytes(bytes).ok()?;
    value.to_str().ok().map(str::to_string)
}

/// Whether a byte may stand in the name of an HTTP method.
pub open spec fn is_token_byte(b: u8) -> bool {
    ||| '0' as u8 <= b <= '9' as u8
    ||| 'A' as u8 <= b <= 'Z' as u8
    ||| 'a' as u8 <= b <= 'z' as u8
    ||| b == '!' as u8
    ||| '#' as u8 <= b <= '\'' as u8
    ||| b == '*' as u8
    ||| b == '+' as u8
    ||| b == '-' as u8
    ||| b == '.' as u8
    ||| '^' as u8 <= b <= '`' as u8
    ||| b == '|' as u8
    ||| b == '~' as u8
}

/// Whether bytes are the name of an HTTP method: a token, which is not empty.
pub open spec fn is_method_name(bytes: Seq<u8>) -> bool {
    bytes.len() > 0 && forall|i: int| 0 <= i < bytes.len() ==> is_token_byte(#[trigger] bytes[i])
}

/// `reqwest::Method::from_bytes`, with the method read by `Method::as_str`: every token is a
/// method under its own name, and nothing else is one.
#[verifier::external_body]
pub(crate) fn method_name(bytes: &[u8]) -> (name: Option<String>)
    ensures
        match name {
            Some(n) => is_method_name(bytes@) && n@ == ascii_text(bytes@),
            None => !is_method_name(bytes@),
        },
{
    reqwest::Method::from_bytes(bytes).ok().map(|m| m.as_str().to_string())
}

/// The reason phrase that reqwest prints for a status code: the registered one, or a phrase for
/// codes without one.
pub uninterp spec fn status_reason(code: u16) -> Seq<char>;

/// `reqwest::StatusCode` as text: the code in decimal, a space and the reason phrase.
#[verifier::external_body]
pub(crate) fn status_text(code: u16) -> (text: String)
    requires
        100 <= code < 1000,
    ensures
        text@ == crate::text::decimal(code as nat) + " "@ + status_reason(code),
{
    reqwest::StatusCode::from_u16(code).unwrap().to_string()
}

/// `reqwest::ClientBuilder::build`, with `agent` as the user agent. What comes back depends on
/// the machine's TLS and proxy settings, and a client does not tell its user agent, so nothing is
/// said of either.
#[verifier::external_body]
pub(crate) fn http_client(agent: &str) -> (client: Result<reqwest::Client, reqwest::Error>) {
    reqwest::Client::builder().user_agent(agent).build()
}

/// Whether building an HTTP client with `agent` as its user agent may come to `built`.
pub closed spec fn client_built(
    agent: &str,
    built: Result<reqwest::Client, reqwest::Error>,
) -> bool {
    call_ensures(http_client, (agent,), built)
}

/// Build an HTTP client with `agent` as its user agent.
pub fn build_client(agent: &str) -> (built: Result<reqwest::Client, reqwest::Error>)
    ensures
        client_built(agent, built),
{
    http_client(agent)
}

/// Whether a byte stands for itself in a percent-encoded text.
pub open spec fn is_unreserved(b: u8) -> bool {
    ||| '0' as u8 <= b <= '9' as u8
    ||| 'A' as u8 <= b <= 'Z' as u8
    ||| 'a' as u8 <= b <= 'z' as u8
    ||| b == '-' as u8
    ||| b == '.' as u8
    ||| b == '_' as u8
    ||| b == '~' as u8
}

/// The upper-case hexadecimal digit for `n`.
pub open spec fn hex_digit(n: u8) -> char {
    if n < 10 {
        ('0' as u8 + n) as u8 as char
    } else {
        ('A' as u8 + (n - 10)) as u8 as char
    }
}

/// A byte in a percent-encoded text.
pub open spec fn percent_byte(b: u8) -> Seq<char> {
    if is_unreserved(b) {
        seq![b as char]
    } else {
        seq!['%', hex_digit(b / 16), hex_digit(b % 16)]
    }
}

/// Bytes, percent-encoded one after the other.
pub open spec fn percent_bytes(bytes: Seq<u8>) -> Seq<char>
    decreases bytes.len(),
{
    if bytes.len() == 0 {
        Seq::empty()
    } else {
        percent_bytes(bytes.drop_last()) + percent_byte(bytes.last())
    }
}

/// A text, percent-encoded: its UTF-8 bytes, all but the unreserved ones escaped.
pub open spec fn percent_encoded(text: Seq<char>) -> Seq<char> {
    percent_bytes(encode_utf8(text))
}

/// `urlencoding::encode`: every byte is percent-encoded except ASCII letters and digits, `-`,
/// `_`, `.` and `~`.
#[verifier::external_body]
pub(crate) fn url_encode(text: &str) -> (encoded: String)
    ensures
        encoded@ == percent_encoded(text@),
{
    urlencoding::encode(text).into_owned()
}

/// The bytes that `base64`'s standard engine decodes a text to, or nothing when it refuses it.
pub uninterp spec fn base64_decoded(text: Seq<char>) -> Option<Seq<u8>>;

/// `base64::Engine::decode` of the standard engine (standard alphabet, padding required).
#[verifier::external_body]
pub(crate) fn base64_decode(text: &str) -> (bytes: Result<Vec<u8>, base64::DecodeError>)
    ensures
        match bytes {
            Ok(b) => base64_decoded(text@) == Some(b@),
            Err(_) => base64_decoded(text@) is None,
        },
{
    base64::Engine::decode(&base64::engine::general_purpose::STANDARD, text)
}

/// `String::push` appends one character.
pub assume_specification[ String::push ](s: &mut String, c: char)
    ensures
        final(s)@ == old(s)@.push(c),
;

/// `String::from_utf8` takes exactly the bytes that are UTF-8, and gives the text they encode.
pub assume_specification[ String::from_utf8 ](bytes: Vec<u8>) -> (text: Result<
    String,
    std::string::FromUtf8Error,
>)
    ensures
        match text {
            Ok(t) => valid_utf8(bytes@) && t@ == decode_utf8(bytes@),
            Err(_) => !valid_utf8(bytes@),
        },
;

/// A text in lower case, by Unicode's mapping.
pub uninterp spec fn lowercased(text: Seq<char>) -> Seq<char>;

/// An ASCII letter in lower case, any other character as it is.
pub open spec fn ascii_lower(c: char) -> char {
    if 'A' <= c <= 'Z' {
        (c as u8 + 32) as u8 as char
    } else {
        c
    }
}

/// `str::to_lowercase` gives the text in lower case; of ASCII text it maps just the letters.
pub assume_specification[ str::to_lowercase ](s: &str) -> (lower: String)
    ensures
        lower@ == lowercased(s@),
        is_ascii_chars(s@) ==> lower@ == s@.map_values(|c: char| ascii_lower(c)),
;

/// Whether a character has Unicode's property `White_Space`.
pub open spec fn is_white_space(c: char) -> bool {
    ||| '\u{9}' <= c <= '\u{D}'
    ||| c == '\u{20}'
    ||| c == '\u{85}'
    ||| c == '\u{A0}'
    ||| c == '\u{1680}'
    ||| '\u{2000}' <= c <= '\u{200A}'
    ||| c == '\u{2028}'
    ||| c == '\u{2029}'
    ||| c == '\u{202F}'
    ||| c == '\u{205F}'
    ||| c == '\u{3000}'
}

/// `char::is_whitespace` tells whether a character has Unicode's property `White_Space`.
pub assume_specification[ char::is_whitespace ](c: char) -> (r: bool)
    ensures
        r == is_white_space(c),
;

} // verus!
