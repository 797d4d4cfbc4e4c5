//! The HTTP side of the RadishFlow control plane: endpoint URLs, requests,
//! how responses and transport failures map to client errors.
use vstd::prelude::*;

use crate::error::{ErrorCode, RfError};
use vstd::utf8::{encode_scalar, encode_utf8, has_width_1_encoding, has_width_2_encoding, has_width_3_encoding};
use crate::text::{
    chars_of, decimal_text, is_blank, push_char, push_decimal, push_str, string_from_chars,
    lemma_trim_end_slashes_no_trailing_slash, trim_bounds, trim_end_slashes, trim_text,
};

verus! {

/// The protocol schema version this client speaks.
pub const RADISHFLOW_CONTROL_PLANE_SCHEMA_VERSION: u32 = 1;

/// A base URL without surrounding white space and trailing slashes.
pub open spec fn normalized_base_url(s: Seq<char>) -> Seq<char> {
    trim_end_slashes(trim_text(s))
}

/// The base URL with surrounding white space and trailing slashes removed,
/// or an error where nothing is left.
pub fn normalize_base_url(base_url: &str) -> (r: Result<String, RfError>)
    ensures
        match r {
            Ok(s) => s@ == normalized_base_url(base_url@) && s@.len() > 0,
            Err(e) => normalized_base_url(base_url@).len() == 0 && e.code == ErrorCode::InvalidInput
                && e.message@ == "radishflow control plane base_url must not be empty"@,
        },
{
    let v = chars_of(base_url);
    let (start, trimmed_end) = trim_bounds(&v);
    let mut end = trimmed_end;
    proof {
        assert(v@.subrange(start as int, end as int) == trim_text(base_url@));
    }
    while end > start && v[end - 1] == '/'
        invariant
            start <= end <= v@.len(),
            normalized_base_url(base_url@) == trim_end_slashes(v@.subrange(start as int, end as int)),
        decreases end - start,
    {
        assert(v@.subrange(start as int, end as int).drop_last() =~= v@.subrange(
            start as int,
            end - 1,
        ));
        end = end - 1;
    }
    if end == start {
        return Err(
            RfError::invalid_input(
                String::from_str("radishflow control plane base_url must not be empty"),
            ),
        );
    }
    Ok(string_from_chars(&v, start, end))
}

/// Whether a byte may stand unescaped in a URL path segment (RFC 3986
/// unreserved characters).
pub open spec fn is_unreserved_byte(b: u8) -> bool {
    ||| 0x30 <= b <= 0x39
    ||| 0x41 <= b <= 0x5A
    ||| 0x61 <= b <= 0x7A
    ||| b == 0x2D
    ||| b == 0x2E
    ||| b == 0x5F
    ||| b == 0x7E
}

/// The upper-case hexadecimal digit for `n` (`0 <= n < 16`).
pub open spec fn hex_upper(n: int) -> char {
    if n < 10 {
        crate::text::digit_char(n)
    } else if n == 10 {
        'A'
    } else if n == 11 {
        'B'
    } else if n == 12 {
        'C'
    } else if n == 13 {
        'D'
    } else if n == 14 {
        'E'
    } else {
        'F'
    }
}

/// One byte of a path segment: itself when unreserved, else `%` and two
/// upper-case hexadecimal digits.
pub open spec fn percent_encode_byte(b: u8) -> Seq<char> {
    if is_unreserved_byte(b) {
        seq![b as char]
    } else {
        seq!['%', hex_upper((b / 16) as int), hex_upper((b % 16) as int)]
    }
}

/// A byte string percent-encoded for a URL path segment.
pub open spec fn percent_encoded(bytes: Seq<u8>) -> Seq<char>
    decreases bytes.len(),
{
    if bytes.len() == 0 {
        Seq::empty()
    } else {
        percent_encoded(bytes.drop_last()) + percent_encode_byte(bytes.last())
    }
}

/// The value of an upper-case hexadecimal digit, if `c` is one.
pub open spec fn hex_upper_value(c: char) -> Option<int> {
    if '0' <= c && c <= '9' {
        Some(c as int - '0' as int)
    } else if 'A' <= c && c <= 'F' {
        Some(c as int - 'A' as int + 10)
    } else {
        None
    }
}

/// Percent-decoding of a path segment: `%` and two upper-case hexadecimal
/// digits give their byte, an unreserved ASCII character gives itself;
/// anything else does not decode.
pub open spec fn percent_decoded(s: Seq<char>) -> Option<Seq<u8>>
    decreases s.len(),
{
    if s.len() == 0 {
        Some(Seq::empty())
    } else if s[0] == '%' {
        if s.len() >= 3 && hex_upper_value(s[1]) is Some && hex_upper_value(s[2]) is Some {
            match percent_decoded(s.subrange(3, s.len() as int)) {
                Some(rest) => Some(
                    seq![(hex_upper_value(s[1]).unwrap() * 16 + hex_upper_value(s[2]).unwrap()) as u8]
                        + rest,
                ),
                None => None,
            }
        } else {
            None
        }
    } else if (s[0] as int) < 128 && is_unreserved_byte(s[0] as u8) {
        match percent_decoded(s.subrange(1, s.len() as int)) {
            Some(rest) => Some(seq![s[0] as u8] + rest),
            None => None,
        }
    } else {
        None
    }
}

/// Whether `c` may stand in an encoded path segment: `%` or an unreserved
/// ASCII character.
pub open spec fn is_encoded_segment_char(c: char) -> bool {
    c == '%' || ((c as int) < 128 && is_unreserved_byte(c as u8))
}

proof fn lemma_hex_upper_round_trip(n: int)
    requires
        0 <= n < 16,
    ensures
        hex_upper_value(hex_upper(n)) == Some(n),
        (hex_upper(n) as int) < 128 && is_unreserved_byte(hex_upper(n) as u8),
{
}

/// Encoding a byte string starts with the encoding of its first byte.
proof fn lemma_percent_encoded_front(bytes: Seq<u8>)
    requires
        bytes.len() > 0,
    ensures
        percent_encoded(bytes) == percent_encode_byte(bytes[0]) + percent_encoded(bytes.drop_first()),
    decreases bytes.len(),
{
    if bytes.len() == 1 {
        assert(bytes.drop_last() =~= Seq::<u8>::empty());
        assert(bytes.drop_first() =~= Seq::<u8>::empty());
        assert(percent_encoded(bytes) =~= percent_encode_byte(bytes[0]) + percent_encoded(bytes.drop_first()));
    } else {
        lemma_percent_encoded_front(bytes.drop_last());
        assert(bytes.drop_last().drop_first() =~= bytes.drop_first().drop_last());
        assert(bytes.drop_first().last() == bytes.last());
        assert(bytes.drop_last()[0] == bytes[0]);
        assert(percent_encoded(bytes) =~= percent_encode_byte(bytes[0]) + percent_encoded(bytes.drop_first()));
    }
}

/// Decoding the encoding of a byte followed by more text decodes the byte,
/// then the rest.
proof fn lemma_percent_decode_byte(b: u8, t: Seq<char>)
    ensures
        percent_decoded(percent_encode_byte(b) + t) == match percent_decoded(t) {
            Some(rest) => Some(seq![b] + rest),
            None => None::<Seq<u8>>,
        },
{
    let e = percent_encode_byte(b) + t;
    if is_unreserved_byte(b) {
        assert(e[0] == b as char);
        assert(e.subrange(1, e.len() as int) =~= t);
        assert((b as char) as u8 == b);
    } else {
        lemma_hex_upper_round_trip((b / 16) as int);
        lemma_hex_upper_round_trip((b % 16) as int);
        assert(e[0] == '%');
        assert(e[1] == hex_upper((b / 16) as int));
        assert(e[2] == hex_upper((b % 16) as int));
        assert(e.subrange(3, e.len() as int) =~= t);
        assert(((b / 16) * 16 + b % 16) as u8 == b);
    }
}

/// Percent-decoding the encoding of a byte string gives the byte string
/// back.
pub proof fn lemma_percent_decode_round_trip(bytes: Seq<u8>)
    ensures
        percent_decoded(percent_encoded(bytes)) == Some(bytes),
    decreases bytes.len(),
{
    if bytes.len() > 0 {
        lemma_percent_encoded_front(bytes);
        lemma_percent_decode_round_trip(bytes.drop_first());
        lemma_percent_decode_byte(bytes[0], percent_encoded(bytes.drop_first()));
        assert(seq![bytes[0]] + bytes.drop_first() =~= bytes);
    }
}

/// An encoded segment holds only `%` and unreserved ASCII characters (so
/// no `/`), every `%` is followed by two upper-case hexadecimal digits, and
/// it is the byte string itself exactly when every byte is unreserved.
pub proof fn lemma_percent_encoded_characters(bytes: Seq<u8>)
    ensures
        forall|i: int| 0 <= i < percent_encoded(bytes).len() ==> is_encoded_segment_char(
            #[trigger] percent_encoded(bytes)[i],
        ),
        forall|i: int| 0 <= i < percent_encoded(bytes).len() ==> #[trigger] percent_encoded(bytes)[i]
            != '/',
        forall|i: int| 0 <= i < percent_encoded(bytes).len() && #[trigger] percent_encoded(bytes)[i]
            == '%' ==> i + 2 < percent_encoded(bytes).len() && hex_upper_value(
            percent_encoded(bytes)[i + 1],
        ) is Some && hex_upper_value(percent_encoded(bytes)[i + 2]) is Some,
        (percent_encoded(bytes) == bytes.map_values(|b: u8| b as char)) <==> (forall|i: int|
            0 <= i < bytes.len() ==> is_unreserved_byte(#[trigger] bytes[i])),
    decreases bytes.len(),
{
    let e = percent_encoded(bytes);
    if bytes.len() == 0 {
        assert(bytes.map_values(|b: u8| b as char) =~= e);
    } else {
        let p = bytes.drop_last();
        let b = bytes.last();
        lemma_percent_encoded_characters(p);
        let pe = percent_encoded(p);
        let eb = percent_encode_byte(b);
        assert(e == pe + eb);
        if !is_unreserved_byte(b) {
            lemma_hex_upper_round_trip((b / 16) as int);
            lemma_hex_upper_round_trip((b % 16) as int);
        }
        assert forall|i: int| 0 <= i < e.len() implies is_encoded_segment_char(#[trigger] e[i]) && e[i]
            != '/' by {
            if i < pe.len() {
                assert(e[i] == pe[i]);
            } else {
                assert(e[i] == eb[i - pe.len()]);
            }
        }
        assert forall|i: int| 0 <= i < e.len() && #[trigger] e[i] == '%' implies i + 2 < e.len()
            && hex_upper_value(e[i + 1]) is Some && hex_upper_value(e[i + 2]) is Some by {
            if i < pe.len() {
                assert(e[i] == pe[i]);
                assert(e[i + 1] == pe[i + 1]);
                assert(e[i + 2] == pe[i + 2]);
            } else {
                assert(e[i] == eb[i - pe.len()]);
                assert(i == pe.len());
            }
        }
        // Lengths: encoding never shortens, and lengthens at each reserved byte.
        lemma_percent_encoded_len(bytes);
        let m = bytes.map_values(|b: u8| b as char);
        let mp = p.map_values(|b: u8| b as char);
        assert(m =~= mp.push(b as char));
        if forall|i: int| 0 <= i < bytes.len() ==> is_unreserved_byte(#[trigger] bytes[i]) {
            assert forall|i: int| 0 <= i < p.len() implies is_unreserved_byte(#[trigger] p[i]) by {
                assert(p[i] == bytes[i]);
            }
            assert(is_unreserved_byte(bytes[bytes.len() - 1]));
            assert(e =~= m);
        } else {
            let j = choose|i: int| 0 <= i < bytes.len() && !is_unreserved_byte(#[trigger] bytes[i]);
            lemma_percent_encoded_len_reserved(bytes, j);
            assert(e.len() != m.len());
        }
    }
}

/// Encoding never shortens a byte string.
proof fn lemma_percent_encoded_len(bytes: Seq<u8>)
    ensures
        percent_encoded(bytes).len() >= bytes.len(),
    decreases bytes.len(),
{
    if bytes.len() > 0 {
        lemma_percent_encoded_len(bytes.drop_last());
    }
}

/// A reserved byte makes the encoding longer than the byte string.
proof fn lemma_percent_encoded_len_reserved(bytes: Seq<u8>, j: int)
    requires
        0 <= j < bytes.len(),
        !is_unreserved_byte(bytes[j]),
    ensures
        percent_encoded(bytes).len() > bytes.len(),
    decreases bytes.len(),
{
    lemma_percent_encoded_len(bytes.drop_last());
    if j < bytes.len() - 1 {
        assert(bytes.drop_last()[j] == bytes[j]);
        lemma_percent_encoded_len_reserved(bytes.drop_last(), j);
    }
}

/// A character whose UTF-8 encoding starts with an unreserved byte is that
/// single ASCII byte.
proof fn lemma_unreserved_leading_byte(c: char)
    ensures
        encode_scalar(c as u32).len() >= 1,
        is_unreserved_byte(encode_scalar(c as u32)[0]) ==> encode_scalar(c as u32) == seq![
            encode_scalar(c as u32)[0],
        ] && encode_scalar(c as u32)[0] as u32 == c as u32,
{
    vstd::utf8::char_is_scalar(c);
    let v = c as u32;
    if has_width_1_encoding(v) {
        assert((v & 0x7F) == v) by (bit_vector)
            requires
                v <= 0x7F,
        ;
    } else if has_width_2_encoding(v) {
        let x: u8 = ((v >> 6) & 0x1F) as u8;
        assert((0xC0u8 | x) >= 0xC0u8) by (bit_vector);
    } else if has_width_3_encoding(v) {
        let x: u8 = ((v >> 12) & 0x0F) as u8;
        assert((0xE0u8 | x) >= 0xC0u8) by (bit_vector);
    } else {
        let x: u8 = ((v >> 18) & 0x7) as u8;
        assert((0xF0u8 | x) >= 0xC0u8) by (bit_vector);
    }
}

/// UTF-8 never has fewer bytes than characters, and where every byte is
/// unreserved each byte is its character.
proof fn lemma_utf8_of_unreserved(chars: Seq<char>)
    ensures
        encode_utf8(chars).len() >= chars.len(),
        (forall|i: int| 0 <= i < encode_utf8(chars).len() ==> is_unreserved_byte(
            #[trigger] encode_utf8(chars)[i],
        )) ==> encode_utf8(chars).map_values(|b: u8| b as char) == chars,
    decreases chars.len(),
{
    if chars.len() > 0 {
        let c = chars[0];
        let head = encode_scalar(c as u32);
        let rest = encode_utf8(chars.drop_first());
        lemma_unreserved_leading_byte(c);
        lemma_utf8_of_unreserved(chars.drop_first());
        let e = encode_utf8(chars);
        assert(e == head + rest);
        if forall|i: int| 0 <= i < e.len() ==> is_unreserved_byte(#[trigger] e[i]) {
            assert(e[0] == head[0]);
            assert(is_unreserved_byte(head[0]));
            assert forall|i: int| 0 <= i < rest.len() implies is_unreserved_byte(#[trigger] rest[i]) by {
                assert(e[i + 1] == rest[i]);
            }
            vstd::utf8::char_u32_cast(c, c as u32);
            assert((head[0] as char) == c);
            let m = e.map_values(|b: u8| b as char);
            let mr = rest.map_values(|b: u8| b as char);
            assert(mr == chars.drop_first());
            assert(m.len() == chars.len());
            assert forall|i: int| 0 <= i < chars.len() implies m[i] == chars[i] by {
                if i > 0 {
                    assert(e[i] == rest[i - 1]);
                    assert(mr[i - 1] == chars.drop_first()[i - 1]);
                }
            }
            assert(m =~= chars);
        }
    }
}

fn hex_digit(n: u8) -> (c: char)
    requires
        n < 16,
    ensures
        c == hex_upper(n as int),
{
    if n < 10 {
        if n == 0 {
            '0'
        } else if n == 1 {
            '1'
        } else if n == 2 {
            '2'
        } else if n == 3 {
            '3'
        } else if n == 4 {
            '4'
        } else if n == 5 {
            '5'
        } else if n == 6 {
            '6'
        } else if n == 7 {
            '7'
        } else if n == 8 {
            '8'
        } else {
            '9'
        }
    } else if n == 10 {
        'A'
    } else if n == 11 {
        'B'
    } else if n == 12 {
        'C'
    } else if n == 13 {
        'D'
    } else if n == 14 {
        'E'
    } else {
        'F'
    }
}

/// The UTF-8 bytes of `segment`, percent-encoded for a URL path segment.
pub fn percent_encode_path_segment(segment: &str) -> (r: String)
    ensures
        r@ == percent_encoded(vstd::utf8::encode_utf8(segment@)),
        (r@ == segment@) <==> (forall|i: int| 0 <= i < encode_utf8(segment@).len() ==> is_unreserved_byte(
            #[trigger] encode_utf8(segment@)[i],
        )),
{
    proof {
        let b = encode_utf8(segment@);
        lemma_percent_encoded_characters(b);
        lemma_utf8_of_unreserved(segment@);
        if !(forall|i: int| 0 <= i < b.len() ==> is_unreserved_byte(#[trigger] b[i])) {
            let j = choose|i: int| 0 <= i < b.len() && !is_unreserved_byte(#[trigger] b[i]);
            lemma_percent_encoded_len_reserved(b, j);
        }
    }
    let bytes = segment.as_bytes();
    let mut encoded = String::new();
    let mut i: usize = 0;
    while i < bytes.len()
        invariant
            i <= bytes@.len(),
            bytes@ == vstd::utf8::encode_utf8(segment@),
            encoded@ == percent_encoded(bytes@.subrange(0, i as int)),
        decreases bytes@.len() - i,
    {
        let byte = bytes[i];
        let ghost before = encoded@;
        if (0x30 <= byte && byte <= 0x39) || (0x41 <= byte && byte <= 0x5A) || (0x61 <= byte
            && byte <= 0x7A) || byte == 0x2D || byte == 0x2E || byte == 0x5F || byte == 0x7E {
            push_char(&mut encoded, byte as char);
        } else {
            push_char(&mut encoded, '%');
            push_char(&mut encoded, hex_digit(byte / 16));
            push_char(&mut encoded, hex_digit(byte % 16));
        }
        assert(encoded@ =~= before + percent_encode_byte(byte));
        assert(bytes@.subrange(0, i + 1).drop_last() =~= bytes@.subrange(0, i as int));
        i = i + 1;
    }
    assert(bytes@.subrange(0, bytes@.len() as int) =~= bytes@);
    encoded
}

/// Where the control plane lives.
#[derive(Debug, Clone, PartialEq, Eq)]
pub struct RadishFlowControlPlaneEndpoints {
    base_url: String,
}

impl RadishFlowControlPlaneEndpoints {
    /// The normalized base URL.
    pub closed spec fn spec_base_url(&self) -> Seq<char> {
        self.base_url@
    }

    /// Endpoints under `base_url`, normalized; an error where the base URL is
    /// blank or only slashes.
    pub fn new(base_url: &str) -> (r: Result<Self, RfError>)
        ensures
            match r {
                Ok(e) => e.spec_base_url() == normalized_base_url(base_url@) && normalized_base_url(
                    base_url@,
                ).len() > 0 && normalized_base_url(base_url@).last() != '/',
                Err(e) => normalized_base_url(base_url@).len() == 0 && e.code
                    == ErrorCode::InvalidInput && e.message@
                    == "radishflow control plane base_url must not be empty"@,
            },
    {
        proof {
            lemma_trim_end_slashes_no_trailing_slash(trim_text(base_url@));
        }
        match normalize_base_url(base_url) {
            Ok(normalized) => Ok(RadishFlowControlPlaneEndpoints { base_url: normalized }),
            Err(e) => Err(e),
        }
    }

    /// The normalized base URL.
    pub fn base_url(&self) -> (r: &str)
        ensures
            r@ == self.spec_base_url(),
    {
        self.base_url.as_str()
    }

    fn join_path(&self, path: &str) -> (r: String)
        ensures
            r@ == self.spec_base_url() + path@,
    {
        let mut url = self.base_url.clone();
        push_str(&mut url, path);
        url
    }

    /// The URL of the current entitlement snapshot.
    pub fn entitlement_snapshot_url(&self) -> (r: String)
        ensures
            r@ == self.spec_base_url() + "/api/radishflow/entitlements/current"@,
    {
        self.join_path("/api/radishflow/entitlements/current")
    }

    /// The URL of the property package manifest list.
    pub fn property_package_manifest_url(&self) -> (r: String)
        ensures
            r@ == self.spec_base_url() + "/api/radishflow/property-packages/manifest"@,
    {
        self.join_path("/api/radishflow/property-packages/manifest")
    }

    /// The URL that grants a lease for `package_id`, the id percent-encoded.
    pub fn property_package_lease_url(&self, package_id: &str) -> (r: String)
        ensures
            r@ == self.spec_base_url() + "/api/radishflow/property-packages/"@ + percent_encoded(
                vstd::utf8::encode_utf8(package_id@),
            ) + "/lease"@,
    {
        let mut path = String::from_str("/api/radishflow/property-packages/");
        let encoded = percent_encode_path_segment(package_id);
        push_str(&mut path, encoded.as_str());
        push_str(&mut path, "/lease");
        let url = self.join_path(path.as_str());
        assert(url@ =~= self.spec_base_url() + "/api/radishflow/property-packages/"@
            + percent_encoded(vstd::utf8::encode_utf8(package_id@)) + "/lease"@);
        url
    }

    /// The URL that refreshes offline leases.
    pub fn offline_lease_refresh_url(&self) -> (r: String)
        ensures
            r@ == self.spec_base_url() + "/api/radishflow/offline-leases/refresh"@,
    {
        self.join_path("/api/radishflow/offline-leases/refresh")
    }
}

/// HTTP methods the client uses.
#[derive(Debug, Clone, Copy, PartialEq, Eq, Hash, Structural)]
pub enum RadishFlowControlPlaneHttpMethod {
    Get,
    Post,
}

/// A request handed to the transport.
#[derive(Debug, Clone, PartialEq, Eq)]
pub struct RadishFlowControlPlaneHttpRequest {
    pub method: RadishFlowControlPlaneHttpMethod,
    pub url: String,
    pub bearer_token: String,
    pub accept_content_types: Vec<String>,
    pub content_type: Option<String>,
    pub body: Option<String>,
}

/// Whether a list of content types is exactly `application/json`.
pub open spec fn accepts_json_only(types: Seq<String>) -> bool {
    types.len() == 1 && types[0]@ == "application/json"@
}

impl RadishFlowControlPlaneHttpRequest {
    /// A GET of `url` with a bearer token, accepting JSON.
    pub fn new_get(url: String, bearer_token: String) -> (r: Self)
        ensures
            r.method == RadishFlowControlPlaneHttpMethod::Get,
            r.url@ == url@,
            r.bearer_token@ == bearer_token@,
            accepts_json_only(r.accept_content_types@),
            r.content_type is None,
            r.body is None,
    {
        let mut accept = Vec::new();
        accept.push(String::from_str("application/json"));
        RadishFlowControlPlaneHttpRequest {
            method: RadishFlowControlPlaneHttpMethod::Get,
            url,
            bearer_token,
            accept_content_types: accept,
            content_type: None,
            body: None,
        }
    }

    /// A POST of a JSON `body` to `url` with a bearer token, accepting JSON.
    pub fn new_post_json(url: String, bearer_token: String, body: String) -> (r: Self)
        ensures
            r.method == RadishFlowControlPlaneHttpMethod::Post,
            r.url@ == url@,
            r.bearer_token@ == bearer_token@,
            accepts_json_only(r.accept_content_types@),
            r.content_type is Some && r.content_type.unwrap()@ == "application/json"@,
            r.body is Some && r.body.unwrap()@ == body@,
    {
        let mut accept = Vec::new();
        accept.push(String::from_str("application/json"));
        RadishFlowControlPlaneHttpRequest {
            method: RadishFlowControlPlaneHttpMethod::Post,
            url,
            bearer_token,
            accept_content_types: accept,
            content_type: Some(String::from_str("application/json")),
            body: Some(body),
        }
    }
}

/// A response the transport hands back.
#[derive(Debug, Clone, PartialEq, Eq)]
pub struct RadishFlowControlPlaneHttpResponse {
    pub status_code: u16,
    pub body: String,
    pub content_type: Option<String>,
    pub received_at: i128,
}

impl RadishFlowControlPlaneHttpResponse {
    /// A JSON response.
    pub fn new(status_code: u16, body: String, received_at: i128) -> (r: Self)
        ensures
            r.status_code == status_code,
            r.body@ == body@,
            r.content_type is Some && r.content_type.unwrap()@ == "application/json"@,
            r.received_at == received_at,
    {
        RadishFlowControlPlaneHttpResponse {
            status_code,
            body,
            content_type: Some(String::from_str("application/json")),
            received_at,
        }
    }
}

/// Classes of transport failure.
#[derive(Debug, Clone, Copy, PartialEq, Eq, Hash, Structural)]
pub enum RadishFlowControlPlaneHttpTransportErrorKind {
    Timeout,
    ConnectionUnavailable,
    OtherTransient,
    OtherPermanent,
}

/// A transport failure.
#[derive(Debug, Clone, PartialEq, Eq)]
pub struct RadishFlowControlPlaneHttpTransportError {
    pub kind: RadishFlowControlPlaneHttpTransportErrorKind,
    pub message: String,
}

impl RadishFlowControlPlaneHttpTransportError {
    /// A transport failure of `kind`.
    pub fn new(kind: RadishFlowControlPlaneHttpTransportErrorKind, message: String) -> (r: Self)
        ensures
            r.kind == kind,
            r.message@ == message@,
    {
        RadishFlowControlPlaneHttpTransportError { kind, message }
    }

    /// A timeout.
    pub fn timeout(message: String) -> (r: Self)
        ensures
            r.kind == RadishFlowControlPlaneHttpTransportErrorKind::Timeout,
            r.message@ == message@,
    {
        Self::new(RadishFlowControlPlaneHttpTransportErrorKind::Timeout, message)
    }

    /// No connection could be made.
    pub fn connection_unavailable(message: String) -> (r: Self)
        ensures
            r.kind == RadishFlowControlPlaneHttpTransportErrorKind::ConnectionUnavailable,
            r.message@ == message@,
    {
        Self::new(RadishFlowControlPlaneHttpTransportErrorKind::ConnectionUnavailable, message)
    }

    /// Another failure worth retrying.
    pub fn other_transient(message: String) -> (r: Self)
        ensures
            r.kind == RadishFlowControlPlaneHttpTransportErrorKind::OtherTransient,
            r.message@ == message@,
    {
        Self::new(RadishFlowControlPlaneHttpTransportErrorKind::OtherTransient, message)
    }

    /// Another failure not worth retrying.
    pub fn other_permanent(message: String) -> (r: Self)
        ensures
            r.kind == RadishFlowControlPlaneHttpTransportErrorKind::OtherPermanent,
            r.message@ == message@,
    {
        Self::new(RadishFlowControlPlaneHttpTransportErrorKind::OtherPermanent, message)
    }
}

/// Settings of the HTTP transport the application builds: how long a
/// request may take and the user agent it sends.
#[derive(Debug, Clone, PartialEq, Eq)]
pub struct ReqwestRadishFlowControlPlaneHttpTransportOptions {
    pub request_timeout: u128,
    pub user_agent: String,
}

impl ReqwestRadishFlowControlPlaneHttpTransportOptions {
    /// The default settings of a build of version `package_version`: thirty
    /// seconds per request, user agent `radishflow-studio/<version>`.
    pub fn for_version(package_version: &str) -> (r: Self)
        ensures
            r.request_timeout == 30_000_000_000,
            r.user_agent@ == "radishflow-studio/"@ + package_version@,
    {
        let mut user_agent = String::from_str("radishflow-studio/");
        push_str(&mut user_agent, package_version);
        ReqwestRadishFlowControlPlaneHttpTransportOptions {
            request_timeout: 30_000_000_000,
            user_agent,
        }
    }
}

/// The first problem of transport settings: a zero timeout, a blank user
/// agent.
pub fn validate_transport_options(options: &ReqwestRadishFlowControlPlaneHttpTransportOptions) -> (r:
    Result<(), RfError>)
    ensures
        options.request_timeout == 0 ==> r is Err && r->Err_0.code == ErrorCode::InvalidInput
            && r->Err_0.message@ == "reqwest control plane transport timeout must be greater than zero"@,
        options.request_timeout != 0 && trim_text(options.user_agent@).len() == 0 ==> r is Err
            && r->Err_0.code == ErrorCode::InvalidInput && r->Err_0.message@
            == "reqwest control plane transport user_agent must not be empty"@,
        options.request_timeout != 0 && trim_text(options.user_agent@).len() > 0 ==> r is Ok,
{
    if options.request_timeout == 0 {
        return Err(
            RfError::invalid_input(
                String::from_str("reqwest control plane transport timeout must be greater than zero"),
            ),
        );
    }
    if is_blank(options.user_agent.as_str()) {
        return Err(
            RfError::invalid_input(
                String::from_str("reqwest control plane transport user_agent must not be empty"),
            ),
        );
    }
    Ok(())
}

/// The class of a failed HTTP exchange, from what the HTTP library reports
/// of it: no connection, a timeout, a failure while reading the body
/// (transient), anything else (permanent); the first that applies.
pub open spec fn spec_transport_kind_from_flags(is_connect: bool, is_timeout: bool, is_body: bool) -> RadishFlowControlPlaneHttpTransportErrorKind {
    if is_connect {
        RadishFlowControlPlaneHttpTransportErrorKind::ConnectionUnavailable
    } else if is_timeout {
        RadishFlowControlPlaneHttpTransportErrorKind::Timeout
    } else if is_body {
        RadishFlowControlPlaneHttpTransportErrorKind::OtherTransient
    } else {
        RadishFlowControlPlaneHttpTransportErrorKind::OtherPermanent
    }
}

/// A transport failure classified from what the HTTP library reports of it.
pub fn transport_error_from_flags(is_connect: bool, is_timeout: bool, is_body: bool, message: String) -> (r:
    RadishFlowControlPlaneHttpTransportError)
    ensures
        r.kind == spec_transport_kind_from_flags(is_connect, is_timeout, is_body),
        r.message@ == message@,
{
    if is_connect {
        RadishFlowControlPlaneHttpTransportError::connection_unavailable(message)
    } else if is_timeout {
        RadishFlowControlPlaneHttpTransportError::timeout(message)
    } else if is_body {
        RadishFlowControlPlaneHttpTransportError::other_transient(message)
    } else {
        RadishFlowControlPlaneHttpTransportError::other_permanent(message)
    }
}

/// The `Accept` header for a list of content types: joined by `", "`.
pub open spec fn accept_header_text(types: Seq<String>) -> Seq<char>
    decreases types.len(),
{
    if types.len() == 0 {
        Seq::empty()
    } else if types.len() == 1 {
        types[0]@
    } else {
        accept_header_text(types.drop_last()) + ", "@ + types.last()@
    }
}

/// The `Accept` header for a list of content types.
pub fn accept_header(types: &Vec<String>) -> (r: String)
    ensures
        r@ == accept_header_text(types@),
{
    let mut out = String::new();
    let mut i: usize = 0;
    while i < types.len()
        invariant
            i <= types@.len(),
            out@ == accept_header_text(types@.subrange(0, i as int)),
        decreases types@.len() - i,
    {
        let ghost before = types@.subrange(0, i as int);
        if i > 0 {
            push_str(&mut out, ", ");
        }
        push_str(&mut out, types[i].as_str());
        assert(types@.subrange(0, i + 1).drop_last() =~= before);
        i = i + 1;
    }
    assert(types@.subrange(0, types@.len() as int) =~= types@);
    out
}

/// Sends requests to the control plane; implemented by the embedding
/// application (over HTTP) and by tests.
pub trait RadishFlowControlPlaneHttpTransport {
    /// Whether `r` is an answer this transport may give to `request`; an
    /// implementation may narrow it for itself (one that does not admits
    /// any answer).
    open spec fn spec_answer(
        &self,
        request: RadishFlowControlPlaneHttpRequest,
        r: Result<RadishFlowControlPlaneHttpResponse, RadishFlowControlPlaneHttpTransportError>,
    ) -> bool {
        true
    }

    /// Sends one request.
    fn send(&self, request: &RadishFlowControlPlaneHttpRequest) -> (r: Result<
        RadishFlowControlPlaneHttpResponse,
        RadishFlowControlPlaneHttpTransportError,
    >)
        ensures
            self.spec_answer(*request, r),
    ;
}

/// Whether `request` is a GET of `url` with `token`, accepting JSON only.
pub open spec fn is_json_get(request: RadishFlowControlPlaneHttpRequest, url: Seq<char>, token: Seq<char>) -> bool {
    &&& request.method == RadishFlowControlPlaneHttpMethod::Get
    &&& request.url@ == url
    &&& request.bearer_token@ == token
    &&& accepts_json_only(request.accept_content_types@)
    &&& request.content_type is None
    &&& request.body is None
}

/// Whether `request` is a POST of the JSON `body` to `url` with `token`,
/// accepting JSON only.
pub open spec fn is_json_post(
    request: RadishFlowControlPlaneHttpRequest,
    url: Seq<char>,
    token: Seq<char>,
    body: Seq<char>,
) -> bool {
    &&& request.method == RadishFlowControlPlaneHttpMethod::Post
    &&& request.url@ == url
    &&& request.bearer_token@ == token
    &&& accepts_json_only(request.accept_content_types@)
    &&& request.content_type is Some && request.content_type.unwrap()@ == "application/json"@
    &&& request.body is Some && request.body.unwrap()@ == body
}

/// Whether `r` is what `transport`'s answer to `request`, sent for
/// `operation`, yields (as `json_body_from_transport` checks it).
pub open spec fn answered_request<T: RadishFlowControlPlaneHttpTransport>(
    transport: T,
    request: RadishFlowControlPlaneHttpRequest,
    operation: Seq<char>,
    r: Result<RadishFlowControlPlaneResponse<String>, RadishFlowControlPlaneClientError>,
) -> bool {
    exists|result: Result<RadishFlowControlPlaneHttpResponse, RadishFlowControlPlaneHttpTransportError>|
        #[trigger] transport.spec_answer(request, result) && json_body_answer(result, operation, r)
}

/// Classes of client failure.
#[derive(Debug, Clone, Copy, PartialEq, Eq, Hash, Structural)]
pub enum RadishFlowControlPlaneClientErrorKind {
    Timeout,
    ConnectionUnavailable,
    RateLimited,
    ServiceUnavailable,
    Unauthorized,
    Forbidden,
    NotFound,
    InvalidResponse,
    OtherTransient,
    OtherPermanent,
}

/// The kebab-case name of a client failure class.
pub open spec fn client_error_kind_text(kind: RadishFlowControlPlaneClientErrorKind) -> Seq<char> {
    match kind {
        RadishFlowControlPlaneClientErrorKind::Timeout => "timeout"@,
        RadishFlowControlPlaneClientErrorKind::ConnectionUnavailable => "connection-unavailable"@,
        RadishFlowControlPlaneClientErrorKind::RateLimited => "rate-limited"@,
        RadishFlowControlPlaneClientErrorKind::ServiceUnavailable => "service-unavailable"@,
        RadishFlowControlPlaneClientErrorKind::Unauthorized => "unauthorized"@,
        RadishFlowControlPlaneClientErrorKind::Forbidden => "forbidden"@,
        RadishFlowControlPlaneClientErrorKind::NotFound => "not-found"@,
        RadishFlowControlPlaneClientErrorKind::InvalidResponse => "invalid-response"@,
        RadishFlowControlPlaneClientErrorKind::OtherTransient => "other-transient"@,
        RadishFlowControlPlaneClientErrorKind::OtherPermanent => "other-permanent"@,
    }
}

impl RadishFlowControlPlaneClientErrorKind {
    /// The kebab-case name of the class.
    pub fn as_str(self) -> (r: &'static str)
        ensures
            r@ == client_error_kind_text(self),
    {
        match self {
            RadishFlowControlPlaneClientErrorKind::Timeout => "timeout",
            RadishFlowControlPlaneClientErrorKind::ConnectionUnavailable => "connection-unavailable",
            RadishFlowControlPlaneClientErrorKind::RateLimited => "rate-limited",
            RadishFlowControlPlaneClientErrorKind::ServiceUnavailable => "service-unavailable",
            RadishFlowControlPlaneClientErrorKind::Unauthorized => "unauthorized",
            RadishFlowControlPlaneClientErrorKind::Forbidden => "forbidden",
            RadishFlowControlPlaneClientErrorKind::NotFound => "not-found",
            RadishFlowControlPlaneClientErrorKind::InvalidResponse => "invalid-response",
            RadishFlowControlPlaneClientErrorKind::OtherTransient => "other-transient",
            RadishFlowControlPlaneClientErrorKind::OtherPermanent => "other-permanent",
        }
    }
}

/// Distinct failure classes have distinct names.
pub proof fn lemma_client_error_kind_names_distinct(
    a: RadishFlowControlPlaneClientErrorKind,
    b: RadishFlowControlPlaneClientErrorKind,
)
    ensures
        client_error_kind_text(a) == client_error_kind_text(b) ==> a == b,
{
    reveal_strlit("timeout");
    reveal_strlit("connection-unavailable");
    reveal_strlit("rate-limited");
    reveal_strlit("service-unavailable");
    reveal_strlit("unauthorized");
    reveal_strlit("forbidden");
    reveal_strlit("not-found");
    reveal_strlit("invalid-response");
    reveal_strlit("other-transient");
    reveal_strlit("other-permanent");
    if client_error_kind_text(a) == client_error_kind_text(b) && a != b {
        let ta = client_error_kind_text(a);
        let tb = client_error_kind_text(b);
        assert(ta.len() == tb.len());
        assert(ta[0] == tb[0]);
        assert(ta[1] == tb[1]);
        assert(ta[2] == tb[2]);
        assert(ta[6] == tb[6]);
    }
}

/// A client failure.
#[derive(Debug, Clone, PartialEq, Eq)]
pub struct RadishFlowControlPlaneClientError {
    pub kind: RadishFlowControlPlaneClientErrorKind,
    pub message: String,
}

/// Whether `e` is of class `kind` with message `message`.
pub open spec fn client_error_is(
    e: RadishFlowControlPlaneClientError,
    kind: RadishFlowControlPlaneClientErrorKind,
    message: Seq<char>,
) -> bool {
    e.kind == kind && e.message@ == message
}

impl RadishFlowControlPlaneClientError {
    /// A client failure of `kind`.
    pub fn new(kind: RadishFlowControlPlaneClientErrorKind, message: String) -> (r: Self)
        ensures
            client_error_is(r, kind, message@),
    {
        RadishFlowControlPlaneClientError { kind, message }
    }

    /// A timeout.
    pub fn timeout(message: String) -> (r: Self)
        ensures
            client_error_is(r, RadishFlowControlPlaneClientErrorKind::Timeout, message@),
    {
        Self::new(RadishFlowControlPlaneClientErrorKind::Timeout, message)
    }

    /// No connection could be made.
    pub fn connection_unavailable(message: String) -> (r: Self)
        ensures
            client_error_is(r, RadishFlowControlPlaneClientErrorKind::ConnectionUnavailable, message@),
    {
        Self::new(RadishFlowControlPlaneClientErrorKind::ConnectionUnavailable, message)
    }

    /// The control plane asked the client to slow down.
    pub fn rate_limited(message: String) -> (r: Self)
        ensures
            client_error_is(r, RadishFlowControlPlaneClientErrorKind::RateLimited, message@),
    {
        Self::new(RadishFlowControlPlaneClientErrorKind::RateLimited, message)
    }

    /// The control plane failed on its side.
    pub fn service_unavailable(message: String) -> (r: Self)
        ensures
            client_error_is(r, RadishFlowControlPlaneClientErrorKind::ServiceUnavailable, message@),
    {
        Self::new(RadishFlowControlPlaneClientErrorKind::ServiceUnavailable, message)
    }

    /// The token is no longer accepted.
    pub fn unauthorized(message: String) -> (r: Self)
        ensures
            client_error_is(r, RadishFlowControlPlaneClientErrorKind::Unauthorized, message@),
    {
        Self::new(RadishFlowControlPlaneClientErrorKind::Unauthorized, message)
    }

    /// The request was refused.
    pub fn forbidden(message: String) -> (r: Self)
        ensures
            client_error_is(r, RadishFlowControlPlaneClientErrorKind::Forbidden, message@),
    {
        Self::new(RadishFlowControlPlaneClientErrorKind::Forbidden, message)
    }

    /// The endpoint does not exist.
    pub fn not_found(message: String) -> (r: Self)
        ensures
            client_error_is(r, RadishFlowControlPlaneClientErrorKind::NotFound, message@),
    {
        Self::new(RadishFlowControlPlaneClientErrorKind::NotFound, message)
    }

    /// The response could not be used.
    pub fn invalid_response(message: String) -> (r: Self)
        ensures
            client_error_is(r, RadishFlowControlPlaneClientErrorKind::InvalidResponse, message@),
    {
        Self::new(RadishFlowControlPlaneClientErrorKind::InvalidResponse, message)
    }

    /// Another failure worth retrying.
    pub fn other_transient(message: String) -> (r: Self)
        ensures
            client_error_is(r, RadishFlowControlPlaneClientErrorKind::OtherTransient, message@),
    {
        Self::new(RadishFlowControlPlaneClientErrorKind::OtherTransient, message)
    }

    /// Another failure not worth retrying.
    pub fn other_permanent(message: String) -> (r: Self)
        ensures
            client_error_is(r, RadishFlowControlPlaneClientErrorKind::OtherPermanent, message@),
    {
        Self::new(RadishFlowControlPlaneClientErrorKind::OtherPermanent, message)
    }

    /// A domain error saying which operation failed, with the class and
    /// message of this failure.
    pub fn into_rf_error(self, operation: &str) -> (r: RfError)
        ensures
            r.code == ErrorCode::InvalidInput,
            r.message@ == operation@ + " failed with "@ + client_error_kind_text(self.kind)
                + " error: "@ + self.message@,
    {
        let mut message = String::from_str(operation);
        push_str(&mut message, " failed with ");
        push_str(&mut message, self.kind.as_str());
        push_str(&mut message, " error: ");
        push_str(&mut message, self.message.as_str());
        RfError::invalid_input(message)
    }
}

/// The client failure class of a transport failure class.
pub open spec fn spec_client_kind_of_transport(kind: RadishFlowControlPlaneHttpTransportErrorKind) -> RadishFlowControlPlaneClientErrorKind {
    match kind {
        RadishFlowControlPlaneHttpTransportErrorKind::Timeout => RadishFlowControlPlaneClientErrorKind::Timeout,
        RadishFlowControlPlaneHttpTransportErrorKind::ConnectionUnavailable => RadishFlowControlPlaneClientErrorKind::ConnectionUnavailable,
        RadishFlowControlPlaneHttpTransportErrorKind::OtherTransient => RadishFlowControlPlaneClientErrorKind::OtherTransient,
        RadishFlowControlPlaneHttpTransportErrorKind::OtherPermanent => RadishFlowControlPlaneClientErrorKind::OtherPermanent,
    }
}

/// A transport failure as a client failure of the same class and message.
pub fn map_http_transport_error(error: RadishFlowControlPlaneHttpTransportError) -> (r:
    RadishFlowControlPlaneClientError)
    ensures
        client_error_is(r, spec_client_kind_of_transport(error.kind), error.message@),
{
    match error.kind {
        RadishFlowControlPlaneHttpTransportErrorKind::Timeout => RadishFlowControlPlaneClientError::timeout(
            error.message,
        ),
        RadishFlowControlPlaneHttpTransportErrorKind::ConnectionUnavailable => RadishFlowControlPlaneClientError::connection_unavailable(
            error.message,
        ),
        RadishFlowControlPlaneHttpTransportErrorKind::OtherTransient => RadishFlowControlPlaneClientError::other_transient(
            error.message,
        ),
        RadishFlowControlPlaneHttpTransportErrorKind::OtherPermanent => RadishFlowControlPlaneClientError::other_permanent(
            error.message,
        ),
    }
}

/// Distinct transport failure classes become distinct client failure
/// classes.
pub proof fn lemma_transport_kind_mapping_injective(
    a: RadishFlowControlPlaneHttpTransportErrorKind,
    b: RadishFlowControlPlaneHttpTransportErrorKind,
)
    ensures
        spec_client_kind_of_transport(a) == spec_client_kind_of_transport(b) ==> a == b,
{
}

/// An access token must hold more than white space.
pub fn validate_access_token(access_token: &str) -> (r: Result<(), RadishFlowControlPlaneClientError>)
    ensures
        match r {
            Ok(()) => trim_text(access_token@).len() > 0,
            Err(e) => trim_text(access_token@).len() == 0 && client_error_is(
                e,
                RadishFlowControlPlaneClientErrorKind::InvalidResponse,
                "control plane access token must not be empty"@,
            ),
        },
{
    if is_blank(access_token) {
        return Err(
            RadishFlowControlPlaneClientError::invalid_response(
                String::from_str("control plane access token must not be empty"),
            ),
        );
    }
    Ok(())
}

/// A package id must hold more than white space.
pub fn validate_package_id(package_id: &str) -> (r: Result<(), RadishFlowControlPlaneClientError>)
    ensures
        match r {
            Ok(()) => trim_text(package_id@).len() > 0,
            Err(e) => trim_text(package_id@).len() == 0 && client_error_is(
                e,
                RadishFlowControlPlaneClientErrorKind::InvalidResponse,
                "property package id must not be empty"@,
            ),
        },
{
    if is_blank(package_id) {
        return Err(
            RadishFlowControlPlaneClientError::invalid_response(
                String::from_str("property package id must not be empty"),
            ),
        );
    }
    Ok(())
}

/// A protocol entity must carry the schema version this client speaks.
pub fn validate_protocol_schema_version(version: u32, entity_name: &str) -> (r: Result<
    (),
    RadishFlowControlPlaneClientError,
>)
    ensures
        match r {
            Ok(()) => version == RADISHFLOW_CONTROL_PLANE_SCHEMA_VERSION,
            Err(e) => version != RADISHFLOW_CONTROL_PLANE_SCHEMA_VERSION && client_error_is(
                e,
                RadishFlowControlPlaneClientErrorKind::InvalidResponse,
                "unsupported "@ + entity_name@ + " schema version `"@ + decimal_text(version as nat)
                    + "`"@,
            ),
        },
{
    if version != RADISHFLOW_CONTROL_PLANE_SCHEMA_VERSION {
        let mut message = String::from_str("unsupported ");
        push_str(&mut message, entity_name);
        push_str(&mut message, " schema version `");
        push_decimal(&mut message, version as u128);
        push_str(&mut message, "`");
        return Err(RadishFlowControlPlaneClientError::invalid_response(message));
    }
    Ok(())
}

/// `c` with ASCII upper-case letters made lower-case.
pub open spec fn ascii_lower_char(c: char) -> char {
    if 'A' <= c && c <= 'Z' {
        ((c as u32) + 32) as char
    } else {
        c
    }
}

/// `s` with ASCII upper-case letters made lower-case (`to_ascii_lowercase`).
pub open spec fn ascii_lower(s: Seq<char>) -> Seq<char> {
    Seq::new(s.len(), |i: int| ascii_lower_char(s[i]))
}

/// Whether `pattern` occurs in `s`.
pub open spec fn contains_text(s: Seq<char>, pattern: Seq<char>) -> bool {
    exists|i: int| 0 <= i <= s.len() - pattern.len() && #[trigger] s.subrange(i, i + pattern.len()) == pattern
}

fn lower_char(c: char) -> (r: char)
    ensures
        r == ascii_lower_char(c),
{
    if 'A' <= c && c <= 'Z' {
        ((c as u32) + 32) as u8 as char
    } else {
        c
    }
}

/// Whether the content type names JSON, ignoring ASCII case.
pub fn content_type_is_json(content_type: &str) -> (r: bool)
    ensures
        r == contains_text(ascii_lower(content_type@), "application/json"@),
{
    let v = chars_of(content_type);
    let mut lower: Vec<char> = Vec::new();
    let mut i: usize = 0;
    while i < v.len()
        invariant
            i <= v@.len(),
            v@ == content_type@,
            lower@ == ascii_lower(v@).subrange(0, i as int),
        decreases v@.len() - i,
    {
        lower.push(lower_char(v[i]));
        assert(lower@ =~= ascii_lower(v@).subrange(0, i + 1));
        i = i + 1;
    }
    assert(lower@ =~= ascii_lower(content_type@));
    let pattern = chars_of("application/json");
    let n = pattern.len();
    if lower.len() < n {
        return false;
    }
    let mut start: usize = 0;
    while start <= lower.len() - n
        invariant
            n == pattern@.len(),
            pattern@ == "application/json"@,
            lower@ == ascii_lower(content_type@),
            n <= lower@.len(),
            start <= lower@.len() - n + 1,
            forall|k: int| 0 <= k < start ==> #[trigger] lower@.subrange(k, k + n) != pattern@,
        decreases lower@.len() + 1 - start,
    {
        let mut j: usize = 0;
        let mut matched = true;
        while j < n
            invariant
                n == pattern@.len(),
                n <= lower@.len(),
                start + n <= lower.len(),
                j <= n,
                matched == (forall|m: int| 0 <= m < j ==> lower@[start + m] == pattern@[m]),
            decreases n - j,
        {
            if lower[start + j] != pattern[j] {
                matched = false;
            }
            j = j + 1;
        }
        if matched {
            assert(lower@.subrange(start as int, start + n) =~= pattern@);
            return true;
        }
        assert(lower@.subrange(start as int, start + n) != pattern@) by {
            let m = choose|m: int| 0 <= m < n && lower@[start + m] != pattern@[m];
            assert(lower@.subrange(start as int, start + n)[m] == lower@[start + m]);
        }
        start = start + 1;
    }
    false
}

/// The failure a response answers with, as class and message: a successful
/// status needs a JSON content type (where one is given) and a body with
/// more than white space; other statuses map to their failure classes.
pub open spec fn spec_response_failure(
    status: u16,
    content_type: Option<Seq<char>>,
    body: Seq<char>,
    operation: Seq<char>,
) -> Option<(RadishFlowControlPlaneClientErrorKind, Seq<char>)> {
    if 200 <= status <= 299 {
        match content_type {
            Some(ct) if !contains_text(ascii_lower(ct), "application/json"@) => Some(
                (
                    RadishFlowControlPlaneClientErrorKind::InvalidResponse,
                    operation + " returned unsupported content-type `"@ + ct + "`"@,
                ),
            ),
            _ => if trim_text(body).len() == 0 {
                Some(
                    (
                        RadishFlowControlPlaneClientErrorKind::InvalidResponse,
                        operation + " returned an empty successful body"@,
                    ),
                )
            } else {
                None
            },
        }
    } else if status == 401 {
        Some(
            (
                RadishFlowControlPlaneClientErrorKind::Unauthorized,
                operation + " is no longer authorized"@,
            ),
        )
    } else if status == 403 {
        Some(
            (
                RadishFlowControlPlaneClientErrorKind::Forbidden,
                operation + " was rejected by the control plane"@,
            ),
        )
    } else if status == 404 {
        Some(
            (
                RadishFlowControlPlaneClientErrorKind::NotFound,
                operation + " endpoint was not found"@,
            ),
        )
    } else if status == 408 || status == 504 {
        Some(
            (
                RadishFlowControlPlaneClientErrorKind::Timeout,
                operation + " timed out with HTTP "@ + decimal_text(status as nat),
            ),
        )
    } else if status == 429 {
        Some(
            (
                RadishFlowControlPlaneClientErrorKind::RateLimited,
                operation + " was rate limited"@,
            ),
        )
    } else if 500 <= status <= 599 {
        Some(
            (
                RadishFlowControlPlaneClientErrorKind::ServiceUnavailable,
                operation + " failed with server status "@ + decimal_text(status as nat),
            ),
        )
    } else {
        Some(
            (
                RadishFlowControlPlaneClientErrorKind::InvalidResponse,
                operation + " returned unsupported HTTP status "@ + decimal_text(status as nat),
            ),
        )
    }
}

/// How a response's status decides its failure: every status outside
/// 200..=299 fails; every server status (500..=599) but 504 means the
/// service is unavailable, with the status in the message; 408 and 504 are
/// time-outs; 401, 403, 404 and 429 are refusals of their own classes; and
/// a status is an invalid response only outside all of these.
pub proof fn lemma_response_status_classes(
    status: u16,
    content_type: Option<Seq<char>>,
    body: Seq<char>,
    operation: Seq<char>,
)
    ensures
        ({
            let f = spec_response_failure(status, content_type, body, operation);
            let kind_is = |k: RadishFlowControlPlaneClientErrorKind| f is Some && f.unwrap().0 == k;
            &&& !(200 <= status <= 299) ==> f is Some
            &&& 500 <= status <= 599 && status != 504 ==> f == Some(
                (
                    RadishFlowControlPlaneClientErrorKind::ServiceUnavailable,
                    operation + " failed with server status "@ + decimal_text(status as nat),
                ),
            )
            &&& status == 408 || status == 504 ==> kind_is(RadishFlowControlPlaneClientErrorKind::Timeout)
            &&& status == 401 ==> kind_is(RadishFlowControlPlaneClientErrorKind::Unauthorized)
            &&& status == 403 ==> kind_is(RadishFlowControlPlaneClientErrorKind::Forbidden)
            &&& status == 404 ==> kind_is(RadishFlowControlPlaneClientErrorKind::NotFound)
            &&& status == 429 ==> kind_is(RadishFlowControlPlaneClientErrorKind::RateLimited)
            &&& kind_is(RadishFlowControlPlaneClientErrorKind::InvalidResponse) && !(200 <= status
                <= 299) ==> status != 401 && status != 403 && status != 404 && status != 408
                && status != 429 && !(500 <= status <= 599)
            &&& 200 <= status <= 299 ==> (f is None <==> (trim_text(body).len() > 0 && (content_type
                is None || contains_text(ascii_lower(content_type.unwrap()), "application/json"@))))
            &&& 200 <= status <= 299 && f is Some ==> kind_is(
                RadishFlowControlPlaneClientErrorKind::InvalidResponse,
            )
        }),
{
}

/// The content type of a response as text.
pub open spec fn content_type_text(response: RadishFlowControlPlaneHttpResponse) -> Option<Seq<char>> {
    match response.content_type {
        Some(ct) => Some(ct@),
        None => None,
    }
}

fn message_with(operation: &str, tail: &str) -> (r: String)
    ensures
        r@ == operation@ + tail@,
{
    let mut message = String::from_str(operation);
    push_str(&mut message, tail);
    message
}

fn message_with_status(operation: &str, tail: &str, status: u16) -> (r: String)
    ensures
        r@ == operation@ + tail@ + decimal_text(status as nat),
{
    let mut message = message_with(operation, tail);
    push_decimal(&mut message, status as u128);
    message
}

/// Checks a response before its JSON body is decoded: `Ok` exactly when the
/// status is successful, the content type (if given) names JSON and the body
/// holds more than white space; otherwise the failure for the status.
pub fn check_json_response(response: &RadishFlowControlPlaneHttpResponse, operation: &str) -> (r:
    Result<(), RadishFlowControlPlaneClientError>)
    ensures
        match spec_response_failure(
            response.status_code,
            content_type_text(*response),
            response.body@,
            operation@,
        ) {
            None => r is Ok,
            Some((kind, message)) => r is Err && client_error_is(r->Err_0, kind, message),
        },
{
    let status = response.status_code;
    if 200 <= status && status <= 299 {
        match &response.content_type {
            Some(content_type) => {
                if !content_type_is_json(content_type.as_str()) {
                    let mut message = message_with(operation, " returned unsupported content-type `");
                    push_str(&mut message, content_type.as_str());
                    push_str(&mut message, "`");
                    return Err(RadishFlowControlPlaneClientError::invalid_response(message));
                }
            },
            None => {},
        }
        if is_blank(response.body.as_str()) {
            return Err(
                RadishFlowControlPlaneClientError::invalid_response(
                    message_with(operation, " returned an empty successful body"),
                ),
            );
        }
        Ok(())
    } else if status == 401 {
        Err(
            RadishFlowControlPlaneClientError::unauthorized(
                message_with(operation, " is no longer authorized"),
            ),
        )
    } else if status == 403 {
        Err(
            RadishFlowControlPlaneClientError::forbidden(
                message_with(operation, " was rejected by the control plane"),
            ),
        )
    } else if status == 404 {
        Err(
            RadishFlowControlPlaneClientError::not_found(
                message_with(operation, " endpoint was not found"),
            ),
        )
    } else if status == 408 || status == 504 {
        Err(
            RadishFlowControlPlaneClientError::timeout(
                message_with_status(operation, " timed out with HTTP ", status),
            ),
        )
    } else if status == 429 {
        Err(
            RadishFlowControlPlaneClientError::rate_limited(
                message_with(operation, " was rate limited"),
            ),
        )
    } else if 500 <= status && status <= 599 {
        Err(
            RadishFlowControlPlaneClientError::service_unavailable(
                message_with_status(operation, " failed with server status ", status),
            ),
        )
    } else {
        Err(
            RadishFlowControlPlaneClientError::invalid_response(
                message_with_status(operation, " returned unsupported HTTP status ", status),
            ),
        )
    }
}

/// The failure for a response body that is not the JSON the operation
/// expects; `detail` is the decoder's own account.
pub fn invalid_json_error(operation: &str, detail: &str) -> (r: RadishFlowControlPlaneClientError)
    ensures
        client_error_is(
            r,
            RadishFlowControlPlaneClientErrorKind::InvalidResponse,
            operation@ + " returned invalid JSON: "@ + detail@,
        ),
{
    let mut message = message_with(operation, " returned invalid JSON: ");
    push_str(&mut message, detail);
    RadishFlowControlPlaneClientError::invalid_response(message)
}

/// A value received from the control plane, with the instant it arrived.
#[derive(Debug, Clone, PartialEq, Eq)]
pub struct RadishFlowControlPlaneResponse<T> {
    pub value: T,
    pub received_at: i128,
}

impl<T> RadishFlowControlPlaneResponse<T> {
    /// A value received at `received_at`.
    pub fn new(value: T, received_at: i128) -> (r: Self)
        ensures
            r.value == value,
            r.received_at == received_at,
    {
        RadishFlowControlPlaneResponse { value, received_at }
    }
}

/// The control-plane client over a transport.
#[derive(Debug, Clone)]
pub struct HttpRadishFlowControlPlaneClient<Transport> {
    endpoints: RadishFlowControlPlaneEndpoints,
    transport: Transport,
}

impl<Transport> HttpRadishFlowControlPlaneClient<Transport> {
    /// The endpoints the client talks to.
    pub closed spec fn spec_endpoints(&self) -> RadishFlowControlPlaneEndpoints {
        self.endpoints
    }

    /// The transport the client sends through.
    pub closed spec fn spec_transport(&self) -> Transport {
        self.transport
    }

    /// A client for `endpoints` over `transport`.
    pub fn new(endpoints: RadishFlowControlPlaneEndpoints, transport: Transport) -> (r: Self)
        ensures
            r.spec_endpoints() == endpoints,
            r.spec_transport() == transport,
    {
        HttpRadishFlowControlPlaneClient { endpoints, transport }
    }

    /// The endpoints the client talks to.
    pub fn endpoints(&self) -> (r: &RadishFlowControlPlaneEndpoints)
        ensures
            *r == self.spec_endpoints(),
    {
        &self.endpoints
    }

    /// The request for the current entitlement snapshot: a GET of its URL
    /// with the token, accepting JSON.
    pub fn entitlement_snapshot_request(&self, access_token: &str) -> (r:
        RadishFlowControlPlaneHttpRequest)
        ensures
            r.method == RadishFlowControlPlaneHttpMethod::Get,
            r.url@ == self.spec_endpoints().spec_base_url()
                + "/api/radishflow/entitlements/current"@,
            r.bearer_token@ == access_token@,
            accepts_json_only(r.accept_content_types@),
            r.content_type is None,
            r.body is None,
    {
        RadishFlowControlPlaneHttpRequest::new_get(
            self.endpoints.entitlement_snapshot_url(),
            String::from_str(access_token),
        )
    }

    /// The request for the manifest list: a GET of its URL with the token,
    /// accepting JSON.
    pub fn property_package_manifest_request(&self, access_token: &str) -> (r:
        RadishFlowControlPlaneHttpRequest)
        ensures
            r.method == RadishFlowControlPlaneHttpMethod::Get,
            r.url@ == self.spec_endpoints().spec_base_url()
                + "/api/radishflow/property-packages/manifest"@,
            r.bearer_token@ == access_token@,
            accepts_json_only(r.accept_content_types@),
            r.content_type is None,
            r.body is None,
    {
        RadishFlowControlPlaneHttpRequest::new_get(
            self.endpoints.property_package_manifest_url(),
            String::from_str(access_token),
        )
    }

    /// The request for a lease on `package_id`: a POST of the JSON `body` to
    /// the package's lease URL with the token, accepting JSON.
    pub fn property_package_lease_request(&self, access_token: &str, package_id: &str, body: String) -> (r:
        RadishFlowControlPlaneHttpRequest)
        ensures
            r.method == RadishFlowControlPlaneHttpMethod::Post,
            r.url@ == self.spec_endpoints().spec_base_url() + "/api/radishflow/property-packages/"@
                + percent_encoded(vstd::utf8::encode_utf8(package_id@)) + "/lease"@,
            r.bearer_token@ == access_token@,
            accepts_json_only(r.accept_content_types@),
            r.content_type is Some && r.content_type.unwrap()@ == "application/json"@,
            r.body is Some && r.body.unwrap()@ == body@,
    {
        RadishFlowControlPlaneHttpRequest::new_post_json(
            self.endpoints.property_package_lease_url(package_id),
            String::from_str(access_token),
            body,
        )
    }

    /// The request refreshing offline leases: a POST of the JSON `body` to
    /// the refresh URL with the token, accepting JSON.
    pub fn offline_lease_refresh_request(&self, access_token: &str, body: String) -> (r:
        RadishFlowControlPlaneHttpRequest)
        ensures
            r.method == RadishFlowControlPlaneHttpMethod::Post,
            r.url@ == self.spec_endpoints().spec_base_url()
                + "/api/radishflow/offline-leases/refresh"@,
            r.bearer_token@ == access_token@,
            accepts_json_only(r.accept_content_types@),
            r.content_type is Some && r.content_type.unwrap()@ == "application/json"@,
            r.body is Some && r.body.unwrap()@ == body@,
    {
        RadishFlowControlPlaneHttpRequest::new_post_json(
            self.endpoints.offline_lease_refresh_url(),
            String::from_str(access_token),
            body,
        )
    }
}

/// Whether `r` is what the transport answer `result` to `operation`
/// yields: a transport failure keeps its class and message; a response
/// becomes its body, with the instant it arrived, when `check_json_response`
/// accepts it, and that function's failure otherwise.
pub open spec fn json_body_answer(
    result: Result<RadishFlowControlPlaneHttpResponse, RadishFlowControlPlaneHttpTransportError>,
    operation: Seq<char>,
    r: Result<RadishFlowControlPlaneResponse<String>, RadishFlowControlPlaneClientError>,
) -> bool {
    match result {
        Err(e) => r is Err && client_error_is(r->Err_0, spec_client_kind_of_transport(e.kind), e.message@),
        Ok(response) => match spec_response_failure(
            response.status_code,
            content_type_text(response),
            response.body@,
            operation,
        ) {
            None => r is Ok && r->Ok_0.value@ == response.body@ && r->Ok_0.received_at
                == response.received_at,
            Some((kind, message)) => r is Err && client_error_is(r->Err_0, kind, message),
        },
    }
}

/// Whether `r` is what some transport answer to `operation` yields.
pub open spec fn answered_by_transport(
    operation: Seq<char>,
    r: Result<RadishFlowControlPlaneResponse<String>, RadishFlowControlPlaneClientError>,
) -> bool {
    exists|result: Result<RadishFlowControlPlaneHttpResponse, RadishFlowControlPlaneHttpTransportError>|
        #[trigger] json_body_answer(result, operation, r)
}

/// What a transport's answer to `operation` yields: a transport failure
/// keeps its class and message; a response becomes its body, still to be
/// decoded, with the instant it arrived, when `check_json_response` accepts
/// it, and that function's failure otherwise.
pub fn json_body_from_transport(
    result: Result<RadishFlowControlPlaneHttpResponse, RadishFlowControlPlaneHttpTransportError>,
    operation: &str,
) -> (r: Result<RadishFlowControlPlaneResponse<String>, RadishFlowControlPlaneClientError>)
    ensures
        match result {
            Err(e) => r is Err && client_error_is(
                r->Err_0,
                spec_client_kind_of_transport(e.kind),
                e.message@,
            ),
            Ok(response) => match spec_response_failure(
                response.status_code,
                content_type_text(response),
                response.body@,
                operation@,
            ) {
                None => r is Ok && r->Ok_0.value@ == response.body@ && r->Ok_0.received_at
                    == response.received_at,
                Some((kind, message)) => r is Err && client_error_is(r->Err_0, kind, message),
            },
        },
        r matches Ok(v) ==> trim_text(v.value@).len() > 0,
        json_body_answer(result, operation@, r),
{
    let response = match result {
        Ok(response) => response,
        Err(error) => return Err(map_http_transport_error(error)),
    };
    match check_json_response(&response, operation) {
        Ok(()) => Ok(RadishFlowControlPlaneResponse::new(response.body, response.received_at)),
        Err(e) => Err(e),
    }
}

impl<Transport: RadishFlowControlPlaneHttpTransport> HttpRadishFlowControlPlaneClient<Transport> {
    /// Sends `request` and checks the response as `json_body_from_transport`
    /// does. What the transport answers is its own affair.
    pub fn send_json_request(&self, request: RadishFlowControlPlaneHttpRequest, operation: &str) -> (r:
        Result<RadishFlowControlPlaneResponse<String>, RadishFlowControlPlaneClientError>)
        ensures
            r matches Ok(v) ==> trim_text(v.value@).len() > 0,
            answered_by_transport(operation@, r),
            answered_request(self.spec_transport(), request, operation@, r),
    {
        let result = self.transport.send(&request);
        let r = json_body_from_transport(result, operation);
        assert(json_body_answer(result, operation@, r));
        assert(self.spec_transport().spec_answer(request, result));
        r
    }

    /// Fetches the current entitlement snapshot's JSON. A blank token fails
    /// before anything is sent.
    pub fn fetch_entitlement_snapshot_json(&self, access_token: &str) -> (r: Result<
        RadishFlowControlPlaneResponse<String>,
        RadishFlowControlPlaneClientError,
    >)
        ensures
            trim_text(access_token@).len() == 0 ==> r is Err && client_error_is(
                r->Err_0,
                RadishFlowControlPlaneClientErrorKind::InvalidResponse,
                "control plane access token must not be empty"@,
            ),
            r matches Ok(v) ==> trim_text(v.value@).len() > 0,
            trim_text(access_token@).len() > 0 ==> answered_by_transport("fetch entitlement snapshot"@, r),
            trim_text(access_token@).len() > 0 ==> exists|request: RadishFlowControlPlaneHttpRequest|
                is_json_get(request, self.spec_endpoints().spec_base_url() + "/api/radishflow/entitlements/current"@, access_token@) && #[trigger] answered_request(self.spec_transport(), request, "fetch entitlement snapshot"@, r),
    {
        match validate_access_token(access_token) {
            Ok(()) => {},
            Err(e) => return Err(e),
        }
        let request = self.entitlement_snapshot_request(access_token);
        let ghost sent = request;
        let r = self.send_json_request(request, "fetch entitlement snapshot");
        assert(answered_request(self.spec_transport(), sent, "fetch entitlement snapshot"@, r));
        r
    }

    /// Fetches the property package manifest list's JSON. A blank token
    /// fails before anything is sent.
    pub fn fetch_property_package_manifest_list_json(&self, access_token: &str) -> (r: Result<
        RadishFlowControlPlaneResponse<String>,
        RadishFlowControlPlaneClientError,
    >)
        ensures
            trim_text(access_token@).len() == 0 ==> r is Err && client_error_is(
                r->Err_0,
                RadishFlowControlPlaneClientErrorKind::InvalidResponse,
                "control plane access token must not be empty"@,
            ),
            r matches Ok(v) ==> trim_text(v.value@).len() > 0,
            trim_text(access_token@).len() > 0 ==> answered_by_transport("fetch property package manifest list"@, r),
            trim_text(access_token@).len() > 0 ==> exists|request: RadishFlowControlPlaneHttpRequest|
                is_json_get(request, self.spec_endpoints().spec_base_url() + "/api/radishflow/property-packages/manifest"@, access_token@) && #[trigger] answered_request(self.spec_transport(), request, "fetch property package manifest list"@, r),
    {
        match validate_access_token(access_token) {
            Ok(()) => {},
            Err(e) => return Err(e),
        }
        let request = self.property_package_manifest_request(access_token);
        let ghost sent = request;
        let r = self.send_json_request(request, "fetch property package manifest list");
        assert(answered_request(self.spec_transport(), sent, "fetch property package manifest list"@, r));
        r
    }

    /// Posts a lease request (`body`, already encoded) for `package_id` and
    /// returns the grant's JSON. A blank token or package id fails before
    /// anything is sent.
    pub fn request_property_package_lease_json(
        &self,
        access_token: &str,
        package_id: &str,
        body: String,
    ) -> (r: Result<RadishFlowControlPlaneResponse<String>, RadishFlowControlPlaneClientError>)
        ensures
            trim_text(access_token@).len() == 0 ==> r is Err && client_error_is(
                r->Err_0,
                RadishFlowControlPlaneClientErrorKind::InvalidResponse,
                "control plane access token must not be empty"@,
            ),
            trim_text(access_token@).len() > 0 && trim_text(package_id@).len() == 0 ==> r is Err
                && client_error_is(
                r->Err_0,
                RadishFlowControlPlaneClientErrorKind::InvalidResponse,
                "property package id must not be empty"@,
            ),
            r matches Ok(v) ==> trim_text(v.value@).len() > 0,
            trim_text(access_token@).len() > 0 && trim_text(package_id@).len() > 0 ==> answered_by_transport("request property package lease"@, r),
            trim_text(access_token@).len() > 0 && trim_text(package_id@).len() > 0 ==> exists|request: RadishFlowControlPlaneHttpRequest|
                is_json_post(request, self.spec_endpoints().spec_base_url() + "/api/radishflow/property-packages/"@ + percent_encoded(encode_utf8(package_id@)) + "/lease"@, access_token@, body@) && #[trigger] answered_request(self.spec_transport(), request, "request property package lease"@, r),
    {
        match validate_access_token(access_token) {
            Ok(()) => {},
            Err(e) => return Err(e),
        }
        match validate_package_id(package_id) {
            Ok(()) => {},
            Err(e) => return Err(e),
        }
        let request = self.property_package_lease_request(access_token, package_id, body);
        let ghost sent = request;
        let r = self.send_json_request(request, "request property package lease");
        assert(answered_request(self.spec_transport(), sent, "request property package lease"@, r));
        r
    }

    /// Posts an offline refresh request (`body`, already encoded) and returns
    /// the answer's JSON. A blank token fails before anything is sent.
    pub fn refresh_offline_leases_json(&self, access_token: &str, body: String) -> (r: Result<
        RadishFlowControlPlaneResponse<String>,
        RadishFlowControlPlaneClientError,
    >)
        ensures
            trim_text(access_token@).len() == 0 ==> r is Err && client_error_is(
                r->Err_0,
                RadishFlowControlPlaneClientErrorKind::InvalidResponse,
                "control plane access token must not be empty"@,
            ),
            r matches Ok(v) ==> trim_text(v.value@).len() > 0,
            trim_text(access_token@).len() > 0 ==> answered_by_transport("refresh offline lease"@, r),
            trim_text(access_token@).len() > 0 ==> exists|request: RadishFlowControlPlaneHttpRequest|
                is_json_post(request, self.spec_endpoints().spec_base_url() + "/api/radishflow/offline-leases/refresh"@, access_token@, body@) && #[trigger] answered_request(self.spec_transport(), request, "refresh offline lease"@, r),
    {
        match validate_access_token(access_token) {
            Ok(()) => {},
            Err(e) => return Err(e),
        }
        let request = self.offline_lease_refresh_request(access_token, body);
        let ghost sent = request;
        let r = self.send_json_request(request, "refresh offline lease");
        assert(answered_request(self.spec_transport(), sent, "refresh offline lease"@, r));
        r
    }
}

} // verus!
