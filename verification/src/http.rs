//! HTTP introspection helpers.
//!
//! These functions pick the head and body out of a captured HTTP message
//! so that verbose tracing can print them. The head is split by an
//! outside parser behind a trusted wrapper; everything that happens to
//! the bytes afterwards — locating the blank line, measuring the body
//! against Content-Length, choosing the chunked or gzip decoding path —
//! is verified here.

use vstd::prelude::*;
use vstd::slice::slice_to_vec;
use vstd::string::StringSliceAdditionalSpecFns;
use vstd::utf8::{encode_utf8, valid_utf8};

verus! {

/// One HTTP header: a name and a raw value.
#[derive(Debug)]
pub struct HttpHeader {
    pub name: String,
    pub value: Vec<u8>,
}

/// Mathematical model of a header.
pub struct HeaderV {
    pub name: Seq<char>,
    pub value: Seq<u8>,
}

impl View for HttpHeader {
    type V = HeaderV;

    open spec fn view(&self) -> HeaderV {
        HeaderV { name: self.name@, value: self.value@ }
    }
}

/// The models of a sequence of headers.
pub open spec fn headers_view(hs: Seq<HttpHeader>) -> Seq<HeaderV> {
    hs.map(|i: int, h: HttpHeader| h@)
}

/// A parsed HTTP response head, as plain values.
pub struct ParsedResponse {
    pub complete: bool,
    pub version: Option<u8>,
    pub code: Option<u16>,
    pub reason: Option<String>,
    pub headers: Vec<HttpHeader>,
}

/// A parsed HTTP request head, as plain values.
pub struct ParsedRequest {
    pub complete: bool,
    pub method: Option<String>,
    pub path: Option<String>,
    pub version: Option<u8>,
    pub headers: Vec<HttpHeader>,
}

/// A relayed HTTP response, ready for printing.
pub struct RelayedResponse {
    pub http_version: Option<u8>,
    pub http_code: Option<u16>,
    pub http_reason: Option<String>,
    pub http_headers: Option<Vec<HttpHeader>>,
    pub http_body: Option<String>,
}

/// A relayed HTTP request, ready for printing.
pub struct RelayRequest {
    pub http_method: Option<String>,
    pub http_path: Option<String>,
    pub http_version: Option<u8>,
    pub http_headers: Option<Vec<HttpHeader>>,
    pub http_body: Option<String>,
}

/// Decides whether a header name is exactly the form looked for.
fn name_is(name: &String, lit: &str) -> (r: bool)
    ensures
        r == (name@ == lit@),
{
    let owned: String = lit.to_owned();
    name.eq(&owned)
}

/// Decides whether a header value equals the bytes of the given literal.
fn value_is(value: &Vec<u8>, lit: &str) -> (r: bool)
    ensures
        r == (value@ == lit.spec_bytes()),
{
    let b = slice_to_vec(lit.as_bytes());
    if value.len() != b.len() {
        return false;
    }
    let mut i: usize = 0;
    while i < value.len()
        invariant
            i <= value.len(),
            value@.len() == b@.len(),
            b@ == lit.spec_bytes(),
            forall|k: int| 0 <= k < i ==> value@[k] == b@[k],
        decreases value.len() - i,
    {
        if value[i] != b[i] {
            return false;
        }
        i = i + 1;
    }
    proof {
        assert(value@ =~= b@);
    }
    true
}

/// The numeric value of a decimal digit string, most significant digit
/// first.
pub open spec fn dec_val(s: Seq<u8>) -> nat
    decreases s.len(),
{
    if s.len() == 0 {
        0
    } else {
        (dec_val(s.drop_last()) * 10 + (s.last() - 48)) as nat
    }
}

/// Whether a byte string is one or more ASCII decimal digits.
pub open spec fn is_dec_digits(s: Seq<u8>) -> bool {
    s.len() > 0 && forall|k: int| 0 <= k < s.len() ==> 48 <= #[trigger] s[k] <= 57
}

/// Extending a digit string never shrinks its value.
proof fn lemma_dec_val_grows(s: Seq<u8>, i: int)
    requires
        0 <= i <= s.len(),
        forall|k: int| 0 <= k < s.len() ==> 48 <= #[trigger] s[k] <= 57,
    ensures
        dec_val(s.subrange(0, i)) <= dec_val(s),
    decreases s.len() - i,
{
    if i == s.len() {
        assert(s.subrange(0, i) =~= s);
    } else {
        assert(s.subrange(0, i + 1).drop_last() =~= s.subrange(0, i));
        assert(s.subrange(0, i + 1).last() == s[i]);
        lemma_dec_val_grows(s, i + 1);
    }
}

/// Parses a decimal digit string into a 64-bit value, refusing anything
/// that is not all digits or does not fit.
pub fn parse_u64_dec(s: &Vec<u8>) -> (r: Option<u64>)
    ensures
        match r {
            Some(v) => is_dec_digits(s@) && v as nat == dec_val(s@),
            None => !is_dec_digits(s@) || dec_val(s@) > u64::MAX,
        },
{
    if s.len() == 0 {
        return None;
    }
    let mut acc: u64 = 0;
    let mut i: usize = 0;
    while i < s.len()
        invariant
            0 < s.len(),
            i <= s.len(),
            acc as nat == dec_val(s@.subrange(0, i as int)),
            forall|k: int| 0 <= k < i ==> 48 <= #[trigger] s@[k] <= 57,
        decreases s.len() - i,
    {
        let d = s[i];
        if d < 48 || d > 57 {
            return None;
        }
        let dv = (d - 48) as u64;
        proof {
            assert(s@.subrange(0, i + 1 as int).drop_last() =~= s@.subrange(0, i as int));
            assert(s@.subrange(0, i + 1 as int).last() == s@[i as int]);
        }
        if acc > u64::MAX / 10 {
            proof {
                if is_dec_digits(s@) {
                    lemma_dec_val_grows(s@, i + 1 as int);
                }
            }
            return None;
        }
        let acc10 = acc * 10;
        if dv > u64::MAX - acc10 {
            proof {
                if is_dec_digits(s@) {
                    lemma_dec_val_grows(s@, i + 1 as int);
                }
            }
            return None;
        }
        acc = acc10 + dv;
        i = i + 1;
    }
    proof {
        assert(s@.subrange(0, s@.len() as int) =~= s@);
    }
    Some(acc)
}

/// The last `n` bytes of a byte string, or all of it when it is shorter.
pub open spec fn tail_model(s: Seq<u8>, n: nat) -> Seq<u8> {
    if n >= s.len() {
        s
    } else {
        s.subrange(s.len() - n, s.len() as int)
    }
}

/// Keeps the last `n` bytes of the data, the way a body of a known length
/// sits at the end of a captured message.
pub fn tail_bytes(data: &Vec<u8>, n: u64) -> (r: Vec<u8>)
    ensures
        r@ == tail_model(data@, n as nat),
{
    let len = data.len();
    let start: usize = if n >= len as u64 {
        0
    } else {
        len - (n as usize)
    };
    let mut r: Vec<u8> = Vec::new();
    let mut i: usize = start;
    while i < len
        invariant
            start <= i <= len,
            len == data@.len(),
            r@ == data@.subrange(start as int, i as int),
        decreases len - i,
    {
        r.push(data[i]);
        proof {
            assert(r@ =~= data@.subrange(start as int, i + 1 as int));
        }
        i = i + 1;
    }
    proof {
        assert(r@ =~= tail_model(data@, n as nat));
    }
    r
}

/// The bytes of the data after position `k`.
pub fn drop_prefix(data: &Vec<u8>, k: usize) -> (r: Vec<u8>)
    requires
        k <= data@.len(),
    ensures
        r@ == data@.subrange(k as int, data@.len() as int),
{
    let mut r: Vec<u8> = Vec::new();
    let mut i: usize = k;
    while i < data.len()
        invariant
            k <= i <= data@.len(),
            r@ == data@.subrange(k as int, i as int),
        decreases data@.len() - i,
    {
        r.push(data[i]);
        proof {
            assert(r@ =~= data@.subrange(k as int, i + 1 as int));
        }
        i = i + 1;
    }
    r
}

/// Whether the four bytes at `i` are the CRLFCRLF that ends an HTTP head.
pub open spec fn terminator_at(s: Seq<u8>, i: int) -> bool {
    &&& 0 <= i
    &&& i + 4 <= s.len()
    &&& s[i] == 13
    &&& s[i + 1] == 10
    &&& s[i + 2] == 13
    &&& s[i + 3] == 10
}

/// The first head terminator at or after position `i`.
pub open spec fn first_terminator_from(s: Seq<u8>, i: int) -> Option<int>
    decreases s.len() - i,
{
    if i < 0 || i + 4 > s.len() {
        None
    } else if terminator_at(s, i) {
        Some(i)
    } else {
        first_terminator_from(s, i + 1)
    }
}

/// The first head terminator of the data.
pub open spec fn first_terminator(s: Seq<u8>) -> Option<int> {
    first_terminator_from(s, 0)
}

/// Finds the blank line that separates an HTTP head from its body.
pub fn find_header_end(data: &Vec<u8>) -> (r: Option<usize>)
    ensures
        match r {
            Some(i) => first_terminator(data@) == Some(i as int) && terminator_at(data@, i as int),
            None => first_terminator(data@) is None,
        },
{
    if data.len() < 4 {
        return None;
    }
    let mut i: usize = 0;
    while i <= data.len() - 4
        invariant
            4 <= data@.len(),
            i <= data@.len() - 4 + 1,
            first_terminator(data@) == first_terminator_from(data@, i as int),
        decreases data@.len() - i,
    {
        if data[i] == 13 && data[i + 1] == 10 && data[i + 2] == 13 && data[i + 3] == 10 {
            return Some(i);
        }
        proof {
            assert(!terminator_at(data@, i as int));
            assert(first_terminator_from(data@, i as int) == first_terminator_from(
                data@,
                i + 1 as int,
            ));
        }
        i = i + 1;
    }
    None
}

/// The result of running the chunked decoder of the outside crate over a
/// byte string: the bytes it yields before it stops, a function of the
/// input alone.
pub uninterp spec fn chunk_decoded(data: Seq<u8>) -> Seq<u8>;

/// Relies on chunked_transfer::Decoder reading from an in-memory slice:
/// the bytes it yields are a function of the input bytes alone; whatever
/// was decoded before an error is kept, as the source reads until the
/// stream ends or fails.
#[verifier::external_body]
fn chunked_decode(data: &Vec<u8>) -> (r: Vec<u8>)
    ensures
        r@ == chunk_decoded(data@),
{
    let mut decoder = chunked_transfer::Decoder::new(data.as_slice());
    let mut blob: Vec<u8> = Vec::new();
    let _ = std::io::Read::read_to_end(&mut decoder, &mut blob);
    blob
}

/// The result of running the gzip decoder of the outside crate over a
/// byte string: the decompressed bytes, or nothing when the stream is not
/// a well-formed gzip stream; a function of the input alone.
pub uninterp spec fn gzip_decoded(data: Seq<u8>) -> Option<Seq<u8>>;

/// Relies on flate2::read::GzDecoder reading from an in-memory slice:
/// the outcome is a function of the input bytes alone, and a malformed
/// stream makes read_to_end fail.
#[verifier::external_body]
fn gzip_decode(data: &Vec<u8>) -> (r: Option<Vec<u8>>)
    ensures
        match r {
            Some(v) => gzip_decoded(data@) == Some(v@),
            None => gzip_decoded(data@) is None,
        },
{
    let mut gzd = flate2::read::GzDecoder::new(data.as_slice());
    let mut out: Vec<u8> = Vec::new();
    match std::io::Read::read_to_end(&mut gzd, &mut out) {
        Ok(_) => Some(out),
        Err(_) => None,
    }
}

/// Relies on String::from_utf8: it succeeds exactly on valid UTF-8 input,
/// and the string it returns holds exactly the input bytes.
#[verifier::external_body]
fn bytes_to_string(b: Vec<u8>) -> (r: Option<String>)
    ensures
        r is Some <==> valid_utf8(b@),
        r matches Some(s) ==> encode_utf8(s@) == b@,
{
    String::from_utf8(b).ok()
}

/// Whether a header name selects the Content-Length header.
pub open spec fn is_content_length_name(name: Seq<char>) -> bool {
    name == "Content-Length"@ || name == "content-length"@
}

/// Whether a header name selects the Transfer-Encoding header.
pub open spec fn is_transfer_encoding_name(name: Seq<char>) -> bool {
    name == "Transfer-Encoding"@ || name == "transfer-encoding"@
}

/// Whether a header name selects the Content-Encoding header.
pub open spec fn is_content_encoding_name(name: Seq<char>) -> bool {
    name == "Content-Encoding"@ || name == "content-encoding"@
}

/// Whether a header declares chunked transfer encoding.
pub open spec fn is_chunked_te(h: HeaderV) -> bool {
    is_transfer_encoding_name(h.name) && h.value == "chunked".spec_bytes()
}

/// Whether any header declares gzip content encoding.
pub open spec fn has_gzip_encoding(hs: Seq<HeaderV>) -> bool {
    exists|k: int|
        0 <= k < hs.len() && #[trigger] is_content_encoding_name(hs[k].name) && hs[k].value
            == "gzip".spec_bytes()
}

/// The body selected by a Content-Length header: the last so-many bytes
/// of the capture, or nothing when the value is not a number that fits.
pub open spec fn content_length_body(data: Seq<u8>, value: Seq<u8>) -> Option<Seq<u8>> {
    if is_dec_digits(value) && dec_val(value) <= u64::MAX {
        Some(tail_model(data, dec_val(value)))
    } else {
        None
    }
}

/// The body selected by chunked transfer encoding: everything after the
/// head terminator is run through the chunked decoder, and through the
/// gzip decoder when a header declares gzip; nothing when the head never
/// ends.
pub open spec fn chunked_body(data: Seq<u8>, hs: Seq<HeaderV>) -> Option<Seq<u8>> {
    match first_terminator(data) {
        Some(i) => {
            let blob = chunk_decoded(data.subrange(i + 4, data.len() as int));
            if has_gzip_encoding(hs) {
                gzip_decoded(blob)
            } else {
                Some(blob)
            }
        },
        None => None,
    }
}

/// The body marker used when no header selects one.
pub open spec fn none_marker() -> Seq<u8> {
    "None".spec_bytes()
}

/// The body the helpers extract, deciding on the first header that
/// selects one: a Content-Length header measures the tail of the capture,
/// a chunked Transfer-Encoding header decodes the bytes after the head,
/// and with neither the marker bytes stand in.
pub open spec fn http_body_from(data: Seq<u8>, hs: Seq<HeaderV>, i: int) -> Option<Seq<u8>>
    decreases hs.len() - i,
{
    if i < 0 || i >= hs.len() {
        Some(none_marker())
    } else if is_content_length_name(hs[i].name) {
        content_length_body(data, hs[i].value)
    } else if is_chunked_te(hs[i]) {
        chunked_body(data, hs)
    } else {
        http_body_from(data, hs, i + 1)
    }
}

/// The body the helpers extract from a capture and its headers.
pub open spec fn http_body_model(data: Seq<u8>, hs: Seq<HeaderV>) -> Option<Seq<u8>> {
    http_body_from(data, hs, 0)
}

/// Extracts the message body of a captured HTTP message, as selected by
/// its headers.
pub fn get_http_body(data: &Vec<u8>, headers: &Vec<HttpHeader>) -> (r: Option<Vec<u8>>)
    ensures
        match r {
            Some(v) => http_body_model(data@, headers_view(headers@)) == Some(v@),
            None => http_body_model(data@, headers_view(headers@)) is None,
        },
{
    let ghost hv = headers_view(headers@);
    let mut i: usize = 0;
    while i < headers.len()
        invariant
            i <= headers.len(),
            hv == headers_view(headers@),
            http_body_from(data@, hv, 0) == http_body_from(data@, hv, i as int),
        decreases headers.len() - i,
    {
        let h = &headers[i];
        proof {
            assert(hv[i as int] == headers@[i as int]@);
        }
        if name_is(&h.name, "Content-Length") || name_is(&h.name, "content-length") {
            match parse_u64_dec(&h.value) {
                Some(cl) => {
                    let body = tail_bytes(data, cl);
                    return Some(body);
                },
                None => {
                    return None;
                },
            }
        } else if (name_is(&h.name, "Transfer-Encoding") || name_is(&h.name, "transfer-encoding"))
            && value_is(&h.value, "chunked") {
            match find_header_end(data) {
                Some(idx) => {
                    let dlen = data.len();
                    proof {
                        assert(idx + 4 <= dlen);
                    }
                    let rest = drop_prefix(data, idx + 4);
                    let blob = chunked_decode(&rest);
                    let mut g = false;
                    let mut j: usize = 0;
                    while j < headers.len()
                        invariant
                            j <= headers.len(),
                            hv == headers_view(headers@),
                            g <==> exists|k: int|
                                0 <= k < j && #[trigger] is_content_encoding_name(hv[k].name)
                                    && hv[k].value == "gzip".spec_bytes(),
                        decreases headers.len() - j,
                    {
                        let e = &headers[j];
                        proof {
                            assert(hv[j as int] == headers@[j as int]@);
                        }
                        if (name_is(&e.name, "Content-Encoding") || name_is(
                            &e.name,
                            "content-encoding",
                        )) && value_is(&e.value, "gzip") {
                            g = true;
                            proof {
                                assert(is_content_encoding_name(hv[j as int].name) && hv[
                                    j as int
                                ].value == "gzip".spec_bytes());
                            }
                        }
                        j = j + 1;
                    }
                    if g {
                        return gzip_decode(&blob);
                    } else {
                        return Some(blob);
                    }
                },
                None => {
                    return None;
                },
            }
        }
        i = i + 1;
    }
    let r = slice_to_vec("None".as_bytes());
    Some(r)
}

/// Relies on httparse::Response::parse to split an HTTP response head
/// into version, code, reason and headers; the headers the parser leaves
/// behind are exactly the parsed ones, at most the 128 slots handed to
/// it. A malformed head is reported as nothing.
#[verifier::external_body]
fn parse_response_head(data: &Vec<u8>) -> (r: Option<ParsedResponse>)
    ensures
        r matches Some(p) ==> p.headers@.len() <= 128,
{
    let mut headers = [httparse::EMPTY_HEADER; 128];
    let mut res = httparse::Response::new(&mut headers);
    match res.parse(data.as_slice()) {
        Ok(status) => Some(ParsedResponse {
            complete: status.is_complete(),
            version: res.version,
            code: res.code,
            reason: res.reason.map(|s| s.to_string()),
            headers: res.headers.iter().map(
                |h| HttpHeader { name: h.name.to_string(), value: h.value.to_vec() },
            ).collect(),
        }),
        Err(_) => None,
    }
}

/// Relies on httparse::Request::parse to split an HTTP request head into
/// method, path, version and headers; the headers the parser leaves
/// behind are exactly the parsed ones, at most the 128 slots handed to
/// it. A malformed head is reported as nothing.
#[verifier::external_body]
fn parse_request_head(data: &Vec<u8>) -> (r: Option<ParsedRequest>)
    ensures
        r matches Some(p) ==> p.headers@.len() <= 128,
{
    let mut headers = [httparse::EMPTY_HEADER; 128];
    let mut req = httparse::Request::new(&mut headers);
    match req.parse(data.as_slice()) {
        Ok(status) => Some(ParsedRequest {
            complete: status.is_complete(),
            method: req.method.map(|s| s.to_string()),
            path: req.path.map(|s| s.to_string()),
            version: req.version,
            headers: req.headers.iter().map(
                |h| HttpHeader { name: h.name.to_string(), value: h.value.to_vec() },
            ).collect(),
        }),
        Err(_) => None,
    }
}

/// The body string a response or request report carries: the extracted
/// body, or the given marker when no body could be extracted.
pub open spec fn body_or_marker(data: Seq<u8>, hs: Seq<HeaderV>, marker: Seq<u8>) -> Seq<u8> {
    match http_body_model(data, hs) {
        Some(b) => b,
        None => marker,
    }
}

/// The marker reported when a response body cannot be extracted.
pub open spec fn response_fail_marker() -> Seq<u8> {
    "[-] Failed to get http response body!".spec_bytes()
}

/// The marker reported when a request body cannot be extracted.
pub open spec fn request_fail_marker() -> Seq<u8> {
    "[-] Failed to get http request body!".spec_bytes()
}

/// Assembles a response report from a parsed head and the captured
/// bytes. A head that is not complete yields nothing, as does a body
/// whose bytes are not valid UTF-8; otherwise every head field is carried
/// over unchanged and the body string holds exactly the extracted bytes
/// (or the failure marker when extraction failed).
pub fn assemble_response(p: ParsedResponse, data: &Vec<u8>) -> (r: Option<RelayedResponse>)
    ensures
        !p.complete ==> r is None,
        match r {
            Some(resp) => {
                &&& p.complete
                &&& resp.http_version == p.version
                &&& resp.http_code == p.code
                &&& resp.http_reason == p.reason
                &&& resp.http_headers == Some(p.headers)
                &&& (resp.http_body matches Some(s) && encode_utf8(s@) == body_or_marker(
                    data@,
                    headers_view(p.headers@),
                    response_fail_marker(),
                ))
            },
            None => !p.complete || !valid_utf8(
                body_or_marker(data@, headers_view(p.headers@), response_fail_marker()),
            ),
        },
{
    if !p.complete {
        return None;
    }
    let body_bytes = match get_http_body(data, &p.headers) {
        Some(b) => b,
        None => slice_to_vec("[-] Failed to get http response body!".as_bytes()),
    };
    match bytes_to_string(body_bytes) {
        Some(s) => Some(
            RelayedResponse {
                http_version: p.version,
                http_code: p.code,
                http_reason: p.reason,
                http_headers: Some(p.headers),
                http_body: Some(s),
            },
        ),
        None => None,
    }
}

/// Assembles a request report from a parsed head and the captured bytes,
/// the same way a response report is assembled.
pub fn assemble_request(p: ParsedRequest, data: &Vec<u8>) -> (r: Option<RelayRequest>)
    ensures
        !p.complete ==> r is None,
        match r {
            Some(req) => {
                &&& p.complete
                &&& req.http_method == p.method
                &&& req.http_path == p.path
                &&& req.http_version == p.version
                &&& req.http_headers == Some(p.headers)
                &&& (req.http_body matches Some(s) && encode_utf8(s@) == body_or_marker(
                    data@,
                    headers_view(p.headers@),
                    request_fail_marker(),
                ))
            },
            None => !p.complete || !valid_utf8(
                body_or_marker(data@, headers_view(p.headers@), request_fail_marker()),
            ),
        },
{
    if !p.complete {
        return None;
    }
    let body_bytes = match get_http_body(data, &p.headers) {
        Some(b) => b,
        None => slice_to_vec("[-] Failed to get http request body!".as_bytes()),
    };
    match bytes_to_string(body_bytes) {
        Some(s) => Some(
            RelayRequest {
                http_method: p.method,
                http_path: p.path,
                http_version: p.version,
                http_headers: Some(p.headers),
                http_body: Some(s),
            },
        ),
        None => None,
    }
}

/// Parses a captured HTTP response and assembles its report. Nothing
/// comes back when the head is malformed or incomplete, or when the body
/// is not printable as UTF-8; otherwise the report carries the parsed
/// head fields and the extracted body.
pub fn get_response(data: &Vec<u8>) -> (r: Option<RelayedResponse>)
    ensures
        r matches Some(resp) ==> resp.http_headers is Some && resp.http_body is Some,
{
    match parse_response_head(data) {
        Some(p) => assemble_response(p, data),
        None => None,
    }
}

/// Parses a captured HTTP request and assembles its report, the way a
/// response is handled.
pub fn get_request(data: &Vec<u8>) -> (r: Option<RelayRequest>)
    ensures
        r matches Some(req) ==> req.http_headers is Some && req.http_body is Some,
{
    match parse_request_head(data) {
        Some(p) => assemble_request(p, data),
        None => None,
    }
}

} // verus!
