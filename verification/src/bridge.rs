//! The conversions between the plain request and response objects that
//! Node.js hands over and what the router works on: the checked head of an
//! HTTP request as bytes, and the router's response.
use vstd::prelude::*;

use crate::text::push_char;

verus! {

/// A token character of RFC 9110 (`tchar`): the bytes that the HTTP crate
/// accepts in methods and header names.
pub open spec fn is_tchar(b: u8) -> bool {
    ||| b == 33
    ||| 35 <= b <= 39
    ||| b == 42
    ||| b == 43
    ||| b == 45
    ||| b == 46
    ||| 48 <= b <= 57
    ||| 65 <= b <= 90
    ||| 94 <= b <= 122
    ||| b == 124
    ||| b == 126
}

/// A method the HTTP crate accepts: a non-empty token.
pub open spec fn valid_method(bytes: Seq<u8>) -> bool {
    bytes.len() > 0 && forall|i: int| 0 <= i < bytes.len() ==> is_tchar(#[trigger] bytes[i])
}

/// A header name the HTTP crate accepts: a token of 1 to 65535 bytes.
pub open spec fn valid_header_name(bytes: Seq<u8>) -> bool {
    0 < bytes.len() <= 65535 && forall|i: int| 0 <= i < bytes.len() ==> is_tchar(#[trigger] bytes[i])
}

/// A byte the HTTP crate accepts in a header value: tab, or anything from
/// space upward except DEL.
pub open spec fn is_value_byte(b: u8) -> bool {
    (b >= 32 && b != 127) || b == 9
}

/// A header value the HTTP crate accepts.
pub open spec fn valid_header_value(bytes: Seq<u8>) -> bool {
    forall|i: int| 0 <= i < bytes.len() ==> is_value_byte(#[trigger] bytes[i])
}

/// Whether the HTTP crate parses these bytes as a URI (the grammar of
/// `Uri::try_from(&[u8])`).
pub uninterp spec fn uri_accepts(bytes: Seq<u8>) -> bool;

/// `http::Method::from_bytes`: accepts exactly the non-empty tokens.
#[verifier::external_body]
fn parse_method(bytes: &[u8]) -> (res: Result<http::Method, http::method::InvalidMethod>)
    ensures
        res is Ok <==> valid_method(bytes@),
{
    http::Method::from_bytes(bytes)
}

/// `http::Uri::try_from(&[u8])`: whether it succeeds is named by
/// `uri_accepts`; nothing is stated of the parsed URI.
#[verifier::external_body]
fn parse_uri(bytes: &[u8]) -> (res: Result<http::Uri, http::uri::InvalidUri>)
    ensures
        res is Ok <==> uri_accepts(bytes@),
{
    http::Uri::try_from(bytes)
}

/// `http::HeaderName::from_bytes`: accepts tokens of 1 to 65535 bytes (and
/// lower-cases them; the normalized name is not stated).
#[verifier::external_body]
fn parse_header_name(bytes: &[u8]) -> (res: Result<http::HeaderName, http::header::InvalidHeaderName>)
    ensures
        res is Ok <==> valid_header_name(bytes@),
{
    http::HeaderName::from_bytes(bytes)
}

/// `http::HeaderValue::from_bytes`: accepts exactly the values made of tab
/// and of bytes from space upward except DEL.
#[verifier::external_body]
fn parse_header_value(bytes: &[u8]) -> (res: Result<http::HeaderValue, http::header::InvalidHeaderValue>)
    ensures
        res is Ok <==> valid_header_value(bytes@),
{
    http::HeaderValue::from_bytes(bytes)
}

/// A request as Node.js passes it in.
#[derive(Debug)]
pub struct Request {
    pub method: String,
    pub url: String,
    pub headers: Vec<(String, String)>,
    pub body: Option<Vec<u8>>,
}

/// A response as Node.js receives it back. Header names are distinct.
#[derive(Debug)]
pub struct Response {
    pub status: u16,
    pub headers: Vec<(String, String)>,
    pub body: Option<Vec<u8>>,
}

/// The head of a request as bytes: its method, its URI and its header
/// pairs in order.
#[derive(Debug)]
pub struct RequestHead {
    pub method: Vec<u8>,
    pub uri: Vec<u8>,
    pub headers: Vec<(Vec<u8>, Vec<u8>)>,
}

/// A request ready for the router: its head and its body.
#[derive(Debug)]
pub struct HttpRequest {
    pub head: RequestHead,
    pub body: Vec<u8>,
}

/// Why a request could not be turned into an HTTP request.
#[derive(Clone, Copy, Debug, PartialEq, Eq, Structural)]
pub enum RequestError {
    InvalidMethod,
    InvalidUri,
    /// The name of the header at this position is not a valid header name.
    InvalidHeaderName(usize),
    /// The value of the header at this position is not a valid header value.
    InvalidHeaderValue(usize),
}

/// The UTF-8 bytes of a string.
pub open spec fn utf8_of(s: Seq<char>) -> Seq<u8> {
    vstd::utf8::encode_utf8(s)
}

/// The error of the header at position `k`, checking its name first.
pub open spec fn header_error_at(headers: Seq<(String, String)>, k: int) -> Option<RequestError> {
    if !valid_header_name(utf8_of(headers[k].0@)) {
        Some(RequestError::InvalidHeaderName(k as usize))
    } else if !valid_header_value(utf8_of(headers[k].1@)) {
        Some(RequestError::InvalidHeaderValue(k as usize))
    } else {
        None
    }
}

/// The first error among the first `n` headers, in order.
pub open spec fn first_header_error(headers: Seq<(String, String)>, n: nat) -> Option<RequestError>
    decreases n,
{
    if n == 0 {
        None
    } else {
        match first_header_error(headers, (n - 1) as nat) {
            Some(e) => Some(e),
            None => header_error_at(headers, n - 1),
        }
    }
}

/// The bytes of an optional body: empty when absent.
pub open spec fn body_bytes(body: Option<Vec<u8>>) -> Seq<u8> {
    match body {
        Some(b) => b@,
        None => Seq::empty(),
    }
}

/// The first error that converting the request meets: the method, then the
/// URL, then each header in order, name before value.
pub open spec fn conversion_error(
    method: Seq<char>,
    url: Seq<char>,
    headers: Seq<(String, String)>,
) -> Option<RequestError> {
    if !valid_method(utf8_of(method)) {
        Some(RequestError::InvalidMethod)
    } else if !uri_accepts(utf8_of(url)) {
        Some(RequestError::InvalidUri)
    } else {
        first_header_error(headers, headers.len())
    }
}

/// Once an error is found among the first `i + 1` headers, it stays the
/// first error of every longer prefix.
proof fn first_header_error_sticks(headers: Seq<(String, String)>, i: nat, n: nat)
    requires
        i < n,
        first_header_error(headers, (i + 1) as nat) is Some,
    ensures
        first_header_error(headers, n) == first_header_error(headers, (i + 1) as nat),
    decreases n,
{
    if n > i + 1 {
        first_header_error_sticks(headers, i, (n - 1) as nat);
    }
}

/// The head of an HTTP request built from these parts: each text as its
/// UTF-8 bytes, the headers in their order.
pub open spec fn head_of(
    head: RequestHead,
    method: Seq<char>,
    url: Seq<char>,
    headers: Seq<(String, String)>,
) -> bool {
    &&& head.method@ == utf8_of(method)
    &&& head.uri@ == utf8_of(url)
    &&& head.headers@.len() == headers.len()
    &&& forall|i: int|
        0 <= i < headers.len() ==> (#[trigger] head.headers@[i]).0@ == utf8_of(headers[i].0@)
            && head.headers@[i].1@ == utf8_of(headers[i].1@)
}

impl Request {
    /// Checks the parts that the HTTP crate parses, in the order method,
    /// URL, then each header's name and value, and returns the first that
    /// it rejects.
    pub fn validate(&self) -> (res: Result<(), RequestError>)
        ensures
            match conversion_error(self.method@, self.url@, self.headers@) {
                Some(e) => res == Err::<(), RequestError>(e),
                None => res is Ok,
            },
    {
        if parse_method(self.method.as_str().as_bytes()).is_err() {
            return Err(RequestError::InvalidMethod);
        }
        if parse_uri(self.url.as_str().as_bytes()).is_err() {
            return Err(RequestError::InvalidUri);
        }
        let n = self.headers.len();
        let mut i: usize = 0;
        while i < n
            invariant
                n == self.headers@.len(),
                i <= n,
                valid_method(utf8_of(self.method@)),
                uri_accepts(utf8_of(self.url@)),
                first_header_error(self.headers@, i as nat) is None,
            decreases n - i,
        {
            let (key, val) = &self.headers[i];
            if parse_header_name(key.as_str().as_bytes()).is_err() {
                proof {
                    assert(first_header_error(self.headers@, (i + 1) as nat) == Some(
                        RequestError::InvalidHeaderName(i),
                    ));
                    first_header_error_sticks(self.headers@, i as nat, n as nat);
                }
                return Err(RequestError::InvalidHeaderName(i));
            }
            if parse_header_value(val.as_str().as_bytes()).is_err() {
                proof {
                    assert(first_header_error(self.headers@, (i + 1) as nat) == Some(
                        RequestError::InvalidHeaderValue(i),
                    ));
                    first_header_error_sticks(self.headers@, i as nat, n as nat);
                }
                return Err(RequestError::InvalidHeaderValue(i));
            }
            assert(header_error_at(self.headers@, i as int) is None);
            i = i + 1;
        }
        Ok(())
    }

    /// Turns a valid request into the head and body of an HTTP request: the
    /// method, URL and headers (in order) as bytes, and the body (empty when
    /// absent). A request that the HTTP crate rejects is left out (building
    /// one panics); `checked_http` reports it instead. The header map's own
    /// size limit applies where the typed request is built from this head.
    pub fn http(self) -> (res: HttpRequest)
        requires
            conversion_error(self.method@, self.url@, self.headers@) is None,
        ensures
            head_of(res.head, self.method@, self.url@, self.headers@),
            res.body@ == body_bytes(self.body),
    {
        let method = self.method.as_str().as_bytes_vec();
        let uri = self.url.as_str().as_bytes_vec();
        let mut headers: Vec<(Vec<u8>, Vec<u8>)> = Vec::new();
        let n = self.headers.len();
        let mut i: usize = 0;
        while i < n
            invariant
                n == self.headers@.len(),
                i <= n,
                headers@.len() == i,
                forall|k: int|
                    0 <= k < i ==> (#[trigger] headers@[k]).0@ == utf8_of(self.headers@[k].0@)
                        && headers@[k].1@ == utf8_of(self.headers@[k].1@),
            decreases n - i,
        {
            let (key, val) = &self.headers[i];
            headers.push((key.as_str().as_bytes_vec(), val.as_str().as_bytes_vec()));
            i = i + 1;
        }
        let body = match self.body {
            Some(b) => b,
            None => Vec::new(),
        };
        HttpRequest { head: RequestHead { method, uri, headers }, body }
    }

    /// Checks the request, then turns it into an HTTP request: the first
    /// rejected part (see `validate`), or the request that `http` builds.
    pub fn checked_http(self) -> (res: Result<HttpRequest, RequestError>)
        ensures
            match conversion_error(self.method@, self.url@, self.headers@) {
                Some(e) => res == Err::<HttpRequest, RequestError>(e),
                None => res matches Ok(r) && head_of(r.head, self.method@, self.url@, self.headers@)
                    && r.body@ == body_bytes(self.body),
            },
    {
        match self.validate() {
            Err(e) => Err(e),
            Ok(()) => Ok(self.http()),
        }
    }
}

/// A byte that `HeaderValue::to_str` accepts: tab or visible ASCII.
pub open spec fn is_visible_ascii(b: u8) -> bool {
    (32 <= b && b < 127) || b == 9
}

/// The text of a response header value: its bytes as characters when all
/// are visible ASCII, else the empty text (`to_str().unwrap_or_default()`).
pub open spec fn header_text(bytes: Seq<u8>) -> Seq<char> {
    if forall|i: int| 0 <= i < bytes.len() ==> is_visible_ascii(#[trigger] bytes[i]) {
        bytes.map_values(|b: u8| b as char)
    } else {
        Seq::empty()
    }
}

/// The headers as a map from name to text, a later pair replacing an
/// earlier one of the same name.
pub open spec fn pairs_map(v: Seq<(String, String)>) -> Map<Seq<char>, Seq<char>>
    decreases v.len(),
{
    if v.len() == 0 {
        Map::empty()
    } else {
        pairs_map(v.drop_last()).insert(v.last().0@, v.last().1@)
    }
}

/// The map that collecting the response's headers yields: each name maps
/// to the text of its last value.
pub open spec fn collected_headers(h: Seq<(String, Vec<u8>)>) -> Map<Seq<char>, Seq<char>>
    decreases h.len(),
{
    if h.len() == 0 {
        Map::empty()
    } else {
        collected_headers(h.drop_last()).insert(h.last().0@, header_text(h.last().1@))
    }
}

/// No two pairs share a name.
pub open spec fn distinct_names(v: Seq<(String, String)>) -> bool {
    forall|i: int, j: int| 0 <= i < j < v.len() ==> v[i].0@ != v[j].0@
}

/// Replacing the value of a pair in a list without repeated names updates
/// the map at that name.
proof fn pairs_map_update(v: Seq<(String, String)>, j: int, p: (String, String))
    requires
        distinct_names(v),
        0 <= j < v.len(),
        v[j].0@ == p.0@,
    ensures
        pairs_map(v.update(j, p)) == pairs_map(v).insert(p.0@, p.1@),
    decreases v.len(),
{
    let w = v.update(j, p);
    if j == v.len() - 1 {
        assert(w.drop_last() =~= v.drop_last());
        assert(pairs_map(w) =~= pairs_map(v).insert(p.0@, p.1@));
    } else {
        assert(w.drop_last() =~= v.drop_last().update(j, p));
        pairs_map_update(v.drop_last(), j, p);
        assert(v.last().0@ != p.0@);
        assert(pairs_map(w) =~= pairs_map(v).insert(p.0@, p.1@));
    }
}

/// Decodes a response header value as `to_str().unwrap_or_default()` does.
pub fn header_value_text(bytes: &[u8]) -> (res: String)
    ensures
        res@ == header_text(bytes@),
        (forall|i: int| 0 <= i < bytes@.len() ==> (32 <= #[trigger] bytes@[i] <= 126 || bytes@[i] == 9)) ==> (
        res@.len() == bytes@.len() && forall|i: int| 0 <= i < bytes@.len() ==> #[trigger] res@[i] == bytes@[i] as char),
{
    let n = bytes.len();
    let mut i: usize = 0;
    while i < n
        invariant
            n == bytes@.len(),
            i <= n,
            forall|k: int| 0 <= k < i ==> is_visible_ascii(#[trigger] bytes@[k]),
        decreases n - i,
    {
        let b = bytes[i];
        if !((32 <= b && b < 127) || b == 9) {
            return String::new();
        }
        i = i + 1;
    }
    let mut res = String::new();
    let mut i: usize = 0;
    while i < n
        invariant
            n == bytes@.len(),
            i <= n,
            res@ =~= bytes@.take(i as int).map_values(|b: u8| b as char),
        decreases n - i,
    {
        push_char(&mut res, bytes[i] as char);
        assert(bytes@.take((i + 1) as int) =~= bytes@.take(i as int).push(bytes@[i as int]));
        i = i + 1;
    }
    assert(bytes@.take(n as int) =~= bytes@);
    res
}

impl Response {
    /// Builds the response handed back to Node.js from the router's status,
    /// header pairs (name and raw value, in the order the router lists
    /// them) and collected body (`None` when collecting it failed). Each
    /// name keeps the text of its last value, and no name appears twice.
    pub fn from_parts(status: u16, headers: Vec<(String, Vec<u8>)>, body: Option<Vec<u8>>) -> (res: Response)
        ensures
            res.status == status,
            res.body == body,
            distinct_names(res.headers@),
            pairs_map(res.headers@) == collected_headers(headers@),
    {
        let mut collected: Vec<(String, String)> = Vec::new();
        let n = headers.len();
        let mut i: usize = 0;
        while i < n
            invariant
                n == headers@.len(),
                i <= n,
                distinct_names(collected@),
                pairs_map(collected@) == collected_headers(headers@.take(i as int)),
            decreases n - i,
        {
            let name = headers[i].0.clone();
            let text = header_value_text(headers[i].1.as_slice());
            assert(headers@.take((i + 1) as int).drop_last() =~= headers@.take(i as int));
            let m = collected.len();
            let mut j: usize = 0;
            let mut found = false;
            while j < m && !found
                invariant
                    m == collected@.len(),
                    j <= m,
                    !found ==> forall|k: int| 0 <= k < j ==> collected@[k].0@ != name@,
                    found ==> j < m && collected@[j as int].0@ == name@,
                decreases m - j + (if found { 0int } else { 1int }),
            {
                if collected[j].0 == name {
                    found = true;
                } else {
                    j = j + 1;
                }
            }
            let ghost before = collected@;
            if found {
                proof {
                    pairs_map_update(before, j as int, (name, text));
                }
                collected.set(j, (name, text));
                assert(distinct_names(collected@)) by {
                    assert forall|a: int, b: int| 0 <= a < b < collected@.len() implies collected@[a].0@
                        != collected@[b].0@ by {
                        assert(collected@[a].0@ == before[a].0@);
                        assert(collected@[b].0@ == before[b].0@);
                    }
                }
            } else {
                collected.push((name, text));
                assert(collected@.drop_last() =~= before);
            }
            i = i + 1;
        }
        assert(headers@.take(n as int) =~= headers@);
        Response { status, headers: collected, body }
    }
}

/// The first header error among the first `n` headers is the error of the
/// first header that has one, and there is none exactly when no header
/// among them has one.
proof fn first_header_error_is_first(h: Seq<(String, String)>, n: nat)
    ensures
        first_header_error(h, n) is None <==> forall|k: int| 0 <= k < n ==> #[trigger] header_error_at(h, k) is None,
        first_header_error(h, n) is Some ==> exists|k: int|
            0 <= k < n && #[trigger] header_error_at(h, k) == first_header_error(h, n) && forall|j: int|
                0 <= j < k ==> #[trigger] header_error_at(h, j) is None,
    decreases n,
{
    if n > 0 {
        first_header_error_is_first(h, (n - 1) as nat);
        if first_header_error(h, (n - 1) as nat) is None {
            assert forall|k: int| 0 <= k < n && k != n - 1 implies #[trigger] header_error_at(h, k) is None by {
                assert(0 <= k < n - 1);
            }
            if first_header_error(h, n) is Some {
                assert(header_error_at(h, n - 1) == first_header_error(h, n));
                assert(forall|j: int| 0 <= j < n - 1 ==> #[trigger] header_error_at(h, j) is None);
            }
        }
    }
}

/// A request converts exactly when the HTTP crate accepts every part of it:
/// its method, its URL, and each header's name and value. A header is
/// reported for its value only when the HTTP crate rejects that value (its
/// name being accepted), and for its name only when the crate rejects the
/// name; every value made of visible ASCII, `;` and `=` included, is
/// accepted.
pub proof fn request_converts_exactly_when_every_part_is_valid(
    method: Seq<char>,
    url: Seq<char>,
    headers: Seq<(String, String)>,
)
    requires
        headers.len() <= usize::MAX,
    ensures
        conversion_error(method, url, headers) is None <==> (valid_method(utf8_of(method)) && uri_accepts(
            utf8_of(url),
        ) && forall|k: int|
            0 <= k < headers.len() ==> valid_header_name(utf8_of((#[trigger] headers[k]).0@))
                && valid_header_value(utf8_of(headers[k].1@))),
        !valid_method(utf8_of(method)) ==> conversion_error(method, url, headers) == Some(
            RequestError::InvalidMethod,
        ),
        valid_method(utf8_of(method)) && !uri_accepts(utf8_of(url)) ==> conversion_error(method, url, headers)
            == Some(RequestError::InvalidUri),
        conversion_error(method, url, headers) matches Some(RequestError::InvalidHeaderValue(j)) ==> j
            < headers.len() && valid_header_name(utf8_of(headers[j as int].0@)) && !valid_header_value(
            utf8_of(headers[j as int].1@),
        ),
        conversion_error(method, url, headers) matches Some(RequestError::InvalidHeaderName(j)) ==> j
            < headers.len() && !valid_header_name(utf8_of(headers[j as int].0@)),
        conversion_error(method, url, headers) matches Some(RequestError::InvalidHeaderValue(j)) ==> forall|
            k: int,
        |
            0 <= k < j ==> valid_header_name(utf8_of((#[trigger] headers[k]).0@)) && valid_header_value(
                utf8_of(headers[k].1@),
            ),
        conversion_error(method, url, headers) matches Some(RequestError::InvalidHeaderName(j)) ==> forall|
            k: int,
        |
            0 <= k < j ==> valid_header_name(utf8_of((#[trigger] headers[k]).0@)) && valid_header_value(
                utf8_of(headers[k].1@),
            ),
        forall|bytes: Seq<u8>|
            (forall|i: int| 0 <= i < bytes.len() ==> 32 <= #[trigger] bytes[i] <= 126)
                ==> #[trigger] valid_header_value(bytes),
{
    first_header_error_is_first(headers, headers.len());
    if let Some(RequestError::InvalidHeaderValue(j)) = conversion_error(method, url, headers) {
        let k = choose|k: int|
            0 <= k < headers.len() && #[trigger] header_error_at(headers, k) == first_header_error(
                headers,
                headers.len(),
            ) && forall|j: int| 0 <= j < k ==> #[trigger] header_error_at(headers, j) is None;
        assert(k == j);
        assert forall|i: int| 0 <= i < j implies valid_header_name(utf8_of((#[trigger] headers[i]).0@))
            && valid_header_value(utf8_of(headers[i].1@)) by {
            assert(header_error_at(headers, i) is None);
        }
    }
    if let Some(RequestError::InvalidHeaderName(j)) = conversion_error(method, url, headers) {
        let k = choose|k: int|
            0 <= k < headers.len() && #[trigger] header_error_at(headers, k) == first_header_error(
                headers,
                headers.len(),
            ) && forall|j: int| 0 <= j < k ==> #[trigger] header_error_at(headers, j) is None;
        assert(k == j);
        assert forall|i: int| 0 <= i < j implies valid_header_name(utf8_of((#[trigger] headers[i]).0@))
            && valid_header_value(utf8_of(headers[i].1@)) by {
            assert(header_error_at(headers, i) is None);
        }
    }
    if conversion_error(method, url, headers) is None {
        assert forall|k: int| 0 <= k < headers.len() implies valid_header_name(
            utf8_of((#[trigger] headers[k]).0@),
        ) && valid_header_value(utf8_of(headers[k].1@)) by {
            assert(header_error_at(headers, k) is None);
        }
    }
    if valid_method(utf8_of(method)) && uri_accepts(utf8_of(url)) && forall|k: int|
        0 <= k < headers.len() ==> valid_header_name(utf8_of((#[trigger] headers[k]).0@))
            && valid_header_value(utf8_of(headers[k].1@)) {
        assert forall|k: int| 0 <= k < headers.len() implies #[trigger] header_error_at(headers, k) is None by {
            assert(valid_header_name(utf8_of(headers[k].0@)));
        }
    }
}

/// The text of a response header value keeps its bytes as they are: a
/// value made only of visible ASCII and tabs becomes the text of exactly
/// those characters in order, and any other value becomes the empty text.
pub proof fn header_text_keeps_the_value(bytes: Seq<u8>)
    ensures
        (forall|i: int| 0 <= i < bytes.len() ==> (32 <= #[trigger] bytes[i] <= 126 || bytes[i] == 9)) ==> (
        header_text(bytes).len() == bytes.len() && forall|i: int|
            0 <= i < bytes.len() ==> #[trigger] header_text(bytes)[i] == bytes[i] as char),
        (exists|i: int| 0 <= i < bytes.len() && !(32 <= #[trigger] bytes[i] <= 126 || bytes[i] == 9)) ==> header_text(
            bytes,
        ).len() == 0,
{
    if exists|i: int| 0 <= i < bytes.len() && !(32 <= #[trigger] bytes[i] <= 126 || bytes[i] == 9) {
        let i = choose|i: int| 0 <= i < bytes.len() && !(32 <= #[trigger] bytes[i] <= 126 || bytes[i] == 9);
        assert(!is_visible_ascii(bytes[i]));
    }
}

/// Collecting the response's headers gives each name the text of its last
/// value, and only names that occur.
#[verifier::rlimit(30)]
pub proof fn collected_headers_keep_the_last_value(h: Seq<(String, Vec<u8>)>)
    ensures
        forall|i: int|
            0 <= i < h.len() && (forall|j: int| i < j < h.len() ==> h[j].0@ != h[i].0@) ==> (
            collected_headers(h).contains_key(#[trigger] h[i].0@) && collected_headers(h)[h[i].0@]
                == header_text(h[i].1@)),
        forall|n: Seq<char>|
            #[trigger] collected_headers(h).contains_key(n) ==> exists|i: int| 0 <= i < h.len() && h[i].0@ == n,
    decreases h.len(),
{
    if h.len() > 0 {
        let g = h.drop_last();
        collected_headers_keep_the_last_value(g);
        assert forall|i: int|
            0 <= i < h.len() && (forall|j: int| i < j < h.len() ==> h[j].0@ != h[i].0@) implies (
            collected_headers(h).contains_key(#[trigger] h[i].0@) && collected_headers(h)[h[i].0@]
                == header_text(h[i].1@)) by {
            if i < h.len() - 1 {
                assert(g[i] == h[i]);
                assert(h[h.len() - 1].0@ != h[i].0@);
                assert forall|j: int| i < j < g.len() implies g[j].0@ != g[i].0@ by {
                    assert(g[j] == h[j]);
                }
            }
        }
        assert forall|n: Seq<char>| #[trigger] collected_headers(h).contains_key(n) implies exists|i: int|
            0 <= i < h.len() && h[i].0@ == n by {
            if n != h.last().0@ {
                assert(collected_headers(g).contains_key(n));
                let i = choose|i: int| 0 <= i < g.len() && g[i].0@ == n;
                assert(h[i] == g[i]);
            } else {
                assert(h[h.len() - 1].0@ == n);
            }
        }
    }
}

/// The head of a converted request carries the request's text unchanged:
/// decoding its method, URI and each header's name and value as UTF-8
/// gives back exactly the request's strings, in the request's order, and a
/// text made of ASCII characters becomes the bytes of those characters.
pub proof fn http_head_carries_the_request_text(
    head: RequestHead,
    method: Seq<char>,
    url: Seq<char>,
    headers: Seq<(String, String)>,
)
    requires
        head_of(head, method, url, headers),
    ensures
        vstd::utf8::decode_utf8(head.method@) == method,
        vstd::utf8::decode_utf8(head.uri@) == url,
        head.headers@.len() == headers.len(),
        forall|i: int|
            0 <= i < headers.len() ==> vstd::utf8::decode_utf8((#[trigger] head.headers@[i]).0@)
                == headers[i].0@ && vstd::utf8::decode_utf8(head.headers@[i].1@) == headers[i].1@,
        vstd::utf8::is_ascii_chars(method) ==> head.method@.len() == method.len() && forall|i: int|
            0 <= i < method.len() ==> #[trigger] head.method@[i] == method[i] as u8,
        vstd::utf8::is_ascii_chars(url) ==> head.uri@.len() == url.len() && forall|i: int|
            0 <= i < url.len() ==> #[trigger] head.uri@[i] == url[i] as u8,
{
    vstd::utf8::encode_utf8_decode_utf8(method);
    vstd::utf8::encode_utf8_decode_utf8(url);
    assert forall|i: int| 0 <= i < headers.len() implies vstd::utf8::decode_utf8(
        (#[trigger] head.headers@[i]).0@,
    ) == headers[i].0@ && vstd::utf8::decode_utf8(head.headers@[i].1@) == headers[i].1@ by {
        vstd::utf8::encode_utf8_decode_utf8(headers[i].0@);
        vstd::utf8::encode_utf8_decode_utf8(headers[i].1@);
    }
    if vstd::utf8::is_ascii_chars(method) {
        vstd::utf8::is_ascii_chars_encode_utf8(method);
    }
    if vstd::utf8::is_ascii_chars(url) {
        vstd::utf8::is_ascii_chars_encode_utf8(url);
    }
}

/// Listing pairs without repeated names: the map of the list holds exactly
/// the listed names, each with the value listed for it.
pub proof fn pairs_map_lists_each_pair(v: Seq<(String, String)>)
    requires
        distinct_names(v),
    ensures
        forall|i: int|
            0 <= i < v.len() ==> pairs_map(v).contains_key((#[trigger] v[i]).0@) && pairs_map(v)[v[i].0@]
                == v[i].1@,
        forall|n: Seq<char>| #[trigger] pairs_map(v).contains_key(n) ==> exists|i: int| 0 <= i < v.len() && v[i].0@ == n,
    decreases v.len(),
{
    if v.len() > 0 {
        let g = v.drop_last();
        assert(distinct_names(g)) by {
            assert forall|i: int, j: int| 0 <= i < j < g.len() implies g[i].0@ != g[j].0@ by {
                assert(g[i] == v[i] && g[j] == v[j]);
            }
        }
        pairs_map_lists_each_pair(g);
        assert forall|i: int| 0 <= i < v.len() implies pairs_map(v).contains_key((#[trigger] v[i]).0@)
            && pairs_map(v)[v[i].0@] == v[i].1@ by {
            if i < v.len() - 1 {
                assert(g[i] == v[i]);
                assert(v[v.len() - 1].0@ != v[i].0@);
            }
        }
        assert forall|n: Seq<char>| #[trigger] pairs_map(v).contains_key(n) implies exists|i: int|
            0 <= i < v.len() && v[i].0@ == n by {
            if n != v.last().0@ {
                assert(pairs_map(g).contains_key(n));
                let i = choose|i: int| 0 <= i < g.len() && g[i].0@ == n;
                assert(v[i] == g[i]);
            } else {
                assert(v[v.len() - 1].0@ == n);
            }
        }
    }
}

/// The headers of the response built by `from_parts`: every name that
/// the router lists appears, paired with the text of its last value, and
/// every listed pair carries a name that the router listed.
pub proof fn response_headers_hold_the_last_values(h: Seq<(String, Vec<u8>)>, res: Seq<(String, String)>)
    requires
        distinct_names(res),
        pairs_map(res) == collected_headers(h),
    ensures
        forall|i: int|
            0 <= i < h.len() && (forall|j: int| i < j < h.len() ==> h[j].0@ != h[i].0@) ==> exists|k: int|
                0 <= k < res.len() && res[k].0@ == (#[trigger] h[i]).0@ && res[k].1@ == header_text(h[i].1@),
        forall|k: int| 0 <= k < res.len() ==> exists|i: int| 0 <= i < h.len() && h[i].0@ == (#[trigger] res[k]).0@,
{
    collected_headers_keep_the_last_value(h);
    pairs_map_lists_each_pair(res);
    assert forall|i: int|
        0 <= i < h.len() && (forall|j: int| i < j < h.len() ==> h[j].0@ != h[i].0@) implies exists|k: int|
            0 <= k < res.len() && res[k].0@ == (#[trigger] h[i]).0@ && res[k].1@ == header_text(h[i].1@) by {
        assert(collected_headers(h).contains_key(h[i].0@));
        assert(pairs_map(res).contains_key(h[i].0@));
        let k = choose|k: int| 0 <= k < res.len() && res[k].0@ == h[i].0@;
        assert(pairs_map(res)[res[k].0@] == res[k].1@);
    }
    assert forall|k: int| 0 <= k < res.len() implies exists|i: int|
        0 <= i < h.len() && h[i].0@ == (#[trigger] res[k]).0@ by {
        assert(pairs_map(res).contains_key(res[k].0@));
        assert(collected_headers(h).contains_key(res[k].0@));
    }
}

} // verus!
