//! Common HTTP value types: a response record, its builder, and the standard
//! status-code descriptions.

use vstd::prelude::*;

verus! {

/// Severity of a log line emitted by an HTTP server.
#[derive(Clone, Copy, Debug, Eq, Ord, PartialEq, PartialOrd)]
pub enum HttpLogLevel {
    Debug,
    Info,
    Warn,
    Error,
}

pub struct HttpResponse {
    pub code: u16,
    pub headers: Vec<(String, String)>,
    pub payload: Option<String>,
}

/// The ASCII-case-insensitive code of a character: upper-case ASCII letters
/// fold to their lower-case counterparts, every other character to itself.
pub open spec fn ascii_lower_code(c: char) -> int {
    if 65 <= c as int && c as int <= 90 {
        c as int + 32
    } else {
        c as int
    }
}

/// Two character sequences are equal up to ASCII case.
pub open spec fn eq_ignore_ascii_case_spec(a: Seq<char>, b: Seq<char>) -> bool {
    a.len() == b.len() && forall|i: int|
        0 <= i < a.len() ==> ascii_lower_code(a[i]) == ascii_lower_code(b[i])
}

/// Compares two strings character by character, folding ASCII letter case.
fn str_eq_ignore_ascii_case(a: &str, b: &str) -> (r: bool)
    ensures
        r == eq_ignore_ascii_case_spec(a@, b@),
{
    let len_a: usize = a.unicode_len();
    let len_b: usize = b.unicode_len();
    if len_a != len_b {
        return false;
    }
    let mut i: usize = 0;
    while i < len_a
        invariant
            len_a == a@.len(),
            len_a == b@.len(),
            i <= len_a,
            forall|j: int| 0 <= j < i ==> ascii_lower_code(a@[j]) == ascii_lower_code(b@[j]),
        decreases len_a - i,
    {
        let ca: u32 = a.get_char(i) as u32;
        let cb: u32 = b.get_char(i) as u32;
        let fa: u32 = if 65 <= ca && ca <= 90 {
            ca + 32
        } else {
            ca
        };
        let fb: u32 = if 65 <= cb && cb <= 90 {
            cb + 32
        } else {
            cb
        };
        if fa != fb {
            return false;
        }
        i = i + 1;
    }
    true
}

impl HttpResponse {
    pub fn new(code: u16, headers: Vec<(String, String)>, payload: Option<String>) -> (r: Self)
        ensures
            r.code == code,
            r.headers == headers,
            r.payload == payload,
    {
        Self { code, headers, payload }
    }

    pub fn builder() -> (r: HttpResponseBuilder)
        ensures
            r.spec_code() == 200,
            r.spec_headers().len() == 0,
            r.spec_payload() is None,
    {
        HttpResponseBuilder { code: 200, headers: Vec::new(), payload: None }
    }

    pub fn add_header(&mut self, header: &str, value: &str)
        ensures
            final(self).code == old(self).code,
            final(self).payload == old(self).payload,
            final(self).headers@.len() == old(self).headers@.len() + 1,
            final(self).headers@.subrange(0, old(self).headers@.len() as int) == old(
                self,
            ).headers@,
            final(self).headers@.last().0@ == header@,
            final(self).headers@.last().1@ == value@,
    {
        let ghost old_headers = self.headers@;
        self.headers.push((header.to_owned(), value.to_owned()));
        proof {
            assert(self.headers@.subrange(0, old_headers.len() as int) =~= old_headers);
        }
    }

    /// Reports whether some header of the response has the given name,
    /// compared without regard to ASCII letter case.
    pub fn has_header(&self, header: &str) -> (r: bool)
        ensures
            r == exists|i: int|
                0 <= i < self.headers@.len() && eq_ignore_ascii_case_spec(
                    self.headers@[i].0@,
                    header@,
                ),
    {
        let n: usize = self.headers.len();
        let mut i: usize = 0;
        while i < n
            invariant
                n == self.headers@.len(),
                i <= n,
                forall|j: int|
                    0 <= j < i ==> !eq_ignore_ascii_case_spec(self.headers@[j].0@, header@),
            decreases n - i,
        {
            if str_eq_ignore_ascii_case(self.headers[i].0.as_str(), header) {
                return true;
            }
            i = i + 1;
        }
        false
    }
}

pub struct HttpResponseBuilder {
    code: u16,
    headers: Vec<(String, String)>,
    payload: Option<String>,
}

impl HttpResponseBuilder {
    pub closed spec fn spec_code(&self) -> u16 {
        self.code
    }

    pub closed spec fn spec_headers(&self) -> Seq<(String, String)> {
        self.headers@
    }

    pub closed spec fn spec_payload(&self) -> Option<String> {
        self.payload
    }

    pub fn set_code(self, code: u16) -> (r: Self)
        ensures
            r.spec_code() == code,
            r.spec_headers() == self.spec_headers(),
            r.spec_payload() == self.spec_payload(),
    {
        let mut this = self;
        this.code = code;
        this
    }

    pub fn add_header(self, key: String, value: String) -> (r: Self)
        ensures
            r.spec_code() == self.spec_code(),
            r.spec_payload() == self.spec_payload(),
            r.spec_headers() == self.spec_headers().push((key, value)),
    {
        let mut this = self;
        this.headers.push((key, value));
        this
    }

    pub fn set_payload(self, payload: String) -> (r: Self)
        ensures
            r.spec_code() == self.spec_code(),
            r.spec_headers() == self.spec_headers(),
            r.spec_payload() == Some(payload),
    {
        let mut this = self;
        this.payload = Some(payload);
        this
    }

    pub fn build(self) -> (r: HttpResponse)
        ensures
            r.code == self.spec_code(),
            r.headers@ == self.spec_headers(),
            r.payload == self.spec_payload(),
    {
        HttpResponse::new(self.code, self.headers, self.payload)
    }
}

/// The description of an HTTP status code, as a character sequence.
pub open spec fn spec_http_code_describe(code: u16) -> Seq<char> {
    match code {
        100u16 => "Continue"@,
        101u16 => "Switching Protocols"@,
        200u16 => "OK"@,
        201u16 => "Created"@,
        202u16 => "Accepted"@,
        203u16 => "Non-Authoritative Information"@,
        204u16 => "No Content"@,
        205u16 => "Reset Content"@,
        206u16 => "Partial Content"@,
        300u16 => "Multiple Choices"@,
        301u16 => "Moved Permanently"@,
        302u16 => "Found"@,
        303u16 => "See Other"@,
        304u16 => "Not Modified"@,
        305u16 => "Use Proxy"@,
        307u16 => "Temporary Redirect"@,
        400u16 => "Bad Request"@,
        401u16 => "Unauthorized"@,
        402u16 => "Payment Required"@,
        403u16 => "Forbidden"@,
        404u16 => "Not Found"@,
        405u16 => "Method Not Allowed"@,
        406u16 => "Not Acceptable"@,
        407u16 => "Proxy Authentication Required"@,
        408u16 => "Request Timeout"@,
        409u16 => "Conflict"@,
        410u16 => "Gone"@,
        411u16 => "Length Required"@,
        412u16 => "Precondition Failed"@,
        413u16 => "Request Entity Too Large"@,
        414u16 => "Request-URI Too Long"@,
        415u16 => "Unsupported Media Type"@,
        416u16 => "Requested Range Not Satisfiable"@,
        417u16 => "Expectation Failed"@,
        500u16 => "Internal Server Error"@,
        501u16 => "Not Implemented"@,
        502u16 => "Bad Gateway"@,
        503u16 => "Service Unavailable"@,
        504u16 => "Gateway Timeout"@,
        505u16 => "HTTP Version Not Supported"@,
        _ => "Unknown"@,
    }
}

/// The standard reason phrase of an HTTP status code, `"Unknown"` for one
/// outside the table.
pub fn http_code_describe(code: u16) -> (r: &'static str)
    ensures
        r@ == spec_http_code_describe(code),
{
    match code {
        100 => "Continue",
        101 => "Switching Protocols",
        200 => "OK",
        201 => "Created",
        202 => "Accepted",
        203 => "Non-Authoritative Information",
        204 => "No Content",
        205 => "Reset Content",
        206 => "Partial Content",
        300 => "Multiple Choices",
        301 => "Moved Permanently",
        302 => "Found",
        303 => "See Other",
        304 => "Not Modified",
        305 => "Use Proxy",
        307 => "Temporary Redirect",
        400 => "Bad Request",
        401 => "Unauthorized",
        402 => "Payment Required",
        403 => "Forbidden",
        404 => "Not Found",
        405 => "Method Not Allowed",
        406 => "Not Acceptable",
        407 => "Proxy Authentication Required",
        408 => "Request Timeout",
        409 => "Conflict",
        410 => "Gone",
        411 => "Length Required",
        412 => "Precondition Failed",
        413 => "Request Entity Too Large",
        414 => "Request-URI Too Long",
        415 => "Unsupported Media Type",
        416 => "Requested Range Not Satisfiable",
        417 => "Expectation Failed",
        500 => "Internal Server Error",
        501 => "Not Implemented",
        502 => "Bad Gateway",
        503 => "Service Unavailable",
        504 => "Gateway Timeout",
        505 => "HTTP Version Not Supported",
        _ => "Unknown",
    }
}

} // verus!
