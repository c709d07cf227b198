//! The demo web server's request handling, separated from its sockets: which
//! request line maps to which response, and how the response is framed.

use crate::text::dec_digits;
use crate::text::str_eq;
use crate::text::u64_to_decimal;
use vstd::prelude::*;
use vstd::string::StringExecFns;
use vstd::string::StringSliceAdditionalSpecFns;

verus! {

/// The three request shapes the server distinguishes.
#[derive(Debug, Clone, Copy, PartialEq, Eq, Structural)]
pub enum RequestKind {
    /// The root page: answered at once with the greeting page.
    Root,
    /// The slow page: answered with the greeting page after a pause.
    Sleep,
    /// Anything else: answered with the not-found page.
    NotFound,
}

/// Sorts a request line into the three shapes the server knows.
pub fn route_request(request_line: &str) -> (r: RequestKind)
    ensures
        r is Root <==> request_line@ == "GET / HTTP/1.1"@,
        r is Sleep <==> request_line@ != "GET / HTTP/1.1"@ && request_line@
            == "GET /sleep HTTP/1.1"@,
        r is NotFound <==> request_line@ != "GET / HTTP/1.1"@ && request_line@
            != "GET /sleep HTTP/1.1"@,
{
    if str_eq(request_line, "GET / HTTP/1.1") {
        RequestKind::Root
    } else if str_eq(request_line, "GET /sleep HTTP/1.1") {
        RequestKind::Sleep
    } else {
        RequestKind::NotFound
    }
}

/// The status line each request shape is answered with.
pub fn status_line(kind: RequestKind) -> (r: &'static str)
    ensures
        kind is NotFound ==> r@ == "HTTP/1.1 404 NOT FOUND"@,
        !(kind is NotFound) ==> r@ == "HTTP/1.1 200 OK"@,
{
    match kind {
        RequestKind::NotFound => "HTTP/1.1 404 NOT FOUND",
        _ => "HTTP/1.1 200 OK",
    }
}

/// The page file each request shape is answered from.
pub fn file_for(kind: RequestKind) -> (r: &'static str)
    ensures
        kind is NotFound ==> r@ == "404.html"@,
        !(kind is NotFound) ==> r@ == "hello.html"@,
{
    match kind {
        RequestKind::NotFound => "404.html",
        _ => "hello.html",
    }
}

/// The full response text: status line, a content-length header counting the
/// body's bytes, a blank line, and the body.
pub fn build_response(status: &str, contents: &str) -> (r: String)
    requires
        contents.spec_bytes().len() <= usize::MAX,
    ensures
        r@ == status@ + "\r\nContent-Length: "@ + dec_digits(contents.spec_bytes().len()) + "\r\n\r\n"@
            + contents@,
{
    let mut s = String::from_str(status);
    s.append("\r\nContent-Length: ");
    let length = u64_to_decimal(contents.len() as u64);
    s.append(length.as_str());
    s.append("\r\n\r\n");
    s.append(contents);
    proof {
        assert(s@ =~= status@ + "\r\nContent-Length: "@ + dec_digits(contents.spec_bytes().len())
            + "\r\n\r\n"@ + contents@);
    }
    s
}

} // verus!
