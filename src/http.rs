//! Framing a JSON document as a complete HTTP response.
use vstd::prelude::*;
use vstd::string::*;
use vstd::utf8::encode_utf8;

verus! {

/// The decimal digit of `d` (below ten).
pub open spec fn digit_char(d: nat) -> char {
    "0123456789"@[d as int]
}

/// The decimal form of `n`, without leading zeros.
pub open spec fn decimal(n: nat) -> Seq<char>
    decreases n,
{
    if n < 10 {
        seq![digit_char(n)]
    } else {
        decimal(n / 10) + seq![digit_char(n % 10)]
    }
}

fn decimal_string(n: usize) -> (r: String)
    ensures
        r@ == decimal(n as nat),
    decreases n,
{
    let digits = "0123456789";
    proof {
        reveal_strlit("0123456789");
    }
    let d = n % 10;
    let last = digits.substring_char(d, d + 1);
    assert(last@ =~= seq![digit_char(d as nat)]);
    if n < 10 {
        last.to_string()
    } else {
        decimal_string(n / 10).concat(last)
    }
}

/// Everything of the response that comes before the content length.
pub open spec fn response_head() -> Seq<char> {
    "HTTP/1.1 200 OK\r\nContent-Type: application/json\r\nAccess-Control-Allow-Origin: *\r\nAccess-Control-Allow-Methods: POST, GET, OPTIONS\r\nAccess-Control-Allow-Headers: Content-Type\r\nContent-Length: "@
}

/// What stands between the content length and the body.
pub open spec fn response_tail() -> Seq<char> {
    "\r\nConnection: close\r\n\r\n"@
}

/// The HTTP response that carries `body`: status line, JSON content type,
/// permissive CORS headers, the body's length in UTF-8 bytes, a close
/// directive, a blank line, then the body.
pub open spec fn http_response_of(body: Seq<char>) -> Seq<char> {
    response_head() + decimal(encode_utf8(body).len()) + response_tail() + body
}

/// The complete HTTP response that carries `body`.
pub fn http_response(body: &str) -> (r: String)
    ensures
        r@ == http_response_of(body@),
{
    let n = body.as_bytes().len();
    let r = String::from_str(
        "HTTP/1.1 200 OK\r\nContent-Type: application/json\r\nAccess-Control-Allow-Origin: *\r\nAccess-Control-Allow-Methods: POST, GET, OPTIONS\r\nAccess-Control-Allow-Headers: Content-Type\r\nContent-Length: ",
    );
    let r = r.concat(decimal_string(n).as_str());
    let r = r.concat("\r\nConnection: close\r\n\r\n");
    r.concat(body)
}

} // verus!
