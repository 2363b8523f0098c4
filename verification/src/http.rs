//! The compute side of the HTTP glue around the pool: deciding what a
//! request line asks for and assembling the response text. Reading the
//! request and the file, and writing the response, are the collaborator's
//! own I/O and stay outside the library.

use vstd::prelude::*;
use vstd::string::StringExecFns;
use vstd::string::StringSliceAdditionalSpecFns;

verus! {

/// What a request line asks for.
#[derive(Clone, Copy, Debug, PartialEq, Eq, Structural)]
pub enum RequestKind {
    /// The root page.
    Root,
    /// The root page, served after a deliberate delay.
    Sleep,
    /// Anything else: answered with the not-found page.
    Unknown,
}

/// Decides what a request line asks for: exactly the literal root and
/// sleep request lines are recognised; every other line is unknown.
pub fn route_request(request_line: &str) -> (r: RequestKind)
    ensures
        (r is Root <==> request_line@ == "GET / HTTP/1.1"@),
        (r is Sleep <==> request_line@ == "GET /sleep HTTP/1.1"@),
{
    proof {
        reveal_strlit("GET / HTTP/1.1");
        reveal_strlit("GET /sleep HTTP/1.1");
        assert("GET / HTTP/1.1"@.len() == 14);
        assert("GET /sleep HTTP/1.1"@.len() == 19);
    }
    let line: String = request_line.to_owned();
    if line == String::from_str("GET / HTTP/1.1") {
        RequestKind::Root
    } else if line == String::from_str("GET /sleep HTTP/1.1") {
        RequestKind::Sleep
    } else {
        RequestKind::Unknown
    }
}

/// The status line and the file to serve for each kind of request: the
/// recognised requests get the OK status and the hello page, everything
/// else the not-found status and the 404 page.
pub fn response_plan(kind: &RequestKind) -> (r: (&'static str, &'static str))
    ensures
        *kind is Root || *kind is Sleep ==> r.0@ == "HTTP/1.1 200 OK\r\n\r\n"@ && r.1@
            == "assets/hello.html"@,
        *kind is Unknown ==> r.0@ == "HTTP/1.1 404 NOT FOUND\r\n\r\n"@ && r.1@
            == "assets/404.html"@,
{
    match kind {
        RequestKind::Root => ("HTTP/1.1 200 OK\r\n\r\n", "assets/hello.html"),
        RequestKind::Sleep => ("HTTP/1.1 200 OK\r\n\r\n", "assets/hello.html"),
        RequestKind::Unknown => ("HTTP/1.1 404 NOT FOUND\r\n\r\n", "assets/404.html"),
    }
}

/// The character for one decimal digit.
pub open spec fn digit_char(d: nat) -> char {
    if d == 0 {
        '0'
    } else if d == 1 {
        '1'
    } else if d == 2 {
        '2'
    } else if d == 3 {
        '3'
    } else if d == 4 {
        '4'
    } else if d == 5 {
        '5'
    } else if d == 6 {
        '6'
    } else if d == 7 {
        '7'
    } else if d == 8 {
        '8'
    } else {
        '9'
    }
}

/// The usual decimal rendering of a number: most significant digit first,
/// no leading zeroes (except for zero itself).
pub open spec fn decimal_digits(n: nat) -> Seq<char>
    decreases n,
{
    if n < 10 {
        seq![digit_char(n)]
    } else {
        decimal_digits(n / 10).push(digit_char(n % 10))
    }
}

fn digit_str(d: usize) -> (r: &'static str)
    requires
        d < 10,
    ensures
        r@ == seq![digit_char(d as nat)],
{
    let r = match d {
        0 => "0",
        1 => "1",
        2 => "2",
        3 => "3",
        4 => "4",
        5 => "5",
        6 => "6",
        7 => "7",
        8 => "8",
        _ => "9",
    };
    proof {
        reveal_strlit("0");
        reveal_strlit("1");
        reveal_strlit("2");
        reveal_strlit("3");
        reveal_strlit("4");
        reveal_strlit("5");
        reveal_strlit("6");
        reveal_strlit("7");
        reveal_strlit("8");
        reveal_strlit("9");
        assert(r@ =~= seq![digit_char(d as nat)]);
    }
    r
}

/// Renders a number in decimal, as `decimal_digits` describes.
pub fn decimal_string(n: usize) -> (s: String)
    ensures
        s@ == decimal_digits(n as nat),
    decreases n,
{
    if n < 10 {
        let mut s = String::new();
        s.append(digit_str(n));
        proof {
            assert(s@ =~= decimal_digits(n as nat));
        }
        s
    } else {
        proof {
            assert(n / 10 < n) by (nonlinear_arith)
                requires
                    n >= 10,
            ;
        }
        let mut s = decimal_string(n / 10);
        s.append(digit_str(n % 10));
        proof {
            assert(s@ =~= decimal_digits(n as nat));
        }
        s
    }
}

/// Assembles the full response: the status line, the fixed content-type
/// header, the content length in bytes, a blank line, and the body.
pub fn build_response(status_line: &str, contents: &str) -> (r: String)
    ensures
        r@ == status_line@ + "\r\nContent-Type: text/html; charset=UTF-8\r\nContent-Length: "@
            + decimal_digits((contents.spec_bytes().len() as usize) as nat) + "\r\n\r\n"@
            + contents@,
{
    let mut r: String = status_line.to_owned();
    r.append("\r\nContent-Type: text/html; charset=UTF-8\r\nContent-Length: ");
    let length: usize = contents.len();
    let digits = decimal_string(length);
    r.append(digits.as_str());
    r.append("\r\n\r\n");
    r.append(contents);
    proof {
        assert(r@ =~= status_line@
            + "\r\nContent-Type: text/html; charset=UTF-8\r\nContent-Length: "@ + decimal_digits(
            (contents.spec_bytes().len() as usize) as nat,
        ) + "\r\n\r\n"@ + contents@);
    }
    r
}

} // verus!
