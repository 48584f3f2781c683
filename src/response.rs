//! Framing a response for the wire: status line, `Content-Length`, blank
//! line, body.
use vstd::prelude::*;
use vstd::string::StringSliceAdditionalSpecFns;
use crate::model::{HttpResponse, HttpStatus};

verus! {

/// The bytes of text whose characters are all ASCII, one byte each.
pub open spec fn ascii_bytes(s: Seq<char>) -> Seq<u8> {
    s.map_values(|c: char| c as u8)
}

/// The decimal digits of `n`, most significant first, as ASCII bytes.
pub open spec fn decimal(n: nat) -> Seq<u8>
    decreases n,
{
    if n < 10 {
        seq![(48 + n) as u8]
    } else {
        decimal(n / 10).push((48 + n % 10) as u8)
    }
}

/// The header block that precedes a body of `len` bytes.
pub open spec fn response_head(status: HttpStatus, len: nat) -> Seq<u8> {
    ascii_bytes(status.line()) + ascii_bytes("\r\nContent-Length: "@) + decimal(len)
        + ascii_bytes("\r\n\r\n"@)
}

/// The full wire form of a response with the given status and body bytes.
pub open spec fn response_bytes(status: HttpStatus, body: Seq<u8>) -> Seq<u8> {
    response_head(status, body.len()) + body
}

/// Appends one byte per character of `s`.
fn push_text(out: &mut Vec<u8>, s: &str)
    ensures
        final(out)@ == old(out)@ + ascii_bytes(s@),
{
    let ghost start = out@;
    for c in it: s.chars()
        invariant
            it.seq() == s@,
            out@ == start + ascii_bytes(it.seq().subrange(0, it.index() as int)),
    {
        proof {
            let done = it.seq().subrange(0, it.index() as int);
            assert(it.seq().subrange(0, it.index() + 1) =~= done.push(c));
            assert(ascii_bytes(done.push(c)) =~= ascii_bytes(done).push(c as u8));
        }
        out.push(c as u8);
    }
    proof {
        assert(s@.subrange(0, s@.len() as int) =~= s@);
    }
}

/// Appends the decimal digits of `n`.
fn push_decimal(out: &mut Vec<u8>, n: usize)
    ensures
        final(out)@ == old(out)@ + decimal(n as nat),
    decreases n,
{
    if n >= 10 {
        push_decimal(out, n / 10);
    }
    out.push((48 + n % 10) as u8);
    proof {
        if n >= 10 {
            assert(old(out)@ + decimal(n as nat) =~= old(out)@ + decimal((n / 10) as nat) + seq![
                (48 + n % 10) as u8,
            ]);
        }
    }
}

/// Appends the bytes of `b`.
fn push_bytes(out: &mut Vec<u8>, b: &[u8])
    ensures
        final(out)@ == old(out)@ + b@,
{
    let ghost start = out@;
    let mut i: usize = 0;
    while i < b.len()
        invariant
            i <= b@.len(),
            out@ == start + b@.subrange(0, i as int),
        decreases b@.len() - i,
    {
        proof {
            assert(b@.subrange(0, i + 1) =~= b@.subrange(0, i as int).push(b@[i as int]));
        }
        out.push(b[i]);
        i = i + 1;
    }
    proof {
        assert(b@.subrange(0, b@.len() as int) =~= b@);
    }
}

/// The bytes to send for `response` once its body source has been read as
/// `contents`: the status line, a `Content-Length` header giving the byte
/// length of `contents`, an empty line, and `contents` itself.
pub fn render_http_response(response: &HttpResponse, contents: &str) -> (r: Vec<u8>)
    ensures
        r@ == response_bytes(response@.0, contents.spec_bytes()),
{
    let body = contents.as_bytes();
    let mut out: Vec<u8> = Vec::new();
    let line = response.status().to_string();
    push_text(&mut out, line.as_str());
    push_text(&mut out, "\r\nContent-Length: ");
    push_decimal(&mut out, body.len());
    push_text(&mut out, "\r\n\r\n");
    push_bytes(&mut out, body);
    proof {
        assert(out@ =~= response_bytes(response@.0, contents.spec_bytes()));
    }
    out
}

} // verus!
