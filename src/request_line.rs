//! Parsing the request line `<METHOD> <PATH> <VERSION>` into a method and a path.
use vstd::prelude::*;
use vstd::std_specs::iter::IteratorSpec;
use vstd::utf8::is_ascii_chars;
use crate::model::{is_rooted_path, Error, HttpMethod, HttpRequest};

verus! {

/// Unicode `White_Space`, the set that `char::is_whitespace` tests.
pub open spec fn is_ws(c: char) -> bool {
    let u = c as u32;
    (0x09 <= u && u <= 0x0d) || u == 0x20 || u == 0x85 || u == 0xa0 || u == 0x1680 || (0x2000
        <= u && u <= 0x200a) || u == 0x2028 || u == 0x2029 || u == 0x202f || u == 0x205f || u
        == 0x3000
}

/// The end of the run that starts at `i` of characters whose
/// whitespace-ness is `ws`.
pub open spec fn run_end(s: Seq<char>, i: int, ws: bool) -> int
    decreases s.len() - i,
{
    if 0 <= i < s.len() && is_ws(s[i]) == ws {
        run_end(s, i + 1, ws)
    } else {
        i
    }
}

/// Where the first token starts.
pub open spec fn first_start(s: Seq<char>) -> int {
    run_end(s, 0, true)
}

/// Where the first token ends.
pub open spec fn first_end(s: Seq<char>) -> int {
    run_end(s, first_start(s), false)
}

/// Where the second token starts.
pub open spec fn second_start(s: Seq<char>) -> int {
    run_end(s, first_end(s), true)
}

/// Where the second token ends.
pub open spec fn second_end(s: Seq<char>) -> int {
    run_end(s, second_start(s), false)
}

/// The first whitespace-separated token, if there is one.
pub open spec fn first_token(s: Seq<char>) -> Seq<char> {
    s.subrange(first_start(s), first_end(s))
}

/// The second whitespace-separated token, empty if there is none.
pub open spec fn second_token(s: Seq<char>) -> Seq<char> {
    s.subrange(second_start(s), second_end(s))
}

/// True when the line holds nothing but whitespace (the empty line included).
pub open spec fn is_blank(s: Seq<char>) -> bool {
    forall|i: int| 0 <= i < s.len() ==> is_ws(#[trigger] s[i])
}

/// What `str::to_uppercase` returns for the given characters.
pub uninterp spec fn upper_of(s: Seq<char>) -> Seq<char>;

/// `s` with the ASCII letters `a..z` raised to `A..Z` and all else kept.
pub open spec fn ascii_upper(s: Seq<char>) -> Seq<char> {
    s.map_values(|c: char| if 97 <= (c as u32) <= 122 { ((c as u32) - 32) as char } else { c })
}

/// The upper case form of a token: stated exactly for ASCII text, named otherwise.
pub open spec fn uppercase(s: Seq<char>) -> Seq<char> {
    if is_ascii_chars(s) {
        ascii_upper(s)
    } else {
        upper_of(s)
    }
}

/// The method whose canonical (upper case) name is `u`.
pub open spec fn method_named(u: Seq<char>) -> Option<HttpMethod> {
    if u == "GET"@ {
        Some(HttpMethod::Get)
    } else if u == "POST"@ {
        Some(HttpMethod::Post)
    } else if u == "PUT"@ {
        Some(HttpMethod::Put)
    } else if u == "DELETE"@ {
        Some(HttpMethod::Delete)
    } else {
        None
    }
}

/// The outcome of parsing a method token whose upper case form is `u`.
pub open spec fn method_outcome(u: Seq<char>) -> Result<HttpMethod, Error> {
    match method_named(u) {
        Some(m) => Ok(m),
        None => Err(Error::UnrecognizedHttpMethod),
    }
}

/// The outcome of parsing a request line.
pub open spec fn request_line_outcome(s: Seq<char>) -> Result<(HttpMethod, Seq<char>), Error> {
    if is_blank(s) {
        Err(Error::InvalidRequestLine)
    } else {
        match method_named(uppercase(first_token(s))) {
            None => Err(Error::UnrecognizedHttpMethod),
            Some(m) => if second_start(s) < s.len() && s[second_start(s)] == '/' {
                Ok((m, second_token(s)))
            } else {
                Err(Error::MissingRequestPath)
            },
        }
    }
}

/// Relies on `str::to_uppercase`: the result is a function of the characters
/// alone, and on ASCII input only the letters `a..z` change, to `A..Z`.
#[verifier::external_body]
fn to_uppercase(s: &str) -> (r: String)
    ensures
        r@ == upper_of(s@),
        is_ascii_chars(s@) ==> r@ == ascii_upper(s@),
{
    s.to_uppercase()
}

/// Whether `c` is Unicode whitespace.
pub fn is_whitespace(c: char) -> (r: bool)
    ensures
        r == is_ws(c),
{
    let u = c as u32;
    (0x09 <= u && u <= 0x0d) || u == 0x20 || u == 0x85 || u == 0xa0 || u == 0x1680 || (0x2000
        <= u && u <= 0x200a) || u == 0x2028 || u == 0x2029 || u == 0x202f || u == 0x205f || u
        == 0x3000
}

/// The characters of `s`, in order.
fn chars_of(s: &str) -> (r: Vec<char>)
    ensures
        r@ == s@,
{
    let mut v: Vec<char> = Vec::new();
    for c in it: s.chars()
        invariant
            it.seq() == s@,
            v@ == it.seq().subrange(0, it.index() as int),
    {
        v.push(c);
    }
    v
}

/// The end of the run of characters of `cs`, from `i` on, whose
/// whitespace-ness is `ws`.
fn scan_run(cs: &Vec<char>, i: usize, ws: bool) -> (r: usize)
    requires
        i <= cs@.len(),
    ensures
        r == run_end(cs@, i as int, ws),
        i <= r <= cs@.len(),
{
    let mut j = i;
    while j < cs.len() && is_whitespace(cs[j]) == ws
        invariant
            i <= j <= cs@.len(),
            run_end(cs@, i as int, ws) == run_end(cs@, j as int, ws),
        decreases cs@.len() - j,
    {
        j = j + 1;
    }
    j
}

proof fn lemma_run_end_bounds(s: Seq<char>, i: int, ws: bool)
    requires
        0 <= i <= s.len(),
    ensures
        i <= run_end(s, i, ws) <= s.len(),
        forall|k: int| i <= k < run_end(s, i, ws) ==> is_ws(#[trigger] s[k]) == ws,
        run_end(s, i, ws) < s.len() ==> is_ws(s[run_end(s, i, ws)]) != ws,
    decreases s.len() - i,
{
    if i < s.len() && is_ws(s[i]) == ws {
        lemma_run_end_bounds(s, i + 1, ws);
    }
}

impl HttpMethod {
    /// The method whose name is exactly `u`, already in upper case.
    pub fn from_uppercase(u: &str) -> (r: Result<HttpMethod, Error>)
        ensures
            r == method_outcome(u@),
    {
        let u = String::from_str(u);
        if u == String::from_str("GET") {
            Ok(HttpMethod::Get)
        } else if u == String::from_str("POST") {
            Ok(HttpMethod::Post)
        } else if u == String::from_str("PUT") {
            Ok(HttpMethod::Put)
        } else if u == String::from_str("DELETE") {
            Ok(HttpMethod::Delete)
        } else {
            Err(Error::UnrecognizedHttpMethod)
        }
    }

    /// The method named by `s`, in any letter case.
    pub fn from_str(s: &str) -> (r: Result<HttpMethod, Error>)
        ensures
            r == method_outcome(uppercase(s@)),
    {
        let u = to_uppercase(s);
        Self::from_uppercase(u.as_str())
    }
}

/// Splits a request line into its method and its path; whatever follows
/// the path (the protocol version) is ignored.
pub fn extract_http_details(request_line: &str) -> (r: Result<(HttpMethod, &str), Error>)
    ensures
        match r {
            Ok((m, p)) => request_line_outcome(request_line@) == Ok::<_, Error>((m, p@)),
            Err(e) => request_line_outcome(request_line@) == Err::<(HttpMethod, Seq<char>), _>(e),
        },
        is_blank(request_line@) <==> r matches Err(Error::InvalidRequestLine),
        !is_blank(request_line@) && method_named(uppercase(first_token(request_line@))) is None
            <==> r matches Err(Error::UnrecognizedHttpMethod),
        !is_blank(request_line@) && method_named(uppercase(first_token(request_line@))) is Some
            && second_token(request_line@).len() == 0 ==> r matches Err(Error::MissingRequestPath),
        r matches Ok((_, p)) ==> is_rooted_path(p@),
{
    let cs = chars_of(request_line);
    let n = cs.len();
    proof {
        lemma_run_end_bounds(cs@, 0, true);
    }
    let a = scan_run(&cs, 0, true);
    if a == n {
        return Err(Error::InvalidRequestLine);
    }
    proof {
        lemma_run_end_bounds(cs@, a as int, false);
    }
    let b = scan_run(&cs, a, false);
    let method = match HttpMethod::from_str(request_line.substring_char(a, b)) {
        Ok(m) => m,
        Err(e) => {
            return Err(e);
        },
    };
    proof {
        lemma_run_end_bounds(cs@, b as int, true);
    }
    let c = scan_run(&cs, b, true);
    if c == n {
        return Err(Error::MissingRequestPath);
    }
    proof {
        lemma_run_end_bounds(cs@, c as int, false);
    }
    let d = scan_run(&cs, c, false);
    if cs[c] != '/' {
        return Err(Error::MissingRequestPath);
    }
    Ok((method, request_line.substring_char(c, d)))
}

/// Builds the request that a request line describes.
pub fn read_http_request(request_line: &str) -> (r: Result<HttpRequest, Error>)
    ensures
        match r {
            Ok(req) => request_line_outcome(request_line@) == Ok::<_, Error>(req@) && req.wf(),
            Err(e) => request_line_outcome(request_line@) == Err::<(HttpMethod, Seq<char>), _>(e),
        },
{
    match extract_http_details(request_line) {
        Ok((method, path)) => Ok(HttpRequest::new(method, path)),
        Err(e) => Err(e),
    }
}

impl std::str::FromStr for HttpMethod {
    type Err = Error;

    fn from_str(s: &str) -> Result<HttpMethod, Error> {
        HttpMethod::from_str(s)
    }
}

/// `run_end` lands on `j` when every character of `s[i..j]` has
/// whitespace-ness `ws` and the one at `j`, if any, does not.
proof fn lemma_run_end_at(s: Seq<char>, i: int, j: int, ws: bool)
    requires
        0 <= i <= j <= s.len(),
        forall|k: int| i <= k < j ==> is_ws(#[trigger] s[k]) == ws,
        j < s.len() ==> is_ws(s[j]) != ws,
    ensures
        run_end(s, i, ws) == j,
    decreases j - i,
{
    if i < j {
        lemma_run_end_at(s, i + 1, j, ws);
    }
}

/// A well-formed request line `<M> <P> HTTP/1.1\r\n`, whose method token `M`
/// names a known method in any mix of ASCII letter case and whose path `P`
/// is rooted at `/` and holds no whitespace, parses to that method and
/// exactly that path; the protocol token is ignored.
pub proof fn lemma_well_formed_line_parses(m: Seq<char>, p: Seq<char>)
    requires
        is_ascii_chars(m),
        method_named(ascii_upper(m)) is Some,
        is_rooted_path(p),
        forall|k: int| 0 <= k < p.len() ==> !is_ws(#[trigger] p[k]),
    ensures
        request_line_outcome(m + " "@ + p + " HTTP/1.1\r\n"@) == Ok::<_, Error>(
            (method_named(ascii_upper(m))->Some_0, p),
        ),
{
    let tail = " HTTP/1.1\r\n"@;
    let s = m + " "@ + p + tail;
    reveal_strlit(" ");
    reveal_strlit(" HTTP/1.1\r\n");
    reveal_strlit("GET");
    reveal_strlit("POST");
    reveal_strlit("PUT");
    reveal_strlit("DELETE");
    let u = ascii_upper(m);
    assert(u.len() == m.len());
    assert(m.len() > 0);
    assert forall|k: int| 0 <= k < m.len() implies !is_ws(#[trigger] m[k]) by {
        let c = u[k];
        assert(65 <= (c as u32) <= 90);
    }
    let lm = m.len() as int;
    let lp = p.len() as int;
    assert forall|k: int| 0 <= k < lm implies #[trigger] s[k] == m[k] by {}
    assert(s[lm] == ' ');
    assert forall|k: int| lm + 1 <= k < lm + 1 + lp implies #[trigger] s[k] == p[k - lm - 1] by {}
    assert(s[lm + 1 + lp] == ' ');
    assert(!is_blank(s)) by {
        assert(!is_ws(s[0]));
    }
    assert(first_start(s) == 0) by {
        lemma_run_end_at(s, 0, 0, true);
    }
    assert(first_end(s) == lm) by {
        lemma_run_end_at(s, 0, lm, false);
    }
    assert(second_start(s) == lm + 1) by {
        lemma_run_end_at(s, lm, lm + 1, true);
    }
    assert(second_end(s) == lm + 1 + lp) by {
        assert forall|k: int| lm + 1 <= k < lm + 1 + lp implies !is_ws(#[trigger] s[k]) by {
            assert(s[k] == p[k - lm - 1]);
        }
        lemma_run_end_at(s, lm + 1, lm + 1 + lp, false);
    }
    assert(first_token(s) =~= m);
    assert(second_token(s) =~= p);
}

} // verus!
