//! Requests, responses, status codes and the error taxonomy.
use vstd::prelude::*;

verus! {

/// Relies on `std::io::Error` being an ordinary owned value: it is only
/// carried through the library, never inspected.
#[verifier::external_type_specification]
#[verifier::external_body]
pub struct ExIoError(std::io::Error);

/// Everything that can go wrong while handling one connection.
#[derive(Debug)]
pub enum Error {
    InvalidRequestLine,
    MissingHttpMethod,
    MissingRequestPath,
    UnrecognizedHttpMethod,
    Io(std::io::Error),
}

/// Relies on `<std::io::Error as Display>::fmt` (through `to_string`) for
/// the text of an I/O error; what it says depends on the platform, so
/// nothing is stated of it.
#[verifier::external_body]
fn io_error_text(e: &std::io::Error) -> String {
    e.to_string()
}

impl Error {
    /// A human-readable description of the error.
    pub fn to_string(&self) -> (r: String)
        ensures
            self is InvalidRequestLine ==> r@ == "The request line was empty or invalid."@,
            self is MissingHttpMethod ==> r@ == "HTTP request line is missing the method (e.g., GET)."@,
            self is MissingRequestPath ==> r@ == "HTTP request line is missing the path (e.g., /)."@,
            self is UnrecognizedHttpMethod ==> r@ == "HTTP method is not recognized."@,
            self is Io ==> "IO error: "@.is_prefix_of(r@),
    {
        match self {
            Error::InvalidRequestLine => String::from_str("The request line was empty or invalid."),
            Error::MissingHttpMethod => String::from_str(
                "HTTP request line is missing the method (e.g., GET).",
            ),
            Error::MissingRequestPath => String::from_str(
                "HTTP request line is missing the path (e.g., /).",
            ),
            Error::UnrecognizedHttpMethod => String::from_str("HTTP method is not recognized."),
            Error::Io(e) => {
                let mut s = String::from_str("IO error: ");
                s.append(io_error_text(e).as_str());
                s
            },
        }
    }
}

/// The request methods this server understands.
#[derive(Debug, Clone, Copy, PartialEq, Eq, Structural)]
pub enum HttpMethod {
    Get,
    Post,
    Put,
    Delete,
}

/// A parsed request line: a method and a path rooted at `/`.
#[derive(Debug)]
pub struct HttpRequest {
    method: HttpMethod,
    path: String,
}

/// A path as the request model holds it: non-empty and rooted at `/`.
pub open spec fn is_rooted_path(p: Seq<char>) -> bool {
    p.len() > 0 && p[0] == '/'
}

impl View for HttpRequest {
    type V = (HttpMethod, Seq<char>);

    closed spec fn view(&self) -> (HttpMethod, Seq<char>) {
        (self.method, self.path@)
    }
}

impl HttpRequest {
    pub open spec fn wf(&self) -> bool {
        is_rooted_path(self@.1)
    }

    pub fn new(method: HttpMethod, path: &str) -> (r: Self)
        requires
            is_rooted_path(path@),
        ensures
            r@ == (method, path@),
            r.wf(),
    {
        Self { method, path: String::from_str(path) }
    }

    pub fn method_and_path(&self) -> (r: (HttpMethod, &str))
        ensures
            r.0 == self@.0,
            r.1@ == self@.1,
    {
        (self.method, self.path.as_str())
    }
}

/// A numeric HTTP status code.
#[derive(Debug, Clone, Copy, PartialEq, Eq, Structural)]
pub struct HttpCode(u16);

impl View for HttpCode {
    type V = u16;

    closed spec fn view(&self) -> u16 {
        self.0
    }
}

/// The code with its reason phrase, as the status line shows it.
pub open spec fn code_text(code: u16) -> Seq<char> {
    if code == 200 {
        "200 OK"@
    } else if code == 404 {
        "404 NOT FOUND"@
    } else if code == 500 {
        "500 INTERNAL SERVER ERROR"@
    } else {
        "Undocumented HTTP code"@
    }
}

impl HttpCode {
    pub fn ok() -> (r: Self)
        ensures
            r@ == 200,
    {
        HttpCode(200)
    }

    pub fn not_found() -> (r: Self)
        ensures
            r@ == 404,
    {
        HttpCode(404)
    }

    pub fn internal_server_error() -> (r: Self)
        ensures
            r@ == 500,
    {
        HttpCode(500)
    }

    /// The code and its reason phrase, e.g. `200 OK`.
    pub fn to_string(&self) -> (r: String)
        ensures
            r@ == code_text(self@),
    {
        if self.0 == 200 {
            String::from_str("200 OK")
        } else if self.0 == 404 {
            String::from_str("404 NOT FOUND")
        } else if self.0 == 500 {
            String::from_str("500 INTERNAL SERVER ERROR")
        } else {
            String::from_str("Undocumented HTTP code")
        }
    }
}

/// The status of a response, classified by who produced it.
#[derive(Debug, Clone, Copy, PartialEq, Eq, Structural)]
pub enum HttpStatus {
    Success(HttpCode),
    AppError(HttpCode),
    ServerError(HttpCode),
}

/// The protocol version written at the start of every status line.
pub open spec fn protocol_version() -> Seq<char> {
    "HTTP/1.1"@
}

impl HttpStatus {
    pub open spec fn code(self) -> u16 {
        match self {
            HttpStatus::Success(c) => c@,
            HttpStatus::AppError(c) => c@,
            HttpStatus::ServerError(c) => c@,
        }
    }

    /// The full status line without its line terminator,
    /// e.g. `HTTP/1.1 404 NOT FOUND`.
    pub open spec fn line(self) -> Seq<char> {
        protocol_version() + " "@ + code_text(self.code())
    }

    /// The status line without its terminator.
    pub fn to_string(&self) -> (r: String)
        ensures
            r@ == self.line(),
    {
        let code = match self {
            HttpStatus::Success(c) => c,
            HttpStatus::AppError(c) => c,
            HttpStatus::ServerError(c) => c,
        };
        let mut s = String::from_str("HTTP/1.1");
        s.append(" ");
        s.append(code.to_string().as_str());
        s
    }
}

/// A status and the name of the file whose contents form the body.
#[derive(Debug)]
pub struct HttpResponse {
    status: HttpStatus,
    filename: String,
}

impl View for HttpResponse {
    type V = (HttpStatus, Seq<char>);

    closed spec fn view(&self) -> (HttpStatus, Seq<char>) {
        (self.status, self.filename@)
    }
}

impl HttpResponse {
    pub fn new(status: HttpStatus, filename: &str) -> (r: Self)
        ensures
            r@ == (status, filename@),
    {
        Self { status, filename: String::from_str(filename) }
    }

    pub fn ok(filename: &str) -> (r: Self)
        ensures
            r@.0 is Success,
            r@.0.code() == 200,
            r@.1 == filename@,
    {
        Self::new(HttpStatus::Success(HttpCode::ok()), filename)
    }

    pub fn not_found(filename: &str) -> (r: Self)
        ensures
            r@.0 is AppError,
            r@.0.code() == 404,
            r@.1 == filename@,
    {
        Self::new(HttpStatus::AppError(HttpCode::not_found()), filename)
    }

    pub fn internal_server_error(filename: &str) -> (r: Self)
        ensures
            r@.0 is ServerError,
            r@.0.code() == 500,
            r@.1 == filename@,
    {
        Self::new(HttpStatus::ServerError(HttpCode::internal_server_error()), filename)
    }

    pub fn status(&self) -> (r: HttpStatus)
        ensures
            r == self@.0,
    {
        self.status
    }

    pub fn filename(&self) -> (r: &str)
        ensures
            r@ == self@.1,
    {
        self.filename.as_str()
    }
}

} // verus!
