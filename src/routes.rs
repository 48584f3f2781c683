//! The route table served by the bundled application: `/` and nothing else.
use vstd::prelude::*;
use crate::model::{Error, HttpMethod, HttpRequest, HttpResponse};

verus! {

/// `GET /` is answered with `hello.html`; every other request with a
/// `404` and `404.html`. This handler never fails.
pub fn handle_request(request: HttpRequest) -> (r: Result<HttpResponse, Error>)
    ensures
        r is Ok,
        request@.0 == HttpMethod::Get && request@.1 == "/"@ ==> {
            let resp = r->Ok_0;
            resp@.0 is Success && resp@.0.code() == 200 && resp@.1 == "hello.html"@
        },
        !(request@.0 == HttpMethod::Get && request@.1 == "/"@) ==> {
            let resp = r->Ok_0;
            resp@.0 is AppError && resp@.0.code() == 404 && resp@.1 == "404.html"@
        },
{
    let (method, path) = request.method_and_path();
    let is_root = String::from_str(path) == String::from_str("/");
    let response = if method == HttpMethod::Get && is_root {
        HttpResponse::ok("hello.html")
    } else {
        HttpResponse::not_found("404.html")
    };
    Ok(response)
}

} // verus!
