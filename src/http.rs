use vstd::prelude::*;

verus! {

/// The request methods the service tells apart.
#[derive(Clone, Copy, Debug, PartialEq, Eq, Structural)]
pub enum Method {
    Get,
    Post,
    Options,
    Other,
}

/// The endpoint a request is served by.
#[derive(Clone, Copy, Debug, PartialEq, Eq, Structural)]
pub enum Route {
    Preflight,
    Instructions,
    Compute,
    NotFound,
}

pub open spec fn compute_path() -> Seq<char> {
    "/compute"@
}

pub open spec fn root_path() -> Seq<char> {
    "/"@
}

/// The routing table: method and path decide the endpoint.
pub open spec fn route_of(method: Method, path: Seq<char>) -> Route {
    if method == Method::Options && path == compute_path() {
        Route::Preflight
    } else if method == Method::Get && path == root_path() {
        Route::Instructions
    } else if method == Method::Post && path == compute_path() {
        Route::Compute
    } else {
        Route::NotFound
    }
}

/// Picks the endpoint for a request from its method and path.
pub fn route(method: Method, path: &str) -> (r: Route)
    ensures
        r == route_of(method, path@),
{
    let p = path.to_owned();
    let compute = String::from_str("/compute");
    let root = String::from_str("/");
    let is_compute = p == compute;
    let is_root = p == root;
    match method {
        Method::Options if is_compute => Route::Preflight,
        Method::Get if is_root => Route::Instructions,
        Method::Post if is_compute => Route::Compute,
        _ => Route::NotFound,
    }
}

/// The headers that let browsers on other origins read a response.
pub open spec fn cors_headers() -> Seq<(Seq<char>, Seq<char>)> {
    seq![
        ("Access-Control-Allow-Origin"@, "*"@),
        ("Access-Control-Allow-Methods"@, "GET, POST, OPTIONS"@),
        ("Access-Control-Allow-Headers"@, "api,Keep-Alive,User-Agent,Content-Type"@),
    ]
}

/// An HTTP response as the handler decides it.
pub struct Response {
    pub status: u16,
    pub headers: Vec<(String, String)>,
    pub body: String,
}

/// What a response is, as plain values.
pub struct ResponseView {
    pub status: u16,
    pub headers: Seq<(Seq<char>, Seq<char>)>,
    pub body: Seq<char>,
}

pub open spec fn header_view(h: (String, String)) -> (Seq<char>, Seq<char>) {
    (h.0@, h.1@)
}

impl View for Response {
    type V = ResponseView;

    open spec fn view(&self) -> ResponseView {
        ResponseView {
            status: self.status,
            headers: self.headers@.map_values(|h: (String, String)| header_view(h)),
            body: self.body@,
        }
    }
}

/// Every response the service sends: the given status and body, with the
/// cross-origin headers attached.
pub open spec fn reply(status: u16, body: Seq<char>) -> ResponseView {
    ResponseView { status, headers: cors_headers(), body }
}

fn header(name: &str, value: &str) -> (r: (String, String))
    ensures
        header_view(r) == (name@, value@),
{
    (name.to_owned(), value.to_owned())
}

/// Builds a response with the given status and body and the cross-origin
/// headers.
pub fn response_build(status: u16, body: &str) -> (r: Response)
    ensures
        r@ == reply(status, body@),
{
    let mut headers: Vec<(String, String)> = Vec::new();
    headers.push(header("Access-Control-Allow-Origin", "*"));
    headers.push(header("Access-Control-Allow-Methods", "GET, POST, OPTIONS"));
    headers.push(header("Access-Control-Allow-Headers", "api,Keep-Alive,User-Agent,Content-Type"));
    let r = Response { status, headers, body: body.to_owned() };
    assert(r@.headers =~= cors_headers());
    r
}

} // verus!
