//! The fixed table of routes a session serves, and the pages requests are sent to.
use vstd::prelude::*;

verus! {

/// The HTTP methods the session answers.
#[derive(Clone, Copy, Debug, PartialEq, Eq, Structural)]
pub enum Method {
    Get,
    Post,
}

/// What answers a route.
#[derive(Clone, Copy, Debug, PartialEq, Eq, Structural)]
pub enum Handler {
    /// A redirect away from the service.
    Slash,
    /// The upload form.
    ReceiveForm,
    /// The page shown once an upload is done.
    ReceiveDone,
    /// The page shown when a request failed.
    ErrorPage,
    /// The bundled style sheet.
    BootstrapCss,
    /// The source map of the bundled style sheet.
    BootstrapCssMap,
    /// The icon of the site.
    Favicon,
    /// The download of the selected file, by its reference.
    Download,
    /// The upload of files into the root directory.
    Upload,
}

/// One entry of the route table.
#[derive(Clone, Debug)]
pub struct Route {
    pub method: Method,
    pub path: String,
    pub handler: Handler,
}

/// The pages a request is redirected to when it is over.
#[derive(Clone, Copy, Debug, PartialEq, Eq, Structural)]
pub enum Page {
    /// An upload went through.
    ReceiveDone,
    /// A request failed.
    Error,
}

/// The status of an unmatched route: unusual on purpose, so that it stands out in logs.
pub const FALLBACK_STATUS: u16 = 418;

/// The path of a page.
pub open spec fn path_of(p: Page) -> Seq<char> {
    match p {
        Page::ReceiveDone => "/receive_done"@,
        Page::Error => "/error"@,
    }
}

/// The routes, in the order they are bound; `:file_name` stands for one path segment, the
/// reference of the file to download.
pub open spec fn route_entries() -> Seq<(Method, Seq<char>, Handler)> {
    seq![
        (Method::Get, "/"@, Handler::Slash),
        (Method::Get, "/receive"@, Handler::ReceiveForm),
        (Method::Get, "/receive_done"@, Handler::ReceiveDone),
        (Method::Get, "/error"@, Handler::ErrorPage),
        (Method::Get, "/static/bootstrap.min.css"@, Handler::BootstrapCss),
        (Method::Get, "/static/bootstrap.min.css.map"@, Handler::BootstrapCssMap),
        (Method::Get, "/favicon.ico"@, Handler::Favicon),
        (Method::Get, "/:file_name"@, Handler::Download),
        (Method::Post, "/receive"@, Handler::Upload),
    ]
}

/// The path a page is served at.
pub fn page_path(p: Page) -> (r: &'static str)
    ensures
        r@ == path_of(p),
{
    match p {
        Page::ReceiveDone => "/receive_done",
        Page::Error => "/error",
    }
}

fn route(method: Method, path: &str, handler: Handler) -> (r: Route)
    ensures
        r.method == method,
        r.path@ == path@,
        r.handler == handler,
{
    Route { method, path: path.to_owned(), handler }
}

/// The route table, fixed when the server starts; anything else falls back to an error page
/// with `FALLBACK_STATUS`.
pub fn route_table() -> (r: Vec<Route>)
    ensures
        r@.len() == route_entries().len(),
        forall|i: int|
            0 <= i < r@.len() ==> ((#[trigger] r@[i]).method, r@[i].path@, r@[i].handler)
                == route_entries()[i],
{
    let table = vec![
        route(Method::Get, "/", Handler::Slash),
        route(Method::Get, "/receive", Handler::ReceiveForm),
        route(Method::Get, "/receive_done", Handler::ReceiveDone),
        route(Method::Get, "/error", Handler::ErrorPage),
        route(Method::Get, "/static/bootstrap.min.css", Handler::BootstrapCss),
        route(Method::Get, "/static/bootstrap.min.css.map", Handler::BootstrapCssMap),
        route(Method::Get, "/favicon.ico", Handler::Favicon),
        route(Method::Get, "/:file_name", Handler::Download),
        route(Method::Post, "/receive", Handler::Upload),
    ];
    table
}

} // verus!
