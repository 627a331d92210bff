//! The server's route table: which handler a request belongs to.
//!
//! Three kinds of route exist. Everything below `/api/` names a server
//! function and takes `GET` and `POST`. The paths of the pages take `GET` and
//! are answered with the rendered root component. Every other path falls
//! through to the static files, and from there to a plain not-found answer.
//! A route that takes `GET` takes `HEAD` as well. A route that is asked for
//! with a method it does not take refuses the request; it does not fall
//! through.

use crate::greeting::{greeting, hello_world_server, ENDPOINT};
use crate::remote::{outcome_view, RemoteError, RemoteErrorView};
use vstd::prelude::*;
use vstd::string::{StrSliceExecFns, StringExecFns};

verus! {

/// The method of a request, as far as the routes tell methods apart.
#[derive(Clone, Copy, Debug, PartialEq, Eq, Structural)]
pub enum Method {
    Get,
    /// Answered as `GET` is; the host leaves the body out.
    Head,
    Post,
    /// Any other method.
    Other,
}

/// Where a request goes.
#[derive(Clone, Debug, PartialEq, Eq)]
pub enum Route {
    /// To the server function of this name.
    ServerFn(String),
    /// To the renderer of the root component.
    Page,
    /// The path is routed, but not for this method.
    MethodNotAllowed,
    /// To the static files.
    Fallback,
}

/// The mathematical value of a [`Route`].
pub enum RouteView {
    ServerFn(Seq<char>),
    Page,
    MethodNotAllowed,
    Fallback,
}

impl View for Route {
    type V = RouteView;

    open spec fn view(&self) -> RouteView {
        match self {
            Route::ServerFn(name) => RouteView::ServerFn(name@),
            Route::Page => RouteView::Page,
            Route::MethodNotAllowed => RouteView::MethodNotAllowed,
            Route::Fallback => RouteView::Fallback,
        }
    }
}

/// What the fallback answers with.
#[derive(Clone, Copy, Debug, PartialEq, Eq, Structural)]
pub enum Fallback {
    /// The static file that matches the path.
    StaticFile,
    /// A plain not-found answer.
    NotFound,
}

/// The prefix under which server functions are mounted.
pub open spec fn api_prefix() -> Seq<char> {
    "/api/"@
}

/// Whether a path names a server function: the prefix, then at least one
/// more character.
pub open spec fn is_api_path(path: Seq<char>) -> bool {
    path.len() > api_prefix().len() && path.subrange(0, api_prefix().len() as int) == api_prefix()
}

/// The name of the server function in a path below the prefix.
pub open spec fn api_name(path: Seq<char>) -> Seq<char>
    recommends
        is_api_path(path),
{
    path.subrange(api_prefix().len() as int, path.len() as int)
}

/// Whether a path is one of the pages.
pub open spec fn is_page(pages: Seq<Seq<char>>, path: Seq<char>) -> bool {
    exists|i: int| 0 <= i < pages.len() && pages[i] == path
}

/// Where a request goes, given the paths of the pages.
pub open spec fn route_of(pages: Seq<Seq<char>>, method: Method, path: Seq<char>) -> RouteView {
    if is_api_path(path) {
        if method is Other {
            RouteView::MethodNotAllowed
        } else {
            RouteView::ServerFn(api_name(path))
        }
    } else if is_page(pages, path) {
        if method is Get || method is Head {
            RouteView::Page
        } else {
            RouteView::MethodNotAllowed
        }
    } else {
        RouteView::Fallback
    }
}

/// What the fallback answers with: the static file if one matches the path,
/// else not found.
pub open spec fn fallback_of(file_exists: bool) -> Fallback {
    if file_exists {
        Fallback::StaticFile
    } else {
        Fallback::NotFound
    }
}

/// The route table, fixed once the server has started.
#[derive(Clone, Debug, PartialEq, Eq)]
pub struct RouteTable {
    /// The paths of the pages.
    pub pages: Vec<String>,
}

/// The paths of a list of pages, as sequences of characters.
pub open spec fn page_paths(pages: Seq<String>) -> Seq<Seq<char>> {
    pages.map_values(|page: String| page@)
}

impl View for RouteTable {
    type V = Seq<Seq<char>>;

    open spec fn view(&self) -> Seq<Seq<char>> {
        page_paths(self.pages@)
    }
}

/// Whether `path` begins with the prefix of the server functions and goes on
/// after it.
fn has_api_prefix(path: &str) -> (yes: bool)
    ensures
        yes == is_api_path(path@),
{
    proof {
        reveal_strlit("/api/");
    }
    if path.unicode_len() <= 5 {
        return false;
    }
    let yes = path.get_char(0) == '/' && path.get_char(1) == 'a' && path.get_char(2) == 'p'
        && path.get_char(3) == 'i' && path.get_char(4) == '/';
    proof {
        let head = path@.subrange(0, 5);
        if yes {
            assert(head =~= api_prefix());
        } else {
            assert(head[0] == path@[0] && head[1] == path@[1] && head[2] == path@[2] && head[3]
                == path@[3] && head[4] == path@[4]);
        }
    }
    yes
}

impl RouteTable {
    /// The table of an application without a router of its own: the root
    /// path is its only page.
    pub fn root_only() -> (table: RouteTable)
        ensures
            table@ == seq!["/"@],
    {
        let mut pages: Vec<String> = Vec::new();
        pages.push(String::from_str("/"));
        let table = RouteTable { pages };
        assert(table@ =~= seq!["/"@]);
        table
    }

    /// Whether `path` is one of the pages.
    pub fn has_page(&self, path: &str) -> (found: bool)
        ensures
            found == is_page(self@, path@),
    {
        let wanted = String::from_str(path);
        let mut i: usize = 0;
        while i < self.pages.len()
            invariant
                i <= self.pages.len(),
                wanted@ == path@,
                forall|j: int| 0 <= j < i ==> self@[j] != path@,
            decreases self.pages.len() - i,
        {
            if self.pages[i] == wanted {
                assert(self@[i as int] == path@);
                return true;
            }
            i += 1;
        }
        false
    }

    /// Decides where a request goes.
    pub fn resolve(&self, method: Method, path: &str) -> (route: Route)
        ensures
            route@ == route_of(self@, method, path@),
    {
        if has_api_prefix(path) {
            match method {
                Method::Other => Route::MethodNotAllowed,
                _ => {
                    proof {
                        reveal_strlit("/api/");
                    }
                    let name = path.substring_char(5, path.unicode_len());
                    Route::ServerFn(String::from_str(name))
                },
            }
        } else if self.has_page(path) {
            match method {
                Method::Get | Method::Head => Route::Page,
                _ => Route::MethodNotAllowed,
            }
        } else {
            Route::Fallback
        }
    }
}

/// What the server function of a given name answers, if there is one of that
/// name: the greeting endpoint answers with the greeting, and no other
/// function exists.
pub open spec fn server_fn_reply(name: Seq<char>) -> Option<Result<Seq<char>, RemoteErrorView>> {
    if name == ENDPOINT@ {
        Some(Ok(greeting()))
    } else {
        None
    }
}

/// The mathematical value of what a lookup of a server function gave.
pub open spec fn reply_view(reply: Option<Result<String, RemoteError>>) -> Option<
    Result<Seq<char>, RemoteErrorView>,
> {
    match reply {
        Some(outcome) => Some(outcome_view(outcome)),
        None => None,
    }
}

/// Calls the server function of the given name. The greeting endpoint is the
/// only one there is; any other name finds nothing.
pub fn call_server_fn(name: &str) -> (reply: Option<Result<String, RemoteError>>)
    ensures
        reply_view(reply) == server_fn_reply(name@),
{
    if String::from_str(name) == String::from_str(ENDPOINT) {
        Some(hello_world_server())
    } else {
        None
    }
}

/// Decides what the fallback answers with, once the host has looked for a
/// static file under the request's path.
pub fn fallback(file_exists: bool) -> (answer: Fallback)
    ensures
        answer == fallback_of(file_exists),
{
    if file_exists {
        Fallback::StaticFile
    } else {
        Fallback::NotFound
    }
}

/// A path that is neither below the prefix of the server functions nor one
/// of the pages falls through, whatever the method; and where no static file
/// matches it, the answer is not found.
pub proof fn lemma_undefined_path_is_not_found(
    pages: Seq<Seq<char>>,
    method: Method,
    path: Seq<char>,
)
    requires
        !is_api_path(path),
        !is_page(pages, path),
    ensures
        route_of(pages, method, path) == RouteView::Fallback,
        fallback_of(false) == Fallback::NotFound,
{
}

/// In a table whose pages hold the root path, `GET /` is answered with the
/// rendered root component.
pub proof fn lemma_root_is_rendered(pages: Seq<Seq<char>>)
    requires
        is_page(pages, "/"@),
    ensures
        route_of(pages, Method::Get, "/"@) == RouteView::Page,
{
    reveal_strlit("/");
    reveal_strlit("/api/");
}

/// The path of the greeting endpoint reaches the greeting under `GET` and
/// under `POST`, whatever the pages are, and the function found under that
/// name answers with the greeting.
pub proof fn lemma_greeting_is_routed(pages: Seq<Seq<char>>, method: Method)
    requires
        method is Get || method is Post,
    ensures
        route_of(pages, method, "/api/hello_world"@) == RouteView::ServerFn(ENDPOINT@),
        server_fn_reply(ENDPOINT@) == Some(Ok::<Seq<char>, RemoteErrorView>(greeting())),
{
    reveal_strlit("/api/");
    reveal_strlit("/api/hello_world");
    reveal_strlit("hello_world");
    let path = "/api/hello_world"@;
    assert(path.subrange(0, 5) =~= "/api/"@);
    assert(path.subrange(5, path.len() as int) =~= "hello_world"@);
}

} // verus!
