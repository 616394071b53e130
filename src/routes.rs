//! The REST surface: which method and path reach which endpoint.

use crate::config::same_text;
use vstd::prelude::*;
use vstd::string::*;

verus! {

/// The HTTP methods the API answers.
#[derive(Clone, Copy, Debug, PartialEq, Eq, Structural)]
pub enum Method {
    Get,
    Post,
    Put,
    Delete,
}

/// The endpoints of the API.
#[derive(Clone, Copy, Debug, PartialEq, Eq, Structural)]
pub enum Endpoint {
    Root,
    Health,
    CreateMemo,
    ListMemos,
    GetMemo,
    UpdateMemo,
    DeleteMemo,
}

/// One entry of the route table: a method, a path pattern relative to the
/// mount point (`<id>` stands for one path segment), and its endpoint.
#[derive(Clone, Debug)]
pub struct Route {
    pub method: Method,
    pub path: String,
    pub endpoint: Endpoint,
}

/// A matched request: the endpoint and the identifier segment (empty when
/// the path has none).
#[derive(Clone, Debug)]
pub struct RouteMatch {
    pub endpoint: Endpoint,
    pub id: String,
}

/// Whether `s` is one non-empty path segment.
pub open spec fn is_segment(s: Seq<char>) -> bool {
    s.len() > 0 && forall|i: int| 0 <= i < s.len() ==> #[trigger] s[i] != '/'
}

/// The endpoint and identifier segment that a method and path reach.
pub open spec fn route_of(method: Method, path: Seq<char>) -> Option<(Endpoint, Seq<char>)> {
    if path == "/"@ {
        if method == Method::Get { Some((Endpoint::Root, Seq::empty())) } else { None }
    } else if path == "/health"@ {
        if method == Method::Get { Some((Endpoint::Health, Seq::empty())) } else { None }
    } else if path == "/memos"@ {
        match method {
            Method::Post => Some((Endpoint::CreateMemo, Seq::empty())),
            Method::Get => Some((Endpoint::ListMemos, Seq::empty())),
            _ => None,
        }
    } else if "/memos/"@.is_prefix_of(path) && is_segment(path.skip(7)) {
        match method {
            Method::Get => Some((Endpoint::GetMemo, path.skip(7))),
            Method::Put => Some((Endpoint::UpdateMemo, path.skip(7))),
            Method::Delete => Some((Endpoint::DeleteMemo, path.skip(7))),
            _ => None,
        }
    } else {
        None
    }
}

/// The route table: method, path pattern and endpoint of each route.
pub open spec fn route_table() -> Seq<(Method, Seq<char>, Endpoint)> {
    seq![
        (Method::Get, "/"@, Endpoint::Root),
        (Method::Get, "/health"@, Endpoint::Health),
        (Method::Post, "/memos"@, Endpoint::CreateMemo),
        (Method::Get, "/memos"@, Endpoint::ListMemos),
        (Method::Get, "/memos/<id>"@, Endpoint::GetMemo),
        (Method::Put, "/memos/<id>"@, Endpoint::UpdateMemo),
        (Method::Delete, "/memos/<id>"@, Endpoint::DeleteMemo),
    ]
}

/// The entries of a route table as mathematical values.
pub open spec fn table_of(r: Seq<Route>) -> Seq<(Method, Seq<char>, Endpoint)> {
    r.map_values(|e: Route| (e.method, e.path@, e.endpoint))
}

fn route(method: Method, path: &str, endpoint: Endpoint) -> (r: Route)
    ensures
        (r.method, r.path@, r.endpoint) == (method, path@, endpoint),
{
    Route { method, path: String::from_str(path), endpoint }
}

/// The route table of the API.
pub fn routes() -> (r: Vec<Route>)
    ensures
        table_of(r@) == route_table(),
{
    let mut r: Vec<Route> = Vec::new();
    r.push(route(Method::Get, "/", Endpoint::Root));
    r.push(route(Method::Get, "/health", Endpoint::Health));
    r.push(route(Method::Post, "/memos", Endpoint::CreateMemo));
    r.push(route(Method::Get, "/memos", Endpoint::ListMemos));
    r.push(route(Method::Get, "/memos/<id>", Endpoint::GetMemo));
    r.push(route(Method::Put, "/memos/<id>", Endpoint::UpdateMemo));
    r.push(route(Method::Delete, "/memos/<id>", Endpoint::DeleteMemo));
    assert(table_of(r@) =~= route_table());
    r
}

/// The endpoint and identifier segment that a request reaches, if any; the
/// path is taken relative to the mount point.
pub fn match_route(method: Method, path: &str) -> (r: Option<RouteMatch>)
    ensures
        r.is_some() == route_of(method, path@).is_some(),
        r.is_some() ==> (r.unwrap().endpoint, r.unwrap().id@) == route_of(method, path@).unwrap(),
{
    proof {
        reveal_strlit("/memos/");
    }
    let none = String::new();
    if same_text(path, "/") {
        return match method {
            Method::Get => Some(RouteMatch { endpoint: Endpoint::Root, id: none }),
            _ => None,
        };
    }
    if same_text(path, "/health") {
        return match method {
            Method::Get => Some(RouteMatch { endpoint: Endpoint::Health, id: none }),
            _ => None,
        };
    }
    if same_text(path, "/memos") {
        return match method {
            Method::Post => Some(RouteMatch { endpoint: Endpoint::CreateMemo, id: none }),
            Method::Get => Some(RouteMatch { endpoint: Endpoint::ListMemos, id: none }),
            _ => None,
        };
    }
    let n = path.unicode_len();
    if n <= 7 {
        proof {
            if "/memos/"@.is_prefix_of(path@) {
                assert(path@.skip(7).len() == 0);
            }
        }
        return None;
    }
    let head = path.substring_char(0, 7);
    if !same_text(head, "/memos/") {
        proof {
            if "/memos/"@.is_prefix_of(path@) {
                assert(head@ =~= "/memos/"@);
            }
        }
        return None;
    }
    assert("/memos/"@.is_prefix_of(path@)) by {
        assert(head@ == path@.subrange(0, 7));
    }
    let mut i: usize = 7;
    while i < n
        invariant
            n == path@.len(),
            7 <= i <= n,
            forall|j: int| 7 <= j < i ==> path@[j] != '/',
            path@ != "/"@,
            path@ != "/health"@,
            path@ != "/memos"@,
            "/memos/"@.is_prefix_of(path@),
        decreases n - i,
    {
        if path.get_char(i) == '/' {
            assert(path@.skip(7)[i - 7] == '/');
            assert(!is_segment(path@.skip(7)));
            return None;
        }
        i = i + 1;
    }
    let rest = path.substring_char(7, n);
    assert(rest@ =~= path@.skip(7));
    let id = String::from_str(rest);
    match method {
        Method::Get => Some(RouteMatch { endpoint: Endpoint::GetMemo, id }),
        Method::Put => Some(RouteMatch { endpoint: Endpoint::UpdateMemo, id }),
        Method::Delete => Some(RouteMatch { endpoint: Endpoint::DeleteMemo, id }),
        Method::Post => None,
    }
}

} // verus!
