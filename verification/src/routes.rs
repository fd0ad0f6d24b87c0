//! The router: a fixed dispatch table from HTTP method and path to a handler
//! target, with a single-segment filename capture for the asset routes.

use vstd::prelude::*;
use crate::text::{contains_char, str_eq};
use vstd::string::StrSliceExecFns;

verus! {

/// The HTTP methods the route table knows.
#[derive(Clone, Copy, PartialEq, Eq, Structural, Debug)]
pub enum Method {
    Get,
    Post,
}

/// A logical static-asset request: the landing page, or a named file under
/// one of the asset categories.
#[derive(Debug)]
pub enum AssetRequest {
    /// `GET /`: the fixed landing page.
    Root,
    /// `GET /css/:filename`.
    Css(String),
    /// `GET /js/:filename`.
    Js(String),
    /// `GET /web/:filename`: the generic category.
    Generic(String),
}

/// The mathematical shape of an [`AssetRequest`].
pub ghost enum AssetRequestView {
    Root,
    Css(Seq<char>),
    Js(Seq<char>),
    Generic(Seq<char>),
}

impl View for AssetRequest {
    type V = AssetRequestView;

    open spec fn view(&self) -> AssetRequestView {
        match self {
            AssetRequest::Root => AssetRequestView::Root,
            AssetRequest::Css(f) => AssetRequestView::Css(f@),
            AssetRequest::Js(f) => AssetRequestView::Js(f@),
            AssetRequest::Generic(f) => AssetRequestView::Generic(f@),
        }
    }
}

/// What a matched route dispatches to.
#[derive(Debug)]
pub enum RouteTarget {
    /// One of the static-asset handlers.
    Asset(AssetRequest),
    /// `GET /health`: the health report.
    Health,
    /// `POST /api/echo`: echo of a `message` field into an `echo` field.
    Echo,
    /// `POST /echo`: echo of a `text` field into a `message` field.
    EchoText,
}

/// The mathematical shape of a [`RouteTarget`].
pub ghost enum RouteTargetView {
    Asset(AssetRequestView),
    Health,
    Echo,
    EchoText,
}

impl View for RouteTarget {
    type V = RouteTargetView;

    open spec fn view(&self) -> RouteTargetView {
        match self {
            RouteTarget::Asset(a) => RouteTargetView::Asset(a@),
            RouteTarget::Health => RouteTargetView::Health,
            RouteTarget::Echo => RouteTargetView::Echo,
            RouteTarget::EchoText => RouteTargetView::EchoText,
        }
    }
}

/// A captured filename: one non-empty path segment, with no nested slashes.
pub open spec fn single_segment(f: Seq<char>) -> bool {
    f.len() > 0 && !f.contains('/')
}

/// `p` matches `prefix` followed by exactly one further segment.
pub open spec fn captures(p: Seq<char>, prefix: Seq<char>) -> bool {
    &&& p.len() > prefix.len()
    &&& p.subrange(0, prefix.len() as int) == prefix
    &&& single_segment(p.skip(prefix.len() as int))
}

/// The captured segment of `p` after `prefix`.
pub open spec fn captured(p: Seq<char>, prefix: Seq<char>) -> Seq<char> {
    p.skip(prefix.len() as int)
}

/// The route table: which handler, if any, serves `m` and `p`.
///
/// Exact match on the static routes; the three asset prefixes capture the
/// rest of the path as a filename, provided it is a single segment.
pub open spec fn route_spec(m: Method, p: Seq<char>) -> Option<RouteTargetView> {
    if m == Method::Get && p == "/"@ {
        Some(RouteTargetView::Asset(AssetRequestView::Root))
    } else if m == Method::Get && p == "/health"@ {
        Some(RouteTargetView::Health)
    } else if m == Method::Post && p == "/api/echo"@ {
        Some(RouteTargetView::Echo)
    } else if m == Method::Post && p == "/echo"@ {
        Some(RouteTargetView::EchoText)
    } else if m == Method::Get && captures(p, "/web/"@) {
        Some(RouteTargetView::Asset(AssetRequestView::Generic(captured(p, "/web/"@))))
    } else if m == Method::Get && captures(p, "/css/"@) {
        Some(RouteTargetView::Asset(AssetRequestView::Css(captured(p, "/css/"@))))
    } else if m == Method::Get && captures(p, "/js/"@) {
        Some(RouteTargetView::Asset(AssetRequestView::Js(captured(p, "/js/"@))))
    } else {
        None
    }
}

/// The shape of an optional match result.
pub open spec fn route_view(r: Option<RouteTarget>) -> Option<RouteTargetView> {
    match r {
        Some(t) => Some(t@),
        None => None,
    }
}

/// Every filename the route table hands to an asset handler is a single,
/// non-empty path segment: a captured name never holds a slash, so the
/// resolver only ever looks one level below a category directory.
pub proof fn lemma_matched_filename_is_single_segment(m: Method, p: Seq<char>)
    ensures
        match route_spec(m, p) {
            Some(RouteTargetView::Asset(AssetRequestView::Css(f))) => single_segment(f),
            Some(RouteTargetView::Asset(AssetRequestView::Js(f))) => single_segment(f),
            Some(RouteTargetView::Asset(AssetRequestView::Generic(f))) => single_segment(f),
            _ => true,
        },
{
}

/// Tries to capture a filename segment of `path` after `prefix`.
fn match_capture(path: &str, prefix: &str) -> (r: Option<String>)
    ensures
        match r {
            Some(f) => captures(path@, prefix@) && f@ == captured(path@, prefix@),
            None => !captures(path@, prefix@),
        },
{
    let plen: usize = prefix.unicode_len();
    let slen: usize = path.unicode_len();
    if slen <= plen {
        return None;
    }
    let head: &str = path.substring_char(0, plen);
    if !str_eq(head, prefix) {
        return None;
    }
    let rest: &str = path.substring_char(plen, slen);
    proof {
        assert(rest@ =~= path@.skip(plen as int));
    }
    if contains_char(rest, '/') {
        return None;
    }
    Some(rest.to_owned())
}

/// Selects the handler for `method` and `path` from the fixed route table,
/// or reports that no route matches.
pub fn match_route(method: Method, path: &str) -> (r: Option<RouteTarget>)
    ensures
        route_view(r) == route_spec(method, path@),
{
    match method {
        Method::Get => {
            if str_eq(path, "/") {
                return Some(RouteTarget::Asset(AssetRequest::Root));
            }
            if str_eq(path, "/health") {
                return Some(RouteTarget::Health);
            }
            if let Some(f) = match_capture(path, "/web/") {
                return Some(RouteTarget::Asset(AssetRequest::Generic(f)));
            }
            if let Some(f) = match_capture(path, "/css/") {
                return Some(RouteTarget::Asset(AssetRequest::Css(f)));
            }
            if let Some(f) = match_capture(path, "/js/") {
                return Some(RouteTarget::Asset(AssetRequest::Js(f)));
            }
            None
        },
        Method::Post => {
            if str_eq(path, "/api/echo") {
                return Some(RouteTarget::Echo);
            }
            if str_eq(path, "/echo") {
                return Some(RouteTarget::EchoText);
            }
            None
        },
    }
}

} // verus!
