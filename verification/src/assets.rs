//! The static resolver: turning an asset request into an on-disk path, a
//! content type, and a uniform success or not-found response.
//!
//! Reading the file itself is I/O and sits outside this crate; callers hand
//! the outcome of the read back in as an `Option<String>`.

use vstd::prelude::*;
use crate::routes::{AssetRequest, AssetRequestView};
use crate::text::{concat_str, ends_with_str, spec_ends_with};
use vstd::string::StringExecFns;

verus! {

/// A response envelope: status, optional content-type header, whether the
/// permissive cross-origin header is attached, and the body text.
pub struct HttpResponse {
    pub status: u16,
    pub content_type: Option<String>,
    pub cors: bool,
    pub body: String,
}

/// The on-disk path an asset request resolves to: the fixed landing page for
/// the root, otherwise the category's directory under the web root followed
/// by the captured filename.
pub open spec fn spec_asset_path(r: AssetRequestView) -> Seq<char> {
    match r {
        AssetRequestView::Root => "web/index.html"@,
        AssetRequestView::Css(f) => "web/css/"@ + f,
        AssetRequestView::Js(f) => "web/js/"@ + f,
        AssetRequestView::Generic(f) => "web/"@ + f,
    }
}

/// The content type inferred from a filename's trailing extension under the
/// generic route's fixed lookup.
pub open spec fn inferred_content_type(f: Seq<char>) -> Seq<char> {
    if spec_ends_with(f, ".js"@) {
        "application/javascript"@
    } else if spec_ends_with(f, ".css"@) {
        "text/css"@
    } else {
        "text/plain"@
    }
}

/// The content type an asset request is served with: the category's fixed
/// declared type, except for the generic route, which inspects the extension.
pub open spec fn asset_content_type(r: AssetRequestView) -> Seq<char> {
    match r {
        AssetRequestView::Root => "text/html"@,
        AssetRequestView::Css(_) => "text/css"@,
        AssetRequestView::Js(_) => "application/javascript"@,
        AssetRequestView::Generic(f) => inferred_content_type(f),
    }
}

/// The diagnostic body of a not-found response, naming the missing file.
pub open spec fn not_found_message(r: AssetRequestView) -> Seq<char> {
    match r {
        AssetRequestView::Root => "index.html not found"@,
        AssetRequestView::Css(f) => "CSS file not found: "@ + f,
        AssetRequestView::Js(f) => "JavaScript file not found: "@ + f,
        AssetRequestView::Generic(f) => "File not found: "@ + f,
    }
}

/// Resolves an asset request to the path to read from storage.
pub fn asset_path(req: &AssetRequest) -> (r: String)
    ensures
        r@ == spec_asset_path(req@),
{
    match req {
        AssetRequest::Root => "web/index.html".to_owned(),
        AssetRequest::Css(f) => concat_str("web/css/", f.as_str()),
        AssetRequest::Js(f) => concat_str("web/js/", f.as_str()),
        AssetRequest::Generic(f) => concat_str("web/", f.as_str()),
    }
}

/// The content-type header value for a successfully served asset.
pub fn content_type_for(req: &AssetRequest) -> (r: String)
    ensures
        r@ == asset_content_type(req@),
{
    match req {
        AssetRequest::Root => "text/html".to_owned(),
        AssetRequest::Css(_) => "text/css".to_owned(),
        AssetRequest::Js(_) => "application/javascript".to_owned(),
        AssetRequest::Generic(f) => {
            if ends_with_str(f.as_str(), ".js") {
                "application/javascript".to_owned()
            } else if ends_with_str(f.as_str(), ".css") {
                "text/css".to_owned()
            } else {
                "text/plain".to_owned()
            }
        },
    }
}

/// The diagnostic body for an asset that could not be read.
pub fn not_found_body(req: &AssetRequest) -> (r: String)
    ensures
        r@ == not_found_message(req@),
{
    match req {
        AssetRequest::Root => "index.html not found".to_owned(),
        AssetRequest::Css(f) => concat_str("CSS file not found: ", f.as_str()),
        AssetRequest::Js(f) => concat_str("JavaScript file not found: ", f.as_str()),
        AssetRequest::Generic(f) => concat_str("File not found: ", f.as_str()),
    }
}

/// Wraps the outcome of reading an asset into the response the handler
/// sends: the file's text verbatim with the category's content type on
/// success, or a not-found diagnostic naming the file. Static assets carry
/// no cross-origin header.
pub fn asset_response(req: &AssetRequest, read: Option<String>) -> (r: HttpResponse)
    ensures
        r.cors == false,
        match read {
            Some(content) => {
                &&& r.status == 200
                &&& r.body@ == content@
                &&& r.content_type matches Some(t) && t@ == asset_content_type(req@)
            },
            None => {
                &&& r.status == 404
                &&& r.body@ == not_found_message(req@)
                &&& r.content_type is None
            },
        },
{
    match read {
        Some(content) => HttpResponse {
            status: 200,
            content_type: Some(content_type_for(req)),
            cors: false,
            body: content,
        },
        None => HttpResponse {
            status: 404,
            content_type: None,
            cors: false,
            body: not_found_body(req),
        },
    }
}

/// A not-found diagnostic always contains the requested filename: it stands
/// verbatim at the end of the body.
pub proof fn lemma_not_found_names_file(r: AssetRequestView, f: Seq<char>)
    requires
        r == AssetRequestView::Css(f) || r == AssetRequestView::Js(f) || r
            == AssetRequestView::Generic(f),
    ensures
        not_found_message(r).len() >= f.len(),
        not_found_message(r).subrange(
            not_found_message(r).len() - f.len(),
            not_found_message(r).len() as int,
        ) == f,
{
    let m = not_found_message(r);
    assert(m.subrange(m.len() - f.len(), m.len() as int) =~= f);
}

/// The content-type invariants of the asset routes: under the generic route
/// the extension alone decides, while the css and js routes always answer
/// with their fixed declared type, whatever the filename looks like.
pub proof fn lemma_content_type_invariants(f: Seq<char>)
    ensures
        spec_ends_with(f, ".js"@) ==> asset_content_type(AssetRequestView::Generic(f))
            == "application/javascript"@,
        !spec_ends_with(f, ".js"@) && spec_ends_with(f, ".css"@) ==> asset_content_type(
            AssetRequestView::Generic(f),
        ) == "text/css"@,
        !spec_ends_with(f, ".js"@) && !spec_ends_with(f, ".css"@) ==> asset_content_type(
            AssetRequestView::Generic(f),
        ) == "text/plain"@,
        asset_content_type(AssetRequestView::Css(f)) == "text/css"@,
        asset_content_type(AssetRequestView::Js(f)) == "application/javascript"@,
{
}

} // verus!
