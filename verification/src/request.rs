//! Requests as plain text, and which of them fetch a footer.

use vstd::prelude::*;

use crate::text::{contains, ends_with};

verus! {

/// The parts of an HTTP request that tell what it asks for, as text.
pub struct HttpRequest {
    /// The method, such as `GET`
    pub method: String,
    /// The authority of the URI, such as `user@host:80`, if the URI has one
    pub authority: Option<String>,
    /// The path of the URI with its query, if the URI has one
    pub path_and_query: Option<String>,
}

/// The position of the first character of `text` that is `a` or `b`, or its length.
pub open spec fn first_of(text: Seq<char>, a: char, b: char) -> int
    decreases text.len(),
{
    if text.len() == 0 || text[0] == a || text[0] == b {
        0
    } else {
        1 + first_of(text.drop_first(), a, b)
    }
}

/// What follows the last `c` in `text`, or all of it if there is none.
pub open spec fn after_last(text: Seq<char>, c: char) -> Seq<char>
    decreases text.len(),
{
    if text.len() == 0 || text.last() == c {
        Seq::empty()
    } else {
        after_last(text.drop_last(), c).push(text.last())
    }
}

/// The host in the text of an authority: what stands between the user information and the
/// port, an address in brackets with its brackets.
pub open spec fn host_part(authority: Seq<char>) -> Seq<char> {
    let host_and_port = after_last(authority, '@');
    if host_and_port.len() > 0 && host_and_port[0] == '[' {
        host_and_port.take(first_of(host_and_port, ']', ']') + 1)
    } else {
        host_and_port.take(first_of(host_and_port, ':', ':'))
    }
}

/// The path in the text of a path with query: what stands before the query and the fragment,
/// where nothing at all stands for the root.
pub open spec fn path_part(path_and_query: Seq<char>) -> Seq<char> {
    let path = path_and_query.take(first_of(path_and_query, '?', '#'));
    if path.len() == 0 {
        seq!['/']
    } else {
        path
    }
}

/// Whether `http::uri::Authority` accepts the text.
pub uninterp spec fn authority_accepted(text: Seq<char>) -> bool;

/// Whether `http::uri::PathAndQuery` accepts the text.
pub uninterp spec fn path_accepted(text: Seq<char>) -> bool;

/// Reads the text with `http::uri::Authority::try_from` and takes its `host`. Which texts are
/// accepted is left to that function, under the name [`authority_accepted`]; of an accepted
/// text the host is claimed to be [`host_part`].
#[verifier::external_body]
fn authority_host(text: &str) -> (r: Option<String>)
    ensures
        r is Some <==> authority_accepted(text@),
        r matches Some(host) ==> host@ == host_part(text@),
{
    let authority = ::http::uri::Authority::try_from(text).ok()?;
    Some(authority.host().to_string())
}

/// Reads the text with `http::uri::PathAndQuery::try_from` and takes its `path`. Which texts
/// are accepted is left to that function, under the name [`path_accepted`]; of an accepted text
/// the path is claimed to be [`path_part`].
#[verifier::external_body]
fn path_and_query_path(text: &str) -> (r: Option<String>)
    ensures
        r is Some <==> path_accepted(text@),
        r matches Some(path) ==> path@ == path_part(text@),
{
    let path_and_query = ::http::uri::PathAndQuery::try_from(text).ok()?;
    Some(path_and_query.path().to_string())
}

/// What a warning says of the footer request it is about.
#[derive(Debug)]
pub struct FooterSpawnFields {
    /// The request's method
    pub method: String,
    /// The host that the request goes to, empty if its URI names none
    pub host: String,
    /// The path that the request asks for
    pub path: String,
}

/// The text in a [`FooterSpawnFields`].
#[verifier::ext_equal]
pub struct FooterSpawnFieldsView {
    /// The request's method
    pub method: Seq<char>,
    /// The host that the request goes to
    pub host: Seq<char>,
    /// The path that the request asks for
    pub path: Seq<char>,
}

impl View for FooterSpawnFields {
    type V = FooterSpawnFieldsView;

    open spec fn view(&self) -> FooterSpawnFieldsView {
        FooterSpawnFieldsView { method: self.method@, host: self.host@, path: self.path@ }
    }
}

impl Clone for FooterSpawnFields {
    fn clone(&self) -> (r: Self)
        ensures
            r == *self,
    {
        FooterSpawnFields {
            method: self.method.clone(),
            host: self.host.clone(),
            path: self.path.clone(),
        }
    }
}

/// The path names a footer: it ends in `.footer`, or it holds that suffix anywhere with the dot
/// percent-encoded.
pub open spec fn is_footer_path(path: Seq<char>) -> bool {
    ||| ".footer"@.is_suffix_of(path)
    ||| crate::text::occurs_in(path, "%2Efooter"@)
    ||| crate::text::occurs_in(path, "%2efooter"@)
}

/// What a warning says of a request with this method, host and path, if it is for a footer.
pub open spec fn footer_fields_view(
    method: Seq<char>,
    host: Seq<char>,
    path: Seq<char>,
) -> Option<FooterSpawnFieldsView> {
    if is_footer_path(path) {
        Some(FooterSpawnFieldsView { method, host, path })
    } else {
        None
    }
}

/// The text in optional fields.
pub open spec fn fields_view(fields: Option<FooterSpawnFields>) -> Option<FooterSpawnFieldsView> {
    match fields {
        Some(f) => Some(f@),
        None => None,
    }
}

/// What a warning says of a request with this method, host and path; `None` unless the path
/// names a footer.
pub fn footer_fields(method: &str, host: Option<&str>, path: &str) -> (r: Option<
    FooterSpawnFields,
>)
    ensures
        fields_view(r) == footer_fields_view(
            method@,
            (match host {
                Some(h) => h@,
                None => Seq::empty(),
            }),
            path@,
        ),
        r is Some <==> {
            ||| exists|before: Seq<char>| path@ == #[trigger] (before + ".footer"@)
            ||| exists|before: Seq<char>, after: Seq<char>|
                path@ == #[trigger] (before + "%2Efooter"@ + after)
            ||| exists|before: Seq<char>, after: Seq<char>|
                path@ == #[trigger] (before + "%2efooter"@ + after)
        },
        r matches Some(fields) ==> fields.method@ == method@ && fields.path@ == path@,
        r matches Some(fields) ==> (host matches Some(h) ==> fields.host@ == h@),
        r matches Some(fields) ==> (host is None ==> fields.host@ == Seq::<char>::empty()),
{
    proof {
        crate::request_laws::footer_paths_are_exactly_these(path@);
    }
    let is_footer = ends_with(path, ".footer") || contains(path, "%2Efooter") || contains(
        path,
        "%2efooter",
    );
    if !is_footer {
        return None;
    }
    let host = match host {
        Some(h) => h.to_string(),
        None => String::new(),
    };
    Some(FooterSpawnFields { method: method.to_string(), host, path: path.to_string() })
}

impl HttpRequest {
    /// The host that the request goes to, empty where the URI names none.
    pub open spec fn host_view(&self) -> Seq<char> {
        match self.authority {
            Some(text) => if authority_accepted(text@) {
                host_part(text@)
            } else {
                Seq::empty()
            },
            None => Seq::empty(),
        }
    }

    /// The path that the request asks for, empty where the URI has none. `None` where the text
    /// is no path.
    pub open spec fn path_view(&self) -> Option<Seq<char>> {
        match self.path_and_query {
            Some(text) => if path_accepted(text@) {
                Some(path_part(text@))
            } else {
                None
            },
            None => Some(Seq::empty()),
        }
    }

    /// What a warning says of this request, if it is for a footer.
    pub open spec fn footer_view(&self) -> Option<FooterSpawnFieldsView> {
        match self.path_view() {
            Some(path) => footer_fields_view(self.method@, self.host_view(), path),
            None => None,
        }
    }
}

/// What a warning says of this request; `None` unless its path names a footer.
pub fn footer_spawn_fields(req: &HttpRequest) -> (r: Option<FooterSpawnFields>)
    ensures
        fields_view(r) == req.footer_view(),
        r is Some ==> req.path_and_query is Some && path_accepted(req.path_and_query->0@),
        r matches Some(fields) ==> fields.method@ == req.method@,
        r matches Some(fields) ==> fields.path@ == path_part(req.path_and_query->0@),
        r matches Some(fields) ==> fields.host@ == (if req.authority is Some && authority_accepted(
            req.authority->0@,
        ) {
            host_part(req.authority->0@)
        } else {
            Seq::empty()
        }),
        req.path_and_query is Some && path_accepted(req.path_and_query->0@) ==> (r is Some
            <==> is_footer_path(path_part(req.path_and_query->0@))),
{
    proof {
        crate::request_laws::no_path_is_no_footer();
    }
    let path = match &req.path_and_query {
        Some(text) => match path_and_query_path(text.as_str()) {
            Some(path) => path,
            None => return None,
        },
        None => String::new(),
    };
    let host = match &req.authority {
        Some(text) => authority_host(text.as_str()),
        None => None,
    };
    match &host {
        Some(h) => footer_fields(req.method.as_str(), Some(h.as_str()), path.as_str()),
        None => footer_fields(req.method.as_str(), None, path.as_str()),
    }
}

} // verus!
