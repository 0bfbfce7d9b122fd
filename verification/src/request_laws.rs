//! What holds of footer requests, their hosts and their paths.

use vstd::prelude::*;

use crate::request::{FooterSpawnFields, HttpRequest};

verus! {

/// A path is that of a footer exactly if it is anything followed by `.footer`, or holds
/// `%2Efooter` or `%2efooter` with anything before and after it.
pub proof fn footer_paths_are_exactly_these(path: Seq<char>)
    ensures
        crate::request::is_footer_path(path) <==> {
            ||| exists|before: Seq<char>| path == #[trigger] (before + ".footer"@)
            ||| exists|before: Seq<char>, after: Seq<char>|
                path == #[trigger] (before + "%2Efooter"@ + after)
            ||| exists|before: Seq<char>, after: Seq<char>|
                path == #[trigger] (before + "%2efooter"@ + after)
        },
{
    crate::text::a_suffix_follows_what_stands_before_it(path, ".footer"@);
    crate::text::a_pattern_occurs_between_what_surrounds_it(path, "%2Efooter"@);
    crate::text::a_pattern_occurs_between_what_surrounds_it(path, "%2efooter"@);
}

/// Whatever stands before the ending, and whatever surrounds the encoded one, a path is that of a
/// footer.
pub proof fn a_footer_is_one_whatever_surrounds_its_ending(before: Seq<char>, after: Seq<char>)
    ensures
        crate::request::is_footer_path(before + ".footer"@),
        crate::request::is_footer_path(before + "%2Efooter"@ + after),
        crate::request::is_footer_path(before + "%2efooter"@ + after),
{
    footer_paths_are_exactly_these(before + ".footer"@);
    footer_paths_are_exactly_these(before + "%2Efooter"@ + after);
    footer_paths_are_exactly_these(before + "%2efooter"@ + after);
}

/// A path of a footer stays one whatever is put before it.
pub proof fn a_footer_stays_one_deeper_down(directory: Seq<char>, path: Seq<char>)
    requires
        crate::request::is_footer_path(path),
    ensures
        crate::request::is_footer_path(directory + path),
{
    footer_paths_are_exactly_these(path);
    footer_paths_are_exactly_these(directory + path);
    if exists|before: Seq<char>| path == #[trigger] (before + ".footer"@) {
        let before = choose|before: Seq<char>| path == #[trigger] (before + ".footer"@);
        assert(directory + path =~= (directory + before) + ".footer"@);
    } else if exists|before: Seq<char>, after: Seq<char>|
        path == #[trigger] (before + "%2Efooter"@ + after) {
        let (before, after) = choose|before: Seq<char>, after: Seq<char>|
            path == #[trigger] (before + "%2Efooter"@ + after);
        assert(directory + path =~= (directory + before) + "%2Efooter"@ + after);
    } else {
        let (before, after) = choose|before: Seq<char>, after: Seq<char>|
            path == #[trigger] (before + "%2efooter"@ + after);
        assert(directory + path =~= (directory + before) + "%2efooter"@ + after);
    }
}

/// The empty path is not that of a footer.
pub proof fn no_path_is_no_footer()
    ensures
        !crate::request::is_footer_path(Seq::empty()),
{
    let none = Seq::<char>::empty();
    reveal_strlit(".footer");
    reveal_strlit("%2Efooter");
    reveal_strlit("%2efooter");
    footer_paths_are_exactly_these(none);
    assert forall|before: Seq<char>| none != #[trigger] (before + ".footer"@) by {
        assert((before + ".footer"@).len() > 0);
    }
    assert forall|before: Seq<char>, after: Seq<char>|
        none != #[trigger] (before + "%2Efooter"@ + after) by {
        assert((before + "%2Efooter"@ + after).len() > 0);
    }
    assert forall|before: Seq<char>, after: Seq<char>|
        none != #[trigger] (before + "%2efooter"@ + after) by {
        assert((before + "%2efooter"@ + after).len() > 0);
    }
}

/// The fields of a footer repeat its method, host and path, and no other request has any.
pub proof fn fields_repeat_the_request(method: Seq<char>, host: Seq<char>, path: Seq<char>)
    ensures
        ({
            let fields = crate::request::footer_fields_view(method, host, path);
            &&& fields is Some <==> crate::request::is_footer_path(path)
            &&& fields matches Some(f) ==> f.method == method && f.host == host && f.path == path
        }),
{
}

/// Fields are seen as they are.
pub proof fn fields_are_seen_as_they_are(fields: FooterSpawnFields)
    ensures
        fields@.method == fields.method@,
        fields@.host == fields.host@,
        fields@.path == fields.path@,
        crate::request::fields_view(Some(fields)) == Some(fields@),
        crate::request::fields_view(None) is None,
{
}

/// Where neither of two characters stands in `text` and one of them, or nothing, follows it, the
/// first of them comes right after `text`.
proof fn lemma_first_of(text: Seq<char>, rest: Seq<char>, a: char, b: char)
    requires
        forall|i: int| 0 <= i < text.len() ==> text[i] != a && text[i] != b,
        rest.len() == 0 || rest[0] == a || rest[0] == b,
    ensures
        crate::request::first_of(text + rest, a, b) == text.len(),
    decreases text.len(),
{
    if text.len() == 0 {
        assert(text + rest =~= rest);
    } else {
        lemma_first_of(text.drop_first(), rest, a, b);
        assert((text + rest).drop_first() =~= text.drop_first() + rest);
        assert((text + rest)[0] == text[0]);
    }
}

/// Where a character does not stand in `text`, `text` is what follows it.
proof fn lemma_after_last(before: Seq<char>, text: Seq<char>, c: char)
    requires
        forall|i: int| 0 <= i < text.len() ==> text[i] != c,
    ensures
        crate::request::after_last(before.push(c) + text, c) == text,
        crate::request::after_last(text, c) == text,
    decreases text.len(),
{
    if text.len() == 0 {
        assert(before.push(c) + text =~= before.push(c));
        assert(before.push(c).last() == c);
        assert(text =~= Seq::empty());
    } else {
        lemma_after_last(before, text.drop_last(), c);
        let whole = before.push(c) + text;
        assert(whole.drop_last() =~= before.push(c) + text.drop_last());
        assert(whole.last() == text.last());
        assert(text.drop_last().push(text.last()) =~= text);
    }
}

/// A path ends where a query or a fragment begins, whatever those hold, and nothing at all before
/// them stands for the root.
pub proof fn a_path_ends_at_its_query(path: Seq<char>, rest: Seq<char>)
    requires
        forall|i: int| 0 <= i < path.len() ==> path[i] != '?' && path[i] != '#',
        rest.len() == 0 || rest[0] == '?' || rest[0] == '#',
    ensures
        path.len() > 0 ==> crate::request::path_part(path + rest) == path,
        path.len() == 0 ==> crate::request::path_part(path + rest) == seq!['/'],
{
    lemma_first_of(path, rest, '?', '#');
    assert((path + rest).take(path.len() as int) =~= path);
}

/// A host that is not in brackets ends at the port, and begins after the user information.
pub proof fn a_host_stands_between_user_and_port(
    user: Seq<char>,
    host: Seq<char>,
    port: Seq<char>,
)
    requires
        forall|i: int| 0 <= i < host.len() ==> host[i] != '@' && host[i] != ':',
        forall|i: int| 0 <= i < port.len() ==> port[i] != '@',
        host.len() > 0 ==> host[0] != '[',
        port.len() > 0 ==> port[0] == ':',
    ensures
        crate::request::host_part(host + port) == host,
        crate::request::host_part(user.push('@') + (host + port)) == host,
{
    lemma_after_last(user, host + port, '@');
    lemma_first_of(host, port, ':', ':');
    assert((host + port).take(host.len() as int) =~= host);
}

/// A host in brackets is all up to the closing one, whatever follows, and begins after the user
/// information.
pub proof fn a_host_in_brackets_keeps_them(user: Seq<char>, inside: Seq<char>, port: Seq<char>)
    requires
        forall|i: int| 0 <= i < inside.len() ==> inside[i] != '@' && inside[i] != ']',
        forall|i: int| 0 <= i < port.len() ==> port[i] != '@',
    ensures
        ({
            let host = seq!['['] + inside + seq![']'];
            &&& crate::request::host_part(host + port) == host
            &&& crate::request::host_part(user.push('@') + (host + port)) == host
        }),
{
    let open = seq!['['] + inside;
    let host = open + seq![']'];
    let rest = seq![']'] + port;
    assert(host + port =~= open + rest);
    lemma_after_last(user, host + port, '@');
    lemma_first_of(open, rest, ']', ']');
    assert((host + port).take(open.len() as int + 1) =~= host);
}

/// Whether a request is for a footer, and which path it is warned about under, does not depend on
/// its query.
pub proof fn a_query_does_not_matter(
    plain: HttpRequest,
    queried: HttpRequest,
    path: Seq<char>,
    rest: Seq<char>,
)
    requires
        plain.method@ == queried.method@,
        plain.authority == queried.authority,
        plain.path_and_query is Some && plain.path_and_query->0@ == path,
        queried.path_and_query is Some && queried.path_and_query->0@ == path + rest,
        crate::request::path_accepted(path),
        crate::request::path_accepted(path + rest),
        forall|i: int| 0 <= i < path.len() ==> path[i] != '?' && path[i] != '#',
        rest.len() > 0 && (rest[0] == '?' || rest[0] == '#'),
        path.len() > 0,
    ensures
        queried.footer_view() == plain.footer_view(),
        plain.footer_view() is Some <==> crate::request::is_footer_path(path),
        plain.footer_view() matches Some(fields) ==> fields.path == path && fields.method
            == plain.method@,
{
    a_path_ends_at_its_query(path, rest);
    a_path_ends_at_its_query(path, Seq::empty());
    assert(path + Seq::<char>::empty() =~= path);
}

/// The host that a footer request is warned about under is that of its authority, and empty
/// without one.
pub proof fn the_host_is_that_of_the_authority(req: HttpRequest)
    ensures
        req.footer_view() matches Some(fields) ==> {
            &&& req.authority is None ==> fields.host == Seq::<char>::empty()
            &&& req.authority is Some && crate::request::authority_accepted(req.authority->0@)
                ==> fields.host == crate::request::host_part(req.authority->0@)
        },
        req.path_and_query is None ==> req.footer_view() is None,
{
    no_path_is_no_footer();
}

} // verus!
