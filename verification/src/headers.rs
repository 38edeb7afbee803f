//! The security headers that every response leaves with.

use crate::caching::{
    lemma_directives_follow, lemma_other_headers_stay, with_cache_control, CACHE_CONTROL,
};
use crate::response::{
    has_svg_content_type, header_key, header_table, set_header, status_code, svg_typed, values_of,
    HeaderTable,
};
use rocket::Response;
use vstd::prelude::*;

verus! {

/// The name of the header that carries the content security policy.
pub const CSP_HEADER: &'static str = "content-security-policy";

/// The policy for every response but an SVG image.
pub const CSP_NORMAL: &'static str =
    "default-src 'self'; frame-ancestors 'self'; img-src 'self'; frame-src https://www.google.com https://www.youtube.com";

/// The policy for an SVG image: such a file may style itself inline and may
/// run no script.
pub const CSP_SVG: &'static str =
    "default-src 'self'; style-src 'self' 'unsafe-inline'; script-src 'none'";

/// The policy for a response, by whether its content type is SVG.
pub open spec fn policy_for(svg: bool) -> Seq<char> {
    if svg {
        CSP_SVG@
    } else {
        CSP_NORMAL@
    }
}

/// Picks the content security policy for a response.
pub fn content_security_policy(svg: bool) -> (policy: &'static str)
    ensures
        policy@ == policy_for(svg),
{
    if svg {
        CSP_SVG
    } else {
        CSP_NORMAL
    }
}

/// The headers that are the same on every response, name and value, in the
/// order in which they are set.
pub open spec fn fixed_headers() -> Seq<(Seq<char>, Seq<char>)> {
    seq![
        ("x-xss-protection"@, "1; mode=block"@),
        ("strict-transport-security"@, "max-age=63072000"@),
        ("x-content-type-options"@, "nosniff"@),
        ("referrer-policy"@, "no-referrer, strict-origin-when-cross-origin"@),
    ]
}

/// Name and value of one listed header, as texts.
pub open spec fn entry_view(entry: (&'static str, &'static str)) -> (Seq<char>, Seq<char>) {
    (entry.0@, entry.1@)
}

/// The list of the fixed headers.
pub fn fixed_header_list() -> (list: [(&'static str, &'static str); 4])
    ensures
        list@.map_values(|entry: (&'static str, &'static str)| entry_view(entry))
            == fixed_headers(),
{
    let list = [
        ("x-xss-protection", "1; mode=block"),
        ("strict-transport-security", "max-age=63072000"),
        ("x-content-type-options", "nosniff"),
        ("referrer-policy", "no-referrer, strict-origin-when-cross-origin"),
    ];
    assert(list@.map_values(|entry: (&'static str, &'static str)| entry_view(entry))
        =~= fixed_headers());
    list
}

/// A header table after each of `entries` was set in turn: a header that is
/// set loses the values it had.
pub open spec fn stamped(table: HeaderTable, entries: Seq<(Seq<char>, Seq<char>)>) -> HeaderTable
    decreases entries.len(),
{
    if entries.len() == 0 {
        table
    } else {
        stamped(table, entries.drop_last()).insert(
            header_key(entries.last().0),
            seq![entries.last().1],
        )
    }
}

/// The header table that a response leaves with, given the one it came with:
/// the fixed headers are set, and the policy that goes with its content type.
pub open spec fn secured(table: HeaderTable) -> HeaderTable {
    stamped(table, fixed_headers()).insert(
        header_key(CSP_HEADER@),
        seq![policy_for(svg_typed(table))],
    )
}

/// The step that stamps the security headers on an outgoing response.
pub struct InjectHeaders;

impl InjectHeaders {
    /// The name under which the step is registered.
    pub fn name(&self) -> (name: &'static str)
        ensures
            name@ == "HTTP headers injector"@,
    {
        "HTTP headers injector"
    }

    /// Sets the fixed headers and the content security policy on `response`,
    /// whatever it held under those names, and leaves its status as it is.
    pub fn on_response(&self, response: &mut Response<'_>)
        ensures
            header_table(*final(response)) == secured(header_table(*old(response))),
            status_code(*final(response)) == status_code(*old(response)),
            values_of(header_table(*final(response)), "x-xss-protection"@)
                == seq!["1; mode=block"@],
            values_of(header_table(*final(response)), "strict-transport-security"@)
                == seq!["max-age=63072000"@],
            values_of(header_table(*final(response)), "x-content-type-options"@)
                == seq!["nosniff"@],
            values_of(header_table(*final(response)), "referrer-policy"@)
                == seq!["no-referrer, strict-origin-when-cross-origin"@],
            values_of(header_table(*final(response)), CSP_HEADER@) == seq![
                policy_for(svg_typed(header_table(*old(response)))),
            ],
            svg_typed(header_table(*old(response))) <==> values_of(
                header_table(*final(response)),
                CSP_HEADER@,
            ) == seq![CSP_SVG@],
            values_of(header_table(*final(response)), "Content-Type"@) == values_of(
                header_table(*old(response)),
                "Content-Type"@,
            ),
    {
        let fixed = fixed_header_list();
        let mut i: usize = 0;
        while i < fixed.len()
            invariant
                i <= 4,
                fixed@.map_values(|entry: (&'static str, &'static str)| entry_view(entry))
                    == fixed_headers(),
                header_table(*response) == stamped(
                    header_table(*old(response)),
                    fixed_headers().take(i as int),
                ),
                status_code(*response) == status_code(*old(response)),
            decreases 4 - i,
        {
            let (name, value) = fixed[i];
            set_header(response, name, value);
            proof {
                let done = fixed_headers().take(i as int + 1);
                assert(done.drop_last() =~= fixed_headers().take(i as int));
            }
            i += 1;
        }
        proof {
            assert(fixed_headers().take(4) =~= fixed_headers());
            lemma_fixed_headers_keep_content_type(header_table(*old(response)));
        }
        let policy = content_security_policy(has_svg_content_type(response));
        set_header(response, CSP_HEADER, policy);
        proof {
            lemma_fixed_headers_present(header_table(*old(response)));
            lemma_policy_follows_content_type(header_table(*old(response)));
            lemma_content_type_kept(header_table(*old(response)));
        }
    }
}

/// Whatever headers a response came with, it leaves with each of the four
/// fixed security headers, holding exactly its one value.
pub proof fn lemma_fixed_headers_present(table: HeaderTable)
    ensures
        values_of(secured(table), "x-xss-protection"@) == seq!["1; mode=block"@],
        values_of(secured(table), "strict-transport-security"@) == seq!["max-age=63072000"@],
        values_of(secured(table), "x-content-type-options"@) == seq!["nosniff"@],
        values_of(secured(table), "referrer-policy"@) == seq![
            "no-referrer, strict-origin-when-cross-origin"@,
        ],
{
    lemma_header_name_lengths();
    let fixed = fixed_headers();
    lemma_stamped_sets(table, fixed, 0);
    lemma_stamped_sets(table, fixed, 1);
    lemma_stamped_sets(table, fixed, 2);
    lemma_stamped_sets(table, fixed, 3);
}

/// The content security policy of a response is the SVG policy if and only
/// if its content type is SVG, and the normal policy if and only if it is
/// not; the header holds nothing else.
pub proof fn lemma_policy_follows_content_type(table: HeaderTable)
    ensures
        values_of(secured(table), CSP_HEADER@) == seq![policy_for(svg_typed(table))],
        svg_typed(table) <==> values_of(secured(table), CSP_HEADER@) == seq![CSP_SVG@],
        !svg_typed(table) <==> values_of(secured(table), CSP_HEADER@) == seq![CSP_NORMAL@],
{
    reveal_strlit(
        "default-src 'self'; frame-ancestors 'self'; img-src 'self'; frame-src https://www.google.com https://www.youtube.com",
    );
    reveal_strlit("default-src 'self'; style-src 'self' 'unsafe-inline'; script-src 'none'");
    assert(CSP_SVG@.len() != CSP_NORMAL@.len());
    assert(values_of(secured(table), CSP_HEADER@)[0] == policy_for(svg_typed(table)));
}

/// The injector leaves the content type of a response as it is, so the
/// policy that it chose is that of the response as it is sent.
pub proof fn lemma_content_type_kept(table: HeaderTable)
    ensures
        values_of(secured(table), "Content-Type"@) == values_of(table, "Content-Type"@),
        svg_typed(secured(table)) == svg_typed(table),
{
    lemma_header_name_lengths();
    lemma_stamped_keeps_others(table, fixed_headers(), "Content-Type"@);
}

/// Injecting a second time changes nothing.
pub proof fn lemma_secured_twice(table: HeaderTable)
    ensures
        secured(secured(table)) == secured(table),
{
    lemma_header_name_lengths();
    lemma_content_type_kept(table);
    reveal_with_fuel(stamped, 5);
    assert(secured(secured(table)) =~= secured(table));
}

/// A response that was decorated with cache directives before the injector
/// ran leaves with those directives, and with the policy that it would have
/// had without them.
pub proof fn lemma_decorated_then_secured(table: HeaderTable, directives: Seq<Seq<char>>)
    ensures
        values_of(secured(with_cache_control(table, directives)), CACHE_CONTROL@) == values_of(
            table,
            CACHE_CONTROL@,
        ) + directives,
        values_of(secured(with_cache_control(table, directives)), CSP_HEADER@) == values_of(
            secured(table),
            CSP_HEADER@,
        ),
{
    reveal_strlit("Cache-Control");
    lemma_header_name_lengths();
    let decorated = with_cache_control(table, directives);
    lemma_other_headers_kept(decorated, CACHE_CONTROL@);
    lemma_directives_follow(table, directives);
    lemma_other_headers_stay(table, directives, "Content-Type"@);
}

/// A header that the injector does not name leaves with the values that it
/// came with.
pub proof fn lemma_other_headers_kept(table: HeaderTable, name: Seq<char>)
    requires
        header_key(name) != header_key(CSP_HEADER@),
        forall|i: int|
            0 <= i < fixed_headers().len() ==> header_key(#[trigger] fixed_headers()[i].0)
                != header_key(name),
    ensures
        values_of(secured(table), name) == values_of(table, name),
{
    lemma_stamped_keeps_others(table, fixed_headers(), name);
}

/// A header that none of `entries` names has, after they were set, the
/// values that it had before.
pub proof fn lemma_stamped_keeps_others(
    table: HeaderTable,
    entries: Seq<(Seq<char>, Seq<char>)>,
    name: Seq<char>,
)
    requires
        forall|i: int|
            0 <= i < entries.len() ==> header_key(#[trigger] entries[i].0) != header_key(name),
    ensures
        values_of(stamped(table, entries), name) == values_of(table, name),
    decreases entries.len(),
{
    if entries.len() > 0 {
        let rest = entries.drop_last();
        assert forall|i: int| 0 <= i < rest.len() implies header_key(#[trigger] rest[i].0)
            != header_key(name) by {
            assert(rest[i] == entries[i]);
        }
        lemma_stamped_keeps_others(table, rest, name);
        assert(header_key(entries[entries.len() - 1].0) != header_key(name));
    }
}

/// A header that `entries` names once has, after they were set, the one
/// value that its entry gives.
pub proof fn lemma_stamped_sets(
    table: HeaderTable,
    entries: Seq<(Seq<char>, Seq<char>)>,
    at: int,
)
    requires
        0 <= at < entries.len(),
        forall|i: int|
            at < i < entries.len() ==> header_key(#[trigger] entries[i].0) != header_key(
                entries[at].0,
            ),
    ensures
        values_of(stamped(table, entries), entries[at].0) == seq![entries[at].1],
    decreases entries.len(),
{
    let rest = entries.drop_last();
    if at < entries.len() - 1 {
        assert(rest[at] == entries[at]);
        assert forall|i: int| at < i < rest.len() implies header_key(#[trigger] rest[i].0)
            != header_key(rest[at].0) by {
            assert(rest[i] == entries[i]);
        }
        lemma_stamped_sets(table, rest, at);
        assert(header_key(entries[entries.len() - 1].0) != header_key(entries[at].0));
    }
}

/// The lengths of the header names that the injector and the content type
/// test use: no two of them are alike, so no two share a key.
proof fn lemma_header_name_lengths()
    ensures
        fixed_headers().len() == 4,
        header_key(fixed_headers()[0].0).len() == 16,
        header_key(fixed_headers()[1].0).len() == 25,
        header_key(fixed_headers()[2].0).len() == 22,
        header_key(fixed_headers()[3].0).len() == 15,
        header_key(CSP_HEADER@).len() == 23,
        header_key("Content-Type"@).len() == 12,
{
    reveal_strlit("x-xss-protection");
    reveal_strlit("strict-transport-security");
    reveal_strlit("x-content-type-options");
    reveal_strlit("referrer-policy");
    reveal_strlit("content-security-policy");
    reveal_strlit("Content-Type");
}

/// Setting the fixed headers leaves the `Content-Type` header as it was.
proof fn lemma_fixed_headers_keep_content_type(table: HeaderTable)
    ensures
        svg_typed(stamped(table, fixed_headers())) == svg_typed(table),
{
    lemma_header_name_lengths();
    lemma_stamped_keeps_others(table, fixed_headers(), "Content-Type"@);
}

} // verus!
