//! HTTP header lists as the transport builds them, in Hyper's header map: names compare
//! without regard to the case of ASCII letters, and setting a header replaces the first
//! header with the same name or, when there is none, appends it.
use crate::text::{decimal, decimal_text, same_ignoring_ascii_case, ascii_lower};
use hyper::header::Headers;
use vstd::prelude::*;

verus! {

/// A header list as the mathematics sees it: names and values, in order.
pub type HeaderSeq = Seq<(Seq<char>, Seq<char>)>;

/// The position of the first header whose name matches `name`.
pub open spec fn first_match(entries: HeaderSeq, name: Seq<char>) -> Option<int>
    decreases entries.len(),
{
    if entries.len() == 0 {
        None
    } else if same_ignoring_ascii_case(entries[0].0, name) {
        Some(0)
    } else {
        match first_match(entries.drop_first(), name) {
            Some(i) => Some(i + 1),
            None => None,
        }
    }
}

/// The header list after setting a header: the first header with a matching name takes
/// the new name and value; when there is none, the header is appended.
pub open spec fn header_set(entries: HeaderSeq, name: Seq<char>, value: Seq<char>) -> HeaderSeq {
    match first_match(entries, name) {
        Some(i) => entries.update(i, (name, value)),
        None => entries.push((name, value)),
    }
}

/// The value of the first header whose name matches `name`.
pub open spec fn header_get(entries: HeaderSeq, name: Seq<char>) -> Option<Seq<char>> {
    match first_match(entries, name) {
        Some(i) => Some(entries[i].1),
        None => None,
    }
}

/// The header list after setting each header of `updates` in turn.
pub open spec fn header_set_all(entries: HeaderSeq, updates: HeaderSeq) -> HeaderSeq
    decreases updates.len(),
{
    if updates.len() == 0 {
        entries
    } else {
        let before = header_set_all(entries, updates.drop_last());
        header_set(before, updates.last().0, updates.last().1)
    }
}

/// No two headers of a list have matching names.
pub open spec fn distinct_headers(entries: HeaderSeq) -> bool {
    forall|i: int, j: int| 0 <= i < j < entries.len() ==> !same_ignoring_ascii_case(#[trigger] entries[i].0, #[trigger] entries[j].0)
}

/// The headers that every request carries before the custom ones: a JSON content type,
/// and the length of the body.
pub open spec fn default_headers(body_len: nat) -> HeaderSeq {
    header_set(header_set(Seq::empty(), "Content-Type"@, "application/json"@), "Content-Length"@, decimal(body_len))
}

proof fn lemma_same_ignoring_case_symmetric(a: Seq<char>, b: Seq<char>)
    requires
        same_ignoring_ascii_case(a, b),
    ensures
        same_ignoring_ascii_case(b, a),
{
}

proof fn lemma_same_ignoring_case_transitive(a: Seq<char>, b: Seq<char>, c: Seq<char>)
    requires
        same_ignoring_ascii_case(a, b),
        same_ignoring_ascii_case(b, c),
    ensures
        same_ignoring_ascii_case(a, c),
{
    assert forall|j: int| 0 <= j < a.len() implies ascii_lower(#[trigger] a[j]) == ascii_lower(c[j]) by {
        assert(ascii_lower(a[j]) == ascii_lower(b[j]));
        assert(ascii_lower(b[j]) == ascii_lower(c[j]));
    }
}

/// What `first_match` finds: the first matching position, or no matching position at all.
proof fn lemma_first_match(entries: HeaderSeq, name: Seq<char>)
    ensures
        match first_match(entries, name) {
            Some(i) => 0 <= i < entries.len() && same_ignoring_ascii_case(entries[i].0, name)
                && forall|j: int| 0 <= j < i ==> !same_ignoring_ascii_case(#[trigger] entries[j].0, name),
            None => forall|j: int| 0 <= j < entries.len() ==> !same_ignoring_ascii_case(#[trigger] entries[j].0, name),
        },
    decreases entries.len(),
{
    if entries.len() > 0 {
        let rest = entries.drop_first();
        lemma_first_match(rest, name);
        if !same_ignoring_ascii_case(entries[0].0, name) {
            match first_match(rest, name) {
                Some(i) => {
                    assert forall|j: int| 0 <= j < i + 1 implies !same_ignoring_ascii_case(#[trigger] entries[j].0, name) by {
                        if j > 0 {
                            assert(entries[j] == rest[j - 1]);
                        }
                    }
                },
                None => {
                    assert forall|j: int| 0 <= j < entries.len() implies !same_ignoring_ascii_case(#[trigger] entries[j].0, name) by {
                        if j > 0 {
                            assert(entries[j] == rest[j - 1]);
                        }
                    }
                },
            }
        }
    }
}

/// The characterization of `first_match` determines it.
proof fn lemma_first_match_unique(entries: HeaderSeq, name: Seq<char>, i: int)
    requires
        0 <= i < entries.len(),
        same_ignoring_ascii_case(entries[i].0, name),
        forall|j: int| 0 <= j < i ==> !same_ignoring_ascii_case(#[trigger] entries[j].0, name),
    ensures
        first_match(entries, name) == Some(i),
{
    lemma_first_match(entries, name);
    match first_match(entries, name) {
        Some(k) => {
            if k < i {
                assert(!same_ignoring_ascii_case(entries[k].0, name));
            } else if k > i {
                assert(!same_ignoring_ascii_case(entries[i].0, name));
            }
        },
        None => {
            assert(!same_ignoring_ascii_case(entries[i].0, name));
        },
    }
}

proof fn lemma_no_match(entries: HeaderSeq, name: Seq<char>)
    requires
        forall|j: int| 0 <= j < entries.len() ==> !same_ignoring_ascii_case(#[trigger] entries[j].0, name),
    ensures
        first_match(entries, name) is None,
{
    lemma_first_match(entries, name);
    if let Some(k) = first_match(entries, name) {
        assert(!same_ignoring_ascii_case(entries[k].0, name));
    }
}

/// Setting a header under a name and reading a matching name gives the value just set.
pub proof fn law_header_set_then_get(entries: HeaderSeq, name: Seq<char>, value: Seq<char>, lookup: Seq<char>)
    requires
        same_ignoring_ascii_case(name, lookup),
    ensures
        header_get(header_set(entries, name, value), lookup) == Some(value),
{
    lemma_first_match(entries, name);
    let after = header_set(entries, name, value);
    match first_match(entries, name) {
        Some(i) => {
            assert forall|j: int| 0 <= j < i implies !same_ignoring_ascii_case(#[trigger] after[j].0, lookup) by {
                if same_ignoring_ascii_case(after[j].0, lookup) {
                    lemma_same_ignoring_case_symmetric(name, lookup);
                    lemma_same_ignoring_case_transitive(after[j].0, lookup, name);
                }
            }
            lemma_same_ignoring_case_transitive(name, name, lookup);
            lemma_first_match_unique(after, lookup, i);
        },
        None => {
            let k = entries.len() as int;
            assert forall|j: int| 0 <= j < k implies !same_ignoring_ascii_case(#[trigger] after[j].0, lookup) by {
                if same_ignoring_ascii_case(after[j].0, lookup) {
                    lemma_same_ignoring_case_symmetric(name, lookup);
                    lemma_same_ignoring_case_transitive(after[j].0, lookup, name);
                }
            }
            lemma_first_match_unique(after, lookup, k);
        },
    }
}

/// Setting a header leaves the value of every header whose name does not match alone.
pub proof fn law_header_set_keeps_others(entries: HeaderSeq, name: Seq<char>, value: Seq<char>, other: Seq<char>)
    requires
        !same_ignoring_ascii_case(name, other),
    ensures
        header_get(header_set(entries, name, value), other) == header_get(entries, other),
{
    lemma_first_match(entries, name);
    lemma_first_match(entries, other);
    let after = header_set(entries, name, value);
    if let Some(i) = first_match(entries, name) {
        // The replaced header matched `name`, so it matched `other` neither before nor after.
        if same_ignoring_ascii_case(entries[i].0, other) {
            lemma_same_ignoring_case_symmetric(entries[i].0, name);
            lemma_same_ignoring_case_transitive(name, entries[i].0, other);
        }
        match first_match(entries, other) {
            Some(k) => {
                assert(k != i);
                lemma_first_match_unique(after, other, k);
            },
            None => {
                lemma_no_match(after, other);
            },
        }
    } else {
        match first_match(entries, other) {
            Some(k) => {
                lemma_first_match_unique(after, other, k);
            },
            None => {
                assert(!same_ignoring_ascii_case(after[entries.len() as int].0, other));
                lemma_no_match(after, other);
            },
        }
    }
}

/// Setting a header keeps the names of a header list distinct.
pub(crate) proof fn lemma_header_set_distinct(entries: HeaderSeq, name: Seq<char>, value: Seq<char>)
    requires
        distinct_headers(entries),
    ensures
        distinct_headers(header_set(entries, name, value)),
{
    lemma_first_match(entries, name);
    let after = header_set(entries, name, value);
    assert forall|a: int, b: int| 0 <= a < b < after.len() implies !same_ignoring_ascii_case(#[trigger] after[a].0, #[trigger] after[b].0) by {
        match first_match(entries, name) {
            Some(i) => {
                if a == i && same_ignoring_ascii_case(after[a].0, after[b].0) {
                    lemma_same_ignoring_case_transitive(entries[i].0, name, entries[b].0);
                } else if b == i && same_ignoring_ascii_case(after[a].0, after[b].0) {
                    lemma_same_ignoring_case_symmetric(entries[i].0, name);
                    lemma_same_ignoring_case_transitive(entries[a].0, name, entries[i].0);
                }
            },
            None => {
                if b == entries.len() && same_ignoring_ascii_case(after[a].0, after[b].0) {
                    assert(after[a] == entries[a]);
                }
            },
        }
    }
}

/// The custom headers of a handle win over the headers the request carries anyway: when
/// the custom headers have a value for a name, the request has that value for it.
pub proof fn law_custom_header_wins(base: HeaderSeq, custom: HeaderSeq, name: Seq<char>)
    requires
        distinct_headers(custom),
        header_get(custom, name) is Some,
    ensures
        header_get(header_set_all(base, custom), name) == header_get(custom, name),
    decreases custom.len(),
{
    lemma_first_match(custom, name);
    let k = first_match(custom, name)->0;
    let last = custom.len() - 1;
    let rest = custom.drop_last();
    if k == last {
        law_header_set_then_get(header_set_all(base, rest), custom.last().0, custom.last().1, name);
    } else {
        assert(distinct_headers(rest));
        assert forall|j: int| 0 <= j < k implies !same_ignoring_ascii_case(#[trigger] rest[j].0, name) by {
            assert(rest[j] == custom[j]);
        }
        lemma_first_match_unique(rest, name, k);
        law_custom_header_wins(base, rest, name);
        if same_ignoring_ascii_case(custom.last().0, name) {
            lemma_same_ignoring_case_symmetric(custom.last().0, name);
            lemma_same_ignoring_case_transitive(custom[k].0, name, custom.last().0);
        }
        law_header_set_keeps_others(header_set_all(base, rest), custom.last().0, custom.last().1, name);
    }
}

/// The headers a request carries anyway survive where no custom header has their name:
/// for such a name the request has the value it had before the custom headers were set.
pub proof fn law_base_header_survives(base: HeaderSeq, custom: HeaderSeq, name: Seq<char>)
    requires
        header_get(custom, name) is None,
    ensures
        header_get(header_set_all(base, custom), name) == header_get(base, name),
    decreases custom.len(),
{
    if custom.len() > 0 {
        lemma_first_match(custom, name);
        let rest = custom.drop_last();
        assert forall|j: int| 0 <= j < rest.len() implies !same_ignoring_ascii_case(#[trigger] rest[j].0, name) by {
            assert(rest[j] == custom[j]);
        }
        lemma_no_match(rest, name);
        law_base_header_survives(base, rest, name);
        assert(!same_ignoring_ascii_case(custom[custom.len() - 1].0, name));
        law_header_set_keeps_others(header_set_all(base, rest), custom.last().0, custom.last().1, name);
    }
}

/// A header map, as Hyper holds it.
#[verifier::external_type_specification]
#[verifier::external_body]
pub struct ExHeaders(hyper::header::Headers);

/// The headers that a header map holds, in order: each name with the value it was set to.
pub uninterp spec fn header_entries(headers: Headers) -> HeaderSeq;

/// Calls `Headers::new`: the map starts empty.
#[verifier::external_body]
pub(crate) fn new_headers() -> (headers: Headers)
    ensures
        header_entries(headers) == Seq::<(Seq<char>, Seq<char>)>::empty(),
{
    Headers::new()
}

/// Calls `Headers::set_raw`. By its source, the map inserts into its list of entries: the
/// first entry whose name equals the new one, ignoring the case of ASCII letters, is
/// replaced by the new name and value; when there is none, the header is appended.
#[verifier::external_body]
pub(crate) fn set_raw(headers: &mut Headers, name: String, value: String)
    ensures
        header_entries(*final(headers)) == header_set(header_entries(*old(headers)), name@, value@),
{
    headers.set_raw(name, value)
}

/// Calls `Extend::extend` on `target` with `Headers::iter` of `source`. By its source, each
/// entry of `source` is inserted in turn, as `set_raw` inserts.
#[verifier::external_body]
fn extend_headers(target: &mut Headers, source: &Headers)
    ensures
        header_entries(*final(target)) == header_set_all(header_entries(*old(target)), header_entries(*source)),
{
    target.extend(source.iter())
}

/// The headers of a request with a body of `body_len` bytes: a JSON content type and the
/// length of the body, then the custom headers, which replace headers of the same name.
pub fn request_headers(custom: &Headers, body_len: u64) -> (headers: Headers)
    ensures
        header_entries(headers) == header_set_all(default_headers(body_len as nat), header_entries(*custom)),
{
    let mut headers = new_headers();
    set_raw(&mut headers, "Content-Type".to_owned(), "application/json".to_owned());
    set_raw(&mut headers, "Content-Length".to_owned(), decimal_text(body_len));
    extend_headers(&mut headers, custom);
    headers
}

} // verus!
