//! The issuers that a token of an OpenID Connect provider may name.

use vstd::prelude::*;
use vstd::string::*;
use crate::select::text_views;
use crate::telemetry::{trim, trimmed};
use crate::text::concat2;

verus! {

/// A text without the slashes at its end.
pub open spec fn without_trailing_slashes(text: Seq<char>) -> Seq<char>
    decreases text.len(),
{
    if text.len() > 0 && text.last() == '/' {
        without_trailing_slashes(text.drop_last())
    } else {
        text
    }
}

/// Removes the slashes at the end of a text.
pub fn trim_trailing_slashes(text: &str) -> (r: String)
    ensures
        r@ == without_trailing_slashes(text@),
{
    let mut end = text.unicode_len();
    proof {
        assert(text@.subrange(0, end as int) =~= text@);
    }
    while end > 0 && text.get_char(end - 1) == '/'
        invariant
            end <= text@.len(),
            without_trailing_slashes(text@.subrange(0, end as int)) == without_trailing_slashes(
                text@,
            ),
        decreases end,
    {
        proof {
            assert(text@.subrange(0, end as int).drop_last() =~= text@.subrange(0, end - 1));
        }
        end -= 1;
    }
    text.substring_char(0, end).to_owned()
}

/// The two forms of an issuer: without a slash at the end, and with one.
pub open spec fn both_forms(base: Seq<char>) -> Seq<Seq<char>> {
    seq![base, base + "/"@]
}

/// The forms of the first `count` aliases, in order: each alias without the
/// white space around it and the slashes at its end, unless nothing is left of it.
pub open spec fn alias_forms(aliases: Seq<Seq<char>>, count: int) -> Seq<Seq<char>>
    decreases count,
{
    if count <= 0 {
        Seq::empty()
    } else {
        let normalized = without_trailing_slashes(trimmed(aliases[count - 1]));
        if normalized.len() == 0 {
            alias_forms(aliases, count - 1)
        } else {
            alias_forms(aliases, count - 1) + both_forms(normalized)
        }
    }
}

/// The first `count` of a list of texts, each only where it did not occur before.
pub open spec fn distinct_prefix(items: Seq<Seq<char>>, count: int) -> Seq<Seq<char>>
    decreases count,
{
    if count <= 0 {
        Seq::empty()
    } else if distinct_prefix(items, count - 1).contains(items[count - 1]) {
        distinct_prefix(items, count - 1)
    } else {
        distinct_prefix(items, count - 1).push(items[count - 1])
    }
}

/// The issuers that are accepted for a provider: the provider's URL and the
/// aliases, each in both forms, every issuer once, in this order.
pub open spec fn issuers_of(url: Seq<char>, aliases: Seq<Seq<char>>) -> Seq<Seq<char>> {
    let candidates = both_forms(without_trailing_slashes(url)) + alias_forms(
        aliases,
        aliases.len() as int,
    );
    distinct_prefix(candidates, candidates.len() as int)
}

/// Nothing occurs twice among the distinct items of a list.
pub proof fn lemma_distinct_prefix(items: Seq<Seq<char>>, count: int)
    requires
        0 <= count <= items.len(),
    ensures
        crate::text::distinct(distinct_prefix(items, count)),
        forall|k: int| 0 <= k < count ==> distinct_prefix(items, count).contains(#[trigger] items[k]),
        forall|x: Seq<char>| #[trigger]
            distinct_prefix(items, count).contains(x) ==> exists|k: int|
                0 <= k < count && items[k] == x,
    decreases count,
{
    if count > 0 {
        lemma_distinct_prefix(items, count - 1);
        let before = distinct_prefix(items, count - 1);
        let now = distinct_prefix(items, count);
        if before.contains(items[count - 1]) {
        } else {
            assert(now[now.len() - 1] == items[count - 1]);
            assert forall|k: int| 0 <= k < count implies now.contains(#[trigger] items[k]) by {
                if k < count - 1 {
                    let j = choose|j: int| 0 <= j < before.len() && before[j] == items[k];
                    assert(now[j] == items[k]);
                }
            }
            assert forall|x: Seq<char>| #[trigger] now.contains(x) implies exists|k: int|
                0 <= k < count && items[k] == x by {
                let j = choose|j: int| 0 <= j < now.len() && now[j] == x;
                if j < before.len() {
                    assert(before[j] == x);
                    assert(before.contains(x));
                }
            }
            assert forall|i: int, j: int| 0 <= i < j < now.len() implies now[i] != now[j] by {
                if j == now.len() - 1 {
                    assert(before[i] == now[i]);
                    assert(before.contains(now[i]));
                } else {
                    assert(before[i] == now[i] && before[j] == now[j]);
                }
            }
        }
    }
}

/// The settings that tokens of an OpenID Connect provider are checked with.
#[derive(Clone, Debug, PartialEq, Eq)]
pub struct Oidc {
    /// The URL of the provider, without the slashes at its end.
    pub base_url: String,
    /// The issuers that a token may name.
    pub issuers: Vec<String>,
    /// The audiences that a token may name, where they are restricted.
    pub allowed_audiences: Option<Vec<String>>,
}

fn contains(items: &Vec<String>, candidate: &str) -> (r: bool)
    ensures
        r == text_views(items@).contains(candidate@),
{
    crate::planner_access::contains_name(items, candidate)
}

fn add_issuer(issuers: &mut Vec<String>, candidate: String, Ghost(all): Ghost<Seq<Seq<char>>>, Ghost(
    count,
): Ghost<int>)
    requires
        0 <= count < all.len(),
        all[count] == candidate@,
        text_views(old(issuers)@) == distinct_prefix(all, count),
    ensures
        text_views(final(issuers)@) == distinct_prefix(all, count + 1),
{
    if !contains(issuers, candidate.as_str()) {
        let ghost before = issuers@;
        issuers.push(candidate);
        assert(text_views(issuers@) =~= text_views(before).push(candidate@));
    }
}

impl Oidc {
    /// The settings for the provider at `url`.
    pub fn new(url: &str, allowed_audiences: Option<Vec<String>>, issuer_aliases: &Vec<String>) -> (r:
        Oidc)
        ensures
            r.base_url@ == without_trailing_slashes(url@),
            text_views(r.issuers@) == issuers_of(url@, text_views(issuer_aliases@)),
            r.allowed_audiences == allowed_audiences,
    {
        // The issuer can be the base URL or the base URL with a slash at its
        // end, so both are accepted, for the URL and for each alias.
        let base_url = trim_trailing_slashes(url);
        let ghost aliases = text_views(issuer_aliases@);
        let ghost all = both_forms(base_url@) + alias_forms(aliases, aliases.len() as int);
        let mut issuers: Vec<String> = Vec::new();
        proof {
            assert(text_views(issuers@) =~= Seq::empty());
        }
        add_issuer(&mut issuers, base_url.clone(), Ghost(all), Ghost(0));
        add_issuer(&mut issuers, concat2(base_url.as_str(), "/"), Ghost(all), Ghost(1));
        let mut i: usize = 0;
        let ghost mut done: int = 2;
        while i < issuer_aliases.len()
            invariant
                i <= issuer_aliases.len(),
                aliases == text_views(issuer_aliases@),
                all == both_forms(base_url@) + alias_forms(aliases, aliases.len() as int),
                done == 2 + alias_forms(aliases, i as int).len(),
                done <= all.len(),
                both_forms(base_url@) + alias_forms(aliases, i as int) == all.take(done),
                text_views(issuers@) == distinct_prefix(all, done),
            decreases issuer_aliases.len() - i,
        {
            let normalized = trim_trailing_slashes(trim(issuer_aliases[i].as_str()).as_str());
            proof {
                lemma_alias_forms_grow(aliases, i + 1, aliases.len() as int);
                assert(aliases[i as int] == issuer_aliases@[i as int]@);
            }
            if normalized.as_str().unicode_len() != 0 {
                proof {
                    let forms = alias_forms(aliases, i + 1);
                    let total = alias_forms(aliases, aliases.len() as int);
                    assert(forms == alias_forms(aliases, i as int) + both_forms(normalized@));
                    assert(forms.len() == done);
                    assert(total.take(forms.len() as int) == forms);
                    assert(all[done] == total[done - 2]);
                    assert(total[done - 2] == total.take(forms.len() as int)[done - 2]);
                    assert(forms[done - 2] == normalized@);
                    assert(all[done + 1] == total[done - 1]);
                    assert(total[done - 1] == total.take(forms.len() as int)[done - 1]);
                    assert(forms[done - 1] == normalized@ + "/"@);
                    let next = both_forms(base_url@) + forms;
                    assert(next =~= all.take(done + 2));
                }
                add_issuer(&mut issuers, normalized.clone(), Ghost(all), Ghost(done));
                add_issuer(
                    &mut issuers,
                    concat2(normalized.as_str(), "/"),
                    Ghost(all),
                    Ghost(done + 1),
                );
                proof {
                    done = done + 2;
                }
            }
            i += 1;
        }
        proof {
            assert(all.take(done) =~= all) by {
                assert(both_forms(base_url@) + alias_forms(aliases, i as int) == all);
            }
        }
        Oidc { base_url, issuers, allowed_audiences }
    }
}

/// The forms of the first aliases are the beginning of the forms of all.
pub proof fn lemma_alias_forms_grow(aliases: Seq<Seq<char>>, count: int, total: int)
    requires
        0 <= count <= total,
    ensures
        alias_forms(aliases, count).len() <= alias_forms(aliases, total).len(),
        alias_forms(aliases, total).take(alias_forms(aliases, count).len() as int) == alias_forms(
            aliases,
            count,
        ),
    decreases total - count,
{
    if count < total {
        lemma_alias_forms_grow(aliases, count, total - 1);
        let shorter = alias_forms(aliases, total - 1);
        let longer = alias_forms(aliases, total);
        let n = alias_forms(aliases, count).len() as int;
        assert(longer.take(n) =~= shorter.take(n));
    } else {
        assert(alias_forms(aliases, total).take(alias_forms(aliases, count).len() as int)
            =~= alias_forms(aliases, count));
    }
}

/// No issuer is accepted twice, and both forms of the provider's URL are accepted.
pub proof fn lemma_issuers(url: Seq<char>, aliases: Seq<Seq<char>>)
    ensures
        crate::text::distinct(issuers_of(url, aliases)),
        issuers_of(url, aliases).contains(without_trailing_slashes(url)),
        issuers_of(url, aliases).contains(without_trailing_slashes(url) + "/"@),
{
    let candidates = both_forms(without_trailing_slashes(url)) + alias_forms(
        aliases,
        aliases.len() as int,
    );
    lemma_distinct_prefix(candidates, candidates.len() as int);
    assert(candidates[0] == without_trailing_slashes(url));
    assert(candidates[1] == without_trailing_slashes(url) + "/"@);
}

} // verus!
