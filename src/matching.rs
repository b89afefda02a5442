//! Scanning a text against a pattern list for the names that occur in it.

use crate::pattern::{pattern_views, regex_matches, EntityPattern, PatternView};
use crate::text::string_views;
use vstd::prelude::*;

verus! {

/// The names of the patterns in `ps` that match `text`, each once, in the
/// order in which their first matching pattern stands.
pub open spec fn matched_names(ps: Seq<PatternView>, text: Seq<char>) -> Seq<Seq<char>>
    decreases ps.len(),
{
    if ps.len() == 0 {
        Seq::empty()
    } else {
        let prev = matched_names(ps.drop_last(), text);
        let p = ps.last();
        if regex_matches(p.source, text) && !prev.contains(p.name) {
            prev.push(p.name)
        } else {
            prev
        }
    }
}

/// A name is among the matches of `text` exactly when a pattern of that name
/// matches `text`: the matches are a subset of the patterns' names.
pub proof fn lemma_matched_names_membership(ps: Seq<PatternView>, text: Seq<char>)
    ensures
        forall|n: Seq<char>|
            #[trigger] matched_names(ps, text).contains(n) <==> exists|i: int|
                0 <= i < ps.len() && ps[i].name == n && regex_matches(ps[i].source, text),
    decreases ps.len(),
{
    if ps.len() > 0 {
        let front = ps.drop_last();
        lemma_matched_names_membership(front, text);
        assert forall|n: Seq<char>|
            #[trigger] matched_names(ps, text).contains(n) <==> exists|i: int|
                0 <= i < ps.len() && ps[i].name == n && regex_matches(ps[i].source, text) by {
            let last = ps.len() - 1;
            if matched_names(ps, text).contains(n) {
                if matched_names(front, text).contains(n) {
                    let i = choose|i: int|
                        0 <= i < front.len() && front[i].name == n && regex_matches(
                            front[i].source,
                            text,
                        );
                    assert(ps[i] == front[i]);
                } else {
                    assert(ps[last].name == n);
                }
            }
            if exists|i: int|
                0 <= i < ps.len() && ps[i].name == n && regex_matches(ps[i].source, text) {
                let i = choose|i: int|
                    0 <= i < ps.len() && ps[i].name == n && regex_matches(ps[i].source, text);
                let prev = matched_names(front, text);
                let all = matched_names(ps, text);
                if i < last {
                    assert(front[i] == ps[i]);
                    assert(prev.contains(n));
                }
                if prev.contains(n) {
                    let k = choose|k: int| 0 <= k < prev.len() && prev[k] == n;
                    assert(all[k] == n);
                } else {
                    assert(all[prev.len() as int] == n);
                }
            }
        }
    }
}

/// No name is listed twice among the matches, however many patterns or
/// positions match it.
pub proof fn lemma_matched_names_distinct(ps: Seq<PatternView>, text: Seq<char>)
    ensures
        matched_names(ps, text).no_duplicates(),
    decreases ps.len(),
{
    if ps.len() > 0 {
        lemma_matched_names_distinct(ps.drop_last(), text);
    }
}

/// Whether `name` is one of `names`.
fn contains_name(names: &Vec<String>, name: &String) -> (r: bool)
    ensures
        r == string_views(names@).contains(name@),
{
    let n = names.len();
    let mut i: usize = 0;
    while i < n
        invariant
            n == names@.len(),
            i <= n,
            forall|j: int| 0 <= j < i ==> names@[j]@ != name@,
        decreases n - i,
    {
        if names[i] == *name {
            assert(string_views(names@)[i as int] == name@);
            return true;
        }
        i = i + 1;
    }
    proof {
        if string_views(names@).contains(name@) {
            let j = choose|j: int| 0 <= j < n && string_views(names@)[j] == name@;
            assert(names@[j]@ == name@);
        }
    }
    false
}

/// The distinct names of the patterns that match `content`, in pattern order.
/// Every pattern is tried.
pub fn find_matches(content: &str, patterns: &Vec<EntityPattern>) -> (r: Vec<String>)
    ensures
        string_views(r@) == matched_names(pattern_views(patterns@), content@),
{
    let ghost ps = pattern_views(patterns@);
    let mut found: Vec<String> = Vec::new();
    let n = patterns.len();
    let mut i: usize = 0;
    assert(string_views(found@) =~= matched_names(ps.take(0), content@));
    while i < n
        invariant
            n == patterns@.len(),
            ps == pattern_views(patterns@),
            i <= n,
            string_views(found@) == matched_names(ps.take(i as int), content@),
        decreases n - i,
    {
        let p = &patterns[i];
        assert(ps.take(i + 1).drop_last() =~= ps.take(i as int));
        assert(ps.take(i + 1).last() == p@);
        if p.is_match(content) {
            let name = p.name();
            if !contains_name(&found, name) {
                let ghost before = found@;
                found.push(name.clone());
                assert(string_views(found@) =~= string_views(before).push(name@));
            }
        }
        i = i + 1;
    }
    assert(ps.take(n as int) =~= ps);
    found
}

} // verus!
