//! Which files of a collection directory are read, and where their results go.

use crate::classify::FilteredResult;
use crate::text::{occurs_in, string_views, text_contains};
use vstd::prelude::*;

verus! {

/// The extension that marks an article collection, with its dot.
pub open spec fn json_extension() -> Seq<char> {
    seq!['.', 'j', 's', 'o', 'n']
}

/// Whether the file name `name` has the extension `json`: it ends in `.json`
/// and something stands before that.
pub open spec fn has_json_extension(name: Seq<char>) -> bool {
    name.len() > 5 && name.subrange(name.len() - 5, name.len() as int) == json_extension()
}

/// The tokens whose presence in a file name keeps the file from being read,
/// unless the caller gives others: outlet names, and the mark of files that
/// hold results already.
pub open spec fn default_exclusion_tokens() -> Seq<Seq<char>> {
    seq![
        "merkur"@,
        "rtl"@,
        "fr"@,
        "tagesschau"@,
        "welt"@,
        "_filtered"@,
        "filtered"@,
        "bild"@,
        "faz"@,
        "focus"@,
        "spiegel"@,
        "taz"@,
    ]
}

/// Whether a file named `name` is read, given the exclusion tokens `exclusions`.
pub open spec fn eligible(name: Seq<char>, exclusions: Seq<Seq<char>>) -> bool {
    has_json_extension(name) && forall|i: int|
        0 <= i < exclusions.len() ==> !occurs_in(name, #[trigger] exclusions[i])
}

/// What is appended to a collection's stem to name its results file.
pub open spec fn filtered_suffix() -> Seq<char> {
    seq!['_', 'f', 'i', 'l', 't', 'e', 'r', 'e', 'd', '.', 'j', 's', 'o', 'n']
}

/// The default exclusion tokens.
pub fn default_exclusions() -> (r: Vec<String>)
    ensures
        string_views(r@) == default_exclusion_tokens(),
{
    let r = vec![
        String::from_str("merkur"),
        String::from_str("rtl"),
        String::from_str("fr"),
        String::from_str("tagesschau"),
        String::from_str("welt"),
        String::from_str("_filtered"),
        String::from_str("filtered"),
        String::from_str("bild"),
        String::from_str("faz"),
        String::from_str("focus"),
        String::from_str("spiegel"),
        String::from_str("taz"),
    ];
    assert(string_views(r@) =~= default_exclusion_tokens());
    r
}

/// Whether the file name `name` has the extension `json`.
pub fn is_json_file_name(name: &str) -> (r: bool)
    ensures
        r == has_json_extension(name@),
{
    let n = name.unicode_len();
    if n <= 5 {
        return false;
    }
    let r = name.get_char(n - 5) == '.' && name.get_char(n - 4) == 'j' && name.get_char(n - 3)
        == 's' && name.get_char(n - 2) == 'o' && name.get_char(n - 1) == 'n';
    let ghost tail = name@.subrange(n - 5, n as int);
    if r {
        assert(tail =~= json_extension());
    } else {
        assert(tail != json_extension()) by {
            if tail == json_extension() {
                assert(tail[0] == name@[n - 5]);
                assert(tail[1] == name@[n - 4]);
                assert(tail[2] == name@[n - 3]);
                assert(tail[3] == name@[n - 2]);
                assert(tail[4] == name@[n - 1]);
            }
        }
    }
    r
}

/// Whether the file named `name` is read: it has the extension `json` and
/// holds none of the tokens `exclusions`.
pub fn is_eligible_file(name: &str, exclusions: &Vec<String>) -> (r: bool)
    ensures
        r == eligible(name@, string_views(exclusions@)),
{
    if !is_json_file_name(name) {
        return false;
    }
    let n = exclusions.len();
    let mut i: usize = 0;
    while i < n
        invariant
            n == exclusions@.len(),
            i <= n,
            forall|j: int| 0 <= j < i ==> !occurs_in(name@, #[trigger] exclusions@[j]@),
        decreases n - i,
    {
        if text_contains(name, exclusions[i].as_str()) {
            assert(string_views(exclusions@)[i as int] == exclusions@[i as int]@);
            return false;
        }
        i = i + 1;
    }
    assert forall|j: int| 0 <= j < string_views(exclusions@).len() implies !occurs_in(
        name@,
        #[trigger] string_views(exclusions@)[j],
    ) by {
        assert(string_views(exclusions@)[j] == exclusions@[j]@);
    }
    true
}

/// The name of the file that receives the results of the collection file
/// `name`: its stem followed by `_filtered.json`. There is none when there
/// are no results, or when `name` does not have the extension `json`.
pub fn output_file_name(name: &str, results: &Vec<FilteredResult>) -> (r: Option<String>)
    ensures
        r is Some <==> results@.len() > 0 && has_json_extension(name@),
        r matches Some(o) ==> o@ == name@.subrange(0, name@.len() - 5) + filtered_suffix(),
{
    if results.len() == 0 || !is_json_file_name(name) {
        return None;
    }
    let n = name.unicode_len();
    let stem = name.substring_char(0, n - 5);
    let mut out = String::from_str(stem);
    out.append("_filtered.json");
    proof {
        reveal_strlit("_filtered.json");
    }
    assert("_filtered.json"@ =~= filtered_suffix());
    Some(out)
}

} // verus!
