//! The politician list: a header row, then one politician per comma-separated
//! row, given name in the second column and family name in the third.

use crate::pattern::Politician;
use crate::text::{comma_fields, split_commas, string_views, trim_text, trimmed};
use vstd::prelude::*;

verus! {

/// A politician's given and family name.
pub open spec fn politician_view(p: Politician) -> (Seq<char>, Seq<char>) {
    (p.given_name@, p.family_name@)
}

/// The politician of the row `line`: its second and third field, trimmed;
/// none when the row has fewer than three fields.
pub open spec fn row_politician(line: Seq<char>) -> Option<(Seq<char>, Seq<char>)> {
    let f = comma_fields(line);
    if f.len() > 2 {
        Some((trimmed(f[1]), trimmed(f[2])))
    } else {
        None
    }
}

/// The politicians of the rows `rows`, in order, rows without one skipped.
pub open spec fn politicians_of_rows(rows: Seq<Seq<char>>) -> Seq<(Seq<char>, Seq<char>)>
    decreases rows.len(),
{
    if rows.len() == 0 {
        Seq::empty()
    } else {
        let prev = politicians_of_rows(rows.drop_last());
        match row_politician(rows.last()) {
            Some(p) => prev.push(p),
            None => prev,
        }
    }
}

/// The rows of `lines` after the header.
pub open spec fn data_rows(lines: Seq<Seq<char>>) -> Seq<Seq<char>> {
    if lines.len() == 0 {
        lines
    } else {
        lines.drop_first()
    }
}

/// The politician of one row, if it has at least three fields.
pub fn parse_politician_row(line: &str) -> (r: Option<Politician>)
    ensures
        r is Some <==> row_politician(line@) is Some,
        r matches Some(p) ==> Some(politician_view(p)) == row_politician(line@),
{
    let fields = split_commas(line);
    if fields.len() <= 2 {
        return None;
    }
    assert(string_views(fields@)[1] == fields@[1]@);
    assert(string_views(fields@)[2] == fields@[2]@);
    let given_name = trim_text(fields[1].as_str());
    let family_name = trim_text(fields[2].as_str());
    Some(Politician { given_name, family_name })
}

/// The politicians listed in `lines`, the first of which is a header and is
/// skipped; rows with fewer than three fields are skipped too.
pub fn parse_politician_rows(lines: &Vec<String>) -> (r: Vec<Politician>)
    ensures
        r@.map_values(|p: Politician| politician_view(p)) == politicians_of_rows(
            data_rows(string_views(lines@)),
        ),
{
    let ghost rows = string_views(lines@);
    let mut out: Vec<Politician> = Vec::new();
    let n = lines.len();
    if n == 0 {
        assert(out@.map_values(|p: Politician| politician_view(p)) =~= Seq::empty());
        return out;
    }
    let mut i: usize = 1;
    assert(out@.map_values(|p: Politician| politician_view(p)) =~= politicians_of_rows(
        rows.subrange(1, 1),
    ));
    while i < n
        invariant
            n == lines@.len(),
            rows == string_views(lines@),
            1 <= i <= n,
            out@.map_values(|p: Politician| politician_view(p)) == politicians_of_rows(
                rows.subrange(1, i as int),
            ),
        decreases n - i,
    {
        assert(rows.subrange(1, i + 1).drop_last() =~= rows.subrange(1, i as int));
        assert(rows.subrange(1, i + 1).last() == lines@[i as int]@);
        match parse_politician_row(lines[i].as_str()) {
            Some(p) => {
                let ghost before = out@;
                out.push(p);
                assert(out@.map_values(|p: Politician| politician_view(p)) =~= before.map_values(
                    |p: Politician| politician_view(p),
                ).push(politician_view(p)));
            },
            None => {},
        }
        i = i + 1;
    }
    assert(rows.subrange(1, n as int) =~= data_rows(rows));
    out
}

} // verus!
