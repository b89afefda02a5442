//! Entity names compiled into matchers: politicians as literal substrings,
//! companies as whole words.

use regex::Regex;
use crate::text::string_views;
use vstd::prelude::*;

verus! {

#[verifier::external_type_specification]
#[verifier::external_body]
pub struct ExRegex(Regex);

#[verifier::external_type_specification]
#[verifier::external_body]
pub struct ExRegexError(regex::Error);

/// The characters that have a meaning of their own in a pattern.
pub open spec fn is_meta(c: char) -> bool {
    c == '\\' || c == '.' || c == '+' || c == '*' || c == '?' || c == '(' || c == ')' || c
        == '|' || c == '[' || c == ']' || c == '{' || c == '}' || c == '^' || c == '$' || c
        == '#' || c == '&' || c == '-' || c == '~'
}

/// `s` as a pattern that matches `s` literally: each meta character gets a
/// backslash in front of it.
pub open spec fn escaped(s: Seq<char>) -> Seq<char>
    decreases s.len(),
{
    if s.len() == 0 {
        Seq::empty()
    } else {
        let head = if is_meta(s[0]) {
            seq!['\\', s[0]]
        } else {
            seq![s[0]]
        };
        head + escaped(s.drop_first())
    }
}

/// The word-boundary assertion of the pattern language.
pub open spec fn word_boundary() -> Seq<char> {
    seq!['\\', 'b']
}

/// The pattern of a politician's name: the name itself, anywhere in a text,
/// also inside a longer word. Unlike a company's pattern it has no word
/// boundaries; neither kind folds case.
pub open spec fn literal_source(name: Seq<char>) -> Seq<char> {
    escaped(name)
}

/// The pattern of a company's name: the name as a whole word.
pub open spec fn bounded_source(name: Seq<char>) -> Seq<char> {
    word_boundary() + escaped(name) + word_boundary()
}

/// Whether the pattern language accepts `pattern`.
pub uninterp spec fn regex_accepts(pattern: Seq<char>) -> bool;

/// Whether `pattern` matches somewhere in `text`.
pub uninterp spec fn regex_matches(pattern: Seq<char>, text: Seq<char>) -> bool;

/// Relies on `regex::escape`: a backslash before each meta character, every
/// other character kept as it is.
#[verifier::external_body]
fn escape_literal(s: &str) -> (r: String)
    ensures
        r@ == escaped(s@),
{
    regex::escape(s)
}

/// A compiled pattern together with the text it was compiled from.
pub struct CompiledRegex {
    source: String,
    regex: Regex,
}

impl CompiledRegex {
    /// The text the pattern was compiled from.
    pub closed spec fn source(&self) -> Seq<char> {
        self.source@
    }
}

/// Relies on `regex::Regex::new`: whether a pattern is accepted depends on its
/// text alone. The text is kept beside the compiled pattern.
#[verifier::external_body]
fn compile_regex(source: String) -> (r: Result<CompiledRegex, regex::Error>)
    ensures
        r is Ok <==> regex_accepts(source@),
        r matches Ok(c) ==> c.source() == source@,
{
    match Regex::new(&source) {
        Ok(regex) => Ok(CompiledRegex { source, regex }),
        Err(e) => Err(e),
    }
}

/// Relies on `regex::Regex::is_match`: whether the pattern matches somewhere in `text`.
#[verifier::external_body]
fn regex_is_match(c: &CompiledRegex, text: &str) -> (r: bool)
    ensures
        r == regex_matches(c.source(), text@),
{
    c.regex.is_match(text)
}

/// A politician as listed: given name and family name.
pub struct Politician {
    pub given_name: String,
    pub family_name: String,
}

/// The name a politician is matched and shown by: given name, a space, family name.
pub open spec fn full_name(given: Seq<char>, family: Seq<char>) -> Seq<char> {
    given + seq![' '] + family
}

/// What a pattern is, seen from outside: the name it is shown by and its text.
pub struct PatternView {
    pub name: Seq<char>,
    pub source: Seq<char>,
}

/// One entity's matcher.
pub struct EntityPattern {
    name: String,
    regex: CompiledRegex,
}

impl View for EntityPattern {
    type V = PatternView;

    closed spec fn view(&self) -> PatternView {
        PatternView { name: self.name@, source: self.regex.source() }
    }
}

impl EntityPattern {
    /// The name this pattern is shown by.
    pub fn name(&self) -> (r: &String)
        ensures
            r@ == self@.name,
    {
        &self.name
    }

    /// Whether the pattern matches somewhere in `text`.
    pub fn is_match(&self, text: &str) -> (r: bool)
        ensures
            r == regex_matches(self@.source, text@),
    {
        regex_is_match(&self.regex, text)
    }
}

/// The view of each pattern in `ps`, in order.
pub open spec fn pattern_views(ps: Seq<EntityPattern>) -> Seq<PatternView> {
    ps.map_values(|p: EntityPattern| p@)
}

/// Why an entity list could not be compiled; `index` is the entity's position.
#[derive(Debug, PartialEq, Eq, Structural)]
pub enum PatternError {
    /// The entity's name is empty.
    EmptyName { index: usize },
    /// The pattern language refused the entity's pattern.
    Rejected { index: usize },
}

/// Whether an entity named `name`, with pattern `source`, compiles.
pub open spec fn entity_compiles(name: Seq<char>, source: Seq<char>) -> bool {
    name.len() > 0 && regex_accepts(source)
}

/// The error for the entity at `index`, named `name`, with pattern `source`,
/// when it does not compile.
pub open spec fn entity_error(index: int, name: Seq<char>, source: Seq<char>) -> PatternError {
    if name.len() == 0 {
        PatternError::EmptyName { index: index as usize }
    } else {
        PatternError::Rejected { index: index as usize }
    }
}

/// What compiling the entities `names`, with their patterns `sources`, gives:
/// the patterns in order, or the error of the first entity that does not compile.
pub open spec fn compiled_entities(names: Seq<Seq<char>>, sources: Seq<Seq<char>>) -> Result<
    Seq<PatternView>,
    PatternError,
>
    decreases names.len(),
{
    if names.len() == 0 {
        Ok(Seq::empty())
    } else {
        let n = (names.len() - 1) as int;
        match compiled_entities(names.drop_last(), sources.drop_last()) {
            Err(e) => Err(e),
            Ok(ps) => if entity_compiles(names[n], sources[n]) {
                Ok(ps.push(PatternView { name: names[n], source: sources[n] }))
            } else {
                Err(entity_error(n, names[n], sources[n]))
            },
        }
    }
}

fn compile_entity(name: &String, source: String, index: usize) -> (r: Result<
    EntityPattern,
    PatternError,
>)
    ensures
        r is Ok <==> entity_compiles(name@, source@),
        r matches Ok(p) ==> p@ == (PatternView { name: name@, source: source@ }),
        r matches Err(e) ==> e == entity_error(index as int, name@, source@),
{
    if name.as_str().is_empty() {
        return Err(PatternError::EmptyName { index });
    }
    match compile_regex(source) {
        Ok(regex) => Ok(EntityPattern { name: name.clone(), regex }),
        Err(_) => Err(PatternError::Rejected { index }),
    }
}

/// Once compiling a prefix of the entities has failed, every longer prefix
/// fails with the same error.
proof fn lemma_error_persists(names: Seq<Seq<char>>, sources: Seq<Seq<char>>, k: int, m: int)
    requires
        0 <= k <= m <= names.len(),
        names.len() == sources.len(),
        compiled_entities(names.take(k), sources.take(k)) is Err,
    ensures
        compiled_entities(names.take(m), sources.take(m)) == compiled_entities(
            names.take(k),
            sources.take(k),
        ),
    decreases m - k,
{
    if m > k {
        lemma_error_persists(names, sources, k, m - 1);
        assert(names.take(m).drop_last() =~= names.take(m - 1));
        assert(sources.take(m).drop_last() =~= sources.take(m - 1));
    }
}

/// Compiling entities succeeds exactly when each of them compiles, and then
/// gives one pattern per entity, in order.
pub proof fn lemma_compiled_entities(names: Seq<Seq<char>>, sources: Seq<Seq<char>>)
    requires
        names.len() == sources.len(),
    ensures
        compiled_entities(names, sources) is Ok <==> forall|i: int|
            0 <= i < names.len() ==> #[trigger] entity_compiles(names[i], sources[i]),
        compiled_entities(names, sources) matches Ok(ps) ==> {
            &&& ps.len() == names.len()
            &&& forall|i: int|
                0 <= i < names.len() ==> #[trigger] ps[i] == (PatternView {
                    name: names[i],
                    source: sources[i],
                })
        },
    decreases names.len(),
{
    if names.len() > 0 {
        let n = names.len() - 1;
        lemma_compiled_entities(names.drop_last(), sources.drop_last());
        if compiled_entities(names, sources) is Ok {
            assert forall|i: int| 0 <= i < names.len() implies #[trigger] entity_compiles(
                names[i],
                sources[i],
            ) by {
                if i < n {
                    assert(entity_compiles(names.drop_last()[i], sources.drop_last()[i]));
                }
            }
        } else if compiled_entities(names.drop_last(), sources.drop_last()) is Err {
            let i = choose|i: int|
                0 <= i < names.drop_last().len() && !#[trigger] entity_compiles(
                    names.drop_last()[i],
                    sources.drop_last()[i],
                );
            assert(!entity_compiles(names[i], sources[i]));
        } else {
            assert(!entity_compiles(names[n], sources[n]));
        }
    }
}

/// Compiles the entities `names` with their patterns `sources`, in order.
fn compile_all(names: &Vec<String>, sources: &Vec<String>) -> (r: Result<
    Vec<EntityPattern>,
    PatternError,
>)
    requires
        names@.len() == sources@.len(),
    ensures
        r is Ok <==> compiled_entities(string_views(names@), string_views(sources@)) is Ok,
        r matches Ok(ps) ==> compiled_entities(string_views(names@), string_views(sources@))
            == Ok::<Seq<PatternView>, PatternError>(pattern_views(ps@)),
        r matches Err(e) ==> compiled_entities(string_views(names@), string_views(sources@))
            == Err::<Seq<PatternView>, PatternError>(e),
{
    let ghost ns = string_views(names@);
    let ghost ss = string_views(sources@);
    let mut out: Vec<EntityPattern> = Vec::new();
    let n = names.len();
    let mut i: usize = 0;
    assert(ns.take(0) =~= Seq::<Seq<char>>::empty());
    assert(ss.take(0) =~= Seq::<Seq<char>>::empty());
    assert(pattern_views(out@) =~= Seq::<PatternView>::empty());
    while i < n
        invariant
            n == names@.len(),
            n == sources@.len(),
            ns == string_views(names@),
            ss == string_views(sources@),
            i <= n,
            compiled_entities(ns.take(i as int), ss.take(i as int)) == Ok::<
                Seq<PatternView>,
                PatternError,
            >(pattern_views(out@)),
        decreases n - i,
    {
        assert(ns.take(i + 1).drop_last() =~= ns.take(i as int));
        assert(ss.take(i + 1).drop_last() =~= ss.take(i as int));
        assert(ns.take(i + 1)[i as int] == names@[i as int]@);
        assert(ss.take(i + 1)[i as int] == sources@[i as int]@);
        match compile_entity(&names[i], sources[i].clone(), i) {
            Ok(p) => {
                let ghost before = out@;
                out.push(p);
                assert(pattern_views(out@) =~= pattern_views(before).push(p@));
            },
            Err(e) => {
                proof {
                    lemma_error_persists(ns, ss, i + 1, n as int);
                    assert(ns.take(n as int) =~= ns);
                    assert(ss.take(n as int) =~= ss);
                }
                return Err(e);
            },
        }
        i = i + 1;
    }
    assert(ns.take(n as int) =~= ns);
    assert(ss.take(n as int) =~= ss);
    Ok(out)
}

/// The patterns of a compile result, or its error.
pub open spec fn compile_result_view(r: Result<Vec<EntityPattern>, PatternError>) -> Result<
    Seq<PatternView>,
    PatternError,
> {
    match r {
        Ok(ps) => Ok(pattern_views(ps@)),
        Err(e) => Err(e),
    }
}

/// The full names of `ps`, in order.
pub open spec fn politician_names(ps: Seq<Politician>) -> Seq<Seq<char>> {
    ps.map_values(|p: Politician| full_name(p.given_name@, p.family_name@))
}

/// What compiling the politicians `ps` gives: each full name as a literal pattern.
pub open spec fn compiled_politicians(ps: Seq<Politician>) -> Result<Seq<PatternView>, PatternError> {
    let names = politician_names(ps);
    compiled_entities(names, names.map_values(|n: Seq<char>| literal_source(n)))
}

/// What compiling the companies `cs` gives: each name as a whole-word pattern.
pub open spec fn compiled_companies(cs: Seq<Seq<char>>) -> Result<Seq<PatternView>, PatternError> {
    compiled_entities(cs, cs.map_values(|n: Seq<char>| bounded_source(n)))
}

/// Compiles one literal pattern per politician, in order; fails on the first
/// politician whose pattern does not compile.
pub fn compile_politician_patterns(politicians: &Vec<Politician>) -> (r: Result<
    Vec<EntityPattern>,
    PatternError,
>)
    ensures
        compile_result_view(r) == compiled_politicians(politicians@),
{
    let mut names: Vec<String> = Vec::new();
    let mut sources: Vec<String> = Vec::new();
    let n = politicians.len();
    let mut i: usize = 0;
    while i < n
        invariant
            n == politicians@.len(),
            i <= n,
            string_views(names@) =~= politician_names(politicians@).take(i as int),
            string_views(sources@) =~= politician_names(politicians@).take(i as int).map_values(
                |m: Seq<char>| literal_source(m),
            ),
        decreases n - i,
    {
        let p = &politicians[i];
        let mut name = p.given_name.clone();
        name.append(" ");
        name.append(p.family_name.as_str());
        let source = escape_literal(name.as_str());
        proof {
            reveal_strlit(" ");
        }
        assert(" "@ =~= seq![' ']);
        assert(name@ == full_name(p.given_name@, p.family_name@));
        let ghost old_names = names@;
        let ghost old_sources = sources@;
        names.push(name);
        sources.push(source);
        proof {
            let all = politician_names(politicians@);
            assert(all.take(i + 1) =~= all.take(i as int).push(name@));
            assert(string_views(names@) =~= string_views(old_names).push(name@));
            assert(string_views(sources@) =~= string_views(old_sources).push(source@));
            assert(all.take(i + 1).map_values(|m: Seq<char>| literal_source(m)) =~= all.take(
                i as int,
            ).map_values(|m: Seq<char>| literal_source(m)).push(source@));
        }
        i = i + 1;
    }
    let ghost all = politician_names(politicians@);
    assert(all.take(n as int) =~= all);
    compile_all(&names, &sources)
}

/// Compiles one whole-word pattern per company, in order; fails on the first
/// company whose name is empty or whose pattern does not compile.
pub fn compile_company_patterns(companies: &Vec<String>) -> (r: Result<
    Vec<EntityPattern>,
    PatternError,
>)
    ensures
        compile_result_view(r) == compiled_companies(string_views(companies@)),
{
    let ghost cs = string_views(companies@);
    let mut sources: Vec<String> = Vec::new();
    let n = companies.len();
    let mut i: usize = 0;
    while i < n
        invariant
            n == companies@.len(),
            cs == string_views(companies@),
            i <= n,
            string_views(sources@) =~= cs.take(i as int).map_values(
                |m: Seq<char>| bounded_source(m),
            ),
        decreases n - i,
    {
        let escaped_name = escape_literal(companies[i].as_str());
        let mut source = String::from_str("\\b");
        source.append(escaped_name.as_str());
        source.append("\\b");
        proof {
            reveal_strlit("\\b");
        }
        assert("\\b"@ =~= word_boundary());
        assert(source@ == bounded_source(cs[i as int]));
        let ghost old_sources = sources@;
        sources.push(source);
        proof {
            assert(cs.take(i + 1) =~= cs.take(i as int).push(cs[i as int]));
            assert(string_views(sources@) =~= string_views(old_sources).push(source@));
            assert(cs.take(i + 1).map_values(|m: Seq<char>| bounded_source(m)) =~= cs.take(
                i as int,
            ).map_values(|m: Seq<char>| bounded_source(m)).push(source@));
        }
        i = i + 1;
    }
    assert(cs.take(n as int) =~= cs);
    compile_all(companies, &sources)
}

} // verus!
