//! Deciding, article by article, which articles are kept and with which names.

use crate::matching::{find_matches, matched_names};
use crate::pattern::{pattern_views, EntityPattern, PatternView};
use crate::text::{join_with, joined};
use vstd::prelude::*;

verus! {

/// An article of a collection. The date is carried through as it is.
pub struct Article {
    pub url: String,
    pub content: String,
    pub date: String,
}

/// An article that mentions at least one politician and one company, with
/// the names it mentions.
pub struct FilteredResult {
    pub url: String,
    pub content: String,
    pub date: String,
    pub politicians: String,
    pub companies: String,
}

pub struct ArticleView {
    pub url: Seq<char>,
    pub content: Seq<char>,
    pub date: Seq<char>,
}

pub struct FilteredView {
    pub url: Seq<char>,
    pub content: Seq<char>,
    pub date: Seq<char>,
    pub politicians: Seq<char>,
    pub companies: Seq<char>,
}

impl View for Article {
    type V = ArticleView;

    open spec fn view(&self) -> ArticleView {
        ArticleView { url: self.url@, content: self.content@, date: self.date@ }
    }
}

impl View for FilteredResult {
    type V = FilteredView;

    open spec fn view(&self) -> FilteredView {
        FilteredView {
            url: self.url@,
            content: self.content@,
            date: self.date@,
            politicians: self.politicians@,
            companies: self.companies@,
        }
    }
}

/// What separates the names in a result.
pub open spec fn name_separator() -> Seq<char> {
    seq![',', ' ']
}

/// The result for article `a`: kept exactly when both politician and company
/// patterns find a name in its content.
pub open spec fn classified(
    a: ArticleView,
    politicians: Seq<PatternView>,
    companies: Seq<PatternView>,
) -> Option<FilteredView> {
    let p = matched_names(politicians, a.content);
    let c = matched_names(companies, a.content);
    if p.len() > 0 && c.len() > 0 {
        Some(
            FilteredView {
                url: a.url,
                content: a.content,
                date: a.date,
                politicians: joined(p, name_separator()),
                companies: joined(c, name_separator()),
            },
        )
    } else {
        None
    }
}

/// The results for the articles `articles` that are kept, in article order.
pub open spec fn filtered(
    articles: Seq<ArticleView>,
    politicians: Seq<PatternView>,
    companies: Seq<PatternView>,
) -> Seq<FilteredView>
    decreases articles.len(),
{
    if articles.len() == 0 {
        Seq::empty()
    } else {
        let prev = filtered(articles.drop_last(), politicians, companies);
        match classified(articles.last(), politicians, companies) {
            Some(f) => prev.push(f),
            None => prev,
        }
    }
}

/// The view of each article in `v`, in order.
pub open spec fn article_views(v: Seq<Article>) -> Seq<ArticleView> {
    v.map_values(|a: Article| a@)
}

/// The view of each result in `v`, in order.
pub open spec fn result_views(v: Seq<FilteredResult>) -> Seq<FilteredView> {
    v.map_values(|f: FilteredResult| f@)
}

/// An article is kept exactly when it names a politician and a company: one
/// that names only politicians, or only companies, is dropped.
pub proof fn lemma_kept_iff_both_categories(
    a: ArticleView,
    politicians: Seq<PatternView>,
    companies: Seq<PatternView>,
)
    ensures
        classified(a, politicians, companies) is Some <==> (exists|n: Seq<char>|
            #[trigger] matched_names(politicians, a.content).contains(n)) && (exists|
            n: Seq<char>,
        | #[trigger] matched_names(companies, a.content).contains(n)),
{
    let p = matched_names(politicians, a.content);
    let c = matched_names(companies, a.content);
    if p.len() > 0 {
        assert(p.contains(p[0]));
    }
    if c.len() > 0 {
        assert(c.contains(c[0]));
    }
}

/// Filtering is a function of the articles and the patterns alone: the same
/// inputs, filtered twice, give the same results.
pub proof fn lemma_filtering_deterministic(
    a1: Seq<ArticleView>,
    a2: Seq<ArticleView>,
    politicians1: Seq<PatternView>,
    politicians2: Seq<PatternView>,
    companies1: Seq<PatternView>,
    companies2: Seq<PatternView>,
)
    requires
        a1 == a2,
        politicians1 == politicians2,
        companies1 == companies2,
    ensures
        filtered(a1, politicians1, companies1) == filtered(a2, politicians2, companies2),
{
}

/// The result for `article`: `Some` exactly when its content names at least
/// one politician and at least one company; then the article's fields with
/// the distinct names found, joined by `", "`.
pub fn classify_article(
    article: &Article,
    politicians: &Vec<EntityPattern>,
    companies: &Vec<EntityPattern>,
) -> (r: Option<FilteredResult>)
    ensures
        r is Some <==> classified(
            article@,
            pattern_views(politicians@),
            pattern_views(companies@),
        ) is Some,
        r matches Some(f) ==> Some(f@) == classified(
            article@,
            pattern_views(politicians@),
            pattern_views(companies@),
        ),
{
    let found_politicians = find_matches(article.content.as_str(), politicians);
    let found_companies = find_matches(article.content.as_str(), companies);
    if found_politicians.len() == 0 || found_companies.len() == 0 {
        return None;
    }
    proof {
        reveal_strlit(", ");
    }
    assert(", "@ =~= name_separator());
    let politician_names = join_with(&found_politicians, ", ");
    let company_names = join_with(&found_companies, ", ");
    Some(
        FilteredResult {
            url: article.url.clone(),
            content: article.content.clone(),
            date: article.date.clone(),
            politicians: politician_names,
            companies: company_names,
        },
    )
}

/// The results for the articles that are kept, in article order.
pub fn filter_articles(
    articles: &Vec<Article>,
    politicians: &Vec<EntityPattern>,
    companies: &Vec<EntityPattern>,
) -> (r: Vec<FilteredResult>)
    ensures
        result_views(r@) == filtered(
            article_views(articles@),
            pattern_views(politicians@),
            pattern_views(companies@),
        ),
{
    let ghost avs = article_views(articles@);
    let ghost pv = pattern_views(politicians@);
    let ghost cv = pattern_views(companies@);
    let mut out: Vec<FilteredResult> = Vec::new();
    let n = articles.len();
    let mut i: usize = 0;
    assert(result_views(out@) =~= filtered(avs.take(0), pv, cv));
    while i < n
        invariant
            n == articles@.len(),
            avs == article_views(articles@),
            pv == pattern_views(politicians@),
            cv == pattern_views(companies@),
            i <= n,
            result_views(out@) == filtered(avs.take(i as int), pv, cv),
        decreases n - i,
    {
        assert(avs.take(i + 1).drop_last() =~= avs.take(i as int));
        assert(avs.take(i + 1).last() == articles@[i as int]@);
        match classify_article(&articles[i], politicians, companies) {
            Some(f) => {
                let ghost before = out@;
                out.push(f);
                assert(result_views(out@) =~= result_views(before).push(f@));
            },
            None => {},
        }
        i = i + 1;
    }
    assert(avs.take(n as int) =~= avs);
    out
}

} // verus!
