use json_filtering::classify::{classify_article, filter_articles, Article};
use json_filtering::files::{default_exclusions, is_eligible_file, is_json_file_name, output_file_name};
use json_filtering::matching::find_matches;
use json_filtering::pattern::{compile_company_patterns, compile_politician_patterns, EntityPattern, PatternError, Politician};
use json_filtering::roster::{parse_politician_row, parse_politician_rows};
use json_filtering::text::join_with;

fn politician(given: &str, family: &str) -> Politician {
    Politician { given_name: given.to_string(), family_name: family.to_string() }
}

fn politician_patterns(names: &[(&str, &str)]) -> Vec<EntityPattern> {
    let list: Vec<Politician> = names.iter().map(|(g, f)| politician(g, f)).collect();
    compile_politician_patterns(&list).unwrap()
}

fn company_patterns(names: &[&str]) -> Vec<EntityPattern> {
    let list: Vec<String> = names.iter().map(|c| c.to_string()).collect();
    compile_company_patterns(&list).unwrap()
}

fn article(url: &str, content: &str, date: &str) -> Article {
    Article { url: url.to_string(), content: content.to_string(), date: date.to_string() }
}

#[test]
fn company_pattern_matches_whole_word_only() {
    let companies = company_patterns(&["Acme"]);
    assert_eq!(find_matches("Acme announced a merger.", &companies), vec!["Acme".to_string()]);
    assert!(find_matches("AcmeCorp announced a merger.", &companies).is_empty());
    assert!(find_matches("The NewAcme board met.", &companies).is_empty());
    assert_eq!(find_matches("Shares of (Acme) fell.", &companies), vec!["Acme".to_string()]);
}

#[test]
fn politician_pattern_matches_inside_longer_words() {
    let politicians = politician_patterns(&[("Jane", "Doe")]);
    assert_eq!(find_matches("Jane Doeism is spreading.", &politicians), vec!["Jane Doe".to_string()]);
    assert_eq!(find_matches("MaryJane Doe spoke.", &politicians), vec!["Jane Doe".to_string()]);
    assert!(find_matches("JaneDoeism is spreading.", &politicians).is_empty());
}

#[test]
fn matching_is_case_sensitive() {
    let politicians = politician_patterns(&[("Jane", "Doe")]);
    let companies = company_patterns(&["Acme"]);
    assert!(find_matches("jane doe met ACME.", &politicians).is_empty());
    assert!(find_matches("jane doe met ACME.", &companies).is_empty());
}

#[test]
fn special_characters_match_literally() {
    let politicians = politician_patterns(&[("J.", "Doe")]);
    assert_eq!(find_matches("Then J. Doe said", &politicians), vec!["J. Doe".to_string()]);
    assert!(find_matches("Then JX Doe said", &politicians).is_empty());
    let companies = company_patterns(&["C++ Inc"]);
    assert_eq!(find_matches("Shares of C++ Inc rose", &companies), vec!["C++ Inc".to_string()]);
    assert!(find_matches("Shares of CC Inc rose", &companies).is_empty());
}

#[test]
fn matches_are_a_subset_of_the_names() {
    let politicians = politician_patterns(&[("Jane", "Doe"), ("John", "Roe"), ("Max", "Mustermann")]);
    let found = find_matches("John Roe and Jane Doe argued.", &politicians);
    assert_eq!(found, vec!["Jane Doe".to_string(), "John Roe".to_string()]);
}

#[test]
fn repeated_mentions_are_listed_once() {
    let politicians = politician_patterns(&[("Jane", "Doe"), ("Jane", "Doe")]);
    let companies = company_patterns(&["Acme"]);
    let a = article("u", "Jane Doe met Acme. Later Jane Doe left Acme.", "2024-01-01");
    let r = classify_article(&a, &politicians, &companies).unwrap();
    assert_eq!(r.politicians, "Jane Doe");
    assert_eq!(r.companies, "Acme");
}

#[test]
fn names_are_joined_in_pattern_order() {
    let politicians = politician_patterns(&[("Jane", "Doe"), ("John", "Roe")]);
    let companies = company_patterns(&["Acme", "Globex"]);
    let a = article("u", "Globex hired John Roe; Acme hired Jane Doe.", "d");
    let r = classify_article(&a, &politicians, &companies).unwrap();
    assert_eq!(r.politicians, "Jane Doe, John Roe");
    assert_eq!(r.companies, "Acme, Globex");
}

#[test]
fn article_needs_both_categories() {
    let politicians = politician_patterns(&[("Jane", "Doe")]);
    let companies = company_patterns(&["Acme"]);
    assert!(classify_article(&article("u", "Jane Doe spoke.", "d"), &politicians, &companies).is_none());
    assert!(classify_article(&article("u", "Acme grew.", "d"), &politicians, &companies).is_none());
    assert!(classify_article(&article("u", "Nothing here.", "d"), &politicians, &companies).is_none());
    assert!(classify_article(&article("u", "Jane Doe at Acme.", "d"), &politicians, &companies).is_some());
}

#[test]
fn end_to_end_article_is_kept() {
    let politicians = politician_patterns(&[("Jane", "Doe")]);
    let companies = company_patterns(&["Acme"]);
    let articles = vec![article("u1", "Jane Doe met Acme executives.", "2024-01-01")];
    let results = filter_articles(&articles, &politicians, &companies);
    assert_eq!(results.len(), 1);
    assert_eq!(results[0].url, "u1");
    assert_eq!(results[0].content, "Jane Doe met Acme executives.");
    assert_eq!(results[0].date, "2024-01-01");
    assert_eq!(results[0].politicians, "Jane Doe");
    assert_eq!(results[0].companies, "Acme");
    assert_eq!(output_file_name("news.json", &results), Some("news_filtered.json".to_string()));
}

#[test]
fn end_to_end_article_without_company_writes_nothing() {
    let politicians = politician_patterns(&[("Jane", "Doe")]);
    let companies = company_patterns(&["Acme"]);
    let articles = vec![article("u1", "Jane Doe had lunch.", "2024-01-01")];
    let results = filter_articles(&articles, &politicians, &companies);
    assert!(results.is_empty());
    assert_eq!(output_file_name("news.json", &results), None);
}

#[test]
fn filtering_keeps_article_order() {
    let politicians = politician_patterns(&[("Jane", "Doe")]);
    let companies = company_patterns(&["Acme"]);
    let articles = vec![
        article("a", "Jane Doe at Acme.", "1"),
        article("b", "Jane Doe alone.", "2"),
        article("c", "Acme and Jane Doe again.", "3"),
    ];
    let results = filter_articles(&articles, &politicians, &companies);
    let urls: Vec<&str> = results.iter().map(|r| r.url.as_str()).collect();
    assert_eq!(urls, vec!["a", "c"]);
}

#[test]
fn filtering_twice_gives_the_same_results() {
    let politicians = politician_patterns(&[("Jane", "Doe"), ("John", "Roe")]);
    let companies = company_patterns(&["Acme", "Globex"]);
    let articles = vec![
        article("a", "Jane Doe and John Roe at Globex and Acme.", "1"),
        article("b", "John Roe at Acme.", "2"),
    ];
    let first = filter_articles(&articles, &politicians, &companies);
    let second = filter_articles(&articles, &politicians, &companies);
    assert_eq!(first.len(), second.len());
    for (x, y) in first.iter().zip(second.iter()) {
        assert_eq!(x.url, y.url);
        assert_eq!(x.content, y.content);
        assert_eq!(x.date, y.date);
        assert_eq!(x.politicians, y.politicians);
        assert_eq!(x.companies, y.companies);
    }
}

#[test]
fn excluded_file_name_is_not_read() {
    let exclusions = default_exclusions();
    assert!(!is_eligible_file("spiegel_2024.json", &exclusions));
    assert!(!is_eligible_file("news_filtered.json", &exclusions));
    assert!(is_eligible_file("news_2024.json", &exclusions));
    assert!(!is_eligible_file("news_2024.csv", &exclusions));
    let custom = vec!["news".to_string()];
    assert!(!is_eligible_file("news_2024.json", &custom));
    assert!(is_eligible_file("spiegel_2024.json", &custom));
    assert!(is_eligible_file("spiegel_2024.json", &Vec::new()));
}

#[test]
fn default_exclusions_list_outlets_and_result_marks() {
    let exclusions = default_exclusions();
    assert_eq!(exclusions.len(), 12);
    for token in ["merkur", "rtl", "fr", "tagesschau", "welt", "_filtered", "filtered", "bild", "faz", "focus", "spiegel", "taz"] {
        assert!(exclusions.iter().any(|e| e == token));
    }
}

#[test]
fn json_extension_needs_a_stem() {
    assert!(is_json_file_name("a.json"));
    assert!(!is_json_file_name(".json"));
    assert!(!is_json_file_name("a.jsonl"));
    assert!(!is_json_file_name("a.JSON"));
    assert!(is_json_file_name("ärger.json"));
}

#[test]
fn output_file_name_appends_suffix_to_stem() {
    let politicians = politician_patterns(&[("Jane", "Doe")]);
    let companies = company_patterns(&["Acme"]);
    let results = filter_articles(&vec![article("u", "Jane Doe, Acme", "d")], &politicians, &companies);
    assert_eq!(output_file_name("news.2024.json", &results), Some("news.2024_filtered.json".to_string()));
    assert_eq!(output_file_name("news.txt", &results), None);
}

#[test]
fn empty_company_name_is_refused() {
    let list = vec!["Acme".to_string(), "".to_string(), "".to_string()];
    assert_eq!(compile_company_patterns(&list).err(), Some(PatternError::EmptyName { index: 1 }));
}

#[test]
fn oversized_company_pattern_is_rejected() {
    let list = vec!["Acme".to_string(), "a".repeat(4_000_000)];
    assert_eq!(compile_company_patterns(&list).err(), Some(PatternError::Rejected { index: 1 }));
}

#[test]
fn one_pattern_per_entity() {
    let politicians = politician_patterns(&[("Jane", "Doe"), ("John", "Roe")]);
    assert_eq!(politicians.len(), 2);
    assert_eq!(politicians[0].name(), "Jane Doe");
    assert_eq!(politicians[1].name(), "John Roe");
    let companies = company_patterns(&["Acme", "Globex", "Initech"]);
    assert_eq!(companies.len(), 3);
    assert_eq!(companies[2].name(), "Initech");
    assert!(companies[2].is_match("Initech"));
}

#[test]
fn politician_rows_skip_header_and_short_rows() {
    let lines = vec![
        "id,given,family".to_string(),
        "1, Jane ,Doe ".to_string(),
        "2,Solo".to_string(),
        "3,John,Roe,extra".to_string(),
    ];
    let list = parse_politician_rows(&lines);
    assert_eq!(list.len(), 2);
    assert_eq!(list[0].given_name, "Jane");
    assert_eq!(list[0].family_name, "Doe");
    assert_eq!(list[1].given_name, "John");
    assert_eq!(list[1].family_name, "Roe");
    assert!(parse_politician_rows(&Vec::new()).is_empty());
    assert!(parse_politician_rows(&vec!["1,Jane,Doe".to_string()]).is_empty());
}

#[test]
fn politician_row_keeps_empty_fields() {
    let p = parse_politician_row(",,").unwrap();
    assert_eq!(p.given_name, "");
    assert_eq!(p.family_name, "");
    assert!(parse_politician_row("a,b").is_none());
}

#[test]
fn join_puts_separator_between_names() {
    let items = vec!["a".to_string(), "b".to_string(), "c".to_string()];
    assert_eq!(join_with(&items, ", "), "a, b, c");
    assert_eq!(join_with(&vec!["solo".to_string()], ", "), "solo");
    assert_eq!(join_with(&Vec::new(), ", "), "");
}
