use abstract_server::contract::{AbstractServer, HtmlFileRoot, SearchfoxIndexRoot};
use abstract_server::errors::{decode_json, ErrorLayer, ServerError};
use abstract_server::fixture::{
    FileEntry, FormattedFileData, LocalIndexPaths, TestFixtureBackend, TextCorpusEntry,
};
use abstract_server::results::FileMatch;

fn pair(a: &str, b: &str) -> (String, String) {
    (a.to_string(), b.to_string())
}

fn make_fixture() -> TestFixtureBackend {
    TestFixtureBackend {
        tree_name: "mozilla-central".to_string(),
        local_paths: Some(LocalIndexPaths {
            index_path: "/index/mc".to_string(),
            config_repo_path: "/config".to_string(),
        }),
        repo_files: vec![
            FileEntry {
                path: "a/b/c.cpp".to_string(),
                is_dir: false,
                concise: vec![pair("kind", "source")],
            },
            FileEntry {
                path: "a/b".to_string(),
                is_dir: true,
                concise: vec![],
            },
            FileEntry {
                path: "a/d.rs".to_string(),
                is_dir: false,
                concise: vec![],
            },
        ],
        objdir_files: vec![FileEntry {
            path: "__GENERATED__/gen.cpp".to_string(),
            is_dir: false,
            concise: vec![],
        }],
        identifiers: vec![
            pair("Food", "T_Food"),
            pair("Fool", "T_Fool"),
            pair("Food::Pizza", "T_FoodPizza"),
            pair("Food.Pizza", "T_FoodPizzaDot"),
            pair("foo", "T_foo"),
        ],
        crossref: vec![
            pair("T_Food", r#"{"uses":[{"path":"a/b/c.cpp","line":3}]}"#),
            pair("T_Broken", "{not json"),
        ],
        crossref_extra: vec![pair(
            "T_Food",
            r#"{"uses":[{"path":"a/b/c.cpp","line":3}],"derived":{"callers":1}}"#,
        )],
        jumpref: vec![pair("T_Food", r#"{"def":"a/b/c.cpp"}"#)],
        sources: vec![pair("a/b/c.cpp", "int main() { return 0; }\n")],
        formatted: vec![(
            "a/b/c.cpp".to_string(),
            FormattedFileData {
                lines: vec!["<b>int</b> main()".to_string(), "line two".to_string()],
                sym_json: r#"{"syms":{}}"#.to_string(),
            },
        )],
        html_files: vec![pair("a/b/c.cpp", "<html>file</html>")],
        html_dirs: vec![pair("a/b", "<html>dir index</html>")],
        html_templates: vec![pair("search.html", "<html>tmpl</html>")],
        text_corpus: vec![
            TextCorpusEntry {
                file: "a/b/c.cpp".to_string(),
                path_kind: "normal".to_string(),
                lines: vec![
                    "abc".to_string(),
                    "no hit here".to_string(),
                    "more abc text".to_string(),
                ],
            },
            TextCorpusEntry {
                file: "a/d.rs".to_string(),
                path_kind: "normal".to_string(),
                lines: vec!["abc again".to_string(), "ABC upper".to_string()],
            },
        ],
        queries: vec![pair("calls-to:main", r#"{"results":[]}"#)],
        analysis: vec![
            (
                "a/b/c.cpp".to_string(),
                vec![
                    r#"{"loc":"1:0","kind":"def"}"#.to_string(),
                    r#"{"loc":"2:4","kind":"use"}"#.to_string(),
                ],
            ),
            ("bad.cpp".to_string(), vec![r#"{"ok":true}"#.to_string(), "{broken".to_string()]),
        ],
    }
}

fn sticky_layer(e: &ServerError) -> Option<&ErrorLayer> {
    match e {
        ServerError::StickyProblem(d) => Some(&d.layer),
        _ => None,
    }
}

#[test]
fn containing_dir_nested_path() {
    let fm = FileMatch { path: "a/b/c.cpp".to_string(), concise: vec![] };
    assert_eq!(fm.get_containing_dir(), "a/b");
}

#[test]
fn containing_dir_bare_file() {
    let fm = FileMatch { path: "c.cpp".to_string(), concise: vec![] };
    assert_eq!(fm.get_containing_dir(), "");
}

#[test]
fn containing_dir_trailing_slash() {
    let fm = FileMatch { path: "a/b/".to_string(), concise: vec![] };
    assert_eq!(fm.get_containing_dir(), "a/b");
}

#[test]
fn tree_info_reports_name() {
    let s = make_fixture();
    let info = s.tree_info().unwrap();
    assert_eq!(info.name, "mozilla-central");
}

#[test]
fn translate_path_is_pure() {
    let s = make_fixture();
    let p1 = s.translate_path(SearchfoxIndexRoot::CompressedAnalysis, "a/b/c.cpp").unwrap();
    let p2 = s.translate_path(SearchfoxIndexRoot::CompressedAnalysis, "a/b/c.cpp").unwrap();
    assert_eq!(p1, p2);
    assert_eq!(p1, "/index/mc/analysis/a/b/c.cpp.gz");
}

#[test]
fn translate_path_roots() {
    let s = make_fixture();
    assert_eq!(
        s.translate_path(SearchfoxIndexRoot::ConfigRepo, "mozilla-config.json").unwrap(),
        "/config/mozilla-config.json"
    );
    assert_eq!(
        s.translate_path(SearchfoxIndexRoot::IndexTemplates, "search.html").unwrap(),
        "/index/mc/templates/search.html"
    );
    assert_eq!(
        s.translate_path(SearchfoxIndexRoot::IndexPages, "settings.html").unwrap(),
        "/index/mc/pages/settings.html"
    );
    assert_eq!(
        s.translate_path(SearchfoxIndexRoot::UncompressedDirectoryListing, "a/b").unwrap(),
        "/index/mc/dir/a/b"
    );
}

#[test]
fn translate_path_unsupported_remotely() {
    let mut s = make_fixture();
    s.local_paths = None;
    let r = s.translate_path(SearchfoxIndexRoot::ConfigRepo, "x");
    assert!(matches!(r, Err(ServerError::Unsupported)));
}

#[test]
fn crossref_miss_is_success_null() {
    let s = make_fixture();
    let v = s.crossref_lookup("T_NoSuchSymbol", false).unwrap();
    assert!(v.is_null());
}

#[test]
fn crossref_hit_decodes_payload() {
    let s = make_fixture();
    let v = s.crossref_lookup("T_Food", false).unwrap();
    assert_eq!(v["uses"][0]["path"], "a/b/c.cpp");
    assert_eq!(v["uses"][0]["line"], 3);
}

#[test]
fn crossref_malformed_blob_is_sticky_data_error() {
    let s = make_fixture();
    let e = s.crossref_lookup("T_Broken", false).unwrap_err();
    assert!(matches!(sticky_layer(&e), Some(ErrorLayer::DataLayer)));
}

#[test]
fn jumpref_hit_and_miss() {
    let s = make_fixture();
    let v = s.jumpref_lookup("T_Food").unwrap();
    assert_eq!(v["def"], "a/b/c.cpp");
    assert!(s.jumpref_lookup("T_Gone").unwrap().is_null());
}

#[test]
fn search_identifiers_prefix_skips_hierarchy() {
    let s = make_fixture();
    let r = s.search_identifiers("Foo", false, false, 100).unwrap();
    let idents: Vec<&str> = r.iter().map(|p| p.0.as_str()).collect();
    assert_eq!(idents, vec!["Food", "Fool"]);
}

#[test]
fn search_identifiers_exact_ignore_case() {
    let s = make_fixture();
    let r = s.search_identifiers("Foo", true, true, 100).unwrap();
    let idents: Vec<&str> = r.iter().map(|p| p.0.as_str()).collect();
    assert_eq!(idents, vec!["foo"]);
}

#[test]
fn search_identifiers_exact_case_sensitive_misses() {
    let s = make_fixture();
    let r = s.search_identifiers("Foo", true, false, 100).unwrap();
    assert!(r.is_empty());
}

#[test]
fn search_identifiers_respects_limit() {
    let s = make_fixture();
    let r = s.search_identifiers("Foo", false, false, 1).unwrap();
    let idents: Vec<&str> = r.iter().map(|p| p.0.as_str()).collect();
    assert_eq!(idents, vec!["Food"]);
    assert!(s.search_identifiers("Foo", false, false, 0).unwrap().is_empty());
}

#[test]
fn search_files_unions_listings() {
    let s = make_fixture();
    let r = s.search_files(r"\.cpp$", false, 100).unwrap();
    let paths: Vec<&str> = r.file_matches.iter().map(|m| m.path.as_str()).collect();
    assert_eq!(paths, vec!["a/b/c.cpp", "__GENERATED__/gen.cpp"]);
}

#[test]
fn search_files_empty_pattern_matches_all_with_limit() {
    let s = make_fixture();
    let r = s.search_files("", false, 100).unwrap();
    let paths: Vec<&str> = r.file_matches.iter().map(|m| m.path.as_str()).collect();
    assert_eq!(paths, vec!["a/b/c.cpp", "a/d.rs", "__GENERATED__/gen.cpp"]);
    let capped = s.search_files("", false, 2).unwrap();
    assert_eq!(capped.file_matches.len(), 2);
}

#[test]
fn search_files_include_dirs() {
    let s = make_fixture();
    let with_dirs = s.search_files("", true, 100).unwrap();
    let paths: Vec<&str> = with_dirs.file_matches.iter().map(|m| m.path.as_str()).collect();
    assert!(paths.contains(&"a/b"));
    let without = s.search_files("", false, 100).unwrap();
    let paths2: Vec<&str> = without.file_matches.iter().map(|m| m.path.as_str()).collect();
    assert!(!paths2.contains(&"a/b"));
}

#[test]
fn search_files_carries_concise_metadata() {
    let s = make_fixture();
    let r = s.search_files(r"c\.cpp", false, 10).unwrap();
    assert_eq!(r.file_matches.len(), 1);
    assert_eq!(r.file_matches[0].concise, vec![pair("kind", "source")]);
}

#[test]
fn search_files_bad_pattern_is_sticky_bad_input() {
    let s = make_fixture();
    let e = s.search_files("(", false, 10).unwrap_err();
    assert!(matches!(sticky_layer(&e), Some(ErrorLayer::BadInput)));
}

#[test]
fn search_text_exact_hits_and_bounds() {
    let s = make_fixture();
    let r = s.search_text("abc", false, "", 100).unwrap();
    assert_eq!(r.by_file.len(), 2);
    let f0 = &r.by_file[0];
    assert_eq!(f0.file, "a/b/c.cpp");
    assert_eq!(f0.path_kind, "normal");
    assert_eq!(f0.matches.len(), 2);
    assert_eq!(f0.matches[0].line_num, 1);
    assert_eq!(f0.matches[0].bounds.start, 0);
    assert_eq!(f0.matches[0].bounds.end_exclusive, 3);
    assert_eq!(f0.matches[0].line_str, "abc");
    assert_eq!(f0.matches[1].line_num, 3);
    assert_eq!(f0.matches[1].bounds.start, 5);
    assert_eq!(f0.matches[1].bounds.end_exclusive, 8);
    let f1 = &r.by_file[1];
    assert_eq!(f1.file, "a/d.rs");
    assert_eq!(f1.matches.len(), 1);
    assert_eq!(f1.matches[0].line_num, 1);
}

#[test]
fn search_text_limit_caps_total_across_files() {
    let s = make_fixture();
    for limit in 0..5 {
        let r = s.search_text("abc", false, "", limit).unwrap();
        let total: usize = r.by_file.iter().map(|f| f.matches.len()).sum();
        assert!(total <= limit);
    }
    let r2 = s.search_text("abc", false, "", 2).unwrap();
    let total2: usize = r2.by_file.iter().map(|f| f.matches.len()).sum();
    assert_eq!(total2, 2);
}

#[test]
fn search_text_fold_case() {
    let s = make_fixture();
    let r = s.search_text("abc", true, "", 100).unwrap();
    let total: usize = r.by_file.iter().map(|f| f.matches.len()).sum();
    assert_eq!(total, 4);
}

#[test]
fn search_text_path_filter() {
    let s = make_fixture();
    let r = s.search_text("abc", false, r"\.rs$", 100).unwrap();
    assert_eq!(r.by_file.len(), 1);
    assert_eq!(r.by_file[0].file, "a/d.rs");
}

#[test]
fn search_text_bad_pattern_is_sticky_bad_input() {
    let s = make_fixture();
    let e = s.search_text("(", false, "", 10).unwrap_err();
    assert!(matches!(sticky_layer(&e), Some(ErrorLayer::BadInput)));
}

#[test]
fn fetch_raw_source_hit_and_miss() {
    let s = make_fixture();
    assert_eq!(s.fetch_raw_source("a/b/c.cpp").unwrap(), "int main() { return 0; }\n");
    let e = s.fetch_raw_source("nope.cpp").unwrap_err();
    assert!(matches!(sticky_layer(&e), Some(ErrorLayer::DataLayer)));
}

#[test]
fn fetch_formatted_lines_hit() {
    let s = make_fixture();
    let (lines, sym) = s.fetch_formatted_lines("a/b/c.cpp").unwrap();
    assert_eq!(lines, vec!["<b>int</b> main()".to_string(), "line two".to_string()]);
    assert_eq!(sym, r#"{"syms":{}}"#);
}

#[test]
fn fetch_html_roots() {
    let s = make_fixture();
    assert_eq!(s.fetch_html(HtmlFileRoot::FormattedFile, "a/b/c.cpp").unwrap(), "<html>file</html>");
    assert_eq!(s.fetch_html(HtmlFileRoot::FormattedDir, "a/b").unwrap(), "<html>dir index</html>");
    assert_eq!(
        s.fetch_html(HtmlFileRoot::FormattedTemplate, "search.html").unwrap(),
        "<html>tmpl</html>"
    );
    let e = s.fetch_html(HtmlFileRoot::FormattedFile, "a/b").unwrap_err();
    assert!(matches!(sticky_layer(&e), Some(ErrorLayer::DataLayer)));
}

#[test]
fn fetch_raw_analysis_decodes_records_in_order() {
    let s = make_fixture();
    let records = s.fetch_raw_analysis("a/b/c.cpp").unwrap();
    assert_eq!(records.len(), 2);
    assert_eq!(records[0]["loc"], "1:0");
    assert_eq!(records[0]["kind"], "def");
    assert_eq!(records[1]["loc"], "2:4");
}

#[test]
fn fetch_raw_analysis_malformed_record_is_sticky_data_error() {
    let s = make_fixture();
    let e = s.fetch_raw_analysis("bad.cpp").unwrap_err();
    assert!(matches!(sticky_layer(&e), Some(ErrorLayer::DataLayer)));
}

#[test]
fn fetch_raw_analysis_missing_file_is_sticky_data_error() {
    let s = make_fixture();
    let e = s.fetch_raw_analysis("absent.cpp").unwrap_err();
    assert!(matches!(sticky_layer(&e), Some(ErrorLayer::DataLayer)));
}

#[test]
fn perform_query_known_and_unknown() {
    let s = make_fixture();
    let v = s.perform_query("calls-to:main").unwrap();
    assert!(v["results"].as_array().unwrap().is_empty());
    let e = s.perform_query("gibberish").unwrap_err();
    assert!(matches!(sticky_layer(&e), Some(ErrorLayer::BadInput)));
}

#[test]
fn clonify_duplicate_answers_identically() {
    let s = make_fixture();
    let d = s.clonify();
    let a = s.search_files(r"\.cpp$", false, 10).unwrap();
    let b = d.search_files(r"\.cpp$", false, 10).unwrap();
    let pa: Vec<&str> = a.file_matches.iter().map(|m| m.path.as_str()).collect();
    let pb: Vec<&str> = b.file_matches.iter().map(|m| m.path.as_str()).collect();
    assert_eq!(pa, pb);
    assert_eq!(
        s.search_identifiers("Foo", false, false, 10).unwrap(),
        d.search_identifiers("Foo", false, false, 10).unwrap()
    );
    assert_eq!(
        s.crossref_lookup("T_Food", false).unwrap(),
        d.crossref_lookup("T_Food", false).unwrap()
    );
    assert_eq!(s.tree_info().unwrap().name, d.tree_info().unwrap().name);
}

#[test]
fn equivalent_instances_agree() {
    let a = make_fixture();
    let b = make_fixture();
    assert_eq!(
        a.search_identifiers("Foo", false, false, 10).unwrap(),
        b.search_identifiers("Foo", false, false, 10).unwrap()
    );
    assert_eq!(
        a.crossref_lookup("T_Food", false).unwrap(),
        b.crossref_lookup("T_Food", false).unwrap()
    );
    let fa = a.search_files("", false, 10).unwrap();
    let fb = b.search_files("", false, 10).unwrap();
    let pa: Vec<&str> = fa.file_matches.iter().map(|m| m.path.as_str()).collect();
    let pb: Vec<&str> = fb.file_matches.iter().map(|m| m.path.as_str()).collect();
    assert_eq!(pa, pb);
}

#[test]
fn crossref_extra_processing_flag_does_not_change_misses() {
    let s = make_fixture();
    assert!(s.crossref_lookup("T_NoSuchSymbol", true).unwrap().is_null());
    assert!(s.crossref_lookup("T_NoSuchSymbol", false).unwrap().is_null());
}

#[test]
fn crossref_extra_processing_serves_derived_data() {
    let s = make_fixture();
    let base = s.crossref_lookup("T_Food", false).unwrap();
    assert!(base.get("derived").is_none());
    let extended = s.crossref_lookup("T_Food", true).unwrap();
    assert_eq!(extended["uses"][0]["line"], 3);
    assert_eq!(extended["derived"]["callers"], 1);
}

#[test]
fn search_text_bounds_are_character_columns() {
    let mut s = make_fixture();
    s.text_corpus.push(TextCorpusEntry {
        file: "u.txt".to_string(),
        path_kind: "normal".to_string(),
        lines: vec!["héllo abc".to_string()],
    });
    let r = s.search_text("abc", false, r"u\.txt", 100).unwrap();
    assert_eq!(r.by_file.len(), 1);
    assert_eq!(r.by_file[0].matches[0].bounds.start, 6);
    assert_eq!(r.by_file[0].matches[0].bounds.end_exclusive, 9);
}

#[test]
fn corpus_within_limits_holds_for_fixture() {
    let s = make_fixture();
    assert!(s.corpus_within_limits());
}

#[test]
fn duplicate_symbol_first_entry_wins() {
    let mut s = make_fixture();
    s.crossref.push(pair("T_Food", r#"{"uses":[]}"#));
    let v = s.crossref_lookup("T_Food", false).unwrap();
    assert_eq!(v["uses"][0]["line"], 3);
}

#[test]
fn decode_json_roundtrips_values() {
    let v = decode_json(r#"{"a":[1,2,3]}"#).unwrap();
    assert_eq!(v["a"][2], 3);
}
