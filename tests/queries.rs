use extension_store::queries::{load_plugin_queries, query_categories, QueryFile};

fn file(name: &str, contents: &str) -> QueryFile {
    QueryFile { name: name.to_string(), contents: Some(contents.to_string()) }
}

#[test]
fn queries_are_grouped_by_category() {
    let files = vec![
        file("highlights.scm", "(a)"),
        file("injections.scm", "(b)"),
        file("README.md", "not a query"),
        file("highlights-extra.scm", "(c)"),
        QueryFile { name: "indents.scm".to_string(), contents: None },
        file("unknown.scm", "(d)"),
    ];
    let queries = load_plugin_queries(&files);
    let categories = query_categories();
    assert_eq!(queries.len(), categories.len());
    let by_name = |name: &str| {
        let k = categories.iter().position(|c| *c == name).unwrap();
        queries[k].clone()
    };
    assert_eq!(by_name("highlights"), Some("(a)(c)".to_string()));
    assert_eq!(by_name("injections"), Some("(b)".to_string()));
    assert_eq!(by_name("indents"), None);
    assert_eq!(by_name("brackets"), None);
}

#[test]
fn no_files_no_queries() {
    let queries = load_plugin_queries(&Vec::new());
    assert!(queries.iter().all(|q| q.is_none()));
}
