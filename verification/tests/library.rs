use es2csv_rs::args::{resolve_arguments, Invocation};
use es2csv_rs::errors::{flag_text, EsError, RequiredFlag};
use es2csv_rs::output::{decimal_string, materialize, render_console, Materialized};
use es2csv_rs::query::{prepare_search, SEARCH_FROM, SEARCH_SIZE};

fn full_invocation(output: Option<&str>) -> Invocation {
    resolve_arguments(
        Some("http://localhost:9200".to_string()),
        Some("tweets_2020_05_*".to_string()),
        Some("{ \"query\": { \"match_all\": {} } }".to_string()),
        output.map(|s| s.to_string()),
    )
    .expect("all required flags were supplied")
}

#[test]
fn resolve_all_flags_present() {
    let inv = full_invocation(Some("some.csv"));
    assert_eq!(inv.url, "http://localhost:9200");
    assert_eq!(inv.index, "tweets_2020_05_*");
    assert_eq!(inv.query, "{ \"query\": { \"match_all\": {} } }");
    assert_eq!(inv.output, Some("some.csv".to_string()));
}

#[test]
fn resolve_output_is_optional() {
    let inv = full_invocation(None);
    assert_eq!(inv.output, None);
}

#[test]
fn resolve_missing_url_exits_one() {
    let r = resolve_arguments(
        None,
        Some("idx".to_string()),
        Some("{}".to_string()),
        None,
    );
    match r {
        Err(e) => {
            assert!(matches!(
                e,
                EsError::MissingArgument {
                    flag: RequiredFlag::Url
                }
            ));
            assert_eq!(e.exit_code(), 1);
        }
        Ok(_) => panic!("a missing -u flag must be rejected"),
    }
}

#[test]
fn resolve_missing_index_exits_one() {
    let r = resolve_arguments(
        Some("http://localhost:9200".to_string()),
        None,
        Some("{}".to_string()),
        None,
    );
    match r {
        Err(e) => {
            assert!(matches!(
                e,
                EsError::MissingArgument {
                    flag: RequiredFlag::Index
                }
            ));
            assert_eq!(e.exit_code(), 1);
        }
        Ok(_) => panic!("a missing -i flag must be rejected"),
    }
}

#[test]
fn resolve_missing_query_exits_one() {
    let r = resolve_arguments(
        Some("http://localhost:9200".to_string()),
        Some("idx".to_string()),
        None,
        None,
    );
    match r {
        Err(e) => {
            assert!(matches!(
                e,
                EsError::MissingArgument {
                    flag: RequiredFlag::Query
                }
            ));
            assert_eq!(e.exit_code(), 1);
        }
        Ok(_) => panic!("a missing -q flag must be rejected"),
    }
}

#[test]
fn resolve_reports_first_missing_flag() {
    let r = resolve_arguments(None, None, None, None);
    match r {
        Err(EsError::MissingArgument { flag }) => assert_eq!(flag, RequiredFlag::Url),
        _ => panic!("every required flag is missing, the first must be reported"),
    }
}

#[test]
fn prepare_search_carries_index_and_query() {
    let inv = full_invocation(None);
    let req = prepare_search(&inv).expect("the query is well-formed JSON");
    assert_eq!(req.index, "tweets_2020_05_*");
    assert_eq!(req.query, "{ \"query\": { \"match_all\": {} } }");
    assert_eq!(req.from, SEARCH_FROM);
    assert_eq!(req.size, SEARCH_SIZE);
    assert_eq!(req.from, 0);
    assert_eq!(req.size, 10);
    let expected: serde_json::Value =
        serde_json::from_str("{ \"query\": { \"match_all\": {} } }").unwrap();
    assert_eq!(req.body, expected);
}

#[test]
fn prepare_search_rejects_non_json() {
    let inv = resolve_arguments(
        Some("http://localhost:9200".to_string()),
        Some("idx".to_string()),
        Some("not json".to_string()),
        None,
    )
    .unwrap();
    match prepare_search(&inv) {
        Err(e) => {
            assert!(matches!(e, EsError::MalformedQuery { .. }));
            assert_ne!(e.exit_code(), 0);
            assert!(e.message().starts_with("malformed query: "));
        }
        Ok(_) => panic!("\"not json\" must be rejected as a malformed query"),
    }
}

#[test]
fn decimal_string_exact_values() {
    assert_eq!(decimal_string(0), "0");
    assert_eq!(decimal_string(7), "7");
    assert_eq!(decimal_string(10), "10");
    assert_eq!(decimal_string(200), "200");
    assert_eq!(decimal_string(404), "404");
    assert_eq!(decimal_string(65535), "65535");
}

#[test]
fn render_console_exact_text() {
    let s = render_console(200, "{\"hits\":{\"total\":0}}");
    assert_eq!(s, "result: 200, body\n{\"hits\":{\"total\":0}}");
}

#[test]
fn materialize_without_output_prints() {
    let m = materialize(200, "{\"hits\":{\"total\":0}}".to_string(), None);
    match m {
        Materialized::Console { text } => {
            assert_eq!(text, "result: 200, body\n{\"hits\":{\"total\":0}}");
        }
        Materialized::ToFile { .. } => panic!("no output path was given"),
    }
}

#[test]
fn materialize_with_output_writes_body_verbatim() {
    let m = materialize(
        200,
        "{\"hits\":{\"total\":0}}".to_string(),
        Some("result.txt".to_string()),
    );
    match m {
        Materialized::ToFile { path, contents } => {
            assert_eq!(path, "result.txt");
            assert_eq!(contents, "{\"hits\":{\"total\":0}}");
        }
        Materialized::Console { .. } => panic!("an output path was given"),
    }
}

#[test]
fn every_error_exit_code_is_nonzero() {
    let errors = vec![
        EsError::MissingArgument {
            flag: RequiredFlag::Query,
        },
        EsError::MalformedQuery {
            detail: "oops".to_string(),
        },
        EsError::TransportError {
            detail: "connection refused".to_string(),
        },
        EsError::FileWriteError {
            detail: "permission denied".to_string(),
        },
    ];
    for e in &errors {
        assert_ne!(e.exit_code(), 0);
    }
    assert_eq!(errors[0].exit_code(), 1);
}

#[test]
fn messages_name_the_failure() {
    assert_eq!(flag_text(RequiredFlag::Url), "-u/--url");
    assert_eq!(flag_text(RequiredFlag::Index), "-i/--index");
    assert_eq!(flag_text(RequiredFlag::Query), "-q/--query");
    let e = EsError::MissingArgument {
        flag: RequiredFlag::Index,
    };
    assert_eq!(e.message(), "missing required argument: -i/--index");
    let t = EsError::TransportError {
        detail: "connection refused".to_string(),
    };
    assert_eq!(t.message(), "transport error: connection refused");
    let f = EsError::FileWriteError {
        detail: "permission denied".to_string(),
    };
    assert_eq!(f.message(), "cannot write output file: permission denied");
}
