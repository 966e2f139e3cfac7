use surreal_simple_client::{SurrealQueryResult, SurrealResponseData, SurrealResponseResult};

fn json(text: &str) -> serde_json::Value {
    serde_json::from_str(text).unwrap()
}

fn data(statements: Vec<Vec<serde_json::Value>>) -> SurrealResponseData {
    SurrealResponseData {
        id: "id".to_string(),
        result: SurrealResponseResult::Data(
            statements
                .into_iter()
                .map(|rows| SurrealQueryResult::new("1ms".to_string(), "OK".to_string(), rows))
                .collect(),
        ),
    }
}

#[test]
fn nth_query_result_picks_the_statement() {
    let r = data(vec![vec![json("1")], vec![json("2"), json("3")]]);
    assert_eq!(r.get_nth_query_result(1).unwrap().results(), &vec![json("2"), json("3")]);
    assert!(r.get_nth_query_result(2).is_none());
}

#[test]
fn nth_query_result_of_string_or_null_is_none() {
    let s = SurrealResponseData { id: "a".to_string(), result: SurrealResponseResult::String("ok".to_string()) };
    let n = SurrealResponseData { id: "b".to_string(), result: SurrealResponseResult::Null };
    assert!(s.get_nth_query_result(0).is_none());
    assert!(n.get_nth_query_result(0).is_none());
    assert!(s.first_result(0).is_none());
    assert!(n.statement_results(0).is_empty());
}

#[test]
fn results_key_keeps_rows_with_the_key() {
    let q = SurrealQueryResult::new(
        "1ms".to_string(),
        "OK".to_string(),
        vec![json("{\"a\":1}"), json("{\"b\":2}"), json("{\"a\":3,\"b\":4}"), json("5")],
    );
    assert_eq!(q.results_key("a"), vec![&json("1"), &json("3")]);
    assert_eq!(q.results_key("b"), vec![&json("2"), &json("4")]);
    assert!(q.results_key("c").is_empty());
}

#[test]
fn first_result_of_empty_statement_is_none() {
    let r = data(vec![vec![]]);
    assert!(r.first_result(0).is_none());
    assert!(r.first_result_key(0, "a").is_none());
}

#[test]
fn statement_helpers_read_the_rows() {
    let r = data(vec![vec![json("{\"files\":[1]}"), json("{\"x\":0}"), json("{\"files\":[2]}")]]);
    assert_eq!(r.statement_results(0).len(), 3);
    assert_eq!(r.statement_results(1).len(), 0);
    assert_eq!(r.statement_results_key(0, "files"), vec![&json("[1]"), &json("[2]")]);
    assert_eq!(r.first_result_key(0, "files"), Some(&json("[1]")));
    assert_eq!(r.first_result(0), Some(&json("{\"files\":[1]}")));
}
