use judge_relay::error::HarvestError;
use judge_relay::json::{parse, Json};
use judge_relay::judge::{
    accepted_submission, get_code_by_rid, get_problem_list, get_problem_status, problem_ids,
    source_code, Reply,
};

fn text(s: &str) -> Json {
    Json::Text(s.to_string())
}

fn quoted(s: &str) -> String {
    serde_json::to_string(&serde_json::Value::String(s.to_string())).unwrap()
}

fn compact(json: &Json) -> String {
    match json {
        Json::Null => "null".to_string(),
        Json::Bool(b) => format!("{b}"),
        Json::Number(digits) => digits.clone(),
        Json::Text(s) => quoted(s),
        Json::Array { text, .. } => text.clone(),
        Json::Object { text, .. } => text.clone(),
    }
}

fn array(items: Vec<Json>) -> Json {
    let texts: Vec<String> = items.iter().map(compact).collect();
    Json::Array { text: format!("[{}]", texts.join(",")), items }
}

fn object(members: Vec<(&str, Json)>) -> Json {
    let texts: Vec<String> =
        members.iter().map(|(k, v)| format!("{}:{}", quoted(k), compact(v))).collect();
    Json::Object {
        text: format!("{{{}}}", texts.join(",")),
        members: members.into_iter().map(|(k, v)| (k.to_string(), v)).collect(),
    }
}

fn body(s: &str) -> Reply {
    Reply::Body(s.to_string())
}

#[test]
fn parse_reads_every_kind_of_value() {
    assert_eq!(parse("null"), Some(Json::Null));
    assert_eq!(parse("true"), Some(Json::Bool(true)));
    assert_eq!(parse("false"), Some(Json::Bool(false)));
    assert_eq!(parse("12"), Some(Json::Number("12".to_string())));
    assert_eq!(parse("-3"), Some(Json::Number("-3".to_string())));
    assert_eq!(parse("1.5"), Some(Json::Number("1.5".to_string())));
    assert_eq!(parse("\"a\\nb\""), Some(text("a\nb")));
    assert_eq!(parse("[]"), Some(array(vec![])));
    assert_eq!(parse("{}"), Some(object(vec![])));
}

#[test]
fn parse_keeps_the_structure() {
    let document = parse(" {\"a\": [1, \"x\", null, {\"b\": false}], \"c\": {\"d\": \"e\"}} ");
    assert_eq!(
        document,
        Some(object(vec![
            (
                "a",
                array(vec![
                    Json::Number("1".to_string()),
                    text("x"),
                    Json::Null,
                    object(vec![("b", Json::Bool(false))]),
                ]),
            ),
            ("c", object(vec![("d", text("e"))])),
        ]))
    );
}

#[test]
fn parse_refuses_what_is_not_json() {
    assert_eq!(parse(""), None);
    assert_eq!(parse("<html></html>"), None);
    assert_eq!(parse("{\"a\": }"), None);
    assert_eq!(parse("{\"a\": 1} trailing"), None);
    assert_eq!(parse("[1, 2"), None);
}

#[test]
fn parse_keeps_the_last_of_two_equal_keys() {
    assert_eq!(
        parse("{\"a\": 1, \"a\": 2}"),
        Some(object(vec![("a", Json::Number("2".to_string()))]))
    );
}

#[test]
fn get_finds_members_of_objects_only() {
    let document = object(vec![("a", Json::Null), ("b", text("x")), ("a", Json::Bool(true))]);
    assert_eq!(document.get("a"), Some(&Json::Null));
    assert_eq!(document.get("b"), Some(&text("x")));
    assert_eq!(document.get("c"), None);
    assert_eq!(document.get(""), None);
    assert_eq!(array(vec![text("a")]).get("a"), None);
    assert_eq!(text("a").get("a"), None);
    assert_eq!(Json::Null.get("a"), None);
}

#[test]
fn at_finds_elements_of_arrays_only() {
    let pair = array(vec![text("a"), text("b")]);
    assert_eq!(pair.at(0), Some(&text("a")));
    assert_eq!(pair.at(1), Some(&text("b")));
    assert_eq!(pair.at(2), None);
    assert_eq!(array(vec![]).at(0), None);
    assert_eq!(object(vec![("0", Json::Null)]).at(0), None);
    assert_eq!(Json::Null.at(0), None);
}

#[test]
fn find_follows_a_path() {
    let document = object(vec![("a", object(vec![("b", object(vec![("c", text("x"))]))]))]);
    assert_eq!(document.find(&["a", "b", "c"]), Some(&text("x")));
    assert_eq!(document.find(&[]), Some(&document));
    assert_eq!(document.find(&["a", "x", "c"]), None);
    assert_eq!(document.find(&["a", "b", "c", "d"]), None);
    assert_eq!(Json::Null.find(&["a"]), None);
}

fn training(problems: Json) -> Json {
    object(vec![("currentData", object(vec![("training", object(vec![("problems", problems)]))]))])
}

fn entry(pid: Json) -> Json {
    object(vec![("problem", object(vec![("pid", pid)]))])
}

#[test]
fn problem_ids_come_in_the_order_of_the_document() {
    let document = training(array(vec![
        entry(text("P1002")),
        entry(text("P1001")),
        entry(text("P1002")),
    ]));
    assert_eq!(problem_ids(&document), vec!["P1002", "P1001", "P1002"]);
}

#[test]
fn problem_ids_pass_over_entries_of_another_shape() {
    let document = training(array(vec![
        entry(text("P2001")),
        entry(Json::Number("7".to_string())),
        entry(Json::Null),
        object(vec![("problem", text("P2002"))]),
        object(vec![("pid", text("P2003"))]),
        Json::Null,
        text("P2004"),
        array(vec![text("P2005")]),
        entry(text("P2006")),
    ]));
    assert_eq!(problem_ids(&document), vec!["P2001", "P2006"]);
}

#[test]
fn problem_ids_are_none_without_a_problem_array() {
    let empty: Vec<String> = vec![];
    assert_eq!(problem_ids(&Json::Null), empty);
    assert_eq!(problem_ids(&object(vec![])), empty);
    assert_eq!(problem_ids(&object(vec![("currentData", Json::Null)])), empty);
    assert_eq!(problem_ids(&training(Json::Null)), empty);
    assert_eq!(problem_ids(&training(text("P2001"))), empty);
    assert_eq!(problem_ids(&training(entry(text("P2001")))), empty);
    assert_eq!(problem_ids(&training(array(vec![]))), empty);
}

#[test]
fn get_problem_list_without_problems_field_is_an_empty_list() {
    let empty: Vec<String> = vec![];
    assert_eq!(get_problem_list(&body("{}")), Ok(empty.clone()));
    assert_eq!(get_problem_list(&body("{\"currentData\":{\"training\":{}}}")), Ok(empty.clone()));
    assert_eq!(
        get_problem_list(&body("{\"currentData\":{\"training\":{\"problems\":\"none\"}}}")),
        Ok(empty.clone())
    );
    assert_eq!(
        get_problem_list(&body("{\"currentData\":{\"training\":{\"problems\":{\"0\":1}}}}")),
        Ok(empty.clone())
    );
    assert_eq!(get_problem_list(&body("[]")), Ok(empty));
}

#[test]
fn get_problem_list_reads_a_reply() {
    let reply = body(
        "{\"code\":200,\"currentData\":{\"training\":{\"id\":100,\"problems\":[\
         {\"problem\":{\"pid\":\"P1001\",\"title\":\"A+B\"}},\
         {\"problem\":{\"title\":\"no pid\"}},\
         {\"problem\":{\"pid\":\"P1002\"}}]}}}",
    );
    assert_eq!(get_problem_list(&reply), Ok(vec!["P1001".to_string(), "P1002".to_string()]));
}

#[test]
fn get_problem_list_fails_on_a_lost_reply_and_on_bad_json() {
    assert_eq!(get_problem_list(&Reply::Lost), Err(HarvestError::Network));
    assert_eq!(get_problem_list(&body("<html>")), Err(HarvestError::MalformedResponse));
    assert_eq!(get_problem_list(&body("")), Err(HarvestError::MalformedResponse));
}

fn records(result: Json) -> Json {
    object(vec![("currentData", object(vec![("records", object(vec![("result", result)]))]))])
}

#[test]
fn accepted_submission_is_the_id_of_the_first_record() {
    let document = records(array(vec![
        object(vec![("id", Json::Number("555".to_string()))]),
        object(vec![("id", Json::Number("444".to_string()))]),
    ]));
    assert_eq!(accepted_submission(&document), Some("555".to_string()));
    let document = records(array(vec![object(vec![("id", text("R777"))])]));
    assert_eq!(accepted_submission(&document), Some("R777".to_string()));
    let document = records(array(vec![object(vec![("id", Json::Bool(true))])]));
    assert_eq!(accepted_submission(&document), Some("true".to_string()));
    let document = records(array(vec![object(vec![("id", Json::Bool(false))])]));
    assert_eq!(accepted_submission(&document), Some("false".to_string()));
}

#[test]
fn accepted_submission_of_an_array_or_object_id_is_its_text() {
    let document = records(array(vec![object(vec![("id", array(vec![]))])]));
    assert_eq!(accepted_submission(&document), Some("[]".to_string()));
    let document = records(array(vec![object(vec![("id", object(vec![]))])]));
    assert_eq!(accepted_submission(&document), Some("{}".to_string()));
    let id = array(vec![Json::Number("1".to_string()), text("a b"), Json::Null]);
    let document = records(array(vec![object(vec![("id", id)])]));
    assert_eq!(accepted_submission(&document), Some("[1,\"a b\",null]".to_string()));
    let id = Json::Object { members: vec![], text: "as held".to_string() };
    let document = records(array(vec![object(vec![("id", id)])]));
    assert_eq!(accepted_submission(&document), Some("as held".to_string()));
}

#[test]
fn get_problem_status_prints_an_array_or_object_id_as_the_parser_does() {
    let reply = body("{\"currentData\":{\"records\":{\"result\":[{\"id\": [ 1, 2.50 ,\"x\" ]}]}}}");
    assert_eq!(get_problem_status(&reply), Ok(Some("[1,2.5,\"x\"]".to_string())));
    let reply = body(
        "{\"currentData\":{\"records\":{\"result\":[{\"id\":{ \"b\" : [ ], \"a\":\"q\\\"\" }}]}}}",
    );
    assert_eq!(get_problem_status(&reply), Ok(Some("{\"a\":\"q\\\"\",\"b\":[]}".to_string())));
    let reply = body("{\"currentData\":{\"records\":{\"result\":[{\"id\":[]}]}}}");
    assert_eq!(get_problem_status(&reply), Ok(Some("[]".to_string())));
    let reply = body("{\"currentData\":{\"records\":{\"result\":[{\"id\":{}}]}}}");
    assert_eq!(get_problem_status(&reply), Ok(Some("{}".to_string())));
}

#[test]
fn parse_gives_arrays_and_objects_their_compact_text() {
    let document = parse(" { \"b\" : [ 1 , { \"c\" : null } ] , \"a\" : \"x y\" } ").unwrap();
    match &document {
        Json::Object { text, .. } => assert_eq!(text, "{\"a\":\"x y\",\"b\":[1,{\"c\":null}]}"),
        _ => panic!("not an object"),
    }
    match document.get("b") {
        Some(Json::Array { items, text }) => {
            assert_eq!(text, "[1,{\"c\":null}]");
            match &items[1] {
                Json::Object { text, .. } => assert_eq!(text, "{\"c\":null}"),
                _ => panic!("not an object"),
            }
        }
        _ => panic!("not an array"),
    }
}

#[test]
fn accepted_submission_is_none_where_no_id_is_found() {
    assert_eq!(accepted_submission(&records(array(vec![]))), None);
    assert_eq!(accepted_submission(&records(Json::Null)), None);
    assert_eq!(accepted_submission(&records(object(vec![("id", text("1"))]))), None);
    assert_eq!(accepted_submission(&Json::Null), None);
    assert_eq!(accepted_submission(&object(vec![])), None);
    assert_eq!(accepted_submission(&records(array(vec![object(vec![])]))), None);
    assert_eq!(accepted_submission(&records(array(vec![text("555")]))), None);
    let document = records(array(vec![object(vec![("id", Json::Null)])]));
    assert_eq!(accepted_submission(&document), None);
}

#[test]
fn record_list_with_empty_result_is_no_submission() {
    let reply = body("{\"currentData\":{\"records\":{\"result\":[],\"count\":0}}}");
    assert_eq!(get_problem_status(&reply), Ok(None));
}

#[test]
fn get_problem_status_reads_a_reply() {
    let reply = body(
        "{\"currentData\":{\"records\":{\"result\":[{\"id\":123456789,\"status\":12},\
         {\"id\":5}],\"count\":2}}}",
    );
    assert_eq!(get_problem_status(&reply), Ok(Some("123456789".to_string())));
    let reply = body("{\"currentData\":{\"records\":{\"result\":[{\"id\":\"555\"}]}}}");
    assert_eq!(get_problem_status(&reply), Ok(Some("555".to_string())));
    let reply = body("{\"currentData\":{\"records\":{\"result\":[{\"id\":null}]}}}");
    assert_eq!(get_problem_status(&reply), Ok(None));
    assert_eq!(get_problem_status(&body("{}")), Ok(None));
}

#[test]
fn get_problem_status_fails_on_a_lost_reply_and_on_bad_json() {
    assert_eq!(get_problem_status(&Reply::Lost), Err(HarvestError::Network));
    assert_eq!(get_problem_status(&body("not json")), Err(HarvestError::MalformedResponse));
}

fn record(code: Json) -> Json {
    object(vec![("currentData", object(vec![("record", object(vec![("sourceCode", code)]))]))])
}

#[test]
fn source_code_is_the_text_of_the_record() {
    assert_eq!(source_code(&record(text("int main(){}"))), Ok("int main(){}".to_string()));
    assert_eq!(source_code(&record(text(""))), Ok(String::new()));
}

#[test]
fn source_code_must_be_a_string() {
    assert_eq!(source_code(&record(Json::Null)), Err(HarvestError::MissingCode));
    assert_eq!(source_code(&record(Json::Number("1".to_string()))), Err(HarvestError::MissingCode));
    assert_eq!(source_code(&record(array(vec![]))), Err(HarvestError::MissingCode));
    assert_eq!(source_code(&Json::Null), Err(HarvestError::MissingCode));
    assert_eq!(source_code(&object(vec![])), Err(HarvestError::MissingCode));
}

#[test]
fn null_source_code_is_missing_code() {
    let reply = body("{\"currentData\":{\"record\":{\"sourceCode\":null}}}");
    assert_eq!(get_code_by_rid(&reply), Err(HarvestError::MissingCode));
    let reply = body("{\"currentData\":{\"record\":{}}}");
    assert_eq!(get_code_by_rid(&reply), Err(HarvestError::MissingCode));
}

#[test]
fn get_code_by_rid_keeps_the_text_as_it_is() {
    let code = "#include <cstdio>\n\nint main() {\n\tprintf(\"%d\\n\", 1);  \n}\n\n  ";
    let reply = Reply::Body(
        serde_json::to_string(&serde_json::Value::Object(
            [(
                "currentData".to_string(),
                serde_json::Value::Object(
                    [(
                        "record".to_string(),
                        serde_json::Value::Object(
                            [("sourceCode".to_string(), serde_json::Value::String(code.to_string()))]
                                .into_iter()
                                .collect(),
                        ),
                    )]
                    .into_iter()
                    .collect(),
                ),
            )]
            .into_iter()
            .collect(),
        ))
        .unwrap(),
    );
    assert_eq!(get_code_by_rid(&reply), Ok(code.to_string()));
}

#[test]
fn get_code_by_rid_fails_on_a_lost_reply_and_on_bad_json() {
    assert_eq!(get_code_by_rid(&Reply::Lost), Err(HarvestError::Network));
    assert_eq!(get_code_by_rid(&body("{")), Err(HarvestError::MalformedResponse));
}

fn sample_bodies() -> Vec<String> {
    let values = [
        "null",
        "true",
        "7",
        "-2.5",
        "\"P1001\"",
        "\"\"",
        "[]",
        "{}",
        "[\"a\",{\"id\":1},{\"problem\":{\"pid\":\"P3003\"}}]",
        "{\"id\":12,\"pid\":\"P3004\",\"problem\":{\"pid\":\"P3005\"}}",
        "{\"id\":\"77\",\"problem\":{\"pid\":8}}",
        "[{\"id\":null},{\"id\":3}]",
        "[{\"id\":[1]},{\"id\":3}]",
        "[{\"id\":false,\"problem\":{\"pid\":\"P3006\"}},{\"problem\":{\"pid\":\"P3007\"}}]",
    ];
    let frames = [
        "{\"currentData\":{\"training\":{\"problems\":@}}}",
        "{\"currentData\":{\"records\":{\"result\":@}}}",
        "{\"currentData\":{\"record\":{\"sourceCode\":@}}}",
        "{\"currentData\":@}",
        "{\"currentData\":{\"training\":@,\"records\":@,\"record\":@}}",
        "{\"currentData\":[{\"training\":{\"problems\":@}}]}",
        "@",
    ];
    let mut bodies = Vec::new();
    for frame in frames {
        for value in values {
            bodies.push(frame.replace('@', value));
        }
    }
    bodies.push("not json".to_string());
    bodies
}

#[test]
fn get_problem_list_agrees_with_indexing_the_parsed_value() {
    for text in sample_bodies() {
        let wanted = match serde_json::from_str::<serde_json::Value>(&text) {
            Err(_) => Err(HarvestError::MalformedResponse),
            Ok(value) => {
                let mut pids = Vec::new();
                if let serde_json::Value::Array(list) = &value["currentData"]["training"]["problems"]
                {
                    for entry in list.iter() {
                        if let serde_json::Value::String(pid) = &entry["problem"]["pid"] {
                            pids.push(pid.to_string());
                        }
                    }
                }
                Ok(pids)
            }
        };
        assert_eq!(get_problem_list(&body(&text)), wanted, "body {text}");
    }
}

#[test]
fn get_problem_status_agrees_with_indexing_the_parsed_value() {
    for text in sample_bodies() {
        let wanted = match serde_json::from_str::<serde_json::Value>(&text) {
            Err(_) => Err(HarvestError::MalformedResponse),
            Ok(value) => Ok(match &value["currentData"]["records"]["result"][0]["id"] {
                serde_json::Value::String(id) => Some(id.to_string()),
                serde_json::Value::Null => None,
                other => Some(other.to_string()),
            }),
        };
        assert_eq!(get_problem_status(&body(&text)), wanted, "body {text}");
    }
}

#[test]
fn get_code_by_rid_agrees_with_indexing_the_parsed_value() {
    for text in sample_bodies() {
        let wanted = match serde_json::from_str::<serde_json::Value>(&text) {
            Err(_) => Err(HarvestError::MalformedResponse),
            Ok(value) => match &value["currentData"]["record"]["sourceCode"] {
                serde_json::Value::String(code) => Ok(code.to_string()),
                _ => Err(HarvestError::MissingCode),
            },
        };
        assert_eq!(get_code_by_rid(&body(&text)), wanted, "body {text}");
    }
}
