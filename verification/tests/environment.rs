use rancher::environment::Environment;
use rancher::error::{Kind, RancherError};
use rancher::json::Json;

const TWO_ENVIRONMENTS: &str = r#"{
                                "data": [
                                    {
                                        "id": "1a10",
                                        "name": "fakeEnvironment1"
                                    },
                                    {
                                        "id": "1a11",
                                        "name": "fakeEnvironment2"
                                    }
                                ]
                            }"#;

#[test]
fn environment_get_all() {
    let expected_result = vec![
        Environment { id: "1a10".to_owned(), name: "fakeEnvironment1".to_owned() },
        Environment { id: "1a11".to_owned(), name: "fakeEnvironment2".to_owned() },
    ];
    let api_response = TWO_ENVIRONMENTS;
    let results = Json::parse(api_response).unwrap();
    let data = Environment::get_all(&results).unwrap();
    assert_eq!(expected_result.eq(&data), true, "Expected {:?}, got {:?}", expected_result, data);
}

#[test]
fn environment_get_one() {
    let expected_result =
        Environment { id: "1a10".to_owned(), name: "fakeEnvironment1".to_owned() };
    let api_response = TWO_ENVIRONMENTS;
    let pattern = "1a10";
    let results = Json::parse(api_response).unwrap();
    let data = Environment::get_one(&results, pattern);
    assert!(data.is_ok());
    let result = data.unwrap();
    assert_eq!(expected_result.eq(&result), true, "Expected {:?}, got {:?}", expected_result, result);
}

#[test]
fn environment_get_one_by_name() {
    let results = Json::parse(TWO_ENVIRONMENTS).unwrap();
    let found = Environment::get_one(&results, "fakeEnvironment2").unwrap();
    assert_eq!(found, Environment { id: "1a11".to_owned(), name: "fakeEnvironment2".to_owned() });
}

#[test]
fn environment_get_one_not_found() {
    let results = Json::parse(TWO_ENVIRONMENTS).unwrap();
    let missing = Environment::get_one(&results, "no-such-id");
    assert_eq!(missing, Err(RancherError::NotFound(Kind::Environment)));
}

#[test]
fn environment_get_one_is_exact_and_case_sensitive() {
    let results = Json::parse(TWO_ENVIRONMENTS).unwrap();
    assert_eq!(
        Environment::get_one(&results, "1A10"),
        Err(RancherError::NotFound(Kind::Environment))
    );
    assert_eq!(
        Environment::get_one(&results, "fakeEnvironment"),
        Err(RancherError::NotFound(Kind::Environment))
    );
    assert_eq!(
        Environment::get_one(&results, "1a1"),
        Err(RancherError::NotFound(Kind::Environment))
    );
    assert_eq!(Environment::get_one(&results, ""), Err(RancherError::NotFound(Kind::Environment)));
}

#[test]
fn environment_get_one_takes_the_first_match() {
    let response = r#"{"data":[{"id":"a","name":"b"},{"id":"b","name":"c"},{"id":"c","name":"b"}]}"#;
    let results = Json::parse(response).unwrap();
    let found = Environment::get_one(&results, "b").unwrap();
    assert_eq!(found, Environment { id: "a".to_owned(), name: "b".to_owned() });
    let found = Environment::get_one(&results, "c").unwrap();
    assert_eq!(found, Environment { id: "b".to_owned(), name: "c".to_owned() });
}

#[test]
fn environment_get_all_keeps_order_and_length() {
    let response = r#"{"data":[{"id":"z","name":"last"},{"id":"a","name":"first"},{"id":"m","name":"middle"}]}"#;
    let results = Json::parse(response).unwrap();
    let data = Environment::get_all(&results).unwrap();
    assert_eq!(data.len(), 3);
    let ids: Vec<&str> = data.iter().map(|e| e.id.as_str()).collect();
    assert_eq!(ids, vec!["z", "a", "m"]);
}

#[test]
fn environment_get_all_of_empty_listing() {
    let results = Json::parse(r#"{"data":[]}"#).unwrap();
    assert_eq!(Environment::get_all(&results), Ok(vec![]));
    assert_eq!(
        Environment::get_one(&results, "1a10"),
        Err(RancherError::NotFound(Kind::Environment))
    );
}

#[test]
fn environment_missing_name_is_empty() {
    let results = Json::parse(r#"{"data":[{"id":"1a10"}]}"#).unwrap();
    let data = Environment::get_all(&results).unwrap();
    assert_eq!(data, vec![Environment { id: "1a10".to_owned(), name: String::new() }]);
}

#[test]
fn environment_name_that_is_no_text_is_empty() {
    let results = Json::parse(r#"{"data":[{"id":"1a10","name":12}]}"#).unwrap();
    let data = Environment::get_all(&results).unwrap();
    assert_eq!(data, vec![Environment { id: "1a10".to_owned(), name: String::new() }]);
}

#[test]
fn environment_without_id_is_a_decode_error() {
    for response in [
        r#"{"data":[{"name":"n"}]}"#,
        r#"{"data":[{"id":"","name":"n"}]}"#,
        r#"{"data":[{"id":7,"name":"n"}]}"#,
        r#"{"data":[{"id":"ok"},{"name":"n"}]}"#,
        r#"{"data":["1a10"]}"#,
    ] {
        let results = Json::parse(response).unwrap();
        assert_eq!(Environment::get_all(&results), Err(RancherError::Decode), "{}", response);
        assert_eq!(Environment::get_one(&results, "ok"), Err(RancherError::Decode), "{}", response);
    }
}

#[test]
fn environment_listing_without_data_array_is_a_decode_error() {
    for response in [r#"{}"#, r#"{"data":{}}"#, r#"{"data":"x"}"#, r#"[]"#, r#"null"#, r#"{"Data":[]}"#]
    {
        let results = Json::parse(response).unwrap();
        assert_eq!(Environment::get_all(&results), Err(RancherError::Decode), "{}", response);
    }
}

#[test]
fn environment_path() {
    assert_eq!(Environment::path(), "/projects");
}

#[test]
fn environment_built_by_hand() {
    let item = Json::Object(vec![
        ("name".to_owned(), Json::Text("n".to_owned())),
        ("id".to_owned(), Json::Text("i".to_owned())),
    ]);
    let response = Json::Object(vec![("data".to_owned(), Json::Array(vec![item]))]);
    assert_eq!(
        Environment::get_all(&response),
        Ok(vec![Environment { id: "i".to_owned(), name: "n".to_owned() }])
    );
}
