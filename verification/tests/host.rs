use rancher::error::{Kind, RancherError};
use rancher::fields::{get_field, set_field};
use rancher::host::{decode_labels, Host};
use rancher::json::Json;

const TWO_HOSTS: &str = r#"{
            "data": [
                {
                    "id": "1h10",
                    "hostname": "fake-10-10-10-10.internal",
                    "agentIpAddress": "10.10.10.10",
                    "agentState": "active",
                    "labels": {
                        "database": "true",
                        "monitoring": "false"
                    }
                },
                {
                    "id": "1h11",
                    "hostname": "fake-10-10-10-11.internal",
                    "agentIpAddress": "10.10.10.11",
                    "agentState": "disconnected",
                    "labels": {
                        "database": "false"
                    }
                }
            ]
        }"#;

#[test]
fn host_get_all() {
    let expected_result = vec![
        Host {
            id: String::from("1h10"),
            hostname: String::from("fake-10-10-10-10.internal"),
            agent_ip_address: String::from("10.10.10.10"),
            agent_state: String::from("active"),
            labels: [
                (String::from("database"), String::from("true")),
                (String::from("monitoring"), String::from("false")),
            ]
            .iter()
            .cloned()
            .collect(),
        },
        Host {
            id: String::from("1h11"),
            hostname: String::from("fake-10-10-10-11.internal"),
            agent_ip_address: String::from("10.10.10.11"),
            agent_state: String::from("disconnected"),
            labels: [(String::from("database"), String::from("false"))].iter().cloned().collect(),
        },
    ];
    let api_response = TWO_HOSTS;
    let results = Json::parse(api_response).unwrap();
    let data = Host::get_all(&results).unwrap();
    assert_eq!(expected_result.eq(&data), true, "Expected {:?}, got {:?}", expected_result, data);
}

#[test]
fn host_get_one() {
    let expected_result = Host {
        id: String::from("1h11"),
        hostname: String::from("fake-10-10-10-11.internal"),
        agent_ip_address: String::from("10.10.10.11"),
        agent_state: String::from("disconnected"),
        labels: [(String::from("database"), String::from("false"))].iter().cloned().collect(),
    };
    let api_response = TWO_HOSTS;
    let pattern = "fake-10-10-10-11.internal";
    let results = Json::parse(api_response).unwrap();
    let data = Host::get_one(&results, pattern);
    assert!(data.is_ok());
    let result = data.unwrap();
    assert_eq!(expected_result.eq(&result), true, "Expected {:?}, got {:?}", expected_result, result);
}

#[test]
fn host_get_one_by_id() {
    let results = Json::parse(TWO_HOSTS).unwrap();
    let found = Host::get_one(&results, "1h10").unwrap();
    assert_eq!(found.hostname, "fake-10-10-10-10.internal");
    assert_eq!(found.agent_ip_address, "10.10.10.10");
}

#[test]
fn host_get_one_not_found() {
    let results = Json::parse(TWO_HOSTS).unwrap();
    assert_eq!(Host::get_one(&results, "no-such-id"), Err(RancherError::NotFound(Kind::Host)));
    assert_eq!(Host::get_one(&results, "10.10.10.10"), Err(RancherError::NotFound(Kind::Host)));
}

#[test]
fn host_labels_are_exactly_those_of_the_response() {
    let response = r#"{"data":[{"id":"1h10","labels":{"database":"true","monitoring":"false"}}]}"#;
    let results = Json::parse(response).unwrap();
    let hosts = Host::get_all(&results).unwrap();
    let host = &hosts[0];
    assert_eq!(host.labels.len(), 2);
    assert_eq!(host.label("database"), Some(&"true".to_owned()));
    assert_eq!(host.label("monitoring"), Some(&"false".to_owned()));
    assert_eq!(host.label("other"), None);
    assert_eq!(host.label("Database"), None);
}

#[test]
fn host_label_values_are_kept_as_they_are() {
    let response = r#"{"data":[{"id":"h","labels":{"quoted":"say \"hi\"","empty":"","spaced":" a b "}}]}"#;
    let results = Json::parse(response).unwrap();
    let hosts = Host::get_all(&results).unwrap();
    assert_eq!(hosts[0].label("quoted"), Some(&"say \"hi\"".to_owned()));
    assert_eq!(hosts[0].label("empty"), Some(&String::new()));
    assert_eq!(hosts[0].label("spaced"), Some(&" a b ".to_owned()));
}

#[test]
fn host_label_that_is_no_text_is_empty() {
    let response = r#"{"data":[{"id":"h","labels":{"count":3,"flag":true,"none":null}}]}"#;
    let results = Json::parse(response).unwrap();
    let hosts = Host::get_all(&results).unwrap();
    assert_eq!(hosts[0].labels.len(), 3);
    assert_eq!(hosts[0].label("count"), Some(&String::new()));
    assert_eq!(hosts[0].label("flag"), Some(&String::new()));
    assert_eq!(hosts[0].label("none"), Some(&String::new()));
}

#[test]
fn host_missing_fields_have_their_defaults() {
    let results = Json::parse(r#"{"data":[{"id":"1h10"}]}"#).unwrap();
    let hosts = Host::get_all(&results).unwrap();
    assert_eq!(
        hosts,
        vec![Host {
            id: "1h10".to_owned(),
            hostname: String::new(),
            agent_ip_address: String::new(),
            agent_state: String::new(),
            labels: vec![],
        }]
    );
}

#[test]
fn host_labels_that_are_no_object_are_empty() {
    let results = Json::parse(r#"{"data":[{"id":"1h10","labels":["a","b"]}]}"#).unwrap();
    let hosts = Host::get_all(&results).unwrap();
    assert!(hosts[0].labels.is_empty());
}

#[test]
fn host_without_id_is_a_decode_error() {
    let results = Json::parse(r#"{"data":[{"hostname":"h"}]}"#).unwrap();
    assert_eq!(Host::get_all(&results), Err(RancherError::Decode));
    assert_eq!(Host::get_one(&results, "h"), Err(RancherError::Decode));
}

#[test]
fn host_path() {
    assert_eq!(Host::path("1a5"), "/projects/1a5/hosts");
    assert_eq!(Host::path(""), "/projects//hosts");
}

#[test]
fn set_field_replaces_or_adds() {
    let mut labels: Vec<(String, String)> = Vec::new();
    set_field(&mut labels, "a".to_owned(), "1".to_owned());
    set_field(&mut labels, "b".to_owned(), "2".to_owned());
    set_field(&mut labels, "a".to_owned(), "3".to_owned());
    assert_eq!(
        labels,
        vec![("a".to_owned(), "3".to_owned()), ("b".to_owned(), "2".to_owned())]
    );
}

#[test]
fn decode_labels_lets_a_later_field_win() {
    let item = Json::Object(vec![(
        "labels".to_owned(),
        Json::Object(vec![
            ("k".to_owned(), Json::Text("first".to_owned())),
            ("other".to_owned(), Json::Text("x".to_owned())),
            ("k".to_owned(), Json::Text("second".to_owned())),
        ]),
    )]);
    let labels = decode_labels(&item);
    assert_eq!(
        labels,
        vec![("k".to_owned(), "second".to_owned()), ("other".to_owned(), "x".to_owned())]
    );
}

#[test]
fn set_field_replaces_the_first_of_equal_names_only() {
    let mut labels = vec![
        ("a".to_owned(), "1".to_owned()),
        ("b".to_owned(), "2".to_owned()),
        ("a".to_owned(), "3".to_owned()),
    ];
    set_field(&mut labels, "a".to_owned(), "9".to_owned());
    assert_eq!(
        labels,
        vec![
            ("a".to_owned(), "9".to_owned()),
            ("b".to_owned(), "2".to_owned()),
            ("a".to_owned(), "3".to_owned()),
        ]
    );
}

#[test]
fn get_field_finds_the_first_of_equal_names() {
    let labels = vec![
        ("a".to_owned(), "1".to_owned()),
        ("b".to_owned(), "2".to_owned()),
        ("a".to_owned(), "3".to_owned()),
    ];
    assert_eq!(get_field(&labels, "a"), Some(&"1".to_owned()));
    assert_eq!(get_field(&labels, "b"), Some(&"2".to_owned()));
    assert_eq!(get_field(&labels, "c"), None);
    assert_eq!(get_field(&labels, ""), None);
    let none: Vec<(String, String)> = Vec::new();
    assert_eq!(get_field(&none, "a"), None);
}

#[test]
fn host_built_by_hand_answers_for_its_labels() {
    let host = Host {
        id: "1h1".to_owned(),
        hostname: "h".to_owned(),
        agent_ip_address: String::new(),
        agent_state: String::new(),
        labels: vec![("k".to_owned(), "v".to_owned())],
    };
    assert_eq!(host.label("k"), Some(&"v".to_owned()));
    assert_eq!(host.label("v"), None);
}
