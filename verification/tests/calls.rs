use rancher::request::receive;
use rancher::resource::{find_from, list_from};
use rancher::{
    Container, ContainerTrait, Environment, EnvironmentTrait, Host, HostTrait, Json, Kind,
    Rancher, RancherError, Service, ServiceTrait, Stack, StackTrait, Transfer,
};

fn client() -> Rancher {
    Rancher::new("http://r/v2-beta".to_owned(), "access".to_owned(), "secret".to_owned())
}

fn answer(body: &str) -> Transfer {
    Transfer::Completed(body.to_owned())
}

const LISTING: &str = r#"{"data":[{"id":"1x1","name":"one","hostname":"h-one"},{"id":"1x2","name":"two","hostname":"h-two"}]}"#;

#[test]
fn receive_decodes_the_body() {
    assert_eq!(receive(&answer("[true]")), Ok(Json::Array(vec![Json::Bool(true)])));
    assert_eq!(receive(&answer("[true")), Err(RancherError::Decode));
    assert_eq!(receive(&Transfer::Failed), Err(RancherError::Transport));
    assert_eq!(
        receive(&answer(r#"{"baseType":"error"}"#)),
        Ok(Json::Object(vec![("baseType".to_owned(), Json::Text("error".to_owned()))]))
    );
}

#[test]
fn get_environments_from_a_transfer() {
    let rancher = client();
    assert_eq!(
        rancher.get_environments(&answer(LISTING)),
        Ok(vec![
            Environment { id: "1x1".to_owned(), name: "one".to_owned() },
            Environment { id: "1x2".to_owned(), name: "two".to_owned() },
        ])
    );
    assert_eq!(
        rancher.get_environment(&answer(LISTING), "two"),
        Ok(Environment { id: "1x2".to_owned(), name: "two".to_owned() })
    );
    assert_eq!(
        rancher.get_environment(&answer(LISTING), "three"),
        Err(RancherError::NotFound(Kind::Environment))
    );
}

#[test]
fn calls_fail_as_the_transfer_does() {
    let rancher = client();
    assert_eq!(rancher.get_environments(&Transfer::Failed), Err(RancherError::Transport));
    assert_eq!(rancher.get_environment(&Transfer::Failed, "x"), Err(RancherError::Transport));
    assert_eq!(rancher.get_hosts(&Transfer::Failed), Err(RancherError::Transport));
    assert_eq!(rancher.get_stacks(&answer("<html>")), Err(RancherError::Decode));
    assert_eq!(rancher.get_stack(&answer("<html>"), "x"), Err(RancherError::Decode));
    assert_eq!(rancher.get_services(&answer("{}")), Err(RancherError::Decode));
    assert_eq!(rancher.get_service(&answer("{}"), "x"), Err(RancherError::Decode));
    assert_eq!(rancher.get_containers(&answer(r#"{"data":[{}]}"#)), Err(RancherError::Decode));
    assert_eq!(rancher.get_container(&Transfer::Failed, "x"), Err(RancherError::Transport));
}

#[test]
fn get_hosts_stacks_services_containers_from_a_transfer() {
    let rancher = client();
    let hosts = rancher.get_hosts(&answer(LISTING)).unwrap();
    assert_eq!(hosts.len(), 2);
    assert_eq!(hosts[1].hostname, "h-two");
    assert_eq!(rancher.get_host(&answer(LISTING), "h-one").unwrap().id, "1x1");
    assert_eq!(rancher.get_host(&answer(LISTING), "one"), Err(RancherError::NotFound(Kind::Host)));
    assert_eq!(
        rancher.get_stacks(&answer(LISTING)).unwrap()[0],
        Stack { id: "1x1".to_owned(), name: "one".to_owned() }
    );
    assert_eq!(rancher.get_stack(&answer(LISTING), "1x2").unwrap().name, "two");
    assert_eq!(
        rancher.get_services(&answer(LISTING)).unwrap()[1],
        Service { id: "1x2".to_owned(), name: "two".to_owned() }
    );
    assert_eq!(rancher.get_service(&answer(LISTING), "one").unwrap().id, "1x1");
    let containers: Vec<Container> = rancher.get_containers(&answer(LISTING)).unwrap();
    assert_eq!(containers[0].name, "one");
    assert_eq!(rancher.get_container(&answer(LISTING), "two").unwrap().id, "1x2");
    assert_eq!(
        rancher.get_container(&answer(LISTING), "h-two"),
        Err(RancherError::NotFound(Kind::Container))
    );
}

#[test]
fn container_actions_report_success() {
    let rancher = client();
    let done = answer(r#"{"id":"1i1","baseType":"instance"}"#);
    let refused = answer(r#"{"baseType":"error"}"#);
    assert!(rancher.restart_container("1a5", "1i1", &done));
    assert!(rancher.start_container("1a5", "1i1", &done));
    assert!(rancher.stop_container("1a5", "1i1", &done));
    assert!(!rancher.restart_container("1a5", "1i1", &refused));
    assert!(!rancher.start_container("1a5", "1i1", &refused));
    assert!(!rancher.stop_container("1a5", "1i1", &refused));
    assert!(!rancher.restart_container("1a5", "1i1", &Transfer::Failed));
    assert!(!rancher.start_container("1a5", "1i1", &answer("not json")));
    assert!(rancher.stop_container("1a5", "1i1", &answer("{}")));
}

#[test]
fn generic_calls_from_a_transfer() {
    let hosts: Vec<Host> = list_from(&answer(LISTING)).unwrap();
    assert_eq!(hosts.len(), 2);
    let stack: Stack = find_from(&answer(LISTING), "one").unwrap();
    assert_eq!(stack.id, "1x1");
    let missing: Result<Service, RancherError> = find_from(&answer(LISTING), "none");
    assert_eq!(missing, Err(RancherError::NotFound(Kind::Service)));
}
