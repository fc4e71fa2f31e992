use gateway::descriptor::{ServiceDescriptor, ServiceIdentity, ServiceKind};
use gateway::error::{ConfigurationError, RegisterError};
use gateway::registrar::{Registrar, RegistrarAction, RegistrarEvent};
use tonic::transport::Endpoint;

const DISCOVERY: &str = "http://127.0.0.1:50051";

fn started() -> Registrar<u32> {
    let (registrar, action) =
        Registrar::begin(DISCOVERY, ServiceKind::Gateway, String::from("127.0.0.1"), "8080")
            .unwrap();
    assert_eq!(action, RegistrarAction::Connect);
    registrar
}

fn connected(connection: u32) -> Registrar<u32> {
    let (registrar, action) = started().advance(RegistrarEvent::Connected(connection));
    assert_eq!(action, RegistrarAction::SendRequest);
    registrar
}

#[test]
fn identity_must_not_be_empty() {
    assert!(ServiceIdentity::new(String::new()).is_none());
    let identity = ServiceIdentity::new(String::from("svc-42")).unwrap();
    assert_eq!(identity.as_str(), "svc-42");
    assert_eq!(identity.into_string(), String::from("svc-42"));
}

#[test]
fn begin_builds_the_descriptor_and_asks_to_connect() {
    let registrar = started();
    assert_eq!(
        registrar.descriptor(),
        &ServiceDescriptor {
            kind: ServiceKind::Gateway,
            address: String::from("127.0.0.1"),
            port: 8080,
        }
    );
    assert!(!registrar.is_finished());
    assert!(registrar.connection().is_none());
    assert!(registrar.into_outcome().is_none());
}

#[test]
fn begin_keeps_the_endpoint_it_parsed() {
    let registrar = started();
    let uri = registrar.endpoint().uri();
    assert_eq!(uri.scheme_str(), Some("http"));
    assert_eq!(uri.host(), Some("127.0.0.1"));
    assert_eq!(uri.port_u16(), Some(50051));
}

#[test]
fn begin_rejects_an_empty_endpoint() {
    let result =
        Registrar::<u32>::begin("", ServiceKind::Gateway, String::from("127.0.0.1"), "8080");
    assert_eq!(
        result.unwrap_err(),
        RegisterError::ConfigurationError(ConfigurationError::InvalidEndpoint)
    );
}

#[test]
fn begin_rejects_a_malformed_endpoint() {
    for url in ["not a url", "http://exa mple.com", "http://[::1", "http://host:port:port"] {
        let result =
            Registrar::<u32>::begin(url, ServiceKind::Gateway, String::from("127.0.0.1"), "8080");
        assert_eq!(
            result.unwrap_err(),
            RegisterError::ConfigurationError(ConfigurationError::InvalidEndpoint)
        );
    }
}

#[test]
fn begin_rejects_a_bad_port_before_any_connection() {
    for port in ["abc", "", "-1"] {
        let result = Registrar::<u32>::begin(
            DISCOVERY,
            ServiceKind::Gateway,
            String::from("127.0.0.1"),
            port,
        );
        assert_eq!(
            result.unwrap_err(),
            RegisterError::ConfigurationError(ConfigurationError::InvalidPort)
        );
    }
}

#[test]
fn the_endpoint_is_judged_before_the_port() {
    let result = Registrar::<u32>::begin("", ServiceKind::Gateway, String::from("h"), "abc");
    assert_eq!(
        result.unwrap_err(),
        RegisterError::ConfigurationError(ConfigurationError::InvalidEndpoint)
    );
}

#[test]
fn begin_with_takes_a_ready_endpoint() {
    let endpoint = Endpoint::from_static("http://discovery.internal:7000");
    let (registrar, action) = Registrar::<u32>::begin_with(
        Some(endpoint),
        ServiceKind::Gateway,
        String::from("10.0.0.7"),
        "+443",
    )
    .unwrap();
    assert_eq!(action, RegistrarAction::Connect);
    assert_eq!(registrar.endpoint().uri().host(), Some("discovery.internal"));
    assert_eq!(registrar.descriptor().port, 443);
    assert_eq!(registrar.descriptor().address, "10.0.0.7");
}

#[test]
fn begin_with_reports_a_missing_endpoint() {
    let result =
        Registrar::<u32>::begin_with(None, ServiceKind::Gateway, String::from("10.0.0.7"), "443");
    assert_eq!(
        result.unwrap_err(),
        RegisterError::ConfigurationError(ConfigurationError::InvalidEndpoint)
    );
    let endpoint = Endpoint::from_static(DISCOVERY);
    let result = Registrar::<u32>::begin_with(
        Some(endpoint),
        ServiceKind::Gateway,
        String::from("10.0.0.7"),
        "70000000000",
    );
    assert_eq!(
        result.unwrap_err(),
        RegisterError::ConfigurationError(ConfigurationError::InvalidPort)
    );
}

#[test]
fn a_connection_leads_to_one_request() {
    let registrar = connected(7);
    assert_eq!(registrar.connection(), Some(&7));
    assert!(!registrar.is_finished());
    let (registrar, action) = registrar.advance(RegistrarEvent::Connected(8));
    assert_eq!(action, RegistrarAction::Ignored);
    assert_eq!(registrar.connection(), Some(&7));
}

#[test]
fn an_accepted_request_yields_identity_and_connection() {
    let (registrar, action) =
        connected(7).advance(RegistrarEvent::Accepted(String::from("svc-42")));
    assert_eq!(action, RegistrarAction::Finish);
    assert!(registrar.is_finished());
    assert!(registrar.connection().is_none());
    let registration = registrar.into_outcome().unwrap().unwrap();
    assert_eq!(registration.identity.as_str(), "svc-42");
    assert_eq!(registration.connection, 7);
}

#[test]
fn an_empty_identity_counts_as_a_rejection() {
    let (registrar, action) = connected(7).advance(RegistrarEvent::Accepted(String::new()));
    assert_eq!(action, RegistrarAction::Finish);
    assert_eq!(
        registrar.into_outcome().unwrap().unwrap_err(),
        RegisterError::RegistrationRejected
    );
}

#[test]
fn a_declined_request_is_a_rejection() {
    let (registrar, action) = connected(7).advance(RegistrarEvent::Rejected);
    assert_eq!(action, RegistrarAction::Finish);
    assert_eq!(
        registrar.into_outcome().unwrap().unwrap_err(),
        RegisterError::RegistrationRejected
    );
}

#[test]
fn a_failed_connection_is_a_transport_error() {
    let (registrar, action) = started().advance(RegistrarEvent::ConnectFailed);
    assert_eq!(action, RegistrarAction::Finish);
    assert_eq!(registrar.into_outcome().unwrap().unwrap_err(), RegisterError::TransportError);
}

#[test]
fn a_lost_connection_is_a_transport_error() {
    let (registrar, action) = connected(7).advance(RegistrarEvent::ConnectionLost);
    assert_eq!(action, RegistrarAction::Finish);
    assert_eq!(registrar.into_outcome().unwrap().unwrap_err(), RegisterError::TransportError);
}

#[test]
fn a_timeout_is_a_transport_error_in_either_phase() {
    let (registrar, action) = started().advance(RegistrarEvent::TimedOut);
    assert_eq!(action, RegistrarAction::Finish);
    assert_eq!(registrar.into_outcome().unwrap().unwrap_err(), RegisterError::TransportError);
    let (registrar, action) = connected(7).advance(RegistrarEvent::TimedOut);
    assert_eq!(action, RegistrarAction::Finish);
    assert_eq!(registrar.into_outcome().unwrap().unwrap_err(), RegisterError::TransportError);
}

#[test]
fn answers_without_a_connection_are_ignored() {
    let events = [
        RegistrarEvent::Accepted(String::from("svc-1")),
        RegistrarEvent::Rejected,
        RegistrarEvent::ConnectionLost,
    ];
    let mut registrar = started();
    for event in events {
        let (next, action) = registrar.advance(event);
        assert_eq!(action, RegistrarAction::Ignored);
        assert!(!next.is_finished());
        assert!(next.connection().is_none());
        registrar = next;
    }
}

#[test]
fn a_finished_handshake_never_changes() {
    let (mut registrar, _) =
        connected(7).advance(RegistrarEvent::Accepted(String::from("svc-42")));
    let later = [
        RegistrarEvent::Connected(9),
        RegistrarEvent::ConnectFailed,
        RegistrarEvent::Accepted(String::from("svc-43")),
        RegistrarEvent::Rejected,
        RegistrarEvent::ConnectionLost,
        RegistrarEvent::TimedOut,
    ];
    for event in later {
        let (next, action) = registrar.advance(event);
        assert_eq!(action, RegistrarAction::Finish);
        registrar = next;
    }
    let registration = registrar.into_outcome().unwrap().unwrap();
    assert_eq!(registration.identity.as_str(), "svc-42");
    assert_eq!(registration.connection, 7);

    let (mut registrar, _) = started().advance(RegistrarEvent::ConnectFailed);
    for event in [RegistrarEvent::Connected(9), RegistrarEvent::Accepted(String::from("x"))] {
        let (next, action) = registrar.advance(event);
        assert_eq!(action, RegistrarAction::Finish);
        registrar = next;
    }
    assert_eq!(registrar.into_outcome().unwrap().unwrap_err(), RegisterError::TransportError);
}

#[test]
fn every_handshake_ends_in_an_identity_or_one_of_two_errors() {
    let scripts: Vec<Vec<RegistrarEvent<u32>>> = vec![
        vec![RegistrarEvent::Connected(1), RegistrarEvent::Accepted(String::from("a"))],
        vec![RegistrarEvent::Connected(1), RegistrarEvent::Accepted(String::new())],
        vec![RegistrarEvent::Connected(1), RegistrarEvent::Rejected],
        vec![RegistrarEvent::Connected(1), RegistrarEvent::ConnectionLost],
        vec![RegistrarEvent::Connected(1), RegistrarEvent::TimedOut],
        vec![RegistrarEvent::ConnectFailed],
        vec![RegistrarEvent::TimedOut],
        vec![
            RegistrarEvent::Rejected,
            RegistrarEvent::Connected(1),
            RegistrarEvent::ConnectFailed,
            RegistrarEvent::Accepted(String::from("b")),
        ],
    ];
    for script in scripts {
        let mut registrar = started();
        let mut requests = 0;
        for event in script {
            let (next, action) = registrar.advance(event);
            if action == RegistrarAction::SendRequest {
                requests += 1;
            }
            registrar = next;
        }
        assert!(requests <= 1);
        match registrar.into_outcome() {
            Some(Ok(registration)) => {
                assert!(!registration.identity.as_str().is_empty());
                assert_eq!(registration.connection, 1);
                assert_eq!(requests, 1);
            }
            Some(Err(error)) => assert!(matches!(
                error,
                RegisterError::TransportError | RegisterError::RegistrationRejected
            )),
            None => panic!("the handshake did not end"),
        }
    }
}

#[test]
fn equal_descriptors_get_the_identities_the_service_issued() {
    let mut issued = Vec::new();
    for (connection, id) in [(1u32, "svc-1"), (2u32, "svc-2")] {
        let registrar = connected(connection);
        assert_eq!(registrar.descriptor().port, 8080);
        let (registrar, _) = registrar.advance(RegistrarEvent::Accepted(String::from(id)));
        issued.push(registrar.into_outcome().unwrap().unwrap());
    }
    assert_eq!(issued[0].identity.as_str(), "svc-1");
    assert_eq!(issued[1].identity.as_str(), "svc-2");
    assert_ne!(issued[0].identity, issued[1].identity);
    assert_ne!(issued[0].connection, issued[1].connection);
}
