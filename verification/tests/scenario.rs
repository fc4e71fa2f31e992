use gateway::descriptor::{ServiceDescriptor, ServiceKind};
use gateway::heartbeat::{Heartbeat, HeartbeatAction, HeartbeatConfig, HeartbeatEvent};
use gateway::object::Query;
use gateway::registrar::{Registrar, RegistrarAction, RegistrarEvent};

#[derive(Debug, PartialEq)]
struct StubConnection {
    peer: &'static str,
}

/// A discovery service that accepts one descriptor and answers `svc-42`.
fn stub_answer(descriptor: &ServiceDescriptor) -> RegistrarEvent<StubConnection> {
    let wanted = ServiceDescriptor {
        kind: ServiceKind::Gateway,
        address: String::from("127.0.0.1"),
        port: 8080,
    };
    if *descriptor == wanted {
        RegistrarEvent::Accepted(String::from("svc-42"))
    } else {
        RegistrarEvent::Rejected
    }
}

#[test]
fn a_gateway_registers_and_then_beats_every_thirty_seconds() {
    let (mut registrar, mut action) = Registrar::<StubConnection>::begin(
        "http://discovery.local:50051",
        ServiceKind::Gateway,
        String::from("127.0.0.1"),
        "8080",
    )
    .unwrap();
    let mut steps = 0;
    while action != RegistrarAction::Finish {
        let event = match action {
            RegistrarAction::Connect => {
                assert_eq!(registrar.endpoint().uri().host(), Some("discovery.local"));
                RegistrarEvent::Connected(StubConnection { peer: "discovery.local" })
            }
            RegistrarAction::SendRequest => {
                assert!(registrar.connection().is_some());
                stub_answer(registrar.descriptor())
            }
            other => panic!("unexpected request {:?}", other),
        };
        let (next, asked) = registrar.advance(event);
        registrar = next;
        action = asked;
        steps += 1;
    }
    assert_eq!(steps, 2);
    let registration = registrar.into_outcome().unwrap().unwrap();
    assert_eq!(registration.identity.as_str(), "svc-42");
    assert_eq!(registration.connection, StubConnection { peer: "discovery.local" });

    let config = HeartbeatConfig::for_registration(registration, 30);
    let (mut heartbeat, mut action) = Heartbeat::new(config).unwrap();
    let mut clock: u64 = 0;
    let mut beats: Vec<(u64, String)> = Vec::new();
    while beats.len() < 4 {
        let event = match action {
            HeartbeatAction::Wait(secs) => {
                clock += secs;
                HeartbeatEvent::Elapsed
            }
            HeartbeatAction::Send => {
                assert_eq!(heartbeat.connection().peer, "discovery.local");
                beats.push((clock, heartbeat.identity().as_str().to_owned()));
                HeartbeatEvent::Delivered
            }
            other => panic!("unexpected request {:?}", other),
        };
        action = heartbeat.step(event);
    }
    let expected: Vec<(u64, String)> =
        vec![30, 60, 90, 120].into_iter().map(|at| (at, String::from("svc-42"))).collect();
    assert_eq!(beats, expected);
}

#[test]
fn a_stub_that_declines_ends_the_handshake_with_a_rejection() {
    let (registrar, _) = Registrar::<StubConnection>::begin(
        "http://discovery.local:50051",
        ServiceKind::Gateway,
        String::from("10.1.1.1"),
        "9090",
    )
    .unwrap();
    let (registrar, action) =
        registrar.advance(RegistrarEvent::Connected(StubConnection { peer: "discovery.local" }));
    assert_eq!(action, RegistrarAction::SendRequest);
    let answer = stub_answer(registrar.descriptor());
    let (registrar, action) = registrar.advance(answer);
    assert_eq!(action, RegistrarAction::Finish);
    assert!(registrar.into_outcome().unwrap().is_err());
}

#[test]
fn the_query_root_is_a_plain_marker() {
    let query = Query;
    let copy = query;
    assert_eq!(format!("{:?}", query), "Query");
    assert_eq!(format!("{:?}", copy.clone()), "Query");
    assert_eq!(std::mem::size_of::<Query>(), 0);
}
