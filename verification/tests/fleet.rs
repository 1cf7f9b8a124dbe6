use bless_network::client::Outbound;
use bless_network::fleet::{launch, Shutdown};
use bless_network::network::{ApiError, Bless, Node};
use bless_network::registry::Registry;
use bless_network::supervisor::{Action, Event, Phase, Timing};

fn bless(token: &str) -> Bless {
    Bless::new(Outbound::Direct, token.to_string())
}

fn node(pub_key: &str) -> Node {
    Node {
        _id: "id".to_string(),
        pub_key: pub_key.to_string(),
        user_id: "user".to_string(),
        __v: 0,
        created_at: "2024-12-01T00:00:00Z".to_string(),
        hardware_id: format!("hw-{}", pub_key),
        hardware_info: Some("{\"cpu\":\"x\"}".to_string()),
        ip_address: Some("198.51.100.1".to_string()),
        updated_at: "2024-12-01T00:00:00Z".to_string(),
        sessions: vec![],
        total_reward: 10,
        today_reward: 1,
        is_connected: true,
    }
}

#[test]
fn launch_makes_one_supervisor_for_each_node() {
    let nodes = vec![node("N1"), node("N2"), node("N3")];
    let fleet = launch(&bless("t"), Some("203.0.113.7"), Ok(nodes), Timing::standard()).unwrap();
    assert_eq!(fleet.len(), 3);
    let keys: Vec<&str> = fleet.iter().map(|supervisor| supervisor.pub_key()).collect();
    assert_eq!(keys, vec!["N1", "N2", "N3"]);
    for supervisor in &fleet {
        assert_eq!(supervisor.phase(), Phase::Claiming);
        assert_eq!(supervisor.failures(), 0);
        assert_eq!(supervisor.bless(), &bless("t"));
    }
    assert_eq!(
        fleet[1].request_for(Action::Register),
        Some(bless("t").register("N2", "hw-N2", Some("203.0.113.7")))
    );
}

#[test]
fn launch_of_an_account_without_nodes_is_empty() {
    let fleet = launch(&bless("t"), None, Ok(vec![]), Timing::standard()).unwrap();
    assert!(fleet.is_empty());
}

#[test]
fn launch_hands_a_failed_discovery_on() {
    for error in [
        ApiError::Unauthorized,
        ApiError::Transport,
        ApiError::Parse,
        ApiError::HttpStatus(502),
    ] {
        let fleet = launch(&bless("t"), None, Err(error), Timing::standard());
        assert_eq!(fleet.err(), Some(error));
    }
}

#[test]
fn launch_with_a_node_listed_twice_supervises_it_once() {
    let mut registry = Registry::new();
    let nodes = vec![node("N1"), node("N1")];
    let mut fleet = launch(&bless("t"), None, Ok(nodes), Timing::standard()).unwrap();
    let actions: Vec<Action> =
        fleet.iter_mut().map(|supervisor| supervisor.step(&mut registry, Event::Start)).collect();
    assert_eq!(actions, vec![Action::Register, Action::Withdraw]);
    assert_eq!(registry.snapshot().len(), 1);
}

#[test]
fn shutdown_closes_each_active_session_once() {
    let mut registry = Registry::new();
    assert!(registry.try_claim("N1", &bless("a")));
    assert!(registry.try_claim("N2", &bless("b")));
    assert!(registry.try_claim("N3", &bless("a")));

    let mut shutdown = Shutdown::begin(&registry);
    let mut closed = Vec::new();
    let outcomes = [true, false, true];
    let mut issued = 0;
    while let Some(request) = shutdown.next_call() {
        assert!(!shutdown.is_complete());
        let entry = shutdown.current().unwrap();
        assert_eq!(request, entry.binding.stop_session(&entry.identity));
        closed.push((entry.identity.clone(), entry.binding.access_token().to_string()));
        shutdown.resolve(outcomes[issued]);
        issued += 1;
        assert_eq!(shutdown.resolved(), issued);
    }
    assert_eq!(issued, 3);
    assert!(shutdown.is_complete());
    assert_eq!(shutdown.failed(), 1);
    assert!(shutdown.current().is_none());
    closed.sort();
    assert_eq!(
        closed,
        vec![
            ("N1".to_string(), "a".to_string()),
            ("N2".to_string(), "b".to_string()),
            ("N3".to_string(), "a".to_string()),
        ]
    );
}

#[test]
fn shutdown_of_an_idle_fleet_is_complete_at_once() {
    let registry = Registry::new();
    let mut shutdown = Shutdown::begin(&registry);
    assert!(shutdown.is_complete());
    assert!(shutdown.next_call().is_none());
    shutdown.resolve(false);
    assert_eq!(shutdown.resolved(), 0);
    assert_eq!(shutdown.failed(), 0);
}

#[test]
fn shutdown_does_not_repeat_a_failed_close() {
    let mut registry = Registry::new();
    assert!(registry.try_claim("N1", &bless("a")));
    let mut shutdown = Shutdown::begin(&registry);
    assert_eq!(shutdown.next_call(), Some(bless("a").stop_session("N1")));
    shutdown.resolve(false);
    assert!(shutdown.is_complete());
    assert_eq!(shutdown.next_call(), None);
    assert_eq!(shutdown.failed(), 1);
    shutdown.resolve(false);
    assert_eq!(shutdown.resolved(), 1);
    assert_eq!(shutdown.failed(), 1);
}

#[test]
fn shutdown_sees_the_nodes_that_hold_a_claim() {
    let mut registry = Registry::new();
    let nodes = vec![node("N1"), node("N2"), node("N3")];
    let mut fleet = launch(&bless("t"), None, Ok(nodes), Timing::standard()).unwrap();
    for supervisor in fleet.iter_mut() {
        supervisor.step(&mut registry, Event::Start);
        supervisor.step(&mut registry, Event::Registered { success: true });
        supervisor.step(&mut registry, Event::SessionOpened { success: true });
    }
    fleet[1].step(&mut registry, Event::Pinged { success: false });
    fleet[1].step(&mut registry, Event::Pinged { success: false });
    fleet[1].step(&mut registry, Event::Pinged { success: false });
    assert_eq!(fleet[1].phase(), Phase::Restarting);

    let mut shutdown = Shutdown::begin(&registry);
    let mut urls = Vec::new();
    while let Some(request) = shutdown.next_call() {
        urls.push(request.url);
        shutdown.resolve(true);
    }
    urls.sort();
    assert_eq!(
        urls,
        vec![
            "https://gateway-run.bls.dev/api/v1/nodes/N1/stop-session",
            "https://gateway-run.bls.dev/api/v1/nodes/N3/stop-session",
        ]
    );
}
