use bless_network::client::Outbound;
use bless_network::network::{Bless, Method, Node, Payload, Request};
use bless_network::registry::Registry;
use bless_network::supervisor::{
    Action, Event, Phase, Supervisor, Timing, MAX_PING_ERRORS, PING_INTERVAL, RESTART_DELAY,
};

fn bless() -> Bless {
    Bless::new(Outbound::Direct, "SECRET".to_string())
}

fn node(pub_key: &str) -> Node {
    Node {
        _id: "id".to_string(),
        pub_key: pub_key.to_string(),
        user_id: "user".to_string(),
        __v: 0,
        created_at: "2024-12-01T00:00:00Z".to_string(),
        hardware_id: format!("hw-{}", pub_key),
        hardware_info: None,
        ip_address: None,
        updated_at: "2024-12-01T00:00:00Z".to_string(),
        sessions: vec![],
        total_reward: 0,
        today_reward: 0,
        is_connected: false,
    }
}

fn supervisor(pub_key: &str) -> Supervisor {
    Supervisor::new(&bless(), &node(pub_key), None, Timing::standard())
}

/// Drives a supervisor the way a client would and notes every call it makes.
struct Recorder {
    calls: Vec<String>,
}

impl Recorder {
    fn take(&mut self, supervisor: &Supervisor, action: Action) {
        match action {
            Action::Sleep { secs } => self.calls.push(format!("wait {}", secs)),
            _ => {
                if let Some(request) = supervisor.request_for(action) {
                    let operation = request.url.rsplit('/').next().unwrap_or("").to_string();
                    self.calls.push(operation);
                }
            }
        }
    }
}

#[test]
fn standard_timing_has_the_design_values() {
    assert_eq!(MAX_PING_ERRORS, 3);
    assert_eq!(PING_INTERVAL, 120);
    assert_eq!(RESTART_DELAY, 240);
    assert_eq!(
        Timing::standard(),
        Timing { max_ping_errors: 3, ping_interval: 120, restart_delay: 240 }
    );
}

#[test]
fn fresh_supervisor_is_about_to_claim() {
    let sup = supervisor("N1");
    assert_eq!(sup.phase(), Phase::Claiming);
    assert_eq!(sup.failures(), 0);
    assert_eq!(sup.pub_key(), "N1");
    assert_eq!(sup.bless(), &bless());
}

#[test]
fn node_is_restarted_after_three_failed_heartbeats() {
    let mut registry = Registry::new();
    let mut sup = supervisor("N1");
    let mut recorder = Recorder { calls: vec![] };

    let mut action = sup.step(&mut registry, Event::Start);
    assert_eq!(action, Action::Register);
    assert!(registry.contains("N1"));
    recorder.take(&sup, action);

    action = sup.step(&mut registry, Event::Registered { success: true });
    assert_eq!(action, Action::OpenSession);
    recorder.take(&sup, action);

    action = sup.step(&mut registry, Event::SessionOpened { success: true });
    assert_eq!(action, Action::Heartbeat { delay: 0 });
    assert_eq!(sup.phase(), Phase::Heartbeating);
    recorder.take(&sup, action);

    action = sup.step(&mut registry, Event::Pinged { success: false });
    assert_eq!(action, Action::Heartbeat { delay: 120 });
    assert_eq!(sup.failures(), 1);
    recorder.take(&sup, action);

    action = sup.step(&mut registry, Event::Pinged { success: false });
    assert_eq!(action, Action::Heartbeat { delay: 120 });
    assert_eq!(sup.failures(), 2);
    assert!(registry.contains("N1"));
    recorder.take(&sup, action);

    action = sup.step(&mut registry, Event::Pinged { success: false });
    assert_eq!(action, Action::Sleep { secs: 240 });
    assert_eq!(sup.phase(), Phase::Restarting);
    assert_eq!(sup.failures(), 0);
    assert!(!registry.contains("N1"));
    recorder.take(&sup, action);

    action = sup.step(&mut registry, Event::Elapsed);
    assert_eq!(action, Action::Register);
    assert_eq!(sup.phase(), Phase::Registering);
    assert!(registry.contains("N1"));
    recorder.take(&sup, action);

    action = sup.step(&mut registry, Event::Registered { success: true });
    assert_eq!(action, Action::OpenSession);
    recorder.take(&sup, action);

    action = sup.step(&mut registry, Event::SessionOpened { success: true });
    assert_eq!(action, Action::Heartbeat { delay: 0 });
    recorder.take(&sup, action);

    action = sup.step(&mut registry, Event::Pinged { success: true });
    assert_eq!(action, Action::Heartbeat { delay: 120 });
    assert_eq!(sup.phase(), Phase::Heartbeating);
    assert_eq!(sup.failures(), 0);

    assert_eq!(
        recorder.calls,
        vec![
            "N1",
            "start-session",
            "ping",
            "ping",
            "ping",
            "wait 240",
            "N1",
            "start-session",
            "ping",
        ]
    );
}

#[test]
fn second_supervisor_of_an_identity_withdraws_without_a_call() {
    let mut registry = Registry::new();
    let mut first = supervisor("N1");
    let mut second = supervisor("N1");
    let mut calls_of_second = Recorder { calls: vec![] };

    assert_eq!(first.step(&mut registry, Event::Start), Action::Register);
    let action = second.step(&mut registry, Event::Start);
    assert_eq!(action, Action::Withdraw);
    assert_eq!(second.phase(), Phase::Aborted);
    assert!(second.request_for(action).is_none());
    calls_of_second.take(&second, action);

    assert_eq!(first.step(&mut registry, Event::Registered { success: true }), Action::OpenSession);
    assert_eq!(
        first.step(&mut registry, Event::SessionOpened { success: true }),
        Action::Heartbeat { delay: 0 }
    );
    assert_eq!(first.phase(), Phase::Heartbeating);

    for event in [
        Event::Start,
        Event::Registered { success: true },
        Event::Pinged { success: false },
        Event::Elapsed,
        Event::Stop,
    ] {
        let action = second.step(&mut registry, event);
        assert_eq!(action, Action::Withdraw);
        calls_of_second.take(&second, action);
    }
    assert!(calls_of_second.calls.is_empty());
    assert_eq!(second.phase(), Phase::Aborted);
    assert!(registry.contains("N1"));
    assert_eq!(registry.snapshot().len(), 1);
}

#[test]
fn failed_registration_gives_the_claim_up_and_rests() {
    let mut registry = Registry::new();
    let mut sup = supervisor("N1");
    assert_eq!(sup.step(&mut registry, Event::Start), Action::Register);
    assert_eq!(
        sup.step(&mut registry, Event::Registered { success: false }),
        Action::Sleep { secs: 240 }
    );
    assert_eq!(sup.phase(), Phase::Restarting);
    assert!(!registry.contains("N1"));
    assert_eq!(sup.step(&mut registry, Event::Elapsed), Action::Register);
}

#[test]
fn failed_session_open_gives_the_claim_up_and_rests() {
    let mut registry = Registry::new();
    let mut sup = supervisor("N1");
    assert_eq!(sup.step(&mut registry, Event::Start), Action::Register);
    assert_eq!(sup.step(&mut registry, Event::Registered { success: true }), Action::OpenSession);
    assert_eq!(sup.phase(), Phase::SessionStarting);
    assert_eq!(
        sup.step(&mut registry, Event::SessionOpened { success: false }),
        Action::Sleep { secs: 240 }
    );
    assert_eq!(sup.phase(), Phase::Restarting);
    assert!(!registry.contains("N1"));
}

#[test]
fn restart_never_gives_up() {
    let mut registry = Registry::new();
    let mut sup = supervisor("N1");
    assert_eq!(sup.step(&mut registry, Event::Start), Action::Register);
    for _ in 0..50 {
        assert_eq!(
            sup.step(&mut registry, Event::Registered { success: false }),
            Action::Sleep { secs: 240 }
        );
        assert_eq!(sup.step(&mut registry, Event::Elapsed), Action::Register);
    }
    assert!(registry.contains("N1"));
}

#[test]
fn success_between_failures_keeps_the_node_heartbeating() {
    let mut registry = Registry::new();
    let mut sup = supervisor("N1");
    sup.step(&mut registry, Event::Start);
    sup.step(&mut registry, Event::Registered { success: true });
    sup.step(&mut registry, Event::SessionOpened { success: true });
    for success in [false, false, true, false, false, true, false, false] {
        assert_eq!(
            sup.step(&mut registry, Event::Pinged { success }),
            Action::Heartbeat { delay: 120 }
        );
    }
    assert_eq!(sup.phase(), Phase::Heartbeating);
    assert_eq!(sup.failures(), 2);
    assert!(registry.contains("N1"));
}

#[test]
fn restart_meets_a_claim_made_during_the_rest() {
    let mut registry = Registry::new();
    let mut first = supervisor("N1");
    let mut second = supervisor("N1");
    assert_eq!(first.step(&mut registry, Event::Start), Action::Register);
    assert_eq!(
        first.step(&mut registry, Event::Registered { success: false }),
        Action::Sleep { secs: 240 }
    );
    assert_eq!(second.step(&mut registry, Event::Start), Action::Register);
    assert_eq!(first.step(&mut registry, Event::Elapsed), Action::Withdraw);
    assert_eq!(first.phase(), Phase::Aborted);
    assert!(registry.contains("N1"));
}

#[test]
fn stop_while_heartbeating_releases_the_claim() {
    let mut registry = Registry::new();
    let mut sup = supervisor("N1");
    sup.step(&mut registry, Event::Start);
    sup.step(&mut registry, Event::Registered { success: true });
    sup.step(&mut registry, Event::SessionOpened { success: true });
    assert_eq!(sup.step(&mut registry, Event::Stop), Action::Exit);
    assert_eq!(sup.phase(), Phase::ShutDown);
    assert!(!registry.contains("N1"));
    assert_eq!(sup.step(&mut registry, Event::Start), Action::Exit);
    assert_eq!(sup.step(&mut registry, Event::Pinged { success: true }), Action::Exit);
    assert_eq!(sup.phase(), Phase::ShutDown);
    assert!(!registry.contains("N1"));
}

#[test]
fn stop_without_a_claim_leaves_the_registry() {
    let mut registry = Registry::new();
    let mut holder = supervisor("N1");
    let mut waiting = supervisor("N1");
    holder.step(&mut registry, Event::Start);
    assert_eq!(waiting.step(&mut registry, Event::Stop), Action::Exit);
    assert_eq!(waiting.phase(), Phase::ShutDown);
    assert!(registry.contains("N1"));

    let mut resting = supervisor("N2");
    resting.step(&mut registry, Event::Start);
    resting.step(&mut registry, Event::Registered { success: false });
    let mut successor = supervisor("N2");
    assert_eq!(successor.step(&mut registry, Event::Start), Action::Register);
    assert_eq!(resting.step(&mut registry, Event::Stop), Action::Exit);
    assert!(registry.contains("N2"));
}

#[test]
fn event_that_does_not_fit_the_phase_is_waited_out() {
    let mut registry = Registry::new();
    let mut sup = supervisor("N1");
    assert_eq!(sup.step(&mut registry, Event::Elapsed), Action::Wait);
    assert_eq!(sup.step(&mut registry, Event::Pinged { success: false }), Action::Wait);
    assert_eq!(sup.phase(), Phase::Claiming);
    assert!(!registry.contains("N1"));
    sup.step(&mut registry, Event::Start);
    assert_eq!(sup.step(&mut registry, Event::Start), Action::Wait);
    assert_eq!(sup.step(&mut registry, Event::SessionOpened { success: false }), Action::Wait);
    assert_eq!(sup.step(&mut registry, Event::Pinged { success: false }), Action::Wait);
    assert_eq!(sup.phase(), Phase::Registering);
    assert_eq!(sup.failures(), 0);
    assert!(registry.contains("N1"));
}

#[test]
fn failures_of_one_node_leave_the_others() {
    let mut registry = Registry::new();
    let mut failing = supervisor("N1");
    let mut healthy = supervisor("N2");
    for sup in [&mut failing, &mut healthy] {
        sup.step(&mut registry, Event::Start);
        sup.step(&mut registry, Event::Registered { success: true });
        sup.step(&mut registry, Event::SessionOpened { success: true });
    }
    for _ in 0..3 {
        failing.step(&mut registry, Event::Pinged { success: false });
        assert_eq!(
            healthy.step(&mut registry, Event::Pinged { success: true }),
            Action::Heartbeat { delay: 120 }
        );
    }
    assert_eq!(failing.phase(), Phase::Restarting);
    assert_eq!(healthy.phase(), Phase::Heartbeating);
    assert_eq!(healthy.failures(), 0);
    assert!(!registry.contains("N1"));
    assert!(registry.contains("N2"));
}

#[test]
fn timing_sets_threshold_and_delays() {
    let timing = Timing { max_ping_errors: 1, ping_interval: 5, restart_delay: 7 };
    let mut registry = Registry::new();
    let mut sup = Supervisor::new(&bless(), &node("N1"), None, timing);
    sup.step(&mut registry, Event::Start);
    sup.step(&mut registry, Event::Registered { success: true });
    sup.step(&mut registry, Event::SessionOpened { success: true });
    assert_eq!(sup.step(&mut registry, Event::Pinged { success: true }), Action::Heartbeat { delay: 5 });
    assert_eq!(sup.step(&mut registry, Event::Pinged { success: false }), Action::Sleep { secs: 7 });
}

#[test]
fn requests_of_a_supervisor_report_the_proxy_address() {
    let sup = Supervisor::new(&bless(), &node("N1"), Some("203.0.113.7"), Timing::standard());
    let register = sup.request_for(Action::Register).unwrap();
    assert_eq!(register, bless().register("N1", "hw-N1", Some("203.0.113.7")));
    assert_eq!(
        register.body,
        Payload::Registration {
            ip_address: Some("203.0.113.7".to_string()),
            hardware_id: "hw-N1".to_string(),
        }
    );
    assert_eq!(sup.request_for(Action::OpenSession), Some(bless().init_session("N1")));
    assert_eq!(sup.request_for(Action::Heartbeat { delay: 120 }), Some(bless().ping("N1")));
}

#[test]
fn requests_of_a_supervisor_without_proxy_omit_the_address() {
    let sup = supervisor("N1");
    let register: Request = sup.request_for(Action::Register).unwrap();
    assert_eq!(register.method, Method::Post);
    assert_eq!(
        register.body,
        Payload::Registration { ip_address: None, hardware_id: "hw-N1".to_string() }
    );
}

#[test]
fn actions_that_send_nothing_have_no_request() {
    let sup = supervisor("N1");
    assert_eq!(sup.request_for(Action::Sleep { secs: 240 }), None);
    assert_eq!(sup.request_for(Action::Withdraw), None);
    assert_eq!(sup.request_for(Action::Exit), None);
    assert_eq!(sup.request_for(Action::Wait), None);
}

#[test]
fn answer_names_the_event_of_each_action() {
    assert_eq!(Action::Register.answer(true), Some(Event::Registered { success: true }));
    assert_eq!(Action::Register.answer(false), Some(Event::Registered { success: false }));
    assert_eq!(Action::OpenSession.answer(true), Some(Event::SessionOpened { success: true }));
    assert_eq!(
        Action::Heartbeat { delay: 120 }.answer(false),
        Some(Event::Pinged { success: false })
    );
    assert_eq!(Action::Sleep { secs: 240 }.answer(true), Some(Event::Elapsed));
    assert_eq!(Action::Sleep { secs: 240 }.answer(false), Some(Event::Elapsed));
    assert_eq!(Action::Withdraw.answer(true), None);
    assert_eq!(Action::Exit.answer(true), None);
    assert_eq!(Action::Wait.answer(true), None);
}

#[test]
fn driver_that_answers_each_action_is_never_told_to_wait() {
    let mut registry = Registry::new();
    let mut sup = supervisor("N1");
    // register, open, then heartbeats: fail, ok, fail, fail, fail; rest; register, open
    let outcomes = [true, true, false, true, false, false, false, true, true, true, true];
    let mut event = Event::Start;
    let mut actions = Vec::new();
    for success in outcomes {
        let action = sup.step(&mut registry, event);
        assert_ne!(action, Action::Wait);
        actions.push(action);
        event = action.answer(success).unwrap();
    }
    assert_eq!(
        actions,
        vec![
            Action::Register,
            Action::OpenSession,
            Action::Heartbeat { delay: 0 },
            Action::Heartbeat { delay: 120 },
            Action::Heartbeat { delay: 120 },
            Action::Heartbeat { delay: 120 },
            Action::Heartbeat { delay: 120 },
            Action::Sleep { secs: 240 },
            Action::Register,
            Action::OpenSession,
            Action::Heartbeat { delay: 0 },
        ]
    );
}
