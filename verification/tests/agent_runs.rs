use selfserv::address::Ipv4Address;
use selfserv::client::{build_request, interpret, Credential, Exchange, ServiceError};
use selfserv::resolver::{resolve, ResolutionError};
use selfserv::scheduler::{Action, Event, Failure, Phase, Scheduler, UpdateState};
use selfserv::store::Artifact;
use selfserv::token::AuthToken;

const SECOND: u128 = 1_000_000_000;

#[test]
fn fixed_address_is_registered_once_and_then_left_alone() {
    let address = Ipv4Address::new(203, 0, 113, 5);
    let token = AuthToken::from_file_contents("abc123\n");
    let scheduler = Scheduler::new(Some(address));

    let (scheduler, action) = scheduler.step(Event::Tick, 0);
    assert_eq!(action, Some(Action::Contact { address }));

    let request = build_request(&token, address);
    assert_eq!(request.method, "POST");
    assert_eq!(request.url, "https://selfserv.net/api/service/ping");
    assert_eq!(request.header_name, "Authorization");
    assert_eq!(request.header_value, "token abc123");
    assert_eq!(request.form_field, "ip");
    assert_eq!(request.form_value, "203.0.113.5");

    let reply = interpret(Exchange::Answered {
        status: 200,
        body: Some(String::from("{\"cert\":\"CERT1\",\"cert_key\":\"KEY1\"}")),
        decoded: Some(Credential { certificate: String::from("CERT1"), key: String::from("KEY1") }),
    });
    let (scheduler, action) = scheduler.step(Event::Replied(reply), SECOND);
    assert_eq!(
        action,
        Some(Action::Write { artifact: Artifact::Certificate, text: String::from("CERT1") })
    );
    let (scheduler, action) = scheduler.step(Event::Written(Ok(())), 2 * SECOND);
    assert_eq!(action, Some(Action::Write { artifact: Artifact::Key, text: String::from("KEY1") }));
    let (scheduler, action) = scheduler.step(Event::Written(Ok(())), 3 * SECOND);
    assert_eq!(action, Some(Action::Wait { seconds: 60 }));
    assert_eq!(scheduler.state, UpdateState::Registered { address, at: 3 * SECOND });
    assert_eq!(scheduler.phase, Phase::Idle);

    let (scheduler, action) = scheduler.step(Event::Tick, 63 * SECOND);
    assert_eq!(action, Some(Action::Wait { seconds: 60 }));
    assert_eq!(scheduler.state, UpdateState::Registered { address, at: 3 * SECOND });
    assert_eq!(scheduler.phase, Phase::Idle);
}

#[test]
fn unauthorized_reply_writes_nothing_and_the_loop_goes_on() {
    let address = Ipv4Address::new(203, 0, 113, 5);
    let scheduler = Scheduler::new(Some(address));
    let (scheduler, action) = scheduler.step(Event::Tick, 0);
    assert_eq!(action, Some(Action::Contact { address }));

    let body = String::from("{\"error\":\"bad token\"}");
    let reply = interpret(Exchange::Answered { status: 401, body: Some(body.clone()), decoded: None });
    assert_eq!(reply, Err(ServiceError::Rejected { status: 401, body: Some(body.clone()) }));

    let (scheduler, action) = scheduler.step(Event::Replied(reply), SECOND);
    match action {
        Some(Action::Retry { failure, seconds }) => {
            assert_eq!(seconds, 60);
            assert!(!failure.is_fatal());
            let message = failure.describe();
            assert!(message.contains("401"));
            assert!(message.contains(&body));
            assert_eq!(
                message,
                "Error while talking to selfserv.net: Returned error: 401 {\"error\":\"bad token\"}"
            );
        }
        other => panic!("expected a retry, got {:?}", other),
    }
    assert_eq!(scheduler.state, UpdateState::Unset);
    assert_eq!(scheduler.phase, Phase::Idle);

    let (_, action) = scheduler.step(Event::Tick, 61 * SECOND);
    assert_eq!(action, Some(Action::Contact { address }));
}

#[test]
fn changed_address_is_registered_within_the_day() {
    let old = Ipv4Address::new(10, 0, 0, 1);
    let new = Ipv4Address::new(10, 0, 0, 2);
    let scheduler = Scheduler {
        fixed_address: None,
        state: UpdateState::Registered { address: old, at: 5 * SECOND },
        phase: Phase::Idle,
    };

    let (scheduler, action) = scheduler.step(Event::Tick, 65 * SECOND);
    assert_eq!(action, Some(Action::Resolve));
    let (scheduler, action) = scheduler.step(Event::Resolved(Ok(old)), 65 * SECOND);
    assert_eq!(action, Some(Action::Wait { seconds: 60 }));

    let (scheduler, action) = scheduler.step(Event::Tick, 125 * SECOND);
    assert_eq!(action, Some(Action::Resolve));
    let (scheduler, action) = scheduler.step(Event::Resolved(Ok(new)), 125 * SECOND);
    assert_eq!(action, Some(Action::Contact { address: new }));
    assert_eq!(scheduler.phase, Phase::Contacting { address: new });
    assert_eq!(scheduler.state, UpdateState::Registered { address: old, at: 5 * SECOND });
}

#[test]
fn failed_resolution_is_logged_and_contacts_nobody() {
    let registered = UpdateState::Registered { address: Ipv4Address::new(10, 0, 0, 1), at: 7 };
    let scheduler = Scheduler { fixed_address: None, state: registered, phase: Phase::Idle };

    let (scheduler, action) = scheduler.step(Event::Tick, 100);
    assert_eq!(action, Some(Action::Resolve));
    let outcome = resolve(Err(String::from("Network is unreachable (os error 101)")));
    let (scheduler, action) = scheduler.step(Event::Resolved(outcome), 200);
    match action {
        Some(Action::Retry { failure, seconds }) => {
            assert_eq!(seconds, 60);
            assert_eq!(
                failure,
                Failure::Resolution(ResolutionError::Socket {
                    detail: String::from("Network is unreachable (os error 101)")
                })
            );
            assert_eq!(
                failure.describe(),
                "Could not determine local IP address: Network is unreachable (os error 101)"
            );
        }
        other => panic!("expected a retry, got {:?}", other),
    }
    assert_eq!(scheduler.state, registered);
    assert_eq!(scheduler.phase, Phase::Idle);
}
