use selfserv::address::Ipv4Address;
use selfserv::client::{
    build_request, interpret, status_is_success, Credential, Exchange, ServiceError,
    REQUEST_TIMEOUT_SECS,
};
use selfserv::scheduler::Failure;
use selfserv::token::AuthToken;

fn issued() -> Credential {
    Credential { certificate: String::from("CERT1"), key: String::from("KEY1") }
}

#[test]
fn request_carries_token_and_dotted_address() {
    let token = AuthToken::from_file_contents("s3cr3t");
    let request = build_request(&token, Ipv4Address::new(10, 0, 0, 2));
    assert_eq!(request.method, "POST");
    assert_eq!(request.url, "https://selfserv.net/api/service/ping");
    assert_eq!(request.header_name, "Authorization");
    assert_eq!(request.header_value, "token s3cr3t");
    assert_eq!(request.form_field, "ip");
    assert_eq!(request.form_value, "10.0.0.2");
    assert_eq!(request.timeout_secs, 70);
    assert_eq!(REQUEST_TIMEOUT_SECS, 70);
}

#[test]
fn success_statuses_are_200_to_299() {
    assert!(!status_is_success(0));
    assert!(!status_is_success(100));
    assert!(!status_is_success(199));
    assert!(status_is_success(200));
    assert!(status_is_success(204));
    assert!(status_is_success(299));
    assert!(!status_is_success(300));
    assert!(!status_is_success(401));
    assert!(!status_is_success(500));
    assert!(!status_is_success(u16::MAX));
}

#[test]
fn successful_reply_with_credential_is_accepted() {
    let outcome = interpret(Exchange::Answered {
        status: 200,
        body: Some(String::from("{\"cert\":\"CERT1\",\"cert_key\":\"KEY1\"}")),
        decoded: Some(issued()),
    });
    assert_eq!(outcome, Ok(issued()));
    let outcome = interpret(Exchange::Answered { status: 299, body: None, decoded: Some(issued()) });
    assert_eq!(outcome, Ok(issued()));
}

#[test]
fn successful_reply_without_credential_is_malformed() {
    let outcome = interpret(Exchange::Answered {
        status: 200,
        body: Some(String::from("{\"cert\":\"CERT1\"}")),
        decoded: None,
    });
    assert_eq!(
        outcome,
        Err(ServiceError::Malformed { status: 200, body: Some(String::from("{\"cert\":\"CERT1\"}")) })
    );
}

#[test]
fn unsuccessful_status_is_rejected_whatever_the_body_holds() {
    let outcome = interpret(Exchange::Answered {
        status: 300,
        body: Some(String::from("moved")),
        decoded: Some(issued()),
    });
    assert_eq!(outcome, Err(ServiceError::Rejected { status: 300, body: Some(String::from("moved")) }));
    let outcome = interpret(Exchange::Answered { status: 199, body: None, decoded: None });
    assert_eq!(outcome, Err(ServiceError::Rejected { status: 199, body: None }));
    let outcome = interpret(Exchange::Answered { status: 503, body: None, decoded: Some(issued()) });
    assert_eq!(outcome, Err(ServiceError::Rejected { status: 503, body: None }));
}

#[test]
fn missing_response_is_a_transport_error() {
    let outcome = interpret(Exchange::Failed { detail: String::from("connection refused") });
    assert_eq!(outcome, Err(ServiceError::Transport { detail: String::from("connection refused") }));
}

#[test]
fn service_errors_describe_status_and_body() {
    assert_eq!(
        ServiceError::Transport { detail: String::from("connection refused") }.describe(),
        "connection refused"
    );
    assert_eq!(
        ServiceError::Rejected { status: 401, body: Some(String::from("{\"error\":\"bad token\"}")) }
            .describe(),
        "Returned error: 401 {\"error\":\"bad token\"}"
    );
    assert_eq!(ServiceError::Rejected { status: 500, body: None }.describe(), "Returned error: 500 ");
    assert_eq!(
        ServiceError::Malformed { status: 200, body: Some(String::from("[]")) }.describe(),
        "Malformed response: 200 []"
    );
    assert_eq!(
        Failure::Service(ServiceError::Malformed { status: 204, body: None }).describe(),
        "Error while talking to selfserv.net: Malformed response: 204 "
    );
}
