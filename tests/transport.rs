use hashicorp_vault::transport::{
    build_request, check_status, endpoint_url, first_step, next_step, parse_host, walk_result,
    Attempt, FailoverStep, RawResponse,
};
use hashicorp_vault::{Error, HttpVerb, TransportError};

fn resp(status: u16, body: &str) -> RawResponse {
    RawResponse { status, body: body.to_string() }
}

fn headers(r: &hashicorp_vault::transport::Request) -> Vec<(&str, &str)> {
    r.headers.iter().map(|(k, v)| (k.as_str(), v.as_str())).collect()
}

#[test]
fn request_carries_token_and_content_type() {
    let r = build_request("tok", HttpVerb::POST, "/v1/x", Some("{}"), None);
    assert_eq!(r.verb, HttpVerb::POST);
    assert_eq!(r.path, "/v1/x");
    assert_eq!(headers(&r), vec![("X-Vault-Token", "tok"), ("Content-Type", "application/json")]);
    assert_eq!(r.body.as_deref(), Some("{}"));
}

#[test]
fn wrapped_request_adds_wrap_ttl_header() {
    let r = build_request("tok", HttpVerb::GET, "/v1/x", None, Some("15s"));
    assert_eq!(
        headers(&r),
        vec![("X-Vault-Token", "tok"), ("Content-Type", "application/json"), ("X-Vault-Wrap-TTL", "15s")]
    );
    assert_eq!(r.body, None);
}

#[test]
fn delete_has_no_body_but_can_be_wrapped() {
    let r = build_request("tok", HttpVerb::DELETE, "/v1/x", Some("ignored"), Some("20m"));
    assert_eq!(
        headers(&r),
        vec![("X-Vault-Token", "tok"), ("Content-Type", "application/json"), ("X-Vault-Wrap-TTL", "20m")]
    );
    assert_eq!(r.body, None);
    let plain = build_request("tok", HttpVerb::DELETE, "/v1/x", None, None);
    assert_eq!(headers(&plain).len(), 2);
}

#[test]
fn list_sends_its_own_method_token() {
    assert_eq!(HttpVerb::LIST.token(), "LIST");
    assert_eq!(HttpVerb::GET.token(), "GET");
    let r = build_request("tok", HttpVerb::LIST, "/v1/secret", None, None);
    assert_eq!(r.body.as_deref(), Some(""));
}

#[test]
fn failover_moves_past_refused_host() {
    // hosts: [bad_host, good_host]
    let mut step = first_step(2);
    assert_eq!(step, FailoverStep::TryHost(0));
    step = next_step(2, 0, Attempt::ConnectFailed);
    assert_eq!(step, FailoverStep::TryHost(1));
    step = next_step(2, 1, Attempt::Responded(resp(200, "{}")));
    assert_eq!(step, FailoverStep::Done(resp(200, "{}")));
    assert_eq!(walk_result(step).unwrap(), resp(200, "{}"));
}

#[test]
fn server_error_is_terminal() {
    let step = next_step(2, 0, Attempt::Responded(resp(500, "boom")));
    assert_eq!(step, FailoverStep::Done(resp(500, "boom")));
    let r = walk_result(step).unwrap();
    assert_eq!(
        check_status(r).unwrap_err(),
        Error::Transport(TransportError::RemoteRejected { status: 500, body: "boom".to_string() })
    );
}

#[test]
fn all_hosts_unreachable() {
    let step = next_step(2, 1, Attempt::ConnectFailed);
    assert_eq!(step, FailoverStep::Exhausted);
    assert_eq!(walk_result(step).unwrap_err(), Error::Transport(TransportError::AllHostsUnreachable));
    assert_eq!(first_step(0), FailoverStep::Exhausted);
}

#[test]
fn success_statuses_pass() {
    assert_eq!(check_status(resp(204, "")).unwrap(), "");
    assert_eq!(check_status(resp(299, "x")).unwrap(), "x");
    assert!(check_status(resp(300, "")).is_err());
    assert!(check_status(resp(199, "")).is_err());
}

#[test]
fn host_urls_are_parsed_and_joined() {
    assert_eq!(parse_host("http://127.0.0.1:8200").unwrap(), "http://127.0.0.1:8200/");
    assert!(matches!(parse_host("not a url"), Err(Error::Url(_))));
    assert_eq!(
        endpoint_url("http://127.0.0.1:8200/", "/v1/sys/policy").unwrap(),
        "http://127.0.0.1:8200/v1/sys/policy"
    );
    assert!(matches!(endpoint_url("nope", "/v1/x"), Err(Error::Url(_))));
}
