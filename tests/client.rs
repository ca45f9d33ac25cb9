use hashicorp_vault::client::{
    app_id_login_request, app_role_login_request, call_endpoint_response, create_token_response,
    get_secret_response, get_secret_wrapped_response, get_wrapping_token_response, lookup_self_request, policies_response,
    read_envelope, read_status, renew_token_response, transit_decrypt_response,
    transit_encrypt_response, unwrap_response, wrap_info_response,
};
use hashicorp_vault::envelope::TokenData;
use hashicorp_vault::transport::RawResponse;
use hashicorp_vault::{
    EndpointResponse, Error, HttpVerb, TokenOptions, TransportError, VaultClient, VaultDuration,
    VaultResponse,
};

fn ok(body: &str) -> RawResponse {
    RawResponse { status: 200, body: body.to_string() }
}

fn client() -> VaultClient<()> {
    VaultClient::new_no_lookup(&["http://127.0.0.1:8200"], "test12345").unwrap()
}

const LOOKUP: &str = r#"{"data":{"accessor":"a","creation_time":1496318400,"creation_ttl":0,"display_name":"root","explicit_max_ttl":0,"id":"test12345","last_renewal_time":null,"meta":null,"num_uses":0,"orphan":true,"path":"auth/token/root","policies":["root"],"renewable":false,"role":null,"ttl":0}}"#;

#[test]
fn empty_host_list_fails_at_construction() {
    assert!(matches!(VaultClient::new_no_lookup(&[], "t"), Err(Error::Vault(_))));
    assert!(matches!(VaultClient::with_lookup(&[], "t", ok(LOOKUP)), Err(Error::Vault(_))));
    assert!(matches!(VaultClient::from_login(&[], ok("{}")), Err(Error::Vault(_))));
}

#[test]
fn bad_host_fails_at_construction() {
    assert!(matches!(VaultClient::new_no_lookup(&["http://a", "::"], "t"), Err(Error::Url(_))));
}

#[test]
fn no_lookup_client_keeps_hosts_in_order() {
    let c = VaultClient::new_no_lookup(&["http://a:1", "http://b:2"], "t").unwrap();
    assert_eq!(c.hosts, vec!["http://a:1/", "http://b:2/"]);
    assert_eq!(c.token, "t");
    assert!(c.data.is_none());
}

#[test]
fn lookup_client_decodes_token_data() {
    let c = VaultClient::with_lookup(&["http://127.0.0.1:8200"], "test12345", ok(LOOKUP)).unwrap();
    let d: &TokenData = c.data.as_ref().unwrap().data.as_ref().unwrap();
    assert_eq!(d.id, "test12345");
    let r = lookup_self_request("test12345");
    assert_eq!(r.path, "/v1/auth/token/lookup-self");
    assert_eq!(r.verb, HttpVerb::GET);
}

#[test]
fn lookup_forbidden_is_forbidden() {
    let r = VaultClient::with_lookup(&["http://h"], "t", RawResponse { status: 403, body: "no".to_string() });
    assert_eq!(r.unwrap_err(), Error::Forbidden);
    let r = VaultClient::with_lookup(&["http://h"], "t", RawResponse { status: 500, body: "x".to_string() });
    assert_eq!(
        r.unwrap_err(),
        Error::Transport(TransportError::RemoteRejected { status: 500, body: "x".to_string() })
    );
}

#[test]
fn login_takes_client_token() {
    let c = VaultClient::from_login(&["http://h"], ok(r#"{"auth":{"client_token":"new","policies":[],"renewable":true}}"#)).unwrap();
    assert_eq!(c.token, "new");
    assert!(matches!(VaultClient::from_login(&["http://h"], ok(r#"{"auth":null}"#)), Err(Error::Vault(_))));
}

#[test]
fn login_request_bodies() {
    let r = app_id_login_request("app", "user");
    assert_eq!(r.path, "/v1/auth/app-id/login");
    assert_eq!(r.body.as_deref(), Some(r#"{"app_id":"app","user_id":"user"}"#));
    let r = app_role_login_request("role", None);
    assert_eq!(r.path, "/v1/auth/approle/login");
    assert_eq!(r.body.as_deref(), Some(r#"{"role_id":"role","secret_id":null}"#));
    let r = app_role_login_request("role", Some("s\"x"));
    assert_eq!(r.body.as_deref(), Some(r#"{"role_id":"role","secret_id":"s\"x"}"#));
}

#[test]
fn operation_paths_and_bodies() {
    let c = client();
    let r = c.set_secret_request("hello", "wor\nld");
    assert_eq!(r.path, "/v1/secret/hello");
    assert_eq!(r.body.as_deref(), Some(r#"{"value":"wor\nld"}"#));
    assert_eq!(c.get_secret_request("k").path, "/v1/secret/k");
    assert_eq!(c.delete_secret_request("k").verb, HttpVerb::DELETE);
    assert_eq!(c.renew_token_request("abc", Some(30)).body.as_deref(), Some(r#"{"increment":30}"#));
    assert_eq!(c.renew_lease_request("l/1", None).body.as_deref(), Some(r#"{"increment":null}"#));
    assert_eq!(c.renew_lease_request("l/1", None).path, "/v1/sys/renew/l/1");
    assert_eq!(c.transit_encrypt_request(None, "k", b"hello").path, "/v1/transit/encrypt/k");
    assert_eq!(c.transit_decrypt_request(Some("tr"), "k", b"x").path, "/v1/tr/decrypt/k");
    assert_eq!(c.call_endpoint_request(HttpVerb::LIST, "secret", None, None).path, "/v1/secret");
    assert_eq!(c.policies_request().path, "/v1/sys/policy");
    assert_eq!(c.get_postgresql_backend_request("ro").path, "/v1/postgresql/creds/ro");
    assert_eq!(c.get_app_role_properties_request("r").path, "/v1/auth/approle/role/r");
    assert_eq!(c.get_unwrapped_response_request().path, "/v1/sys/wrapping/unwrap");
    assert_eq!(c.revoke_request().path, "/v1/auth/token/revoke-self");
    assert_eq!(c.renew_request().path, "/v1/auth/token/renew-self");
    assert_eq!(c.lookup_request().path, "/v1/auth/token/lookup-self");
    let w = c.get_secret_wrapped_request("k", "20m");
    assert_eq!(w.headers[2], ("X-Vault-Wrap-TTL".to_string(), "20m".to_string()));
}

#[test]
fn token_options_body() {
    let opts = TokenOptions::default()
        .id("test12345")
        .policies(vec!["root"])
        .default_policy(false)
        .orphan(true)
        .renewable(false)
        .display_name("jdoe-temp")
        .number_of_uses(10)
        .ttl(VaultDuration::hours(3))
        .explicit_max_ttl(VaultDuration::hours(13));
    assert_eq!(
        opts.to_json(),
        r#"{"id":"test12345","policies":["root"],"no_parent":true,"no_default_policy":true,"renewable":false,"ttl":"10800s","explicit_max_ttl":"46800s","display_name":"jdoe-temp","num_uses":10}"#
    );
    assert_eq!(
        TokenOptions::default().to_json(),
        r#"{"id":null,"policies":null,"no_parent":null,"no_default_policy":null,"renewable":null,"ttl":null,"explicit_max_ttl":null,"display_name":null,"num_uses":null}"#
    );
    let c = client();
    assert_eq!(c.create_token_request(&opts).body.unwrap(), opts.to_json());
}

#[test]
fn auth_responses() {
    let a = create_token_response(ok(r#"{"auth":{"client_token":"c","policies":["p"],"renewable":false}}"#)).unwrap();
    assert_eq!(a.client_token, "c");
    assert!(matches!(create_token_response(ok(r#"{"auth":null}"#)), Err(Error::Vault(_))));
    assert!(matches!(renew_token_response(ok(r#"{}"#)), Err(Error::Vault(_))));
}

#[test]
fn secret_responses() {
    assert_eq!(get_secret_response(ok(r#"{"data":{"value":"world"}}"#)).unwrap(), "world");
    assert!(matches!(get_secret_response(ok(r#"{"data":null}"#)), Err(Error::Vault(_))));
    assert_eq!(
        get_secret_response(RawResponse { status: 404, body: "{}".to_string() }).unwrap_err(),
        Error::Transport(TransportError::RemoteRejected { status: 404, body: "{}".to_string() })
    );
    assert!(read_status(RawResponse { status: 204, body: String::new() }).is_ok());
}

#[test]
fn transit_responses() {
    assert_eq!(transit_encrypt_response(ok(r#"{"data":{"ciphertext":"vault:v1:AmFm"}}"#)).unwrap(), b"\x02af".to_vec());
    assert!(matches!(transit_encrypt_response(ok(r#"{"data":{"ciphertext":"AmFm"}}"#)), Err(Error::Vault(_))));
    assert_eq!(transit_decrypt_response(ok(r#"{"data":{"plaintext":"aGVsbG8="}}"#)).unwrap(), b"hello".to_vec());
}

#[test]
fn escape_hatch_empty_body() {
    let r = call_endpoint_response::<()>(RawResponse { status: 204, body: String::new() }).unwrap();
    assert_eq!(r, EndpointResponse::Empty);
}

#[test]
fn wrapping_token_and_missing_wrap_info() {
    let body = r#"{"wrap_info":{"ttl":60,"token":"once","creation_time":"2017-06-01T12:00:00Z"}}"#;
    assert_eq!(get_wrapping_token_response(ok(body)).unwrap(), "once");
    assert_eq!(wrap_info_response(ok(body)).unwrap().ttl, VaultDuration(60));
    assert_eq!(get_wrapping_token_response(ok(r#"{"data":null}"#)).unwrap_err(), Error::MissingWrapInfo);
    assert_eq!(get_wrapping_token_response(ok("")).unwrap_err(), Error::MissingWrapInfo);
    assert_eq!(wrap_info_response(RawResponse { status: 204, body: String::new() }).unwrap_err(), Error::MissingWrapInfo);
}

#[test]
fn wrapped_then_unwrapped_gives_payload() {
    let c = client();
    let wrap_req = c.call_endpoint_request(HttpVerb::GET, "secret/hello", Some("60s"), None);
    assert_eq!(wrap_req.headers[2].1, "60s");
    let token = get_wrapping_token_response(ok(
        r#"{"wrap_info":{"ttl":60,"token":"once","creation_time":"2017-06-01T12:00:00+00:00"}}"#,
    ))
    .unwrap();
    let unwrapper = VaultClient::new_no_lookup(&["http://127.0.0.1:8200"], &token).unwrap();
    let req = unwrapper.get_unwrapped_response_request();
    assert_eq!(req.headers[0].1, "once");
    let answer = r#"{"data":{"response":"{\"data\":{\"value\":\"world\"}}"}}"#;
    let v: VaultResponse<Vec<(String, String)>> = unwrap_response(ok(answer)).unwrap();
    assert_eq!(v.data.unwrap(), vec![("value".to_string(), "world".to_string())]);
    // The service refuses a second use of the token; the client passes that on.
    let again = unwrap_response::<Vec<(String, String)>>(RawResponse { status: 400, body: "wrapping token is not valid".to_string() });
    assert!(matches!(again, Err(Error::Transport(TransportError::RemoteRejected { status: 400, .. }))));
}

#[test]
fn unwrap_without_payload_is_refused() {
    assert!(matches!(unwrap_response::<()>(ok(r#"{"data":null}"#)), Err(Error::Vault(_))));
}

#[test]
fn policies_and_envelopes() {
    assert_eq!(policies_response(ok(r#"{"policies":["root","default"]}"#)).unwrap(), vec!["root", "default"]);
    let v: VaultResponse<()> = read_envelope(ok(r#"{"lease_id":"x","renewable":true,"lease_duration":5}"#)).unwrap();
    assert_eq!(v.lease_duration, Some(VaultDuration(5)));
}

#[test]
fn renew_keeps_new_auth() {
    let mut c = VaultClient::with_lookup(&["http://h"], "t", ok(LOOKUP)).unwrap();
    assert!(c.data.as_ref().unwrap().auth.is_none());
    let body = r#"{"auth":{"client_token":"t","policies":["root"],"renewable":true,"lease_duration":60}}"#;
    c.renew_response(ok(body)).unwrap();
    assert_eq!(c.data.as_ref().unwrap().auth.as_ref().unwrap().lease_duration, Some(VaultDuration(60)));
}

#[test]
fn orphan_sets_no_parent() {
    assert_eq!(TokenOptions::default().orphan(true).no_parent, Some(true));
    assert_eq!(TokenOptions::default().orphan(false).no_parent, Some(false));
}

#[test]
fn wrapped_delete_through_escape_hatch() {
    let c = client();
    let r = c.call_endpoint_request(HttpVerb::DELETE, "secret/k", Some("15s"), None);
    assert_eq!(r.headers[2], ("X-Vault-Wrap-TTL".to_string(), "15s".to_string()));
}

#[test]
fn wrapped_secret_read_needs_wrap_info() {
    let c = client();
    let req = c.get_secret_wrapped_request("k", "60");
    assert_eq!(req.headers[2].1, "60");
    let body = r#"{"wrap_info":{"ttl":60,"token":"once","creation_time":"2017-06-01T12:00:00Z"}}"#;
    let v = get_secret_wrapped_response(ok(body)).unwrap();
    assert_eq!(v.wrap_info.unwrap().token, "once");
    assert_eq!(get_secret_wrapped_response(ok(r#"{"data":null}"#)).unwrap_err(), Error::MissingWrapInfo);
}
