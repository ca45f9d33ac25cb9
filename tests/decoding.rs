use hashicorp_vault::envelope::{
    parse_endpoint_response, parse_vault_response, AppRoleProperties, ListResponse,
    PostgresqlLogin, TokenData, WrapData,
};
use hashicorp_vault::{DecodeError, EndpointResponse, Error, VaultDuration, VaultResponse};

#[test]
fn envelope_ignores_unknown_field() {
    let body = r#"{"lease_id":"abc","renewable":true,"lease_duration":60,"data":{"username":"u","password":"p","extra":1},"surprise":{"x":[1,2]}}"#;
    let r: VaultResponse<PostgresqlLogin> = parse_vault_response(body).unwrap();
    assert_eq!(r.lease_id.as_deref(), Some("abc"));
    assert_eq!(r.renewable, Some(true));
    assert_eq!(r.lease_duration, Some(VaultDuration(60)));
    let d = r.data.unwrap();
    assert_eq!(d.username, "u");
    assert_eq!(d.password, "p");
    assert!(r.auth.is_none());
    assert!(r.wrap_info.is_none());
}

#[test]
fn envelope_missing_and_null_optionals_are_absent() {
    let r: VaultResponse<()> = parse_vault_response(r#"{"data":null,"warnings":null}"#).unwrap();
    assert!(r.lease_id.is_none());
    assert!(r.data.is_none());
    assert!(r.warnings.is_none());
}

#[test]
fn unit_payload_refuses_an_object() {
    let body = r#"{"data":{"k":"v"}}"#;
    let e = parse_vault_response::<VaultResponse<()>>(body).unwrap_err();
    assert_eq!(e, Error::Decode(DecodeError::Malformed(body.to_string())));
}

#[test]
fn non_json_body_is_malformed_with_body() {
    let e = parse_vault_response::<VaultResponse<()>>("<html>").unwrap_err();
    assert_eq!(e, Error::Decode(DecodeError::Malformed("<html>".to_string())));
}

#[test]
fn wrong_type_of_field_is_malformed() {
    assert!(parse_vault_response::<VaultResponse<()>>(r#"{"lease_duration":-5}"#).is_err());
    assert!(parse_vault_response::<VaultResponse<()>>(r#"{"lease_duration":1.5}"#).is_err());
    assert!(parse_vault_response::<VaultResponse<()>>(r#"{"renewable":"yes"}"#).is_err());
}

#[test]
fn zero_length_body_is_empty() {
    let r = parse_endpoint_response::<()>("").unwrap();
    assert_eq!(r, EndpointResponse::Empty);
}

#[test]
fn nonempty_body_is_envelope() {
    let r = parse_endpoint_response::<ListResponse>(r#"{"data":{"keys":["a","b"]}}"#).unwrap();
    match r {
        EndpointResponse::VaultResponse(v) => assert_eq!(v.data.unwrap().keys, vec!["a", "b"]),
        EndpointResponse::Empty => panic!("expected an envelope"),
    }
}

#[test]
fn auth_and_wrap_info_decode() {
    let body = r#"{"auth":{"client_token":"tok","accessor":null,"policies":["root","default"],"metadata":{"user":"x"},"lease_duration":3600,"renewable":false},
                  "wrap_info":{"ttl":30,"token":"wrap","creation_time":"2017-06-01T12:00:00Z","wrapped_accessor":"acc"}}"#;
    let r: VaultResponse<()> = parse_vault_response(body).unwrap();
    let a = r.auth.unwrap();
    assert_eq!(a.client_token, "tok");
    assert_eq!(a.accessor, None);
    assert_eq!(a.policies, vec!["root", "default"]);
    assert_eq!(a.metadata, Some(vec![("user".to_string(), "x".to_string())]));
    assert_eq!(a.lease_duration, Some(VaultDuration(3600)));
    assert!(!a.renewable);
    let w = r.wrap_info.unwrap();
    assert_eq!(w.ttl, VaultDuration(30));
    assert_eq!(w.token, "wrap");
    assert_eq!(w.creation_time.unix_secs, 1496318400);
    assert_eq!(w.wrapped_accessor.as_deref(), Some("acc"));
}

#[test]
fn bad_wrap_creation_time_is_malformed() {
    let body = r#"{"wrap_info":{"ttl":30,"token":"wrap","creation_time":"yesterday"}}"#;
    assert!(matches!(
        parse_vault_response::<VaultResponse<()>>(body),
        Err(Error::Decode(DecodeError::Malformed(_)))
    ));
}

#[test]
fn token_data_decodes() {
    let body = r#"{"data":{"accessor":"a","creation_time":1496318400,"creation_ttl":0,"display_name":"root","explicit_max_ttl":0,"id":"t","last_renewal_time":null,"meta":null,"num_uses":0,"orphan":true,"path":"auth/token/root","policies":["root"],"renewable":false,"role":null,"ttl":0}}"#;
    let r: VaultResponse<TokenData> = parse_vault_response(body).unwrap();
    let d = r.data.unwrap();
    assert_eq!(d.creation_time.0, 1496318400);
    assert_eq!(d.id, "t");
    assert!(d.orphan);
    assert_eq!(d.policies, vec!["root"]);
    assert_eq!(d.role, None);
}

#[test]
fn app_role_properties_decode() {
    let body = r#"{"data":{"bind_secret_id":true,"bound_cidr_list":"","period":0,"policies":["default"],"secret_id_num_uses":0,"secret_id_ttl":600,"token_max_ttl":1200,"token_ttl":60}}"#;
    let r: VaultResponse<AppRoleProperties> = parse_vault_response(body).unwrap();
    let d = r.data.unwrap();
    assert!(d.bind_secret_id);
    assert_eq!(d.secret_id_ttl, VaultDuration(600));
    assert_eq!(d.token_max_ttl, VaultDuration(1200));
}

#[test]
fn missing_required_field_is_malformed() {
    let body = r#"{"data":{"username":"u"}}"#;
    assert!(parse_vault_response::<VaultResponse<PostgresqlLogin>>(body).is_err());
    assert!(parse_vault_response::<VaultResponse<WrapData>>(r#"{"data":{}}"#).is_err());
}

#[test]
fn duration_beyond_u64_is_malformed() {
    let body = r#"{"lease_duration":18446744073709551616}"#;
    assert!(parse_vault_response::<VaultResponse<()>>(body).is_err());
    let max = r#"{"lease_duration":18446744073709551615}"#;
    let r: VaultResponse<()> = parse_vault_response(max).unwrap();
    assert_eq!(r.lease_duration, Some(VaultDuration(u64::MAX)));
}

#[test]
fn unknown_member_anywhere_is_ignored() {
    let a: VaultResponse<()> = parse_vault_response(r#"{"aaa":[],"lease_id":"x","zzz":{"k":null}}"#).unwrap();
    assert_eq!(a.lease_id.as_deref(), Some("x"));
}
