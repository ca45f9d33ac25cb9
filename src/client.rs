//! The client: its hosts and token, and for each operation the request it
//! sends and the reading of the response it gets back.
use vstd::prelude::*;
use vstd::string::*;
use crate::envelope::{
    body_decodes, body_decodes_to, is_malformed, parse_endpoint_response, parse_vault_response,
    Auth, EndpointResponse, PoliciesResponse, SecretData, TokenData, VaultResponse, WrapData,
    WrapInfo,
};
use crate::error::{Error, TransportError};
use crate::json::{json_object, json_string, members_view, object_text, quote, FromJson};
use crate::text::{decimal, decimal_of};
use crate::token_options::{token_options_text, TokenOptions};
use crate::transit::{
    b64_decoded, b64_encoded, ciphertext_ok, cipher_prefix, decrypt_body, decrypt_body_text,
    decrypt_response_is, encrypt_body, encrypt_body_text, encrypt_response_is, read_decrypt_body,
    read_encrypt_body,
};
use crate::transport::{
    build_request, check_status, is_success, parse_host, request_is, url_parsed, HttpVerb,
    RawResponse, Request,
};

verus! {

/// A client of the service: the hosts to try, in order, and the token.
#[derive(Debug, Clone)]
pub struct VaultClient<T> {
    /// Base URLs of the service, tried in this order.
    pub hosts: Vec<String>,
    /// Token sent with every request.
    pub token: String,
    /// What construction returned: token data, or the login envelope.
    pub data: Option<VaultResponse<T>>,
}

/// `out` holds the normalized URLs of `hosts`, in order.
pub open spec fn hosts_parsed(hosts: Seq<&str>, out: Seq<String>) -> bool {
    out.len() == hosts.len() && forall|i: int|
        0 <= i < hosts.len() ==> url_parsed(#[trigger] hosts[i]@) == Some(out[i]@)
}

/// Every host is a URL.
pub open spec fn all_hosts_parse(hosts: Seq<&str>) -> bool {
    forall|i: int| 0 <= i < hosts.len() ==> url_parsed(#[trigger] hosts[i]@) is Some
}

/// Reads the host list: fails with `Error::Vault` when it is empty and with
/// `Error::Url` when a host is no URL.
pub fn parse_hosts(hosts: &[&str]) -> (r: Result<Vec<String>, Error>)
    ensures
        hosts@.len() == 0 ==> (r matches Err(e) && e is Vault),
        hosts@.len() > 0 ==> (r is Ok <==> all_hosts_parse(hosts@)),
        hosts@.len() > 0 && !all_hosts_parse(hosts@) ==> (r matches Err(e) && e is Url),
        r matches Ok(v) ==> v@.len() > 0 && hosts_parsed(hosts@, v@),
{
    if hosts.len() == 0 {
        return Err(Error::Vault(String::from_str("at least one host is required")));
    }
    let mut out: Vec<String> = Vec::new();
    let mut i: usize = 0;
    while i < hosts.len()
        invariant
            i <= hosts@.len(),
            out@.len() == i,
            forall|k: int| 0 <= k < i ==> url_parsed(#[trigger] hosts@[k]@) == Some(out@[k]@),
        decreases hosts@.len() - i,
    {
        match parse_host(hosts[i]) {
            Ok(u) => out.push(u),
            Err(e) => {
                assert(!all_hosts_parse(hosts@)) by {
                    assert(url_parsed(hosts@[i as int]@) is None);
                }
                return Err(e);
            },
        }
        i = i + 1;
    }
    Ok(out)
}

/// The request that looks up the token itself.
pub fn lookup_self_request(token: &str) -> (r: Request)
    ensures
        request_is(r, token@, HttpVerb::GET, "/v1/auth/token/lookup-self"@, None, None),
{
    build_request(token, HttpVerb::GET, "/v1/auth/token/lookup-self", None, None)
}

impl VaultClient<TokenData> {
    /// Builds a client from an existing token and the response to its
    /// self-lookup. The host list is checked first, before any request goes
    /// out; a 403 answer is `Forbidden`, any other non-2xx is
    /// `RemoteRejected`, and the body must decode as token data.
    pub fn with_lookup(hosts: &[&str], token: &str, lookup: RawResponse) -> (r: Result<
        VaultClient<TokenData>,
        Error,
    >)
        ensures
            hosts@.len() == 0 ==> (r matches Err(e) && e is Vault),
            hosts@.len() > 0 && !all_hosts_parse(hosts@) ==> (r matches Err(e) && e is Url),
            all_hosts_parse(hosts@) && hosts@.len() > 0 ==> {
                &&& lookup.status == 403 ==> r == Err::<VaultClient<TokenData>, Error>(Error::Forbidden)
                &&& lookup.status != 403 && !is_success(lookup.status) ==> r == Err::<VaultClient<TokenData>, Error>(
                    Error::Transport(TransportError::RemoteRejected { status: lookup.status, body: lookup.body }),
                )
                &&& is_success(lookup.status) ==> (r is Ok <==> body_decodes::<VaultResponse<TokenData>>(lookup.body@))
            },
            r matches Ok(c) ==> {
                &&& hosts_parsed(hosts@, c.hosts@)
                &&& c.token@ == token@
                &&& c.data matches Some(d) && body_decodes_to(lookup.body@, d)
            },
    {
        let hosts = match parse_hosts(hosts) {
            Ok(h) => h,
            Err(e) => return Err(e),
        };
        if lookup.status == 403 {
            return Err(Error::Forbidden);
        }
        let body = match check_status(lookup) {
            Ok(b) => b,
            Err(e) => return Err(e),
        };
        match parse_vault_response::<VaultResponse<TokenData>>(body.as_str()) {
            Ok(d) => Ok(VaultClient { hosts, token: String::from_str(token), data: Some(d) }),
            Err(e) => Err(e),
        }
    }
}

/// The request body of an `AppId` login.
pub open spec fn app_id_body_text(app_id: Seq<char>, user_id: Seq<char>) -> Seq<char> {
    object_text(seq![("app_id"@, json_string(app_id)), ("user_id"@, json_string(user_id))])
}

/// The request body of an `AppRole` login; a missing secret id is `null`.
pub open spec fn app_role_body_text(role_id: Seq<char>, secret_id: Option<Seq<char>>) -> Seq<char> {
    object_text(
        seq![
            ("role_id"@, json_string(role_id)),
            ("secret_id"@, match secret_id {
                Some(s) => json_string(s),
                None => "null"@,
            }),
        ],
    )
}

/// The headers of a login request: only the JSON content type.
pub open spec fn login_request_is(r: Request, path: Seq<char>, body: Seq<char>) -> bool {
    &&& r.verb == HttpVerb::POST
    &&& r.path@ == path
    &&& r.headers@.len() == 1
    &&& r.headers@[0].0@ == "Content-Type"@ && r.headers@[0].1@ == "application/json"@
    &&& r.body matches Some(b) && b@ == body
}

fn login_request(path: &str, body: String) -> (r: Request)
    ensures
        login_request_is(r, path@, body@),
{
    let mut headers: Vec<(String, String)> = Vec::new();
    headers.push((String::from_str("Content-Type"), String::from_str("application/json")));
    Request { verb: HttpVerb::POST, path: String::from_str(path), headers, body: Some(body) }
}

/// The login request of the `AppId` backend.
pub fn app_id_login_request(app_id: &str, user_id: &str) -> (r: Request)
    ensures
        login_request_is(r, "/v1/auth/app-id/login"@, app_id_body_text(app_id@, user_id@)),
{
    let mut ms: Vec<(String, String)> = Vec::new();
    ms.push((String::from_str("app_id"), quote(app_id)));
    ms.push((String::from_str("user_id"), quote(user_id)));
    let body = json_object(&ms);
    assert(members_view(ms@) =~= seq![("app_id"@, json_string(app_id@)), ("user_id"@, json_string(user_id@))]);
    login_request("/v1/auth/app-id/login", body)
}

/// The login request of the `AppRole` backend.
pub fn app_role_login_request(role_id: &str, secret_id: Option<&str>) -> (r: Request)
    ensures
        login_request_is(
            r,
            "/v1/auth/approle/login"@,
            app_role_body_text(
                role_id@,
                match secret_id {
                    Some(s) => Some(s@),
                    None => None,
                },
            ),
        ),
{
    let mut ms: Vec<(String, String)> = Vec::new();
    ms.push((String::from_str("role_id"), quote(role_id)));
    let ghost sid = match secret_id {
        Some(s) => Some(s@),
        None => None,
    };
    let secret = match secret_id {
        Some(s) => quote(s),
        None => String::from_str("null"),
    };
    assert(secret@ == match sid {
        Some(s) => json_string(s),
        None => "null"@,
    });
    ms.push((String::from_str("secret_id"), secret));
    let body = json_object(&ms);
    assert(members_view(ms@) =~= seq![
        ("role_id"@, json_string(role_id@)),
        ("secret_id"@, match sid {
            Some(s) => json_string(s),
            None => "null"@,
        }),
    ]);
    login_request("/v1/auth/approle/login", body)
}

impl VaultClient<()> {
    /// Builds a client from the response to a login: its token is the
    /// `auth.client_token` of the envelope, and a response without `auth`
    /// fails with `Error::Vault`.
    pub fn from_login(hosts: &[&str], login: RawResponse) -> (r: Result<VaultClient<()>, Error>)
        ensures
            hosts@.len() == 0 ==> (r matches Err(e) && e is Vault),
            hosts@.len() > 0 && !all_hosts_parse(hosts@) ==> (r matches Err(e) && e is Url),
            all_hosts_parse(hosts@) && hosts@.len() > 0 ==> {
                &&& !is_success(login.status) ==> r == Err::<VaultClient<()>, Error>(
                    Error::Transport(TransportError::RemoteRejected { status: login.status, body: login.body }),
                )
                &&& is_success(login.status) && !body_decodes::<VaultResponse<()>>(login.body@) ==> (r matches Err(e) && is_malformed(e, login.body@))
                &&& is_success(login.status) ==> forall|d: VaultResponse<()>| #[trigger] body_decodes_to(login.body@, d) ==> {
                    &&& d.auth is None ==> (r matches Err(e) && e is Vault)
                    &&& d.auth is Some ==> r is Ok
                }
            },
            r matches Ok(c) ==> {
                &&& hosts_parsed(hosts@, c.hosts@)
                &&& c.data matches Some(d) && body_decodes_to(login.body@, d) && (d.auth matches Some(
                    a,
                ) && c.token == a.client_token)
            },
    {
        let hosts = match parse_hosts(hosts) {
            Ok(h) => h,
            Err(e) => return Err(e),
        };
        let body = match check_status(login) {
            Ok(b) => b,
            Err(e) => return Err(e),
        };
        let decoded = match parse_vault_response::<VaultResponse<()>>(body.as_str()) {
            Ok(d) => d,
            Err(e) => return Err(e),
        };
        let token = match &decoded.auth {
            Some(a) => a.client_token.clone(),
            None => return Err(Error::Vault(String::from_str("No client token found in response"))),
        };
        Ok(VaultClient { hosts, token, data: Some(decoded) })
    }

    /// Builds a client that trusts a token without looking it up, as a
    /// single-use wrapping token must be: nothing is sent. Fails only on the
    /// host list.
    pub fn new_no_lookup(hosts: &[&str], token: &str) -> (r: Result<VaultClient<()>, Error>)
        ensures
            hosts@.len() == 0 ==> (r matches Err(e) && e is Vault),
            hosts@.len() > 0 ==> (r is Ok <==> all_hosts_parse(hosts@)),
            hosts@.len() > 0 && !all_hosts_parse(hosts@) ==> (r matches Err(e) && e is Url),
            r matches Ok(c) ==> hosts_parsed(hosts@, c.hosts@) && c.token@ == token@ && c.data is None,
    {
        match parse_hosts(hosts) {
            Ok(h) => Ok(VaultClient { hosts: h, token: String::from_str(token), data: None }),
            Err(e) => Err(e),
        }
    }
}

/// The error for a response outside 2xx: it carries the status and the body.
pub open spec fn rejected(resp: RawResponse) -> Error {
    Error::Transport(TransportError::RemoteRejected { status: resp.status, body: resp.body })
}

/// The body of a renewal request.
pub open spec fn renew_body_text(increment: Option<u64>) -> Seq<char> {
    object_text(seq![("increment"@, match increment {
        Some(n) => decimal_of(n as nat),
        None => "null"@,
    })])
}

/// The body that stores a secret.
pub open spec fn secret_body_text(value: Seq<char>) -> Seq<char> {
    object_text(seq![("value"@, json_string(value))])
}

/// The mount point of the transit backend: the given one or `transit`.
pub open spec fn transit_mount(mountpoint: Option<Seq<char>>) -> Seq<char> {
    match mountpoint {
        Some(m) => m,
        None => "transit"@,
    }
}

/// The view of an optional string.
pub open spec fn opt_view(o: Option<&str>) -> Option<Seq<char>> {
    match o {
        Some(s) => Some(s@),
        None => None,
    }
}

fn renew_body(increment: Option<u64>) -> (r: String)
    ensures
        r@ == renew_body_text(increment),
{
    let value = match increment {
        Some(n) => decimal(n),
        None => String::from_str("null"),
    };
    let ghost v = value@;
    let mut ms: Vec<(String, String)> = Vec::new();
    ms.push((String::from_str("increment"), value));
    assert(members_view(ms@) =~= seq![("increment"@, v)]);
    json_object(&ms)
}

fn path_of(prefix: &str, name: &str) -> (r: String)
    ensures
        r@ == prefix@ + name@,
{
    String::from_str(prefix).concat(name)
}

impl<T> VaultClient<T> {
    fn request(&self, verb: HttpVerb, path: &str, body: Option<&str>, wrap_ttl: Option<&str>) -> (r: Request)
        ensures
            request_is(r, self.token@, verb, path@, opt_view(body), opt_view(wrap_ttl)),
    {
        build_request(self.token.as_str(), verb, path, body, wrap_ttl)
    }

    /// The request that renews the client's own token.
    pub fn renew_request(&self) -> (r: Request)
        ensures
            request_is(r, self.token@, HttpVerb::POST, "/v1/auth/token/renew-self"@, None, None),
    {
        self.request(HttpVerb::POST, "/v1/auth/token/renew-self", None, None)
    }

    /// The request that renews the lease of another token.
    pub fn renew_token_request(&self, token: &str, increment: Option<u64>) -> (r: Request)
        ensures
            request_is(
                r,
                self.token@,
                HttpVerb::POST,
                "/v1/auth/token/renew/"@ + token@,
                Some(renew_body_text(increment)),
                None,
            ),
    {
        let body = renew_body(increment);
        self.request(HttpVerb::POST, path_of("/v1/auth/token/renew/", token).as_str(), Some(body.as_str()), None)
    }

    /// The request that revokes the client's own token.
    pub fn revoke_request(&self) -> (r: Request)
        ensures
            request_is(r, self.token@, HttpVerb::POST, "/v1/auth/token/revoke-self"@, None, None),
    {
        self.request(HttpVerb::POST, "/v1/auth/token/revoke-self", None, None)
    }

    /// The request that renews a lease that the token controls.
    pub fn renew_lease_request(&self, lease_id: &str, increment: Option<u64>) -> (r: Request)
        ensures
            request_is(
                r,
                self.token@,
                HttpVerb::PUT,
                "/v1/sys/renew/"@ + lease_id@,
                Some(renew_body_text(increment)),
                None,
            ),
    {
        let body = renew_body(increment);
        self.request(HttpVerb::PUT, path_of("/v1/sys/renew/", lease_id).as_str(), Some(body.as_str()), None)
    }

    /// The request that looks up the client's own token.
    pub fn lookup_request(&self) -> (r: Request)
        ensures
            request_is(r, self.token@, HttpVerb::GET, "/v1/auth/token/lookup-self"@, None, None),
    {
        self.request(HttpVerb::GET, "/v1/auth/token/lookup-self", None, None)
    }

    /// The request that creates a token with the given options.
    pub fn create_token_request(&self, opts: &TokenOptions) -> (r: Request)
        ensures
            request_is(
                r,
                self.token@,
                HttpVerb::POST,
                "/v1/auth/token/create"@,
                Some(token_options_text(*opts)),
                None,
            ),
    {
        let body = opts.to_json();
        self.request(HttpVerb::POST, "/v1/auth/token/create", Some(body.as_str()), None)
    }

    /// The request that stores a secret under `key`.
    pub fn set_secret_request(&self, key: &str, value: &str) -> (r: Request)
        ensures
            request_is(
                r,
                self.token@,
                HttpVerb::POST,
                "/v1/secret/"@ + key@,
                Some(secret_body_text(value@)),
                None,
            ),
    {
        let mut ms: Vec<(String, String)> = Vec::new();
        ms.push((String::from_str("value"), quote(value)));
        assert(members_view(ms@) =~= seq![("value"@, json_string(value@))]);
        let body = json_object(&ms);
        self.request(HttpVerb::POST, path_of("/v1/secret/", key).as_str(), Some(body.as_str()), None)
    }

    /// The request that reads the secret under `key`.
    pub fn get_secret_request(&self, key: &str) -> (r: Request)
        ensures
            request_is(r, self.token@, HttpVerb::GET, "/v1/secret/"@ + key@, None, None),
    {
        self.request(HttpVerb::GET, path_of("/v1/secret/", key).as_str(), None, None)
    }

    /// The request that reads the secret under `key`, wrapped for `wrap_ttl`.
    pub fn get_secret_wrapped_request(&self, key: &str, wrap_ttl: &str) -> (r: Request)
        ensures
            request_is(r, self.token@, HttpVerb::GET, "/v1/secret/"@ + key@, None, Some(wrap_ttl@)),
    {
        self.request(HttpVerb::GET, path_of("/v1/secret/", key).as_str(), None, Some(wrap_ttl))
    }

    /// The request that exchanges the client's token, a wrapping token, for
    /// the wrapped response.
    pub fn get_unwrapped_response_request(&self) -> (r: Request)
        ensures
            request_is(r, self.token@, HttpVerb::POST, "/v1/sys/wrapping/unwrap"@, None, None),
    {
        self.request(HttpVerb::POST, "/v1/sys/wrapping/unwrap", None, None)
    }

    /// The request that reads the properties of an `AppRole`.
    pub fn get_app_role_properties_request(&self, role_name: &str) -> (r: Request)
        ensures
            request_is(r, self.token@, HttpVerb::GET, "/v1/auth/approle/role/"@ + role_name@, None, None),
    {
        self.request(HttpVerb::GET, path_of("/v1/auth/approle/role/", role_name).as_str(), None, None)
    }

    /// The request that encrypts `plaintext` with the transit key `key`.
    pub fn transit_encrypt_request(&self, mountpoint: Option<&str>, key: &str, plaintext: &[u8]) -> (r: Request)
        ensures
            request_is(
                r,
                self.token@,
                HttpVerb::POST,
                "/v1/"@ + transit_mount(opt_view(mountpoint)) + "/encrypt/"@ + key@,
                Some(encrypt_body_text(plaintext@)),
                None,
            ),
            b64_decoded(b64_encoded(plaintext@)) == Some(plaintext@),
    {
        let mount = match mountpoint {
            Some(m) => m,
            None => "transit",
        };
        let path = String::from_str("/v1/").concat(mount).concat("/encrypt/").concat(key);
        let body = encrypt_body(plaintext);
        self.request(HttpVerb::POST, path.as_str(), Some(body.as_str()), None)
    }

    /// The request that decrypts `ciphertext` with the transit key `key`.
    pub fn transit_decrypt_request(&self, mountpoint: Option<&str>, key: &str, ciphertext: &[u8]) -> (r: Request)
        ensures
            request_is(
                r,
                self.token@,
                HttpVerb::POST,
                "/v1/"@ + transit_mount(opt_view(mountpoint)) + "/decrypt/"@ + key@,
                Some(decrypt_body_text(ciphertext@)),
                None,
            ),
    {
        let mount = match mountpoint {
            Some(m) => m,
            None => "transit",
        };
        let path = String::from_str("/v1/").concat(mount).concat("/decrypt/").concat(key);
        let body = decrypt_body(ciphertext);
        self.request(HttpVerb::POST, path.as_str(), Some(body.as_str()), None)
    }

    /// The request of the escape hatch: any verb on any endpoint under `/v1/`,
    /// with an optional wrap time-to-live and body.
    pub fn call_endpoint_request(
        &self,
        http_verb: HttpVerb,
        endpoint: &str,
        wrap_ttl: Option<&str>,
        body: Option<&str>,
    ) -> (r: Request)
        ensures
            request_is(r, self.token@, http_verb, "/v1/"@ + endpoint@, opt_view(body), opt_view(wrap_ttl)),
    {
        self.request(http_verb, path_of("/v1/", endpoint).as_str(), body, wrap_ttl)
    }

    /// The request that deletes the secret under `key`.
    pub fn delete_secret_request(&self, key: &str) -> (r: Request)
        ensures
            request_is(r, self.token@, HttpVerb::DELETE, "/v1/secret/"@ + key@, None, None),
    {
        self.request(HttpVerb::DELETE, path_of("/v1/secret/", key).as_str(), None, None)
    }

    /// The request that issues PostgreSQL credentials for the role `name`.
    pub fn get_postgresql_backend_request(&self, name: &str) -> (r: Request)
        ensures
            request_is(r, self.token@, HttpVerb::GET, "/v1/postgresql/creds/"@ + name@, None, None),
    {
        self.request(HttpVerb::GET, path_of("/v1/postgresql/creds/", name).as_str(), None, None)
    }

    /// The request that lists the policy names.
    pub fn policies_request(&self) -> (r: Request)
        ensures
            request_is(r, self.token@, HttpVerb::GET, "/v1/sys/policy"@, None, None),
    {
        self.request(HttpVerb::GET, "/v1/sys/policy", None, None)
    }
}

/// Reads a response into an envelope with payload `D`: a status outside
/// 2xx is `RemoteRejected`, a body that does not decode is `Malformed`.
pub fn read_envelope<D: FromJson>(resp: RawResponse) -> (r: Result<VaultResponse<D>, Error>)
    ensures
        !is_success(resp.status) ==> r == Err::<VaultResponse<D>, Error>(rejected(resp)),
        is_success(resp.status) ==> (r is Ok <==> body_decodes::<VaultResponse<D>>(resp.body@)),
        is_success(resp.status) ==> (r matches Err(e) ==> is_malformed(e, resp.body@)),
        r matches Ok(v) ==> body_decodes_to(resp.body@, v),
{
    let body = match check_status(resp) {
        Ok(b) => b,
        Err(e) => return Err(e),
    };
    parse_vault_response::<VaultResponse<D>>(body.as_str())
}

/// Reads a response whose body does not matter: only the status counts.
pub fn read_status(resp: RawResponse) -> (r: Result<(), Error>)
    ensures
        is_success(resp.status) ==> r is Ok,
        !is_success(resp.status) ==> r == Err::<(), Error>(rejected(resp)),
{
    match check_status(resp) {
        Ok(_) => Ok(()),
        Err(e) => Err(e),
    }
}

/// The outcome of reading the `auth` block of a response: `Error::Vault`
/// where the envelope has none.
pub open spec fn auth_response_is(resp: RawResponse, r: Result<Auth, Error>) -> bool {
    &&& !is_success(resp.status) ==> r == Err::<Auth, Error>(rejected(resp))
    &&& is_success(resp.status) && !body_decodes::<VaultResponse<()>>(resp.body@) ==> (r matches Err(e) && is_malformed(e, resp.body@))
    &&& is_success(resp.status) ==> forall|d: VaultResponse<()>| #[trigger] body_decodes_to(resp.body@, d) ==> {
        &&& d.auth is None ==> (r matches Err(e) && e is Vault)
        &&& d.auth is Some ==> r is Ok
    }
    &&& r matches Ok(a) ==> exists|d: VaultResponse<()>| body_decodes_to(resp.body@, d) && d.auth == Some(a)
}

fn read_auth(resp: RawResponse, message: &str) -> (r: Result<Auth, Error>)
    ensures
        auth_response_is(resp, r),
{
    let ghost resp0 = resp;
    let d = match read_envelope::<()>(resp) {
        Ok(d) => d,
        Err(e) => return Err(e),
    };
    let ghost d0 = d;
    assert(body_decodes_to(resp0.body@, d0));
    match d.auth {
        Some(a) => {
            proof { lemma_envelope_auth_unique(resp0.body@, d0); }
            Ok(a)
        },
        None => {
            proof { lemma_envelope_auth_unique(resp0.body@, d0); }
            Err(Error::Vault(String::from_str(message)))
        },
    }
}

/// Two envelopes decoded from the same body have the same `auth` block.
proof fn lemma_envelope_auth_unique(body: Seq<char>, d: VaultResponse<()>)
    requires
        body_decodes_to(body, d),
    ensures
        forall|d2: VaultResponse<()>| #[trigger] body_decodes_to(body, d2) ==> (d2.auth is Some <==> d.auth is Some),
{
}

/// Reads the answer to a token renewal: the new `auth` block.
pub fn renew_token_response(resp: RawResponse) -> (r: Result<Auth, Error>)
    ensures
        auth_response_is(resp, r),
{
    read_auth(resp, "No auth data returned while renewing token")
}

/// Reads the answer to a token creation: the `auth` block of the new token.
pub fn create_token_response(resp: RawResponse) -> (r: Result<Auth, Error>)
    ensures
        auth_response_is(resp, r),
{
    read_auth(resp, "Created token did not include auth data")
}

/// Reads a stored secret: the `value` of the payload.
pub fn get_secret_response(resp: RawResponse) -> (r: Result<String, Error>)
    ensures
        !is_success(resp.status) ==> r == Err::<String, Error>(rejected(resp)),
        is_success(resp.status) && !body_decodes::<VaultResponse<SecretData>>(resp.body@) ==> (r matches Err(e) && is_malformed(e, resp.body@)),
        is_success(resp.status) ==> forall|d: VaultResponse<SecretData>| #[trigger] body_decodes_to(resp.body@, d) ==> {
            &&& d.data is None ==> (r matches Err(e) && e is Vault)
            &&& d.data matches Some(s) ==> r == Ok::<String, Error>(s.value)
        },
{
    let d = match read_envelope::<SecretData>(resp) {
        Ok(d) => d,
        Err(e) => return Err(e),
    };
    match d.data {
        Some(s) => Ok(s.value),
        None => Err(Error::Vault(String::from_str("No secret found in response"))),
    }
}

/// Reads the answer to a transit encryption into ciphertext bytes.
pub fn transit_encrypt_response(resp: RawResponse) -> (r: Result<Vec<u8>, Error>)
    ensures
        !is_success(resp.status) ==> r == Err::<Vec<u8>, Error>(rejected(resp)),
        r matches Ok(v) ==> encrypt_response_is(resp.body@, v@),
        is_success(resp.status) && !body_decodes::<VaultResponse<crate::envelope::TransitEncryptedData>>(resp.body@) ==> (r matches Err(e) && is_malformed(e, resp.body@)),
        is_success(resp.status) ==> forall|d: VaultResponse<crate::envelope::TransitEncryptedData>| #[trigger] body_decodes_to(resp.body@, d) ==> {
            &&& d.data is None ==> (r matches Err(e) && e is Vault)
            &&& d.data matches Some(c) ==> {
                &&& r is Ok <==> ciphertext_ok(c.ciphertext@)
                &&& !(c.ciphertext@.len() >= 9 && c.ciphertext@.subrange(0, 9) == cipher_prefix()) ==> (r matches Err(e) && e is Vault)
            }
        },
{
    let body = match check_status(resp) {
        Ok(b) => b,
        Err(e) => return Err(e),
    };
    read_encrypt_body(body.as_str())
}

/// Reads the answer to a transit decryption into plaintext bytes.
pub fn transit_decrypt_response(resp: RawResponse) -> (r: Result<Vec<u8>, Error>)
    ensures
        !is_success(resp.status) ==> r == Err::<Vec<u8>, Error>(rejected(resp)),
        r matches Ok(v) ==> decrypt_response_is(resp.body@, v@),
        is_success(resp.status) && !body_decodes::<VaultResponse<crate::envelope::TransitDecryptedData>>(resp.body@) ==> (r matches Err(e) && is_malformed(e, resp.body@)),
        is_success(resp.status) ==> forall|d: VaultResponse<crate::envelope::TransitDecryptedData>| #[trigger] body_decodes_to(resp.body@, d) ==> {
            &&& d.data is None ==> (r matches Err(e) && e is Vault)
            &&& d.data matches Some(p) ==> {
                &&& b64_decoded(p.plaintext@) matches Some(v) ==> (r matches Ok(out) && out@ == v)
                &&& b64_decoded(p.plaintext@) is None ==> (r matches Err(e) && e is Base64)
            }
        },
{
    let body = match check_status(resp) {
        Ok(b) => b,
        Err(e) => return Err(e),
    };
    read_decrypt_body(body.as_str())
}

/// Reads the answer of the escape hatch: an empty body is `Empty`, any
/// other is decoded as an envelope with payload `D`.
pub fn call_endpoint_response<D: FromJson>(resp: RawResponse) -> (r: Result<EndpointResponse<D>, Error>)
    ensures
        !is_success(resp.status) ==> r == Err::<EndpointResponse<D>, Error>(rejected(resp)),
        is_success(resp.status) && resp.body@.len() == 0 ==> r matches Ok(EndpointResponse::Empty),
        is_success(resp.status) && resp.body@.len() > 0 ==> {
            &&& r is Ok <==> body_decodes::<VaultResponse<D>>(resp.body@)
            &&& r matches Ok(x) ==> (x matches EndpointResponse::VaultResponse(v) && body_decodes_to(resp.body@, v))
            &&& r matches Err(e) ==> is_malformed(e, resp.body@)
        },
{
    let body = match check_status(resp) {
        Ok(b) => b,
        Err(e) => return Err(e),
    };
    parse_endpoint_response::<D>(body.as_str())
}

/// Reads the answer to a request made wrapped: its wrap information. An
/// empty body, or an envelope without `wrap_info`, fails with
/// `MissingWrapInfo`.
pub fn wrap_info_response(resp: RawResponse) -> (r: Result<WrapInfo, Error>)
    ensures
        !is_success(resp.status) ==> r == Err::<WrapInfo, Error>(rejected(resp)),
        is_success(resp.status) && resp.body@.len() == 0 ==> r == Err::<WrapInfo, Error>(Error::MissingWrapInfo),
        is_success(resp.status) && resp.body@.len() > 0 && !body_decodes::<VaultResponse<()>>(resp.body@) ==> (r matches Err(e) && is_malformed(e, resp.body@)),
        is_success(resp.status) && resp.body@.len() > 0 ==> forall|d: VaultResponse<()>| #[trigger] body_decodes_to(resp.body@, d) ==> {
            &&& d.wrap_info is None ==> r == Err::<WrapInfo, Error>(Error::MissingWrapInfo)
            &&& d.wrap_info matches Some(w) ==> r == Ok::<WrapInfo, Error>(w)
        },
{
    let ghost body = resp.body@;
    match call_endpoint_response::<()>(resp) {
        Ok(EndpointResponse::VaultResponse(d)) => {
            let ghost d0 = d;
            proof { lemma_envelope_wrap_unique(body, d0); }
            match d.wrap_info {
                Some(w) => Ok(w),
                None => Err(Error::MissingWrapInfo),
            }
        },
        Ok(EndpointResponse::Empty) => Err(Error::MissingWrapInfo),
        Err(e) => Err(e),
    }
}

/// Two envelopes decoded from the same body have the same wrap information.
proof fn lemma_envelope_wrap_unique(body: Seq<char>, d: VaultResponse<()>)
    requires
        body_decodes_to(body, d),
    ensures
        forall|d2: VaultResponse<()>| #[trigger] body_decodes_to(body, d2) ==> d2.wrap_info == d.wrap_info,
{
}

/// Reads the answer to a wrapped secret read: the envelope, which must carry
/// wrap information; one without fails with `MissingWrapInfo`.
pub fn get_secret_wrapped_response(resp: RawResponse) -> (r: Result<VaultResponse<()>, Error>)
    ensures
        !is_success(resp.status) ==> r == Err::<VaultResponse<()>, Error>(rejected(resp)),
        is_success(resp.status) && !body_decodes::<VaultResponse<()>>(resp.body@) ==> (r matches Err(e) && is_malformed(e, resp.body@)),
        is_success(resp.status) ==> forall|d: VaultResponse<()>| #[trigger] body_decodes_to(resp.body@, d) ==> {
            &&& d.wrap_info is None ==> r == Err::<VaultResponse<()>, Error>(Error::MissingWrapInfo)
            &&& d.wrap_info is Some ==> r is Ok
        },
        r matches Ok(v) ==> body_decodes_to(resp.body@, v) && v.wrap_info is Some,
{
    let ghost body = resp.body@;
    let d = match read_envelope::<()>(resp) {
        Ok(d) => d,
        Err(e) => return Err(e),
    };
    let ghost d0 = d;
    proof { lemma_envelope_wrap_unique(body, d0); }
    if d.wrap_info.is_some() {
        Ok(d)
    } else {
        Err(Error::MissingWrapInfo)
    }
}

/// Reads the single-use wrapping token out of the answer to a wrapped request.
pub fn get_wrapping_token_response(resp: RawResponse) -> (r: Result<String, Error>)
    ensures
        !is_success(resp.status) ==> r == Err::<String, Error>(rejected(resp)),
        is_success(resp.status) && resp.body@.len() == 0 ==> r == Err::<String, Error>(Error::MissingWrapInfo),
        is_success(resp.status) && resp.body@.len() > 0 && !body_decodes::<VaultResponse<()>>(resp.body@) ==> (r matches Err(e) && is_malformed(e, resp.body@)),
        is_success(resp.status) && resp.body@.len() > 0 ==> forall|d: VaultResponse<()>| #[trigger] body_decodes_to(resp.body@, d) ==> {
            &&& d.wrap_info is None ==> r == Err::<String, Error>(Error::MissingWrapInfo)
            &&& d.wrap_info matches Some(w) ==> r == Ok::<String, Error>(w.token)
        },
{
    match wrap_info_response(resp) {
        Ok(w) => Ok(w.token),
        Err(e) => Err(e),
    }
}

/// The envelope that an unwrap answer carries: the outer envelope's payload
/// holds the JSON text of the wrapped one.
pub open spec fn unwrapped_is<D: FromJson>(body: Seq<char>, v: VaultResponse<D>) -> bool {
    exists|outer: VaultResponse<WrapData>| {
        &&& body_decodes_to(body, outer)
        &&& outer.data matches Some(w)
        &&& body_decodes_to(w.response@, v)
    }
}

/// Reads the answer to an unwrap call: decodes the outer envelope, then the
/// JSON text under `data.response` as an envelope with payload `D`.
pub fn unwrap_response<D: FromJson>(resp: RawResponse) -> (r: Result<VaultResponse<D>, Error>)
    ensures
        !is_success(resp.status) ==> r == Err::<VaultResponse<D>, Error>(rejected(resp)),
        r matches Ok(v) ==> unwrapped_is(resp.body@, v),
        is_success(resp.status) && !body_decodes::<VaultResponse<WrapData>>(resp.body@) ==> (r matches Err(e) && is_malformed(e, resp.body@)),
        is_success(resp.status) ==> forall|outer: VaultResponse<WrapData>| #[trigger] body_decodes_to(resp.body@, outer) ==> {
            &&& outer.data is None ==> (r matches Err(e) && e is Vault)
            &&& outer.data matches Some(w) ==> {
                &&& r is Ok <==> body_decodes::<VaultResponse<D>>(w.response@)
                &&& r matches Err(e) ==> is_malformed(e, w.response@)
            }
        },
{
    let outer = match read_envelope::<WrapData>(resp) {
        Ok(o) => o,
        Err(e) => return Err(e),
    };
    match outer.data {
        Some(w) => parse_vault_response::<VaultResponse<D>>(w.response.as_str()),
        None => Err(Error::Vault(String::from_str("No wrapped response found in response"))),
    }
}

/// Reads the list of policy names.
pub fn policies_response(resp: RawResponse) -> (r: Result<Vec<String>, Error>)
    ensures
        !is_success(resp.status) ==> r == Err::<Vec<String>, Error>(rejected(resp)),
        is_success(resp.status) ==> (r is Ok <==> body_decodes::<PoliciesResponse>(resp.body@)),
        is_success(resp.status) ==> (r matches Err(e) ==> is_malformed(e, resp.body@)),
        r matches Ok(v) ==> exists|p: PoliciesResponse| body_decodes_to(resp.body@, p) && p.policies == v,
{
    let body = match check_status(resp) {
        Ok(b) => b,
        Err(e) => return Err(e),
    };
    match parse_vault_response::<PoliciesResponse>(body.as_str()) {
        Ok(p) => Ok(p.policies),
        Err(e) => Err(e),
    }
}

impl<T: FromJson> VaultClient<T> {
    /// Reads the answer to renewing the client's own token, and keeps its
    /// `auth` block in the envelope the client holds, if any.
    pub fn renew_response(&mut self, resp: RawResponse) -> (r: Result<(), Error>)
        ensures
            !is_success(resp.status) ==> r == Err::<(), Error>(rejected(resp)),
            is_success(resp.status) ==> (r is Ok <==> body_decodes::<VaultResponse<T>>(resp.body@)),
            r is Err ==> *final(self) == *old(self),
            final(self).hosts == old(self).hosts,
            final(self).token == old(self).token,
            r is Ok ==> match old(self).data {
                Some(d) => final(self).data matches Some(d2) && exists|v: VaultResponse<T>|
                    body_decodes_to(resp.body@, v) && d2 == (VaultResponse { auth: v.auth, ..d }),
                None => final(self).data is None,
            },
    {
        let v = match read_envelope::<T>(resp) {
            Ok(v) => v,
            Err(e) => return Err(e),
        };
        let ghost v0 = v;
        match self.data.take() {
            Some(d) => {
                self.data = Some(VaultResponse { auth: v.auth, ..d });
            },
            None => {},
        }
        Ok(())
    }
}

/// Wrapping then unwrapping: a client built without lookup from the token of
/// a wrapped answer sends that very token with its unwrap request, and the
/// envelope read back from the unwrap answer is the one whose JSON text the
/// answer carries, that is the payload that was wrapped.
pub proof fn lemma_unwrap_round_trip<D: FromJson>(
    wrapped: Seq<char>,
    d: VaultResponse<()>,
    w: WrapInfo,
    c: VaultClient<()>,
    req: Request,
    answer: Seq<char>,
    outer: VaultResponse<WrapData>,
    v: VaultResponse<D>,
)
    requires
        body_decodes_to(wrapped, d),
        d.wrap_info == Some(w),
        c.token@ == w.token@,
        request_is(req, c.token@, HttpVerb::POST, "/v1/sys/wrapping/unwrap"@, None, None),
        body_decodes_to(answer, outer),
        outer.data matches Some(payload) && body_decodes_to(payload.response@, v),
    ensures
        req.headers@[0].0@ == "X-Vault-Token"@ && req.headers@[0].1@ == w.token@,
        unwrapped_is(answer, v),
{
}

} // verus!
