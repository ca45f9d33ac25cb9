//! The response envelope and the payloads carried in it, with their
//! structural decoders, and the decoding of response bodies.
use vstd::prelude::*;
use vstd::string::*;
use crate::duration::VaultDuration;
use crate::error::{DecodeError, Error};
use crate::json::{
    field, field_is, field_ok, json_parsed, lookup_from, opt_field, opt_field_is,
    opt_field_ok, parse_json, FromJson, Json,
};
use crate::timestamp::{VaultDateTime, VaultNaiveDateTime};

verus! {

/// Authentication data returned by login, renewal and token creation.
#[derive(Debug, Clone, PartialEq)]
pub struct Auth {
    /// Client token id.
    pub client_token: String,
    /// Accessor of the token.
    pub accessor: Option<String>,
    /// Policies of the token, in the order the service gives.
    pub policies: Vec<String>,
    /// Metadata, as key and value pairs in document order.
    pub metadata: Option<Vec<(String, String)>>,
    /// Lease duration.
    pub lease_duration: Option<VaultDuration>,
    /// Whether the token is renewable.
    pub renewable: bool,
}

impl FromJson for Auth {
    open spec fn json_accepts(j: Json) -> bool {
        match j {
            Json::Object(fs) => {
                &&& field_ok::<String>(fs@, "client_token"@)
                &&& opt_field_ok::<String>(fs@, "accessor"@)
                &&& field_ok::<Vec<String>>(fs@, "policies"@)
                &&& opt_field_ok::<Vec<(String, String)>>(fs@, "metadata"@)
                &&& opt_field_ok::<VaultDuration>(fs@, "lease_duration"@)
                &&& field_ok::<bool>(fs@, "renewable"@)
            },
            _ => false,
        }
    }

    open spec fn decoded_from(v: Auth, j: Json) -> bool {
        match j {
            Json::Object(fs) => {
                &&& field_is::<String>(fs@, "client_token"@, v.client_token)
                &&& opt_field_is::<String>(fs@, "accessor"@, v.accessor)
                &&& field_is::<Vec<String>>(fs@, "policies"@, v.policies)
                &&& opt_field_is::<Vec<(String, String)>>(fs@, "metadata"@, v.metadata)
                &&& opt_field_is::<VaultDuration>(fs@, "lease_duration"@, v.lease_duration)
                &&& field_is::<bool>(fs@, "renewable"@, v.renewable)
            },
            _ => false,
        }
    }

    fn from_json(j: &Json) -> (r: Option<Auth>) {
        match j {
            Json::Object(fs) => {
                let client_token = match field::<String>(fs, "client_token") {
                    Some(x) => x,
                    None => return None,
                };
                let accessor = match opt_field::<String>(fs, "accessor") {
                    Some(x) => x,
                    None => return None,
                };
                let policies = match field::<Vec<String>>(fs, "policies") {
                    Some(x) => x,
                    None => return None,
                };
                let metadata = match opt_field::<Vec<(String, String)>>(fs, "metadata") {
                    Some(x) => x,
                    None => return None,
                };
                let lease_duration = match opt_field::<VaultDuration>(fs, "lease_duration") {
                    Some(x) => x,
                    None => return None,
                };
                let renewable = match field::<bool>(fs, "renewable") {
                    Some(x) => x,
                    None => return None,
                };
                Some(Auth { client_token, accessor, policies, metadata, lease_duration, renewable })
            },
            _ => None,
        }
    }
}

/// Information needed to fetch a wrapped response.
#[derive(Debug, Clone, PartialEq)]
pub struct WrapInfo {
    /// Time-to-live of the wrapping token.
    pub ttl: VaultDuration,
    /// The single-use wrapping token.
    pub token: String,
    /// Creation time, sent as RFC 3339 text.
    pub creation_time: VaultDateTime,
    /// Accessor of the wrapped token.
    pub wrapped_accessor: Option<String>,
}

impl FromJson for WrapInfo {
    open spec fn json_accepts(j: Json) -> bool {
        match j {
            Json::Object(fs) => {
                &&& field_ok::<VaultDuration>(fs@, "ttl"@)
                &&& field_ok::<String>(fs@, "token"@)
                &&& field_ok::<VaultDateTime>(fs@, "creation_time"@)
                &&& opt_field_ok::<String>(fs@, "wrapped_accessor"@)
            },
            _ => false,
        }
    }

    open spec fn decoded_from(v: WrapInfo, j: Json) -> bool {
        match j {
            Json::Object(fs) => {
                &&& field_is::<VaultDuration>(fs@, "ttl"@, v.ttl)
                &&& field_is::<String>(fs@, "token"@, v.token)
                &&& field_is::<VaultDateTime>(fs@, "creation_time"@, v.creation_time)
                &&& opt_field_is::<String>(fs@, "wrapped_accessor"@, v.wrapped_accessor)
            },
            _ => false,
        }
    }

    fn from_json(j: &Json) -> (r: Option<WrapInfo>) {
        match j {
            Json::Object(fs) => {
                let ttl = match field::<VaultDuration>(fs, "ttl") {
                    Some(x) => x,
                    None => return None,
                };
                let token = match field::<String>(fs, "token") {
                    Some(x) => x,
                    None => return None,
                };
                let creation_time = match field::<VaultDateTime>(fs, "creation_time") {
                    Some(x) => x,
                    None => return None,
                };
                let wrapped_accessor = match opt_field::<String>(fs, "wrapped_accessor") {
                    Some(x) => x,
                    None => return None,
                };
                Some(WrapInfo { ttl, token, creation_time, wrapped_accessor })
            },
            _ => None,
        }
    }
}

/// Token information, the payload of a token lookup.
#[derive(Debug, Clone, PartialEq)]
pub struct TokenData {
    /// Accessor token.
    pub accessor: Option<String>,
    /// Creation time, sent as seconds since the epoch.
    pub creation_time: VaultNaiveDateTime,
    /// Creation time-to-live.
    pub creation_ttl: Option<VaultDuration>,
    /// Display name.
    pub display_name: String,
    /// Maximum time-to-live.
    pub explicit_max_ttl: Option<VaultDuration>,
    /// Token id.
    pub id: String,
    /// Last renewal time.
    pub last_renewal_time: Option<VaultDuration>,
    /// Metadata, as key and value pairs in document order.
    pub meta: Option<Vec<(String, String)>>,
    /// Number of uses (0: unlimited).
    pub num_uses: u64,
    /// Whether the token is an orphan.
    pub orphan: bool,
    /// Path.
    pub path: String,
    /// Policies of the token.
    pub policies: Vec<String>,
    /// Whether the token is renewable.
    pub renewable: Option<bool>,
    /// Role.
    pub role: Option<String>,
    /// Time-to-live.
    pub ttl: VaultDuration,
}

impl FromJson for TokenData {
    open spec fn json_accepts(j: Json) -> bool {
        match j {
            Json::Object(fs) => {
                &&& opt_field_ok::<String>(fs@, "accessor"@)
                &&& field_ok::<VaultNaiveDateTime>(fs@, "creation_time"@)
                &&& opt_field_ok::<VaultDuration>(fs@, "creation_ttl"@)
                &&& field_ok::<String>(fs@, "display_name"@)
                &&& opt_field_ok::<VaultDuration>(fs@, "explicit_max_ttl"@)
                &&& field_ok::<String>(fs@, "id"@)
                &&& opt_field_ok::<VaultDuration>(fs@, "last_renewal_time"@)
                &&& opt_field_ok::<Vec<(String, String)>>(fs@, "meta"@)
                &&& field_ok::<u64>(fs@, "num_uses"@)
                &&& field_ok::<bool>(fs@, "orphan"@)
                &&& field_ok::<String>(fs@, "path"@)
                &&& field_ok::<Vec<String>>(fs@, "policies"@)
                &&& opt_field_ok::<bool>(fs@, "renewable"@)
                &&& opt_field_ok::<String>(fs@, "role"@)
                &&& field_ok::<VaultDuration>(fs@, "ttl"@)
            },
            _ => false,
        }
    }

    open spec fn decoded_from(v: TokenData, j: Json) -> bool {
        match j {
            Json::Object(fs) => {
                &&& opt_field_is::<String>(fs@, "accessor"@, v.accessor)
                &&& field_is::<VaultNaiveDateTime>(fs@, "creation_time"@, v.creation_time)
                &&& opt_field_is::<VaultDuration>(fs@, "creation_ttl"@, v.creation_ttl)
                &&& field_is::<String>(fs@, "display_name"@, v.display_name)
                &&& opt_field_is::<VaultDuration>(fs@, "explicit_max_ttl"@, v.explicit_max_ttl)
                &&& field_is::<String>(fs@, "id"@, v.id)
                &&& opt_field_is::<VaultDuration>(fs@, "last_renewal_time"@, v.last_renewal_time)
                &&& opt_field_is::<Vec<(String, String)>>(fs@, "meta"@, v.meta)
                &&& field_is::<u64>(fs@, "num_uses"@, v.num_uses)
                &&& field_is::<bool>(fs@, "orphan"@, v.orphan)
                &&& field_is::<String>(fs@, "path"@, v.path)
                &&& field_is::<Vec<String>>(fs@, "policies"@, v.policies)
                &&& opt_field_is::<bool>(fs@, "renewable"@, v.renewable)
                &&& opt_field_is::<String>(fs@, "role"@, v.role)
                &&& field_is::<VaultDuration>(fs@, "ttl"@, v.ttl)
            },
            _ => false,
        }
    }

    fn from_json(j: &Json) -> (r: Option<TokenData>) {
        match j {
            Json::Object(fs) => {
                let accessor = match opt_field::<String>(fs, "accessor") {
                    Some(x) => x,
                    None => return None,
                };
                let creation_time = match field::<VaultNaiveDateTime>(fs, "creation_time") {
                    Some(x) => x,
                    None => return None,
                };
                let creation_ttl = match opt_field::<VaultDuration>(fs, "creation_ttl") {
                    Some(x) => x,
                    None => return None,
                };
                let display_name = match field::<String>(fs, "display_name") {
                    Some(x) => x,
                    None => return None,
                };
                let explicit_max_ttl = match opt_field::<VaultDuration>(fs, "explicit_max_ttl") {
                    Some(x) => x,
                    None => return None,
                };
                let id = match field::<String>(fs, "id") {
                    Some(x) => x,
                    None => return None,
                };
                let last_renewal_time = match opt_field::<VaultDuration>(fs, "last_renewal_time") {
                    Some(x) => x,
                    None => return None,
                };
                let meta = match opt_field::<Vec<(String, String)>>(fs, "meta") {
                    Some(x) => x,
                    None => return None,
                };
                let num_uses = match field::<u64>(fs, "num_uses") {
                    Some(x) => x,
                    None => return None,
                };
                let orphan = match field::<bool>(fs, "orphan") {
                    Some(x) => x,
                    None => return None,
                };
                let path = match field::<String>(fs, "path") {
                    Some(x) => x,
                    None => return None,
                };
                let policies = match field::<Vec<String>>(fs, "policies") {
                    Some(x) => x,
                    None => return None,
                };
                let renewable = match opt_field::<bool>(fs, "renewable") {
                    Some(x) => x,
                    None => return None,
                };
                let role = match opt_field::<String>(fs, "role") {
                    Some(x) => x,
                    None => return None,
                };
                let ttl = match field::<VaultDuration>(fs, "ttl") {
                    Some(x) => x,
                    None => return None,
                };
                Some(TokenData { accessor, creation_time, creation_ttl, display_name, explicit_max_ttl, id, last_renewal_time, meta, num_uses, orphan, path, policies, renewable, role, ttl })
            },
            _ => None,
        }
    }
}

/// Properties of an `AppRole`.
#[derive(Debug, Clone, PartialEq)]
pub struct AppRoleProperties {
    /// Whether a `secret_id` must be presented at login.
    pub bind_secret_id: bool,
    /// Comma-separated CIDR blocks allowed to log in.
    pub bound_cidr_list: String,
    /// Period of the tokens issued through the role.
    pub period: VaultDuration,
    /// Policies set on tokens issued through the role.
    pub policies: Vec<String>,
    /// Number of uses of a `SecretID`.
    pub secret_id_num_uses: u64,
    /// Duration after which a `SecretID` expires.
    pub secret_id_ttl: VaultDuration,
    /// Duration after which an issued token can no longer be renewed.
    pub token_max_ttl: VaultDuration,
}

impl FromJson for AppRoleProperties {
    open spec fn json_accepts(j: Json) -> bool {
        match j {
            Json::Object(fs) => {
                &&& field_ok::<bool>(fs@, "bind_secret_id"@)
                &&& field_ok::<String>(fs@, "bound_cidr_list"@)
                &&& field_ok::<VaultDuration>(fs@, "period"@)
                &&& field_ok::<Vec<String>>(fs@, "policies"@)
                &&& field_ok::<u64>(fs@, "secret_id_num_uses"@)
                &&& field_ok::<VaultDuration>(fs@, "secret_id_ttl"@)
                &&& field_ok::<VaultDuration>(fs@, "token_max_ttl"@)
            },
            _ => false,
        }
    }

    open spec fn decoded_from(v: AppRoleProperties, j: Json) -> bool {
        match j {
            Json::Object(fs) => {
                &&& field_is::<bool>(fs@, "bind_secret_id"@, v.bind_secret_id)
                &&& field_is::<String>(fs@, "bound_cidr_list"@, v.bound_cidr_list)
                &&& field_is::<VaultDuration>(fs@, "period"@, v.period)
                &&& field_is::<Vec<String>>(fs@, "policies"@, v.policies)
                &&& field_is::<u64>(fs@, "secret_id_num_uses"@, v.secret_id_num_uses)
                &&& field_is::<VaultDuration>(fs@, "secret_id_ttl"@, v.secret_id_ttl)
                &&& field_is::<VaultDuration>(fs@, "token_max_ttl"@, v.token_max_ttl)
            },
            _ => false,
        }
    }

    fn from_json(j: &Json) -> (r: Option<AppRoleProperties>) {
        match j {
            Json::Object(fs) => {
                let bind_secret_id = match field::<bool>(fs, "bind_secret_id") {
                    Some(x) => x,
                    None => return None,
                };
                let bound_cidr_list = match field::<String>(fs, "bound_cidr_list") {
                    Some(x) => x,
                    None => return None,
                };
                let period = match field::<VaultDuration>(fs, "period") {
                    Some(x) => x,
                    None => return None,
                };
                let policies = match field::<Vec<String>>(fs, "policies") {
                    Some(x) => x,
                    None => return None,
                };
                let secret_id_num_uses = match field::<u64>(fs, "secret_id_num_uses") {
                    Some(x) => x,
                    None => return None,
                };
                let secret_id_ttl = match field::<VaultDuration>(fs, "secret_id_ttl") {
                    Some(x) => x,
                    None => return None,
                };
                let token_max_ttl = match field::<VaultDuration>(fs, "token_max_ttl") {
                    Some(x) => x,
                    None => return None,
                };
                Some(AppRoleProperties { bind_secret_id, bound_cidr_list, period, policies, secret_id_num_uses, secret_id_ttl, token_max_ttl })
            },
            _ => None,
        }
    }
}

/// Credentials issued by the PostgreSQL secret backend.
#[derive(Debug, Clone, PartialEq)]
pub struct PostgresqlLogin {
    /// Password.
    pub password: String,
    /// Username.
    pub username: String,
}

impl FromJson for PostgresqlLogin {
    open spec fn json_accepts(j: Json) -> bool {
        match j {
            Json::Object(fs) => {
                &&& field_ok::<String>(fs@, "password"@)
                &&& field_ok::<String>(fs@, "username"@)
            },
            _ => false,
        }
    }

    open spec fn decoded_from(v: PostgresqlLogin, j: Json) -> bool {
        match j {
            Json::Object(fs) => {
                &&& field_is::<String>(fs@, "password"@, v.password)
                &&& field_is::<String>(fs@, "username"@, v.username)
            },
            _ => false,
        }
    }

    fn from_json(j: &Json) -> (r: Option<PostgresqlLogin>) {
        match j {
            Json::Object(fs) => {
                let password = match field::<String>(fs, "password") {
                    Some(x) => x,
                    None => return None,
                };
                let username = match field::<String>(fs, "username") {
                    Some(x) => x,
                    None => return None,
                };
                Some(PostgresqlLogin { password, username })
            },
            _ => None,
        }
    }
}

/// Payload of a `LIST` request.
#[derive(Debug, Clone, PartialEq)]
pub struct ListResponse {
    /// The items listed.
    pub keys: Vec<String>,
}

impl FromJson for ListResponse {
    open spec fn json_accepts(j: Json) -> bool {
        match j {
            Json::Object(fs) => {
                field_ok::<Vec<String>>(fs@, "keys"@)
            },
            _ => false,
        }
    }

    open spec fn decoded_from(v: ListResponse, j: Json) -> bool {
        match j {
            Json::Object(fs) => {
                field_is::<Vec<String>>(fs@, "keys"@, v.keys)
            },
            _ => false,
        }
    }

    fn from_json(j: &Json) -> (r: Option<ListResponse>) {
        match j {
            Json::Object(fs) => {
                let keys = match field::<Vec<String>>(fs, "keys") {
                    Some(x) => x,
                    None => return None,
                };
                Some(ListResponse { keys })
            },
            _ => None,
        }
    }
}

/// Payload of an unwrap call: the wrapped response as JSON text.
#[derive(Debug, Clone, PartialEq)]
pub struct WrapData {
    /// JSON text of the wrapped envelope.
    pub response: String,
}

impl FromJson for WrapData {
    open spec fn json_accepts(j: Json) -> bool {
        match j {
            Json::Object(fs) => {
                field_ok::<String>(fs@, "response"@)
            },
            _ => false,
        }
    }

    open spec fn decoded_from(v: WrapData, j: Json) -> bool {
        match j {
            Json::Object(fs) => {
                field_is::<String>(fs@, "response"@, v.response)
            },
            _ => false,
        }
    }

    fn from_json(j: &Json) -> (r: Option<WrapData>) {
        match j {
            Json::Object(fs) => {
                let response = match field::<String>(fs, "response") {
                    Some(x) => x,
                    None => return None,
                };
                Some(WrapData { response })
            },
            _ => None,
        }
    }
}

/// Payload of a generic secret.
#[derive(Debug, Clone, PartialEq)]
pub struct SecretData {
    /// The secret.
    pub value: String,
}

impl FromJson for SecretData {
    open spec fn json_accepts(j: Json) -> bool {
        match j {
            Json::Object(fs) => {
                field_ok::<String>(fs@, "value"@)
            },
            _ => false,
        }
    }

    open spec fn decoded_from(v: SecretData, j: Json) -> bool {
        match j {
            Json::Object(fs) => {
                field_is::<String>(fs@, "value"@, v.value)
            },
            _ => false,
        }
    }

    fn from_json(j: &Json) -> (r: Option<SecretData>) {
        match j {
            Json::Object(fs) => {
                let value = match field::<String>(fs, "value") {
                    Some(x) => x,
                    None => return None,
                };
                Some(SecretData { value })
            },
            _ => None,
        }
    }
}

/// Payload of a transit encryption.
#[derive(Debug, Clone, PartialEq)]
pub struct TransitEncryptedData {
    /// Versioned ciphertext.
    pub ciphertext: String,
}

impl FromJson for TransitEncryptedData {
    open spec fn json_accepts(j: Json) -> bool {
        match j {
            Json::Object(fs) => {
                field_ok::<String>(fs@, "ciphertext"@)
            },
            _ => false,
        }
    }

    open spec fn decoded_from(v: TransitEncryptedData, j: Json) -> bool {
        match j {
            Json::Object(fs) => {
                field_is::<String>(fs@, "ciphertext"@, v.ciphertext)
            },
            _ => false,
        }
    }

    fn from_json(j: &Json) -> (r: Option<TransitEncryptedData>) {
        match j {
            Json::Object(fs) => {
                let ciphertext = match field::<String>(fs, "ciphertext") {
                    Some(x) => x,
                    None => return None,
                };
                Some(TransitEncryptedData { ciphertext })
            },
            _ => None,
        }
    }
}

/// Payload of a transit decryption.
#[derive(Debug, Clone, PartialEq)]
pub struct TransitDecryptedData {
    /// Plaintext, base64-encoded.
    pub plaintext: String,
}

impl FromJson for TransitDecryptedData {
    open spec fn json_accepts(j: Json) -> bool {
        match j {
            Json::Object(fs) => {
                field_ok::<String>(fs@, "plaintext"@)
            },
            _ => false,
        }
    }

    open spec fn decoded_from(v: TransitDecryptedData, j: Json) -> bool {
        match j {
            Json::Object(fs) => {
                field_is::<String>(fs@, "plaintext"@, v.plaintext)
            },
            _ => false,
        }
    }

    fn from_json(j: &Json) -> (r: Option<TransitDecryptedData>) {
        match j {
            Json::Object(fs) => {
                let plaintext = match field::<String>(fs, "plaintext") {
                    Some(x) => x,
                    None => return None,
                };
                Some(TransitDecryptedData { plaintext })
            },
            _ => None,
        }
    }
}

/// Response to a policy listing.
#[derive(Debug, Clone, PartialEq)]
pub struct PoliciesResponse {
    /// Names of the policies.
    pub policies: Vec<String>,
}

impl FromJson for PoliciesResponse {
    open spec fn json_accepts(j: Json) -> bool {
        match j {
            Json::Object(fs) => {
                field_ok::<Vec<String>>(fs@, "policies"@)
            },
            _ => false,
        }
    }

    open spec fn decoded_from(v: PoliciesResponse, j: Json) -> bool {
        match j {
            Json::Object(fs) => {
                field_is::<Vec<String>>(fs@, "policies"@, v.policies)
            },
            _ => false,
        }
    }

    fn from_json(j: &Json) -> (r: Option<PoliciesResponse>) {
        match j {
            Json::Object(fs) => {
                let policies = match field::<Vec<String>>(fs, "policies") {
                    Some(x) => x,
                    None => return None,
                };
                Some(PoliciesResponse { policies })
            },
            _ => None,
        }
    }
}

/// The response envelope; `D` is the type of its payload.
#[derive(Debug, Clone, PartialEq)]
pub struct VaultResponse<D> {
    /// Lease id.
    pub lease_id: Option<String>,
    /// Whether the lease is renewable.
    pub renewable: Option<bool>,
    /// Lease duration.
    pub lease_duration: Option<VaultDuration>,
    /// The payload; absent where the endpoint returns none.
    pub data: Option<D>,
    /// Warnings.
    pub warnings: Option<Vec<String>>,
    /// Authentication data.
    pub auth: Option<Auth>,
    /// Wrap information, holding the token to unwrap with.
    pub wrap_info: Option<WrapInfo>,
}

impl<D: FromJson> FromJson for VaultResponse<D> {
    open spec fn json_accepts(j: Json) -> bool {
        match j {
            Json::Object(fs) => {
                &&& opt_field_ok::<String>(fs@, "lease_id"@)
                &&& opt_field_ok::<bool>(fs@, "renewable"@)
                &&& opt_field_ok::<VaultDuration>(fs@, "lease_duration"@)
                &&& opt_field_ok::<D>(fs@, "data"@)
                &&& opt_field_ok::<Vec<String>>(fs@, "warnings"@)
                &&& opt_field_ok::<Auth>(fs@, "auth"@)
                &&& opt_field_ok::<WrapInfo>(fs@, "wrap_info"@)
            },
            _ => false,
        }
    }

    open spec fn decoded_from(v: VaultResponse<D>, j: Json) -> bool {
        match j {
            Json::Object(fs) => {
                &&& opt_field_is::<String>(fs@, "lease_id"@, v.lease_id)
                &&& opt_field_is::<bool>(fs@, "renewable"@, v.renewable)
                &&& opt_field_is::<VaultDuration>(fs@, "lease_duration"@, v.lease_duration)
                &&& opt_field_is::<D>(fs@, "data"@, v.data)
                &&& opt_field_is::<Vec<String>>(fs@, "warnings"@, v.warnings)
                &&& opt_field_is::<Auth>(fs@, "auth"@, v.auth)
                &&& opt_field_is::<WrapInfo>(fs@, "wrap_info"@, v.wrap_info)
            },
            _ => false,
        }
    }

    fn from_json(j: &Json) -> (r: Option<VaultResponse<D>>) {
        match j {
            Json::Object(fs) => {
                let lease_id = match opt_field::<String>(fs, "lease_id") {
                    Some(x) => x,
                    None => return None,
                };
                let renewable = match opt_field::<bool>(fs, "renewable") {
                    Some(x) => x,
                    None => return None,
                };
                let lease_duration = match opt_field::<VaultDuration>(fs, "lease_duration") {
                    Some(x) => x,
                    None => return None,
                };
                let data = match opt_field::<D>(fs, "data") {
                    Some(x) => x,
                    None => return None,
                };
                let warnings = match opt_field::<Vec<String>>(fs, "warnings") {
                    Some(x) => x,
                    None => return None,
                };
                let auth = match opt_field::<Auth>(fs, "auth") {
                    Some(x) => x,
                    None => return None,
                };
                let wrap_info = match opt_field::<WrapInfo>(fs, "wrap_info") {
                    Some(x) => x,
                    None => return None,
                };
                Some(VaultResponse { lease_id, renewable, lease_duration, data, warnings, auth, wrap_info })
            },
            _ => None,
        }
    }
}

/// The result of a call that may answer with an empty body.
#[derive(Debug, Clone, PartialEq)]
pub enum EndpointResponse<D> {
    /// A decoded envelope.
    VaultResponse(VaultResponse<D>),
    /// An empty, but still successful, response.
    Empty,
}

/// The error for a body that does not decode: it carries the body.
pub open spec fn is_malformed(e: Error, body: Seq<char>) -> bool {
    e matches Error::Decode(DecodeError::Malformed(m)) && m@ == body
}

/// `body` is JSON text that decodes to `v`.
pub open spec fn body_decodes_to<T: FromJson>(body: Seq<char>, v: T) -> bool {
    json_parsed(body) matches Some(j) && T::decoded_from(v, j)
}

/// `body` is JSON text of the shape of a `T`.
pub open spec fn body_decodes<T: FromJson>(body: Seq<char>) -> bool {
    json_parsed(body) matches Some(j) && T::json_accepts(j)
}

/// Decodes a response body into `T`; fails with `Malformed`, carrying the
/// body, where it is not JSON of that shape.
pub fn parse_vault_response<T: FromJson>(body: &str) -> (r: Result<T, Error>)
    ensures
        r is Ok <==> body_decodes::<T>(body@),
        r matches Ok(v) ==> body_decodes_to(body@, v),
        r matches Err(e) ==> is_malformed(e, body@),
{
    match parse_json(body) {
        Some(j) => match T::from_json(&j) {
            Some(v) => Ok(v),
            None => Err(Error::Decode(DecodeError::Malformed(String::from_str(body)))),
        },
        None => Err(Error::Decode(DecodeError::Malformed(String::from_str(body)))),
    }
}

/// Decodes the body of a successful call: an empty body is `Empty`, any
/// other is decoded as an envelope.
pub fn parse_endpoint_response<D: FromJson>(body: &str) -> (r: Result<EndpointResponse<D>, Error>)
    ensures
        body@.len() == 0 ==> r matches Ok(EndpointResponse::Empty),
        body@.len() > 0 ==> {
            &&& r is Ok <==> body_decodes::<VaultResponse<D>>(body@)
            &&& r matches Ok(x) ==> x matches EndpointResponse::VaultResponse(v) && body_decodes_to(
                body@,
                v,
            )
            &&& r matches Err(e) ==> is_malformed(e, body@)
        },
{
    if body.is_empty() {
        Ok(EndpointResponse::Empty)
    } else {
        match parse_vault_response::<VaultResponse<D>>(body) {
            Ok(v) => Ok(EndpointResponse::VaultResponse(v)),
            Err(e) => Err(e),
        }
    }
}

/// A member inserted at position `i` under the name `k` leaves the lookup of
/// every other name unchanged, from position `j` on.
proof fn lemma_lookup_from_insert(
    fs: Seq<(String, Json)>,
    i: int,
    m: (String, Json),
    key: Seq<char>,
    j: int,
)
    requires
        0 <= i <= fs.len(),
        0 <= j <= fs.len() + 1,
        m.0@ != key,
    ensures
        j <= i ==> lookup_from(fs.insert(i, m), key, j) == lookup_from(fs, key, j),
        j > i ==> lookup_from(fs.insert(i, m), key, j) == lookup_from(fs, key, j - 1),
    decreases fs.len() + 1 - j,
{
    let ins = fs.insert(i, m);
    if j < fs.len() + 1 {
        lemma_lookup_from_insert(fs, i, m, key, j + 1);
        if j < i {
            assert(ins[j] == fs[j]);
        } else if j == i {
            assert(ins[j] == m);
            if i < fs.len() {
                assert(lookup_from(fs.insert(i, m), key, j + 1) == lookup_from(fs, key, j));
            }
        } else {
            assert(ins[j] == fs[j - 1]);
        }
    }
}

/// The names of the members of an envelope.
pub open spec fn envelope_member(k: Seq<char>) -> bool {
    k == "lease_id"@ || k == "renewable"@ || k == "lease_duration"@ || k == "data"@ || k
        == "warnings"@ || k == "auth"@ || k == "wrap_info"@
}

/// Decoding ignores unknown members: an envelope object with one more
/// member, whose name is not one of the envelope's, is accepted exactly when
/// the object without it is, and decodes to the same values.
pub proof fn lemma_unknown_member_ignored<D: FromJson>(
    a: Vec<(String, Json)>,
    b: Vec<(String, Json)>,
    i: int,
    extra: (String, Json),
)
    requires
        0 <= i <= a@.len(),
        b@ == a@.insert(i, extra),
        !envelope_member(extra.0@),
    ensures
        VaultResponse::<D>::json_accepts(Json::Object(b)) == VaultResponse::<D>::json_accepts(
            Json::Object(a),
        ),
        forall|v: VaultResponse<D>|
            VaultResponse::<D>::decoded_from(v, Json::Object(b))
                == VaultResponse::<D>::decoded_from(v, Json::Object(a)),
{
    lemma_lookup_from_insert(a@, i, extra, "lease_id"@, 0);
    lemma_lookup_from_insert(a@, i, extra, "renewable"@, 0);
    lemma_lookup_from_insert(a@, i, extra, "lease_duration"@, 0);
    lemma_lookup_from_insert(a@, i, extra, "data"@, 0);
    lemma_lookup_from_insert(a@, i, extra, "warnings"@, 0);
    lemma_lookup_from_insert(a@, i, extra, "auth"@, 0);
    lemma_lookup_from_insert(a@, i, extra, "wrap_info"@, 0);
}

} // verus!
