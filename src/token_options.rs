//! Options for creating a token, and the JSON body they are sent as.
use vstd::prelude::*;
use vstd::string::*;
use crate::duration::VaultDuration;
use crate::json::{json_object, json_string, json_string_array, members_view, object_text, quote, string_array_text};
use crate::text::{decimal, decimal_of};

verus! {

/// Options for creating a token. An option left unset is sent as `null`,
/// and the service applies its default.
#[derive(Debug, Clone, PartialEq)]
pub struct TokenOptions {
    pub id: Option<String>,
    pub policies: Option<Vec<String>>,
    pub no_parent: Option<bool>,
    pub no_default_policy: Option<bool>,
    pub renewable: Option<bool>,
    /// Time-to-live, as whole seconds followed by `s`.
    pub ttl: Option<String>,
    /// Maximum time-to-live, as whole seconds followed by `s`.
    pub explicit_max_ttl: Option<String>,
    pub display_name: Option<String>,
    pub num_uses: Option<u64>,
}

impl Default for TokenOptions {
    fn default() -> (r: TokenOptions)
        ensures
            r == TokenOptions::unset(),
    {
        TokenOptions {
            id: None,
            policies: None,
            no_parent: None,
            no_default_policy: None,
            renewable: None,
            ttl: None,
            explicit_max_ttl: None,
            display_name: None,
            num_uses: None,
        }
    }
}

/// The text of a duration option: whole seconds followed by `s`.
pub open spec fn duration_text(d: VaultDuration) -> Seq<char> {
    decimal_of(d.secs()) + "s"@
}

impl TokenOptions {
    /// Options with nothing set.
    pub open spec fn unset() -> TokenOptions {
        TokenOptions {
            id: None,
            policies: None,
            no_parent: None,
            no_default_policy: None,
            renewable: None,
            ttl: None,
            explicit_max_ttl: None,
            display_name: None,
            num_uses: None,
        }
    }

    /// Sets the id of the created token. This may make the token easy to guess.
    pub fn id(self, id: &str) -> (r: TokenOptions)
        ensures
            r == (TokenOptions { id: r.id, ..self }),
            r.id matches Some(s) && s@ == id@,
    {
        TokenOptions { id: Some(String::from_str(id)), ..self }
    }

    /// Sets the policies granted to the created token.
    pub fn policies(self, policies: Vec<&str>) -> (r: TokenOptions)
        ensures
            r == (TokenOptions { policies: r.policies, ..self }),
            r.policies matches Some(v) && v@.len() == policies@.len() && forall|i: int|
                0 <= i < policies@.len() ==> (#[trigger] v@[i])@ == policies@[i]@,
    {
        let mut v: Vec<String> = Vec::new();
        let mut i: usize = 0;
        while i < policies.len()
            invariant
                i <= policies@.len(),
                v@.len() == i,
                forall|k: int| 0 <= k < i ==> (#[trigger] v@[k])@ == policies@[k]@,
            decreases policies@.len() - i,
        {
            v.push(String::from_str(policies[i]));
            i = i + 1;
        }
        TokenOptions { policies: Some(v), ..self }
    }

    /// Whether the `default` policy is granted; sets `no_default_policy` to
    /// the opposite.
    pub fn default_policy(self, enable: bool) -> (r: TokenOptions)
        ensures
            r == (TokenOptions { no_default_policy: Some(!enable), ..self }),
    {
        TokenOptions { no_default_policy: Some(!enable), ..self }
    }

    /// Whether the token is an orphan, with no parent, so that it outlives
    /// the token that created it; sets `no_parent` to `orphan`.
    pub fn orphan(self, orphan: bool) -> (r: TokenOptions)
        ensures
            r == (TokenOptions { no_parent: Some(orphan), ..self }),
    {
        TokenOptions { no_parent: Some(orphan), ..self }
    }

    /// Whether the token can be renewed.
    pub fn renewable(self, renewable: bool) -> (r: TokenOptions)
        ensures
            r == (TokenOptions { renewable: Some(renewable), ..self }),
    {
        TokenOptions { renewable: Some(renewable), ..self }
    }

    /// The name of the token in logs.
    pub fn display_name(self, name: &str) -> (r: TokenOptions)
        ensures
            r == (TokenOptions { display_name: r.display_name, ..self }),
            r.display_name matches Some(s) && s@ == name@,
    {
        TokenOptions { display_name: Some(String::from_str(name)), ..self }
    }

    /// How many times the token can be used.
    pub fn number_of_uses(self, uses: u64) -> (r: TokenOptions)
        ensures
            r == (TokenOptions { num_uses: Some(uses), ..self }),
    {
        TokenOptions { num_uses: Some(uses), ..self }
    }

    /// How long the token stays valid.
    pub fn ttl(self, ttl: VaultDuration) -> (r: TokenOptions)
        ensures
            r == (TokenOptions { ttl: r.ttl, ..self }),
            r.ttl matches Some(s) && s@ == duration_text(ttl),
    {
        let s = decimal(ttl.as_secs()).concat("s");
        TokenOptions { ttl: Some(s), ..self }
    }

    /// How long the token stays valid, however often it is renewed.
    pub fn explicit_max_ttl(self, ttl: VaultDuration) -> (r: TokenOptions)
        ensures
            r == (TokenOptions { explicit_max_ttl: r.explicit_max_ttl, ..self }),
            r.explicit_max_ttl matches Some(s) && s@ == duration_text(ttl),
    {
        let s = decimal(ttl.as_secs()).concat("s");
        TokenOptions { explicit_max_ttl: Some(s), ..self }
    }
}

/// JSON text of an optional string.
pub open spec fn opt_string_text(o: Option<String>) -> Seq<char> {
    match o {
        Some(s) => json_string(s@),
        None => "null"@,
    }
}

/// JSON text of an optional flag.
pub open spec fn opt_bool_text(o: Option<bool>) -> Seq<char> {
    match o {
        Some(true) => "true"@,
        Some(false) => "false"@,
        None => "null"@,
    }
}

/// JSON text of an optional count.
pub open spec fn opt_u64_text(o: Option<u64>) -> Seq<char> {
    match o {
        Some(n) => decimal_of(n as nat),
        None => "null"@,
    }
}

/// JSON text of an optional list of strings.
pub open spec fn opt_list_text(o: Option<Vec<String>>) -> Seq<char> {
    match o {
        Some(v) => string_array_text(v@),
        None => "null"@,
    }
}

/// The JSON body of a token creation: every option, in declaration order.
pub open spec fn token_options_text(o: TokenOptions) -> Seq<char> {
    object_text(
        seq![
            ("id"@, opt_string_text(o.id)),
            ("policies"@, opt_list_text(o.policies)),
            ("no_parent"@, opt_bool_text(o.no_parent)),
            ("no_default_policy"@, opt_bool_text(o.no_default_policy)),
            ("renewable"@, opt_bool_text(o.renewable)),
            ("ttl"@, opt_string_text(o.ttl)),
            ("explicit_max_ttl"@, opt_string_text(o.explicit_max_ttl)),
            ("display_name"@, opt_string_text(o.display_name)),
            ("num_uses"@, opt_u64_text(o.num_uses)),
        ],
    )
}

fn opt_string_json(o: &Option<String>) -> (r: String)
    ensures
        r@ == opt_string_text(*o),
{
    match o {
        Some(s) => quote(s.as_str()),
        None => String::from_str("null"),
    }
}

fn opt_bool_json(o: Option<bool>) -> (r: String)
    ensures
        r@ == opt_bool_text(o),
{
    match o {
        Some(true) => String::from_str("true"),
        Some(false) => String::from_str("false"),
        None => String::from_str("null"),
    }
}

fn opt_u64_json(o: Option<u64>) -> (r: String)
    ensures
        r@ == opt_u64_text(o),
{
    match o {
        Some(n) => decimal(n),
        None => String::from_str("null"),
    }
}

fn opt_list_json(o: &Option<Vec<String>>) -> (r: String)
    ensures
        r@ == opt_list_text(*o),
{
    match o {
        Some(v) => json_string_array(v),
        None => String::from_str("null"),
    }
}

impl TokenOptions {
    /// The JSON body that creates a token with these options.
    pub fn to_json(&self) -> (r: String)
        ensures
            r@ == token_options_text(*self),
    {
        let mut ms: Vec<(String, String)> = Vec::new();
        ms.push((String::from_str("id"), opt_string_json(&self.id)));
        ms.push((String::from_str("policies"), opt_list_json(&self.policies)));
        ms.push((String::from_str("no_parent"), opt_bool_json(self.no_parent)));
        ms.push((String::from_str("no_default_policy"), opt_bool_json(self.no_default_policy)));
        ms.push((String::from_str("renewable"), opt_bool_json(self.renewable)));
        ms.push((String::from_str("ttl"), opt_string_json(&self.ttl)));
        ms.push((String::from_str("explicit_max_ttl"), opt_string_json(&self.explicit_max_ttl)));
        ms.push((String::from_str("display_name"), opt_string_json(&self.display_name)));
        ms.push((String::from_str("num_uses"), opt_u64_json(self.num_uses)));
        assert(members_view(ms@) =~= seq![
            ("id"@, opt_string_text(self.id)),
            ("policies"@, opt_list_text(self.policies)),
            ("no_parent"@, opt_bool_text(self.no_parent)),
            ("no_default_policy"@, opt_bool_text(self.no_default_policy)),
            ("renewable"@, opt_bool_text(self.renewable)),
            ("ttl"@, opt_string_text(self.ttl)),
            ("explicit_max_ttl"@, opt_string_text(self.explicit_max_ttl)),
            ("display_name"@, opt_string_text(self.display_name)),
            ("num_uses"@, opt_u64_text(self.num_uses)),
        ]);
        json_object(&ms)
    }
}

} // verus!
