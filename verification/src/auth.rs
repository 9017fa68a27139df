use vstd::prelude::*;
use vstd::string::StringExecFns;

use crate::error::JsonDecodable;
use crate::json::json_str_member2;
use crate::json::json_str_at;
use crate::json::json_u64_at;
use crate::json::json_u64_member;
use crate::json::json_u64_member2;
use crate::json::json_u64_of;
use crate::scope::parse_scopes;
use crate::scope::parse_scopes_wire;
use crate::scope::scopes_to_wire;
use crate::scope::scopes_wire;
use crate::scope::Scope;
use crate::urlenc::urlencode;
use crate::urlenc::urlencoded;

verus! {

/// Configuration of the authorization client: credentials, callback, the
/// requested scope set and an optional opaque mode string. Immutable once
/// constructed; the response type is the constant `code`.
#[derive(Debug, Clone)]
pub struct AuthCli {
    pub response_type: String,
    pub client_id: String,
    pub consumer_secret: String,
    pub callback_uri: String,
    pub scope: Vec<Scope>,
    pub mode: Option<String>,
    pub base_api_url: String,
}

/// Form body of the authorization-code-for-tokens exchange.
#[derive(Debug, Clone, PartialEq)]
pub struct AccessTokenRequest {
    pub action: String,
    pub grant_type: String,
    pub client_id: String,
    pub client_secret: String,
    pub redirect_uri: String,
    pub code: String,
}

/// Decoded envelope of a successful access-token exchange.
#[derive(Debug, Clone, PartialEq)]
pub struct AccessTokenResponse {
    pub status: u64,
    pub body: AccessToken,
}

/// Payload of a successful access-token exchange.
#[derive(Debug, Clone, PartialEq)]
pub struct AccessToken {
    pub user_id: u64,
    pub access_token: String,
    pub refresh_token: String,
    pub expires_in: u64,
    pub scope: Vec<Scope>,
    pub token_type: String,
}

/// Form body of the refresh-token exchange.
#[derive(Debug, Clone, PartialEq)]
pub struct RefreshTokenRequest {
    pub action: String,
    pub grant_type: String,
    pub client_id: String,
    pub client_secret: String,
    pub refresh_token: String,
}

/// Decoded envelope of a successful refresh-token exchange.
#[derive(Debug, Clone, PartialEq)]
pub struct RefreshTokenResponse {
    pub status: u64,
    pub body: RefreshToken,
}

/// Payload of a successful refresh-token exchange.
#[derive(Debug, Clone, PartialEq)]
pub struct RefreshToken {
    pub user_id: u64,
    pub access_token: String,
    pub refresh_token: String,
    pub expires_in: u64,
    pub scope: Vec<Scope>,
    pub token_type: String,
}

/// Whether the vendor's token envelope in `v` is well formed: the top-level
/// `status` is an unsigned integer, the `body` member carries the five
/// token fields with their expected JSON types, and the comma-joined scope
/// string parses into recognized tags.
pub open spec fn token_envelope_decodable(v: serde_json::Value) -> bool {
    &&& json_u64_of(v, "status"@) is Some
    &&& json_u64_at(v, "body"@, "userid"@) is Some
    &&& json_str_at(v, "body"@, "access_token"@) is Some
    &&& json_str_at(v, "body"@, "refresh_token"@) is Some
    &&& json_u64_at(v, "body"@, "expires_in"@) is Some
    &&& json_str_at(v, "body"@, "scope"@) is Some
    &&& parse_scopes_wire(json_str_at(v, "body"@, "scope"@)->0) is Some
    &&& json_str_at(v, "body"@, "token_type"@) is Some
}

/// Whether the plain fields are exactly what the token envelope `v` holds,
/// the scope string split on commas and parsed into tags.
pub open spec fn token_fields_match(
    status: u64,
    user_id: u64,
    access_token: Seq<char>,
    refresh_token: Seq<char>,
    expires_in: u64,
    scope: Seq<Scope>,
    token_type: Seq<char>,
    v: serde_json::Value,
) -> bool {
    &&& Some(status) == json_u64_of(v, "status"@)
    &&& Some(user_id) == json_u64_at(v, "body"@, "userid"@)
    &&& Some(access_token) == json_str_at(v, "body"@, "access_token"@)
    &&& Some(refresh_token) == json_str_at(v, "body"@, "refresh_token"@)
    &&& Some(expires_in) == json_u64_at(v, "body"@, "expires_in"@)
    &&& Some(scope) == parse_scopes_wire(json_str_at(v, "body"@, "scope"@)->0)
    &&& Some(token_type) == json_str_at(v, "body"@, "token_type"@)
}

impl JsonDecodable for AccessTokenResponse {
    open spec fn decodable(v: serde_json::Value) -> bool {
        token_envelope_decodable(v)
    }

    open spec fn is_decode_of(&self, v: serde_json::Value) -> bool {
        token_fields_match(
            self.status,
            self.body.user_id,
            self.body.access_token@,
            self.body.refresh_token@,
            self.body.expires_in,
            self.body.scope@,
            self.body.token_type@,
            v,
        )
    }

    fn decode(v: &serde_json::Value) -> (r: Option<Self>) {
        let status = match json_u64_member(v, "status") {
            Some(s) => s,
            None => { return None; },
        };
        let user_id = match json_u64_member2(v, "body", "userid") {
            Some(s) => s,
            None => { return None; },
        };
        let access_token = match json_str_member2(v, "body", "access_token") {
            Some(s) => s,
            None => { return None; },
        };
        let refresh_token = match json_str_member2(v, "body", "refresh_token") {
            Some(s) => s,
            None => { return None; },
        };
        let expires_in = match json_u64_member2(v, "body", "expires_in") {
            Some(s) => s,
            None => { return None; },
        };
        let scope_str = match json_str_member2(v, "body", "scope") {
            Some(s) => s,
            None => { return None; },
        };
        let scope = match parse_scopes(scope_str.as_str()) {
            Some(s) => s,
            None => { return None; },
        };
        let token_type = match json_str_member2(v, "body", "token_type") {
            Some(s) => s,
            None => { return None; },
        };
        Some(AccessTokenResponse {
            status,
            body: AccessToken {
                user_id,
                access_token,
                refresh_token,
                expires_in,
                scope,
                token_type,
            },
        })
    }
}

impl JsonDecodable for RefreshTokenResponse {
    open spec fn decodable(v: serde_json::Value) -> bool {
        token_envelope_decodable(v)
    }

    open spec fn is_decode_of(&self, v: serde_json::Value) -> bool {
        token_fields_match(
            self.status,
            self.body.user_id,
            self.body.access_token@,
            self.body.refresh_token@,
            self.body.expires_in,
            self.body.scope@,
            self.body.token_type@,
            v,
        )
    }

    fn decode(v: &serde_json::Value) -> (r: Option<Self>) {
        let status = match json_u64_member(v, "status") {
            Some(s) => s,
            None => { return None; },
        };
        let user_id = match json_u64_member2(v, "body", "userid") {
            Some(s) => s,
            None => { return None; },
        };
        let access_token = match json_str_member2(v, "body", "access_token") {
            Some(s) => s,
            None => { return None; },
        };
        let refresh_token = match json_str_member2(v, "body", "refresh_token") {
            Some(s) => s,
            None => { return None; },
        };
        let expires_in = match json_u64_member2(v, "body", "expires_in") {
            Some(s) => s,
            None => { return None; },
        };
        let scope_str = match json_str_member2(v, "body", "scope") {
            Some(s) => s,
            None => { return None; },
        };
        let scope = match parse_scopes(scope_str.as_str()) {
            Some(s) => s,
            None => { return None; },
        };
        let token_type = match json_str_member2(v, "body", "token_type") {
            Some(s) => s,
            None => { return None; },
        };
        Some(RefreshTokenResponse {
            status,
            body: RefreshToken {
                user_id,
                access_token,
                refresh_token,
                expires_in,
                scope,
                token_type,
            },
        })
    }
}

/// The `state` query value: the configured mode, or `dev` if none was set.
pub open spec fn state_param_spec(mode: Option<String>) -> Seq<char> {
    match mode {
        Some(m) => m@,
        None => "dev"@,
    }
}

/// The full authorize URL for `c`: the fixed account host and path, then
/// the query parameters in the fixed order `response_type`, `client_id`,
/// `redirect_uri`, `scope` (only for a non-empty scope set, its values
/// comma-joined), `state`; every value percent-encoded.
pub open spec fn authorize_url_spec(c: AuthCli) -> Seq<char> {
    "https://account.withings.com/oauth2_user/authorize2?response_type="@
        + urlencoded(c.response_type@) + "&client_id="@ + urlencoded(c.client_id@)
        + "&redirect_uri="@ + urlencoded(c.callback_uri@) + (if c.scope@.len() == 0 {
        Seq::<char>::empty()
    } else {
        "&scope="@ + urlencoded(scopes_wire(c.scope@))
    }) + "&state="@ + urlencoded(state_param_spec(c.mode))
}

/// For a non-empty scope set the authorize URL carries its query
/// parameters in the fixed order `response_type`, `client_id`,
/// `redirect_uri`, `scope`, `state`, the scope values comma-joined and
/// percent-encoded.
pub proof fn lemma_authorize_url_with_scopes(c: AuthCli)
    requires
        c.scope@.len() > 0,
    ensures
        authorize_url_spec(c) == "https://account.withings.com/oauth2_user/authorize2?response_type="@
            + urlencoded(c.response_type@) + "&client_id="@ + urlencoded(c.client_id@)
            + "&redirect_uri="@ + urlencoded(c.callback_uri@) + "&scope="@ + urlencoded(
            scopes_wire(c.scope@),
        ) + "&state="@ + urlencoded(state_param_spec(c.mode)),
{
    assert(authorize_url_spec(c) =~= "https://account.withings.com/oauth2_user/authorize2?response_type="@
        + urlencoded(c.response_type@) + "&client_id="@ + urlencoded(c.client_id@)
        + "&redirect_uri="@ + urlencoded(c.callback_uri@) + "&scope="@ + urlencoded(
        scopes_wire(c.scope@),
    ) + "&state="@ + urlencoded(state_param_spec(c.mode)));
}

/// For an empty scope set no `scope` parameter appears, and the `state`
/// value is the configured mode, or the literal `dev` when none is set.
pub proof fn lemma_authorize_url_empty_scope(c: AuthCli)
    requires
        c.scope@.len() == 0,
    ensures
        authorize_url_spec(c) == "https://account.withings.com/oauth2_user/authorize2?response_type="@
            + urlencoded(c.response_type@) + "&client_id="@ + urlencoded(c.client_id@)
            + "&redirect_uri="@ + urlencoded(c.callback_uri@) + "&state="@ + urlencoded(
            state_param_spec(c.mode),
        ),
        c.mode is Some ==> state_param_spec(c.mode) == c.mode->0@,
        c.mode is None ==> state_param_spec(c.mode) == "dev"@,
{
    assert(authorize_url_spec(c) =~= "https://account.withings.com/oauth2_user/authorize2?response_type="@
        + urlencoded(c.response_type@) + "&client_id="@ + urlencoded(c.client_id@)
        + "&redirect_uri="@ + urlencoded(c.callback_uri@) + "&state="@ + urlencoded(
        state_param_spec(c.mode),
    ));
}

impl AuthCli {
    /// Builds the configuration; the response type is the constant `code`.
    pub fn new(
        base_api_url: String,
        client_id: String,
        consumer_secret: String,
        callback_uri: String,
        scope: Vec<Scope>,
        mode: Option<String>,
    ) -> (r: AuthCli)
        ensures
            r.base_api_url == base_api_url,
            r.client_id == client_id,
            r.consumer_secret == consumer_secret,
            r.callback_uri == callback_uri,
            r.scope == scope,
            r.mode == mode,
            r.response_type@ == "code"@,
    {
        AuthCli {
            base_api_url,
            client_id,
            consumer_secret,
            callback_uri,
            scope,
            mode,
            response_type: String::from_str("code"),
        }
    }

    /// Assembles the URL the caller opens in a browser to authorize access.
    /// No network call is made here.
    pub fn get_authorize_url(&self) -> (r: String)
        ensures
            r@ == authorize_url_spec(*self),
    {
        let mut url = String::from_str(
            "https://account.withings.com/oauth2_user/authorize2?response_type=",
        );
        url.append(urlencode(self.response_type.as_str()).as_str());
        url.append("&client_id=");
        url.append(urlencode(self.client_id.as_str()).as_str());
        url.append("&redirect_uri=");
        url.append(urlencode(self.callback_uri.as_str()).as_str());
        if self.scope.len() > 0 {
            url.append("&scope=");
            let joined = scopes_to_wire(&self.scope);
            url.append(urlencode(joined.as_str()).as_str());
        }
        url.append("&state=");
        match &self.mode {
            Some(m) => url.append(urlencode(m.as_str()).as_str()),
            None => url.append(urlencode("dev").as_str()),
        }
        proof {
            assert(url@ =~= authorize_url_spec(*self));
        }
        url
    }

    /// The token endpoint below the configured base API URL.
    pub fn token_url(&self) -> (r: String)
        ensures
            r@ == self.base_api_url@ + "/v2/oauth2"@,
    {
        let mut url = self.base_api_url.clone();
        url.append("/v2/oauth2");
        url
    }

    /// The form body exchanging an authorization code for tokens: action
    /// `requesttoken`, grant type `authorization_code`, the configured
    /// credentials and callback, and the supplied code.
    pub fn access_token_request(&self, code: &str) -> (r: AccessTokenRequest)
        ensures
            r.action@ == "requesttoken"@,
            r.grant_type@ == "authorization_code"@,
            r.client_id == self.client_id,
            r.client_secret == self.consumer_secret,
            r.redirect_uri == self.callback_uri,
            r.code@ == code@,
    {
        AccessTokenRequest {
            action: String::from_str("requesttoken"),
            grant_type: String::from_str("authorization_code"),
            client_id: self.client_id.clone(),
            client_secret: self.consumer_secret.clone(),
            redirect_uri: self.callback_uri.clone(),
            code: String::from_str(code),
        }
    }

    /// The form body exchanging a refresh token for new tokens: action
    /// `requesttoken`, grant type `refresh_token`, the configured
    /// credentials, and the supplied refresh token.
    pub fn refresh_token_request(&self, refresh_token: &str) -> (r: RefreshTokenRequest)
        ensures
            r.action@ == "requesttoken"@,
            r.grant_type@ == "refresh_token"@,
            r.client_id == self.client_id,
            r.client_secret == self.consumer_secret,
            r.refresh_token@ == refresh_token@,
    {
        RefreshTokenRequest {
            action: String::from_str("requesttoken"),
            grant_type: String::from_str("refresh_token"),
            client_id: self.client_id.clone(),
            client_secret: self.consumer_secret.clone(),
            refresh_token: String::from_str(refresh_token),
        }
    }
}

/// The form-encoded wire body of an access-token request, its fields in
/// declaration order, every value percent-encoded.
pub open spec fn access_token_form_spec(r: AccessTokenRequest) -> Seq<char> {
    "action="@ + urlencoded(r.action@) + "&grant_type="@ + urlencoded(r.grant_type@)
        + "&client_id="@ + urlencoded(r.client_id@) + "&client_secret="@ + urlencoded(
        r.client_secret@,
    ) + "&redirect_uri="@ + urlencoded(r.redirect_uri@) + "&code="@ + urlencoded(r.code@)
}

impl AccessTokenRequest {
    /// Serializes the request as its `application/x-www-form-urlencoded`
    /// wire body.
    pub fn to_form_body(&self) -> (r: String)
        ensures
            r@ == access_token_form_spec(*self),
    {
        let mut body = String::from_str("action=");
        body.append(urlencode(self.action.as_str()).as_str());
        body.append("&grant_type=");
        body.append(urlencode(self.grant_type.as_str()).as_str());
        body.append("&client_id=");
        body.append(urlencode(self.client_id.as_str()).as_str());
        body.append("&client_secret=");
        body.append(urlencode(self.client_secret.as_str()).as_str());
        body.append("&redirect_uri=");
        body.append(urlencode(self.redirect_uri.as_str()).as_str());
        body.append("&code=");
        body.append(urlencode(self.code.as_str()).as_str());
        proof {
            assert(body@ =~= access_token_form_spec(*self));
        }
        body
    }
}

/// The form-encoded wire body of a refresh-token request, its fields in
/// declaration order, every value percent-encoded.
pub open spec fn refresh_token_form_spec(r: RefreshTokenRequest) -> Seq<char> {
    "action="@ + urlencoded(r.action@) + "&grant_type="@ + urlencoded(r.grant_type@)
        + "&client_id="@ + urlencoded(r.client_id@) + "&client_secret="@ + urlencoded(
        r.client_secret@,
    ) + "&refresh_token="@ + urlencoded(r.refresh_token@)
}

impl RefreshTokenRequest {
    /// Serializes the request as its `application/x-www-form-urlencoded`
    /// wire body.
    pub fn to_form_body(&self) -> (r: String)
        ensures
            r@ == refresh_token_form_spec(*self),
    {
        let mut body = String::from_str("action=");
        body.append(urlencode(self.action.as_str()).as_str());
        body.append("&grant_type=");
        body.append(urlencode(self.grant_type.as_str()).as_str());
        body.append("&client_id=");
        body.append(urlencode(self.client_id.as_str()).as_str());
        body.append("&client_secret=");
        body.append(urlencode(self.client_secret.as_str()).as_str());
        body.append("&refresh_token=");
        body.append(urlencode(self.refresh_token.as_str()).as_str());
        proof {
            assert(body@ =~= refresh_token_form_spec(*self));
        }
        body
    }
}

} // verus!
