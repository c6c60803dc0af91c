use vstd::prelude::*;

use crate::form::{encode, form_encoded, pairs_view};
use crate::json::{json_quoted, json_str_at, json_u64_at, quote, string_at, u64_at};

verus! {

/// Endpoint that hands out device codes.
pub const DEVICE_CODE_ENDPOINT: &'static str = "https://oauth2.googleapis.com/device/code";

/// Endpoint of both grants that yield tokens.
pub const TOKEN_ENDPOINT: &'static str = "https://oauth2.googleapis.com/token";

/// The access asked for: uploading videos.
pub const UPLOAD_SCOPE: &'static str = "https://www.googleapis.com/auth/youtube.upload";

/// `grant_type` of the device-authorization grant.
pub const DEVICE_GRANT: &'static str = "urn:ietf:params:oauth:grant-type:device_code";

/// The application's OAuth2 client, from the secrets file.
pub struct ClientSecret {
    pub client_id: String,
    pub client_secret: String,
}

/// A bearer token, with the refresh token that renews it when there is one.
#[derive(Clone, Debug, PartialEq, Eq)]
pub struct Credential {
    pub access_token: String,
    pub refresh_token: Option<String>,
}

/// Why no credential was obtained.
#[derive(Clone, Copy, Debug, PartialEq, Eq)]
pub enum AuthError {
    /// The secrets file lacks a string `client_id` or `client_secret`.
    MalformedSecrets,
    /// A grant request failed at the network level.
    Unreachable,
    /// The device-code endpoint answered with a status outside `2xx`.
    DeviceCodeRefused { status: u16 },
    /// A successful reply did not hold what its grant promises.
    MalformedReply,
    /// The user did not complete the authorization in time.
    Expired,
}

/// Where the acquisition of a credential stands.
#[derive(Clone, Debug, PartialEq, Eq)]
pub enum AuthState {
    /// The token store is being read.
    LoadingStore,
    /// A refresh grant with the stored refresh token is in flight.
    Refreshing { refresh_token: String },
    /// A device code is being requested.
    RequestingCode,
    /// A poll of the token endpoint is in flight, `waited` seconds after the
    /// device code was issued; the code is valid for `expires_in` seconds and
    /// polls are `interval` seconds apart.
    Polling { device_code: String, waited: u64, expires_in: u64, interval: u64 },
    /// The new refresh token is being written to the token store.
    Saving { credential: Credential },
    Done { credential: Credential },
    Failed { error: AuthError },
}

/// What came back from the request that the last step asked for.
#[derive(Clone, Debug, PartialEq, Eq)]
pub enum AuthEvent {
    /// The token store was read; `None` when it is missing or unreadable.
    StoreRead { text: Option<String> },
    /// An endpoint answered.
    Replied { status: u16, body: String },
    /// A request failed at the network level.
    Unreachable,
    /// Writing the token store was attempted.
    Saved,
}

/// The work to do next.
#[derive(Clone, Debug, PartialEq, Eq)]
pub enum AuthRequest {
    /// Read the token store.
    ReadStore,
    /// POST the refresh grant `form` to the token endpoint.
    Refresh { form: String },
    /// POST `form` to the device-code endpoint.
    RequestCode { form: String },
    /// Show the operator where to go and which code to enter, then wait
    /// `wait` seconds and POST the device grant `form` to the token endpoint.
    ShowCodeAndPoll { verification_url: String, user_code: String, wait: u64, form: String },
    /// Wait `wait` seconds, then POST the device grant `form` again.
    Poll { wait: u64, form: String },
    /// Replace the token store's contents.
    WriteStore { contents: String },
    /// Nothing more to do.
    Stop,
}

/// A credential with its strings seen as character sequences.
pub struct CredentialView {
    pub access_token: Seq<char>,
    pub refresh_token: Option<Seq<char>>,
}

/// An [`AuthState`] seen abstractly.
pub enum AuthStateView {
    LoadingStore,
    Refreshing { refresh_token: Seq<char> },
    RequestingCode,
    Polling { device_code: Seq<char>, waited: u64, expires_in: u64, interval: u64 },
    Saving { credential: CredentialView },
    Done { credential: CredentialView },
    Failed { error: AuthError },
}

/// An [`AuthEvent`] seen abstractly.
pub enum AuthEventView {
    StoreRead { text: Option<Seq<char>> },
    Replied { status: u16, body: Seq<char> },
    Unreachable,
    Saved,
}

/// An [`AuthRequest`] seen abstractly.
pub enum AuthRequestView {
    ReadStore,
    Refresh { form: Seq<char> },
    RequestCode { form: Seq<char> },
    ShowCodeAndPoll { verification_url: Seq<char>, user_code: Seq<char>, wait: u64, form: Seq<char> },
    Poll { wait: u64, form: Seq<char> },
    WriteStore { contents: Seq<char> },
    Stop,
}

/// What a device-code reply holds.
pub struct DeviceCodeView {
    pub device_code: Seq<char>,
    pub user_code: Seq<char>,
    pub verification_url: Seq<char>,
    pub expires_in: u64,
    pub interval: u64,
}

/// An optional string seen as an optional character sequence.
pub open spec fn opt_view(o: Option<String>) -> Option<Seq<char>> {
    match o {
        Some(s) => Some(s@),
        None => None,
    }
}

impl View for Credential {
    type V = CredentialView;

    open spec fn view(&self) -> CredentialView {
        CredentialView { access_token: self.access_token@, refresh_token: opt_view(self.refresh_token) }
    }
}

impl View for AuthState {
    type V = AuthStateView;

    open spec fn view(&self) -> AuthStateView {
        match *self {
            AuthState::LoadingStore => AuthStateView::LoadingStore,
            AuthState::Refreshing { refresh_token } => AuthStateView::Refreshing { refresh_token: refresh_token@ },
            AuthState::RequestingCode => AuthStateView::RequestingCode,
            AuthState::Polling { device_code, waited, expires_in, interval } => AuthStateView::Polling {
                device_code: device_code@,
                waited,
                expires_in,
                interval,
            },
            AuthState::Saving { credential } => AuthStateView::Saving { credential: credential@ },
            AuthState::Done { credential } => AuthStateView::Done { credential: credential@ },
            AuthState::Failed { error } => AuthStateView::Failed { error },
        }
    }
}

impl View for AuthEvent {
    type V = AuthEventView;

    open spec fn view(&self) -> AuthEventView {
        match *self {
            AuthEvent::StoreRead { text } => AuthEventView::StoreRead { text: opt_view(text) },
            AuthEvent::Replied { status, body } => AuthEventView::Replied { status, body: body@ },
            AuthEvent::Unreachable => AuthEventView::Unreachable,
            AuthEvent::Saved => AuthEventView::Saved,
        }
    }
}

impl View for AuthRequest {
    type V = AuthRequestView;

    open spec fn view(&self) -> AuthRequestView {
        match *self {
            AuthRequest::ReadStore => AuthRequestView::ReadStore,
            AuthRequest::Refresh { form } => AuthRequestView::Refresh { form: form@ },
            AuthRequest::RequestCode { form } => AuthRequestView::RequestCode { form: form@ },
            AuthRequest::ShowCodeAndPoll { verification_url, user_code, wait, form } =>
                AuthRequestView::ShowCodeAndPoll {
                    verification_url: verification_url@,
                    user_code: user_code@,
                    wait,
                    form: form@,
                },
            AuthRequest::Poll { wait, form } => AuthRequestView::Poll { wait, form: form@ },
            AuthRequest::WriteStore { contents } => AuthRequestView::WriteStore { contents: contents@ },
            AuthRequest::Stop => AuthRequestView::Stop,
        }
    }
}

/// Whether a status reports success.
pub open spec fn is_2xx(status: u16) -> bool {
    200 <= status < 300
}

/// The body of a refresh grant.
pub open spec fn refresh_form(id: Seq<char>, secret: Seq<char>, refresh_token: Seq<char>) -> Seq<char> {
    form_encoded(
        seq![
            ("client_id"@, id),
            ("client_secret"@, secret),
            ("refresh_token"@, refresh_token),
            ("grant_type"@, "refresh_token"@),
        ],
    )
}

/// The body of a device-code request.
pub open spec fn device_code_form(id: Seq<char>) -> Seq<char> {
    form_encoded(seq![("client_id"@, id), ("scope"@, UPLOAD_SCOPE@)])
}

/// The body of a device grant, one poll of the token endpoint.
pub open spec fn device_grant_form(id: Seq<char>, secret: Seq<char>, device_code: Seq<char>) -> Seq<char> {
    form_encoded(
        seq![
            ("client_id"@, id),
            ("client_secret"@, secret),
            ("device_code"@, device_code),
            ("grant_type"@, DEVICE_GRANT@),
        ],
    )
}

/// The token store's contents for a refresh token.
pub open spec fn store_contents(refresh_token: Seq<char>) -> Seq<char> {
    "{ \"refresh_token\": "@ + json_quoted(refresh_token) + " }"@
}

/// The refresh token held by the token store's text, if any.
pub open spec fn stored_refresh_token(text: Option<Seq<char>>) -> Option<Seq<char>> {
    match text {
        Some(t) => json_str_at(t, "/refresh_token"@),
        None => None,
    }
}

/// What a token endpoint's reply body grants: its access token and, if it
/// has one, its refresh token. `None` without a string `access_token`.
pub open spec fn token_reply(body: Seq<char>) -> Option<CredentialView> {
    match json_str_at(body, "/access_token"@) {
        Some(a) => Some(CredentialView { access_token: a, refresh_token: json_str_at(body, "/refresh_token"@) }),
        None => None,
    }
}

/// What a device-code reply body holds; `None` when a field is missing or
/// the poll interval is zero.
pub open spec fn device_code_reply(body: Seq<char>) -> Option<DeviceCodeView> {
    match (
        json_str_at(body, "/device_code"@),
        json_str_at(body, "/user_code"@),
        json_str_at(body, "/verification_url"@),
        json_u64_at(body, "/expires_in"@),
        json_u64_at(body, "/interval"@),
    ) {
        (Some(device_code), Some(user_code), Some(verification_url), Some(expires_in), Some(interval)) =>
            if interval > 0 {
                Some(DeviceCodeView { device_code, user_code, verification_url, expires_in, interval })
            } else {
                None
            },
        _ => None,
    }
}

/// How acquiring a credential for client `id` with secret `secret` moves on
/// from `s` on event `e`, and what to do next. Events that do not belong to
/// the state change nothing and ask for nothing.
pub open spec fn auth_next(id: Seq<char>, secret: Seq<char>, s: AuthStateView, e: AuthEventView) -> (
    AuthStateView,
    AuthRequestView,
) {
    let ask_code = (AuthStateView::RequestingCode, AuthRequestView::RequestCode { form: device_code_form(id) });
    let stop = |f: AuthStateView| (f, AuthRequestView::Stop);
    match s {
        AuthStateView::LoadingStore => match e {
            AuthEventView::StoreRead { text } => match stored_refresh_token(text) {
                Some(r) => (
                    AuthStateView::Refreshing { refresh_token: r },
                    AuthRequestView::Refresh { form: refresh_form(id, secret, r) },
                ),
                None => ask_code,
            },
            _ => stop(s),
        },
        AuthStateView::Refreshing { refresh_token } => match e {
            AuthEventView::Replied { status, body } => match token_reply(body) {
                Some(c) if is_2xx(status) => stop(
                    AuthStateView::Done {
                        credential: CredentialView { access_token: c.access_token, refresh_token: Some(refresh_token) },
                    },
                ),
                _ => ask_code,
            },
            AuthEventView::Unreachable => ask_code,
            _ => stop(s),
        },
        AuthStateView::RequestingCode => match e {
            AuthEventView::Replied { status, body } => if !is_2xx(status) {
                stop(AuthStateView::Failed { error: AuthError::DeviceCodeRefused { status } })
            } else {
                match device_code_reply(body) {
                    Some(d) => if d.interval < d.expires_in {
                        (
                            AuthStateView::Polling {
                                device_code: d.device_code,
                                waited: d.interval,
                                expires_in: d.expires_in,
                                interval: d.interval,
                            },
                            AuthRequestView::ShowCodeAndPoll {
                                verification_url: d.verification_url,
                                user_code: d.user_code,
                                wait: d.interval,
                                form: device_grant_form(id, secret, d.device_code),
                            },
                        )
                    } else {
                        stop(AuthStateView::Failed { error: AuthError::Expired })
                    },
                    None => stop(AuthStateView::Failed { error: AuthError::MalformedReply }),
                }
            },
            AuthEventView::Unreachable => stop(AuthStateView::Failed { error: AuthError::Unreachable }),
            _ => stop(s),
        },
        AuthStateView::Polling { device_code, waited, expires_in, interval } => match e {
            AuthEventView::Replied { status, body } => if is_2xx(status) {
                match token_reply(body) {
                    Some(c) => match c.refresh_token {
                        Some(r) => (
                            AuthStateView::Saving { credential: c },
                            AuthRequestView::WriteStore { contents: store_contents(r) },
                        ),
                        None => stop(AuthStateView::Done { credential: c }),
                    },
                    None => stop(AuthStateView::Failed { error: AuthError::MalformedReply }),
                }
            } else if interval < expires_in && waited < expires_in - interval {
                (
                    AuthStateView::Polling {
                        device_code,
                        waited: (waited + interval) as u64,
                        expires_in,
                        interval,
                    },
                    AuthRequestView::Poll { wait: interval, form: device_grant_form(id, secret, device_code) },
                )
            } else {
                stop(AuthStateView::Failed { error: AuthError::Expired })
            },
            AuthEventView::Unreachable => stop(AuthStateView::Failed { error: AuthError::Unreachable }),
            _ => stop(s),
        },
        AuthStateView::Saving { credential } => match e {
            AuthEventView::Saved => stop(AuthStateView::Done { credential }),
            _ => stop(s),
        },
        _ => stop(s),
    }
}


/// What a device-code reply holds.
pub struct DeviceCode {
    pub device_code: String,
    pub user_code: String,
    pub verification_url: String,
    pub expires_in: u64,
    pub interval: u64,
}

impl View for DeviceCode {
    type V = DeviceCodeView;

    open spec fn view(&self) -> DeviceCodeView {
        DeviceCodeView {
            device_code: self.device_code@,
            user_code: self.user_code@,
            verification_url: self.verification_url@,
            expires_in: self.expires_in,
            interval: self.interval,
        }
    }
}

/// An optional credential seen abstractly.
pub open spec fn opt_credential_view(o: Option<Credential>) -> Option<CredentialView> {
    match o {
        Some(c) => Some(c@),
        None => None,
    }
}

/// An optional device-code reply seen abstractly.
pub open spec fn opt_device_code_view(o: Option<DeviceCode>) -> Option<DeviceCodeView> {
    match o {
        Some(d) => Some(d@),
        None => None,
    }
}

/// The client credentials held by a secrets file: `client_id` and
/// `client_secret` of its `web` object.
pub open spec fn secrets_of(text: Seq<char>) -> Option<(Seq<char>, Seq<char>)> {
    match (json_str_at(text, "/web/client_id"@), json_str_at(text, "/web/client_secret"@)) {
        (Some(id), Some(secret)) => Some((id, secret)),
        _ => None,
    }
}

/// When the token store holds a refresh token and the refresh grant answers
/// with success and a token, the credential comes from that grant, with the
/// stored refresh token kept, and the device flow is never started.
pub proof fn lemma_refresh_skips_device_flow(
    id: Seq<char>,
    secret: Seq<char>,
    text: Seq<char>,
    status: u16,
    body: Seq<char>,
)
    requires
        stored_refresh_token(Some(text)) is Some,
        is_2xx(status),
        token_reply(body) is Some,
    ensures
        ({
            let r = stored_refresh_token(Some(text))->0;
            let first = auth_next(id, secret, AuthStateView::LoadingStore, AuthEventView::StoreRead { text: Some(text) });
            let second = auth_next(id, secret, first.0, AuthEventView::Replied { status, body });
            &&& first.1 == AuthRequestView::Refresh { form: refresh_form(id, secret, r) }
            &&& second.0 == AuthStateView::Done {
                credential: CredentialView { access_token: token_reply(body)->0.access_token, refresh_token: Some(r) },
            }
            &&& second.1 == AuthRequestView::Stop
        }),
{
}

/// When the token store holds no refresh token, the device flow is started;
/// once it grants a refresh token, that token is written to the store before
/// the credential is handed out.
pub proof fn lemma_device_flow_stores_refresh_token(
    id: Seq<char>,
    secret: Seq<char>,
    text: Option<Seq<char>>,
    code_status: u16,
    code_body: Seq<char>,
    grant_status: u16,
    grant_body: Seq<char>,
)
    requires
        stored_refresh_token(text) is None,
        is_2xx(code_status),
        device_code_reply(code_body) matches Some(d) && d.interval < d.expires_in,
        is_2xx(grant_status),
        token_reply(grant_body) matches Some(c) && c.refresh_token is Some,
    ensures
        ({
            let d = device_code_reply(code_body)->0;
            let c = token_reply(grant_body)->0;
            let first = auth_next(id, secret, AuthStateView::LoadingStore, AuthEventView::StoreRead { text });
            let second = auth_next(id, secret, first.0, AuthEventView::Replied { status: code_status, body: code_body });
            let third = auth_next(id, secret, second.0, AuthEventView::Replied { status: grant_status, body: grant_body });
            let fourth = auth_next(id, secret, third.0, AuthEventView::Saved);
            &&& first.1 == AuthRequestView::RequestCode { form: device_code_form(id) }
            &&& second.1 == AuthRequestView::ShowCodeAndPoll {
                verification_url: d.verification_url,
                user_code: d.user_code,
                wait: d.interval,
                form: device_grant_form(id, secret, d.device_code),
            }
            &&& third.1 == AuthRequestView::WriteStore { contents: store_contents(c.refresh_token->0) }
            &&& fourth.0 == AuthStateView::Done { credential: c }
            &&& fourth.1 == AuthRequestView::Stop
        }),
{
}

/// Reads the secrets file's text.
pub fn parse_client_secrets(text: &str) -> (r: Result<ClientSecret, AuthError>)
    ensures
        match r {
            Ok(c) => secrets_of(text@) == Some((c.client_id@, c.client_secret@)),
            Err(e) => secrets_of(text@) is None && e == AuthError::MalformedSecrets,
        },
{
    let id = string_at(text, "/web/client_id");
    let secret = string_at(text, "/web/client_secret");
    match (id, secret) {
        (Some(client_id), Some(client_secret)) => Ok(ClientSecret { client_id, client_secret }),
        _ => Err(AuthError::MalformedSecrets),
    }
}

/// Reads a token endpoint's reply body.
pub fn parse_token_reply(body: &str) -> (r: Option<Credential>)
    ensures
        opt_credential_view(r) == token_reply(body@),
{
    match string_at(body, "/access_token") {
        Some(access_token) => {
            let refresh_token = string_at(body, "/refresh_token");
            Some(Credential { access_token, refresh_token })
        },
        None => None,
    }
}

/// Reads a device-code reply body.
pub fn parse_device_code(body: &str) -> (r: Option<DeviceCode>)
    ensures
        opt_device_code_view(r) == device_code_reply(body@),
{
    let device_code = string_at(body, "/device_code");
    let user_code = string_at(body, "/user_code");
    let verification_url = string_at(body, "/verification_url");
    let expires_in = u64_at(body, "/expires_in");
    let interval = u64_at(body, "/interval");
    match (device_code, user_code, verification_url, expires_in, interval) {
        (Some(device_code), Some(user_code), Some(verification_url), Some(expires_in), Some(interval)) => {
            if interval > 0 {
                Some(DeviceCode { device_code, user_code, verification_url, expires_in, interval })
            } else {
                None
            }
        },
        _ => None,
    }
}

/// What the token store holds for `refresh_token`.
pub fn token_store_contents(refresh_token: &str) -> (r: String)
    ensures
        r@ == store_contents(refresh_token@),
{
    let mut r = String::from_str("{ \"refresh_token\": ");
    r.append(quote(refresh_token).as_str());
    r.append(" }");
    r
}

/// The refresh token that the token store's text holds, if any.
pub fn read_token_store(text: Option<&str>) -> (r: Option<String>)
    ensures
        opt_view(r) == stored_refresh_token(match text {
            Some(t) => Some(t@),
            None => None,
        }),
{
    match text {
        Some(t) => string_at(t, "/refresh_token"),
        None => None,
    }
}

/// Obtains a bearer token for one OAuth2 client: by the refresh grant when
/// the token store holds a refresh token that still works, else by the
/// device-authorization grant, whose refresh token it then stores.
pub struct CredentialManager {
    pub secrets: ClientSecret,
}

impl CredentialManager {
    /// A manager for the client `secrets`.
    pub fn new(secrets: ClientSecret) -> (r: CredentialManager)
        ensures
            r.secrets == secrets,
    {
        CredentialManager { secrets }
    }

    /// How this manager's acquisition moves on from `s` on event `e`.
    pub open spec fn next(&self, s: AuthStateView, e: AuthEventView) -> (AuthStateView, AuthRequestView) {
        auth_next(self.secrets.client_id@, self.secrets.client_secret@, s, e)
    }

    /// Starts the acquisition: the token store is read first.
    pub fn start(&self) -> (r: (AuthState, AuthRequest))
        ensures
            r == (AuthState::LoadingStore, AuthRequest::ReadStore),
    {
        (AuthState::LoadingStore, AuthRequest::ReadStore)
    }

    /// The body of the refresh grant for `refresh_token`.
    fn refresh_request(&self, refresh_token: &str) -> (r: String)
        ensures
            r@ == refresh_form(self.secrets.client_id@, self.secrets.client_secret@, refresh_token@),
    {
        let pairs = [
            ("client_id", self.secrets.client_id.as_str()),
            ("client_secret", self.secrets.client_secret.as_str()),
            ("refresh_token", refresh_token),
            ("grant_type", "refresh_token"),
        ];
        assert(pairs_view(pairs@) =~= seq![
            ("client_id"@, self.secrets.client_id@),
            ("client_secret"@, self.secrets.client_secret@),
            ("refresh_token"@, refresh_token@),
            ("grant_type"@, "refresh_token"@),
        ]);
        encode(&pairs)
    }

    /// The move to the device flow: a device code is requested.
    fn code_request(&self) -> (r: (AuthState, AuthRequest))
        ensures
            (r.0@, r.1@) == (
                AuthStateView::RequestingCode,
                AuthRequestView::RequestCode { form: device_code_form(self.secrets.client_id@) },
            ),
    {
        let pairs = [("client_id", self.secrets.client_id.as_str()), ("scope", UPLOAD_SCOPE)];
        assert(pairs_view(pairs@) =~= seq![("client_id"@, self.secrets.client_id@), ("scope"@, UPLOAD_SCOPE@)]);
        (AuthState::RequestingCode, AuthRequest::RequestCode { form: encode(&pairs) })
    }

    /// The body of one poll for the device code `device_code`.
    fn grant_request(&self, device_code: &str) -> (r: String)
        ensures
            r@ == device_grant_form(self.secrets.client_id@, self.secrets.client_secret@, device_code@),
    {
        let pairs = [
            ("client_id", self.secrets.client_id.as_str()),
            ("client_secret", self.secrets.client_secret.as_str()),
            ("device_code", device_code),
            ("grant_type", DEVICE_GRANT),
        ];
        assert(pairs_view(pairs@) =~= seq![
            ("client_id"@, self.secrets.client_id@),
            ("client_secret"@, self.secrets.client_secret@),
            ("device_code"@, device_code@),
            ("grant_type"@, DEVICE_GRANT@),
        ]);
        encode(&pairs)
    }

    /// Takes the outcome of the last request and decides what to do next.
    pub fn step(&self, state: AuthState, event: AuthEvent) -> (r: (AuthState, AuthRequest))
        ensures
            (r.0@, r.1@) == self.next(state@, event@),
    {
        match state {
            AuthState::LoadingStore => match event {
                AuthEvent::StoreRead { text } => {
                    let stored = match &text {
                        Some(t) => read_token_store(Some(t.as_str())),
                        None => read_token_store(None),
                    };
                    match stored {
                        Some(refresh_token) => {
                            let form = self.refresh_request(refresh_token.as_str());
                            (AuthState::Refreshing { refresh_token }, AuthRequest::Refresh { form })
                        },
                        None => self.code_request(),
                    }
                },
                _ => (AuthState::LoadingStore, AuthRequest::Stop),
            },
            AuthState::Refreshing { refresh_token } => match event {
                AuthEvent::Replied { status, body } => {
                    let granted = parse_token_reply(body.as_str());
                    match granted {
                        Some(c) => {
                            if 200 <= status && status < 300 {
                                let credential = Credential {
                                    access_token: c.access_token,
                                    refresh_token: Some(refresh_token),
                                };
                                (AuthState::Done { credential }, AuthRequest::Stop)
                            } else {
                                self.code_request()
                            }
                        },
                        None => self.code_request(),
                    }
                },
                AuthEvent::Unreachable => self.code_request(),
                _ => (AuthState::Refreshing { refresh_token }, AuthRequest::Stop),
            },
            AuthState::RequestingCode => match event {
                AuthEvent::Replied { status, body } => {
                    if !(200 <= status && status < 300) {
                        (
                            AuthState::Failed { error: AuthError::DeviceCodeRefused { status } },
                            AuthRequest::Stop,
                        )
                    } else {
                        match parse_device_code(body.as_str()) {
                            Some(d) => {
                                if d.interval < d.expires_in {
                                    let form = self.grant_request(d.device_code.as_str());
                                    (
                                        AuthState::Polling {
                                            device_code: d.device_code,
                                            waited: d.interval,
                                            expires_in: d.expires_in,
                                            interval: d.interval,
                                        },
                                        AuthRequest::ShowCodeAndPoll {
                                            verification_url: d.verification_url,
                                            user_code: d.user_code,
                                            wait: d.interval,
                                            form,
                                        },
                                    )
                                } else {
                                    (AuthState::Failed { error: AuthError::Expired }, AuthRequest::Stop)
                                }
                            },
                            None => (AuthState::Failed { error: AuthError::MalformedReply }, AuthRequest::Stop),
                        }
                    }
                },
                AuthEvent::Unreachable => (
                    AuthState::Failed { error: AuthError::Unreachable },
                    AuthRequest::Stop,
                ),
                _ => (AuthState::RequestingCode, AuthRequest::Stop),
            },
            AuthState::Polling { device_code, waited, expires_in, interval } => match event {
                AuthEvent::Replied { status, body } => {
                    if 200 <= status && status < 300 {
                        match parse_token_reply(body.as_str()) {
                            Some(c) => {
                                let contents = match &c.refresh_token {
                                    Some(r) => Some(token_store_contents(r.as_str())),
                                    None => None,
                                };
                                match contents {
                                    Some(contents) => (
                                        AuthState::Saving { credential: c },
                                        AuthRequest::WriteStore { contents },
                                    ),
                                    None => (AuthState::Done { credential: c }, AuthRequest::Stop),
                                }
                            },
                            None => (AuthState::Failed { error: AuthError::MalformedReply }, AuthRequest::Stop),
                        }
                    } else if interval < expires_in && waited < expires_in - interval {
                        let form = self.grant_request(device_code.as_str());
                        (
                            AuthState::Polling { device_code, waited: waited + interval, expires_in, interval },
                            AuthRequest::Poll { wait: interval, form },
                        )
                    } else {
                        (AuthState::Failed { error: AuthError::Expired }, AuthRequest::Stop)
                    }
                },
                AuthEvent::Unreachable => (
                    AuthState::Failed { error: AuthError::Unreachable },
                    AuthRequest::Stop,
                ),
                _ => (AuthState::Polling { device_code, waited, expires_in, interval }, AuthRequest::Stop),
            },
            AuthState::Saving { credential } => match event {
                AuthEvent::Saved => (AuthState::Done { credential }, AuthRequest::Stop),
                _ => (AuthState::Saving { credential }, AuthRequest::Stop),
            },
            other => (other, AuthRequest::Stop),
        }
    }
}

} // verus!
