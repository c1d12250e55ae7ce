use vstd::prelude::*;
use vstd::utf8::encode_utf8;
use crate::codec::{base64_decode, base64_decoding, Base64Error, base64_error_text, pbkdf2_hmac_sha256_key, pbkdf2_sha256};
use crate::text::{joined, non_empty, owned, str_equal, text_of};

verus! {

/// Which way documents flow between the local database and the endpoint.
#[derive(Clone, Copy, Debug, PartialEq, Eq, Structural)]
pub enum ReplicatorDirection {
    Push,
    Pull,
    PushAndPull,
}

/// The direction that a `direction` argument names: `"push"`, `"pull"`, and
/// both ways for anything else.
pub open spec fn direction_named(s: Seq<char>) -> ReplicatorDirection {
    if s == "push"@ {
        ReplicatorDirection::Push
    } else if s == "pull"@ {
        ReplicatorDirection::Pull
    } else {
        ReplicatorDirection::PushAndPull
    }
}

/// Reads the `direction` argument of a replication request.
pub fn replicator_direction(direction: &str) -> (r: ReplicatorDirection)
    ensures
        r == direction_named(direction@),
{
    if str_equal(direction, "push") {
        ReplicatorDirection::Push
    } else if str_equal(direction, "pull") {
        ReplicatorDirection::Pull
    } else {
        ReplicatorDirection::PushAndPull
    }
}

/// How the replicator authenticates to Sync Gateway.
#[derive(Debug)]
pub enum Authentication {
    /// A Sync Gateway session cookie.
    Session { session_id: String, cookie_name: String },
    /// HTTP basic authentication.
    Password { username: String, password: String },
    /// No credentials.
    Anonymous,
}

/// The text of an [`Authentication`].
pub enum AuthenticationView {
    Session { session_id: Seq<char>, cookie_name: Seq<char> },
    Password { username: Seq<char>, password: Seq<char> },
    Anonymous,
}

impl View for Authentication {
    type V = AuthenticationView;

    open spec fn view(&self) -> AuthenticationView {
        match self {
            Authentication::Session { session_id, cookie_name } => AuthenticationView::Session {
                session_id: session_id@,
                cookie_name: cookie_name@,
            },
            Authentication::Password { username, password } => AuthenticationView::Password {
                username: username@,
                password: password@,
            },
            Authentication::Anonymous => AuthenticationView::Anonymous,
        }
    }
}

/// The cookie that carries a Sync Gateway session when the caller names none.
pub open spec fn default_session_cookie() -> Seq<char> {
    "SyncGatewaySession"@
}

/// The authentication that a request asks for. A non-empty session id is
/// preferred over basic credentials, which need a non-empty user name and a
/// password (possibly empty); without either there are no credentials.
pub open spec fn authentication_for(
    username: Option<Seq<char>>,
    password: Option<Seq<char>>,
    session_id: Option<Seq<char>>,
    cookie_name: Option<Seq<char>>,
) -> AuthenticationView {
    if session_id is Some && session_id->0.len() > 0 {
        AuthenticationView::Session {
            session_id: session_id->0,
            cookie_name: match cookie_name {
                Some(c) => c,
                None => default_session_cookie(),
            },
        }
    } else if username is Some && password is Some && username->0.len() > 0 {
        AuthenticationView::Password { username: username->0, password: password->0 }
    } else {
        AuthenticationView::Anonymous
    }
}

/// Chooses the replicator's authentication from the request's credentials.
pub fn choose_authentication(
    username: Option<&str>,
    password: Option<&str>,
    session_id: Option<&str>,
    cookie_name: Option<&str>,
) -> (a: Authentication)
    ensures
        a@ == authentication_for(
            text_of(username),
            text_of(password),
            text_of(session_id),
            text_of(cookie_name),
        ),
{
    if let Some(sid) = session_id {
        if sid.unicode_len() > 0 {
            let cookie = match cookie_name {
                Some(c) => owned(c),
                None => owned("SyncGatewaySession"),
            };
            return Authentication::Session { session_id: owned(sid), cookie_name: cookie };
        }
    }
    match (username, password) {
        (Some(u), Some(p)) => {
            if u.unicode_len() > 0 {
                Authentication::Password { username: owned(u), password: owned(p) }
            } else {
                Authentication::Anonymous
            }
        },
        _ => Authentication::Anonymous,
    }
}

/// PBKDF2 rounds used to derive the field-encryption key.
pub const FIELD_ENCRYPTION_ROUNDS: u32 = 100000;

/// The field-encryption key that a password and a base64 salt give: none
/// unless both are non-empty; otherwise PBKDF2-HMAC-SHA256 over the password's
/// UTF-8 bytes and the decoded salt, or the reason the salt did not decode.
pub open spec fn field_encryption_outcome(
    password: Option<Seq<char>>,
    salt_b64: Option<Seq<char>>,
) -> Result<Option<Seq<u8>>, Seq<char>> {
    if password is Some && salt_b64 is Some {
        match base64_decoding(encode_utf8(salt_b64->0)) {
            Ok(salt) => Ok(
                Some(pbkdf2_hmac_sha256_key(encode_utf8(password->0), salt, FIELD_ENCRYPTION_ROUNDS)),
            ),
            Err(e) => Err("invalid salt: "@ + e.text()),
        }
    } else {
        Ok(None)
    }
}

/// The text and bytes of a field-encryption outcome.
pub open spec fn key_outcome_view(r: Result<Option<[u8; 32]>, String>) -> Result<
    Option<Seq<u8>>,
    Seq<char>,
> {
    match r {
        Ok(Some(k)) => Ok(Some(k@)),
        Ok(None) => Ok(None),
        Err(m) => Err(m@),
    }
}

/// Derives the AES-256 field-encryption key from a password and a base64
/// salt, when both are given and non-empty.
pub fn field_encryption_key(password: Option<&str>, salt_b64: Option<&str>) -> (r: Result<
    Option<[u8; 32]>,
    String,
>)
    ensures
        key_outcome_view(r) == field_encryption_outcome(non_empty(password), non_empty(salt_b64)),
{
    match (password, salt_b64) {
        (Some(pass), Some(salt_text)) => {
            if pass.unicode_len() == 0 || salt_text.unicode_len() == 0 {
                return Ok(None);
            }
            match base64_decode(salt_text.as_bytes()) {
                Ok(salt) => {
                    let key = pbkdf2_sha256(pass.as_bytes(), salt.as_slice(), FIELD_ENCRYPTION_ROUNDS);
                    Ok(Some(key))
                },
                Err(e) => {
                    let text = base64_error_text(&e);
                    Err(joined("invalid salt: ", text.as_str()))
                },
            }
        },
        _ => Ok(None),
    }
}

/// Everything a replicator is configured with, besides its endpoint and the
/// collection it replicates.
#[derive(Debug)]
pub struct ReplicationPlan {
    pub direction: ReplicatorDirection,
    pub continuous: bool,
    pub disable_auto_purge: bool,
    pub max_attempts: u32,
    pub max_attempt_wait_time: u32,
    pub heartbeat: u32,
    pub authentication: Authentication,
    /// Extra HTTP headers, as (name, value).
    pub headers: Vec<(String, String)>,
    pub accept_parent_domain_cookies: bool,
    pub field_encryption_key: Option<[u8; 32]>,
    /// The channels that the replicated collection is filtered by.
    pub channels: Vec<String>,
}

/// The content of a [`ReplicationPlan`].
pub struct ReplicationPlanView {
    pub direction: ReplicatorDirection,
    pub continuous: bool,
    pub disable_auto_purge: bool,
    pub max_attempts: u32,
    pub max_attempt_wait_time: u32,
    pub heartbeat: u32,
    pub authentication: AuthenticationView,
    pub headers: Seq<(Seq<char>, Seq<char>)>,
    pub accept_parent_domain_cookies: bool,
    pub field_encryption_key: Option<Seq<u8>>,
    pub channels: Seq<Seq<char>>,
}

impl View for ReplicationPlan {
    type V = ReplicationPlanView;

    open spec fn view(&self) -> ReplicationPlanView {
        ReplicationPlanView {
            direction: self.direction,
            continuous: self.continuous,
            disable_auto_purge: self.disable_auto_purge,
            max_attempts: self.max_attempts,
            max_attempt_wait_time: self.max_attempt_wait_time,
            heartbeat: self.heartbeat,
            authentication: self.authentication@,
            headers: self.headers@.map_values(|h: (String, String)| (h.0@, h.1@)),
            accept_parent_domain_cookies: self.accept_parent_domain_cookies,
            field_encryption_key: match self.field_encryption_key {
                Some(k) => Some(k@),
                None => None,
            },
            channels: self.channels@.map_values(|c: String| c@),
        }
    }
}

/// The replicator configuration for a request: continuous, without automatic
/// purge, at most 5 connection attempts at most 10 seconds apart, a 30 second
/// heartbeat, an `Accept: application/json` header, cookies of the parent
/// domain accepted, and the collection filtered by the caller's channels.
pub open spec fn planned_replication(
    direction: Seq<char>,
    authentication: AuthenticationView,
    key: Option<Seq<u8>>,
    channels: Seq<Seq<char>>,
) -> ReplicationPlanView {
    ReplicationPlanView {
        direction: direction_named(direction),
        continuous: true,
        disable_auto_purge: true,
        max_attempts: 5,
        max_attempt_wait_time: 10,
        heartbeat: 30,
        authentication,
        headers: seq![("Accept"@, "application/json"@)],
        accept_parent_domain_cookies: true,
        field_encryption_key: key,
        channels,
    }
}

/// The plan, or the error text, of a replication request.
pub open spec fn plan_outcome_view(r: Result<ReplicationPlan, String>) -> Result<
    ReplicationPlanView,
    Seq<char>,
> {
    match r {
        Ok(p) => Ok(p@),
        Err(m) => Err(m@),
    }
}

/// The error of a replication request that names no channel: Sync Gateway
/// refuses an empty per-collection channel list as an illegal channel name.
pub open spec fn no_channel_message() -> Seq<char> {
    "start_replication needs at least one channel"@
}

/// What a replication request is planned as, given its arguments' text: it
/// fails when no channel is named, then when the field-encryption salt does
/// not decode.
pub open spec fn replication_outcome(
    direction: Seq<char>,
    channels: Seq<Seq<char>>,
    username: Option<Seq<char>>,
    password: Option<Seq<char>>,
    session_id: Option<Seq<char>>,
    cookie_name: Option<Seq<char>>,
    field_encryption_password: Option<Seq<char>>,
    field_encryption_salt: Option<Seq<char>>,
) -> Result<ReplicationPlanView, Seq<char>> {
    if channels.len() == 0 {
        Err(no_channel_message())
    } else {
        match field_encryption_outcome(field_encryption_password, field_encryption_salt) {
            Ok(key) => Ok(
                planned_replication(
                    direction,
                    authentication_for(username, password, session_id, cookie_name),
                    key,
                    channels,
                ),
            ),
            Err(m) => Err(m),
        }
    }
}

/// Plans the replicator of a replication request: its direction,
/// authentication, fixed settings, field-encryption key and the channels the
/// collection is filtered by. Fails when no channel is named, and when a
/// field-encryption salt is given that is not valid base64.
pub fn plan_replication(
    direction: &str,
    channels: Vec<String>,
    username: Option<&str>,
    password: Option<&str>,
    session_id: Option<&str>,
    cookie_name: Option<&str>,
    field_encryption_password: Option<&str>,
    field_encryption_salt: Option<&str>,
) -> (r: Result<ReplicationPlan, String>)
    ensures
        plan_outcome_view(r) == replication_outcome(
            direction@,
            channels@.map_values(|c: String| c@),
            text_of(username),
            text_of(password),
            text_of(session_id),
            text_of(cookie_name),
            non_empty(field_encryption_password),
            non_empty(field_encryption_salt),
        ),
{
    if channels.len() == 0 {
        return Err(owned("start_replication needs at least one channel"));
    }
    let direction_kind = replicator_direction(direction);
    let authentication = choose_authentication(username, password, session_id, cookie_name);
    let key = match field_encryption_key(field_encryption_password, field_encryption_salt) {
        Ok(k) => k,
        Err(m) => return Err(m),
    };
    let mut headers: Vec<(String, String)> = Vec::new();
    headers.push((owned("Accept"), owned("application/json")));
    let plan = ReplicationPlan {
        direction: direction_kind,
        continuous: true,
        disable_auto_purge: true,
        max_attempts: 5,
        max_attempt_wait_time: 10,
        heartbeat: 30,
        authentication,
        headers,
        accept_parent_domain_cookies: true,
        field_encryption_key: key,
        channels,
    };
    assert(plan@.headers =~= seq![("Accept"@, "application/json"@)]);
    Ok(plan)
}

/// A non-empty session id always wins over basic credentials, whatever user
/// name and password come with it.
pub proof fn law_session_preferred_over_password(
    username: Option<Seq<char>>,
    password: Option<Seq<char>>,
    session_id: Seq<char>,
    cookie_name: Option<Seq<char>>,
)
    requires
        session_id.len() > 0,
    ensures
        authentication_for(username, password, Some(session_id), cookie_name) matches AuthenticationView::Session { session_id: s, .. }
            && s == session_id,
{
}

/// Without a session id and a non-empty user name there are no credentials.
pub proof fn law_no_credentials_is_anonymous(
    password: Option<Seq<char>>,
    cookie_name: Option<Seq<char>>,
)
    ensures
        authentication_for(None, password, None, cookie_name) is Anonymous,
        authentication_for(Some(Seq::empty()), password, None, cookie_name) is Anonymous,
{
}

/// Only `"push"` and `"pull"` restrict the direction; every other value,
/// `"both"` among them, replicates both ways.
pub proof fn law_direction_defaults_to_both_ways(s: Seq<char>)
    ensures
        direction_named(s) is PushAndPull <==> (s != "push"@ && s != "pull"@),
{
}

/// A replicator is planned only with channels to filter by, and they are the
/// caller's, in the caller's order: an empty list is refused, never sent.
pub proof fn law_channels_are_the_callers(
    direction: Seq<char>,
    channels: Seq<Seq<char>>,
    username: Option<Seq<char>>,
    password: Option<Seq<char>>,
    session_id: Option<Seq<char>>,
    cookie_name: Option<Seq<char>>,
    field_encryption_password: Option<Seq<char>>,
    field_encryption_salt: Option<Seq<char>>,
)
    ensures
        ({
            let outcome = replication_outcome(
                direction,
                channels,
                username,
                password,
                session_id,
                cookie_name,
                field_encryption_password,
                field_encryption_salt,
            );
            &&& channels.len() == 0 ==> outcome == Err::<ReplicationPlanView, Seq<char>>(
                no_channel_message(),
            )
            &&& outcome matches Ok(plan) ==> plan.channels == channels && channels.len() > 0
        }),
{
}

/// A replication request with basic credentials and no session id logs in as
/// that user with that password, the user name in the user field and the
/// password in the password field, whatever the direction, channels and
/// field-encryption settings.
pub proof fn law_basic_credentials_log_in_as_given(
    direction: Seq<char>,
    channels: Seq<Seq<char>>,
    username: Seq<char>,
    password: Seq<char>,
    session_id: Option<Seq<char>>,
    cookie_name: Option<Seq<char>>,
    field_encryption_password: Option<Seq<char>>,
    field_encryption_salt: Option<Seq<char>>,
)
    requires
        username.len() > 0,
        session_id matches Some(sid) ==> sid.len() == 0,
    ensures
        replication_outcome(
            direction,
            channels,
            Some(username),
            Some(password),
            session_id,
            cookie_name,
            field_encryption_password,
            field_encryption_salt,
        ) matches Ok(plan) ==> plan.authentication matches AuthenticationView::Password {
            username: u,
            password: p,
        } && u == username && p == password,
{
}

/// The field-encryption key does not depend on the direction: with channels
/// named, a password and a salt that decodes, every direction (push, pull and
/// both ways) gets the PBKDF2-HMAC-SHA256 key of the password's UTF-8 bytes
/// and the decoded salt, in 100000 rounds; without a password or a salt no
/// direction gets a key.
pub proof fn law_field_key_for_every_direction(
    direction: Seq<char>,
    channels: Seq<Seq<char>>,
    username: Option<Seq<char>>,
    password: Option<Seq<char>>,
    session_id: Option<Seq<char>>,
    cookie_name: Option<Seq<char>>,
    field_encryption_password: Seq<char>,
    field_encryption_salt: Seq<char>,
    salt: Seq<u8>,
)
    requires
        channels.len() > 0,
        base64_decoding(encode_utf8(field_encryption_salt)) == Ok::<Seq<u8>, Base64Error>(salt),
    ensures
        replication_outcome(
            direction,
            channels,
            username,
            password,
            session_id,
            cookie_name,
            Some(field_encryption_password),
            Some(field_encryption_salt),
        ) matches Ok(plan) && plan.field_encryption_key == Some(
            pbkdf2_hmac_sha256_key(encode_utf8(field_encryption_password), salt, 100000),
        ),
        replication_outcome(
            direction,
            channels,
            username,
            password,
            session_id,
            cookie_name,
            None,
            Some(field_encryption_salt),
        ) matches Ok(plan) && plan.field_encryption_key is None,
        replication_outcome(
            direction,
            channels,
            username,
            password,
            session_id,
            cookie_name,
            Some(field_encryption_password),
            None,
        ) matches Ok(plan) && plan.field_encryption_key is None,
{
}

/// A field-encryption key exists exactly when both the password and the
/// salt are given, non-empty, and the salt is valid base64; a salt that does
/// not decode fails the request, and a missing or empty one leaves fields
/// unencrypted.
pub proof fn law_field_key_needs_password_and_salt(
    password: Option<Seq<char>>,
    salt_b64: Option<Seq<char>>,
)
    ensures
        (field_encryption_outcome(password, salt_b64) matches Ok(Some(_))) <==> (password is Some
            && salt_b64 is Some && base64_decoding(encode_utf8(salt_b64->0)) is Ok),
        field_encryption_outcome(password, salt_b64) is Err ==> password is Some && salt_b64 is Some,
{
}

} // verus!
