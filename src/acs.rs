//! The assertion-consumer flow, from a posted response to a session.
//!
//! The flow is a state machine: each step takes the outcome of the last
//! store operation and names the next one, until it ends in a response.
use vstd::prelude::*;

use crate::config::{role_of, SamlConfig, UserRole, WebSettings, role_for_default};
use crate::encoding::{base64_decode, base64_decoded, utf8_text, utf8_text_of};
use crate::identity::{raw_email_of, attribute_value_of, email_of, extract_identity, name_of, Assertion, Identity};
use crate::session::{
    has_cookie_policy, is_session_token, new_session_token, session_cookie,
    session_cookie_value, signed_in_url, signed_in_url_of, SESSION_DURATION_SECS, SessionCookie,
};

verus! {

/// The form posted to the assertion-consumer endpoint.
#[derive(Clone, Debug)]
pub struct SAMLResponse {
    /// Base64 of the IdP's response document (form field `SAMLResponse`).
    pub saml_response: String,
    /// Opaque client state (form field `RelayState`); accepted, not used.
    pub relay_state: Option<String>,
}

/// Terminal failures of the assertion-consumer flow.
#[derive(Clone, Copy, Debug, PartialEq, Eq, Structural)]
pub enum AcsError {
    Config,
    InvalidEncoding,
    AuthenticationFailed,
    IdentityMissing,
    ProvisioningFailed,
    SessionPersistFailed,
}

/// HTTP status of each failure.
pub open spec fn status_of(e: AcsError) -> u16 {
    match e {
        AcsError::InvalidEncoding => 400,
        AcsError::AuthenticationFailed => 401,
        AcsError::IdentityMissing => 401,
        _ => 500,
    }
}

/// The client-facing text of each failure.
pub open spec fn acs_message_of(e: AcsError) -> Seq<char> {
    match e {
        AcsError::Config => "SAML configuration error"@,
        AcsError::InvalidEncoding => "Invalid SAML response encoding"@,
        AcsError::AuthenticationFailed => "SAML authentication failed"@,
        AcsError::IdentityMissing => "Email attribute not found in SAML response"@,
        AcsError::ProvisioningFailed => "Failed to create user session"@,
        AcsError::SessionPersistFailed => "Failed to create user session"@,
    }
}

impl AcsError {
    pub fn status(&self) -> (r: u16)
        ensures
            r == status_of(*self),
    {
        match self {
            AcsError::InvalidEncoding => 400,
            AcsError::AuthenticationFailed => 401,
            AcsError::IdentityMissing => 401,
            _ => 500,
        }
    }

    /// Text shown to the client; it holds no internal detail.
    pub fn message(&self) -> (r: String)
        ensures
            r@ == acs_message_of(*self),
    {
        match self {
            AcsError::Config => "SAML configuration error".to_owned(),
            AcsError::InvalidEncoding => "Invalid SAML response encoding".to_owned(),
            AcsError::AuthenticationFailed => "SAML authentication failed".to_owned(),
            AcsError::IdentityMissing => "Email attribute not found in SAML response".to_owned(),
            AcsError::ProvisioningFailed => "Failed to create user session".to_owned(),
            AcsError::SessionPersistFailed => "Failed to create user session".to_owned(),
        }
    }
}

/// The outcome of decoding a posted `SAMLResponse` value: base64 of
/// UTF-8 text.
pub open spec fn decoded_response_of(raw: Seq<char>) -> Result<Seq<char>, AcsError> {
    match base64_decoded(raw) {
        Some(b) => match utf8_text_of(b) {
            Some(t) => Ok(t),
            None => Err(AcsError::InvalidEncoding),
        },
        None => Err(AcsError::InvalidEncoding),
    }
}

/// Decodes a posted `SAMLResponse` value into the XML text that the SAML
/// engine verifies.
pub fn decode_saml_response(raw: &str) -> (r: Result<String, AcsError>)
    ensures
        r is Err <==> decoded_response_of(raw@) is Err,
        r matches Err(e) ==> e == AcsError::InvalidEncoding,
        r matches Ok(t) ==> decoded_response_of(raw@) == Ok::<Seq<char>, AcsError>(t@),
{
    match base64_decode(raw) {
        Some(v) => match utf8_text(v) {
            Some(t) => Ok(t),
            None => Err(AcsError::InvalidEncoding),
        },
        None => Err(AcsError::InvalidEncoding),
    }
}

/// A user to create on first sign-in.
#[derive(Clone, Debug)]
pub struct NewUser {
    pub org: String,
    pub email: String,
    pub first_name: String,
    pub last_name: String,
    pub role: UserRole,
    pub is_external: bool,
}

/// How the flow ends.
#[derive(Clone, Debug)]
pub enum AcsResponse {
    /// Found: go to `location`, setting `cookie`.
    Redirect { location: String, cookie: SessionCookie },
    Fail(AcsError),
}

/// What the caller is to do next.
#[derive(Clone, Debug)]
pub enum AcsAction {
    /// Look the user up by email and report whether it exists.
    LookupUser { email: String },
    /// Create the user and report whether that succeeded.
    CreateUser(NewUser),
    /// Map `email` to `token` in the session store, replacing any earlier
    /// token, and report whether that succeeded.
    StoreSession { email: String, token: String },
    /// Send the response; the flow is over.
    Respond(AcsResponse),
}

/// What the caller reports back after an action.
#[derive(Clone, Copy, Debug, PartialEq, Eq, Structural)]
pub enum AcsEvent {
    UserFound(bool),
    UserCreated(bool),
    SessionStored(bool),
}

#[derive(Clone, Copy, Debug, PartialEq, Eq, Structural)]
pub enum AcsStage {
    AwaitLookup,
    AwaitCreate,
    AwaitStore,
    Done,
}

/// One sign-in in progress.
#[derive(Clone, Debug)]
pub struct AcsFlow {
    pub email: String,
    pub name: String,
    pub role: UserRole,
    pub org: String,
    pub settings: WebSettings,
    pub now: i64,
    pub token: String,
    pub stage: AcsStage,
}

/// The event each stage waits for.
pub open spec fn expects_event(stage: AcsStage, ev: AcsEvent) -> bool {
    match stage {
        AcsStage::AwaitLookup => ev is UserFound,
        AcsStage::AwaitCreate => ev is UserCreated,
        AcsStage::AwaitStore => ev is SessionStored,
        AcsStage::Done => false,
    }
}

impl AcsFlow {
    pub open spec fn wf(&self) -> bool {
        &&& self.now <= i64::MAX - SESSION_DURATION_SECS
        &&& self.stage != AcsStage::Done ==> self.email@.len() > 0
        &&& self.stage == AcsStage::AwaitStore ==> is_session_token(self.token@)
    }

    /// The user that a first sign-in creates.
    pub open spec fn new_user_ok(&self, u: NewUser) -> bool {
        &&& u.org == self.org
        &&& u.email == self.email
        &&& u.first_name == self.name
        &&& u.last_name@.len() == 0
        &&& u.role == self.role
        &&& u.is_external
    }

    /// Starts the flow on a verified assertion received at `now`: asks for a
    /// user lookup, or ends at once where no email can be derived.
    pub fn start(asn: &Assertion, cfg: &SamlConfig, settings: &WebSettings, now: i64) -> (r: (
        AcsFlow,
        AcsAction,
    ))
        requires
            now <= i64::MAX - SESSION_DURATION_SECS,
        ensures
            r.0.wf(),
            r.0.now == now,
            r.0.settings == *settings,
            r.0.role == role_of(cfg.default_role@),
            r.0.org == cfg.default_org,
            raw_email_of(*asn, cfg.email_attribute@).len() > 0 <==> r.0.stage == AcsStage::AwaitLookup,
            email_of(*asn, *cfg).len() == 0 ==> r.0.stage == AcsStage::Done && r.1 == AcsAction::Respond(
                AcsResponse::Fail(AcsError::IdentityMissing),
            ),
            email_of(*asn, *cfg).len() > 0 ==> {
                &&& r.0.stage == AcsStage::AwaitLookup
                &&& r.0.email@ == email_of(*asn, *cfg)
                &&& r.0.name@ == name_of(*asn, *cfg)
                &&& r.1 matches AcsAction::LookupUser { email } && email@ == email_of(*asn, *cfg)
            },
    {
        let role = role_for_default(cfg.default_role.as_str());
        match extract_identity(asn, cfg) {
            Err(e) => {
                let flow = AcsFlow {
                    email: String::new(),
                    name: String::new(),
                    role,
                    org: cfg.default_org.clone(),
                    settings: settings.copied(),
                    now,
                    token: String::new(),
                    stage: AcsStage::Done,
                };
                (flow, AcsAction::Respond(AcsResponse::Fail(e)))
            },
            Ok(id) => {
                let email = id.email.clone();
                let flow = AcsFlow {
                    email: id.email,
                    name: id.name,
                    role,
                    org: cfg.default_org.clone(),
                    settings: settings.copied(),
                    now,
                    token: String::new(),
                    stage: AcsStage::AwaitLookup,
                };
                (flow, AcsAction::LookupUser { email })
            },
        }
    }

    fn issue_token(&mut self) -> (r: AcsAction)
        requires
            old(self).wf(),
            old(self).stage != AcsStage::Done,
        ensures
            final(self).wf(),
            final(self).stage == AcsStage::AwaitStore,
            final(self).same_sign_in(*old(self)),
            r == (AcsAction::StoreSession { email: final(self).email, token: final(self).token }),
    {
        self.token = new_session_token();
        self.stage = AcsStage::AwaitStore;
        AcsAction::StoreSession { email: self.email.clone(), token: self.token.clone() }
    }

    /// Whether two flows serve the same sign-in.
    pub open spec fn same_sign_in(&self, other: AcsFlow) -> bool {
        &&& self.email == other.email
        &&& self.name == other.name
        &&& self.role == other.role
        &&& self.org == other.org
        &&& self.settings == other.settings
        &&& self.now == other.now
    }

    /// Whether the flow waits for `ev`.
    pub fn expects(&self, ev: AcsEvent) -> (r: bool)
        ensures
            r == expects_event(self.stage, ev),
    {
        match self.stage {
            AcsStage::AwaitLookup => matches!(ev, AcsEvent::UserFound(_)),
            AcsStage::AwaitCreate => matches!(ev, AcsEvent::UserCreated(_)),
            AcsStage::AwaitStore => matches!(ev, AcsEvent::SessionStored(_)),
            AcsStage::Done => false,
        }
    }

    /// Advances the flow on the outcome of the last action. An existing user
    /// is never created again; a new one is created with the configured
    /// organization and role; each sign-in stores a fresh token; the
    /// response carries the session cookie only once the token is stored.
    pub fn step(&mut self, ev: AcsEvent) -> (r: AcsAction)
        requires
            old(self).wf(),
            expects_event(old(self).stage, ev),
        ensures
            final(self).wf(),
            final(self).same_sign_in(*old(self)),
            ev == AcsEvent::UserFound(true) || ev == AcsEvent::UserCreated(true) ==> {
                &&& final(self).stage == AcsStage::AwaitStore
                &&& r == (AcsAction::StoreSession { email: old(self).email, token: final(self).token })
            },
            ev == AcsEvent::UserFound(false) ==> {
                &&& final(self).stage == AcsStage::AwaitCreate
                &&& r matches AcsAction::CreateUser(u) && old(self).new_user_ok(u)
            },
            ev == AcsEvent::UserCreated(false) ==> final(self).stage == AcsStage::Done && r
                == AcsAction::Respond(AcsResponse::Fail(AcsError::ProvisioningFailed)),
            ev == AcsEvent::SessionStored(false) ==> final(self).stage == AcsStage::Done && r
                == AcsAction::Respond(AcsResponse::Fail(AcsError::SessionPersistFailed)),
            ev == AcsEvent::SessionStored(true) ==> {
                &&& final(self).stage == AcsStage::Done
                &&& r matches AcsAction::Respond(AcsResponse::Redirect { location, cookie }) && {
                    &&& location@ == signed_in_url_of(old(self).settings, old(self).email@, old(self).name@)
                    &&& has_cookie_policy(cookie, old(self).settings)
                    &&& cookie.value@ == session_cookie_value(old(self).token@)
                    &&& cookie.expires == old(self).now + SESSION_DURATION_SECS
                }
            },
    {
        match ev {
            AcsEvent::UserFound(true) => self.issue_token(),
            AcsEvent::UserFound(false) => {
                self.stage = AcsStage::AwaitCreate;
                AcsAction::CreateUser(NewUser {
                    org: self.org.clone(),
                    email: self.email.clone(),
                    first_name: self.name.clone(),
                    last_name: String::new(),
                    role: self.role,
                    is_external: true,
                })
            },
            AcsEvent::UserCreated(true) => self.issue_token(),
            AcsEvent::UserCreated(false) => {
                self.stage = AcsStage::Done;
                AcsAction::Respond(AcsResponse::Fail(AcsError::ProvisioningFailed))
            },
            AcsEvent::SessionStored(true) => {
                self.stage = AcsStage::Done;
                let id = Identity { email: self.email.clone(), name: self.name.clone() };
                let location = signed_in_url(&self.settings, &id);
                let cookie = session_cookie(self.token.as_str(), &self.settings, self.now);
                AcsAction::Respond(AcsResponse::Redirect { location, cookie })
            },
            AcsEvent::SessionStored(false) => {
                self.stage = AcsStage::Done;
                AcsAction::Respond(AcsResponse::Fail(AcsError::SessionPersistFailed))
            },
        }
    }
}

/// A `SAMLResponse` value that is not valid base64 ends the flow with a
/// 400 before any assertion is read, so no user, session or cookie follows.
pub proof fn lemma_malformed_response_rejected(raw: Seq<char>)
    requires
        base64_decoded(raw) is None,
    ensures
        decoded_response_of(raw) == Err::<Seq<char>, AcsError>(AcsError::InvalidEncoding),
        status_of(AcsError::InvalidEncoding) == 400,
{
}

/// A verified assertion with neither a NameID nor the configured email
/// attribute yields no email, so the flow ends with a 401 before the user
/// lookup and creates nobody.
pub proof fn lemma_no_email_no_provisioning(asn: Assertion, cfg: SamlConfig)
    requires
        asn.name_id is None,
        attribute_value_of(asn, cfg.email_attribute@) is None,
    ensures
        email_of(asn, cfg).len() == 0,
        status_of(AcsError::IdentityMissing) == 401,
{
}

/// The emails of the user store after a sign-in of `email`: the lookup
/// reports whether it is present, and a user is created only where not.
pub open spec fn users_after_sign_in(users: Set<Seq<char>>, email: Seq<char>) -> Set<Seq<char>> {
    if users.contains(email) {
        users
    } else {
        users.insert(email)
    }
}

/// Whether a sign-in of `email` creates a user, given the store's emails.
pub open spec fn sign_in_creates_user(users: Set<Seq<char>>, email: Seq<char>) -> bool {
    !users.contains(email)
}

/// The session store after a sign-in of `email` that stored `token`.
pub open spec fn sessions_after_sign_in(
    sessions: Map<Seq<char>, Seq<char>>,
    email: Seq<char>,
    token: Seq<char>,
) -> Map<Seq<char>, Seq<char>> {
    sessions.insert(email, token)
}

/// Two sign-ins resolving to the same email create the user at most once,
/// and the second sign-in's token replaces the first one's.
pub proof fn lemma_repeat_sign_in(
    users: Set<Seq<char>>,
    sessions: Map<Seq<char>, Seq<char>>,
    email: Seq<char>,
    first: Seq<char>,
    second: Seq<char>,
)
    ensures
        !sign_in_creates_user(users_after_sign_in(users, email), email),
        users_after_sign_in(users_after_sign_in(users, email), email) == users_after_sign_in(
            users,
            email,
        ),
        sessions_after_sign_in(sessions_after_sign_in(sessions, email, first), email, second)
            == sessions_after_sign_in(sessions, email, second),
        sessions_after_sign_in(sessions_after_sign_in(sessions, email, first), email, second)[email]
            == second,
{
    assert(sessions.insert(email, first).insert(email, second) =~= sessions.insert(email, second));
}

} // verus!
