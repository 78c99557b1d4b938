use base64::Engine;
use saml_sp::acs::{AcsAction, AcsError, AcsEvent, AcsFlow, AcsResponse, AcsStage, decode_saml_response};
use saml_sp::config::{
    check_config, role_for_default, same_text, validate_config, ConfigError, SamlConfig, UserRole,
    WebSettings,
};
use saml_sp::identity::{
    attribute_value, extract_identity, find_attribute, identity_for_email, raw_email, Assertion, Attribute, AttributeStatement,
    Identity,
};
use saml_sp::login::{login_redirect_url, login_sso_url, sso_location, LoginError};
use saml_sp::session::{
    identity_payload, logout_cookie, logout_url, new_session_token, saml_logout, session_cookie,
    session_token_from, signed_in_url, AuthTokens, SESSION_DURATION_SECS,
};

fn config(default_role: &str, default_org: &str) -> SamlConfig {
    SamlConfig {
        enabled: true,
        sp_entity_id: "https://sp.example.com".to_string(),
        acs_url: "https://sp.example.com/auth/saml/acs".to_string(),
        idp_metadata_xml: "<EntityDescriptor/>".to_string(),
        allow_idp_initiated: true,
        email_attribute: "email".to_string(),
        name_attribute: "name".to_string(),
        default_role: default_role.to_string(),
        default_org: default_org.to_string(),
    }
}

fn settings() -> WebSettings {
    WebSettings {
        web_url: "https://app.example.com".to_string(),
        base_uri: "/base".to_string(),
        cookie_secure_only: true,
        cookie_same_site_lax: false,
    }
}

fn attr(name: &str, value: &str) -> Attribute {
    Attribute { name: Some(name.to_string()), values: vec![Some(value.to_string())] }
}

fn assertion(name_id: Option<&str>, attrs: Vec<Attribute>) -> Assertion {
    Assertion {
        name_id: name_id.map(|s| s.to_string()),
        attribute_statements: Some(vec![AttributeStatement { attributes: attrs }]),
    }
}

fn b64_decode_text(s: &str) -> String {
    let bytes = base64::engine::general_purpose::STANDARD.decode(s).unwrap();
    String::from_utf8(bytes).unwrap()
}

fn payload_of(location: &str) -> String {
    let fragment = location.split("#id_token=").nth(1).unwrap();
    let mut parts = fragment.split('.');
    assert_eq!(parts.next().unwrap(), "eyJhbGciOiJIUzI1NiIsInR5cCI6IkpXVCJ9");
    b64_decode_text(parts.next().unwrap())
}

#[test]
fn config_checks_in_order() {
    let mut c = config("admin", "default");
    assert_eq!(check_config(&c), Ok(()));
    c.idp_metadata_xml = String::new();
    assert_eq!(check_config(&c), Err(ConfigError::MissingIdpMetadata));
    c.acs_url = String::new();
    assert_eq!(check_config(&c), Err(ConfigError::MissingEndpoints));
    c.enabled = false;
    assert_eq!(check_config(&c), Err(ConfigError::NotEnabled));
    let mut d = config("admin", "default");
    d.sp_entity_id = String::new();
    assert_eq!(check_config(&d), Err(ConfigError::MissingEndpoints));
}

#[test]
fn roles_from_default_role() {
    assert_eq!(role_for_default("admin"), UserRole::Admin);
    assert_eq!(role_for_default("editor"), UserRole::Editor);
    assert_eq!(role_for_default("viewer"), UserRole::Viewer);
    assert_eq!(role_for_default("manager"), UserRole::Admin);
    assert_eq!(role_for_default("Viewer"), UserRole::Admin);
    assert_eq!(role_for_default(""), UserRole::Admin);
}

#[test]
fn same_text_compares_characters() {
    assert!(same_text("abc", "abc"));
    assert!(!same_text("abc", "abd"));
    assert!(!same_text("abc", "ab"));
    assert!(same_text("", ""));
}

#[test]
fn name_id_is_lower_cased() {
    let a = assertion(Some("User@Example.com"), vec![]);
    let id = extract_identity(&a, &config("admin", "o")).unwrap();
    assert_eq!(id.email, "user@example.com");
    assert_eq!(id.name, "user@example.com");
}

#[test]
fn name_id_wins_over_email_attribute() {
    let a = assertion(Some("nameid@x.com"), vec![attr("email", "attr@x.com"), attr("name", "Bob")]);
    let id = extract_identity(&a, &config("admin", "o")).unwrap();
    assert_eq!(id.email, "nameid@x.com");
    assert_eq!(id.name, "Bob");
}

#[test]
fn email_attribute_is_the_fallback() {
    let a = assertion(None, vec![attr("other", "zzz"), attr("email", "Carol@X.com")]);
    let id = extract_identity(&a, &config("admin", "o")).unwrap();
    assert_eq!(id.email, "carol@x.com");
    assert_eq!(id.name, "carol@x.com");
}

#[test]
fn only_the_first_statement_is_read() {
    let a = Assertion {
        name_id: None,
        attribute_statements: Some(vec![
            AttributeStatement { attributes: vec![attr("x", "y")] },
            AttributeStatement { attributes: vec![attr("email", "d@x.com")] },
        ]),
    };
    assert_eq!(extract_identity(&a, &config("admin", "o")).unwrap_err(), AcsError::IdentityMissing);
}

#[test]
fn first_matching_attribute_decides() {
    let attrs = vec![
        Attribute { name: None, values: vec![] },
        Attribute { name: Some("email".to_string()), values: vec![None] },
        attr("email", "late@x.com"),
    ];
    assert_eq!(find_attribute(&attrs, "email"), Some(1));
    assert_eq!(find_attribute(&attrs, "none"), None);
    let a = assertion(None, attrs);
    assert_eq!(attribute_value(&a, "email"), None);
    assert_eq!(extract_identity(&a, &config("admin", "o")).unwrap_err(), AcsError::IdentityMissing);
}

#[test]
fn missing_email_is_identity_missing() {
    let a = assertion(None, vec![attr("name", "Alice")]);
    let e = extract_identity(&a, &config("admin", "o")).unwrap_err();
    assert_eq!(e, AcsError::IdentityMissing);
    assert_eq!(e.status(), 401);
    let none = Assertion { name_id: None, attribute_statements: None };
    assert_eq!(extract_identity(&none, &config("admin", "o")).unwrap_err(), AcsError::IdentityMissing);
    let empty = assertion(Some(""), vec![attr("email", "e@x.com")]);
    assert_eq!(extract_identity(&empty, &config("admin", "o")).unwrap_err(), AcsError::IdentityMissing);
}

#[test]
fn malformed_response_is_bad_request() {
    let e = decode_saml_response("not base64!!").unwrap_err();
    assert_eq!(e, AcsError::InvalidEncoding);
    assert_eq!(e.status(), 400);
    assert_eq!(decode_saml_response("PGEvPg==").unwrap(), "<a/>");
    assert_eq!(decode_saml_response("/w==").unwrap_err(), AcsError::InvalidEncoding);
}

#[test]
fn error_statuses() {
    assert_eq!(AcsError::Config.status(), 500);
    assert_eq!(AcsError::AuthenticationFailed.status(), 401);
    assert_eq!(AcsError::ProvisioningFailed.status(), 500);
    assert_eq!(AcsError::SessionPersistFailed.status(), 500);
}

#[test]
fn session_tokens() {
    assert_eq!(session_token_from("abc"), "saml_session_abc");
    let t = new_session_token();
    assert_eq!(t.len(), 13 + 32);
    assert!(t.starts_with("saml_session_"));
    assert!(t[13..].chars().all(|c| c.is_ascii_alphanumeric()));
    assert_ne!(t, new_session_token());
}

#[test]
fn auth_tokens_json() {
    let tokens = AuthTokens::for_session("saml_session_abc");
    assert_eq!(tokens.access_token, "Bearer saml_session_abc");
    assert_eq!(tokens.refresh_token, "");
    assert_eq!(tokens.to_json(), r#"{"access_token":"Bearer saml_session_abc","refresh_token":""}"#);
}

#[test]
fn session_cookie_lasts_twelve_hours() {
    let c = session_cookie("saml_session_abc", &settings(), 1_700_000_000);
    assert_eq!(c.expires, 1_700_000_000 + 43200);
    assert_eq!(SESSION_DURATION_SECS, 43200);
    assert_eq!(c.name, "auth_tokens");
    assert!(c.http_only);
    assert!(c.secure);
    assert!(!c.same_site_lax);
    assert_eq!(c.path, "/");
    assert_eq!(
        b64_decode_text(&c.value),
        r#"{"access_token":"Bearer saml_session_abc","refresh_token":""}"#
    );
}

#[test]
fn logout_clears_cookie() {
    let mut s = settings();
    s.cookie_same_site_lax = true;
    s.cookie_secure_only = false;
    let c = logout_cookie(&s, 1_700_000_000);
    assert_eq!(c.expires, 1_700_000_000);
    assert_eq!(c.value, "");
    assert_eq!(c.name, "auth_tokens");
    assert!(c.http_only);
    assert!(!c.secure);
    assert!(c.same_site_lax);
    assert_eq!(logout_url(&s), "https://app.example.com/base/");
    let (url, cookie) = saml_logout(&s, 5);
    assert_eq!(url, "https://app.example.com/base/");
    assert_eq!(cookie.expires, 5);
    assert_eq!(cookie.value, "");
}

#[test]
fn identity_payload_escapes_json() {
    let id = Identity { email: "q@x.com".to_string(), name: "A \"B\"".to_string() };
    assert_eq!(b64_decode_text(&identity_payload(&id)), r#"{"email":"q@x.com","name":"A \"B\""}"#);
    let url = signed_in_url(&settings(), &id);
    assert!(url.starts_with("https://app.example.com/base/web/cb#id_token="));
    assert_eq!(payload_of(&url), r#"{"email":"q@x.com","name":"A \"B\""}"#);
}

#[test]
fn login_redirect() {
    assert_eq!(
        login_redirect_url("https://idp.example.com/sso", "<a/>"),
        "https://idp.example.com/sso?SAMLRequest=PGEvPg%3D%3D"
    );
    let descriptors = vec![
        vec!["https://idp/one".to_string(), "https://idp/two".to_string()],
        vec!["https://idp/three".to_string()],
    ];
    assert_eq!(sso_location(&descriptors), Ok("https://idp/one".to_string()));
    assert_eq!(sso_location(&vec![]), Err(LoginError::NoSsoEndpoint));
    assert_eq!(sso_location(&vec![vec![], vec!["x".to_string()]]), Ok("x".to_string()));
    assert_eq!(sso_location(&vec![vec![], vec![]]), Err(LoginError::NoSsoEndpoint));
}

#[test]
fn new_viewer_in_org1() {
    let cfg = config("viewer", "org1");
    let a = assertion(Some("a@b.com"), vec![attr("name", "Alice")]);
    let (mut flow, action) = AcsFlow::start(&a, &cfg, &settings(), 1_000);
    match action {
        AcsAction::LookupUser { email } => assert_eq!(email, "a@b.com"),
        other => panic!("unexpected {:?}", other),
    }
    match flow.step(AcsEvent::UserFound(false)) {
        AcsAction::CreateUser(u) => {
            assert_eq!(u.email, "a@b.com");
            assert_eq!(u.first_name, "Alice");
            assert_eq!(u.last_name, "");
            assert_eq!(u.role, UserRole::Viewer);
            assert_eq!(u.org, "org1");
            assert!(u.is_external);
        }
        other => panic!("unexpected {:?}", other),
    }
    let token = match flow.step(AcsEvent::UserCreated(true)) {
        AcsAction::StoreSession { email, token } => {
            assert_eq!(email, "a@b.com");
            token
        }
        other => panic!("unexpected {:?}", other),
    };
    assert!(token.starts_with("saml_session_"));
    match flow.step(AcsEvent::SessionStored(true)) {
        AcsAction::Respond(AcsResponse::Redirect { location, cookie }) => {
            assert!(location.starts_with("https://app.example.com/base/web/cb#id_token="));
            assert_eq!(payload_of(&location), r#"{"email":"a@b.com","name":"Alice"}"#);
            assert_eq!(cookie.expires, 1_000 + 43200);
            let json = format!(r#"{{"access_token":"Bearer {}","refresh_token":""}}"#, token);
            assert_eq!(b64_decode_text(&cookie.value), json);
        }
        other => panic!("unexpected {:?}", other),
    }
    assert_eq!(flow.stage, AcsStage::Done);
}

#[test]
fn manager_role_creates_admin() {
    let cfg = config("manager", "org1");
    let a = assertion(Some("m@b.com"), vec![]);
    let (mut flow, _) = AcsFlow::start(&a, &cfg, &settings(), 0);
    match flow.step(AcsEvent::UserFound(false)) {
        AcsAction::CreateUser(u) => assert_eq!(u.role, UserRole::Admin),
        other => panic!("unexpected {:?}", other),
    }
}

#[test]
fn repeat_sign_in_creates_no_second_user() {
    let cfg = config("viewer", "org1");
    let a = assertion(Some("A@B.com"), vec![]);
    let (mut first, _) = AcsFlow::start(&a, &cfg, &settings(), 0);
    assert!(matches!(first.step(AcsEvent::UserFound(false)), AcsAction::CreateUser(_)));
    let t1 = match first.step(AcsEvent::UserCreated(true)) {
        AcsAction::StoreSession { token, .. } => token,
        other => panic!("unexpected {:?}", other),
    };
    let (mut second, action) = AcsFlow::start(&a, &cfg, &settings(), 10);
    assert!(matches!(action, AcsAction::LookupUser { ref email } if email == "a@b.com"));
    let t2 = match second.step(AcsEvent::UserFound(true)) {
        AcsAction::StoreSession { email, token } => {
            assert_eq!(email, "a@b.com");
            token
        }
        other => panic!("unexpected {:?}", other),
    };
    assert_ne!(t1, t2);
}

#[test]
fn missing_identity_ends_before_lookup() {
    let a = assertion(None, vec![attr("name", "Alice")]);
    let (flow, action) = AcsFlow::start(&a, &config("admin", "o"), &settings(), 0);
    assert_eq!(flow.stage, AcsStage::Done);
    assert!(matches!(action, AcsAction::Respond(AcsResponse::Fail(AcsError::IdentityMissing))));
    assert!(!flow.expects(AcsEvent::UserFound(false)));
}

#[test]
fn store_failures_end_the_flow() {
    let a = assertion(Some("a@b.com"), vec![]);
    let (mut f, _) = AcsFlow::start(&a, &config("admin", "o"), &settings(), 0);
    assert!(f.expects(AcsEvent::UserFound(true)));
    assert!(!f.expects(AcsEvent::SessionStored(true)));
    f.step(AcsEvent::UserFound(false));
    assert!(matches!(
        f.step(AcsEvent::UserCreated(false)),
        AcsAction::Respond(AcsResponse::Fail(AcsError::ProvisioningFailed))
    ));
    let (mut g, _) = AcsFlow::start(&a, &config("admin", "o"), &settings(), 0);
    g.step(AcsEvent::UserFound(true));
    assert!(matches!(
        g.step(AcsEvent::SessionStored(false)),
        AcsAction::Respond(AcsResponse::Fail(AcsError::SessionPersistFailed))
    ));
}

const IDP_METADATA: &str = r#"<md:EntityDescriptor xmlns:md="urn:oasis:names:tc:SAML:2.0:metadata" entityID="https://idp.example.com">
  <md:IDPSSODescriptor protocolSupportEnumeration="urn:oasis:names:tc:SAML:2.0:protocol">
  </md:IDPSSODescriptor>
  <md:IDPSSODescriptor protocolSupportEnumeration="urn:oasis:names:tc:SAML:2.0:protocol">
    <md:SingleSignOnService Binding="urn:oasis:names:tc:SAML:2.0:bindings:HTTP-Redirect" Location="https://idp.example.com/sso"/>
    <md:SingleSignOnService Binding="urn:oasis:names:tc:SAML:2.0:bindings:HTTP-POST" Location="https://idp.example.com/post"/>
  </md:IDPSSODescriptor>
</md:EntityDescriptor>"#;

const IDP_METADATA_NO_SSO: &str = r#"<md:EntityDescriptor xmlns:md="urn:oasis:names:tc:SAML:2.0:metadata" entityID="https://idp.example.com">
  <md:IDPSSODescriptor protocolSupportEnumeration="urn:oasis:names:tc:SAML:2.0:protocol">
  </md:IDPSSODescriptor>
</md:EntityDescriptor>"#;

#[test]
fn login_uses_first_sso_service_found() {
    let mut c = config("admin", "o");
    c.idp_metadata_xml = IDP_METADATA.to_string();
    assert_eq!(validate_config(&c), Ok(()));
    assert_eq!(login_sso_url(&c), Ok("https://idp.example.com/sso".to_string()));
}

#[test]
fn login_without_sso_service() {
    let mut c = config("admin", "o");
    c.idp_metadata_xml = IDP_METADATA_NO_SSO.to_string();
    assert_eq!(login_sso_url(&c), Err(LoginError::NoSsoEndpoint));
}

#[test]
fn unreadable_metadata_is_a_config_error() {
    let mut c = config("admin", "o");
    c.idp_metadata_xml = "not xml at all".to_string();
    assert_eq!(validate_config(&c), Err(ConfigError::InvalidIdpMetadata));
    assert_eq!(login_sso_url(&c), Err(LoginError::Config(ConfigError::InvalidIdpMetadata)));
    c.enabled = false;
    assert_eq!(validate_config(&c), Err(ConfigError::NotEnabled));
    assert_eq!(login_sso_url(&c), Err(LoginError::Config(ConfigError::NotEnabled)));
}

#[test]
fn identity_from_lowered_email() {
    let cfg = config("admin", "o");
    let a = assertion(Some("User@Example.com"), vec![attr("name", "Ann")]);
    assert_eq!(raw_email(&a, &cfg), "User@Example.com");
    let id = identity_for_email(&a, &cfg, "user@example.com".to_string()).unwrap();
    assert_eq!(id.email, "user@example.com");
    assert_eq!(id.name, "Ann");
    let b = assertion(None, vec![]);
    let id = identity_for_email(&b, &cfg, "x@y.z".to_string()).unwrap();
    assert_eq!(id.name, "x@y.z");
    assert_eq!(identity_for_email(&b, &cfg, String::new()).unwrap_err(), AcsError::IdentityMissing);
}

#[test]
fn client_messages() {
    assert_eq!(AcsError::InvalidEncoding.message(), "Invalid SAML response encoding");
    assert_eq!(AcsError::IdentityMissing.message(), "Email attribute not found in SAML response");
    assert_eq!(ConfigError::NotEnabled.message(), "SAML is not enabled");
}
