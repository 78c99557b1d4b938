//! SAML configuration, the checks it must pass before any flow runs, and the
//! role that newly provisioned users receive.
use vstd::prelude::*;

use samael::metadata::EntityDescriptor;

use crate::login::locations_view;

verus! {

/// The SAML settings as stored by the configuration provider.
#[derive(Clone, Debug)]
pub struct SamlConfig {
    pub enabled: bool,
    pub sp_entity_id: String,
    pub acs_url: String,
    pub idp_metadata_xml: String,
    pub allow_idp_initiated: bool,
    pub email_attribute: String,
    pub name_attribute: String,
    pub default_role: String,
    pub default_org: String,
}

/// Global settings that shape cookies and redirects.
#[derive(Clone, Debug)]
pub struct WebSettings {
    pub web_url: String,
    pub base_uri: String,
    pub cookie_secure_only: bool,
    pub cookie_same_site_lax: bool,
}

impl WebSettings {
    /// A field-by-field copy.
    pub fn copied(&self) -> (r: WebSettings)
        ensures
            r == *self,
    {
        WebSettings {
            web_url: self.web_url.clone(),
            base_uri: self.base_uri.clone(),
            cookie_secure_only: self.cookie_secure_only,
            cookie_same_site_lax: self.cookie_same_site_lax,
        }
    }
}

/// Why a service-provider context cannot be built.
#[derive(Clone, Copy, Debug, PartialEq, Eq, Structural)]
pub enum ConfigError {
    NotEnabled,
    MissingEndpoints,
    MissingIdpMetadata,
    InvalidIdpMetadata,
}

/// The client-facing text of each configuration error.
pub open spec fn config_message_of(e: ConfigError) -> Seq<char> {
    match e {
        ConfigError::NotEnabled => "SAML is not enabled"@,
        ConfigError::MissingEndpoints => "SAML SP Entity ID and ACS URL must be configured"@,
        ConfigError::MissingIdpMetadata => "SAML IdP metadata must be configured"@,
        ConfigError::InvalidIdpMetadata => "SAML IdP metadata could not be parsed"@,
    }
}

impl ConfigError {
    /// Text shown to the client for this error.
    pub fn message(&self) -> (r: String)
        ensures
            r@ == config_message_of(*self),
    {
        match self {
            ConfigError::NotEnabled => "SAML is not enabled".to_owned(),
            ConfigError::MissingEndpoints => "SAML SP Entity ID and ACS URL must be configured".to_owned(),
            ConfigError::MissingIdpMetadata => "SAML IdP metadata must be configured".to_owned(),
            ConfigError::InvalidIdpMetadata => "SAML IdP metadata could not be parsed".to_owned(),
        }
    }
}

/// The outcome of the field checks, in the order they are made.
pub open spec fn config_check(c: SamlConfig) -> Result<(), ConfigError> {
    if !c.enabled {
        Err(ConfigError::NotEnabled)
    } else if c.sp_entity_id@.len() == 0 || c.acs_url@.len() == 0 {
        Err(ConfigError::MissingEndpoints)
    } else if c.idp_metadata_xml@.len() == 0 {
        Err(ConfigError::MissingIdpMetadata)
    } else {
        Ok(())
    }
}

/// Checks the fields a service-provider context needs; parsing the IdP
/// metadata document is left to the SAML engine.
pub fn check_config(c: &SamlConfig) -> (r: Result<(), ConfigError>)
    ensures
        r == config_check(*c),
{
    if !c.enabled {
        Err(ConfigError::NotEnabled)
    } else if c.sp_entity_id.unicode_len() == 0 || c.acs_url.unicode_len() == 0 {
        Err(ConfigError::MissingEndpoints)
    } else if c.idp_metadata_xml.unicode_len() == 0 {
        Err(ConfigError::MissingIdpMetadata)
    } else {
        Ok(())
    }
}

/// The single-sign-on locations of each IdP SSO descriptor of an IdP
/// metadata document, in document order; `None` where samael cannot read
/// the document.
pub uninterp spec fn idp_sso_locations_of(xml: Seq<char>) -> Option<Seq<Seq<Seq<char>>>>;

/// Relies on samael's `EntityDescriptor::from_str` to read IdP metadata; the
/// locations of its descriptors' single-sign-on services are copied out.
#[verifier::external_body]
pub(crate) fn idp_sso_locations(xml: &str) -> (r: Option<Vec<Vec<String>>>)
    ensures
        r is None <==> idp_sso_locations_of(xml@) is None,
        r matches Some(v) ==> idp_sso_locations_of(xml@) == Some(locations_view(v@)),
{
    let md: EntityDescriptor = xml.parse().ok()?;
    Some(md.idp_sso_descriptors.iter().flatten()
        .map(|d| d.single_sign_on_services.iter().map(|s| s.location.clone()).collect())
        .collect())
}

/// The outcome of the field checks followed by reading the IdP metadata.
pub open spec fn config_validation(c: SamlConfig) -> Result<(), ConfigError> {
    match config_check(c) {
        Err(e) => Err(e),
        Ok(()) => if idp_sso_locations_of(c.idp_metadata_xml@) is None {
            Err(ConfigError::InvalidIdpMetadata)
        } else {
            Ok(())
        },
    }
}

/// Checks the configured fields, then that the IdP metadata can be read.
pub fn validate_config(c: &SamlConfig) -> (r: Result<(), ConfigError>)
    ensures
        r == config_validation(*c),
{
    check_config(c)?;
    match idp_sso_locations(c.idp_metadata_xml.as_str()) {
        Some(_) => Ok(()),
        None => Err(ConfigError::InvalidIdpMetadata),
    }
}

/// Base role of a user.
#[derive(Clone, Copy, Debug, PartialEq, Eq, Structural)]
pub enum UserRole {
    Admin,
    Editor,
    Viewer,
}

/// `"editor"` and `"viewer"` name their roles; every other value, known or
/// not, gives `Admin`.
pub open spec fn role_of(name: Seq<char>) -> UserRole {
    if name == seq!['e', 'd', 'i', 't', 'o', 'r'] {
        UserRole::Editor
    } else if name == seq!['v', 'i', 'e', 'w', 'e', 'r'] {
        UserRole::Viewer
    } else {
        UserRole::Admin
    }
}

/// Whether two texts hold the same characters.
pub fn same_text(a: &str, b: &str) -> (r: bool)
    ensures
        r == (a@ == b@),
{
    let n = a.unicode_len();
    if n != b.unicode_len() {
        return false;
    }
    let mut i: usize = 0;
    while i < n
        invariant
            n == a@.len(),
            n == b@.len(),
            i <= n,
            forall|j: int| 0 <= j < i ==> a@[j] == b@[j],
        decreases n - i,
    {
        if a.get_char(i) != b.get_char(i) {
            return false;
        }
        i = i + 1;
    }
    proof {
        assert(a@ =~= b@);
    }
    true
}

/// The role given to users created with `default_role` as configured.
pub fn role_for_default(default_role: &str) -> (r: UserRole)
    ensures
        r == role_of(default_role@),
{
    let editor = "editor";
    let viewer = "viewer";
    proof {
        reveal_strlit("editor");
        reveal_strlit("viewer");
    }
    assert(editor@ == seq!['e', 'd', 'i', 't', 'o', 'r']);
    assert(viewer@ == seq!['v', 'i', 'e', 'w', 'e', 'r']);
    if same_text(default_role, editor) {
        UserRole::Editor
    } else if same_text(default_role, viewer) {
        UserRole::Viewer
    } else {
        UserRole::Admin
    }
}

/// Any `default_role` other than exactly `"editor"` or `"viewer"`, an
/// unknown one included, gives new users the Admin role.
pub proof fn lemma_unrecognized_role_is_admin(name: Seq<char>)
    requires
        name != seq!['e', 'd', 'i', 't', 'o', 'r'],
        name != seq!['v', 'i', 'e', 'w', 'e', 'r'],
    ensures
        role_of(name) == UserRole::Admin,
{
}

} // verus!
