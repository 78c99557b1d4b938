//! Service-provider-initiated login: where to send the browser, and with
//! which request.
use vstd::prelude::*;

use crate::config::{check_config, config_check, idp_sso_locations, idp_sso_locations_of, ConfigError, SamlConfig};
use crate::encoding::{
    base64_encode, base64_of, is_ascii_alphanumeric, is_ascii_text, is_base64_char, percent_ascii,
    percent_ascii_char, percent_encoded, upper_hex_digit, url_encode,
};

verus! {

/// Why a login cannot be initiated.
#[derive(Clone, Copy, Debug, PartialEq, Eq, Structural)]
pub enum LoginError {
    Config(ConfigError),
    NoSsoEndpoint,
    RequestFailed,
}

/// Index of the first descriptor, at or after `i`, that lists a
/// single-sign-on service.
pub open spec fn first_with_service_from(descriptors: Seq<Seq<Seq<char>>>, i: int) -> Option<int>
    decreases descriptors.len() - i,
{
    if i < 0 || i >= descriptors.len() {
        None
    } else if descriptors[i].len() > 0 {
        Some(i)
    } else {
        first_with_service_from(descriptors, i + 1)
    }
}

/// The single-sign-on location to use: the first service found in the IdP
/// SSO descriptors, taken in document order.
pub open spec fn sso_location_of(descriptors: Seq<Seq<Seq<char>>>) -> Option<Seq<char>> {
    match first_with_service_from(descriptors, 0) {
        Some(i) => Some(descriptors[i][0]),
        None => None,
    }
}

/// The text view of descriptors given as lists of locations.
pub open spec fn locations_view(descriptors: Seq<Vec<String>>) -> Seq<Seq<Seq<char>>> {
    descriptors.map_values(|d: Vec<String>| d@.map_values(|s: String| s@))
}

/// Picks the SSO location from the IdP's SSO descriptors, each given as the
/// locations of its single-sign-on services in document order; fails only
/// where no descriptor lists a service.
pub fn sso_location(descriptors: &Vec<Vec<String>>) -> (r: Result<String, LoginError>)
    ensures
        r is Err <==> sso_location_of(locations_view(descriptors@)) is None,
        r matches Err(e) ==> e == LoginError::NoSsoEndpoint,
        r matches Ok(u) ==> sso_location_of(locations_view(descriptors@)) == Some(u@),
{
    let mut i: usize = 0;
    while i < descriptors.len()
        invariant
            i <= descriptors@.len(),
            first_with_service_from(locations_view(descriptors@), 0) == first_with_service_from(
                locations_view(descriptors@),
                i as int,
            ),
        decreases descriptors@.len() - i,
    {
        assert(locations_view(descriptors@)[i as int] == descriptors@[i as int]@.map_values(
            |s: String| s@,
        ));
        if descriptors[i].len() > 0 {
            return Ok(descriptors[i][0].clone());
        }
        i = i + 1;
    }
    Err(LoginError::NoSsoEndpoint)
}

/// Where a login is sent for the configuration `cfg`.
pub open spec fn login_sso_of(cfg: SamlConfig) -> Result<Seq<char>, LoginError> {
    match config_check(cfg) {
        Err(e) => Err(LoginError::Config(e)),
        Ok(()) => match idp_sso_locations_of(cfg.idp_metadata_xml@) {
            None => Err(LoginError::Config(ConfigError::InvalidIdpMetadata)),
            Some(d) => match sso_location_of(d) {
                Some(u) => Ok(u),
                None => Err(LoginError::NoSsoEndpoint),
            },
        },
    }
}

/// Checks the configuration and picks the IdP's single-sign-on location.
pub fn login_sso_url(cfg: &SamlConfig) -> (r: Result<String, LoginError>)
    ensures
        r is Ok <==> login_sso_of(*cfg) is Ok,
        r matches Ok(u) ==> login_sso_of(*cfg) == Ok::<Seq<char>, LoginError>(u@),
        r matches Err(e) ==> login_sso_of(*cfg) == Err::<Seq<char>, LoginError>(e),
{
    if let Err(e) = check_config(cfg) {
        return Err(LoginError::Config(e));
    }
    match idp_sso_locations(cfg.idp_metadata_xml.as_str()) {
        None => Err(LoginError::Config(ConfigError::InvalidIdpMetadata)),
        Some(d) => sso_location(&d),
    }
}

/// The redirect of a login: the SSO location with the serialized
/// authentication request, base64- then percent-encoded, as `SAMLRequest`.
pub open spec fn login_redirect_of(sso_url: Seq<char>, authn_xml: Seq<char>) -> Seq<char> {
    sso_url + "?SAMLRequest="@ + percent_encoded(base64_of(authn_xml))
}

/// Builds the redirect URL for a serialized authentication request.
pub fn login_redirect_url(sso_url: &str, authn_xml: &str) -> (r: String)
    ensures
        r@ == login_redirect_of(sso_url@, authn_xml@),
        r@ == sso_url@ + "?SAMLRequest="@ + percent_ascii(base64_of(authn_xml@)),
        forall|i: int|
            0 <= i < base64_of(authn_xml@).len() ==> is_base64_char(#[trigger] base64_of(authn_xml@)[i]),
{
    let encoded = base64_encode(authn_xml);
    assert(is_ascii_text(encoded@)) by {
        assert forall|i: int| 0 <= i < encoded@.len() implies (#[trigger] encoded@[i] as u32) < 128 by {
            assert(is_base64_char(encoded@[i]));
        }
    }
    let mut u = sso_url.to_owned();
    u.append("?SAMLRequest=");
    u.append(url_encode(encoded.as_str()).as_str());
    u
}

/// The `SAMLRequest` value of a login redirect is made of ASCII letters,
/// digits and `%` escapes alone: percent-encoding base64 text escapes just
/// `+`, `/` and `=`, each as `%` and two hex digits.
pub proof fn lemma_saml_request_charset(b: Seq<char>)
    requires
        forall|i: int| 0 <= i < b.len() ==> is_base64_char(#[trigger] b[i]),
    ensures
        forall|i: int|
            0 <= i < percent_ascii(b).len() ==> is_ascii_alphanumeric(#[trigger] percent_ascii(b)[i])
                || percent_ascii(b)[i] == '%',
    decreases b.len(),
{
    if b.len() > 0 {
        let rest = b.drop_last();
        assert forall|i: int| 0 <= i < rest.len() implies is_base64_char(#[trigger] rest[i]) by {
            assert(rest[i] == b[i]);
        }
        lemma_saml_request_charset(rest);
        let c = b.last();
        assert(is_base64_char(b[b.len() - 1]));
        let p = percent_ascii_char(c);
        let hex = seq!['0', '1', '2', '3', '4', '5', '6', '7', '8', '9', 'A', 'B', 'C', 'D', 'E', 'F'];
        assert(upper_hex_digit(2) == hex[2]);
        assert(upper_hex_digit(3) == hex[3]);
        assert(upper_hex_digit(11) == hex[11]);
        assert(upper_hex_digit(13) == hex[13]);
        assert(upper_hex_digit(15) == hex[15]);
        assert forall|j: int| 0 <= j < p.len() implies is_ascii_alphanumeric(#[trigger] p[j]) || p[j] == '%' by {
            if !is_ascii_alphanumeric(c) {
                assert(c == '+' || c == '/' || c == '=');
            }
        }
        let whole = percent_ascii(b);
        assert(whole == percent_ascii(rest) + p);
        assert forall|i: int| 0 <= i < whole.len() implies is_ascii_alphanumeric(#[trigger] whole[i]) || whole[i] == '%' by {
            if i < percent_ascii(rest).len() {
                assert(whole[i] == percent_ascii(rest)[i]);
            } else {
                assert(whole[i] == p[i - percent_ascii(rest).len()]);
            }
        }
    }
}

} // verus!
