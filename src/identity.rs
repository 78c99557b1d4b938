//! The identity (email and display name) carried by a verified assertion.
use vstd::prelude::*;

use crate::acs::AcsError;
use crate::config::SamlConfig;
use crate::encoding::{lower_of, lowercase};

verus! {

/// A named attribute with its values; a value may be absent.
#[derive(Clone, Debug)]
pub struct Attribute {
    pub name: Option<String>,
    pub values: Vec<Option<String>>,
}

/// One attribute statement of an assertion.
#[derive(Clone, Debug)]
pub struct AttributeStatement {
    pub attributes: Vec<Attribute>,
}

/// What the flow reads of an assertion the SAML engine has verified.
#[derive(Clone, Debug)]
pub struct Assertion {
    pub name_id: Option<String>,
    pub attribute_statements: Option<Vec<AttributeStatement>>,
}

/// Email (lower case, never empty) and display name of a signed-in user.
#[derive(Clone, Debug)]
pub struct Identity {
    pub email: String,
    pub name: String,
}

pub open spec fn is_named(a: Attribute, name: Seq<char>) -> bool {
    match a.name {
        Some(n) => n@ == name,
        None => false,
    }
}

/// Index of the first attribute at or after `i` that carries `name`.
pub open spec fn first_named_from(attrs: Seq<Attribute>, name: Seq<char>, i: int) -> Option<int>
    decreases attrs.len() - i,
{
    if i < 0 || i >= attrs.len() {
        None
    } else if is_named(attrs[i], name) {
        Some(i)
    } else {
        first_named_from(attrs, name, i + 1)
    }
}

/// The first value of an attribute, where it has one and it is present.
pub open spec fn first_value(a: Attribute) -> Option<Seq<char>> {
    if a.values@.len() > 0 {
        match a.values@[0] {
            Some(v) => Some(v@),
            None => None,
        }
    } else {
        None
    }
}

/// First value of the first attribute named `name` in the first attribute
/// statement.
pub open spec fn attribute_value_of(asn: Assertion, name: Seq<char>) -> Option<Seq<char>> {
    match asn.attribute_statements {
        None => None,
        Some(sts) => if sts@.len() == 0 {
            None
        } else {
            match first_named_from(sts@[0].attributes@, name, 0) {
                Some(i) => first_value(sts@[0].attributes@[i]),
                None => None,
            }
        },
    }
}

/// The email as the assertion gives it: the NameID where there is one, else
/// the configured email attribute, else nothing.
pub open spec fn raw_email_of(asn: Assertion, email_attribute: Seq<char>) -> Seq<char> {
    match asn.name_id {
        Some(n) => n@,
        None => match attribute_value_of(asn, email_attribute) {
            Some(v) => v,
            None => Seq::empty(),
        },
    }
}

/// The email that keys the user and the session: the raw email in lower case.
pub open spec fn email_of(asn: Assertion, cfg: SamlConfig) -> Seq<char> {
    let raw = raw_email_of(asn, cfg.email_attribute@);
    if raw.len() == 0 {
        Seq::empty()
    } else {
        lower_of(raw)
    }
}

/// The display name: the configured name attribute, else the email.
pub open spec fn name_of(asn: Assertion, cfg: SamlConfig) -> Seq<char> {
    match attribute_value_of(asn, cfg.name_attribute@) {
        Some(v) => v,
        None => email_of(asn, cfg),
    }
}

/// Index of the first attribute that carries `name`.
pub fn find_attribute(attrs: &Vec<Attribute>, name: &str) -> (r: Option<usize>)
    ensures
        r matches Some(i) ==> i < attrs@.len() && first_named_from(attrs@, name@, 0) == Some(i as int),
        r is None ==> first_named_from(attrs@, name@, 0) is None,
{
    let mut i: usize = 0;
    while i < attrs.len()
        invariant
            i <= attrs@.len(),
            first_named_from(attrs@, name@, 0) == first_named_from(attrs@, name@, i as int),
        decreases attrs@.len() - i,
    {
        let hit = match &attrs[i].name {
            Some(n) => crate::config::same_text(n.as_str(), name),
            None => false,
        };
        if hit {
            return Some(i);
        }
        i = i + 1;
    }
    None
}

/// First value of the first attribute named `name` in the first attribute
/// statement.
pub fn attribute_value(asn: &Assertion, name: &str) -> (r: Option<String>)
    ensures
        r is None <==> attribute_value_of(*asn, name@) is None,
        r matches Some(v) ==> attribute_value_of(*asn, name@) == Some(v@),
{
    match &asn.attribute_statements {
        None => None,
        Some(sts) => {
            if sts.len() == 0 {
                return None;
            }
            let attrs = &sts[0].attributes;
            match find_attribute(attrs, name) {
                None => None,
                Some(i) => {
                    let a = &attrs[i];
                    if a.values.len() == 0 {
                        None
                    } else {
                        match &a.values[0] {
                            Some(v) => Some(v.clone()),
                            None => None,
                        }
                    }
                },
            }
        },
    }
}

/// The email as the assertion gives it, before lower-casing.
pub fn raw_email(asn: &Assertion, cfg: &SamlConfig) -> (r: String)
    ensures
        r@ == raw_email_of(*asn, cfg.email_attribute@),
{
    match &asn.name_id {
        Some(n) => n.clone(),
        None => match attribute_value(asn, cfg.email_attribute.as_str()) {
            Some(v) => v,
            None => String::new(),
        },
    }
}

/// The identity for an already lower-cased `email`: the display name is
/// the configured name attribute, else the email; an empty email is
/// reported missing.
pub fn identity_for_email(asn: &Assertion, cfg: &SamlConfig, email: String) -> (r: Result<
    Identity,
    AcsError,
>)
    ensures
        r is Err <==> email@.len() == 0,
        r matches Err(e) ==> e == AcsError::IdentityMissing,
        r matches Ok(id) ==> {
            &&& id.email == email
            &&& id.name@ == match attribute_value_of(*asn, cfg.name_attribute@) {
                Some(v) => v,
                None => email@,
            }
        },
{
    if email.unicode_len() == 0 {
        return Err(AcsError::IdentityMissing);
    }
    let name = match attribute_value(asn, cfg.name_attribute.as_str()) {
        Some(v) => v,
        None => email.clone(),
    };
    Ok(Identity { email, name })
}

/// Derives the identity of a verified assertion, or reports that no email
/// can be derived from it.
pub fn extract_identity(asn: &Assertion, cfg: &SamlConfig) -> (r: Result<Identity, AcsError>)
    ensures
        r is Err <==> raw_email_of(*asn, cfg.email_attribute@).len() == 0,
        r is Err <==> email_of(*asn, *cfg).len() == 0,
        r matches Err(e) ==> e == AcsError::IdentityMissing,
        r matches Ok(id) ==> id.email@ == email_of(*asn, *cfg) && id.name@ == name_of(*asn, *cfg),
{
    let raw = raw_email(asn, cfg);
    if raw.unicode_len() == 0 {
        return Err(AcsError::IdentityMissing);
    }
    identity_for_email(asn, cfg, lowercase(raw.as_str()))
}

} // verus!
