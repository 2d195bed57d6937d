//! Application credentials and their JSON document.
use vstd::prelude::*;
use crate::json::{json_member, json_text_list, json_text_member, member, opt_view, text_list, text_member};

verus! {

/// The client identity and the provider endpoints of an application.
pub struct ApplicationSecret {
    pub client_id: String,
    pub client_secret: String,
    pub token_uri: String,
    pub auth_uri: String,
    pub redirect_uris: Vec<String>,
    pub project_id: Option<String>,
    pub client_email: Option<String>,
    pub auth_provider_x509_cert_url: Option<String>,
    pub client_x509_cert_url: Option<String>,
}

/// Why a secret document was not accepted; each is a data-format error.
pub enum SecretError {
    /// Neither `"web"` nor `"installed"` is present (or the text is no JSON object).
    UnknownFormat,
    /// Both `"web"` and `"installed"` are present.
    AmbiguousFormat,
    /// The application object lacks a required member, or holds one of the wrong type.
    MalformedApplication,
}

/// Whether the application object `obj` holds every required member.
pub open spec fn has_required_members(obj: Seq<char>) -> bool {
    &&& json_text_member(obj, "client_id"@) is Some
    &&& json_text_member(obj, "client_secret"@) is Some
    &&& json_text_member(obj, "token_uri"@) is Some
    &&& json_text_member(obj, "auth_uri"@) is Some
    &&& json_member(obj, "redirect_uris"@) is Some
    &&& json_text_list(json_member(obj, "redirect_uris"@).unwrap()) is Some
}

/// Whether `s` holds the members of the application object `obj`.
pub open spec fn secret_of_object(s: ApplicationSecret, obj: Seq<char>) -> bool {
    &&& json_text_member(obj, "client_id"@) == Some(s.client_id@)
    &&& json_text_member(obj, "client_secret"@) == Some(s.client_secret@)
    &&& json_text_member(obj, "token_uri"@) == Some(s.token_uri@)
    &&& json_text_member(obj, "auth_uri"@) == Some(s.auth_uri@)
    &&& json_text_list(json_member(obj, "redirect_uris"@).unwrap())
        == Some(s.redirect_uris@.map_values(|u: String| u@))
    &&& json_text_member(obj, "project_id"@) == opt_view(s.project_id)
    &&& json_text_member(obj, "client_email"@) == opt_view(s.client_email)
    &&& json_text_member(obj, "auth_provider_x509_cert_url"@) == opt_view(s.auth_provider_x509_cert_url)
    &&& json_text_member(obj, "client_x509_cert_url"@) == opt_view(s.client_x509_cert_url)
}

/// The application object of the document: the one of `"web"` and
/// `"installed"` that is present, where exactly one is.
pub open spec fn application_object(doc: Seq<char>) -> Option<Seq<char>> {
    match (json_member(doc, "web"@), json_member(doc, "installed"@)) {
        (Some(w), None) => Some(w),
        (None, Some(i)) => Some(i),
        _ => None,
    }
}

/// Reads an application object.
fn secret_from_object(obj: &str) -> (r: Option<ApplicationSecret>)
    ensures
        r is Some <==> has_required_members(obj@),
        r matches Some(s) ==> secret_of_object(s, obj@),
{
    let client_id = text_member(obj, "client_id")?;
    let client_secret = text_member(obj, "client_secret")?;
    let token_uri = text_member(obj, "token_uri")?;
    let auth_uri = text_member(obj, "auth_uri")?;
    let uris = member(obj, "redirect_uris")?;
    let redirect_uris = text_list(uris.as_str())?;
    Some(ApplicationSecret {
        client_id,
        client_secret,
        token_uri,
        auth_uri,
        redirect_uris,
        project_id: text_member(obj, "project_id"),
        client_email: text_member(obj, "client_email"),
        auth_provider_x509_cert_url: text_member(obj, "auth_provider_x509_cert_url"),
        client_x509_cert_url: text_member(obj, "client_x509_cert_url"),
    })
}

/// Reads an application secret from a JSON document holding exactly one of
/// `"web"` and `"installed"`.
pub fn parse_application_secret(secret: &str) -> (r: Result<ApplicationSecret, SecretError>)
    ensures
        (json_member(secret@, "web"@) is None && json_member(secret@, "installed"@) is None)
            <==> r matches Err(SecretError::UnknownFormat),
        (json_member(secret@, "web"@) is Some && json_member(secret@, "installed"@) is Some)
            <==> r matches Err(SecretError::AmbiguousFormat),
        application_object(secret@) matches Some(obj) ==> {
            &&& (r is Ok <==> has_required_members(obj))
            &&& (r matches Err(e) ==> e is MalformedApplication)
            &&& (r matches Ok(s) ==> secret_of_object(s, obj))
        },
{
    let web = member(secret, "web");
    let installed = member(secret, "installed");
    let obj = match (web, installed) {
        (Some(w), None) => w,
        (None, Some(i)) => i,
        (None, None) => return Err(SecretError::UnknownFormat),
        (Some(_), Some(_)) => return Err(SecretError::AmbiguousFormat),
    };
    match secret_from_object(obj.as_str()) {
        Some(s) => Ok(s),
        None => Err(SecretError::MalformedApplication),
    }
}

} // verus!
