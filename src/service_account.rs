//! The key document of a service account.
use vstd::prelude::*;
use crate::json::{is_object, json_is_object, json_text_member, opt_view, text_member};

verus! {

/// A service account's key, as the provider's console hands it out. Every
/// member is optional.
pub struct ServiceAccountKey {
    pub key_type: Option<String>,
    pub project_id: Option<String>,
    pub private_key_id: Option<String>,
    pub private_key: Option<String>,
    pub client_email: Option<String>,
    pub client_id: Option<String>,
    pub auth_uri: Option<String>,
    pub token_uri: Option<String>,
    pub auth_provider_x509_cert_url: Option<String>,
    pub client_x509_cert_url: Option<String>,
}

/// Whether `k` holds the string members of the object `doc`; the key type is
/// its member `"type"`.
pub open spec fn key_of_doc(k: ServiceAccountKey, doc: Seq<char>) -> bool {
    &&& opt_view(k.key_type) == json_text_member(doc, "type"@)
    &&& opt_view(k.project_id) == json_text_member(doc, "project_id"@)
    &&& opt_view(k.private_key_id) == json_text_member(doc, "private_key_id"@)
    &&& opt_view(k.private_key) == json_text_member(doc, "private_key"@)
    &&& opt_view(k.client_email) == json_text_member(doc, "client_email"@)
    &&& opt_view(k.client_id) == json_text_member(doc, "client_id"@)
    &&& opt_view(k.auth_uri) == json_text_member(doc, "auth_uri"@)
    &&& opt_view(k.token_uri) == json_text_member(doc, "token_uri"@)
    &&& opt_view(k.auth_provider_x509_cert_url) == json_text_member(doc, "auth_provider_x509_cert_url"@)
    &&& opt_view(k.client_x509_cert_url) == json_text_member(doc, "client_x509_cert_url"@)
}

/// Reads a service-account key from its JSON document; `None` where the text
/// is no JSON object.
pub fn parse_service_account_key(key: &str) -> (r: Option<ServiceAccountKey>)
    ensures
        r is Some <==> json_is_object(key@),
        r matches Some(k) ==> key_of_doc(k, key@),
{
    if !is_object(key) {
        return None;
    }
    Some(ServiceAccountKey {
        key_type: text_member(key, "type"),
        project_id: text_member(key, "project_id"),
        private_key_id: text_member(key, "private_key_id"),
        private_key: text_member(key, "private_key"),
        client_email: text_member(key, "client_email"),
        client_id: text_member(key, "client_id"),
        auth_uri: text_member(key, "auth_uri"),
        token_uri: text_member(key, "token_uri"),
        auth_provider_x509_cert_url: text_member(key, "auth_provider_x509_cert_url"),
        client_x509_cert_url: text_member(key, "client_x509_cert_url"),
    })
}

} // verus!
