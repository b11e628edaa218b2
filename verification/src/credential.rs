//! The stored configuration of the application at the provider.

use vstd::prelude::*;

verus! {

/// The application's registration at the provider, as the credential store holds
/// it. The client only reads it, afresh for every operation.
#[derive(Clone, Debug, PartialEq, Eq)]
pub struct ProviderCredential {
    pub client_id: String,
    pub client_secret: Option<String>,
    pub redirect_uri: Option<String>,
}

/// A [`ProviderCredential`] with its texts as sequences of characters.
pub struct CredentialView {
    pub client_id: Seq<char>,
    pub client_secret: Option<Seq<char>>,
    pub redirect_uri: Option<Seq<char>>,
}

/// The characters of an optional string.
pub open spec fn optional_text(text: Option<String>) -> Option<Seq<char>> {
    match text {
        Some(text) => Some(text@),
        None => None,
    }
}

impl View for ProviderCredential {
    type V = CredentialView;

    open spec fn view(&self) -> CredentialView {
        CredentialView {
            client_id: self.client_id@,
            client_secret: optional_text(self.client_secret),
            redirect_uri: optional_text(self.redirect_uri),
        }
    }
}

/// The credential behind a lookup in the store, if there was one.
pub open spec fn optional_credential(found: Option<ProviderCredential>) -> Option<CredentialView> {
    match found {
        Some(credential) => Some(credential@),
        None => None,
    }
}

} // verus!
