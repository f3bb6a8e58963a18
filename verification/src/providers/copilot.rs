//! GitHub Copilot at `https://api.githubcopilot.com`, an OpenAI-compatible
//! provider with optional editor identification headers.
use vstd::prelude::*;

use crate::providers::openai_compat::{
    headers_view, optional_header_pairs, optional_headers, OpenAICompatClient,
};
use crate::text::IntoText;

verus! {

/// The default API root.
pub const COPILOT_BASE_URL: &'static str = "https://api.githubcopilot.com";

/// A connection to the GitHub Copilot chat API.
#[derive(Debug, Clone)]
pub struct CopilotProvider {
    pub inner: OpenAICompatClient,
    /// Sent as `Editor-Version` when set.
    pub editor_version: Option<String>,
    /// Sent as `Copilot-Integration-Id` when set.
    pub integration_id: Option<String>,
}

impl CopilotProvider {
    /// A connection with the given token to the default API root, with no
    /// identification headers.
    pub fn new<K: IntoText>(token: K) -> (r: Self)
        ensures
            r.inner.api_key matches Some(k) && k@ == token.text_view(),
            r.inner.base_url@ == COPILOT_BASE_URL@,
            r.editor_version is None,
            r.integration_id is None,
    {
        CopilotProvider {
            inner: OpenAICompatClient::with_key(token, COPILOT_BASE_URL),
            editor_version: None,
            integration_id: None,
        }
    }

    /// Override the API root; it is used as given.
    pub fn with_base_url<U: IntoText>(self, base_url: U) -> (r: Self)
        ensures
            r.inner.api_key == self.inner.api_key,
            r.inner.base_url@ == base_url.text_view(),
            r.editor_version == self.editor_version,
            r.integration_id == self.integration_id,
    {
        CopilotProvider {
            inner: OpenAICompatClient { base_url: base_url.into_text(), ..self.inner },
            ..self
        }
    }

    /// Set the `Editor-Version` header (e.g. `vscode/1.90.0`).
    pub fn editor_version<V: IntoText>(self, version: V) -> (r: Self)
        ensures
            r.inner == self.inner,
            r.editor_version matches Some(v) && v@ == version.text_view(),
            r.integration_id == self.integration_id,
    {
        CopilotProvider { editor_version: Some(version.into_text()), ..self }
    }

    /// Set the `Copilot-Integration-Id` header.
    pub fn integration_id<I: IntoText>(self, id: I) -> (r: Self)
        ensures
            r.inner == self.inner,
            r.editor_version == self.editor_version,
            r.integration_id matches Some(v) && v@ == id.text_view(),
    {
        CopilotProvider { integration_id: Some(id.into_text()), ..self }
    }

    /// The provider's name.
    pub fn name(&self) -> (r: &'static str)
        ensures
            r@ == "copilot"@,
    {
        "copilot"
    }

    /// The identification headers sent with each chat request:
    /// `Editor-Version`, then `Copilot-Integration-Id`, each when set.
    pub fn extra_headers(&self) -> (r: Vec<(String, String)>)
        ensures
            headers_view(r@) == optional_headers(
                "Editor-Version"@,
                self.editor_version,
                "Copilot-Integration-Id"@,
                self.integration_id,
            ),
    {
        optional_header_pairs(
            "Editor-Version",
            &self.editor_version,
            "Copilot-Integration-Id",
            &self.integration_id,
        )
    }
}

} // verus!
