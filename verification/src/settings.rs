//! What the editor's configuration holds for the language server.

use vstd::prelude::*;

verus! {

/// `serde_json::Value`, a JSON document. The extension hands such documents
/// on without looking inside, so nothing is claimed of what one holds.
#[verifier::external_type_specification]
#[verifier::external_body]
pub struct ExJsonValue(serde_json::Value);

/// The part of the editor's configuration for a language server that the
/// extension hands on to the server.
#[derive(Debug, PartialEq, Eq)]
pub struct LspSettings {
    /// Options sent to the server when it starts.
    pub initialization_options: Option<serde_json::Value>,
    /// Settings sent to the server as its workspace configuration.
    pub settings: Option<serde_json::Value>,
}

} // verus!
