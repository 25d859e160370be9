//! The host's types for completions, symbols and their labels.
//!
//! The extension leaves the rendering of labels to the editor, so these
//! values are only received and never examined.

use vstd::prelude::*;

verus! {

/// `zed_extension_api::lsp::Completion`, a completion offered by the
/// language server. Nothing is claimed of what one holds.
#[verifier::external_type_specification]
#[verifier::external_body]
pub struct ExCompletion(zed_extension_api::lsp::Completion);

/// `zed_extension_api::lsp::Symbol`, a symbol reported by the language
/// server. Nothing is claimed of what one holds.
#[verifier::external_type_specification]
#[verifier::external_body]
pub struct ExSymbol(zed_extension_api::lsp::Symbol);

/// `zed_extension_api::CodeLabel`, the editor's description of how a
/// completion or symbol is displayed. Nothing is claimed of what one holds.
#[verifier::external_type_specification]
#[verifier::external_body]
pub struct ExCodeLabel(zed_extension_api::CodeLabel);

} // verus!
