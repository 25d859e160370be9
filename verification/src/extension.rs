//! The extension itself: what it remembers between calls, and how it answers
//! the host.

use vstd::prelude::*;

use crate::command::{server_command_spec, Command};
use crate::install::{download_failure, not_a_file, server_script_path, EXT_DIR, VSC_EXT_URL};
use crate::lookup::{
    next_action, next_cache, rememberable, LookupAction, LookupEvent, PathProbe,
};
use crate::settings::LspSettings;

verus! {

/// The extension's state: the path of the language server's entry script,
/// once it has been seen on disk.
#[derive(Debug)]
pub struct LobsterExtension {
    cached_binary_path: Option<String>,
}

impl View for LobsterExtension {
    type V = Option<Seq<char>>;

    /// The remembered path, if any.
    closed spec fn view(&self) -> Option<Seq<char>> {
        match self.cached_binary_path {
            Some(path) => Some(path@),
            None => None,
        }
    }
}

impl LobsterExtension {
    /// Nothing but the path of the unpacked entry script is ever remembered.
    #[verifier::type_invariant]
    spec fn remembers_only_the_install_path(&self) -> bool {
        rememberable(self@)
    }

    /// An extension that remembers no path yet.
    pub fn new() -> (extension: Self)
        ensures
            extension@ is None,
    {
        LobsterExtension { cached_binary_path: None }
    }

    /// The path that is remembered, if any.
    pub fn cached_binary_path(&self) -> (path: Option<String>)
        ensures
            self@ == match path {
                Some(found) => Some(found@),
                None => None,
            },
            rememberable(self@),
    {
        proof {
            use_type_invariant(self);
        }
        match &self.cached_binary_path {
            Some(found) => Some(found.clone()),
            None => None,
        }
    }

    /// One step of the search for the language server's entry script: takes
    /// what the host reports and decides what it has to do next.
    ///
    /// The search starts with [`LookupEvent::Requested`] and is over when
    /// the action is [`LookupAction::Finish`].
    pub fn language_server_binary_path(&mut self, event: LookupEvent) -> (action: LookupAction)
        ensures
            action@ == next_action(old(self)@, event@),
            final(self)@ == next_cache(old(self)@, event@),
            rememberable(final(self)@),
    {
        proof {
            use_type_invariant(&*self);
        }
        match event {
            LookupEvent::Requested => match &self.cached_binary_path {
                Some(path) => LookupAction::ProbeCached { path: path.clone() },
                None => LookupAction::ReportCheckingForUpdate,
            },
            LookupEvent::CacheProbed { probe } => match (&self.cached_binary_path, probe) {
                (Some(path), PathProbe::File) => LookupAction::Finish { outcome: Ok(path.clone()) },
                _ => LookupAction::ReportCheckingForUpdate,
            },
            LookupEvent::StatusReported => LookupAction::DownloadZip {
                url: String::from_str(VSC_EXT_URL),
                directory: String::from_str(EXT_DIR),
            },
            LookupEvent::Downloaded { outcome } => match outcome {
                Ok(_) => LookupAction::ProbeInstalled { path: server_script_path() },
                Err(reason) => LookupAction::Finish {
                    outcome: Err(download_failure(reason.as_str())),
                },
            },
            LookupEvent::InstallProbed { probe } => {
                let lsp_path = server_script_path();
                match probe {
                    PathProbe::File => {
                        self.cached_binary_path = Some(lsp_path.clone());
                        LookupAction::Finish { outcome: Ok(lsp_path) }
                    },
                    PathProbe::NotAFile => LookupAction::Finish {
                        outcome: Err(not_a_file(lsp_path.as_str())),
                    },
                    PathProbe::Failed { reason } => LookupAction::Finish { outcome: Err(reason) },
                }
            },
        }
    }

    /// The command that starts the language server, from the outcome of the
    /// search for its entry script: the located script is the program, and
    /// where the search ended with a message, so does this.
    pub fn language_server_command(&mut self, located: Result<String, String>) -> (command: Result<
        Command,
        String,
    >)
        ensures
            match located {
                Ok(path) => command matches Ok(started) && started@ == server_command_spec(path@),
                Err(message) => command matches Err(handed) && handed@ == message@,
            },
            final(self)@ == old(self)@,
    {
        match located {
            Ok(path) => {
                let started = Command { command: path, args: Vec::new(), env: Vec::new() };
                assert(started.args.deep_view() =~= Seq::empty());
                assert(started.env.deep_view() =~= Seq::empty());
                Ok(started)
            },
            Err(message) => Err(message),
        }
    }

    /// The workspace configuration for the language server: the `settings`
    /// part of what the editor holds for it, untouched. Where the editor's
    /// configuration could not be read, the host's message is handed on.
    pub fn language_server_workspace_configuration(
        &mut self,
        lsp_settings: Result<LspSettings, String>,
    ) -> (configuration: Result<Option<serde_json::Value>, String>)
        ensures
            configuration == match lsp_settings {
                Ok(found) => Ok(found.settings),
                Err(message) => Err(message),
            },
            final(self)@ == old(self)@,
    {
        match lsp_settings {
            Ok(found) => Ok(found.settings),
            Err(message) => Err(message),
        }
    }

    /// The options sent to the language server when it starts: the
    /// `initialization_options` part of what the editor holds for it,
    /// untouched. Where the editor's configuration could not be read, the
    /// host's message is handed on.
    pub fn language_server_initialization_options(
        &mut self,
        lsp_settings: Result<LspSettings, String>,
    ) -> (options: Result<Option<serde_json::Value>, String>)
        ensures
            options == match lsp_settings {
                Ok(found) => Ok(found.initialization_options),
                Err(message) => Err(message),
            },
            final(self)@ == old(self)@,
    {
        match lsp_settings {
            Ok(found) => Ok(found.initialization_options),
            Err(message) => Err(message),
        }
    }

    /// The label for a completion: none, whatever the completion, so that
    /// the editor renders it in its own way.
    pub fn label_for_completion(&self, _completion: zed_extension_api::lsp::Completion) -> (label:
        Option<zed_extension_api::CodeLabel>)
        ensures
            label is None,
    {
        None
    }

    /// The label for a symbol: none, whatever the symbol, so that the editor
    /// renders it in its own way.
    pub fn label_for_symbol(&self, _symbol: zed_extension_api::lsp::Symbol) -> (label: Option<
        zed_extension_api::CodeLabel,
    >)
        ensures
            label is None,
    {
        None
    }
}

} // verus!
