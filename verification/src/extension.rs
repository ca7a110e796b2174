//! The adapter that the host calls into.

use crate::launch::launch_outcome;
use crate::launch::outcome_view;
use crate::launch::Command;
use crate::launch::BINARY_NOT_FOUND;
use crate::settings::forwards;
use crate::settings::initialization_options_of;
use crate::settings::json_text;
use crate::settings::or_empty;
use crate::settings::workspace_settings_of;
use crate::settings::LspSettings;
use serde_json::Value;
use vstd::prelude::*;

verus! {

/// The extension for the `dang` language server. It keeps nothing between
/// calls: every answer is decided by what the host found for that call.
#[derive(Clone, Copy, Debug)]
pub struct DangExtension {}

/// `result` is the answer owed for a settings field: always a blob, always
/// present, and the one that [`forwards`] the field.
pub open spec fn answers(field: Option<Value>, result: Result<Option<Value>, String>) -> bool {
    result matches Ok(Some(blob)) && forwards(field, blob)
}

/// An answer as it reaches the server: the blob as its JSON text.
pub open spec fn answer_text(result: Result<Option<Value>, String>) -> Result<
    Option<Seq<char>>,
    Seq<char>,
> {
    match result {
        Ok(Some(blob)) => Ok(Some(json_text(blob))),
        Ok(None) => Ok(None),
        Err(message) => Err(message@),
    }
}

impl DangExtension {
    /// A new adapter.
    pub fn new() -> (adapter: DangExtension)
        ensures
            adapter == (DangExtension {}),
    {
        DangExtension {}
    }

    /// The command that starts the language server, decided from what the
    /// search of the project's path for [`crate::launch::BINARY_NAME`]
    /// returned: the binary found there, run with the language-server flag
    /// and no environment overrides, or the failure that it is not there.
    pub fn language_server_command(&mut self, found: Option<String>) -> (result: Result<
        Command,
        String,
    >)
        ensures
            *final(self) == *old(self),
            outcome_view(result) == launch_outcome(found.deep_view()),
    {
        match found {
            Some(path) => Ok(Command::language_server(path)),
            None => Err(BINARY_NOT_FOUND.to_owned()),
        }
    }

    /// The initialization options for the language server, decided from
    /// what the settings store returned for it. A failed lookup and a record
    /// without the field both give the empty structure, never a failure.
    pub fn language_server_initialization_options(
        &mut self,
        lookup: Result<LspSettings, String>,
    ) -> (result: Result<Option<Value>, String>)
        ensures
            *final(self) == *old(self),
            answers(initialization_options_of(lookup), result),
    {
        let field = match lookup {
            Ok(record) => record.initialization_options,
            Err(_) => None,
        };
        Ok(Some(or_empty(field)))
    }

    /// The workspace configuration for the language server, decided from
    /// what the settings store returned for it. A failed lookup and a record
    /// without the field both give the empty structure, never a failure.
    pub fn language_server_workspace_configuration(
        &mut self,
        lookup: Result<LspSettings, String>,
    ) -> (result: Result<Option<Value>, String>)
        ensures
            *final(self) == *old(self),
            answers(workspace_settings_of(lookup), result),
    {
        let field = match lookup {
            Ok(record) => record.settings,
            Err(_) => None,
        };
        Ok(Some(or_empty(field)))
    }
}

/// Asked again about the same search result, the adapter gives the same
/// answer: the same command, or the same message.
pub proof fn lemma_launch_is_repeatable(
    found: Option<String>,
    first: Result<Command, String>,
    second: Result<Command, String>,
)
    requires
        outcome_view(first) == launch_outcome(found.deep_view()),
        outcome_view(second) == launch_outcome(found.deep_view()),
    ensures
        outcome_view(first) == outcome_view(second),
{
}

/// Asked again about the same settings field, the adapter gives the same
/// answer: a blob both times, with the same text, and the very same value
/// where the store holds one.
pub proof fn lemma_settings_are_repeatable(
    field: Option<Value>,
    first: Result<Option<Value>, String>,
    second: Result<Option<Value>, String>,
)
    requires
        answers(field, first),
        answers(field, second),
    ensures
        answer_text(first) == answer_text(second),
        field is Some ==> first == second,
{
}

} // verus!
