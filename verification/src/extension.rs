//! The language server for Markdown: how it is started.

use crate::text::{owned_text, texts};
use vstd::prelude::*;
use vstd::string::*;

verus! {

/// The name of the language server's program.
pub const LANGUAGE_SERVER_BINARY: &'static str = "altere-language-server";

/// A program to start: its path, its arguments and nothing added to its
/// environment.
pub struct LanguageServerCommand {
    pub command: String,
    pub arguments: Vec<String>,
}

/// The message where the program is not found.
pub open spec fn missing_message() -> Seq<char> {
    "'"@ + LANGUAGE_SERVER_BINARY@ + "' is not available in the Workbench PATH"@
}

/// Says how the language server is started, given where its program was found.
pub fn language_server_command(found: Option<String>) -> (result: Result<
    LanguageServerCommand,
    String,
>)
    ensures
        result is Ok == (found is Some),
        result matches Ok(command) ==> {
            &&& Some(command.command@) == owned_text(found)
            &&& texts(command.arguments@) == seq!["--stdio"@]
        },
        result matches Err(message) ==> message@ == missing_message(),
{
    match found {
        Some(command) => {
            let arguments = vec!["--stdio".to_string()];
            assert(texts(arguments@) =~= seq!["--stdio"@]);
            Ok(LanguageServerCommand { command, arguments })
        },
        None => {
            let mut message = "'".to_string();
            message.append(LANGUAGE_SERVER_BINARY);
            message.append("' is not available in the Workbench PATH");
            Err(message)
        },
    }
}

} // verus!
