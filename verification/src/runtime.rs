//! The standalone runtime: where it is found, the commands that are given to it
//! and the answers that are accepted from it.

use crate::paths::{join, joined};
use crate::text::{copy_texts, decode_lossy, owned_text, text_of_bytes, texts, trim, trimmed};
use vstd::prelude::*;
use vstd::string::*;
use vstd::utf8::{decode_utf8, valid_utf8};

verus! {

/// Where the runtime is: the interpreter, its program and the collection that it
/// works on.
pub struct RuntimeConfiguration {
    pub bun: String,
    pub runtime: String,
    pub collection: String,
}

/// What a runtime configuration says.
pub struct RuntimeView {
    pub bun: Seq<char>,
    pub runtime: Seq<char>,
    pub collection: Seq<char>,
}

impl View for RuntimeConfiguration {
    type V = RuntimeView;

    open spec fn view(&self) -> RuntimeView {
        RuntimeView { bun: self.bun@, runtime: self.runtime@, collection: self.collection@ }
    }
}

impl Clone for RuntimeConfiguration {
    fn clone(&self) -> (copy: Self)
        ensures
            copy@ == self@,
    {
        RuntimeConfiguration {
            bun: self.bun.clone(),
            runtime: self.runtime.clone(),
            collection: self.collection.clone(),
        }
    }
}

/// What a runtime configuration lacks.
#[derive(Clone, Copy, Debug, PartialEq, Eq, Structural)]
pub enum ConfigurationError {
    Interpreter,
    Runtime,
    Collection,
}

/// The text that names what is lacking.
pub open spec fn lacking_text(error: ConfigurationError) -> Seq<char> {
    match error {
        ConfigurationError::Interpreter => "ALTERE_BUN or HOME is required"@,
        ConfigurationError::Runtime => "ALTERE_RUNTIME is required in Altere mode"@,
        ConfigurationError::Collection => "ALTERE_COLLECTION is required in Altere mode"@,
    }
}

impl ConfigurationError {
    /// Says what is lacking.
    pub fn message(self) -> (text: String)
        ensures
            text@ == lacking_text(self),
    {
        match self {
            ConfigurationError::Interpreter => "ALTERE_BUN or HOME is required".to_string(),
            ConfigurationError::Runtime => "ALTERE_RUNTIME is required in Altere mode".to_string(),
            ConfigurationError::Collection => {
                "ALTERE_COLLECTION is required in Altere mode".to_string()
            },
        }
    }
}

/// The interpreter: the one that is named, else the one in the home directory.
pub open spec fn interpreter(bun: Option<Seq<char>>, home: Option<Seq<char>>) -> Option<Seq<char>> {
    match (bun, home) {
        (Some(bun), _) => Some(bun),
        (None, Some(home)) => Some(joined(home, ".bun/bin/bun"@)),
        (None, None) => None,
    }
}

/// The configuration that four settings give, or the first thing they lack.
pub open spec fn configured(
    bun: Option<Seq<char>>,
    home: Option<Seq<char>>,
    runtime: Option<Seq<char>>,
    collection: Option<Seq<char>>,
) -> Result<RuntimeView, ConfigurationError> {
    match (interpreter(bun, home), runtime, collection) {
        (Some(bun), Some(runtime), Some(collection)) => Ok(RuntimeView { bun, runtime, collection }),
        (None, _, _) => Err(ConfigurationError::Interpreter),
        (_, None, _) => Err(ConfigurationError::Runtime),
        _ => Err(ConfigurationError::Collection),
    }
}

/// What a configuration or its refusal says.
pub open spec fn configuration_view(
    configuration: Result<RuntimeConfiguration, ConfigurationError>,
) -> Result<RuntimeView, ConfigurationError> {
    match configuration {
        Ok(configuration) => Ok(configuration@),
        Err(error) => Err(error),
    }
}

/// Finds the runtime from the settings `ALTERE_BUN`, `HOME`, `ALTERE_RUNTIME` and
/// `ALTERE_COLLECTION`.
pub fn runtime_configuration(
    bun: Option<String>,
    home: Option<String>,
    runtime: Option<String>,
    collection: Option<String>,
) -> (configuration: Result<RuntimeConfiguration, ConfigurationError>)
    ensures
        configuration_view(configuration) == configured(
            owned_text(bun),
            owned_text(home),
            owned_text(runtime),
            owned_text(collection),
        ),
{
    let bun = match bun {
        Some(bun) => bun,
        None => match home {
            Some(home) => join(home.as_str(), ".bun/bin/bun"),
            None => return Err(ConfigurationError::Interpreter),
        },
    };
    let runtime = match runtime {
        Some(runtime) => runtime,
        None => return Err(ConfigurationError::Runtime),
    };
    let collection = match collection {
        Some(collection) => collection,
        None => return Err(ConfigurationError::Collection),
    };
    Ok(RuntimeConfiguration { bun, runtime, collection })
}

/// A command for the operating system: a program, its arguments and, where it
/// reads any, its input.
pub struct Command {
    pub program: String,
    pub arguments: Vec<String>,
    pub input: Option<String>,
}

/// What a command says.
pub struct CommandView {
    pub program: Seq<char>,
    pub arguments: Seq<Seq<char>>,
    pub input: Option<Seq<char>>,
}

impl View for Command {
    type V = CommandView;

    open spec fn view(&self) -> CommandView {
        CommandView {
            program: self.program@,
            arguments: texts(self.arguments@),
            input: owned_text(self.input),
        }
    }
}

/// A command that the interpreter runs, without input.
pub open spec fn interpreted(bun: Seq<char>, arguments: Seq<Seq<char>>) -> CommandView {
    CommandView { program: bun, arguments, input: None }
}

/// Gives arguments to the interpreter.
pub fn interpret(configuration: &RuntimeConfiguration, arguments: &[String]) -> (command: Command)
    ensures
        command@ == interpreted(configuration@.bun, texts(arguments@)),
{
    Command {
        program: configuration.bun.clone(),
        arguments: copy_texts(arguments),
        input: None,
    }
}

/// What a finished command left: whether it succeeded, and what it wrote.
pub struct CommandOutput {
    pub success: bool,
    pub stdout: Vec<u8>,
    pub stderr: Vec<u8>,
}

/// The message for a failed command: what failed, and what the command wrote to
/// say why.
pub open spec fn failure(prefix: Seq<char>, stderr: Seq<char>) -> Seq<char> {
    prefix + ": "@ + trimmed(stderr)
}

/// Writes the message for a failed command from what it wrote as text.
pub fn failure_message(prefix: &str, stderr: &str) -> (message: String)
    ensures
        message@ == failure(prefix@, stderr@),
{
    let mut message = prefix.to_string();
    message.append(": ");
    message.append(trim(stderr).as_str());
    message
}

/// The message of a failed command, and `None` for one that succeeded.
pub open spec fn failed(output: CommandOutput, prefix: Seq<char>) -> Option<Seq<char>> {
    if output.success {
        None
    } else {
        Some(failure(prefix, text_of_bytes(output.stderr@)))
    }
}

/// Tells a failed command from one that succeeded.
pub fn failure_of(output: &CommandOutput, prefix: &str) -> (message: Option<String>)
    ensures
        owned_text(message) == failed(*output, prefix@),
        !output.success && valid_utf8(output.stderr@) ==> owned_text(message) == Some(
            failure(prefix@, decode_utf8(output.stderr@)),
        ),
{
    if output.success {
        None
    } else {
        let stderr = decode_lossy(output.stderr.as_slice());
        Some(failure_message(prefix, stderr.as_str()))
    }
}

/// A configuration is complete exactly where an interpreter is named or the home
/// directory is known, and the runtime and the collection are named; it then holds what
/// was named, and the interpreter that is named comes before the one at home.
pub proof fn settings_make_a_configuration(
    bun: Option<Seq<char>>,
    home: Option<Seq<char>>,
    runtime: Option<Seq<char>>,
    collection: Option<Seq<char>>,
)
    ensures
        ({
            let result = configured(bun, home, runtime, collection);
            let found = bun is Some || home is Some;
            &&& result is Ok <==> found && runtime is Some && collection is Some
            &&& result matches Ok(configuration) ==> {
                &&& configuration.runtime == runtime->0
                &&& configuration.collection == collection->0
                &&& bun is Some ==> configuration.bun == bun->0
                &&& bun is None ==> configuration.bun == joined(home->0, ".bun/bin/bun"@)
            }
            &&& !found ==> result == Err::<RuntimeView, ConfigurationError>(
                ConfigurationError::Interpreter,
            )
            &&& found && runtime is None ==> result == Err::<RuntimeView, ConfigurationError>(
                ConfigurationError::Runtime,
            )
            &&& found && runtime is Some && collection is None ==> result == Err::<
                RuntimeView,
                ConfigurationError,
            >(ConfigurationError::Collection)
        }),
{
}

/// What is lacking is named by the setting that would give it.
pub proof fn lacking_settings_are_named(error: ConfigurationError)
    ensures
        error is Interpreter ==> lacking_text(error) == "ALTERE_BUN or HOME is required"@,
        error is Runtime ==> lacking_text(error) == "ALTERE_RUNTIME is required in Altere mode"@,
        error is Collection ==> lacking_text(error)
            == "ALTERE_COLLECTION is required in Altere mode"@,
{
}

/// A command fails exactly where it did not succeed, and the message is what failed, a
/// colon, and what the command wrote without white space around it; what it wrote to its
/// output changes nothing.
pub proof fn failures_quote_the_command(output: CommandOutput, prefix: Seq<char>)
    ensures
        output.success <==> failed(output, prefix) is None,
        !output.success ==> failed(output, prefix) == Some(
            prefix + ": "@ + trimmed(text_of_bytes(output.stderr@)),
        ),
        failure(prefix, text_of_bytes(output.stderr@)) == prefix + ": "@ + trimmed(
            text_of_bytes(output.stderr@),
        ),
{
}

/// A command for the interpreter has the interpreter as its program, the arguments as
/// they are, and nothing to read.
pub proof fn interpreted_commands_read_nothing(bun: Seq<char>, arguments: Seq<Seq<char>>)
    ensures
        interpreted(bun, arguments).program == bun,
        interpreted(bun, arguments).arguments == arguments,
        interpreted(bun, arguments).input is None,
{
}

/// A configuration and a command say what they hold.
pub proof fn commands_say_what_they_hold(
    configuration: RuntimeConfiguration,
    found: Result<RuntimeConfiguration, ConfigurationError>,
    command: Command,
)
    ensures
        configuration@.bun == configuration.bun@,
        configuration@.runtime == configuration.runtime@,
        configuration@.collection == configuration.collection@,
        found matches Ok(configuration) ==> configuration_view(found) == Ok::<
            RuntimeView,
            ConfigurationError,
        >(configuration@),
        found matches Err(error) ==> configuration_view(found) == Err::<
            RuntimeView,
            ConfigurationError,
        >(error),
        command@.program == command.program@,
        command@.arguments.len() == command.arguments@.len(),
        forall|i: int|
            0 <= i < command.arguments@.len() ==> #[trigger] command@.arguments[i]
                == command.arguments@[i]@,
        command.input is None ==> command@.input is None,
        command.input is Some ==> command@.input == Some(command.input->0@),
{
}

} // verus!
