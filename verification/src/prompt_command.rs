//! The `prompt` slash command.

use vstd::prelude::*;
use vstd::string::*;

verus! {

/// The slash command that inserts a prompt from the prompt library.
#[derive(Clone, Copy, Debug, PartialEq, Eq, Structural)]
pub struct PromptSlashCommand {}

/// A text as `Debug` prints it: in double quotes, with escapes.
pub uninterp spec fn debug_quoted(text: Seq<char>) -> Seq<char>;

/// `<str as Debug>::fmt`, through `format!`: the text in double quotes, with
/// what needs it escaped. The print depends on the text alone.
#[verifier::external_body]
fn quoted(text: &str) -> (print: String)
    ensures
        print@ == debug_quoted(text@),
{
    format!("{:?}", text)
}

/// What running the command answers, given its argument as `Debug` prints
/// it.
pub open spec fn insertion_message(quoted_argument: Option<Seq<char>>) -> Seq<char> {
    match quoted_argument {
        Some(print) => "inserting prompt Some("@ + print + ")"@,
        None => "inserting prompt None"@,
    }
}

/// The answer of the command for an argument that is already in quotes.
pub fn message_for(quoted_argument: Option<&str>) -> (message: String)
    ensures
        message@ == insertion_message(
            match quoted_argument {
                Some(print) => Some(print@),
                None => None,
            },
        ),
{
    match quoted_argument {
        Some(print) => {
            let mut message = String::from_str("inserting prompt Some(");
            message.append(print);
            message.append(")");
            message
        },
        None => String::from_str("inserting prompt None"),
    }
}

impl PromptSlashCommand {
    pub fn new() -> (command: Self)
        ensures
            command == (PromptSlashCommand {  }),
    {
        Self {  }
    }

    /// The word a user types after the slash.
    pub fn name(&self) -> (name: String)
        ensures
            name@ == "prompt"@,
    {
        String::from_str("prompt")
    }

    /// One line that says what the command does.
    pub fn description(&self) -> (description: String)
        ensures
            description@ == "insert a prompt from the library"@,
    {
        String::from_str("insert a prompt from the library")
    }

    /// The completions of an argument that begins with `_query`: there are
    /// none.
    pub fn complete_argument(&self, _query: String) -> (completions: Vec<String>)
        ensures
            completions@.len() == 0,
    {
        Vec::new()
    }

    /// Runs the command: says which prompt it inserts, the argument printed
    /// as `Debug` prints an optional text.
    pub fn run(&self, argument: Option<&str>) -> (message: String)
        ensures
            message@ == insertion_message(
                match argument {
                    Some(text) => Some(debug_quoted(text@)),
                    None => None,
                },
            ),
    {
        match argument {
            Some(text) => {
                let print = quoted(text);
                message_for(Some(print.as_str()))
            },
            None => message_for(None),
        }
    }
}

} // verus!
