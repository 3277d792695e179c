//! Parsing of the user's typed input into a command.
//!
//! A handful of slash-words select maintenance operations; anything
//! else is a chat message sent to the assistant verbatim.

use vstd::prelude::*;

use crate::strutil::str_eq;

verus! {

/// A command read from the user.
#[derive(Debug)]
pub enum Cmd {
    /// `/q`: leave the loop.
    Quit,
    /// Anything that is not a slash-word: a message for the assistant.
    Chat(String),
    /// `/r` or `/ra`: recreate the assistant, instructions, files and
    /// conversation.
    RefreshAll,
    /// `/rc`: recreate only the conversation.
    RefreshConversation,
    /// `/ri`: re-upload the instructions.
    RefreshInstructions,
    /// `/rf`: re-upload the file bundles.
    RefreshFiles,
}

/// The input strings that name a command rather than a chat message.
pub open spec fn is_command_word(input: Seq<char>) -> bool {
    ||| input == "/q"@
    ||| input == "/r"@
    ||| input == "/ra"@
    ||| input == "/ri"@
    ||| input == "/rf"@
    ||| input == "/rc"@
}

impl Cmd {
    /// Maps one line of user input to the command it selects.
    pub fn from_input(input: String) -> (r: Cmd)
        ensures
            input@ == "/q"@ ==> r is Quit,
            input@ == "/r"@ || input@ == "/ra"@ ==> r is RefreshAll,
            input@ == "/ri"@ ==> r is RefreshInstructions,
            input@ == "/rf"@ ==> r is RefreshFiles,
            input@ == "/rc"@ ==> r is RefreshConversation,
            !is_command_word(input@) ==> (r matches Cmd::Chat(msg) && msg@ == input@),
    {
        proof {
            reveal_strlit("/q");
            reveal_strlit("/r");
            reveal_strlit("/ra");
            reveal_strlit("/ri");
            reveal_strlit("/rf");
            reveal_strlit("/rc");
            assert("/q"@.len() == 2 && "/r"@.len() == 2);
            assert("/ra"@.len() == 3 && "/ri"@.len() == 3 && "/rf"@.len() == 3 && "/rc"@.len()
                == 3);
            assert("/q"@[1] == 'q' && "/r"@[1] == 'r');
            assert("/ra"@[2] == 'a' && "/ri"@[2] == 'i' && "/rf"@[2] == 'f' && "/rc"@[2] == 'c');
        }
        if str_eq(input.as_str(), "/q") {
            Cmd::Quit
        } else if str_eq(input.as_str(), "/r") || str_eq(input.as_str(), "/ra") {
            Cmd::RefreshAll
        } else if str_eq(input.as_str(), "/ri") {
            Cmd::RefreshInstructions
        } else if str_eq(input.as_str(), "/rf") {
            Cmd::RefreshFiles
        } else if str_eq(input.as_str(), "/rc") {
            Cmd::RefreshConversation
        } else {
            Cmd::Chat(input)
        }
    }
}

} // verus!
