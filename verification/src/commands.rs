//! The command of a subject line: its first word, whatever its case, and the
//! words behind it as parameters.

use crate::models::{CommandType, EmailCommand, EmailCommandView};
use crate::text::{same_text, split_tokens, tokens, uppercase};
use vstd::prelude::*;

verus! {

/// The command that an upper-case word names.
pub open spec fn command_type_of(word: Seq<char>) -> Option<CommandType> {
    if word == "LIST"@ {
        Some(CommandType::List)
    } else if word == "CANCEL"@ {
        Some(CommandType::Cancel)
    } else if word == "CLAIM"@ {
        Some(CommandType::Claim)
    } else {
        None
    }
}

/// The command of a subject line. The first word in upper case has to name a
/// command; the other words are its parameters, in their order. A subject
/// without a word, or with another first word, has no command.
pub open spec fn parse_command(subject: Seq<char>) -> Option<EmailCommandView> {
    let words = tokens(subject);
    if words.len() == 0 {
        None
    } else {
        match command_type_of(uppercase(words[0])) {
            Some(command) => Some(EmailCommandView { command, params: words.skip(1) }),
            None => None,
        }
    }
}

/// The command that an upper-case word names.
pub fn classify_command(word: &str) -> (kind: Option<CommandType>)
    ensures
        kind == command_type_of(word@),
{
    if same_text(word, "LIST") {
        Some(CommandType::List)
    } else if same_text(word, "CANCEL") {
        Some(CommandType::Cancel)
    } else if same_text(word, "CLAIM") {
        Some(CommandType::Claim)
    } else {
        None
    }
}

/// Reads the command of a subject line.
pub fn parse_email_command(subject: &str) -> (command: Option<EmailCommand>)
    ensures
        match command {
            Some(c) => parse_command(subject@) == Some(c@),
            None => parse_command(subject@).is_none(),
        },
{
    let words = split_tokens(subject);
    if words.len() == 0 {
        return None;
    }
    assert(words.deep_view()[0] == words[0]@);
    let upper = words[0].as_str().to_uppercase();
    match classify_command(upper.as_str()) {
        Some(command) => {
            let mut params: Vec<String> = Vec::new();
            let mut i: usize = 1;
            while i < words.len()
                invariant
                    1 <= i <= words.len(),
                    params.len() == i - 1,
                    forall|j: int| 0 <= j < params.len() ==> params[j]@ == words[j + 1]@,
                decreases words.len() - i,
            {
                params.push(words[i].clone());
                i += 1;
            }
            assert(params.deep_view() =~= words.deep_view().skip(1));
            Some(EmailCommand { command, params })
        },
        None => None,
    }
}

} // verus!
