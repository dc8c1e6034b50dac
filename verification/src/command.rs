//! Classification of one input line: a control directive or a turn.

use crate::text::{same_text, starts_with, trim, trimmed};
use vstd::prelude::*;
use vstd::string::*;

verus! {

/// What one input line asks for.
#[derive(Debug)]
pub enum Command {
    /// `/quit`: end the loop.
    Quit,
    /// `/doc <path>`: submit the file at this path.
    LoadDocument(String),
    /// `/switch`: talk to the other backend.
    SwitchProvider,
    /// Anything else, the empty line too: say this to the backend.
    PlainTurn(String),
}

/// A command with its text as a sequence of characters.
pub enum CommandView {
    Quit,
    LoadDocument(Seq<char>),
    SwitchProvider,
    PlainTurn(Seq<char>),
}

impl View for Command {
    type V = CommandView;

    open spec fn view(&self) -> CommandView {
        match self {
            Command::Quit => CommandView::Quit,
            Command::LoadDocument(path) => CommandView::LoadDocument(path@),
            Command::SwitchProvider => CommandView::SwitchProvider,
            Command::PlainTurn(content) => CommandView::PlainTurn(content@),
        }
    }
}

/// The command that `line` stands for. The line is trimmed first; the first
/// pattern that matches decides. A document's path is what follows the
/// directive, trimmed.
pub open spec fn classified(line: Seq<char>) -> CommandView {
    let input = trimmed(line);
    if input == "/quit"@ {
        CommandView::Quit
    } else if "/doc "@.is_prefix_of(input) {
        CommandView::LoadDocument(trimmed(input.skip("/doc "@.len() as int)))
    } else if input == "/switch"@ {
        CommandView::SwitchProvider
    } else {
        CommandView::PlainTurn(input)
    }
}

/// Classifies one input line.
pub fn classify(line: &str) -> (r: Command)
    ensures
        r@ == classified(line@),
{
    let input = trim(line);
    if same_text(input, "/quit") {
        Command::Quit
    } else if starts_with(input, "/doc ") {
        let from: usize = "/doc ".unicode_len();
        let rest = input.substring_char(from, input.unicode_len());
        assert(rest@ =~= input@.skip(from as int));
        Command::LoadDocument(String::from_str(trim(rest)))
    } else if same_text(input, "/switch") {
        Command::SwitchProvider
    } else {
        Command::PlainTurn(String::from_str(input))
    }
}

} // verus!
