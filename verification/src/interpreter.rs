//! The command interpreter as a step function: from the session and one
//! event (an input line, a file's content, the outcome of an exchange) to the
//! session's next state and what the caller is to do.

use crate::adapter::{outcome, ChatError, ChatErrorView, Exchange, OutboundRequest, RequestView};
use crate::command::{classified, classify, Command, CommandView};
use crate::history::user_turn;
use crate::session::{document_prompt_text, Session, SessionView};
use vstd::prelude::*;
use vstd::string::*;

verus! {

/// What a submission came from; it decides how an error is introduced.
#[derive(Clone, Copy, Debug, PartialEq, Eq, Structural)]
pub enum Origin {
    Line,
    Document,
}

impl Origin {
    /// The words in front of an error's text.
    pub open spec fn error_prefix(self) -> Seq<char> {
        match self {
            Origin::Line => "Error: "@,
            Origin::Document => "Error processing document: "@,
        }
    }

    /// The words in front of an error's text.
    pub fn error_label(self) -> (r: &'static str)
        ensures
            r@ == self.error_prefix(),
    {
        match self {
            Origin::Line => "Error: ",
            Origin::Document => "Error processing document: ",
        }
    }
}

/// What the caller does after a step.
#[derive(Debug)]
pub enum Action {
    /// Print the farewell and leave the loop.
    Exit(String),
    /// Print the text and read the next line.
    Print(String),
    /// Look for the file at this path and come back with `on_document`.
    ReadDocument(String),
    /// Send the request and come back with `on_exchange`.
    Send(OutboundRequest, Origin),
}

/// An action as a mathematical value.
pub enum ActionView {
    Exit(Seq<char>),
    Print(Seq<char>),
    ReadDocument(Seq<char>),
    Send(RequestView, Origin),
}

impl View for Action {
    type V = ActionView;

    open spec fn view(&self) -> ActionView {
        match self {
            Action::Exit(text) => ActionView::Exit(text@),
            Action::Print(text) => ActionView::Print(text@),
            Action::ReadDocument(path) => ActionView::ReadDocument(path@),
            Action::Send(request, origin) => ActionView::Send(request@, *origin),
        }
    }
}

/// What came of looking for a document.
#[derive(Debug)]
pub enum DocumentRead {
    /// There is no file at the path.
    Missing,
    /// The file is there and could not be read; the text says why.
    Unreadable(String),
    /// The file's whole content.
    Loaded(String),
}

/// The step that submits `content`: the user's turn is recorded, and the
/// request goes out unless the credential is wanting.
pub open spec fn submit_step(s: SessionView, content: Seq<char>, origin: Origin) -> (
    SessionView,
    ActionView,
) {
    let next = s.with_user_turn(content);
    if next.can_send() {
        (next, ActionView::Send(next.outbound(), origin))
    } else {
        (next, ActionView::Print(origin.error_prefix() + ChatErrorView::MissingCredential.text()))
    }
}

/// The step for one input line.
pub open spec fn line_step(s: SessionView, line: Seq<char>) -> (SessionView, ActionView) {
    match classified(line) {
        CommandView::Quit => (s, ActionView::Exit("Bye."@)),
        CommandView::LoadDocument(path) => (s, ActionView::ReadDocument(path)),
        CommandView::SwitchProvider => (
            s.switched(),
            ActionView::Print("Switched to "@ + s.switched().active_provider.display_name()),
        ),
        CommandView::PlainTurn(content) => submit_step(s, content, Origin::Line),
    }
}

/// The step for what came of looking for the document at `path`.
pub open spec fn document_step(s: SessionView, path: Seq<char>, read: DocumentRead) -> (
    SessionView,
    ActionView,
) {
    match read {
        DocumentRead::Missing => (s, ActionView::Print("File not found: "@ + path)),
        DocumentRead::Unreadable(reason) => (
            s,
            ActionView::Print(Origin::Document.error_prefix() + reason@),
        ),
        DocumentRead::Loaded(content) => submit_step(
            s,
            document_prompt_text(content@),
            Origin::Document,
        ),
    }
}

/// The step for the outcome of an exchange: the session's next state and the
/// line to print.
pub open spec fn exchange_step(s: SessionView, exchange: Exchange, origin: Origin) -> (
    SessionView,
    Seq<char>,
) {
    match outcome(exchange) {
        Ok(reply) => (s.with_reply(reply), "AI: "@ + reply),
        Err(e) => (s, origin.error_prefix() + e.text()),
    }
}

/// The action for the first half of a submission: send the request, or
/// print why there is none.
fn submission_action(built: Result<OutboundRequest, ChatError>, origin: Origin) -> (r: Action)
    ensures
        r@ == match built {
            Ok(request) => ActionView::Send(request@, origin),
            Err(e) => ActionView::Print(origin.error_prefix() + e@.text()),
        },
{
    match built {
        Ok(request) => Action::Send(request, origin),
        Err(e) => {
            let text = e.message();
            Action::Print(String::from_str(origin.error_label()).concat(text.as_str()))
        },
    }
}

/// Interprets one input line.
pub fn on_line(session: &mut Session, line: &str) -> (r: Action)
    ensures
        (final(session)@, r@) == line_step(old(session)@, line@),
{
    match classify(line) {
        Command::Quit => Action::Exit(String::from_str("Bye.")),
        Command::LoadDocument(path) => Action::ReadDocument(path),
        Command::SwitchProvider => {
            session.switch_provider();
            Action::Print(
                String::from_str("Switched to ").concat(session.active_provider().name()),
            )
        },
        Command::PlainTurn(content) => {
            let built = session.begin_turn(content);
            submission_action(built, Origin::Line)
        },
    }
}

/// The step for one read of the input: a line, or the end of the input,
/// which ends the loop as `/quit` does.
pub open spec fn input_step(s: SessionView, input: Option<Seq<char>>) -> (SessionView, ActionView) {
    match input {
        Some(line) => line_step(s, line),
        None => (s, ActionView::Exit("Bye."@)),
    }
}

/// Interprets one read of the input; `None` is the end of the input.
pub fn on_input(session: &mut Session, input: Option<&str>) -> (r: Action)
    ensures
        (final(session)@, r@) == input_step(
            old(session)@,
            match input {
                Some(line) => Some(line@),
                None => None,
            },
        ),
{
    match input {
        Some(line) => on_line(session, line),
        None => Action::Exit(String::from_str("Bye.")),
    }
}

/// Goes on with a document directive once the file has been looked for.
pub fn on_document(session: &mut Session, path: &str, read: DocumentRead) -> (r: Action)
    ensures
        (final(session)@, r@) == document_step(old(session)@, path@, read),
{
    match read {
        DocumentRead::Missing => Action::Print(String::from_str("File not found: ").concat(path)),
        DocumentRead::Unreadable(reason) => Action::Print(
            String::from_str(Origin::Document.error_label()).concat(reason.as_str()),
        ),
        DocumentRead::Loaded(content) => {
            let built = session.begin_document(content.as_str());
            submission_action(built, Origin::Document)
        },
    }
}

/// Ends a submission: records the reply, if there is one, and gives the line
/// to print.
pub fn on_exchange(session: &mut Session, exchange: Exchange, origin: Origin) -> (r: String)
    ensures
        (final(session)@, r@) == exchange_step(old(session)@, exchange, origin),
{
    match session.complete_turn(exchange) {
        Ok(reply) => String::from_str("AI: ").concat(reply.as_str()),
        Err(e) => {
            let text = e.message();
            String::from_str(origin.error_label()).concat(text.as_str())
        },
    }
}

/// No step takes a turn out of the history or changes one: what was there
/// before a step is the beginning of what is there after it.
pub proof fn lemma_steps_only_append(
    s: SessionView,
    line: Seq<char>,
    path: Seq<char>,
    read: DocumentRead,
    exchange: Exchange,
    origin: Origin,
)
    ensures
        s.history.is_prefix_of(line_step(s, line).0.history),
        s.history.is_prefix_of(document_step(s, path, read).0.history),
        s.history.is_prefix_of(exchange_step(s, exchange, origin).0.history),
{
    assert forall|content: Seq<char>, from: Origin|
        s.history.is_prefix_of((#[trigger] submit_step(s, content, from)).0.history) by {
        assert(s.history.push(user_turn(content)).subrange(0, s.history.len() as int)
            =~= s.history);
    }
    assert(s.history.subrange(0, s.history.len() as int) =~= s.history);
    match outcome(exchange) {
        Ok(reply) => {
            assert(s.with_reply(reply).history.subrange(0, s.history.len() as int) =~= s.history);
        },
        Err(_) => {},
    }
}

/// A document directive for a file that is not there leaves the session as
/// it was, at the line and at the report that the file is missing, and
/// neither step asks for a request to be sent.
pub proof fn lemma_missing_document_changes_nothing(
    s: SessionView,
    line: Seq<char>,
    path: Seq<char>,
)
    requires
        classified(line) == CommandView::LoadDocument(path),
    ensures
        line_step(s, line) == (s, ActionView::ReadDocument(path)),
        document_step(s, path, DocumentRead::Missing) == (
            s,
            ActionView::Print("File not found: "@ + path),
        ),
{
}

/// An exchange that fails leaves the session as the first half of the
/// submission left it: the user's turn stands at the end of the history.
pub proof fn lemma_failed_exchange_keeps_user_turn(
    s: SessionView,
    content: Seq<char>,
    exchange: Exchange,
    origin: Origin,
)
    requires
        outcome(exchange) is Err,
    ensures
        exchange_step(s.with_user_turn(content), exchange, origin).0 == s.with_user_turn(content),
        s.with_user_turn(content).history.last() == user_turn(content),
        s.with_user_turn(content).history.len() == s.history.len() + 1,
{
}

} // verus!
