//! The session engine: the history, the active backend and its model, and
//! the two halves of a submission, before and after the network exchange.

use crate::adapter::{
    lacks_credential, outcome, prepare_request, read_exchange, request_for, result_view, text_of,
    ChatError, ChatErrorView, Exchange, OutboundRequest, RequestView,
};
use crate::history::{
    alternates, assistant_turn, lemma_exchange_keeps_settled, settled, user_turn, History, Turn,
    TurnView,
};
use crate::provider::ProviderKind;
use vstd::prelude::*;
use vstd::string::*;

verus! {

/// One conversation and the backend it currently talks to.
pub struct Session {
    history: History,
    active_provider: ProviderKind,
    model_id: String,
    credential: Option<String>,
}

/// A session as a mathematical value.
pub struct SessionView {
    pub history: Seq<TurnView>,
    pub active_provider: ProviderKind,
    pub model_id: Seq<char>,
    pub credential: Option<Seq<char>>,
}

impl View for Session {
    type V = SessionView;

    closed spec fn view(&self) -> SessionView {
        SessionView {
            history: self.history@,
            active_provider: self.active_provider,
            model_id: self.model_id@,
            credential: text_of(self.credential),
        }
    }
}

/// The text that is submitted for a document whose content is `content`.
pub open spec fn document_prompt_text(content: Seq<char>) -> Seq<char> {
    "Please analyze this document:\n\n"@ + content
}

impl SessionView {
    /// The session once the user's turn has been recorded.
    pub open spec fn with_user_turn(self, content: Seq<char>) -> SessionView {
        SessionView { history: self.history.push(user_turn(content)), ..self }
    }

    /// The session once the backend's reply has been recorded.
    pub open spec fn with_reply(self, reply: Seq<char>) -> SessionView {
        SessionView { history: self.history.push(assistant_turn(reply)), ..self }
    }

    /// The session after a switch: the other backend with its default model.
    pub open spec fn switched(self) -> SessionView {
        SessionView {
            active_provider: self.active_provider.toggled(),
            model_id: self.active_provider.toggled().default_model_id(),
            ..self
        }
    }

    /// Whether a request can be built: the backend wants no credential, or
    /// there is one.
    pub open spec fn can_send(self) -> bool {
        !lacks_credential(self.active_provider, self.credential)
    }

    /// The request that carries the whole history to the active backend.
    pub open spec fn outbound(self) -> RequestView {
        request_for(self.active_provider, self.credential, self.model_id, self.history)
    }

    /// The session after one exchange in which the user said `content` and
    /// the backend answered `reply`.
    pub open spec fn after_exchange(self, content: Seq<char>, reply: Seq<char>) -> SessionView {
        self.with_user_turn(content).with_reply(reply)
    }

    /// The session after the exchanges of `exchanges`, each a pair of what the
    /// user said and what the backend answered, in order.
    pub open spec fn after_exchanges(
        self,
        exchanges: Seq<(Seq<char>, Seq<char>)>,
    ) -> SessionView
        decreases exchanges.len(),
    {
        if exchanges.len() == 0 {
            self
        } else {
            self.after_exchanges(exchanges.drop_last()).after_exchange(
                exchanges.last().0,
                exchanges.last().1,
            )
        }
    }
}

impl Session {
    /// A session with an empty history.
    pub fn new(provider: ProviderKind, credential: Option<String>, model: String) -> (r: Session)
        ensures
            r@ == (SessionView {
                history: Seq::empty(),
                active_provider: provider,
                model_id: model@,
                credential: text_of(credential),
            }),
    {
        Session { history: History::new(), active_provider: provider, model_id: model, credential }
    }

    /// The conversation so far.
    pub fn history(&self) -> (r: &History)
        ensures
            r@ == self@.history,
    {
        &self.history
    }

    /// The backend that the next request goes to.
    pub fn active_provider(&self) -> (r: ProviderKind)
        ensures
            r == self@.active_provider,
    {
        self.active_provider
    }

    /// The model that the next request names.
    pub fn model_id(&self) -> (r: &str)
        ensures
            r@ == self@.model_id,
    {
        self.model_id.as_str()
    }

    /// The first half of a submission. The user's turn is recorded at once,
    /// whatever follows; the result is the request that carries the whole
    /// history, that turn included, or the reason why none can be built.
    pub fn begin_turn(&mut self, content: String) -> (r: Result<OutboundRequest, ChatError>)
        ensures
            final(self)@ == old(self)@.with_user_turn(content@),
            match r {
                Ok(request) => final(self)@.can_send() && request@ == final(self)@.outbound(),
                Err(e) => !final(self)@.can_send() && e@ == ChatErrorView::MissingCredential,
            },
    {
        self.history.append(Turn::user(content));
        prepare_request(
            self.active_provider,
            &self.credential,
            self.model_id.as_str(),
            self.history.snapshot(),
        )
    }

    /// The first half of a document submission: `content` is what the file
    /// holds. It does what `begin_turn` does with the document prompt.
    pub fn begin_document(&mut self, content: &str) -> (r: Result<OutboundRequest, ChatError>)
        ensures
            final(self)@ == old(self)@.with_user_turn(document_prompt_text(content@)),
            match r {
                Ok(request) => final(self)@.can_send() && request@ == final(self)@.outbound(),
                Err(e) => !final(self)@.can_send() && e@ == ChatErrorView::MissingCredential,
            },
    {
        self.begin_turn(document_prompt(content))
    }

    /// The second half of a submission. A reply is recorded as the
    /// assistant's turn and returned; on any error the history stays as it
    /// is, with the user's turn of the first half at its end.
    pub fn complete_turn(&mut self, exchange: Exchange) -> (r: Result<String, ChatError>)
        ensures
            result_view(r) == outcome(exchange),
            match outcome(exchange) {
                Ok(reply) => final(self)@ == old(self)@.with_reply(reply),
                Err(_) => final(self)@ == old(self)@,
            },
    {
        match read_exchange(exchange) {
            Ok(reply) => {
                self.history.append(Turn::assistant(reply.clone()));
                Ok(reply)
            },
            Err(e) => Err(e),
        }
    }

    /// Makes the other backend active, with its default model. The history
    /// and the credential stay.
    pub fn switch_provider(&mut self)
        ensures
            final(self)@ == old(self)@.switched(),
    {
        let next = self.active_provider.other();
        self.active_provider = next;
        self.model_id = String::from_str(next.default_model());
    }
}

/// The prompt under which a document is submitted.
pub fn document_prompt(content: &str) -> (r: String)
    ensures
        r@ == document_prompt_text(content@),
{
    String::from_str("Please analyze this document:\n\n").concat(content)
}

/// After any number of successful exchanges on a settled history the history
/// is settled: of even length, user and assistant in turn, the user first.
/// Backend, model and credential are as before.
pub proof fn lemma_exchanges_keep_settled(s: SessionView, exchanges: Seq<(Seq<char>, Seq<char>)>)
    requires
        settled(s.history),
    ensures
        settled(s.after_exchanges(exchanges).history),
        s.after_exchanges(exchanges).history.len() == s.history.len() + 2 * exchanges.len(),
        s.after_exchanges(exchanges).active_provider == s.active_provider,
        s.after_exchanges(exchanges).model_id == s.model_id,
        s.after_exchanges(exchanges).credential == s.credential,
    decreases exchanges.len(),
{
    if exchanges.len() > 0 {
        lemma_exchanges_keep_settled(s, exchanges.drop_last());
        lemma_exchange_keeps_settled(
            s.after_exchanges(exchanges.drop_last()).history,
            exchanges.last().0,
            exchanges.last().1,
        );
    }
}

/// A new session's history is settled, so every history that successful
/// exchanges alone have built is of even length and alternates.
pub proof fn lemma_successful_exchanges_alternate(
    s: SessionView,
    exchanges: Seq<(Seq<char>, Seq<char>)>,
)
    requires
        s.history.len() == 0,
    ensures
        s.after_exchanges(exchanges).history.len() == 2 * exchanges.len(),
        alternates(s.after_exchanges(exchanges).history),
{
    lemma_exchanges_keep_settled(s, exchanges);
}

/// Two switches lead back to the backend the session had, never touch the
/// history or the credential, and leave that backend's default model.
pub proof fn lemma_switch_twice(s: SessionView)
    ensures
        s.switched().history == s.history,
        s.switched().switched().history == s.history,
        s.switched().switched().credential == s.credential,
        s.switched().switched().active_provider == s.active_provider,
        s.switched().switched().model_id == s.active_provider.default_model_id(),
{
}

/// Two switches restore a session whose model is its backend's default.
pub proof fn lemma_switch_twice_restores(s: SessionView)
    requires
        s.model_id == s.active_provider.default_model_id(),
    ensures
        s.switched().switched() == s,
{
}

/// Submitting a document whose content is `content` records the turn and
/// sends the request that submitting the text `"Please analyze this
/// document:\n\n"` followed by `content` records and sends.
pub proof fn lemma_document_is_a_turn(s: SessionView, content: Seq<char>)
    ensures
        s.with_user_turn(document_prompt_text(content)) == s.with_user_turn(
            "Please analyze this document:\n\n"@ + content,
        ),
        s.with_user_turn(document_prompt_text(content)).outbound() == s.with_user_turn(
            "Please analyze this document:\n\n"@ + content,
        ).outbound(),
{
}

} // verus!
