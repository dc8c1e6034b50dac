//! The message store: an append-only, ordered sequence of role-tagged turns.

use vstd::prelude::*;

verus! {

/// Who spoke a turn.
#[derive(Clone, Copy, Debug, PartialEq, Eq, Structural)]
pub enum Role {
    User,
    Assistant,
}

impl Role {
    /// The role's name on the wire.
    pub open spec fn label(self) -> Seq<char> {
        match self {
            Role::User => "user"@,
            Role::Assistant => "assistant"@,
        }
    }

    /// The role's name on the wire.
    pub fn as_str(self) -> (r: &'static str)
        ensures
            r@ == self.label(),
    {
        match self {
            Role::User => "user",
            Role::Assistant => "assistant",
        }
    }
}

/// One message of the conversation.
#[derive(Debug)]
pub struct Turn {
    pub role: Role,
    pub content: String,
}

/// What a turn says, as a mathematical value.
pub struct TurnView {
    pub role: Role,
    pub content: Seq<char>,
}

impl View for Turn {
    type V = TurnView;

    open spec fn view(&self) -> TurnView {
        TurnView { role: self.role, content: self.content@ }
    }
}

impl PartialEq for Turn {
    fn eq(&self, other: &Turn) -> (r: bool) {
        self.role == other.role && self.content == other.content
    }
}

impl vstd::std_specs::cmp::PartialEqSpecImpl for Turn {
    open spec fn obeys_eq_spec() -> bool {
        true
    }

    open spec fn eq_spec(&self, other: &Turn) -> bool {
        self@ == other@
    }
}

impl Clone for Turn {
    fn clone(&self) -> (r: Self)
        ensures
            r@ == self@,
    {
        Turn { role: self.role, content: self.content.clone() }
    }
}

impl Turn {
    /// A turn of the user's.
    pub fn user(content: String) -> (r: Turn)
        ensures
            r@ == user_turn(content@),
    {
        Turn { role: Role::User, content }
    }

    /// A turn of the backend's.
    pub fn assistant(content: String) -> (r: Turn)
        ensures
            r@ == assistant_turn(content@),
    {
        Turn { role: Role::Assistant, content }
    }
}

/// The user's turn that says `content`.
pub open spec fn user_turn(content: Seq<char>) -> TurnView {
    TurnView { role: Role::User, content }
}

/// The assistant's turn that says `content`.
pub open spec fn assistant_turn(content: Seq<char>) -> TurnView {
    TurnView { role: Role::Assistant, content }
}

/// The turns of a vector, each by its view, in order.
pub open spec fn turn_views(turns: Seq<Turn>) -> Seq<TurnView> {
    turns.map_values(|t: Turn| t@)
}

/// The role that conversation order gives to the turn at `index`: the user
/// speaks first, and the two sides take turns.
pub open spec fn role_at(index: int) -> Role {
    if index % 2 == 0 {
        Role::User
    } else {
        Role::Assistant
    }
}

/// Every turn has the role that its place in the conversation gives it.
pub open spec fn alternates(history: Seq<TurnView>) -> bool {
    forall|i: int| 0 <= i < history.len() ==> (#[trigger] history[i]).role == role_at(i)
}

/// The history is a sequence of completed exchanges: user, assistant, user,
/// assistant, and so on, ending with an assistant turn unless it is empty.
pub open spec fn settled(history: Seq<TurnView>) -> bool {
    history.len() % 2 == 0 && alternates(history)
}

/// The ordered turns of one conversation. Turns are only ever added at the
/// end.
pub struct History {
    turns: Vec<Turn>,
}

impl View for History {
    type V = Seq<TurnView>;

    closed spec fn view(&self) -> Seq<TurnView> {
        turn_views(self.turns@)
    }
}

impl History {
    /// The history of a conversation that has not begun.
    pub fn new() -> (r: History)
        ensures
            r@ == Seq::<TurnView>::empty(),
    {
        let r = History { turns: Vec::new() };
        assert(r@ =~= Seq::<TurnView>::empty());
        r
    }

    /// How many turns there are.
    pub fn len(&self) -> (n: usize)
        ensures
            n == self@.len(),
    {
        self.turns.len()
    }

    /// Whether nothing has been said yet.
    pub fn is_empty(&self) -> (b: bool)
        ensures
            b == (self@.len() == 0),
    {
        self.turns.len() == 0
    }

    /// The turn at `index`, counted from the start of the conversation.
    pub fn get(&self, index: usize) -> (r: Option<&Turn>)
        ensures
            match r {
                Some(t) => index < self@.len() && t@ == self@[index as int],
                None => index >= self@.len(),
            },
    {
        if index < self.turns.len() {
            Some(&self.turns[index])
        } else {
            None
        }
    }

    /// Adds `turn` at the end. Nothing that was there moves or leaves.
    pub fn append(&mut self, turn: Turn)
        ensures
            final(self)@ == old(self)@.push(turn@),
    {
        self.turns.push(turn);
        assert(self@ =~= old(self)@.push(turn@));
    }

    /// A copy of the whole history as it stands, in conversation order.
    pub fn snapshot(&self) -> (r: Vec<Turn>)
        ensures
            turn_views(r@) == self@,
    {
        let mut copy: Vec<Turn> = Vec::new();
        let mut i: usize = 0;
        while i < self.turns.len()
            invariant
                i <= self.turns.len(),
                copy.len() == i,
                forall|j: int| 0 <= j < i ==> (#[trigger] copy[j])@ == self.turns[j]@,
            decreases self.turns.len() - i,
        {
            copy.push(self.turns[i].clone());
            i += 1;
        }
        assert(turn_views(copy@) =~= self@);
        copy
    }
}

/// Appending a user turn and then an assistant turn to a settled history
/// gives a settled history again.
pub proof fn lemma_exchange_keeps_settled(
    history: Seq<TurnView>,
    content: Seq<char>,
    reply: Seq<char>,
)
    requires
        settled(history),
    ensures
        alternates(history.push(user_turn(content))),
        history.push(user_turn(content)).len() % 2 == 1,
        settled(history.push(user_turn(content)).push(assistant_turn(reply))),
{
}

} // verus!
