//! The closed set of chat backends and what each of them fixes: the endpoint,
//! whether requests are authenticated, and the model a switch selects.

use vstd::prelude::*;

verus! {

/// A chat-completion backend.
#[derive(Clone, Copy, Debug, PartialEq, Eq, Structural)]
pub enum ProviderKind {
    OpenAI,
    Ollama,
}

impl ProviderKind {
    /// The backend that a switch leads to.
    pub open spec fn toggled(self) -> ProviderKind {
        match self {
            ProviderKind::OpenAI => ProviderKind::Ollama,
            ProviderKind::Ollama => ProviderKind::OpenAI,
        }
    }

    /// Whether requests to this backend carry an authorization header.
    pub open spec fn needs_credential(self) -> bool {
        self == ProviderKind::OpenAI
    }

    /// The address that requests to this backend are posted to.
    pub open spec fn endpoint(self) -> Seq<char> {
        match self {
            ProviderKind::OpenAI => "https://api.openai.com/v1/chat/completions"@,
            ProviderKind::Ollama => "http://localhost:11434/api/chat"@,
        }
    }

    /// The model that is selected when a session switches to this backend.
    pub open spec fn default_model_id(self) -> Seq<char> {
        match self {
            ProviderKind::OpenAI => "gpt-3.5-turbo"@,
            ProviderKind::Ollama => "llama2"@,
        }
    }

    /// The backend's name as shown to the user.
    pub open spec fn display_name(self) -> Seq<char> {
        match self {
            ProviderKind::OpenAI => "OpenAI"@,
            ProviderKind::Ollama => "Ollama"@,
        }
    }

    /// The backend that a switch leads to.
    pub fn other(self) -> (r: ProviderKind)
        ensures
            r == self.toggled(),
    {
        match self {
            ProviderKind::OpenAI => ProviderKind::Ollama,
            ProviderKind::Ollama => ProviderKind::OpenAI,
        }
    }

    /// Whether requests to this backend carry an authorization header.
    pub fn requires_auth(self) -> (r: bool)
        ensures
            r == self.needs_credential(),
    {
        match self {
            ProviderKind::OpenAI => true,
            ProviderKind::Ollama => false,
        }
    }

    /// The address that requests to this backend are posted to.
    pub fn endpoint_url(self) -> (r: &'static str)
        ensures
            r@ == self.endpoint(),
    {
        match self {
            ProviderKind::OpenAI => "https://api.openai.com/v1/chat/completions",
            ProviderKind::Ollama => "http://localhost:11434/api/chat",
        }
    }

    /// The model that a switch to this backend selects.
    pub fn default_model(self) -> (r: &'static str)
        ensures
            r@ == self.default_model_id(),
    {
        match self {
            ProviderKind::OpenAI => "gpt-3.5-turbo",
            ProviderKind::Ollama => "llama2",
        }
    }

    /// The backend's name as shown to the user.
    pub fn name(self) -> (r: &'static str)
        ensures
            r@ == self.display_name(),
    {
        match self {
            ProviderKind::OpenAI => "OpenAI",
            ProviderKind::Ollama => "Ollama",
        }
    }
}

/// Switching twice leads back to the same backend.
pub proof fn lemma_toggle_is_an_involution(p: ProviderKind)
    ensures
        p.toggled().toggled() == p,
        p.toggled() != p,
{
}

} // verus!
