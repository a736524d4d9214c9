//! Language-model providers: which one is configured, and the credentials
//! each client carries.
use vstd::prelude::*;

verus! {

/// The supported language-model providers.
#[derive(Clone, Copy, Debug, PartialEq, Eq, Structural)]
pub enum LlmProvider {
    Groq,
    Mistral,
}

/// The provider named `name` in the configuration.
pub open spec fn provider_named(name: Seq<char>) -> Option<LlmProvider> {
    if name == "groq"@ {
        Some(LlmProvider::Groq)
    } else if name == "mistral"@ {
        Some(LlmProvider::Mistral)
    } else {
        None
    }
}

/// Reads the configured provider name; any other name is an error.
pub fn parse_provider(name: &str) -> (r: Result<LlmProvider, String>)
    ensures
        match provider_named(name@) {
            Some(p) => r == Ok::<LlmProvider, String>(p),
            None => r matches Err(e) && e@ == "unknown provider '"@ + name@ + "'"@,
        },
{
    if crate::executor::same_text(name, "groq") {
        Ok(LlmProvider::Groq)
    } else if crate::executor::same_text(name, "mistral") {
        Ok(LlmProvider::Mistral)
    } else {
        let mut msg = "unknown provider '".to_string();
        msg.append(name);
        msg.append("'");
        Err(msg)
    }
}

/// A client of Groq's chat and speech API.
pub struct GroqClient {
    api_key: String,
}

impl GroqClient {
    pub fn new(api_key: String) -> (r: Self)
        ensures
            r.key() == api_key@,
    {
        GroqClient { api_key }
    }

    pub closed spec fn key(&self) -> Seq<char> {
        self.api_key@
    }

    pub fn api_key(&self) -> (r: &str)
        ensures
            r@ == self.key(),
    {
        self.api_key.as_str()
    }
}

/// A client of Mistral's chat API.
pub struct MistralClient {
    api_key: String,
}

impl MistralClient {
    pub fn new(api_key: String) -> (r: Self)
        ensures
            r.key() == api_key@,
    {
        MistralClient { api_key }
    }

    pub closed spec fn key(&self) -> Seq<char> {
        self.api_key@
    }

    pub fn api_key(&self) -> (r: &str)
        ensures
            r@ == self.key(),
    {
        self.api_key.as_str()
    }
}

} // verus!
