//! The language-model providers the agent can run on.
use crate::casing;
use crate::text;
use vstd::prelude::*;
use vstd::utf8::*;

verus! {

/// Supported LLM providers.
#[derive(Debug, Clone, Copy, PartialEq, Eq, Structural)]
pub enum Provider {
    DeepSeek,
    OpenAi,
    Anthropic,
    OpenRouter,
    /// OpenAI Codex, authenticated with the Codex CLI's OAuth tokens rather than
    /// an API key.
    Codex,
}

/// The message for a word that names no provider.
pub open spec fn unknown_provider(word: Seq<char>) -> Seq<char> {
    "unknown provider `"@ + word
        + "` (expected: deepseek | openai | anthropic | openrouter | codex)"@
}

impl Provider {
    /// The provider that a folded configuration word names.
    pub open spec fn named(word: Seq<char>) -> Option<Provider> {
        if word == "deepseek"@ || word == "ds"@ {
            Some(Provider::DeepSeek)
        } else if word == "openai"@ || word == "oai"@ || word == "gpt"@ {
            Some(Provider::OpenAi)
        } else if word == "anthropic"@ {
            Some(Provider::Anthropic)
        } else if word == "openrouter"@ || word == "or"@ {
            Some(Provider::OpenRouter)
        } else if word == "codex"@ || word == "openai-codex"@ {
            Some(Provider::Codex)
        } else {
            None
        }
    }

    /// Whether `r` is what the folded word `word` parses to.
    pub open spec fn is_parse(word: Seq<char>, r: Result<Provider, String>) -> bool {
        match r {
            Ok(p) => Provider::named(word) == Some(p),
            Err(e) => Provider::named(word) is None && e@ == unknown_provider(word),
        }
    }

    /// The provider that an already trimmed and lower-cased word names.
    pub fn from_word(word: &str) -> (r: Result<Self, String>)
        ensures
            Provider::is_parse(word@, r),
    {
        if text::same(word, "deepseek") || text::same(word, "ds") {
            Ok(Provider::DeepSeek)
        } else if text::same(word, "openai") || text::same(word, "oai") || text::same(word, "gpt") {
            Ok(Provider::OpenAi)
        } else if text::same(word, "anthropic") {
            Ok(Provider::Anthropic)
        } else if text::same(word, "openrouter") || text::same(word, "or") {
            Ok(Provider::OpenRouter)
        } else if text::same(word, "codex") || text::same(word, "openai-codex") {
            Ok(Provider::Codex)
        } else {
            let mut message = "unknown provider `".to_owned();
            message.push_str(word);
            message.push_str(
                "` (expected: deepseek | openai | anthropic | openrouter | codex)",
            );
            Err(message)
        }
    }

    /// Parse a provider name or one of its short forms, whatever its case and
    /// surrounding white space.
    pub fn parse(s: &str) -> (r: Result<Self, String>)
        ensures
            Provider::is_parse(casing::lowercase(text::trimmed(s@)), r),
            is_ascii_chars(text::trimmed(s@)) ==> Provider::is_parse(
                casing::ascii_lowered(text::trimmed(s@)),
                r,
            ),
    {
        Provider::from_word(&text::trim(s).to_lowercase())
    }

    /// Every supported provider, in display order.
    pub open spec fn all_spec() -> Seq<Provider> {
        seq![
            Provider::DeepSeek,
            Provider::OpenAi,
            Provider::Anthropic,
            Provider::OpenRouter,
            Provider::Codex,
        ]
    }

    /// Every supported provider, in display order.
    pub fn all() -> (r: Vec<Provider>)
        ensures
            r@ == Provider::all_spec(),
    {
        let mut v: Vec<Provider> = Vec::new();
        v.push(Provider::DeepSeek);
        v.push(Provider::OpenAi);
        v.push(Provider::Anthropic);
        v.push(Provider::OpenRouter);
        v.push(Provider::Codex);
        v
    }

    pub open spec fn name_spec(self) -> Seq<char> {
        match self {
            Provider::DeepSeek => "deepseek"@,
            Provider::OpenAi => "openai"@,
            Provider::Anthropic => "anthropic"@,
            Provider::OpenRouter => "openrouter"@,
            Provider::Codex => "codex"@,
        }
    }

    /// Canonical lowercase name, as written into `config.toml`.
    pub fn name(self) -> (r: &'static str)
        ensures
            r@ == self.name_spec(),
    {
        match self {
            Provider::DeepSeek => "deepseek",
            Provider::OpenAi => "openai",
            Provider::Anthropic => "anthropic",
            Provider::OpenRouter => "openrouter",
            Provider::Codex => "codex",
        }
    }

    pub open spec fn default_model_spec(self) -> Seq<char> {
        match self {
            Provider::DeepSeek => "deepseek-chat"@,
            Provider::OpenAi => "gpt-4o-mini"@,
            Provider::Anthropic => "3-5-sonnet-latest"@,
            Provider::OpenRouter => "deepseek/deepseek-chat"@,
            Provider::Codex => "gpt-5.5"@,
        }
    }

    /// Default model id when `model` is unset; Anthropic's is without the family name that
    /// its ids begin with.
    pub fn default_model(self) -> (r: &'static str)
        ensures
            r@ == self.default_model_spec(),
    {
        match self {
            Provider::DeepSeek => "deepseek-chat",
            Provider::OpenAi => "gpt-4o-mini",
            Provider::Anthropic => "3-5-sonnet-latest",
            Provider::OpenRouter => "deepseek/deepseek-chat",
            Provider::Codex => "gpt-5.5",
        }
    }

    pub open spec fn api_key_var_spec(self) -> Seq<char> {
        match self {
            Provider::DeepSeek => "DEEPSEEK_API_KEY"@,
            Provider::OpenAi => "OPENAI_API_KEY"@,
            Provider::Anthropic => "ANTHROPIC_API_KEY"@,
            Provider::OpenRouter => "OPENROUTER_API_KEY"@,
            Provider::Codex => ""@,
        }
    }

    /// Environment variable holding this provider's API key. Codex has none.
    pub fn api_key_var(self) -> (r: &'static str)
        ensures
            r@ == self.api_key_var_spec(),
    {
        match self {
            Provider::DeepSeek => "DEEPSEEK_API_KEY",
            Provider::OpenAi => "OPENAI_API_KEY",
            Provider::Anthropic => "ANTHROPIC_API_KEY",
            Provider::OpenRouter => "OPENROUTER_API_KEY",
            Provider::Codex => "",
        }
    }

    /// Whether this provider authenticates with an environment API key.
    pub fn uses_api_key(self) -> (r: bool)
        ensures
            r == (self != Provider::Codex),
    {
        self != Provider::Codex
    }

    pub open spec fn label_spec(self) -> Seq<char> {
        match self {
            Provider::DeepSeek => "DeepSeek"@,
            Provider::OpenAi => "OpenAi"@,
            Provider::Anthropic => "Anthropic"@,
            Provider::OpenRouter => "OpenRouter"@,
            Provider::Codex => "Codex"@,
        }
    }

    /// The provider's name as it stands in messages.
    pub fn label(self) -> (r: &'static str)
        ensures
            r@ == self.label_spec(),
    {
        match self {
            Provider::DeepSeek => "DeepSeek",
            Provider::OpenAi => "OpenAi",
            Provider::Anthropic => "Anthropic",
            Provider::OpenRouter => "OpenRouter",
            Provider::Codex => "Codex",
        }
    }
}

/// A provider's canonical name parses back to the provider.
pub proof fn canonical_name_parses_back(p: Provider)
    ensures
        Provider::named(p.name_spec()) == Some(p),
{
    reveal_strlit("deepseek");
    reveal_strlit("ds");
    reveal_strlit("openai");
    reveal_strlit("oai");
    reveal_strlit("gpt");
    reveal_strlit("anthropic");
    reveal_strlit("openrouter");
    reveal_strlit("or");
    reveal_strlit("codex");
    reveal_strlit("openai-codex");
    assert("openai"@[1] == 'p' && "anthropic"@[1] == 'n' && "openrouter"@[1] == 'p');
    assert("openrouter"@.len() == 10 && "deepseek"@.len() == 8 && "codex"@.len() == 5);
    assert("anthropic"@.len() == 9 && "openai"@.len() == 6);
}

} // verus!
