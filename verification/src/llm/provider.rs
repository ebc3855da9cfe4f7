//! Choosing an LLM provider, and the settings of the client it builds.
//!
//! The environment is read by the caller into a [`ProviderEnv`]; the choices
//! made from it are here.

use vstd::prelude::*;

use crate::config::{
    LLMConfig, DEFAULT_OLLAMA_MODEL,
    DEFAULT_OLLAMA_URL, DEFAULT_OPENAI_MODEL, DEFAULT_OPENAI_URL,
};
use crate::llm::error::LLMError;
use crate::text::{chars_of, eq_lit, owned, str_eq, lowercased, string_from_chars, to_lowercase};

verus! {

broadcast use vstd::string::group_string_axioms;

/// LLM Provider configuration.
#[derive(Debug, Clone)]
pub enum Provider {
    /// OpenAI-compatible endpoint (default, most universal)
    OpenAI { base_url: Option<String>, api_key: Option<String>, model: Option<String> },
    /// Anthropic
    Anthropic { api_key: Option<String>, model: Option<String> },
    /// Local Ollama instance
    Ollama { base_url: Option<String>, model: String },
    /// AWS Bedrock
    Bedrock {
        /// AWS region (e.g., "us-east-1")
        region: Option<String>,
        /// Model ID
        model: Option<String>,
    },
}

/// The views of an optional string.
pub open spec fn opt_chars(o: Option<String>) -> Option<Seq<char>> {
    match o {
        Some(s) => Some(s@),
        None => None,
    }
}

/// The first present value of two.
pub open spec fn or_else(a: Option<Seq<char>>, b: Option<Seq<char>>) -> Option<Seq<char>> {
    match a {
        Some(x) => Some(x),
        None => b,
    }
}

/// A present value, or a default.
pub open spec fn or_default(a: Option<Seq<char>>, d: Seq<char>) -> Seq<char> {
    match a {
        Some(x) => x,
        None => d,
    }
}

/// A provider as plain values.
pub enum ProviderSpec {
    OpenAI { base_url: Option<Seq<char>>, api_key: Option<Seq<char>>, model: Option<Seq<char>> },
    Anthropic { api_key: Option<Seq<char>>, model: Option<Seq<char>> },
    Ollama { base_url: Option<Seq<char>>, model: Seq<char> },
    Bedrock { region: Option<Seq<char>>, model: Option<Seq<char>> },
}

impl View for Provider {
    type V = ProviderSpec;

    open spec fn view(&self) -> ProviderSpec {
        match *self {
            Provider::OpenAI { base_url, api_key, model } => ProviderSpec::OpenAI {
                base_url: opt_chars(base_url),
                api_key: opt_chars(api_key),
                model: opt_chars(model),
            },
            Provider::Anthropic { api_key, model } => ProviderSpec::Anthropic {
                api_key: opt_chars(api_key),
                model: opt_chars(model),
            },
            Provider::Ollama { base_url, model } => ProviderSpec::Ollama {
                base_url: opt_chars(base_url),
                model: model@,
            },
            Provider::Bedrock { region, model } => ProviderSpec::Bedrock {
                region: opt_chars(region),
                model: opt_chars(model),
            },
        }
    }
}

/// The provider a configuration names: "anthropic", "ollama"
/// (with the default Ollama model when none is given), "bedrock" or "aws"
/// (whose endpoint field is the region), and OpenAI-compatible otherwise.
pub open spec fn provider_of_config(c: LLMConfig) -> ProviderSpec {
    if c.provider@ == "anthropic"@ {
        ProviderSpec::Anthropic { api_key: opt_chars(c.api_key), model: opt_chars(c.model) }
    } else if c.provider@ == "ollama"@ {
        ProviderSpec::Ollama {
            base_url: opt_chars(c.base_url),
            model: or_default(opt_chars(c.model), DEFAULT_OLLAMA_MODEL@),
        }
    } else if c.provider@ == "bedrock"@ || c.provider@ == "aws"@ {
        ProviderSpec::Bedrock { region: opt_chars(c.base_url), model: opt_chars(c.model) }
    } else {
        ProviderSpec::OpenAI {
            base_url: opt_chars(c.base_url),
            api_key: opt_chars(c.api_key),
            model: opt_chars(c.model),
        }
    }
}

/// A copy of an optional string.
fn clone_opt(o: &Option<String>) -> (r: Option<String>)
    ensures
        opt_chars(r) == opt_chars(*o),
{
    match o {
        Some(s) => Some(s.clone()),
        None => None,
    }
}

/// The environment variables that choose and configure a provider, as read.
#[derive(Debug, Clone)]
pub struct ProviderEnv {
    pub arq_llm_provider: Option<String>,
    pub arq_llm_base_url: Option<String>,
    pub arq_llm_api_key: Option<String>,
    pub arq_llm_model: Option<String>,
    pub openai_base_url: Option<String>,
    pub openai_api_key: Option<String>,
    pub openai_model: Option<String>,
    pub anthropic_api_key: Option<String>,
    pub anthropic_model: Option<String>,
    pub ollama_host: Option<String>,
    pub ollama_model: Option<String>,
    pub aws_bedrock_model: Option<String>,
    pub aws_default_region: Option<String>,
}

/// The Ollama model the environment names: ARQ_LLM_MODEL, then
/// OLLAMA_MODEL, then the default.
pub open spec fn env_ollama_model(e: ProviderEnv) -> Seq<char> {
    or_default(or_else(opt_chars(e.arq_llm_model), opt_chars(e.ollama_model)), DEFAULT_OLLAMA_MODEL@)
}

/// The provider chosen from the environment: an explicit ARQ_LLM_PROVIDER
/// (compared in lowercase) wins; otherwise the first of ARQ_LLM_BASE_URL,
/// ANTHROPIC_API_KEY, OPENAI_API_KEY, OLLAMA_HOST, AWS_BEDROCK_MODEL that is
/// set decides; otherwise OpenAI-compatible.
pub open spec fn provider_of_env(e: ProviderEnv) -> Result<ProviderSpec, Seq<char>> {
    let openai = ProviderSpec::OpenAI { base_url: None, api_key: None, model: None };
    let anthropic = ProviderSpec::Anthropic { api_key: None, model: None };
    let ollama = ProviderSpec::Ollama { base_url: None, model: env_ollama_model(e) };
    let bedrock = ProviderSpec::Bedrock { region: None, model: None };
    match e.arq_llm_provider {
        Some(p) => {
            let l = lowercased(p@);
            if l == "openai"@ {
                Ok(openai)
            } else if l == "anthropic"@ {
                Ok(anthropic)
            } else if l == "ollama"@ {
                Ok(ollama)
            } else if l == "bedrock"@ || l == "aws"@ {
                Ok(bedrock)
            } else {
                Err(l)
            }
        },
        None => if e.arq_llm_base_url is Some {
            Ok(openai)
        } else if e.anthropic_api_key is Some {
            Ok(anthropic)
        } else if e.openai_api_key is Some {
            Ok(openai)
        } else if e.ollama_host is Some {
            Ok(ollama)
        } else if e.aws_bedrock_model is Some {
            Ok(bedrock)
        } else {
            Ok(openai)
        },
    }
}

/// `s` without its trailing occurrences of `c`.
pub open spec fn strip_trailing(s: Seq<char>, c: char) -> Seq<char>
    decreases s.len(),
{
    if s.len() > 0 && s.last() == c {
        strip_trailing(s.drop_last(), c)
    } else {
        s
    }
}

/// `s` without its trailing '/' characters (`trim_end_matches('/')`).
pub fn trim_trailing_slashes(s: &str) -> (r: String)
    ensures
        r@ == strip_trailing(s@, '/'),
{
    let cs = chars_of(s);
    let mut n = cs.len();
    assert(cs@.take(n as int) =~= cs@);
    while n > 0 && cs[n - 1] == '/'
        invariant
            n <= cs@.len(),
            strip_trailing(s@, '/') == strip_trailing(cs@.take(n as int), '/'),
            cs@ == s@,
        decreases n,
    {
        assert(cs@.take(n as int).drop_last() =~= cs@.take(n - 1));
        n = n - 1;
    }
    let mut out: Vec<char> = Vec::new();
    let mut i: usize = 0;
    while i < n
        invariant
            n <= cs@.len(),
            i <= n,
            out@ == cs@.take(i as int),
        decreases n - i,
    {
        out.push(cs[i]);
        i = i + 1;
        assert(out@ =~= cs@.take(i as int));
    }
    string_from_chars(out.as_slice())
}

/// The settings of the client a provider builds.
#[derive(Debug, Clone)]
pub enum ClientSettings {
    /// An OpenAI-compatible client.
    OpenAI { base_url: String, api_key: String, model: String },
    /// An Anthropic client.
    Claude { api_key: String, model: Option<String> },
    /// A Bedrock client.
    Bedrock { region: Option<String>, model: Option<String> },
}

/// Client settings as plain values.
pub enum ClientSettingsSpec {
    OpenAI { base_url: Seq<char>, api_key: Seq<char>, model: Seq<char> },
    Claude { api_key: Seq<char>, model: Option<Seq<char>> },
    Bedrock { region: Option<Seq<char>>, model: Option<Seq<char>> },
}

impl View for ClientSettings {
    type V = ClientSettingsSpec;

    open spec fn view(&self) -> ClientSettingsSpec {
        match *self {
            ClientSettings::OpenAI { base_url, api_key, model } => ClientSettingsSpec::OpenAI {
                base_url: base_url@,
                api_key: api_key@,
                model: model@,
            },
            ClientSettings::Claude { api_key, model } => ClientSettingsSpec::Claude {
                api_key: api_key@,
                model: opt_chars(model),
            },
            ClientSettings::Bedrock { region, model } => ClientSettingsSpec::Bedrock {
                region: opt_chars(region),
                model: opt_chars(model),
            },
        }
    }
}

/// The settings a provider builds its client with, filling what it leaves
/// open from the environment and the defaults; Anthropic without a key is
/// refused.
pub open spec fn settings_of(p: ProviderSpec, e: ProviderEnv) -> Result<ClientSettingsSpec, ()> {
    match p {
        ProviderSpec::OpenAI { base_url, api_key, model } => Ok(
            ClientSettingsSpec::OpenAI {
                base_url: or_default(
                    or_else(base_url, or_else(opt_chars(e.arq_llm_base_url), opt_chars(e.openai_base_url))),
                    DEFAULT_OPENAI_URL@,
                ),
                api_key: or_default(
                    or_else(api_key, or_else(opt_chars(e.arq_llm_api_key), opt_chars(e.openai_api_key))),
                    Seq::empty(),
                ),
                model: or_default(
                    or_else(model, or_else(opt_chars(e.arq_llm_model), opt_chars(e.openai_model))),
                    DEFAULT_OPENAI_MODEL@,
                ),
            },
        ),
        ProviderSpec::Anthropic { api_key, model } => match or_else(
            api_key,
            opt_chars(e.anthropic_api_key),
        ) {
            Some(k) => Ok(
                ClientSettingsSpec::Claude {
                    api_key: k,
                    model: or_else(model, opt_chars(e.anthropic_model)),
                },
            ),
            None => Err(()),
        },
        ProviderSpec::Ollama { base_url, model } => Ok(
            ClientSettingsSpec::OpenAI {
                base_url: match or_else(base_url, opt_chars(e.ollama_host)) {
                    Some(h) => strip_trailing(h, '/') + "/v1"@,
                    None => DEFAULT_OLLAMA_URL@,
                },
                api_key: Seq::empty(),
                model,
            },
        ),
        ProviderSpec::Bedrock { region, model } => Ok(
            ClientSettingsSpec::Bedrock {
                region: or_else(region, opt_chars(e.aws_default_region)),
                model: or_else(model, opt_chars(e.aws_bedrock_model)),
            },
        ),
    }
}

/// The first present of three optional strings, or a default.
fn pick(a: &Option<String>, b: &Option<String>, c: &Option<String>, d: &str) -> (r: String)
    ensures
        r@ == or_default(or_else(opt_chars(*a), or_else(opt_chars(*b), opt_chars(*c))), d@),
{
    match a {
        Some(x) => x.clone(),
        None => match b {
            Some(x) => x.clone(),
            None => match c {
                Some(x) => x.clone(),
                None => owned(d),
            },
        },
    }
}

impl Default for Provider {
    fn default() -> (p: Self)
        ensures
            p@ == (ProviderSpec::OpenAI { base_url: None, api_key: None, model: None }),
    {
        Provider::OpenAI { base_url: None, api_key: None, model: None }
    }
}

impl Provider {
    /// Creates a provider from LLMConfig.
    pub fn from_config(config: &LLMConfig) -> (p: Self)
        ensures
            p@ == provider_of_config(*config),
    {
        let name = config.provider.as_str();
        if str_eq(name, "anthropic") {
            Provider::Anthropic { api_key: clone_opt(&config.api_key), model: clone_opt(&config.model) }
        } else if str_eq(name, "ollama") {
            let model = match &config.model {
                Some(m) => m.clone(),
                None => owned(DEFAULT_OLLAMA_MODEL),
            };
            Provider::Ollama { base_url: clone_opt(&config.base_url), model }
        } else if str_eq(name, "bedrock") || str_eq(name, "aws") {
            Provider::Bedrock { region: clone_opt(&config.base_url), model: clone_opt(&config.model) }
        } else {
            Provider::OpenAI {
                base_url: clone_opt(&config.base_url),
                api_key: clone_opt(&config.api_key),
                model: clone_opt(&config.model),
            }
        }
    }

    /// Chooses the provider from the environment; an explicit provider
    /// name that is not known is refused with its lowercase form.
    pub fn from_env_values(env: &ProviderEnv) -> (r: Result<Self, LLMError>)
        ensures
            match provider_of_env(*env) {
                Ok(p) => r matches Ok(q) && q@ == p,
                Err(l) => r matches Err(LLMError::UnknownProvider(s)) && s@ == l,
            },
    {
        let ollama_model = pick(&env.arq_llm_model, &env.ollama_model, &None, DEFAULT_OLLAMA_MODEL);
        match &env.arq_llm_provider {
            Some(p) => {
                let l = to_lowercase(p.as_str());
                let lc = chars_of(l.as_str());
                if eq_lit(lc.as_slice(), "openai") {
                    Ok(Provider::default())
                } else if eq_lit(lc.as_slice(), "anthropic") {
                    Ok(Provider::Anthropic { api_key: None, model: None })
                } else if eq_lit(lc.as_slice(), "ollama") {
                    Ok(Provider::Ollama { base_url: None, model: ollama_model })
                } else if eq_lit(lc.as_slice(), "bedrock") || eq_lit(lc.as_slice(), "aws") {
                    Ok(Provider::Bedrock { region: None, model: None })
                } else {
                    Err(LLMError::UnknownProvider(l))
                }
            },
            None => {
                if env.arq_llm_base_url.is_some() {
                    Ok(Provider::default())
                } else if env.anthropic_api_key.is_some() {
                    Ok(Provider::Anthropic { api_key: None, model: None })
                } else if env.openai_api_key.is_some() {
                    Ok(Provider::default())
                } else if env.ollama_host.is_some() {
                    Ok(Provider::Ollama { base_url: None, model: ollama_model })
                } else if env.aws_bedrock_model.is_some() {
                    Ok(Provider::Bedrock { region: None, model: None })
                } else {
                    Ok(Provider::default())
                }
            },
        }
    }

    /// The settings of the client this provider builds; Anthropic without
    /// an API key is refused.
    pub fn client_settings(&self, env: &ProviderEnv) -> (r: Result<ClientSettings, LLMError>)
        ensures
            match settings_of(self@, *env) {
                Ok(s) => r matches Ok(c) && c@ == s,
                Err(_) => r matches Err(LLMError::MissingApiKey),
            },
    {
        proof {
            reveal_strlit("");
            assert(""@ =~= Seq::<char>::empty());
        }
        match self {
            Provider::OpenAI { base_url, api_key, model } => {
                let c = ClientSettings::OpenAI {
                    base_url: pick(base_url, &env.arq_llm_base_url, &env.openai_base_url, DEFAULT_OPENAI_URL),
                    api_key: pick(api_key, &env.arq_llm_api_key, &env.openai_api_key, ""),
                    model: pick(model, &env.arq_llm_model, &env.openai_model, DEFAULT_OPENAI_MODEL),
                };
                Ok(c)
            },
            Provider::Anthropic { api_key, model } => {
                let key = match api_key {
                    Some(k) => k.clone(),
                    None => match &env.anthropic_api_key {
                        Some(k) => k.clone(),
                        None => return Err(LLMError::MissingApiKey),
                    },
                };
                Ok(
                    ClientSettings::Claude {
                        api_key: key,
                        model: match model {
                            Some(m) => Some(m.clone()),
                            None => clone_opt(&env.anthropic_model),
                        },
                    },
                )
            },
            Provider::Ollama { base_url, model } => {
                let host: Option<&String> = match base_url {
                    Some(h) => Some(h),
                    None => match &env.ollama_host {
                        Some(h) => Some(h),
                        None => None,
                    },
                };
                let base = match host {
                    Some(h) => {
                        let mut b = trim_trailing_slashes(h.as_str());
                        b.append("/v1");
                        b
                    },
                    None => owned(DEFAULT_OLLAMA_URL),
                };
                Ok(ClientSettings::OpenAI { base_url: base, api_key: String::new(), model: model.clone() })
            },
            Provider::Bedrock { region, model } => {
                let region = match region {
                    Some(r) => Some(r.clone()),
                    None => clone_opt(&env.aws_default_region),
                };
                Ok(
                    ClientSettings::Bedrock {
                        region,
                        model: match model {
                            Some(m) => Some(m.clone()),
                            None => clone_opt(&env.aws_bedrock_model),
                        },
                    },
                )
            },
        }
    }
}

} // verus!
