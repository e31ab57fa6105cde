//! The settings of the provider client and how they are put together.

use crate::llm::{ChatWire, opt_text};
use crate::text::same_text;
use vstd::prelude::*;

verus! {

/// What the configuration file may set. Each absent field leaves the
/// default in place.
#[derive(Clone, Debug)]
pub struct OpenAiFileConfig {
    pub model: Option<String>,
    pub model_provider: Option<String>,
    pub wire_api: Option<String>,
    pub stream_max_retries: Option<u32>,
    pub stream_idle_timeout_ms: Option<u64>,
    pub timeout_ms: Option<u64>,
}

/// The settings of the provider client. Times are in milliseconds.
#[derive(Clone, Debug)]
pub struct OpenAiConfig {
    pub api_key: String,
    pub base_url: String,
    pub model: String,
    /// `responses`, `chat` or `auto`.
    pub wire_api: String,
    pub timeout_ms: u64,
    pub stream_max_retries: u32,
    pub stream_idle_timeout_ms: u64,
    pub proxy: Option<String>,
}

/// What an `OpenAiConfig` holds.
pub ghost struct ConfigView {
    pub api_key: Seq<char>,
    pub base_url: Seq<char>,
    pub model: Seq<char>,
    pub wire_api: Seq<char>,
    pub timeout_ms: u64,
    pub stream_max_retries: u32,
    pub stream_idle_timeout_ms: u64,
    pub proxy: Option<Seq<char>>,
}

impl View for OpenAiConfig {
    type V = ConfigView;

    open spec fn view(&self) -> ConfigView {
        ConfigView {
            api_key: self.api_key@,
            base_url: self.base_url@,
            model: self.model@,
            wire_api: self.wire_api@,
            timeout_ms: self.timeout_ms,
            stream_max_retries: self.stream_max_retries,
            stream_idle_timeout_ms: self.stream_idle_timeout_ms,
            proxy: opt_text(self.proxy),
        }
    }
}

/// A text that is given, or else the default.
pub open spec fn text_or_default(o: Option<String>, default: Seq<char>) -> Seq<char> {
    match o {
        Some(s) => s@,
        None => default,
    }
}

/// The settings that a credential, the environment and the configuration
/// file amount to. The file wins over the defaults; the HTTPS proxy wins
/// over the HTTP proxy.
pub open spec fn merged(
    api_key: String,
    base_url: Option<String>,
    file: Option<OpenAiFileConfig>,
    https_proxy: Option<String>,
    http_proxy: Option<String>,
) -> ConfigView {
    ConfigView {
        api_key: api_key@,
        base_url: text_or_default(base_url, "https://api.openai.com/v1"@),
        model: match file {
            Some(f) => text_or_default(f.model, "gpt-5"@),
            None => "gpt-5"@,
        },
        wire_api: match file {
            Some(f) => text_or_default(f.wire_api, "responses"@),
            None => "responses"@,
        },
        timeout_ms: match file {
            Some(OpenAiFileConfig { timeout_ms: Some(t), .. }) => t,
            _ => 30_000,
        },
        stream_max_retries: match file {
            Some(OpenAiFileConfig { stream_max_retries: Some(r), .. }) => r,
            _ => 5,
        },
        stream_idle_timeout_ms: match file {
            Some(OpenAiFileConfig { stream_idle_timeout_ms: Some(t), .. }) => t,
            _ => 300_000,
        },
        proxy: match https_proxy {
            Some(p) => Some(p@),
            None => opt_text(http_proxy),
        },
    }
}

/// The wire that a setting names; an unknown name is the Responses wire.
pub open spec fn wire_of(name: Seq<char>) -> ChatWire {
    if name == "chat"@ {
        ChatWire::Chat
    } else if name == "responses"@ {
        ChatWire::Responses
    } else if name == "auto"@ {
        ChatWire::Auto
    } else {
        ChatWire::Responses
    }
}

impl OpenAiConfig {
    /// Puts the settings together from the credential, the base URL of the
    /// environment, the configuration file where it could be read, and the
    /// two proxy settings of the environment.
    pub fn merge(
        api_key: String,
        base_url: Option<String>,
        file: Option<OpenAiFileConfig>,
        https_proxy: Option<String>,
        http_proxy: Option<String>,
    ) -> (cfg: OpenAiConfig)
        ensures
            cfg@ == merged(api_key, base_url, file, https_proxy, http_proxy),
    {
        let base_url = match base_url {
            Some(u) => u,
            None => "https://api.openai.com/v1".to_owned(),
        };
        let mut model = "gpt-5".to_owned();
        let mut wire_api = "responses".to_owned();
        let mut timeout_ms: u64 = 30_000;
        let mut stream_max_retries: u32 = 5;
        let mut stream_idle_timeout_ms: u64 = 300_000;
        if let Some(f) = file {
            if let Some(m) = f.model {
                model = m;
            }
            if let Some(w) = f.wire_api {
                wire_api = w;
            }
            if let Some(t) = f.timeout_ms {
                timeout_ms = t;
            }
            if let Some(r) = f.stream_max_retries {
                stream_max_retries = r;
            }
            if let Some(idle) = f.stream_idle_timeout_ms {
                stream_idle_timeout_ms = idle;
            }
        }
        let proxy = match https_proxy {
            Some(p) => Some(p),
            None => http_proxy,
        };
        OpenAiConfig {
            api_key,
            base_url,
            model,
            wire_api,
            timeout_ms,
            stream_max_retries,
            stream_idle_timeout_ms,
            proxy,
        }
    }

    /// The wire that the settings ask for.
    pub fn wire(&self) -> (w: ChatWire)
        ensures
            w == wire_of(self.wire_api@),
    {
        wire_from_name(self.wire_api.as_str())
    }
}

/// The wire that a name stands for; an unknown name is the Responses wire.
pub fn wire_from_name(name: &str) -> (w: ChatWire)
    ensures
        w == wire_of(name@),
{
    if same_text(name, "chat") {
        ChatWire::Chat
    } else if same_text(name, "responses") {
        ChatWire::Responses
    } else if same_text(name, "auto") {
        ChatWire::Auto
    } else {
        ChatWire::Responses
    }
}

} // verus!
