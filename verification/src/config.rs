use vstd::prelude::*;

verus! {

/// Where the Ollama API is and which model to ask.
pub struct Config {
    pub ollama_api_url: String,
    pub ollama_model: String,
}

pub open spec fn default_api_url() -> Seq<char> {
    "http://localhost:11434/api/chat"@
}

pub open spec fn default_model() -> Seq<char> {
    "qwen2.5-coder:7b"@
}

impl Config {
    /// The settings from the values of `OLLAMA_API_URL` and `OLLAMA_MODEL`, each
    /// replaced by its default when unset.
    pub fn from_env(api_url: Option<String>, model: Option<String>) -> (r: Config)
        ensures
            r.ollama_api_url@ == (match api_url {
                Some(u) => u@,
                None => default_api_url(),
            }),
            r.ollama_model@ == (match model {
                Some(m) => m@,
                None => default_model(),
            }),
    {
        Config {
            ollama_api_url: match api_url {
                Some(u) => u,
                None => "http://localhost:11434/api/chat".to_owned(),
            },
            ollama_model: match model {
                Some(m) => m,
                None => "qwen2.5-coder:7b".to_owned(),
            },
        }
    }
}

} // verus!
