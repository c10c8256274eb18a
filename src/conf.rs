use vstd::prelude::*;

verus! {

/// The model-hosting protocols a model can be reached through.
#[derive(Clone, Copy, Debug, PartialEq, Eq, Structural)]
pub enum Protocol {
    Ollama,
    OpenAI,
    Deepseek,
    Anthropic,
}

/// The name under which a protocol is configured.
pub open spec fn protocol_name(p: Protocol) -> Seq<char> {
    match p {
        Protocol::Ollama => "ollama"@,
        Protocol::OpenAI => "openai"@,
        Protocol::Deepseek => "deepseek"@,
        Protocol::Anthropic => "anthropic"@,
    }
}

impl Protocol {
    /// The name under which the protocol is configured.
    pub fn to_str(&self) -> (r: &'static str)
        ensures
            r@ == protocol_name(*self),
    {
        match self {
            Protocol::Ollama => "ollama",
            Protocol::OpenAI => "openai",
            Protocol::Anthropic => "anthropic",
            Protocol::Deepseek => "deepseek",
        }
    }
}

/// The whole configuration of a deployment.
pub struct TendConfig {
    pub main: MainConfig,
    pub tender_plan: Option<TenderPlanConfig>,
    pub postgres: PostgresConfig,
}

/// Paths, the start date, and the settings of a classification run: how
/// many examples to retrieve per record and how many prompts go out at once.
pub struct MainConfig {
    pub start_date: String,
    pub files_path: String,
    pub out_files_path: String,
    pub example_org_path: String,
    pub example_tex_path: String,
    pub top_n: usize,
    pub chunk_size: usize,
}

/// Access to the tender-plan service.
pub struct TenderPlanConfig {
    pub api_key: String,
    pub query: String,
}

/// Access to the relational store.
pub struct PostgresConfig {
    pub host: String,
    pub user: String,
    pub psswd: String,
}

/// One model: where it is hosted, through which protocol, and its name.
pub struct LlmConfig {
    pub host: String,
    pub protocol: Protocol,
    pub api_key: String,
    pub model_name: String,
}

} // verus!
