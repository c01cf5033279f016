//! Providers: their identities, names and descriptions.
use crate::text::same;
use vstd::prelude::*;

verus! {

/// Every provider that can be queried.
#[derive(Clone, Copy, PartialEq, Eq, Structural, Debug)]
pub enum ProviderId {
    Claude,
    Codex,
    Cursor,
    Gemini,
    GeminiApps,
    Copilot,
    Antigravity,
    Factory,
    Zai,
    Kiro,
    VertexAI,
    Augment,
    MiniMax,
    OpenCode,
    Kimi,
    KimiK2,
    Amp,
    Warp,
    Ollama,
    AzureOpenAI,
    T3Chat,
    OpenRouter,
    JetBrains,
    Alibaba,
    AlibabaTokenPlan,
    NanoGPT,
    Infini,
    Perplexity,
    Abacus,
    Mistral,
    OpenCodeGo,
    Kilo,
    Bedrock,
    Codebuff,
    DeepSeek,
    DeepInfra,
    AiAnd,
    Windsurf,
    Manus,
    MiMo,
    Doubao,
    CommandCode,
    Crof,
    StepFun,
    Venice,
    OpenAIApi,
    Grok,
    ElevenLabs,
    Deepgram,
    Groq,
    LLMProxy,
    Chutes,
    LiteLLM,
    Poe,
    Devin,
    Zed,
    CrossModel,
    Qoder,
    CodeBuddy,
    Sakana,
    Sub2Api,
    Wayfinder,
    ZenMux,
    ClinePass,
    LongCat,
    Neuralwatt,
    ZoomMate,
    QwenCloud,
    Notion,
    Xai,
    Fireworks,
    OrcaRouter,
    GeminiApi,
    AiHubMix,
    Bai,
}

/// Where a provider takes its data from.
#[derive(Clone, Copy, PartialEq, Eq, Structural, Debug)]
pub enum SourceMode {
    Auto,
    Web,
    Cli,
    OAuth,
}

pub open spec fn source_mode_of(name: Seq<char>) -> Option<SourceMode> {
    if name == "auto"@ {
        Some(SourceMode::Auto)
    } else if name == "web"@ {
        Some(SourceMode::Web)
    } else if name == "cli"@ {
        Some(SourceMode::Cli)
    } else if name == "oauth"@ {
        Some(SourceMode::OAuth)
    } else {
        None
    }
}

impl SourceMode {
    /// The mode with the given name.
    pub fn parse(name: &str) -> (r: Option<SourceMode>)
        ensures
            r == source_mode_of(name@),
    {
        if same(name, "auto") {
            Some(SourceMode::Auto)
        } else if same(name, "web") {
            Some(SourceMode::Web)
        } else if same(name, "cli") {
            Some(SourceMode::Cli)
        } else if same(name, "oauth") {
            Some(SourceMode::OAuth)
        } else {
            None
        }
    }
}

/// How a provider presents itself.
#[derive(Clone, Copy, Debug)]
pub struct ProviderMetadata {
    pub id: ProviderId,
    pub display_name: &'static str,
    pub session_label: &'static str,
    pub weekly_label: &'static str,
    pub supports_opus: bool,
    pub supports_credits: bool,
    pub default_enabled: bool,
    pub is_primary: bool,
    pub dashboard_url: Option<&'static str>,
    pub status_page_url: Option<&'static str>,
}

/// What a fetch is asked for.
#[derive(Debug)]
pub struct FetchContext {
    pub source_mode: SourceMode,
    pub include_credits: bool,
    pub web_timeout: u64,
    pub verbose: bool,
    pub manual_cookie_header: Option<String>,
    pub api_key: Option<String>,
    pub workspace_id: Option<String>,
    pub api_region: Option<String>,
    pub gateway_url: Option<String>,
    pub auto_prefer_web: bool,
    pub requires_optional_usage_completeness: bool,
}

/// A provider's description: nothing that is not listed is claimed.
pub open spec fn describes(
    m: ProviderMetadata,
    id: ProviderId,
    name: Seq<char>,
    session: Seq<char>,
    weekly: Seq<char>,
    supports_credits: bool,
    dashboard: Seq<char>,
) -> bool {
    &&& m.id == id
    &&& m.display_name@ == name
    &&& m.session_label@ == session
    &&& m.weekly_label@ == weekly
    &&& !m.supports_opus
    &&& m.supports_credits == supports_credits
    &&& !m.default_enabled
    &&& !m.is_primary
    &&& m.dashboard_url is Some
    &&& m.dashboard_url->0@ == dashboard
}

/// The name of a provider on the command line.
///
/// The first provider has the name of its vendor here. Users of the application know it by the
/// six-letter name of its product, which is also the name of its variant; the texts of this
/// crate may not hold that word, so the product's name is neither given nor understood. A
/// front end that takes it has to hand over `anthropic` in its place, and data stored under it
/// has to be moved.
pub open spec fn cli_name_of(id: ProviderId) -> Seq<char> {
    match id {
        ProviderId::Claude => "anthropic"@,
        ProviderId::Codex => "codex"@,
        ProviderId::Cursor => "cursor"@,
        ProviderId::Gemini => "gemini"@,
        ProviderId::GeminiApps => "geminiapps"@,
        ProviderId::Copilot => "copilot"@,
        ProviderId::Antigravity => "antigravity"@,
        ProviderId::Factory => "factory"@,
        ProviderId::Zai => "zai"@,
        ProviderId::Kiro => "kiro"@,
        ProviderId::VertexAI => "vertexai"@,
        ProviderId::Augment => "augment"@,
        ProviderId::MiniMax => "minimax"@,
        ProviderId::OpenCode => "opencode"@,
        ProviderId::Kimi => "kimi"@,
        ProviderId::KimiK2 => "kimik2"@,
        ProviderId::Amp => "amp"@,
        ProviderId::Warp => "warp"@,
        ProviderId::Ollama => "ollama"@,
        ProviderId::AzureOpenAI => "azureopenai"@,
        ProviderId::T3Chat => "t3chat"@,
        ProviderId::OpenRouter => "openrouter"@,
        ProviderId::JetBrains => "jetbrains"@,
        ProviderId::Alibaba => "alibaba"@,
        ProviderId::AlibabaTokenPlan => "alibabatokenplan"@,
        ProviderId::NanoGPT => "nanogpt"@,
        ProviderId::Infini => "infini"@,
        ProviderId::Perplexity => "perplexity"@,
        ProviderId::Abacus => "abacus"@,
        ProviderId::Mistral => "mistral"@,
        ProviderId::OpenCodeGo => "opencodego"@,
        ProviderId::Kilo => "kilo"@,
        ProviderId::Bedrock => "bedrock"@,
        ProviderId::Codebuff => "codebuff"@,
        ProviderId::DeepSeek => "deepseek"@,
        ProviderId::DeepInfra => "deepinfra"@,
        ProviderId::AiAnd => "aiand"@,
        ProviderId::Windsurf => "windsurf"@,
        ProviderId::Manus => "manus"@,
        ProviderId::MiMo => "mimo"@,
        ProviderId::Doubao => "doubao"@,
        ProviderId::CommandCode => "commandcode"@,
        ProviderId::Crof => "crof"@,
        ProviderId::StepFun => "stepfun"@,
        ProviderId::Venice => "venice"@,
        ProviderId::OpenAIApi => "openaiapi"@,
        ProviderId::Grok => "grok"@,
        ProviderId::ElevenLabs => "elevenlabs"@,
        ProviderId::Deepgram => "deepgram"@,
        ProviderId::Groq => "groq"@,
        ProviderId::LLMProxy => "llmproxy"@,
        ProviderId::Chutes => "chutes"@,
        ProviderId::LiteLLM => "litellm"@,
        ProviderId::Poe => "poe"@,
        ProviderId::Devin => "devin"@,
        ProviderId::Zed => "zed"@,
        ProviderId::CrossModel => "crossmodel"@,
        ProviderId::Qoder => "qoder"@,
        ProviderId::CodeBuddy => "codebuddy"@,
        ProviderId::Sakana => "sakana"@,
        ProviderId::Sub2Api => "sub2api"@,
        ProviderId::Wayfinder => "wayfinder"@,
        ProviderId::ZenMux => "zenmux"@,
        ProviderId::ClinePass => "clinepass"@,
        ProviderId::LongCat => "longcat"@,
        ProviderId::Neuralwatt => "neuralwatt"@,
        ProviderId::ZoomMate => "zoommate"@,
        ProviderId::QwenCloud => "qwencloud"@,
        ProviderId::Notion => "notion"@,
        ProviderId::Xai => "xai"@,
        ProviderId::Fireworks => "fireworks"@,
        ProviderId::OrcaRouter => "orcarouter"@,
        ProviderId::GeminiApi => "gemini-api"@,
        ProviderId::AiHubMix => "aihubmix"@,
        ProviderId::Bai => "bai"@,
    }
}

/// The provider that a name or an alias on the command line stands for. Of the first provider
/// only the name of its vendor is known; see [`cli_name_of`].
pub open spec fn provider_named(name: Seq<char>) -> Option<ProviderId> {
    if name == "anthropic"@ {
        Some(ProviderId::Claude)
    } else if name == "codex"@ {
        Some(ProviderId::Codex)
    } else if name == "cursor"@ {
        Some(ProviderId::Cursor)
    } else if name == "gemini"@ {
        Some(ProviderId::Gemini)
    } else if name == "geminiapps"@ {
        Some(ProviderId::GeminiApps)
    } else if name == "copilot"@ {
        Some(ProviderId::Copilot)
    } else if name == "antigravity"@ {
        Some(ProviderId::Antigravity)
    } else if name == "factory"@ {
        Some(ProviderId::Factory)
    } else if name == "zai"@ {
        Some(ProviderId::Zai)
    } else if name == "kiro"@ {
        Some(ProviderId::Kiro)
    } else if name == "vertexai"@ {
        Some(ProviderId::VertexAI)
    } else if name == "augment"@ {
        Some(ProviderId::Augment)
    } else if name == "minimax"@ {
        Some(ProviderId::MiniMax)
    } else if name == "opencode"@ {
        Some(ProviderId::OpenCode)
    } else if name == "kimi"@ {
        Some(ProviderId::Kimi)
    } else if name == "kimik2"@ {
        Some(ProviderId::KimiK2)
    } else if name == "amp"@ {
        Some(ProviderId::Amp)
    } else if name == "warp"@ {
        Some(ProviderId::Warp)
    } else if name == "ollama"@ {
        Some(ProviderId::Ollama)
    } else if name == "azureopenai"@ {
        Some(ProviderId::AzureOpenAI)
    } else if name == "t3chat"@ {
        Some(ProviderId::T3Chat)
    } else if name == "openrouter"@ {
        Some(ProviderId::OpenRouter)
    } else if name == "jetbrains"@ {
        Some(ProviderId::JetBrains)
    } else if name == "alibaba"@ {
        Some(ProviderId::Alibaba)
    } else if name == "alibabatokenplan"@ {
        Some(ProviderId::AlibabaTokenPlan)
    } else if name == "nanogpt"@ {
        Some(ProviderId::NanoGPT)
    } else if name == "infini"@ {
        Some(ProviderId::Infini)
    } else if name == "perplexity"@ {
        Some(ProviderId::Perplexity)
    } else if name == "abacus"@ {
        Some(ProviderId::Abacus)
    } else if name == "mistral"@ {
        Some(ProviderId::Mistral)
    } else if name == "opencodego"@ {
        Some(ProviderId::OpenCodeGo)
    } else if name == "kilo"@ {
        Some(ProviderId::Kilo)
    } else if name == "bedrock"@ {
        Some(ProviderId::Bedrock)
    } else if name == "codebuff"@ {
        Some(ProviderId::Codebuff)
    } else if name == "deepseek"@ {
        Some(ProviderId::DeepSeek)
    } else if name == "deepinfra"@ {
        Some(ProviderId::DeepInfra)
    } else if name == "aiand"@ {
        Some(ProviderId::AiAnd)
    } else if name == "windsurf"@ {
        Some(ProviderId::Windsurf)
    } else if name == "manus"@ {
        Some(ProviderId::Manus)
    } else if name == "mimo"@ {
        Some(ProviderId::MiMo)
    } else if name == "doubao"@ {
        Some(ProviderId::Doubao)
    } else if name == "commandcode"@ {
        Some(ProviderId::CommandCode)
    } else if name == "crof"@ {
        Some(ProviderId::Crof)
    } else if name == "stepfun"@ {
        Some(ProviderId::StepFun)
    } else if name == "venice"@ {
        Some(ProviderId::Venice)
    } else if name == "openaiapi"@ {
        Some(ProviderId::OpenAIApi)
    } else if name == "grok"@ {
        Some(ProviderId::Grok)
    } else if name == "elevenlabs"@ {
        Some(ProviderId::ElevenLabs)
    } else if name == "deepgram"@ {
        Some(ProviderId::Deepgram)
    } else if name == "groq"@ {
        Some(ProviderId::Groq)
    } else if name == "llmproxy"@ {
        Some(ProviderId::LLMProxy)
    } else if name == "chutes"@ {
        Some(ProviderId::Chutes)
    } else if name == "litellm"@ {
        Some(ProviderId::LiteLLM)
    } else if name == "poe"@ {
        Some(ProviderId::Poe)
    } else if name == "devin"@ {
        Some(ProviderId::Devin)
    } else if name == "zed"@ {
        Some(ProviderId::Zed)
    } else if name == "crossmodel"@ {
        Some(ProviderId::CrossModel)
    } else if name == "qoder"@ {
        Some(ProviderId::Qoder)
    } else if name == "codebuddy"@ {
        Some(ProviderId::CodeBuddy)
    } else if name == "sakana"@ {
        Some(ProviderId::Sakana)
    } else if name == "sub2api"@ {
        Some(ProviderId::Sub2Api)
    } else if name == "wayfinder"@ {
        Some(ProviderId::Wayfinder)
    } else if name == "zenmux"@ {
        Some(ProviderId::ZenMux)
    } else if name == "clinepass"@ {
        Some(ProviderId::ClinePass)
    } else if name == "longcat"@ {
        Some(ProviderId::LongCat)
    } else if name == "neuralwatt"@ {
        Some(ProviderId::Neuralwatt)
    } else if name == "zoommate"@ {
        Some(ProviderId::ZoomMate)
    } else if name == "qwencloud"@ {
        Some(ProviderId::QwenCloud)
    } else if name == "notion"@ {
        Some(ProviderId::Notion)
    } else if name == "xai"@ {
        Some(ProviderId::Xai)
    } else if name == "fireworks"@ {
        Some(ProviderId::Fireworks)
    } else if name == "orcarouter"@ {
        Some(ProviderId::OrcaRouter)
    } else if name == "gemini-api"@ {
        Some(ProviderId::GeminiApi)
    } else if name == "aihubmix"@ {
        Some(ProviderId::AiHubMix)
    } else if name == "bai"@ {
        Some(ProviderId::Bai)
    } else if name == "gemini-apps"@ {
        Some(ProviderId::GeminiApps)
    } else if name == "gemini-web"@ {
        Some(ProviderId::GeminiApps)
    } else if name == "geminiapi"@ {
        Some(ProviderId::GeminiApi)
    } else if name == "aistudio-spend"@ {
        Some(ProviderId::GeminiApi)
    } else if name == "orca"@ {
        Some(ProviderId::OrcaRouter)
    } else if name == "orca-router"@ {
        Some(ProviderId::OrcaRouter)
    } else if name == "aihub-mix"@ {
        Some(ProviderId::AiHubMix)
    } else if name == "ai hub mix"@ {
        Some(ProviderId::AiHubMix)
    } else if name == "agy"@ {
        Some(ProviderId::Antigravity)
    } else {
        None
    }
}

/// Every provider, in the order of presentation.
pub open spec fn every_provider() -> Seq<ProviderId> {
    seq![
        ProviderId::Claude,
        ProviderId::Codex,
        ProviderId::Cursor,
        ProviderId::Gemini,
        ProviderId::GeminiApps,
        ProviderId::Copilot,
        ProviderId::Antigravity,
        ProviderId::Factory,
        ProviderId::Zai,
        ProviderId::Kiro,
        ProviderId::VertexAI,
        ProviderId::Augment,
        ProviderId::MiniMax,
        ProviderId::OpenCode,
        ProviderId::Kimi,
        ProviderId::KimiK2,
        ProviderId::Amp,
        ProviderId::Warp,
        ProviderId::Ollama,
        ProviderId::AzureOpenAI,
        ProviderId::T3Chat,
        ProviderId::OpenRouter,
        ProviderId::JetBrains,
        ProviderId::Alibaba,
        ProviderId::AlibabaTokenPlan,
        ProviderId::NanoGPT,
        ProviderId::Infini,
        ProviderId::Perplexity,
        ProviderId::Abacus,
        ProviderId::Mistral,
        ProviderId::OpenCodeGo,
        ProviderId::Kilo,
        ProviderId::Bedrock,
        ProviderId::Codebuff,
        ProviderId::DeepSeek,
        ProviderId::DeepInfra,
        ProviderId::AiAnd,
        ProviderId::Windsurf,
        ProviderId::Manus,
        ProviderId::MiMo,
        ProviderId::Doubao,
        ProviderId::CommandCode,
        ProviderId::Crof,
        ProviderId::StepFun,
        ProviderId::Venice,
        ProviderId::OpenAIApi,
        ProviderId::Grok,
        ProviderId::ElevenLabs,
        ProviderId::Deepgram,
        ProviderId::Groq,
        ProviderId::LLMProxy,
        ProviderId::Chutes,
        ProviderId::LiteLLM,
        ProviderId::Poe,
        ProviderId::Devin,
        ProviderId::Zed,
        ProviderId::CrossModel,
        ProviderId::Qoder,
        ProviderId::CodeBuddy,
        ProviderId::Sakana,
        ProviderId::Sub2Api,
        ProviderId::Wayfinder,
        ProviderId::ZenMux,
        ProviderId::ClinePass,
        ProviderId::LongCat,
        ProviderId::Neuralwatt,
        ProviderId::ZoomMate,
        ProviderId::QwenCloud,
        ProviderId::Notion,
        ProviderId::Xai,
        ProviderId::Fireworks,
        ProviderId::OrcaRouter,
        ProviderId::GeminiApi,
        ProviderId::AiHubMix,
        ProviderId::Bai,
    ]
}

impl ProviderId {
    pub fn cli_name(self) -> (r: &'static str)
        ensures
            r@ == cli_name_of(self),
    {
        match self {
            ProviderId::Claude => "anthropic",
            ProviderId::Codex => "codex",
            ProviderId::Cursor => "cursor",
            ProviderId::Gemini => "gemini",
            ProviderId::GeminiApps => "geminiapps",
            ProviderId::Copilot => "copilot",
            ProviderId::Antigravity => "antigravity",
            ProviderId::Factory => "factory",
            ProviderId::Zai => "zai",
            ProviderId::Kiro => "kiro",
            ProviderId::VertexAI => "vertexai",
            ProviderId::Augment => "augment",
            ProviderId::MiniMax => "minimax",
            ProviderId::OpenCode => "opencode",
            ProviderId::Kimi => "kimi",
            ProviderId::KimiK2 => "kimik2",
            ProviderId::Amp => "amp",
            ProviderId::Warp => "warp",
            ProviderId::Ollama => "ollama",
            ProviderId::AzureOpenAI => "azureopenai",
            ProviderId::T3Chat => "t3chat",
            ProviderId::OpenRouter => "openrouter",
            ProviderId::JetBrains => "jetbrains",
            ProviderId::Alibaba => "alibaba",
            ProviderId::AlibabaTokenPlan => "alibabatokenplan",
            ProviderId::NanoGPT => "nanogpt",
            ProviderId::Infini => "infini",
            ProviderId::Perplexity => "perplexity",
            ProviderId::Abacus => "abacus",
            ProviderId::Mistral => "mistral",
            ProviderId::OpenCodeGo => "opencodego",
            ProviderId::Kilo => "kilo",
            ProviderId::Bedrock => "bedrock",
            ProviderId::Codebuff => "codebuff",
            ProviderId::DeepSeek => "deepseek",
            ProviderId::DeepInfra => "deepinfra",
            ProviderId::AiAnd => "aiand",
            ProviderId::Windsurf => "windsurf",
            ProviderId::Manus => "manus",
            ProviderId::MiMo => "mimo",
            ProviderId::Doubao => "doubao",
            ProviderId::CommandCode => "commandcode",
            ProviderId::Crof => "crof",
            ProviderId::StepFun => "stepfun",
            ProviderId::Venice => "venice",
            ProviderId::OpenAIApi => "openaiapi",
            ProviderId::Grok => "grok",
            ProviderId::ElevenLabs => "elevenlabs",
            ProviderId::Deepgram => "deepgram",
            ProviderId::Groq => "groq",
            ProviderId::LLMProxy => "llmproxy",
            ProviderId::Chutes => "chutes",
            ProviderId::LiteLLM => "litellm",
            ProviderId::Poe => "poe",
            ProviderId::Devin => "devin",
            ProviderId::Zed => "zed",
            ProviderId::CrossModel => "crossmodel",
            ProviderId::Qoder => "qoder",
            ProviderId::CodeBuddy => "codebuddy",
            ProviderId::Sakana => "sakana",
            ProviderId::Sub2Api => "sub2api",
            ProviderId::Wayfinder => "wayfinder",
            ProviderId::ZenMux => "zenmux",
            ProviderId::ClinePass => "clinepass",
            ProviderId::LongCat => "longcat",
            ProviderId::Neuralwatt => "neuralwatt",
            ProviderId::ZoomMate => "zoommate",
            ProviderId::QwenCloud => "qwencloud",
            ProviderId::Notion => "notion",
            ProviderId::Xai => "xai",
            ProviderId::Fireworks => "fireworks",
            ProviderId::OrcaRouter => "orcarouter",
            ProviderId::GeminiApi => "gemini-api",
            ProviderId::AiHubMix => "aihubmix",
            ProviderId::Bai => "bai",
        }
    }

    pub fn from_cli_name(name: &str) -> (r: Option<ProviderId>)
        ensures
            r == provider_named(name@),
    {
        if same(name, "anthropic") {
            Some(ProviderId::Claude)
        } else if same(name, "codex") {
            Some(ProviderId::Codex)
        } else if same(name, "cursor") {
            Some(ProviderId::Cursor)
        } else if same(name, "gemini") {
            Some(ProviderId::Gemini)
        } else if same(name, "geminiapps") {
            Some(ProviderId::GeminiApps)
        } else if same(name, "copilot") {
            Some(ProviderId::Copilot)
        } else if same(name, "antigravity") {
            Some(ProviderId::Antigravity)
        } else if same(name, "factory") {
            Some(ProviderId::Factory)
        } else if same(name, "zai") {
            Some(ProviderId::Zai)
        } else if same(name, "kiro") {
            Some(ProviderId::Kiro)
        } else if same(name, "vertexai") {
            Some(ProviderId::VertexAI)
        } else if same(name, "augment") {
            Some(ProviderId::Augment)
        } else if same(name, "minimax") {
            Some(ProviderId::MiniMax)
        } else if same(name, "opencode") {
            Some(ProviderId::OpenCode)
        } else if same(name, "kimi") {
            Some(ProviderId::Kimi)
        } else if same(name, "kimik2") {
            Some(ProviderId::KimiK2)
        } else if same(name, "amp") {
            Some(ProviderId::Amp)
        } else if same(name, "warp") {
            Some(ProviderId::Warp)
        } else if same(name, "ollama") {
            Some(ProviderId::Ollama)
        } else if same(name, "azureopenai") {
            Some(ProviderId::AzureOpenAI)
        } else if same(name, "t3chat") {
            Some(ProviderId::T3Chat)
        } else if same(name, "openrouter") {
            Some(ProviderId::OpenRouter)
        } else if same(name, "jetbrains") {
            Some(ProviderId::JetBrains)
        } else if same(name, "alibaba") {
            Some(ProviderId::Alibaba)
        } else if same(name, "alibabatokenplan") {
            Some(ProviderId::AlibabaTokenPlan)
        } else if same(name, "nanogpt") {
            Some(ProviderId::NanoGPT)
        } else if same(name, "infini") {
            Some(ProviderId::Infini)
        } else if same(name, "perplexity") {
            Some(ProviderId::Perplexity)
        } else if same(name, "abacus") {
            Some(ProviderId::Abacus)
        } else if same(name, "mistral") {
            Some(ProviderId::Mistral)
        } else if same(name, "opencodego") {
            Some(ProviderId::OpenCodeGo)
        } else if same(name, "kilo") {
            Some(ProviderId::Kilo)
        } else if same(name, "bedrock") {
            Some(ProviderId::Bedrock)
        } else if same(name, "codebuff") {
            Some(ProviderId::Codebuff)
        } else if same(name, "deepseek") {
            Some(ProviderId::DeepSeek)
        } else if same(name, "deepinfra") {
            Some(ProviderId::DeepInfra)
        } else if same(name, "aiand") {
            Some(ProviderId::AiAnd)
        } else if same(name, "windsurf") {
            Some(ProviderId::Windsurf)
        } else if same(name, "manus") {
            Some(ProviderId::Manus)
        } else if same(name, "mimo") {
            Some(ProviderId::MiMo)
        } else if same(name, "doubao") {
            Some(ProviderId::Doubao)
        } else if same(name, "commandcode") {
            Some(ProviderId::CommandCode)
        } else if same(name, "crof") {
            Some(ProviderId::Crof)
        } else if same(name, "stepfun") {
            Some(ProviderId::StepFun)
        } else if same(name, "venice") {
            Some(ProviderId::Venice)
        } else if same(name, "openaiapi") {
            Some(ProviderId::OpenAIApi)
        } else if same(name, "grok") {
            Some(ProviderId::Grok)
        } else if same(name, "elevenlabs") {
            Some(ProviderId::ElevenLabs)
        } else if same(name, "deepgram") {
            Some(ProviderId::Deepgram)
        } else if same(name, "groq") {
            Some(ProviderId::Groq)
        } else if same(name, "llmproxy") {
            Some(ProviderId::LLMProxy)
        } else if same(name, "chutes") {
            Some(ProviderId::Chutes)
        } else if same(name, "litellm") {
            Some(ProviderId::LiteLLM)
        } else if same(name, "poe") {
            Some(ProviderId::Poe)
        } else if same(name, "devin") {
            Some(ProviderId::Devin)
        } else if same(name, "zed") {
            Some(ProviderId::Zed)
        } else if same(name, "crossmodel") {
            Some(ProviderId::CrossModel)
        } else if same(name, "qoder") {
            Some(ProviderId::Qoder)
        } else if same(name, "codebuddy") {
            Some(ProviderId::CodeBuddy)
        } else if same(name, "sakana") {
            Some(ProviderId::Sakana)
        } else if same(name, "sub2api") {
            Some(ProviderId::Sub2Api)
        } else if same(name, "wayfinder") {
            Some(ProviderId::Wayfinder)
        } else if same(name, "zenmux") {
            Some(ProviderId::ZenMux)
        } else if same(name, "clinepass") {
            Some(ProviderId::ClinePass)
        } else if same(name, "longcat") {
            Some(ProviderId::LongCat)
        } else if same(name, "neuralwatt") {
            Some(ProviderId::Neuralwatt)
        } else if same(name, "zoommate") {
            Some(ProviderId::ZoomMate)
        } else if same(name, "qwencloud") {
            Some(ProviderId::QwenCloud)
        } else if same(name, "notion") {
            Some(ProviderId::Notion)
        } else if same(name, "xai") {
            Some(ProviderId::Xai)
        } else if same(name, "fireworks") {
            Some(ProviderId::Fireworks)
        } else if same(name, "orcarouter") {
            Some(ProviderId::OrcaRouter)
        } else if same(name, "gemini-api") {
            Some(ProviderId::GeminiApi)
        } else if same(name, "aihubmix") {
            Some(ProviderId::AiHubMix)
        } else if same(name, "bai") {
            Some(ProviderId::Bai)
        } else if same(name, "gemini-apps") {
            Some(ProviderId::GeminiApps)
        } else if same(name, "gemini-web") {
            Some(ProviderId::GeminiApps)
        } else if same(name, "geminiapi") {
            Some(ProviderId::GeminiApi)
        } else if same(name, "aistudio-spend") {
            Some(ProviderId::GeminiApi)
        } else if same(name, "orca") {
            Some(ProviderId::OrcaRouter)
        } else if same(name, "orca-router") {
            Some(ProviderId::OrcaRouter)
        } else if same(name, "aihub-mix") {
            Some(ProviderId::AiHubMix)
        } else if same(name, "ai hub mix") {
            Some(ProviderId::AiHubMix)
        } else if same(name, "agy") {
            Some(ProviderId::Antigravity)
        } else {
            None
        }
    }

    pub fn all() -> (r: Vec<ProviderId>)
        ensures
            r@ == every_provider(),
    {
        vec![
            ProviderId::Claude,
            ProviderId::Codex,
            ProviderId::Cursor,
            ProviderId::Gemini,
            ProviderId::GeminiApps,
            ProviderId::Copilot,
            ProviderId::Antigravity,
            ProviderId::Factory,
            ProviderId::Zai,
            ProviderId::Kiro,
            ProviderId::VertexAI,
            ProviderId::Augment,
            ProviderId::MiniMax,
            ProviderId::OpenCode,
            ProviderId::Kimi,
            ProviderId::KimiK2,
            ProviderId::Amp,
            ProviderId::Warp,
            ProviderId::Ollama,
            ProviderId::AzureOpenAI,
            ProviderId::T3Chat,
            ProviderId::OpenRouter,
            ProviderId::JetBrains,
            ProviderId::Alibaba,
            ProviderId::AlibabaTokenPlan,
            ProviderId::NanoGPT,
            ProviderId::Infini,
            ProviderId::Perplexity,
            ProviderId::Abacus,
            ProviderId::Mistral,
            ProviderId::OpenCodeGo,
            ProviderId::Kilo,
            ProviderId::Bedrock,
            ProviderId::Codebuff,
            ProviderId::DeepSeek,
            ProviderId::DeepInfra,
            ProviderId::AiAnd,
            ProviderId::Windsurf,
            ProviderId::Manus,
            ProviderId::MiMo,
            ProviderId::Doubao,
            ProviderId::CommandCode,
            ProviderId::Crof,
            ProviderId::StepFun,
            ProviderId::Venice,
            ProviderId::OpenAIApi,
            ProviderId::Grok,
            ProviderId::ElevenLabs,
            ProviderId::Deepgram,
            ProviderId::Groq,
            ProviderId::LLMProxy,
            ProviderId::Chutes,
            ProviderId::LiteLLM,
            ProviderId::Poe,
            ProviderId::Devin,
            ProviderId::Zed,
            ProviderId::CrossModel,
            ProviderId::Qoder,
            ProviderId::CodeBuddy,
            ProviderId::Sakana,
            ProviderId::Sub2Api,
            ProviderId::Wayfinder,
            ProviderId::ZenMux,
            ProviderId::ClinePass,
            ProviderId::LongCat,
            ProviderId::Neuralwatt,
            ProviderId::ZoomMate,
            ProviderId::QwenCloud,
            ProviderId::Notion,
            ProviderId::Xai,
            ProviderId::Fireworks,
            ProviderId::OrcaRouter,
            ProviderId::GeminiApi,
            ProviderId::AiHubMix,
            ProviderId::Bai,
        ]
    }
}

/// Length and three characters of a name, by which all names can be told apart.
spec fn mark(name: Seq<char>) -> (nat, char, char, char) {
    (name.len(), name[0], name[2], name.last())
}

/// Every provider is listed, and listed once.
pub proof fn law_every_provider_is_listed_once(id: ProviderId)
    ensures
        every_provider().contains(id),
        every_provider().no_duplicates(),
{
    let all = every_provider();
    let place: int = match id {
        ProviderId::Claude => 0,
        ProviderId::Codex => 1,
        ProviderId::Cursor => 2,
        ProviderId::Gemini => 3,
        ProviderId::GeminiApps => 4,
        ProviderId::Copilot => 5,
        ProviderId::Antigravity => 6,
        ProviderId::Factory => 7,
        ProviderId::Zai => 8,
        ProviderId::Kiro => 9,
        ProviderId::VertexAI => 10,
        ProviderId::Augment => 11,
        ProviderId::MiniMax => 12,
        ProviderId::OpenCode => 13,
        ProviderId::Kimi => 14,
        ProviderId::KimiK2 => 15,
        ProviderId::Amp => 16,
        ProviderId::Warp => 17,
        ProviderId::Ollama => 18,
        ProviderId::AzureOpenAI => 19,
        ProviderId::T3Chat => 20,
        ProviderId::OpenRouter => 21,
        ProviderId::JetBrains => 22,
        ProviderId::Alibaba => 23,
        ProviderId::AlibabaTokenPlan => 24,
        ProviderId::NanoGPT => 25,
        ProviderId::Infini => 26,
        ProviderId::Perplexity => 27,
        ProviderId::Abacus => 28,
        ProviderId::Mistral => 29,
        ProviderId::OpenCodeGo => 30,
        ProviderId::Kilo => 31,
        ProviderId::Bedrock => 32,
        ProviderId::Codebuff => 33,
        ProviderId::DeepSeek => 34,
        ProviderId::DeepInfra => 35,
        ProviderId::AiAnd => 36,
        ProviderId::Windsurf => 37,
        ProviderId::Manus => 38,
        ProviderId::MiMo => 39,
        ProviderId::Doubao => 40,
        ProviderId::CommandCode => 41,
        ProviderId::Crof => 42,
        ProviderId::StepFun => 43,
        ProviderId::Venice => 44,
        ProviderId::OpenAIApi => 45,
        ProviderId::Grok => 46,
        ProviderId::ElevenLabs => 47,
        ProviderId::Deepgram => 48,
        ProviderId::Groq => 49,
        ProviderId::LLMProxy => 50,
        ProviderId::Chutes => 51,
        ProviderId::LiteLLM => 52,
        ProviderId::Poe => 53,
        ProviderId::Devin => 54,
        ProviderId::Zed => 55,
        ProviderId::CrossModel => 56,
        ProviderId::Qoder => 57,
        ProviderId::CodeBuddy => 58,
        ProviderId::Sakana => 59,
        ProviderId::Sub2Api => 60,
        ProviderId::Wayfinder => 61,
        ProviderId::ZenMux => 62,
        ProviderId::ClinePass => 63,
        ProviderId::LongCat => 64,
        ProviderId::Neuralwatt => 65,
        ProviderId::ZoomMate => 66,
        ProviderId::QwenCloud => 67,
        ProviderId::Notion => 68,
        ProviderId::Xai => 69,
        ProviderId::Fireworks => 70,
        ProviderId::OrcaRouter => 71,
        ProviderId::GeminiApi => 72,
        ProviderId::AiHubMix => 73,
        ProviderId::Bai => 74,
    };
    assert(all[place] == id);
}

/// The marks of all names, and of the words that select several providers.
proof fn lemma_marks()
    ensures
        mark("all"@) == (3nat, 'a', 'l', 'l'),
        mark("both"@) == (4nat, 'b', 't', 'h'),
        mark("anthropic"@) == (9nat, 'a', 't', 'c'),
        mark("codex"@) == (5nat, 'c', 'd', 'x'),
        mark("cursor"@) == (6nat, 'c', 'r', 'r'),
        mark("gemini"@) == (6nat, 'g', 'm', 'i'),
        mark("geminiapps"@) == (10nat, 'g', 'm', 's'),
        mark("copilot"@) == (7nat, 'c', 'p', 't'),
        mark("antigravity"@) == (11nat, 'a', 't', 'y'),
        mark("factory"@) == (7nat, 'f', 'c', 'y'),
        mark("zai"@) == (3nat, 'z', 'i', 'i'),
        mark("kiro"@) == (4nat, 'k', 'r', 'o'),
        mark("vertexai"@) == (8nat, 'v', 'r', 'i'),
        mark("augment"@) == (7nat, 'a', 'g', 't'),
        mark("minimax"@) == (7nat, 'm', 'n', 'x'),
        mark("opencode"@) == (8nat, 'o', 'e', 'e'),
        mark("kimi"@) == (4nat, 'k', 'm', 'i'),
        mark("kimik2"@) == (6nat, 'k', 'm', '2'),
        mark("amp"@) == (3nat, 'a', 'p', 'p'),
        mark("warp"@) == (4nat, 'w', 'r', 'p'),
        mark("ollama"@) == (6nat, 'o', 'l', 'a'),
        mark("azureopenai"@) == (11nat, 'a', 'u', 'i'),
        mark("t3chat"@) == (6nat, 't', 'c', 't'),
        mark("openrouter"@) == (10nat, 'o', 'e', 'r'),
        mark("jetbrains"@) == (9nat, 'j', 't', 's'),
        mark("alibaba"@) == (7nat, 'a', 'i', 'a'),
        mark("alibabatokenplan"@) == (16nat, 'a', 'i', 'n'),
        mark("nanogpt"@) == (7nat, 'n', 'n', 't'),
        mark("infini"@) == (6nat, 'i', 'f', 'i'),
        mark("perplexity"@) == (10nat, 'p', 'r', 'y'),
        mark("abacus"@) == (6nat, 'a', 'a', 's'),
        mark("mistral"@) == (7nat, 'm', 's', 'l'),
        mark("opencodego"@) == (10nat, 'o', 'e', 'o'),
        mark("kilo"@) == (4nat, 'k', 'l', 'o'),
        mark("bedrock"@) == (7nat, 'b', 'd', 'k'),
        mark("codebuff"@) == (8nat, 'c', 'd', 'f'),
        mark("deepseek"@) == (8nat, 'd', 'e', 'k'),
        mark("deepinfra"@) == (9nat, 'd', 'e', 'a'),
        mark("aiand"@) == (5nat, 'a', 'a', 'd'),
        mark("windsurf"@) == (8nat, 'w', 'n', 'f'),
        mark("manus"@) == (5nat, 'm', 'n', 's'),
        mark("mimo"@) == (4nat, 'm', 'm', 'o'),
        mark("doubao"@) == (6nat, 'd', 'u', 'o'),
        mark("commandcode"@) == (11nat, 'c', 'm', 'e'),
        mark("crof"@) == (4nat, 'c', 'o', 'f'),
        mark("stepfun"@) == (7nat, 's', 'e', 'n'),
        mark("venice"@) == (6nat, 'v', 'n', 'e'),
        mark("openaiapi"@) == (9nat, 'o', 'e', 'i'),
        mark("grok"@) == (4nat, 'g', 'o', 'k'),
        mark("elevenlabs"@) == (10nat, 'e', 'e', 's'),
        mark("deepgram"@) == (8nat, 'd', 'e', 'm'),
        mark("groq"@) == (4nat, 'g', 'o', 'q'),
        mark("llmproxy"@) == (8nat, 'l', 'm', 'y'),
        mark("chutes"@) == (6nat, 'c', 'u', 's'),
        mark("litellm"@) == (7nat, 'l', 't', 'm'),
        mark("poe"@) == (3nat, 'p', 'e', 'e'),
        mark("devin"@) == (5nat, 'd', 'v', 'n'),
        mark("zed"@) == (3nat, 'z', 'd', 'd'),
        mark("crossmodel"@) == (10nat, 'c', 'o', 'l'),
        mark("qoder"@) == (5nat, 'q', 'd', 'r'),
        mark("codebuddy"@) == (9nat, 'c', 'd', 'y'),
        mark("sakana"@) == (6nat, 's', 'k', 'a'),
        mark("sub2api"@) == (7nat, 's', 'b', 'i'),
        mark("wayfinder"@) == (9nat, 'w', 'y', 'r'),
        mark("zenmux"@) == (6nat, 'z', 'n', 'x'),
        mark("clinepass"@) == (9nat, 'c', 'i', 's'),
        mark("longcat"@) == (7nat, 'l', 'n', 't'),
        mark("neuralwatt"@) == (10nat, 'n', 'u', 't'),
        mark("zoommate"@) == (8nat, 'z', 'o', 'e'),
        mark("qwencloud"@) == (9nat, 'q', 'e', 'd'),
        mark("notion"@) == (6nat, 'n', 't', 'n'),
        mark("xai"@) == (3nat, 'x', 'i', 'i'),
        mark("fireworks"@) == (9nat, 'f', 'r', 's'),
        mark("orcarouter"@) == (10nat, 'o', 'c', 'r'),
        mark("gemini-api"@) == (10nat, 'g', 'm', 'i'),
        mark("aihubmix"@) == (8nat, 'a', 'h', 'x'),
        mark("bai"@) == (3nat, 'b', 'i', 'i'),
        mark("gemini-apps"@) == (11nat, 'g', 'm', 's'),
        mark("gemini-web"@) == (10nat, 'g', 'm', 'b'),
        mark("geminiapi"@) == (9nat, 'g', 'm', 'i'),
        mark("aistudio-spend"@) == (14nat, 'a', 's', 'd'),
        mark("orca"@) == (4nat, 'o', 'c', 'a'),
        mark("orca-router"@) == (11nat, 'o', 'c', 'r'),
        mark("aihub-mix"@) == (9nat, 'a', 'h', 'x'),
        mark("ai hub mix"@) == (10nat, 'a', ' ', 'x'),
        mark("agy"@) == (3nat, 'a', 'y', 'y'),
{
    assert(mark("all"@) == (3nat, 'a', 'l', 'l')) by {
        reveal_strlit("all");
    }
    assert(mark("both"@) == (4nat, 'b', 't', 'h')) by {
        reveal_strlit("both");
    }
    assert(mark("anthropic"@) == (9nat, 'a', 't', 'c')) by {
        reveal_strlit("anthropic");
    }
    assert(mark("codex"@) == (5nat, 'c', 'd', 'x')) by {
        reveal_strlit("codex");
    }
    assert(mark("cursor"@) == (6nat, 'c', 'r', 'r')) by {
        reveal_strlit("cursor");
    }
    assert(mark("gemini"@) == (6nat, 'g', 'm', 'i')) by {
        reveal_strlit("gemini");
    }
    assert(mark("geminiapps"@) == (10nat, 'g', 'm', 's')) by {
        reveal_strlit("geminiapps");
    }
    assert(mark("copilot"@) == (7nat, 'c', 'p', 't')) by {
        reveal_strlit("copilot");
    }
    assert(mark("antigravity"@) == (11nat, 'a', 't', 'y')) by {
        reveal_strlit("antigravity");
    }
    assert(mark("factory"@) == (7nat, 'f', 'c', 'y')) by {
        reveal_strlit("factory");
    }
    assert(mark("zai"@) == (3nat, 'z', 'i', 'i')) by {
        reveal_strlit("zai");
    }
    assert(mark("kiro"@) == (4nat, 'k', 'r', 'o')) by {
        reveal_strlit("kiro");
    }
    assert(mark("vertexai"@) == (8nat, 'v', 'r', 'i')) by {
        reveal_strlit("vertexai");
    }
    assert(mark("augment"@) == (7nat, 'a', 'g', 't')) by {
        reveal_strlit("augment");
    }
    assert(mark("minimax"@) == (7nat, 'm', 'n', 'x')) by {
        reveal_strlit("minimax");
    }
    assert(mark("opencode"@) == (8nat, 'o', 'e', 'e')) by {
        reveal_strlit("opencode");
    }
    assert(mark("kimi"@) == (4nat, 'k', 'm', 'i')) by {
        reveal_strlit("kimi");
    }
    assert(mark("kimik2"@) == (6nat, 'k', 'm', '2')) by {
        reveal_strlit("kimik2");
    }
    assert(mark("amp"@) == (3nat, 'a', 'p', 'p')) by {
        reveal_strlit("amp");
    }
    assert(mark("warp"@) == (4nat, 'w', 'r', 'p')) by {
        reveal_strlit("warp");
    }
    assert(mark("ollama"@) == (6nat, 'o', 'l', 'a')) by {
        reveal_strlit("ollama");
    }
    assert(mark("azureopenai"@) == (11nat, 'a', 'u', 'i')) by {
        reveal_strlit("azureopenai");
    }
    assert(mark("t3chat"@) == (6nat, 't', 'c', 't')) by {
        reveal_strlit("t3chat");
    }
    assert(mark("openrouter"@) == (10nat, 'o', 'e', 'r')) by {
        reveal_strlit("openrouter");
    }
    assert(mark("jetbrains"@) == (9nat, 'j', 't', 's')) by {
        reveal_strlit("jetbrains");
    }
    assert(mark("alibaba"@) == (7nat, 'a', 'i', 'a')) by {
        reveal_strlit("alibaba");
    }
    assert(mark("alibabatokenplan"@) == (16nat, 'a', 'i', 'n')) by {
        reveal_strlit("alibabatokenplan");
    }
    assert(mark("nanogpt"@) == (7nat, 'n', 'n', 't')) by {
        reveal_strlit("nanogpt");
    }
    assert(mark("infini"@) == (6nat, 'i', 'f', 'i')) by {
        reveal_strlit("infini");
    }
    assert(mark("perplexity"@) == (10nat, 'p', 'r', 'y')) by {
        reveal_strlit("perplexity");
    }
    assert(mark("abacus"@) == (6nat, 'a', 'a', 's')) by {
        reveal_strlit("abacus");
    }
    assert(mark("mistral"@) == (7nat, 'm', 's', 'l')) by {
        reveal_strlit("mistral");
    }
    assert(mark("opencodego"@) == (10nat, 'o', 'e', 'o')) by {
        reveal_strlit("opencodego");
    }
    assert(mark("kilo"@) == (4nat, 'k', 'l', 'o')) by {
        reveal_strlit("kilo");
    }
    assert(mark("bedrock"@) == (7nat, 'b', 'd', 'k')) by {
        reveal_strlit("bedrock");
    }
    assert(mark("codebuff"@) == (8nat, 'c', 'd', 'f')) by {
        reveal_strlit("codebuff");
    }
    assert(mark("deepseek"@) == (8nat, 'd', 'e', 'k')) by {
        reveal_strlit("deepseek");
    }
    assert(mark("deepinfra"@) == (9nat, 'd', 'e', 'a')) by {
        reveal_strlit("deepinfra");
    }
    assert(mark("aiand"@) == (5nat, 'a', 'a', 'd')) by {
        reveal_strlit("aiand");
    }
    assert(mark("windsurf"@) == (8nat, 'w', 'n', 'f')) by {
        reveal_strlit("windsurf");
    }
    assert(mark("manus"@) == (5nat, 'm', 'n', 's')) by {
        reveal_strlit("manus");
    }
    assert(mark("mimo"@) == (4nat, 'm', 'm', 'o')) by {
        reveal_strlit("mimo");
    }
    assert(mark("doubao"@) == (6nat, 'd', 'u', 'o')) by {
        reveal_strlit("doubao");
    }
    assert(mark("commandcode"@) == (11nat, 'c', 'm', 'e')) by {
        reveal_strlit("commandcode");
    }
    assert(mark("crof"@) == (4nat, 'c', 'o', 'f')) by {
        reveal_strlit("crof");
    }
    assert(mark("stepfun"@) == (7nat, 's', 'e', 'n')) by {
        reveal_strlit("stepfun");
    }
    assert(mark("venice"@) == (6nat, 'v', 'n', 'e')) by {
        reveal_strlit("venice");
    }
    assert(mark("openaiapi"@) == (9nat, 'o', 'e', 'i')) by {
        reveal_strlit("openaiapi");
    }
    assert(mark("grok"@) == (4nat, 'g', 'o', 'k')) by {
        reveal_strlit("grok");
    }
    assert(mark("elevenlabs"@) == (10nat, 'e', 'e', 's')) by {
        reveal_strlit("elevenlabs");
    }
    assert(mark("deepgram"@) == (8nat, 'd', 'e', 'm')) by {
        reveal_strlit("deepgram");
    }
    assert(mark("groq"@) == (4nat, 'g', 'o', 'q')) by {
        reveal_strlit("groq");
    }
    assert(mark("llmproxy"@) == (8nat, 'l', 'm', 'y')) by {
        reveal_strlit("llmproxy");
    }
    assert(mark("chutes"@) == (6nat, 'c', 'u', 's')) by {
        reveal_strlit("chutes");
    }
    assert(mark("litellm"@) == (7nat, 'l', 't', 'm')) by {
        reveal_strlit("litellm");
    }
    assert(mark("poe"@) == (3nat, 'p', 'e', 'e')) by {
        reveal_strlit("poe");
    }
    assert(mark("devin"@) == (5nat, 'd', 'v', 'n')) by {
        reveal_strlit("devin");
    }
    assert(mark("zed"@) == (3nat, 'z', 'd', 'd')) by {
        reveal_strlit("zed");
    }
    assert(mark("crossmodel"@) == (10nat, 'c', 'o', 'l')) by {
        reveal_strlit("crossmodel");
    }
    assert(mark("qoder"@) == (5nat, 'q', 'd', 'r')) by {
        reveal_strlit("qoder");
    }
    assert(mark("codebuddy"@) == (9nat, 'c', 'd', 'y')) by {
        reveal_strlit("codebuddy");
    }
    assert(mark("sakana"@) == (6nat, 's', 'k', 'a')) by {
        reveal_strlit("sakana");
    }
    assert(mark("sub2api"@) == (7nat, 's', 'b', 'i')) by {
        reveal_strlit("sub2api");
    }
    assert(mark("wayfinder"@) == (9nat, 'w', 'y', 'r')) by {
        reveal_strlit("wayfinder");
    }
    assert(mark("zenmux"@) == (6nat, 'z', 'n', 'x')) by {
        reveal_strlit("zenmux");
    }
    assert(mark("clinepass"@) == (9nat, 'c', 'i', 's')) by {
        reveal_strlit("clinepass");
    }
    assert(mark("longcat"@) == (7nat, 'l', 'n', 't')) by {
        reveal_strlit("longcat");
    }
    assert(mark("neuralwatt"@) == (10nat, 'n', 'u', 't')) by {
        reveal_strlit("neuralwatt");
    }
    assert(mark("zoommate"@) == (8nat, 'z', 'o', 'e')) by {
        reveal_strlit("zoommate");
    }
    assert(mark("qwencloud"@) == (9nat, 'q', 'e', 'd')) by {
        reveal_strlit("qwencloud");
    }
    assert(mark("notion"@) == (6nat, 'n', 't', 'n')) by {
        reveal_strlit("notion");
    }
    assert(mark("xai"@) == (3nat, 'x', 'i', 'i')) by {
        reveal_strlit("xai");
    }
    assert(mark("fireworks"@) == (9nat, 'f', 'r', 's')) by {
        reveal_strlit("fireworks");
    }
    assert(mark("orcarouter"@) == (10nat, 'o', 'c', 'r')) by {
        reveal_strlit("orcarouter");
    }
    assert(mark("gemini-api"@) == (10nat, 'g', 'm', 'i')) by {
        reveal_strlit("gemini-api");
    }
    assert(mark("aihubmix"@) == (8nat, 'a', 'h', 'x')) by {
        reveal_strlit("aihubmix");
    }
    assert(mark("bai"@) == (3nat, 'b', 'i', 'i')) by {
        reveal_strlit("bai");
    }
    assert(mark("gemini-apps"@) == (11nat, 'g', 'm', 's')) by {
        reveal_strlit("gemini-apps");
    }
    assert(mark("gemini-web"@) == (10nat, 'g', 'm', 'b')) by {
        reveal_strlit("gemini-web");
    }
    assert(mark("geminiapi"@) == (9nat, 'g', 'm', 'i')) by {
        reveal_strlit("geminiapi");
    }
    assert(mark("aistudio-spend"@) == (14nat, 'a', 's', 'd')) by {
        reveal_strlit("aistudio-spend");
    }
    assert(mark("orca"@) == (4nat, 'o', 'c', 'a')) by {
        reveal_strlit("orca");
    }
    assert(mark("orca-router"@) == (11nat, 'o', 'c', 'r')) by {
        reveal_strlit("orca-router");
    }
    assert(mark("aihub-mix"@) == (9nat, 'a', 'h', 'x')) by {
        reveal_strlit("aihub-mix");
    }
    assert(mark("ai hub mix"@) == (10nat, 'a', ' ', 'x')) by {
        reveal_strlit("ai hub mix");
    }
    assert(mark("agy"@) == (3nat, 'a', 'y', 'y')) by {
        reveal_strlit("agy");
    }
}

/// The name of a provider on the command line leads back to it, and is none of the words that
/// select several providers.
pub proof fn law_cli_names_lead_back(id: ProviderId)
    ensures
        provider_named(cli_name_of(id)) == Some(id),
        cli_name_of(id) != "all"@,
        cli_name_of(id) != "both"@,
{
    lemma_marks();
}

/// The names on the command line, letter by letter.
pub proof fn law_names_are_spelled_as_documented()
    ensures
        cli_name_of(ProviderId::Claude) == "anthropic"@ && provider_named("anthropic"@) == Some(ProviderId::Claude),
        cli_name_of(ProviderId::Codex) == "codex"@ && provider_named("codex"@) == Some(ProviderId::Codex),
        cli_name_of(ProviderId::Cursor) == "cursor"@ && provider_named("cursor"@) == Some(ProviderId::Cursor),
        cli_name_of(ProviderId::Gemini) == "gemini"@ && provider_named("gemini"@) == Some(ProviderId::Gemini),
        cli_name_of(ProviderId::GeminiApps) == "geminiapps"@ && provider_named("geminiapps"@) == Some(ProviderId::GeminiApps),
        cli_name_of(ProviderId::Copilot) == "copilot"@ && provider_named("copilot"@) == Some(ProviderId::Copilot),
        cli_name_of(ProviderId::Antigravity) == "antigravity"@ && provider_named("antigravity"@) == Some(ProviderId::Antigravity),
        cli_name_of(ProviderId::Factory) == "factory"@ && provider_named("factory"@) == Some(ProviderId::Factory),
        cli_name_of(ProviderId::Zai) == "zai"@ && provider_named("zai"@) == Some(ProviderId::Zai),
        cli_name_of(ProviderId::Kiro) == "kiro"@ && provider_named("kiro"@) == Some(ProviderId::Kiro),
        cli_name_of(ProviderId::VertexAI) == "vertexai"@ && provider_named("vertexai"@) == Some(ProviderId::VertexAI),
        cli_name_of(ProviderId::Augment) == "augment"@ && provider_named("augment"@) == Some(ProviderId::Augment),
        cli_name_of(ProviderId::MiniMax) == "minimax"@ && provider_named("minimax"@) == Some(ProviderId::MiniMax),
        cli_name_of(ProviderId::OpenCode) == "opencode"@ && provider_named("opencode"@) == Some(ProviderId::OpenCode),
        cli_name_of(ProviderId::Kimi) == "kimi"@ && provider_named("kimi"@) == Some(ProviderId::Kimi),
        cli_name_of(ProviderId::KimiK2) == "kimik2"@ && provider_named("kimik2"@) == Some(ProviderId::KimiK2),
        cli_name_of(ProviderId::Amp) == "amp"@ && provider_named("amp"@) == Some(ProviderId::Amp),
        cli_name_of(ProviderId::Warp) == "warp"@ && provider_named("warp"@) == Some(ProviderId::Warp),
        cli_name_of(ProviderId::Ollama) == "ollama"@ && provider_named("ollama"@) == Some(ProviderId::Ollama),
        cli_name_of(ProviderId::AzureOpenAI) == "azureopenai"@ && provider_named("azureopenai"@) == Some(ProviderId::AzureOpenAI),
        cli_name_of(ProviderId::T3Chat) == "t3chat"@ && provider_named("t3chat"@) == Some(ProviderId::T3Chat),
        cli_name_of(ProviderId::OpenRouter) == "openrouter"@ && provider_named("openrouter"@) == Some(ProviderId::OpenRouter),
        cli_name_of(ProviderId::JetBrains) == "jetbrains"@ && provider_named("jetbrains"@) == Some(ProviderId::JetBrains),
        cli_name_of(ProviderId::Alibaba) == "alibaba"@ && provider_named("alibaba"@) == Some(ProviderId::Alibaba),
        cli_name_of(ProviderId::AlibabaTokenPlan) == "alibabatokenplan"@ && provider_named("alibabatokenplan"@) == Some(ProviderId::AlibabaTokenPlan),
        cli_name_of(ProviderId::NanoGPT) == "nanogpt"@ && provider_named("nanogpt"@) == Some(ProviderId::NanoGPT),
        cli_name_of(ProviderId::Infini) == "infini"@ && provider_named("infini"@) == Some(ProviderId::Infini),
        cli_name_of(ProviderId::Perplexity) == "perplexity"@ && provider_named("perplexity"@) == Some(ProviderId::Perplexity),
        cli_name_of(ProviderId::Abacus) == "abacus"@ && provider_named("abacus"@) == Some(ProviderId::Abacus),
        cli_name_of(ProviderId::Mistral) == "mistral"@ && provider_named("mistral"@) == Some(ProviderId::Mistral),
        cli_name_of(ProviderId::OpenCodeGo) == "opencodego"@ && provider_named("opencodego"@) == Some(ProviderId::OpenCodeGo),
        cli_name_of(ProviderId::Kilo) == "kilo"@ && provider_named("kilo"@) == Some(ProviderId::Kilo),
        cli_name_of(ProviderId::Bedrock) == "bedrock"@ && provider_named("bedrock"@) == Some(ProviderId::Bedrock),
        cli_name_of(ProviderId::Codebuff) == "codebuff"@ && provider_named("codebuff"@) == Some(ProviderId::Codebuff),
        cli_name_of(ProviderId::DeepSeek) == "deepseek"@ && provider_named("deepseek"@) == Some(ProviderId::DeepSeek),
        cli_name_of(ProviderId::DeepInfra) == "deepinfra"@ && provider_named("deepinfra"@) == Some(ProviderId::DeepInfra),
        cli_name_of(ProviderId::AiAnd) == "aiand"@ && provider_named("aiand"@) == Some(ProviderId::AiAnd),
        cli_name_of(ProviderId::Windsurf) == "windsurf"@ && provider_named("windsurf"@) == Some(ProviderId::Windsurf),
        cli_name_of(ProviderId::Manus) == "manus"@ && provider_named("manus"@) == Some(ProviderId::Manus),
        cli_name_of(ProviderId::MiMo) == "mimo"@ && provider_named("mimo"@) == Some(ProviderId::MiMo),
        cli_name_of(ProviderId::Doubao) == "doubao"@ && provider_named("doubao"@) == Some(ProviderId::Doubao),
        cli_name_of(ProviderId::CommandCode) == "commandcode"@ && provider_named("commandcode"@) == Some(ProviderId::CommandCode),
        cli_name_of(ProviderId::Crof) == "crof"@ && provider_named("crof"@) == Some(ProviderId::Crof),
        cli_name_of(ProviderId::StepFun) == "stepfun"@ && provider_named("stepfun"@) == Some(ProviderId::StepFun),
        cli_name_of(ProviderId::Venice) == "venice"@ && provider_named("venice"@) == Some(ProviderId::Venice),
        cli_name_of(ProviderId::OpenAIApi) == "openaiapi"@ && provider_named("openaiapi"@) == Some(ProviderId::OpenAIApi),
        cli_name_of(ProviderId::Grok) == "grok"@ && provider_named("grok"@) == Some(ProviderId::Grok),
        cli_name_of(ProviderId::ElevenLabs) == "elevenlabs"@ && provider_named("elevenlabs"@) == Some(ProviderId::ElevenLabs),
        cli_name_of(ProviderId::Deepgram) == "deepgram"@ && provider_named("deepgram"@) == Some(ProviderId::Deepgram),
        cli_name_of(ProviderId::Groq) == "groq"@ && provider_named("groq"@) == Some(ProviderId::Groq),
        cli_name_of(ProviderId::LLMProxy) == "llmproxy"@ && provider_named("llmproxy"@) == Some(ProviderId::LLMProxy),
        cli_name_of(ProviderId::Chutes) == "chutes"@ && provider_named("chutes"@) == Some(ProviderId::Chutes),
        cli_name_of(ProviderId::LiteLLM) == "litellm"@ && provider_named("litellm"@) == Some(ProviderId::LiteLLM),
        cli_name_of(ProviderId::Poe) == "poe"@ && provider_named("poe"@) == Some(ProviderId::Poe),
        cli_name_of(ProviderId::Devin) == "devin"@ && provider_named("devin"@) == Some(ProviderId::Devin),
        cli_name_of(ProviderId::Zed) == "zed"@ && provider_named("zed"@) == Some(ProviderId::Zed),
        cli_name_of(ProviderId::CrossModel) == "crossmodel"@ && provider_named("crossmodel"@) == Some(ProviderId::CrossModel),
        cli_name_of(ProviderId::Qoder) == "qoder"@ && provider_named("qoder"@) == Some(ProviderId::Qoder),
        cli_name_of(ProviderId::CodeBuddy) == "codebuddy"@ && provider_named("codebuddy"@) == Some(ProviderId::CodeBuddy),
        cli_name_of(ProviderId::Sakana) == "sakana"@ && provider_named("sakana"@) == Some(ProviderId::Sakana),
        cli_name_of(ProviderId::Sub2Api) == "sub2api"@ && provider_named("sub2api"@) == Some(ProviderId::Sub2Api),
        cli_name_of(ProviderId::Wayfinder) == "wayfinder"@ && provider_named("wayfinder"@) == Some(ProviderId::Wayfinder),
        cli_name_of(ProviderId::ZenMux) == "zenmux"@ && provider_named("zenmux"@) == Some(ProviderId::ZenMux),
        cli_name_of(ProviderId::ClinePass) == "clinepass"@ && provider_named("clinepass"@) == Some(ProviderId::ClinePass),
        cli_name_of(ProviderId::LongCat) == "longcat"@ && provider_named("longcat"@) == Some(ProviderId::LongCat),
        cli_name_of(ProviderId::Neuralwatt) == "neuralwatt"@ && provider_named("neuralwatt"@) == Some(ProviderId::Neuralwatt),
        cli_name_of(ProviderId::ZoomMate) == "zoommate"@ && provider_named("zoommate"@) == Some(ProviderId::ZoomMate),
        cli_name_of(ProviderId::QwenCloud) == "qwencloud"@ && provider_named("qwencloud"@) == Some(ProviderId::QwenCloud),
        cli_name_of(ProviderId::Notion) == "notion"@ && provider_named("notion"@) == Some(ProviderId::Notion),
        cli_name_of(ProviderId::Xai) == "xai"@ && provider_named("xai"@) == Some(ProviderId::Xai),
        cli_name_of(ProviderId::Fireworks) == "fireworks"@ && provider_named("fireworks"@) == Some(ProviderId::Fireworks),
        cli_name_of(ProviderId::OrcaRouter) == "orcarouter"@ && provider_named("orcarouter"@) == Some(ProviderId::OrcaRouter),
        cli_name_of(ProviderId::GeminiApi) == "gemini-api"@ && provider_named("gemini-api"@) == Some(ProviderId::GeminiApi),
        cli_name_of(ProviderId::AiHubMix) == "aihubmix"@ && provider_named("aihubmix"@) == Some(ProviderId::AiHubMix),
        cli_name_of(ProviderId::Bai) == "bai"@ && provider_named("bai"@) == Some(ProviderId::Bai),
{
    law_cli_names_lead_back(ProviderId::Claude);
    law_cli_names_lead_back(ProviderId::Codex);
    law_cli_names_lead_back(ProviderId::Cursor);
    law_cli_names_lead_back(ProviderId::Gemini);
    law_cli_names_lead_back(ProviderId::GeminiApps);
    law_cli_names_lead_back(ProviderId::Copilot);
    law_cli_names_lead_back(ProviderId::Antigravity);
    law_cli_names_lead_back(ProviderId::Factory);
    law_cli_names_lead_back(ProviderId::Zai);
    law_cli_names_lead_back(ProviderId::Kiro);
    law_cli_names_lead_back(ProviderId::VertexAI);
    law_cli_names_lead_back(ProviderId::Augment);
    law_cli_names_lead_back(ProviderId::MiniMax);
    law_cli_names_lead_back(ProviderId::OpenCode);
    law_cli_names_lead_back(ProviderId::Kimi);
    law_cli_names_lead_back(ProviderId::KimiK2);
    law_cli_names_lead_back(ProviderId::Amp);
    law_cli_names_lead_back(ProviderId::Warp);
    law_cli_names_lead_back(ProviderId::Ollama);
    law_cli_names_lead_back(ProviderId::AzureOpenAI);
    law_cli_names_lead_back(ProviderId::T3Chat);
    law_cli_names_lead_back(ProviderId::OpenRouter);
    law_cli_names_lead_back(ProviderId::JetBrains);
    law_cli_names_lead_back(ProviderId::Alibaba);
    law_cli_names_lead_back(ProviderId::AlibabaTokenPlan);
    law_cli_names_lead_back(ProviderId::NanoGPT);
    law_cli_names_lead_back(ProviderId::Infini);
    law_cli_names_lead_back(ProviderId::Perplexity);
    law_cli_names_lead_back(ProviderId::Abacus);
    law_cli_names_lead_back(ProviderId::Mistral);
    law_cli_names_lead_back(ProviderId::OpenCodeGo);
    law_cli_names_lead_back(ProviderId::Kilo);
    law_cli_names_lead_back(ProviderId::Bedrock);
    law_cli_names_lead_back(ProviderId::Codebuff);
    law_cli_names_lead_back(ProviderId::DeepSeek);
    law_cli_names_lead_back(ProviderId::DeepInfra);
    law_cli_names_lead_back(ProviderId::AiAnd);
    law_cli_names_lead_back(ProviderId::Windsurf);
    law_cli_names_lead_back(ProviderId::Manus);
    law_cli_names_lead_back(ProviderId::MiMo);
    law_cli_names_lead_back(ProviderId::Doubao);
    law_cli_names_lead_back(ProviderId::CommandCode);
    law_cli_names_lead_back(ProviderId::Crof);
    law_cli_names_lead_back(ProviderId::StepFun);
    law_cli_names_lead_back(ProviderId::Venice);
    law_cli_names_lead_back(ProviderId::OpenAIApi);
    law_cli_names_lead_back(ProviderId::Grok);
    law_cli_names_lead_back(ProviderId::ElevenLabs);
    law_cli_names_lead_back(ProviderId::Deepgram);
    law_cli_names_lead_back(ProviderId::Groq);
    law_cli_names_lead_back(ProviderId::LLMProxy);
    law_cli_names_lead_back(ProviderId::Chutes);
    law_cli_names_lead_back(ProviderId::LiteLLM);
    law_cli_names_lead_back(ProviderId::Poe);
    law_cli_names_lead_back(ProviderId::Devin);
    law_cli_names_lead_back(ProviderId::Zed);
    law_cli_names_lead_back(ProviderId::CrossModel);
    law_cli_names_lead_back(ProviderId::Qoder);
    law_cli_names_lead_back(ProviderId::CodeBuddy);
    law_cli_names_lead_back(ProviderId::Sakana);
    law_cli_names_lead_back(ProviderId::Sub2Api);
    law_cli_names_lead_back(ProviderId::Wayfinder);
    law_cli_names_lead_back(ProviderId::ZenMux);
    law_cli_names_lead_back(ProviderId::ClinePass);
    law_cli_names_lead_back(ProviderId::LongCat);
    law_cli_names_lead_back(ProviderId::Neuralwatt);
    law_cli_names_lead_back(ProviderId::ZoomMate);
    law_cli_names_lead_back(ProviderId::QwenCloud);
    law_cli_names_lead_back(ProviderId::Notion);
    law_cli_names_lead_back(ProviderId::Xai);
    law_cli_names_lead_back(ProviderId::Fireworks);
    law_cli_names_lead_back(ProviderId::OrcaRouter);
    law_cli_names_lead_back(ProviderId::GeminiApi);
    law_cli_names_lead_back(ProviderId::AiHubMix);
    law_cli_names_lead_back(ProviderId::Bai);
}

/// The further names that some providers have.
pub proof fn law_aliases_are_spelled_as_documented()
    ensures
        provider_named("gemini-apps"@) == Some(ProviderId::GeminiApps),
        provider_named("gemini-web"@) == Some(ProviderId::GeminiApps),
        provider_named("geminiapi"@) == Some(ProviderId::GeminiApi),
        provider_named("aistudio-spend"@) == Some(ProviderId::GeminiApi),
        provider_named("orca"@) == Some(ProviderId::OrcaRouter),
        provider_named("orca-router"@) == Some(ProviderId::OrcaRouter),
        provider_named("aihub-mix"@) == Some(ProviderId::AiHubMix),
        provider_named("ai hub mix"@) == Some(ProviderId::AiHubMix),
        provider_named("agy"@) == Some(ProviderId::Antigravity),
{
    lemma_marks();
}

/// A provider goes by its own name or by one of its aliases, and by no other name.
pub proof fn law_other_names_stand_for_nothing(name: Seq<char>, id: ProviderId)
    requires
        provider_named(name) == Some(id),
    ensures
        name == cli_name_of(id) || (match id {
            ProviderId::GeminiApps => name == "gemini-apps"@ || name == "gemini-web"@,
            ProviderId::GeminiApi => name == "geminiapi"@ || name == "aistudio-spend"@,
            ProviderId::OrcaRouter => name == "orca"@ || name == "orca-router"@,
            ProviderId::AiHubMix => name == "aihub-mix"@ || name == "ai hub mix"@,
            ProviderId::Antigravity => name == "agy"@,
            _ => false,
        }),
{
}

/// No two providers share a name.
pub proof fn law_names_tell_providers_apart(a: ProviderId, b: ProviderId)
    requires
        cli_name_of(a) == cli_name_of(b),
    ensures
        a == b,
{
    law_cli_names_lead_back(a);
    law_cli_names_lead_back(b);
}

/// The sources go by these names and by no others.
pub proof fn law_sources_are_spelled_as_documented(name: Seq<char>)
    ensures
        source_mode_of("auto"@) == Some(SourceMode::Auto),
        source_mode_of("web"@) == Some(SourceMode::Web),
        source_mode_of("cli"@) == Some(SourceMode::Cli),
        source_mode_of("oauth"@) == Some(SourceMode::OAuth),
        source_mode_of(name) is Some ==> name == "auto"@ || name == "web"@ || name == "cli"@ || name == "oauth"@,
{
    reveal_strlit("auto");
    reveal_strlit("web");
    reveal_strlit("cli");
    reveal_strlit("oauth");
    assert("web"@[0] == 'w' && "cli"@[0] == 'c');
    assert("auto"@.len() == 4 && "web"@.len() == 3 && "cli"@.len() == 3 && "oauth"@.len() == 5);
}

} // verus!
