//! The one place where providers are made.
use crate::provider::{ProviderId, ProviderMetadata, SourceMode};
use crate::providers::aihubmix::AiHubMixProvider;
use crate::providers::bai::BaiProvider;
use crate::providers::geminiapi::GeminiApiProvider;
use crate::providers::geminiapps::GeminiAppsProvider;
use crate::providers::orcarouter::OrcaRouterProvider;
use vstd::prelude::*;

verus! {

/// A provider. Those whose logic lives in this library carry their description.
pub enum Provider {
    Claude,
    Codex,
    Cursor,
    Gemini,
    GeminiApps(GeminiAppsProvider),
    Copilot,
    Antigravity,
    Factory,
    Zai,
    Kiro,
    VertexAI,
    Augment,
    MiniMax,
    OpenCode,
    Kimi,
    KimiK2,
    Amp,
    Warp,
    Ollama,
    AzureOpenAI,
    T3Chat,
    OpenRouter,
    JetBrains,
    Alibaba,
    AlibabaTokenPlan,
    NanoGPT,
    Infini,
    Perplexity,
    Abacus,
    Mistral,
    OpenCodeGo,
    Kilo,
    Bedrock,
    Codebuff,
    DeepSeek,
    DeepInfra,
    AiAnd,
    Windsurf,
    Manus,
    MiMo,
    Doubao,
    CommandCode,
    Crof,
    StepFun,
    Venice,
    OpenAIApi,
    Grok,
    ElevenLabs,
    Deepgram,
    Groq,
    LLMProxy,
    Chutes,
    LiteLLM,
    Poe,
    Devin,
    Zed,
    CrossModel,
    Qoder,
    CodeBuddy,
    Sakana,
    Sub2Api,
    Wayfinder,
    ZenMux,
    ClinePass,
    LongCat,
    Neuralwatt,
    ZoomMate,
    QwenCloud,
    Notion,
    Xai,
    Fireworks,
    OrcaRouter(OrcaRouterProvider),
    GeminiApi(GeminiApiProvider),
    AiHubMix(AiHubMixProvider),
    Bai(BaiProvider),
}

/// The identity of a provider.
pub open spec fn id_of(provider: Provider) -> ProviderId {
    match provider {
        Provider::Claude => ProviderId::Claude,
        Provider::Codex => ProviderId::Codex,
        Provider::Cursor => ProviderId::Cursor,
        Provider::Gemini => ProviderId::Gemini,
        Provider::GeminiApps(_) => ProviderId::GeminiApps,
        Provider::Copilot => ProviderId::Copilot,
        Provider::Antigravity => ProviderId::Antigravity,
        Provider::Factory => ProviderId::Factory,
        Provider::Zai => ProviderId::Zai,
        Provider::Kiro => ProviderId::Kiro,
        Provider::VertexAI => ProviderId::VertexAI,
        Provider::Augment => ProviderId::Augment,
        Provider::MiniMax => ProviderId::MiniMax,
        Provider::OpenCode => ProviderId::OpenCode,
        Provider::Kimi => ProviderId::Kimi,
        Provider::KimiK2 => ProviderId::KimiK2,
        Provider::Amp => ProviderId::Amp,
        Provider::Warp => ProviderId::Warp,
        Provider::Ollama => ProviderId::Ollama,
        Provider::AzureOpenAI => ProviderId::AzureOpenAI,
        Provider::T3Chat => ProviderId::T3Chat,
        Provider::OpenRouter => ProviderId::OpenRouter,
        Provider::JetBrains => ProviderId::JetBrains,
        Provider::Alibaba => ProviderId::Alibaba,
        Provider::AlibabaTokenPlan => ProviderId::AlibabaTokenPlan,
        Provider::NanoGPT => ProviderId::NanoGPT,
        Provider::Infini => ProviderId::Infini,
        Provider::Perplexity => ProviderId::Perplexity,
        Provider::Abacus => ProviderId::Abacus,
        Provider::Mistral => ProviderId::Mistral,
        Provider::OpenCodeGo => ProviderId::OpenCodeGo,
        Provider::Kilo => ProviderId::Kilo,
        Provider::Bedrock => ProviderId::Bedrock,
        Provider::Codebuff => ProviderId::Codebuff,
        Provider::DeepSeek => ProviderId::DeepSeek,
        Provider::DeepInfra => ProviderId::DeepInfra,
        Provider::AiAnd => ProviderId::AiAnd,
        Provider::Windsurf => ProviderId::Windsurf,
        Provider::Manus => ProviderId::Manus,
        Provider::MiMo => ProviderId::MiMo,
        Provider::Doubao => ProviderId::Doubao,
        Provider::CommandCode => ProviderId::CommandCode,
        Provider::Crof => ProviderId::Crof,
        Provider::StepFun => ProviderId::StepFun,
        Provider::Venice => ProviderId::Venice,
        Provider::OpenAIApi => ProviderId::OpenAIApi,
        Provider::Grok => ProviderId::Grok,
        Provider::ElevenLabs => ProviderId::ElevenLabs,
        Provider::Deepgram => ProviderId::Deepgram,
        Provider::Groq => ProviderId::Groq,
        Provider::LLMProxy => ProviderId::LLMProxy,
        Provider::Chutes => ProviderId::Chutes,
        Provider::LiteLLM => ProviderId::LiteLLM,
        Provider::Poe => ProviderId::Poe,
        Provider::Devin => ProviderId::Devin,
        Provider::Zed => ProviderId::Zed,
        Provider::CrossModel => ProviderId::CrossModel,
        Provider::Qoder => ProviderId::Qoder,
        Provider::CodeBuddy => ProviderId::CodeBuddy,
        Provider::Sakana => ProviderId::Sakana,
        Provider::Sub2Api => ProviderId::Sub2Api,
        Provider::Wayfinder => ProviderId::Wayfinder,
        Provider::ZenMux => ProviderId::ZenMux,
        Provider::ClinePass => ProviderId::ClinePass,
        Provider::LongCat => ProviderId::LongCat,
        Provider::Neuralwatt => ProviderId::Neuralwatt,
        Provider::ZoomMate => ProviderId::ZoomMate,
        Provider::QwenCloud => ProviderId::QwenCloud,
        Provider::Notion => ProviderId::Notion,
        Provider::Xai => ProviderId::Xai,
        Provider::Fireworks => ProviderId::Fireworks,
        Provider::OrcaRouter(_) => ProviderId::OrcaRouter,
        Provider::GeminiApi(_) => ProviderId::GeminiApi,
        Provider::AiHubMix(_) => ProviderId::AiHubMix,
        Provider::Bai(_) => ProviderId::Bai,
    }
}

/// The description that a provider carries.
pub open spec fn metadata_of(provider: Provider) -> Option<ProviderMetadata> {
    match provider {
        Provider::GeminiApps(p) => Some(p.metadata),
        Provider::OrcaRouter(p) => Some(p.metadata),
        Provider::GeminiApi(p) => Some(p.metadata),
        Provider::AiHubMix(p) => Some(p.metadata),
        Provider::Bai(p) => Some(p.metadata),
        _ => None,
    }
}

impl Provider {
    pub fn id(&self) -> (r: ProviderId)
        ensures
            r == id_of(*self),
    {
        match self {
            Provider::Claude => ProviderId::Claude,
            Provider::Codex => ProviderId::Codex,
            Provider::Cursor => ProviderId::Cursor,
            Provider::Gemini => ProviderId::Gemini,
            Provider::GeminiApps(_) => ProviderId::GeminiApps,
            Provider::Copilot => ProviderId::Copilot,
            Provider::Antigravity => ProviderId::Antigravity,
            Provider::Factory => ProviderId::Factory,
            Provider::Zai => ProviderId::Zai,
            Provider::Kiro => ProviderId::Kiro,
            Provider::VertexAI => ProviderId::VertexAI,
            Provider::Augment => ProviderId::Augment,
            Provider::MiniMax => ProviderId::MiniMax,
            Provider::OpenCode => ProviderId::OpenCode,
            Provider::Kimi => ProviderId::Kimi,
            Provider::KimiK2 => ProviderId::KimiK2,
            Provider::Amp => ProviderId::Amp,
            Provider::Warp => ProviderId::Warp,
            Provider::Ollama => ProviderId::Ollama,
            Provider::AzureOpenAI => ProviderId::AzureOpenAI,
            Provider::T3Chat => ProviderId::T3Chat,
            Provider::OpenRouter => ProviderId::OpenRouter,
            Provider::JetBrains => ProviderId::JetBrains,
            Provider::Alibaba => ProviderId::Alibaba,
            Provider::AlibabaTokenPlan => ProviderId::AlibabaTokenPlan,
            Provider::NanoGPT => ProviderId::NanoGPT,
            Provider::Infini => ProviderId::Infini,
            Provider::Perplexity => ProviderId::Perplexity,
            Provider::Abacus => ProviderId::Abacus,
            Provider::Mistral => ProviderId::Mistral,
            Provider::OpenCodeGo => ProviderId::OpenCodeGo,
            Provider::Kilo => ProviderId::Kilo,
            Provider::Bedrock => ProviderId::Bedrock,
            Provider::Codebuff => ProviderId::Codebuff,
            Provider::DeepSeek => ProviderId::DeepSeek,
            Provider::DeepInfra => ProviderId::DeepInfra,
            Provider::AiAnd => ProviderId::AiAnd,
            Provider::Windsurf => ProviderId::Windsurf,
            Provider::Manus => ProviderId::Manus,
            Provider::MiMo => ProviderId::MiMo,
            Provider::Doubao => ProviderId::Doubao,
            Provider::CommandCode => ProviderId::CommandCode,
            Provider::Crof => ProviderId::Crof,
            Provider::StepFun => ProviderId::StepFun,
            Provider::Venice => ProviderId::Venice,
            Provider::OpenAIApi => ProviderId::OpenAIApi,
            Provider::Grok => ProviderId::Grok,
            Provider::ElevenLabs => ProviderId::ElevenLabs,
            Provider::Deepgram => ProviderId::Deepgram,
            Provider::Groq => ProviderId::Groq,
            Provider::LLMProxy => ProviderId::LLMProxy,
            Provider::Chutes => ProviderId::Chutes,
            Provider::LiteLLM => ProviderId::LiteLLM,
            Provider::Poe => ProviderId::Poe,
            Provider::Devin => ProviderId::Devin,
            Provider::Zed => ProviderId::Zed,
            Provider::CrossModel => ProviderId::CrossModel,
            Provider::Qoder => ProviderId::Qoder,
            Provider::CodeBuddy => ProviderId::CodeBuddy,
            Provider::Sakana => ProviderId::Sakana,
            Provider::Sub2Api => ProviderId::Sub2Api,
            Provider::Wayfinder => ProviderId::Wayfinder,
            Provider::ZenMux => ProviderId::ZenMux,
            Provider::ClinePass => ProviderId::ClinePass,
            Provider::LongCat => ProviderId::LongCat,
            Provider::Neuralwatt => ProviderId::Neuralwatt,
            Provider::ZoomMate => ProviderId::ZoomMate,
            Provider::QwenCloud => ProviderId::QwenCloud,
            Provider::Notion => ProviderId::Notion,
            Provider::Xai => ProviderId::Xai,
            Provider::Fireworks => ProviderId::Fireworks,
            Provider::OrcaRouter(_) => ProviderId::OrcaRouter,
            Provider::GeminiApi(_) => ProviderId::GeminiApi,
            Provider::AiHubMix(_) => ProviderId::AiHubMix,
            Provider::Bai(_) => ProviderId::Bai,
        }
    }

    pub fn metadata(&self) -> (r: Option<&ProviderMetadata>)
        ensures
            match r {
                Some(m) => metadata_of(*self) == Some(*m),
                None => metadata_of(*self) is None,
            },
    {
        match self {
            Provider::GeminiApps(p) => Some(&p.metadata),
            Provider::OrcaRouter(p) => Some(&p.metadata),
            Provider::GeminiApi(p) => Some(&p.metadata),
            Provider::AiHubMix(p) => Some(&p.metadata),
            Provider::Bai(p) => Some(&p.metadata),
            _ => None,
        }
    }
}

/// A provider that carries a description carries its own.
pub open spec fn presents_itself(provider: Provider) -> bool {
    match provider {
        Provider::GeminiApps(p) => crate::providers::geminiapps::is_described(p.metadata),
        Provider::OrcaRouter(p) => crate::providers::orcarouter::is_described(p.metadata),
        Provider::GeminiApi(p) => crate::providers::geminiapi::is_described(p.metadata),
        Provider::AiHubMix(p) => crate::providers::aihubmix::is_described(p.metadata),
        Provider::Bai(p) => crate::providers::bai::is_described(p.metadata),
        _ => true,
    }
}

/// The provider with an identity. Every identity has one.
pub fn instantiate(id: ProviderId) -> (r: Provider)
    ensures
        id_of(r) == id,
        presents_itself(r),
{
    match id {
        ProviderId::Claude => Provider::Claude,
        ProviderId::Codex => Provider::Codex,
        ProviderId::Cursor => Provider::Cursor,
        ProviderId::Gemini => Provider::Gemini,
        ProviderId::GeminiApps => Provider::GeminiApps(GeminiAppsProvider::new()),
        ProviderId::Copilot => Provider::Copilot,
        ProviderId::Antigravity => Provider::Antigravity,
        ProviderId::Factory => Provider::Factory,
        ProviderId::Zai => Provider::Zai,
        ProviderId::Kiro => Provider::Kiro,
        ProviderId::VertexAI => Provider::VertexAI,
        ProviderId::Augment => Provider::Augment,
        ProviderId::MiniMax => Provider::MiniMax,
        ProviderId::OpenCode => Provider::OpenCode,
        ProviderId::Kimi => Provider::Kimi,
        ProviderId::KimiK2 => Provider::KimiK2,
        ProviderId::Amp => Provider::Amp,
        ProviderId::Warp => Provider::Warp,
        ProviderId::Ollama => Provider::Ollama,
        ProviderId::AzureOpenAI => Provider::AzureOpenAI,
        ProviderId::T3Chat => Provider::T3Chat,
        ProviderId::OpenRouter => Provider::OpenRouter,
        ProviderId::JetBrains => Provider::JetBrains,
        ProviderId::Alibaba => Provider::Alibaba,
        ProviderId::AlibabaTokenPlan => Provider::AlibabaTokenPlan,
        ProviderId::NanoGPT => Provider::NanoGPT,
        ProviderId::Infini => Provider::Infini,
        ProviderId::Perplexity => Provider::Perplexity,
        ProviderId::Abacus => Provider::Abacus,
        ProviderId::Mistral => Provider::Mistral,
        ProviderId::OpenCodeGo => Provider::OpenCodeGo,
        ProviderId::Kilo => Provider::Kilo,
        ProviderId::Bedrock => Provider::Bedrock,
        ProviderId::Codebuff => Provider::Codebuff,
        ProviderId::DeepSeek => Provider::DeepSeek,
        ProviderId::DeepInfra => Provider::DeepInfra,
        ProviderId::AiAnd => Provider::AiAnd,
        ProviderId::Windsurf => Provider::Windsurf,
        ProviderId::Manus => Provider::Manus,
        ProviderId::MiMo => Provider::MiMo,
        ProviderId::Doubao => Provider::Doubao,
        ProviderId::CommandCode => Provider::CommandCode,
        ProviderId::Crof => Provider::Crof,
        ProviderId::StepFun => Provider::StepFun,
        ProviderId::Venice => Provider::Venice,
        ProviderId::OpenAIApi => Provider::OpenAIApi,
        ProviderId::Grok => Provider::Grok,
        ProviderId::ElevenLabs => Provider::ElevenLabs,
        ProviderId::Deepgram => Provider::Deepgram,
        ProviderId::Groq => Provider::Groq,
        ProviderId::LLMProxy => Provider::LLMProxy,
        ProviderId::Chutes => Provider::Chutes,
        ProviderId::LiteLLM => Provider::LiteLLM,
        ProviderId::Poe => Provider::Poe,
        ProviderId::Devin => Provider::Devin,
        ProviderId::Zed => Provider::Zed,
        ProviderId::CrossModel => Provider::CrossModel,
        ProviderId::Qoder => Provider::Qoder,
        ProviderId::CodeBuddy => Provider::CodeBuddy,
        ProviderId::Sakana => Provider::Sakana,
        ProviderId::Sub2Api => Provider::Sub2Api,
        ProviderId::Wayfinder => Provider::Wayfinder,
        ProviderId::ZenMux => Provider::ZenMux,
        ProviderId::ClinePass => Provider::ClinePass,
        ProviderId::LongCat => Provider::LongCat,
        ProviderId::Neuralwatt => Provider::Neuralwatt,
        ProviderId::ZoomMate => Provider::ZoomMate,
        ProviderId::QwenCloud => Provider::QwenCloud,
        ProviderId::Notion => Provider::Notion,
        ProviderId::Xai => Provider::Xai,
        ProviderId::Fireworks => Provider::Fireworks,
        ProviderId::OrcaRouter => Provider::OrcaRouter(OrcaRouterProvider::new()),
        ProviderId::GeminiApi => Provider::GeminiApi(GeminiApiProvider::new()),
        ProviderId::AiHubMix => Provider::AiHubMix(AiHubMixProvider::new()),
        ProviderId::Bai => Provider::Bai(BaiProvider::new()),
    }
}

/// How the described providers present themselves.
pub proof fn law_providers_present_themselves(provider: Provider)
    requires
        presents_itself(provider),
        metadata_of(provider) is Some,
    ensures
        ({
            let m = metadata_of(provider)->0;
            &&& m.id == id_of(provider) && !m.default_enabled && !m.is_primary && !m.supports_opus
            &&& m.dashboard_url is Some
            &&& m.id == ProviderId::GeminiApps ==> m.display_name@ == "Gemini Apps"@ && m.session_label@
                == "Current usage"@ && m.weekly_label@ == "Weekly limit"@ && !m.supports_credits && m.dashboard_url->0@
                == "https://gemini.google.com/usage"@ && m.status_page_url is None
            &&& m.id == ProviderId::GeminiApi ==> m.display_name@ == "Gemini API"@ && m.session_label@ == "Spend"@
                && m.weekly_label@ == "Spend"@ && m.supports_credits && m.dashboard_url->0@
                == "https://aistudio.google.com/spend"@ && m.status_page_url is Some && m.status_page_url->0@
                == "https://status.cloud.google.com"@
            &&& m.id == ProviderId::AiHubMix ==> m.display_name@ == "AIHubMix"@ && m.session_label@
                == "Credit balance"@ && m.weekly_label@ == "Account"@ && m.supports_credits && m.dashboard_url->0@
                == "https://console.aihubmix.com/topup"@ && m.status_page_url is None
            &&& m.id == ProviderId::Bai ==> m.display_name@ == "b.ai"@ && m.session_label@ == "Purchased credits"@
                && m.weekly_label@ == "Funded credits"@ && m.supports_credits && m.dashboard_url->0@
                == "https://chat.b.ai/usage"@ && m.status_page_url is None
            &&& m.id == ProviderId::OrcaRouter ==> m.display_name@ == "OrcaRouter"@ && m.session_label@
                == "Workspace usage"@ && m.weekly_label@ == "Spend limit"@ && m.supports_credits
                && m.dashboard_url->0@ == "https://www.orcarouter.ai/console"@ && m.status_page_url is None
        }),
{
}

/// The identity of a provider tells it apart from all others.
pub proof fn law_identities_tell_providers_apart(a: Provider, b: Provider)
    requires
        id_of(a) == id_of(b),
    ensures
        metadata_of(a) is Some <==> metadata_of(b) is Some,
        metadata_of(a) is None ==> a == b,
{
}

/// Each described provider answers to the identity that it presents itself with. All of them
/// choose a source by themselves and read the web; only OrcaRouter takes a key as well.
pub proof fn law_providers_know_their_identity_and_sources(m: ProviderMetadata, mode: SourceMode)
    ensures
        crate::providers::geminiapps::is_described(m) ==> m.id == crate::providers::geminiapps::own_id(),
        crate::providers::geminiapi::is_described(m) ==> m.id == crate::providers::geminiapi::own_id(),
        crate::providers::aihubmix::is_described(m) ==> m.id == crate::providers::aihubmix::own_id(),
        crate::providers::bai::is_described(m) ==> m.id == crate::providers::bai::own_id(),
        crate::providers::orcarouter::is_described(m) ==> m.id == crate::providers::orcarouter::own_id(),
        crate::providers::geminiapps::own_id() == ProviderId::GeminiApps,
        crate::providers::geminiapi::own_id() == ProviderId::GeminiApi,
        crate::providers::aihubmix::own_id() == ProviderId::AiHubMix,
        crate::providers::bai::own_id() == ProviderId::Bai,
        crate::providers::orcarouter::own_id() == ProviderId::OrcaRouter,
        crate::providers::geminiapps::own_sources().contains(mode) <==> mode == SourceMode::Auto || mode == SourceMode::Web,
        crate::providers::geminiapi::own_sources().contains(mode) <==> mode == SourceMode::Auto || mode == SourceMode::Web,
        crate::providers::aihubmix::own_sources().contains(mode) <==> mode == SourceMode::Auto || mode == SourceMode::Web,
        crate::providers::bai::own_sources().contains(mode) <==> mode == SourceMode::Auto || mode == SourceMode::Web,
        crate::providers::orcarouter::own_sources().contains(mode) <==> mode == SourceMode::Auto || mode == SourceMode::Web || mode == SourceMode::OAuth,
        crate::providers::geminiapps::own_sources()[0] == SourceMode::Auto,
        crate::providers::geminiapi::own_sources()[0] == SourceMode::Auto,
        crate::providers::aihubmix::own_sources()[0] == SourceMode::Auto,
        crate::providers::bai::own_sources()[0] == SourceMode::Auto,
        crate::providers::orcarouter::own_sources()[0] == SourceMode::Auto,
{
    let s = crate::providers::geminiapps::own_sources();
    assert(s[0] == SourceMode::Auto);
    assert(s[1] == SourceMode::Web);
    assert(s.contains(s[0]) && s.contains(s[1]));
    let s = crate::providers::geminiapi::own_sources();
    assert(s[0] == SourceMode::Auto);
    assert(s[1] == SourceMode::Web);
    assert(s.contains(s[0]) && s.contains(s[1]));
    let s = crate::providers::aihubmix::own_sources();
    assert(s[0] == SourceMode::Auto);
    assert(s[1] == SourceMode::Web);
    assert(s.contains(s[0]) && s.contains(s[1]));
    let s = crate::providers::bai::own_sources();
    assert(s[0] == SourceMode::Auto);
    assert(s[1] == SourceMode::Web);
    assert(s.contains(s[0]) && s.contains(s[1]));
    let s = crate::providers::orcarouter::own_sources();
    assert(s[0] == SourceMode::Auto);
    assert(s[1] == SourceMode::OAuth && s[2] == SourceMode::Web);
    assert(s.contains(s[0]) && s.contains(s[1]) && s.contains(s[2]));
}

} // verus!
