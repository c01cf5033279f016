use codexbar::provider::ProviderId;
use codexbar::provider_factory::instantiate;

#[test]
fn every_provider_id_is_instantiable() {
    for id in ProviderId::all() {
        let provider = instantiate(id);
        assert_eq!(provider.id(), id, "factory returned wrong provider for {id:?}");
        if let Some(metadata) = provider.metadata() {
            assert_eq!(metadata.id, id);
        }
    }
}

#[test]
fn names_lead_back_to_providers() {
    let all = ProviderId::all();
    for (i, id) in all.iter().enumerate() {
        assert_eq!(ProviderId::from_cli_name(id.cli_name()), Some(*id));
        assert!(!all[..i].contains(id));
    }
    for (alias, id) in [
        ("gemini-apps", ProviderId::GeminiApps),
        ("gemini-web", ProviderId::GeminiApps),
        ("geminiapi", ProviderId::GeminiApi),
        ("aistudio-spend", ProviderId::GeminiApi),
        ("orca", ProviderId::OrcaRouter),
        ("orca-router", ProviderId::OrcaRouter),
        ("aihub-mix", ProviderId::AiHubMix),
        ("ai hub mix", ProviderId::AiHubMix),
        ("agy", ProviderId::Antigravity),
    ] {
        assert_eq!(ProviderId::from_cli_name(alias), Some(id));
    }
    assert_eq!(ProviderId::from_cli_name("not-a-provider"), None);
}

#[test]
fn cli_aliases_resolve_to_orcarouter() {
    assert_eq!(ProviderId::from_cli_name("orcarouter"), Some(ProviderId::OrcaRouter));
}
