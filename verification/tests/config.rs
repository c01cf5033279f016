use codexbar::cli::config::{
    build_dump_value, dump_format, enabled_message, ensure_provider_accepts_api_key, is_secret_field_name,
    parse_provider, path_line, provider_line, redact_secrets_value, resolve_api_key_input, resolve_secret_input,
    sanitize_settings_for_dump, stored_cookie_message, stored_key_message, DumpFormat, FileFinding, ValidationReport,
};
use codexbar::json::{parse_text, Json};
use codexbar::provider::ProviderId;

/// The value as text, in the order of its entries.
fn written(json: &Json) -> String {
    match json {
        Json::Null => "null".to_string(),
        Json::Bool(b) => b.to_string(),
        Json::Number(n) => n.text.clone().unwrap_or_default(),
        Json::Text(s) => format!("{s:?}"),
        Json::Array(v) => format!("[{}]", v.iter().map(written).collect::<Vec<_>>().join(",")),
        Json::Object(v) => format!(
            "{{{}}}",
            v.iter().map(|(k, v)| format!("{k:?}:{}", written(v))).collect::<Vec<_>>().join(",")
        ),
    }
}

// One provider is keyed by its vendor's name; see `provider::cli_name_of`.
const RAW: &str = r#"{
    "http_proxy_password": "proxy-secret",
    "provider_configs": {
        "anthropic": {
            "manual_cookie_header": "sessionKey=abc",
            "api_token": "tok-123",
            "management_api_token": "management-secret"
        }
    },
    "api_keys": {
        "keys": {"zai": {"api_key": "cb_test_api_key_456", "label": "Work", "saved_at": "2026-01-01"}}
    },
    "manual_cookies": {
        "cookies": {"anthropic": {"cookie_header": "sessionKey=secret-cookie", "saved_at": "2026-01-01"}}
    },
    "token_accounts": {
        "factory": {
            "accounts": [{
                "id": "11111111-1111-1111-1111-111111111111",
                "label": "Team",
                "token": "raw-token-value",
                "added_at": 1
            }]
        }
    },
    "secret_key": "top-secret"
}"#;

#[test]
fn sanitize_settings_for_dump_redacts_secret_fields() {
    let raw = parse_text(RAW).unwrap();
    let redacted = sanitize_settings_for_dump(raw, false);
    let text = written(&redacted);

    assert!(text.contains("[REDACTED]"));
    assert!(!text.contains("proxy-secret"));
    assert!(!text.contains("sessionKey=abc"));
    assert!(!text.contains("tok-123"));
    assert!(!text.contains("management-secret"));
    assert!(!text.contains("cb_test_api_key_456"));
    assert!(!text.contains("secret-cookie"));
    assert!(!text.contains("raw-token-value"));
    assert!(!text.contains("top-secret"));
    assert!(text.contains("Work"));
    assert!(text.contains("Team"));
    assert!(text.contains("11111111-1111-1111-1111-111111111111"));
}

#[test]
fn sanitize_settings_for_dump_show_secrets_keeps_raw() {
    let text = r#"{"api_key": "keep-me", "nested": {"token": "also-keep", "label": "Team"}}"#;
    let raw = parse_text(text).unwrap();
    let expected = written(&raw);
    let out = sanitize_settings_for_dump(raw, true);
    assert_eq!(written(&out), expected);
    assert_eq!(out.get("api_key").and_then(Json::as_str), Some("keep-me"));
    assert_eq!(out.get("nested").and_then(|n| n.get("token")).and_then(Json::as_str), Some("also-keep"));
}

#[test]
fn redacting_twice_is_redacting_once() {
    let raw = parse_text(RAW).unwrap();
    let once = redact_secrets_value(&raw);
    let twice = redact_secrets_value(&once);
    assert_eq!(written(&once), written(&twice));
    assert!(once.get("token_accounts").is_some());
}

#[test]
fn secret_names_ignore_case_and_underscores() {
    for name in [
        "api_key", "apiKey", "API_KEY", "secretKey", "cookie_header", "Manual_Cookie_Header", "token", "apiToken",
        "management_api_token", "http_proxy_password", "PASSWORD", "_t_o_k_e_n_",
    ] {
        assert!(is_secret_field_name(name), "{name}");
    }
    for name in ["", "tokens", "label", "keys", "api-key", "access_token"] {
        assert!(!is_secret_field_name(name), "{name}");
    }
}

#[test]
fn a_dump_holds_the_secret_files() {
    let value = |s: &str| parse_text(s).unwrap();
    let dump = build_dump_value(value(r#"{"a":1,"api_keys":0}"#), value("1"), value("2"), value("3"));
    assert_eq!(dump.get("a").and_then(Json::as_i64), Some(1));
    assert_eq!(dump.get("api_keys").and_then(Json::as_i64), Some(1));
    assert_eq!(dump.get("manual_cookies").and_then(Json::as_i64), Some(2));
    assert_eq!(dump.get("token_accounts").and_then(Json::as_i64), Some(3));
    assert_eq!(written(&build_dump_value(value("7"), value("1"), value("2"), value("3"))), "7");
}

#[test]
fn dump_formats_are_named() {
    assert_eq!(dump_format("JSON"), Ok(DumpFormat::Json));
    assert_eq!(dump_format("Toml"), Ok(DumpFormat::Toml));
    assert_eq!(
        dump_format("yaml"),
        Err("Unknown format 'yaml'. Supported formats: json, toml".to_string())
    );
}

#[test]
fn reports_end_in_a_summary() {
    let mut report = ValidationReport::new();
    assert_eq!(report.finish(), (vec![String::new(), "Configuration is valid.".to_string()], None));
    assert_eq!(report.note_settings(&FileFinding::Missing), "NOT FOUND (using defaults)");
    let (lines, error) = report.finish();
    assert_eq!(lines, vec!["", "Warnings:", "  - settings.json: File does not exist, using defaults"]);
    assert_eq!(error, None);
    assert_eq!(report.note_file("a.json", &FileFinding::Valid, "-"), "OK");
    assert_eq!(report.note_file("a.json", &FileFinding::Unreadable("denied".to_string()), "-"), "ERROR");
    assert_eq!(report.note_file("b.json", &FileFinding::Malformed("bad".to_string()), "-"), "INVALID");
    assert_eq!(report.note_file("c.json", &FileFinding::Missing, "NOT FOUND"), "NOT FOUND");
    let (lines, error) = report.finish();
    assert_eq!(
        lines,
        vec![
            "",
            "Warnings:",
            "  - settings.json: File does not exist, using defaults",
            "Errors:",
            "  - a.json: Could not read file: denied",
            "  - b.json: bad"
        ]
    );
    assert_eq!(error, Some("Configuration validation failed with 2 error(s).".to_string()));
}

#[test]
fn secrets_come_from_one_place() {
    let s = |x: &str| Some(x.to_string());
    assert_eq!(
        resolve_secret_input(s("a"), s("b"), "cookie"),
        Err("Use either the inline cookie option or --stdin, not both.".to_string())
    );
    assert_eq!(resolve_secret_input(s("  key \n"), None, "cookie"), Ok("key".to_string()));
    assert_eq!(resolve_secret_input(None, s("\" key \"\n"), "cookie"), Ok("key".to_string()));
    assert_eq!(resolve_secret_input(None, s("'key'"), "cookie"), Ok("key".to_string()));
    assert_eq!(resolve_secret_input(None, s("'key\""), "cookie"), Ok("'key\"".to_string()));
    for raw in [None, s(""), s("  "), s("\""), s("\"\""), s("' '")] {
        assert_eq!(
            resolve_api_key_input(raw, None),
            Err("Missing API key. Pass it inline or use --stdin.".to_string())
        );
    }
}

#[test]
fn providers_are_named_and_listed() {
    assert_eq!(parse_provider("openrouter"), Ok(ProviderId::OpenRouter));
    assert_eq!(
        parse_provider("nope"),
        Err("Unknown provider 'nope'. Run `codexbar config providers` to list providers.".to_string())
    );
    let accepting = vec![ProviderId::OpenRouter, ProviderId::OrcaRouter];
    assert!(ensure_provider_accepts_api_key(ProviderId::OrcaRouter, &accepting, "OrcaRouter").is_ok());
    assert_eq!(
        ensure_provider_accepts_api_key(ProviderId::Codex, &accepting, "Codex"),
        Err("Codex does not support stored API keys.".to_string())
    );
    assert_eq!(provider_line(ProviderId::Codex, true, true, "Codex"), "codex: enabled default (Codex)");
    assert_eq!(provider_line(ProviderId::Bai, false, false, "b.ai"), "bai: disabled (b.ai)");
}

#[test]
fn changes_are_confirmed() {
    assert_eq!(enabled_message("Cursor", true), "Config: enabled Cursor");
    assert_eq!(enabled_message("Cursor", false), "Config: disabled Cursor");
    assert_eq!(stored_key_message("OpenRouter", true), "Config: stored API key for OpenRouter and enabled");
    assert_eq!(stored_key_message("OpenRouter", false), "Config: stored API key for OpenRouter");
    assert_eq!(stored_cookie_message("OrcaRouter"), "Config: stored browser cookie for OrcaRouter");
    assert_eq!(path_line("  Settings:       ", Some("/x".to_string()), true), "  Settings:       /x");
    assert_eq!(path_line("  Settings:       ", Some("/x".to_string()), false), "  Settings:       /x (not found)");
    assert_eq!(path_line("  Settings:       ", None, false), "  Settings:       (could not determine path)");
}
