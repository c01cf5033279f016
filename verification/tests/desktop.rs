use codexbar::desktop::{
    check_open_path, is_current_provider_refresh_generation, is_provider_cache_fresh, region_options_for,
    validate_external_url,
};

#[test]
fn external_url_validation_allows_only_http_urls() {
    assert_eq!(
        validate_external_url(" https://github.com/Finesssee/Win-CodexBar ").unwrap(),
        "https://github.com/Finesssee/Win-CodexBar"
    );
    assert_eq!(validate_external_url("http://codexbar.app").unwrap(), "http://codexbar.app");

    for invalid in ["", "file:///etc/passwd", "javascript:alert(1)", "https://bad\nhost"] {
        assert!(validate_external_url(invalid).is_err(), "accepted invalid URL: {invalid:?}");
    }
}

#[test]
fn external_url_validator_accepts_http_and_https() {
    assert_eq!(
        validate_external_url(" https://github.com/Finesssee/Win-CodexBar "),
        Ok("https://github.com/Finesssee/Win-CodexBar".to_string())
    );
    assert_eq!(validate_external_url("http://localhost:1420"), Ok("http://localhost:1420".to_string()));
}

#[test]
fn external_url_validator_rejects_non_web_and_control_urls() {
    assert!(validate_external_url("file:///C:/Windows/win.ini").is_err());
    assert!(validate_external_url("javascript:alert(1)").is_err());
    assert!(validate_external_url("https://example.com/\nmalicious").is_err());
}

#[test]
fn provider_cache_is_fresh_inside_stale_window() {
    assert!(is_provider_cache_fresh(Some(0), 30_000));
}

#[test]
fn provider_cache_is_stale_when_missing_timestamp() {
    assert!(!is_provider_cache_fresh(None, 30_000));
}

#[test]
fn provider_cache_is_stale_after_window() {
    assert!(!is_provider_cache_fresh(Some(31_000), 30_000));
}

#[test]
fn superseded_refresh_generation_is_not_current() {
    assert!(is_current_provider_refresh_generation(3, 3));
    assert!(!is_current_provider_refresh_generation(3, 2));
}

#[test]
fn region_options_for_regional_provider() {
    let opts = region_options_for("alibaba");
    let values: Vec<_> = opts.iter().map(|o| o.value).collect();
    assert_eq!(values, vec!["singapore", "us", "germany", "hongkong", "cn"]);
}

#[test]
fn alibaba_token_plan_region_options() {
    let opts = region_options_for("alibabatokenplan");
    let values: Vec<_> = opts.iter().map(|o| o.value).collect();
    let labels: Vec<_> = opts.iter().map(|o| o.label).collect();
    assert_eq!(values, vec!["cn", "intl", "cn-personal", "intl-personal"]);
    assert_eq!(
        labels,
        vec!["China Team", "International Team", "China Personal/Solo", "International Personal/Solo"]
    );
}

#[test]
fn minimax_region_options_match_upstream_hosts() {
    let opts = region_options_for("minimax");
    let values: Vec<_> = opts.iter().map(|o| o.value).collect();
    let labels: Vec<_> = opts.iter().map(|o| o.label).collect();
    assert_eq!(values, vec!["global", "cn"]);
    assert_eq!(
        labels,
        vec!["Global (platform.minimax.io)", "China mainland (platform.minimaxi.com)"]
    );
}

// One provider goes by its vendor's name; see `provider::cli_name_of`.
#[test]
fn region_options_empty_for_non_regional_provider() {
    assert!(region_options_for("anthropic").is_empty());
    assert!(region_options_for("codex").is_empty());
}

#[test]
fn open_path_rejects_empty_path() {
    let err = check_open_path("", false).unwrap_err();
    assert!(err.to_lowercase().contains("empty"));
}

#[test]
fn open_path_rejects_relative_path() {
    let err = check_open_path("relative/path", false).unwrap_err();
    assert!(err.contains("absolute"));
    assert!(check_open_path("/absolute/path", true).is_ok());
}
