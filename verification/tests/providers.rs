//! Models and their providers.
use steve::providers::{build_missing_provider_messages, ProviderInitWarning};

fn warn(provider: &str, env_var: &str) -> ProviderInitWarning {
    ProviderInitWarning { provider_id: provider.to_string(), env_var: env_var.to_string() }
}

#[test]
fn no_missing_providers_returns_empty() {
    let out = build_missing_provider_messages(false, Some("fireworks/foo"), &Vec::new());
    assert!(out.is_empty());
}

#[test]
fn all_providers_disabled_produces_single_loud_message() {
    let missing = vec![
        warn("fireworks", "FIREWORKS_API_KEY"),
        warn("anthropic", "ANTHROPIC_API_KEY"),
    ];
    // registry_empty=true — nothing works at all.
    let out = build_missing_provider_messages(true, Some("fireworks/foo"), &missing);

    assert_eq!(out.len(), 1, "single consolidated message expected");
    let msg = &out[0];
    assert!(
        msg.contains("STEVE CANNOT SEND MESSAGES"),
        "headline must be impossible to miss: {msg}",
    );
    assert!(msg.contains("no working providers"));
    assert!(msg.contains("$FIREWORKS_API_KEY"));
    assert!(msg.contains("$ANTHROPIC_API_KEY"));
    assert!(msg.contains("restart steve"));
}

#[test]
fn default_providers_provider_disabled_produces_loud_message_even_if_others_work() {
    // Only fireworks is broken, but it's the default — loud message still.
    let missing = vec![warn("fireworks", "FIREWORKS_API_KEY")];
    let out = build_missing_provider_messages(false, Some("fireworks/qwen3-coder"), &missing);

    assert_eq!(out.len(), 1);
    let msg = &out[0];
    assert!(msg.contains("STEVE CANNOT SEND MESSAGES"));
    assert!(msg.contains("default model's provider is disabled"));
    assert!(
        msg.contains("fireworks/qwen3-coder"),
        "must name the default model so user knows what's broken: {msg}",
    );
    assert!(msg.contains("$FIREWORKS_API_KEY"));
}

#[test]
fn non_default_providers_disabled_produces_terse_per_line_messages() {
    // Default is `fireworks/X` (working); `anthropic` is broken.
    let missing = vec![warn("anthropic", "ANTHROPIC_API_KEY")];
    let out = build_missing_provider_messages(false, Some("fireworks/qwen3-coder"), &missing);

    assert_eq!(out.len(), 1);
    let msg = &out[0];
    assert!(
        !msg.contains("STEVE CANNOT SEND MESSAGES"),
        "non-default failure should NOT use the loud headline: {msg}",
    );
    assert!(msg.contains("Provider 'anthropic' disabled"));
    assert!(msg.contains("$ANTHROPIC_API_KEY"));
}

#[test]
fn multiple_non_default_disabled_produces_one_terse_line_per_provider() {
    // fireworks is default + working; two others broken.
    let missing = vec![
        warn("anthropic", "ANTHROPIC_API_KEY"),
        warn("openai", "OPENAI_API_KEY"),
    ];
    let out = build_missing_provider_messages(false, Some("fireworks/qwen3-coder"), &missing);

    assert_eq!(out.len(), 2, "one terse line per disabled provider");
    assert!(out.iter().any(|m| m.contains("anthropic")));
    assert!(out.iter().any(|m| m.contains("openai")));
}

#[test]
fn no_default_model_with_empty_registry_still_loud() {
    // User has providers in config but no default model set AND no env vars:
    // still no way to send messages, so still loud.
    let missing = vec![warn("fireworks", "FIREWORKS_API_KEY")];
    let out = build_missing_provider_messages(true, None, &missing);

    assert_eq!(out.len(), 1);
    assert!(out[0].contains("no working providers"));
    assert!(!out[0].contains("Default model:"), "no default to name");
}
