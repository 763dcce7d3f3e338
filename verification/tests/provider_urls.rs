use soulsystem::provider::{default_provider_base_url, normalize_provider_base_url, ProviderKind};

#[test]
fn provider_urls_are_host_roots() {
    assert_eq!(default_provider_base_url(ProviderKind::OpenAI), "https://api.openai.com");
    assert_eq!(
        normalize_provider_base_url(ProviderKind::Anthropic, "https://api.anthropic.com/v1/"),
        "https://api.anthropic.com"
    );
}

#[test]
fn ollama_keeps_its_v1_suffix() {
    assert_eq!(
        normalize_provider_base_url(ProviderKind::Ollama, "http://localhost:11434/v1//"),
        "http://localhost:11434/v1"
    );
}

#[test]
fn every_trailing_v1_is_stripped() {
    assert_eq!(
        normalize_provider_base_url(ProviderKind::OpenAI, "https://x.example/v1/v1"),
        "https://x.example"
    );
    assert_eq!(
        normalize_provider_base_url(ProviderKind::Anthropic, "https://x.example/v1//v1/"),
        "https://x.example"
    );
    assert_eq!(
        normalize_provider_base_url(ProviderKind::OpenAI, "https://x.example/v1/api"),
        "https://x.example/v1/api"
    );
    assert_eq!(
        normalize_provider_base_url(ProviderKind::OpenAI, "https://x.example//v1"),
        "https://x.example"
    );
}

#[test]
fn default_urls_are_already_normalized() {
    for p in [ProviderKind::Ollama, ProviderKind::OpenAI, ProviderKind::Anthropic] {
        let d = default_provider_base_url(p);
        assert_eq!(normalize_provider_base_url(p, d), d);
    }
    assert_eq!(default_provider_base_url(ProviderKind::Ollama), "http://127.0.0.1:11434");
    assert_eq!(default_provider_base_url(ProviderKind::Anthropic), "https://api.anthropic.com");
}

#[test]
fn slashes_only_become_empty() {
    assert_eq!(normalize_provider_base_url(ProviderKind::OpenAI, "///"), "");
    assert_eq!(normalize_provider_base_url(ProviderKind::Anthropic, "/v1"), "");
}
