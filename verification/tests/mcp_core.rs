use homelab_mcp::mcp_core::{
    compute_digest, sanitize_dns_name, sanitize_label_value, RiskLevel, ToolResult,
};

#[test]
fn read_result_has_read_risk_and_summary() {
    let result = ToolResult::read("listed recipes", vec!["qwen3-8b"]);
    assert_eq!(result.risk, RiskLevel::Read);
    assert_eq!(result.summary.text, "listed recipes");
}

#[test]
fn cluster_write_result_carries_risk_level() {
    let result = ToolResult::cluster_write("applied InferenceService", "qwen3-8b");
    assert_eq!(result.risk, RiskLevel::ClusterWrite);
}

#[test]
fn digest_is_deterministic() {
    let json = r#"{"name":"qwen3-8b","namespace":"ai"}"#;
    let d1 = compute_digest(json);
    let d2 = compute_digest(json);
    assert_eq!(d1, d2);
    assert_eq!(d1.len(), 64);
}

#[test]
fn digest_differs_for_different_input() {
    let d1 = compute_digest(r#"{"name":"a"}"#);
    let d2 = compute_digest(r#"{"name":"b"}"#);
    assert_ne!(d1, d2);
}

#[test]
fn sanitize_label_value_replaces_slashes() {
    assert_eq!(
        sanitize_label_value("LiquidAI/LFM2.5-350M"),
        "liquidai-lfm2.5-350m"
    );
    assert_eq!(
        sanitize_label_value("deepseek-ai/DeepSeek-V4-Flash"),
        "deepseek-ai-deepseek-v4-flash"
    );
    assert_eq!(sanitize_label_value("no-slashes"), "no-slashes");
}

#[test]
fn sanitize_dns_name_replaces_dots_and_slashes() {
    assert_eq!(sanitize_dns_name("lfm2.5-350m"), "lfm2-5-350m");
    assert_eq!(sanitize_dns_name("Qwen/Qwen3-8B"), "qwen-qwen3-8b");
    assert_eq!(sanitize_dns_name("my_model"), "my-model");
}

#[test]
fn digest_of_empty_text_is_the_known_sha256() {
    assert_eq!(
        compute_digest(""),
        "e3b0c44298fc1c149afbf4c8996fb92427ae41e4649b934ca495991b7852b855"
    );
}

#[test]
fn label_value_replaces_colons_and_lowercases_unicode() {
    assert_eq!(sanitize_label_value("Org:Model"), "org-model");
    assert_eq!(sanitize_dns_name("ÀB.c"), "àb-c");
}
