use codex_cli::model_presets::{
    all_model_presets, builtin_model_presets, gpt_52_codex_upgrade, AuthMode, ReasoningEffort,
};

#[test]
fn only_one_default_model_is_configured() {
    let default_models = all_model_presets().iter().filter(|preset| preset.is_default).count();
    assert!(default_models == 1);
}

fn efforts(preset_id: &str) -> Vec<(ReasoningEffort, String)> {
    all_model_presets()
        .into_iter()
        .find(|p| p.id == preset_id)
        .unwrap()
        .supported_reasoning_efforts
        .into_iter()
        .map(|e| (e.effort, e.description))
        .collect()
}

#[test]
fn picker_lists_the_current_models_in_order() {
    let shown: Vec<(String, String, bool)> = all_model_presets()
        .into_iter()
        .filter(|p| p.show_in_picker)
        .map(|p| (p.id, p.description, p.is_default))
        .collect();
    assert_eq!(
        shown,
        vec![
            ("gpt-5.2-codex".to_string(), "最新前沿的智能体编程模型。".to_string(), true),
            (
                "gpt-5.1-codex-max".to_string(),
                "为 Codex 优化的旗舰模型，兼具深度与速度推理。".to_string(),
                false
            ),
            ("gpt-5.1-codex-mini".to_string(), "为 Codex 优化，更便宜更快，但能力较弱。".to_string(), false),
            ("gpt-5.2".to_string(), "最新前沿模型，在知识、推理与编码上都有提升".to_string(), false),
        ]
    );
}

#[test]
fn picker_models_offer_their_reasoning_efforts() {
    assert_eq!(
        efforts("gpt-5.2-codex"),
        vec![
            (ReasoningEffort::Low, "更轻量推理的快速响应".to_string()),
            (ReasoningEffort::Medium, "兼顾速度与推理深度，适合日常任务".to_string()),
            (ReasoningEffort::High, "复杂问题的更深推理".to_string()),
            (ReasoningEffort::XHigh, "复杂问题的超高推理深度".to_string()),
        ]
    );
    assert_eq!(
        efforts("gpt-5.1-codex-mini"),
        vec![
            (ReasoningEffort::Medium, "根据任务动态调整推理".to_string()),
            (ReasoningEffort::High, "为复杂或模糊问题最大化推理深度".to_string()),
        ]
    );
    assert_eq!(
        efforts("gpt-5.2"),
        vec![
            (ReasoningEffort::Low, "兼顾速度与一定推理；适合直接问题和短解释".to_string()),
            (ReasoningEffort::Medium, "在通用任务上平衡推理深度与延迟".to_string()),
            (ReasoningEffort::High, "为复杂或模糊问题最大化推理深度".to_string()),
            (ReasoningEffort::XHigh, "复杂问题的超高推理深度".to_string()),
        ]
    );
    assert_eq!(efforts("gpt-5")[0], (ReasoningEffort::Minimal, "推理较少但速度最快".to_string()));
}

#[test]
fn presets_keep_their_order_and_names() {
    let ids: Vec<String> = all_model_presets().into_iter().map(|p| p.id).collect();
    assert_eq!(
        ids,
        vec![
            "gpt-5.2-codex", "gpt-5.1-codex-max", "gpt-5.1-codex-mini", "gpt-5.2", "bengalfox",
            "boomslang", "gpt-5-codex", "gpt-5-codex-mini", "gpt-5.1-codex", "gpt-5", "gpt-5.1",
        ]
    );
    for p in all_model_presets() {
        assert_eq!(p.model, p.id);
        assert_eq!(p.display_name, p.id);
        assert_eq!(p.default_reasoning_effort, ReasoningEffort::Medium);
        assert!(p.supported_in_api);
        if let Some(upgrade) = &p.upgrade {
            assert_eq!(upgrade.id, "gpt-5.2-codex");
        }
    }
}

#[test]
fn upgrade_announces_gpt_52_codex() {
    let upgrade = gpt_52_codex_upgrade();
    assert_eq!(upgrade.migration_config_key, "gpt-5.2-codex");
    assert_eq!(upgrade.reasoning_effort_mapping, None);
    assert_eq!(upgrade.model_link.as_deref(), Some("https://openai.com/index/introducing-gpt-5-2-codex"));
    let markdown = upgrade.migration_markdown.unwrap();
    assert!(markdown.starts_with("**Codex 刚刚升级，引入 {model_to}。**\n\nCodex 现已由"));
    assert!(markdown.ends_with("\n\n如有需要，你仍可继续使用 {model_from}。\n"));
}

#[test]
fn builtin_presets_do_not_depend_on_sign_in() {
    assert_eq!(builtin_model_presets(None), all_model_presets());
    assert_eq!(builtin_model_presets(Some(AuthMode::ApiKey)), all_model_presets());
    assert_eq!(builtin_model_presets(Some(AuthMode::ChatGPT)), all_model_presets());
}
