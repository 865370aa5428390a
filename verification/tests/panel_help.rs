use llm_manager::panel_help::{panel_help_lines, HelpLine, HelpPiece, HelpTail};
use llm_manager::types::ActivePanel;

#[test]
fn models_help_starts_with_its_title() {
    let lines = panel_help_lines(ActivePanel::Models, 8000);
    assert_eq!(lines.len(), 22);
    assert_eq!(lines[0], HelpLine::Title(HelpPiece::Msg("panel.title.models")));
    assert_eq!(lines[1], HelpLine::Blank);
    assert_eq!(lines[4], HelpLine::Bind { label: "j / k / Arrow keys", tail: HelpTail::Msg("panel.help.models.navigate") });
    assert_eq!(lines[21], HelpLine::Bind { label: "Shift+a", tail: HelpTail::Msg("panel.help.models.about") });
}

#[test]
fn server_help_shows_the_api_port() {
    let lines = panel_help_lines(ActivePanel::ServerSettings, 8042);
    assert!(lines.contains(&HelpLine::Bind { label: "API Port", tail: HelpTail::ApiPort(8042) }));
    assert_eq!(lines.len(), 18);
}

#[test]
fn settings_help_lists_every_field_section() {
    let lines = panel_help_lines(ActivePanel::LlmSettings, 0);
    assert_eq!(lines.len(), 99);
    assert!(lines.contains(&HelpLine::Title(HelpPiece::Literal("--- Loading ---"))));
    assert!(lines.contains(&HelpLine::Bind { label: "0-9, -, .", tail: HelpTail::NumericTyping }));
}

#[test]
fn model_info_help_explains_gguf_names() {
    let lines = panel_help_lines(ActivePanel::ModelInfo, 0);
    assert_eq!(lines[2], HelpLine::Text(HelpPiece::Literal("GGUF metadata for the selected model.")));
    assert!(lines.contains(&HelpLine::Bind {
        label: "35B",
        tail: HelpTail::Literal("  Total parameters (e.g., 35 Billion)"),
    }));
}

#[test]
fn every_panel_has_help() {
    let panels = [
        ActivePanel::Models, ActivePanel::Log, ActivePanel::ServerSettings, ActivePanel::LlmSettings,
        ActivePanel::Profiles, ActivePanel::SystemPromptPresets, ActivePanel::SearchReadme,
        ActivePanel::ActiveModel, ActivePanel::ModelInfo, ActivePanel::Downloads,
    ];
    for p in panels {
        let lines = panel_help_lines(p, 1);
        assert!(lines.len() >= 8);
        assert!(matches!(lines[0], HelpLine::Title(_)));
    }
}
