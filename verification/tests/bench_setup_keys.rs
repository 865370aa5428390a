use llm_manager::bench_setup::{
    handle_bench_tune_setup_key, set_param_text, BenchParam, BenchSetupAction, BenchSetupConfig,
};
use llm_manager::keys::{Key, KeyCode};
use llm_manager::overlay::GlobalMode;
use llm_manager::types::EditState;

fn param(name: &str, variants: &[&str], choice: usize) -> BenchParam {
    BenchParam {
        name: name.to_string(),
        enabled: true,
        variants: variants.iter().map(|v| v.to_string()).collect(),
        choice,
    }
}

fn config() -> BenchSetupConfig {
    BenchSetupConfig {
        prompt: "hi".to_string(),
        chat_template_kwargs: None,
        n_predict: 128,
        num_iterations: 3,
        full_mode: false,
        params: vec![
            param("threads", &[], 0),
            param("spec_type", &["Off", "draft-mtp", "ngram-simple"], 0),
            param("draft_tokens", &[], 0),
            param("cache_type", &["f16", "q8_0", "q4_0"], 0),
        ],
    }
}

fn edit() -> EditState {
    EditState {
        edit_cursor_pos: 0,
        editing_n_predict: false,
        n_predict_edit_buffer: String::new(),
        editing_iters: false,
        iters_edit_buffer: String::new(),
        tags_editing: false,
        tags_edit_buffer: String::new(),
        tags_selected_idx: None,
        tags_insert_mode: false,
        editing_preset: None,
    }
}

fn setup(selected: usize) -> GlobalMode {
    GlobalMode::BenchTuneSetup {
        selected_idx: selected,
        editing_param: false,
        editing_param_field: 0,
        param_edit_buffer: String::new(),
        param_edit_cursor_pos: 0,
        bench_mode_selection: 0,
        editing_prompt: false,
        editing_kwargs: false,
    }
}

fn alt(c: char) -> Key {
    Key { code: KeyCode::Char(c), ctrl: false, alt: true, shift: false }
}

fn selected_of(m: &GlobalMode) -> usize {
    match m {
        GlobalMode::BenchTuneSetup { selected_idx, .. } => *selected_idx,
        _ => panic!("setup closed"),
    }
}

fn field_of(m: &GlobalMode) -> (bool, i32, String) {
    match m {
        GlobalMode::BenchTuneSetup { editing_param, editing_param_field, param_edit_buffer, .. } => {
            (*editing_param, *editing_param_field, param_edit_buffer.clone())
        }
        _ => panic!("setup closed"),
    }
}

#[test]
fn alt_m_switches_the_run_mode() {
    let (mut m, mut c, mut e) = (setup(0), config(), edit());
    handle_bench_tune_setup_key(&mut m, &mut c, &mut e, alt('m'), true);
    assert!(c.full_mode);
    handle_bench_tune_setup_key(&mut m, &mut c, &mut e, alt('m'), true);
    assert!(!c.full_mode);
}

#[test]
fn selection_moves_within_the_parameters() {
    let (mut m, mut c, mut e) = (setup(0), config(), edit());
    for _ in 0..6 {
        handle_bench_tune_setup_key(&mut m, &mut c, &mut e, Key::plain(KeyCode::Down), true);
    }
    assert_eq!(selected_of(&m), 3);
    handle_bench_tune_setup_key(&mut m, &mut c, &mut e, Key::plain(KeyCode::Char('k')), true);
    assert_eq!(selected_of(&m), 2);
    handle_bench_tune_setup_key(&mut m, &mut c, &mut e, Key::plain(KeyCode::Backspace), true);
    assert_eq!(selected_of(&m), 1);
}

#[test]
fn e_starts_editing_a_range_or_variants() {
    let (mut m, mut c, mut e) = (setup(0), config(), edit());
    let out = handle_bench_tune_setup_key(&mut m, &mut c, &mut e, Key::plain(KeyCode::Char('e')), true);
    assert_eq!(out.action, BenchSetupAction::StartRangeEdit(0));
    assert_eq!(field_of(&m).0, true);
    set_param_text(&mut m, "2".to_string());
    for ch in ['.', '5', 'x'] {
        handle_bench_tune_setup_key(&mut m, &mut c, &mut e, Key::plain(KeyCode::Char(ch)), true);
    }
    assert_eq!(field_of(&m).2, "2.5");
    let out = handle_bench_tune_setup_key(&mut m, &mut c, &mut e, Key::plain(KeyCode::Tab), true);
    assert_eq!(out.action, BenchSetupAction::ShowRangeField { param: 0, field: 1 });
    let out = handle_bench_tune_setup_key(&mut m, &mut c, &mut e, Key::plain(KeyCode::Enter), true);
    assert_eq!(out.action, BenchSetupAction::CommitRange { param: 0, field: 1 });
    assert_eq!(out.committed.as_deref(), Some("2.5"));
    assert_eq!(field_of(&m), (false, 1, String::new()));
}

#[test]
fn variants_are_chosen_by_digit_and_stepped() {
    let (mut m, mut c, mut e) = (setup(3), config(), edit());
    handle_bench_tune_setup_key(&mut m, &mut c, &mut e, Key::plain(KeyCode::Char('e')), true);
    assert_eq!(field_of(&m), (true, -1, String::new()));
    handle_bench_tune_setup_key(&mut m, &mut c, &mut e, Key::plain(KeyCode::Char('+')), true);
    assert_eq!(field_of(&m).1, -3);
    handle_bench_tune_setup_key(&mut m, &mut c, &mut e, Key::plain(KeyCode::Char('2')), true);
    assert_eq!(field_of(&m).1, -4);
    handle_bench_tune_setup_key(&mut m, &mut c, &mut e, Key::plain(KeyCode::Char('7')), true);
    assert_eq!(field_of(&m).1, -4);
    handle_bench_tune_setup_key(&mut m, &mut c, &mut e, Key::plain(KeyCode::Esc), true);
    assert_eq!(field_of(&m).0, false);
    handle_bench_tune_setup_key(&mut m, &mut c, &mut e, Key::plain(KeyCode::Char('e')), true);
    let out = handle_bench_tune_setup_key(&mut m, &mut c, &mut e, Key::plain(KeyCode::Char('-')), true);
    assert_eq!(out.action, BenchSetupAction::Nothing);
    assert_eq!(field_of(&m).1, -4);
}

#[test]
fn spec_type_cycles_and_guards_draft_tokens() {
    let (mut m, mut c, mut e) = (setup(2), config(), edit());
    // Speculative decoding is off: draft tokens cannot be switched or edited.
    handle_bench_tune_setup_key(&mut m, &mut c, &mut e, Key::plain(KeyCode::Char(' ')), true);
    assert!(c.params[2].enabled);
    let out = handle_bench_tune_setup_key(&mut m, &mut c, &mut e, Key::plain(KeyCode::Char('e')), true);
    assert_eq!(out.action, BenchSetupAction::Nothing);
    // On spec_type, Enter moves to the next variant.
    handle_bench_tune_setup_key(&mut m, &mut c, &mut e, Key::plain(KeyCode::Up), true);
    handle_bench_tune_setup_key(&mut m, &mut c, &mut e, Key::plain(KeyCode::Enter), true);
    assert_eq!(c.params[1].choice, 1);
    handle_bench_tune_setup_key(&mut m, &mut c, &mut e, Key::plain(KeyCode::Down), true);
    handle_bench_tune_setup_key(&mut m, &mut c, &mut e, Key::plain(KeyCode::Char(' ')), true);
    assert!(!c.params[2].enabled);
    handle_bench_tune_setup_key(&mut m, &mut c, &mut e, Key::plain(KeyCode::Char(' ')), true);
    assert!(c.params[2].enabled);
    // Back to "Off": draft tokens are switched off.
    handle_bench_tune_setup_key(&mut m, &mut c, &mut e, Key::plain(KeyCode::Up), true);
    handle_bench_tune_setup_key(&mut m, &mut c, &mut e, Key::plain(KeyCode::Enter), true);
    handle_bench_tune_setup_key(&mut m, &mut c, &mut e, Key::plain(KeyCode::Enter), true);
    assert_eq!(c.params[1].choice, 0);
    assert!(!c.params[2].enabled);
}

#[test]
fn prompt_editing_works_on_bytes() {
    let (mut m, mut c, mut e) = (setup(0), config(), edit());
    handle_bench_tune_setup_key(&mut m, &mut c, &mut e, alt('p'), true);
    assert_eq!(e.edit_cursor_pos, 2);
    handle_bench_tune_setup_key(&mut m, &mut c, &mut e, Key::plain(KeyCode::Char('!')), true);
    assert_eq!(c.prompt, "hi!");
    handle_bench_tune_setup_key(&mut m, &mut c, &mut e, Key::plain(KeyCode::Left), true);
    handle_bench_tune_setup_key(&mut m, &mut c, &mut e, Key::plain(KeyCode::Char(' ')), true);
    assert_eq!(c.prompt, "hi !");
    handle_bench_tune_setup_key(&mut m, &mut c, &mut e, Key::plain(KeyCode::Backspace), true);
    assert_eq!(c.prompt, "hi!");
    handle_bench_tune_setup_key(&mut m, &mut c, &mut e, Key::plain(KeyCode::Delete), true);
    assert_eq!(c.prompt, "hi");
    // `k` moves the cursor rather than typing.
    handle_bench_tune_setup_key(&mut m, &mut c, &mut e, Key::plain(KeyCode::Char('k')), true);
    assert_eq!(e.edit_cursor_pos, 1);
    handle_bench_tune_setup_key(&mut m, &mut c, &mut e, Key::plain(KeyCode::Enter), true);
    handle_bench_tune_setup_key(&mut m, &mut c, &mut e, Key::plain(KeyCode::Char('x')), true);
    assert_eq!(c.prompt, "hi");
}

#[test]
fn chat_template_arguments_start_empty() {
    let (mut m, mut c, mut e) = (setup(0), config(), edit());
    handle_bench_tune_setup_key(&mut m, &mut c, &mut e, alt('c'), true);
    assert_eq!(e.edit_cursor_pos, 0);
    handle_bench_tune_setup_key(&mut m, &mut c, &mut e, Key::plain(KeyCode::Char('{')), true);
    handle_bench_tune_setup_key(&mut m, &mut c, &mut e, Key::plain(KeyCode::Char('}')), true);
    assert_eq!(c.chat_template_kwargs.as_deref(), Some("{}"));
}

#[test]
fn predicted_tokens_and_iterations_are_clamped() {
    let (mut m, mut c, mut e) = (setup(0), config(), edit());
    handle_bench_tune_setup_key(&mut m, &mut c, &mut e, alt('n'), true);
    assert_eq!(e.n_predict_edit_buffer, "128");
    for ch in ['0', '0', '0', 'a'] {
        handle_bench_tune_setup_key(&mut m, &mut c, &mut e, Key::plain(KeyCode::Char(ch)), true);
    }
    assert_eq!(e.n_predict_edit_buffer, "128000");
    handle_bench_tune_setup_key(&mut m, &mut c, &mut e, Key::plain(KeyCode::Enter), true);
    assert_eq!(c.n_predict, 16384);
    assert!(!e.editing_n_predict);
    handle_bench_tune_setup_key(&mut m, &mut c, &mut e, alt('i'), true);
    handle_bench_tune_setup_key(&mut m, &mut c, &mut e, Key::plain(KeyCode::Backspace), true);
    handle_bench_tune_setup_key(&mut m, &mut c, &mut e, Key::plain(KeyCode::Char('0')), true);
    handle_bench_tune_setup_key(&mut m, &mut c, &mut e, Key::plain(KeyCode::Enter), true);
    assert_eq!(c.num_iterations, 1);
}

#[test]
fn enter_starts_the_run_and_escape_closes() {
    let (mut m, mut c, mut e) = (setup(0), config(), edit());
    let out = handle_bench_tune_setup_key(&mut m, &mut c, &mut e, Key::plain(KeyCode::Enter), false);
    assert_eq!(out.action, BenchSetupAction::Nothing);
    assert!(matches!(m, GlobalMode::BenchTuneSetup { .. }));
    let out = handle_bench_tune_setup_key(&mut m, &mut c, &mut e, Key::plain(KeyCode::Enter), true);
    assert_eq!(out.action, BenchSetupAction::Start);
    assert!(matches!(m, GlobalMode::Normal));
    let mut m = setup(0);
    handle_bench_tune_setup_key(&mut m, &mut c, &mut e, Key::plain(KeyCode::Esc), true);
    assert!(matches!(m, GlobalMode::Normal));
}

#[test]
fn other_overlays_are_left_alone() {
    let (mut m, mut c, mut e) = (GlobalMode::About, config(), edit());
    let out = handle_bench_tune_setup_key(&mut m, &mut c, &mut e, Key::plain(KeyCode::Esc), true);
    assert_eq!(out.action, BenchSetupAction::Nothing);
    assert!(matches!(m, GlobalMode::About));
}
