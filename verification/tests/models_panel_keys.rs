use llm_manager::keys::{Key, KeyCode};
use llm_manager::models_list::{handle_models_key, ModelsKeyAction, UnloadPlan};
use llm_manager::server_settings::ServerMode;

fn names() -> Vec<String> {
    vec!["Qwen-B".to_string(), "llama".to_string(), "qwen-a".to_string(), "Mistral".to_string()]
}

struct Panel {
    filtering: bool,
    filter: String,
    selected: Option<usize>,
}

impl Panel {
    fn new(selected: Option<usize>) -> Panel {
        Panel { filtering: false, filter: String::new(), selected }
    }

    fn press(&mut self, key: Key) -> ModelsKeyAction {
        self.press_with(key, true, false, false)
    }

    fn press_with(&mut self, key: Key, models_panel: bool, server_running: bool, loaded: bool) -> ModelsKeyAction {
        let sorted = vec![3, 0, 1, 2];
        handle_models_key(
            &mut self.filtering,
            &mut self.filter,
            &mut self.selected,
            &names(),
            &sorted,
            true,
            false,
            models_panel,
            false,
            loaded,
            server_running,
            ServerMode::Normal,
            key,
        )
    }
}

#[test]
fn f_opens_filter_and_selects_first_match() {
    let mut p = Panel::new(None);
    p.filter = "qwen".to_string();
    assert_eq!(p.press(Key::plain(KeyCode::Char('f'))), ModelsKeyAction::SelectionChanged);
    assert!(p.filtering);
    assert_eq!(p.selected, Some(0));
}

#[test]
fn filter_takes_typed_keys() {
    let mut p = Panel::new(Some(1));
    p.filtering = true;
    assert_eq!(p.press(Key::plain(KeyCode::Char('j'))), ModelsKeyAction::FilterChanged);
    assert_eq!(p.filter, "j");
    assert_eq!(p.selected, Some(1));
    assert_eq!(p.press(Key::plain(KeyCode::Enter)), ModelsKeyAction::Nothing);
    assert!(!p.filtering);
    assert_eq!(p.filter, "j");
}

#[test]
fn up_and_down_follow_the_sorted_list() {
    let mut p = Panel::new(Some(0));
    assert_eq!(p.press(Key::plain(KeyCode::Down)), ModelsKeyAction::SelectionChanged);
    assert_eq!(p.selected, Some(1));
    assert_eq!(p.press(Key::plain(KeyCode::Char('k'))), ModelsKeyAction::SelectionChanged);
    assert_eq!(p.selected, Some(0));
    p.press(Key::plain(KeyCode::Up));
    assert_eq!(p.selected, Some(3));
    assert_eq!(p.press(Key::plain(KeyCode::Up)), ModelsKeyAction::Nothing);
    assert_eq!(p.selected, Some(3));
}

#[test]
fn enter_loads_selected_model() {
    let mut p = Panel::new(Some(2));
    assert_eq!(p.press(Key::plain(KeyCode::Enter)), ModelsKeyAction::Load(2));
    assert_eq!(p.press(Key::plain(KeyCode::Char('l'))), ModelsKeyAction::Load(2));
    p.selected = None;
    assert_eq!(p.press(Key::plain(KeyCode::Enter)), ModelsKeyAction::Nothing);
}

#[test]
fn u_unloads_or_explains() {
    let mut p = Panel::new(Some(1));
    assert_eq!(p.press_with(Key::plain(KeyCode::Char('u')), true, true, true), ModelsKeyAction::Unload(UnloadPlan::Confirm));
    assert_eq!(p.press_with(Key::plain(KeyCode::Char('u')), true, true, false), ModelsKeyAction::Unload(UnloadPlan::NotLoaded));
    p.selected = None;
    assert_eq!(
        p.press_with(Key::plain(KeyCode::Char('u')), true, true, false),
        ModelsKeyAction::Unload(UnloadPlan::SelectLoadedModel)
    );
    assert_eq!(
        p.press_with(Key::plain(KeyCode::Char('u')), true, false, false),
        ModelsKeyAction::Unload(UnloadPlan::NoModelLoaded)
    );
}

#[test]
fn delete_asks_for_confirmation() {
    let mut p = Panel::new(Some(3));
    assert_eq!(p.press(Key::plain(KeyCode::Delete)), ModelsKeyAction::ConfirmDelete(3));
    assert_eq!(p.press(Key::with_ctrl(KeyCode::Char('d'))), ModelsKeyAction::ConfirmDelete(3));
    assert_eq!(p.press_with(Key::with_ctrl(KeyCode::Char('d')), false, false, false), ModelsKeyAction::DeleteFromModelsPanel);
    assert_eq!(p.press_with(Key::plain(KeyCode::Delete), false, false, false), ModelsKeyAction::Nothing);
    p.selected = None;
    assert_eq!(p.press(Key::plain(KeyCode::Delete)), ModelsKeyAction::NothingToDelete);
}
