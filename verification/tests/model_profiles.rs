use llm_manager::model_profiles::{
    api_port_text, check_new_profile_name, check_profile_delete, model_settings_picker, settings_profile_deletable,
    ProfileDeleteError, ProfileNameError,
};

fn names(v: &[&str]) -> Vec<String> {
    v.iter().map(|s| s.to_string()).collect()
}

#[test]
fn new_profile_names_are_checked() {
    let existing = names(&["fast", "long ctx"]);
    assert_eq!(check_new_profile_name("   ", &existing), Err(ProfileNameError::Required));
    assert_eq!(check_new_profile_name("", &existing), Err(ProfileNameError::Required));
    assert_eq!(check_new_profile_name("fast", &existing), Err(ProfileNameError::AlreadyExists));
    assert_eq!(check_new_profile_name(" fast", &existing), Ok(()));
    assert_eq!(check_new_profile_name("new", &existing), Ok(()));
}

#[test]
fn default_profile_stays() {
    assert!(!settings_profile_deletable("Default"));
    assert!(settings_profile_deletable("fast"));
}

#[test]
fn profile_deletion_checks() {
    assert_eq!(check_profile_delete(5, 5, 2), Err(ProfileDeleteError::Invalid));
    assert_eq!(check_profile_delete(1, 5, 2), Err(ProfileDeleteError::BuiltIn));
    assert_eq!(check_profile_delete(2, 5, 2), Ok(()));
}

#[test]
fn picker_lists_new_entry_first_and_selects_active() {
    let profiles = vec![("fast".to_string(), "quick".to_string()), ("long".to_string(), String::new())];
    let (entries, selected) = model_settings_picker("+ New profile", &profiles, Some("long"));
    assert_eq!(entries.len(), 3);
    assert_eq!(entries[0], ("+ New profile".to_string(), String::new()));
    assert_eq!(entries[1], ("fast".to_string(), "quick".to_string()));
    assert_eq!(selected, 2);
    assert_eq!(model_settings_picker("+ New profile", &profiles, Some("gone")).1, 0);
    assert_eq!(model_settings_picker("+ New profile", &profiles, None).1, 0);
}

#[test]
fn api_port_as_text() {
    assert_eq!(api_port_text(8080), "8080");
    assert_eq!(api_port_text(0), "0");
}
