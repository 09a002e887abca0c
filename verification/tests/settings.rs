use noted::bins::gui::settings::{AppSettingKind, AppSettings, ValueType};
use noted::types::error::Error;
use noted::types::numbers::{parse_u64, text_to_bool, u64_text};

#[test]
fn new_settings_and_config_file() {
    let s = AppSettings::new(Some("/data/noted".to_string())).unwrap();
    assert_eq!(s.default_save_path, "/data/noted");
    assert_eq!(s.default_database, "/data/noted/default.noted");
    assert_eq!(s.autosave_interval, 30);
    assert!(s.load_default_on_start);
    assert!(s.autosave_enabled);
    let slash = AppSettings::new(Some("/data/".to_string())).unwrap();
    assert_eq!(slash.default_database, "/data/default.noted");
    assert!(matches!(AppSettings::new(None), Err(Error::Io(m)) if m == "Unable to load project directories from system"));
    assert_eq!(
        AppSettings::default_config_file(Some("/cfg".to_string())).unwrap(),
        "/cfg/noted_config.json"
    );
    assert!(AppSettings::default_config_file(None).is_err());
}

#[test]
fn get_and_set_settings() {
    let mut s = AppSettings::new(Some("/d".to_string())).unwrap();
    assert_eq!(s.get_setting(AppSettingKind::AutosaveInterval), "30");
    assert_eq!(s.get_setting(AppSettingKind::AutosaveEnabled), "true");
    assert_eq!(s.get_setting(AppSettingKind::DefaultDatabase), "/d/default.noted");
    assert_eq!(s.set_setting(AppSettingKind::AutosaveInterval, "+120"), Some(()));
    assert_eq!(s.autosave_interval, 120);
    assert_eq!(s.set_setting(AppSettingKind::AutosaveInterval, "-1"), None);
    assert_eq!(s.set_setting(AppSettingKind::AutosaveInterval, ""), None);
    assert_eq!(s.set_setting(AppSettingKind::AutosaveInterval, "18446744073709551616"), None);
    assert_eq!(s.autosave_interval, 120);
    assert_eq!(s.set_setting(AppSettingKind::AutosaveEnabled, "false"), Some(()));
    assert!(!s.autosave_enabled);
    assert_eq!(s.set_setting(AppSettingKind::LoadDefaultOnStart, "yes"), None);
    assert!(s.load_default_on_start);
    assert_eq!(s.set_setting(AppSettingKind::DefaultSavePath, "/elsewhere"), Some(()));
    assert_eq!(s.get_setting(AppSettingKind::DefaultSavePath), "/elsewhere");
    // Setting a value to the text it is shown as keeps it.
    let shown = s.get_setting(AppSettingKind::AutosaveInterval);
    assert_eq!(s.set_setting(AppSettingKind::AutosaveInterval, &shown), Some(()));
    assert_eq!(s.autosave_interval, 120);
    assert!(matches!(AppSettingKind::AutosaveInterval.get_value_type(), ValueType::Number));
    assert!(matches!(AppSettingKind::DefaultDatabase.get_value_type(), ValueType::Path));
    assert!(matches!(AppSettingKind::AutosaveEnabled.get_value_type(), ValueType::Bool));
}

#[test]
fn numbers_as_text() {
    assert_eq!(u64_text(0), "0");
    assert_eq!(u64_text(1234567890), "1234567890");
    assert_eq!(u64_text(u64::MAX), "18446744073709551615");
    assert_eq!(parse_u64("18446744073709551615"), Some(u64::MAX));
    assert_eq!(parse_u64("007"), Some(7));
    assert_eq!(parse_u64("+"), None);
    assert_eq!(parse_u64("1a"), None);
    assert_eq!(text_to_bool("true"), Some(true));
    assert_eq!(text_to_bool("True"), None);
    for n in [0u64, 9, 10, 99, 100, 65535, u64::MAX - 1] {
        assert_eq!(parse_u64(&u64_text(n)), Some(n));
    }
}

#[test]
fn a_setting_reads_back_as_it_was_set() {
    let mut s = AppSettings::new(Some("/d".to_string())).unwrap();
    for (kind, text) in [
        (AppSettingKind::AutosaveInterval, "45"),
        (AppSettingKind::AutosaveEnabled, "false"),
        (AppSettingKind::LoadDefaultOnStart, "false"),
        (AppSettingKind::DefaultDatabase, "/x/db.noted"),
        (AppSettingKind::DefaultSavePath, "/x"),
    ] {
        assert_eq!(s.set_setting(kind, text), Some(()));
        assert_eq!(s.get_setting(kind), text);
    }
    assert_eq!(s.get_setting(AppSettingKind::AutosaveInterval), "45");
    assert_eq!(s.set_setting(AppSettingKind::AutosaveInterval, "007"), Some(()));
    assert_eq!(s.get_setting(AppSettingKind::AutosaveInterval), "7");
    assert_eq!(s.set_setting(AppSettingKind::AutosaveEnabled, "True"), None);
    assert_eq!(s.get_setting(AppSettingKind::AutosaveEnabled), "false");
}
