use soundboard::settings::audio_choice;
use r2d2_sqlite::SqliteConnectionManager;
use soundboard::settings::SettingsTable;

fn memory_pool() -> r2d2::Pool<SqliteConnectionManager> {
    r2d2::Pool::new(SqliteConnectionManager::memory()).unwrap()
}

#[test]
fn settings_table_create_test() {
    let pool = memory_pool();
    let conn = pool.get().unwrap();
    let table = SettingsTable::new(&conn);
    table.create_table().unwrap();
    table.create_table().unwrap();
}

#[test]
fn settings_table_table_create_test() {
    let pool = memory_pool();
    let conn = pool.get().unwrap();
    let table = SettingsTable::new(&conn);
    table.create_table().unwrap();
    table.create_table().unwrap();
}

#[test]
fn settings_table_drop_test() {
    let pool = memory_pool();
    let conn = pool.get().unwrap();
    let table = SettingsTable::new(&conn);
    table.drop_table().unwrap();
    table.create_table().unwrap();
    table.drop_table().unwrap();
}

#[test]
fn db_get_settings_test() {
    let pool = memory_pool();
    let conn = pool.get().unwrap();
    let table = SettingsTable::new(&conn);
    table.create_table().unwrap();
    let settings = table.get_settings().unwrap();
    assert!(settings.join_audio.is_none());
    assert!(settings.leave_audio.is_none());
}

#[test]
fn settings_table_get_settings_test() {
    let pool = memory_pool();
    let conn = pool.get().unwrap();
    let table = SettingsTable::new(&conn);
    table.create_table().unwrap();
    let settings = table.get_settings().unwrap();
    assert!(settings.join_audio.is_none());
    assert!(settings.leave_audio.is_none());
    let again = table.get_settings().unwrap();
    assert_eq!(again.id, settings.id);
}

#[test]
fn db_update_settings_test() {
    let pool = memory_pool();
    let conn = pool.get().unwrap();
    let table = SettingsTable::new(&conn);
    table.create_table().unwrap();
    let mut settings = table.get_settings().unwrap();
    let join_audio = Some("join.mp3".to_string());
    let leave_audio = Some("leave.mp3".to_string());
    settings.join_audio = join_audio.clone();
    settings.leave_audio = leave_audio.clone();
    table.update_settings(&settings).unwrap();
    let settings = table.get_settings().unwrap();
    assert_eq!(settings.join_audio, join_audio);
    assert_eq!(settings.leave_audio, leave_audio);
}

#[test]
fn settings_table_update_settings_test() {
    let pool = memory_pool();
    let conn = pool.get().unwrap();
    let table = SettingsTable::new(&conn);
    table.create_table().unwrap();
    let mut settings = table.get_settings().unwrap();
    let join_audio = Some(String::from("do!@)#$*&%&)'\"op"));
    let leave_audio = Some(String::from("dope"));
    settings.join_audio = join_audio.clone();
    settings.leave_audio = leave_audio.clone();
    table.update_settings(&settings).unwrap();
    let settings = table.get_settings().unwrap();
    assert_eq!(settings.join_audio, join_audio);
    assert_eq!(settings.leave_audio, leave_audio);
}

#[test]
fn none_turns_a_sound_off() {
    assert_eq!(audio_choice("NONE"), None);
    assert_eq!(audio_choice("boing"), Some("boing".to_string()));
}
