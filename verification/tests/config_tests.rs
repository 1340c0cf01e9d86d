use aihelper::config::AppConfig;

#[test]
fn defaults_put_the_database_in_the_data_dir() {
    let c = AppConfig::with_defaults("/data/app");
    assert!(c.db_path.ends_with("aihelper.db"));
    assert!(c.db_path.starts_with("/data/app"));
    assert!(c.db_path.len() > "/data/app".len() + "aihelper.db".len());
    assert_eq!(c.hotkey, None);
    assert_eq!(c.ai_provider, None);
    assert_eq!(c.ai_api_key, None);
    assert_eq!(c.ai_base_url, None);
    assert_eq!(c.task_archive_delay_secs, None);
}

#[test]
fn defaults_join_the_data_dir_and_the_file_name() {
    let c = AppConfig::with_defaults("/home/u/data");
    assert_eq!(c.db_path, "/home/u/data/aihelper.db");
    let c = AppConfig::with_defaults("/home/u/data/");
    assert_eq!(c.db_path, "/home/u/data/aihelper.db");
}
