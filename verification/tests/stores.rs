use incipit::meta::{
    load_project_meta, load_project_meta_at, save_project_meta, ProjectMeta, CREATED_AT, MAIN_FILE,
};
use incipit::settings::{
    load_global_settings, report_app_dir, save_global_settings, settings_place,
    settings_place_in, settings_root, settings_root_in, GlobalSettings, APP_DIR, SETTINGS_FILE,
};
use incipit::store::{SaveFailure, Stored};

fn json(text: &str) -> serde_json::Value {
    serde_json::from_str(text).expect("valid JSON")
}

fn sample_meta() -> ProjectMeta {
    ProjectMeta {
        last_opened_file: Some("chapters/two.tex".to_string()),
        root_file: "thesis.tex".to_string(),
        project_settings: json(r#"{"engine":"xelatex","passes":2,"nested":{"a":[1,2,null]}}"#),
    }
}

#[test]
fn fresh_metadata_opens_the_main_file() {
    let meta = ProjectMeta::fresh("2024-05-06T07:08:09+00:00".to_string());
    assert_eq!(meta.last_opened_file, Some("main.tex".to_string()));
    assert_eq!(meta.root_file, "main.tex");
    assert_eq!(MAIN_FILE, "main.tex");
}

#[test]
fn fresh_metadata_records_the_time_of_creation() {
    let meta = ProjectMeta::fresh("2024-05-06T07:08:09+00:00".to_string());
    assert_eq!(meta.project_settings, json(r#"{"created_at":"2024-05-06T07:08:09+00:00"}"#));
    assert_eq!(CREATED_AT, "created_at");
}

#[test]
fn fresh_metadata_takes_any_text_as_time() {
    let meta = ProjectMeta::fresh(String::new());
    assert_eq!(meta.project_settings, json(r#"{"created_at":""}"#));
    let meta = ProjectMeta::fresh("say \"when\"".to_string());
    assert_eq!(meta.project_settings["created_at"], serde_json::Value::String("say \"when\"".to_string()));
}

#[test]
fn default_metadata_is_fresh_and_stamped_with_a_time() {
    let meta = ProjectMeta::default();
    assert_eq!(meta.last_opened_file, Some("main.tex".to_string()));
    assert_eq!(meta.root_file, "main.tex");
    let settings = meta.project_settings.as_object().expect("an object");
    assert_eq!(settings.len(), 1);
    let stamp = settings["created_at"].as_str().expect("a string");
    assert!(chrono::DateTime::parse_from_rfc3339(stamp).is_ok(), "not RFC 3339: {}", stamp);
    assert!(stamp.chars().count() >= 25);
    assert!(stamp.ends_with("+00:00"));
}

#[test]
fn loading_without_a_file_gives_the_defaults() {
    let meta = load_project_meta(Stored::Absent).unwrap();
    assert_eq!(meta.last_opened_file, Some("main.tex".to_string()));
    assert_eq!(meta.root_file, "main.tex");
    let settings = meta.project_settings.as_object().expect("an object");
    assert_eq!(settings.keys().collect::<Vec<_>>(), vec!["created_at"]);
    assert!(settings["created_at"].is_string());
}

#[test]
fn loading_without_a_file_at_a_given_time() {
    let meta = load_project_meta_at(Stored::Absent, "1999-12-31T23:59:59+00:00".to_string()).unwrap();
    assert_eq!(meta.last_opened_file, Some("main.tex".to_string()));
    assert_eq!(meta.root_file, "main.tex");
    assert_eq!(meta.project_settings, json(r#"{"created_at":"1999-12-31T23:59:59+00:00"}"#));
}

#[test]
fn loading_returns_stored_metadata_as_it_is() {
    let stored = sample_meta();
    let loaded = load_project_meta(Stored::Parsed(stored.clone())).unwrap();
    assert_eq!(loaded.last_opened_file, stored.last_opened_file);
    assert_eq!(loaded.root_file, stored.root_file);
    assert_eq!(loaded.project_settings, stored.project_settings);
    let loaded = load_project_meta_at(Stored::Parsed(stored.clone()), "ignored".to_string()).unwrap();
    assert_eq!(loaded.root_file, "thesis.tex");
    assert_eq!(loaded.project_settings, stored.project_settings);
}

#[test]
fn loading_keeps_an_absent_last_opened_file() {
    let stored = ProjectMeta {
        last_opened_file: None,
        root_file: "a.tex".to_string(),
        project_settings: serde_json::Value::Null,
    };
    let loaded = load_project_meta(Stored::Parsed(stored)).unwrap();
    assert_eq!(loaded.last_opened_file, None);
    assert_eq!(loaded.root_file, "a.tex");
    assert!(loaded.project_settings.is_null());
}

#[test]
fn saved_metadata_loads_back_equal() {
    let saved = sample_meta();
    assert_eq!(save_project_meta(Ok(())), Ok(()));
    // what the store holds after a save is what was saved
    let text = serde_json::to_string_pretty(&saved.project_settings).unwrap();
    let reread = ProjectMeta {
        last_opened_file: saved.last_opened_file.clone(),
        root_file: saved.root_file.clone(),
        project_settings: json(&text),
    };
    let loaded = load_project_meta(Stored::Parsed(reread)).unwrap();
    assert_eq!(loaded.last_opened_file, saved.last_opened_file);
    assert_eq!(loaded.root_file, saved.root_file);
    assert_eq!(loaded.project_settings, saved.project_settings);
}

#[test]
fn unreadable_metadata_is_reported() {
    let error = load_project_meta(Stored::Unreadable("Permission denied (os error 13)".to_string())).unwrap_err();
    assert_eq!(error, "Failed to read project metadata: Permission denied (os error 13)");
}

#[test]
fn malformed_metadata_is_reported() {
    let error = load_project_meta(Stored::Malformed("expected value at line 1 column 1".to_string())).unwrap_err();
    assert_eq!(error, "Failed to parse project metadata: expected value at line 1 column 1");
}

#[test]
fn saving_metadata_reports_its_failures() {
    assert_eq!(save_project_meta(Ok(())), Ok(()));
    assert_eq!(
        save_project_meta(Err(SaveFailure::Serialize("key must be a string".to_string()))),
        Err("Failed to serialize: key must be a string".to_string())
    );
    assert_eq!(
        save_project_meta(Err(SaveFailure::Write("No space left on device".to_string()))),
        Err("Failed to write metadata: No space left on device".to_string())
    );
}

#[test]
fn metadata_clone_is_equal() {
    let meta = sample_meta();
    let copy = meta.clone();
    assert_eq!(copy.last_opened_file, meta.last_opened_file);
    assert_eq!(copy.root_file, meta.root_file);
    assert_eq!(copy.project_settings, meta.project_settings);
}

#[test]
fn default_settings_are_empty() {
    let settings = GlobalSettings::default();
    assert!(settings.recent_projects.is_empty());
    assert_eq!(settings.editor_settings, json("{}"));
    assert!(settings.editor_settings.as_object().unwrap().is_empty());
}

#[test]
fn loading_settings_without_a_file_gives_the_defaults() {
    let settings = load_global_settings(Stored::Absent).unwrap();
    assert!(settings.recent_projects.is_empty());
    assert_eq!(settings.editor_settings, json("{}"));
}

#[test]
fn loading_returns_stored_settings_as_they_are() {
    let stored = GlobalSettings {
        recent_projects: vec!["/home/u/thesis".to_string(), "/home/u/paper".to_string()],
        editor_settings: json(r#"{"theme":"dark","font_size":14}"#),
    };
    let loaded = load_global_settings(Stored::Parsed(stored.clone())).unwrap();
    assert_eq!(loaded.recent_projects, vec!["/home/u/thesis", "/home/u/paper"]);
    assert_eq!(loaded.editor_settings, stored.editor_settings);
}

#[test]
fn settings_failures_are_reported() {
    assert_eq!(
        load_global_settings(Stored::Unreadable("gone".to_string())).unwrap_err(),
        "Failed to read settings: gone"
    );
    assert_eq!(
        load_global_settings(Stored::Malformed("EOF while parsing".to_string())).unwrap_err(),
        "Failed to parse settings: EOF while parsing"
    );
    assert_eq!(save_global_settings(Ok(())), Ok(()));
    assert_eq!(
        save_global_settings(Err(SaveFailure::Serialize("bad".to_string()))),
        Err("Failed to serialize settings: bad".to_string())
    );
    assert_eq!(
        save_global_settings(Err(SaveFailure::Write("full".to_string()))),
        Err("Failed to write settings: full".to_string())
    );
}

#[test]
fn settings_clone_is_equal() {
    let settings = GlobalSettings {
        recent_projects: vec!["a".to_string(), "b".to_string(), "c".to_string()],
        editor_settings: json(r#"[1,"two",{"three":3}]"#),
    };
    let copy = settings.clone();
    assert_eq!(copy.recent_projects, settings.recent_projects);
    assert_eq!(copy.editor_settings, settings.editor_settings);
}

#[test]
fn settings_are_rooted_in_the_config_directory() {
    assert_eq!(settings_root_in(Some("/home/u/.config".to_string())), Ok("/home/u/.config".to_string()));
    assert_eq!(settings_root_in(Some(String::new())), Ok(String::new()));
    assert_eq!(APP_DIR, "incipit");
    assert_eq!(SETTINGS_FILE, "settings.json");
}

#[test]
fn no_config_directory_is_refused() {
    assert_eq!(settings_root_in(None), Err("Failed to determine config directory".to_string()));
}

#[test]
fn settings_root_is_a_directory_or_the_documented_refusal() {
    match settings_root() {
        Ok(dir) => assert!(!dir.is_empty()),
        Err(message) => assert_eq!(message, "Failed to determine config directory"),
    }
}

#[test]
fn the_stamp_of_a_missing_file_is_a_time_in_utc() {
    let meta = load_project_meta(Stored::Absent).unwrap();
    let stamp = meta.project_settings["created_at"].as_str().expect("a string").to_string();
    assert!(stamp.chars().count() >= 25, "too short: {}", stamp);
    assert!(stamp.ends_with("+00:00"), "not UTC: {}", stamp);
    let parsed = chrono::DateTime::parse_from_rfc3339(&stamp).expect("RFC 3339");
    assert_eq!(parsed.offset().local_minus_utc(), 0);
    assert!(parsed.timestamp() > 1_600_000_000);
}

#[test]
fn the_settings_file_is_placed_below_the_config_directory() {
    let place = settings_place_in(Some("/home/u/.config".to_string())).unwrap();
    assert_eq!(place.config_dir, "/home/u/.config");
    assert_eq!(place.app_dir, "incipit");
    assert_eq!(place.file_name, "settings.json");
}

#[test]
fn no_config_directory_gives_no_place() {
    assert_eq!(
        settings_place_in(None).unwrap_err(),
        "Failed to determine config directory"
    );
}

#[test]
fn settings_place_is_below_some_directory_or_the_documented_refusal() {
    match settings_place() {
        Ok(place) => {
            assert_eq!(place.app_dir, "incipit");
            assert_eq!(place.file_name, "settings.json");
            assert!(!place.config_dir.is_empty());
        }
        Err(message) => assert_eq!(message, "Failed to determine config directory"),
    }
}

#[test]
fn making_the_application_directory_is_reported() {
    assert_eq!(report_app_dir(Ok(())), Ok(()));
    assert_eq!(
        report_app_dir(Err("Permission denied (os error 13)".to_string())),
        Err("Failed to create config directory: Permission denied (os error 13)".to_string())
    );
}
