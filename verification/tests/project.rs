use incipit::project::{
    check_vacant, create_new_project, create_new_project_at, open_project, report_create,
    report_read, report_write, CreateStage, MAIN_FILE_TEMPLATE,
};
use incipit::tree::DiskEntry;

fn names(items: &[&str]) -> Vec<String> {
    items.iter().map(|s| s.to_string()).collect()
}

const NOT_EMPTY: &str = "Directory is not empty. Please choose an empty directory for the new project.";

#[test]
fn opening_a_missing_path_fails() {
    let error = open_project("/nowhere/proj", &None).unwrap_err();
    assert_eq!(error, "Path does not exist: /nowhere/proj");
}

#[test]
fn opening_a_file_fails() {
    let found = Some(DiskEntry::File { name: "main.tex".to_string() });
    let error = open_project("/work/main.tex", &found).unwrap_err();
    assert_eq!(error, "Path is not a directory: /work/main.tex");
}

#[test]
fn opening_an_unlistable_directory_fails() {
    let found = Some(DiskEntry::Unreadable { name: "proj".to_string(), reason: "Permission denied".to_string() });
    let error = open_project("/work/proj", &found).unwrap_err();
    assert_eq!(error, "Failed to read directory /work/proj: Permission denied");
}

#[test]
fn opening_a_directory_gives_its_tree() {
    let found = Some(DiskEntry::Directory {
        name: "proj".to_string(),
        entries: vec![
            DiskEntry::File { name: "main.tex".to_string() },
            DiskEntry::File { name: ".incipit".to_string() },
            DiskEntry::Directory { name: "build".to_string(), entries: vec![] },
        ],
    });
    let tree = open_project("/work/proj", &found).unwrap();
    assert_eq!(tree.name, "proj");
    assert_eq!(tree.path, "");
    let children = tree.children.unwrap();
    assert_eq!(children.len(), 2);
    assert_eq!(children[0].name, "build");
    assert!(children[0].is_dir);
    assert_eq!(children[1].name, "main.tex");
    assert_eq!(children[1].path, "main.tex");
}

#[test]
fn read_passes_the_text_on() {
    assert_eq!(report_read("main.tex", Ok("\\documentclass{article}".to_string())), Ok("\\documentclass{article}".to_string()));
    assert_eq!(report_read("main.tex", Ok(String::new())), Ok(String::new()));
}

#[test]
fn read_failure_names_the_file() {
    assert_eq!(
        report_read("chapters/one.tex", Err("stream did not contain valid UTF-8".to_string())),
        Err("Failed to read file chapters/one.tex: stream did not contain valid UTF-8".to_string())
    );
}

#[test]
fn write_failure_names_the_file() {
    assert_eq!(report_write("main.tex", Ok(())), Ok(()));
    assert_eq!(
        report_write("main.tex", Err("Read-only file system".to_string())),
        Err("Failed to write file main.tex: Read-only file system".to_string())
    );
}

#[test]
fn an_empty_directory_is_vacant() {
    assert_eq!(check_vacant(&names(&[])), Ok(()));
}

#[test]
fn a_directory_with_only_hidden_entries_is_vacant() {
    assert_eq!(check_vacant(&names(&[".git", ".DS_Store", ".incipit"])), Ok(()));
}

#[test]
fn a_directory_with_a_visible_entry_is_not_vacant() {
    assert_eq!(check_vacant(&names(&["main.tex"])), Err(NOT_EMPTY.to_string()));
    assert_eq!(check_vacant(&names(&[".git", "notes.txt"])), Err(NOT_EMPTY.to_string()));
    assert_eq!(check_vacant(&names(&["a", ".b"])), Err(NOT_EMPTY.to_string()));
    assert_eq!(check_vacant(&names(&[""])), Err(NOT_EMPTY.to_string()));
}

#[test]
fn a_new_project_gets_the_standard_plan() {
    let plan = create_new_project_at(&names(&[".git"]), "2024-01-02T03:04:05+00:00".to_string()).unwrap();
    assert_eq!(plan.build_dir, "build");
    assert_eq!(plan.main_file, "main.tex");
    assert_eq!(plan.main_content, MAIN_FILE_TEMPLATE);
    assert_eq!(plan.meta.last_opened_file, Some("main.tex".to_string()));
    assert_eq!(plan.meta.root_file, "main.tex");
    let expected: serde_json::Value = serde_json::from_str(r#"{"created_at":"2024-01-02T03:04:05+00:00"}"#).unwrap();
    assert_eq!(plan.meta.project_settings, expected);
}

#[test]
fn a_new_project_is_stamped_with_the_current_time() {
    let plan = create_new_project(&names(&[])).unwrap();
    assert_eq!(plan.build_dir, "build");
    assert_eq!(plan.main_file, "main.tex");
    assert_eq!(plan.main_content, MAIN_FILE_TEMPLATE);
    let stamp = plan.meta.project_settings["created_at"].as_str().expect("a string");
    assert!(chrono::DateTime::parse_from_rfc3339(stamp).is_ok());
}

#[test]
fn a_new_project_is_refused_in_a_used_directory() {
    assert_eq!(create_new_project(&names(&["old.tex"])).unwrap_err(), NOT_EMPTY);
    assert_eq!(
        create_new_project_at(&names(&[".git", "old.tex"]), "t".to_string()).unwrap_err(),
        NOT_EMPTY
    );
}

#[test]
fn the_main_file_template_is_a_complete_document() {
    assert!(MAIN_FILE_TEMPLATE.starts_with("\\documentclass{article}\n\\usepackage[utf8]{inputenc}\n"));
    assert!(MAIN_FILE_TEMPLATE.contains("\\title{New LaTeX Project}"));
    assert!(MAIN_FILE_TEMPLATE.contains("\\begin{document}"));
    assert!(MAIN_FILE_TEMPLATE.contains("    E = mc^2\n"));
    assert!(MAIN_FILE_TEMPLATE.ends_with("\\]\n\n\\end{document}"));
    assert_eq!(MAIN_FILE_TEMPLATE.lines().count(), 36);
}

#[test]
fn creation_stages_word_their_failures() {
    assert_eq!(
        report_create(CreateStage::CreateProjectDir, Err::<(), String>("e".to_string())),
        Err("Failed to create project directory: e".to_string())
    );
    assert_eq!(
        report_create(CreateStage::ListProjectDir, Err::<Vec<String>, String>("e".to_string())),
        Err("Failed to read project directory: e".to_string())
    );
    assert_eq!(
        report_create(CreateStage::CreateBuildDir, Err::<(), String>("e".to_string())),
        Err("Failed to create build directory: e".to_string())
    );
    assert_eq!(
        report_create(CreateStage::WriteMainFile, Err::<(), String>("e".to_string())),
        Err("Failed to create main.tex: e".to_string())
    );
}

#[test]
fn creation_stages_pass_values_on() {
    assert_eq!(report_create(CreateStage::ListProjectDir, Ok::<Vec<String>, String>(names(&["a"]))), Ok(names(&["a"])));
    assert_eq!(report_create(CreateStage::WriteMainFile, Ok::<(), String>(())), Ok(()));
}
