use incipit::names::{file_stem, is_hidden, pdf_name, BUILD_DIR, METADATA_FILE, PDF_EXTENSION};

#[test]
fn dotfiles_are_hidden() {
    assert!(is_hidden(".gitignore"));
    assert!(is_hidden("."));
    assert!(is_hidden(".."));
    assert!(is_hidden(".a.tex"));
}

#[test]
fn the_metadata_file_is_hidden() {
    assert_eq!(METADATA_FILE, ".incipit");
    assert!(is_hidden(METADATA_FILE));
}

#[test]
fn other_names_are_not_hidden() {
    assert!(!is_hidden("main.tex"));
    assert!(!is_hidden("a.b"));
    assert!(!is_hidden("incipit"));
    assert!(!is_hidden(" .x"));
    assert!(!is_hidden(""));
    assert!(!is_hidden("é.tex"));
}

#[test]
fn stem_drops_the_last_extension() {
    assert_eq!(file_stem("main.tex"), "main");
    assert_eq!(file_stem("archive.tar.gz"), "archive.tar");
    assert_eq!(file_stem("a."), "a");
    assert_eq!(file_stem("a.b.c.d"), "a.b.c");
}

#[test]
fn stem_of_a_name_without_extension_is_the_name() {
    assert_eq!(file_stem("Makefile"), "Makefile");
    assert_eq!(file_stem(""), "");
}

#[test]
fn stem_of_a_dotfile_keeps_the_leading_dot() {
    assert_eq!(file_stem(".bashrc"), ".bashrc");
    assert_eq!(file_stem(".config.tex"), ".config");
    assert_eq!(file_stem("."), ".");
}

#[test]
fn stem_counts_characters_not_bytes() {
    assert_eq!(file_stem("résumé.tex"), "résumé");
    assert_eq!(file_stem("日本語.tex"), "日本語");
    assert_eq!(file_stem("é"), "é");
}

#[test]
fn pdf_name_replaces_the_extension() {
    assert_eq!(pdf_name(Some("main.tex")), Ok("main.pdf".to_string()));
    assert_eq!(pdf_name(Some("thesis.v2.tex")), Ok("thesis.v2.pdf".to_string()));
    assert_eq!(pdf_name(Some("notes")), Ok("notes.pdf".to_string()));
    assert_eq!(pdf_name(Some(".hidden")), Ok(".hidden.pdf".to_string()));
}

#[test]
fn pdf_name_of_no_file_is_refused() {
    assert_eq!(pdf_name(None), Err("Invalid file path".to_string()));
}

#[test]
fn build_directory_and_extension() {
    assert_eq!(BUILD_DIR, "build");
    assert_eq!(PDF_EXTENSION, ".pdf");
}
