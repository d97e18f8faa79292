use mcedit::analyzer::ProjectAnalyzer;

fn keys(names: &[&str]) -> Vec<String> {
    names.iter().map(|s| s.to_string()).collect()
}

#[test]
fn project_type_from_key_files() {
    let t = ProjectAnalyzer::detect_project_type(&keys(&["Cargo.toml", "Dockerfile", "README.md"]), &Vec::new());
    assert_eq!(t, vec!["Rust", "Docker"]);
    let t = ProjectAnalyzer::detect_project_type(&keys(&["setup.py"]), &Vec::new());
    assert_eq!(t, vec!["Python"]);
}

#[test]
fn project_type_from_extensions_then_unknown() {
    let counts = vec![("py".to_string(), 0), ("js".to_string(), 3), ("rs".to_string(), 0)];
    assert_eq!(ProjectAnalyzer::detect_project_type(&Vec::new(), &counts), vec!["JavaScript"]);
    assert_eq!(ProjectAnalyzer::detect_project_type(&Vec::new(), &Vec::new()), vec!["Unknown"]);
}

#[test]
fn languages_and_text_files() {
    assert_eq!(ProjectAnalyzer::language_of("rs"), "Rust");
    assert_eq!(ProjectAnalyzer::language_of("yaml"), "YAML");
    assert_eq!(ProjectAnalyzer::language_of("exe"), "Unknown");
    assert!(ProjectAnalyzer::is_text_extension("md"));
    assert!(!ProjectAnalyzer::is_text_extension("png"));
    assert_eq!(ProjectAnalyzer::new("/p").base_directory, "/p");
}
