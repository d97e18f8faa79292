use dirs::home_dir;
use mcedit::paths::{contract_tilde, contract_tilde_with, expand_tilde, expand_tilde_with};
use std::path::{Path, PathBuf};

#[test]
fn test_expand_tilde_no_tilde() {
    let path = "/usr/bin";
    let expanded = expand_tilde(path);
    assert_eq!(PathBuf::from(expanded), PathBuf::from("/usr/bin"));
}

#[test]
fn test_expand_tilde_home_only() {
    let expanded = expand_tilde("~");
    let home = home_dir().unwrap();
    assert_eq!(PathBuf::from(expanded), home);
}

#[test]
fn test_expand_tilde_home_slash() {
    let expanded = expand_tilde("~/Documents");
    let home = home_dir().unwrap();
    assert_eq!(PathBuf::from(expanded), home.join("Documents"));
}

#[test]
fn test_expand_tilde_user_not_supported() {
    let expanded = expand_tilde("~username/bin");
    assert_eq!(PathBuf::from(expanded), PathBuf::from("~username/bin"));
}

#[test]
fn test_contract_tilde_outside_home() {
    let path = Path::new("/var/log");
    let contracted = contract_tilde(&path.to_string_lossy());
    assert_eq!(contracted, "/var/log");
}

#[test]
fn test_contract_tilde_exact_home() {
    let home = home_dir().unwrap();
    let contracted = contract_tilde(&home.to_string_lossy());
    assert_eq!(contracted, "~");
}

#[test]
fn test_contract_tilde_home_subdir() {
    let home = home_dir().unwrap();
    let sub_path = home.join("Pictures");
    let contracted = contract_tilde(&sub_path.to_string_lossy());
    assert_eq!(contracted, "~/Pictures");
}

#[test]
fn tilde_with_given_home() {
    let home = Some("/home/ann".to_string());
    assert_eq!(expand_tilde_with("~", home.clone()), "/home/ann");
    assert_eq!(expand_tilde_with("~/a/b", home.clone()), "/home/ann/a/b");
    assert_eq!(expand_tilde_with("~/a", None), "~/a");
    assert_eq!(contract_tilde_with("/home/ann/x\\y", home.clone()), "~/x/y");
    assert_eq!(contract_tilde_with("/home/annex", home.clone()), "/home/annex");
    assert_eq!(contract_tilde_with("/home/ann/", home), "~");
}
