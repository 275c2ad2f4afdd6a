use std::path::{Path, PathBuf};
use venv_sweeper::paths::ScanPath;

fn path(parts: &[&str]) -> ScanPath {
    ScanPath::from_parts(parts.iter().map(|part| part.to_string()).collect())
}

fn std_path(parts: &[&str]) -> PathBuf {
    parts.iter().collect()
}

#[test]
fn a_path_starts_with_itself_and_its_ancestors() {
    let file = path(&[".", "proj", "src", "main.py"]);
    assert!(file.starts_with(&file));
    assert!(file.starts_with(&path(&[".", "proj", "src"])));
    assert!(file.starts_with(&path(&[".", "proj"])));
    assert!(file.starts_with(&path(&["."])));
    assert!(file.starts_with(&path(&[])));
}

#[test]
fn a_path_does_not_start_with_a_sibling_or_a_descendant() {
    let dir = path(&[".", "proj"]);
    assert!(!dir.starts_with(&path(&[".", "pro"])));
    assert!(!dir.starts_with(&path(&[".", "project"])));
    assert!(!dir.starts_with(&path(&[".", "proj", "src"])));
    assert!(!dir.starts_with(&path(&["proj"])));
}

#[test]
fn starts_with_agrees_with_std() {
    let samples: Vec<Vec<&str>> = vec![
        vec![],
        vec!["."],
        vec!["/"],
        vec!["/", "a"],
        vec!["/", "a", "b"],
        vec![".", "a"],
        vec![".", "a", "b"],
        vec!["a"],
        vec!["a", "b"],
        vec!["ab"],
        vec!["a", "pyproject.toml"],
    ];
    for whole in &samples {
        for base in &samples {
            assert_eq!(
                path(whole).starts_with(&path(base)),
                std_path(whole).starts_with(std_path(base)),
                "{:?} under {:?}",
                whole,
                base
            );
        }
    }
}

#[test]
fn only_the_last_component_makes_a_marker() {
    assert!(path(&[".", "proj", "pyproject.toml"]).is_marker());
    assert!(path(&["pyproject.toml"]).is_marker());
    assert!(!path(&[".", "pyproject.toml", "notes.txt"]).is_marker());
    assert!(!path(&[".", "proj", "Pyproject.toml"]).is_marker());
    assert!(!path(&[".", "proj", "pyproject.toml.bak"]).is_marker());
    assert!(!path(&[]).is_marker());
}

#[test]
fn parent_drops_the_last_component() {
    assert_eq!(path(&[".", "proj", "pyproject.toml"]).parent(), Some(path(&[".", "proj"])));
    assert_eq!(path(&["pyproject.toml"]).parent(), Some(path(&[])));
    assert_eq!(path(&["/", "etc"]).parent(), Some(path(&["/"])));
}

#[test]
fn the_root_and_the_empty_path_have_no_parent() {
    assert_eq!(path(&["/"]).parent(), None);
    assert_eq!(path(&[]).parent(), None);
    assert_eq!(Path::new("/").parent(), None);
    assert_eq!(Path::new("").parent(), None);
}

#[test]
fn join_adds_one_component() {
    assert_eq!(path(&[".", "proj"]).join(".venv"), path(&[".", "proj", ".venv"]));
    assert_eq!(path(&[]).join(".venv"), path(&[".venv"]));
    assert_eq!(path(&[".", "proj"]).join(".venv").len(), 3);
}

#[test]
fn render_puts_one_separator_between_components() {
    assert_eq!(path(&[".", "proj", ".venv"]).render(), "./proj/.venv");
    assert_eq!(path(&["a", "b"]).render(), "a/b");
    assert_eq!(path(&["a"]).render(), "a");
    assert_eq!(path(&[]).render(), "");
}

#[test]
fn render_does_not_double_the_root() {
    assert_eq!(path(&["/"]).render(), "/");
    assert_eq!(path(&["/", "home", "me"]).render(), "/home/me");
}

#[test]
fn render_agrees_with_std() {
    let samples: Vec<Vec<&str>> = vec![
        vec![],
        vec!["."],
        vec!["/"],
        vec!["/", "a"],
        vec!["/", "a", "b c"],
        vec![".", "a", ".venv"],
        vec!["..", "a"],
        vec!["a", "b", "c"],
    ];
    for parts in &samples {
        assert_eq!(path(parts).render(), std_path(parts).to_str().unwrap(), "{:?}", parts);
    }
}

#[test]
fn clone_keeps_the_components() {
    let app = path(&["/", "srv", "app"]);
    assert_eq!(app.clone(), app);
}
