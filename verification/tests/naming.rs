use rrm::decimal::decimal_string;
use rrm::errors::TrashError;
use rrm::naming::resolve_naming_conflict;

fn strings(xs: &[&str]) -> Vec<String> {
    xs.iter().map(|s| s.to_string()).collect()
}

#[test]
fn decimal_plain() {
    assert_eq!(decimal_string(0, 1), "0");
    assert_eq!(decimal_string(7, 1), "7");
    assert_eq!(decimal_string(42, 1), "42");
    assert_eq!(decimal_string(90210, 1), "90210");
}

#[test]
fn decimal_padded() {
    assert_eq!(decimal_string(5, 2), "05");
    assert_eq!(decimal_string(12, 2), "12");
    assert_eq!(decimal_string(7, 4), "0007");
    assert_eq!(decimal_string(12345, 4), "12345");
}

#[test]
fn free_name_kept() {
    let occupied = strings(&["other.txt"]);
    let r = resolve_naming_conflict(&occupied, &"notes.txt".to_string());
    assert_eq!(r.unwrap(), "notes.txt");
}

#[test]
fn empty_directory_keeps_name() {
    let occupied: Vec<String> = Vec::new();
    let r = resolve_naming_conflict(&occupied, &"a".to_string());
    assert_eq!(r.unwrap(), "a");
}

#[test]
fn occupied_name_gets_counter_before_extension() {
    let occupied = strings(&["notes.txt"]);
    let r = resolve_naming_conflict(&occupied, &"notes.txt".to_string());
    assert_eq!(r.unwrap(), "notes(1).txt");
}

#[test]
fn repeated_conflicts_count_up() {
    let occupied = strings(&["notes.txt", "notes(1).txt"]);
    let r = resolve_naming_conflict(&occupied, &"notes.txt".to_string());
    assert_eq!(r.unwrap(), "notes(2).txt");

    let occupied = strings(&["notes.txt", "notes(1).txt", "notes(2).txt"]);
    let r = resolve_naming_conflict(&occupied, &"notes.txt".to_string());
    assert_eq!(r.unwrap(), "notes(3).txt");
}

#[test]
fn counter_fills_earliest_gap() {
    let occupied = strings(&["notes.txt", "notes(2).txt"]);
    let r = resolve_naming_conflict(&occupied, &"notes.txt".to_string());
    assert_eq!(r.unwrap(), "notes(1).txt");
}

#[test]
fn no_extension_gets_counter_appended() {
    let occupied = strings(&["archive"]);
    let r = resolve_naming_conflict(&occupied, &"archive".to_string());
    assert_eq!(r.unwrap(), "archive(1)");
}

#[test]
fn only_last_extension_is_preserved() {
    let occupied = strings(&["a.tar.gz"]);
    let r = resolve_naming_conflict(&occupied, &"a.tar.gz".to_string());
    assert_eq!(r.unwrap(), "a.tar(1).gz");
}

#[test]
fn leading_dot_name_counts_as_extension() {
    let occupied = strings(&[".bashrc"]);
    let r = resolve_naming_conflict(&occupied, &".bashrc".to_string());
    assert_eq!(r.unwrap(), "(1).bashrc");
}

#[test]
fn resolution_is_deterministic_for_same_set() {
    let occupied = strings(&["f.txt"]);
    let a = resolve_naming_conflict(&occupied, &"f.txt".to_string()).unwrap();
    let b = resolve_naming_conflict(&occupied, &"f.txt".to_string()).unwrap();
    assert_eq!(a, b);
    assert_eq!(a, "f(1).txt");
    assert!(!occupied.contains(&a));
}

#[test]
fn error_message_texts() {
    assert_eq!(TrashError::NotFound.message(), "No such file or directory");
    assert_eq!(TrashError::InvalidInput.message(), "Invalid input");
    assert_eq!(TrashError::PermissionDenied.message(), "Permission denied");
    assert_eq!(TrashError::Io.message(), "Input/output error");
    assert_eq!(TrashError::CrossDevice.message(), "Invalid cross-device link");
    assert_eq!(TrashError::Conflict.message(), "Too many name collisions");
}
