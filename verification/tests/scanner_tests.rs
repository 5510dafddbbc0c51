use pymanager::scanner::{
    get_python_versions, record_version, scan_directories, version_from_captures,
    INTERPRETER_PREFIX, VERSION_PATTERN,
};

fn names(list: &[&str]) -> Vec<String> {
    list.iter().map(|s| s.to_string()).collect()
}

#[test]
fn version_is_major_dot_minor() {
    let found = get_python_versions(&names(&["python3.11"])).unwrap();
    assert_eq!(found, names(&["3.11"]));
}

#[test]
fn longer_names_give_major_and_minor_only() {
    let found = get_python_versions(&names(&["python3.10.1"])).unwrap();
    assert_eq!(found, names(&["3.10"]));
    let found = get_python_versions(&names(&["python2.7-config"])).unwrap();
    assert_eq!(found, names(&["2.7"]));
}

#[test]
fn patch_release_and_plain_name_count_once() {
    let found =
        get_python_versions(&names(&["python3.10", "python3.10.1", "pythonX"])).unwrap();
    assert_eq!(found, names(&["3.10"]));
}

#[test]
fn names_without_digits_are_ignored() {
    let found = get_python_versions(&names(&["pythonX", "python", "python3", "python3."]))
        .unwrap();
    assert!(found.is_empty());
}

#[test]
fn names_without_the_prefix_are_ignored() {
    let found = get_python_versions(&names(&[
        "ipython3.9",
        "Python3.9",
        "pytho3.9",
        "perl5.30",
        "3.9",
    ]))
    .unwrap();
    assert!(found.is_empty());
}

#[test]
fn digits_must_follow_the_prefix_directly() {
    let found = get_python_versions(&names(&["python-3.9", "pythonXpython3.9"])).unwrap();
    assert!(found.is_empty());
}

#[test]
fn versions_keep_the_order_of_first_appearance() {
    let found = get_python_versions(&names(&[
        "python3.12",
        "ls",
        "python2.7",
        "python3.12-config",
        "python3.9",
        "python2.7",
    ]))
    .unwrap();
    assert_eq!(found, names(&["3.12", "2.7", "3.9"]));
}

#[test]
fn same_names_give_same_versions() {
    let entries = names(&["python3.8", "python3.10", "python3.8m", "bash"]);
    let once = get_python_versions(&entries).unwrap();
    let again = get_python_versions(&entries).unwrap();
    assert_eq!(once, again);
    assert_eq!(once, names(&["3.8", "3.10"]));
}

#[test]
fn version_in_both_directories_appears_once() {
    let mut entries = names(&["python3.11", "python3"]);
    entries.extend(names(&["python3.11", "python3.12"]));
    let found = get_python_versions(&entries).unwrap();
    assert_eq!(found, names(&["3.11", "3.12"]));
}

#[test]
fn no_names_give_no_versions() {
    assert_eq!(get_python_versions(&Vec::new()), Ok(Vec::new()));
}

#[test]
fn many_digits_are_taken_whole() {
    let found = get_python_versions(&names(&["python10.123abc"])).unwrap();
    assert_eq!(found, names(&["10.123"]));
}

#[test]
fn captures_are_joined_with_a_dot() {
    let groups = vec![
        Some("python3.11".to_string()),
        Some("3".to_string()),
        Some("11".to_string()),
    ];
    assert_eq!(version_from_captures(&groups), Some("3.11".to_string()));
}

#[test]
fn missing_groups_give_no_version() {
    assert_eq!(version_from_captures(&Vec::new()), None);
    assert_eq!(version_from_captures(&vec![Some("python3".to_string())]), None);
    assert_eq!(
        version_from_captures(&vec![Some("x".to_string()), Some("3".to_string())]),
        None
    );
    assert_eq!(
        version_from_captures(&vec![Some("x".to_string()), None, Some("1".to_string())]),
        None
    );
    assert_eq!(
        version_from_captures(&vec![Some("x".to_string()), Some("3".to_string()), None]),
        None
    );
}

#[test]
fn known_version_is_not_recorded_again() {
    let mut versions = names(&["3.9", "3.10"]);
    record_version(&mut versions, Some("3.9".to_string()));
    assert_eq!(versions, names(&["3.9", "3.10"]));
    record_version(&mut versions, Some("3.11".to_string()));
    assert_eq!(versions, names(&["3.9", "3.10", "3.11"]));
    record_version(&mut versions, None);
    assert_eq!(versions, names(&["3.9", "3.10", "3.11"]));
}

#[test]
fn two_directories_are_searched() {
    assert_eq!(scan_directories(), vec!["/usr/bin", "/usr/local/bin"]);
    assert_eq!(INTERPRETER_PREFIX, "python");
    assert_eq!(VERSION_PATTERN, r"^python(\d+)\.(\d+)");
}
