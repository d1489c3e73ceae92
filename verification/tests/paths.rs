use helix_win_runner::path::{relative_to_project, window_path_to_wsl};

#[test]
fn test_window_path_to_wsl() {
    let path = "C:\\Users\\USER\\OneDrive\\Desktop";
    let linux_path = window_path_to_wsl(path);
    assert_eq!(linux_path, "/mnt/c/Users/USER/OneDrive/Desktop");

    let path = "Users\\USER\\OneDrive\\Desktop";
    let linux_path = window_path_to_wsl(path);
    assert_eq!(linux_path, "Users/USER/OneDrive/Desktop");
}

#[test]
fn wsl_path_absolute_lowercases_drive() {
    assert_eq!(window_path_to_wsl("D:\\a\\b"), "/mnt/d/a/b");
    assert_eq!(window_path_to_wsl("d:\\a\\b"), "/mnt/d/a/b");
    assert_eq!(window_path_to_wsl("d:/already/slashed"), "/mnt/d/already/slashed");
    assert_eq!(window_path_to_wsl("1:/x"), "/mnt/1/x");
}

#[test]
fn wsl_path_non_absolute_only_normalizes_slashes() {
    assert_eq!(window_path_to_wsl(""), "");
    assert_eq!(window_path_to_wsl("ab"), "ab");
    assert_eq!(window_path_to_wsl("a\\b"), "a/b");
    assert_eq!(window_path_to_wsl("\\network\\share"), "/network/share");
    assert_eq!(window_path_to_wsl("x:a\\b"), "x:a/b");
}

#[test]
fn relative_path_strips_project_prefix() {
    let emitted = relative_to_project("/home/u/proj/src/main.rs", "/home/u/proj");
    assert_eq!(emitted, "src/main.rs");
}

#[test]
fn relative_path_keeps_non_matching_file() {
    assert_eq!(relative_to_project("/elsewhere/src/main.rs", "/home/u/proj"), "/elsewhere/src/main.rs");
    assert_eq!(relative_to_project("/home/u/proj", "/home/u/proj"), "/home/u/proj");
    assert_eq!(relative_to_project("short", "/home/u/proj"), "short");
}
