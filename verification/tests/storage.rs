use circus::storage::{sanitize_file_name, Storage};

#[test]
fn file_names_keep_only_their_last_component() {
    assert_eq!(sanitize_file_name("report.pdf"), "report.pdf");
    assert_eq!(sanitize_file_name("../../etc/passwd"), "passwd");
    assert_eq!(sanitize_file_name("dir/my file (1).txt"), "my_file__1_.txt");
    assert_eq!(sanitize_file_name("naïve-ß_ok.md"), "naïve-ß_ok.md");
    assert_eq!(sanitize_file_name(".."), "file");
    assert_eq!(sanitize_file_name(""), "file");
    assert_eq!(sanitize_file_name("/"), "file");
    assert_eq!(sanitize_file_name("a/."), "a");
    assert_eq!(sanitize_file_name("."), "file");
    assert_eq!(sanitize_file_name("my report (1).pdf"), "my_report__1_.pdf");
}

#[test]
fn keys_are_task_attachment_name() {
    let key = Storage::key_for(1, 2, "x/y z.png");
    assert_eq!(
        key,
        "00000000-0000-0000-0000-000000000001/00000000-0000-0000-0000-000000000002/y_z.png"
    );
    assert_ne!(Storage::key_for(1, 2, "a"), Storage::key_for(1, 3, "a"));
}

#[test]
fn paths_stay_inside_the_base_directory() {
    let s = Storage::from_dir("/data/attachments".to_string());
    assert_eq!(s.base_dir(), "/data/attachments");
    assert_eq!(s.path_for("a/b/c.txt"), Some("/data/attachments/a/b/c.txt".to_string()));
    assert_eq!(s.path_for("/etc/passwd"), None);
    // a key that climbs out of the directory is refused
    assert_eq!(s.path_for("../x"), None);
    assert_eq!(s.path_for("a/../../x"), None);
    assert_eq!(s.path_for("a\\..\\x"), None);
    assert_eq!(s.path_for(".."), None);
    let d = Storage::from_dir("/data".to_string());
    assert_eq!(d.path_for("../etc/passwd"), None);
    // `..` inside a name is no segment of its own
    assert_eq!(s.path_for("a/..b/c"), Some("/data/attachments/a/..b/c".to_string()));
}

#[test]
fn keys_are_always_accepted_under_the_base() {
    let s = Storage::from_dir("/data/attachments".to_string());
    for name in ["../../etc/passwd", "..", "/abs/x.png", "a:b\\c.txt", ""] {
        let key = Storage::key_for(7, 8, name);
        let path = s.path_for(&key).expect("a key of key_for is accepted");
        assert!(path.starts_with("/data/attachments/"));
    }
}
