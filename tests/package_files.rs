use alpm::{optional_or_empty, File, FileList};

#[test]
fn filelist_test_files() {
    // The sync database carries no file lists; the local one does.
    let files = FileList::new(Vec::new());

    assert!(files.files().is_empty());
    assert!(Some(files.files()).is_some());

    let files = FileList::new(vec![
        File::new(String::from("boot/"), 0, 0o40755),
        File::new(String::from("usr/"), 0, 0o40755),
        File::new(String::from("usr/lib/modules/"), 0, 0o40755),
    ]);

    assert!(!files.files().is_empty());
    assert!(Some(files.files()).is_some());

    let file = files.contains("boot/").unwrap().unwrap();
    assert_eq!(file.name(), "boot/");
    assert!(files.contains("aaaaa/").unwrap().is_none());
}

#[test]
fn package_test_files() {
    let files = FileList::new(vec![
        File::new(String::from("bin"), 7, 0o120777),
        File::new(String::from("etc/"), 0, 0o40755),
        File::new(String::from("etc/fstab"), 43, 0o100644),
    ]);

    for file in files.files() {
        println!("{}", file.name());
    }

    assert!(files.contains("etc/").unwrap().is_some());
    // A package from the local database has no file name.
    assert_eq!(optional_or_empty(None), "");
}
