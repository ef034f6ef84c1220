use alpm::{AlpmList, AlpmListMut, Error, File, FileList};

#[test]
fn borrowed_list_view() {
    let items = ["a/", "b/", "c/", "z/"];
    let list = AlpmList::from_slice(&items);
    assert_eq!(list.len(), 4);
    assert!(!list.is_empty());
    assert_eq!(list.first(), Some(&"a/"));
    assert_eq!(list.get(3), Some(&"z/"));
    assert_eq!(list.get(4), None);
    assert_eq!(list.as_slice(), &items);
    let again: Vec<&str> = list.as_slice().iter().copied().collect();
    assert_eq!(again, vec!["a/", "b/", "c/", "z/"]);
}

#[test]
fn empty_borrowed_list() {
    let items: [u32; 0] = [];
    let list = AlpmList::from_slice(&items);
    assert!(list.is_empty());
    assert_eq!(list.len(), 0);
    assert_eq!(list.first(), None);
}

#[test]
fn owned_list_keeps_insertion_order() {
    let mut list = AlpmListMut::new();
    assert!(list.is_empty());
    list.push(String::from("flatpak"));
    list.push(String::from("ostree"));
    assert_eq!(list.len(), 2);
    assert_eq!(list.list().first(), Some(&String::from("flatpak")));
    assert_eq!(list.into_vec(), vec![String::from("flatpak"), String::from("ostree")]);
}

#[test]
fn owned_list_from_vec() {
    let list = AlpmListMut::from_vec(vec![1, 2, 3]);
    assert_eq!(list.list().as_slice(), &[1, 2, 3]);
    assert_eq!(list.into_vec(), vec![1, 2, 3]);
}

fn sample_files() -> FileList {
    FileList::new(vec![
        File::new(String::from("boot/"), 0, 0o40755),
        File::new(String::from("boot/vmlinuz-linux"), 11_000_000, 0o100644),
        File::new(String::from("etc/"), 0, 0o40755),
    ])
}

#[test]
fn file_fields() {
    let f = File::new(String::from("etc/pacman.conf"), 3_000, 0o100644);
    assert_eq!(f.name(), "etc/pacman.conf");
    assert_eq!(f.size(), 3_000);
    assert_eq!(f.mode(), 0o100644);
}

#[test]
fn contains_finds_the_exact_path() {
    let files = sample_files();
    let f = files.contains("boot/").unwrap().unwrap();
    assert_eq!(f.name(), "boot/");
    assert_eq!(f.mode(), 0o40755);
    let g = files.contains("boot/vmlinuz-linux").unwrap().unwrap();
    assert_eq!(g.size(), 11_000_000);
}

#[test]
fn contains_reports_a_missing_path_as_none() {
    let files = sample_files();
    assert!(files.contains("aaaaa/").unwrap().is_none());
    assert!(files.contains("boot").unwrap().is_none());
    assert!(files.contains("").unwrap().is_none());
}

#[test]
fn contains_refuses_a_path_with_nul() {
    let files = sample_files();
    assert_eq!(files.contains("boot/\0").unwrap_err(), Error::NulByte(5));
}

#[test]
fn empty_file_list() {
    let files = FileList::new(Vec::new());
    assert!(files.files().is_empty());
    assert!(files.contains("etc/").unwrap().is_none());
}

#[test]
fn files_in_order() {
    let files = sample_files();
    let names: Vec<&str> = files.files().iter().map(|f| f.name()).collect();
    assert_eq!(names, vec!["boot/", "boot/vmlinuz-linux", "etc/"]);
}
