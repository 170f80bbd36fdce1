use lilium_sys::fs::{Component, FileType, Path, PathBuf};

#[test]
fn components_of_an_absolute_path() {
    let p = Path::new("/usr/lib");
    let mut c = p.components();
    match c.next().unwrap() {
        Component::Root => {}
        _ => panic!("an absolute path starts with the root component"),
    }
    assert_eq!(c.next().unwrap().as_str(), "usr");
    assert_eq!(c.next().unwrap().as_str(), "lib");
    assert!(c.next().is_none());
    assert!(c.next().is_none());
}

#[test]
fn components_classify_dot_and_dot_dot() {
    let p = Path::new("a/./../b");
    let mut c = p.components();
    assert_eq!(c.next().unwrap().as_str(), "a");
    match c.next().unwrap() {
        Component::CurDir => {}
        _ => panic!("a lone dot is the current directory"),
    }
    match c.next().unwrap() {
        Component::ParentDir => {}
        _ => panic!("a double dot is the parent directory"),
    }
    assert_eq!(c.next().unwrap().as_str(), "b");
    assert!(c.next().is_none());
}

#[test]
fn empty_pieces_are_real_components() {
    // Splitting keeps empty pieces, as the underlying separator split does.
    let p = Path::new("a//b/");
    let mut c = p.components();
    assert_eq!(c.next().unwrap().as_str(), "a");
    assert_eq!(c.next().unwrap().as_str(), "");
    assert_eq!(c.next().unwrap().as_str(), "b");
    assert_eq!(c.next().unwrap().as_str(), "");
    assert!(c.next().is_none());
}

#[test]
fn special_components_spell_themselves() {
    let p = Path::new("/x/./..");
    let mut c = p.components();
    assert_eq!(c.next().unwrap().as_str(), "/");
    assert_eq!(c.next().unwrap().as_str(), "x");
    assert_eq!(c.next().unwrap().as_str(), ".");
    assert_eq!(c.next().unwrap().as_str(), "..");
}

#[test]
fn file_name_takes_the_last_piece() {
    assert_eq!(Path::new("/usr/lib/libc.so").file_name().unwrap().as_str(), "libc.so");
    assert_eq!(Path::new("a/b/").file_name().unwrap().as_str(), "");
    assert!(Path::new("plain").file_name().is_none());
    assert!(Path::new("").file_name().is_none());
}

#[test]
fn path_text_round_trips() {
    let p = Path::new("/etc/hosts");
    assert_eq!(p.as_str(), "/etc/hosts");
    assert_eq!(p.len(), 10);
    let owned: PathBuf = p.to_path_buf();
    assert_eq!(owned.as_path().as_str(), "/etc/hosts");
    assert_eq!(owned.into_string(), "/etc/hosts");
    let built = PathBuf::from_string(String::from("x/y"));
    assert_eq!(built.as_path().as_str(), "x/y");
    assert_eq!(PathBuf::new().into_string(), "");
}

#[test]
fn kernel_string_record_covers_the_path() {
    let p = Path::new("/dev/null");
    assert_eq!(p.to_kstr_raw().as_str(), "/dev/null");
}

#[test]
fn file_types_decode_their_tags() {
    assert!(FileType(0).is_file());
    assert!(FileType(1).is_dir());
    assert!(FileType(2).is_symlink());
    assert!(FileType(3).is_fifo());
    assert!(FileType(4).is_socket());
    assert!(FileType(5).is_block_device());
    assert!(FileType(6).is_char_device());
    assert!(FileType(65535).is_custom());
    assert!(!FileType(1).is_file());
    assert!(!FileType(0).is_dir());
}
