use qubit_local_files::{
    LocalFileErrorKind, LocalFileNames, LocalFileOperation, LocalFilenames, LocalIoError, LocalIoErrorKind,
    LocalNameEntropy,
};

fn entropy() -> LocalNameEntropy {
    LocalNameEntropy { timestamp: 0x0123_4567_89ab_cdef, process_id: 0x2a, random: 0xff }
}

fn rejection(name: &str) -> String {
    let error = LocalFilenames::validate_portable_file_name(name).unwrap_err();
    assert_eq!(error.kind(), LocalIoErrorKind::InvalidInput);
    error.message().to_string()
}

#[test]
fn portable_names_are_accepted() {
    for name in ["report.txt", "archive.tar.gz", ".env", "COM0", "CONSOLE", "con-x", "naïve.md"] {
        assert!(LocalFilenames::validate_portable_file_name(name).is_ok(), "{name}");
    }
}

#[test]
fn portable_name_rules_are_checked_in_order() {
    assert_eq!(rejection(""), "file name must not be empty");
    assert_eq!(rejection("."), "file name must not be `.` or `..`");
    assert_eq!(rejection(".."), "file name must not be `.` or `..`");
    assert_eq!(rejection(&"a".repeat(256)), "file name must be at most 255 UTF-8 bytes");
    assert!(LocalFilenames::validate_portable_file_name(&"a".repeat(255)).is_ok());
    assert_eq!(rejection(&"é".repeat(128)), "file name must be at most 255 UTF-8 bytes");
    for name in ["a/b", "a\\b", "a:b", "a*b", "a?b", "a\"b", "a<b", "a>b", "a|b", "a\0b", "a\tb", "a\u{85}b"] {
        assert_eq!(rejection(name), "file name contains a forbidden character", "{name:?}");
    }
    assert_eq!(rejection("name "), "file name must not end with a space or dot");
    assert_eq!(rejection("name."), "file name must not end with a space or dot");
}

#[test]
fn reserved_device_names_are_rejected_in_any_case() {
    for name in ["CON", "con", "Prn.txt", "aux", "NUL.tar.gz", "COM1", "com9", "LPT3", "COM\u{b9}", "lpt\u{b3}.log"] {
        assert_eq!(rejection(name), "file name uses a reserved device name", "{name:?}");
    }
}

#[test]
fn path_components_follow_path_semantics() {
    assert_eq!(LocalFilenames::file_name(b"/tmp/archive.tar.gz"), Some(String::from("archive.tar.gz")));
    assert_eq!(LocalFilenames::file_stem(b"/tmp/archive.tar.gz"), Some(String::from("archive.tar")));
    assert_eq!(LocalFilenames::file_prefix(b"/tmp/archive.tar.gz"), Some(String::from("archive")));
    assert_eq!(LocalFilenames::extension(b"/tmp/archive.tar.gz"), Some(String::from("gz")));
    assert_eq!(LocalFilenames::file_name(b"dir/name/."), Some(String::from("name")));
    assert_eq!(LocalFilenames::file_name(b"dir/name//"), Some(String::from("name")));
    assert_eq!(LocalFilenames::file_name(b"dir/.."), None);
    assert_eq!(LocalFilenames::file_name(b"/"), None);
    assert_eq!(LocalFilenames::file_name(b"."), None);
    assert_eq!(LocalFilenames::file_name(b""), None);
    assert_eq!(LocalFilenames::file_name(&[b'a', 0xff]), None);
}

#[test]
fn dotfiles_have_no_extension_unless_they_hold_another_dot() {
    assert_eq!(LocalFilenames::extension(b".env"), None);
    assert_eq!(LocalFilenames::file_stem(b".env"), Some(String::from(".env")));
    assert_eq!(LocalFilenames::file_prefix(b".env.local"), Some(String::from(".env")));
    assert_eq!(LocalFilenames::extension(b".env.local"), Some(String::from("local")));
    assert_eq!(LocalFilenames::extension(b"name."), Some(String::new()));
    assert_eq!(LocalFilenames::file_stem(b"name."), Some(String::from("name")));
    assert_eq!(LocalFilenames::extension(b"noext"), None);
}

#[test]
fn dotted_extensions_and_extension_tests() {
    assert_eq!(LocalFilenames::dot_extension(b"a/b.txt"), Some(String::from(".txt")));
    assert_eq!(LocalFilenames::dot_extension(b"name."), Some(String::new()));
    assert_eq!(LocalFilenames::dot_extension(b"noext"), None);
    assert!(LocalFilenames::has_extension(b"/tmp/archive.tar.gz", ".gz"));
    assert!(LocalFilenames::has_extension(b"/tmp/archive.tar.gz", "gz"));
    assert!(!LocalFilenames::has_extension(b"/tmp/archive.tar.gz", "GZ"));
    assert!(!LocalFilenames::has_extension(b"/tmp/archive.tar.gz", "tar.gz"));
    assert!(LocalFilenames::has_extension_ignore_ascii_case(b"photo.JPG", ".jpg"));
    assert!(!LocalFilenames::has_extension_ignore_ascii_case(b"photo.JPG", "png"));
    assert!(LocalFilenames::has_extension_ignore_ascii_case(b"x.\xc3\xa9", "\u{e9}"));
    assert!(!LocalFilenames::has_extension_ignore_ascii_case(b"x.\xc3\xa9", "\u{c9}"));
}

#[test]
fn file_names_from_path_like_strings() {
    assert_eq!(LocalFilenames::file_name_from_path("dir/sub\\file.txt"), "file.txt");
    assert_eq!(LocalFilenames::file_name_from_path("plain"), "plain");
    assert_eq!(LocalFilenames::file_name_from_path("dir/"), "");
}

#[test]
fn file_names_from_urls() {
    assert_eq!(LocalFilenames::file_name_from_url("https://example.com/a/b.txt?x=1#top"), "b.txt");
    assert_eq!(LocalFilenames::file_name_from_url("https://example.com"), "");
    assert_eq!(LocalFilenames::file_name_from_url("https://example.com/"), "");
    assert_eq!(LocalFilenames::file_name_from_url("mailto:user@example.com"), "user@example.com");
    assert_eq!(LocalFilenames::file_name_from_url("https://x.org/a%20b.txt"), "a b.txt");
    assert_eq!(LocalFilenames::file_name_from_url("https://x.org/caf%C3%A9"), "café");
    assert_eq!(LocalFilenames::file_name_from_url("https://x.org/a%2Fb"), "a%2Fb");
    assert_eq!(LocalFilenames::file_name_from_url("https://x.org/%2E%2E"), "%2E%2E");
    assert_eq!(LocalFilenames::file_name_from_url("https://x.org/a%ZZ"), "a%ZZ");
    assert_eq!(LocalFilenames::file_name_from_url("https://x.org/a%FF"), "a%FF");
    assert_eq!(LocalFilenames::file_name_from_url("relative/dir/file.bin"), "file.bin");
}

#[test]
fn random_names_are_built_from_entropy() {
    let name = LocalFilenames::random(&entropy());
    assert_eq!(name, "qubit-local-files-0123456789abcdef-0000002a-00000000000000ff");
    assert!(name.starts_with(LocalFilenames::DEFAULT_RANDOM_PREFIX));
    let custom = LocalFilenames::random_with(Some("job-"), Some(".tmp"), &entropy());
    assert_eq!(custom, "job-0123456789abcdef-0000002a-00000000000000ff.tmp");
    let other = LocalNameEntropy { random: 0x100, ..entropy() };
    assert_ne!(LocalFilenames::random(&other), name);
}

#[test]
fn random_name_affixes_must_be_fragments() {
    let error = LocalFilenames::try_random_with(Some("a/b"), None, Ok(entropy())).unwrap_err();
    assert_eq!(error.kind(), LocalIoErrorKind::InvalidInput);
    assert_eq!(error.message(), "random file-name prefix must be a file-name fragment");
    let error = LocalFilenames::try_random_with(None, Some(".."), Ok(entropy())).unwrap_err();
    assert_eq!(error.message(), "random file-name suffix must be a file-name fragment");
    let error = LocalFilenames::try_random(Err(LocalIoError::other("no entropy"))).unwrap_err();
    assert_eq!(error.kind(), LocalIoErrorKind::Other);
    assert_eq!(LocalFilenames::try_random(Ok(entropy())).unwrap(), LocalFilenames::random(&entropy()));
}

#[test]
fn native_names_report_structured_errors() {
    let name = LocalFileNames::random_name(Ok(entropy())).unwrap();
    assert_eq!(name, LocalFilenames::random(&entropy()).into_bytes());
    let error = LocalFileNames::random_name_with(Some("x:y"), None, Ok(entropy())).unwrap_err();
    assert_eq!(error.operation(), LocalFileOperation::GenerateName);
    assert_eq!(error.kind(), LocalFileErrorKind::InvalidInput);
    assert!(LocalFileNames::validate_portable(b"ok.txt").is_ok());
    let error = LocalFileNames::validate_portable(&[0xff]).unwrap_err();
    assert_eq!(error.kind(), LocalFileErrorKind::InvalidPath);
    assert_eq!(error.operation(), LocalFileOperation::ValidateName);
    let error = LocalFileNames::validate_portable(b"CON").unwrap_err();
    assert_eq!(error.kind(), LocalFileErrorKind::InvalidInput);
    assert_eq!(error.io_error_kind(), Some(LocalIoErrorKind::InvalidInput));
}
