use qubit_local_files::{
    LocalFileErrorKind, LocalFileOperation, LocalIoError, LocalIoErrorKind, LocalPathCodec, LocalPathCodecError, LocalPaths,
    LocalRelativePath,
};

#[test]
fn codec_decodes_plain_and_escaped_text() {
    assert_eq!(LocalPathCodec::encode("report.txt"), Ok(b"report.txt".to_vec()));
    assert_eq!(LocalPathCodec::encode("100%25"), Ok(b"100%".to_vec()));
    assert_eq!(LocalPathCodec::encode("bad%FF"), Ok(vec![b'b', b'a', b'd', 0xff]));
}

#[test]
fn codec_rejects_malformed_and_non_canonical_text() {
    assert_eq!(LocalPathCodec::encode("a%G0"), Err(LocalPathCodecError::InvalidEscape { offset: 1 }));
    assert_eq!(LocalPathCodec::encode("a%00"), Err(LocalPathCodecError::NativeNul));
    assert_eq!(LocalPathCodec::encode("a%62"), Err(LocalPathCodecError::NonCanonicalText));
    assert_eq!(LocalPathCodec::encode("%ff"), Err(LocalPathCodecError::NonCanonicalText));
}

#[test]
fn codec_escapes_percent_controls_and_invalid_bytes() {
    assert_eq!(LocalPathCodec::decode(b"100%"), Ok(String::from("100%25")));
    assert_eq!(LocalPathCodec::decode(&[b'a', 0x0a]), Ok(String::from("a%0A")));
    assert_eq!(LocalPathCodec::decode(&[b'x', 0xff]), Ok(String::from("x%FF")));
    assert_eq!(LocalPathCodec::decode("é".as_bytes()), Ok(String::from("é")));
    assert_eq!(LocalPathCodec::decode(&[b'a', 0]), Err(LocalPathCodecError::NativeNul));
}

#[test]
fn codec_round_trips_native_components() {
    for native in [b"plain".to_vec(), vec![0xfe, b'%', 0x7f], "naïve".as_bytes().to_vec()] {
        let text = LocalPathCodec::decode(&native).unwrap();
        assert_eq!(LocalPathCodec::encode(&text), Ok(native));
    }
}

#[test]
fn uri_component_decoding_accepts_any_escape_case() {
    assert_eq!(LocalPathCodec::decode_uri_component("a%62c"), Ok(String::from("abc")));
    assert_eq!(LocalPathCodec::decode_uri_component("a+b"), Ok(String::from("a+b")));
    assert_eq!(LocalPathCodec::decode_uri_component("%zz"), Err(LocalPathCodecError::InvalidEscape { offset: 0 }));
    assert_eq!(LocalPathCodec::decode_uri_component("%0a"), Ok(String::from("%0A")));
}

#[test]
fn paths_build_and_split_absolute_components() {
    let path = LocalPaths::from_canonical_absolute_components(&["", "usr", "100%25"]).unwrap();
    assert_eq!(path, b"/usr/100%".to_vec());
    let parts = LocalPaths::to_canonical_absolute_components(b"/usr//100%").unwrap();
    assert_eq!(parts, vec![String::new(), String::from("usr"), String::from("100%25")]);
    let root = LocalPaths::from_canonical_absolute_components(&[""]).unwrap();
    assert_eq!(root, b"/".to_vec());
}

#[test]
fn paths_build_and_split_relative_components() {
    let path = LocalPaths::from_canonical_relative_components(&["a", "b"]).unwrap();
    assert_eq!(path, b"a/b".to_vec());
    assert_eq!(
        LocalPaths::to_canonical_relative_components(b"a/b/").unwrap(),
        vec![String::from("a"), String::from("b")]
    );
    assert!(LocalPaths::from_canonical_relative_components(&[]).is_err());
    assert!(LocalPaths::from_canonical_relative_components(&[".."]).is_err());
    assert!(LocalPaths::to_canonical_relative_components(b"/abs").is_err());
    assert!(LocalPaths::to_canonical_relative_components(b"a/../b").is_err());
}

#[test]
fn paths_reject_invalid_components() {
    let error = LocalPaths::from_canonical_absolute_components(&["", "a/b"]).unwrap_err();
    assert_eq!(error.kind(), LocalFileErrorKind::InvalidPath);
    let error = LocalPaths::from_canonical_absolute_components(&["x"]).unwrap_err();
    assert_eq!(error.kind(), LocalFileErrorKind::InvalidPath);
}

#[test]
fn paths_bind_host_paths_against_the_working_directory() {
    assert_eq!(LocalPaths::bind_host_path(b"/abs", Err(LocalIoError::other("no cwd"))).unwrap(), b"/abs".to_vec());
    assert_eq!(LocalPaths::bind_host_path(b"rel", Ok(b"/work".to_vec())).unwrap(), b"/work/rel".to_vec());
    let error = LocalPaths::bind_host_path(b"rel", Err(LocalIoError::from_kind(LocalIoErrorKind::NotFound))).unwrap_err();
    assert_eq!(error.kind(), LocalFileErrorKind::NotFound);
    let pair = LocalPaths::bind_host_paths([b"/a", b"b"], Ok(b"/w".to_vec())).unwrap();
    assert_eq!(pair, [b"/a".to_vec(), b"/w/b".to_vec()]);
}

#[test]
fn paths_compare_and_compose_lexically() {
    assert_eq!(LocalPaths::is_lexically_within(b"/a/b", b"/a").unwrap(), true);
    assert_eq!(LocalPaths::is_lexically_within(b"/a", b"/a/b").unwrap(), false);
    assert_eq!(LocalPaths::is_lexically_within(b"/ab", b"/a").unwrap(), false);
    assert!(LocalPaths::is_lexically_within(b"a", b"/a").is_err());
    assert_eq!(LocalPaths::compose_descendant(b"/a", b"b/c").unwrap(), b"/a/b/c".to_vec());
    assert!(LocalPaths::compose_descendant(b"/a", b"../c").is_err());
    let composed = LocalPaths::compose_descendant(b"/base", b"x").unwrap();
    assert_eq!(LocalPaths::is_lexically_within(&composed, b"/base").unwrap(), true);
}

#[test]
fn relative_paths_validate_and_join() {
    let path = LocalRelativePath::new(b"a/b").unwrap();
    assert_eq!(path.as_path(), b"a/b".as_slice());
    let joined = path.join(b"c").unwrap();
    assert_eq!(joined.as_path(), b"a/b/c".as_slice());
    assert_eq!(path.join_component(b"d").unwrap().as_path(), b"a/b/d".as_slice());
    assert!(path.join_component(b"d/e").is_err());
    for bad in [b"".as_slice(), b"/a", b"a/./b", b"a/..", b"a\0b"] {
        let error = LocalRelativePath::new(bad).unwrap_err();
        assert_eq!(error.kind(), LocalIoErrorKind::InvalidInput);
        assert!(error.message().starts_with("rooted path must be non-empty"));
    }
}

#[test]
fn canonical_components_reject_empty_absolute_and_dotted_shapes() {
    for path in [&b""[..], &b"/a"[..], &b"a/./b"[..]] {
        let error = LocalPaths::to_canonical_relative_components(path).unwrap_err();
        assert_eq!(error.operation(), LocalFileOperation::ComposePath);
    }
    let empty: [&str; 0] = [];
    assert_eq!(
        LocalPaths::from_canonical_absolute_components(&empty).unwrap_err().operation(),
        LocalFileOperation::ComposePath
    );
    assert_eq!(
        LocalPaths::from_canonical_absolute_components(&["a"]).unwrap_err().operation(),
        LocalFileOperation::ComposePath
    );
    let parts = LocalPaths::to_canonical_relative_components(b"x/y/z").unwrap();
    assert_eq!(parts.len(), 3);
    let refs: Vec<&str> = parts.iter().map(String::as_str).collect();
    assert_eq!(LocalPaths::from_canonical_relative_components(&refs).unwrap(), b"x/y/z".to_vec());
}
