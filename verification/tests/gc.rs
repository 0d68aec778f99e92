use remote_server::gc::{
    cleanup_plan, image_among, is_file_in_use, is_new_version, is_store_path, parse_version,
    should_remove_binary, strip_name_prefix, BinaryCandidate, SemanticVersion,
};

fn v(major: u64, minor: u64, patch: u64) -> SemanticVersion {
    SemanticVersion {
        major,
        minor,
        patch,
    }
}

#[test]
fn version_parsing_accepts_major_minor_patch() {
    assert_eq!(parse_version(&b"1.2.3".to_vec()), Some(v(1, 2, 3)));
    assert_eq!(parse_version(&b"0.0.0".to_vec()), Some(v(0, 0, 0)));
    assert_eq!(parse_version(&b"10.200.3000".to_vec()), Some(v(10, 200, 3000)));
}

#[test]
fn version_parsing_rejects_other_shapes() {
    assert_eq!(parse_version(&b"".to_vec()), None);
    assert_eq!(parse_version(&b"1.2".to_vec()), None);
    assert_eq!(parse_version(&b"1..3".to_vec()), None);
    assert_eq!(parse_version(&b"1.2.3-pre".to_vec()), None);
    assert_eq!(parse_version(&b"1.2.3.4".to_vec()), None);
    assert_eq!(parse_version(&b"v1.2.3".to_vec()), None);
}

#[test]
fn version_order_is_lexicographic() {
    assert!(v(2, 0, 0).is_at_least(&v(1, 9, 9)));
    assert!(v(1, 3, 0).is_at_least(&v(1, 2, 9)));
    assert!(v(1, 2, 3).is_at_least(&v(1, 2, 3)));
    assert!(!v(1, 2, 3).is_at_least(&v(1, 2, 4)));
    assert!(!v(0, 9, 9).is_at_least(&v(1, 0, 0)));
}

#[test]
fn embedded_version_comparison_against_running() {
    assert!(is_new_version(&b"2.0.0".to_vec(), &v(2, 0, 0)));
    assert!(is_new_version(&b"2.0.1".to_vec(), &v(2, 0, 0)));
    assert!(!is_new_version(&b"1.9.9".to_vec(), &v(2, 0, 0)));
    // Unparseable versions are never "new".
    assert!(!is_new_version(&b"abc".to_vec(), &v(2, 0, 0)));
}

#[test]
fn prefix_stripping() {
    let prefix = b"server-".to_vec();
    assert_eq!(
        strip_name_prefix(&b"server-1.2.3".to_vec(), &prefix),
        Some(b"1.2.3".to_vec())
    );
    assert_eq!(strip_name_prefix(&b"client-1.2.3".to_vec(), &prefix), None);
    assert_eq!(strip_name_prefix(&b"serv".to_vec(), &prefix), None);
    assert_eq!(strip_name_prefix(&b"server-".to_vec(), &prefix), Some(Vec::new()));
}

#[test]
fn only_the_superseded_binary_is_deleted() {
    // Binaries v1.0.0 and v2.0.0 on disk, running version 2.0.0, neither
    // in use nor store-symlinked: only v1.0.0 goes.
    let prefix = b"zed-remote-server-stable-".to_vec();
    let running = v(2, 0, 0);
    let candidates = vec![
        BinaryCandidate {
            name: b"zed-remote-server-stable-1.0.0".to_vec(),
            in_use: false,
            store_symlink: false,
        },
        BinaryCandidate {
            name: b"zed-remote-server-stable-2.0.0".to_vec(),
            in_use: false,
            store_symlink: false,
        },
    ];
    let plan = cleanup_plan(&candidates, &prefix, &running);
    assert_eq!(plan, vec![0]);
}

#[test]
fn in_use_and_store_symlinked_binaries_are_kept() {
    let prefix = b"srv-".to_vec();
    let running = v(2, 0, 0);
    assert!(should_remove_binary(
        &b"srv-1.0.0".to_vec(),
        &prefix,
        &running,
        false,
        false
    ));
    assert!(!should_remove_binary(
        &b"srv-1.0.0".to_vec(),
        &prefix,
        &running,
        true,
        false
    ));
    assert!(!should_remove_binary(
        &b"srv-1.0.0".to_vec(),
        &prefix,
        &running,
        false,
        true
    ));
    // Files that do not match the prefix are no candidates at all.
    assert!(!should_remove_binary(
        &b"other-1.0.0".to_vec(),
        &prefix,
        &running,
        false,
        false
    ));
    // Newer-or-equal binaries stay.
    assert!(!should_remove_binary(
        &b"srv-2.0.0".to_vec(),
        &prefix,
        &running,
        false,
        false
    ));
    assert!(!should_remove_binary(
        &b"srv-3.0.0".to_vec(),
        &prefix,
        &running,
        false,
        false
    ));
}

#[test]
fn unparseable_candidate_versions_are_collected() {
    let prefix = b"srv-".to_vec();
    let running = v(2, 0, 0);
    assert!(should_remove_binary(
        &b"srv-unversioned".to_vec(),
        &prefix,
        &running,
        false,
        false
    ));
}

#[test]
fn store_path_detection() {
    assert!(is_store_path(&b"/nix/store/abc123-server/bin/server".to_vec()));
    assert!(is_store_path(&b"/nix/store".to_vec()));
    assert!(!is_store_path(&b"/usr/local/bin/server".to_vec()));
    assert!(!is_store_path(&b"/nix/stor".to_vec()));
}

#[test]
fn a_name_no_process_runs_under_is_not_in_use() {
    assert!(!is_file_in_use(
        &b"no-such-executable-image-a1b2c3d4e5".to_vec()
    ));
}

#[test]
fn image_membership_is_exact() {
    let images = vec![b"bash".to_vec(), b"server-2.0.0".to_vec()];
    assert!(image_among(&images, &b"server-2.0.0".to_vec()));
    assert!(!image_among(&images, &b"server-1.0.0".to_vec()));
    assert!(!image_among(&Vec::new(), &b"bash".to_vec()));
}
