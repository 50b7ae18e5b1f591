use devenv_sandbox::policy::{build_policy, is_beneath, Policy};
use devenv_sandbox::rights::{AccessRight, AccessSet, FeatureVersion};

fn paths_of(policy: &Policy) -> Vec<String> {
    let mut paths = Vec::new();
    for i in 0..policy.len() {
        paths.push(policy.rule(i).path.clone());
    }
    paths
}

#[test]
fn the_allowlist_names_nine_paths_in_order() {
    let policy = build_policy("/work/project", "/run/user/1000", "/home/ada", FeatureVersion::V2);
    assert_eq!(policy.len(), 9);
    assert_eq!(
        paths_of(&policy),
        vec![
            "/work/project",
            "/run/user/1000",
            "/home/ada/.cache/uv",
            "/proc",
            "/tmp",
            "/dev/tty",
            "/dev/null",
            "/nix",
            "/proc/stat",
        ]
    );
}

#[test]
fn the_first_seven_paths_get_every_right_of_the_version() {
    let policy = build_policy("/work/project", "/run/user/1000", "/home/ada", FeatureVersion::V2);
    assert_eq!(policy.handled().bits(), 0x3FFF);
    for i in 0..7 {
        assert_eq!(policy.rule(i).rights.bits(), 0x3FFF);
        assert!(policy.rule(i).rights.contains(AccessRight::WriteFile));
        assert!(policy.rule(i).rights.contains(AccessRight::Refer));
    }
}

#[test]
fn the_last_two_paths_may_only_be_read() {
    let policy = build_policy("/work/project", "/run/user/1000", "/home/ada", FeatureVersion::V2);
    for i in 7..9 {
        let rights = policy.rule(i).rights;
        assert_eq!(rights.bits(), 0xD);
        assert!(rights.contains(AccessRight::ReadFile));
        assert!(rights.contains(AccessRight::ReadDir));
        assert!(rights.contains(AccessRight::Execute));
        assert!(!rights.contains(AccessRight::WriteFile));
        assert!(!rights.contains(AccessRight::MakeReg));
        assert!(!rights.contains(AccessRight::MakeDir));
        assert!(!rights.contains(AccessRight::RemoveFile));
        assert!(!rights.contains(AccessRight::RemoveDir));
        assert!(!rights.contains(AccessRight::Refer));
    }
}

#[test]
fn only_the_sandbox_root_is_required() {
    let policy = build_policy("/work/project", "/run/user/1000", "/home/ada", FeatureVersion::V2);
    assert!(!policy.rule(0).optional);
    for i in 1..9 {
        assert!(policy.rule(i).optional);
    }
}

#[test]
fn the_version_decides_the_rights() {
    let first = build_policy("/r", "/run", "/h", FeatureVersion::V1);
    assert_eq!(first.handled().bits(), 0x1FFF);
    assert_eq!(first.rule(0).rights.bits(), 0x1FFF);
    assert_eq!(first.rule(8).rights.bits(), 0xD);
    let fifth = build_policy("/r", "/run", "/h", FeatureVersion::V5);
    assert_eq!(fifth.handled().bits(), 0xFFFF);
    assert_eq!(fifth.rule(6).rights.bits(), 0xFFFF);
    assert_eq!(fifth.rule(7).rights.bits(), 0xD);
}

#[test]
fn the_cache_path_is_joined_as_written() {
    let policy = build_policy("", "", "", FeatureVersion::V2);
    assert_eq!(policy.rule(0).path, "");
    assert_eq!(policy.rule(1).path, "");
    assert_eq!(policy.rule(2).path, "/.cache/uv");
    let slashed = build_policy("/r", "/run", "/home/ada/", FeatureVersion::V2);
    assert_eq!(slashed.rule(2).path, "/home/ada//.cache/uv");
}

#[test]
fn a_new_policy_grants_nothing() {
    let policy = Policy::new(FeatureVersion::V2.all_rights());
    assert_eq!(policy.len(), 0);
    assert_eq!(policy.handled().bits(), 0x3FFF);
}

#[test]
fn grant_appends_a_rule() {
    let mut policy = Policy::new(FeatureVersion::V2.all_rights());
    assert!(policy.grant("/srv", FeatureVersion::V2.read_rights(), true));
    assert!(policy.grant("/var", AccessSet::from_bits(0x2), false));
    assert_eq!(policy.len(), 2);
    assert_eq!(policy.rule(0).path, "/srv");
    assert_eq!(policy.rule(0).rights.bits(), 0xD);
    assert!(policy.rule(0).optional);
    assert_eq!(policy.rule(1).path, "/var");
    assert_eq!(policy.rule(1).rights.bits(), 0x2);
    assert!(!policy.rule(1).optional);
}

#[test]
fn grant_refuses_a_right_that_is_not_given_up() {
    let mut policy = Policy::new(FeatureVersion::V1.all_rights());
    assert!(!policy.grant("/srv", FeatureVersion::V2.all_rights(), true));
    assert_eq!(policy.len(), 0);
    assert!(!policy.grant("/srv", AccessSet::from_bits(0x2000), true));
    assert_eq!(policy.len(), 0);
    assert!(policy.grant("/srv", FeatureVersion::V1.all_rights(), true));
    assert_eq!(policy.len(), 1);
}

#[test]
fn a_path_lies_beneath_itself_and_its_ancestors() {
    assert!(is_beneath("/nix", "/nix"));
    assert!(is_beneath("/nix/store/abc", "/nix"));
    assert!(is_beneath("/nix/", "/nix"));
    assert!(is_beneath("/etc", "/"));
    assert!(is_beneath("/", "/"));
    assert!(is_beneath("/srv/data/x", "/srv/data/"));
    assert!(is_beneath("", ""));
}

#[test]
fn a_path_does_not_lie_beneath_a_sibling_or_a_longer_path() {
    assert!(!is_beneath("/nixos", "/nix"));
    assert!(!is_beneath("/ni", "/nix"));
    assert!(!is_beneath("/", "/nix"));
    assert!(!is_beneath("/proc", "/proc/stat"));
    assert!(!is_beneath("/tmpfiles/x", "/tmp"));
    assert!(!is_beneath("/srv/datax", "/srv/data/"));
    assert!(!is_beneath("relative", "/"));
}

#[test]
fn nothing_is_granted_outside_the_allowlist() {
    let policy = build_policy("/work/project", "/run/user/1000", "/home/ada", FeatureVersion::V2);
    for right in [AccessRight::ReadFile, AccessRight::WriteFile, AccessRight::Execute] {
        assert!(!policy.permits("/etc/passwd", right));
        assert!(!policy.permits("/home/ada/.ssh/id_ed25519", right));
        assert!(!policy.permits("/work/projects", right));
        assert!(!policy.permits("/", right));
        assert!(!policy.permits("/dev/sda", right));
    }
}

#[test]
fn every_right_is_granted_beneath_the_writable_paths() {
    let policy = build_policy("/work/project", "/run/user/1000", "/home/ada", FeatureVersion::V2);
    for path in [
        "/work/project",
        "/work/project/src/main.rs",
        "/run/user/1000/bus",
        "/home/ada/.cache/uv/wheels",
        "/proc/self/maps",
        "/tmp/log.txt",
        "/dev/tty",
        "/dev/null",
    ] {
        assert!(policy.permits(path, AccessRight::ReadFile));
        assert!(policy.permits(path, AccessRight::WriteFile));
        assert!(policy.permits(path, AccessRight::RemoveFile));
        assert!(policy.permits(path, AccessRight::Refer));
        assert!(!policy.permits(path, AccessRight::Truncate));
    }
}

#[test]
fn beneath_nix_only_reading_is_granted() {
    let policy = build_policy("/work/project", "/run/user/1000", "/home/ada", FeatureVersion::V2);
    for path in ["/nix", "/nix/store/abc-hello/bin/hello"] {
        assert!(policy.permits(path, AccessRight::ReadFile));
        assert!(policy.permits(path, AccessRight::ReadDir));
        assert!(policy.permits(path, AccessRight::Execute));
        assert!(!policy.permits(path, AccessRight::WriteFile));
        assert!(!policy.permits(path, AccessRight::MakeReg));
        assert!(!policy.permits(path, AccessRight::MakeDir));
        assert!(!policy.permits(path, AccessRight::RemoveFile));
        assert!(!policy.permits(path, AccessRight::RemoveDir));
    }
}

#[test]
fn a_root_above_nix_makes_it_writable() {
    let policy = build_policy("/", "/run/user/1000", "/home/ada", FeatureVersion::V2);
    assert!(policy.permits("/nix/store/abc", AccessRight::WriteFile));
    assert!(policy.permits("/etc/passwd", AccessRight::WriteFile));
}

#[test]
fn the_rule_of_proc_reaches_proc_stat() {
    let policy = build_policy("/work/project", "/run/user/1000", "/home/ada", FeatureVersion::V2);
    assert!(policy.permits("/proc/stat", AccessRight::ReadFile));
    assert!(policy.permits("/proc/stat", AccessRight::WriteFile));
    assert_eq!(policy.rule(8).path, "/proc/stat");
    assert!(!policy.rule(8).rights.contains(AccessRight::WriteFile));
}

#[test]
fn an_empty_policy_permits_nothing() {
    let policy = Policy::new(FeatureVersion::V2.all_rights());
    assert!(!policy.permits("/tmp", AccessRight::ReadFile));
}
