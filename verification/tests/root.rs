use youki::root::{resolve_root, Privilege, DEFAULT_ROOT, ROOTLESS_ROOT};

#[test]
fn the_two_roots_are_fixed_and_differ() {
    assert_eq!(DEFAULT_ROOT, "/run/youki");
    assert_eq!(ROOTLESS_ROOT, "/tmp/rootless");
    assert_ne!(DEFAULT_ROOT, ROOTLESS_ROOT);
}

#[test]
fn rootless_without_a_path_uses_the_fallback() {
    assert_eq!(resolve_root(None, Privilege::Rootless), "/tmp/rootless");
}

#[test]
fn full_privilege_without_a_path_uses_the_default() {
    assert_eq!(resolve_root(None, Privilege::Full), "/run/youki");
}

#[test]
fn a_path_of_the_callers_own_is_honoured() {
    let path = String::from("/var/lib/containers");
    assert_eq!(resolve_root(Some(path.clone()), Privilege::Full), path);
    assert_eq!(resolve_root(Some(path.clone()), Privilege::Rootless), path);
}

#[test]
fn a_path_that_equals_a_fixed_root_is_honoured_too() {
    assert_eq!(resolve_root(Some(String::from("/run/youki")), Privilege::Rootless), "/run/youki");
    assert_eq!(resolve_root(Some(String::from("/tmp/rootless")), Privilege::Full), "/tmp/rootless");
    assert_eq!(resolve_root(Some(String::new()), Privilege::Rootless), "");
}

#[test]
fn only_user_zero_has_full_privilege() {
    assert_eq!(Privilege::of_effective_user(0), Privilege::Full);
    assert_eq!(Privilege::of_effective_user(1), Privilege::Rootless);
    assert_eq!(Privilege::of_effective_user(1000), Privilege::Rootless);
    assert_eq!(Privilege::of_effective_user(u32::MAX), Privilege::Rootless);
}

#[test]
fn only_a_rootless_bootstrap_writes_an_identifier_mapping() {
    assert!(Privilege::Rootless.needs_identifier_mapping());
    assert!(!Privilege::Full.needs_identifier_mapping());
}
