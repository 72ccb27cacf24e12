//! The choice of the directory under which the container records live.

use vstd::prelude::*;

verus! {

/// The root directory of a fully privileged invocation.
pub const DEFAULT_ROOT: &'static str = "/run/youki";

/// The root directory of an invocation without full privilege that names
/// none of its own.
pub const ROOTLESS_ROOT: &'static str = "/tmp/rootless";

/// The privilege with which the runtime runs.
#[derive(Clone, Copy, Debug, PartialEq, Eq, Structural)]
pub enum Privilege {
    /// The effective user is the superuser.
    Full,
    /// The effective user is anyone else.
    Rootless,
}

impl Privilege {
    /// The privilege of the effective user identifier `euid`.
    pub open spec fn of(euid: u32) -> Privilege {
        if euid == 0 {
            Privilege::Full
        } else {
            Privilege::Rootless
        }
    }

    /// Whether a container brought up with this privilege has its user and
    /// group identifiers remapped: without full privilege it always has.
    pub open spec fn remaps(self) -> bool {
        self == Privilege::Rootless
    }

    /// Whether the bootstrap of a container has to write an identifier
    /// mapping: it has to when the runtime runs without full privilege.
    pub fn needs_identifier_mapping(self) -> (needed: bool)
        ensures
            needed == self.remaps(),
    {
        match self {
            Privilege::Full => false,
            Privilege::Rootless => true,
        }
    }

    /// The privilege of a process whose effective user identifier is `euid`:
    /// full for the superuser, who is user 0, and rootless for anyone else.
    pub fn of_effective_user(euid: u32) -> (privilege: Privilege)
        ensures
            privilege == Privilege::of(euid),
    {
        if euid == 0 {
            Privilege::Full
        } else {
            Privilege::Rootless
        }
    }
}

/// The directory that an invocation uses: the one it asked for, if it asked
/// for one; else the default under full privilege and the fallback without.
pub open spec fn resolved_root(requested: Option<Seq<char>>, privilege: Privilege) -> Seq<char> {
    match requested {
        Some(path) => path,
        None => match privilege {
            Privilege::Full => DEFAULT_ROOT@,
            Privilege::Rootless => ROOTLESS_ROOT@,
        },
    }
}

/// Chooses the root directory. `requested_path` is the path that the caller
/// gave in place of the default, if it gave one; it is used as it stands,
/// whatever the privilege.
pub fn resolve_root(requested_path: Option<String>, privilege: Privilege) -> (path: String)
    ensures
        path@ == resolved_root(
            match requested_path {
                Some(p) => Some(p@),
                None => None,
            },
            privilege,
        ),
{
    match requested_path {
        Some(path) => path,
        None => match privilege {
            Privilege::Full => DEFAULT_ROOT.to_owned(),
            Privilege::Rootless => ROOTLESS_ROOT.to_owned(),
        },
    }
}

/// A path that the caller names is honoured whatever the privilege.
pub proof fn law_override_is_honoured(path: Seq<char>, privilege: Privilege)
    ensures
        resolved_root(Some(path), privilege) == path,
{
}

/// Without full privilege and without a path of the caller's own, the root is
/// the fallback, which is not the default.
pub proof fn law_rootless_default_is_fallback()
    ensures
        resolved_root(None, Privilege::Rootless) == ROOTLESS_ROOT@,
        resolved_root(None, Privilege::Full) == DEFAULT_ROOT@,
        ROOTLESS_ROOT@ != DEFAULT_ROOT@,
{
    reveal_strlit("/run/youki");
    reveal_strlit("/tmp/rootless");
    assert(DEFAULT_ROOT@.len() == 10);
    assert(ROOTLESS_ROOT@.len() == 13);
}

} // verus!
