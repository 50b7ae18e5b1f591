//! The allowlist: which paths the launched command may touch, and with which
//! rights. Whatever the list does not name is denied once it is enforced.

use crate::rights::{
    lemma_read_rights_only_read, lemma_read_rights_within_all, lemma_within_keeps_rights,
    mask_has, mask_within, AccessRight, AccessSet, FeatureVersion, KNOWN_RIGHTS,
};
use vstd::prelude::*;
use vstd::string::*;

verus! {

/// What is granted beneath one path.
#[derive(Clone, Debug)]
pub struct PathRule {
    /// The file, or the directory with all that lies beneath it.
    pub path: String,
    /// The rights granted there.
    pub rights: AccessSet,
    /// Whether the rule is left out, without an error, when nothing exists
    /// at the path.
    pub optional: bool,
}

impl View for PathRule {
    type V = (Seq<char>, u64, bool);

    open spec fn view(&self) -> (Seq<char>, u64, bool) {
        (self.path@, self.rights.mask(), self.optional)
    }
}

/// The rights that the process gives up everywhere, and the paths beneath
/// which some of them are granted again.
#[derive(Debug)]
pub struct Policy {
    handled: AccessSet,
    rules: Vec<PathRule>,
}

/// The paths that get every right, in the order in which they are granted:
/// the sandbox root, the runtime directory, the package cache under the home
/// directory, and four fixed paths.
pub open spec fn writable_paths(root: Seq<char>, runtime_dir: Seq<char>, home: Seq<char>) -> Seq<
    Seq<char>,
> {
    seq![
        root,
        runtime_dir,
        home + "/.cache/uv"@,
        "/proc"@,
        "/tmp"@,
        "/dev/tty"@,
        "/dev/null"@,
    ]
}

/// The paths that may be read and never changed.
pub open spec fn read_only_paths() -> Seq<Seq<char>> {
    seq!["/nix"@, "/proc/stat"@]
}

/// The rules of the allowlist for the three configured paths at a feature
/// version: every right of the version on the writable paths, its read-only
/// rights on the read-only paths. Only the sandbox root is required to exist.
pub open spec fn allowlist(
    root: Seq<char>,
    runtime_dir: Seq<char>,
    home: Seq<char>,
    version: FeatureVersion,
) -> Seq<(Seq<char>, u64, bool)> {
    let writable = writable_paths(root, runtime_dir, home);
    Seq::new(
        9,
        |i: int|
            if i < 7 {
                (writable[i], version.full_mask(), i != 0)
            } else {
                (read_only_paths()[i - 7], version.read_mask(), true)
            },
    )
}

/// Whether `path` is `base` itself or lies beneath it, both read as they are
/// written: `base` is followed by a slash, unless it ends in one, and then by
/// the rest of `path`.
pub open spec fn lies_beneath(path: Seq<char>, base: Seq<char>) -> bool {
    path == base || if base.len() > 0 && base.last() == '/' {
        base.is_prefix_of(path)
    } else {
        base.push('/').is_prefix_of(path)
    }
}

/// Whether the two strings agree on their first `count` characters.
fn agree_up_to(left: &str, right: &str, count: usize) -> (same: bool)
    requires
        count <= left@.len(),
        count <= right@.len(),
    ensures
        same == (left@.subrange(0, count as int) == right@.subrange(0, count as int)),
{
    let mut index: usize = 0;
    while index < count
        invariant
            index <= count,
            count <= left@.len(),
            count <= right@.len(),
            forall|k: int| 0 <= k < index ==> left@[k] == right@[k],
        decreases count - index,
    {
        if left.get_char(index) != right.get_char(index) {
            assert(left@.subrange(0, count as int)[index as int] != right@.subrange(
                0,
                count as int,
            )[index as int]);
            return false;
        }
        index = index + 1;
    }
    assert(left@.subrange(0, count as int) =~= right@.subrange(0, count as int));
    true
}

/// Whether `path` is `base` itself or lies beneath it, as written.
pub fn is_beneath(path: &str, base: &str) -> (beneath: bool)
    ensures
        beneath == lies_beneath(path@, base@),
{
    let base_len: usize = base.unicode_len();
    let path_len: usize = path.unicode_len();
    if path_len < base_len {
        return false;
    }
    let agree = agree_up_to(path, base, base_len);
    assert(base@.subrange(0, base_len as int) =~= base@);
    if !agree {
        assert(base@.push('/').is_prefix_of(path@) ==> path@.subrange(0, base_len as int)
            =~= base@);
        return false;
    }
    if path_len == base_len {
        assert(path@.subrange(0, base_len as int) =~= path@);
        return true;
    }
    if base_len > 0 && base.get_char(base_len - 1) == '/' {
        return true;
    }
    let next = path.get_char(base_len);
    assert(next == '/' ==> base@.push('/') =~= path@.subrange(0, base_len + 1));
    assert(base@.push('/').is_prefix_of(path@) ==> path@[base_len as int] == base@.push(
        '/',
    )[base_len as int]);
    next == '/'
}

/// Whether some rule grants `right` at `path`: a rule whose own path is
/// `path` or lies above it, and whose rights hold `right`. Of the rights
/// that a policy gives up, enforcement leaves no more than this: a rule
/// that was left out grants nothing.
pub open spec fn grants(rules: Seq<(Seq<char>, u64, bool)>, path: Seq<char>, right: AccessRight)
    -> bool {
    exists|i: int|
        0 <= i < rules.len() && lies_beneath(path, (#[trigger] rules[i]).0) && mask_has(
            rules[i].1,
            right,
        )
}

/// Whether `path` is, or lies beneath, one of the configured paths of the
/// allowlist: the sandbox root, the runtime directory, the package cache.
pub open spec fn in_configured_paths(
    path: Seq<char>,
    root: Seq<char>,
    runtime_dir: Seq<char>,
    home: Seq<char>,
) -> bool {
    lies_beneath(path, root) || lies_beneath(path, runtime_dir) || lies_beneath(
        path,
        home + "/.cache/uv"@,
    )
}

/// The allowlist denies by default: at a path that is none of its nine paths
/// and lies beneath none of them, it grants no right at all.
pub proof fn lemma_outside_the_allowlist_nothing_is_granted(
    root: Seq<char>,
    runtime_dir: Seq<char>,
    home: Seq<char>,
    version: FeatureVersion,
    path: Seq<char>,
    right: AccessRight,
)
    requires
        forall|i: int|
            0 <= i < 9 ==> !lies_beneath(
                path,
                (#[trigger] allowlist(root, runtime_dir, home, version)[i]).0,
            ),
    ensures
        !grants(allowlist(root, runtime_dir, home, version), path, right),
{
}

/// Within the allowlist every right of the version is granted: at a path
/// that is, or lies beneath, one of the seven writable paths.
pub proof fn lemma_writable_paths_get_every_right(
    root: Seq<char>,
    runtime_dir: Seq<char>,
    home: Seq<char>,
    version: FeatureVersion,
    path: Seq<char>,
    right: AccessRight,
    k: int,
)
    requires
        0 <= k < 7,
        lies_beneath(path, writable_paths(root, runtime_dir, home)[k]),
        mask_has(version.full_mask(), right),
    ensures
        grants(allowlist(root, runtime_dir, home, version), path, right),
{
    let rules = allowlist(root, runtime_dir, home, version);
    assert(lies_beneath(path, rules[k].0) && mask_has(rules[k].1, right));
}

/// The rules of the two read-only paths grant the rights that only read and
/// no other: none to write, create, remove or reparent.
pub proof fn lemma_read_only_rules_only_read(
    root: Seq<char>,
    runtime_dir: Seq<char>,
    home: Seq<char>,
    version: FeatureVersion,
    right: AccessRight,
)
    ensures
        allowlist(root, runtime_dir, home, version)[7].0 == "/nix"@,
        allowlist(root, runtime_dir, home, version)[8].0 == "/proc/stat"@,
        mask_has(allowlist(root, runtime_dir, home, version)[7].1, right)
            <==> right.is_read_only(),
        mask_has(allowlist(root, runtime_dir, home, version)[8].1, right)
            <==> right.is_read_only(),
{
    lemma_read_rights_only_read(version, right);
}

/// At `/nix` and beneath it, the allowlist grants exactly the rights that
/// only read, unless one of the configured paths reaches there too.
pub proof fn lemma_nix_may_only_be_read(
    root: Seq<char>,
    runtime_dir: Seq<char>,
    home: Seq<char>,
    version: FeatureVersion,
    path: Seq<char>,
    right: AccessRight,
)
    requires
        lies_beneath(path, "/nix"@),
        !in_configured_paths(path, root, runtime_dir, home),
    ensures
        grants(allowlist(root, runtime_dir, home, version), path, right)
            <==> right.is_read_only(),
{
    let rules = allowlist(root, runtime_dir, home, version);
    reveal_strlit("/nix");
    reveal_strlit("/proc");
    reveal_strlit("/tmp");
    reveal_strlit("/dev/tty");
    reveal_strlit("/dev/null");
    reveal_strlit("/proc/stat");
    lemma_read_rights_only_read(version, right);
    assert(path.len() >= 4 && path[1] == 'n') by {
        if path != "/nix"@ {
            assert(path[1] == "/nix"@.push('/')[1]);
        }
    }
    assert forall|i: int| 3 <= i < 9 && i != 7 implies !lies_beneath(
        path,
        (#[trigger] rules[i]).0,
    ) by {
        let base = rules[i].0;
        assert(base.len() >= 4 && base[1] != 'n' && base.last() != '/');
        if lies_beneath(path, base) && path != base {
            assert(path[1] == base.push('/')[1]);
        }
    }
    assert(lies_beneath(path, rules[7].0) && rules[7].1 == version.read_mask());
    if grants(rules, path, right) {
        let i = choose|i: int|
            0 <= i < rules.len() && lies_beneath(path, (#[trigger] rules[i]).0) && mask_has(
                rules[i].1,
                right,
            );
        assert(i == 7);
    }
}

/// The rule of `/proc` reaches `/proc/stat`: every right of the version is
/// granted there, whatever the read-only rule of `/proc/stat` says.
pub proof fn lemma_proc_reaches_proc_stat(
    root: Seq<char>,
    runtime_dir: Seq<char>,
    home: Seq<char>,
    version: FeatureVersion,
    right: AccessRight,
)
    requires
        mask_has(version.full_mask(), right),
    ensures
        grants(allowlist(root, runtime_dir, home, version), "/proc/stat"@, right),
{
    let rules = allowlist(root, runtime_dir, home, version);
    reveal_strlit("/proc");
    reveal_strlit("/proc/stat");
    assert("/proc"@.push('/').is_prefix_of("/proc/stat"@)) by {
        assert("/proc"@.push('/') =~= "/proc/stat"@.subrange(0, 6));
    }
    assert(lies_beneath("/proc/stat"@, rules[3].0) && mask_has(rules[3].1, right));
}

impl Policy {
    /// The bits of the rights that are given up everywhere.
    pub closed spec fn handled_mask(self) -> u64 {
        self.handled.mask()
    }

    /// The rules, each as its path, the bits of its rights, and whether it
    /// is optional.
    pub closed spec fn entries(self) -> Seq<(Seq<char>, u64, bool)> {
        self.rules@.map_values(|r: PathRule| r@)
    }

    /// Every rule grants known rights, and only rights that are given up
    /// everywhere: a rule can grant again nothing else.
    pub open spec fn wf(self) -> bool {
        &&& mask_within(self.handled_mask(), KNOWN_RIGHTS)
        &&& forall|i: int|
            0 <= i < self.entries().len() ==> mask_within(
                (#[trigger] self.entries()[i]).1,
                self.handled_mask(),
            )
    }

    /// The policy that gives up `handled` and grants nothing yet.
    pub fn new(handled: AccessSet) -> (policy: Policy)
        requires
            handled.wf(),
        ensures
            policy.wf(),
            policy.handled_mask() == handled.mask(),
            policy.entries() == Seq::<(Seq<char>, u64, bool)>::empty(),
    {
        let policy = Policy { handled, rules: Vec::new() };
        assert(policy.entries() =~= Seq::<(Seq<char>, u64, bool)>::empty());
        policy
    }

    /// Appends a rule. One that would grant a right that the policy does not
    /// give up is refused, and the policy stays as it was.
    pub fn grant(&mut self, path: &str, rights: AccessSet, optional: bool) -> (added: bool)
        requires
            old(self).wf(),
        ensures
            final(self).wf(),
            final(self).handled_mask() == old(self).handled_mask(),
            added == mask_within(rights.mask(), old(self).handled_mask()),
            added ==> final(self).entries() == old(self).entries().push(
                (path@, rights.mask(), optional),
            ),
            !added ==> final(self).entries() == old(self).entries(),
    {
        if !rights.is_subset_of(&self.handled) {
            return false;
        }
        let rule = PathRule { path: String::from_str(path), rights, optional };
        self.rules.push(rule);
        assert(self.entries() =~= old(self).entries().push((path@, rights.mask(), optional)));
        true
    }

    /// Whether some rule of the policy grants `right` at `path`.
    pub fn permits(&self, path: &str, right: AccessRight) -> (granted: bool)
        ensures
            granted == grants(self.entries(), path@, right),
    {
        let mut index: usize = 0;
        while index < self.rules.len()
            invariant
                index <= self.rules@.len(),
                forall|k: int|
                    0 <= k < index ==> !(lies_beneath(path@, (#[trigger] self.entries()[k]).0)
                        && mask_has(self.entries()[k].1, right)),
            decreases self.rules@.len() - index,
        {
            let rule = &self.rules[index];
            assert(self.entries()[index as int] == rule@);
            if rule.rights.contains(right) && is_beneath(path, rule.path.as_str()) {
                return true;
            }
            index = index + 1;
        }
        false
    }

    /// A policy grants only rights that it gives up: what is not given up is
    /// not restricted, and needs no rule.
    pub proof fn lemma_granted_rights_are_given_up(self, path: Seq<char>, right: AccessRight)
        requires
            self.wf(),
            grants(self.entries(), path, right),
        ensures
            mask_has(self.handled_mask(), right),
    {
        let i = choose|i: int|
            0 <= i < self.entries().len() && lies_beneath(path, (#[trigger] self.entries()[i]).0)
                && mask_has(self.entries()[i].1, right);
        lemma_within_keeps_rights(self.entries()[i].1, self.handled_mask(), right);
    }

    pub fn handled(&self) -> (set: AccessSet)
        ensures
            set.mask() == self.handled_mask(),
    {
        self.handled
    }

    pub fn len(&self) -> (n: usize)
        ensures
            n == self.entries().len(),
    {
        self.rules.len()
    }

    pub fn rule(&self, index: usize) -> (rule: &PathRule)
        requires
            index < self.entries().len(),
        ensures
            rule@ == self.entries()[index as int],
    {
        &self.rules[index]
    }
}

/// Builds the allowlist for a sandbox root, a runtime directory and a home
/// directory at a feature version.
pub fn build_policy(root: &str, runtime_dir: &str, home: &str, version: FeatureVersion) -> (policy:
    Policy)
    ensures
        policy.wf(),
        policy.handled_mask() == version.full_mask(),
        policy.entries() == allowlist(root@, runtime_dir@, home@, version),
{
    let full = version.all_rights();
    let read = version.read_rights();
    proof {
        lemma_read_rights_within_all(version);
        assert(full.mask() & full.mask() == full.mask()) by (bit_vector);
    }
    let cache = String::from_str(home).concat("/.cache/uv");
    let mut policy = Policy::new(full);
    policy.grant(root, full, false);
    policy.grant(runtime_dir, full, true);
    policy.grant(cache.as_str(), full, true);
    policy.grant("/proc", full, true);
    policy.grant("/tmp", full, true);
    policy.grant("/dev/tty", full, true);
    policy.grant("/dev/null", full, true);
    policy.grant("/nix", read, true);
    policy.grant("/proc/stat", read, true);
    assert(policy.entries() =~= allowlist(root@, runtime_dir@, home@, version));
    policy
}

} // verus!
