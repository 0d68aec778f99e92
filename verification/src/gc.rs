//! The binary garbage collector.
//!
//! At daemon startup, a best-effort maintenance pass deletes superseded
//! daemon binaries from the install directory. A candidate — a file whose
//! name is the expected prefix plus an embedded semantic version — is kept
//! when its version is greater than or equal to the running version, when a
//! live process is executing that exact file, or when the file is a symlink
//! resolving into the immutable package store; it is deleted otherwise.
//! The directory walk, the per-file probes and the deletions are the
//! surrounding process's work; the decisions are made and proved here.

use crate::decimal::{all_digits, dec_value, parse_u64_digits};
use vstd::prelude::*;

verus! {

/// A version of the daemon binary: strictly `major.minor.patch`, compared
/// lexicographically.
#[derive(Clone, Copy, Debug, PartialEq, Eq, Structural)]
pub struct SemanticVersion {
    pub major: u64,
    pub minor: u64,
    pub patch: u64,
}

/// Lexicographic order on versions: `a` is the same as or newer than `b`.
pub open spec fn spec_version_ge(a: SemanticVersion, b: SemanticVersion) -> bool {
    if a.major != b.major {
        a.major > b.major
    } else if a.minor != b.minor {
        a.minor > b.minor
    } else {
        a.patch >= b.patch
    }
}

impl SemanticVersion {
    /// `self` is the same as or newer than `other`.
    pub fn is_at_least(&self, other: &SemanticVersion) -> (r: bool)
        ensures
            r == spec_version_ge(*self, *other),
    {
        if self.major != other.major {
            self.major > other.major
        } else if self.minor != other.minor {
            self.minor > other.minor
        } else {
            self.patch >= other.patch
        }
    }
}

/// The first position at or after `from` holding byte `b`, if any.
pub open spec fn find_byte(s: Seq<u8>, b: u8, from: int) -> Option<int>
    recommends
        0 <= from,
    decreases s.len() - from,
    when 0 <= from <= s.len()
{
    if from >= s.len() {
        None
    } else if s[from] == b {
        Some(from)
    } else {
        find_byte(s, b, from + 1)
    }
}

/// What parsing an embedded version yields: with `i` and `j` the first two
/// dot positions, the three separated runs must each be a nonempty string of
/// decimal digits denoting a value in range; any other shape — a missing
/// dot, an empty component, a non-digit (a third dot included), a component
/// out of range — is no version.
pub open spec fn spec_parse_version(s: Seq<u8>) -> Option<SemanticVersion> {
    match find_byte(s, 46, 0) {
        None => None,
        Some(i) => match find_byte(s, 46, i + 1) {
            None => None,
            Some(j) => {
                let ma = s.subrange(0, i);
                let mi = s.subrange(i + 1, j);
                let pa = s.subrange(j + 1, s.len() as int);
                if ma.len() > 0 && all_digits(ma) && dec_value(ma) <= u64::MAX && mi.len() > 0
                    && all_digits(mi) && dec_value(mi) <= u64::MAX && pa.len() > 0 && all_digits(pa)
                    && dec_value(pa) <= u64::MAX {
                    Some(
                        SemanticVersion {
                            major: dec_value(ma) as u64,
                            minor: dec_value(mi) as u64,
                            patch: dec_value(pa) as u64,
                        },
                    )
                } else {
                    None
                }
            },
        },
    }
}

/// Finds the first occurrence of `b` in `s` at or after `from`.
fn scan_byte(s: &Vec<u8>, b: u8, from: usize) -> (r: Option<usize>)
    requires
        from <= s@.len(),
    ensures
        match find_byte(s@, b, from as int) {
            Some(p) => r is Some && r->0 == p && from <= p < s@.len() && s@[p as int] == b,
            None => r is None,
        },
{
    let mut i: usize = from;
    while i < s.len()
        invariant
            from <= i <= s@.len(),
            find_byte(s@, b, from as int) == find_byte(s@, b, i as int),
            forall|k: int| from <= k < i ==> s@[k] != b,
        decreases s@.len() - i,
    {
        if s[i] == b {
            return Some(i);
        }
        i = i + 1;
    }
    None
}

/// Parses an embedded `major.minor.patch` version.
pub fn parse_version(s: &Vec<u8>) -> (r: Option<SemanticVersion>)
    ensures
        r == spec_parse_version(s@),
{
    let n = s.len();
    let i = match scan_byte(s, 46, 0) {
        Some(i) => i,
        None => {
            return None;
        },
    };
    proof {
        assert(i < n);
    }
    let j = match scan_byte(s, 46, i + 1) {
        Some(j) => j,
        None => {
            return None;
        },
    };
    proof {
        assert(j < n);
    }
    let major = parse_u64_digits(s, 0, i);
    let minor = parse_u64_digits(s, i + 1, j);
    let patch = parse_u64_digits(s, j + 1, s.len());
    match (major, minor, patch) {
        (Some(ma), Some(mi), Some(pa)) => Some(
            SemanticVersion { major: ma, minor: mi, patch: pa },
        ),
        _ => None,
    }
}

/// `p` is a prefix of `s`.
pub open spec fn has_prefix(s: Seq<u8>, p: Seq<u8>) -> bool {
    s.len() >= p.len() && s.subrange(0, p.len() as int) == p
}

/// Strips `prefix` off the front of `name`, when it is there.
pub fn strip_name_prefix(name: &Vec<u8>, prefix: &Vec<u8>) -> (r: Option<Vec<u8>>)
    ensures
        r is Some <==> has_prefix(name@, prefix@),
        r is Some ==> r->0@ == name@.skip(prefix@.len() as int),
{
    if name.len() < prefix.len() {
        proof {
            assert(!has_prefix(name@, prefix@));
        }
        return None;
    }
    let mut i: usize = 0;
    while i < prefix.len()
        invariant
            0 <= i <= prefix@.len() <= name@.len(),
            forall|k: int| 0 <= k < i ==> name@[k] == prefix@[k],
        decreases prefix@.len() - i,
    {
        if name[i] != prefix[i] {
            proof {
                assert(name@.subrange(0, prefix@.len() as int)[i as int] != prefix@[i as int]);
            }
            return None;
        }
        i = i + 1;
    }
    let mut rest: Vec<u8> = Vec::new();
    let mut k: usize = prefix.len();
    while k < name.len()
        invariant
            prefix@.len() <= k <= name@.len(),
            rest@ == name@.subrange(prefix@.len() as int, k as int),
        decreases name@.len() - k,
    {
        rest.push(name[k]);
        proof {
            assert(name@.subrange(prefix@.len() as int, k + 1) =~= name@.subrange(
                prefix@.len() as int,
                k as int,
            ).push(name@[k as int]));
        }
        k = k + 1;
    }
    proof {
        assert(name@.subrange(0, prefix@.len() as int) =~= prefix@);
        assert(rest@ =~= name@.skip(prefix@.len() as int));
    }
    Some(rest)
}

/// The embedded version of a candidate name is the same as or newer than the
/// running version. An unparseable embedded version is never "new".
pub open spec fn spec_is_new_version(version: Seq<u8>, running: SemanticVersion) -> bool {
    match spec_parse_version(version) {
        Some(v) => spec_version_ge(v, running),
        None => false,
    }
}

/// Whether the embedded version denotes the running version or a newer one.
pub fn is_new_version(version: &Vec<u8>, running: &SemanticVersion) -> (r: bool)
    ensures
        r == spec_is_new_version(version@, *running),
{
    match parse_version(version) {
        Some(v) => v.is_at_least(running),
        None => false,
    }
}

/// The garbage collector's verdict on one directory entry: delete exactly
/// the candidates (name = prefix + embedded version) that are older than or
/// unreadable against the running version, not executing anywhere, and not
/// symlinked into the package store.
pub open spec fn spec_should_remove(
    name: Seq<u8>,
    prefix: Seq<u8>,
    running: SemanticVersion,
    in_use: bool,
    store_symlink: bool,
) -> bool {
    &&& has_prefix(name, prefix)
    &&& !spec_is_new_version(name.skip(prefix.len() as int), running)
    &&& !in_use
    &&& !store_symlink
}

/// Decides one directory entry of the garbage collection pass. `in_use` is
/// the process-table probe's outcome for this exact file, `store_symlink`
/// the symlink probe's.
pub fn should_remove_binary(
    name: &Vec<u8>,
    prefix: &Vec<u8>,
    running: &SemanticVersion,
    in_use: bool,
    store_symlink: bool,
) -> (r: bool)
    ensures
        r == spec_should_remove(name@, prefix@, *running, in_use, store_symlink),
{
    match strip_name_prefix(name, prefix) {
        None => false,
        Some(version) => !is_new_version(&version, running) && !in_use && !store_symlink,
    }
}

/// One directory entry as the garbage collector sees it: the file name and
/// the outcomes of the two per-file probes.
pub struct BinaryCandidate {
    pub name: Vec<u8>,
    /// A live process has this exact file open as its executable image.
    pub in_use: bool,
    /// The file is a symlink resolving into the immutable package store.
    pub store_symlink: bool,
}

impl BinaryCandidate {
    pub open spec fn spec_remove(&self, prefix: Seq<u8>, running: SemanticVersion) -> bool {
        spec_should_remove(self.name@, prefix, running, self.in_use, self.store_symlink)
    }
}

/// Plans one garbage collection pass over the install directory: the
/// positions of exactly the entries to delete, in directory order. Errors
/// deleting one file must not abort the rest, so the plan is handed back
/// whole rather than executed fail-fast.
pub fn cleanup_plan(
    candidates: &Vec<BinaryCandidate>,
    prefix: &Vec<u8>,
    running: &SemanticVersion,
) -> (r: Vec<usize>)
    ensures
        forall|k: int| 0 <= k < r@.len() ==> r@[k] < candidates@.len(),
        forall|k1: int, k2: int| 0 <= k1 < k2 < r@.len() ==> r@[k1] < r@[k2],
        forall|i: int|
            0 <= i < candidates@.len() ==> (r@.contains(i as usize) <==> candidates@[i].spec_remove(
                prefix@,
                *running,
            )),
{
    let mut r: Vec<usize> = Vec::new();
    let mut i: usize = 0;
    while i < candidates.len()
        invariant
            0 <= i <= candidates@.len(),
            forall|k: int| 0 <= k < r@.len() ==> r@[k] < i,
            forall|k1: int, k2: int| 0 <= k1 < k2 < r@.len() ==> r@[k1] < r@[k2],
            forall|j: int|
                0 <= j < i ==> (r@.contains(j as usize) <==> candidates@[j].spec_remove(
                    prefix@,
                    *running,
                )),
        decreases candidates@.len() - i,
    {
        let c = &candidates[i];
        if should_remove_binary(&c.name, prefix, running, c.in_use, c.store_symlink) {
            let ghost r_prev = r@;
            r.push(i);
            proof {
                assert(r@[r_prev.len() as int] == i as usize);
                assert(r@.contains(i as usize));
                assert forall|j: int| 0 <= j < i + 1 implies (r@.contains(j as usize)
                    <==> candidates@[j].spec_remove(prefix@, *running)) by {
                    if j < i {
                        assert(r_prev.contains(j as usize) <==> candidates@[j].spec_remove(
                            prefix@,
                            *running,
                        ));
                        assert(forall|k: int|
                            0 <= k < r@.len() ==> r@[k] == if k < r_prev.len() {
                                r_prev[k]
                            } else {
                                i as usize
                            });
                        if r@.contains(j as usize) {
                            let k = choose|k: int| 0 <= k < r@.len() && r@[k] == j as usize;
                            assert(k < r_prev.len() && r_prev[k] == j as usize);
                            assert(r_prev.contains(j as usize));
                        }
                        if r_prev.contains(j as usize) {
                            let k = choose|k: int|
                                0 <= k < r_prev.len() && r_prev[k] == j as usize;
                            assert(r@[k] == j as usize);
                        }
                    }
                }
            }
        } else {
            proof {
                assert(!candidates@[i as int].spec_remove(prefix@, *running));
                assert forall|j: int| 0 <= j < i + 1 implies (r@.contains(j as usize)
                    <==> candidates@[j].spec_remove(prefix@, *running)) by {
                    if j == i && r@.contains(j as usize) {
                        let k = choose|k: int| 0 <= k < r@.len() && r@[k] == j as usize;
                        assert(r@[k] < i);
                    }
                }
            }
        }
        i = i + 1;
    }
    r
}

/// The version guard: the garbage collector never deletes a binary whose
/// embedded version is the same as or newer than the running version, never
/// one that a live process is executing, and never one symlinked into the
/// package store.
pub proof fn gc_keeps_protected_binaries(
    name: Seq<u8>,
    prefix: Seq<u8>,
    running: SemanticVersion,
    in_use: bool,
    store_symlink: bool,
)
    ensures
        spec_is_new_version(name.skip(prefix.len() as int), running) ==> !spec_should_remove(
            name,
            prefix,
            running,
            in_use,
            store_symlink,
        ),
        in_use ==> !spec_should_remove(name, prefix, running, in_use, store_symlink),
        store_symlink ==> !spec_should_remove(name, prefix, running, in_use, store_symlink),
{
}

/// Relies on `sysinfo::System::new_with_specifics` refreshing the process
/// table with executable paths, `sysinfo::Process::exe` handing back each
/// process's executable image path, and `std::path::Path::file_name` taking
/// that path's final component: hands out the file names of every executable
/// image currently running, one entry per process the OS reports. What the
/// OS reports depends on the machine and the moment, so nothing more is
/// promised of the result.
#[verifier::external_body]
fn running_process_images() -> Vec<Vec<u8>> {
    let refresh = sysinfo::RefreshKind::nothing().with_processes(
        sysinfo::ProcessRefreshKind::nothing().with_exe(sysinfo::UpdateKind::Always),
    );
    let info = sysinfo::System::new_with_specifics(refresh);
    info.processes()
        .values()
        .filter_map(|p| p.exe().and_then(|e| e.file_name()))
        .map(|n| n.to_string_lossy().into_owned().into_bytes())
        .collect()
}

/// Two byte strings hold the same bytes.
fn bytes_eq(a: &Vec<u8>, b: &Vec<u8>) -> (r: bool)
    ensures
        r == (a@ == b@),
{
    if a.len() != b.len() {
        return false;
    }
    let mut i: usize = 0;
    while i < a.len()
        invariant
            0 <= i <= a@.len(),
            a@.len() == b@.len(),
            forall|k: int| 0 <= k < i ==> a@[k] == b@[k],
        decreases a@.len() - i,
    {
        if a[i] != b[i] {
            return false;
        }
        i = i + 1;
    }
    proof {
        assert(a@ =~= b@);
    }
    true
}

/// Whether `file_name` is among the executable image names `images`.
pub fn image_among(images: &Vec<Vec<u8>>, file_name: &Vec<u8>) -> (r: bool)
    ensures
        r == exists|k: int| 0 <= k < images@.len() && images@[k]@ == file_name@,
{
    let mut i: usize = 0;
    while i < images.len()
        invariant
            0 <= i <= images@.len(),
            forall|k: int| 0 <= k < i ==> images@[k]@ != file_name@,
        decreases images@.len() - i,
    {
        if bytes_eq(&images[i], file_name) {
            return true;
        }
        i = i + 1;
    }
    false
}

/// Probes the OS process table for a process whose executable image has this
/// exact file name. The outcome depends on what is running on the machine at
/// this moment, so no more can be said of it; the containment test itself is
/// `image_among`.
pub fn is_file_in_use(file_name: &Vec<u8>) -> bool {
    let images = running_process_images();
    image_among(&images, file_name)
}

/// The package store path prefix the symlink guard tests against: the bytes
/// of `/nix/store`.
pub open spec fn store_prefix() -> Seq<u8> {
    seq![47u8, 110u8, 105u8, 120u8, 47u8, 115u8, 116u8, 111u8, 114u8, 101u8]
}

/// Whether a canonicalized symlink target lies in the immutable package
/// store (under `/nix/store`): such binaries were not materialized by the
/// daemon itself and are never deleted.
pub fn is_store_path(target: &Vec<u8>) -> (r: bool)
    ensures
        r == has_prefix(target@, store_prefix()),
{
    // The bytes of "/nix/store".
    let mut prefix: Vec<u8> = Vec::new();
    prefix.push(47);
    prefix.push(110);
    prefix.push(105);
    prefix.push(120);
    prefix.push(47);
    prefix.push(115);
    prefix.push(116);
    prefix.push(111);
    prefix.push(114);
    prefix.push(101);
    proof {
        assert(prefix@ =~= store_prefix());
    }
    match strip_name_prefix(target, &prefix) {
        Some(_) => true,
        None => false,
    }
}

} // verus!
