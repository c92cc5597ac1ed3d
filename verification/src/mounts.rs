//! Mount points: the table read from procfs, the mount requests that the
//! isolation code issues, and which inherited mounts a new mount namespace
//! drops.
use vstd::prelude::*;
use iter_tools::Itertools;
use crate::text::{starts_with, str_eq};
use crate::validation::opt_view;

verus! {

/// One line of the mount table of a process.
#[derive(Debug, Clone)]
pub struct MountEntry {
    pub mnt_id: i32,
    pub fs_type: String,
    pub mount_point: String,
}

/// The mount flags that the isolation code uses.
#[derive(Debug, Clone, Copy)]
pub struct MountFlags {
    pub private: bool,
    pub recursive: bool,
    pub bind: bool,
}

/// A mount system call to make.
#[derive(Debug, Clone)]
pub struct MountRequest {
    pub source: Option<String>,
    pub target: String,
    pub fstype: Option<String>,
    pub flags: MountFlags,
    pub data: Option<String>,
}

pub open spec fn opt_seq(o: Option<String>) -> Option<Seq<char>> {
    match o {
        Some(s) => Some(s@),
        None => None,
    }
}

/// No flags.
pub open spec fn no_flags(f: MountFlags) -> bool {
    !f.private && !f.recursive && !f.bind
}

/// `MS_PRIVATE | MS_REC`.
pub open spec fn private_recursive(f: MountFlags) -> bool {
    f.private && f.recursive && !f.bind
}

/// `out` is `input` sorted by mount id, ascending, and entries with equal ids
/// keep their order: `out[i]` is `input[p[i]]` for a permutation `p`.
pub open spec fn is_stable_sort_by_id(input: Seq<MountEntry>, out: Seq<MountEntry>) -> bool {
    exists|p: Seq<int>|
        {
            &&& p.len() == input.len()
            &&& out.len() == input.len()
            &&& forall|i: int| 0 <= i < p.len() ==> 0 <= #[trigger] p[i] < input.len()
            &&& forall|i: int| 0 <= i < out.len() ==> #[trigger] out[i] == input[p[i]]
            &&& forall|i: int, j: int|
                0 <= i < j < out.len() ==> (#[trigger] out[i]).mnt_id < (#[trigger] out[j]).mnt_id
                    || (out[i].mnt_id == out[j].mnt_id && p[i] < p[j])
        }
}

/// `Itertools::sorted_by_key` on the mount id: a stable sort (it collects
/// into a `Vec` and calls `sort_by_key`, which is stable).
#[verifier::external_body]
pub(crate) fn sort_by_mount_id(mounts: Vec<MountEntry>) -> (r: Vec<MountEntry>)
    ensures
        is_stable_sort_by_id(mounts@, r@),
{
    mounts.into_iter().sorted_by_key(|m| m.mnt_id).collect()
}

/// Which inherited mounts a new mount namespace keeps.
#[derive(Debug, Clone, Copy, PartialEq, Eq)]
pub enum SkipTypes {
    /// Keep `tmpfs` and `procfs` mounts (the isolation controls).
    TmpfsAndProcfs,
    /// Keep `proc` and `tmpfs` mounts (the namespace unsharing).
    ProcAndTmpfs,
}

pub open spec fn is_skipped_type(fs_type: Seq<char>, skip: SkipTypes) -> bool {
    match skip {
        SkipTypes::TmpfsAndProcfs => fs_type == "tmpfs"@ || fs_type == "procfs"@,
        SkipTypes::ProcAndTmpfs => fs_type == "proc"@ || fs_type == "tmpfs"@,
    }
}

/// A mount survives when its type is kept, when it is `/`, or when it lies
/// under the new root.
pub open spec fn is_kept(m: MountEntry, skip: SkipTypes, new_root: Option<Seq<char>>) -> bool {
    ||| is_skipped_type(m.fs_type@, skip)
    ||| m.mount_point@ == "/"@
    ||| (new_root matches Some(r) && r.is_prefix_of(m.mount_point@))
}

/// The mount points to unmount, in the order given: every mount that is
/// not kept.
pub open spec fn unmount_targets(ordered: Seq<MountEntry>, skip: SkipTypes, new_root: Option<Seq<char>>) -> Seq<Seq<char>>
    decreases ordered.len(),
{
    if ordered.len() == 0 {
        Seq::empty()
    } else {
        let rest = unmount_targets(ordered.drop_last(), skip, new_root);
        let m = ordered.last();
        if is_kept(m, skip, new_root) {
            rest
        } else {
            rest.push(m.mount_point@)
        }
    }
}

fn kept(m: &MountEntry, skip: SkipTypes, new_root: Option<&str>) -> (r: bool)
    ensures
        r == is_kept(*m, skip, opt_view(new_root)),
{
    let t = m.fs_type.as_str();
    let skipped = match skip {
        SkipTypes::TmpfsAndProcfs => str_eq(t, "tmpfs") || str_eq(t, "procfs"),
        SkipTypes::ProcAndTmpfs => str_eq(t, "proc") || str_eq(t, "tmpfs"),
    };
    if skipped || str_eq(m.mount_point.as_str(), "/") {
        return true;
    }
    match new_root {
        Some(root) => starts_with(m.mount_point.as_str(), root),
        None => false,
    }
}

/// The mount points to unmount when a process leaves its parent's mounts
/// behind: inner mounts first (highest mount id first, ties in reverse
/// table order), skipping what is kept.
pub fn plan_unmounts(mounts: Vec<MountEntry>, skip: SkipTypes, new_root: Option<&str>) -> (r: Vec<String>)
    ensures
        exists|sorted: Seq<MountEntry>|
            is_stable_sort_by_id(mounts@, sorted) && r@.map_values(|s: String| s@)
                == unmount_targets(sorted.reverse(), skip, opt_view(new_root)),
{
    let ghost root_view = opt_view(new_root);
    let sorted = sort_by_mount_id(mounts);
    let mut out: Vec<String> = Vec::new();
    let mut i: usize = sorted.len();
    while i > 0
        invariant
            i <= sorted.len(),
            root_view == opt_view(new_root),
            out@.map_values(|s: String| s@) == unmount_targets(
                sorted@.reverse().take((sorted.len() - i) as int),
                skip,
                root_view,
            ),
        decreases i,
    {
        i = i - 1;
        let ghost before = sorted@.reverse().take((sorted.len() - i - 1) as int);
        let ghost now = sorted@.reverse().take((sorted.len() - i) as int);
        proof {
            assert(now.drop_last() =~= before);
            assert(now.last() == sorted@[i as int]);
            assert(now.len() > 0);
            assert(unmount_targets(now, skip, root_view) == (if is_kept(now.last(), skip, root_view) {
                unmount_targets(before, skip, root_view)
            } else {
                unmount_targets(before, skip, root_view).push(now.last().mount_point@)
            }));
        }
        let m = &sorted[i];
        let k = kept(m, skip, new_root);
        proof {
            assert(*m == now.last());
        }
        if !k {
            let ghost prev = out@;
            out.push(String::from_str(m.mount_point.as_str()));
            proof {
                assert(out@.map_values(|s: String| s@) =~= prev.map_values(|s: String| s@).push(
                    m.mount_point@,
                ));
            }
        }
    }
    proof {
        assert(sorted@.reverse().take(sorted.len() as int) =~= sorted@.reverse());
    }
    out
}

/// What is unmounted: never `/`, never a mount under the new root (one
/// whose mount point starts with it), never a mount of a kept type; every
/// target is the mount point of one of the mounts, and a mount that is none
/// of these is unmounted.
pub proof fn law_unmount_targets_spare_root_and_new_root(
    ordered: Seq<MountEntry>,
    skip: SkipTypes,
    new_root: Option<Seq<char>>,
)
    ensures
        forall|i: int| 0 <= i < unmount_targets(ordered, skip, new_root).len() ==> {
            let t = #[trigger] unmount_targets(ordered, skip, new_root)[i];
            &&& t != "/"@
            &&& (new_root matches Some(r) ==> !r.is_prefix_of(t))
            &&& exists|j: int| 0 <= j < ordered.len() && (#[trigger] ordered[j]).mount_point@ == t
                && !is_skipped_type(ordered[j].fs_type@, skip)
        },
        forall|j: int| 0 <= j < ordered.len() && (#[trigger] ordered[j]).mount_point@ != "/"@
            && !is_skipped_type(ordered[j].fs_type@, skip) && !(new_root matches Some(r)
            && r.is_prefix_of(ordered[j].mount_point@)) ==> unmount_targets(ordered, skip, new_root).contains(
            ordered[j].mount_point@,
        ),
    decreases ordered.len(),
{
    if ordered.len() > 0 {
        let front = ordered.drop_last();
        law_unmount_targets_spare_root_and_new_root(front, skip, new_root);
        let rest = unmount_targets(front, skip, new_root);
        let m = ordered.last();
        let all = unmount_targets(ordered, skip, new_root);
        assert forall|i: int| 0 <= i < all.len() implies {
            let t = #[trigger] all[i];
            &&& t != "/"@
            &&& (new_root matches Some(r) ==> !r.is_prefix_of(t))
            &&& exists|j: int| 0 <= j < ordered.len() && (#[trigger] ordered[j]).mount_point@ == t
                && !is_skipped_type(ordered[j].fs_type@, skip)
        } by {
            if i < rest.len() {
                assert(all[i] == rest[i]);
                let t = rest[i];
                let j = choose|j: int| 0 <= j < front.len() && (#[trigger] front[j]).mount_point@ == t
                    && !is_skipped_type(front[j].fs_type@, skip);
                assert(ordered[j] == front[j]);
            } else {
                assert(all[i] == m.mount_point@);
                assert(ordered[ordered.len() - 1] == m);
            }
        }
        assert forall|j: int| 0 <= j < ordered.len() && (#[trigger] ordered[j]).mount_point@ != "/"@
            && !is_skipped_type(ordered[j].fs_type@, skip) && !(new_root matches Some(r)
            && r.is_prefix_of(ordered[j].mount_point@)) implies all.contains(ordered[j].mount_point@) by {
            if j < front.len() {
                assert(front[j] == ordered[j]);
                assert(rest.contains(ordered[j].mount_point@));
                let k = choose|k: int| 0 <= k < rest.len() && rest[k] == ordered[j].mount_point@;
                assert(all[k] == rest[k]);
            } else {
                assert(all[all.len() - 1] == m.mount_point@);
            }
        }
    }
}

} // verus!
