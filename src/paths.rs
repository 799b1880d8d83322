//! Cgroup version detection from `/proc/self/cgroup`, and mount-point
//! resolution from `/proc/mounts`.
use crate::cgroup_v1::{opt_view, CgroupV1MountPoints};
use crate::stats::{CgroupVersion, StatError};
use crate::text::{lines_of, same_text, split_lines, split_on, split_char, split_whitespace, views, words};
use vstd::prelude::*;

verus! {

/// The version that the record count of `/proc/self/cgroup` indicates: one
/// record is the unified hierarchy, several are v1 controllers, none is
/// malformed.
pub open spec fn version_of(content: Seq<char>) -> Result<CgroupVersion, StatError> {
    let n = lines_of(content).len();
    if n == 0 {
        Err(StatError::InvalidData)
    } else if n == 1 {
        Ok(CgroupVersion::V2)
    } else {
        Ok(CgroupVersion::V1)
    }
}

/// Whether a `/proc/mounts` line mounts a filesystem of type `fstype`.
pub open spec fn mounts_type(line: Seq<char>, fstype: Seq<char>) -> bool {
    words(line).len() >= 3 && words(line)[2] == fstype
}

/// The mount point of the first `cgroup2` line.
pub open spec fn v2_mount_of(lines: Seq<Seq<char>>) -> Option<Seq<char>>
    decreases lines.len(),
{
    if lines.len() == 0 {
        None
    } else if mounts_type(lines[0], "cgroup2"@) {
        Some(words(lines[0])[1])
    } else {
        v2_mount_of(lines.skip(1))
    }
}

/// Whether a `/proc/mounts` line mounts a v1 hierarchy with `controller`
/// among its options.
pub open spec fn mounts_controller(line: Seq<char>, controller: Seq<char>) -> bool {
    words(line).len() >= 4 && words(line)[2] == "cgroup"@ && split_char(words(line)[3], ',').contains(
        controller,
    )
}

/// The mount point of the last line that mounts `controller`.
pub open spec fn controller_mount_of(lines: Seq<Seq<char>>, controller: Seq<char>) -> Option<Seq<char>>
    decreases lines.len(),
{
    if lines.len() == 0 {
        None
    } else if mounts_controller(lines.last(), controller) {
        Some(words(lines.last())[1])
    } else {
        controller_mount_of(lines.drop_last(), controller)
    }
}

/// Counts the records of `/proc/self/cgroup` to tell the version. A record
/// count can only tell the unified hierarchy from v1, so this never answers
/// `V1AndV2`; a hybrid host is taken for v1 here, and its v2 source is not
/// consulted.
pub fn detect_cgroup_version(content: &str) -> (r: Result<CgroupVersion, StatError>)
    ensures
        r == version_of(content@),
{
    let lines = split_lines(content);
    proof {
        assert(views(lines@).len() == lines@.len());
    }
    if lines.len() == 0 {
        Err(StatError::InvalidData)
    } else if lines.len() == 1 {
        Ok(CgroupVersion::V2)
    } else {
        Ok(CgroupVersion::V1)
    }
}

/// The single mount point of the unified hierarchy, from the text of
/// `/proc/mounts`; `NotFound` when nothing is mounted as `cgroup2`.
pub fn get_cgroup_v2_mount_point(content: &str) -> (r: Result<String, StatError>)
    ensures
        match v2_mount_of(lines_of(content@)) {
            Some(m) => r matches Ok(p) && p@ == m,
            None => r == Err::<String, StatError>(StatError::NotFound),
        },
{
    let lines = split_lines(content);
    let ghost all = views(lines@);
    let mut i: usize = 0;
    proof {
        assert(all.skip(0) =~= all);
    }
    while i < lines.len()
        invariant
            all == views(lines@),
            all == lines_of(content@),
            i <= lines@.len(),
            v2_mount_of(all) == v2_mount_of(all.skip(i as int)),
        decreases lines@.len() - i,
    {
        proof {
            assert(all.skip(i as int)[0] == lines@[i as int]@);
            assert(all.skip(i as int).skip(1) =~= all.skip(i + 1));
        }
        let parts = split_whitespace(lines[i].as_str());
        proof {
            assert(views(parts@) == words(lines@[i as int]@));
        }
        if parts.len() >= 3 && same_text(parts[2].as_str(), "cgroup2") {
            proof {
                assert(parts@[2]@ == views(parts@)[2]);
                assert(parts@[1]@ == views(parts@)[1]);
            }
            return Ok(parts[1].clone());
        }
        proof {
            if parts@.len() >= 3 {
                assert(parts@[2]@ == views(parts@)[2]);
            }
        }
        i = i + 1;
    }
    Err(StatError::NotFound)
}

fn contains_text(v: &Vec<String>, t: &str) -> (r: bool)
    ensures
        r == views(v@).contains(t@),
{
    let mut i: usize = 0;
    while i < v.len()
        invariant
            i <= v@.len(),
            forall|j: int| 0 <= j < i ==> v@[j]@ != t@,
        decreases v@.len() - i,
    {
        if same_text(v[i].as_str(), t) {
            proof {
                assert(views(v@)[i as int] == t@);
            }
            return true;
        }
        i = i + 1;
    }
    proof {
        if views(v@).contains(t@) {
            let j = choose|j: int| 0 <= j < views(v@).len() && views(v@)[j] == t@;
            assert(v@[j]@ == t@);
        }
    }
    false
}

/// The mount points of the `cpu`, `cpuacct` and `memory` controllers, from
/// the text of `/proc/mounts`. Where several lines mount a controller, the
/// last one wins; a controller that no line mounts stays unset.
pub fn get_cgroup_v1_mount_points(content: &str) -> (r: CgroupV1MountPoints)
    ensures
        r.wf(),
        r@ == (
            controller_mount_of(lines_of(content@), "cpu"@),
            controller_mount_of(lines_of(content@), "cpuacct"@),
            controller_mount_of(lines_of(content@), "memory"@),
        ),
{
    let lines = split_lines(content);
    let ghost all = views(lines@);
    let mut cpu: Option<String> = None;
    let mut cpuacct: Option<String> = None;
    let mut memory: Option<String> = None;
    let mut i: usize = 0;
    proof {
        assert(all.take(0) =~= Seq::<Seq<char>>::empty());
    }
    while i < lines.len()
        invariant
            all == views(lines@),
            all == lines_of(content@),
            i <= lines@.len(),
            opt_view(cpu) == controller_mount_of(all.take(i as int), "cpu"@),
            opt_view(cpuacct) == controller_mount_of(all.take(i as int), "cpuacct"@),
            opt_view(memory) == controller_mount_of(all.take(i as int), "memory"@),
        decreases lines@.len() - i,
    {
        let ghost prefix = all.take(i + 1);
        proof {
            assert(prefix.drop_last() =~= all.take(i as int));
            assert(prefix.last() == lines@[i as int]@);
        }
        let parts = split_whitespace(lines[i].as_str());
        proof {
            assert(views(parts@) == words(lines@[i as int]@));
        }
        if parts.len() >= 4 && same_text(parts[2].as_str(), "cgroup") {
            proof {
                assert(parts@[1]@ == views(parts@)[1]);
                assert(parts@[2]@ == views(parts@)[2]);
                assert(parts@[3]@ == views(parts@)[3]);
            }
            let options = split_on(parts[3].as_str(), ',');
            if contains_text(&options, "cpu") {
                cpu = Some(parts[1].clone());
            }
            if contains_text(&options, "cpuacct") {
                cpuacct = Some(parts[1].clone());
            }
            if contains_text(&options, "memory") {
                memory = Some(parts[1].clone());
            }
        } else {
            proof {
                if parts@.len() >= 4 {
                    assert(parts@[2]@ == views(parts@)[2]);
                }
            }
        }
        i = i + 1;
    }
    proof {
        assert(all.take(lines@.len() as int) =~= all);
    }
    CgroupV1MountPoints::new(cpu, cpuacct, memory)
}

/// When exactly one line mounts `cgroup2`, its mount point is the one found.
pub proof fn lemma_single_v2_line(lines: Seq<Seq<char>>, k: int)
    requires
        0 <= k < lines.len(),
        mounts_type(lines[k], "cgroup2"@),
        forall|j: int| 0 <= j < lines.len() && j != k ==> !mounts_type(#[trigger] lines[j], "cgroup2"@),
    ensures
        v2_mount_of(lines) == Some(words(lines[k])[1]),
    decreases lines.len(),
{
    if k > 0 {
        let rest = lines.skip(1);
        assert forall|j: int| 0 <= j < rest.len() && j != k - 1 implies !mounts_type(
            #[trigger] rest[j],
            "cgroup2"@,
        ) by {
            assert(rest[j] == lines[j + 1]);
        }
        lemma_single_v2_line(rest, k - 1);
    }
}

/// With no line that mounts `cgroup2`, there is no unified mount point.
pub proof fn lemma_no_v2_line(lines: Seq<Seq<char>>)
    requires
        forall|j: int| 0 <= j < lines.len() ==> !mounts_type(#[trigger] lines[j], "cgroup2"@),
    ensures
        v2_mount_of(lines) is None,
    decreases lines.len(),
{
    if lines.len() > 0 {
        let rest = lines.skip(1);
        assert forall|j: int| 0 <= j < rest.len() implies !mounts_type(#[trigger] rest[j], "cgroup2"@) by {
            assert(rest[j] == lines[j + 1]);
        }
        lemma_no_v2_line(rest);
    }
}

/// With no line that mounts a v1 hierarchy, no controller slot is set.
pub proof fn lemma_no_v1_line(lines: Seq<Seq<char>>, controller: Seq<char>)
    requires
        forall|j: int| 0 <= j < lines.len() ==> !mounts_type(#[trigger] lines[j], "cgroup"@),
    ensures
        controller_mount_of(lines, controller) is None,
    decreases lines.len(),
{
    if lines.len() > 0 {
        let rest = lines.drop_last();
        assert(!mounts_type(lines[lines.len() - 1], "cgroup"@));
        assert forall|j: int| 0 <= j < rest.len() implies !mounts_type(#[trigger] rest[j], "cgroup"@) by {
            assert(rest[j] == lines[j]);
        }
        lemma_no_v1_line(rest, controller);
    }
}

/// Co-mounted controllers share a mount point: when every line that mounts
/// `cpu` also mounts `cpuacct` and the other way round, both slots are equal.
pub proof fn lemma_comounted_cpu_cpuacct(lines: Seq<Seq<char>>)
    requires
        forall|j: int| 0 <= j < lines.len() ==> (mounts_controller(#[trigger] lines[j], "cpu"@)
            <==> mounts_controller(lines[j], "cpuacct"@)),
    ensures
        controller_mount_of(lines, "cpu"@) == controller_mount_of(lines, "cpuacct"@),
    decreases lines.len(),
{
    if lines.len() > 0 {
        let rest = lines.drop_last();
        assert(mounts_controller(lines[lines.len() - 1], "cpu"@) <==> mounts_controller(
            lines[lines.len() - 1],
            "cpuacct"@,
        ));
        assert forall|j: int| 0 <= j < rest.len() implies (mounts_controller(
            #[trigger] rest[j],
            "cpu"@,
        ) <==> mounts_controller(rest[j], "cpuacct"@)) by {
            assert(rest[j] == lines[j]);
        }
        lemma_comounted_cpu_cpuacct(rest);
    }
}

} // verus!
