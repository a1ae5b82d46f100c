//! The cgroup protocol: the command lines that invoke the privileged cgroup
//! helper, and the helper's own decisions — paths, the CPU quota arithmetic,
//! and the control files it writes.

use vstd::prelude::*;
use crate::dec::{dec_chars, dec_string};
use crate::paths::{container_dir_suf, dir_suf_chars};
use crate::action::FileWrite;
use crate::result::Error;

verus! {

/// The fixed cgroup CPU period, in microseconds.
pub const CPU_PERIOD_US: u64 = 100000;

/// The quota the helper writes for a CPU percentage and a host core count:
/// `period * perc * nprocs / 100` in integer arithmetic.
pub open spec fn quota_of(perc: int, nprocs: int) -> int {
    100000 * perc * nprocs / 100
}

/// Computes the CPU quota for `perc` percent of `nprocs` cores.
pub fn cpu_quota(perc: u32, nprocs: u32) -> (r: u64)
    requires
        perc <= 100,
        nprocs >= 1,
    ensures
        r == quota_of(perc as int, nprocs as int),
{
    proof {
        assert((100000 * perc as int) * nprocs as int <= 10000000 * 0xffff_ffff) by (nonlinear_arith)
            requires
                perc <= 100,
                nprocs <= 0xffff_ffff,
        ;
        assert(100000 * perc as int * nprocs as int >= 0) by (nonlinear_arith)
            requires
                perc >= 0,
                nprocs >= 0,
        ;
    }
    (100000u64 * (perc as u64) * (nprocs as u64)) / 100
}

/// The helper's private mount point for the container's cpu cgroup.
pub fn cgroup_mount_path(cont_id: i32) -> (r: String)
    requires
        cont_id >= 0,
    ensures
        r@ == dir_suf_chars(cont_id as int, "/cpu_cgroup"@),
{
    container_dir_suf(cont_id, "/cpu_cgroup")
}

/// The view of the container's cgroup node under the private mount.
pub open spec fn cgroup_node_chars(cont_id: int) -> Seq<char> {
    dir_suf_chars(cont_id, "/cpu_cgroup"@) + "/aucont_"@ + dec_chars(cont_id as nat)
}

/// The container's cgroup node under the private mount.
pub fn cgroup_node_path(cont_id: i32) -> (r: String)
    requires
        cont_id >= 0,
    ensures
        r@ == cgroup_node_chars(cont_id as int),
{
    let r = cgroup_mount_path(cont_id).concat("/aucont_").concat(
        dec_string(cont_id as u64).as_str(),
    );
    proof {
        assert(r@ =~= cgroup_node_chars(cont_id as int));
    }
    r
}

/// The control files the helper's create command writes, in order: the
/// container's init process joins the node's tasks, then the period and the
/// computed quota are set. A percentage above 100 is a usage error, rejected
/// before any file is named.
pub fn cgroup_create_writes(cont_id: i32, perc: u32, nprocs: u32) -> (r: Result<
    Vec<FileWrite>,
    Error,
>)
    requires
        cont_id >= 0,
        nprocs >= 1,
    ensures
        r is Ok <==> perc <= 100,
        r is Ok ==> {
            let ws = r->Ok_0;
            &&& ws@.len() == 3
            &&& ws@[0].path@ == cgroup_node_chars(cont_id as int) + "/tasks"@
            &&& ws@[0].content@ == dec_chars(cont_id as nat)
            &&& ws@[1].path@ == cgroup_node_chars(cont_id as int) + "/cpu.cfs_period_us"@
            &&& ws@[1].content@ == dec_chars(100000)
            &&& ws@[2].path@ == cgroup_node_chars(cont_id as int) + "/cpu.cfs_quota_us"@
            &&& ws@[2].content@ == dec_chars(quota_of(perc as int, nprocs as int) as nat)
        },
{
    if perc > 100 {
        return Err(Error::simple("Percent of cpu must not be greater than 100"));
    }
    let node = cgroup_node_path(cont_id);
    let quota = cpu_quota(perc, nprocs);
    let mut ws: Vec<FileWrite> = Vec::new();
    ws.push(
        FileWrite::new(node.clone().concat("/tasks"), dec_string(cont_id as u64)),
    );
    ws.push(
        FileWrite::new(node.clone().concat("/cpu.cfs_period_us"), dec_string(CPU_PERIOD_US)),
    );
    ws.push(FileWrite::new(node.concat("/cpu.cfs_quota_us"), dec_string(quota)));
    proof {
        assert(quota_of(perc as int, nprocs as int) >= 0) by (nonlinear_arith)
            requires
                perc >= 0,
                nprocs >= 0,
        ;
    }
    Ok(ws)
}

/// Appends a copy of every word of `words`.
fn append_words(out: &mut Vec<String>, words: &Vec<String>)
    ensures
        final(out).deep_view() == old(out).deep_view() + words.deep_view(),
{
    let n = words.len();
    let mut i: usize = 0;
    while i < n
        invariant
            0 <= i <= n,
            n == words@.len(),
            out@.len() == old(out)@.len() + i,
            out.deep_view() =~~= old(out).deep_view() + words.deep_view().subrange(0, i as int),
        decreases n - i,
    {
        let ghost prev = out.deep_view();
        let ghost prev_vals = out@;
        let w = &words[i];
        out.push(w.clone());
        i += 1;
        proof {
            let dv = old(out).deep_view() + words.deep_view().subrange(0, i as int);
            assert(out@ == prev_vals.push(words@[i - 1]));
            assert forall|j: int| 0 <= j < out@.len() implies out.deep_view()[j] == dv[j] by {
                if j < out@.len() - 1 {
                    assert(out@[j] == prev_vals[j]);
                    assert(out.deep_view()[j] == prev[j]);
                } else {
                    assert(out@[j] == words@[i - 1]);
                    assert(out.deep_view()[j] == words.deep_view()[i - 1]);
                }
            }
            assert(out.deep_view() =~~= dv);
        }
    }
    proof {
        assert(words.deep_view().subrange(0, n as int) =~~= words.deep_view());
        assert(out.deep_view() =~~= old(out).deep_view() + words.deep_view());
    }
}

/// The command line that asks the privileged helper — invoked by the words
/// of `util` — to create the container's cgroup with the given CPU
/// percentage and ownership.
pub fn cgroup_create(util: &Vec<String>, cont_id: i32, perc: u32, uid: u32, gid: u32) -> (r: Vec<
    String,
>)
    requires
        cont_id >= 0,
    ensures
        r.deep_view() =~= seq!["sudo"@] + util.deep_view() + seq![
            dec_chars(cont_id as nat),
            "create"@,
            "--perc"@,
            dec_chars(perc as nat),
            "--uid"@,
            dec_chars(uid as nat),
            "--gid"@,
            dec_chars(gid as nat),
        ],
{
    let mut tail: Vec<String> = Vec::new();
    tail.push(dec_string(cont_id as u64));
    tail.push("create".to_owned());
    tail.push("--perc".to_owned());
    tail.push(dec_string(perc as u64));
    tail.push("--uid".to_owned());
    tail.push(dec_string(uid as u64));
    tail.push("--gid".to_owned());
    tail.push(dec_string(gid as u64));
    proof {
        assert(tail.deep_view() =~~= seq![
            dec_chars(cont_id as nat),
            "create"@,
            "--perc"@,
            dec_chars(perc as nat),
            "--uid"@,
            dec_chars(uid as nat),
            "--gid"@,
            dec_chars(gid as nat),
        ]);
    }
    let mut r: Vec<String> = Vec::new();
    r.push("sudo".to_owned());
    proof {
        assert(r.deep_view() =~~= seq!["sudo"@]);
    }
    append_words(&mut r, util);
    append_words(&mut r, &tail);
    proof {
        assert(r.deep_view() =~~= seq!["sudo"@] + util.deep_view() + tail.deep_view());
    }
    r
}

/// The command line that asks the privileged helper — invoked by the words
/// of `util` — to add `target` to the container's existing cgroup.
pub fn cgroup_enter(util: &Vec<String>, cont_id: i32, target: i32) -> (r: Vec<String>)
    requires
        cont_id >= 0,
        target >= 0,
    ensures
        r.deep_view() =~= seq!["sudo"@] + util.deep_view() + seq![
            dec_chars(cont_id as nat),
            "enter"@,
            "--target"@,
            dec_chars(target as nat),
        ],
{
    let mut tail: Vec<String> = Vec::new();
    tail.push(dec_string(cont_id as u64));
    tail.push("enter".to_owned());
    tail.push("--target".to_owned());
    tail.push(dec_string(target as u64));
    proof {
        assert(tail.deep_view() =~~= seq![
            dec_chars(cont_id as nat),
            "enter"@,
            "--target"@,
            dec_chars(target as nat),
        ]);
    }
    let mut r: Vec<String> = Vec::new();
    r.push("sudo".to_owned());
    proof {
        assert(r.deep_view() =~~= seq!["sudo"@]);
    }
    append_words(&mut r, util);
    append_words(&mut r, &tail);
    proof {
        assert(r.deep_view() =~~= seq!["sudo"@] + util.deep_view() + tail.deep_view());
    }
    r
}

/// The command line that asks the privileged helper — invoked by the words
/// of `util` — to delete the container's cgroup.
pub fn cgroup_delete(util: &Vec<String>, cont_id: i32) -> (r: Vec<String>)
    requires
        cont_id >= 0,
    ensures
        r.deep_view() =~= seq!["sudo"@] + util.deep_view() + seq![
            dec_chars(cont_id as nat),
            "delete"@,
        ],
{
    let mut tail: Vec<String> = Vec::new();
    tail.push(dec_string(cont_id as u64));
    tail.push("delete".to_owned());
    proof {
        assert(tail.deep_view() =~~= seq![dec_chars(cont_id as nat), "delete"@]);
    }
    let mut r: Vec<String> = Vec::new();
    r.push("sudo".to_owned());
    proof {
        assert(r.deep_view() =~~= seq!["sudo"@]);
    }
    append_words(&mut r, util);
    append_words(&mut r, &tail);
    proof {
        assert(r.deep_view() =~~= seq!["sudo"@] + util.deep_view() + tail.deep_view());
    }
    r
}

} // verus!
