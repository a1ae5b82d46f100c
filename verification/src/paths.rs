//! The on-disk layout of a container: every path is derived from the fixed
//! containers root and the container's init process id.

use vstd::prelude::*;
use crate::dec::{dec_chars, dec_string, lemma_dec_chars_injective};

verus! {

/// The fixed directory under which every container's state lives.
pub const CONTAINERS_DIR: &'static str = "/tmp/aucont/containers";

/// The view a container path starts with: the containers root and a slash.
pub open spec fn dir_prefix() -> Seq<char> {
    CONTAINERS_DIR@ + "/"@
}

/// The view of the directory of container `pid` followed by `suf`.
pub open spec fn dir_suf_chars(pid: int, suf: Seq<char>) -> Seq<char> {
    dir_prefix() + dec_chars(pid as nat) + suf
}

/// The path of the container's directory followed by the suffix `suf`.
pub fn container_dir_suf(cont_pid: i32, suf: &str) -> (r: String)
    requires
        cont_pid >= 0,
    ensures
        r@ == dir_suf_chars(cont_pid as int, suf@),
{
    let r = CONTAINERS_DIR.to_owned().concat("/").concat(dec_string(cont_pid as u64).as_str()).concat(
        suf,
    );
    proof {
        assert(r@ =~= dir_suf_chars(cont_pid as int, suf@));
    }
    r
}

/// The container's own directory.
pub fn container_dir(cont_pid: i32) -> (r: String)
    requires
        cont_pid >= 0,
    ensures
        r@ == dir_suf_chars(cont_pid as int, ""@),
{
    container_dir_suf(cont_pid, "")
}

/// The directory of the persisted info record.
pub fn container_info_dir(cont_pid: i32) -> (r: String)
    requires
        cont_pid >= 0,
    ensures
        r@ == dir_suf_chars(cont_pid as int, "/info"@),
{
    container_dir_suf(cont_pid, "/info")
}

/// The path of one file of the info record.
pub fn container_info_file(cont_pid: i32, name: &str) -> (r: String)
    requires
        cont_pid >= 0,
    ensures
        r@ == dir_suf_chars(cont_pid as int, "/info/"@ + name@),
{
    let suf = "/info/".to_owned().concat(name);
    let r = container_dir_suf(cont_pid, suf.as_str());
    proof {
        assert(r@ =~= dir_suf_chars(cont_pid as int, "/info/"@ + name@));
    }
    r
}

/// The container's root filesystem directory.
pub fn container_root_fs(cont_pid: i32) -> (r: String)
    requires
        cont_pid >= 0,
    ensures
        r@ == dir_suf_chars(cont_pid as int, "/rootfs"@),
{
    container_dir_suf(cont_pid, "/rootfs")
}

/// Distinct container ids own distinct directories under every common suffix:
/// two concurrent container creations never touch each other's on-disk state.
pub proof fn lemma_container_dir_distinct(p1: int, p2: int, suf: Seq<char>)
    requires
        p1 >= 0,
        p2 >= 0,
        p1 != p2,
    ensures
        dir_suf_chars(p1, suf) != dir_suf_chars(p2, suf),
{
    if dir_suf_chars(p1, suf) == dir_suf_chars(p2, suf) {
        let a = dir_prefix();
        let d1 = dec_chars(p1 as nat);
        let d2 = dec_chars(p2 as nat);
        assert((a + d1 + suf).len() == (a + d2 + suf).len());
        assert(d1.len() == d2.len());
        assert forall|i: int| 0 <= i < d1.len() implies d1[i] == d2[i] by {
            assert((a + d1 + suf)[a.len() + i] == d1[i]);
            assert((a + d2 + suf)[a.len() + i] == d2[i]);
        }
        assert(d1 =~= d2);
        lemma_dec_chars_injective(p1 as nat, p2 as nat);
    }
}

} // verus!
