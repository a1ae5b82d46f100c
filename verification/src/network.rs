//! The network plan of a container: one veth pair, named deterministically
//! from the container id, wired into the container's network namespace and
//! optionally addressed from the host or attached to a bridge. The library
//! computes the exact privileged command lines; the host runs them in order.

use vstd::prelude::*;
use crate::dec::{dec_chars, dec_string};

verus! {

/// The network configuration of one container.
#[derive(Debug)]
pub struct NetworkConfig {
    /// The address of the container-side interface, in dotted form.
    pub cont_addr: String,
    /// An address for the host-side veth end, with a host route to the guest.
    pub host_addr: Option<String>,
    /// A bridge the host-side veth end joins.
    pub host_bridge: Option<String>,
}

/// The name of the host-side veth end of container `id`.
pub open spec fn veth_host_chars(id: int) -> Seq<char> {
    "veth"@ + dec_chars(id as nat) + "h"@
}

/// The name of the guest-side veth end of container `id`.
pub open spec fn veth_guest_chars(id: int) -> Seq<char> {
    "veth"@ + dec_chars(id as nat) + "g"@
}

/// The commands that create and wire the veth pair, in order.
pub open spec fn net_commands(id: int, conf: NetworkConfig) -> Seq<Seq<Seq<char>>> {
    let idc = dec_chars(id as nat);
    let vh = veth_host_chars(id);
    let vg = veth_guest_chars(id);
    let base = seq![
        seq!["sudo"@, "ip"@, "link"@, "add"@, vh, "type"@, "veth"@, "peer"@, "name"@, vg],
        seq!["sudo"@, "ip"@, "link"@, "set"@, vg, "netns"@, idc],
        seq!["sudo"@, "nsenter"@, "--net"@, "-t"@, idc, "ip"@, "link"@, "set"@, "lo"@, "up"@],
        seq![
            "sudo"@,
            "nsenter"@,
            "--net"@,
            "-t"@,
            idc,
            "ip"@,
            "link"@,
            "set"@,
            vg,
            "name"@,
            "eth0"@,
        ],
        seq!["sudo"@, "nsenter"@, "--net"@, "-t"@, idc, "ip"@, "link"@, "set"@, "eth0"@, "up"@],
        seq![
            "sudo"@,
            "nsenter"@,
            "--net"@,
            "-t"@,
            idc,
            "ip"@,
            "addr"@,
            "add"@,
            conf.cont_addr@,
            "dev"@,
            "eth0"@,
        ],
        seq![
            "sudo"@,
            "nsenter"@,
            "--net"@,
            "-t"@,
            idc,
            "ip"@,
            "route"@,
            "add"@,
            "default"@,
            "dev"@,
            "eth0"@,
        ],
        seq!["sudo"@, "ip"@, "link"@, "set"@, vh, "up"@],
    ];
    let with_host = if conf.host_addr is Some {
        base + seq![
            seq!["sudo"@, "ip"@, "addr"@, "add"@, conf.host_addr->0@, "dev"@, vh],
            seq!["sudo"@, "ip"@, "route"@, "add"@, conf.cont_addr@, "dev"@, vh],
        ]
    } else {
        base
    };
    if conf.host_bridge is Some {
        with_host + seq![seq!["sudo"@, "ip"@, "link"@, "set"@, vh, "master"@, conf.host_bridge->0@]]
    } else {
        with_host
    }
}

/// The name of the host-side veth end.
pub fn veth_host_name(cont_id: i32) -> (r: String)
    requires
        cont_id >= 0,
    ensures
        r@ == veth_host_chars(cont_id as int),
{
    let r = "veth".to_owned().concat(dec_string(cont_id as u64).as_str()).concat("h");
    proof {
        assert(r@ =~= veth_host_chars(cont_id as int));
    }
    r
}

/// The name of the guest-side veth end.
pub fn veth_guest_name(cont_id: i32) -> (r: String)
    requires
        cont_id >= 0,
    ensures
        r@ == veth_guest_chars(cont_id as int),
{
    let r = "veth".to_owned().concat(dec_string(cont_id as u64).as_str()).concat("g");
    proof {
        assert(r@ =~= veth_guest_chars(cont_id as int));
    }
    r
}

fn push_words(cmds: &mut Vec<Vec<String>>, row: Vec<String>)
    ensures
        final(cmds).deep_view() == old(cmds).deep_view().push(row.deep_view()),
{
    cmds.push(row);
    proof {
        assert(final(cmds).deep_view() =~= old(cmds).deep_view().push(row.deep_view()));
    }
}

/// The exact command sequence that configures the container's network, empty
/// when no network was asked for.
pub fn configure_network(cont_id: i32, net: &Option<NetworkConfig>) -> (r: Vec<Vec<String>>)
    requires
        cont_id >= 0,
    ensures
        match net {
            Option::None => r.deep_view() == Seq::<Seq<Seq<char>>>::empty(),
            Option::Some(conf) => r.deep_view() == net_commands(cont_id as int, *conf),
        },
{
    let mut r: Vec<Vec<String>> = Vec::new();
    let conf = match net {
        Option::None => {
            proof {
                assert(r.deep_view() =~= Seq::<Seq<Seq<char>>>::empty());
            }
            return r;
        },
        Option::Some(conf) => conf,
    };
    let id = dec_string(cont_id as u64);
    let vh = veth_host_name(cont_id);
    let vg = veth_guest_name(cont_id);

    let mut row: Vec<String> = Vec::new();
    row.push("sudo".to_owned());
    row.push("ip".to_owned());
    row.push("link".to_owned());
    row.push("add".to_owned());
    row.push(vh.clone());
    row.push("type".to_owned());
    row.push("veth".to_owned());
    row.push("peer".to_owned());
    row.push("name".to_owned());
    row.push(vg.clone());
    push_words(&mut r, row);

    let mut row: Vec<String> = Vec::new();
    row.push("sudo".to_owned());
    row.push("ip".to_owned());
    row.push("link".to_owned());
    row.push("set".to_owned());
    row.push(vg.clone());
    row.push("netns".to_owned());
    row.push(id.clone());
    push_words(&mut r, row);

    let mut row: Vec<String> = Vec::new();
    row.push("sudo".to_owned());
    row.push("nsenter".to_owned());
    row.push("--net".to_owned());
    row.push("-t".to_owned());
    row.push(id.clone());
    row.push("ip".to_owned());
    row.push("link".to_owned());
    row.push("set".to_owned());
    row.push("lo".to_owned());
    row.push("up".to_owned());
    push_words(&mut r, row);

    let mut row: Vec<String> = Vec::new();
    row.push("sudo".to_owned());
    row.push("nsenter".to_owned());
    row.push("--net".to_owned());
    row.push("-t".to_owned());
    row.push(id.clone());
    row.push("ip".to_owned());
    row.push("link".to_owned());
    row.push("set".to_owned());
    row.push(vg.clone());
    row.push("name".to_owned());
    row.push("eth0".to_owned());
    push_words(&mut r, row);

    let mut row: Vec<String> = Vec::new();
    row.push("sudo".to_owned());
    row.push("nsenter".to_owned());
    row.push("--net".to_owned());
    row.push("-t".to_owned());
    row.push(id.clone());
    row.push("ip".to_owned());
    row.push("link".to_owned());
    row.push("set".to_owned());
    row.push("eth0".to_owned());
    row.push("up".to_owned());
    push_words(&mut r, row);

    let mut row: Vec<String> = Vec::new();
    row.push("sudo".to_owned());
    row.push("nsenter".to_owned());
    row.push("--net".to_owned());
    row.push("-t".to_owned());
    row.push(id.clone());
    row.push("ip".to_owned());
    row.push("addr".to_owned());
    row.push("add".to_owned());
    row.push(conf.cont_addr.clone());
    row.push("dev".to_owned());
    row.push("eth0".to_owned());
    push_words(&mut r, row);

    let mut row: Vec<String> = Vec::new();
    row.push("sudo".to_owned());
    row.push("nsenter".to_owned());
    row.push("--net".to_owned());
    row.push("-t".to_owned());
    row.push(id.clone());
    row.push("ip".to_owned());
    row.push("route".to_owned());
    row.push("add".to_owned());
    row.push("default".to_owned());
    row.push("dev".to_owned());
    row.push("eth0".to_owned());
    push_words(&mut r, row);

    let mut row: Vec<String> = Vec::new();
    row.push("sudo".to_owned());
    row.push("ip".to_owned());
    row.push("link".to_owned());
    row.push("set".to_owned());
    row.push(vh.clone());
    row.push("up".to_owned());
    push_words(&mut r, row);

    if let Option::Some(host_ip) = &conf.host_addr {
        let mut row: Vec<String> = Vec::new();
        row.push("sudo".to_owned());
        row.push("ip".to_owned());
        row.push("addr".to_owned());
        row.push("add".to_owned());
        row.push(host_ip.clone());
        row.push("dev".to_owned());
        row.push(vh.clone());
        push_words(&mut r, row);

        let mut row: Vec<String> = Vec::new();
        row.push("sudo".to_owned());
        row.push("ip".to_owned());
        row.push("route".to_owned());
        row.push("add".to_owned());
        row.push(conf.cont_addr.clone());
        row.push("dev".to_owned());
        row.push(vh.clone());
        push_words(&mut r, row);
    }

    if let Option::Some(bridge) = &conf.host_bridge {
        let mut row: Vec<String> = Vec::new();
        row.push("sudo".to_owned());
        row.push("ip".to_owned());
        row.push("link".to_owned());
        row.push("set".to_owned());
        row.push(vh.clone());
        row.push("master".to_owned());
        row.push(bridge.clone());
        push_words(&mut r, row);
    }

    proof {
        assert(r.deep_view() =~~= net_commands(cont_id as int, *conf));
    }
    r
}

/// The guest address the orchestrator gives replica interfaces: a fixed
/// private network with the given last octet.
pub fn get_ip(last_octet: u8) -> (r: String)
    ensures
        r@ == "10.0.2."@ + dec_chars(last_octet as nat),
{
    let r = "10.0.2.".to_owned().concat(dec_string(last_octet as u64).as_str());
    proof {
        assert(r@ =~= "10.0.2."@ + dec_chars(last_octet as nat));
    }
    r
}

} // verus!
