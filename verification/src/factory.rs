//! The container factory: the host-side steps that take a validated
//! configuration and a freshly cloned init process to a container handle —
//! identity mapping, the on-disk directory, the root filesystem copy, the
//! persisted info record, the CPU limit, the network, and the handshake that
//! releases the init process.

use vstd::prelude::*;
use crate::action::FileWrite;
use crate::cgroup::cgroup_create;
use crate::container::Container;
use crate::dec::dec_chars;
use crate::idmap::{entry_line, IdMapEntry, IdMapFactory};
use crate::init::ContainerInitConfig;
use crate::network::{configure_network, net_commands, NetworkConfig};
use crate::paths::{container_dir, container_info_dir, container_root_fs, dir_suf_chars};
use crate::pipe::Pipe;
use crate::process::RawProcess;
use crate::result::{CommentError, Cause, Error};

verus! {

/// Everything a caller asks of a new container.
#[derive(Debug)]
pub struct ContainerConfig {
    pub daemonize: bool,
    pub image_path: String,
    pub cmd: String,
    pub cmd_args: Vec<String>,
    pub net: Option<NetworkConfig>,
    pub cpu_perc: Option<u32>,
    pub environment: Vec<(String, String)>,
    pub redirect_stderr: Option<String>,
    pub redirect_stdin: Option<String>,
    pub redirect_stdout: Option<String>,
}

impl Default for ContainerConfig {
    /// A configuration that asks for nothing: no daemon, empty paths and
    /// command, no network, no CPU limit, no environment, no redirection.
    fn default() -> (r: ContainerConfig)
        ensures
            r.daemonize == false,
            r.image_path@ == Seq::<char>::empty(),
            r.cmd@ == Seq::<char>::empty(),
            r.cmd_args@ == Seq::<String>::empty(),
            r.net is None,
            r.cpu_perc is None,
            r.environment@ == Seq::<(String, String)>::empty(),
            r.redirect_stderr is None,
            r.redirect_stdin is None,
            r.redirect_stdout is None,
    {
        ContainerConfig {
            daemonize: false,
            image_path: String::new(),
            cmd: String::new(),
            cmd_args: Vec::new(),
            net: None,
            cpu_perc: None,
            environment: Vec::new(),
            redirect_stderr: None,
            redirect_stdin: None,
            redirect_stdout: None,
        }
    }
}

/// A configuration the factory accepts: a requested CPU percentage may not
/// exceed 100.
pub open spec fn spec_valid_config(c: ContainerConfig) -> bool {
    c.cpu_perc matches Some(p) ==> p <= 100
}

impl ContainerConfig {
    /// The CPU percentage the container gets: the requested one, or the full
    /// 100 when none was requested.
    pub open spec fn spec_cpu_perc(self) -> u32 {
        match self.cpu_perc {
            Option::Some(p) => p,
            Option::None => 100,
        }
    }

    /// Rejects a CPU percentage above 100 as a usage error. This runs before
    /// anything else the factory does: an invalid request fails before any
    /// process is cloned and before any on-disk state exists.
    pub fn validate(&self) -> (r: Result<(), Error>)
        ensures
            r is Ok <==> spec_valid_config(*self),
            r is Err ==> r->Err_0.cause is None,
    {
        match &self.cpu_perc {
            Option::Some(p) => {
                if *p > 100 {
                    Err(Error::simple("Percent of cpu must not be greater than 100"))
                } else {
                    Ok(())
                }
            },
            Option::None => Ok(()),
        }
    }

    /// The part of the configuration the init sequence needs, handed to the
    /// child branch of the clone.
    pub fn init_config(&self) -> (r: ContainerInitConfig)
        ensures
            r.daemonize == self.daemonize,
            r.cmd@ == self.cmd@,
            r.cmd_args.deep_view() == self.cmd_args.deep_view(),
            r.environment.deep_view() == self.environment.deep_view(),
            r.redirect_stderr.deep_view() == self.redirect_stderr.deep_view(),
            r.redirect_stdin.deep_view() == self.redirect_stdin.deep_view(),
            r.redirect_stdout.deep_view() == self.redirect_stdout.deep_view(),
    {
        let mut cmd_args: Vec<String> = Vec::new();
        let n_args = self.cmd_args.len();
        let mut i: usize = 0;
        while i < n_args
            invariant
                0 <= i <= n_args,
                n_args == self.cmd_args@.len(),
                cmd_args@.len() == i,
                cmd_args.deep_view() =~~= self.cmd_args.deep_view().subrange(0, i as int),
            decreases n_args - i,
        {
            let a = &self.cmd_args[i];
            cmd_args.push(a.clone());
            i += 1;
            proof {
                let dv = self.cmd_args.deep_view();
                assert(cmd_args@.len() == i);
                assert(cmd_args@[i - 1] == self.cmd_args@[i - 1]);
                assert forall|j: int| 0 <= j < i implies cmd_args.deep_view()[j] == dv.subrange(
                    0,
                    i as int,
                )[j] by {
                    assert(cmd_args.deep_view()[j] == cmd_args@[j].deep_view());
                    assert(dv[j] == self.cmd_args@[j].deep_view());
                }
                assert(cmd_args.deep_view() =~~= dv.subrange(0, i as int));
            }
        }
        let mut environment: Vec<(String, String)> = Vec::new();
        let n_env = self.environment.len();
        let mut i: usize = 0;
        while i < n_env
            invariant
                0 <= i <= n_env,
                n_env == self.environment@.len(),
                environment.deep_view() =~~= self.environment.deep_view().subrange(0, i as int),
            decreases n_env - i,
        {
            let p = &self.environment[i];
            environment.push((p.0.clone(), p.1.clone()));
            i += 1;
            proof {
                assert(environment.deep_view() =~~= self.environment.deep_view().subrange(
                    0,
                    i as int,
                ));
            }
        }
        proof {
            assert(self.cmd_args.deep_view().subrange(0, n_args as int) =~~= self.cmd_args.deep_view());
            assert(self.environment.deep_view().subrange(0, n_env as int)
                =~~= self.environment.deep_view());
        }
        ContainerInitConfig {
            daemonize: self.daemonize,
            cmd: self.cmd.clone(),
            cmd_args,
            environment,
            redirect_stderr: match &self.redirect_stderr {
                Option::Some(p) => Some(p.clone()),
                Option::None => None,
            },
            redirect_stdin: match &self.redirect_stdin {
                Option::Some(p) => Some(p.clone()),
                Option::None => None,
            },
            redirect_stdout: match &self.redirect_stdout {
                Option::Some(p) => Some(p.clone()),
                Option::None => None,
            },
        }
    }
}

/// The parent-side factory, holding the configuration, the handle on the
/// cloned init process, and the pipe that will release it.
pub struct ContainerFactory {
    config: ContainerConfig,
    process: RawProcess,
    pipe: Pipe,
}

impl ContainerFactory {
    /// The container's id: the init process's host-visible id.
    pub closed spec fn id(&self) -> int {
        self.process.id()
    }

    /// The configuration this factory builds from.
    pub closed spec fn config(&self) -> ContainerConfig {
        self.config
    }

    /// Assembles the factory around a validated configuration, the handle
    /// the clone returned to the parent, and the pipe both branches inherit.
    pub fn new(config: ContainerConfig, process: RawProcess, pipe: Pipe) -> (r: Self)
        requires
            spec_valid_config(config),
        ensures
            r.config() == config,
            r.id() == process.id(),
    {
        ContainerFactory { config, process, pipe }
    }

    /// The container's id.
    pub fn get_id(&self) -> (r: i32)
        ensures
            r == self.id(),
            r >= 0,
    {
        self.process.get_pid()
    }

    /// The writes that grant the container's root user the invoking host
    /// identity: a single uid range mapping the host uid to 0, the marker
    /// that denies further group changes, and a single gid range mapping the
    /// host gid to 0 — in that order.
    pub fn map_uid(&self, host_uid: u32, host_gid: u32) -> (r: Vec<FileWrite>)
        ensures
            r@.len() == 3,
            r@[0].path@ == "/proc/"@ + dec_chars(self.id() as nat) + "/uid_map"@,
            r@[0].content@ == entry_line(IdMapEntry { from: host_uid, to: 0, length: 1 }),
            r@[1].path@ == "/proc/"@ + dec_chars(self.id() as nat) + "/setgroups"@,
            r@[1].content@ == "deny"@,
            r@[2].path@ == "/proc/"@ + dec_chars(self.id() as nat) + "/gid_map"@,
            r@[2].content@ == entry_line(IdMapEntry { from: host_gid, to: 0, length: 1 }),
    {
        let mut uid_map = IdMapFactory::new();
        uid_map.entry(host_uid, 0);
        let mut gid_map = IdMapFactory::new();
        gid_map.entry(host_gid, 0);
        let mut r: Vec<FileWrite> = Vec::new();
        match self.process.uid_map(uid_map) {
            Option::Some(w) => r.push(w),
            Option::None => (),
        }
        let mut gid_writes = self.process.gid_map(gid_map);
        proof {
            assert(crate::idmap::map_file_chars(Seq::<IdMapEntry>::empty())
                =~= Seq::<char>::empty());
            let e = IdMapEntry { from: host_uid, to: 0, length: 1 };
            let s = seq![e];
            assert(s.drop_last() =~= Seq::<IdMapEntry>::empty());
            assert(crate::idmap::map_file_chars(s) =~= entry_line(e));
            let eg = IdMapEntry { from: host_gid, to: 0, length: 1 };
            let sg = seq![eg];
            assert(sg.drop_last() =~= Seq::<IdMapEntry>::empty());
            assert(crate::idmap::map_file_chars(sg) =~= entry_line(eg));
        }
        r.append(&mut gid_writes);
        r
    }

    /// The directory the factory creates for the container — unless it
    /// already exists, which only an id collision could cause and which is
    /// an internal invariant violation, not a recoverable condition.
    pub fn init_dir(&self, already_exists: bool) -> (r: Result<String, Error>)
        ensures
            r is Ok <==> !already_exists,
            r is Ok ==> r->Ok_0@ == dir_suf_chars(self.id(), ""@),
            r is Err ==> r->Err_0.cause is None,
    {
        if already_exists {
            Err(Error::simple("Internal error (container dir already exists)"))
        } else {
            Ok(container_dir(self.get_id()))
        }
    }

    /// The privileged command that materializes the root filesystem: a
    /// recursive, attribute-preserving copy of the image into the
    /// container's rootfs path.
    pub fn copy_rootfs(&self) -> (r: Vec<String>)
        ensures
            r.deep_view() =~= seq![
                "sudo"@,
                "cp"@,
                "--recursive"@,
                "--preserve"@,
                self.config().image_path@,
                dir_suf_chars(self.id(), "/rootfs"@),
            ],
    {
        let mut r: Vec<String> = Vec::new();
        r.push("sudo".to_owned());
        r.push("cp".to_owned());
        r.push("--recursive".to_owned());
        r.push("--preserve".to_owned());
        r.push(self.config.image_path.clone());
        r.push(container_root_fs(self.get_id()));
        r
    }

    /// The info record the factory persists: the info directory to create,
    /// and the daemon flag as a single numeric line.
    pub fn record_info(&self) -> (r: (String, FileWrite))
        ensures
            r.0@ == dir_suf_chars(self.id(), "/info"@),
            r.1.path@ == dir_suf_chars(self.id(), "/info"@) + "/daemon"@,
            r.1.content@ == if self.config().daemonize {
                "1\n"@
            } else {
                "0\n"@
            },
    {
        let info_dir = container_info_dir(self.get_id());
        let daemon_path = info_dir.clone().concat("/daemon");
        let content = if self.config.daemonize {
            "1\n"
        } else {
            "0\n"
        };
        (info_dir, FileWrite::new(daemon_path, content.to_owned()))
    }

    /// The privileged command that applies the CPU limit through the cgroup
    /// helper invoked by the words of `util`: the requested percentage, or
    /// 100 when none was given, owned by the invoking host identity.
    pub fn set_cpu_limit(&self, util: &Vec<String>, host_uid: u32, host_gid: u32) -> (r: Vec<
        String,
    >)
        ensures
            r.deep_view() =~= seq!["sudo"@] + util.deep_view() + seq![
                dec_chars(self.id() as nat),
                "create"@,
                "--perc"@,
                dec_chars(self.config().spec_cpu_perc() as nat),
                "--uid"@,
                dec_chars(host_uid as nat),
                "--gid"@,
                dec_chars(host_gid as nat),
            ],
    {
        let perc = match &self.config.cpu_perc {
            Option::Some(p) => *p,
            Option::None => 100,
        };
        cgroup_create(util, self.get_id(), perc, host_uid, host_gid)
    }

    /// The privileged commands that wire the container's network, if one was
    /// asked for.
    pub fn configure_network(&self) -> (r: Vec<Vec<String>>)
        ensures
            match self.config().net {
                Option::None => r.deep_view() == Seq::<Seq<Seq<char>>>::empty(),
                Option::Some(conf) => r.deep_view() == net_commands(self.id(), conf),
            },
    {
        configure_network(self.get_id(), &self.config.net)
    }

    /// Releases the init process: writes the container's id into the pipe,
    /// unblocking the child's first step. A failure names this stage and
    /// carries the write's own outcome: its errno, or the channel's
    /// accepted-no-bytes report.
    pub fn start_init(&mut self) -> (r: Result<(), Error>)
        ensures
            final(self).id() == old(self).id(),
            final(self).config() == old(self).config(),
            r is Err ==> r->Err_0.comment@ == "Internal error (writing PID to pipe)"@,
            r is Err ==> (r->Err_0.cause matches Some(c) && (c matches Cause::Os(_) || (
            c matches Cause::Text(t) && t@ == "pipe accepted no bytes"@))),
    {
        let pid = self.process.get_pid();
        self.pipe.send_pid(pid).comment_error("Internal error (writing PID to pipe)")
    }

    /// Produces the container handle, recording the id and the daemon flag;
    /// the factory's end of the pipe is released.
    pub fn finish(self) -> (r: Container)
        ensures
            r.id() == self.id(),
            r.daemon() == self.config().daemonize,
    {
        let ContainerFactory { config, process, pipe } = self;
        pipe.close();
        Container::new(process, config.daemonize)
    }
}

} // verus!
