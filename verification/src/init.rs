//! The init sequence: the strictly ordered steps that turn the cloned
//! process, inside its new namespaces, into the container — cgroup unshare,
//! privilege hygiene, optional daemonizing with stdio redirection,
//! environment, hostname, the root filesystem pivot, the virtual filesystem
//! mounts, and the final replacement of the process image. The library
//! computes the exact step list; the new process executes it in order, and
//! any failed step is fatal to it.

use vstd::prelude::*;
use crate::paths::{container_info_file, container_root_fs, dir_suf_chars};

verus! {

/// Mount the filesystem read-only.
pub const MS_RDONLY: u64 = 1;

/// Ignore suid and sgid bits.
pub const MS_NOSUID: u64 = 2;

/// Disallow access to device files.
pub const MS_NODEV: u64 = 4;

/// Disallow program execution.
pub const MS_NOEXEC: u64 = 8;

/// Bind a directory onto a target.
pub const MS_BIND: u64 = 4096;

/// Apply to the whole subtree.
pub const MS_REC: u64 = 16384;

/// The hardening flags of the container's `/sys` mount.
pub const SYS_MOUNT_FLAGS: u64 = MS_RDONLY | MS_NOSUID | MS_NODEV | MS_NOEXEC;

/// The recursive-bind flags of the root filesystem's self-mount, the
/// precondition of a pivot.
pub const BIND_MOUNT_FLAGS: u64 = MS_BIND | MS_REC;

/// One step of the init sequence, for the new process to execute.
#[derive(Debug)]
pub enum InitStep {
    /// Unshare the cgroup namespace, which must be established by the
    /// occupant rather than inherited at clone time.
    UnshareCgroup,
    /// Drop all supplementary group memberships.
    DropSupplementaryGroups,
    /// Start a new session, detaching from any controlling terminal.
    StartSession,
    /// Create (or truncate) the file at the path.
    CreateFile(String),
    /// Redirect standard input from the file.
    RedirectStdin(String),
    /// Redirect standard output to the file.
    RedirectStdout(String),
    /// Redirect standard error to the file.
    RedirectStderr(String),
    /// Redirect standard error to wherever standard output points.
    RedirectStderrToStdout,
    /// Set one environment variable.
    SetEnv(String, String),
    /// Set the kernel hostname.
    SetHostname(String),
    /// Mount `src` of type `fstype` at `target` with the given flags.
    Mount { src: String, target: String, fstype: String, flags: u64 },
    /// Change the working directory.
    ChangeDir(String),
    /// Pivot the root: the current directory becomes the root and the old
    /// root stays reachable at `put_old`.
    PivotRoot { put_old: String },
    /// Chroot into the current directory.
    ChrootCwd,
    /// Detach-unmount the path.
    UnmountDetach(String),
    /// Replace the process image with the command; reached last, and fatal
    /// if it ever returns.
    Exec { cmd: String, args: Vec<String> },
}

/// The mathematical shape of a step, over character sequences.
pub enum InitStepView {
    UnshareCgroup,
    DropSupplementaryGroups,
    StartSession,
    CreateFile(Seq<char>),
    RedirectStdin(Seq<char>),
    RedirectStdout(Seq<char>),
    RedirectStderr(Seq<char>),
    RedirectStderrToStdout,
    SetEnv(Seq<char>, Seq<char>),
    SetHostname(Seq<char>),
    Mount { src: Seq<char>, target: Seq<char>, fstype: Seq<char>, flags: u64 },
    ChangeDir(Seq<char>),
    PivotRoot { put_old: Seq<char> },
    ChrootCwd,
    UnmountDetach(Seq<char>),
    Exec { cmd: Seq<char>, args: Seq<Seq<char>> },
}

impl DeepView for InitStep {
    type V = InitStepView;

    open spec fn deep_view(&self) -> InitStepView {
        match self {
            InitStep::UnshareCgroup => InitStepView::UnshareCgroup,
            InitStep::DropSupplementaryGroups => InitStepView::DropSupplementaryGroups,
            InitStep::StartSession => InitStepView::StartSession,
            InitStep::CreateFile(p) => InitStepView::CreateFile(p@),
            InitStep::RedirectStdin(p) => InitStepView::RedirectStdin(p@),
            InitStep::RedirectStdout(p) => InitStepView::RedirectStdout(p@),
            InitStep::RedirectStderr(p) => InitStepView::RedirectStderr(p@),
            InitStep::RedirectStderrToStdout => InitStepView::RedirectStderrToStdout,
            InitStep::SetEnv(k, v) => InitStepView::SetEnv(k@, v@),
            InitStep::SetHostname(h) => InitStepView::SetHostname(h@),
            InitStep::Mount { src, target, fstype, flags } => InitStepView::Mount {
                src: src@,
                target: target@,
                fstype: fstype@,
                flags: *flags,
            },
            InitStep::ChangeDir(p) => InitStepView::ChangeDir(p@),
            InitStep::PivotRoot { put_old } => InitStepView::PivotRoot { put_old: put_old@ },
            InitStep::ChrootCwd => InitStepView::ChrootCwd,
            InitStep::UnmountDetach(p) => InitStepView::UnmountDetach(p@),
            InitStep::Exec { cmd, args } => InitStepView::Exec {
                cmd: cmd@,
                args: args.deep_view(),
            },
        }
    }
}

/// What the new process must be told to become the container.
#[derive(Debug)]
pub struct ContainerInitConfig {
    pub daemonize: bool,
    pub cmd: String,
    pub cmd_args: Vec<String>,
    pub environment: Vec<(String, String)>,
    pub redirect_stderr: Option<String>,
    pub redirect_stdin: Option<String>,
    pub redirect_stdout: Option<String>,
}

/// The view of one info-record file's path.
pub open spec fn info_file_chars(pid: int, name: Seq<char>) -> Seq<char> {
    dir_suf_chars(pid, "/info/"@ + name)
}

/// The daemonizing segment of the plan: a new session, then stdio redirected
/// to the configured targets, with the info record supplying defaults and
/// standard error following standard output when no explicit target was
/// given.
pub open spec fn spec_daemon_steps(pid: int, c: ContainerInitConfig) -> Seq<InitStepView> {
    if c.daemonize {
        let stdin_file = match c.redirect_stdin {
            Option::Some(p) => p@,
            Option::None => info_file_chars(pid, "stdin"@),
        };
        let stdout_file = match c.redirect_stdout {
            Option::Some(p) => p@,
            Option::None => info_file_chars(pid, "stdout"@),
        };
        seq![
            InitStepView::StartSession,
            InitStepView::CreateFile(stdin_file),
            InitStepView::RedirectStdin(stdin_file),
            InitStepView::RedirectStdout(stdout_file),
        ] + match c.redirect_stderr {
            Option::Some(p) => seq![InitStepView::RedirectStderr(p@)],
            Option::None => seq![InitStepView::RedirectStderrToStdout],
        }
    } else {
        Seq::empty()
    }
}

/// The environment segment: one assignment per configured entry, in order.
pub open spec fn spec_env_steps(env: Seq<(String, String)>) -> Seq<InitStepView> {
    env.map_values(|p: (String, String)| InitStepView::SetEnv(p.0@, p.1@))
}

/// The tail of the plan: hostname, the recursive self-bind of the root
/// filesystem, the pivot into it, fresh `proc` and hardened `sys` mounts,
/// the detach of the old root, and the final exec.
pub open spec fn spec_pivot_steps(pid: int, c: ContainerInitConfig) -> Seq<InitStepView> {
    let root_fs = dir_suf_chars(pid, "/rootfs"@);
    seq![
        InitStepView::SetHostname("container"@),
        InitStepView::Mount {
            src: root_fs,
            target: root_fs,
            fstype: "ignored"@,
            flags: BIND_MOUNT_FLAGS,
        },
        InitStepView::ChangeDir(root_fs),
        InitStepView::PivotRoot { put_old: root_fs + "/mnt"@ },
        InitStepView::ChrootCwd,
        InitStepView::Mount {
            src: "procfs"@,
            target: "/proc/"@,
            fstype: "proc"@,
            flags: 0,
        },
        InitStepView::Mount {
            src: "sysfs"@,
            target: "/sys/"@,
            fstype: "sysfs"@,
            flags: SYS_MOUNT_FLAGS,
        },
        InitStepView::UnmountDetach("/mnt"@),
        InitStepView::Exec { cmd: c.cmd@, args: c.cmd_args.deep_view() },
    ]
}

/// The whole init plan for a process that learned it is container `pid`.
pub open spec fn spec_init_plan(pid: int, c: ContainerInitConfig) -> Seq<InitStepView> {
    seq![InitStepView::UnshareCgroup, InitStepView::DropSupplementaryGroups]
        + spec_daemon_steps(pid, c) + spec_env_steps(c.environment@) + spec_pivot_steps(pid, c)
}

/// Computes the init plan: the exact ordered steps the new process executes
/// once the handshake has told it its host-visible id `pid_in_host`.
pub fn container_init_plan(pid_in_host: i32, config: &ContainerInitConfig) -> (r: Vec<InitStep>)
    requires
        pid_in_host >= 0,
    ensures
        r.deep_view() == spec_init_plan(pid_in_host as int, *config),
{
    let mut steps: Vec<InitStep> = Vec::new();
    steps.push(InitStep::UnshareCgroup);
    steps.push(InitStep::DropSupplementaryGroups);
    if config.daemonize {
        steps.push(InitStep::StartSession);
        let stdin_file = match &config.redirect_stdin {
            Option::Some(p) => p.clone(),
            Option::None => container_info_file(pid_in_host, "stdin"),
        };
        let stdout_file = match &config.redirect_stdout {
            Option::Some(p) => p.clone(),
            Option::None => container_info_file(pid_in_host, "stdout"),
        };
        proof {
            reveal_strlit("/info/");
            reveal_strlit("stdin");
            reveal_strlit("stdout");
            reveal_strlit("/info/stdin");
            reveal_strlit("/info/stdout");
            assert("/info/"@ + "stdin"@ =~= "/info/stdin"@);
            assert("/info/"@ + "stdout"@ =~= "/info/stdout"@);
        }
        steps.push(InitStep::CreateFile(stdin_file.clone()));
        steps.push(InitStep::RedirectStdin(stdin_file));
        steps.push(InitStep::RedirectStdout(stdout_file));
        match &config.redirect_stderr {
            Option::Some(p) => steps.push(InitStep::RedirectStderr(p.clone())),
            Option::None => steps.push(InitStep::RedirectStderrToStdout),
        }
    }
    let ghost head = seq![InitStepView::UnshareCgroup, InitStepView::DropSupplementaryGroups]
        + spec_daemon_steps(pid_in_host as int, *config);
    proof {
        assert(steps.deep_view() =~= head);
    }
    let env_count = config.environment.len();
    let mut i: usize = 0;
    while i < env_count
        invariant
            0 <= i <= env_count,
            env_count == config.environment@.len(),
            steps.deep_view() =~= head + spec_env_steps(
                config.environment@.subrange(0, i as int),
            ),
        decreases env_count - i,
    {
        let pair = &config.environment[i];
        steps.push(InitStep::SetEnv(pair.0.clone(), pair.1.clone()));
        i += 1;
        proof {
            let pref = config.environment@.subrange(0, i as int);
            assert(pref.drop_last() =~= config.environment@.subrange(0, i - 1));
            assert(pref.last() == config.environment@[i - 1]);
            assert(spec_env_steps(pref) =~= spec_env_steps(pref.drop_last()).push(
                InitStepView::SetEnv(pref.last().0@, pref.last().1@),
            ));
            assert(steps.deep_view() =~= (head + spec_env_steps(pref.drop_last())).push(
                InitStepView::SetEnv(pref.last().0@, pref.last().1@),
            ));
            assert(head + spec_env_steps(pref) =~= (head + spec_env_steps(pref.drop_last())).push(
                InitStepView::SetEnv(pref.last().0@, pref.last().1@),
            ));
            assert(steps.deep_view() =~= head + spec_env_steps(pref));
        }
    }
    proof {
        assert(config.environment@.subrange(0, env_count as int) =~= config.environment@);
    }
    let root_fs = container_root_fs(pid_in_host);
    let old_root = root_fs.clone().concat("/mnt");
    steps.push(InitStep::SetHostname("container".to_owned()));
    steps.push(
        InitStep::Mount {
            src: root_fs.clone(),
            target: root_fs.clone(),
            fstype: "ignored".to_owned(),
            flags: BIND_MOUNT_FLAGS,
        },
    );
    steps.push(InitStep::ChangeDir(root_fs));
    steps.push(InitStep::PivotRoot { put_old: old_root });
    steps.push(InitStep::ChrootCwd);
    steps.push(
        InitStep::Mount {
            src: "procfs".to_owned(),
            target: "/proc/".to_owned(),
            fstype: "proc".to_owned(),
            flags: 0,
        },
    );
    steps.push(
        InitStep::Mount {
            src: "sysfs".to_owned(),
            target: "/sys/".to_owned(),
            fstype: "sysfs".to_owned(),
            flags: SYS_MOUNT_FLAGS,
        },
    );
    steps.push(InitStep::UnmountDetach("/mnt".to_owned()));
    steps.push(InitStep::Exec { cmd: config.cmd.clone(), args: config.cmd_args.clone() });
    proof {
        assert(steps.deep_view() =~~= spec_init_plan(pid_in_host as int, *config));
    }
    steps
}

} // verus!
