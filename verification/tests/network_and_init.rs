use aucont::init::{container_init_plan, ContainerInitConfig, InitStep, BIND_MOUNT_FLAGS,
    SYS_MOUNT_FLAGS};
use aucont::network::{configure_network, get_ip, veth_guest_name, veth_host_name, NetworkConfig};

#[test]
fn no_network_config_means_no_commands() {
    let cmds = configure_network(5, &None);
    assert!(cmds.is_empty());
}

#[test]
fn veth_names_come_from_the_container_id() {
    assert_eq!(veth_host_name(5), "veth5h");
    assert_eq!(veth_guest_name(5), "veth5g");
    assert_eq!(get_ip(7), "10.0.2.7");
}

#[test]
fn bridge_network_plan_wires_the_veth_pair() {
    let conf = NetworkConfig {
        cont_addr: "10.0.2.100".to_string(),
        host_addr: None,
        host_bridge: Some("br0".to_string()),
    };
    let cmds = configure_network(5, &Some(conf));
    assert_eq!(cmds.len(), 9);
    assert_eq!(
        cmds[0],
        vec!["sudo", "ip", "link", "add", "veth5h", "type", "veth", "peer", "name", "veth5g"]
    );
    assert_eq!(cmds[1], vec!["sudo", "ip", "link", "set", "veth5g", "netns", "5"]);
    assert_eq!(
        cmds[5],
        vec![
            "sudo", "nsenter", "--net", "-t", "5", "ip", "addr", "add", "10.0.2.100", "dev",
            "eth0"
        ]
    );
    assert_eq!(cmds[7], vec!["sudo", "ip", "link", "set", "veth5h", "up"]);
    assert_eq!(
        cmds[8],
        vec!["sudo", "ip", "link", "set", "veth5h", "master", "br0"]
    );
}

#[test]
fn host_addressed_network_plan_adds_address_and_route() {
    let conf = NetworkConfig {
        cont_addr: "10.0.2.2".to_string(),
        host_addr: Some("10.0.2.3".to_string()),
        host_bridge: None,
    };
    let cmds = configure_network(12, &Some(conf));
    assert_eq!(cmds.len(), 10);
    assert_eq!(
        cmds[8],
        vec!["sudo", "ip", "addr", "add", "10.0.2.3", "dev", "veth12h"]
    );
    assert_eq!(
        cmds[9],
        vec!["sudo", "ip", "route", "add", "10.0.2.2", "dev", "veth12h"]
    );
}

fn plain_config(cmd: &str) -> ContainerInitConfig {
    ContainerInitConfig {
        daemonize: false,
        cmd: cmd.to_string(),
        cmd_args: vec![],
        environment: vec![],
        redirect_stderr: None,
        redirect_stdin: None,
        redirect_stdout: None,
    }
}

#[test]
fn plain_init_plan_is_the_pivot_sequence() {
    let plan = container_init_plan(42, &plain_config("/bin/true"));
    assert_eq!(plan.len(), 11);
    assert!(matches!(plan[0], InitStep::UnshareCgroup));
    assert!(matches!(plan[1], InitStep::DropSupplementaryGroups));
    match &plan[2] {
        InitStep::SetHostname(h) => assert_eq!(h, "container"),
        s => panic!("unexpected step {:?}", s),
    }
    match &plan[3] {
        InitStep::Mount { src, target, fstype, flags } => {
            assert_eq!(src, "/tmp/aucont/containers/42/rootfs");
            assert_eq!(target, "/tmp/aucont/containers/42/rootfs");
            assert_eq!(fstype, "ignored");
            assert_eq!(*flags, BIND_MOUNT_FLAGS);
        }
        s => panic!("unexpected step {:?}", s),
    }
    match &plan[4] {
        InitStep::ChangeDir(p) => assert_eq!(p, "/tmp/aucont/containers/42/rootfs"),
        s => panic!("unexpected step {:?}", s),
    }
    match &plan[5] {
        InitStep::PivotRoot { put_old } => {
            assert_eq!(put_old, "/tmp/aucont/containers/42/rootfs/mnt")
        }
        s => panic!("unexpected step {:?}", s),
    }
    assert!(matches!(plan[6], InitStep::ChrootCwd));
    match &plan[7] {
        InitStep::Mount { src, target, fstype, flags } => {
            assert_eq!(src, "procfs");
            assert_eq!(target, "/proc/");
            assert_eq!(fstype, "proc");
            assert_eq!(*flags, 0);
        }
        s => panic!("unexpected step {:?}", s),
    }
    match &plan[8] {
        InitStep::Mount { src, target, fstype, flags } => {
            assert_eq!(src, "sysfs");
            assert_eq!(target, "/sys/");
            assert_eq!(fstype, "sysfs");
            assert_eq!(*flags, SYS_MOUNT_FLAGS);
        }
        s => panic!("unexpected step {:?}", s),
    }
    match &plan[9] {
        InitStep::UnmountDetach(p) => assert_eq!(p, "/mnt"),
        s => panic!("unexpected step {:?}", s),
    }
    match &plan[10] {
        InitStep::Exec { cmd, args } => {
            assert_eq!(cmd, "/bin/true");
            assert!(args.is_empty());
        }
        s => panic!("unexpected step {:?}", s),
    }
}

#[test]
fn daemon_init_plan_redirects_stdio() {
    let mut config = plain_config("/bin/server");
    config.daemonize = true;
    config.redirect_stdout = Some("/tmp/out.txt".to_string());
    let plan = container_init_plan(42, &config);
    assert!(matches!(plan[2], InitStep::StartSession));
    match &plan[3] {
        InitStep::CreateFile(p) => assert_eq!(p, "/tmp/aucont/containers/42/info/stdin"),
        s => panic!("unexpected step {:?}", s),
    }
    match &plan[4] {
        InitStep::RedirectStdin(p) => assert_eq!(p, "/tmp/aucont/containers/42/info/stdin"),
        s => panic!("unexpected step {:?}", s),
    }
    match &plan[5] {
        InitStep::RedirectStdout(p) => assert_eq!(p, "/tmp/out.txt"),
        s => panic!("unexpected step {:?}", s),
    }
    assert!(matches!(plan[6], InitStep::RedirectStderrToStdout));
    match &plan[7] {
        InitStep::SetHostname(h) => assert_eq!(h, "container"),
        s => panic!("unexpected step {:?}", s),
    }
}

#[test]
fn explicit_stderr_target_is_used() {
    let mut config = plain_config("/bin/server");
    config.daemonize = true;
    config.redirect_stderr = Some("/tmp/err.txt".to_string());
    let plan = container_init_plan(9, &config);
    match &plan[6] {
        InitStep::RedirectStderr(p) => assert_eq!(p, "/tmp/err.txt"),
        s => panic!("unexpected step {:?}", s),
    }
}

#[test]
fn environment_entries_keep_their_order() {
    let mut config = plain_config("/bin/env");
    config.environment = vec![
        ("A".to_string(), "1".to_string()),
        ("B".to_string(), "2".to_string()),
    ];
    let plan = container_init_plan(3, &config);
    match &plan[2] {
        InitStep::SetEnv(k, v) => {
            assert_eq!(k, "A");
            assert_eq!(v, "1");
        }
        s => panic!("unexpected step {:?}", s),
    }
    match &plan[3] {
        InitStep::SetEnv(k, v) => {
            assert_eq!(k, "B");
            assert_eq!(v, "2");
        }
        s => panic!("unexpected step {:?}", s),
    }
}
