use aucont::factory::{ContainerConfig, ContainerFactory};
use aucont::init::InitStep;
use aucont::pipe::Pipe;
use aucont::process::{classify_clone, getpid, CloneOutcome, RawProcess, CONTAINER_CLONE_FLAGS};

fn idle_config() -> ContainerConfig {
    ContainerConfig {
        cmd: "/bin/true".to_string(),
        image_path: "/tmp/image".to_string(),
        ..Default::default()
    }
}

fn own_factory(config: ContainerConfig) -> ContainerFactory {
    let process = RawProcess::from_pid(getpid());
    let pipe = Pipe::new().expect("pipe");
    ContainerFactory::new(config, process, pipe)
}

#[test]
fn default_config_asks_for_nothing() {
    let c = ContainerConfig::default();
    assert!(!c.daemonize);
    assert_eq!(c.image_path, "");
    assert_eq!(c.cmd, "");
    assert!(c.cmd_args.is_empty());
    assert!(c.net.is_none());
    assert!(c.cpu_perc.is_none());
    assert!(c.environment.is_empty());
    assert!(c.redirect_stderr.is_none());
    assert!(c.redirect_stdin.is_none());
    assert!(c.redirect_stdout.is_none());
}

#[test]
fn validation_rejects_cpu_percentage_above_hundred() {
    let mut c = idle_config();
    c.cpu_perc = Some(150);
    let r = c.validate();
    assert!(r.is_err());
    assert_eq!(
        r.unwrap_err().message(),
        "Percent of cpu must not be greater than 100"
    );
    c.cpu_perc = Some(100);
    assert!(c.validate().is_ok());
    c.cpu_perc = None;
    assert!(c.validate().is_ok());
}

#[test]
fn clone_flags_match_the_kernel_constants() {
    let expected = libc::SIGCHLD
        | libc::CLONE_NEWNS
        | libc::CLONE_NEWUSER
        | libc::CLONE_NEWUTS
        | libc::CLONE_NEWIPC
        | libc::CLONE_NEWPID
        | libc::CLONE_NEWNET;
    assert_eq!(CONTAINER_CLONE_FLAGS, expected);
}

#[test]
fn clone_classification_has_exactly_one_branch() {
    assert!(matches!(classify_clone(0, 0), Ok(CloneOutcome::Child)));
    match classify_clone(77, 0) {
        Ok(CloneOutcome::Parent(p)) => assert_eq!(p.get_pid(), 77),
        r => panic!("unexpected {:?}", r.map(|_| ())),
    }
    assert_eq!(classify_clone(-1, 11).map(|_| ()), Err(11));
}

#[test]
fn init_config_carries_the_child_share() {
    let mut c = idle_config();
    c.daemonize = true;
    c.cmd_args = vec!["-a".to_string(), "-b".to_string()];
    c.environment = vec![("K".to_string(), "V".to_string())];
    c.redirect_stdout = Some("/tmp/o".to_string());
    let ic = c.init_config();
    assert!(ic.daemonize);
    assert_eq!(ic.cmd, "/bin/true");
    assert_eq!(ic.cmd_args, vec!["-a".to_string(), "-b".to_string()]);
    assert_eq!(ic.environment, vec![("K".to_string(), "V".to_string())]);
    assert_eq!(ic.redirect_stdout.as_deref(), Some("/tmp/o"));
    assert!(ic.redirect_stdin.is_none());
    assert!(ic.redirect_stderr.is_none());
}

#[test]
fn map_uid_writes_identity_maps_in_order() {
    let factory = own_factory(idle_config());
    let id = factory.get_id();
    let ws = factory.map_uid(1000, 1001);
    assert_eq!(ws.len(), 3);
    assert_eq!(ws[0].path, format!("/proc/{}/uid_map", id));
    assert_eq!(ws[0].content, "0 1000 1\n");
    assert_eq!(ws[1].path, format!("/proc/{}/setgroups", id));
    assert_eq!(ws[1].content, "deny");
    assert_eq!(ws[2].path, format!("/proc/{}/gid_map", id));
    assert_eq!(ws[2].content, "0 1001 1\n");
}

#[test]
fn init_dir_rejects_an_existing_directory() {
    let factory = own_factory(idle_config());
    let id = factory.get_id();
    let dir = factory.init_dir(false).expect("fresh dir accepted");
    assert_eq!(dir, format!("/tmp/aucont/containers/{}", id));
    let r = factory.init_dir(true);
    assert!(r.is_err());
}

#[test]
fn copy_rootfs_preserves_attributes_recursively() {
    let factory = own_factory(idle_config());
    let id = factory.get_id();
    assert_eq!(
        factory.copy_rootfs(),
        vec![
            "sudo".to_string(),
            "cp".to_string(),
            "--recursive".to_string(),
            "--preserve".to_string(),
            "/tmp/image".to_string(),
            format!("/tmp/aucont/containers/{}/rootfs", id),
        ]
    );
}

#[test]
fn record_info_persists_the_daemon_flag() {
    let mut c = idle_config();
    c.daemonize = true;
    let factory = own_factory(c);
    let id = factory.get_id();
    let (info_dir, write) = factory.record_info();
    assert_eq!(info_dir, format!("/tmp/aucont/containers/{}/info", id));
    assert_eq!(write.path, format!("/tmp/aucont/containers/{}/info/daemon", id));
    assert_eq!(write.content, "1\n");

    let factory = own_factory(idle_config());
    let (_, write) = factory.record_info();
    assert_eq!(write.content, "0\n");
}

#[test]
fn cpu_limit_defaults_to_full_use() {
    let helper = vec!["/u/cg".to_string()];
    let factory = own_factory(idle_config());
    let id = factory.get_id();
    let cmd = factory.set_cpu_limit(&helper, 1000, 1000);
    assert_eq!(cmd[3], "create");
    assert_eq!(cmd[5], "100");
    assert_eq!(cmd[2], id.to_string());

    let mut c = idle_config();
    c.cpu_perc = Some(40);
    let factory = own_factory(c);
    assert_eq!(factory.set_cpu_limit(&helper, 1000, 1000)[5], "40");
}

#[test]
fn factory_finish_hands_out_the_handle() {
    let mut c = idle_config();
    c.daemonize = true;
    let factory = own_factory(c);
    let id = factory.get_id();
    let container = factory.finish();
    assert_eq!(container.get_id(), id);
    assert!(container.is_daemon());
}

#[test]
fn start_init_releases_the_child() {
    let mut factory = own_factory(idle_config());
    factory.start_init().expect("handshake written");
}

#[test]
fn non_daemon_create_plan_runs_bin_true() {
    // the full host-side plan of a plain container: configuration accepted,
    // identity mapped, directory fresh, rootfs copied, flag recorded, no
    // network, and an init plan ending in the configured command
    let c = idle_config();
    assert!(c.validate().is_ok());
    let ic = c.init_config();
    let factory = own_factory(c);
    assert!(factory.init_dir(false).is_ok());
    assert!(factory.configure_network().is_empty());
    let plan = aucont::init::container_init_plan(factory.get_id(), &ic);
    match plan.last().expect("nonempty plan") {
        InitStep::Exec { cmd, args } => {
            assert_eq!(cmd, "/bin/true");
            assert!(args.is_empty());
        }
        s => panic!("unexpected step {:?}", s),
    }
}
