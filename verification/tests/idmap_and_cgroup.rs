use aucont::cgroup::{
    cgroup_create, cgroup_create_writes, cgroup_delete, cgroup_enter, cgroup_mount_path,
    cgroup_node_path, cpu_quota, CPU_PERIOD_US,
};
use aucont::idmap::IdMapFactory;

#[test]
fn empty_id_map_asks_for_no_write() {
    let map = IdMapFactory::new();
    assert_eq!(map.render(), None);
}

#[test]
fn single_entry_id_map_renders_one_line() {
    let mut map = IdMapFactory::new();
    map.entry(1000, 0);
    assert_eq!(map.render(), Some("0 1000 1\n".to_string()));
}

#[test]
fn id_map_keeps_entry_order() {
    let mut map = IdMapFactory::new();
    map.entry(1000, 0);
    map.entry(2000, 1);
    assert_eq!(map.render(), Some("0 1000 1\n1 2000 1\n".to_string()));
}

#[test]
fn quota_follows_the_formula() {
    assert_eq!(CPU_PERIOD_US, 100_000);
    assert_eq!(cpu_quota(100, 4), 400_000);
    assert_eq!(cpu_quota(50, 2), 100_000);
    assert_eq!(cpu_quota(0, 1), 0);
    assert_eq!(cpu_quota(33, 3), 99_000);
    assert_eq!(cpu_quota(1, 1), 1_000);
}

#[test]
fn cgroup_paths_sit_under_the_container_dir() {
    assert_eq!(
        cgroup_mount_path(7),
        "/tmp/aucont/containers/7/cpu_cgroup"
    );
    assert_eq!(
        cgroup_node_path(7),
        "/tmp/aucont/containers/7/cpu_cgroup/aucont_7"
    );
}

#[test]
fn cgroup_create_writes_period_quota_and_task() {
    let ws = cgroup_create_writes(7, 50, 2).expect("accepted");
    assert_eq!(ws.len(), 3);
    assert_eq!(ws[0].path, "/tmp/aucont/containers/7/cpu_cgroup/aucont_7/tasks");
    assert_eq!(ws[0].content, "7");
    assert_eq!(
        ws[1].path,
        "/tmp/aucont/containers/7/cpu_cgroup/aucont_7/cpu.cfs_period_us"
    );
    assert_eq!(ws[1].content, "100000");
    assert_eq!(
        ws[2].path,
        "/tmp/aucont/containers/7/cpu_cgroup/aucont_7/cpu.cfs_quota_us"
    );
    assert_eq!(ws[2].content, "100000");
}

#[test]
fn cgroup_create_rejects_percentage_above_hundred() {
    let r = cgroup_create_writes(7, 150, 4);
    assert!(r.is_err());
    assert_eq!(
        r.unwrap_err().message(),
        "Percent of cpu must not be greater than 100"
    );
    // the boundary itself is accepted
    assert!(cgroup_create_writes(7, 100, 4).is_ok());
}

fn helper(words: &[&str]) -> Vec<String> {
    words.iter().map(|w| w.to_string()).collect()
}

#[test]
fn cgroup_helper_command_lines() {
    assert_eq!(
        cgroup_create(&helper(&["/usr/bin/aucont_util_cgroup"]), 7, 50, 1000, 1000),
        vec![
            "sudo",
            "/usr/bin/aucont_util_cgroup",
            "7",
            "create",
            "--perc",
            "50",
            "--uid",
            "1000",
            "--gid",
            "1000",
        ]
    );
    assert_eq!(
        cgroup_enter(&helper(&["/u/cg"]), 7, 99),
        vec!["sudo", "/u/cg", "7", "enter", "--target", "99"]
    );
    assert_eq!(
        cgroup_delete(&helper(&["/u/cg"]), 7),
        vec!["sudo", "/u/cg", "7", "delete"]
    );
}

#[test]
fn helper_invocation_of_several_words_is_kept_whole() {
    // a helper reached as a subcommand of another executable stays exactly
    // the words the caller gave, in place
    assert_eq!(
        cgroup_delete(&helper(&["/usr/bin/aucont", "cgroup"]), 7),
        vec!["sudo", "/usr/bin/aucont", "cgroup", "7", "delete"]
    );
}
