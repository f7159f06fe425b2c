use sftpm::model::{contains_str, ids_from_file_names, join, profile_id_of_file, EnvironmentError, EnvironmentModel};

fn s(v: &str) -> String {
    v.to_string()
}

#[test]
fn config_home_prefers_override() {
    let r = EnvironmentModel::get_config_home(Some(s("/x/cfg")), Some(s("/home/u")), Some(s("C:/u")));
    assert_eq!(r.ok(), Some(s("/x/cfg")));
}

#[test]
fn config_home_skips_empty_override() {
    let r = EnvironmentModel::get_config_home(Some(s("")), Some(s("/home/u")), None);
    assert_eq!(r.ok(), Some(s("/home/u/.config")));
    let r = EnvironmentModel::get_config_home(None, Some(s("/home/u/")), None);
    assert_eq!(r.ok(), Some(s("/home/u/.config")));
}

#[test]
fn config_home_falls_back_to_user_profile() {
    let r = EnvironmentModel::get_config_home(None, None, Some(s("/users/u")));
    assert_eq!(r.ok(), Some(s("/users/u/.config")));
    let r = EnvironmentModel::get_config_home(None, Some(s("")), Some(s("/users/u")));
    assert_eq!(r.ok(), Some(s(".config")));
    let r = EnvironmentModel::get_config_home(None, None, Some(s("")));
    assert_eq!(r.ok(), Some(s(".config")));
}

#[test]
fn config_home_unresolved() {
    let r = EnvironmentModel::get_config_home(None, None, None);
    assert_eq!(r.err(), Some(EnvironmentError::Unresolved));
    let r = EnvironmentModel::get_config_home(Some(s("")), None, None);
    assert_eq!(r.err(), Some(EnvironmentError::Unresolved));
}

#[test]
fn paths_of_a_profile() {
    let env = EnvironmentModel::new("/home/u/.config");
    assert_eq!(env.config_path_base, "/home/u/.config/sftpman");
    assert_eq!(env.config_path_mounts, "/home/u/.config/sftpman/mounts");
    assert_eq!(env.mount_path_base, "/mnt/sshfs/");
    assert_eq!(env.get_system_config_path("work"), "/home/u/.config/sftpman/mounts/work.json");
    assert_eq!(env.get_system_mount_dest("work"), "/mnt/sshfs/work");
}

#[test]
fn join_adds_one_separator() {
    assert_eq!(join("/a", "b"), "/a/b");
    assert_eq!(join("/a/", "b"), "/a/b");
    assert_eq!(join("", "b"), "b");
    assert_eq!(join("/", "b"), "/b");
}

#[test]
fn is_mounted_looks_up_destination() {
    let env = EnvironmentModel::new("/c");
    let table = vec![s("/"), s("/mnt/sshfs/work"), s("/home")];
    assert!(env.is_mounted("work", &table));
    assert!(!env.is_mounted("home", &table));
    assert!(!env.is_mounted("work", &vec![]));
    assert!(contains_str(&table, &s("/home")));
    assert!(!contains_str(&table, &s("/hom")));
}

#[test]
fn ids_listed_from_file_names() {
    let names = vec![s("a.json"), s("b.toml"), s(".json"), s("c.d.json"), s("json"), s("x.json.bak")];
    assert_eq!(ids_from_file_names(&names), vec![s("a"), s("c.d")]);
    assert!(ids_from_file_names(&vec![]).is_empty());
    assert_eq!(profile_id_of_file("wörk.json"), Some(s("wörk")));
    assert_eq!(profile_id_of_file("work.JSON"), None);
}

#[test]
fn mounted_ids_from_mount_table() {
    let env = EnvironmentModel::new("/c");
    let table = vec![
        s("/"),
        s("/mnt/sshfs/x"),
        s("/mnt/sshfs/y/z"),
        s("/mnt/sshfs/"),
        s("/mnt/sshfsq"),
        s("/mnt/sshfs/b"),
    ];
    assert_eq!(env.get_mounted_ids(&table), vec![s("x"), s("b")]);
    assert_eq!(env.id_at_mount_point("/mnt/sshfs/work"), Some(s("work")));
    assert_eq!(env.id_at_mount_point("/mnt/other/work"), None);
}
