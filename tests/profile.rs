use sftpm::cli::Commands;
use sftpm::model::EnvironmentModel;
use sftpm::model_sys::{filter_mount_opts, Config, Field, FieldError, StoreError, SystemModel};

fn s(v: &str) -> String {
    v.to_string()
}

fn profile(auth_method: &str, ssh_key: Option<&str>, opts: &[&str]) -> SystemModel {
    SystemModel::new(
        s("work"),
        s("a.b.com"),
        22,
        s("me"),
        opts.iter().map(|o| s(o)).collect(),
        s("/tmp"),
        s(auth_method),
        ssh_key.map(s),
        None,
    )
}

fn fields(errors: &[FieldError]) -> Vec<Field> {
    errors.iter().map(|e| e.field).collect()
}

#[test]
fn password_profile_validates_and_drops_big_writes() {
    let p = profile("password", None, &["big_writes", "compression"]);
    let (ok, errors) = p.validate(false, true);
    assert!(ok);
    assert!(errors.is_empty());
    assert_eq!(p.mount_opts, vec![s("compression")]);
    let env = EnvironmentModel::new("/home/me/.config");
    let (path, config) = match p.prepare_save(&env, false, true) {
        Ok(v) => v,
        Err(_) => panic!("a valid profile must be saved"),
    };
    assert_eq!(path, "/home/me/.config/sftpman/mounts/work.json");
    assert_eq!(config.instances.len(), 1);
    assert_eq!(config.instances[0].mount_opts, vec![s("compression")]);
}

#[test]
fn publickey_with_missing_key_fails_on_ssh_key_only() {
    let p = profile("publickey", Some("/no/such/key"), &["big_writes", "compression"]);
    let (ok, errors) = p.validate(false, true);
    assert!(!ok);
    assert_eq!(errors.len(), 1);
    assert_eq!(errors[0].field, Field::SshKey);
    assert_eq!(errors[0].field.name(), "ssh_key");
    assert_eq!(errors[0].message, "Invalid ssh key path.");
}

#[test]
fn publickey_with_existing_key_validates() {
    let p = profile("publickey", Some("/home/me/.ssh/id"), &[]);
    let (ok, errors) = p.validate(true, true);
    assert!(ok);
    assert!(errors.is_empty());
}

#[test]
fn publickey_without_key_fails_even_if_probe_says_yes() {
    let mut p = profile("publickey", None, &[]);
    p.ssh_key = None;
    let (ok, errors) = p.validate(true, true);
    assert!(!ok);
    assert_eq!(fields(&errors), vec![Field::SshKey]);
}

#[test]
fn password_ignores_missing_ssh_key() {
    let p = profile("password", Some("/no/such/key"), &[]);
    let (ok, errors) = p.validate(false, true);
    assert!(ok);
    assert!(errors.is_empty());
}

#[test]
fn agent_ignores_missing_ssh_key() {
    let p = profile("authentication-agent", Some("/no/such/key"), &[]);
    assert!(p.validate(false, true).0);
}

#[test]
fn port_boundaries() {
    for (port, valid) in [(0, true), (65535, true), (65536, false), (-1, false), (22, true)] {
        let mut p = profile("password", None, &[]);
        p.port = port;
        let (ok, errors) = p.validate(false, true);
        assert_eq!(ok, valid, "port {}", port);
        if valid {
            assert!(errors.is_empty());
        } else {
            assert_eq!(fields(&errors), vec![Field::Port]);
            assert_eq!(errors[0].message, "Ports need to be numbers between 0 and 65535.");
        }
    }
}

#[test]
fn every_rule_reported_in_order_and_repeatably() {
    let p = SystemModel::new(
        s("bad id"),
        s("under_score.com"),
        70000,
        s(""),
        vec![],
        s("/nowhere"),
        s("kerberos"),
        None,
        None,
    );
    let (ok1, e1) = p.validate(false, false);
    let (ok2, e2) = p.validate(false, false);
    assert!(!ok1);
    assert!(!ok2);
    let expected = vec![
        Field::Id,
        Field::Host,
        Field::User,
        Field::Port,
        Field::AuthMethod,
        Field::MountPoint,
    ];
    assert_eq!(fields(&e1), expected);
    assert_eq!(fields(&e2), expected);
    let m1: Vec<String> = e1.iter().map(|e| e.message.clone()).collect();
    let m2: Vec<String> = e2.iter().map(|e| e.message.clone()).collect();
    assert_eq!(m1, m2);
    assert_eq!(m1[4], "Unknown auth type.");
    assert_eq!(m1[5], "Mount point must be an existing directory.");
    let names: Vec<&str> = e1.iter().map(|e| e.field.name()).collect();
    assert_eq!(names, vec!["id", "host", "user", "port", "auth_method", "mount_point"]);
}

#[test]
fn pattern_checks_follow_character_classes() {
    let mut p = profile("password", None, &[]);
    p.id = s("a.b-c_d@e");
    p.user = s("me@host.x_y");
    p.host = s("a-b.c9");
    assert!(p.validate(false, true).0);
    p.id = s("wörk");
    p.host = s("a_b");
    p.user = s("me too");
    assert_eq!(fields(&p.validate(false, true).1), vec![Field::Id, Field::Host, Field::User]);
    p.id = s("work\n");
    p.host = s("host@x");
    p.user = s("a/b");
    assert_eq!(fields(&p.validate(false, true).1), vec![Field::Id, Field::Host, Field::User]);
}

#[test]
fn unknown_auth_method_skips_ssh_key_check() {
    let p = profile("Publickey", None, &[]);
    assert_eq!(fields(&p.validate(false, true).1), vec![Field::AuthMethod]);
}

#[test]
fn mount_point_must_be_directory() {
    let p = profile("password", None, &[]);
    let (ok, errors) = p.validate(false, false);
    assert!(!ok);
    assert_eq!(fields(&errors), vec![Field::MountPoint]);
}

#[test]
fn unsupported_options_dropped_in_any_order() {
    let p = profile("password", None, &["big_writes", "a", "big_writes", "b", "big_writes"]);
    assert_eq!(p.mount_opts, vec![s("a"), s("b")]);
    let only = profile("password", None, &["big_writes", "big_writes"]);
    assert!(only.mount_opts.is_empty());
    assert_eq!(
        filter_mount_opts(vec![s("x"), s("big_writes"), s("big_writes_not"), s("x")]),
        vec![s("x"), s("big_writes_not"), s("x")]
    );
}

#[test]
fn missing_optional_fields_are_stored_as_empty() {
    let p = profile("password", None, &[]);
    assert_eq!(p.ssh_key, Some(s("")));
    assert_eq!(p.cmd_before_mount, Some(s("")));
    let q = SystemModel::new(
        s("x"),
        s("h"),
        2222,
        s("u"),
        vec![],
        s("/m"),
        s("password"),
        Some(s("/k")),
        Some(s("echo hi")),
    );
    assert_eq!(q.ssh_key, Some(s("/k")));
    assert_eq!(q.cmd_before_mount, Some(s("echo hi")));
    assert_eq!(q.port, 2222);
}

#[test]
fn invalid_profile_is_not_saved() {
    let env = EnvironmentModel::new("/c");
    let p = profile("publickey", Some("/no/such/key"), &[]);
    match p.prepare_save(&env, false, true) {
        Ok(_) => panic!("an invalid profile must not be saved"),
        Err(errors) => assert_eq!(fields(&errors), vec![Field::SshKey]),
    }
}

#[test]
fn stored_profile_reads_back() {
    let p = SystemModel::new(
        s("work"),
        s("a.b.com"),
        2200,
        s("me"),
        vec![s("compression"), s("big_writes"), s("reconnect")],
        s("/tmp"),
        s("publickey"),
        Some(s("/k")),
        Some(s("true")),
    );
    let config = Config::of_profile(p.clone());
    let back = match config.into_profile("work") {
        Ok(b) => b,
        Err(_) => panic!("the stored profile must read back"),
    };
    assert_eq!(back.id, p.id);
    assert_eq!(back.host, p.host);
    assert_eq!(back.port, p.port);
    assert_eq!(back.user, p.user);
    assert_eq!(back.mount_opts, vec![s("compression"), s("reconnect")]);
    assert_eq!(back.mount_point, p.mount_point);
    assert_eq!(back.auth_method, p.auth_method);
    assert_eq!(back.ssh_key, Some(s("/k")));
    assert_eq!(back.cmd_before_mount, Some(s("true")));
}

#[test]
fn config_without_the_id_is_a_parse_error() {
    let config = Config::of_profile(profile("password", None, &[]));
    assert_eq!(config.into_profile("other").err(), Some(StoreError::Parse));
    let empty = Config { instances: vec![] };
    assert_eq!(empty.into_profile("work").err(), Some(StoreError::Parse));
}

#[test]
fn config_picks_first_matching_instance() {
    let mut a = profile("password", None, &[]);
    a.id = s("a");
    let mut b1 = profile("password", None, &[]);
    b1.id = s("b");
    b1.port = 1;
    let mut b2 = profile("password", None, &[]);
    b2.id = s("b");
    b2.port = 2;
    let config = Config { instances: vec![a, b1, b2] };
    let got = config.into_profile("b").ok().unwrap();
    assert_eq!(got.port, 1);
}

fn setup(mount_opt: &str, ssh_key: &str) -> Commands {
    Commands::Setup {
        id: s("work"),
        host: s("a.b.com"),
        port: 22,
        user: s("me"),
        mount_opt: s(mount_opt),
        mount_point: s("/tmp"),
        auth_method: s("password"),
        ssh_key: s(ssh_key),
        cmd_before_mount: s(""),
    }
}

#[test]
fn setup_command_builds_profile() {
    let p = setup("compression", "/k").setup_profile().unwrap();
    assert_eq!(p.id, "work");
    assert_eq!(p.host, "a.b.com");
    assert_eq!(p.port, 22);
    assert_eq!(p.user, "me");
    assert_eq!(p.mount_opts, vec![s("compression")]);
    assert_eq!(p.mount_point, "/tmp");
    assert_eq!(p.auth_method, "password");
    assert_eq!(p.ssh_key, Some(s("/k")));
    assert_eq!(p.cmd_before_mount, Some(s("")));
    assert!(setup("", "").setup_profile().unwrap().mount_opts.is_empty());
    assert!(setup("big_writes", "").setup_profile().unwrap().mount_opts.is_empty());
    assert!(Commands::Ls.setup_profile().is_none());
    assert!(Commands::Rm.setup_profile().is_none());
}

#[test]
fn profile_constants() {
    assert_eq!(SystemModel::PORT_RANGE_MIN, 0);
    assert_eq!(SystemModel::PORT_RANGE_MAX, 65535);
    assert_eq!(SystemModel::SSH_PORT_DEFAULT, 22);
    assert_eq!(SystemModel::AUTH_METHOD_PUBLIC_KEY, "publickey");
    assert_eq!(SystemModel::AUTH_METHOD_AUTHENTICATION_AGENT, "authentication-agent");
    assert_eq!(SystemModel::AUTH_METHOD_PASSWORD, "password");
    assert_eq!(SystemModel::UNSUPPORTED_MOUNT_OPT, "big_writes");
}
