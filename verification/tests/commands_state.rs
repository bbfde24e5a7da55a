use lpnl::constants::{backup_file_path, disabled_conf_path, enabled_conf_path, push_path};
use lpnl::error::{BackupErrorKind, InitErrorKind, ListErrorKind, LpnlError, StateErrorKind};
use lpnl::lpnl_backup::{
    backup_targets, check_backup_files, restore_next, restore_targets, RestoreNext, RestoreStep,
};
use lpnl::lpnl_init::{generate_config, init_conflict, init_domain, init_port, init_root, Resolved, RootChoice};
use lpnl::lpnl_list::{get_list, list_backups, DirEntryName};
use lpnl::lpnl_remove::{backup_folder, backup_folder_file, backup_removal, www_root, BackupRemoval};
use lpnl::lpnl_state_ctrl::{moved_report, plan_move, plan_move_all, status_of, State};
use lpnl::stats::{cpu_sensor_index, disk_gb, is_cpu_label, uptime_parts, uptime_string};
use lpnl::validation::{
    domain_from_input, get_domain, get_location, location_from_input, port_from_input,
    proxy_from_input, root_from_input, PortInput,
};

#[test]
fn listings() {
    let entries = vec![
        DirEntryName::Name("a.conf".to_string()),
        DirEntryName::Unreadable("denied".to_string()),
    ];
    let r = get_list(&Ok(entries), "/d", "none", "things").unwrap();
    assert_eq!(r, "2 things found:\n  - a.conf\n  - unknown: denied\n");
    assert_eq!(get_list(&Ok(vec![]), "/d", "none", "things").unwrap(), "none");
    match get_list(&Err("gone".to_string()), "/d", "none", "things") {
        Err(LpnlError::ListError { message, kind }) => {
            assert_eq!(message, "Unable to read '/d': gone");
            assert!(matches!(kind, ListErrorKind::FsFailure));
        }
        _ => panic!("expected FsFailure"),
    }
    assert_eq!(list_backups(&Ok(vec![])).unwrap(), "You have 0 backups.");
    assert_eq!(
        list_backups(&Ok(vec![DirEntryName::Name("x".to_string())])).unwrap(),
        "1 backup config copies found:\n  - x\n"
    );
}

#[test]
fn states() {
    assert!(matches!(status_of(true, true), State::EnabledAndDisabled));
    assert!(matches!(status_of(false, false), State::NotFound));
    assert!(matches!(status_of(true, false), State::Enabled));
    assert!(matches!(status_of(false, true), State::Disabled));
}

#[test]
fn moves() {
    let m = plan_move("a.com", true, true).unwrap();
    assert_eq!(m.from, "/etc/nginx/sites-disabled/a.com.conf");
    assert_eq!(m.to, "/etc/nginx/sites-enabled/a.com.conf");
    let back = plan_move("a.com", true, false).unwrap();
    assert_eq!(back.from, m.to);
    assert_eq!(back.to, m.from);
    match plan_move("a.com", false, true) {
        Err(LpnlError::StateError { message, kind }) => {
            assert_eq!(message, "'a.com' not found or its config file is already enabled.");
            assert!(matches!(kind, StateErrorKind::NotFound));
        }
        _ => panic!("expected NotFound"),
    }
    let all = plan_move_all(&vec!["x.conf".to_string()], false);
    assert_eq!(all[0].from, "/etc/nginx/sites-enabled/x.conf");
    assert_eq!(all[0].to, "/etc/nginx/sites-disabled/x.conf");
    assert_eq!(
        moved_report(&vec!["x.conf".to_string(), "y.conf".to_string()], true),
        "\nEnabled 2 configs:\n  - x.conf\n  - y.conf\n"
    );
    assert_eq!(moved_report(&vec![], false), "\nDisabled 0 configs:\n");
}

#[test]
fn paths() {
    assert_eq!(enabled_conf_path("a"), "/etc/nginx/sites-enabled/a.conf");
    assert_eq!(disabled_conf_path("a"), "/etc/nginx/sites-disabled/a.conf");
    assert_eq!(backup_file_path("a"), "/etc/lpnl/backups/a/a.txt");
    assert_eq!(push_path("/var/www", "a"), "/var/www/a");
    assert_eq!(push_path("/var/www", "/abs"), "/abs");
    assert_eq!(www_root("site"), "/var/www/site");
    assert_eq!(backup_folder("site"), "/etc/lpnl/backups/site");
    assert_eq!(backup_folder_file("site"), "/etc/lpnl/backups/site/site.txt");
}

#[test]
fn generated_config_text() {
    let c = generate_config("example.com".to_string(), 80, "/var/www/example.com".to_string(), false);
    assert_eq!(
        c,
        "\nserver { \n    listen 80;\n    server_name example.com;\n    add_header X-Server: \"global\";\n    add_header X-Security: \"strict\";\n            \n    location / {\n        root /var/www/example.com;\n    }\n}"
    );
    let t = generate_config("example.com".to_string(), 80, "/var/www/example.com".to_string(), true);
    assert_eq!(t, format!("events {{  }}  http {{ {} }}", c));
}

#[test]
fn init_choices() {
    assert!(init_conflict(false, false, "a").is_ok());
    match init_conflict(true, false, "a") {
        Err(LpnlError::InitError { message, kind }) => {
            assert_eq!(message, "'a' is already initialized and enabled.");
            assert!(matches!(kind, InitErrorKind::AlreadyExists));
        }
        _ => panic!("expected AlreadyExists"),
    }
    assert_eq!(init_conflict(false, true, "a").unwrap_err().message(), "'a' is already initialized and disabled.");
    assert_eq!(
        init_conflict(true, true, "a").unwrap_err().message(),
        "'a' is already initialized, enabled and disabled. Try removing file and initializing it again."
    );
    assert!(matches!(init_domain(None, true), Ok(Resolved::Value(d)) if d == "localhost"));
    assert!(matches!(init_domain(None, false), Ok(Resolved::Ask)));
    assert!(init_domain(Some("..".to_string()), true).is_err());
    assert!(matches!(init_port(None, true), Ok(Resolved::Value(8080))));
    assert!(matches!(init_port(Some(443), true), Ok(Resolved::Value(443))));
    assert!(init_port(Some(0), true).is_err());
    assert!(matches!(init_root(None, true, "a.com"), Ok(RootChoice::Default(p)) if p == "/var/www/a.com"));
    // `init --default`: localhost, port 8080, root /var/www/localhost
    assert!(matches!(init_root(None, true, "localhost"), Ok(RootChoice::Default(p)) if p == "/var/www/localhost"));
    assert!(matches!(init_root(None, false, "a.com"), Ok(RootChoice::Ask)));
    assert!(matches!(init_root(Some("/etc".to_string()), false, "a.com"), Ok(RootChoice::Given(p)) if p == "/etc"));
}

#[test]
fn backups() {
    // the backup folder and the enabled config are needed; the backup file is created
    assert!(check_backup_files("a", true, true).is_ok());
    assert!(check_backup_files("a", true, false).is_err());
    match check_backup_files("a", false, true) {
        Err(LpnlError::BackupError { message, kind }) => {
            assert_eq!(message, "Unable to find 'a' files. Suggest using setup or init.");
            assert!(matches!(kind, BackupErrorKind::NotFound));
        }
        _ => panic!("expected NotFound"),
    }
    let p = backup_targets("a.com".to_string()).unwrap();
    assert_eq!(p.backup, "/etc/lpnl/backups/a.com/a.com.txt");
    assert_eq!(p.config, "/etc/nginx/sites-enabled/a.com.conf");
    let disabled = restore_targets("a.com", false, true);
    assert_eq!(disabled.config, "/etc/nginx/sites-disabled/a.com.conf");
    assert_eq!(disabled.backup, "/etc/lpnl/backups/a.com/a.com.txt");
    assert_eq!(restore_targets("a.com", true, true).config, "/etc/nginx/sites-enabled/a.com.conf");
    assert_eq!(restore_targets("a.com", false, false).config, "/etc/nginx/sites-enabled/a.com.conf");
    assert_eq!(backup_removal(true, true), BackupRemoval::FileAndDir);
    assert_eq!(backup_removal(false, true), BackupRemoval::DirOnly);
    assert_eq!(backup_removal(false, false), BackupRemoval::Nothing);
}

#[test]
fn stats_arithmetic() {
    assert_eq!(uptime_parts(3661), (1, 1, 1));
    assert_eq!(uptime_parts(59), (0, 0, 59));
    assert_eq!(uptime_string(90061), "25:01:01");
    assert_eq!(uptime_string(45296), "12:34:56");
    assert_eq!(uptime_string(0), "00:00:00");
    let gib = 1073741824u64;
    assert_eq!(disk_gb(10 * gib + 5, 3 * gib), (7, 10, 3));
}

#[test]
fn cpu_sensor_labels() {
    assert!(is_cpu_label("CPU Package id 0"));
    assert!(is_cpu_label("k10temp Tctl"));
    assert!(!is_cpu_label("acpitz"));
    assert!(is_cpu_label("Package id 0"));
    let labels = vec!["nvme".to_string(), "coretemp Package id 0".to_string(), "cpu".to_string()];
    assert_eq!(cpu_sensor_index(&labels), Some(1));
    assert_eq!(cpu_sensor_index(&vec!["gpu".to_string()]), None);
}

#[test]
fn prompts() {
    assert_eq!(domain_from_input("  example.com \n".to_string()), Some("example.com".to_string()));
    assert_eq!(domain_from_input("\n".to_string()), None);
    assert_eq!(location_from_input("/api\n".to_string()), Some("/api".to_string()));
    assert_eq!(location_from_input("/\n".to_string()), None);
    assert_eq!(proxy_from_input("http://example.com\n".to_string()), Some("http://example.com".to_string()));
    assert_eq!(proxy_from_input("no url\n".to_string()), None);
    assert_eq!(root_from_input(" /etc \n".to_string()), Some("/etc".to_string()));
    assert_eq!(root_from_input("/dir-that-does-not-exist\n".to_string()), None);
    assert_eq!(port_from_input("8080\n".to_string()), PortInput::Port(8080));
    assert_eq!(port_from_input("+80".to_string()), PortInput::Port(80));
    assert_eq!(port_from_input("0\n".to_string()), PortInput::Zero);
    assert_eq!(port_from_input("70000\n".to_string()), PortInput::NotANumber);
    assert_eq!(port_from_input("eighty".to_string()), PortInput::NotANumber);
}

#[test]
fn prompted_values_pass_flag_checks() {
    let d = domain_from_input(" site.org\t\n".to_string()).unwrap();
    assert!(get_domain(d).is_ok());
    let l = location_from_input(" /static \n".to_string()).unwrap();
    assert!(get_location(l).is_ok());
}

#[test]
fn restore_order() {
    let err = |m: &str| LpnlError::BackupError { message: m.to_string(), kind: BackupErrorKind::FsFailure };
    let msg = |e: &LpnlError| match e {
        LpnlError::BackupError { message, .. } => message.clone(),
        _ => String::new(),
    };
    assert!(matches!(restore_next(RestoreStep::TestBackup, Ok(())), RestoreNext::Do(RestoreStep::WriteBackup)));
    assert!(matches!(restore_next(RestoreStep::TestBackup, Err(err("t"))), RestoreNext::Fail(e) if msg(&e) == "t"));
    assert!(matches!(restore_next(RestoreStep::WriteBackup, Ok(())), RestoreNext::Do(RestoreStep::Reload)));
    assert!(matches!(restore_next(RestoreStep::WriteBackup, Err(err("w"))),
        RestoreNext::Do(RestoreStep::PutBackOld(e)) if msg(&e) == "w"));
    assert!(matches!(restore_next(RestoreStep::Reload, Ok(())), RestoreNext::Done));
    assert!(matches!(restore_next(RestoreStep::Reload, Err(err("r"))),
        RestoreNext::Do(RestoreStep::PutBackOld(e)) if msg(&e) == "r"));
    // the old config is back: the failure of the step before is reported
    assert!(matches!(restore_next(RestoreStep::PutBackOld(err("r")), Ok(())), RestoreNext::Fail(e) if msg(&e) == "r"));
    // putting it back failed too: that failure is reported
    assert!(matches!(restore_next(RestoreStep::PutBackOld(err("r")), Err(err("p"))), RestoreNext::Fail(e) if msg(&e) == "p"));
}

#[test]
fn enable_then_disable_restores_files() {
    let mut files = std::collections::HashMap::new();
    files.insert("/etc/nginx/sites-disabled/a.com.conf".to_string(), "server { }".to_string());
    let before = files.clone();
    let en = plan_move("a.com", true, true).ok().unwrap();
    let c = files.remove(&en.from).unwrap();
    files.insert(en.to.clone(), c);
    let dis = plan_move("a.com", true, false).ok().unwrap();
    let c = files.remove(&dis.from).unwrap();
    files.insert(dis.to.clone(), c);
    assert_eq!(files, before);
}

#[test]
fn restore_gives_back_backup() {
    let mut files = std::collections::HashMap::new();
    files.insert("/etc/nginx/sites-enabled/a.com.conf".to_string(), "server { listen 80; }".to_string());
    let set = backup_targets("a.com".to_string()).ok().unwrap();
    let c = files[&set.config].clone();
    files.insert(set.backup.clone(), c);
    files.insert(set.config.clone(), "broken".to_string());
    let get = restore_targets("a.com", true, false);
    let b = files[&get.backup].clone();
    files.insert(get.config.clone(), b);
    assert_eq!(files[&get.config], "server { listen 80; }");
    assert_eq!(files[&get.backup], "server { listen 80; }");
}
