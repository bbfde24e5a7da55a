use lpnl::conf_target::{add_loc_target, lookup_conf, remove_loc_target, ConfFacts, ConfLookup};
use lpnl::error::{AddLocErrorKind, LpnlError, RemoveLocErrorKind, SetupErrorKind};
use lpnl::lpnl_add_loc::{add_loc, check_loc_flags, insert_location, loc_block, mode_from_input, LocMode};
use lpnl::lpnl_remove_loc::{remove_loc, remove_location, removal_cuttable};
use lpnl::setup::{check_nginx_version, distro_plan, include_sites, install_steps, needs_install, parse_nginx_version, Installer};

const CONF: &str = "\nserver { \n    listen 80;\n    server_name example.com;\n    location / {\n        root /var/www/example.com;\n    }\n}";

#[test]
fn insert_root_location() {
    let r = insert_location(CONF, "/api", "/srv/api", LocMode::Root, "/etc/nginx/sites-enabled/example.com.conf").unwrap();
    let expected = CONF.replace(
        "    location / {",
        "\n                location /api { root /srv/api; }\n                \n                location / {",
    );
    assert_eq!(r, expected);
}

#[test]
fn insert_proxy_location() {
    let r = insert_location(CONF, "/app", "http://127.0.0.1:3000", LocMode::Proxy, "t").unwrap();
    assert!(r.contains("location /app {\n                    proxy_pass http://127.0.0.1:3000;\n"));
    assert!(r.contains("proxy_set_header X-Real-IP $remote_addr;\n                }\n                \n                location / {"));
    assert_eq!(loc_block("/app", "x", LocMode::Root), "\n                location /app { root x; }\n                \n                location / {");
}

#[test]
fn insert_refuses_existing_location() {
    let once = insert_location(CONF, "/api", "/srv/api", LocMode::Root, "t").unwrap();
    match insert_location(&once, "/api", "/other", LocMode::Root, "t") {
        Err(LpnlError::AddLocError { message, kind }) => {
            assert_eq!(message, "The config location '/api' already exists.");
            assert!(matches!(kind, AddLocErrorKind::AlreadyExists));
        }
        _ => panic!("expected AlreadyExists"),
    }
}

#[test]
fn insert_needs_root_location() {
    match insert_location("server { }", "/api", "/srv", LocMode::Root, "/x.conf") {
        Err(LpnlError::AddLocError { message, kind }) => {
            assert_eq!(message, "Unable to find the 'location /' block in '/x.conf'.");
            assert!(matches!(kind, AddLocErrorKind::NotFound));
        }
        _ => panic!("expected NotFound"),
    }
}

#[test]
fn remove_cuts_added_block() {
    let added = insert_location(CONF, "/api", "/srv/api", LocMode::Root, "t").unwrap();
    assert!(removal_cuttable(&added, "/api"));
    let removed = remove_location(&added, "/api", "t").unwrap();
    assert_eq!(removed, added.replace("location /api { root /srv/api; }\n", ""));
    assert!(!removed.contains("location /api"));
    assert!(removed.contains("location / {"));

    let added = insert_location(CONF, "/app", "http://127.0.0.1:3000", LocMode::Proxy, "t").unwrap();
    assert!(removal_cuttable(&added, "/app"));
    let removed = remove_location(&added, "/app", "t").unwrap();
    let block = "location /app {\n                    proxy_pass http://127.0.0.1:3000;\n                    proxy_set_header Host $host;\n                    proxy_set_header X-Forwarded-For $proxy_add_x_forwarded_for;\n                    proxy_set_header X-Real-IP $remote_addr;\n                }\n";
    assert!(added.contains(block));
    assert_eq!(removed, added.replace(block, ""));
    assert!(!removed.contains("proxy_pass"));
}

#[test]
fn remove_undoes_add() {
    let no_ws = |s: &str| s.chars().filter(|c| !c.is_whitespace()).collect::<String>();
    for (mode, data) in [(LocMode::Root, "/srv/api"), (LocMode::Proxy, "http://127.0.0.1:3000")] {
        let added = insert_location(CONF, "/api", data, mode, "t").unwrap();
        let removed = remove_location(&added, "/api", "t").unwrap();
        let expected = CONF.replace(
            "    location / {",
            "\n                                \n                location / {",
        );
        assert_eq!(removed, expected);
        assert_eq!(no_ws(&removed), no_ws(CONF));
    }
}

#[test]
fn remove_missing_location() {
    match remove_location(CONF, "/nothing", "/t.conf") {
        Err(LpnlError::RemoveLocError { message, kind }) => {
            assert_eq!(message, "Unable to find the 'location /nothing' block in '/t.conf'.");
            assert!(matches!(kind, RemoveLocErrorKind::NotFound));
        }
        _ => panic!("expected NotFound"),
    }
    // mentioned in a line, but no block head
    assert!(remove_location("# /api\n", "/api", "t").is_err());
}

#[test]
fn remove_cuts_block_and_following_character() {
    let conf = "a\nlocation /x {\n  root y; }\nb\n";
    assert_eq!(remove_location(conf, "/x", "t").unwrap(), "a\nb\n");
    // a closing brace at the very end cannot be cut with the character after it
    assert!(!removal_cuttable("location /x { }", "/x"));
    assert!(removal_cuttable("nothing here", "/x"));
}

#[test]
fn location_flags_and_mode() {
    assert!(check_loc_flags(true, false).is_ok());
    assert!(check_loc_flags(false, false).is_ok());
    match check_loc_flags(true, true) {
        Err(LpnlError::AddLocError { message, kind }) => {
            assert_eq!(message, "You can use only 1 flag at a time.");
            assert!(matches!(kind, AddLocErrorKind::InvalidInput));
        }
        _ => panic!("expected InvalidInput"),
    }
    assert_eq!(mode_from_input(" proxy\n".to_string()), Some(LocMode::Proxy));
    assert_eq!(mode_from_input("root\n".to_string()), Some(LocMode::Root));
    assert_eq!(mode_from_input("Root".to_string()), None);
}

#[test]
fn add_loc_checks_in_order() {
    let both = add_loc("..".to_string(), "x".to_string(), Some("/".to_string()), Some("http://a".to_string()));
    assert!(matches!(both, Err(LpnlError::AddLocError { kind: AddLocErrorKind::InvalidInput, .. })));
    let bad_domain = add_loc("..".to_string(), "x".to_string(), None, None);
    assert!(matches!(bad_domain, Err(LpnlError::ValidationError { .. })));
    let bad_loc = add_loc("example.com".to_string(), "x".to_string(), None, None);
    assert!(matches!(bad_loc, Err(LpnlError::ValidationError { kind: lpnl::error::ValidationErrorKind::InvalidLocation, .. })));
    assert!(remove_loc("".to_string(), "/a".to_string()).is_err());
}

#[test]
fn config_lookup() {
    let f = ConfFacts { enabled_dir: true, disabled_dir: true, enabled_conf: false, disabled_conf: true };
    assert_eq!(lookup_conf(&f), ConfLookup::Disabled);
    assert_eq!(add_loc_target("a.com", &f).unwrap(), "/etc/nginx/sites-disabled/a.com.conf");
    let e = ConfFacts { enabled_dir: true, disabled_dir: true, enabled_conf: true, disabled_conf: false };
    assert_eq!(remove_loc_target("a.com", &e).unwrap(), "/etc/nginx/sites-enabled/a.com.conf");
    let both = ConfFacts { enabled_dir: true, disabled_dir: true, enabled_conf: true, disabled_conf: true };
    match remove_loc_target("a.com", &both) {
        Err(LpnlError::RemoveLocError { message, kind }) => {
            assert_eq!(message, "'a.com' is enabled and disabled. Try removing file and initializing it again.");
            assert!(matches!(kind, RemoveLocErrorKind::AlreadyExists));
        }
        _ => panic!("expected AlreadyExists"),
    }
    let none = ConfFacts { enabled_dir: true, disabled_dir: true, enabled_conf: false, disabled_conf: false };
    match add_loc_target("a.com", &none) {
        Err(e) => assert_eq!(e.message(), "Unable to find 'a.com' config."),
        _ => panic!("expected NotFound"),
    }
    let nodir = ConfFacts { enabled_dir: false, disabled_dir: true, enabled_conf: false, disabled_conf: false };
    match add_loc_target("a.com", &nodir) {
        Err(LpnlError::AddLocError { message, kind }) => {
            assert_eq!(message, "Unable to find a config files' folder in '/etc/nginx/sites-enabled'. Consider using the setup command.");
            assert!(matches!(kind, AddLocErrorKind::FsFailure));
        }
        _ => panic!("expected FsFailure"),
    }
}

#[test]
fn nginx_version_is_read_from_stderr() {
    let v = parse_nginx_version("nginx version: nginx/1.24.0\n").unwrap();
    assert_eq!((v.major, v.minor, v.patch), (1, 24, 0));
    assert_eq!(v.text, "1.24.0");
    assert!(needs_install(&v));
    let current = parse_nginx_version("nginx version: nginx/1.30.4").unwrap();
    assert!(!needs_install(&current));
    let newer = parse_nginx_version("nginx/2").unwrap();
    assert_eq!((newer.major, newer.minor, newer.patch), (2, 0, 0));
    assert!(!needs_install(&newer));
    match parse_nginx_version("nginx version: nginx/1.x.0") {
        Err(LpnlError::SetupError { message, kind }) => {
            assert_eq!(message, "Unable to convert minor version from 'nginx -v': invalid digit found in string");
            assert!(matches!(kind, SetupErrorKind::ConvertionFailure));
        }
        _ => panic!("expected ConvertionFailure"),
    }
    match parse_nginx_version("") {
        Err(e) => assert_eq!(e.message(), "Unable to convert major version from 'nginx -v': cannot parse integer from empty string"),
        _ => panic!("expected ConvertionFailure"),
    }
}

#[test]
fn nginx_output_must_be_utf8() {
    let ok = check_nginx_version(b"nginx version: nginx/1.18.0\n").unwrap();
    assert!(ok.install);
    assert_eq!(ok.version.text, "1.18.0");
    match check_nginx_version(&[0xff, 0xfe]) {
        Err(LpnlError::SetupError { message, .. }) => {
            assert!(message.starts_with("Unable to convert stdout from 'nginx -v': "));
            assert!(message.len() > "Unable to convert stdout from 'nginx -v': ".len());
        }
        _ => panic!("expected ConvertionFailure"),
    }
}

#[test]
fn include_sites_once() {
    let conf = "user www;\nhttp {\n    sendfile on;\n}\n";
    let first = include_sites(conf).unwrap().unwrap();
    assert_eq!(first, "user www;\nhttp { include /etc/nginx/sites-enabled/*.conf;\n    sendfile on;\n}\n");
    assert_eq!(include_sites(&first).unwrap(), None);
    match include_sites("events {}\n") {
        Err(LpnlError::SetupError { message, kind }) => {
            assert_eq!(message, "Unable to find the 'http' block in '/etc/nginx/nginx.conf'.");
            assert!(matches!(kind, SetupErrorKind::NotFound));
        }
        _ => panic!("expected NotFound"),
    }
}

#[test]
fn distro_plans() {
    assert_eq!(distro_plan("ID=\"arch\"\nID_LIKE=\"arch\"\n").unwrap(), Installer::Pacman);
    assert_eq!(distro_plan("NAME=x\nID=\"mint\"\nID_LIKE=\"ubuntu debian\"\n").unwrap(), Installer::Apt);
    assert_eq!(distro_plan("ID=\"rocky\"\nID_LIKE=\"rhel centos fedora\"\n").unwrap(), Installer::Dnf);
    assert_eq!(distro_plan("ID=\"x\"\nID_LIKE=\"gentoo\"\n").unwrap_err().message(), "Gentoo is not supported. (yet)");
    assert_eq!(distro_plan("ID=\"nixos\"\nID_LIKE=\"none\"\n").unwrap_err().message(), "NixOS is not supported. (yet)");
    assert_eq!(distro_plan("ID=\"a\"\nID_LIKE=\"b\"\n").unwrap_err().message(), "Unsupported distro. (yet)");
    assert_eq!(distro_plan("ID=ubuntu\nID_LIKE=debian\n").unwrap_err().message(), "Unable to find the distro name.");
}

#[test]
fn install_commands() {
    let apt = install_steps(Installer::Apt);
    assert_eq!(apt.len(), 2);
    assert_eq!(apt[0].program, "apt");
    assert_eq!(apt[0].args, vec!["update".to_string()]);
    assert_eq!(apt[1].args, vec!["install".to_string(), "-y".to_string(), "nginx".to_string()]);
    let pacman = install_steps(Installer::Pacman);
    assert_eq!(pacman[0].args, vec!["-S".to_string(), "nginx".to_string(), "--noconfirm".to_string()]);
    assert_eq!(pacman[0].what, "Nginx downloading");
}

#[test]
fn remove_undoes_add_for_location_beginning_with_root_head() {
    let no_ws = |s: &str| s.chars().filter(|c| !c.is_whitespace()).collect::<String>();
    let added = insert_location(CONF, "/ {x", "/srv/x", LocMode::Root, "t").unwrap();
    let removed = remove_location(&added, "/ {x", "t").unwrap();
    assert_eq!(no_ws(&removed), no_ws(CONF));
    // the excluded case: the root line's text followed by the rest of the head
    let conf = "location / { \na location / { x { root d; }\n";
    let added = insert_location(conf, "/ {x", "d", LocMode::Root, "t").unwrap();
    let removed = remove_location(&added, "/ {x", "t").unwrap();
    assert_ne!(no_ws(&removed), no_ws(conf));
}
