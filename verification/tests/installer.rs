use nai_installer::config::{parse_config, ConfigError};
use nai_installer::desktop::generate_desktop_file;
use nai_installer::install::{build_install_command, complete_install, desktop_file_name,
    install_outcome};
use nai_installer::resolver::{resolve_request, ResolveError};
use nai_installer::router::{parse_message, route_message, router_error_message, CommandAction,
    Directive, RouterError};
use nai_installer::status::{decode_status, encode_status, StatusChannel, StatusMessage};
use nai_installer::text::{check_safe_path, contains_substr, find_char, join_path, str_eq};
use nai_installer::ui::{init_script, status_script};

fn test_config() -> nai_installer::config::Config {
    let doc = "{\"installer\":{\"title\":\"My Installer\"},\"app\":{\"name\":\"MyApp\",\"package_name\":\"myapp\",\"icon\":\"icon.png\"}}";
    parse_config(doc).expect("test configuration must parse")
}

#[test]
fn desktop_entry_full_text() {
    let out = generate_desktop_file(
        "MyApp",
        String::from("/opt/app/icon.png"),
        String::from("/opt/app"),
    );
    let expected = "[Desktop Entry]\nName=MyApp\nExec=bash -ic \"cd /opt/app; NEWTONIUM_ROOT=. NEWTONIUM_BUN=newtonium_binaries/bun NEWTONIUM_ENTRYPOINT=index.js ./newtonium_binaries/runner\"\nIcon=/opt/app/icon.png\nType=Application\nCategories=Development";
    assert_eq!(out, expected);
}

#[test]
fn desktop_entry_one_exec_line_with_verbatim_cd() {
    let location = "/opt/my-app_1.0";
    let out = generate_desktop_file(
        "Some App",
        String::from("/opt/my-app_1.0/icon.png"),
        String::from(location),
    );
    let exec_lines: Vec<&str> = out.lines().filter(|l| l.starts_with("Exec=")).collect();
    assert_eq!(exec_lines.len(), 1);
    let line = exec_lines[0];
    let after_cd = &line["Exec=bash -ic \"cd ".len()..];
    let target = &after_cd[..after_cd.find(';').expect("cd command ends with ;")];
    assert_eq!(target, location);
}

#[test]
fn resolver_root_path_serves_entry_document() {
    let res = resolve_request("/", "localhost").expect("root path resolves");
    assert_eq!(res.full_path, "installer_view/index.html");
    assert_eq!(res.content_type, "text/html");
}

#[test]
fn resolver_authority_marker_selects_filesystem_root() {
    let res = resolve_request("/usr/share/pixmaps/logo.png", "nai_res.localhost")
        .expect("marker authority resolves");
    assert_eq!(res.full_path, "/usr/share/pixmaps/logo.png");
    assert_eq!(res.content_type, "image/png");

    let res = resolve_request("/style.css", "localhost").expect("plain authority resolves");
    assert_eq!(res.full_path, "installer_view/style.css");
    assert_eq!(res.content_type, "text/css");
}

#[test]
fn resolver_rejects_escaping_paths() {
    assert_eq!(
        resolve_request("/../etc/passwd", "localhost").unwrap_err(),
        ResolveError::EscapingPath
    );
    assert_eq!(
        resolve_request("/assets/../../secret", "localhost").unwrap_err(),
        ResolveError::EscapingPath
    );
    // A dot-dot that is only part of a file name does not escape.
    assert!(resolve_request("/notes..txt", "localhost").is_ok());
}

#[test]
fn status_channel_delivers_in_send_order() {
    let mut chan = StatusChannel::new();
    chan.send(StatusMessage::Progress);
    chan.send(StatusMessage::Succeeded(String::from("done")));
    assert!(matches!(chan.try_recv(), Some(StatusMessage::Progress)));
    assert!(matches!(chan.try_recv(), Some(StatusMessage::Succeeded(t)) if t == "done"));
    assert!(chan.try_recv().is_none());
}

#[test]
fn status_wire_round_trip() {
    let encoded = encode_status(&StatusMessage::Succeeded(String::from("all good")));
    assert_eq!(encoded, "OK;all good");
    assert!(matches!(decode_status(&encoded), StatusMessage::Succeeded(t) if t == "all good"));

    let encoded = encode_status(&StatusMessage::Failed(String::from("broke; badly")));
    assert_eq!(encoded, "ERR;broke; badly");
    assert!(matches!(decode_status(&encoded), StatusMessage::Failed(t) if t == "broke; badly"));

    assert_eq!(encode_status(&StatusMessage::Progress), "progress;.");
    assert!(matches!(decode_status("progress;."), StatusMessage::Progress));

    assert!(matches!(decode_status("weird;x"), StatusMessage::Unknown));
    assert!(matches!(decode_status("no separator"), StatusMessage::Unknown));
}

#[test]
fn router_install_posts_progress_then_terminal_status() {
    let cfg = test_config();
    let mut chan = StatusChannel::new();
    let d = route_message(
        &cfg.app,
        "/home/user/inst",
        "install;{\"location\":\"/opt/app\"}",
        &mut chan,
    );
    let plan = match d {
        Directive::RunInstall(plan) => plan,
        _ => panic!("install message must yield an install plan"),
    };
    assert_eq!(plan.location, "/opt/app");
    assert_eq!(plan.desktop_file_name, "myapp.desktop");
    assert_eq!(
        plan.command,
        "mkdir -p /opt/app && cp /home/user/inst/myapp.desktop /usr/share/applications && cp /home/user/inst/icon.png /opt/app/icon.png && chmod +x /opt/app/icon.png && cp /home/user/inst/* /opt/app/ -r"
    );
    assert!(plan.desktop_file_contents.contains("Exec=bash -ic \"cd /opt/app;"));
    assert!(plan.desktop_file_contents.contains("Icon=/opt/app/icon.png"));

    // Exactly one Progress so far, nothing else.
    assert!(matches!(chan.try_recv(), Some(StatusMessage::Progress)));
    assert!(chan.try_recv().is_none());

    // The privileged command's outcome is posted as exactly one terminal status.
    chan.send(StatusMessage::Progress);
    complete_install(&mut chan, true, String::from("done"), String::new());
    assert!(matches!(chan.try_recv(), Some(StatusMessage::Progress)));
    assert!(matches!(chan.try_recv(), Some(StatusMessage::Succeeded(t)) if t == "done"));
    assert!(chan.try_recv().is_none());
}

#[test]
fn router_close_yields_shutdown_without_status() {
    let cfg = test_config();
    let mut chan = StatusChannel::new();
    let d = route_message(&cfg.app, "/inst", "close;{}", &mut chan);
    assert!(matches!(d, Directive::Shutdown));
    assert!(chan.try_recv().is_none());
}

#[test]
fn router_unrecognized_action_is_a_noop() {
    let cfg = test_config();
    let mut chan = StatusChannel::new();
    let d = route_message(&cfg.app, "/inst", "bogus;{}", &mut chan);
    assert!(matches!(d, Directive::NoAction));
    assert!(chan.try_recv().is_none());
}

#[test]
fn router_malformed_message_reports_instead_of_crashing() {
    let cfg = test_config();
    let mut chan = StatusChannel::new();
    let d = route_message(&cfg.app, "/inst", "install", &mut chan);
    assert!(matches!(d, Directive::NoAction));
    assert!(
        matches!(chan.try_recv(), Some(StatusMessage::Failed(t)) if t == "malformed message: no ';' separator")
    );
    assert!(chan.try_recv().is_none());
}

#[test]
fn router_launch_plan_carries_environment_contract() {
    let cfg = test_config();
    let mut chan = StatusChannel::new();
    let d = route_message(&cfg.app, "/inst", "launch;{\"location\":\"/opt/app\"}", &mut chan);
    let plan = match d {
        Directive::RunLaunch(plan) => plan,
        _ => panic!("launch message must yield a launch plan"),
    };
    assert_eq!(plan.working_dir, "/opt/app");
    assert_eq!(plan.runner, "./newtonium_binaries/runner");
    assert_eq!(plan.root_var, "NEWTONIUM_ROOT");
    assert_eq!(plan.root_value, "/opt/app");
    assert_eq!(plan.runtime_var, "NEWTONIUM_BUN");
    assert_eq!(plan.runtime_value, "newtonium_binaries/bun");
    assert_eq!(plan.entry_var, "NEWTONIUM_ENTRYPOINT");
    assert_eq!(plan.entry_value, "index.js");
    assert!(chan.try_recv().is_none());
}

#[test]
fn parse_message_rejects_each_bad_payload_with_its_reason() {
    assert_eq!(parse_message("install").unwrap_err(), RouterError::MalformedMessage);
    assert_eq!(parse_message("install;not json").unwrap_err(), RouterError::InvalidPayload);
    assert_eq!(parse_message("install;{}").unwrap_err(), RouterError::InvalidPayload);
    assert_eq!(
        parse_message("install;{\"location\":42}").unwrap_err(),
        RouterError::InvalidPayload
    );
    assert_eq!(
        parse_message("install;{\"location\":\"\"}").unwrap_err(),
        RouterError::EmptyLocation
    );
    assert_eq!(
        parse_message("install;{\"location\":\"/opt;rm -rf /\"}").unwrap_err(),
        RouterError::UnsafeLocation
    );
    assert!(matches!(
        parse_message("install;{\"location\":\"/opt/app\"}"),
        Ok(CommandAction::Install(req)) if req.location == "/opt/app"
    ));
    assert!(matches!(
        parse_message("launch;{\"location\":\"/opt/app\"}"),
        Ok(CommandAction::Launch(req)) if req.location == "/opt/app"
    ));
    assert!(matches!(parse_message("close;{}"), Ok(CommandAction::Close)));
    assert!(matches!(parse_message("other;{}"), Ok(CommandAction::NoOp)));
}

#[test]
fn router_error_messages() {
    assert_eq!(
        router_error_message(&RouterError::MalformedMessage),
        "malformed message: no ';' separator"
    );
    assert_eq!(
        router_error_message(&RouterError::InvalidPayload),
        "invalid payload: no string 'location'"
    );
    assert_eq!(router_error_message(&RouterError::EmptyLocation), "invalid payload: empty location");
    assert_eq!(
        router_error_message(&RouterError::UnsafeLocation),
        "invalid payload: unsafe location"
    );
}

#[test]
fn parse_config_accepts_a_full_document() {
    let cfg = test_config();
    assert_eq!(cfg.installer.title, "My Installer");
    assert_eq!(cfg.app.name, "MyApp");
    assert_eq!(cfg.app.package_name, "myapp");
    assert_eq!(cfg.app.icon, "icon.png");
}

#[test]
fn parse_config_reports_the_first_missing_field() {
    assert_eq!(
        parse_config("{\"app\":{\"name\":\"A\",\"package_name\":\"a\",\"icon\":\"i.png\"}}")
            .unwrap_err(),
        ConfigError::MissingTitle
    );
    assert_eq!(
        parse_config("{\"installer\":{\"title\":\"T\"},\"app\":{\"package_name\":\"a\",\"icon\":\"i.png\"}}")
            .unwrap_err(),
        ConfigError::MissingName
    );
    assert_eq!(
        parse_config("{\"installer\":{\"title\":\"T\"},\"app\":{\"name\":\"A\",\"icon\":\"i.png\"}}")
            .unwrap_err(),
        ConfigError::MissingPackageName
    );
    assert_eq!(
        parse_config("{\"installer\":{\"title\":\"T\"},\"app\":{\"name\":\"A\",\"package_name\":\"a\"}}")
            .unwrap_err(),
        ConfigError::MissingIcon
    );
    assert_eq!(parse_config("not json at all").unwrap_err(), ConfigError::MissingTitle);
}

#[test]
fn parse_config_rejects_unusable_fields() {
    assert_eq!(
        parse_config("{\"installer\":{\"title\":\"T\"},\"app\":{\"name\":\"\",\"package_name\":\"a\",\"icon\":\"i.png\"}}")
            .unwrap_err(),
        ConfigError::InvalidName
    );
    assert_eq!(
        parse_config("{\"installer\":{\"title\":\"T\"},\"app\":{\"name\":\"A\",\"package_name\":\"my app\",\"icon\":\"i.png\"}}")
            .unwrap_err(),
        ConfigError::InvalidPackageName
    );
    assert_eq!(
        parse_config("{\"installer\":{\"title\":\"T\"},\"app\":{\"name\":\"A\",\"package_name\":\"a/b\",\"icon\":\"i.png\"}}")
            .unwrap_err(),
        ConfigError::InvalidPackageName
    );
    assert_eq!(
        parse_config("{\"installer\":{\"title\":\"T\"},\"app\":{\"name\":\"A\",\"package_name\":\"a\",\"icon\":\"i png\"}}")
            .unwrap_err(),
        ConfigError::InvalidIcon
    );
}

#[test]
fn install_command_uses_idempotent_directory_creation() {
    let cfg = test_config();
    let cmd = build_install_command(&cfg.app, "/inst", "/opt/app");
    assert!(cmd.starts_with("mkdir -p /opt/app && "));
}

#[test]
fn install_outcome_keeps_captured_output() {
    assert!(matches!(
        install_outcome(true, String::from("out"), String::from("err")),
        StatusMessage::Succeeded(t) if t == "out"
    ));
    assert!(matches!(
        install_outcome(false, String::from("out"), String::from("err")),
        StatusMessage::Failed(t) if t == "err"
    ));
}

#[test]
fn desktop_file_name_is_package_name_with_suffix() {
    let cfg = test_config();
    assert_eq!(desktop_file_name(&cfg.app), "myapp.desktop");
}

#[test]
fn ui_scripts_have_exact_shape() {
    assert_eq!(
        status_script(&StatusMessage::Succeeded(String::from("ignored"))),
        "window.setStatus({type: 'ok', data: ''});"
    );
    assert_eq!(
        status_script(&StatusMessage::Failed(String::from("oops"))),
        "window.setStatus({type: 'err', data: `oops`});"
    );
    assert_eq!(
        status_script(&StatusMessage::Unknown),
        "window.setStatus({type: 'unknown', data: ''});"
    );
    assert_eq!(
        status_script(&StatusMessage::Progress),
        "window.setStatus({type: 'unknown', data: ''});"
    );

    let cfg = test_config();
    assert_eq!(
        init_script(&cfg.installer, &cfg.app, "/inst"),
        "\nwindow.nai = {\n  title: `My Installer`,\n  default_location: `/usr/local/myapp`,\n  icon: `/inst/icon.png`\n}"
    );
}

#[test]
fn text_utilities() {
    assert!(str_eq("abc", "abc"));
    assert!(!str_eq("abc", "abd"));
    assert!(!str_eq("abc", "ab"));
    assert_eq!(find_char("a;b;c", ';'), Some(1));
    assert_eq!(find_char("abc", ';'), None);
    assert!(contains_substr("nai_res.localhost", "nai_res"));
    assert!(!contains_substr("localhost", "nai_res"));
    assert!(contains_substr("abc", ""));
    assert_eq!(join_path("/usr/local", "myapp"), "/usr/local/myapp");
    assert_eq!(join_path("/", "etc/hosts"), "/etc/hosts");
    assert_eq!(join_path("/opt/app", "/abs/icon.png"), "/abs/icon.png");
    assert!(check_safe_path("/opt/My-App_1.0+x"));
    assert!(!check_safe_path(""));
    assert!(!check_safe_path("/opt/app; rm"));
    assert!(!check_safe_path("/opt/`app`"));
}
