use dsh_desktop::boot::{boot_step, BootAction, BootEvent, BootFlow, DshStartup};
use dsh_desktop::engine::{Engine, EngineSource};
use dsh_desktop::launch::{
    dsh_package_spec, dsh_url_in_line, engine_after_upgrade, instance_alive, launch_plan,
    npm_install_args, reveal_target, startup_result, wait_dsh_terminated, WaitAction, WaitEvent,
};

#[test]
fn url_found_in_dsh_output() {
    assert_eq!(
        dsh_url_in_line("dsh web: http://127.0.0.1:50721"),
        Some("http://127.0.0.1:50721".to_string())
    );
    assert_eq!(
        dsh_url_in_line("[info] dsh web: http://10.0.0.2:8080/ ready"),
        Some("http://10.0.0.2:8080".to_string())
    );
}

#[test]
fn url_absent_from_other_lines() {
    assert_eq!(dsh_url_in_line("dsh web: http://localhost:3000"), None);
    assert_eq!(dsh_url_in_line("loading plugins"), None);
    assert_eq!(dsh_url_in_line(""), None);
}

#[test]
fn startup_result_timeout_message() {
    assert_eq!(startup_result(Some("http://1.2.3.4:5".to_string())), Ok("http://1.2.3.4:5".to_string()));
    assert_eq!(
        startup_result(None),
        Err("启动超时: 30 秒内未获取到 dsh web 地址".to_string())
    );
}

#[test]
fn launch_plan_runs_entry_on_node() {
    let e = Engine { dir: "/rt".to_string(), source: EngineSource::App };
    let p = launch_plan(&e, "/usr/bin/node", "/usr/bin/npx", true, Some("/bin".to_string())).unwrap();
    assert_eq!(p.program, "/usr/bin/node");
    assert_eq!(
        p.args,
        vec![
            "/rt/node_modules/@deepseek-ai/dsh/lib/bin.js".to_string(),
            "--profile".to_string(),
            "web".to_string(),
            "--port".to_string(),
            "0".to_string()
        ]
    );
    assert_eq!(p.path_env, None);
}

#[test]
fn launch_plan_missing_entry_is_not_installed() {
    let e = Engine { dir: "/g/dsh".to_string(), source: EngineSource::Global };
    let r = launch_plan(&e, "/usr/bin/node", "/usr/bin/npx", false, None);
    assert_eq!(r.err(), Some("dsh 未安装".to_string()));
}

#[test]
fn launch_plan_npx_pins_default_version() {
    let e = Engine { dir: "/home/u/.npm/_npx".to_string(), source: EngineSource::Npx };
    let p = launch_plan(&e, "/n/bin/node", "/n/bin/npx", false, Some("/usr/bin".to_string())).unwrap();
    assert_eq!(p.program, "/n/bin/npx");
    assert_eq!(
        p.args,
        vec![
            "--yes".to_string(),
            "@deepseek-ai/dsh@0.1.0-rc.7".to_string(),
            "--profile".to_string(),
            "web".to_string(),
            "--port".to_string(),
            "0".to_string()
        ]
    );
    assert_eq!(p.path_env, Some("/n/bin:/usr/bin".to_string()));
}

#[test]
fn launch_plan_npx_path_puts_node_first() {
    let e = Engine { dir: "/home/u/.npm/_npx".to_string(), source: EngineSource::Npx };
    let p = launch_plan(&e, "/a/bin/node", "/b/npx", false, Some("/usr/bin".to_string())).unwrap();
    assert_eq!(p.program, "/b/npx");
    assert_eq!(p.path_env, Some("/a/bin:/b:/usr/bin".to_string()));
}

#[test]
fn npm_install_command() {
    assert_eq!(dsh_package_spec("1.2.3"), "@deepseek-ai/dsh@1.2.3");
    assert_eq!(
        npm_install_args("/data/dsh-runtime", "1.2.3"),
        vec![
            "install".to_string(),
            "--prefix".to_string(),
            "/data/dsh-runtime".to_string(),
            "@deepseek-ai/dsh@1.2.3".to_string(),
            "--loglevel=info".to_string()
        ]
    );
}

#[test]
fn engine_after_upgrade_falls_back_to_runtime() {
    let e = engine_after_upgrade(None, "/rt".to_string());
    assert_eq!(e.dir, "/rt");
    assert_eq!(e.source, EngineSource::App);
    let g = Engine { dir: "/g".to_string(), source: EngineSource::Global };
    let e = engine_after_upgrade(Some(g), "/rt".to_string());
    assert_eq!(e.dir, "/g");
    assert_eq!(e.source, EngineSource::Global);
}

#[test]
fn wait_steps() {
    assert_eq!(wait_dsh_terminated(WaitEvent::Clock { elapsed_ms: 0 }), WaitAction::Search);
    assert_eq!(wait_dsh_terminated(WaitEvent::Clock { elapsed_ms: 5999 }), WaitAction::Search);
    assert_eq!(wait_dsh_terminated(WaitEvent::Clock { elapsed_ms: 6000 }), WaitAction::Done);
    assert_eq!(
        wait_dsh_terminated(WaitEvent::Searched { npx_servers: Some(true), entry_servers: None }),
        WaitAction::Sleep { ms: 200 }
    );
    assert_eq!(
        wait_dsh_terminated(WaitEvent::Searched { npx_servers: Some(false), entry_servers: Some(true) }),
        WaitAction::Sleep { ms: 200 }
    );
    assert_eq!(
        wait_dsh_terminated(WaitEvent::Searched { npx_servers: None, entry_servers: Some(false) }),
        WaitAction::Done
    );
}

#[test]
fn instance_alive_statuses() {
    assert!(instance_alive(Some(200)));
    assert!(instance_alive(Some(302)));
    assert!(instance_alive(Some(399)));
    assert!(!instance_alive(Some(199)));
    assert!(!instance_alive(Some(404)));
    assert!(!instance_alive(Some(500)));
    assert!(!instance_alive(None));
}

#[test]
fn reveal_targets() {
    let e = Engine { dir: "/g/dsh".to_string(), source: EngineSource::Global };
    assert_eq!(reveal_target(Some(&e)), "file:///g/dsh");
    assert_eq!(reveal_target(None), "https://www.npmjs.com/package/@deepseek-ai/dsh");
}

#[test]
fn connect_flow_reuses_live_instance() {
    assert!(matches!(boot_step(BootFlow::Connect, BootEvent::Begin), BootAction::CheckNode));
    assert!(matches!(
        boot_step(BootFlow::Connect, BootEvent::NodeChecked { available: true }),
        BootAction::ProbeLive
    ));
    match boot_step(BootFlow::Connect, BootEvent::LiveProbed { url: Some("http://1.2.3.4:5".to_string()) }) {
        BootAction::Reply { startup: DshStartup::Ready { url }, remember_url: Some(r) } => {
            assert_eq!(url, "http://1.2.3.4:5");
            assert_eq!(r, "http://1.2.3.4:5");
        }
        other => panic!("unexpected {:?}", other),
    }
}

#[test]
fn connect_flow_node_missing() {
    assert!(matches!(
        boot_step(BootFlow::Connect, BootEvent::NodeChecked { available: false }),
        BootAction::Reply { startup: DshStartup::NodeMissing, remember_url: None }
    ));
}

#[test]
fn connect_flow_running_child() {
    match boot_step(
        BootFlow::Connect,
        BootEvent::ChildInspected { running: true, cached_url: Some("http://9.9.9.9:1".to_string()) },
    ) {
        BootAction::Reply { startup: DshStartup::Ready { url }, remember_url: None } => {
            assert_eq!(url, "http://9.9.9.9:1")
        }
        other => panic!("unexpected {:?}", other),
    }
    assert!(matches!(
        boot_step(BootFlow::Connect, BootEvent::ChildInspected { running: false, cached_url: Some("u".to_string()) }),
        BootAction::ResolveNode
    ));
    assert!(matches!(
        boot_step(BootFlow::Connect, BootEvent::ChildInspected { running: true, cached_url: None }),
        BootAction::ResolveNode
    ));
}

#[test]
fn connect_flow_start_engine() {
    assert!(matches!(
        boot_step(BootFlow::Connect, BootEvent::LiveProbed { url: None }),
        BootAction::InspectChild
    ));
    match boot_step(BootFlow::Connect, BootEvent::NodeResolved { node: Ok("/usr/bin/node".to_string()) }) {
        BootAction::PickEngine { node } => assert_eq!(node, "/usr/bin/node"),
        other => panic!("unexpected {:?}", other),
    }
    assert!(matches!(
        boot_step(BootFlow::Connect, BootEvent::EngineFound { engine: None }),
        BootAction::Reply { startup: DshStartup::NotInstalled, remember_url: None }
    ));
    let e = Engine { dir: "/rt".to_string(), source: EngineSource::App };
    match boot_step(BootFlow::Connect, BootEvent::EngineFound { engine: Some(e) }) {
        BootAction::Launch { engine } => assert_eq!(engine.dir, "/rt"),
        other => panic!("unexpected {:?}", other),
    }
    match boot_step(BootFlow::Connect, BootEvent::Launched { result: Err("boom".to_string()) }) {
        BootAction::Reply { startup: DshStartup::StartupFailed { message }, remember_url: None } => {
            assert_eq!(message, "boom")
        }
        other => panic!("unexpected {:?}", other),
    }
}

#[test]
fn restart_flow_never_reuses() {
    assert!(matches!(boot_step(BootFlow::Restart, BootEvent::Begin), BootAction::StopInstances));
    assert!(matches!(boot_step(BootFlow::Restart, BootEvent::InstancesStopped), BootAction::CheckNode));
    assert!(matches!(
        boot_step(BootFlow::Restart, BootEvent::NodeChecked { available: true }),
        BootAction::FindActiveEngine
    ));
    assert!(matches!(
        boot_step(BootFlow::Restart, BootEvent::LiveProbed { url: Some("u".to_string()) }),
        BootAction::Ignore
    ));
    match boot_step(BootFlow::Restart, BootEvent::Launched { result: Ok("http://1.1.1.1:2".to_string()) }) {
        BootAction::Reply { startup: DshStartup::Ready { url }, remember_url: None } => {
            assert_eq!(url, "http://1.1.1.1:2")
        }
        other => panic!("unexpected {:?}", other),
    }
}
