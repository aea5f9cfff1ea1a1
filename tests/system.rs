use hub::logging::{init, needs_rotation, set_app_log_enabled, SetAppLogEnabled, MAX_LOG_FILE_SIZE};
use hub::loopback::{join_lines, AppContainerInfo, GetAppContainers, SaveLoopbackConfiguration, SetLoopback};
use hub::netinfo::{strip_zone, GetNetworkInterfaces};
use hub::overrides::{
    ApplyOverridesRequest, ClashProcessResult, GenerateRuntimeConfigRequest, OverrideOutcome,
    ParseSubscriptionRequest,
};
use hub::system::{
    power_event_from_broadcast, start_power_event_listener, stop_power_event_listener,
    DisableSystemProxy, EnableSystemProxy, PowerEventType,
    GetAutoStartStatus, GetSystemProxy, OpenUrl, PowerListener, SetAutoStartStatus,
};

fn container(name: &str, sid: &str, enabled: bool) -> AppContainerInfo {
    AppContainerInfo {
        app_container_name: name.to_string(),
        display_name: name.to_string(),
        package_family_name: name.to_string(),
        sid: sid.as_bytes().to_vec(),
        sid_string: sid.to_string(),
        is_loopback_enabled: enabled,
    }
}

#[test]
fn log_switch_and_rotation() {
    let mut s = init("/tmp/app.log".to_string());
    assert!(s.app_log_enabled);
    assert!(s.writes_to_file());
    set_app_log_enabled(&mut s, false);
    assert!(!s.writes_to_file());
    let r = SetAppLogEnabled { is_enabled: true }.handle(&mut s);
    assert!(r.is_successful);
    assert!(s.app_log_enabled);
    assert_eq!(s.log_file_path, Some("/tmp/app.log".to_string()));
    assert_eq!(MAX_LOG_FILE_SIZE, 10_485_760);
    assert!(!needs_rotation(10_485_760));
    assert!(needs_rotation(10_485_761));
}

#[test]
fn auto_start_answers() {
    let r = GetAutoStartStatus.handle(Ok(true));
    assert!(r.enabled && r.error_message.is_none());
    let r = SetAutoStartStatus { enabled: true }.handle(Err("denied".to_string()));
    assert!(!r.enabled);
    assert_eq!(r.error_message, Some("denied".to_string()));
}

#[test]
fn url_and_proxy_answers() {
    let u = OpenUrl { url: "https://example.com".to_string() };
    assert!(u.handle(Ok(())).is_successful);
    let r = u.handle(Err("no browser".to_string()));
    assert!(!r.is_successful);
    assert_eq!(r.error_message, Some("no browser".to_string()));
    let e = EnableSystemProxy {
        host: "127.0.0.1".to_string(),
        port: 7890,
        bypass_domains: vec![],
        use_pac_mode: false,
        pac_script: String::new(),
        pac_file_path: String::new(),
    };
    assert!(e.handle(Ok(())).success);
    let r = DisableSystemProxy.handle(Err("x".to_string()));
    assert!(!r.success);
    let i = GetSystemProxy.handle(true, Some("127.0.0.1:7890".to_string()));
    assert!(i.enabled);
    assert_eq!(i.server, Some("127.0.0.1:7890".to_string()));
}

#[test]
fn power_listener_start_and_stop() {
    let mut p = PowerListener { running: false, thread_id: 0 };
    assert!(start_power_event_listener(&mut p));
    assert!(!start_power_event_listener(&mut p));
    assert_eq!(stop_power_event_listener(&mut p), None);
    p.thread_id = 77;
    assert_eq!(stop_power_event_listener(&mut p), Some(77));
    assert!(!p.running);
    assert_eq!(stop_power_event_listener(&mut p), None);
}

#[test]
fn override_answers() {
    let req = ApplyOverridesRequest { base_config_content: "a: 1".to_string(), overrides: vec![] };
    let r = req.handle(OverrideOutcome::Applied("a: 2".to_string()));
    assert!(r.is_successful);
    assert_eq!(r.result_config, "a: 2");
    assert_eq!(r.logs, vec!["处理成功".to_string()]);
    let r = req.handle(OverrideOutcome::ParseFailed("bad".to_string()));
    assert!(!r.is_successful);
    assert_eq!(r.error_message, "订阅解析失败：bad");
    let r = req.handle(OverrideOutcome::ProcessorFailed("js".to_string()));
    assert_eq!(r.error_message, "初始化处理器失败：js");
    let r = req.handle(OverrideOutcome::ApplyFailed("YAML override failed".to_string()));
    assert_eq!(r.error_message, "YAML override failed");
    assert!(r.logs.is_empty());
}

#[test]
fn subscription_and_generation_answers() {
    let p = ParseSubscriptionRequest { request_id: "r1".to_string(), content: "x".to_string() };
    let r = p.handle(Err("empty".to_string()));
    assert_eq!(r.request_id, "r1");
    assert!(!r.is_successful);
    assert_eq!(r.error_message, "empty");
    let r = ClashProcessResult::started(Ok(1234));
    assert!(r.success);
    assert_eq!(r.pid, Some(1234));
    let r = ClashProcessResult::started(Err("missing".to_string()));
    assert_eq!(r.pid, None);
}

#[test]
fn generation_answer() {
    let params = hub::overrides::RuntimeConfigParams {
        mixed_port: 7890,
        is_ipv6_enabled: false,
        is_allow_lan_enabled: false,
        is_tcp_concurrent_enabled: true,
        is_unified_delay_enabled: true,
        outbound_mode: "rule".to_string(),
        is_tun_enabled: false,
        tun_stack: "mixed".to_string(),
        tun_device: "tun0".to_string(),
        is_tun_auto_route_enabled: true,
        is_tun_auto_redirect_enabled: false,
        is_tun_auto_detect_interface_enabled: true,
        tun_dns_hijack: vec!["any:53".to_string()],
        is_tun_strict_route_enabled: false,
        tun_route_exclude_address: vec![],
        is_tun_icmp_forwarding_disabled: false,
        tun_mtu: 9000,
        geodata_loader: "memconservative".to_string(),
        find_process_mode: "off".to_string(),
        clash_core_log_level: "info".to_string(),
        external_controller: None,
        external_controller_secret: None,
        is_keep_alive_enabled: false,
        keep_alive_interval: None,
        is_dns_override_enabled: false,
        dns_override_content: None,
    };
    let req = GenerateRuntimeConfigRequest { base_config_content: "a: 1".to_string(), overrides: vec![], runtime_params: params };
    assert!(req.skips_overrides());
    let r = req.handle(Ok("mixed-port: 7890".to_string()));
    assert!(r.success);
    assert_eq!(r.result_config, "mixed-port: 7890");
    let r = req.handle(Err("bad yaml".to_string()));
    assert!(!r.success);
    assert_eq!(r.result_config, "");
}

#[test]
fn container_listing() {
    let r = GetAppContainers.handle(Ok(vec![container("a", "S-1", true)]));
    assert!(r.list.containers.is_empty());
    assert_eq!(r.containers.len(), 1);
    let r = GetAppContainers.handle(Err("denied".to_string()));
    assert!(r.containers.is_empty());
    let s = SetLoopback { package_family_name: "a".to_string(), enabled: true };
    assert_eq!(s.handle(Ok(())).message, "回环豁免设置成功");
    assert_eq!(s.handle(Err("e".to_string())).message, "e");
}

#[test]
fn loopback_plan_and_save() {
    let cs = vec![container("a", "S-1", true), container("b", "S-2", false), container("c", "S-3", false)];
    let req = SaveLoopbackConfiguration { sid_strings: vec!["S-2".to_string(), "S-3".to_string()] };
    assert!(req.wants_enabled(&"S-3".to_string()));
    assert!(!req.wants_enabled(&"S-1".to_string()));
    assert_eq!(req.plan(&cs), vec![0, 1, 2]);
    let ok = |_: &Vec<u8>, _: bool| -> Result<(), String> { Ok(()) };
    let r = req.handle(Ok(cs), &ok);
    assert!(r.success);
    assert_eq!(r.message, "配置保存成功（修改：3个容器）");
    let cs = vec![container("a", "S-1", true), container("b", "S-2", false)];
    let fail_b = |sid: &Vec<u8>, _: bool| -> Result<(), String> {
        if sid == &b"S-2".to_vec() { Err("denied".to_string()) } else { Ok(()) }
    };
    let r = req.handle(Ok(cs), &fail_b);
    assert!(!r.success);
    assert_eq!(r.message, "部分操作失败（成功：1，失败：1）：\nb：denied");
    let r = req.handle(Err("no api".to_string()), &ok);
    assert_eq!(r.message, "无法枚举容器：no api");
    let none = SaveLoopbackConfiguration { sid_strings: vec!["S-1".to_string()] };
    let r = none.handle(Ok(vec![container("a", "S-1", true)]), &ok);
    assert_eq!(r.message, "配置保存成功（修改：0个容器）");
}

#[test]
fn joining_lines() {
    assert_eq!(join_lines(&vec![]), "");
    assert_eq!(join_lines(&vec!["x".to_string()]), "x");
    assert_eq!(join_lines(&vec!["x".to_string(), "y".to_string(), "z".to_string()]), "x\ny\nz");
}

#[test]
fn address_list_sorted_unique_without_zone() {
    let found = vec![
        "fe80::1%eth0".to_string(),
        "192.168.1.5".to_string(),
        "127.0.0.1".to_string(),
        "192.168.1.5".to_string(),
    ];
    let r = GetNetworkInterfaces.handle(Some("box".to_string()), Ok(found));
    assert_eq!(
        r.addresses,
        vec!["127.0.0.1", "192.168.1.5", "box.local", "fe80::1", "localhost"]
    );
    assert_eq!(r.hostname, Some("box".to_string()));
    let r = GetNetworkInterfaces.handle(Some("localhost".to_string()), Err("x".to_string()));
    assert_eq!(r.addresses, vec!["127.0.0.1", "localhost"]);
    assert_eq!(strip_zone(&"a%b%c".to_string()), "a");
    assert_eq!(strip_zone(&"plain".to_string()), "plain");
}

#[test]
fn power_broadcast_codes() {
    let e = power_event_from_broadcast(0x0004).unwrap();
    assert!(e.event_type == PowerEventType::Suspend);
    let e = power_event_from_broadcast(0x0012).unwrap();
    assert!(e.event_type == PowerEventType::ResumeAutomatic);
    let e = power_event_from_broadcast(0x0007).unwrap();
    assert!(e.event_type == PowerEventType::ResumeSuspend);
    assert!(power_event_from_broadcast(0x8013).is_none());
    let mut p = PowerListener::new();
    assert!(start_power_event_listener(&mut p));
    p.thread_started(12);
    assert_eq!(stop_power_event_listener(&mut p), Some(12));
    p.loop_ended();
    assert!(!p.running && p.thread_id == 0);
}
