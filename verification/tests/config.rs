use vor_router::config::AppConfigState;
use vor_router::config::AppConflicts;
use vor_router::config::InputValidation;
use vor_router::config::RouterConfig;
use vor_router::config::VORAppStatus;
use vor_router::config::VORConfig;
use vor_router::config::VORConfigWrapper;
use vor_router::config::check_app_conflicts;
use vor_router::config::check_app_inputs;
use vor_router::config::config_construct;
use vor_router::pf::PacketFilter;
use vor_router::vorerr::app_error;
use vor_router::vorupdate::parse_vor_version_from_str;
use vor_router::vorutils::check_valid_ipv4;
use vor_router::vorutils::check_valid_port;
use vor_router::vorutils::parse_u64_str;

fn wrapper(name: &str, host: &str, port: &str) -> VORConfigWrapper {
    VORConfigWrapper {
        config_data: VORConfig {
            app_port: port.to_string(),
            app_host: host.to_string(),
            app_name: name.to_string(),
        },
        config_path: format!("/tmp/{}.json", name),
    }
}

fn empty_filter() -> PacketFilter {
    PacketFilter {
        enabled: false,
        filter_bad_packets: false,
        wl_enabled: false,
        address_wl: vec![],
        bl_enabled: false,
        address_bl: vec![],
    }
}

#[test]
fn config_construct_pairs_each_route_with_stopped_saved() {
    let configs = vec![wrapper("a", "127.0.0.1", "9100"), wrapper("b", "127.0.0.1", "9200")];
    let (rc, gconfs, _pf) = config_construct(RouterConfig::default(), configs, empty_filter());
    assert_eq!(rc.bind_port, "9001");
    assert_eq!(gconfs.len(), 2);
    for (w, status, state) in &gconfs {
        assert!(matches!(status, VORAppStatus::Stopped));
        assert!(matches!(state, AppConfigState::SAVED));
        assert!(!w.config_data.app_name.is_empty());
    }
    assert_eq!(gconfs[0].0.config_data.app_name, "a");
    assert_eq!(gconfs[1].0.config_data.app_name, "b");
}

#[test]
fn router_config_default_values() {
    let rc = RouterConfig::default();
    assert_eq!(rc.bind_host, "127.0.0.1");
    assert_eq!(rc.bind_port, "9001");
    assert_eq!(rc.vor_buffer_size, "4096");
    assert!(rc.async_mode);
}

#[test]
fn valid_ports_are_between_1_and_65534() {
    assert!(check_valid_port(&"9001".to_string()));
    assert!(check_valid_port(&"1".to_string()));
    assert!(check_valid_port(&"65534".to_string()));
    assert!(!check_valid_port(&"0".to_string()));
    assert!(!check_valid_port(&"65535".to_string()));
    assert!(!check_valid_port(&"65536".to_string()));
    assert!(!check_valid_port(&"".to_string()));
    assert!(!check_valid_port(&"port".to_string()));
    assert!(!check_valid_port(&"90 01".to_string()));
    assert!(!check_valid_port(&"-1".to_string()));
    assert!(check_valid_port(&"+9001".to_string()));
    assert!(check_valid_port(&"00042".to_string()));
}

#[test]
fn parse_u64_matches_std() {
    for s in ["0", "42", "+42", "18446744073709551615", "18446744073709551616", "", "+", "4x2", " 42"] {
        assert_eq!(parse_u64_str(s), s.parse::<u64>().ok(), "input {:?}", s);
    }
}

#[test]
fn valid_ipv4_literals() {
    assert!(check_valid_ipv4(&"127.0.0.1".to_string()));
    assert!(check_valid_ipv4(&"0.0.0.0".to_string()));
    assert!(check_valid_ipv4(&"255.255.255.255".to_string()));
    assert!(!check_valid_ipv4(&"256.0.0.1".to_string()));
    assert!(!check_valid_ipv4(&"01.2.3.4".to_string()));
    assert!(!check_valid_ipv4(&"1.2.3".to_string()));
    assert!(!check_valid_ipv4(&"1.2.3.4.5".to_string()));
    assert!(!check_valid_ipv4(&"".to_string()));
    assert!(!check_valid_ipv4(&"a.b.c.d".to_string()));
    assert!(!check_valid_ipv4(&"1..2.3".to_string()));
    assert!(!check_valid_ipv4(&"localhost".to_string()));
    assert!(!check_valid_ipv4(&"1.2.3.".to_string()));
}

#[test]
fn ipv4_rejects_signs_spaces_and_stray_zeros() {
    assert!(!check_valid_ipv4(&"+1.1.1.1".to_string()));
    assert!(!check_valid_ipv4(&"1.1.1.01".to_string()));
    assert!(!check_valid_ipv4(&"999.1.1.1".to_string()));
    assert!(!check_valid_ipv4(&"1.2.3.4 ".to_string()));
    assert!(check_valid_ipv4(&"10.20.30.40".to_string()));
}

#[test]
fn app_inputs_validate_host_then_port() {
    let configs = vec![
        (wrapper("a", "127.0.0.1", "9100"), VORAppStatus::Stopped, AppConfigState::SAVED),
        (wrapper("b", "not-a-host", "9100"), VORAppStatus::Stopped, AppConfigState::SAVED),
        (wrapper("c", "127.0.0.1", "0"), VORAppStatus::Stopped, AppConfigState::SAVED),
    ];
    assert!(matches!(check_app_inputs(&configs, 0), InputValidation::CLEAN));
    assert!(matches!(check_app_inputs(&configs, 1), InputValidation::AH(false)));
    assert!(matches!(check_app_inputs(&configs, 2), InputValidation::AP(false)));
}

#[test]
fn app_conflicts_flag_duplicate_names() {
    let configs = vec![
        (wrapper("same", "127.0.0.1", "9100"), VORAppStatus::Stopped, AppConfigState::SAVED),
        (wrapper("other", "127.0.0.1", "9200"), VORAppStatus::Stopped, AppConfigState::SAVED),
        (wrapper("same", "127.0.0.1", "9300"), VORAppStatus::Stopped, AppConfigState::SAVED),
    ];
    match check_app_conflicts(&configs, 2) {
        AppConflicts::CONFLICT((name, component)) => {
            assert_eq!(name, "same");
            assert_eq!(component, "App Name");
        }
        AppConflicts::NONE => panic!("duplicate names must conflict"),
    }
    assert!(matches!(check_app_conflicts(&configs, 1), AppConflicts::NONE));
}

#[test]
fn app_error_builds_identifier() {
    let id = app_error(7, -3, "went wrong".to_string());
    assert_eq!(id.index, 7);
    match id.status {
        VORAppStatus::AppError(e) => {
            assert_eq!(e.id, -3);
            assert_eq!(e.msg, "went wrong");
        }
        _ => panic!("expected an error status"),
    }
}

#[test]
fn version_parse_reads_release_tags() {
    let v = parse_vor_version_from_str("0.3.3-beta-linux").expect("valid tag");
    assert_eq!(v.version_str, "0.3.3");
    assert_eq!((v.major, v.minor, v.patch), (0, 3, 3));

    let v = parse_vor_version_from_str("1.2.3").expect("plain triple");
    assert_eq!(v.version_str, "1.2.3");
    assert_eq!((v.major, v.minor, v.patch), (1, 2, 3));

    let v = parse_vor_version_from_str("10.0.0-rc").expect("leading component only");
    assert_eq!((v.major, v.minor, v.patch), (10, 0, 0));

    assert!(parse_vor_version_from_str("0.0.0").is_none());
    assert!(parse_vor_version_from_str("1.2").is_none());
    assert!(parse_vor_version_from_str("x.y.z").is_none());
    assert!(parse_vor_version_from_str("nonsense").is_none());

    let v = parse_vor_version_from_str("1.x.0-beta").expect("unreadable parts read as zero");
    assert_eq!((v.major, v.minor, v.patch), (1, 0, 0));
}
