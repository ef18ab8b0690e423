use maker_dashboard::api::backend::{backend_info, runtime_backend_from_request, CREDENTIALS_REQUIRED};
use maker_dashboard::api::dto::{
    ApiResponse, MakerInfoDetailed, MakerStateDto, SetBackendRequest, UpdateMakerConfigRequest,
};
use maker_dashboard::maker_manager::{
    F64Bits, MakerBackend, MakerConfig, MakerInfo, MakerState, RuntimeBackend, ELECTRUM_URL,
};
use maker_dashboard::utils::{data_dir_for_home, default_data_dir};

fn empty_update() -> UpdateMakerConfigRequest {
    UpdateMakerConfigRequest {
        tor_auth: None,
        wallet_name: None,
        password: None,
        network_port: None,
        rpc_port: None,
        socks_port: None,
        control_port: None,
        min_swap_amount: None,
        fidelity_amount: None,
        fidelity_timelock: None,
        fidelity_feerate: None,
        required_confirms: None,
        base_fee: None,
        amount_relative_fee_pct: None,
        time_relative_fee_pct: None,
    }
}

fn backend_request(kind: MakerBackend) -> SetBackendRequest {
    SetBackendRequest { kind, rpc: None, zmq: None, rpc_user: None, rpc_password: None, electrum_url: None }
}

#[test]
fn backend_is_unconfigured_initially() {
    let info = backend_info(None);
    assert!(!info.configured);
    assert!(info.kind.is_none() && info.rpc.is_none() && info.zmq.is_none());
    assert!(info.rpc_user.is_none() && info.electrum_url.is_none());
}

#[test]
fn set_backend_bitcoind_requires_both_credentials() {
    let mut req = backend_request(MakerBackend::Bitcoind);
    req.rpc_user = Some("alice".to_string());
    let err = runtime_backend_from_request(req).unwrap_err();
    assert_eq!(err, "Both rpc_user and rpc_password must be provided for the bitcoind backend");
    assert_eq!(err, CREDENTIALS_REQUIRED);
    let mut req = backend_request(MakerBackend::Bitcoind);
    req.rpc_password = Some("pw".to_string());
    assert!(runtime_backend_from_request(req).is_err());
}

#[test]
fn set_backend_electrum_succeeds_and_hides_nothing_sensitive() {
    let backend = runtime_backend_from_request(backend_request(MakerBackend::Electrum)).unwrap();
    assert_eq!(backend.kind, MakerBackend::Electrum);
    assert_eq!(backend.electrum_url, ELECTRUM_URL);
    let info = backend_info(Some(&backend));
    assert!(info.configured);
    assert_eq!(info.kind, Some(MakerBackend::Electrum));
    assert_eq!(info.rpc.as_deref(), Some("127.0.0.1:38332"));
    assert_eq!(info.rpc_user.as_deref(), Some("user"));
}

#[test]
fn bitcoind_backend_keeps_given_fields() {
    let req = SetBackendRequest {
        kind: MakerBackend::Bitcoind,
        rpc: Some("10.0.0.2:8332".to_string()),
        zmq: None,
        rpc_user: Some("alice".to_string()),
        rpc_password: Some("pass".to_string()),
        electrum_url: None,
    };
    let b = runtime_backend_from_request(req).unwrap();
    assert_eq!(b.rpc, "10.0.0.2:8332");
    assert_eq!(b.zmq, "tcp://127.0.0.1:28332");
    assert_eq!(b.rpc_user, "alice");
    assert_eq!(b.rpc_password, "pass");
    let info = backend_info(Some(&b));
    assert_eq!(info.zmq.as_deref(), Some("tcp://127.0.0.1:28332"));
    assert_eq!(info.electrum_url.as_deref(), Some(ELECTRUM_URL));
}

#[test]
fn apply_to_overrides_only_given_fields() {
    let base = MakerConfig {
        data_directory: Some("/d".to_string()),
        tor_auth: Some("t".to_string()),
        ..MakerConfig::default()
    };
    let kept = empty_update().apply_to(base.clone());
    assert_eq!(kept.data_directory.as_deref(), Some("/d"));
    assert_eq!(kept.tor_auth.as_deref(), Some("t"));
    assert_eq!(kept.base_fee, 1000);
    let mut update = empty_update();
    update.base_fee = Some(3000);
    update.wallet_name = Some("w".to_string());
    update.time_relative_fee_pct = Some(F64Bits { bits: 0.001f64.to_bits() });
    let merged = update.apply_to(base);
    assert_eq!(merged.base_fee, 3000);
    assert_eq!(merged.wallet_name.as_deref(), Some("w"));
    assert_eq!(merged.tor_auth.as_deref(), Some("t"));
    assert_eq!(merged.network_port, 6102);
    assert_eq!(f64::from_bits(merged.time_relative_fee_pct.bits), 0.001);
    assert_eq!(merged.data_directory.as_deref(), Some("/d"));
}

#[test]
fn api_response_envelopes() {
    let ok = ApiResponse::ok(5u32);
    assert!(ok.success && ok.data == Some(5) && ok.error.is_none());
    let err: ApiResponse<u32> = ApiResponse::err("nope".to_string());
    assert!(!err.success && err.data.is_none());
    assert_eq!(err.error.as_deref(), Some("nope"));
}

#[test]
fn maker_state_converts_to_dto() {
    assert_eq!(MakerStateDto::from(MakerState::Running), MakerStateDto::Running);
    assert_eq!(MakerStateDto::from(MakerState::Stopped), MakerStateDto::Stopped);
}

#[test]
fn detailed_info_shows_resolved_data_dir() {
    let info = MakerInfo {
        id: "m".to_string(),
        state: MakerState::Running,
        config: MakerConfig {
            data_directory: Some("./m".to_string()),
            wallet_name: Some("m".to_string()),
            ..MakerConfig::default()
        },
    };
    let d = MakerInfoDetailed::from_info(info, Some(Some("/abs/m".to_string())));
    assert_eq!(d.id, "m");
    assert_eq!(d.state, MakerStateDto::Running);
    assert_eq!(d.data_directory.as_deref(), Some("/abs/m"));
    assert_eq!(d.wallet_name.as_deref(), Some("m"));
    assert_eq!(d.network_port, 6102);
    let info = MakerInfo { id: "n".to_string(), state: MakerState::Stopped, config: MakerConfig::default() };
    let d = MakerInfoDetailed::from_info(info, Some(Some("/ignored".to_string())));
    assert_eq!(d.data_directory, None);
    let info = MakerInfo {
        id: "p".to_string(),
        state: MakerState::Stopped,
        config: MakerConfig { data_directory: Some("rel".to_string()), ..MakerConfig::default() },
    };
    assert_eq!(MakerInfoDetailed::from_info(info, None).data_directory.as_deref(), Some("rel"));
    let info = MakerInfo {
        id: "q".to_string(),
        state: MakerState::Stopped,
        config: MakerConfig { data_directory: Some("odd".to_string()), ..MakerConfig::default() },
    };
    assert_eq!(MakerInfoDetailed::from_info(info, Some(None)).data_directory, None);
}

#[test]
fn data_dir_is_dot_openswap_under_home() {
    assert_eq!(data_dir_for_home(Some("/home/alice".to_string())), "/home/alice/.openswap");
    assert_eq!(data_dir_for_home(None), "./.openswap");
    assert!(default_data_dir().ends_with("/.openswap"));
}

#[test]
fn runtime_backend_clone_is_equal() {
    let b = RuntimeBackend::default();
    let c = b.clone();
    assert_eq!(c.rpc, b.rpc);
    assert_eq!(c.kind, b.kind);
}

#[test]
fn applying_an_update_twice_equals_once() {
    let make = || {
        let mut u = empty_update();
        u.rpc_port = Some(7001);
        u.tor_auth = Some("auth".to_string());
        u
    };
    let once = make().apply_to(MakerConfig::default());
    let twice = make().apply_to(make().apply_to(MakerConfig::default()));
    assert_eq!((once.rpc_port, twice.rpc_port), (7001, 7001));
    assert_eq!(once.tor_auth, twice.tor_auth);
    assert_eq!(once.network_port, twice.network_port);
}
