use std::cell::RefCell;

use maker_dashboard::maker_manager::{
    ping_result, BackendSettings, ChainNetwork, F64Bits, MakerBackend, MakerConfig, MakerIo,
    MakerManager, MakerManagerError, MakerState, PingReply, ProcessPoll, RuntimeBackend,
    DEFAULT_FEE_RATE_BITS, ELECTRUM_URL,
};

fn describe(op: &MakerIo) -> String {
    match op {
        MakerIo::Prepare { id: _, config, create_dir } => format!(
            "prepare {} {}",
            config.data_directory.clone().unwrap_or_default(),
            create_dir
        ),
        MakerIo::Launch { plan } => format!("launch {} {}", plan.id, plan.wallet_name),
        MakerIo::StartServer { id } => format!("start {id}"),
        MakerIo::StopServer { id } => format!("stop {id}"),
        MakerIo::RemoveFromPool { id } => format!("remove {id}"),
        MakerIo::UnregisterLogs { id } => format!("unregister {id}"),
    }
}

/// Asks the registry whether bitcoind may start, "spawns" it into
/// `spawned` when it may, and records it.
fn start_bitcoind_with(
    manager: &mut MakerManager,
    network: &str,
    poll: ProcessPoll,
    spawned: &RefCell<Vec<String>>,
) -> Result<(), String> {
    let network = network.to_string();
    manager.start_bitcoind(&network, poll)?;
    spawned.borrow_mut().push(network.clone());
    manager.bitcoind_started(network);
    Ok(())
}

fn empty_manager() -> MakerManager {
    MakerManager::from_discovered("/dash".to_string(), Vec::new())
}

fn electrum() -> RuntimeBackend {
    RuntimeBackend::default()
}

fn bitcoind_backend(rpc: &str) -> RuntimeBackend {
    RuntimeBackend { kind: MakerBackend::Bitcoind, rpc: rpc.to_string(), ..RuntimeBackend::default() }
}

#[test]
fn normalize_wallet_name_defaults_to_maker_id() {
    assert_eq!(
        MakerManager::normalize_wallet_name(&"maker101".to_string(), None),
        Some("maker101".to_string())
    );
    assert_eq!(
        MakerManager::normalize_wallet_name(&"maker101".to_string(), Some("".to_string())),
        Some("maker101".to_string())
    );
    assert_eq!(
        MakerManager::normalize_wallet_name(
            &"maker101".to_string(),
            Some(" maker-wallet ".to_string())
        ),
        Some("maker101".to_string())
    );
}

#[test]
fn normalize_wallet_name_preserves_custom_values() {
    assert_eq!(
        MakerManager::normalize_wallet_name(
            &"maker101".to_string(),
            Some("custom-wallet".to_string())
        ),
        Some("custom-wallet".to_string())
    );
}

#[test]
fn normalize_config_updates_wallet_name() {
    let config = MakerConfig { wallet_name: Some("random".to_string()), ..MakerConfig::default() };

    let normalized = MakerManager::normalize_config(&"maker101".to_string(), config);
    assert_eq!(normalized.wallet_name.as_deref(), Some("maker101"));
}

#[test]
fn normalize_trims_custom_names_and_is_stable() {
    let id = "m".to_string();
    let once = MakerManager::normalize_wallet_name(&id, Some("  savings ".to_string()));
    assert_eq!(once.as_deref(), Some("savings"));
    let twice = MakerManager::normalize_wallet_name(&id, once.clone());
    assert_eq!(twice, once);
    assert_eq!(MakerManager::normalize_wallet_name(&id, Some("\t".to_string())).as_deref(), Some("m"));
}

#[test]
fn assign_available_maker_ports_skips_taken_local_ports() {
    let manager = empty_manager();
    // Two local ports held by other listeners: the probe reports them taken.
    let requested_network_port: u16 = 41000;
    let requested_rpc_port: u16 = 41001;
    let taken = [requested_network_port, requested_rpc_port];

    let available = |port: u16| !taken.contains(&port);
    let (network_port, rpc_port) = manager
        .assign_available_maker_ports(
            requested_network_port,
            requested_rpc_port,
            9050,
            9051,
            None,
            &available,
        )
        .unwrap();

    assert_ne!(network_port, requested_network_port);
    assert_ne!(rpc_port, requested_rpc_port);
    assert_ne!(network_port, rpc_port);
    assert_ne!(network_port, 9050);
    assert_ne!(network_port, 9051);
    assert_ne!(rpc_port, 9050);
    assert_ne!(rpc_port, 9051);
}

#[test]
fn assigned_ports_avoid_registered_makers_and_tor_ports() {
    let mut manager = empty_manager();
    manager.insert_config_for_testing("a".to_string(), MakerConfig::default());
    let all_free = |_p: u16| true;
    // 6102/6103 belong to maker "a"; 6104 is the socks port here.
    let (n, r) = manager.assign_available_maker_ports(6102, 6102, 6104, 9051, None, &all_free).unwrap();
    assert_eq!((n, r), (6105, 6106));
    // Excluding "a" itself frees its own ports.
    let (n, r) = manager.assign_available_maker_ports(6102, 6102, 9050, 9051, Some("a"), &all_free).unwrap();
    assert_eq!((n, r), (6102, 6103));
}

#[test]
fn port_search_reports_exhaustion() {
    let manager = empty_manager();
    let none_free = |_p: u16| false;
    assert_eq!(
        manager.find_available_port(65530, None, &[], &none_free),
        Err("Failed to find an available port starting from 65530".to_string())
    );
    let only_last = |p: u16| p == 65535;
    assert_eq!(manager.find_available_port(65530, None, &[], &only_last), Ok(65535));
}

#[test]
fn port_in_use_checks_network_and_rpc_ports() {
    let mut manager = empty_manager();
    manager.insert_config_for_testing(
        "a".to_string(),
        MakerConfig { network_port: 7000, rpc_port: 7001, ..MakerConfig::default() },
    );
    assert!(manager.is_port_in_use(7000, None));
    assert!(manager.is_port_in_use(7001, None));
    assert!(!manager.is_port_in_use(7002, None));
    assert!(!manager.is_port_in_use(7000, Some("a")));
    assert!(manager.is_port_in_use(7000, Some("b")));
}

#[test]
fn list_makers_returns_empty_array() {
    let manager = empty_manager();
    assert!(manager.list_makers().is_empty());
}

#[test]
fn maker_count_is_zero_initially() {
    let manager = empty_manager();
    assert_eq!(manager.maker_count(), 0);
}

#[test]
fn discovered_makers_are_registered_stopped() {
    let discovered = vec![
        ("m1".to_string(), MakerConfig { base_fee: 1, ..MakerConfig::default() }),
        ("m2".to_string(), MakerConfig::default()),
        ("m1".to_string(), MakerConfig { base_fee: 2, ..MakerConfig::default() }),
    ];
    let manager = MakerManager::from_discovered("/dash".to_string(), discovered);
    assert_eq!(manager.maker_count(), 2);
    assert_eq!(manager.get_config("m1").unwrap().base_fee, 2);
    assert!(manager.has_maker("m2"));
    assert!(!manager.is_server_running("m1"));
    assert!(manager.backend().is_none());
    let mut ids = manager.list_makers();
    ids.sort();
    assert_eq!(ids, vec!["m1".to_string(), "m2".to_string()]);
}

#[test]
fn create_without_backend_set_fails() {
    let mut manager = empty_manager();
    let log = RefCell::new(Vec::new());
    let io = |op: MakerIo| -> Result<(), String> {
        log.borrow_mut().push(describe(&op));
        Ok(())
    };
    let err = manager.create_maker("test".to_string(), MakerConfig::default(), &io).unwrap_err();
    assert!(err.contains("Backend is not configured"));
    // config.toml is still written first, in the default data dir
    assert_eq!(log.borrow().as_slice(), &["prepare /dash/test true".to_string()]);
    assert_eq!(manager.maker_count(), 0);
    assert!(manager.list_makers().is_empty());
}

#[test]
fn create_with_electrum_backend_registers_initialised_maker() {
    let mut manager = empty_manager();
    let plans = RefCell::new(Vec::new());
    let io = |op: MakerIo| -> Result<(), String> {
        if let MakerIo::Launch { plan } = &op {
            let url = match &plan.backend {
                BackendSettings::Electrum { url } => url.clone(),
                BackendSettings::CoreRpc { url, .. } => url.clone(),
            };
            plans.borrow_mut().push((plan.id.clone(), plan.wallet_name.clone(), url, plan.network));
        }
        Ok(())
    };
    manager.set_backend(electrum(), &io);
    manager.create_maker("test".to_string(), MakerConfig::default(), &io).unwrap();
    assert_eq!(
        plans.borrow().as_slice(),
        &[("test".to_string(), "test".to_string(), ELECTRUM_URL.to_string(), ChainNetwork::Signet)]
    );
    let info = manager.get_maker_info(&"test".to_string()).unwrap();
    assert_eq!(info.state, MakerState::Stopped);
    assert_eq!(info.config.data_directory.as_deref(), Some("/dash/test"));
    assert_eq!(info.config.wallet_name.as_deref(), Some("test"));
}

#[test]
fn list_and_count_stay_empty_after_failed_create() {
    let mut manager = empty_manager();
    let io = |op: MakerIo| -> Result<(), String> {
        match op {
            MakerIo::Launch { .. } => Err("node unreachable".to_string()),
            _ => Ok(()),
        }
    };
    manager.set_backend(bitcoind_backend("127.0.0.1:19998"), &io);
    let err = manager.create_maker("fail".to_string(), MakerConfig::default(), &io).unwrap_err();
    assert_eq!(err, "node unreachable");
    assert!(manager.list_makers().is_empty());
    assert_eq!(manager.maker_count(), 0);
}

#[test]
fn bitcoind_backend_gives_core_rpc_settings() {
    let mut manager = empty_manager();
    let seen = RefCell::new(None);
    let io = |op: MakerIo| -> Result<(), String> {
        if let MakerIo::Launch { plan } = op {
            *seen.borrow_mut() = Some(plan);
        }
        Ok(())
    };
    manager.set_backend(bitcoind_backend("127.0.0.1:18443"), &io);
    let config = MakerConfig { wallet_name: Some(" hot ".to_string()), ..MakerConfig::default() };
    manager.create_maker("m".to_string(), config, &io).unwrap();
    let plan = seen.borrow_mut().take().unwrap();
    assert_eq!(plan.network, ChainNetwork::Regtest);
    match plan.backend {
        BackendSettings::CoreRpc { url, rpc_user, rpc_password, wallet_name, zmq_addr } => {
            assert_eq!(url, "127.0.0.1:18443");
            assert_eq!(rpc_user, "user");
            assert_eq!(rpc_password, "password");
            assert_eq!(wallet_name, "hot");
            assert_eq!(zmq_addr, "tcp://127.0.0.1:28332");
        }
        BackendSettings::Electrum { .. } => panic!("expected Core RPC settings"),
    }
}

#[test]
fn infer_network_follows_bitcoind_then_rpc_port() {
    let mut manager = empty_manager();
    assert_eq!(manager.infer_network(), ChainNetwork::Signet);
    let io = |_op: MakerIo| -> Result<(), String> { Ok(()) };
    for (rpc, net) in [
        ("127.0.0.1:18443", ChainNetwork::Regtest),
        ("127.0.0.1:38332", ChainNetwork::Signet),
        ("127.0.0.1:18332", ChainNetwork::Testnet),
        ("127.0.0.1:8332", ChainNetwork::Bitcoin),
        ("127.0.0.1:1234", ChainNetwork::Signet),
        ("localhost", ChainNetwork::Signet),
    ] {
        manager.set_backend(bitcoind_backend(rpc), &io);
        assert_eq!(manager.infer_network(), net, "rpc {rpc}");
    }
    let spawned = RefCell::new(Vec::new());
    start_bitcoind_with(&mut manager, "regtest", ProcessPoll::StillRunning, &spawned).unwrap();
    assert_eq!(manager.infer_network(), ChainNetwork::Regtest);
}

#[test]
fn start_and_stop_follow_the_running_state() {
    let mut manager = empty_manager();
    let log = RefCell::new(Vec::new());
    let io = |op: MakerIo| -> Result<(), String> {
        log.borrow_mut().push(describe(&op));
        Ok(())
    };
    manager.set_backend(electrum(), &io);
    manager.create_maker("m".to_string(), MakerConfig::default(), &io).unwrap();
    let id = "m".to_string();
    assert_eq!(manager.stop_maker(&id, &io).unwrap_err().message(), "Maker 'm' is already stopped");
    manager.start_maker(&id, &io).unwrap();
    assert!(manager.is_server_running("m"));
    assert_eq!(manager.get_maker_info(&id).unwrap().state, MakerState::Running);
    assert_eq!(manager.start_maker(&id, &io).unwrap_err().message(), "Maker 'm' is already running");
    manager.stop_maker(&id, &io).unwrap();
    assert!(!manager.is_server_running("m"));
    assert_eq!(
        log.borrow().as_slice(),
        &["prepare /dash/m true".to_string(), "launch m m".to_string(), "start m".to_string(), "stop m".to_string()]
    );
}

#[test]
fn start_initialises_a_maker_without_server_object() {
    let mut manager = empty_manager();
    manager.insert_config_for_testing("m".to_string(), MakerConfig::default());
    let log = RefCell::new(Vec::new());
    let io = |op: MakerIo| -> Result<(), String> {
        log.borrow_mut().push(describe(&op));
        Ok(())
    };
    manager.set_backend(electrum(), &io);
    assert!(manager.is_server_running("m"));
    assert_eq!(
        log.borrow().as_slice(),
        &["prepare /dash/m true".to_string(), "launch m m".to_string(), "start m".to_string()]
    );
}

#[test]
fn auto_start_leaves_failing_makers_stopped() {
    let discovered = vec![
        ("good".to_string(), MakerConfig::default()),
        ("locked".to_string(), MakerConfig::default()),
        ("nostart".to_string(), MakerConfig::default()),
    ];
    let mut manager = MakerManager::from_discovered("/dash".to_string(), discovered);
    let io = |op: MakerIo| -> Result<(), String> {
        match &op {
            MakerIo::Launch { plan } if plan.id == "locked" => Err("wallet needs a password".to_string()),
            MakerIo::StartServer { id } if id == "nostart" => Err("port busy".to_string()),
            _ => Ok(()),
        }
    };
    let before = RefCell::new(0);
    let counting = |op: MakerIo| -> Result<(), String> {
        *before.borrow_mut() += 1;
        io(op)
    };
    manager.retry_stopped_makers(&counting);
    assert_eq!(*before.borrow(), 0, "no backend yet: nothing happens");
    manager.set_backend(electrum(), &io);
    assert_eq!(manager.maker_count(), 3);
    assert!(manager.is_server_running("good"));
    assert!(!manager.is_server_running("locked"));
    assert!(!manager.is_server_running("nostart"));
    assert_eq!(manager.get_maker_info(&"locked".to_string()).unwrap().state, MakerState::Stopped);
}

#[test]
fn unknown_maker_operations_are_not_found() {
    let mut manager = empty_manager();
    let log = RefCell::new(Vec::new());
    let io = |op: MakerIo| -> Result<(), String> {
        log.borrow_mut().push(describe(&op));
        Ok(())
    };
    let id = "unknown".to_string();
    for err in [
        manager.start_maker(&id, &io).unwrap_err(),
        manager.stop_maker(&id, &io).unwrap_err(),
        manager.restart_maker(&id, &io).unwrap_err(),
    ] {
        assert!(matches!(err, MakerManagerError::NotFound(ref x) if x == "unknown"));
        assert_eq!(err.message(), "Maker 'unknown' not found");
    }
    assert!(manager.get_maker_info(&id).is_none());
    assert!(manager.get_config("unknown").is_none());
    assert!(manager.get_maker_config("unknown").is_none());
    assert_eq!(
        manager.update_config(&id, MakerConfig::default(), &io).unwrap_err(),
        "Maker with id 'unknown' not found"
    );
    assert!(log.borrow().is_empty(), "nothing is asked of the world for an unknown maker");
    assert_eq!(manager.maker_count(), 0);
    assert!(!manager.remove_maker(&id, &io));
    assert_eq!(log.borrow().as_slice(), &["remove unknown".to_string(), "unregister unknown".to_string()]);
}

#[test]
fn error_messages_read_as_displayed() {
    assert_eq!(MakerManagerError::NotFound("a".to_string()).message(), "Maker 'a' not found");
    assert_eq!(MakerManagerError::AlreadyRunning("a".to_string()).message(), "Maker 'a' is already running");
    assert_eq!(MakerManagerError::AlreadyStopped("a".to_string()).message(), "Maker 'a' is already stopped");
    assert_eq!(MakerManagerError::Other("boom".to_string()).message(), "boom");
}

#[test]
fn remove_maker_forgets_it() {
    let mut manager = empty_manager();
    manager.insert_config_for_testing("m".to_string(), MakerConfig::default());
    let log = RefCell::new(Vec::new());
    let io = |op: MakerIo| -> Result<(), String> {
        log.borrow_mut().push(describe(&op));
        Ok(())
    };
    assert!(manager.remove_maker(&"m".to_string(), &io));
    assert!(!manager.has_maker("m"));
    assert_eq!(manager.maker_count(), 0);
    assert_eq!(log.borrow().as_slice(), &["remove m".to_string(), "unregister m".to_string()]);
}

#[test]
fn restart_recreates_and_starts() {
    let mut manager = empty_manager();
    let log = RefCell::new(Vec::new());
    let io = |op: MakerIo| -> Result<(), String> {
        log.borrow_mut().push(describe(&op));
        Ok(())
    };
    manager.set_backend(electrum(), &io);
    let id = "m".to_string();
    manager.create_maker(id.clone(), MakerConfig::default(), &io).unwrap();
    manager.start_maker(&id, &io).unwrap();
    log.borrow_mut().clear();
    manager.restart_maker(&id, &io).unwrap();
    assert!(manager.is_server_running("m"));
    assert_eq!(
        log.borrow().as_slice(),
        &[
            "stop m".to_string(),
            "remove m".to_string(),
            "prepare /dash/m false".to_string(),
            "launch m m".to_string(),
            "start m".to_string()
        ]
    );
}

#[test]
fn restart_reports_failed_reinit_and_leaves_maker_registered() {
    let mut manager = empty_manager();
    let ok = |_op: MakerIo| -> Result<(), String> { Ok(()) };
    manager.set_backend(electrum(), &ok);
    let id = "m".to_string();
    manager.create_maker(id.clone(), MakerConfig::default(), &ok).unwrap();
    let fail_launch = |op: MakerIo| -> Result<(), String> {
        match op {
            MakerIo::Launch { .. } => Err("init failed".to_string()),
            _ => Ok(()),
        }
    };
    let err = manager.restart_maker(&id, &fail_launch).unwrap_err();
    assert!(matches!(err, MakerManagerError::Other(ref e) if e == "init failed"));
    assert!(manager.has_maker("m"));
    assert!(!manager.is_server_running("m"));
}

#[test]
fn update_config_reinitialises_and_restarts() {
    let mut manager = empty_manager();
    let ok = |_op: MakerIo| -> Result<(), String> { Ok(()) };
    manager.set_backend(electrum(), &ok);
    let id = "m".to_string();
    manager.create_maker(id.clone(), MakerConfig::default(), &ok).unwrap();
    manager.start_maker(&id, &ok).unwrap();
    let new = MakerConfig { base_fee: 5000, wallet_name: Some("maker-wallet".to_string()), ..MakerConfig::default() };
    manager.update_config(&id, new, &ok).unwrap();
    let c = manager.get_config("m").unwrap();
    assert_eq!(c.base_fee, 5000);
    assert_eq!(c.wallet_name.as_deref(), Some("m"));
    assert!(manager.is_server_running("m"));
}

#[test]
fn update_config_rolls_back_to_previous_config() {
    let mut manager = empty_manager();
    let ok = |_op: MakerIo| -> Result<(), String> { Ok(()) };
    manager.set_backend(electrum(), &ok);
    let id = "m".to_string();
    manager.create_maker(id.clone(), MakerConfig::default(), &ok).unwrap();
    let reject_new = |op: MakerIo| -> Result<(), String> {
        match op {
            MakerIo::Launch { plan } if plan.config.base_fee == 9999 => Err("bad fee".to_string()),
            _ => Ok(()),
        }
    };
    let new = MakerConfig { base_fee: 9999, ..MakerConfig::default() };
    assert_eq!(manager.update_config(&id, new, &reject_new).unwrap_err(), "bad fee");
    assert_eq!(manager.get_config("m").unwrap().base_fee, 1000);
    assert!(manager.has_maker("m"));
}

#[test]
fn update_config_reports_failed_rollback() {
    let mut manager = empty_manager();
    let ok = |_op: MakerIo| -> Result<(), String> { Ok(()) };
    manager.set_backend(electrum(), &ok);
    let id = "m".to_string();
    manager.create_maker(id.clone(), MakerConfig::default(), &ok).unwrap();
    let reject_all = |op: MakerIo| -> Result<(), String> {
        match op {
            MakerIo::Launch { plan } => Err(format!("fee {}", plan.config.base_fee)),
            _ => Ok(()),
        }
    };
    let new = MakerConfig { base_fee: 9999, ..MakerConfig::default() };
    assert_eq!(
        manager.update_config(&id, new, &reject_all).unwrap_err(),
        "Failed to update maker 'm': fee 9999; rollback also failed: fee 1000"
    );
    assert!(!manager.has_maker("m"));
}

#[test]
fn log_file_path_uses_data_dir_or_default() {
    let mut manager = empty_manager();
    manager.insert_config_for_testing(
        "a".to_string(),
        MakerConfig { data_directory: Some("/srv/a".to_string()), ..MakerConfig::default() },
    );
    manager.insert_config_for_testing("b".to_string(), MakerConfig::default());
    assert_eq!(manager.log_file_path("a"), "/srv/a/debug.log");
    assert_eq!(manager.log_file_path("b"), "/dash/b/debug.log");
    assert_eq!(manager.log_file_path("zzz"), "/dash/zzz/debug.log");
    assert_eq!(manager.default_maker_data_dir("maker"), "/dash/maker");
}

#[test]
fn bitcoind_start_checks_network_and_running_process() {
    let mut manager = empty_manager();
    let running = || ProcessPoll::StillRunning;
    let unreadable = || ProcessPoll::Failed("no such process".to_string());
    let spawned = RefCell::new(Vec::new());
    assert_eq!(
        start_bitcoind_with(&mut manager, "mainnet", running(), &spawned),
        Err("Invalid network 'mainnet'. Must be 'regtest' or 'signet'.".to_string())
    );
    assert!(spawned.borrow().is_empty(), "an invalid network spawns nothing");
    assert_eq!(manager.bitcoind_status(ProcessPoll::Exited), (false, None));
    start_bitcoind_with(&mut manager, "signet", running(), &spawned).unwrap();
    assert_eq!(
        start_bitcoind_with(&mut manager, "regtest", running(), &spawned),
        Err("bitcoind is already running".to_string())
    );
    assert_eq!(
        start_bitcoind_with(&mut manager, "regtest", unreadable(), &spawned),
        Err("Failed to check bitcoind process status: no such process".to_string())
    );
    assert_eq!(manager.bitcoind_status(running()), (true, Some("signet".to_string())));
    assert_eq!(manager.bitcoind_status(unreadable()), (false, None));
    start_bitcoind_with(&mut manager, "regtest", ProcessPoll::Exited, &spawned).unwrap();
    assert_eq!(spawned.borrow().as_slice(), &["signet".to_string(), "regtest".to_string()]);
    assert_eq!(manager.bitcoind_status(ProcessPoll::Exited), (false, None));
    assert_eq!(manager.bitcoind_status(running()), (false, None));
    assert!(!manager.take_bitcoind());
    start_bitcoind_with(&mut manager, "regtest", running(), &spawned).unwrap();
    assert!(manager.take_bitcoind());
    assert_eq!(manager.bitcoind_status(running()), (false, None));
}

#[test]
fn backend_change_reinitialises_running_makers() {
    let mut manager = empty_manager();
    let log = RefCell::new(Vec::new());
    let io = |op: MakerIo| -> Result<(), String> {
        let line = match &op {
            MakerIo::Launch { plan } => match &plan.backend {
                BackendSettings::Electrum { url } => format!("launch {} {url}", plan.id),
                BackendSettings::CoreRpc { url, .. } => format!("launch {} {url}", plan.id),
            },
            other => describe(other),
        };
        log.borrow_mut().push(line);
        Ok(())
    };
    manager.set_backend(electrum(), &io);
    manager.create_maker("m".to_string(), MakerConfig::default(), &io).unwrap();
    manager.start_maker(&"m".to_string(), &io).unwrap();
    log.borrow_mut().clear();
    manager.set_backend(bitcoind_backend("127.0.0.1:18443"), &io);
    assert_eq!(
        log.borrow().as_slice(),
        &[
            "stop m".to_string(),
            "remove m".to_string(),
            "prepare /dash/m false".to_string(),
            "launch m 127.0.0.1:18443".to_string(),
            "start m".to_string(),
        ]
    );
    assert!(manager.is_server_running("m"));
    assert_eq!(manager.maker_count(), 1);
    assert_eq!(manager.backend().unwrap().rpc, "127.0.0.1:18443");
}

#[test]
fn ping_reply_outcomes() {
    assert_eq!(ping_result(PingReply::Pong), Ok(()));
    assert_eq!(ping_result(PingReply::ServerError("down".to_string())), Err("down".to_string()));
    assert_eq!(ping_result(PingReply::Unexpected), Err("Unexpected response".to_string()));
}

#[test]
fn default_config_and_backend_values() {
    let c = MakerConfig::default();
    assert_eq!((c.network_port, c.rpc_port, c.socks_port, c.control_port), (6102, 6103, 9050, 9051));
    assert_eq!((c.min_swap_amount, c.fidelity_amount, c.fidelity_timelock), (10000, 10000, 15000));
    assert_eq!((c.required_confirms, c.base_fee), (1, 1000));
    assert_eq!(c.fidelity_feerate, F64Bits { bits: DEFAULT_FEE_RATE_BITS });
    assert_eq!(f64::from_bits(c.fidelity_feerate.bits), 2.0);
    assert_eq!(f64::from_bits(c.amount_relative_fee_pct.bits), 0.0025);
    assert_eq!(f64::from_bits(c.time_relative_fee_pct.bits), 0.0001);
    assert!(c.data_directory.is_none() && c.tor_auth.is_none() && c.wallet_name.is_none());
    let b = RuntimeBackend::default();
    assert_eq!(b.kind, MakerBackend::Electrum);
    assert_eq!(b.rpc, "127.0.0.1:38332");
    assert_eq!(b.zmq, "tcp://127.0.0.1:28332");
    assert_eq!(b.rpc_user, "user");
    assert_eq!(b.rpc_password, "password");
    assert_eq!(b.electrum_url, "ssl://electrum.citadelfoss.xyz:50002");
}
