use std::cell::RefCell;

use maker_dashboard::maker_manager::persistence::{
    config_from_core_fields, core_fields, is_reserved_dir_name, maker_config_toml_path,
    read_maker_toml, resolve_wallet_name, write_maker_toml, CoreConfigFields, PersistenceManager,
    ScannedEntry,
};
use maker_dashboard::maker_manager::{F64Bits, MakerConfig};

fn sample_config() -> MakerConfig {
    MakerConfig {
        data_directory: Some("/data/maker1".to_string()),
        tor_auth: Some("secret".to_string()),
        base_fee: 4200,
        fidelity_feerate: F64Bits { bits: 3.5f64.to_bits() },
        ..MakerConfig::default()
    }
}

#[test]
fn toml_path_is_config_toml_in_data_dir() {
    assert_eq!(maker_config_toml_path("/home/a/.openswap/maker"), "/home/a/.openswap/maker/config.toml");
    assert_eq!(maker_config_toml_path("rel"), "rel/config.toml");
}

#[test]
fn core_fields_round_trip_restores_config() {
    let config = sample_config();
    let fields = core_fields(&config);
    assert_eq!(fields.tor_auth_password, "secret");
    assert_eq!(fields.base_fee, 4200);
    assert_eq!(f64::from_bits(fields.fidelity_feerate.bits), 3.5);
    let back = config_from_core_fields(fields, "/data/maker1".to_string(), "maker1".to_string());
    assert_eq!(back.data_directory.as_deref(), Some("/data/maker1"));
    assert_eq!(back.tor_auth.as_deref(), Some("secret"));
    assert_eq!(back.wallet_name.as_deref(), Some("maker1"));
    assert_eq!(back.base_fee, 4200);
    assert_eq!(back.network_port, 6102);
    assert_eq!(back.fidelity_feerate, config.fidelity_feerate);
}

#[test]
fn empty_tor_password_reads_as_none() {
    let config = MakerConfig { tor_auth: None, ..MakerConfig::default() };
    let fields = core_fields(&config);
    assert_eq!(fields.tor_auth_password, "");
    let back = config_from_core_fields(fields, "d".to_string(), "w".to_string());
    assert_eq!(back.tor_auth, None);
}

#[test]
fn write_without_data_dir_writes_nothing() {
    let calls = RefCell::new(0);
    let write = |_p: String, _f: CoreConfigFields| -> Result<(), String> {
        *calls.borrow_mut() += 1;
        Ok(())
    };
    let config = MakerConfig::default();
    assert_eq!(write_maker_toml(&config, &write), Ok(()));
    assert_eq!(*calls.borrow(), 0);
}

#[test]
fn write_goes_to_config_toml_and_reports_its_path_on_failure() {
    let seen = RefCell::new(Vec::new());
    let write = |p: String, f: CoreConfigFields| -> Result<(), String> {
        seen.borrow_mut().push((p, f.base_fee));
        Ok(())
    };
    assert_eq!(write_maker_toml(&sample_config(), &write), Ok(()));
    assert_eq!(seen.borrow().as_slice(), &[("/data/maker1/config.toml".to_string(), 4200)]);

    let failing = |_p: String, _f: CoreConfigFields| -> Result<(), String> { Err("disk full".to_string()) };
    assert_eq!(
        write_maker_toml(&sample_config(), &failing),
        Err("Failed to write maker config file: /data/maker1/config.toml".to_string())
    );
}

#[test]
fn read_uses_wallet_entry_or_falls_back_to_id() {
    let read = |p: String| -> Result<CoreConfigFields, String> {
        assert_eq!(p, "/data/maker1/config.toml");
        Ok(core_fields(&MakerConfig { base_fee: 7777, ..MakerConfig::default() }))
    };
    let id = "maker1".to_string();
    let loaded = read_maker_toml(&id, "/data/maker1", None, &read).unwrap();
    assert_eq!(loaded.base_fee, 7777);
    assert_eq!(loaded.wallet_name.as_deref(), Some("maker1"));
    assert_eq!(loaded.data_directory.as_deref(), Some("/data/maker1"));
    let loaded = read_maker_toml(&id, "/data/maker1", Some("my-wallet".to_string()), &read).unwrap();
    assert_eq!(loaded.wallet_name.as_deref(), Some("my-wallet"));
}

#[test]
fn read_failure_names_the_file() {
    let read = |_p: String| -> Result<CoreConfigFields, String> { Err("bad toml".to_string()) };
    let id = "m".to_string();
    assert_eq!(
        read_maker_toml(&id, "/d/m", None, &read).unwrap_err(),
        "Failed to parse /d/m/config.toml: bad toml"
    );
}

#[test]
fn resolve_wallet_name_prefers_wallet_dir_entry() {
    let id = "maker7".to_string();
    assert_eq!(resolve_wallet_name(Some("w".to_string()), &id), "w");
    assert_eq!(resolve_wallet_name(None, &id), "maker7");
}

#[test]
fn reserved_dir_names_are_not_makers() {
    assert!(is_reserved_dir_name("tor"));
    assert!(is_reserved_dir_name("taker"));
    assert!(is_reserved_dir_name(".hidden"));
    assert!(!is_reserved_dir_name("maker1"));
    assert!(!is_reserved_dir_name("tors"));
}

fn entry(name: Option<&str>, is_dir: bool, has_config_toml: bool) -> ScannedEntry {
    ScannedEntry { name: name.map(str::to_string), is_dir, has_config_toml }
}

#[test]
fn discover_skips_non_makers_and_failed_loads() {
    let pm = PersistenceManager { config_dir: "/root/.openswap".to_string() };
    let entries = vec![
        entry(Some("maker1"), true, true),
        entry(Some("tor"), true, true),
        entry(Some(".cache"), true, true),
        entry(Some("auth.json"), false, false),
        entry(Some("empty"), true, false),
        entry(None, true, true),
        entry(Some("broken"), true, true),
        entry(Some("maker2"), true, true),
    ];
    let load = |id: String, dir: String| -> Result<MakerConfig, String> {
        assert_eq!(dir, format!("/root/.openswap/{id}"));
        if id == "broken" {
            Err("unreadable".to_string())
        } else {
            Ok(MakerConfig { data_directory: Some(dir), ..MakerConfig::default() })
        }
    };
    let found = pm.discover_makers(&entries, &load);
    let ids: Vec<&str> = found.iter().map(|(id, _)| id.as_str()).collect();
    assert_eq!(ids, vec!["maker1", "maker2"]);
    assert_eq!(found[1].1.data_directory.as_deref(), Some("/root/.openswap/maker2"));
}

#[test]
fn persistence_manager_reports_unusable_data_dir() {
    let ok = |_p: String| -> Result<(), String> { Ok(()) };
    let pm = PersistenceManager::new("/x".to_string(), &ok).unwrap();
    assert_eq!(pm.config_dir, "/x");
    let fail = |_p: String| -> Result<(), String> { Err("denied".to_string()) };
    assert_eq!(
        PersistenceManager::new("/x".to_string(), &fail).err(),
        Some("Failed to create dashboard data directory: /x".to_string())
    );
}
