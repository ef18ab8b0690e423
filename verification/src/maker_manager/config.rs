//! A maker's configuration, the runtime backend, and wallet-name
//! normalisation.
use vstd::prelude::*;
use vstd::string::StringExecFns;

use crate::text::{concat3, lemma_trim_idempotent, trim_spec};

verus! {

/// Default Electrum server makers use for chain data with the Electrum
/// backend.
pub const ELECTRUM_URL: &'static str = "ssl://electrum.citadelfoss.xyz:50002";

/// Default transaction fee rate (2.0 sat/vB) as IEEE-754 bits.
pub const DEFAULT_FEE_RATE_BITS: u64 = 0x4000000000000000u64;

/// A binary64 floating-point value carried by its bit pattern.  The library
/// never computes with these values; it stores and copies them.
#[derive(Clone, Copy, Debug, PartialEq, Eq, Structural)]
pub struct F64Bits {
    pub bits: u64,
}

/// Chain-data backend a maker uses.
#[derive(Clone, Copy, Debug, PartialEq, Eq, Structural)]
pub enum MakerBackend {
    /// Local Bitcoin Core node via RPC + ZMQ.
    Bitcoind,
    /// Electrum server; no local node needed.
    Electrum,
}

/// Returns an equal copy of an optional string.
pub fn clone_opt_string(o: &Option<String>) -> (r: Option<String>)
    ensures
        r == *o,
{
    match o {
        Some(s) => Some(s.clone()),
        None => None,
    }
}

pub open spec fn opt_view(o: Option<String>) -> Option<Seq<char>> {
    match o {
        Some(s) => Some(s@),
        None => None,
    }
}

/// The text of an optional string slice.
pub open spec fn opt_str_view(o: Option<&str>) -> Option<Seq<char>> {
    match o {
        Some(s) => Some(s@),
        None => None,
    }
}

/// Configuration of one maker.  The fee fields are binary64 values carried
/// by their bits.
#[derive(Debug)]
pub struct MakerConfig {
    /// Data directory. Default: `<dashboard data dir>/<id>`
    pub data_directory: Option<String>,
    /// Optional Tor authentication string
    pub tor_auth: Option<String>,
    /// Optional wallet name. Default: the maker id.
    pub wallet_name: Option<String>,
    pub network_port: u16,
    pub rpc_port: u16,
    pub socks_port: u16,
    pub control_port: u16,
    pub min_swap_amount: u64,
    pub fidelity_amount: u64,
    pub fidelity_timelock: u32,
    /// Fidelity bond transaction fee rate (sat/vB).
    pub fidelity_feerate: F64Bits,
    pub required_confirms: u32,
    pub base_fee: u64,
    pub amount_relative_fee_pct: F64Bits,
    pub time_relative_fee_pct: F64Bits,
}

/// The mathematical content of a `MakerConfig`.
pub struct MakerConfigView {
    pub data_directory: Option<Seq<char>>,
    pub tor_auth: Option<Seq<char>>,
    pub wallet_name: Option<Seq<char>>,
    pub network_port: u16,
    pub rpc_port: u16,
    pub socks_port: u16,
    pub control_port: u16,
    pub min_swap_amount: u64,
    pub fidelity_amount: u64,
    pub fidelity_timelock: u32,
    pub fidelity_feerate: u64,
    pub required_confirms: u32,
    pub base_fee: u64,
    pub amount_relative_fee_pct: u64,
    pub time_relative_fee_pct: u64,
}

impl View for MakerConfig {
    type V = MakerConfigView;

    open spec fn view(&self) -> MakerConfigView {
        MakerConfigView {
            data_directory: opt_view(self.data_directory),
            tor_auth: opt_view(self.tor_auth),
            wallet_name: opt_view(self.wallet_name),
            network_port: self.network_port,
            rpc_port: self.rpc_port,
            socks_port: self.socks_port,
            control_port: self.control_port,
            min_swap_amount: self.min_swap_amount,
            fidelity_amount: self.fidelity_amount,
            fidelity_timelock: self.fidelity_timelock,
            fidelity_feerate: self.fidelity_feerate.bits,
            required_confirms: self.required_confirms,
            base_fee: self.base_fee,
            amount_relative_fee_pct: self.amount_relative_fee_pct.bits,
            time_relative_fee_pct: self.time_relative_fee_pct.bits,
        }
    }
}

impl Clone for MakerConfig {
    fn clone(&self) -> (r: Self)
        ensures
            r == *self,
    {
        MakerConfig {
            data_directory: clone_opt_string(&self.data_directory),
            tor_auth: clone_opt_string(&self.tor_auth),
            wallet_name: clone_opt_string(&self.wallet_name),
            network_port: self.network_port,
            rpc_port: self.rpc_port,
            socks_port: self.socks_port,
            control_port: self.control_port,
            min_swap_amount: self.min_swap_amount,
            fidelity_amount: self.fidelity_amount,
            fidelity_timelock: self.fidelity_timelock,
            fidelity_feerate: self.fidelity_feerate,
            required_confirms: self.required_confirms,
            base_fee: self.base_fee,
            amount_relative_fee_pct: self.amount_relative_fee_pct,
            time_relative_fee_pct: self.time_relative_fee_pct,
        }
    }
}

/// The defaults of a new maker's configuration.
pub open spec fn default_config_view() -> MakerConfigView {
    MakerConfigView {
        data_directory: None,
        tor_auth: None,
        wallet_name: None,
        network_port: 6102,
        rpc_port: 6103,
        socks_port: 9050,
        control_port: 9051,
        min_swap_amount: 10000,
        fidelity_amount: 10000,
        fidelity_timelock: 15000,
        fidelity_feerate: DEFAULT_FEE_RATE_BITS,
        required_confirms: 1,
        base_fee: 1000,
        amount_relative_fee_pct: 0x3f647ae147ae147bu64,
        time_relative_fee_pct: 0x3f1a36e2eb1c432du64,
    }
}

impl Default for MakerConfig {
    /// Ports 6102/6103, Tor 9050/9051, 10000 sat minimum swap and fidelity
    /// amount, timelock 15000, fee rate 2.0, one confirmation, base fee 1000,
    /// relative fees 0.0025 and 0.0001.
    fn default() -> (r: Self)
        ensures
            r@ == default_config_view(),
    {
        MakerConfig {
            data_directory: None,
            tor_auth: None,
            wallet_name: None,
            network_port: 6102,
            rpc_port: 6103,
            socks_port: 9050,
            control_port: 9051,
            min_swap_amount: 10000,
            fidelity_amount: 10000,
            fidelity_timelock: 15000,
            fidelity_feerate: F64Bits { bits: DEFAULT_FEE_RATE_BITS },
            required_confirms: 1,
            base_fee: 1000,
            amount_relative_fee_pct: F64Bits { bits: 0x3f647ae147ae147bu64 },
            time_relative_fee_pct: F64Bits { bits: 0x3f1a36e2eb1c432du64 },
        }
    }
}


/// Chain-data backend chosen on the startup screen; held in memory only.
#[derive(Debug)]
pub struct RuntimeBackend {
    pub kind: MakerBackend,
    /// Bitcoin Core RPC address (bitcoind backend only)
    pub rpc: String,
    /// Bitcoin Core ZMQ address (bitcoind backend only)
    pub zmq: String,
    /// Bitcoin Core RPC username (bitcoind backend only)
    pub rpc_user: String,
    /// Bitcoin Core RPC password (bitcoind backend only)
    pub rpc_password: String,
    /// Electrum server URL (electrum backend only).
    pub electrum_url: String,
}

pub struct RuntimeBackendView {
    pub kind: MakerBackend,
    pub rpc: Seq<char>,
    pub zmq: Seq<char>,
    pub rpc_user: Seq<char>,
    pub rpc_password: Seq<char>,
    pub electrum_url: Seq<char>,
}

impl View for RuntimeBackend {
    type V = RuntimeBackendView;

    open spec fn view(&self) -> RuntimeBackendView {
        RuntimeBackendView {
            kind: self.kind,
            rpc: self.rpc@,
            zmq: self.zmq@,
            rpc_user: self.rpc_user@,
            rpc_password: self.rpc_password@,
            electrum_url: self.electrum_url@,
        }
    }
}

impl Clone for RuntimeBackend {
    fn clone(&self) -> (r: Self)
        ensures
            r == *self,
    {
        RuntimeBackend {
            kind: self.kind,
            rpc: self.rpc.clone(),
            zmq: self.zmq.clone(),
            rpc_user: self.rpc_user.clone(),
            rpc_password: self.rpc_password.clone(),
            electrum_url: self.electrum_url.clone(),
        }
    }
}

/// The startup screen's prefilled backend: Electrum at `ELECTRUM_URL`, and
/// for Bitcoin Core `127.0.0.1:38332`, `tcp://127.0.0.1:28332`, `user`,
/// `password`.
pub open spec fn default_backend_view() -> RuntimeBackendView {
    RuntimeBackendView {
        kind: MakerBackend::Electrum,
        rpc: "127.0.0.1:38332"@,
        zmq: "tcp://127.0.0.1:28332"@,
        rpc_user: "user"@,
        rpc_password: "password"@,
        electrum_url: ELECTRUM_URL@,
    }
}

impl Default for RuntimeBackend {
    fn default() -> (r: Self)
        ensures
            r@ == default_backend_view(),
    {
        RuntimeBackend {
            kind: MakerBackend::Electrum,
            rpc: String::from_str("127.0.0.1:38332"),
            zmq: String::from_str("tcp://127.0.0.1:28332"),
            rpc_user: String::from_str("user"),
            rpc_password: String::from_str("password"),
            electrum_url: String::from_str(ELECTRUM_URL),
        }
    }
}

/// Operational state of a maker
#[derive(Clone, Copy, Debug, PartialEq, Eq, Structural)]
pub enum MakerState {
    Running,
    Stopped,
}

/// Full information about a registered maker
#[derive(Debug)]
pub struct MakerInfo {
    pub id: String,
    pub state: MakerState,
    pub config: MakerConfig,
}

/// Errors of the maker lifecycle operations.
#[derive(Debug)]
pub enum MakerManagerError {
    NotFound(String),
    AlreadyRunning(String),
    AlreadyStopped(String),
    Other(String),
}

/// The text an error is shown with.
pub open spec fn error_text(e: MakerManagerError) -> Seq<char> {
    match e {
        MakerManagerError::NotFound(id) => "Maker '"@ + id@ + "' not found"@,
        MakerManagerError::AlreadyRunning(id) => "Maker '"@ + id@ + "' is already running"@,
        MakerManagerError::AlreadyStopped(id) => "Maker '"@ + id@ + "' is already stopped"@,
        MakerManagerError::Other(msg) => msg@,
    }
}

impl MakerManagerError {
    /// The text of the error (what the error's display shows).
    pub fn message(&self) -> (r: String)
        ensures
            r@ == error_text(*self),
    {
        match self {
            MakerManagerError::NotFound(id) => concat3("Maker '", id.as_str(), "' not found"),
            MakerManagerError::AlreadyRunning(id) => concat3(
                "Maker '",
                id.as_str(),
                "' is already running",
            ),
            MakerManagerError::AlreadyStopped(id) => concat3(
                "Maker '",
                id.as_str(),
                "' is already stopped",
            ),
            MakerManagerError::Other(msg) => msg.clone(),
        }
    }
}

/// The wallet name that makerd's old default names stand for.
pub const DEFAULT_WALLET_NAME: &'static str = "maker-wallet";

/// The wallet name older RPC setups used.
pub const LEGACY_RPC_WALLET_NAME: &'static str = "random";

/// The wallet name a maker ends up with: the trimmed given name, or the
/// maker id when none is given, it is blank, or it is one of the two
/// generic default names.
pub open spec fn normalized_wallet_name(id: Seq<char>, wallet_name: Option<Seq<char>>) -> Seq<
    char,
> {
    match wallet_name {
        None => id,
        Some(name) => {
            let t = trim_spec(name);
            if t.len() == 0 || t == DEFAULT_WALLET_NAME@ || t == LEGACY_RPC_WALLET_NAME@ {
                id
            } else {
                t
            }
        },
    }
}

/// `c` with its wallet name normalised for maker `id`.
pub open spec fn normalized_config(id: Seq<char>, c: MakerConfigView) -> MakerConfigView {
    MakerConfigView { wallet_name: Some(normalized_wallet_name(id, c.wallet_name)), ..c }
}


/// Normalising a configuration changes its wallet name only: every other
/// field, the Tor password and the data directory among them, is the one
/// given.
pub proof fn lemma_normalize_changes_only_wallet_name(id: Seq<char>, c: MakerConfigView)
    ensures
        normalized_config(id, c) == (MakerConfigView {
            wallet_name: normalized_config(id, c).wallet_name,
            ..c
        }),
        normalized_config(id, c).tor_auth == c.tor_auth,
        normalized_config(id, c).data_directory == c.data_directory,
        normalized_config(id, c).wallet_name is Some,
{
}

/// Normalising an already normalised wallet name changes nothing, for a
/// maker id without surrounding whitespace.
pub proof fn lemma_normalize_wallet_name_stable(id: Seq<char>, wallet_name: Option<Seq<char>>)
    requires
        trim_spec(id) == id,
    ensures
        normalized_wallet_name(id, Some(normalized_wallet_name(id, wallet_name)))
            == normalized_wallet_name(id, wallet_name),
{
    let n = normalized_wallet_name(id, wallet_name);
    if n != id {
        let t = trim_spec(wallet_name.unwrap());
        lemma_trim_idempotent(wallet_name.unwrap());
        assert(n == t);
    }
}

} // verus!
