//! Request and response shapes of the dashboard's HTTP API.
//!
//! Fee fields are binary64 values carried by their bits (`F64Bits`).
use vstd::prelude::*;

use crate::maker_manager::{
    opt_view, F64Bits, MakerBackend, MakerConfig, MakerConfigView,
    MakerInfo as ManagerMakerInfo, MakerState,
};

verus! {

/// Request body for `POST /api/makers`.  `password` is the wallet password:
/// used once to encrypt or open the wallet, never persisted.
#[derive(Debug)]
pub struct CreateMakerRequest {
    pub id: String,
    pub tor_auth: Option<String>,
    pub wallet_name: Option<String>,
    pub password: Option<String>,
    pub network_port: Option<u16>,
    pub rpc_port: Option<u16>,
    pub socks_port: Option<u16>,
    pub control_port: Option<u16>,
    pub min_swap_amount: Option<u64>,
    pub fidelity_amount: Option<u64>,
    pub fidelity_timelock: Option<u32>,
    pub fidelity_feerate: Option<F64Bits>,
    pub required_confirms: Option<u32>,
    pub base_fee: Option<u64>,
    pub amount_relative_fee_pct: Option<F64Bits>,
    pub time_relative_fee_pct: Option<F64Bits>,
}

/// Request body for `PUT /api/makers/{id}/config`.  `password` re-opens the
/// wallet during re-initialisation and is never stored.
#[derive(Debug)]
pub struct UpdateMakerConfigRequest {
    pub tor_auth: Option<String>,
    pub wallet_name: Option<String>,
    pub password: Option<String>,
    pub network_port: Option<u16>,
    pub rpc_port: Option<u16>,
    pub socks_port: Option<u16>,
    pub control_port: Option<u16>,
    pub min_swap_amount: Option<u64>,
    pub fidelity_amount: Option<u64>,
    pub fidelity_timelock: Option<u32>,
    pub fidelity_feerate: Option<F64Bits>,
    pub required_confirms: Option<u32>,
    pub base_fee: Option<u64>,
    pub amount_relative_fee_pct: Option<F64Bits>,
    pub time_relative_fee_pct: Option<F64Bits>,
}

pub struct UpdateMakerConfigRequestView {
    pub tor_auth: Option<Seq<char>>,
    pub wallet_name: Option<Seq<char>>,
    pub network_port: Option<u16>,
    pub rpc_port: Option<u16>,
    pub socks_port: Option<u16>,
    pub control_port: Option<u16>,
    pub min_swap_amount: Option<u64>,
    pub fidelity_amount: Option<u64>,
    pub fidelity_timelock: Option<u32>,
    pub fidelity_feerate: Option<u64>,
    pub required_confirms: Option<u32>,
    pub base_fee: Option<u64>,
    pub amount_relative_fee_pct: Option<u64>,
    pub time_relative_fee_pct: Option<u64>,
}

pub open spec fn bits_view(o: Option<F64Bits>) -> Option<u64> {
    match o {
        Some(b) => Some(b.bits),
        None => None,
    }
}

impl View for UpdateMakerConfigRequest {
    type V = UpdateMakerConfigRequestView;

    open spec fn view(&self) -> UpdateMakerConfigRequestView {
        UpdateMakerConfigRequestView {
            tor_auth: opt_view(self.tor_auth),
            wallet_name: opt_view(self.wallet_name),
            network_port: self.network_port,
            rpc_port: self.rpc_port,
            socks_port: self.socks_port,
            control_port: self.control_port,
            min_swap_amount: self.min_swap_amount,
            fidelity_amount: self.fidelity_amount,
            fidelity_timelock: self.fidelity_timelock,
            fidelity_feerate: bits_view(self.fidelity_feerate),
            required_confirms: self.required_confirms,
            base_fee: self.base_fee,
            amount_relative_fee_pct: bits_view(self.amount_relative_fee_pct),
            time_relative_fee_pct: bits_view(self.time_relative_fee_pct),
        }
    }
}

pub open spec fn first_of<T>(a: Option<T>, b: Option<T>) -> Option<T> {
    match a {
        Some(x) => Some(x),
        None => b,
    }
}

pub open spec fn given_or<T>(a: Option<T>, d: T) -> T {
    match a {
        Some(x) => x,
        None => d,
    }
}

/// `base` with every field the request provides replaced; the data
/// directory always stays.
pub open spec fn applied_update(u: UpdateMakerConfigRequestView, base: MakerConfigView) -> MakerConfigView {
    MakerConfigView {
        data_directory: base.data_directory,
        tor_auth: first_of(u.tor_auth, base.tor_auth),
        wallet_name: first_of(u.wallet_name, base.wallet_name),
        network_port: given_or(u.network_port, base.network_port),
        rpc_port: given_or(u.rpc_port, base.rpc_port),
        socks_port: given_or(u.socks_port, base.socks_port),
        control_port: given_or(u.control_port, base.control_port),
        min_swap_amount: given_or(u.min_swap_amount, base.min_swap_amount),
        fidelity_amount: given_or(u.fidelity_amount, base.fidelity_amount),
        fidelity_timelock: given_or(u.fidelity_timelock, base.fidelity_timelock),
        fidelity_feerate: given_or(u.fidelity_feerate, base.fidelity_feerate),
        required_confirms: given_or(u.required_confirms, base.required_confirms),
        base_fee: given_or(u.base_fee, base.base_fee),
        amount_relative_fee_pct: given_or(u.amount_relative_fee_pct, base.amount_relative_fee_pct),
        time_relative_fee_pct: given_or(u.time_relative_fee_pct, base.time_relative_fee_pct),
    }
}

/// An update request that provides no field.
pub open spec fn empty_update(u: UpdateMakerConfigRequestView) -> bool {
    &&& u.tor_auth is None
    &&& u.wallet_name is None
    &&& u.network_port is None
    &&& u.rpc_port is None
    &&& u.socks_port is None
    &&& u.control_port is None
    &&& u.min_swap_amount is None
    &&& u.fidelity_amount is None
    &&& u.fidelity_timelock is None
    &&& u.fidelity_feerate is None
    &&& u.required_confirms is None
    &&& u.base_fee is None
    &&& u.amount_relative_fee_pct is None
    &&& u.time_relative_fee_pct is None
}

/// A field the update request provides replaces the base value, and a
/// field it leaves out keeps it; the data directory always stays.
pub proof fn lemma_update_fields(u: UpdateMakerConfigRequestView, base: MakerConfigView)
    ensures
            u.network_port matches Some(x) ==> applied_update(u, base).network_port == x,
            u.network_port is None ==> applied_update(u, base).network_port == base.network_port,
            u.rpc_port matches Some(x) ==> applied_update(u, base).rpc_port == x,
            u.rpc_port is None ==> applied_update(u, base).rpc_port == base.rpc_port,
            u.socks_port matches Some(x) ==> applied_update(u, base).socks_port == x,
            u.socks_port is None ==> applied_update(u, base).socks_port == base.socks_port,
            u.control_port matches Some(x) ==> applied_update(u, base).control_port == x,
            u.control_port is None ==> applied_update(u, base).control_port == base.control_port,
            u.min_swap_amount matches Some(x) ==> applied_update(u, base).min_swap_amount == x,
            u.min_swap_amount is None ==> applied_update(u, base).min_swap_amount == base.min_swap_amount,
            u.fidelity_amount matches Some(x) ==> applied_update(u, base).fidelity_amount == x,
            u.fidelity_amount is None ==> applied_update(u, base).fidelity_amount == base.fidelity_amount,
            u.fidelity_timelock matches Some(x) ==> applied_update(u, base).fidelity_timelock == x,
            u.fidelity_timelock is None ==> applied_update(u, base).fidelity_timelock == base.fidelity_timelock,
            u.fidelity_feerate matches Some(x) ==> applied_update(u, base).fidelity_feerate == x,
            u.fidelity_feerate is None ==> applied_update(u, base).fidelity_feerate == base.fidelity_feerate,
            u.required_confirms matches Some(x) ==> applied_update(u, base).required_confirms == x,
            u.required_confirms is None ==> applied_update(u, base).required_confirms == base.required_confirms,
            u.base_fee matches Some(x) ==> applied_update(u, base).base_fee == x,
            u.base_fee is None ==> applied_update(u, base).base_fee == base.base_fee,
            u.amount_relative_fee_pct matches Some(x) ==> applied_update(u, base).amount_relative_fee_pct == x,
            u.amount_relative_fee_pct is None ==> applied_update(u, base).amount_relative_fee_pct == base.amount_relative_fee_pct,
            u.time_relative_fee_pct matches Some(x) ==> applied_update(u, base).time_relative_fee_pct == x,
            u.time_relative_fee_pct is None ==> applied_update(u, base).time_relative_fee_pct == base.time_relative_fee_pct,
            u.tor_auth is Some ==> applied_update(u, base).tor_auth == u.tor_auth,
            u.tor_auth is None ==> applied_update(u, base).tor_auth == base.tor_auth,
            u.wallet_name is Some ==> applied_update(u, base).wallet_name == u.wallet_name,
            u.wallet_name is None ==> applied_update(u, base).wallet_name == base.wallet_name,
            applied_update(u, base).data_directory == base.data_directory,
{
}

/// An update that provides no field leaves the configuration as it is.
pub proof fn lemma_empty_update_keeps_config(u: UpdateMakerConfigRequestView, base: MakerConfigView)
    requires
        empty_update(u),
    ensures
        applied_update(u, base) == base,
{
}

/// Applying the same update twice is applying it once.
pub proof fn lemma_update_idempotent(u: UpdateMakerConfigRequestView, base: MakerConfigView)
    ensures
        applied_update(u, applied_update(u, base)) == applied_update(u, base),
{
}

fn opt_or<T>(a: Option<T>, b: Option<T>) -> (r: Option<T>)
    ensures
        r == first_of(a, b),
{
    match a {
        Some(x) => Some(x),
        None => b,
    }
}

fn value_or<T>(a: Option<T>, d: T) -> (r: T)
    ensures
        r == given_or(a, d),
{
    match a {
        Some(x) => x,
        None => d,
    }
}

fn bits_or(a: Option<F64Bits>, d: F64Bits) -> (r: F64Bits)
    ensures
        r.bits == given_or(bits_view(a), d.bits),
{
    match a {
        Some(x) => x,
        None => d,
    }
}

impl UpdateMakerConfigRequest {
    /// Merges the update request on top of a base configuration, overriding
    /// only the provided fields.
    pub fn apply_to(self, base: MakerConfig) -> (r: MakerConfig)
        ensures
            r@ == applied_update(self@, base@),
    {
        MakerConfig {
            data_directory: base.data_directory,
            tor_auth: opt_or(self.tor_auth, base.tor_auth),
            wallet_name: opt_or(self.wallet_name, base.wallet_name),
            network_port: value_or(self.network_port, base.network_port),
            rpc_port: value_or(self.rpc_port, base.rpc_port),
            socks_port: value_or(self.socks_port, base.socks_port),
            control_port: value_or(self.control_port, base.control_port),
            min_swap_amount: value_or(self.min_swap_amount, base.min_swap_amount),
            fidelity_amount: value_or(self.fidelity_amount, base.fidelity_amount),
            fidelity_timelock: value_or(self.fidelity_timelock, base.fidelity_timelock),
            fidelity_feerate: bits_or(self.fidelity_feerate, base.fidelity_feerate),
            required_confirms: value_or(self.required_confirms, base.required_confirms),
            base_fee: value_or(self.base_fee, base.base_fee),
            amount_relative_fee_pct: bits_or(
                self.amount_relative_fee_pct,
                base.amount_relative_fee_pct,
            ),
            time_relative_fee_pct: bits_or(self.time_relative_fee_pct, base.time_relative_fee_pct),
        }
    }
}

/// Request body for `POST /api/makers/{id}/start`: the wallet-opening
/// password for encrypted wallets, never stored.
#[derive(Debug)]
pub struct StartMakerRequest {
    pub password: Option<String>,
}

/// Request body for `POST /api/backend`: the chain-data backend for all
/// makers, held in memory only.
#[derive(Debug)]
pub struct SetBackendRequest {
    pub kind: MakerBackend,
    pub rpc: Option<String>,
    pub zmq: Option<String>,
    pub rpc_user: Option<String>,
    pub rpc_password: Option<String>,
    pub electrum_url: Option<String>,
}

/// Response for `GET /api/backend`.  The RPC password is never returned.
#[derive(Debug)]
pub struct BackendInfo {
    /// Whether the backend has been set this session.
    pub configured: bool,
    pub kind: Option<MakerBackend>,
    pub rpc: Option<String>,
    pub zmq: Option<String>,
    pub rpc_user: Option<String>,
    pub electrum_url: Option<String>,
}

/// Request body for `POST /api/makers/{id}/send`
#[derive(Debug)]
pub struct SendToAddressRequest {
    pub address: String,
    pub amount: u64,
    pub feerate: F64Bits,
}

/// Generic success / error JSON envelope
#[derive(Debug)]
pub struct ApiResponse<T> {
    pub success: bool,
    pub data: Option<T>,
    pub error: Option<String>,
}

impl<T> ApiResponse<T> {
    /// A success carrying `data`.
    pub fn ok(data: T) -> (r: Self)
        ensures
            r.success,
            r.data == Some(data),
            r.error is None,
    {
        ApiResponse { success: true, data: Some(data), error: None }
    }

    /// A failure carrying the message `msg`.
    pub fn err(msg: String) -> (r: Self)
        ensures
            !r.success,
            r.data is None,
            r.error == Some(msg),
    {
        ApiResponse { success: false, data: None, error: Some(msg) }
    }
}

#[derive(Debug)]
pub struct MakerInfo {
    pub id: String,
}

#[derive(Debug)]
pub struct SuggestedMakerPorts {
    pub network_port: u16,
    pub rpc_port: u16,
}

#[derive(Clone, Copy, Debug, PartialEq, Eq, Structural)]
pub enum MakerStateDto {
    Running,
    Stopped,
}

impl From<MakerState> for MakerStateDto {
    fn from(s: MakerState) -> (r: Self) {
        match s {
            MakerState::Running => MakerStateDto::Running,
            MakerState::Stopped => MakerStateDto::Stopped,
        }
    }
}

impl vstd::std_specs::convert::FromSpecImpl<MakerState> for MakerStateDto {
    open spec fn obeys_from_spec() -> bool {
        true
    }

    open spec fn from_spec(s: MakerState) -> MakerStateDto {
        match s {
            MakerState::Running => MakerStateDto::Running,
            MakerState::Stopped => MakerStateDto::Stopped,
        }
    }
}

/// Detailed maker information including config and state
#[derive(Debug)]
pub struct MakerInfoDetailed {
    pub id: String,
    pub state: MakerStateDto,
    pub wallet_name: Option<String>,
    pub data_directory: Option<String>,
    pub network_port: u16,
    pub rpc_port: u16,
    pub socks_port: u16,
    pub control_port: u16,
    pub min_swap_amount: u64,
    pub fidelity_amount: u64,
    pub fidelity_timelock: u32,
    pub fidelity_feerate: F64Bits,
    pub required_confirms: u32,
    pub base_fee: u64,
    pub amount_relative_fee_pct: F64Bits,
    pub time_relative_fee_pct: F64Bits,
}

impl MakerInfoDetailed {
    /// The detailed view of a maker.  `canonical` is what canonicalising
    /// its data directory gave: `None` when that failed, and then the
    /// directory is shown as configured; `Some(text)` when it succeeded,
    /// with the canonical path as text (`None` when it is not UTF-8).
    pub fn from_info(info: ManagerMakerInfo, canonical: Option<Option<String>>) -> (r: Self)
        ensures
            r.id == info.id,
            r.state == (match info.state {
                MakerState::Running => MakerStateDto::Running,
                MakerState::Stopped => MakerStateDto::Stopped,
            }),
            r.wallet_name == info.config.wallet_name,
            r.data_directory == (match info.config.data_directory {
                None => None,
                Some(d) => match canonical {
                    Some(c) => c,
                    None => Some(d),
                },
            }),
            r.network_port == info.config.network_port,
            r.rpc_port == info.config.rpc_port,
            r.socks_port == info.config.socks_port,
            r.control_port == info.config.control_port,
            r.min_swap_amount == info.config.min_swap_amount,
            r.fidelity_amount == info.config.fidelity_amount,
            r.fidelity_timelock == info.config.fidelity_timelock,
            r.fidelity_feerate == info.config.fidelity_feerate,
            r.required_confirms == info.config.required_confirms,
            r.base_fee == info.config.base_fee,
            r.amount_relative_fee_pct == info.config.amount_relative_fee_pct,
            r.time_relative_fee_pct == info.config.time_relative_fee_pct,
    {
        let config = info.config;
        let data_directory = match config.data_directory {
            None => None,
            Some(d) => match canonical {
                Some(c) => c,
                None => Some(d),
            },
        };
        MakerInfoDetailed {
            id: info.id,
            state: MakerStateDto::from(info.state),
            wallet_name: config.wallet_name,
            data_directory,
            network_port: config.network_port,
            rpc_port: config.rpc_port,
            socks_port: config.socks_port,
            control_port: config.control_port,
            min_swap_amount: config.min_swap_amount,
            fidelity_amount: config.fidelity_amount,
            fidelity_timelock: config.fidelity_timelock,
            fidelity_feerate: config.fidelity_feerate,
            required_confirms: config.required_confirms,
            base_fee: config.base_fee,
            amount_relative_fee_pct: config.amount_relative_fee_pct,
            time_relative_fee_pct: config.time_relative_fee_pct,
        }
    }
}

#[derive(Debug)]
pub struct BalanceInfo {
    pub regular: u64,
    pub swap: u64,
    pub contract: u64,
    pub fidelity: u64,
    pub spendable: u64,
}

#[derive(Debug)]
pub struct UtxoInfo {
    pub addr: String,
    pub amount: u64,
    pub confirmations: u32,
    pub utxo_type: String,
}

/// Swap history for a maker: active (in-flight) and completed (swept) swaps
#[derive(Debug)]
pub struct SwapHistoryDto {
    /// In-progress incoming swap coins (2-of-2 multisig not yet swept)
    pub active: Vec<UtxoInfo>,
    /// Completed swaps whose coins have been swept to the regular wallet
    pub completed: Vec<UtxoInfo>,
}

#[derive(Debug)]
pub struct MakerFeeInfoDto {
    pub maker_index: usize,
    pub maker_address: String,
    pub base_fee: F64Bits,
    pub amount_relative_fee: F64Bits,
    pub time_relative_fee: F64Bits,
    pub total_fee: F64Bits,
}

#[derive(Debug)]
pub struct MakerStatus {
    pub id: String,
    pub alive: bool,
    pub is_server_running: bool,
}

#[derive(Debug)]
pub struct HealthResponse {
    pub status: &'static str,
    pub makers: Vec<MakerStatus>,
}

#[derive(Debug)]
pub struct RpcStatusInfo {
    pub connected: bool,
    pub version: Option<u32>,
    pub network: Option<String>,
    pub block_height: Option<u64>,
    pub sync_progress: Option<F64Bits>,
}

#[derive(Clone, Copy, Debug, PartialEq, Eq, Structural)]
pub enum StartupCheckKind {
    Bitcoin,
    Rpc,
    Rest,
    Zmq,
    Tor,
    Electrum,
}

#[derive(Debug)]
pub struct StartupCheckRequest {
    pub check: StartupCheckKind,
    pub rpc: Option<String>,
    pub rpc_user: Option<String>,
    pub rpc_password: Option<String>,
    pub zmq: Option<String>,
    /// Electrum server URL to probe (electrum check only).
    pub electrum_url: Option<String>,
    pub socks_port: Option<u16>,
    pub control_port: Option<u16>,
}

#[derive(Debug)]
pub struct StartupCheckResponse {
    pub check: StartupCheckKind,
    pub success: bool,
    pub message: String,
    pub detail: Option<String>,
}

/// Request body for `POST /api/bitcoind/start`
#[derive(Debug)]
pub struct StartBitcoindRequest {
    /// Network to run bitcoind on: "regtest" or "signet"
    pub network: String,
}

/// A single log line tagged with the maker it came from.
#[derive(Debug)]
pub struct CombinedLogLine {
    pub maker_id: String,
    pub line: String,
}

/// Status of the dashboard-managed bitcoind process
#[derive(Debug)]
pub struct BitcoindStatusInfo {
    pub running: bool,
    pub network: Option<String>,
    /// True only when bitcoind was started by the dashboard
    pub managed: bool,
}

/// Tor connectivity status reported at startup
#[derive(Debug)]
pub struct TorStatusInfo {
    /// How tor was obtained: "system", "host", or "docker"
    pub source: &'static str,
    /// Whether the dashboard started/manages the tor process
    pub managed: bool,
}

#[derive(Debug)]
pub struct VerifyDeniabilityRequest {
    pub swap_id: String,
}

#[derive(Debug)]
pub struct VerifyDeniabilityResponse {
    pub valid: bool,
}

} // verus!
