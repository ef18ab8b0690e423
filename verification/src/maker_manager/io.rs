//! The outside work the registry asks for, and what an answer tells.
use vstd::prelude::*;

use crate::maker_manager::config::{MakerConfig, MakerConfigView};
use crate::maker_manager::network::ChainNetwork;

verus! {

/// How a maker reaches chain data once it is initialised.
#[derive(Debug)]
pub enum BackendSettings {
    Electrum { url: String },
    CoreRpc {
        url: String,
        rpc_user: String,
        rpc_password: String,
        wallet_name: String,
        zmq_addr: String,
    },
}

pub enum BackendSettingsView {
    Electrum { url: Seq<char> },
    CoreRpc {
        url: Seq<char>,
        rpc_user: Seq<char>,
        rpc_password: Seq<char>,
        wallet_name: Seq<char>,
        zmq_addr: Seq<char>,
    },
}

impl View for BackendSettings {
    type V = BackendSettingsView;

    open spec fn view(&self) -> BackendSettingsView {
        match self {
            BackendSettings::Electrum { url } => BackendSettingsView::Electrum { url: url@ },
            BackendSettings::CoreRpc { url, rpc_user, rpc_password, wallet_name, zmq_addr } => {
                BackendSettingsView::CoreRpc {
                    url: url@,
                    rpc_user: rpc_user@,
                    rpc_password: rpc_password@,
                    wallet_name: wallet_name@,
                    zmq_addr: zmq_addr@,
                }
            },
        }
    }
}

/// Everything a maker server is initialised from.
#[derive(Debug)]
pub struct LaunchPlan {
    pub id: String,
    pub config: MakerConfig,
    pub backend: BackendSettings,
    pub wallet_name: String,
    pub network: ChainNetwork,
}

pub struct LaunchPlanView {
    pub id: Seq<char>,
    pub config: MakerConfigView,
    pub backend: BackendSettingsView,
    pub wallet_name: Seq<char>,
    pub network: ChainNetwork,
}

impl View for LaunchPlan {
    type V = LaunchPlanView;

    open spec fn view(&self) -> LaunchPlanView {
        LaunchPlanView {
            id: self.id@,
            config: self.config@,
            backend: self.backend@,
            wallet_name: self.wallet_name@,
            network: self.network,
        }
    }
}

/// A piece of outside work the registry asks its caller to do.
#[derive(Debug)]
pub enum MakerIo {
    /// Create the data directory of maker `id` when `create_dir` is set,
    /// then write its `config.toml` from `config`.
    Prepare { id: String, config: MakerConfig, create_dir: bool },
    /// Register the maker's log, initialise its server from the plan and add
    /// it to the running pool (not yet serving).
    Launch { plan: LaunchPlan },
    /// Start the maker's server.
    StartServer { id: String },
    /// Stop the maker's server.
    StopServer { id: String },
    /// Drop the maker's server object from the pool.
    RemoveFromPool { id: String },
    /// Stop routing the maker's log lines.
    UnregisterLogs { id: String },
}

pub enum MakerIoView {
    Prepare { id: Seq<char>, config: MakerConfigView, create_dir: bool },
    Launch { plan: LaunchPlanView },
    StartServer { id: Seq<char> },
    StopServer { id: Seq<char> },
    RemoveFromPool { id: Seq<char> },
    UnregisterLogs { id: Seq<char> },
}

impl View for MakerIo {
    type V = MakerIoView;

    open spec fn view(&self) -> MakerIoView {
        match self {
            MakerIo::Prepare { id, config, create_dir } => MakerIoView::Prepare {
                id: id@,
                config: config@,
                create_dir: *create_dir,
            },
            MakerIo::Launch { plan } => MakerIoView::Launch { plan: plan@ },
            MakerIo::StartServer { id } => MakerIoView::StartServer { id: id@ },
            MakerIo::StopServer { id } => MakerIoView::StopServer { id: id@ },
            MakerIo::RemoveFromPool { id } => MakerIoView::RemoveFromPool { id: id@ },
            MakerIo::UnregisterLogs { id } => MakerIoView::UnregisterLogs { id: id@ },
        }
    }
}

/// `io` may answer the request `op` with success.
pub open spec fn io_ok<F: Fn(MakerIo) -> Result<(), String>>(io: F, op: MakerIoView) -> bool {
    exists|o: MakerIo| #[trigger] o@ == op && call_ensures(io, (o,), Ok::<(), String>(()))
}

/// `io` may answer the request `op` with the error `msg`.
pub open spec fn io_err<F: Fn(MakerIo) -> Result<(), String>>(
    io: F,
    op: MakerIoView,
    msg: Seq<char>,
) -> bool {
    exists|o: MakerIo, e: String|
        #![trigger o@, e@]
        o@ == op && e@ == msg && call_ensures(io, (o,), Err::<(), String>(e))
}

/// The maker a request is about.
pub open spec fn io_target(op: MakerIoView) -> Seq<char> {
    match op {
        MakerIoView::Prepare { id, .. } => id,
        MakerIoView::Launch { plan } => plan.id,
        MakerIoView::StartServer { id } => id,
        MakerIoView::StopServer { id } => id,
        MakerIoView::RemoveFromPool { id } => id,
        MakerIoView::UnregisterLogs { id } => id,
    }
}

/// `io` was handed the request `op` and answered it.
pub open spec fn io_asked<F: Fn(MakerIo) -> Result<(), String>>(io: F, op: MakerIoView) -> bool {
    exists|o: MakerIo, x: Result<(), String>|
        #![trigger call_ensures(io, (o,), x)]
        o@ == op && call_ensures(io, (o,), x)
}

/// Hands `op` to `io` and returns its answer, recording in the contract that
/// the request was made and that `io` may give that answer.
pub(crate) fn run_io<F: Fn(MakerIo) -> Result<(), String>>(io: &F, op: MakerIo) -> (r: Result<(), String>)
    requires
        call_requires(*io, (op,)),
    ensures
        io_asked(*io, op@),
        r is Ok ==> io_ok(*io, op@),
        r matches Err(e) ==> io_err(*io, op@, e@),
{
    let ghost opv = op;
    let r = io(op);
    proof {
        assert(call_ensures(*io, (opv,), r));
        match &r {
            Ok(u) => {
                assert(r == Ok::<(), String>(()));
                assert(io_ok(*io, opv@));
            },
            Err(e) => {
                assert(io_err(*io, opv@, e@));
            },
        }
    }
    r
}

} // verus!
