//! Maker configuration, the maker registry and its lifecycle decisions.
//!
//! The registry (`MakerManager`) holds every registered maker with its
//! configuration and whether it is initialised (its server object exists)
//! and running.  Work that touches the world (creating directories, writing
//! `config.toml`, initialising and starting servers) is handed to a caller
//! supplied `io` function as a `MakerIo` request; the registry decides what
//! to ask for and records what came back.
pub mod config;
pub mod io;
pub mod network;
pub mod persistence;
pub mod registry;

pub use config::{
    clone_opt_string, default_backend_view, default_config_view, error_text,
    lemma_normalize_changes_only_wallet_name, lemma_normalize_wallet_name_stable, normalized_config, normalized_wallet_name, opt_str_view,
    opt_view, F64Bits, MakerBackend, MakerConfig, MakerConfigView, MakerInfo, MakerManagerError, MakerState,
    RuntimeBackend, RuntimeBackendView, DEFAULT_FEE_RATE_BITS, DEFAULT_WALLET_NAME, ELECTRUM_URL,
    LEGACY_RPC_WALLET_NAME,
};
pub use io::{
    io_asked, io_err, io_ok, io_target, BackendSettings, BackendSettingsView, LaunchPlan, LaunchPlanView, MakerIo,
    MakerIoView,
};
pub use network::{inferred_network, network_for_port, network_named, ChainNetwork};
pub use registry::{entries_map, has_id, ids_unique, status_of, MakerEntry, MakerStatus};

use vstd::prelude::*;
use vstd::string::StrSliceExecFns;
use vstd::string::StringExecFns;

use crate::maker_manager::io::run_io;
use crate::maker_manager::registry::{
    lemma_entries_map_at, lemma_entries_map_len, lemma_entries_map_push, lemma_entries_map_remove,
    lemma_entries_map_update,
};
use crate::text::{
    concat2, concat3, decimal_text, joined_path, last_segment, parse_u16, path_join, str_eq,
    trim, trim_spec, u16_to_text,
};

verus! {

/// Whether some registered maker other than `exclude` uses `port` as its
/// network or RPC port.
pub open spec fn port_taken(
    makers: Map<Seq<char>, MakerStatus>,
    port: u16,
    exclude: Option<Seq<char>>,
) -> bool {
    exists|k: Seq<char>|
        #![trigger makers[k]]
        makers.contains_key(k) && exclude != Some(k) && (makers[k].config.network_port == port
            || makers[k].config.rpc_port == port)
}

/// The registry content built from discovered makers, a later entry for
/// the same id replacing an earlier one; none is initialised yet.
pub open spec fn discovered_map(d: Seq<(String, MakerConfig)>) -> Map<Seq<char>, MakerStatus>
    decreases d.len(),
{
    if d.len() == 0 {
        Map::empty()
    } else {
        discovered_map(d.drop_last()).insert(
            d.last().0@,
            MakerStatus { config: d.last().1@, initialized: false, running: false },
        )
    }
}


/// The configuration a maker is created with: its wallet name normalised,
/// and its data directory defaulted to `<dashboard data dir>/<id>`.
pub open spec fn resolved_config(config_dir: Seq<char>, id: Seq<char>, c: MakerConfigView) -> MakerConfigView {
    let n = normalized_config(id, c);
    if n.data_directory is None {
        MakerConfigView { data_directory: Some(joined_path(config_dir, id)), ..n }
    } else {
        n
    }
}

/// The request that creates the data directory (when it was defaulted) and
/// writes `config.toml` for a maker being created.
pub open spec fn prepare_op(config_dir: Seq<char>, id: Seq<char>, c: MakerConfigView) -> MakerIoView {
    MakerIoView::Prepare {
        id,
        config: resolved_config(config_dir, id, c),
        create_dir: c.data_directory is None,
    }
}

/// The chain-data settings a maker gets from the runtime backend.
pub open spec fn backend_settings_for(b: RuntimeBackendView, wallet_name: Seq<char>) -> BackendSettingsView {
    match b.kind {
        MakerBackend::Electrum => BackendSettingsView::Electrum { url: b.electrum_url },
        MakerBackend::Bitcoind => BackendSettingsView::CoreRpc {
            url: b.rpc,
            rpc_user: b.rpc_user,
            rpc_password: b.rpc_password,
            wallet_name,
            zmq_addr: b.zmq,
        },
    }
}

/// The request that initialises a maker's server.
pub open spec fn launch_op(
    config_dir: Seq<char>,
    backend: RuntimeBackendView,
    network: ChainNetwork,
    id: Seq<char>,
    c: MakerConfigView,
) -> MakerIoView {
    let rc = resolved_config(config_dir, id, c);
    let wallet = rc.wallet_name.unwrap();
    MakerIoView::Launch {
        plan: LaunchPlanView {
            id,
            config: rc,
            backend: backend_settings_for(backend, wallet),
            wallet_name: wallet,
            network,
        },
    }
}

/// What the registry records of a freshly created maker.
pub open spec fn created_status(config_dir: Seq<char>, id: Seq<char>, c: MakerConfigView) -> MakerStatus {
    MakerStatus { config: resolved_config(config_dir, id, c), initialized: true, running: false }
}

/// The status with `running` set as given.
pub open spec fn with_running(s: MakerStatus, running: bool) -> MakerStatus {
    MakerStatus { running, ..s }
}


/// Creating maker `id` with configuration `c` in registry `m` may succeed
/// with `io`: the backend is chosen and both requests succeed.
pub open spec fn create_succeeds<F: Fn(MakerIo) -> Result<(), String>>(
    m: MakerManager,
    io: F,
    id: Seq<char>,
    c: MakerConfigView,
) -> bool {
    &&& m.backend_view() is Some
    &&& io_ok(io, prepare_op(m.config_dir_view(), id, c))
    &&& io_ok(
        io,
        launch_op(m.config_dir_view(), m.backend_view().unwrap(), m.network(), id, c),
    )
}

/// Creating maker `id` with configuration `c` in registry `m` may fail
/// with `msg`: writing its files fails, or no backend is chosen, or
/// initialising its server fails.
pub open spec fn create_fails<F: Fn(MakerIo) -> Result<(), String>>(
    m: MakerManager,
    io: F,
    id: Seq<char>,
    c: MakerConfigView,
    msg: Seq<char>,
) -> bool {
    ||| io_err(io, prepare_op(m.config_dir_view(), id, c), msg)
    ||| {
        &&& io_ok(io, prepare_op(m.config_dir_view(), id, c))
        &&& match m.backend_view() {
            None => msg == "Backend is not configured yet"@,
            Some(b) => io_err(io, launch_op(m.config_dir_view(), b, m.network(), id, c), msg),
        }
    }
}

/// The requests creating maker `id` with configuration `c` may make under
/// the given settings: writing its files, and, with a backend chosen,
/// initialising its server.
pub open spec fn create_request_in(
    config_dir: Seq<char>,
    backend: Option<RuntimeBackendView>,
    network: ChainNetwork,
    id: Seq<char>,
    c: MakerConfigView,
    op: MakerIoView,
) -> bool {
    ||| op == prepare_op(config_dir, id, c)
    ||| backend matches Some(b) && op == launch_op(config_dir, b, network, id, c)
}

/// The requests creating maker `id` with configuration `c` in `m` may make.
pub open spec fn create_request(m: MakerManager, id: Seq<char>, c: MakerConfigView, op: MakerIoView) -> bool {
    create_request_in(m.config_dir_view(), m.backend_view(), m.network(), id, c, op)
}

/// The requests starting maker `id` of `m` may make: none unless it is
/// registered and not running; then creating it when it has no server
/// object, and starting its server.
pub open spec fn start_request(m: MakerManager, id: Seq<char>, op: MakerIoView) -> bool {
    &&& m.makers().contains_key(id)
    &&& !m.makers()[id].running
    &&& {
        ||| !m.makers()[id].initialized && create_request(m, id, m.makers()[id].config, op)
        ||| op == MakerIoView::StartServer { id }
    }
}

/// The one request stopping maker `id` of `m` may make, when it runs.
pub open spec fn stop_request(m: MakerManager, id: Seq<char>, op: MakerIoView) -> bool {
    &&& m.makers().contains_key(id)
    &&& m.makers()[id].running
    &&& op == MakerIoView::StopServer { id }
}

/// The requests removing maker `id` makes: dropping its server object and
/// its log routing; nothing touches its files.
pub open spec fn remove_request(id: Seq<char>, op: MakerIoView) -> bool {
    ||| op == MakerIoView::RemoveFromPool { id }
    ||| op == MakerIoView::UnregisterLogs { id }
}

/// The requests restarting maker `id` of `m` may make: stopping it when it
/// runs, dropping its server object, creating it again from its registered
/// configuration, and starting it.
pub open spec fn restart_request(m: MakerManager, id: Seq<char>, op: MakerIoView) -> bool {
    &&& m.makers().contains_key(id)
    &&& {
        let s = m.makers()[id];
        ||| s.running && op == MakerIoView::StopServer { id }
        ||| op == MakerIoView::RemoveFromPool { id }
        ||| create_request(m, id, s.config, op)
        ||| op == MakerIoView::StartServer { id }
    }
}

/// The requests updating maker `id` of `m` to configuration `c` may make:
/// stopping it when it runs, dropping its server object, creating it with
/// the new configuration, restarting it when it ran, and, only once creating
/// it with the new configuration can fail, creating it with its previous
/// configuration again.
pub open spec fn update_request<F: Fn(MakerIo) -> Result<(), String>>(
    m: MakerManager,
    io: F,
    id: Seq<char>,
    c: MakerConfigView,
    op: MakerIoView,
) -> bool {
    &&& m.makers().contains_key(id)
    &&& {
        let s = m.makers()[id];
        let nc = normalized_config(id, c);
        ||| s.running && op == MakerIoView::StopServer { id }
        ||| op == MakerIoView::RemoveFromPool { id }
        ||| create_request(m, id, nc, op)
        ||| s.running && op == MakerIoView::StartServer { id }
        ||| (exists|e: Seq<char>| #[trigger] create_fails(m, io, id, nc, e)) && create_request(
            m,
            id,
            s.config,
            op,
        )
    }
}

/// The requests auto-start may make in `m`: those starting each maker that
/// is not running.
pub open spec fn auto_start_request(m: MakerManager, op: MakerIoView) -> bool {
    start_request(m, io_target(op), op)
}

/// The requests dropping every server object of `m` may make: stopping a
/// running maker and dropping an initialised maker's server object.
pub open spec fn release_request(m: MakerManager, op: MakerIoView) -> bool {
    let k = io_target(op);
    &&& m.makers().contains_key(k)
    &&& {
        ||| m.makers()[k].running && op == MakerIoView::StopServer { id: k }
        ||| m.makers()[k].initialized && op == MakerIoView::RemoveFromPool { id: k }
    }
}

/// The requests a change of `m`'s backend to `backend` may make: dropping
/// every server object, then creating each maker again from its registered
/// configuration under the new backend and starting it.  No request carries
/// anything of the backend but a launch plan.
pub open spec fn backend_change_request(m: MakerManager, backend: RuntimeBackendView, op: MakerIoView) -> bool {
    let k = io_target(op);
    ||| release_request(m, op)
    ||| m.makers().contains_key(k) && {
        ||| create_request_in(
            m.config_dir_view(),
            Some(backend),
            inferred_network(m.bitcoind_view(), Some(backend)),
            k,
            m.makers()[k].config,
            op,
        )
        ||| op == MakerIoView::StartServer { id: k }
    }
}

/// The status a registered maker has once it is initialised.
pub open spec fn initialized_status(m: MakerManager, id: Seq<char>, s: MakerStatus) -> MakerStatus {
    if s.initialized {
        s
    } else {
        created_status(m.config_dir_view(), id, s.config)
    }
}


/// The text of a failed update whose rollback failed too.
pub open spec fn rollback_failed_text(id: Seq<char>, e: Seq<char>, re: Seq<char>) -> Seq<char> {
    "Failed to update maker '"@ + id + "': "@ + e + "; rollback also failed: "@ + re
}

/// What auto-start has done for one maker: it is running now, or it had no
/// server object and creating one failed (it is left as it was), or
/// starting its server failed.  A maker that gained a server object got it
/// from a successful create, with its created configuration.
pub open spec fn auto_start_done<F: Fn(MakerIo) -> Result<(), String>>(
    m: MakerManager,
    io: F,
    id: Seq<char>,
    before: MakerStatus,
    after: MakerStatus,
) -> bool {
    &&& {
        ||| after.running
        ||| !before.initialized && after == before && exists|e: Seq<char>|
            #[trigger] create_fails(m, io, id, before.config, e)
        ||| after.initialized && exists|e: Seq<char>|
            #[trigger] io_err(io, MakerIoView::StartServer { id }, e)
    }
    &&& !before.initialized && after.initialized ==> create_succeeds(m, io, id, before.config)
        && after.config == resolved_config(m.config_dir_view(), id, before.config)
}

/// How auto-start may have changed one maker: a running maker is left as
/// it was; a maker keeps its configuration unless it had to be created,
/// then it has its created configuration; a maker that was not running
/// only runs now if starting it succeeded.
pub open spec fn auto_start_step<F: Fn(MakerIo) -> Result<(), String>>(
    m: MakerManager,
    io: F,
    id: Seq<char>,
    before: MakerStatus,
    after: MakerStatus,
) -> bool {
    &&& before.running ==> after == before
    &&& after.config == before.config || (!before.initialized && after.config == resolved_config(
        m.config_dir_view(),
        id,
        before.config,
    ))
    &&& after.running && !before.running ==> io_ok(io, MakerIoView::StartServer { id })
}


/// Port `p` can be given out: it is not reserved, no other registered maker
/// uses it, and the availability probe may report it free.
pub open spec fn port_acceptable<P: Fn(u16) -> bool>(
    m: MakerManager,
    p: u16,
    exclude: Option<Seq<char>>,
    reserved: Seq<u16>,
    available: P,
) -> bool {
    &&& !reserved.contains(p)
    &&& !port_taken(m.makers(), p, exclude)
    &&& call_ensures(available, (p,), true)
}

/// Port `p` was passed over: it is reserved, another registered maker uses
/// it, or the availability probe may report it taken.
pub open spec fn port_rejected<P: Fn(u16) -> bool>(
    m: MakerManager,
    p: u16,
    exclude: Option<Seq<char>>,
    reserved: Seq<u16>,
    available: P,
) -> bool {
    ||| reserved.contains(p)
    ||| port_taken(m.makers(), p, exclude)
    ||| call_ensures(available, (p,), false)
}

/// `p` is the first port from `start` upwards that can be given out.
pub open spec fn first_free_port<P: Fn(u16) -> bool>(
    m: MakerManager,
    start: u16,
    p: u16,
    exclude: Option<Seq<char>>,
    reserved: Seq<u16>,
    available: P,
) -> bool {
    &&& start <= p
    &&& port_acceptable(m, p, exclude, reserved, available)
    &&& forall|q: u16| start <= q < p ==> port_rejected(m, q, exclude, reserved, available)
}

/// No port from `start` upwards can be given out.
pub open spec fn no_free_port<P: Fn(u16) -> bool>(
    m: MakerManager,
    start: u16,
    exclude: Option<Seq<char>>,
    reserved: Seq<u16>,
    available: P,
) -> bool {
    forall|q: u16| start <= q ==> port_rejected(m, q, exclude, reserved, available)
}

/// The ports a maker's network port must avoid: the Tor ports.
pub open spec fn network_reserved_ports(socks_port: u16, control_port: u16) -> Seq<u16> {
    seq![socks_port, control_port]
}

/// The ports a maker's RPC port must avoid: the Tor ports and its network
/// port.
pub open spec fn rpc_reserved_ports(socks_port: u16, control_port: u16, network_port: u16) -> Seq<u16> {
    seq![socks_port, control_port, network_port]
}

/// The text of a failed port search.
pub open spec fn no_port_text(start: u16) -> Seq<char> {
    "Failed to find an available port starting from "@ + decimal_text(start as nat)
}

/// What the poll of a tracked child process reported.
#[derive(Debug)]
pub enum ProcessPoll {
    /// The process has exited.
    Exited,
    /// The process is still running.
    StillRunning,
    /// Its status could not be read.
    Failed(String),
}

/// The answer a failed ping comes back with, or success.
#[derive(Debug)]
pub enum PingReply {
    Pong,
    ServerError(String),
    Unexpected,
}

/// What a ping reply means: success on a pong, the server's error text, or
/// an unexpected-response error.
pub fn ping_result(reply: PingReply) -> (r: Result<(), String>)
    ensures
        reply is Pong <==> r is Ok,
        reply matches PingReply::ServerError(e) ==> (r matches Err(m) && m@ == e@),
        reply is Unexpected ==> (r matches Err(m) && m@ == "Unexpected response"@),
{
    match reply {
        PingReply::Pong => Ok(()),
        PingReply::ServerError(e) => Err(e),
        PingReply::Unexpected => Err(String::from_str("Unexpected response")),
    }
}

fn contains_port(ports: &[u16], p: u16) -> (r: bool)
    ensures
        r == ports@.contains(p),
{
    let mut i: usize = 0;
    while i < ports.len()
        invariant
            i <= ports@.len(),
            forall|j: int| 0 <= j < i ==> ports@[j] != p,
        decreases ports@.len() - i,
    {
        if ports[i] == p {
            assert(ports@[i as int] == p);
            return true;
        }
        i = i + 1;
    }
    false
}

/// The registry parts other than the makers are the same.
pub open spec fn same_settings(a: MakerManager, b: MakerManager) -> bool {
    &&& a.config_dir_view() == b.config_dir_view()
    &&& a.backend_view() == b.backend_view()
    &&& a.bitcoind_view() == b.bitcoind_view()
}


/// The status of a maker whose server object was dropped.
pub open spec fn released(s: MakerStatus) -> MakerStatus {
    MakerStatus { config: s.config, initialized: false, running: false }
}

/// What auto-start has done depends on the registry's settings only, not
/// on the makers it holds.
proof fn lemma_auto_start_settings<F: Fn(MakerIo) -> Result<(), String>>(
    a: MakerManager,
    b: MakerManager,
    io: F,
    id: Seq<char>,
    before: MakerStatus,
    after: MakerStatus,
)
    requires
        same_settings(a, b),
    ensures
        auto_start_step(a, io, id, before, after) == auto_start_step(b, io, id, before, after),
        auto_start_done(a, io, id, before, after) == auto_start_done(b, io, id, before, after),
{
    assert(a.network() == b.network());
    assert forall|e: Seq<char>| create_fails(a, io, id, before.config, e) == create_fails(
        b,
        io,
        id,
        before.config,
        e,
    ) by {}
}

/// The bitcoind process still followed after a status query whose poll reported
/// `poll`: a process found exited is forgotten.
pub open spec fn kept_after_status(current: Option<Seq<char>>, poll: ProcessPoll) -> Option<Seq<char>> {
    if poll is Exited {
        None
    } else {
        current
    }
}

/// What a status query reports: running with its network only for a
/// known process whose poll says it still runs.
pub open spec fn status_report(current: Option<Seq<char>>, poll: ProcessPoll) -> (bool, Option<Seq<char>>) {
    if current is Some && poll is StillRunning {
        (true, current)
    } else {
        (false, None)
    }
}

/// A status query reports a network only when it reports the process
/// running, and only the network of the followed process; once a query finds
/// the process exited it is forgotten, so every later query reports
/// `(false, None)` until a new process is recorded.
pub proof fn lemma_bitcoind_status_laws(current: Option<Seq<char>>, poll: ProcessPoll, later: ProcessPoll)
    ensures
        !status_report(current, poll).0 ==> status_report(current, poll).1 is None,
        status_report(current, poll).0 ==> status_report(current, poll).1 == current && current is Some,
        kept_after_status(current, ProcessPoll::Exited) is None,
        status_report(kept_after_status(current, ProcessPoll::Exited), later) == (
            false,
            None::<Seq<char>>,
        ),
{
}

/// A maker is created with the configuration it was given, but for its
/// normalised wallet name and, when it had none, its data directory
/// `<dashboard data dir>/<id>`: every other field, the Tor password among
/// them, is the one given.
pub proof fn lemma_created_config_keeps_fields(config_dir: Seq<char>, id: Seq<char>, c: MakerConfigView)
    ensures
        ({
            let r = resolved_config(config_dir, id, c);
            &&& r == (MakerConfigView { wallet_name: r.wallet_name, data_directory: r.data_directory, ..c })
            &&& r.wallet_name == normalized_config(id, c).wallet_name
            &&& c.data_directory is Some ==> r.data_directory == c.data_directory
            &&& c.data_directory is None ==> r.data_directory == Some(joined_path(config_dir, id))
        }),
{
    lemma_normalize_changes_only_wallet_name(id, c);
}

/// Normalising or resolving an already resolved configuration changes
/// nothing, for a maker id without surrounding whitespace: the update path,
/// which normalises before creating, creates what a plain create would.
pub proof fn lemma_resolve_stable(config_dir: Seq<char>, id: Seq<char>, c: MakerConfigView)
    requires
        trim_spec(id) == id,
    ensures
        normalized_config(id, normalized_config(id, c)) == normalized_config(id, c),
        resolved_config(config_dir, id, normalized_config(id, c)) == resolved_config(config_dir, id, c),
        resolved_config(config_dir, id, resolved_config(config_dir, id, c)) == resolved_config(
            config_dir,
            id,
            c,
        ),
{
    lemma_normalize_wallet_name_stable(id, c.wallet_name);
    let n = normalized_config(id, c);
    lemma_normalize_wallet_name_stable(id, n.wallet_name);
}

/// A successful stop undoes a successful start of an initialised maker, and
/// a successful start undoes a successful stop: the registry is as before.
pub proof fn lemma_start_stop_round_trip(
    before: Map<Seq<char>, MakerStatus>,
    middle: Map<Seq<char>, MakerStatus>,
    after: Map<Seq<char>, MakerStatus>,
    id: Seq<char>,
    start_first: bool,
)
    requires
        before.contains_key(id),
        before[id].initialized,
        before[id].running != start_first,
        middle == before.insert(id, with_running(before[id], start_first)),
        after == middle.insert(id, with_running(middle[id], !start_first)),
    ensures
        after == before,
{
    assert(after =~= before);
}

/// A registered maker is either initialised, or neither initialised nor
/// running.
proof fn lemma_running_initialized_or_not(m: MakerManager, id: Seq<char>)
    requires
        m.well_formed(),
        m.makers().contains_key(id),
    ensures
        m.makers()[id].running ==> m.makers()[id].initialized,
{
    if m.makers()[id].running {
        m.lemma_running_is_initialized(id);
    }
}

/// High-level manager of the registered makers.
pub struct MakerManager {
    entries: Vec<MakerEntry>,
    config_dir: String,
    backend: Option<RuntimeBackend>,
    bitcoind_network: Option<String>,
}

impl MakerManager {
    /// Every registered maker by id.
    pub closed spec fn makers(&self) -> Map<Seq<char>, MakerStatus> {
        entries_map(self.entries@)
    }

    /// The dashboard data directory.
    pub closed spec fn config_dir_view(&self) -> Seq<char> {
        self.config_dir@
    }

    /// The backend chosen on the startup screen, once chosen.
    pub closed spec fn backend_view(&self) -> Option<RuntimeBackendView> {
        match self.backend {
            Some(b) => Some(b@),
            None => None,
        }
    }

    /// The network of the bitcoind process the dashboard started, while it
    /// is tracked.
    pub closed spec fn bitcoind_view(&self) -> Option<Seq<char>> {
        opt_view(self.bitcoind_network)
    }

    /// The network makers are initialised for.
    pub open spec fn network(&self) -> ChainNetwork {
        inferred_network(self.bitcoind_view(), self.backend_view())
    }

    pub closed spec fn well_formed(&self) -> bool {
        &&& ids_unique(self.entries@)
        &&& forall|i: int|
            0 <= i < self.entries@.len() ==> #[trigger] self.entries@[i].running
                ==> self.entries@[i].initialized
    }

    /// A running maker is always initialised.
    pub proof fn lemma_running_is_initialized(&self, id: Seq<char>)
        requires
            self.well_formed(),
            self.makers().contains_key(id),
            self.makers()[id].running,
        ensures
            self.makers()[id].initialized,
    {
        let j = choose|j: int| 0 <= j < self.entries@.len() && self.entries@[j].id@ == id;
        lemma_entries_map_at(self.entries@, j);
    }

    /// The registry is finite and has one entry per maker.
    pub proof fn lemma_makers_finite(&self)
        requires
            self.well_formed(),
        ensures
            self.makers().dom().finite(),
    {
        lemma_entries_map_len(self.entries@);
    }

    /// Normalises a wallet name for maker `id`; the result is always present.
    pub fn normalize_wallet_name(id: &String, wallet_name: Option<String>) -> (r: Option<String>)
        ensures
            r is Some,
            r.unwrap()@ == normalized_wallet_name(id@, opt_view(wallet_name)),
    {
        match wallet_name {
            Some(name) => {
                let trimmed = trim(name.as_str());
                if trimmed.as_str().unicode_len() == 0 || str_eq(trimmed.as_str(), DEFAULT_WALLET_NAME)
                    || str_eq(trimmed.as_str(), LEGACY_RPC_WALLET_NAME) {
                    Some(id.clone())
                } else {
                    Some(trimmed)
                }
            },
            None => Some(id.clone()),
        }
    }

    /// `config` with its wallet name normalised for maker `id`.
    pub fn normalize_config(id: &String, config: MakerConfig) -> (r: MakerConfig)
        ensures
            r@ == normalized_config(id@, config@),
    {
        let mut config = config;
        config.wallet_name = MakerManager::normalize_wallet_name(id, config.wallet_name);
        config
    }

    fn find(&self, id: &str) -> (r: Option<usize>)
        requires
            self.well_formed(),
        ensures
            match r {
                Some(i) => i < self.entries@.len() && self.entries@[i as int].id@ == id@
                    && self.makers().contains_key(id@) && self.makers()[id@] == status_of(
                    self.entries@[i as int],
                ),
                None => !self.makers().contains_key(id@),
            },
    {
        let mut i: usize = 0;
        while i < self.entries.len()
            invariant
                i <= self.entries@.len(),
                self.well_formed(),
                forall|j: int| 0 <= j < i ==> self.entries@[j].id@ != id@,
            decreases self.entries@.len() - i,
        {
            if str_eq(self.entries[i].id.as_str(), id) {
                proof {
                    lemma_entries_map_at(self.entries@, i as int);
                }
                return Some(i);
            }
            i = i + 1;
        }
        None
    }

    /// Records `e`, replacing the entry with the same id if there is one.
    fn put_entry(&mut self, e: MakerEntry)
        requires
            old(self).well_formed(),
            e.running ==> e.initialized,
        ensures
            final(self).well_formed(),
            final(self).makers() == old(self).makers().insert(e.id@, status_of(e)),
            final(self).config_dir == old(self).config_dir,
            final(self).backend == old(self).backend,
            final(self).bitcoind_network == old(self).bitcoind_network,
    {
        let ghost olde = self.entries@;
        let ghost ee = e;
        match self.find(e.id.as_str()) {
            Some(i) => {
                self.entries.set(i, e);
                proof {
                    lemma_entries_map_update(olde, i as int, ee);
                }
            },
            None => {
                self.entries.push(e);
                proof {
                    lemma_entries_map_push(olde, ee);
                }
            },
        }
        assert forall|i: int| 0 <= i < self.entries@.len() && #[trigger] self.entries@[i].running
            implies self.entries@[i].initialized by {
            if i < olde.len() && self.entries@[i] != ee {
                assert(self.entries@[i] == olde[i]);
            }
        }
    }

    /// Removes the entry for `id`; tells whether there was one.
    fn take_entry(&mut self, id: &str) -> (r: bool)
        requires
            old(self).well_formed(),
        ensures
            final(self).well_formed(),
            r == old(self).makers().contains_key(id@),
            final(self).makers() == old(self).makers().remove(id@),
            final(self).config_dir == old(self).config_dir,
            final(self).backend == old(self).backend,
            final(self).bitcoind_network == old(self).bitcoind_network,
    {
        let ghost olde = self.entries@;
        match self.find(id) {
            Some(i) => {
                self.entries.remove(i);
                proof {
                    lemma_entries_map_remove(olde, i as int);
                }
                assert forall|j: int| 0 <= j < self.entries@.len() && #[trigger] self.entries@[j].running
                    implies self.entries@[j].initialized by {
                    if j < i {
                        assert(self.entries@[j] == olde[j]);
                    } else {
                        assert(self.entries@[j] == olde[j + 1]);
                    }
                }
                true
            },
            None => {
                assert(self.makers().remove(id@) =~= self.makers());
                false
            },
        }
    }

    /// Builds the registry from the makers found on disk, all stopped and
    /// not yet initialised, with no backend chosen and no bitcoind tracked.
    pub fn from_discovered(config_dir: String, discovered: Vec<(String, MakerConfig)>) -> (r: Self)
        ensures
            r.well_formed(),
            r.makers() == discovered_map(discovered@),
            r.config_dir_view() == config_dir@,
            r.backend_view() is None,
            r.bitcoind_view() is None,
    {
        let mut m = MakerManager {
            entries: Vec::new(),
            config_dir,
            backend: None,
            bitcoind_network: None,
        };
        assert(m.makers() =~= Map::empty());
        let mut i: usize = 0;
        while i < discovered.len()
            invariant
                i <= discovered@.len(),
                m.well_formed(),
                m.makers() == discovered_map(discovered@.take(i as int)),
                m.config_dir@ == config_dir@,
                m.backend is None,
                m.bitcoind_network is None,
            decreases discovered@.len() - i,
        {
            let id = discovered[i].0.clone();
            let config = discovered[i].1.clone();
            m.put_entry(MakerEntry { id, config, initialized: false, running: false });
            assert(discovered@.take(i + 1).drop_last() =~= discovered@.take(i as int));
            i = i + 1;
        }
        assert(discovered@.take(discovered@.len() as int) =~= discovered@);
        m
    }

    /// The backend chosen on the startup screen, if it has been submitted.
    pub fn backend(&self) -> (r: Option<&RuntimeBackend>)
        ensures
            r is Some == self.backend_view() is Some,
            r is Some ==> r.unwrap()@ == self.backend_view().unwrap(),
    {
        self.backend.as_ref()
    }

    /// Whether a maker with this id is registered (running or stopped).
    pub fn has_maker(&self, id: &str) -> (r: bool)
        requires
            self.well_formed(),
        ensures
            r == self.makers().contains_key(id@),
    {
        self.find(id).is_some()
    }

    /// A copy of a registered maker's configuration.
    pub fn get_config(&self, id: &str) -> (r: Option<MakerConfig>)
        requires
            self.well_formed(),
        ensures
            r is Some == self.makers().contains_key(id@),
            r is Some ==> r.unwrap()@ == self.makers()[id@].config,
    {
        match self.find(id) {
            Some(i) => Some(self.entries[i].config.clone()),
            None => None,
        }
    }

    /// A registered maker's configuration.
    pub fn get_maker_config(&self, id: &str) -> (r: Option<&MakerConfig>)
        requires
            self.well_formed(),
        ensures
            r is Some == self.makers().contains_key(id@),
            r is Some ==> r.unwrap()@ == self.makers()[id@].config,
    {
        match self.find(id) {
            Some(i) => Some(&self.entries[i].config),
            None => None,
        }
    }

    /// The number of registered makers (running and stopped).
    pub fn maker_count(&self) -> (r: usize)
        requires
            self.well_formed(),
        ensures
            self.makers().dom().finite(),
            r == self.makers().len(),
    {
        proof {
            lemma_entries_map_len(self.entries@);
        }
        self.entries.len()
    }

    /// The ids of all registered makers, each once.
    pub fn list_makers(&self) -> (r: Vec<String>)
        requires
            self.well_formed(),
        ensures
            r@.len() == self.makers().len(),
            forall|i: int| 0 <= i < r@.len() ==> self.makers().contains_key(#[trigger] r@[i]@),
            forall|k: Seq<char>|
                #[trigger] self.makers().contains_key(k) ==> exists|i: int|
                    0 <= i < r@.len() && r@[i]@ == k,
            forall|i: int, j: int| 0 <= i < j < r@.len() ==> r@[i]@ != r@[j]@,
    {
        proof {
            lemma_entries_map_len(self.entries@);
        }
        let mut out: Vec<String> = Vec::new();
        let mut i: usize = 0;
        while i < self.entries.len()
            invariant
                i <= self.entries@.len(),
                self.well_formed(),
                out@.len() == i,
                forall|j: int| 0 <= j < i ==> out@[j]@ == self.entries@[j].id@,
            decreases self.entries@.len() - i,
        {
            out.push(self.entries[i].id.clone());
            i = i + 1;
        }
        assert forall|j: int| 0 <= j < out@.len() implies self.makers().contains_key(
            #[trigger] out@[j]@,
        ) by {
            lemma_entries_map_at(self.entries@, j);
        }
        assert forall|k: Seq<char>| #[trigger] self.makers().contains_key(k) implies exists|j: int|
            0 <= j < out@.len() && out@[j]@ == k by {
            let j = choose|j: int| 0 <= j < self.entries@.len() && self.entries@[j].id@ == k;
            assert(out@[j]@ == k);
        }
        out
    }

    /// Whether the maker is registered and its server is running.
    pub fn is_server_running(&self, id: &str) -> (r: bool)
        requires
            self.well_formed(),
        ensures
            r == (self.makers().contains_key(id@) && self.makers()[id@].running),
    {
        match self.find(id) {
            Some(i) => self.entries[i].running,
            None => false,
        }
    }

    /// Id, state and configuration of a registered maker.
    pub fn get_maker_info(&self, id: &String) -> (r: Option<MakerInfo>)
        requires
            self.well_formed(),
        ensures
            r is Some == self.makers().contains_key(id@),
            r matches Some(info) ==> {
                &&& info.id == *id
                &&& info.state == (if self.makers()[id@].running {
                    MakerState::Running
                } else {
                    MakerState::Stopped
                })
                &&& info.config@ == self.makers()[id@].config
            },
    {
        match self.find(id.as_str()) {
            Some(i) => Some(
                MakerInfo {
                    id: id.clone(),
                    state: if self.entries[i].running {
                        MakerState::Running
                    } else {
                        MakerState::Stopped
                    },
                    config: self.entries[i].config.clone(),
                },
            ),
            None => None,
        }
    }

    /// The default data directory of a maker: `<dashboard data dir>/<id>`.
    pub fn default_maker_data_dir(&self, id: &str) -> (r: String)
        ensures
            r@ == joined_path(self.config_dir_view(), id@),
    {
        path_join(self.config_dir.as_str(), id)
    }

    /// The log file of a maker: `debug.log` in its data directory, or in the
    /// default one when it is unknown or has none.
    pub fn log_file_path(&self, maker_id: &str) -> (r: String)
        requires
            self.well_formed(),
        ensures
            r@ == joined_path(
                if self.makers().contains_key(maker_id@)
                    && self.makers()[maker_id@].config.data_directory is Some {
                    self.makers()[maker_id@].config.data_directory.unwrap()
                } else {
                    joined_path(self.config_dir_view(), maker_id@)
                },
                "debug.log"@,
            ),
    {
        let dir = match self.find(maker_id) {
            Some(i) => match &self.entries[i].config.data_directory {
                Some(d) => d.clone(),
                None => self.default_maker_data_dir(maker_id),
            },
            None => self.default_maker_data_dir(maker_id),
        };
        path_join(dir.as_str(), "debug.log")
    }

    /// Whether a registered maker other than `exclude_id` uses `port` as
    /// network or RPC port.
    pub fn is_port_in_use(&self, port: u16, exclude_id: Option<&str>) -> (r: bool)
        requires
            self.well_formed(),
        ensures
            r == port_taken(self.makers(), port, opt_str_view(exclude_id)),
    {
        let mut i: usize = 0;
        while i < self.entries.len()
            invariant
                i <= self.entries@.len(),
                self.well_formed(),
                forall|j: int|
                    0 <= j < i ==> opt_str_view(exclude_id) == Some(self.entries@[j].id@) || (
                    self.entries@[j].config.network_port != port && self.entries@[j].config.rpc_port
                        != port),
            decreases self.entries@.len() - i,
        {
            let e = &self.entries[i];
            let excluded = match exclude_id {
                Some(excl) => str_eq(e.id.as_str(), excl),
                None => false,
            };
            if !excluded && (e.config.network_port == port || e.config.rpc_port == port) {
                proof {
                    lemma_entries_map_at(self.entries@, i as int);
                    let k = self.entries@[i as int].id@;
                    assert(self.makers().contains_key(k));
                }
                return true;
            }
            i = i + 1;
        }
        assert forall|k: Seq<char>| #[trigger] self.makers()[k] == self.makers()[k] implies !(
        self.makers().contains_key(k) && opt_str_view(exclude_id) != Some(k) && (
        self.makers()[k].config.network_port == port || self.makers()[k].config.rpc_port == port)) by {
            if self.makers().contains_key(k) {
                let j = choose|j: int| 0 <= j < self.entries@.len() && self.entries@[j].id@ == k;
                lemma_entries_map_at(self.entries@, j);
            }
        }
        false
    }

    /// The network makers are initialised for.
    pub fn infer_network(&self) -> (r: ChainNetwork)
        ensures
            r == self.network(),
    {
        let named = match &self.bitcoind_network {
            Some(n) => {
                let n = n.as_str();
                if str_eq(n, "regtest") {
                    Some(ChainNetwork::Regtest)
                } else if str_eq(n, "signet") {
                    Some(ChainNetwork::Signet)
                } else if str_eq(n, "testnet") {
                    Some(ChainNetwork::Testnet)
                } else if str_eq(n, "mainnet") {
                    Some(ChainNetwork::Bitcoin)
                } else {
                    None
                }
            },
            None => None,
        };
        match named {
            Some(net) => net,
            None => {
                let port = match &self.backend {
                    Some(b) => {
                        let tail = last_segment(b.rpc.as_str(), ':');
                        parse_u16(tail.as_str())
                    },
                    None => None,
                };
                match port {
                    Some(18443) => ChainNetwork::Regtest,
                    Some(38332) => ChainNetwork::Signet,
                    Some(18332) => ChainNetwork::Testnet,
                    Some(8332) => ChainNetwork::Bitcoin,
                    _ => ChainNetwork::Signet,
                }
            },
        }
    }

    /// Sets the recorded running flag of a registered maker.
    fn set_running(&mut self, id: &str, running: bool)
        requires
            old(self).well_formed(),
            old(self).makers().contains_key(id@),
            running ==> old(self).makers()[id@].initialized,
        ensures
            final(self).well_formed(),
            final(self).makers() == old(self).makers().insert(
                id@,
                with_running(old(self).makers()[id@], running),
            ),
            final(self).config_dir == old(self).config_dir,
            final(self).backend == old(self).backend,
            final(self).bitcoind_network == old(self).bitcoind_network,
    {
        let i = self.find(id).unwrap();
        let e = MakerEntry {
            id: self.entries[i].id.clone(),
            config: self.entries[i].config.clone(),
            initialized: self.entries[i].initialized,
            running,
        };
        self.put_entry(e);
    }

    /// Records that a registered maker's server object is gone.
    fn set_uninitialized(&mut self, id: &str)
        requires
            old(self).well_formed(),
            old(self).makers().contains_key(id@),
        ensures
            final(self).well_formed(),
            final(self).makers() == old(self).makers().insert(
                id@,
                MakerStatus {
                    config: old(self).makers()[id@].config,
                    initialized: false,
                    running: false,
                },
            ),
            final(self).config_dir == old(self).config_dir,
            final(self).backend == old(self).backend,
            final(self).bitcoind_network == old(self).bitcoind_network,
    {
        let i = self.find(id).unwrap();
        let e = MakerEntry {
            id: self.entries[i].id.clone(),
            config: self.entries[i].config.clone(),
            initialized: false,
            running: false,
        };
        self.put_entry(e);
    }

    /// Writes the maker's files, initialises its server and registers it
    /// (not started).
    fn create_maker_internal<F: Fn(MakerIo) -> Result<(), String>>(
        &mut self,
        id: String,
        config: MakerConfig,
        io: &F,
    ) -> (r: Result<(), String>)
        requires
            old(self).well_formed(),
            forall|o: MakerIo|
                #![trigger call_requires(*io, (o,))]
                create_request(*old(self), id@, config@, o@) ==> call_requires(*io, (o,)),
        ensures
            final(self).well_formed(),
            same_settings(*final(self), *old(self)),
            r is Ok ==> create_succeeds(*old(self), *io, id@, config@) && final(self).makers()
                == old(self).makers().insert(
                id@,
                created_status(old(self).config_dir_view(), id@, config@),
            ),
            r matches Err(e) ==> create_fails(*old(self), *io, id@, config@, e@) && final(self).makers() == old(self).makers(),
    {
        let ghost c0 = config@;
        let create_dir = config.data_directory.is_none();
        let mut config = MakerManager::normalize_config(&id, config);
        if config.data_directory.is_none() {
            config.data_directory = Some(self.default_maker_data_dir(id.as_str()));
        }
        assert(config@ == resolved_config(self.config_dir@, id@, c0));
        let prepared = run_io(io, MakerIo::Prepare { id: id.clone(), config: config.clone(), create_dir });
        match prepared {
            Err(e) => {
                return Err(e);
            },
            Ok(()) => {},
        }
        let network = self.infer_network();
        let (backend, wallet_name) = match &self.backend {
            Some(b) => {
                let wallet_name = match &config.wallet_name {
                    Some(w) => w.clone(),
                    None => id.clone(),
                };
                let settings = match b.kind {
                    MakerBackend::Electrum => BackendSettings::Electrum {
                        url: b.electrum_url.clone(),
                    },
                    MakerBackend::Bitcoind => BackendSettings::CoreRpc {
                        url: b.rpc.clone(),
                        rpc_user: b.rpc_user.clone(),
                        rpc_password: b.rpc_password.clone(),
                        wallet_name: wallet_name.clone(),
                        zmq_addr: b.zmq.clone(),
                    },
                };
                (settings, wallet_name)
            },
            None => {
                return Err(String::from_str("Backend is not configured yet"));
            },
        };
        let plan = LaunchPlan { id: id.clone(), config: config.clone(), backend, wallet_name, network };
        let launched = run_io(io, MakerIo::Launch { plan });
        match launched {
            Err(e) => {
                return Err(e);
            },
            Ok(()) => {},
        }
        self.put_entry(MakerEntry { id, config, initialized: true, running: false });
        Ok(())
    }

    /// Creates and registers a new maker (initialised, not started).
    pub fn create_maker<F: Fn(MakerIo) -> Result<(), String>>(
        &mut self,
        id: String,
        config: MakerConfig,
        io: &F,
    ) -> (r: Result<(), String>)
        requires
            old(self).well_formed(),
            forall|o: MakerIo|
                #![trigger call_requires(*io, (o,))]
                create_request(*old(self), id@, config@, o@) ==> call_requires(*io, (o,)),
        ensures
            final(self).well_formed(),
            same_settings(*final(self), *old(self)),
            r is Ok ==> create_succeeds(*old(self), *io, id@, config@) && final(self).makers()
                == old(self).makers().insert(
                id@,
                created_status(old(self).config_dir_view(), id@, config@),
            ),
            r matches Err(e) ==> create_fails(*old(self), *io, id@, config@, e@) && final(self).makers() == old(self).makers(),
    {
        self.create_maker_internal(id, config, io)
    }

    /// Registers a maker's configuration (normalised) without touching the
    /// world: stopped and not initialised.
    pub fn insert_config_for_testing(&mut self, id: String, config: MakerConfig)
        requires
            old(self).well_formed(),
        ensures
            final(self).well_formed(),
            same_settings(*final(self), *old(self)),
            final(self).makers() == old(self).makers().insert(
                id@,
                MakerStatus {
                    config: normalized_config(id@, config@),
                    initialized: false,
                    running: false,
                },
            ),
    {
        let config = MakerManager::normalize_config(&id, config);
        self.put_entry(MakerEntry { id, config, initialized: false, running: false });
    }

    /// Starts the server of a registered maker, initialising it first when
    /// it has no server object yet.
    pub fn start_maker<F: Fn(MakerIo) -> Result<(), String>>(&mut self, id: &String, io: &F) -> (r:
        Result<(), MakerManagerError>)
        requires
            old(self).well_formed(),
            forall|o: MakerIo|
                #![trigger call_requires(*io, (o,))]
                start_request(*old(self), id@, o@) ==> call_requires(*io, (o,)),
        ensures
            final(self).well_formed(),
            same_settings(*final(self), *old(self)),
            !old(self).makers().contains_key(id@) ==> r == Err::<(), MakerManagerError>(
                MakerManagerError::NotFound(*id),
            ) && final(self).makers() == old(self).makers(),
            old(self).makers().contains_key(id@) && old(self).makers()[id@].running ==> r == Err::<
                (),
                MakerManagerError,
            >(MakerManagerError::AlreadyRunning(*id)) && final(self).makers() == old(self).makers(),
            old(self).makers().contains_key(id@) && !old(self).makers()[id@].running ==> ({
                let s = old(self).makers()[id@];
                let base = initialized_status(*old(self), id@, s);
                let started = MakerIoView::StartServer { id: id@ };
                &&& r is Ok ==> {
                    &&& s.initialized || create_succeeds(*old(self), *io, id@, s.config)
                    &&& io_ok(*io, started)
                    &&& final(self).makers() == old(self).makers().insert(id@, with_running(base, true))
                }
                &&& r is Err ==> r->Err_0 is Other
                &&& r matches Err(MakerManagerError::Other(e)) ==> {
                    ||| !s.initialized && create_fails(*old(self), *io, id@, s.config, e@) && final(self).makers() == old(self).makers()
                    ||| (s.initialized || create_succeeds(*old(self), *io, id@, s.config)) && io_err(
                        *io,
                        started,
                        e@,
                    ) && final(self).makers() == old(self).makers().insert(id@, base)
                }
            }),
    {
        let i = match self.find(id.as_str()) {
            None => {
                return Err(MakerManagerError::NotFound(id.clone()));
            },
            Some(i) => i,
        };
        if self.entries[i].running {
            return Err(MakerManagerError::AlreadyRunning(id.clone()));
        }
        if !self.entries[i].initialized {
            let config = self.entries[i].config.clone();
            let created = self.create_maker_internal(id.clone(), config, io);
            match created {
                Err(e) => {
                    return Err(MakerManagerError::Other(e));
                },
                Ok(()) => {},
            }
        }
        let started = run_io(io, MakerIo::StartServer { id: id.clone() });
        match started {
            Ok(()) => {
                self.set_running(id.as_str(), true);
                Ok(())
            },
            Err(e) => Err(MakerManagerError::Other(e)),
        }
    }

    /// Stops the server of a running maker; the maker stays registered and
    /// initialised.
    pub fn stop_maker<F: Fn(MakerIo) -> Result<(), String>>(&mut self, id: &String, io: &F) -> (r:
        Result<(), MakerManagerError>)
        requires
            old(self).well_formed(),
            forall|o: MakerIo|
                #![trigger call_requires(*io, (o,))]
                stop_request(*old(self), id@, o@) ==> call_requires(*io, (o,)),
        ensures
            final(self).well_formed(),
            same_settings(*final(self), *old(self)),
            !old(self).makers().contains_key(id@) ==> r == Err::<(), MakerManagerError>(
                MakerManagerError::NotFound(*id),
            ),
            old(self).makers().contains_key(id@) && !old(self).makers()[id@].running ==> r == Err::<
                (),
                MakerManagerError,
            >(MakerManagerError::AlreadyStopped(*id)),
            r is Ok ==> old(self).makers().contains_key(id@) && old(self).makers()[id@].running
                && io_ok(*io, MakerIoView::StopServer { id: id@ }) && final(self).makers() == old(self).makers().insert(id@, with_running(old(self).makers()[id@], false)),
            r is Err ==> final(self).makers() == old(self).makers(),
            r matches Err(MakerManagerError::Other(e)) ==> io_err(
                *io,
                MakerIoView::StopServer { id: id@ },
                e@,
            ),
            r matches Err(e) ==> !(e is AlreadyRunning),
    {
        let i = match self.find(id.as_str()) {
            None => {
                return Err(MakerManagerError::NotFound(id.clone()));
            },
            Some(i) => i,
        };
        if !self.entries[i].running {
            return Err(MakerManagerError::AlreadyStopped(id.clone()));
        }
        let stopped = run_io(io, MakerIo::StopServer { id: id.clone() });
        match stopped {
            Ok(()) => {
                self.set_running(id.as_str(), false);
                Ok(())
            },
            Err(e) => Err(MakerManagerError::Other(e)),
        }
    }

    /// Removes a maker entirely: drops its server, stops routing its log and
    /// unregisters it.  Its data directory is left alone.  Tells whether it
    /// was registered.
    pub fn remove_maker<F: Fn(MakerIo) -> Result<(), String>>(&mut self, id: &String, io: &F) -> (r:
        bool)
        requires
            old(self).well_formed(),
            forall|o: MakerIo|
                #![trigger call_requires(*io, (o,))]
                remove_request(id@, o@) ==> call_requires(*io, (o,)),
        ensures
            final(self).well_formed(),
            same_settings(*final(self), *old(self)),
            r == old(self).makers().contains_key(id@),
            final(self).makers() == old(self).makers().remove(id@),
            io_asked(*io, MakerIoView::RemoveFromPool { id: id@ }),
            io_asked(*io, MakerIoView::UnregisterLogs { id: id@ }),
    {
        let _ = run_io(io, MakerIo::RemoveFromPool { id: id.clone() });
        let _ = run_io(io, MakerIo::UnregisterLogs { id: id.clone() });
        self.take_entry(id.as_str())
    }


    /// Restarts a maker: stops its server if running, drops the server
    /// object, re-creates it from the registered configuration and starts it.
    pub fn restart_maker<F: Fn(MakerIo) -> Result<(), String>>(&mut self, id: &String, io: &F) -> (r:
        Result<(), MakerManagerError>)
        requires
            old(self).well_formed(),
            forall|o: MakerIo|
                #![trigger call_requires(*io, (o,))]
                restart_request(*old(self), id@, o@) ==> call_requires(*io, (o,)),
        ensures
            final(self).well_formed(),
            same_settings(*final(self), *old(self)),
            !old(self).makers().contains_key(id@) ==> r == Err::<(), MakerManagerError>(
                MakerManagerError::NotFound(*id),
            ) && final(self).makers() == old(self).makers(),
            old(self).makers().contains_key(id@) ==> ({
                let s = old(self).makers()[id@];
                let stopped = MakerStatus { config: s.config, initialized: false, running: false };
                let created = created_status(old(self).config_dir_view(), id@, s.config);
                let stop_ok = !s.running || io_ok(*io, MakerIoView::StopServer { id: id@ });
                &&& s.running ==> io_asked(*io, MakerIoView::StopServer { id: id@ })
                &&& io_asked(*io, MakerIoView::RemoveFromPool { id: id@ }) || (s.running && r is Err
                    && final(self).makers() == old(self).makers() && exists|e: Seq<char>|
                    #[trigger] io_err(*io, MakerIoView::StopServer { id: id@ }, e))
                &&& r is Ok ==> {
                    &&& stop_ok
                    &&& create_succeeds(*old(self), *io, id@, s.config)
                    &&& io_ok(*io, MakerIoView::StartServer { id: id@ })
                    &&& final(self).makers() == old(self).makers().insert(id@, with_running(created, true))
                }
                &&& r is Err ==> r->Err_0 is Other
                &&& r matches Err(MakerManagerError::Other(e)) ==> {
                    ||| s.running && io_err(*io, MakerIoView::StopServer { id: id@ }, e@) && final(self).makers()
                        == old(self).makers()
                    ||| stop_ok && create_fails(*old(self), *io, id@, s.config, e@) && final(self).makers()
                        == old(self).makers().insert(id@, stopped)
                    ||| stop_ok && create_succeeds(*old(self), *io, id@, s.config) && io_err(
                        *io,
                        MakerIoView::StartServer { id: id@ },
                        e@,
                    ) && final(self).makers() == old(self).makers().insert(id@, created)
                }
            }),
    {
        let ghost m0 = *self;
        let i = match self.find(id.as_str()) {
            None => {
                return Err(MakerManagerError::NotFound(id.clone()));
            },
            Some(i) => i,
        };
        let config = self.entries[i].config.clone();
        if self.entries[i].running {
            let stopped = run_io(io, MakerIo::StopServer { id: id.clone() });
            match stopped {
                Err(e) => {
                    return Err(MakerManagerError::Other(e));
                },
                Ok(()) => {},
            }
        }
        let _ = run_io(io, MakerIo::RemoveFromPool { id: id.clone() });
        self.set_uninitialized(id.as_str());
        assert(same_settings(*self, m0));
        let created = self.create_maker_internal(id.clone(), config, io);
        match created {
            Err(e) => {
                return Err(MakerManagerError::Other(e));
            },
            Ok(()) => {},
        }
        let started = run_io(io, MakerIo::StartServer { id: id.clone() });
        match started {
            Ok(()) => {
                self.set_running(id.as_str(), true);
                Ok(())
            },
            Err(e) => Err(MakerManagerError::Other(e)),
        }
    }

    /// Replaces a maker's configuration and re-initialises it, restarting it
    /// if it was running.  When the new configuration cannot be initialised
    /// the previous one is restored; when that fails too the maker is left
    /// unregistered.
    pub fn update_config<F: Fn(MakerIo) -> Result<(), String>>(
        &mut self,
        id: &String,
        config: MakerConfig,
        io: &F,
    ) -> (r: Result<(), String>)
        requires
            old(self).well_formed(),
            forall|o: MakerIo|
                #![trigger call_requires(*io, (o,))]
                update_request(*old(self), *io, id@, config@, o@) ==> call_requires(*io, (o,)),
        ensures
            final(self).well_formed(),
            same_settings(*final(self), *old(self)),
            !old(self).makers().contains_key(id@) ==> (r matches Err(e) && e@ == "Maker with id '"@
                + id@ + "' not found"@ && final(self).makers() == old(self).makers()),
            old(self).makers().contains_key(id@) ==> ({
                let s = old(self).makers()[id@];
                let others = old(self).makers().remove(id@);
                let nc = normalized_config(id@, config@);
                let started = MakerIoView::StartServer { id: id@ };
                &&& s.running ==> io_asked(*io, MakerIoView::StopServer { id: id@ })
                &&& io_asked(*io, MakerIoView::RemoveFromPool { id: id@ })
                &&& final(self).makers().dom() == old(self).makers().dom() || final(self).makers()
                    == others
                &&& final(self).makers().contains_key(id@) ==> final(self).makers()[id@].running
                    ==> s.running && io_ok(*io, started)
                &&& final(self).makers().contains_key(id@) && s.running && !final(self).makers()[id@].running
                    ==> exists|e: Seq<char>| #[trigger] io_err(*io, started, e)
                &&& r is Ok ==> {
                    &&& create_succeeds(*old(self), *io, id@, nc)
                    &&& final(self).makers() == others.insert(
                        id@,
                        with_running(
                            created_status(old(self).config_dir_view(), id@, nc),
                            final(self).makers()[id@].running,
                        ),
                    )
                }
                &&& r matches Err(msg) ==> exists|e: Seq<char>| {
                    &&& #[trigger] create_fails(*old(self), *io, id@, nc, e)
                    &&& {
                        ||| msg@ == e && create_succeeds(*old(self), *io, id@, s.config) && final(self).makers()
                            == others.insert(
                            id@,
                            with_running(
                                created_status(old(self).config_dir_view(), id@, s.config),
                                final(self).makers()[id@].running,
                            ),
                        )
                        ||| exists|re: Seq<char>|
                            #[trigger] create_fails(*old(self), *io, id@, s.config, re) && msg@
                                == rollback_failed_text(id@, e, re) && final(self).makers() == others
                    }
                }
            }),
    {
        let ghost m0 = *self;
        let ghost c0 = config@;
        let config = MakerManager::normalize_config(id, config);
        let i = match self.find(id.as_str()) {
            None => {
                return Err(concat3("Maker with id '", id.as_str(), "' not found"));
            },
            Some(i) => i,
        };
        let previous = self.entries[i].config.clone();
        let was_running = self.entries[i].running;
        if was_running {
            let _ = run_io(io, MakerIo::StopServer { id: id.clone() });
        }
        let _ = run_io(io, MakerIo::RemoveFromPool { id: id.clone() });
        self.take_entry(id.as_str());
        let ghost m1 = *self;
        assert(same_settings(m1, m0));
        let created = self.create_maker_internal(id.clone(), config, io);
        match created {
            Ok(()) => {
                if was_running {
                    let started = run_io(io, MakerIo::StartServer { id: id.clone() });
                    match started {
                        Ok(()) => {
                            self.set_running(id.as_str(), true);
                        },
                        Err(_) => {},
                    }
                }
                assert(self.makers() == m0.makers().remove(id@).insert(
                    id@,
                    with_running(
                        created_status(m0.config_dir_view(), id@, normalized_config(id@, c0)),
                        self.makers()[id@].running,
                    ),
                ));
                Ok(())
            },
            Err(e) => {
                proof {
                    assert(create_fails(m0, *io, id@, normalized_config(id@, c0), e@));
                    assert forall|o: MakerIo| #[trigger]
                        create_request(*self, id@, previous@, o@) implies update_request(
                        m0,
                        *io,
                        id@,
                        c0,
                        o@,
                    ) by {
                        assert(create_fails(m0, *io, id@, normalized_config(id@, c0), e@));
                    }
                }
                let restored = self.create_maker_internal(id.clone(), previous, io);
                match restored {
                    Err(re) => {
                        let head = concat3("Failed to update maker '", id.as_str(), "': ");
                        let msg = concat3(head.as_str(), e.as_str(), "; rollback also failed: ");
                        let msg = concat2(msg.as_str(), re.as_str());
                        assert(msg@ == rollback_failed_text(id@, e@, re@));
                        assert(create_fails(m0, *io, id@, previous@, re@));
                        assert(create_fails(m0, *io, id@, normalized_config(id@, c0), e@));
                        Err(msg)
                    },
                    Ok(()) => {
                        if was_running {
                            let started = run_io(io, MakerIo::StartServer { id: id.clone() });
                            match started {
                                Ok(()) => {
                                    self.set_running(id.as_str(), true);
                                },
                                Err(_) => {},
                            }
                        }
                        assert(create_fails(m0, *io, id@, normalized_config(id@, c0), e@));
                        Err(e)
                    },
                }
            },
        }
    }


    /// Initialises every registered maker that has no server object yet and
    /// starts every maker that is not running.  Makers that fail to
    /// initialise or start are left stopped; none is added or removed.
    fn init_and_auto_start_all<F: Fn(MakerIo) -> Result<(), String>>(&mut self, io: &F)
        requires
            old(self).well_formed(),
            forall|o: MakerIo|
                #![trigger call_requires(*io, (o,))]
                auto_start_request(*old(self), o@) ==> call_requires(*io, (o,)),
        ensures
            final(self).well_formed(),
            same_settings(*final(self), *old(self)),
            final(self).makers().dom() == old(self).makers().dom(),
            forall|k: Seq<char>|
                #[trigger] old(self).makers().contains_key(k) ==> auto_start_step(
                    *old(self),
                    *io,
                    k,
                    old(self).makers()[k],
                    final(self).makers()[k],
                ) && auto_start_done(*old(self), *io, k, old(self).makers()[k], final(self).makers()[k]),
    {
        let ghost m0 = *self;
        let ids = self.list_makers();
        let mut i: usize = 0;
        while i < ids.len()
            invariant
                i <= ids@.len(),
                self.well_formed(),
                forall|o: MakerIo|
                    #![trigger call_requires(*io, (o,))]
                    auto_start_request(m0, o@) ==> call_requires(*io, (o,)),
                same_settings(*self, m0),
                self.makers().dom() == m0.makers().dom(),
                ids@.len() == m0.makers().len(),
                forall|a: int| 0 <= a < ids@.len() ==> m0.makers().contains_key(#[trigger] ids@[a]@),
                forall|a: int, b: int| 0 <= a < b < ids@.len() ==> ids@[a]@ != ids@[b]@,
                forall|k: Seq<char>|
                    #[trigger] m0.makers().contains_key(k) ==> if exists|a: int|
                        0 <= a < i && ids@[a]@ == k {
                        auto_start_step(m0, *io, k, m0.makers()[k], self.makers()[k])
                            && auto_start_done(m0, *io, k, m0.makers()[k], self.makers()[k])
                    } else {
                        self.makers()[k] == m0.makers()[k]
                    },
            decreases ids@.len() - i,
        {
            let ghost before = *self;
            let id = &ids[i];
            let ghost k = id@;
            assert(m0.makers().contains_key(k));
            let pos = self.find(id.as_str());
            let ghost s = self.makers()[k];
            assert(s == m0.makers()[k]) by {
                if exists|a: int| 0 <= a < i && ids@[a]@ == k {
                    let a = choose|a: int| 0 <= a < i && ids@[a]@ == k;
                    assert(ids@[a]@ != ids@[i as int]@);
                }
            }
            let mut proceed = true;
            match pos {
                Some(p) => {
                    if !self.entries[p].initialized {
                        let config = self.entries[p].config.clone();
                        let created = self.create_maker_internal(id.clone(), config, io);
                        match created {
                            Err(e) => {
                                assert(create_fails(m0, *io, k, s.config, e@));
                                proceed = false;
                            },
                            Ok(u) => {
                                assert(create_succeeds(m0, *io, k, s.config));
                            },
                        }
                    }
                },
                None => {},
            }
            let ghost mid = *self;
            if proceed {
                let started = self.start_maker(id, io);
                proof {
                    lemma_running_initialized_or_not(mid, k);
                    if let Err(MakerManagerError::Other(e)) = &started {
                        assert(io_err(*io, MakerIoView::StartServer { id: k }, e@));
                    }
                }
            }
            proof {
                assert(auto_start_step(m0, *io, k, s, self.makers()[k]));
                assert(auto_start_done(m0, *io, k, s, self.makers()[k]));
                assert forall|k2: Seq<char>| #[trigger] m0.makers().contains_key(k2) implies (if exists|
                    a: int,
                | 0 <= a < i + 1 && ids@[a]@ == k2 {
                    auto_start_step(m0, *io, k2, m0.makers()[k2], self.makers()[k2])
                        && auto_start_done(m0, *io, k2, m0.makers()[k2], self.makers()[k2])
                } else {
                    self.makers()[k2] == m0.makers()[k2]
                }) by {
                    if k2 != k {
                        assert(self.makers()[k2] == before.makers()[k2]);
                        if exists|a: int| 0 <= a < i + 1 && ids@[a]@ == k2 {
                            let a = choose|a: int| 0 <= a < i + 1 && ids@[a]@ == k2;
                            assert(a < i);
                        }
                    } else {
                        assert(ids@[i as int]@ == k2);
                    }
                }
            }
            i = i + 1;
        }
        proof {
            assert forall|k: Seq<char>| #[trigger] m0.makers().contains_key(k) implies auto_start_step(
                m0,
                *io,
                k,
                m0.makers()[k],
                self.makers()[k],
            ) && auto_start_done(m0, *io, k, m0.makers()[k], self.makers()[k]) by {
                lemma_entries_map_len(m0.entries@);
                let ghost idv = ids@.map_values(|s: String| s@);
                assert(idv.no_duplicates()) by {
                    assert forall|a: int, b: int| 0 <= a < idv.len() && 0 <= b < idv.len() && a != b
                        implies idv[a] != idv[b] by {
                        if a < b {
                            assert(ids@[a]@ != ids@[b]@);
                        } else {
                            assert(ids@[b]@ != ids@[a]@);
                        }
                    }
                }
                idv.unique_seq_to_set();
                assert(idv.to_set().subset_of(m0.makers().dom())) by {
                    assert forall|x: Seq<char>| idv.to_set().contains(x) implies m0.makers().dom().contains(x) by {
                        let a = choose|a: int| 0 <= a < idv.len() && idv[a] == x;
                        assert(m0.makers().contains_key(ids@[a]@));
                    }
                }
                if !idv.to_set().contains(k) {
                    vstd::set_lib::lemma_len_subset(idv.to_set(), m0.makers().dom().remove(k));
                    assert(false);
                }
                let a = choose|a: int| 0 <= a < idv.len() && idv[a] == k;
                assert(ids@[a]@ == k);
            }
        }
    }

    /// Drops the server object of every registered maker, stopping the
    /// running ones first (a failed stop is not retried: the object goes
    /// either way); every maker is left registered, not initialised.
    fn release_all<F: Fn(MakerIo) -> Result<(), String>>(&mut self, io: &F)
        requires
            old(self).well_formed(),
            forall|o: MakerIo|
                #![trigger call_requires(*io, (o,))]
                release_request(*old(self), o@) ==> call_requires(*io, (o,)),
        ensures
            final(self).well_formed(),
            same_settings(*final(self), *old(self)),
            final(self).makers().dom() == old(self).makers().dom(),
            forall|k: Seq<char>|
                #[trigger] old(self).makers().contains_key(k) ==> {
                    let s = old(self).makers()[k];
                    &&& final(self).makers()[k] == released(s)
                    &&& s.running ==> io_asked(*io, MakerIoView::StopServer { id: k })
                    &&& s.initialized ==> io_asked(*io, MakerIoView::RemoveFromPool { id: k })
                },
    {
        let ghost olde = self.entries@;
        let ghost m0 = *self;
        let n = self.entries.len();
        let mut i: usize = 0;
        while i < n
            invariant
                n == self.entries@.len(),
                n == olde.len(),
                i <= n,
                ids_unique(olde),
                m0.makers() == entries_map(olde),
                forall|o: MakerIo|
                    #![trigger call_requires(*io, (o,))]
                    release_request(m0, o@) ==> call_requires(*io, (o,)),
                self.config_dir == m0.config_dir,
                self.backend == m0.backend,
                self.bitcoind_network == m0.bitcoind_network,
                forall|j: int| 0 <= j < n ==> #[trigger] self.entries@[j].id@ == olde[j].id@,
                forall|j: int| i <= j < n ==> #[trigger] self.entries@[j] == olde[j],
                forall|j: int|
                    0 <= j < i ==> {
                        &&& status_of(#[trigger] self.entries@[j]) == released(status_of(olde[j]))
                        &&& olde[j].running ==> io_asked(*io, MakerIoView::StopServer { id: olde[j].id@ })
                        &&& olde[j].initialized ==> io_asked(
                            *io,
                            MakerIoView::RemoveFromPool { id: olde[j].id@ },
                        )
                    },
            decreases n - i,
        {
            proof {
                lemma_entries_map_at(olde, i as int);
            }
            let id = self.entries[i].id.clone();
            if self.entries[i].running {
                let _ = run_io(io, MakerIo::StopServer { id: id.clone() });
            }
            if self.entries[i].initialized {
                let _ = run_io(io, MakerIo::RemoveFromPool { id: id.clone() });
            }
            let config = self.entries[i].config.clone();
            let ghost prev = self.entries@;
            let ghost idv = id@;
            assert(idv == olde[i as int].id@);
            self.entries.set(i, MakerEntry { id, config, initialized: false, running: false });
            assert(self.entries@ == prev.update(i as int, self.entries@[i as int]));
            assert(self.entries@[i as int].id@ == idv);
            assert forall|j: int| 0 <= j < n implies #[trigger] self.entries@[j].id@ == olde[j].id@ by {
                if j != i {
                    assert(self.entries@[j] == prev[j]);
                    assert(prev[j].id@ == olde[j].id@);
                }
            }
            i = i + 1;
        }
        proof {
            assert(ids_unique(self.entries@)) by {
                assert forall|a: int, b: int| 0 <= a < b < self.entries@.len() implies self.entries@[a].id@
                    != self.entries@[b].id@ by {
                    assert(olde[a].id@ != olde[b].id@);
                }
            }
            assert forall|k: Seq<char>| has_id(self.entries@, k) <==> has_id(olde, k) by {
                if has_id(self.entries@, k) {
                    let j = choose|j: int| 0 <= j < self.entries@.len() && self.entries@[j].id@ == k;
                    assert(olde[j].id@ == k);
                }
                if has_id(olde, k) {
                    let j = choose|j: int| 0 <= j < olde.len() && olde[j].id@ == k;
                    assert(self.entries@[j].id@ == k);
                }
            }
            assert(self.makers().dom() =~= m0.makers().dom());
            assert forall|k: Seq<char>| #[trigger] m0.makers().contains_key(k) implies {
                let s = m0.makers()[k];
                &&& self.makers()[k] == released(s)
                &&& s.running ==> io_asked(*io, MakerIoView::StopServer { id: k })
                &&& s.initialized ==> io_asked(*io, MakerIoView::RemoveFromPool { id: k })
            } by {
                let j = choose|j: int| 0 <= j < olde.len() && olde[j].id@ == k;
                lemma_entries_map_at(olde, j);
                lemma_entries_map_at(self.entries@, j);
            }
        }
    }

    /// Sets the backend for all makers (held in memory only) and
    /// re-initialises every maker under it: each server object is dropped
    /// (a running server is stopped first), then every maker is initialised
    /// again and started.  Makers that fail to initialise or start are left
    /// stopped; none is added or removed.
    pub fn set_backend<F: Fn(MakerIo) -> Result<(), String>>(&mut self, backend: RuntimeBackend, io: &F)
        requires
            old(self).well_formed(),
            forall|o: MakerIo|
                #![trigger call_requires(*io, (o,))]
                backend_change_request(*old(self), backend@, o@) ==> call_requires(*io, (o,)),
        ensures
            final(self).well_formed(),
            final(self).backend_view() == Some(backend@),
            final(self).config_dir_view() == old(self).config_dir_view(),
            final(self).bitcoind_view() == old(self).bitcoind_view(),
            final(self).makers().dom() == old(self).makers().dom(),
            forall|k: Seq<char>|
                #[trigger] old(self).makers().contains_key(k) ==> {
                    let s = old(self).makers()[k];
                    let after = final(self).makers()[k];
                    &&& s.running ==> io_asked(*io, MakerIoView::StopServer { id: k })
                    &&& s.initialized ==> io_asked(*io, MakerIoView::RemoveFromPool { id: k })
                    &&& auto_start_step(*final(self), *io, k, released(s), after)
                    &&& auto_start_done(*final(self), *io, k, released(s), after)
                },
    {
        self.backend = Some(backend);
        let ghost m1 = *self;
        self.release_all(io);
        let ghost m2 = *self;
        self.init_and_auto_start_all(io);
        proof {
            assert forall|k: Seq<char>| #[trigger] m1.makers().contains_key(k) implies {
                let s = m1.makers()[k];
                let after = self.makers()[k];
                &&& auto_start_step(*self, *io, k, released(s), after)
                &&& auto_start_done(*self, *io, k, released(s), after)
            } by {
                assert(m2.makers().contains_key(k));
                lemma_auto_start_settings(m2, *self, *io, k, m2.makers()[k], self.makers()[k]);
            }
        }
    }

    /// Retries initialisation and auto-start of the makers that are not
    /// running, once a backend is chosen; does nothing before that.
    pub fn retry_stopped_makers<F: Fn(MakerIo) -> Result<(), String>>(&mut self, io: &F)
        requires
            old(self).well_formed(),
            forall|o: MakerIo|
                #![trigger call_requires(*io, (o,))]
                old(self).backend_view() is Some && auto_start_request(*old(self), o@) ==> call_requires(*io, (o,)),
        ensures
            final(self).well_formed(),
            same_settings(*final(self), *old(self)),
            old(self).backend_view() is None ==> final(self).makers() == old(self).makers(),
            final(self).makers().dom() == old(self).makers().dom(),
            forall|k: Seq<char>|
                #[trigger] old(self).makers().contains_key(k) ==> auto_start_step(
                    *old(self),
                    *io,
                    k,
                    old(self).makers()[k],
                    final(self).makers()[k],
                ),
            old(self).backend_view() is Some ==> forall|k: Seq<char>|
                #[trigger] old(self).makers().contains_key(k) ==> auto_start_done(
                    *old(self),
                    *io,
                    k,
                    old(self).makers()[k],
                    final(self).makers()[k],
                ),
    {
        if self.backend.is_some() {
            self.init_and_auto_start_all(io);
        }
    }


    /// The first port from `start_port` upwards that is not reserved, not
    /// used by another registered maker and reported free by `available`.
    pub fn find_available_port<P: Fn(u16) -> bool>(
        &self,
        start_port: u16,
        exclude_id: Option<&str>,
        reserved_ports: &[u16],
        available: &P,
    ) -> (r: Result<u16, String>)
        requires
            self.well_formed(),
            forall|p: u16| call_requires(*available, (p,)),
        ensures
            r matches Ok(p) ==> first_free_port(
                *self,
                start_port,
                p,
                opt_str_view(exclude_id),
                reserved_ports@,
                *available,
            ),
            r matches Err(msg) ==> no_free_port(
                *self,
                start_port,
                opt_str_view(exclude_id),
                reserved_ports@,
                *available,
            ) && msg@ == no_port_text(start_port),
    {
        let ghost ex = opt_str_view(exclude_id);
        let mut port: u32 = start_port as u32;
        while port <= 65535
            invariant
                start_port <= port <= 65536,
                self.well_formed(),
                forall|p: u16| call_requires(*available, (p,)),
                ex == opt_str_view(exclude_id),
                forall|q: u16|
                    start_port <= q < port ==> port_rejected(
                        *self,
                        q,
                        ex,
                        reserved_ports@,
                        *available,
                    ),
            decreases 65536 - port,
        {
            let p = port as u16;
            if contains_port(reserved_ports, p) {
                port = port + 1;
                continue;
            }
            if self.is_port_in_use(p, exclude_id) {
                port = port + 1;
                continue;
            }
            if available(p) {
                return Ok(p);
            }
            port = port + 1;
        }
        let head = String::from_str("Failed to find an available port starting from ");
        let num = u16_to_text(start_port);
        Err(concat2(head.as_str(), num.as_str()))
    }

    /// Network and RPC ports for a maker: the first usable port from each
    /// requested one, never the Tor ports, and the RPC port never the network
    /// port.
    pub fn assign_available_maker_ports<P: Fn(u16) -> bool>(
        &self,
        requested_network_port: u16,
        requested_rpc_port: u16,
        socks_port: u16,
        control_port: u16,
        exclude_id: Option<&str>,
        available: &P,
    ) -> (r: Result<(u16, u16), String>)
        requires
            self.well_formed(),
            forall|p: u16| call_requires(*available, (p,)),
        ensures
            r matches Ok((n, rpc)) ==> {
                &&& first_free_port(
                    *self,
                    requested_network_port,
                    n,
                    opt_str_view(exclude_id),
                    network_reserved_ports(socks_port, control_port),
                    *available,
                )
                &&& first_free_port(
                    *self,
                    requested_rpc_port,
                    rpc,
                    opt_str_view(exclude_id),
                    rpc_reserved_ports(socks_port, control_port, n),
                    *available,
                )
                &&& n != rpc && n != socks_port && n != control_port
                &&& rpc != socks_port && rpc != control_port
            },
            r matches Err(msg) ==> {
                ||| no_free_port(
                    *self,
                    requested_network_port,
                    opt_str_view(exclude_id),
                    network_reserved_ports(socks_port, control_port),
                    *available,
                ) && msg@ == no_port_text(requested_network_port)
                ||| exists|n: u16|
                    #[trigger] first_free_port(
                        *self,
                        requested_network_port,
                        n,
                        opt_str_view(exclude_id),
                        network_reserved_ports(socks_port, control_port),
                        *available,
                    ) && no_free_port(
                        *self,
                        requested_rpc_port,
                        opt_str_view(exclude_id),
                        rpc_reserved_ports(socks_port, control_port, n),
                        *available,
                    ) && msg@ == no_port_text(requested_rpc_port)
            },
    {
        let first = [socks_port, control_port];
        let network_port = match self.find_available_port(
            requested_network_port,
            exclude_id,
            first.as_slice(),
            available,
        ) {
            Ok(p) => p,
            Err(e) => {
                assert(first@ =~= network_reserved_ports(socks_port, control_port));
                return Err(e);
            },
        };
        assert(first@ =~= network_reserved_ports(socks_port, control_port));
        let second = [socks_port, control_port, network_port];
        let rpc_port = match self.find_available_port(
            requested_rpc_port,
            exclude_id,
            second.as_slice(),
            available,
        ) {
            Ok(p) => p,
            Err(e) => {
                assert(second@ =~= rpc_reserved_ports(socks_port, control_port, network_port));
                return Err(e);
            },
        };
        assert(second@ =~= rpc_reserved_ports(socks_port, control_port, network_port));
        let ghost tor = network_reserved_ports(socks_port, control_port);
        assert(tor.contains(socks_port) && tor.contains(control_port)) by {
            assert(tor[0] == socks_port);
            assert(tor[1] == control_port);
        }
        assert(rpc_reserved_ports(socks_port, control_port, network_port)[0] == socks_port);
        assert(rpc_reserved_ports(socks_port, control_port, network_port)[1] == control_port);
        assert(rpc_reserved_ports(socks_port, control_port, network_port)[2] == network_port);
        Ok((network_port, rpc_port))
    }

    /// Decides whether a bitcoind process may be started for `network`,
    /// given what the poll of the tracked process reported (the poll is
    /// ignored when none is tracked).  A tracked process found exited is
    /// forgotten.  On `Ok` the caller spawns `bitcoind` for `network` and
    /// records it with `bitcoind_started`; on `Err` nothing may be spawned.
    pub fn start_bitcoind(&mut self, network: &String, poll: ProcessPoll) -> (r: Result<(), String>)
        requires
            old(self).well_formed(),
        ensures
            final(self).well_formed(),
            final(self).makers() == old(self).makers(),
            final(self).config_dir_view() == old(self).config_dir_view(),
            final(self).backend_view() == old(self).backend_view(),
            old(self).bitcoind_view() is Some && poll is StillRunning ==> (r matches Err(e) && e@
                == "bitcoind is already running"@) && final(self).bitcoind_view() == old(self).bitcoind_view(),
            old(self).bitcoind_view() is Some ==> (poll matches ProcessPoll::Failed(pe) ==> (r matches Err(e)
                && e@ == "Failed to check bitcoind process status: "@ + pe@) && final(self).bitcoind_view()
                == old(self).bitcoind_view()),
            old(self).bitcoind_view() is None || poll is Exited ==> {
                &&& final(self).bitcoind_view() is None
                &&& network@ == "regtest"@ || network@ == "signet"@ ==> r is Ok
                &&& !(network@ == "regtest"@ || network@ == "signet"@) ==> (r matches Err(e) && e@
                    == "Invalid network '"@ + network@ + "'. Must be 'regtest' or 'signet'."@)
            },
    {
        if self.bitcoind_network.is_some() {
            match poll {
                ProcessPoll::Exited => {
                    self.bitcoind_network = None;
                },
                ProcessPoll::StillRunning => {
                    return Err(String::from_str("bitcoind is already running"));
                },
                ProcessPoll::Failed(e) => {
                    return Err(concat2("Failed to check bitcoind process status: ", e.as_str()));
                },
            }
        }
        if !(str_eq(network.as_str(), "regtest") || str_eq(network.as_str(), "signet")) {
            return Err(concat3("Invalid network '", network.as_str(), "'. Must be 'regtest' or 'signet'."));
        }
        Ok(())
    }

    /// Records the bitcoind process the caller spawned for `network`.
    pub fn bitcoind_started(&mut self, network: String)
        requires
            old(self).well_formed(),
        ensures
            final(self).well_formed(),
            final(self).bitcoind_view() == Some(network@),
            final(self).makers() == old(self).makers(),
            final(self).config_dir_view() == old(self).config_dir_view(),
            final(self).backend_view() == old(self).backend_view(),
    {
        self.bitcoind_network = Some(network);
    }

    /// Stops tracking the bitcoind process; tells whether one was tracked
    /// (the caller then owns shutting it down).
    pub fn take_bitcoind(&mut self) -> (r: bool)
        requires
            old(self).well_formed(),
        ensures
            final(self).well_formed(),
            r == old(self).bitcoind_view() is Some,
            final(self).bitcoind_view() is None,
            final(self).makers() == old(self).makers(),
            final(self).config_dir_view() == old(self).config_dir_view(),
            final(self).backend_view() == old(self).backend_view(),
    {
        let was_tracked = self.bitcoind_network.is_some();
        self.bitcoind_network = None;
        was_tracked
    }

    /// `(running, network)` of the tracked bitcoind process, given what its
    /// poll reported (ignored when none is tracked).  A process found exited
    /// is forgotten.
    pub fn bitcoind_status(&mut self, poll: ProcessPoll) -> (r: (bool, Option<String>))
        requires
            old(self).well_formed(),
        ensures
            final(self).well_formed(),
            final(self).makers() == old(self).makers(),
            final(self).config_dir_view() == old(self).config_dir_view(),
            final(self).backend_view() == old(self).backend_view(),
            final(self).bitcoind_view() == kept_after_status(old(self).bitcoind_view(), poll),
            r.0 == status_report(old(self).bitcoind_view(), poll).0,
            opt_view(r.1) == status_report(old(self).bitcoind_view(), poll).1,
    {
        if self.bitcoind_network.is_none() {
            return (false, None);
        }
        match poll {
            ProcessPoll::Exited => {
                self.bitcoind_network = None;
                (false, None)
            },
            ProcessPoll::StillRunning => (true, clone_opt_string(&self.bitcoind_network)),
            ProcessPoll::Failed(_) => (false, None),
        }
    }

}

} // verus!
