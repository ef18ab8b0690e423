//! The backend endpoints: reporting the chosen chain-data backend and
//! turning a startup-screen submission into one.
use vstd::prelude::*;
use vstd::string::StringExecFns;

use crate::api::dto::{BackendInfo, SetBackendRequest};
use crate::maker_manager::{
    default_backend_view, opt_view, MakerBackend, RuntimeBackend,
    RuntimeBackendView,
};

verus! {

/// The answer to a bitcoind backend submitted without both credentials.
pub const CREDENTIALS_REQUIRED: &'static str =
    "Both rpc_user and rpc_password must be provided for the bitcoind backend";

/// What `GET /api/backend` reports: the chosen backend without its RPC
/// password, or only that none is chosen.
pub fn backend_info(backend: Option<&RuntimeBackend>) -> (r: BackendInfo)
    ensures
        r.configured == backend is Some,
        backend is None ==> r.kind is None && r.rpc is None && r.zmq is None && r.rpc_user is None
            && r.electrum_url is None,
        backend matches Some(b) ==> {
            &&& r.kind == Some(b.kind)
            &&& opt_view(r.rpc) == Some(b.rpc@)
            &&& opt_view(r.zmq) == Some(b.zmq@)
            &&& opt_view(r.rpc_user) == Some(b.rpc_user@)
            &&& opt_view(r.electrum_url) == Some(b.electrum_url@)
        },
{
    match backend {
        Some(b) => BackendInfo {
            configured: true,
            kind: Some(b.kind),
            rpc: Some(b.rpc.clone()),
            zmq: Some(b.zmq.clone()),
            rpc_user: Some(b.rpc_user.clone()),
            electrum_url: Some(b.electrum_url.clone()),
        },
        None => BackendInfo {
            configured: false,
            kind: None,
            rpc: None,
            zmq: None,
            rpc_user: None,
            electrum_url: None,
        },
    }
}

pub open spec fn text_or(a: Option<Seq<char>>, d: Seq<char>) -> Seq<char> {
    match a {
        Some(x) => x,
        None => d,
    }
}

/// The backend a startup-screen submission chooses: each field given, or
/// its prefilled default.
pub open spec fn requested_backend(
    kind: MakerBackend,
    rpc: Option<Seq<char>>,
    zmq: Option<Seq<char>>,
    rpc_user: Option<Seq<char>>,
    rpc_password: Option<Seq<char>>,
    electrum_url: Option<Seq<char>>,
) -> RuntimeBackendView {
    let d = default_backend_view();
    RuntimeBackendView {
        kind,
        rpc: text_or(rpc, d.rpc),
        zmq: text_or(zmq, d.zmq),
        rpc_user: text_or(rpc_user, d.rpc_user),
        rpc_password: text_or(rpc_password, d.rpc_password),
        electrum_url: text_or(electrum_url, d.electrum_url),
    }
}

/// A submitted field is kept as given, and only a field left out takes its
/// prefilled default; the kind is the one submitted.
pub proof fn lemma_requested_backend_fields(
    kind: MakerBackend,
    rpc: Option<Seq<char>>,
    zmq: Option<Seq<char>>,
    rpc_user: Option<Seq<char>>,
    rpc_password: Option<Seq<char>>,
    electrum_url: Option<Seq<char>>,
)
    ensures
        requested_backend(kind, rpc, zmq, rpc_user, rpc_password, electrum_url).kind == kind,
            rpc matches Some(x) ==> requested_backend(kind, rpc, zmq, rpc_user, rpc_password, electrum_url).rpc == x,
            rpc is None ==> requested_backend(kind, rpc, zmq, rpc_user, rpc_password, electrum_url).rpc == default_backend_view().rpc,
            zmq matches Some(x) ==> requested_backend(kind, rpc, zmq, rpc_user, rpc_password, electrum_url).zmq == x,
            zmq is None ==> requested_backend(kind, rpc, zmq, rpc_user, rpc_password, electrum_url).zmq == default_backend_view().zmq,
            rpc_user matches Some(x) ==> requested_backend(kind, rpc, zmq, rpc_user, rpc_password, electrum_url).rpc_user == x,
            rpc_user is None ==> requested_backend(kind, rpc, zmq, rpc_user, rpc_password, electrum_url).rpc_user == default_backend_view().rpc_user,
            rpc_password matches Some(x) ==> requested_backend(kind, rpc, zmq, rpc_user, rpc_password, electrum_url).rpc_password == x,
            rpc_password is None ==> requested_backend(kind, rpc, zmq, rpc_user, rpc_password, electrum_url).rpc_password == default_backend_view().rpc_password,
            electrum_url matches Some(x) ==> requested_backend(kind, rpc, zmq, rpc_user, rpc_password, electrum_url).electrum_url == x,
            electrum_url is None ==> requested_backend(kind, rpc, zmq, rpc_user, rpc_password, electrum_url).electrum_url == default_backend_view().electrum_url,
{
}

fn text_or_default(a: Option<String>, d: String) -> (r: String)
    ensures
        r@ == text_or(opt_view(a), d@),
{
    match a {
        Some(x) => x,
        None => d,
    }
}

/// Turns a `POST /api/backend` body into the backend to use.  A bitcoind
/// backend needs both RPC credentials; every missing field takes its
/// prefilled default.
pub fn runtime_backend_from_request(body: SetBackendRequest) -> (r: Result<RuntimeBackend, String>)
    ensures
        r is Err <==> (body.kind == MakerBackend::Bitcoind && (body.rpc_user is None
            || body.rpc_password is None)),
        r matches Err(m) ==> m@ == CREDENTIALS_REQUIRED@,
        r matches Ok(b) ==> b@ == requested_backend(
            body.kind,
            opt_view(body.rpc),
            opt_view(body.zmq),
            opt_view(body.rpc_user),
            opt_view(body.rpc_password),
            opt_view(body.electrum_url),
        ),
        r matches Ok(b) ==> (body.rpc matches Some(x) ==> b.rpc@ == x@),
        r matches Ok(b) ==> (body.zmq matches Some(x) ==> b.zmq@ == x@),
        r matches Ok(b) ==> (body.rpc_user matches Some(x) ==> b.rpc_user@ == x@),
        r matches Ok(b) ==> (body.rpc_password matches Some(x) ==> b.rpc_password@ == x@),
        r matches Ok(b) ==> (body.electrum_url matches Some(x) ==> b.electrum_url@ == x@),
{
    if body.kind == MakerBackend::Bitcoind && (body.rpc_user.is_none()
        || body.rpc_password.is_none()) {
        return Err(String::from_str(CREDENTIALS_REQUIRED));
    }
    let defaults = RuntimeBackend::default();
    Ok(
        RuntimeBackend {
            kind: body.kind,
            rpc: text_or_default(body.rpc, defaults.rpc),
            zmq: text_or_default(body.zmq, defaults.zmq),
            rpc_user: text_or_default(body.rpc_user, defaults.rpc_user),
            rpc_password: text_or_default(body.rpc_password, defaults.rpc_password),
            electrum_url: text_or_default(body.electrum_url, defaults.electrum_url),
        },
    )
}

} // verus!
