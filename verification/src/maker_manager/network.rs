//! Which chain makers are initialised for.
use vstd::prelude::*;

use crate::maker_manager::config::RuntimeBackendView;
use crate::text::{last_segment_spec, parse_u16_spec};

verus! {

/// The chain a maker runs on.
#[derive(Clone, Copy, Debug, PartialEq, Eq, Structural)]
pub enum ChainNetwork {
    Regtest,
    Signet,
    Testnet,
    Bitcoin,
}

/// The network a Bitcoin Core RPC port conventionally belongs to; signet
/// when the port is unknown or absent.
pub open spec fn network_for_port(port: Option<u16>) -> ChainNetwork {
    match port {
        Some(18443) => ChainNetwork::Regtest,
        Some(38332) => ChainNetwork::Signet,
        Some(18332) => ChainNetwork::Testnet,
        Some(8332) => ChainNetwork::Bitcoin,
        _ => ChainNetwork::Signet,
    }
}

/// The network named by the dashboard-started bitcoind, if it names one.
pub open spec fn network_named(name: Seq<char>) -> Option<ChainNetwork> {
    if name == "regtest"@ {
        Some(ChainNetwork::Regtest)
    } else if name == "signet"@ {
        Some(ChainNetwork::Signet)
    } else if name == "testnet"@ {
        Some(ChainNetwork::Testnet)
    } else if name == "mainnet"@ {
        Some(ChainNetwork::Bitcoin)
    } else {
        None
    }
}

/// The network makers are initialised for: the network of the bitcoind the
/// dashboard started, else the one the backend's RPC port suggests.
pub open spec fn inferred_network(
    bitcoind: Option<Seq<char>>,
    backend: Option<RuntimeBackendView>,
) -> ChainNetwork {
    let named = match bitcoind {
        Some(n) => network_named(n),
        None => None,
    };
    match named {
        Some(net) => net,
        None => network_for_port(
            match backend {
                Some(b) => parse_u16_spec(last_segment_spec(b.rpc, ':')),
                None => None,
            },
        ),
    }
}

/// The bitcoind the dashboard started decides the network by its name,
/// whatever the backend: regtest, signet, testnet, and mainnet for Bitcoin.
pub proof fn lemma_started_bitcoind_network(name: Seq<char>, backend: Option<RuntimeBackendView>)
    ensures
        name == "regtest"@ ==> inferred_network(Some(name), backend) == ChainNetwork::Regtest,
        name == "signet"@ ==> inferred_network(Some(name), backend) == ChainNetwork::Signet,
        name == "testnet"@ ==> inferred_network(Some(name), backend) == ChainNetwork::Testnet,
        name == "mainnet"@ ==> inferred_network(Some(name), backend) == ChainNetwork::Bitcoin,
{
    reveal_strlit("regtest");
    reveal_strlit("signet");
    reveal_strlit("testnet");
    reveal_strlit("mainnet");
    assert("regtest"@ != "signet"@ && "regtest"@ != "testnet"@ && "regtest"@ != "mainnet"@) by {
        assert("regtest"@[0] != "signet"@[0]);
        assert("regtest"@[0] != "testnet"@[0]);
        assert("regtest"@[0] != "mainnet"@[0]);
    }
    assert("signet"@ != "testnet"@ && "signet"@ != "mainnet"@) by {
        assert("signet"@[0] != "testnet"@[0]);
        assert("signet"@[0] != "mainnet"@[0]);
    }
    assert("testnet"@ != "mainnet"@) by {
        assert("testnet"@[0] != "mainnet"@[0]);
    }
}

} // verus!
