//! The network a client talks to.

use crate::primitives::types::L1ChainId;
use std::str::FromStr;
use vstd::prelude::*;

verus! {

/// Network to be used for a client.
#[derive(Debug, Clone, Copy, PartialEq, Eq, Structural)]
pub enum Network {
    /// The main network.
    Mainnet,
    /// A self-hosted network.
    Localhost,
    /// Unknown network type.
    Unknown,
    /// Test network for testkit purposes.
    Test,
}

/// The network a name stands for. `unknown` is no name to ask for.
pub open spec fn network_named(name: Seq<char>) -> Option<Network> {
    if name == "mainnet"@ {
        Some(Network::Mainnet)
    } else if name == "localhost"@ {
        Some(Network::Localhost)
    } else if name == "test"@ {
        Some(Network::Test)
    } else {
        None
    }
}

/// The network with the given chain identifier.
pub open spec fn network_of_chain(chain_id: u64) -> Network {
    if chain_id == 21 {
        Network::Mainnet
    } else if chain_id == 9 {
        Network::Localhost
    } else {
        Network::Unknown
    }
}

impl Network {
    /// The name of the network, in lower case.
    pub open spec fn name_spec(self) -> Seq<char> {
        match self {
            Network::Mainnet => "mainnet"@,
            Network::Localhost => "localhost"@,
            Network::Unknown => "unknown"@,
            Network::Test => "test"@,
        }
    }

    /// Whether the network has a chain identifier of its own.
    pub open spec fn has_chain_id(self) -> bool {
        self is Mainnet || self is Localhost
    }

    /// Returns the network of a chain identifier; `Unknown` for any
    /// identifier but that of the main network and of a self-hosted one.
    pub fn from_chain_id(chain_id: L1ChainId) -> (network: Self)
        ensures
            network == network_of_chain(chain_id.0),
    {
        if chain_id.0 == 21 {
            Network::Mainnet
        } else if chain_id.0 == 9 {
            Network::Localhost
        } else {
            Network::Unknown
        }
    }

    /// Returns the chain identifier of the network. The unknown network and
    /// the test network have none.
    pub fn chain_id(self) -> (chain_id: L1ChainId)
        requires
            self.has_chain_id(),
        ensures
            chain_id.0 == (if self is Mainnet {
                21u64
            } else {
                9u64
            }),
            network_of_chain(chain_id.0) == self,
    {
        match self {
            Network::Mainnet => L1ChainId(21),
            _ => L1ChainId(9),
        }
    }

    /// Whether `chain_id()` may be called.
    pub fn knows_chain_id(self) -> (known: bool)
        ensures
            known == self.has_chain_id(),
    {
        match self {
            Network::Mainnet => true,
            Network::Localhost => true,
            _ => false,
        }
    }

    /// The name of the network, in lower case.
    pub fn name(self) -> (name: String)
        ensures
            name@ == self.name_spec(),
    {
        match self {
            Network::Mainnet => "mainnet".to_owned(),
            Network::Localhost => "localhost".to_owned(),
            Network::Unknown => "unknown".to_owned(),
            Network::Test => "test".to_owned(),
        }
    }

    /// Reads the name of a network. Any text but `mainnet`, `localhost` and
    /// `test` is handed back as the error.
    pub fn parse(string: &str) -> (parsed: Result<Self, String>)
        ensures
            match parsed {
                Ok(network) => network_named(string@) == Some(network),
                Err(rejected) => network_named(string@) is None && rejected@ == string@,
            },
    {
        let given = string.to_owned();
        if given == "mainnet".to_owned() {
            Ok(Network::Mainnet)
        } else if given == "localhost".to_owned() {
            Ok(Network::Localhost)
        } else if given == "test".to_owned() {
            Ok(Network::Test)
        } else {
            Err(given)
        }
    }
}

impl FromStr for Network {
    type Err = String;

    /// Reads the name of a network, as `Network::parse` does: `mainnet`,
    /// `localhost` and `test` give their network, and any other text is
    /// handed back as the error.
    fn from_str(string: &str) -> (parsed: Result<Self, String>)
        ensures
            match parsed {
                Ok(network) => network_named(string@) == Some(network),
                Err(rejected) => network_named(string@) is None && rejected@ == string@,
            },
    {
        Network::parse(string)
    }
}

/// The networks that have a chain identifier are found again by it.
pub proof fn lemma_chain_id_round_trip(network: Network)
    requires
        network.has_chain_id(),
    ensures
        network_of_chain(
            if network is Mainnet {
                21u64
            } else {
                9u64
            },
        ) == network,
{
}

/// Every network but the unknown one is found again by its name, and the
/// name of the unknown one stands for no network.
pub proof fn lemma_name_round_trip(network: Network)
    ensures
        !(network is Unknown) ==> network_named(network.name_spec()) == Some(network),
        network is Unknown ==> network_named(network.name_spec()) is None,
{
    reveal_strlit("mainnet");
    reveal_strlit("localhost");
    reveal_strlit("unknown");
    reveal_strlit("test");
    assert("mainnet"@.len() == 7);
    assert("localhost"@.len() == 9);
    assert("unknown"@[0] == 'u');
    assert("mainnet"@[0] == 'm');
    assert("test"@.len() == 4);
}

} // verus!
