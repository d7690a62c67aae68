//! The chain lookup tables: which networks are served, by which worker
//! kind, and at which endpoint.

use vstd::prelude::*;
use vstd::string::StrSliceExecFns;

verus! {

/// A known network.
#[derive(Debug, Clone, Copy, PartialEq, Eq, Structural)]
pub enum Network {
    EthereumMainnet,
    Goerli,
    Optimism,
    Bsc,
    Gnosis,
    Polygon,
    Base,
    BaseTestnet,
    ArbitrumOne,
    Avalanche,
    Linea,
    Sepolia,
}

/// A network that event indexing supports.
#[derive(Debug, Clone, Copy, PartialEq, Eq, Structural)]
pub enum SupportedNetwork {
    EthereumMainnet,
    Goerli,
    Optimism,
    Bsc,
    Gnosis,
    Polygon,
    Base,
    BaseTestnet,
    ArbitrumOne,
    Avalanche,
    Linea,
    Sepolia,
}

/// A network served by the primary worker.
#[derive(Debug, Clone, Copy, PartialEq, Eq, Structural)]
pub enum SkarNetwork {
    EthereumMainnet,
    Polygon,
    Gnosis,
    Bsc,
    Goerli,
    Optimism,
    ArbitrumOne,
    Linea,
    Sepolia,
    Base,
}

/// A network served by the archive worker.
#[derive(Debug, Clone, Copy, PartialEq, Eq, Structural)]
pub enum EthArchiveNetwork {
    Polygon,
    ArbitrumOne,
    Bsc,
    Avalanche,
    Optimism,
    BaseTestnet,
    Linea,
}

/// The worker kind behind an endpoint.
#[derive(Debug, Clone, Copy, PartialEq, Eq, Structural)]
pub enum HypersyncWorkerType {
    Skar,
    EthArchive,
}

/// A default endpoint: its URL and the worker kind serving it.
#[derive(Debug, PartialEq, Eq)]
pub struct HypersyncConfig {
    pub endpoint_url: String,
    pub worker_type: HypersyncWorkerType,
}

/// How looking up a default endpoint fails.
#[derive(Debug, Clone, Copy, PartialEq, Eq, Structural)]
pub enum NetworkError {
    UnknownNetworkId(u64),
    UnsupportedNetwork,
    NoHypersyncBackend,
}

/// The network a chain id names.
pub open spec fn spec_network_of_id(id: u64) -> Option<Network> {
    if id == 1 {
        Some(Network::EthereumMainnet)
    } else if id == 5 {
        Some(Network::Goerli)
    } else if id == 10 {
        Some(Network::Optimism)
    } else if id == 56 {
        Some(Network::Bsc)
    } else if id == 100 {
        Some(Network::Gnosis)
    } else if id == 137 {
        Some(Network::Polygon)
    } else if id == 8453 {
        Some(Network::Base)
    } else if id == 84531 {
        Some(Network::BaseTestnet)
    } else if id == 42161 {
        Some(Network::ArbitrumOne)
    } else if id == 43114 {
        Some(Network::Avalanche)
    } else if id == 59144 {
        Some(Network::Linea)
    } else if id == 11155111 {
        Some(Network::Sepolia)
    } else {
        None
    }
}

/// The chain id of a supported network.
pub open spec fn spec_chain_id(n: SupportedNetwork) -> u64 {
    match n {
        SupportedNetwork::EthereumMainnet => 1,
        SupportedNetwork::Goerli => 5,
        SupportedNetwork::Optimism => 10,
        SupportedNetwork::Bsc => 56,
        SupportedNetwork::Gnosis => 100,
        SupportedNetwork::Polygon => 137,
        SupportedNetwork::Base => 8453,
        SupportedNetwork::BaseTestnet => 84531,
        SupportedNetwork::ArbitrumOne => 42161,
        SupportedNetwork::Avalanche => 43114,
        SupportedNetwork::Linea => 59144,
        SupportedNetwork::Sepolia => 11155111,
    }
}

/// The network a supported network names.
pub open spec fn spec_network_of_supported(n: SupportedNetwork) -> Network {
    match n {
        SupportedNetwork::EthereumMainnet => Network::EthereumMainnet,
        SupportedNetwork::Goerli => Network::Goerli,
        SupportedNetwork::Optimism => Network::Optimism,
        SupportedNetwork::Bsc => Network::Bsc,
        SupportedNetwork::Gnosis => Network::Gnosis,
        SupportedNetwork::Polygon => Network::Polygon,
        SupportedNetwork::Base => Network::Base,
        SupportedNetwork::BaseTestnet => Network::BaseTestnet,
        SupportedNetwork::ArbitrumOne => Network::ArbitrumOne,
        SupportedNetwork::Avalanche => Network::Avalanche,
        SupportedNetwork::Linea => Network::Linea,
        SupportedNetwork::Sepolia => Network::Sepolia,
    }
}

/// The supported network a network names, where it is supported.
pub open spec fn spec_supported_of_network(n: Network) -> Option<SupportedNetwork> {
    match n {
        Network::EthereumMainnet => Some(SupportedNetwork::EthereumMainnet),
        Network::Goerli => Some(SupportedNetwork::Goerli),
        Network::Optimism => Some(SupportedNetwork::Optimism),
        Network::Bsc => Some(SupportedNetwork::Bsc),
        Network::Gnosis => Some(SupportedNetwork::Gnosis),
        Network::Polygon => Some(SupportedNetwork::Polygon),
        Network::Base => Some(SupportedNetwork::Base),
        Network::BaseTestnet => Some(SupportedNetwork::BaseTestnet),
        Network::ArbitrumOne => Some(SupportedNetwork::ArbitrumOne),
        Network::Avalanche => Some(SupportedNetwork::Avalanche),
        Network::Linea => Some(SupportedNetwork::Linea),
        Network::Sepolia => Some(SupportedNetwork::Sepolia),
    }
}

/// The primary-worker network a network maps to, where one serves it.
pub open spec fn spec_skar_of(n: Network) -> Option<SkarNetwork> {
    match n {
        Network::EthereumMainnet => Some(SkarNetwork::EthereumMainnet),
        Network::Polygon => Some(SkarNetwork::Polygon),
        Network::Gnosis => Some(SkarNetwork::Gnosis),
        Network::Bsc => Some(SkarNetwork::Bsc),
        Network::Goerli => Some(SkarNetwork::Goerli),
        Network::Optimism => Some(SkarNetwork::Optimism),
        Network::ArbitrumOne => Some(SkarNetwork::ArbitrumOne),
        Network::Linea => Some(SkarNetwork::Linea),
        Network::Sepolia => Some(SkarNetwork::Sepolia),
        Network::Base => Some(SkarNetwork::Base),
        Network::BaseTestnet => None,
        Network::Avalanche => None,
    }
}

/// The archive-worker network a network maps to, where one serves it.
pub open spec fn spec_eth_archive_of(n: Network) -> Option<EthArchiveNetwork> {
    match n {
        Network::Polygon => Some(EthArchiveNetwork::Polygon),
        Network::ArbitrumOne => Some(EthArchiveNetwork::ArbitrumOne),
        Network::Bsc => Some(EthArchiveNetwork::Bsc),
        Network::Avalanche => Some(EthArchiveNetwork::Avalanche),
        Network::Optimism => Some(EthArchiveNetwork::Optimism),
        Network::BaseTestnet => Some(EthArchiveNetwork::BaseTestnet),
        Network::Linea => Some(EthArchiveNetwork::Linea),
        _ => None,
    }
}

/// The endpoint URL of a primary-worker network.
pub open spec fn spec_skar_url(n: SkarNetwork) -> Seq<char> {
    match n {
        SkarNetwork::EthereumMainnet => "https://eth.hypersync.xyz"@,
        SkarNetwork::Polygon => "https://polygon.hypersync.xyz"@,
        SkarNetwork::Gnosis => "https://gnosis.hypersync.xyz"@,
        SkarNetwork::Bsc => "https://bsc.hypersync.xyz"@,
        SkarNetwork::Goerli => "https://goerli.hypersync.xyz"@,
        SkarNetwork::Optimism => "https://optimism.hypersync.xyz"@,
        SkarNetwork::ArbitrumOne => "https://arbitrum.hypersync.xyz"@,
        SkarNetwork::Linea => "https://linea.hypersync.xyz"@,
        SkarNetwork::Sepolia => "https://sepolia.hypersync.xyz"@,
        SkarNetwork::Base => "https://base.hypersync.xyz"@,
    }
}

/// The endpoint URL of an archive-worker network.
pub open spec fn spec_eth_archive_url(n: EthArchiveNetwork) -> Seq<char> {
    match n {
        EthArchiveNetwork::Polygon => "http://46.4.5.110:77"@,
        EthArchiveNetwork::ArbitrumOne => "http://46.4.5.110:75"@,
        EthArchiveNetwork::Bsc => "http://46.4.5.110:73"@,
        EthArchiveNetwork::Avalanche => "http://46.4.5.110:72"@,
        EthArchiveNetwork::Optimism => "http://46.4.5.110:74"@,
        EthArchiveNetwork::BaseTestnet => "http://46.4.5.110:78"@,
        EthArchiveNetwork::Linea => "http://46.4.5.110:76"@,
    }
}

impl Network {
    /// The network a chain id names, where it names one.
    pub fn from_network_id(id: u64) -> (r: Option<Network>)
        ensures
            r == spec_network_of_id(id),
    {
        if id == 1 {
            Some(Network::EthereumMainnet)
        } else if id == 5 {
            Some(Network::Goerli)
        } else if id == 10 {
            Some(Network::Optimism)
        } else if id == 56 {
            Some(Network::Bsc)
        } else if id == 100 {
            Some(Network::Gnosis)
        } else if id == 137 {
            Some(Network::Polygon)
        } else if id == 8453 {
            Some(Network::Base)
        } else if id == 84531 {
            Some(Network::BaseTestnet)
        } else if id == 42161 {
            Some(Network::ArbitrumOne)
        } else if id == 43114 {
            Some(Network::Avalanche)
        } else if id == 59144 {
            Some(Network::Linea)
        } else if id == 11155111 {
            Some(Network::Sepolia)
        } else {
            None
        }
    }

    /// The network a supported network names.
    pub fn from_supported(n: SupportedNetwork) -> (r: Network)
        ensures
            r == spec_network_of_supported(n),
    {
        match n {
            SupportedNetwork::EthereumMainnet => Network::EthereumMainnet,
            SupportedNetwork::Goerli => Network::Goerli,
            SupportedNetwork::Optimism => Network::Optimism,
            SupportedNetwork::Bsc => Network::Bsc,
            SupportedNetwork::Gnosis => Network::Gnosis,
            SupportedNetwork::Polygon => Network::Polygon,
            SupportedNetwork::Base => Network::Base,
            SupportedNetwork::BaseTestnet => Network::BaseTestnet,
            SupportedNetwork::ArbitrumOne => Network::ArbitrumOne,
            SupportedNetwork::Avalanche => Network::Avalanche,
            SupportedNetwork::Linea => Network::Linea,
            SupportedNetwork::Sepolia => Network::Sepolia,
        }
    }
}

impl SupportedNetwork {
    /// Every supported network, in a fixed order.
    pub fn all() -> (r: Vec<SupportedNetwork>)
        ensures
            r@ == seq![
                SupportedNetwork::EthereumMainnet,
                SupportedNetwork::Goerli,
                SupportedNetwork::Optimism,
                SupportedNetwork::Bsc,
                SupportedNetwork::Gnosis,
                SupportedNetwork::Polygon,
                SupportedNetwork::Base,
                SupportedNetwork::BaseTestnet,
                SupportedNetwork::ArbitrumOne,
                SupportedNetwork::Avalanche,
                SupportedNetwork::Linea,
                SupportedNetwork::Sepolia,
            ],
    {
        let mut all: Vec<SupportedNetwork> = Vec::new();
        all.push(SupportedNetwork::EthereumMainnet);
        all.push(SupportedNetwork::Goerli);
        all.push(SupportedNetwork::Optimism);
        all.push(SupportedNetwork::Bsc);
        all.push(SupportedNetwork::Gnosis);
        all.push(SupportedNetwork::Polygon);
        all.push(SupportedNetwork::Base);
        all.push(SupportedNetwork::BaseTestnet);
        all.push(SupportedNetwork::ArbitrumOne);
        all.push(SupportedNetwork::Avalanche);
        all.push(SupportedNetwork::Linea);
        all.push(SupportedNetwork::Sepolia);
        proof {
            assert(all@ =~= seq![
                SupportedNetwork::EthereumMainnet,
                SupportedNetwork::Goerli,
                SupportedNetwork::Optimism,
                SupportedNetwork::Bsc,
                SupportedNetwork::Gnosis,
                SupportedNetwork::Polygon,
                SupportedNetwork::Base,
                SupportedNetwork::BaseTestnet,
                SupportedNetwork::ArbitrumOne,
                SupportedNetwork::Avalanche,
                SupportedNetwork::Linea,
                SupportedNetwork::Sepolia,
            ]);
        }
        all
    }

    /// The chain id of this network.
    pub fn chain_id(&self) -> (r: u64)
        ensures
            r == spec_chain_id(*self),
    {
        match self {
            SupportedNetwork::EthereumMainnet => 1,
            SupportedNetwork::Goerli => 5,
            SupportedNetwork::Optimism => 10,
            SupportedNetwork::Bsc => 56,
            SupportedNetwork::Gnosis => 100,
            SupportedNetwork::Polygon => 137,
            SupportedNetwork::Base => 8453,
            SupportedNetwork::BaseTestnet => 84531,
            SupportedNetwork::ArbitrumOne => 42161,
            SupportedNetwork::Avalanche => 43114,
            SupportedNetwork::Linea => 59144,
            SupportedNetwork::Sepolia => 11155111,
        }
    }

    /// The supported network a network names, where it is supported.
    pub fn try_from_network(n: Network) -> (r: Option<SupportedNetwork>)
        ensures
            r == spec_supported_of_network(n),
    {
        match n {
            Network::EthereumMainnet => Some(SupportedNetwork::EthereumMainnet),
            Network::Goerli => Some(SupportedNetwork::Goerli),
            Network::Optimism => Some(SupportedNetwork::Optimism),
            Network::Bsc => Some(SupportedNetwork::Bsc),
            Network::Gnosis => Some(SupportedNetwork::Gnosis),
            Network::Polygon => Some(SupportedNetwork::Polygon),
            Network::Base => Some(SupportedNetwork::Base),
            Network::BaseTestnet => Some(SupportedNetwork::BaseTestnet),
            Network::ArbitrumOne => Some(SupportedNetwork::ArbitrumOne),
            Network::Avalanche => Some(SupportedNetwork::Avalanche),
            Network::Linea => Some(SupportedNetwork::Linea),
            Network::Sepolia => Some(SupportedNetwork::Sepolia),
        }
    }
}

impl SkarNetwork {
    /// The primary-worker network serving a network, where one does.
    pub fn try_from_network(n: Network) -> (r: Option<SkarNetwork>)
        ensures
            r == spec_skar_of(n),
    {
        match n {
            Network::EthereumMainnet => Some(SkarNetwork::EthereumMainnet),
            Network::Polygon => Some(SkarNetwork::Polygon),
            Network::Gnosis => Some(SkarNetwork::Gnosis),
            Network::Bsc => Some(SkarNetwork::Bsc),
            Network::Goerli => Some(SkarNetwork::Goerli),
            Network::Optimism => Some(SkarNetwork::Optimism),
            Network::ArbitrumOne => Some(SkarNetwork::ArbitrumOne),
            Network::Linea => Some(SkarNetwork::Linea),
            Network::Sepolia => Some(SkarNetwork::Sepolia),
            Network::Base => Some(SkarNetwork::Base),
            Network::BaseTestnet => None,
            Network::Avalanche => None,
        }
    }
}

impl EthArchiveNetwork {
    /// The archive-worker network serving a network, where one does.
    pub fn try_from_network(n: Network) -> (r: Option<EthArchiveNetwork>)
        ensures
            r == spec_eth_archive_of(n),
    {
        match n {
            Network::Polygon => Some(EthArchiveNetwork::Polygon),
            Network::ArbitrumOne => Some(EthArchiveNetwork::ArbitrumOne),
            Network::Bsc => Some(EthArchiveNetwork::Bsc),
            Network::Avalanche => Some(EthArchiveNetwork::Avalanche),
            Network::Optimism => Some(EthArchiveNetwork::Optimism),
            Network::BaseTestnet => Some(EthArchiveNetwork::BaseTestnet),
            Network::Linea => Some(EthArchiveNetwork::Linea),
            _ => None,
        }
    }
}

/// The endpoint URL of an archive-worker network.
pub fn network_to_eth_archive_url(network: &EthArchiveNetwork) -> (r: String)
    ensures
        r@ == spec_eth_archive_url(*network),
{
    match network {
        EthArchiveNetwork::Polygon => "http://46.4.5.110:77".to_owned(),
        EthArchiveNetwork::ArbitrumOne => "http://46.4.5.110:75".to_owned(),
        EthArchiveNetwork::Bsc => "http://46.4.5.110:73".to_owned(),
        EthArchiveNetwork::Avalanche => "http://46.4.5.110:72".to_owned(),
        EthArchiveNetwork::Optimism => "http://46.4.5.110:74".to_owned(),
        EthArchiveNetwork::BaseTestnet => "http://46.4.5.110:78".to_owned(),
        EthArchiveNetwork::Linea => "http://46.4.5.110:76".to_owned(),
    }
}

/// The endpoint URL of a primary-worker network.
pub fn network_to_skar_url(network: &SkarNetwork) -> (r: String)
    ensures
        r@ == spec_skar_url(*network),
{
    match network {
        SkarNetwork::EthereumMainnet => "https://eth.hypersync.xyz".to_owned(),
        SkarNetwork::Polygon => "https://polygon.hypersync.xyz".to_owned(),
        SkarNetwork::Gnosis => "https://gnosis.hypersync.xyz".to_owned(),
        SkarNetwork::Bsc => "https://bsc.hypersync.xyz".to_owned(),
        SkarNetwork::Goerli => "https://goerli.hypersync.xyz".to_owned(),
        SkarNetwork::Optimism => "https://optimism.hypersync.xyz".to_owned(),
        SkarNetwork::ArbitrumOne => "https://arbitrum.hypersync.xyz".to_owned(),
        SkarNetwork::Linea => "https://linea.hypersync.xyz".to_owned(),
        SkarNetwork::Sepolia => "https://sepolia.hypersync.xyz".to_owned(),
        SkarNetwork::Base => "https://base.hypersync.xyz".to_owned(),
    }
}

/// A network backed by one of the two worker kinds.
pub enum HyperSyncNetwork {
    Skar(SkarNetwork),
    EthArchive(EthArchiveNetwork),
}

/// The worker-backed network of a supported network: the primary worker
/// where it serves the network, else the archive worker.
pub open spec fn spec_hypersync_network(network: SupportedNetwork) -> Result<
    HyperSyncNetwork,
    NetworkError,
> {
    let n = spec_network_of_supported(network);
    match spec_skar_of(n) {
        Some(sk) => Ok(HyperSyncNetwork::Skar(sk)),
        None => match spec_eth_archive_of(n) {
            Some(ea) => Ok(HyperSyncNetwork::EthArchive(ea)),
            None => Err(NetworkError::NoHypersyncBackend),
        },
    }
}

fn get_hypersync_network_from_supported(network: &SupportedNetwork) -> (r: Result<
    HyperSyncNetwork,
    NetworkError,
>)
    ensures
        match r {
            Result::Ok(h) => spec_hypersync_network(*network) matches Ok(h2) && h2 == h,
            Result::Err(e) => spec_hypersync_network(*network) matches Err(e2) && e2 == e,
        },
{
    let network_name = Network::from_supported(*network);
    match SkarNetwork::try_from_network(network_name) {
        Some(n) => Ok(HyperSyncNetwork::Skar(n)),
        None => match EthArchiveNetwork::try_from_network(network_name) {
            Some(n) => Ok(HyperSyncNetwork::EthArchive(n)),
            None => Err(NetworkError::NoHypersyncBackend),
        },
    }
}

/// The default endpoint of a chain id: the chain id must name a known,
/// supported network, and the endpoint is the primary worker's where it
/// serves that network, else the archive worker's.
pub open spec fn spec_hypersync_endpoint(chain_id: u64) -> Result<
    (Seq<char>, HypersyncWorkerType),
    NetworkError,
> {
    match spec_network_of_id(chain_id) {
        None => Err(NetworkError::UnknownNetworkId(chain_id)),
        Some(n) => match spec_supported_of_network(n) {
            None => Err(NetworkError::UnsupportedNetwork),
            Some(sn) => match spec_hypersync_network(sn) {
                Err(e) => Err(e),
                Ok(HyperSyncNetwork::Skar(sk)) => Ok(
                    (spec_skar_url(sk), HypersyncWorkerType::Skar),
                ),
                Ok(HyperSyncNetwork::EthArchive(ea)) => Ok(
                    (spec_eth_archive_url(ea), HypersyncWorkerType::EthArchive),
                ),
            },
        },
    }
}

/// The default endpoint that a chain id is served from.
pub fn get_default_hypersync_endpoint(chain_id: u64) -> (r: Result<HypersyncConfig, NetworkError>)
    ensures
        match r {
            Result::Ok(c) => spec_hypersync_endpoint(chain_id) matches Ok(p) && p.0
                == c.endpoint_url@ && p.1 == c.worker_type,
            Result::Err(e) => spec_hypersync_endpoint(chain_id) matches Err(e2) && e2 == e,
        },
{
    let network_name = match Network::from_network_id(chain_id) {
        None => {
            return Err(NetworkError::UnknownNetworkId(chain_id));
        },
        Some(n) => n,
    };
    let network = match SupportedNetwork::try_from_network(network_name) {
        None => {
            return Err(NetworkError::UnsupportedNetwork);
        },
        Some(n) => n,
    };
    let hypersync_network = get_hypersync_network_from_supported(&network)?;
    let endpoint = match hypersync_network {
        HyperSyncNetwork::Skar(n) => HypersyncConfig {
            endpoint_url: network_to_skar_url(&n),
            worker_type: HypersyncWorkerType::Skar,
        },
        HyperSyncNetwork::EthArchive(n) => HypersyncConfig {
            endpoint_url: network_to_eth_archive_url(&n),
            worker_type: HypersyncWorkerType::EthArchive,
        },
    };
    Ok(endpoint)
}

} // verus!
