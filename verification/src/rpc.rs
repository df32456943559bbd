//! The node queries of the command line, and the call that each of them
//! makes: which method of the node, with which arguments, in which order.

use vstd::prelude::*;

verus! {

/// A block, named by its hash or by its height.
#[derive(Clone, Debug, PartialEq, Eq)]
pub enum HashOrHeight<H> {
    Height(u64),
    Hash(H),
}

/// A query to a node. `H` is the type of a hash, `C` that of a chain's name.
#[derive(Clone, Debug, PartialEq, Eq)]
pub enum RpcCommand<H, C> {
    /// Get header of a relay chain block.
    Header { hash: Option<H> },
    /// Get hash of the last finalized block in the canon chain.
    FinalizedHeader,
    /// Get hash of the n-th block in the canon chain.
    BlockHash { height: Option<u64> },
    /// Get header and body of a relay chain block.
    Block { hash_or_height: Option<HashOrHeight<H>> },
    /// Get the node's implementation name.
    SystemName,
    /// Get the node implementation's version.
    SystemVersion,
    /// Get the chain's type.
    SystemChain,
    /// Get the properties that the chain spec defines.
    SystemProperties,
    /// Return health status of the node.
    SystemHealth,
    /// Returns currently connected peers.
    SystemPeers,
    /// Returns current state of the network.
    SystemNetworkState,
    NextRenominate { who: H, hash: Option<H> },
    Asset { who: H, index: u32, size: u32, hash: Option<H> },
    Assets { index: u32, size: u32, hash: Option<H> },
    VerifyAddr { token: String, addr: String, memo: String, hash: Option<H> },
    WithdrawLimit { token: String, hash: Option<H> },
    DepositLimit { token: String, hash: Option<H> },
    WithdrawList { chain: C, index: u32, size: u32, hash: Option<H> },
    DepositList { chain: C, index: u32, size: u32, hash: Option<H> },
    NominationRecords { who: H, hash: Option<H> },
    PseduNominationRecords { who: H, hash: Option<H> },
    Intention { who: H, hash: Option<H> },
    Intentions { hash: Option<H> },
    PseduIntentions { hash: Option<H> },
    TradingPairs { hash: Option<H> },
    Quotations { id: u32, piece: u32, hash: Option<H> },
    Orders { who: H, index: u32, size: u32, hash: Option<H> },
    AddrByAccount { who: H, chain: C, hash: Option<H> },
    TrusteeSession { chain: C, era: Option<u32>, hash: Option<H> },
    TrusteeInfo { who: H, hash: Option<H> },
    CallFee { call: String, tx_len: u64, hash: Option<H> },
    WithdrawTx { chain: C, hash: Option<H> },
    MockBtcNewTrustees { candidates: Vec<H>, hash: Option<H> },
    ParticularAccounts { hash: Option<H> },
}

/// A method of the node.
#[derive(Clone, Copy, Debug, PartialEq, Eq, Structural)]
pub enum Method {
    Header,
    FinalizedHead,
    BlockHash,
    BlockByNumber,
    BlockByHash,
    SystemName,
    SystemVersion,
    SystemChain,
    SystemProperties,
    SystemHealth,
    SystemPeers,
    SystemNetworkState,
    NextRenominate,
    Asset,
    Assets,
    VerifyAddr,
    WithdrawLimit,
    DepositLimit,
    WithdrawList,
    DepositList,
    NominationRecords,
    PseduNominationRecords,
    Intention,
    Intentions,
    PseduIntentions,
    TradingPairs,
    Quotations,
    Orders,
    AddrByAccount,
    TrusteeSessionInfo,
    TrusteeByAccount,
    CallFee,
    WithdrawTx,
    MockBtcNewTrustees,
    ParticularAccounts,
}

/// An argument of a call.
#[derive(Clone, Debug, PartialEq, Eq)]
pub enum Arg<H, C> {
    /// A hash.
    Hash(H),
    /// A block hash; none stands for the latest block.
    OptHash(Option<H>),
    /// A block height; none stands for the latest block.
    OptHeight(Option<u64>),
    U32(u32),
    OptU32(Option<u32>),
    U64(u64),
    Text(String),
    /// The name of a chain.
    Chain(C),
    /// Hashes, in their order.
    Hashes(Vec<H>),
}

/// A call to a node: the method, and its arguments in the order in which
/// the method takes them.
#[derive(Clone, Debug, PartialEq, Eq)]
pub struct Call<H, C> {
    pub method: Method,
    pub args: Vec<Arg<H, C>>,
}

impl<H, C> RpcCommand<H, C> {
    /// The call that this query makes: the method and its arguments in call
    /// order. A block is asked for by its height where a height is given, else
    /// by its hash; every other query calls its own method with its fields in
    /// the order of their declaration.
    pub open spec fn call_spec(self) -> (Method, Seq<Arg<H, C>>) {
        match self {
            RpcCommand::Header { hash } => (
                Method::Header,
                Seq::empty().push(Arg::OptHash(hash)),
            ),
            RpcCommand::FinalizedHeader => (
                Method::FinalizedHead,
                Seq::empty(),
            ),
            RpcCommand::BlockHash { height } => (
                Method::BlockHash,
                Seq::empty().push(Arg::OptHeight(height)),
            ),
            RpcCommand::Block { hash_or_height: Some(HashOrHeight::Height(number)) } => (
                Method::BlockByNumber,
                Seq::empty().push(Arg::OptHeight(Some(number))),
            ),
            RpcCommand::Block { hash_or_height: Some(HashOrHeight::Hash(hash)) } => (
                Method::BlockByHash,
                Seq::empty().push(Arg::OptHash(Some(hash))),
            ),
            RpcCommand::Block { hash_or_height: None } => (
                Method::BlockByHash,
                Seq::empty().push(Arg::OptHash(None)),
            ),
            RpcCommand::SystemName => (
                Method::SystemName,
                Seq::empty(),
            ),
            RpcCommand::SystemVersion => (
                Method::SystemVersion,
                Seq::empty(),
            ),
            RpcCommand::SystemChain => (
                Method::SystemChain,
                Seq::empty(),
            ),
            RpcCommand::SystemProperties => (
                Method::SystemProperties,
                Seq::empty(),
            ),
            RpcCommand::SystemHealth => (
                Method::SystemHealth,
                Seq::empty(),
            ),
            RpcCommand::SystemPeers => (
                Method::SystemPeers,
                Seq::empty(),
            ),
            RpcCommand::SystemNetworkState => (
                Method::SystemNetworkState,
                Seq::empty(),
            ),
            RpcCommand::NextRenominate { who, hash } => (
                Method::NextRenominate,
                Seq::empty().push(Arg::Hash(who)).push(Arg::OptHash(hash)),
            ),
            RpcCommand::Asset { who, index, size, hash } => (
                Method::Asset,
                Seq::empty()
                    .push(Arg::Hash(who))
                    .push(Arg::U32(index))
                    .push(Arg::U32(size))
                    .push(Arg::OptHash(hash)),
            ),
            RpcCommand::Assets { index, size, hash } => (
                Method::Assets,
                Seq::empty().push(Arg::U32(index)).push(Arg::U32(size)).push(Arg::OptHash(hash)),
            ),
            RpcCommand::VerifyAddr { token, addr, memo, hash } => (
                Method::VerifyAddr,
                Seq::empty()
                    .push(Arg::Text(token))
                    .push(Arg::Text(addr))
                    .push(Arg::Text(memo))
                    .push(Arg::OptHash(hash)),
            ),
            RpcCommand::WithdrawLimit { token, hash } => (
                Method::WithdrawLimit,
                Seq::empty().push(Arg::Text(token)).push(Arg::OptHash(hash)),
            ),
            RpcCommand::DepositLimit { token, hash } => (
                Method::DepositLimit,
                Seq::empty().push(Arg::Text(token)).push(Arg::OptHash(hash)),
            ),
            RpcCommand::WithdrawList { chain, index, size, hash } => (
                Method::WithdrawList,
                Seq::empty()
                    .push(Arg::Chain(chain))
                    .push(Arg::U32(index))
                    .push(Arg::U32(size))
                    .push(Arg::OptHash(hash)),
            ),
            RpcCommand::DepositList { chain, index, size, hash } => (
                Method::DepositList,
                Seq::empty()
                    .push(Arg::Chain(chain))
                    .push(Arg::U32(index))
                    .push(Arg::U32(size))
                    .push(Arg::OptHash(hash)),
            ),
            RpcCommand::NominationRecords { who, hash } => (
                Method::NominationRecords,
                Seq::empty().push(Arg::Hash(who)).push(Arg::OptHash(hash)),
            ),
            RpcCommand::PseduNominationRecords { who, hash } => (
                Method::PseduNominationRecords,
                Seq::empty().push(Arg::Hash(who)).push(Arg::OptHash(hash)),
            ),
            RpcCommand::Intention { who, hash } => (
                Method::Intention,
                Seq::empty().push(Arg::Hash(who)).push(Arg::OptHash(hash)),
            ),
            RpcCommand::Intentions { hash } => (
                Method::Intentions,
                Seq::empty().push(Arg::OptHash(hash)),
            ),
            RpcCommand::PseduIntentions { hash } => (
                Method::PseduIntentions,
                Seq::empty().push(Arg::OptHash(hash)),
            ),
            RpcCommand::TradingPairs { hash } => (
                Method::TradingPairs,
                Seq::empty().push(Arg::OptHash(hash)),
            ),
            RpcCommand::Quotations { id, piece, hash } => (
                Method::Quotations,
                Seq::empty().push(Arg::U32(id)).push(Arg::U32(piece)).push(Arg::OptHash(hash)),
            ),
            RpcCommand::Orders { who, index, size, hash } => (
                Method::Orders,
                Seq::empty()
                    .push(Arg::Hash(who))
                    .push(Arg::U32(index))
                    .push(Arg::U32(size))
                    .push(Arg::OptHash(hash)),
            ),
            RpcCommand::AddrByAccount { who, chain, hash } => (
                Method::AddrByAccount,
                Seq::empty().push(Arg::Hash(who)).push(Arg::Chain(chain)).push(Arg::OptHash(hash)),
            ),
            RpcCommand::TrusteeSession { chain, era, hash } => (
                Method::TrusteeSessionInfo,
                Seq::empty()
                    .push(Arg::Chain(chain))
                    .push(Arg::OptU32(era))
                    .push(Arg::OptHash(hash)),
            ),
            RpcCommand::TrusteeInfo { who, hash } => (
                Method::TrusteeByAccount,
                Seq::empty().push(Arg::Hash(who)).push(Arg::OptHash(hash)),
            ),
            RpcCommand::CallFee { call, tx_len, hash } => (
                Method::CallFee,
                Seq::empty().push(Arg::Text(call)).push(Arg::U64(tx_len)).push(Arg::OptHash(hash)),
            ),
            RpcCommand::WithdrawTx { chain, hash } => (
                Method::WithdrawTx,
                Seq::empty().push(Arg::Chain(chain)).push(Arg::OptHash(hash)),
            ),
            RpcCommand::MockBtcNewTrustees { candidates, hash } => (
                Method::MockBtcNewTrustees,
                Seq::empty().push(Arg::Hashes(candidates)).push(Arg::OptHash(hash)),
            ),
            RpcCommand::ParticularAccounts { hash } => (
                Method::ParticularAccounts,
                Seq::empty().push(Arg::OptHash(hash)),
            ),
        }
    }

    /// Chooses the call that this query makes.
    pub fn dispatch(self) -> (call: Call<H, C>)
        ensures
            call.method == self.call_spec().0,
            call.args@ == self.call_spec().1,
    {
        let mut args: Vec<Arg<H, C>> = Vec::new();
        let method = match self {
            RpcCommand::Header { hash } => {
                args.push(Arg::OptHash(hash));
                Method::Header
            },
            RpcCommand::FinalizedHeader => Method::FinalizedHead,
            RpcCommand::BlockHash { height } => {
                args.push(Arg::OptHeight(height));
                Method::BlockHash
            },
            RpcCommand::Block { hash_or_height } => match hash_or_height {
                Some(HashOrHeight::Height(number)) => {
                    args.push(Arg::OptHeight(Some(number)));
                    Method::BlockByNumber
                },
                Some(HashOrHeight::Hash(hash)) => {
                    args.push(Arg::OptHash(Some(hash)));
                    Method::BlockByHash
                },
                None => {
                    args.push(Arg::OptHash(None));
                    Method::BlockByHash
                },
            },
            RpcCommand::SystemName => Method::SystemName,
            RpcCommand::SystemVersion => Method::SystemVersion,
            RpcCommand::SystemChain => Method::SystemChain,
            RpcCommand::SystemProperties => Method::SystemProperties,
            RpcCommand::SystemHealth => Method::SystemHealth,
            RpcCommand::SystemPeers => Method::SystemPeers,
            RpcCommand::SystemNetworkState => Method::SystemNetworkState,
            RpcCommand::NextRenominate { who, hash } => {
                args.push(Arg::Hash(who));
                args.push(Arg::OptHash(hash));
                Method::NextRenominate
            },
            RpcCommand::Asset { who, index, size, hash } => {
                args.push(Arg::Hash(who));
                args.push(Arg::U32(index));
                args.push(Arg::U32(size));
                args.push(Arg::OptHash(hash));
                Method::Asset
            },
            RpcCommand::Assets { index, size, hash } => {
                args.push(Arg::U32(index));
                args.push(Arg::U32(size));
                args.push(Arg::OptHash(hash));
                Method::Assets
            },
            RpcCommand::VerifyAddr { token, addr, memo, hash } => {
                args.push(Arg::Text(token));
                args.push(Arg::Text(addr));
                args.push(Arg::Text(memo));
                args.push(Arg::OptHash(hash));
                Method::VerifyAddr
            },
            RpcCommand::WithdrawLimit { token, hash } => {
                args.push(Arg::Text(token));
                args.push(Arg::OptHash(hash));
                Method::WithdrawLimit
            },
            RpcCommand::DepositLimit { token, hash } => {
                args.push(Arg::Text(token));
                args.push(Arg::OptHash(hash));
                Method::DepositLimit
            },
            RpcCommand::WithdrawList { chain, index, size, hash } => {
                args.push(Arg::Chain(chain));
                args.push(Arg::U32(index));
                args.push(Arg::U32(size));
                args.push(Arg::OptHash(hash));
                Method::WithdrawList
            },
            RpcCommand::DepositList { chain, index, size, hash } => {
                args.push(Arg::Chain(chain));
                args.push(Arg::U32(index));
                args.push(Arg::U32(size));
                args.push(Arg::OptHash(hash));
                Method::DepositList
            },
            RpcCommand::NominationRecords { who, hash } => {
                args.push(Arg::Hash(who));
                args.push(Arg::OptHash(hash));
                Method::NominationRecords
            },
            RpcCommand::PseduNominationRecords { who, hash } => {
                args.push(Arg::Hash(who));
                args.push(Arg::OptHash(hash));
                Method::PseduNominationRecords
            },
            RpcCommand::Intention { who, hash } => {
                args.push(Arg::Hash(who));
                args.push(Arg::OptHash(hash));
                Method::Intention
            },
            RpcCommand::Intentions { hash } => {
                args.push(Arg::OptHash(hash));
                Method::Intentions
            },
            RpcCommand::PseduIntentions { hash } => {
                args.push(Arg::OptHash(hash));
                Method::PseduIntentions
            },
            RpcCommand::TradingPairs { hash } => {
                args.push(Arg::OptHash(hash));
                Method::TradingPairs
            },
            RpcCommand::Quotations { id, piece, hash } => {
                args.push(Arg::U32(id));
                args.push(Arg::U32(piece));
                args.push(Arg::OptHash(hash));
                Method::Quotations
            },
            RpcCommand::Orders { who, index, size, hash } => {
                args.push(Arg::Hash(who));
                args.push(Arg::U32(index));
                args.push(Arg::U32(size));
                args.push(Arg::OptHash(hash));
                Method::Orders
            },
            RpcCommand::AddrByAccount { who, chain, hash } => {
                args.push(Arg::Hash(who));
                args.push(Arg::Chain(chain));
                args.push(Arg::OptHash(hash));
                Method::AddrByAccount
            },
            RpcCommand::TrusteeSession { chain, era, hash } => {
                args.push(Arg::Chain(chain));
                args.push(Arg::OptU32(era));
                args.push(Arg::OptHash(hash));
                Method::TrusteeSessionInfo
            },
            RpcCommand::TrusteeInfo { who, hash } => {
                args.push(Arg::Hash(who));
                args.push(Arg::OptHash(hash));
                Method::TrusteeByAccount
            },
            RpcCommand::CallFee { call, tx_len, hash } => {
                args.push(Arg::Text(call));
                args.push(Arg::U64(tx_len));
                args.push(Arg::OptHash(hash));
                Method::CallFee
            },
            RpcCommand::WithdrawTx { chain, hash } => {
                args.push(Arg::Chain(chain));
                args.push(Arg::OptHash(hash));
                Method::WithdrawTx
            },
            RpcCommand::MockBtcNewTrustees { candidates, hash } => {
                args.push(Arg::Hashes(candidates));
                args.push(Arg::OptHash(hash));
                Method::MockBtcNewTrustees
            },
            RpcCommand::ParticularAccounts { hash } => {
                args.push(Arg::OptHash(hash));
                Method::ParticularAccounts
            },
        };
        Call { method, args }
    }
}

} // verus!
