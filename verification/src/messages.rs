//! The request/response vocabulary exchanged between client and peers:
//! commands (writes), queries (reads), events (facts), their responses, and
//! the replicated-data envelope used for bulk replication.
//!
//! Every request exposes its destination before any transfer happens, and the
//! destination is a pure function of the message's content, never of which
//! peer holds it.

use vstd::prelude::*;

use crate::address::{
    content_hash, Chunk, ChunkAddress, DbcAddress, NetworkAddress, NetworkAddressView,
    RegisterAddress, RegisterAddressView, XorKey,
};
use crate::error::Rejection;
use crate::spend::SignedSpend;

verus! {

/// A write command against a CRDT register, carrying the signed operation as
/// bytes; the register's merge rules are a collaborator's concern.
#[derive(Debug, PartialEq, Eq)]
pub enum RegisterCmd {
    /// Create a register at an address.
    Create { address: RegisterAddress, op: Vec<u8> },
    /// Apply an edit to the register at an address.
    Edit { address: RegisterAddress, op: Vec<u8> },
}

impl RegisterCmd {
    /// The register address this command is routed by.
    pub open spec fn dst_spec(self) -> RegisterAddressView {
        match self {
            RegisterCmd::Create { address, .. } => address@,
            RegisterCmd::Edit { address, .. } => address@,
        }
    }

    /// Used to route the command to the close group of its register.
    pub fn dst(&self) -> (r: &RegisterAddress)
        ensures
            r@ == self.dst_spec(),
    {
        match self {
            RegisterCmd::Create { address, .. } => address,
            RegisterCmd::Edit { address, .. } => address,
        }
    }
}

/// A read-only query against a register.
#[derive(Debug, PartialEq, Eq)]
pub enum RegisterQuery {
    /// Fetch the register at an address.
    Get(RegisterAddress),
}

/// A read-only query about spend certificates.
#[derive(Debug, PartialEq, Eq)]
pub enum SpendQuery {
    /// Fetch the spend certificate stored for a token.
    GetDbcSpend(DbcAddress),
}

/// A cmd sent to peers. Cmds are writes, i.e. can cause mutation.
#[derive(Debug, PartialEq, Eq)]
pub enum Cmd {
    /// Store a chunk of content-addressed data.
    StoreChunk(Chunk),
    /// Record a spend certificate together with its parent transaction bytes.
    SpendDbc { signed_spend: SignedSpend, parent_tx: Vec<u8> },
    /// Apply a register write.
    Register(RegisterCmd),
}

impl Cmd {
    /// The destination of a command: a pure function of its content.
    pub open spec fn dst_spec(self) -> NetworkAddressView {
        match self {
            Cmd::StoreChunk(chunk) => NetworkAddressView::Chunk(content_hash(chunk@)),
            Cmd::SpendDbc { signed_spend, .. } => NetworkAddressView::Dbc(
                content_hash(signed_spend@.id),
            ),
            Cmd::Register(cmd) => NetworkAddressView::Register(cmd.dst_spec()),
        }
    }

    /// Used to route the command to the close group of its target.
    pub fn dst(&self) -> (r: NetworkAddress)
        ensures
            r@ == self.dst_spec(),
    {
        match self {
            Cmd::StoreChunk(chunk) => NetworkAddress::from_chunk_address(chunk.address().clone()),
            Cmd::SpendDbc { signed_spend, .. } => NetworkAddress::from_dbc_address(
                DbcAddress::from_dbc_id(signed_spend.dbc_id()),
            ),
            Cmd::Register(cmd) => NetworkAddress::from_register_address(cmd.dst().clone()),
        }
    }
}

/// A query sent to peers. Queries are read-only.
#[derive(Debug, PartialEq, Eq)]
pub enum Query {
    /// Fetch a chunk by its content-derived address.
    GetChunk(ChunkAddress),
    /// Read a register.
    Register(RegisterQuery),
    /// Read spend certificates.
    Spend(SpendQuery),
}

impl Query {
    /// The destination of a query: a pure function of its content.
    pub open spec fn dst_spec(self) -> NetworkAddressView {
        match self {
            Query::GetChunk(address) => NetworkAddressView::Chunk(address@),
            Query::Register(RegisterQuery::Get(address)) => NetworkAddressView::Register(address@),
            Query::Spend(SpendQuery::GetDbcSpend(address)) => NetworkAddressView::Dbc(address@),
        }
    }

    /// Used to route the query to the close group of its target.
    pub fn dst(&self) -> (r: NetworkAddress)
        ensures
            r@ == self.dst_spec(),
    {
        match self {
            Query::GetChunk(address) => NetworkAddress::from_chunk_address(address.clone()),
            Query::Register(RegisterQuery::Get(address)) => NetworkAddress::from_register_address(
                address.clone(),
            ),
            Query::Spend(SpendQuery::GetDbcSpend(address)) => NetworkAddress::from_dbc_address(
                address.clone(),
            ),
        }
    }
}

/// A fact sent to peers.
#[derive(Debug, PartialEq, Eq)]
pub enum Event {
    /// Two certificates for one token that disagree in content were seen.
    DoubleSpendAttempted { first: SignedSpend, second: SignedSpend },
}

impl Event {
    /// The destination of an event: the address of the token it concerns.
    pub open spec fn dst_spec(self) -> NetworkAddressView {
        match self {
            Event::DoubleSpendAttempted { first, .. } => NetworkAddressView::Dbc(
                content_hash(first@.id),
            ),
        }
    }

    /// Used to route the event to the close group of its target.
    pub fn dst(&self) -> (r: NetworkAddress)
        ensures
            r@ == self.dst_spec(),
    {
        match self {
            Event::DoubleSpendAttempted { first, .. } => NetworkAddress::from_dbc_address(
                DbcAddress::from_dbc_id(first.dbc_id()),
            ),
        }
    }
}

/// A request to peers in the network.
#[derive(Debug, PartialEq, Eq)]
pub enum Request {
    /// A cmd sent to peers. Cmds are writes, i.e. can cause mutation.
    Cmd(Cmd),
    /// A query sent to peers. Queries are read-only.
    Query(Query),
    /// A fact sent to peers.
    Event(Event),
}

impl Request {
    /// The destination of a request: derivable without contacting the
    /// network, so a sender can compute routing before any transfer.
    pub open spec fn dst_spec(self) -> NetworkAddressView {
        match self {
            Request::Cmd(cmd) => cmd.dst_spec(),
            Request::Query(query) => query.dst_spec(),
            Request::Event(event) => event.dst_spec(),
        }
    }

    /// Used to send a request to the close group of the address.
    pub fn dst(&self) -> (r: NetworkAddress)
        ensures
            r@ == self.dst_spec(),
    {
        match self {
            Request::Cmd(cmd) => cmd.dst(),
            Request::Query(query) => query.dst(),
            Request::Event(event) => event.dst(),
        }
    }
}

/// The response to a cmd, carrying the success or failure of the specific
/// operation it answers.
#[derive(Debug, PartialEq, Eq)]
pub enum CmdResponse {
    /// The response to a chunk store.
    StoreChunk(Result<(), Rejection>),
    /// The response to a spend record.
    Spend(Result<(), Rejection>),
    /// The response to a register write.
    Register(Result<(), Rejection>),
}

/// The response to a query, carrying the value read or the failure.
#[derive(Debug, PartialEq, Eq)]
pub enum QueryResponse {
    /// The chunk stored at the queried address.
    GetChunk(Result<Chunk, Rejection>),
    /// The spend certificate stored for the queried token.
    GetDbcSpend(Result<SignedSpend, Rejection>),
    /// The raw register bytes at the queried address.
    Register(Result<Vec<u8>, Rejection>),
}

/// A response to peers in the network.
#[derive(Debug, PartialEq, Eq)]
pub enum Response {
    /// The response to a cmd.
    Cmd(CmdResponse),
    /// The response to a query.
    Query(QueryResponse),
}

/// An entire op log of a register.
#[derive(Debug, PartialEq, Eq)]
pub struct ReplicatedRegisterLog {
    /// The address of the register this log belongs to.
    pub address: RegisterAddress,
    /// The signed operations, in the order they were recorded.
    pub ops: Vec<Vec<u8>>,
}

/// Messages to replicate data among peers on the network.
#[derive(Debug, PartialEq, Eq)]
pub enum ReplicatedData {
    /// A chunk of data.
    Chunk(Chunk),
    /// A single cmd for a register.
    RegisterWrite(RegisterCmd),
    /// An entire op log of a register.
    RegisterLog(ReplicatedRegisterLog),
    /// A valid spend.
    ValidSpend(SignedSpend),
    /// A token marked as having attempted double spend, with the conflicting
    /// certificates gathered as evidence.
    DoubleSpend(DbcAddress, Vec<SignedSpend>),
}

impl ReplicatedData {
    /// The name of a replica: a pure function of its content, never of which
    /// peer holds it, so replicas sent to different group members stay
    /// comparable.
    pub open spec fn name_spec(self) -> Seq<u8> {
        match self {
            ReplicatedData::Chunk(chunk) => content_hash(chunk@),
            ReplicatedData::RegisterWrite(cmd) => cmd.dst_spec().name,
            ReplicatedData::RegisterLog(log) => log.address@.name,
            ReplicatedData::ValidSpend(spend) => content_hash(spend@.id),
            ReplicatedData::DoubleSpend(address, _) => address@,
        }
    }

    /// Return the name.
    pub fn name(&self) -> (r: XorKey)
        ensures
            r@ == self.name_spec(),
    {
        match self {
            ReplicatedData::Chunk(chunk) => chunk.name().clone(),
            ReplicatedData::RegisterWrite(cmd) => cmd.dst().name.clone(),
            ReplicatedData::RegisterLog(log) => log.address.name.clone(),
            ReplicatedData::ValidSpend(spend) => DbcAddress::from_dbc_id(spend.dbc_id()).0,
            ReplicatedData::DoubleSpend(address, _) => address.name().clone(),
        }
    }

    /// The destination a replica is sent towards: the typed form of its name.
    pub open spec fn dst_spec(self) -> NetworkAddressView {
        match self {
            ReplicatedData::Chunk(chunk) => NetworkAddressView::Chunk(content_hash(chunk@)),
            ReplicatedData::RegisterWrite(cmd) => NetworkAddressView::Register(cmd.dst_spec()),
            ReplicatedData::RegisterLog(log) => NetworkAddressView::Register(log.address@),
            ReplicatedData::ValidSpend(spend) => NetworkAddressView::Dbc(content_hash(spend@.id)),
            ReplicatedData::DoubleSpend(address, _) => NetworkAddressView::Dbc(address@),
        }
    }

    /// Return the dst.
    pub fn dst(&self) -> (r: NetworkAddress)
        ensures
            r@ == self.dst_spec(),
    {
        match self {
            ReplicatedData::Chunk(chunk) => NetworkAddress::from_chunk_address(
                chunk.address().clone(),
            ),
            ReplicatedData::RegisterWrite(cmd) => NetworkAddress::from_register_address(
                cmd.dst().clone(),
            ),
            ReplicatedData::RegisterLog(log) => NetworkAddress::from_register_address(
                log.address.clone(),
            ),
            ReplicatedData::ValidSpend(spend) => NetworkAddress::from_dbc_address(
                DbcAddress::from_dbc_id(spend.dbc_id()),
            ),
            ReplicatedData::DoubleSpend(address, _) => NetworkAddress::from_dbc_address(
                address.clone(),
            ),
        }
    }

    /// Bundle two conflicting certificates for one token into double-spend
    /// evidence. Genuine evidence never holds fewer than two certificates,
    /// and they must answer the same identifier while disagreeing in content.
    pub fn double_spend(first: SignedSpend, second: SignedSpend) -> (d: ReplicatedData)
        requires
            first@.id == second@.id,
            first@ != second@,
        ensures
            (d matches ReplicatedData::DoubleSpend(address, spends)
                && address@ == content_hash(first@.id)
                && spends@.len() == 2
                && spends@[0]@ == first@
                && spends@[1]@ == second@
                && spends@[0]@ != spends@[1]@),
    {
        let address = DbcAddress::from_dbc_id(first.dbc_id());
        let mut spends: Vec<SignedSpend> = Vec::new();
        spends.push(first);
        spends.push(second);
        ReplicatedData::DoubleSpend(address, spends)
    }
}

} // verus!
