//! Addressing in the DHT's XOR keyspace.
//!
//! Every storable entity and every peer yields exactly one 256-bit key, and a
//! typed [`NetworkAddress`] wraps that key so handlers can dispatch without
//! inspecting the payload. Keys are derived from content or from a public
//! identifier, never from network position, so replicas held by different
//! peers stay comparable.

use vstd::prelude::*;

verus! {

/// The name that the content-hash routine gives to a byte string.
///
/// The digest itself (a 256-bit SHA-3 hash) is not restated here: the name
/// stands for "whatever the hash routine returns", which depends on the bytes
/// alone.
pub uninterp spec fn content_hash(content: Seq<u8>) -> Seq<u8>;

/// Copy a byte vector.
pub(crate) fn copy_bytes(v: &Vec<u8>) -> (r: Vec<u8>)
    ensures
        r@ == v@,
{
    let mut r: Vec<u8> = Vec::new();
    let mut i: usize = 0;
    while i < v.len()
        invariant
            i <= v@.len(),
            r@ == v@.take(i as int),
        decreases v@.len() - i,
    {
        r.push(v[i]);
        proof {
            assert(v@.take(i + 1) =~= v@.take(i as int).push(v@[i as int]));
        }
        i = i + 1;
    }
    proof {
        assert(v@.take(v@.len() as int) =~= v@);
    }
    r
}

/// Whether two byte vectors hold the same bytes.
pub(crate) fn bytes_eq(a: &Vec<u8>, b: &Vec<u8>) -> (r: bool)
    ensures
        r == (a@ == b@),
{
    let r = a == b;
    proof {
        if a@.len() == b@.len()
            && (forall|i: int| 0 <= i < a@.len() ==> a@[i] == b@[i]) {
            assert(a@ =~= b@);
        }
    }
    r
}

/// A 256-bit key in the XOR-distance keyspace, as its 32 bytes.
#[derive(Debug, PartialEq, Eq)]
pub struct XorKey {
    pub bytes: Vec<u8>,
}

impl View for XorKey {
    type V = Seq<u8>;

    open spec fn view(&self) -> Seq<u8> {
        self.bytes@
    }
}

impl Clone for XorKey {
    fn clone(&self) -> (res: Self)
        ensures
            res@ == self@,
    {
        XorKey { bytes: copy_bytes(&self.bytes) }
    }
}

impl XorKey {
    /// Whether two keys are the same point of the keyspace.
    pub fn equals(&self, other: &XorKey) -> (r: bool)
        ensures
            r == (self@ == other@),
    {
        bytes_eq(&self.bytes, &other.bytes)
    }
}

/// Relies on `xor_name::XorName::from_content`: a 32-byte SHA-3 digest of the
/// content alone, stable across machines and processes.
#[verifier::external_body]
pub fn hash_content(content: &Vec<u8>) -> (r: XorKey)
    ensures
        r@ == content_hash(content@),
        r@.len() == 32,
{
    XorKey { bytes: xor_name::XorName::from_content(content.as_slice()).0.to_vec() }
}

/// The identity of a peer, as the bytes of its public identifier.
#[derive(Debug, PartialEq, Eq)]
pub struct PeerIdentity {
    pub bytes: Vec<u8>,
}

impl View for PeerIdentity {
    type V = Seq<u8>;

    open spec fn view(&self) -> Seq<u8> {
        self.bytes@
    }
}

impl Clone for PeerIdentity {
    fn clone(&self) -> (res: Self)
        ensures
            res@ == self@,
    {
        PeerIdentity { bytes: copy_bytes(&self.bytes) }
    }
}

/// The address of a content-addressed chunk: the hash of its bytes.
#[derive(Debug, PartialEq, Eq)]
pub struct ChunkAddress(pub XorKey);

impl View for ChunkAddress {
    type V = Seq<u8>;

    open spec fn view(&self) -> Seq<u8> {
        self.0@
    }
}

impl Clone for ChunkAddress {
    fn clone(&self) -> (res: Self)
        ensures
            res@ == self@,
    {
        ChunkAddress(self.0.clone())
    }
}

impl ChunkAddress {
    /// The key of this address.
    pub fn name(&self) -> (r: &XorKey)
        ensures
            r@ == self@,
    {
        &self.0
    }
}

/// The address of a spend certificate: the hash of the spent token's public
/// identifier, so that every certificate for one token routes to one close
/// group.
#[derive(Debug, PartialEq, Eq)]
pub struct DbcAddress(pub XorKey);

impl View for DbcAddress {
    type V = Seq<u8>;

    open spec fn view(&self) -> Seq<u8> {
        self.0@
    }
}

impl Clone for DbcAddress {
    fn clone(&self) -> (res: Self)
        ensures
            res@ == self@,
    {
        DbcAddress(self.0.clone())
    }
}

impl DbcAddress {
    /// The key of this address.
    pub fn name(&self) -> (r: &XorKey)
        ensures
            r@ == self@,
    {
        &self.0
    }
}

/// The view of a register address: its name key and its type tag.
pub struct RegisterAddressView {
    pub name: Seq<u8>,
    pub tag: u64,
}

/// The address of a CRDT register: a name key and a user-chosen tag.
#[derive(Debug, PartialEq, Eq)]
pub struct RegisterAddress {
    pub name: XorKey,
    pub tag: u64,
}

impl View for RegisterAddress {
    type V = RegisterAddressView;

    open spec fn view(&self) -> RegisterAddressView {
        RegisterAddressView { name: self.name@, tag: self.tag }
    }
}

impl Clone for RegisterAddress {
    fn clone(&self) -> (res: Self)
        ensures
            res@ == self@,
    {
        RegisterAddress { name: self.name.clone(), tag: self.tag }
    }
}

/// The view of a network address: the same tagged shape over plain key
/// sequences.
pub enum NetworkAddressView {
    Peer(Seq<u8>),
    Chunk(Seq<u8>),
    Register(RegisterAddressView),
    Dbc(Seq<u8>),
}

/// The name of a network address: the single 256-bit key that routing and
/// replication-group membership are computed from.
pub open spec fn name_seq(a: NetworkAddressView) -> Seq<u8> {
    match a {
        NetworkAddressView::Peer(bytes) => content_hash(bytes),
        NetworkAddressView::Chunk(key) => key,
        NetworkAddressView::Register(reg) => reg.name,
        NetworkAddressView::Dbc(key) => key,
    }
}

/// A typed address in the keyspace: a tagged union over the kinds of entity
/// that an operation can be routed towards.
#[derive(Debug, PartialEq, Eq)]
pub enum NetworkAddress {
    Peer(PeerIdentity),
    Chunk(ChunkAddress),
    Register(RegisterAddress),
    Dbc(DbcAddress),
}

impl View for NetworkAddress {
    type V = NetworkAddressView;

    open spec fn view(&self) -> NetworkAddressView {
        match self {
            NetworkAddress::Peer(p) => NetworkAddressView::Peer(p@),
            NetworkAddress::Chunk(c) => NetworkAddressView::Chunk(c@),
            NetworkAddress::Register(r) => NetworkAddressView::Register(r@),
            NetworkAddress::Dbc(d) => NetworkAddressView::Dbc(d@),
        }
    }
}

impl Clone for NetworkAddress {
    fn clone(&self) -> (res: Self)
        ensures
            res@ == self@,
    {
        match self {
            NetworkAddress::Peer(p) => NetworkAddress::Peer(p.clone()),
            NetworkAddress::Chunk(c) => NetworkAddress::Chunk(c.clone()),
            NetworkAddress::Register(r) => NetworkAddress::Register(r.clone()),
            NetworkAddress::Dbc(d) => NetworkAddress::Dbc(d.clone()),
        }
    }
}

impl NetworkAddress {
    /// Wrap a peer identity.
    pub fn from_peer(peer: PeerIdentity) -> (a: NetworkAddress)
        ensures
            a@ == NetworkAddressView::Peer(peer@),
    {
        NetworkAddress::Peer(peer)
    }

    /// Wrap a chunk address.
    pub fn from_chunk_address(address: ChunkAddress) -> (a: NetworkAddress)
        ensures
            a@ == NetworkAddressView::Chunk(address@),
    {
        NetworkAddress::Chunk(address)
    }

    /// Wrap a register address.
    pub fn from_register_address(address: RegisterAddress) -> (a: NetworkAddress)
        ensures
            a@ == NetworkAddressView::Register(address@),
    {
        NetworkAddress::Register(address)
    }

    /// Wrap a spend address.
    pub fn from_dbc_address(address: DbcAddress) -> (a: NetworkAddress)
        ensures
            a@ == NetworkAddressView::Dbc(address@),
    {
        NetworkAddress::Dbc(address)
    }

    /// The single key that this address routes by.
    pub fn name(&self) -> (r: XorKey)
        ensures
            r@ == name_seq(self@),
    {
        match self {
            NetworkAddress::Peer(p) => hash_content(&p.bytes),
            NetworkAddress::Chunk(c) => c.0.clone(),
            NetworkAddress::Register(r) => r.name.clone(),
            NetworkAddress::Dbc(d) => d.0.clone(),
        }
    }
}

/// A chunk of content-addressed data: its address is the hash of its bytes,
/// computed once at construction and never dependent on which peer holds it.
#[derive(Debug, PartialEq, Eq)]
pub struct Chunk {
    value: Vec<u8>,
    address: ChunkAddress,
}

impl View for Chunk {
    type V = Seq<u8>;

    closed spec fn view(&self) -> Seq<u8> {
        self.value@
    }
}

impl Chunk {
    /// A chunk always carries the address its content hashes to.
    #[verifier::type_invariant]
    spec fn content_addressed(self) -> bool {
        self.address@ == content_hash(self.value@)
    }

    /// Wrap content into a chunk, addressed by its hash.
    pub fn new(value: Vec<u8>) -> (c: Chunk)
        ensures
            c@ == value@,
    {
        let address = ChunkAddress(hash_content(&value));
        Chunk { value, address }
    }

    /// The key this chunk is addressed by, at the specification level.
    pub closed spec fn spec_address(self) -> Seq<u8> {
        self.address@
    }

    /// The content bytes.
    pub fn value(&self) -> (r: &Vec<u8>)
        ensures
            r@ == self@,
    {
        &self.value
    }

    /// The address derived from the content.
    pub fn address(&self) -> (r: &ChunkAddress)
        ensures
            r@ == content_hash(self@),
            r@ == self.spec_address(),
    {
        proof {
            use_type_invariant(self);
        }
        &self.address
    }

    /// The key of the address derived from the content.
    pub fn name(&self) -> (r: &XorKey)
        ensures
            r@ == content_hash(self@),
    {
        proof {
            use_type_invariant(self);
        }
        &self.address.0
    }
}

impl Clone for Chunk {
    fn clone(&self) -> (res: Self)
        ensures
            res@ == self@,
    {
        proof {
            use_type_invariant(self);
        }
        Chunk { value: copy_bytes(&self.value), address: self.address.clone() }
    }
}

/// Any content-addressed chunk, however it reached the client, is named by
/// the hash of its own bytes: a fetch that yields a chunk yields bytes that
/// hash back to the chunk's address.
pub fn confirm_content_addressed(c: &Chunk)
    ensures
        c.spec_address() == content_hash(c@),
{
    proof {
        use_type_invariant(c);
    }
}

} // verus!
