//! Addressing and the message protocol: names are pure functions of content.

use safenode::address::{
    confirm_content_addressed, Chunk, ChunkAddress, DbcAddress, NetworkAddress, PeerIdentity,
    RegisterAddress, XorKey,
};
use safenode::error::Rejection;
use safenode::messages::{
    Cmd, CmdResponse, Event, Query, QueryResponse, RegisterCmd, RegisterQuery, ReplicatedData,
    ReplicatedRegisterLog, Request, Response, SpendQuery,
};
use safenode::quorum::chunk_fetch_outcome;
use safenode::spend::{DbcId, SignedSpend};

fn key(seed: u8) -> XorKey {
    XorKey { bytes: vec![seed; 32] }
}

fn spend(id: &[u8], content: &[u8]) -> SignedSpend {
    SignedSpend { id: DbcId { bytes: id.to_vec() }, content: content.to_vec() }
}

#[test]
fn chunk_address_is_the_hash_of_its_content() {
    let content = b"some stored bytes".to_vec();
    let chunk = Chunk::new(content.clone());
    let expected = xor_name::XorName::from_content(&content);
    assert_eq!(chunk.name().bytes, expected.0.to_vec());
    // The hash is a digest, not the content handed back.
    assert_ne!(chunk.name().bytes, content);
    assert_eq!(chunk.value(), &content);
}

#[test]
fn equal_content_gives_equal_names_and_different_content_different_names() {
    let a = Chunk::new(b"alpha".to_vec());
    let b = Chunk::new(b"alpha".to_vec());
    let c = Chunk::new(b"omega".to_vec());
    assert!(a.name().equals(b.name()));
    assert!(!a.name().equals(c.name()));
}

#[test]
fn fetching_an_address_yields_bytes_that_hash_back_to_it() {
    let content = b"content-addressed".to_vec();
    let stored = Chunk::new(content.clone());
    let requested = stored.address().clone();

    let got = chunk_fetch_outcome(Ok(QueryResponse::GetChunk(Ok(stored))));
    let chunk = got.expect("a well-formed chunk answer must be returned");
    confirm_content_addressed(&chunk);
    assert_eq!(chunk.address(), &requested);
    assert_eq!(chunk.name().bytes, xor_name::XorName::from_content(&content).0.to_vec());
}

#[test]
fn spend_addresses_derive_from_the_token_identifier() {
    let id = DbcId { bytes: b"token-17".to_vec() };
    let a = DbcAddress::from_dbc_id(&id);
    let b = DbcAddress::from_dbc_id(&id.clone());
    assert_eq!(a, b);
    assert_eq!(a.name().bytes, xor_name::XorName::from_content(b"token-17").0.to_vec());
}

#[test]
fn request_destinations_are_derivable_before_any_transfer() {
    let chunk = Chunk::new(b"payload".to_vec());
    let chunk_dst = NetworkAddress::from_chunk_address(chunk.address().clone());
    assert_eq!(Request::Cmd(Cmd::StoreChunk(chunk)).dst(), chunk_dst);

    let s = spend(b"token-3", b"spend-bytes");
    let spend_dst = NetworkAddress::from_dbc_address(DbcAddress::from_dbc_id(&s.dbc_id().clone()));
    assert_eq!(
        Request::Cmd(Cmd::SpendDbc { signed_spend: s, parent_tx: b"tx".to_vec() }).dst(),
        spend_dst
    );

    let register = RegisterAddress { name: key(7), tag: 42 };
    assert_eq!(
        Request::Cmd(Cmd::Register(RegisterCmd::Edit {
            address: register.clone(),
            op: b"op".to_vec()
        }))
        .dst(),
        NetworkAddress::from_register_address(register.clone())
    );
    assert_eq!(
        Request::Query(Query::Register(RegisterQuery::Get(register.clone()))).dst(),
        NetworkAddress::from_register_address(register)
    );

    let chunk_addr = ChunkAddress(key(9));
    assert_eq!(
        Request::Query(Query::GetChunk(chunk_addr.clone())).dst(),
        NetworkAddress::from_chunk_address(chunk_addr)
    );

    let dbc_addr = DbcAddress(key(4));
    assert_eq!(
        Request::Query(Query::Spend(SpendQuery::GetDbcSpend(dbc_addr.clone()))).dst(),
        NetworkAddress::from_dbc_address(dbc_addr)
    );

    let twin_a = spend(b"token-5", b"version-a");
    let twin_b = spend(b"token-5", b"version-b");
    assert_eq!(
        Request::Event(Event::DoubleSpendAttempted { first: twin_a, second: twin_b }).dst(),
        NetworkAddress::from_dbc_address(DbcAddress::from_dbc_id(&DbcId {
            bytes: b"token-5".to_vec()
        }))
    );
}

#[test]
fn peer_addresses_hash_the_peer_identity() {
    let peer = PeerIdentity { bytes: b"peer-one".to_vec() };
    let address = NetworkAddress::from_peer(peer);
    assert_eq!(address.name().bytes, xor_name::XorName::from_content(b"peer-one").0.to_vec());
}

#[test]
fn replica_names_depend_on_content_alone() {
    let chunk = Chunk::new(b"replica".to_vec());
    let chunk_name = chunk.name().clone();
    let replica = ReplicatedData::Chunk(chunk);
    assert!(replica.name().equals(&chunk_name));
    assert_eq!(replica.dst(), NetworkAddress::from_chunk_address(ChunkAddress(chunk_name)));

    let register = RegisterAddress { name: key(3), tag: 1 };
    let write = ReplicatedData::RegisterWrite(RegisterCmd::Create {
        address: register.clone(),
        op: b"create".to_vec(),
    });
    assert!(write.name().equals(&register.name));

    let log = ReplicatedData::RegisterLog(ReplicatedRegisterLog {
        address: register.clone(),
        ops: vec![b"create".to_vec(), b"edit".to_vec()],
    });
    assert!(log.name().equals(&register.name));
    assert_eq!(log.dst(), NetworkAddress::from_register_address(register));

    let s = spend(b"token-8", b"spend");
    let spend_name = DbcAddress::from_dbc_id(s.dbc_id()).name().clone();
    let valid = ReplicatedData::ValidSpend(s);
    assert!(valid.name().equals(&spend_name));
}

#[test]
fn double_spend_evidence_holds_both_conflicting_certificates() {
    let twin_a = spend(b"token-5", b"version-a");
    let twin_b = spend(b"token-5", b"version-b");
    let evidence = ReplicatedData::double_spend(twin_a.clone(), twin_b.clone());
    match &evidence {
        ReplicatedData::DoubleSpend(address, spends) => {
            assert_eq!(address, &DbcAddress::from_dbc_id(twin_a.dbc_id()));
            assert_eq!(spends.len(), 2);
            assert!(spends[0].same_spend(&twin_a));
            assert!(spends[1].same_spend(&twin_b));
            assert!(!spends[0].same_spend(spends.get(1).unwrap()));
        }
        other => panic!("expected double-spend evidence, got {other:?}"),
    }
    let name = evidence.name();
    assert!(name.equals(DbcAddress::from_dbc_id(twin_a.dbc_id()).name()));
}

#[test]
fn spend_equality_is_structural() {
    let a = spend(b"token-1", b"content");
    let b = spend(b"token-1", b"content");
    let c = spend(b"token-1", b"different");
    let d = spend(b"token-2", b"content");
    assert!(a.same_spend(&b));
    assert!(!a.same_spend(&c));
    assert!(!a.same_spend(&d));
    assert!(a.dbc_id().equals(c.dbc_id()));
}

#[test]
fn responses_carry_their_nested_outcomes() {
    let rejected = Response::Cmd(CmdResponse::StoreChunk(Err(Rejection::DataExists)));
    assert!(matches!(
        rejected,
        Response::Cmd(CmdResponse::StoreChunk(Err(Rejection::DataExists)))
    ));
    let read = Response::Query(QueryResponse::Register(Ok(b"state".to_vec())));
    assert!(matches!(read, Response::Query(QueryResponse::Register(Ok(_)))));
}
