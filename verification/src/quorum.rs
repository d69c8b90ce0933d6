//! The close-group quorum protocol: the reductions that turn the responses
//! of a replication group into a single verified outcome.
//!
//! Each reduction takes the peer responses in the order they completed, so a
//! caller that feeds in results as they arrive can stop at the returned
//! prefix length: the reductions report how many responses they consumed,
//! and consume no more than the shortest deciding prefix.

use vstd::prelude::*;

use crate::error::{Error, NetworkError, Rejection};
use crate::messages::{CmdResponse, QueryResponse, Response};
use crate::spend::{DbcId, SignedSpend, SpendView};
use crate::address::Chunk;
use crate::CLOSE_GROUP_SIZE;

verus! {

/// Majority of a group of `n` members: `floor(n / 2) + 1`.
pub open spec fn majority(n: int) -> int {
    n / 2 + 1
}

/// Executable majority of a group size.
pub fn group_majority(group_size: usize) -> (r: usize)
    ensures
        r == majority(group_size as int),
{
    group_size / 2 + 1
}

/// A majority is always more than half the group, never more than the whole
/// group (for non-empty groups), and a majority of an empty group is
/// unreachable rather than trivially met.
pub proof fn lemma_majority_properties(n: int)
    requires
        n >= 0,
    ensures
        majority(n) == n / 2 + 1,
        2 * majority(n) > n,
        n >= 1 ==> majority(n) <= n,
        n == 0 ==> majority(n) == 1,
        n == 1 ==> majority(n) == 1,
{
}

// ---------------------------------------------------------------------------
// Store with majority acknowledgement
// ---------------------------------------------------------------------------

/// Whether one peer response is a strict success for a chunk store.
pub open spec fn is_store_success(r: Result<Response, NetworkError>) -> bool {
    match r {
        Ok(Response::Cmd(CmdResponse::StoreChunk(res))) => res is Ok,
        _ => false,
    }
}

/// How many responses of the sequence are strict store successes.
pub open spec fn store_successes(s: Seq<Result<Response, NetworkError>>) -> int
    decreases s.len(),
{
    if s.len() == 0 {
        0
    } else {
        store_successes(s.drop_last()) + if is_store_success(s.last()) {
            1int
        } else {
            0int
        }
    }
}

/// A store succeeds exactly when the group's successes reach its majority.
pub open spec fn store_quorum_reached(
    s: Seq<Result<Response, NetworkError>>,
    group_size: int,
) -> bool {
    store_successes(s) >= majority(group_size)
}

/// The rejection carried by one store response, if it is an explicit one.
pub open spec fn store_rejection_of(r: Result<Response, NetworkError>) -> Option<Rejection> {
    match r {
        Ok(Response::Cmd(CmdResponse::StoreChunk(res))) => match res {
            Err(rej) => Some(rej),
            Ok(_) => None,
        },
        _ => None,
    }
}

/// The first explicit rejection among the responses, in arrival order.
pub open spec fn first_store_rejection(s: Seq<Result<Response, NetworkError>>) -> Option<
    Rejection,
>
    decreases s.len(),
{
    if s.len() == 0 {
        None
    } else if store_rejection_of(s.first()) is Some {
        store_rejection_of(s.first())
    } else {
        first_store_rejection(s.drop_first())
    }
}

/// The transport error carried by one response, if any.
pub open spec fn network_error_of(r: Result<Response, NetworkError>) -> Option<NetworkError> {
    match r {
        Err(e) => Some(e),
        Ok(_) => None,
    }
}

/// The first transport error among the responses, in arrival order.
pub open spec fn first_network_error(s: Seq<Result<Response, NetworkError>>) -> Option<
    NetworkError,
>
    decreases s.len(),
{
    if s.len() == 0 {
        None
    } else if network_error_of(s.first()) is Some {
        network_error_of(s.first())
    } else {
        first_network_error(s.drop_first())
    }
}

/// The error a failed store surfaces: the first explicit rejection if one was
/// seen, else the first transport error, else the protocol-invariant
/// violation of having only well-formed responses of the wrong kind.
pub open spec fn store_failure(s: Seq<Result<Response, NetworkError>>) -> Error {
    match first_store_rejection(s) {
        Some(rej) => Error::Protocol(rej),
        None => match first_network_error(s) {
            Some(err) => Error::Network(err),
            None => Error::UnexpectedResponses,
        },
    }
}

proof fn lemma_store_successes_take_succ(s: Seq<Result<Response, NetworkError>>, i: int)
    requires
        0 <= i < s.len(),
    ensures
        store_successes(s.take(i + 1)) == store_successes(s.take(i)) + if is_store_success(
            s[i],
        ) {
            1int
        } else {
            0int
        },
{
    assert(s.take(i + 1).drop_last() =~= s.take(i));
    assert(s.take(i + 1).last() == s[i]);
}

proof fn lemma_first_store_rejection_step(s: Seq<Result<Response, NetworkError>>, i: int)
    requires
        0 <= i < s.len(),
    ensures
        first_store_rejection(s.skip(i)) == if store_rejection_of(s[i]) is Some {
            store_rejection_of(s[i])
        } else {
            first_store_rejection(s.skip(i + 1))
        },
{
    assert(s.skip(i).first() == s[i]);
    assert(s.skip(i).drop_first() =~= s.skip(i + 1));
}

proof fn lemma_first_network_error_step(s: Seq<Result<Response, NetworkError>>, i: int)
    requires
        0 <= i < s.len(),
    ensures
        first_network_error(s.skip(i)) == if network_error_of(s[i]) is Some {
            network_error_of(s[i])
        } else {
            first_network_error(s.skip(i + 1))
        },
{
    assert(s.skip(i).first() == s[i]);
    assert(s.skip(i).drop_first() =~= s.skip(i + 1));
}

proof fn lemma_store_successes_remove(s: Seq<Result<Response, NetworkError>>, i: int)
    requires
        0 <= i < s.len(),
    ensures
        store_successes(s) == store_successes(s.remove(i)) + if is_store_success(s[i]) {
            1int
        } else {
            0int
        },
    decreases s.len(),
{
    if i == s.len() - 1 {
        assert(s.remove(i) =~= s.drop_last());
    } else {
        assert(s.remove(i).drop_last() =~= s.drop_last().remove(i));
        assert(s.remove(i).last() == s.last());
        lemma_store_successes_remove(s.drop_last(), i);
    }
}

proof fn lemma_store_successes_permutation(
    a: Seq<Result<Response, NetworkError>>,
    b: Seq<Result<Response, NetworkError>>,
)
    requires
        a.to_multiset() == b.to_multiset(),
    ensures
        store_successes(a) == store_successes(b),
    decreases a.len(),
{
    broadcast use vstd::seq_lib::group_to_multiset_ensures;

    if a.len() == 0 {
        assert(a.to_multiset().len() == a.len());
        assert(b.to_multiset().len() == b.len());
        assert(b.len() == 0);
    } else {
        let x = a.last();
        assert(a.contains(x));
        assert(a.to_multiset().count(x) > 0);
        assert(b.to_multiset().count(x) > 0);
        assert(b.contains(x));
        let i = choose|i: int| 0 <= i < b.len() && b[i] == x;
        lemma_store_successes_remove(b, i);
        assert(a.drop_last().push(x) =~= a);
        assert(a.drop_last().to_multiset() =~= b.remove(i).to_multiset());
        lemma_store_successes_permutation(a.drop_last(), b.remove(i));
    }
}

/// The outcome of a store does not depend on the order in which responses
/// arrived: any rearrangement of the same responses decides alike, however
/// many errors came before or after the successes.
pub proof fn lemma_store_outcome_order_insensitive(
    a: Seq<Result<Response, NetworkError>>,
    b: Seq<Result<Response, NetworkError>>,
    group_size: int,
)
    requires
        a.to_multiset() == b.to_multiset(),
    ensures
        store_quorum_reached(a, group_size) == store_quorum_reached(b, group_size),
{
    lemma_store_successes_permutation(a, b);
}

/// Resending an already-acknowledged store is idempotent: a replay whose
/// acknowledgements are at least those of the acknowledged first round (peers
/// treat a replayed store as an ordinary success, not an error) reaches the
/// majority again.
pub proof fn lemma_store_replay_idempotent(
    first: Seq<Result<Response, NetworkError>>,
    replay: Seq<Result<Response, NetworkError>>,
    group_size: int,
)
    requires
        store_quorum_reached(first, group_size),
        store_successes(replay) >= store_successes(first),
    ensures
        store_quorum_reached(replay, group_size),
{
}

/// Reduce the responses of a store fan-out over a group of `group_size`
/// peers: succeed exactly when strict successes reach the majority, in
/// whatever order they arrived; otherwise surface the first error observed,
/// preferring an explicit rejection over a transport error, and report a
/// protocol-invariant violation when neither was seen.
pub fn store_chunk_outcome_with(
    responses: &Vec<Result<Response, NetworkError>>,
    group_size: usize,
) -> (r: Result<(), Error>)
    ensures
        (r is Ok) <==> store_quorum_reached(responses@, group_size as int),
        !store_quorum_reached(responses@, group_size as int) ==> r == Err::<(), Error>(
            store_failure(responses@),
        ),
{
    let maj = group_majority(group_size);
    let n = responses.len();

    let mut successes: usize = 0;
    let mut i: usize = 0;
    while i < n
        invariant
            i <= n,
            n == responses@.len(),
            successes <= i,
            successes == store_successes(responses@.take(i as int)),
        decreases n - i,
    {
        let is_success = match &responses[i] {
            Ok(Response::Cmd(CmdResponse::StoreChunk(Ok(())))) => true,
            _ => false,
        };
        proof {
            lemma_store_successes_take_succ(responses@, i as int);
        }
        if is_success {
            successes = successes + 1;
        }
        i = i + 1;
    }
    proof {
        assert(responses@.take(n as int) =~= responses@);
    }

    if successes >= maj {
        return Ok(());
    }

    // No majority: surface the first explicit rejection, if any.
    let mut i: usize = 0;
    proof {
        assert(responses@.skip(0) =~= responses@);
    }
    while i < n
        invariant
            i <= n,
            n == responses@.len(),
            first_store_rejection(responses@) == first_store_rejection(
                responses@.skip(i as int),
            ),
            !store_quorum_reached(responses@, group_size as int),
        decreases n - i,
    {
        proof {
            lemma_first_store_rejection_step(responses@, i as int);
        }
        match &responses[i] {
            Ok(Response::Cmd(CmdResponse::StoreChunk(Err(rej)))) => {
                return Err(Error::Protocol(*rej));
            },
            _ => {},
        }
        i = i + 1;
    }
    proof {
        assert(responses@.skip(n as int) =~= Seq::<Result<Response, NetworkError>>::empty());
    }

    // No rejection either: surface the first transport error.
    let mut i: usize = 0;
    proof {
        assert(responses@.skip(0) =~= responses@);
    }
    while i < n
        invariant
            i <= n,
            n == responses@.len(),
            first_store_rejection(responses@) is None,
            first_network_error(responses@) == first_network_error(responses@.skip(i as int)),
            !store_quorum_reached(responses@, group_size as int),
        decreases n - i,
    {
        proof {
            lemma_first_network_error_step(responses@, i as int);
        }
        match &responses[i] {
            Err(err) => {
                return Err(Error::Network(*err));
            },
            _ => {},
        }
        i = i + 1;
    }
    proof {
        assert(responses@.skip(n as int) =~= Seq::<Result<Response, NetworkError>>::empty());
    }

    // Only well-formed responses of the wrong kind: a protocol violation.
    Err(Error::UnexpectedResponses)
}

// ---------------------------------------------------------------------------
// Broadcast with majority acknowledgement
// ---------------------------------------------------------------------------

/// Whether one peer response is a strict acknowledgement of a spend record.
pub open spec fn is_spend_ack(r: Result<Response, NetworkError>) -> bool {
    match r {
        Ok(Response::Cmd(CmdResponse::Spend(res))) => res is Ok,
        _ => false,
    }
}

/// How many responses of the sequence acknowledge the spend.
pub open spec fn spend_acks(s: Seq<Result<Response, NetworkError>>) -> int
    decreases s.len(),
{
    if s.len() == 0 {
        0
    } else {
        spend_acks(s.drop_last()) + if is_spend_ack(s.last()) {
            1int
        } else {
            0int
        }
    }
}

/// A broadcast succeeds exactly when its acknowledgements reach the majority.
pub open spec fn spend_quorum_reached(
    s: Seq<Result<Response, NetworkError>>,
    group_size: int,
) -> bool {
    spend_acks(s) >= majority(group_size)
}

proof fn lemma_spend_acks_take_succ(s: Seq<Result<Response, NetworkError>>, i: int)
    requires
        0 <= i < s.len(),
    ensures
        spend_acks(s.take(i + 1)) == spend_acks(s.take(i)) + if is_spend_ack(s[i]) {
            1int
        } else {
            0int
        },
{
    assert(s.take(i + 1).drop_last() =~= s.take(i));
    assert(s.take(i + 1).last() == s[i]);
}

proof fn lemma_spend_acks_monotone(s: Seq<Result<Response, NetworkError>>, i: int, j: int)
    requires
        0 <= i <= j <= s.len(),
    ensures
        spend_acks(s.take(i)) <= spend_acks(s.take(j)),
    decreases j - i,
{
    if i < j {
        lemma_spend_acks_monotone(s, i, j - 1);
        lemma_spend_acks_take_succ(s, j - 1);
    }
}

/// Reduce the completions of a spend broadcast, in completion order, over a
/// group of `group_size` peers. The call succeeds exactly when the
/// acknowledgements among all completions reach the majority; it consumes no
/// completion beyond the first one that crosses the threshold, so a caller
/// processing arrivals never waits on slower in-flight operations once the
/// majority is in (the returned count says how many completions were read).
/// Unexpected responses and transport errors are not surfaced here: only a
/// missed majority is, carrying the observed count and the threshold.
pub fn majority_ack_reduce(
    responses: &Vec<Result<Response, NetworkError>>,
    group_size: usize,
) -> (outcome: (Result<(), Error>, usize))
    ensures
        outcome.1 <= responses@.len(),
        (outcome.0 is Ok) <==> spend_quorum_reached(responses@, group_size as int),
        outcome.0 is Ok ==> spend_acks(responses@.take(outcome.1 as int)) == majority(
            group_size as int,
        ) && (forall|j: int|
            0 <= j < outcome.1 ==> spend_acks(responses@.take(j)) < majority(group_size as int)),
        outcome.0 is Err ==> outcome.1 == responses@.len() && outcome.0 == Err::<(), Error>(
            Error::CouldNotVerifyTransfer {
                received: spend_acks(responses@) as usize,
                required: majority(group_size as int) as usize,
            },
        ),
{
    let maj = group_majority(group_size);
    let n = responses.len();

    let mut acks: usize = 0;
    let mut i: usize = 0;
    while i < n
        invariant
            i <= n,
            n == responses@.len(),
            acks <= i,
            maj == majority(group_size as int),
            acks == spend_acks(responses@.take(i as int)),
            acks < maj,
        decreases n - i,
    {
        let is_ack = match &responses[i] {
            Ok(Response::Cmd(CmdResponse::Spend(Ok(())))) => true,
            _ => false,
        };
        proof {
            lemma_spend_acks_take_succ(responses@, i as int);
        }
        if is_ack {
            acks = acks + 1;
            if acks >= maj {
                proof {
                    assert forall|j: int| 0 <= j < i + 1 implies spend_acks(
                        responses@.take(j),
                    ) < majority(group_size as int) by {
                        lemma_spend_acks_monotone(responses@, j, i as int);
                    }
                    lemma_spend_acks_monotone(responses@, i + 1, n as int);
                    assert(responses@.take(n as int) =~= responses@);
                }
                return (Ok(()), i + 1);
            }
        }
        i = i + 1;
    }
    proof {
        assert(responses@.take(n as int) =~= responses@);
    }
    (
        Err(
            Error::CouldNotVerifyTransfer { received: acks, required: maj },
        ),
        n,
    )
}

/// [`majority_ack_reduce`] at the process-wide replication factor, keeping
/// only the outcome.
pub fn expect_closest_majority_ok(responses: &Vec<Result<Response, NetworkError>>) -> (r: Result<
    (),
    Error,
>)
    ensures
        (r is Ok) <==> spend_quorum_reached(responses@, CLOSE_GROUP_SIZE as int),
        r is Err ==> r == Err::<(), Error>(
            Error::CouldNotVerifyTransfer {
                received: spend_acks(responses@) as usize,
                required: majority(CLOSE_GROUP_SIZE as int) as usize,
            },
        ),
{
    let (outcome, _) = majority_ack_reduce(responses, CLOSE_GROUP_SIZE);
    outcome
}

// ---------------------------------------------------------------------------
// Fetch with majority agreement
// ---------------------------------------------------------------------------

/// The certificate carried by one response, if it is a successful read that
/// answers the requested identifier. Certificates for other identifiers,
/// rejections, responses of the wrong kind and transport errors all yield
/// nothing and never count towards agreement.
pub open spec fn matching_spend_of(id: Seq<u8>, r: Result<Response, NetworkError>) -> Option<
    SpendView,
> {
    match r {
        Ok(Response::Query(QueryResponse::GetDbcSpend(res))) => match res {
            Ok(spend) => if spend@.id == id {
                Some(spend@)
            } else {
                None
            },
            Err(_) => None,
        },
        _ => None,
    }
}

/// The certificates gathered from the responses for one identifier, in
/// completion order, duplicates kept: each answering peer contributes one.
pub open spec fn matching_spends(
    id: Seq<u8>,
    s: Seq<Result<Response, NetworkError>>,
) -> Seq<SpendView>
    decreases s.len(),
{
    if s.len() == 0 {
        Seq::<SpendView>::empty()
    } else {
        matching_spends(id, s.drop_last()) + match matching_spend_of(id, s.last()) {
            Some(v) => seq![v],
            None => Seq::<SpendView>::empty(),
        }
    }
}

/// How many of the gathered certificates equal `v` structurally. Certificates
/// that answer the same identifier but disagree in content fall into
/// different classes and are never merged.
pub open spec fn count_spend(s: Seq<SpendView>, v: SpendView) -> int
    decreases s.len(),
{
    if s.len() == 0 {
        0
    } else {
        count_spend(s.drop_last(), v) + if s.last() == v {
            1int
        } else {
            0int
        }
    }
}

/// Agreement holds exactly when some one certificate was returned, identical
/// in content, by at least a majority of the group.
pub open spec fn agreement_reached(
    id: Seq<u8>,
    s: Seq<Result<Response, NetworkError>>,
    group_size: int,
) -> bool {
    exists|v: SpendView| count_spend(matching_spends(id, s), v) >= majority(group_size)
}

/// The views of the certificates accumulated so far.
spec fn spend_views(s: Seq<SignedSpend>) -> Seq<SpendView> {
    Seq::new(s.len(), |k: int| s[k]@)
}

proof fn lemma_matching_spends_take_succ(
    id: Seq<u8>,
    s: Seq<Result<Response, NetworkError>>,
    i: int,
)
    requires
        0 <= i < s.len(),
    ensures
        matching_spends(id, s.take(i + 1)) == (match matching_spend_of(id, s[i]) {
            Some(v) => matching_spends(id, s.take(i)).push(v),
            None => matching_spends(id, s.take(i)),
        }),
{
    assert(s.take(i + 1).drop_last() =~= s.take(i));
    assert(s.take(i + 1).last() == s[i]);
    match matching_spend_of(id, s[i]) {
        Some(v) => {
            assert(matching_spends(id, s.take(i)) + seq![v] =~= matching_spends(
                id,
                s.take(i),
            ).push(v));
        },
        None => {
            assert(matching_spends(id, s.take(i)) + Seq::<SpendView>::empty() =~= matching_spends(
                id,
                s.take(i),
            ));
        },
    }
}

proof fn lemma_count_spend_push(s: Seq<SpendView>, x: SpendView, v: SpendView)
    ensures
        count_spend(s.push(x), v) == count_spend(s, v) + if x == v {
            1int
        } else {
            0int
        },
{
    assert(s.push(x).drop_last() =~= s);
    assert(s.push(x).last() == x);
}

proof fn lemma_count_spend_take_succ(s: Seq<SpendView>, v: SpendView, k: int)
    requires
        0 <= k < s.len(),
    ensures
        count_spend(s.take(k + 1), v) == count_spend(s.take(k), v) + if s[k] == v {
            1int
        } else {
            0int
        },
{
    assert(s.take(k + 1).drop_last() =~= s.take(k));
    assert(s.take(k + 1).last() == s[k]);
}

proof fn lemma_matching_count_monotone(
    id: Seq<u8>,
    s: Seq<Result<Response, NetworkError>>,
    v: SpendView,
    i: int,
    j: int,
)
    requires
        0 <= i <= j <= s.len(),
    ensures
        count_spend(matching_spends(id, s.take(i)), v) <= count_spend(
            matching_spends(id, s.take(j)),
            v,
        ),
    decreases j - i,
{
    if i < j {
        lemma_matching_count_monotone(id, s, v, i, j - 1);
        lemma_matching_spends_take_succ(id, s, j - 1);
        match matching_spend_of(id, s[j - 1]) {
            Some(x) => {
                lemma_count_spend_push(matching_spends(id, s.take(j - 1)), x, v);
            },
            None => {},
        }
    }
}

/// Reduce the completions of an agreement fetch for `dbc_id`, in completion
/// order, over a group of `group_size` peers. Every successful answer for the
/// requested identifier joins the accumulated evidence; after each arrival
/// the evidence is grouped by structural equality, and the call returns the
/// agreed certificate the moment one equality class reaches the majority,
/// consuming nothing past that completion. If no class ever reaches the
/// majority, the call fails with the number of gathered (non-unique) answers
/// and the threshold — which is how divergent replicas of one spend, a
/// double-spend attempt, surface as failure instead of a merged answer.
pub fn majority_agreement_reduce(
    dbc_id: &DbcId,
    responses: &Vec<Result<Response, NetworkError>>,
    group_size: usize,
) -> (outcome: (Result<SignedSpend, Error>, usize))
    ensures
        outcome.1 <= responses@.len(),
        (outcome.0 is Ok) <==> agreement_reached(dbc_id@, responses@, group_size as int),
        (outcome.0 matches Ok(spend) ==> count_spend(
            matching_spends(dbc_id@, responses@.take(outcome.1 as int)),
            spend@,
        ) == majority(group_size as int) && (forall|j: int, v: SpendView|
            0 <= j < outcome.1 ==> count_spend(matching_spends(dbc_id@, responses@.take(j)), v)
                < majority(group_size as int))),
        (outcome.0 matches Err(e) ==> outcome.1 == responses@.len() && e == (
        Error::CouldNotVerifyTransfer {
            received: matching_spends(dbc_id@, responses@).len() as usize,
            required: majority(group_size as int) as usize,
        }) && (forall|v: SpendView|
            count_spend(matching_spends(dbc_id@, responses@), v) < majority(group_size as int))),
{
    let maj = group_majority(group_size);
    let n = responses.len();

    let mut gathered: Vec<SignedSpend> = Vec::new();
    let mut i: usize = 0;
    proof {
        assert(spend_views(gathered@) =~= matching_spends(dbc_id@, responses@.take(0)));
    }
    while i < n
        invariant
            i <= n,
            n == responses@.len(),
            maj == majority(group_size as int),
            spend_views(gathered@) == matching_spends(dbc_id@, responses@.take(i as int)),
            forall|v: SpendView|
                count_spend(matching_spends(dbc_id@, responses@.take(i as int)), v) < maj,
        decreases n - i,
    {
        proof {
            lemma_matching_spends_take_succ(dbc_id@, responses@, i as int);
        }
        match &responses[i] {
            Ok(Response::Query(QueryResponse::GetDbcSpend(Ok(spend)))) => {
                if dbc_id.equals(spend.dbc_id()) {
                    gathered.push(spend.clone());
                    proof {
                        assert(spend_views(gathered@) =~= matching_spends(
                            dbc_id@,
                            responses@.take(i + 1),
                        ));
                    }

                    // Group the evidence by structural equality: how large is
                    // the class of the certificate that just arrived?
                    let mut class_size: usize = 0;
                    let mut k: usize = 0;
                    let m = gathered.len();
                    while k < m
                        invariant
                            k <= m,
                            m == gathered@.len(),
                            class_size <= k,
                            class_size == count_spend(
                                spend_views(gathered@).take(k as int),
                                spend@,
                            ),
                        decreases m - k,
                    {
                        proof {
                            lemma_count_spend_take_succ(spend_views(gathered@), spend@, k as int);
                        }
                        if gathered[k].same_spend(spend) {
                            class_size = class_size + 1;
                        }
                        k = k + 1;
                    }
                    proof {
                        assert(spend_views(gathered@).take(m as int) =~= spend_views(gathered@));
                    }

                    if class_size >= maj {
                        proof {
                            lemma_count_spend_push(
                                matching_spends(dbc_id@, responses@.take(i as int)),
                                spend@,
                                spend@,
                            );
                            assert(count_spend(
                                matching_spends(dbc_id@, responses@.take(i + 1)),
                                spend@,
                            ) == maj);
                            assert forall|j: int, v: SpendView| 0 <= j < i + 1 implies count_spend(
                                matching_spends(dbc_id@, responses@.take(j)),
                                v,
                            ) < majority(group_size as int) by {
                                lemma_matching_count_monotone(dbc_id@, responses@, v, j, i as int);
                                lemma_matching_spends_take_succ(dbc_id@, responses@, i as int);
                                lemma_count_spend_push(
                                    matching_spends(dbc_id@, responses@.take(i as int)),
                                    spend@,
                                    v,
                                );
                            }
                            lemma_matching_count_monotone(
                                dbc_id@,
                                responses@,
                                spend@,
                                i + 1,
                                n as int,
                            );
                            assert(responses@.take(n as int) =~= responses@);
                        }
                        return (Ok(spend.clone()), i + 1);
                    }

                    proof {
                        lemma_count_spend_push(
                            matching_spends(dbc_id@, responses@.take(i as int)),
                            spend@,
                            spend@,
                        );
                        assert forall|v: SpendView| #[trigger] count_spend(
                            matching_spends(dbc_id@, responses@.take(i + 1)),
                            v,
                        ) < maj by {
                            lemma_count_spend_push(
                                matching_spends(dbc_id@, responses@.take(i as int)),
                                spend@,
                                v,
                            );
                        }
                    }
                } else {
                    proof {
                        assert(spend_views(gathered@) =~= matching_spends(
                            dbc_id@,
                            responses@.take(i + 1),
                        ));
                    }
                }
            },
            _ => {
                proof {
                    assert(spend_views(gathered@) =~= matching_spends(
                        dbc_id@,
                        responses@.take(i + 1),
                    ));
                }
            },
        }
        i = i + 1;
    }
    proof {
        assert(responses@.take(n as int) =~= responses@);
    }
    (
        Err(
            Error::CouldNotVerifyTransfer { received: gathered.len(), required: maj },
        ),
        n,
    )
}

/// [`majority_agreement_reduce`] at the process-wide replication factor,
/// keeping only the outcome.
pub fn expect_closest_majority_same(
    dbc_id: &DbcId,
    responses: &Vec<Result<Response, NetworkError>>,
) -> (r: Result<SignedSpend, Error>)
    ensures
        (r is Ok) <==> agreement_reached(dbc_id@, responses@, CLOSE_GROUP_SIZE as int),
        (r matches Ok(spend) ==> (exists|i: int|
            0 <= i <= responses@.len() && count_spend(
                matching_spends(dbc_id@, responses@.take(i)),
                spend@,
            ) == majority(CLOSE_GROUP_SIZE as int))),
        (r matches Err(e) ==> e == (Error::CouldNotVerifyTransfer {
            received: matching_spends(dbc_id@, responses@).len() as usize,
            required: majority(CLOSE_GROUP_SIZE as int) as usize,
        })),
{
    let (outcome, consumed) = majority_agreement_reduce(dbc_id, responses, CLOSE_GROUP_SIZE);
    proof {
        match &outcome {
            Ok(spend) => {
                assert(0 <= consumed <= responses@.len() && count_spend(
                    matching_spends(dbc_id@, responses@.take(consumed as int)),
                    spend@,
                ) == majority(CLOSE_GROUP_SIZE as int));
            },
            Err(_) => {},
        }
    }
    outcome
}

// ---------------------------------------------------------------------------
// Fetch by content hash
// ---------------------------------------------------------------------------

/// Reduce the single provider answer of a content-addressed fetch. One
/// correct answer suffices for a read, because a chunk carries the address
/// its bytes hash to. A successful chunk answer is returned as it is; an
/// explicit rejection surfaces verbatim; an answer of the wrong kind for the
/// query is a protocol-invariant violation; a failure of the network layer
/// is propagated unchanged.
pub fn chunk_fetch_outcome(fetched: Result<QueryResponse, NetworkError>) -> (r: Result<
    Chunk,
    Error,
>)
    ensures
        (fetched matches Ok(QueryResponse::GetChunk(res)) ==> match res {
            Ok(chunk) => r matches Ok(c) && c@ == chunk@ && c.spec_address() == chunk.spec_address(),
            Err(rej) => r == Err::<Chunk, Error>(Error::Protocol(rej)),
        }),
        (fetched matches Ok(q) && !(q matches QueryResponse::GetChunk(_)) ==> r == Err::<
            Chunk,
            Error,
        >(Error::UnexpectedResponses)),
        (fetched matches Err(e) ==> r == Err::<Chunk, Error>(Error::Network(e))),
{
    match fetched {
        Ok(QueryResponse::GetChunk(Ok(chunk))) => Ok(chunk),
        Ok(QueryResponse::GetChunk(Err(rej))) => Err(Error::Protocol(rej)),
        Ok(_) => Err(Error::UnexpectedResponses),
        Err(err) => Err(Error::Network(err)),
    }
}

// ---------------------------------------------------------------------------
// Plain fan-out
// ---------------------------------------------------------------------------

/// Wrap each transport failure of a fan-out into the client's error type,
/// leaving every response untouched and in its place.
pub fn annotate_network_errors(responses: Vec<Result<Response, NetworkError>>) -> (r: Vec<
    Result<Response, Error>,
>)
    ensures
        r@.len() == responses@.len(),
        forall|k: int|
            0 <= k < responses@.len() ==> r@[k] == (match responses@[k] {
                Ok(resp) => Ok::<Response, Error>(resp),
                Err(e) => Err::<Response, Error>(Error::Network(e)),
            }),
{
    let ghost orig = responses@;
    let mut rest = responses;
    let mut out: Vec<Result<Response, Error>> = Vec::new();
    while rest.len() > 0
        invariant
            out@.len() + rest@.len() == orig.len(),
            rest@ == orig.skip(out@.len() as int),
            forall|k: int|
                0 <= k < out@.len() ==> out@[k] == (match orig[k] {
                    Ok(resp) => Ok::<Response, Error>(resp),
                    Err(e) => Err::<Response, Error>(Error::Network(e)),
                }),
        decreases rest@.len(),
    {
        proof {
            assert(rest@[0] == orig[out@.len() as int]);
            assert(rest@.remove(0) =~= orig.skip(out@.len() as int + 1));
        }
        match rest.remove(0) {
            Ok(resp) => out.push(Ok(resp)),
            Err(e) => out.push(Err(Error::Network(e))),
        }
    }
    out
}

/// [`store_chunk_outcome_with`] at the process-wide replication factor.
pub fn store_chunk_outcome(responses: &Vec<Result<Response, NetworkError>>) -> (r: Result<
    (),
    Error,
>)
    ensures
        (r is Ok) <==> store_quorum_reached(responses@, CLOSE_GROUP_SIZE as int),
        !store_quorum_reached(responses@, CLOSE_GROUP_SIZE as int) ==> r == Err::<(), Error>(
            store_failure(responses@),
        ),
{
    store_chunk_outcome_with(responses, CLOSE_GROUP_SIZE)
}

} // verus!
