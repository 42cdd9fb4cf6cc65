//! What holds of every fetch and of every pass through the lifecycle.

use crate::constants::{asset_name, ASSET_COUNT};
use crate::monitors::common::{supply_line, supply_lines};
use crate::monitors::decimal::amount_text;
use crate::monitors::session::{is_metric_set, FetchState};
use crate::monitors::types::{Attribute, FetchFault, MetricRecord, Reply};
use vstd::prelude::*;

verus! {

/// A reply never takes a fetch out of the states that a fetch can be in.
pub proof fn lemma_absorb_keeps_wf(state: FetchState, reply: Reply)
    requires
        state.wf(),
    ensures
        state.absorb(reply).wf(),
{
    match state {
        FetchState::AwaitingDecimals { done, supply } => {
            match reply {
                Reply::Exponent(digits) => {
                    let added = MetricRecord {
                        name: asset_name(done.len() as int),
                        quantity: supply,
                        exponent: digits,
                    };
                    let records = done.push(added);
                    assert forall|i: int| 0 <= i < records.len() implies (#[trigger] records[i]).name
                        == asset_name(i) by {
                        if i < done.len() {
                            assert(records[i] == done[i]);
                        }
                    }
                },
                _ => {},
            }
        },
        _ => {},
    }
}

/// A fetch never hands out part of a metric set: what it hands out has one
/// record for each watched contract, each under its contract's name and in
/// the order of the contracts.
pub proof fn lemma_outcome_is_whole(state: FetchState)
    requires
        state.wf(),
    ensures
        state.outcome() matches Ok(records) ==> is_metric_set(records),
        state.outcome() is Ok <==> state is Complete,
{
}

/// No fetch ever fails for want of a connection: a fetch is begun on a
/// connection, so that reason is left to the monitor that checks at run time
/// whether it holds one.
pub proof fn lemma_fetch_never_lacks_connection(state: FetchState)
    requires
        state.wf(),
    ensures
        state.outcome() matches Err(fault) ==> !(fault is ConnectNotCalled),
{
}

/// A fetch that has failed stays failed: no reply that comes later and no
/// query that would be prepared later changes the state or the reason, and
/// it has no metric set to show.
pub proof fn lemma_failed_is_final(state: FetchState, replies: Seq<Reply>)
    requires
        state is Failed,
    ensures
        state.absorb_all(replies) == state,
        state.outcome() == Err::<Seq<MetricRecord>, FetchFault>(state->fault),
        forall|reply: Reply, next: FetchState| #[trigger]
            state.absorb(reply).entered_as(next) ==> next == state,
    decreases replies.len(),
{
    if replies.len() > 0 {
        lemma_failed_is_final(state, replies.drop_first());
    }
}

/// One failed query fails the whole fetch, however many contracts have
/// answered before: the fetch ends with that query's failure as its reason,
/// nothing that follows brings it back, and the records gathered so far are
/// not handed out.
pub proof fn lemma_query_failure_fails_fetch(
    state: FetchState,
    cause: Seq<char>,
    later: Seq<Reply>,
)
    requires
        state.pending() is Some,
    ensures
        ({
            let (asset, attribute) = state.pending()->0;
            let fault = FetchFault::QueryFailed { asset, attribute, cause };
            &&& state.absorb(Reply::Failure(cause)) == FetchState::Failed { fault }
            &&& forall|next: FetchState|
                state.absorb(Reply::Failure(cause)).entered_as(next) ==> next
                    == FetchState::Failed { fault }
            &&& state.absorb(Reply::Failure(cause)).absorb_all(later).outcome() == Err::<
                Seq<MetricRecord>,
                FetchFault,
            >(fault)
        }),
{
    lemma_failed_is_final(state.absorb(Reply::Failure(cause)), later);
}

/// Whether `states` are the states that a session goes through while it takes
/// in `replies`: each reply is taken in, and the query that is open after it
/// is prepared, which may fail.
pub open spec fn is_run(states: Seq<FetchState>, replies: Seq<Reply>) -> bool {
    &&& states.len() == replies.len() + 1
    &&& forall|i: int|
        0 <= i < replies.len() ==> states[i].absorb(#[trigger] replies[i]).entered_as(
            states[i + 1],
        )
}

/// Once a query has failed in a run of a session, every later state of the
/// run is that failure, whatever is answered afterwards.
pub proof fn lemma_query_failure_ends_run(
    states: Seq<FetchState>,
    replies: Seq<Reply>,
    failed: int,
    later: int,
    cause: Seq<char>,
)
    requires
        is_run(states, replies),
        0 <= failed < later <= replies.len(),
        states[failed].pending() is Some,
        replies[failed] == Reply::Failure(cause),
    ensures
        states[later] == states[failed].absorb(Reply::Failure(cause)),
        states[later] is Failed,
        states[later].outcome() is Err,
    decreases later - failed,
{
    let before = later - 1;
    assert(states[before].absorb(replies[before]).entered_as(states[before + 1]));
    if before > failed {
        lemma_query_failure_ends_run(states, replies, failed, before, cause);
    }
}

/// After the first contract has answered both queries, a failure of the
/// second contract's supply query fails the fetch as a whole.
pub proof fn lemma_second_failure_after_first_success(
    supply: nat,
    decimals: nat,
    cause: Seq<char>,
    later: Seq<Reply>,
)
    ensures
        ({
            let first = FetchState::start().absorb(Reply::Quantity(supply)).absorb(
                Reply::Exponent(decimals),
            );
            let fault = FetchFault::QueryFailed {
                asset: 1,
                attribute: Attribute::TotalSupply,
                cause,
            };
            &&& first.pending() == Some((1nat, Attribute::TotalSupply))
            &&& first.absorb(Reply::Failure(cause)).absorb_all(later).outcome() == Err::<
                Seq<MetricRecord>,
                FetchFault,
            >(fault)
        }),
{
    let first = FetchState::start().absorb(Reply::Quantity(supply)).absorb(
        Reply::Exponent(decimals),
    );
    lemma_query_failure_fails_fetch(first, cause, later);
}

/// The replies of a pass in which every query is answered in kind: for each
/// watched contract its supply, then its decimals.
pub open spec fn answers_all(replies: Seq<Reply>) -> bool {
    &&& replies.len() == 2 * ASSET_COUNT
    &&& forall|i: int|
        0 <= i < ASSET_COUNT ==> #[trigger] replies[2 * i] is Quantity
    &&& forall|i: int| 0 <= i < ASSET_COUNT ==> #[trigger] replies[2 * i + 1] is Exponent
}

/// The record that the replies of such a pass give for contract number `i`.
pub open spec fn answered_record(replies: Seq<Reply>, i: int) -> MetricRecord {
    MetricRecord {
        name: asset_name(i),
        quantity: replies[2 * i]->Quantity_0,
        exponent: replies[2 * i + 1]->Exponent_0,
    }
}

/// A pass in which every query is answered ends with the full metric set,
/// each record made of its contract's name and that contract's two replies,
/// unaltered; and the set is shown as one line for each watched contract, in
/// the order of the contracts: the name, and the supply to two fractional
/// digits.
pub proof fn lemma_full_pass_shows_every_asset(replies: Seq<Reply>)
    requires
        answers_all(replies),
    ensures
        FetchState::start().absorb_all(replies).outcome() matches Ok(records) && {
            &&& is_metric_set(records)
            &&& forall|i: int|
                0 <= i < ASSET_COUNT ==> #[trigger] records[i] == answered_record(replies, i)
            &&& supply_lines(records).len() == ASSET_COUNT
            &&& forall|i: int|
                0 <= i < ASSET_COUNT ==> #[trigger] supply_lines(records)[i] == asset_name(i)
                    + " Supply: $"@ + amount_text(
                    replies[2 * i]->Quantity_0,
                    replies[2 * i + 1]->Exponent_0,
                )
        },
{
    let s0 = FetchState::start();
    assert(replies[2 * 0int] is Quantity && replies[2 * 0int + 1] is Exponent);
    assert(replies[2 * 1int] is Quantity && replies[2 * 1int + 1] is Exponent);
    let r1 = replies.drop_first();
    let r2 = r1.drop_first();
    let r3 = r2.drop_first();
    let r4 = r3.drop_first();
    assert(r1[0] == replies[1] && r2[0] == replies[2] && r3[0] == replies[3]);
    assert(r4.len() == 0);
    let s1 = s0.absorb(replies[0]);
    let s2 = s1.absorb(replies[1]);
    let s3 = s2.absorb(replies[2]);
    let s4 = s3.absorb(replies[3]);
    assert(s4.absorb_all(r4) == s4);
    assert(s3.absorb_all(r3) == s4);
    assert(s2.absorb_all(r2) == s4);
    assert(s1.absorb_all(r1) == s4);
    assert(s0.absorb_all(replies) == s4);
    let first = Seq::<MetricRecord>::empty().push(answered_record(replies, 0));
    assert(s2 == FetchState::AwaitingSupply { done: first });
    let records = first.push(answered_record(replies, 1));
    assert(s4 == FetchState::Complete { records });
    assert(records[0] == answered_record(replies, 0));
    assert(records[1] == answered_record(replies, 1));
    assert forall|i: int| 0 <= i < ASSET_COUNT implies #[trigger] supply_lines(records)[i]
        == asset_name(i) + " Supply: $"@ + amount_text(
        replies[2 * i]->Quantity_0,
        replies[2 * i + 1]->Exponent_0,
    ) by {
        assert(supply_lines(records)[i] == supply_line(records[i]));
    }
}

} // verus!
