//! The system connection bus: the decisions of the polling worker.
//!
//! The bus owns a set of live transport connections, polls each of them
//! once per interval, echoes every inbound event to every other
//! connection, filters by the installation's game identity, dispatches to
//! the event handler, and broadcasts outbound events with one transparent
//! retry.
//!
//! The connections themselves do blocking input and output, so the loop
//! that drives them runs outside this crate. Everything the loop decides
//! is here, as functions from plain values (poll results, write outcomes,
//! channel polls) to plain values (planned effects, log entries, the next
//! action), each with a contract that pins the decision down.

use vstd::prelude::*;
use vstd::string::StringExecFns;
use crate::item::{ItemId, ItemPair};
use crate::text::{push_decimal, spec_decimal};

verus! {

/// The optional game identity of the installation. When set, inbound
/// events whose first data word differs from it are dropped with a
/// warning, and outbound events carry it as their first data word.
#[derive(Copy, Clone, PartialEq, Eq, Structural, Debug)]
pub struct Identifier {
    pub id: Option<u32>,
}

/// One result of polling a live connection: a normal event with its two
/// data words, or an error observed while writing or reading.
#[derive(Clone, PartialEq, Debug)]
pub enum ReadResult {
    /// A successfully read event.
    Normal(ItemId, u32, u32),
    /// An error observed when writing data.
    WriteError(String),
    /// An error observed when reading data.
    ReadError(String),
}

/// A log entry for the event handler.
#[derive(Clone, PartialEq, Debug)]
pub enum LogUpdate {
    /// A warning, with an optional item for context.
    Warning(String, Option<ItemPair>),
    /// An error, with an optional item for context.
    Error(String, Option<ItemPair>),
}

/// A message to the event handler on the dispatch channel.
#[derive(Clone, PartialEq, Debug)]
pub enum InternalUpdate {
    /// Process an event, optionally checking the scene, optionally
    /// rebroadcasting.
    ProcessEvent { event: ItemId, check_scene: bool, broadcast: bool },
    /// Pass a log entry along.
    Update(LogUpdate),
}

/// A message from the bus owner to the polling worker.
#[derive(Clone, PartialEq, Debug)]
pub enum ConnectionUpdate {
    /// Broadcast an event, with an optional second data word.
    Broadcast(ItemId, Option<u32>),
    /// Stop the worker.
    Stop,
}

/// One planned effect of a worker iteration, addressed to a live
/// connection by its position in the live set, or to the event handler.
#[derive(Clone, PartialEq, Debug)]
pub enum BusEffect {
    /// Echo an event to the connection at `connection`.
    Echo { connection: usize, id: ItemId, data1: u32, data2: u32 },
    /// Send a message to the event handler.
    Dispatch(InternalUpdate),
    /// Write an event to the connection at `connection`.
    Write { connection: usize, id: ItemId, data1: u32, data2: u32 },
}

/// The dispatch for processing an inbound event: check the scene, do not
/// rebroadcast (events received from a peer are never sent back out).
pub open spec fn process_event_update(id: ItemId) -> InternalUpdate {
    InternalUpdate::ProcessEvent { event: id, check_scene: true, broadcast: false }
}

/// The text of the warning logged when an inbound event fails the game
/// identity check.
pub open spec fn mismatch_warning_text(id: ItemId) -> Seq<char> {
    "Game Id Does Not Match. Event Ignored. ("@ + spec_decimal(id.spec_id() as nat) + ")"@
}

/// Whether `u` is the warning dispatched for an identity mismatch on `id`.
pub open spec fn is_mismatch_warning(id: ItemId, u: InternalUpdate) -> bool {
    u matches InternalUpdate::Update(LogUpdate::Warning(m, ctx)) && m@ == mismatch_warning_text(id)
        && ctx is None
}

/// What the worker dispatches for a normal inbound event: the event
/// itself when the identity matches (or none is configured), the mismatch
/// warning otherwise.
pub open spec fn dispatch_decision(id: ItemId, data1: u32, identity: Identifier, u: InternalUpdate) -> bool {
    match identity.id {
        Some(game_id) => if game_id == data1 {
            u == process_event_update(id)
        } else {
            is_mismatch_warning(id, u)
        },
        None => u == process_event_update(id),
    }
}

/// A fresh string holding `prefix` followed by `detail`.
fn prefixed_text(prefix: &str, detail: &str) -> (r: String)
    ensures
        r@ == prefix@ + detail@,
{
    let mut out = prefix.to_owned();
    out.append(detail);
    out
}

/// The warning logged when an inbound event fails the identity check.
pub fn mismatch_warning(id: ItemId) -> (r: LogUpdate)
    ensures
        r matches LogUpdate::Warning(m, ctx) && m@ == mismatch_warning_text(id) && ctx is None,
{
    let mut text = "Game Id Does Not Match. Event Ignored. (".to_owned();
    push_decimal(id.id(), &mut text);
    text.append(")");
    proof {
        assert(text@ =~= mismatch_warning_text(id));
    }
    LogUpdate::Warning(text, None)
}

/// The message dispatched to the event handler for a normal inbound
/// event, after the identity filter.
pub fn dispatch_for_normal(id: ItemId, data1: u32, identity: &Identifier) -> (r: InternalUpdate)
    ensures
        dispatch_decision(id, data1, *identity, r),
{
    match identity.id {
        Some(game_id) => {
            if game_id == data1 {
                InternalUpdate::ProcessEvent { event: id, check_scene: true, broadcast: false }
            } else {
                InternalUpdate::Update(mismatch_warning(id))
            }
        },
        None => InternalUpdate::ProcessEvent { event: id, check_scene: true, broadcast: false },
    }
}

/// Whether `plan` holds exactly the effects owed for one poll result
/// over `connection_count` live connections: a normal event is echoed to
/// every live connection, in order, and then dispatched once; a write or
/// read error is logged to the event handler and the connection stays in
/// the set.
#[verifier::opaque]
pub open spec fn is_result_plan(
    result: ReadResult,
    connection_count: usize,
    identity: Identifier,
    plan: Seq<BusEffect>,
) -> bool {
    match result {
        ReadResult::Normal(id, d1, d2) => {
            &&& plan.len() == connection_count + 1
            &&& forall|i: int|
                0 <= i < connection_count ==> plan[i] == (BusEffect::Echo {
                    connection: i as usize,
                    id,
                    data1: d1,
                    data2: d2,
                })
            &&& plan[connection_count as int] matches BusEffect::Dispatch(u)
                && dispatch_decision(id, d1, identity, u)
        },
        ReadResult::WriteError(e) => {
            &&& plan.len() == 1
            &&& plan[0] matches BusEffect::Dispatch(InternalUpdate::Update(
                LogUpdate::Error(m, ctx),
            )) && m@ == "Communication Write Error: "@ + e@ && ctx is None
        },
        ReadResult::ReadError(e) => {
            &&& plan.len() == 1
            &&& plan[0] matches BusEffect::Dispatch(InternalUpdate::Update(
                LogUpdate::Error(m, ctx),
            )) && m@ == "Communication Read Error: "@ + e@ && ctx is None
        },
    }
}

/// How many effects the plan for one poll result holds.
pub open spec fn spec_result_plan_len(result: ReadResult, connection_count: usize) -> int {
    match result {
        ReadResult::Normal(_, _, _) => connection_count + 1,
        ReadResult::WriteError(_) => 1,
        ReadResult::ReadError(_) => 1,
    }
}

/// The planned effects for one poll result, over a live set of
/// `connection_count` connections.
pub fn plan_result(result: &ReadResult, connection_count: usize, identity: &Identifier) -> (plan:
    Vec<BusEffect>)
    ensures
        is_result_plan(*result, connection_count, *identity, plan@),
        plan@.len() == spec_result_plan_len(*result, connection_count),
{
    proof {
        reveal(is_result_plan);
    }
    let mut plan: Vec<BusEffect> = Vec::new();
    match result {
        ReadResult::Normal(id, d1, d2) => {
            let mut i: usize = 0;
            while i < connection_count
                invariant
                    i <= connection_count,
                    plan@.len() == i,
                    forall|j: int|
                        0 <= j < i ==> plan@[j] == (BusEffect::Echo {
                            connection: j as usize,
                            id: *id,
                            data1: *d1,
                            data2: *d2,
                        }),
                decreases connection_count - i,
            {
                plan.push(BusEffect::Echo { connection: i, id: *id, data1: *d1, data2: *d2 });
                i += 1;
            }
            plan.push(BusEffect::Dispatch(dispatch_for_normal(*id, *d1, identity)));
        },
        ReadResult::WriteError(e) => {
            let text = prefixed_text("Communication Write Error: ", e.as_str());
            plan.push(BusEffect::Dispatch(InternalUpdate::Update(LogUpdate::Error(text, None))));
        },
        ReadResult::ReadError(e) => {
            let text = prefixed_text("Communication Read Error: ", e.as_str());
            plan.push(BusEffect::Dispatch(InternalUpdate::Update(LogUpdate::Error(text, None))));
        },
    }
    plan
}

/// In the plan for a normal inbound event, every live connection
/// receives the echo with the same triple, and every echo stands before
/// the single dispatch to the event handler.
pub proof fn lemma_echo_before_dispatch(
    plan: Seq<BusEffect>,
    connection_count: usize,
    id: ItemId,
    data1: u32,
    data2: u32,
    identity: Identifier,
)
    requires
        is_result_plan(ReadResult::Normal(id, data1, data2), connection_count, identity, plan),
    ensures
        forall|c: usize|
            c < connection_count ==> plan[c as int] == (BusEffect::Echo {
                connection: c,
                id,
                data1,
                data2,
            }),
        forall|i: int, j: int|
            0 <= i < plan.len() && 0 <= j < plan.len() && plan[i] is Echo && plan[j] is Dispatch
                ==> i < j,
{
    reveal(is_result_plan);
    assert forall|i: int, j: int|
        0 <= i < plan.len() && 0 <= j < plan.len() && plan[i] is Echo && plan[j] is Dispatch
        implies i < j by {
        assert(j == connection_count);
        assert(i != connection_count);
    }
}

/// Where the plan segment for the `k`-th result of a poll pass begins:
/// the combined length of the plans for the results before it.
pub open spec fn spec_pass_offset(
    results: Seq<ReadResult>,
    connection_count: usize,
    k: int,
) -> int
    decreases k,
{
    if k <= 0 {
        0
    } else {
        spec_pass_offset(results, connection_count, k - 1) + spec_result_plan_len(
            results[k - 1],
            connection_count,
        )
    }
}

proof fn lemma_pass_offset_monotone(
    results: Seq<ReadResult>,
    connection_count: usize,
    a: int,
    b: int,
)
    requires
        0 <= a <= b,
    ensures
        spec_pass_offset(results, connection_count, a) <= spec_pass_offset(
            results,
            connection_count,
            b,
        ),
    decreases b,
{
    if a < b {
        lemma_pass_offset_monotone(results, connection_count, a, b - 1);
    }
}

proof fn lemma_prefix_keeps_subrange(before: Seq<BusEffect>, added: Seq<BusEffect>, a: int, b: int)
    requires
        0 <= a <= b <= before.len(),
    ensures
        (before + added).subrange(a, b) == before.subrange(a, b),
{
    assert((before + added).subrange(a, b) =~= before.subrange(a, b));
}

proof fn lemma_appended_is_subrange(before: Seq<BusEffect>, added: Seq<BusEffect>)
    ensures
        (before + added).subrange(
            before.len() as int,
            before.len() as int + added.len() as int,
        ) == added,
{
    assert((before + added).subrange(before.len() as int, before.len() as int + added.len() as int)
        =~= added);
}

proof fn lemma_pass_extend(
    results: Seq<ReadResult>,
    connection_count: usize,
    identity: Identifier,
    before: Seq<BusEffect>,
    added: Seq<BusEffect>,
    k: int,
)
    requires
        0 <= k < results.len(),
        before.len() == spec_pass_offset(results, connection_count, k),
        added.len() == spec_result_plan_len(results[k], connection_count),
        is_result_plan(results[k], connection_count, identity, added),
        forall|j: int|
            #![trigger results[j]]
            0 <= j < k ==> is_result_plan(
                results[j],
                connection_count,
                identity,
                before.subrange(
                    spec_pass_offset(results, connection_count, j),
                    spec_pass_offset(results, connection_count, j + 1),
                ),
            ),
    ensures
        (before + added).len() == spec_pass_offset(results, connection_count, k + 1),
        forall|j: int|
            #![trigger results[j]]
            0 <= j < k + 1 ==> is_result_plan(
                results[j],
                connection_count,
                identity,
                (before + added).subrange(
                    spec_pass_offset(results, connection_count, j),
                    spec_pass_offset(results, connection_count, j + 1),
                ),
            ),
{
    lemma_appended_is_subrange(before, added);
    assert forall|j: int|
        #![trigger results[j]]
        0 <= j < k + 1 implies is_result_plan(
        results[j],
        connection_count,
        identity,
        (before + added).subrange(
            spec_pass_offset(results, connection_count, j),
            spec_pass_offset(results, connection_count, j + 1),
        ),
    ) by {
        if j < k {
            lemma_pass_offset_monotone(results, connection_count, 0, j);
            lemma_pass_offset_monotone(results, connection_count, j + 1, k);
            lemma_prefix_keeps_subrange(
                before,
                added,
                spec_pass_offset(results, connection_count, j),
                spec_pass_offset(results, connection_count, j + 1),
            );
        }
    }
}

/// The planned effects for a whole poll pass, one segment per result, in
/// the order the results were read: the bus preserves result order
/// within a single pass.
pub fn plan_poll_pass(results: &Vec<ReadResult>, connection_count: usize, identity: &Identifier) -> (plan: Vec<BusEffect>)
    ensures
        plan@.len() == spec_pass_offset(results@, connection_count, results@.len() as int),
        forall|k: int|
            #![trigger results@[k]]
            0 <= k < results@.len() ==> is_result_plan(
                results@[k],
                connection_count,
                *identity,
                plan@.subrange(
                    spec_pass_offset(results@, connection_count, k),
                    spec_pass_offset(results@, connection_count, k + 1),
                ),
            ),
{
    let mut plan: Vec<BusEffect> = Vec::new();
    let mut k: usize = 0;
    while k < results.len()
        invariant
            k <= results@.len(),
            plan@.len() == spec_pass_offset(results@, connection_count, k as int),
            forall|j: int|
                #![trigger results@[j]]
                0 <= j < k ==> is_result_plan(
                    results@[j],
                    connection_count,
                    *identity,
                    plan@.subrange(
                        spec_pass_offset(results@, connection_count, j),
                        spec_pass_offset(results@, connection_count, j + 1),
                    ),
                ),
        decreases results@.len() - k,
    {
        let mut segment = plan_result(&results[k], connection_count, identity);
        let ghost before = plan@;
        let ghost added = segment@;
        plan.append(&mut segment);
        proof {
            lemma_pass_extend(results@, connection_count, *identity, before, added, k as int);
        }
        k += 1;
    }
    plan
}

/// The first data word of an outbound event: the game identity, or zero
/// when none is configured.
pub open spec fn spec_identity_word(identity: Identifier) -> u32 {
    match identity.id {
        Some(game_id) => game_id,
        None => 0u32,
    }
}

/// The second data word of an outbound event: the given data, or zero.
pub open spec fn spec_data_word(data: Option<u32>) -> u32 {
    match data {
        Some(word) => word,
        None => 0u32,
    }
}

/// The two data words an outbound event carries.
pub fn broadcast_words(identity: &Identifier, data: Option<u32>) -> (r: (u32, u32))
    ensures
        r.0 == spec_identity_word(*identity),
        r.1 == spec_data_word(data),
{
    let data1 = match identity.id {
        Some(game_id) => game_id,
        None => 0,
    };
    let data2 = match data {
        Some(word) => word,
        None => 0,
    };
    (data1, data2)
}

/// The planned first write attempts for one broadcast: every live
/// connection receives the event with the identity word and the data
/// word.
pub fn plan_broadcast(id: ItemId, data: Option<u32>, identity: &Identifier, connection_count: usize) -> (plan: Vec<BusEffect>)
    ensures
        plan@.len() == connection_count,
        forall|i: int|
            0 <= i < connection_count ==> plan@[i] == (BusEffect::Write {
                connection: i as usize,
                id,
                data1: spec_identity_word(*identity),
                data2: spec_data_word(data),
            }),
{
    let (data1, data2) = broadcast_words(identity, data);
    let mut plan: Vec<BusEffect> = Vec::new();
    let mut i: usize = 0;
    while i < connection_count
        invariant
            i <= connection_count,
            plan@.len() == i,
            data1 == spec_identity_word(*identity),
            data2 == spec_data_word(data),
            forall|j: int|
                0 <= j < i ==> plan@[j] == (BusEffect::Write {
                    connection: j as usize,
                    id,
                    data1: spec_identity_word(*identity),
                    data2: spec_data_word(data),
                }),
        decreases connection_count - i,
    {
        plan.push(BusEffect::Write { connection: i, id, data1, data2 });
        i += 1;
    }
    plan
}

/// Whether some effect in `plan` writes the broadcast words for `id` to
/// the connection at `c`.
pub open spec fn plan_writes_to(
    plan: Seq<BusEffect>,
    c: usize,
    id: ItemId,
    identity: Identifier,
    data: Option<u32>,
) -> bool {
    exists|i: int|
        #![trigger plan[i]]
        0 <= i < plan.len() && plan[i] == (BusEffect::Write {
            connection: c,
            id,
            data1: spec_identity_word(identity),
            data2: spec_data_word(data),
        })
}

/// Every live connection receives at least one write for an enqueued
/// broadcast, carrying the identity word and the data word.
pub proof fn lemma_broadcast_reaches_all(
    plan: Seq<BusEffect>,
    connection_count: usize,
    id: ItemId,
    identity: Identifier,
    data: Option<u32>,
)
    requires
        plan.len() == connection_count,
        forall|i: int|
            0 <= i < connection_count ==> plan[i] == (BusEffect::Write {
                connection: i as usize,
                id,
                data1: spec_identity_word(identity),
                data2: spec_data_word(data),
            }),
    ensures
        forall|c: usize|
            c < connection_count ==> #[trigger] plan_writes_to(plan, c, id, identity, data),
{
    assert forall|c: usize| c < connection_count implies #[trigger] plan_writes_to(
        plan,
        c,
        id,
        identity,
        data,
    ) by {
        assert(plan[c as int] == (BusEffect::Write {
            connection: c,
            id,
            data1: spec_identity_word(identity),
            data2: spec_data_word(data),
        }));
    }
}

/// What one connection returned for one write attempt.
#[derive(Clone, PartialEq, Debug)]
pub enum WriteOutcome {
    /// The connection accepted the event.
    Accepted,
    /// The connection failed with the given error text.
    Failed(String),
}

/// What to do after the first write attempt of a broadcast to one
/// connection.
#[derive(Clone, PartialEq, Debug)]
pub enum WriteFollowup {
    /// The write succeeded; move on.
    Done,
    /// Wait one polling interval and attempt the write once more.
    RetryAfterInterval,
}

/// The decision after the first write attempt: success ends the
/// broadcast to this connection; a failure is retried exactly once,
/// after one polling interval, and only the retry's outcome is ever
/// reported to the event handler.
pub fn after_first_write(outcome: &WriteOutcome) -> (r: WriteFollowup)
    ensures
        match outcome {
            WriteOutcome::Accepted => r is Done,
            WriteOutcome::Failed(_) => r is RetryAfterInterval,
        },
{
    match outcome {
        WriteOutcome::Accepted => WriteFollowup::Done,
        WriteOutcome::Failed(_) => WriteFollowup::RetryAfterInterval,
    }
}

/// The decision after the retry: a second failure is logged as a
/// persistent error and swallowed; the connection is never taken
/// offline.
pub fn after_retry_write(outcome: &WriteOutcome) -> (r: Option<LogUpdate>)
    ensures
        match outcome {
            WriteOutcome::Accepted => r is None,
            WriteOutcome::Failed(e) => r matches Some(LogUpdate::Error(m, ctx)) && m@
                == "Persistent Communication Error: "@ + e@ && ctx is None,
        },
{
    match outcome {
        WriteOutcome::Accepted => None,
        WriteOutcome::Failed(e) => Some(
            LogUpdate::Error(prefixed_text("Persistent Communication Error: ", e.as_str()), None),
        ),
    }
}

/// What a non-blocking receive on the worker's channel yielded.
#[derive(Clone, PartialEq, Debug)]
pub enum ChannelPoll {
    /// A message arrived.
    Received(ConnectionUpdate),
    /// No message was waiting.
    Empty,
    /// The sending side is gone.
    Disconnected,
}

/// The worker's next move after polling its channel.
#[derive(Clone, PartialEq, Debug)]
pub enum WorkerAction {
    /// Write the event to every live connection.
    HandleBroadcast(ItemId, Option<u32>),
    /// Nothing to send this iteration.
    Idle,
    /// Exit the loop, releasing the live connections.
    Exit,
}

/// The worker's decision on a channel poll: broadcasts are written out,
/// a stop message or a disconnected channel ends the loop at the
/// iteration boundary, and an empty channel is no work.
pub fn next_worker_action(poll: ChannelPoll) -> (r: WorkerAction)
    ensures
        match poll {
            ChannelPoll::Received(ConnectionUpdate::Broadcast(id, data)) => r
                == WorkerAction::HandleBroadcast(id, data),
            ChannelPoll::Received(ConnectionUpdate::Stop) => r == WorkerAction::Exit,
            ChannelPoll::Disconnected => r == WorkerAction::Exit,
            ChannelPoll::Empty => r == WorkerAction::Idle,
        },
{
    match poll {
        ChannelPoll::Received(ConnectionUpdate::Broadcast(id, data)) => WorkerAction::HandleBroadcast(
            id,
            data,
        ),
        ChannelPoll::Received(ConnectionUpdate::Stop) => WorkerAction::Exit,
        ChannelPoll::Disconnected => WorkerAction::Exit,
        ChannelPoll::Empty => WorkerAction::Idle,
    }
}

/// How long the worker still sleeps after an iteration that took
/// `elapsed_millis`: the remainder of the polling interval, or nothing
/// when the iteration already spanned it.
pub open spec fn spec_remaining_delay(elapsed_millis: u64, interval_millis: u64) -> u64 {
    if elapsed_millis < interval_millis {
        (interval_millis - elapsed_millis) as u64
    } else {
        0u64
    }
}

/// The sleep that pads an iteration out to the polling interval.
pub fn remaining_delay(elapsed_millis: u64, interval_millis: u64) -> (r: u64)
    ensures
        r == spec_remaining_delay(elapsed_millis, interval_millis),
{
    if elapsed_millis < interval_millis {
        interval_millis - elapsed_millis
    } else {
        0
    }
}

/// An iteration padded by the remaining delay spans at least the polling
/// interval: the loop never runs faster than the configured rate.
pub proof fn lemma_iteration_spans_interval(elapsed_millis: u64, interval_millis: u64)
    ensures
        elapsed_millis + spec_remaining_delay(elapsed_millis, interval_millis) >= interval_millis,
{
}

/// The connections that initialized, in descriptor order.
pub open spec fn spec_live_set<C>(results: Seq<Result<C, String>>) -> Seq<C>
    decreases results.len(),
{
    if results.len() == 0 {
        Seq::empty()
    } else {
        let rest = spec_live_set(results.drop_last());
        match results.last() {
            Ok(connection) => rest.push(connection),
            Err(_) => rest,
        }
    }
}

/// The error texts logged for the descriptors that failed, in order.
pub open spec fn spec_init_error_texts<C>(results: Seq<Result<C, String>>) -> Seq<Seq<char>>
    decreases results.len(),
{
    if results.len() == 0 {
        Seq::empty()
    } else {
        let rest = spec_init_error_texts(results.drop_last());
        match results.last() {
            Ok(_) => rest,
            Err(e) => rest.push("System Connection Error: "@ + e@),
        }
    }
}

/// Whether any descriptor failed to initialize.
pub open spec fn spec_degraded<C>(results: Seq<Result<C, String>>) -> bool {
    exists|i: int| 0 <= i < results.len() && results[i] is Err
}

/// Sorts the outcomes of initializing a set of connection descriptors:
/// the connections that came up, in descriptor order; one logged error
/// per descriptor that failed; and whether the set is degraded. A failed
/// descriptor is skipped, never fatal: the bus continues with the rest.
pub fn collect_live<C>(results: Vec<Result<C, String>>) -> (r: (Vec<C>, Vec<LogUpdate>, bool))
    ensures
        r.0@ == spec_live_set(results@),
        r.1@.len() == spec_init_error_texts(results@).len(),
        forall|i: int|
            0 <= i < r.1@.len() ==> (#[trigger] r.1@[i] matches LogUpdate::Error(m, ctx) && m@
                == spec_init_error_texts(results@)[i] && ctx is None),
        r.2 == spec_degraded(results@),
    decreases results@.len(),
{
    let mut results = results;
    let ghost all = results@;
    match results.pop() {
        None => {
            proof {
                assert(spec_live_set(all) =~= Seq::<C>::empty());
                assert(spec_init_error_texts(all) =~= Seq::<Seq<char>>::empty());
            }
            (Vec::new(), Vec::new(), false)
        },
        Some(last) => {
            let (mut live, mut logs, mut degraded) = collect_live(results);
            match last {
                Ok(connection) => {
                    live.push(connection);
                    proof {
                        assert(all.drop_last() =~= all.subrange(0, all.len() - 1));
                        if degraded {
                            let i = choose|i: int|
                                0 <= i < all.drop_last().len() && all.drop_last()[i] is Err;
                            assert(all[i] is Err);
                        }
                        if spec_degraded(all) {
                            let i = choose|i: int| 0 <= i < all.len() && all[i] is Err;
                            assert(all.drop_last()[i] is Err);
                        }
                    }
                },
                Err(e) => {
                    let text = prefixed_text("System Connection Error: ", e.as_str());
                    logs.push(LogUpdate::Error(text, None));
                    degraded = true;
                    proof {
                        assert(all.last() is Err);
                        assert(spec_degraded(all));
                    }
                },
            }
            (live, logs, degraded)
        },
    }
}

/// The owner-side state of the system connection bus: whether a polling
/// worker is attached, and whether the last update left the live set
/// degraded. The channels and the worker thread that carry these
/// decisions out live with the caller.
pub struct SystemConnection {
    connected: bool,
    is_broken: bool,
}

impl SystemConnection {
    /// Whether a polling worker is attached, for use in specifications.
    pub closed spec fn spec_connected(&self) -> bool {
        self.connected
    }

    /// Whether the live set is degraded, for use in specifications.
    pub closed spec fn spec_is_broken(&self) -> bool {
        self.is_broken
    }

    /// A new bus with no worker and no live connections.
    pub fn new() -> (r: SystemConnection)
        ensures
            !r.spec_connected(),
            !r.spec_is_broken(),
    {
        SystemConnection { connected: false, is_broken: false }
    }

    /// Begins replacing the live set: the message that stops the current
    /// worker (when one is attached), and the bus back in its idle state.
    /// The prior set is released before any new descriptor comes up.
    pub fn begin_update(&mut self) -> (stop: Option<ConnectionUpdate>)
        ensures
            !final(self).spec_connected(),
            !final(self).spec_is_broken(),
            old(self).spec_connected() ==> stop == Some(ConnectionUpdate::Stop),
            !old(self).spec_connected() ==> stop is None,
    {
        let stop = if self.connected {
            Some(ConnectionUpdate::Stop)
        } else {
            None
        };
        self.connected = false;
        self.is_broken = false;
        stop
    }

    /// Finishes an update after the new live set came up: attaches the
    /// fresh worker and records whether any descriptor failed. Returns
    /// whether every connection was established. An update always begins
    /// with [`SystemConnection::begin_update`], so the prior set is
    /// released before the next one is attached.
    pub fn finish_update(&mut self, degraded: bool) -> (ok: bool)
        requires
            !old(self).spec_connected(),
        ensures
            final(self).spec_connected(),
            final(self).spec_is_broken() == degraded,
            ok == !degraded,
    {
        self.connected = true;
        self.is_broken = degraded;
        !degraded
    }

    /// The decision for an outbound event: the message for the worker
    /// (none when the bus is idle, so the broadcast is a silent no-op),
    /// and the degraded-set warning when one is owed.
    pub fn broadcast(&self, new_event: ItemId, data: Option<u32>) -> (r: (
        Option<ConnectionUpdate>,
        Option<LogUpdate>,
    ))
        ensures
            self.spec_connected() ==> r.0 == Some(ConnectionUpdate::Broadcast(new_event, data)),
            !self.spec_connected() ==> r.0 is None && r.1 is None,
            self.spec_connected() && self.spec_is_broken() ==> (r.1 matches Some(
                LogUpdate::Error(m, ctx),
            ) && m@ == "Unable To Reach One Or More System Connections."@ && ctx is None),
            self.spec_connected() && !self.spec_is_broken() ==> r.1 is None,
    {
        if !self.connected {
            return (None, None);
        }
        let warning = if self.is_broken {
            Some(
                LogUpdate::Error("Unable To Reach One Or More System Connections.".to_owned(), None),
            )
        } else {
            None
        };
        (Some(ConnectionUpdate::Broadcast(new_event, data)), warning)
    }

    /// The error logged when the worker's channel refuses a broadcast.
    pub fn send_failure_log(detail: &str) -> (r: LogUpdate)
        ensures
            r matches LogUpdate::Error(m, ctx) && m@ == "Unable To Connect: "@ + detail@
                && ctx is None,
    {
        LogUpdate::Error(prefixed_text("Unable To Connect: ", detail), None)
    }
}

} // verus!
