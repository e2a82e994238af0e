//! The transition protocol over the bus and the status manager: which operation each module is
//! sent, and in which order the master and the front-ends are moved. Every blocking helper
//! checks its condition, then polls the bus until the condition holds, pausing
//! `POLL_INTERVAL_MS` between two polls; after `max_polls` polls with the condition still unmet
//! it gives `Timeout`. Every function here that sends a command or waits blocks the calling
//! thread, so none of them may be called from inside an asynchronous task.
use crate::command::{may_start_run, run_may_start, CommandStatus};
use crate::constants::{MUTANT_ID, NUMBER_OF_MODULES};
use crate::ecc_operation::{backward_of, forward_of, ECCOperation, ECCStatus};
use crate::embassy::Embassy;
use crate::error::EmbassyError;
use crate::message::{
    lemma_operation_round_trip, operation_body, sentry_operation_body, EmbassyMessage,
    MessageKind, MessageView,
};
use crate::sentry_types::{SentryOperation, SentryOperationRecord, SentryParameters};
use crate::status_manager::{
    all_but_master_in, apply_messages, busy_view, sentries_cataloged, system_status,
    ManagerView, StatusManager,
};
use vstd::prelude::*;
use vstd::string::*;

verus! {

/// Milliseconds that a blocking helper waits between two polls.
pub const POLL_INTERVAL_MS: u64 = 100;

/// The message that asks module `id` to perform `op`.
pub open spec fn op_message(op: ECCOperation, id: usize) -> MessageView {
    MessageView { kind: MessageKind::ECCOperation, id, body: operation_body(op) }
}

/// The operation that moves module `id` out of the state that view `v` records for it.
pub open spec fn step_operation(v: ManagerView, id: usize, is_forward: bool) -> ECCOperation {
    if is_forward {
        forward_of(v.status_of(id as int))
    } else {
        backward_of(v.status_of(id as int))
    }
}

/// The commands that a transition of `ids` sends, in order, and the status view it leaves:
/// each module in turn is sent the operation of its current state, and marked busy, unless that
/// operation is `Invalid`, in which case it is skipped.
pub open spec fn plan(v: ManagerView, ids: Seq<usize>, is_forward: bool) -> (
    Seq<(usize, ECCOperation)>,
    ManagerView,
)
    decreases ids.len(),
{
    if ids.len() == 0 {
        (Seq::empty(), v)
    } else {
        let (cmds, w) = plan(v, ids.drop_last(), is_forward);
        let id = ids.last();
        let op = step_operation(w, id, is_forward);
        if op == ECCOperation::Invalid {
            (cmds, w)
        } else {
            (cmds.push((id, op)), busy_view(w, id as int))
        }
    }
}

/// The messages that commands put on the module channels: those for modules without a channel
/// are dropped.
pub open spec fn deliveries(routes: Set<usize>, cmds: Seq<(usize, ECCOperation)>) -> Seq<
    (usize, MessageView),
>
    decreases cmds.len(),
{
    if cmds.len() == 0 {
        Seq::empty()
    } else {
        let rest = deliveries(routes, cmds.drop_last());
        let (id, op) = cmds.last();
        if routes.contains(id) {
            rest.push((id, op_message(op, id)))
        } else {
            rest
        }
    }
}

/// The ids of the front-ends, in increasing order.
pub open spec fn front_end_ids() -> Seq<usize> {
    Seq::new((NUMBER_OF_MODULES - 1) as nat, |i: int| i as usize)
}

/// The ids of all modules, in increasing order.
pub open spec fn all_ids() -> Seq<usize> {
    Seq::new(NUMBER_OF_MODULES as nat, |i: int| i as usize)
}

/// The same operation for each id, in order.
pub open spec fn same_op(ids: Seq<usize>, op: ECCOperation) -> Seq<(usize, ECCOperation)> {
    ids.map_values(|id: usize| (id, op))
}

/// What a poll keeps of the bus: the channels, the logs of what was sent, the cancellation.
pub open spec fn bus_unchanged(a: &Embassy, b: &Embassy) -> bool {
    &&& b.routes() == a.routes()
    &&& b.connected() == a.connected()
    &&& b.has_monitors() == a.has_monitors()
    &&& b.has_results() == a.has_results()
    &&& b.tasks() == a.tasks()
    &&& b.routed() == a.routed()
    &&& b.broadcasted() == a.broadcasted()
    &&& b.cancelled() == a.cancelled()
    &&& b.can_cancel() == a.can_cancel()
}

/// An error of a poll or of a blocking wait.
pub open spec fn wait_error(e: EmbassyError) -> bool {
    e is FailedParse || e is Timeout || e is FailedRecieve || e is Disconnected
}

/// A call on a disconnected bus: it fails with `Disconnected`, sends nothing and changes no
/// status.
pub open spec fn refused_disconnected(
    r: Result<(), EmbassyError>,
    old_bus: &Embassy,
    new_bus: &Embassy,
    old_status: ManagerView,
    new_status: ManagerView,
) -> bool {
    &&& r == Err::<(), EmbassyError>(EmbassyError::Disconnected)
    &&& new_status == old_status
    &&& new_bus.routed() == old_bus.routed()
    &&& new_bus.broadcasted() == old_bus.broadcasted()
    &&& new_bus.polls() == old_bus.polls()
}

/// Whether no entry of `log` from position `from` on hands the master its Start.
pub open spec fn no_master_start(log: Seq<(usize, MessageView)>, from: int) -> bool {
    forall|i: int|
        from <= i < log.len() ==> #[trigger] log[i] != (
            MUTANT_ID,
            op_message(ECCOperation::Start, MUTANT_ID),
        )
}

/// Whether every entry of `log` from position `from` on goes to module `id`.
pub open spec fn only_to(log: Seq<(usize, MessageView)>, from: int, id: usize) -> bool {
    forall|i: int| from <= i < log.len() ==> (#[trigger] log[i]).0 == id
}

/// Whether no entry of `log` from position `from` on goes to the master.
pub open spec fn none_to_master(log: Seq<(usize, MessageView)>, from: int) -> bool {
    forall|i: int| from <= i < log.len() ==> (#[trigger] log[i]).0 != MUTANT_ID
}

/// Whether `log` starts with `prefix`.
pub open spec fn extends(log: Seq<(usize, MessageView)>, prefix: Seq<(usize, MessageView)>) -> bool {
    log.len() >= prefix.len() && log.subrange(0, prefix.len() as int) == prefix
}

/// A log that starts with a prefix still does after more entries.
pub proof fn lemma_extends(a: Seq<(usize, MessageView)>, b: Seq<(usize, MessageView)>, p: Seq<(usize, MessageView)>)
    requires
        extends(a, p),
    ensures
        extends(a + b, p),
{
    assert((a + b).subrange(0, p.len() as int) =~= a.subrange(0, p.len() as int));
}

/// Whether the result says that every envoy dropped its end of the result channel.
pub open spec fn lost_bus(r: Result<(), EmbassyError>) -> bool {
    r matches Err(e) && e is FailedRecieve
}

/// A batch of messages stops only at a body that does not decode.
pub proof fn lemma_apply_error_is_parse(v: ManagerView, ms: Seq<MessageView>)
    ensures
        apply_messages(v, ms).1 matches Some(e) ==> e is FailedParse,
    decreases ms.len(),
{
    if ms.len() > 0 {
        lemma_apply_error_is_parse(v, ms.drop_last());
    }
}

/// Every message that commands put on the channels is the message of one of the commands,
/// sent to the module of that command.
pub proof fn lemma_deliveries_from(routes: Set<usize>, cmds: Seq<(usize, ECCOperation)>)
    ensures
        forall|i: int|
            0 <= i < deliveries(routes, cmds).len() ==> exists|j: int|
                0 <= j < cmds.len() && #[trigger] deliveries(routes, cmds)[i] == (
                    cmds[j].0,
                    op_message(cmds[j].1, cmds[j].0),
                ),
    decreases cmds.len(),
{
    if cmds.len() > 0 {
        let rest = cmds.drop_last();
        lemma_deliveries_from(routes, rest);
        let d = deliveries(routes, cmds);
        let dr = deliveries(routes, rest);
        assert forall|i: int| 0 <= i < d.len() implies exists|j: int|
            0 <= j < cmds.len() && #[trigger] d[i] == (cmds[j].0, op_message(cmds[j].1, cmds[j].0)) by {
            if i < dr.len() {
                let j = choose|j: int|
                    0 <= j < rest.len() && #[trigger] dr[i] == (rest[j].0, op_message(rest[j].1, rest[j].0));
                assert(rest[j] == cmds[j]);
                assert(d[i] == dr[i]);
            } else {
                let k = cmds.len() - 1;
                assert(d[i] == (cmds[k].0, op_message(cmds[k].1, cmds[k].0)));
            }
        }
    }
}

/// The messages of distinct operations differ.
pub proof fn lemma_op_message_injective(a: ECCOperation, b: ECCOperation, ia: usize, ib: usize)
    ensures
        op_message(a, ia) == op_message(b, ib) ==> a == b && ia == ib,
{
    lemma_operation_round_trip(a);
    lemma_operation_round_trip(b);
}

/// Commands none of which is the master's Start put no Start for the master on the channels.
pub proof fn lemma_deliveries_no_master_start(routes: Set<usize>, cmds: Seq<(usize, ECCOperation)>)
    requires
        forall|j: int|
            0 <= j < cmds.len() ==> (#[trigger] cmds[j]).1 != ECCOperation::Start || cmds[j].0
                != MUTANT_ID,
    ensures
        no_master_start(deliveries(routes, cmds), 0),
{
    lemma_deliveries_from(routes, cmds);
    let d = deliveries(routes, cmds);
    assert forall|i: int| 0 <= i < d.len() implies #[trigger] d[i] != (
        MUTANT_ID,
        op_message(ECCOperation::Start, MUTANT_ID),
    ) by {
        let j = choose|j: int|
            0 <= j < cmds.len() && #[trigger] d[i] == (cmds[j].0, op_message(cmds[j].1, cmds[j].0));
        lemma_op_message_injective(cmds[j].1, ECCOperation::Start, cmds[j].0, MUTANT_ID);
    }
}

/// Commands to modules other than `id` put nothing for `id` on the channels, and commands to
/// `id` alone put only messages for `id`.
pub proof fn lemma_deliveries_ids(routes: Set<usize>, cmds: Seq<(usize, ECCOperation)>, id: usize)
    ensures
        (forall|j: int| 0 <= j < cmds.len() ==> (#[trigger] cmds[j]).0 != id) ==> forall|i: int|
            0 <= i < deliveries(routes, cmds).len() ==> (#[trigger] deliveries(routes, cmds)[i]).0
                != id,
        (forall|j: int| 0 <= j < cmds.len() ==> (#[trigger] cmds[j]).0 == id) ==> forall|i: int|
            0 <= i < deliveries(routes, cmds).len() ==> (#[trigger] deliveries(routes, cmds)[i]).0
                == id,
{
    lemma_deliveries_from(routes, cmds);
    let d = deliveries(routes, cmds);
    if forall|j: int| 0 <= j < cmds.len() ==> (#[trigger] cmds[j]).0 != id {
        assert forall|i: int| 0 <= i < d.len() implies (#[trigger] d[i]).0 != id by {
            let j = choose|j: int|
                0 <= j < cmds.len() && #[trigger] d[i] == (cmds[j].0, op_message(cmds[j].1, cmds[j].0));
            assert(cmds[j].0 != id);
        }
    }
    if forall|j: int| 0 <= j < cmds.len() ==> (#[trigger] cmds[j]).0 == id {
        assert forall|i: int| 0 <= i < d.len() implies (#[trigger] d[i]).0 == id by {
            let j = choose|j: int|
                0 <= j < cmds.len() && #[trigger] d[i] == (cmds[j].0, op_message(cmds[j].1, cmds[j].0));
            assert(cmds[j].0 == id);
        }
    }
}

/// A transition never sends Start, and sends only to the modules it was given.
pub proof fn lemma_plan_commands(v: ManagerView, ids: Seq<usize>, is_forward: bool)
    ensures
        forall|j: int|
            0 <= j < plan(v, ids, is_forward).0.len() ==> (#[trigger] plan(v, ids, is_forward).0[j]).1
                != ECCOperation::Start,
        forall|j: int|
            0 <= j < plan(v, ids, is_forward).0.len() ==> exists|k: int|
                0 <= k < ids.len() && ids[k] == (#[trigger] plan(v, ids, is_forward).0[j]).0,
    decreases ids.len(),
{
    if ids.len() > 0 {
        let rest = ids.drop_last();
        lemma_plan_commands(v, rest, is_forward);
        let c = plan(v, ids, is_forward).0;
        let cr = plan(v, rest, is_forward).0;
        assert forall|j: int| 0 <= j < c.len() implies exists|k: int|
            0 <= k < ids.len() && ids[k] == (#[trigger] c[j]).0 by {
            if j < cr.len() {
                let k = choose|k: int| 0 <= k < rest.len() && rest[k] == (#[trigger] cr[j]).0;
                assert(ids[k] == rest[k]);
            } else {
                assert(c[j].0 == ids[ids.len() - 1]);
            }
        }
    }
}

/// A transition of the master alone sends only to the master, and never its Start.
pub proof fn lemma_master_plan(v: ManagerView, is_forward: bool, routes: Set<usize>)
    ensures
        no_master_start(deliveries(routes, plan(v, seq![MUTANT_ID], is_forward).0), 0),
        only_to(deliveries(routes, plan(v, seq![MUTANT_ID], is_forward).0), 0, MUTANT_ID),
{
    let ids = seq![MUTANT_ID];
    let c = plan(v, ids, is_forward).0;
    lemma_plan_commands(v, ids, is_forward);
    assert forall|j: int| 0 <= j < c.len() implies (#[trigger] c[j]).0 == MUTANT_ID by {
        let k = choose|k: int| 0 <= k < ids.len() && ids[k] == (#[trigger] c[j]).0;
    }
    lemma_deliveries_no_master_start(routes, c);
    lemma_deliveries_ids(routes, c, MUTANT_ID);
}

/// Sending one operation to front-ends sends nothing to the master.
pub proof fn lemma_front_end_commands(routes: Set<usize>, k: int, op: ECCOperation)
    requires
        0 <= k <= front_end_ids().len(),
    ensures
        none_to_master(deliveries(routes, same_op(front_end_ids().subrange(0, k), op)), 0),
        no_master_start(deliveries(routes, same_op(front_end_ids().subrange(0, k), op)), 0),
{
    let c = same_op(front_end_ids().subrange(0, k), op);
    assert forall|j: int| 0 <= j < c.len() implies (#[trigger] c[j]).0 != MUTANT_ID by {
        assert(c[j].0 == j as usize);
    }
    lemma_deliveries_ids(routes, c, MUTANT_ID);
    lemma_deliveries_no_master_start(routes, c);
}

/// A log that keeps a property from some position on keeps it after an extension that has it.
pub proof fn lemma_concat_logs(a: Seq<(usize, MessageView)>, b: Seq<(usize, MessageView)>, from: int)
    requires
        0 <= from <= a.len(),
        no_master_start(a, from),
        no_master_start(b, 0),
    ensures
        no_master_start(a + b, from),
{
    assert forall|i: int| from <= i < (a + b).len() implies #[trigger] (a + b)[i] != (
        MUTANT_ID,
        op_message(ECCOperation::Start, MUTANT_ID),
    ) by {
        if i >= a.len() {
            assert((a + b)[i] == b[i - a.len()]);
        }
    }
}

/// Feeds whatever results the bus holds to the status manager, as one poll. A bus with no
/// result channel changes nothing. Fails when every envoy has dropped its end of the result
/// channel, changing nothing, or when a result body does not decode; the results before it have
/// taken effect.
pub fn poll_embassy(embassy: &mut Embassy, status_manager: &mut StatusManager) -> (r: Result<
    (),
    EmbassyError,
>)
    requires
        old(status_manager)@.wf(),
    ensures
        bus_unchanged(&*old(embassy), &*final(embassy)),
        final(embassy).polls() == old(embassy).polls() + 1,
        final(status_manager)@.wf(),
        r matches Err(e) ==> e is FailedParse || e is FailedRecieve,
        lost_bus(r) ==> old(embassy).has_results() && final(status_manager)@ == old(status_manager)@,
        !lost_bus(r) ==> exists|ms: Seq<MessageView>|
            {
                let (w, err) = #[trigger] apply_messages(old(status_manager)@, ms);
                &&& final(status_manager)@ == w
                &&& match err {
                    Some(e) => r == Err::<(), EmbassyError>(e),
                    None => r is Ok,
                }
            },
        !old(embassy).has_results() ==> r is Ok && final(status_manager)@ == old(status_manager)@,
{
    let messages = embassy.poll_messages()?;
    let ghost ms = messages@.map_values(|m: EmbassyMessage| m@);
    proof {
        lemma_apply_error_is_parse(status_manager@, ms);
        if messages@.len() == 0 {
            assert(ms =~= Seq::<MessageView>::empty());
        }
    }
    let r = status_manager.handle_messages(messages.as_slice());
    proof {
        let (w, err) = apply_messages(old(status_manager)@, ms);
        assert(final(status_manager)@ == w);
    }
    r
}

/// Sends each module of `ids` the operation that moves it out of its current state, forward
/// or backward, and marks it busy; a module whose state has no such operation is skipped. An
/// empty list or a disconnected bus changes nothing. A failed send is not reported: the module
/// stays busy until a status shows otherwise.
pub fn transition_ecc(
    embassy: &mut Embassy,
    status_manager: &mut StatusManager,
    ids: Vec<usize>,
    is_forward: bool,
)
    requires
        old(status_manager)@.wf(),
        forall|i: int| 0 <= i < ids@.len() ==> #[trigger] ids@[i] < NUMBER_OF_MODULES,
    ensures
        final(status_manager)@.wf(),
        final(embassy).routes() == old(embassy).routes(),
        final(embassy).connected() == old(embassy).connected(),
        final(embassy).has_monitors() == old(embassy).has_monitors(),
        final(embassy).has_results() == old(embassy).has_results(),
        final(embassy).tasks() == old(embassy).tasks(),
        final(embassy).broadcasted() == old(embassy).broadcasted(),
        final(embassy).polls() == old(embassy).polls(),
        final(embassy).cancelled() == old(embassy).cancelled(),
        final(embassy).can_cancel() == old(embassy).can_cancel(),
        (ids@.len() == 0 || !old(embassy).connected()) ==> {
            &&& final(status_manager)@ == old(status_manager)@
            &&& final(embassy).routed() == old(embassy).routed()
        },
        (ids@.len() > 0 && old(embassy).connected()) ==> {
            let (cmds, w) = plan(old(status_manager)@, ids@, is_forward);
            &&& final(status_manager)@ == w
            &&& final(embassy).routed() == old(embassy).routed() + deliveries(
                old(embassy).routes(),
                cmds,
            )
        },
{
    if ids.len() == 0 {
        return;
    }
    if !embassy.is_connected() {
        return;
    }
    let ghost routes = embassy.routes();
    let ghost start = embassy.routed();
    let ghost cmds: Seq<(usize, ECCOperation)> = Seq::empty();
    let mut i: usize = 0;
    while i < ids.len()
        invariant
            i <= ids@.len(),
            forall|k: int| 0 <= k < ids@.len() ==> #[trigger] ids@[k] < NUMBER_OF_MODULES,
            plan(old(status_manager)@, ids@.subrange(0, i as int), is_forward) == (
                cmds,
                status_manager@,
            ),
            status_manager@.wf(),
            embassy.routes() == routes,
            routes == old(embassy).routes(),
            embassy.connected() == old(embassy).connected(),
            embassy.has_monitors() == old(embassy).has_monitors(),
            embassy.has_results() == old(embassy).has_results(),
            embassy.tasks() == old(embassy).tasks(),
            embassy.broadcasted() == old(embassy).broadcasted(),
            embassy.polls() == old(embassy).polls(),
            embassy.cancelled() == old(embassy).cancelled(),
            embassy.can_cancel() == old(embassy).can_cancel(),
            embassy.routed() == start + deliveries(routes, cmds),
            start == old(embassy).routed(),
        decreases ids@.len() - i,
    {
        let id = ids[i];
        let status = status_manager.get_ecc_status(id);
        let operation = if is_forward {
            status.get_forward_operation()
        } else {
            status.get_backward_operation()
        };
        proof {
            assert(ids@.subrange(0, i + 1).drop_last() =~= ids@.subrange(0, i as int));
            assert(ids@.subrange(0, i + 1).last() == id);
        }
        if operation != ECCOperation::Invalid {
            let _ = embassy.submit_message(EmbassyMessage::compose_operation(operation, id));
            status_manager.set_ecc_busy(id);
            proof {
                let next = cmds.push((id, operation));
                assert(next.drop_last() =~= cmds);
                if routes.contains(id) {
                    assert(start + deliveries(routes, next) =~= (start + deliveries(
                        routes,
                        cmds,
                    )).push((id, op_message(operation, id))));
                } else {
                    assert(deliveries(routes, next) == deliveries(routes, cmds));
                }
                cmds = next;
            }
        }
        i = i + 1;
    }
    proof {
        assert(ids@.subrange(0, ids@.len() as int) =~= ids@);
    }
}

/// The ids of the front-ends, in increasing order.
pub fn front_end_id_list() -> (r: Vec<usize>)
    ensures
        r@ == front_end_ids(),
{
    let mut r: Vec<usize> = Vec::new();
    let mut i: usize = 0;
    while i < NUMBER_OF_MODULES - 1
        invariant
            i <= NUMBER_OF_MODULES - 1,
            r@ == Seq::new(i as nat, |k: int| k as usize),
        decreases NUMBER_OF_MODULES - 1 - i,
    {
        r.push(i);
        i = i + 1;
        assert(r@ =~= Seq::new(i as nat, |k: int| k as usize));
    }
    r
}

/// The ids of all modules, in increasing order.
pub fn all_id_list() -> (r: Vec<usize>)
    ensures
        r@ == all_ids(),
{
    let mut r = front_end_id_list();
    r.push(MUTANT_ID);
    assert(r@ =~= all_ids());
    r
}

/// The list that holds only the master.
fn master_list() -> (r: Vec<usize>)
    ensures
        r@ == seq![MUTANT_ID],
{
    let mut r: Vec<usize> = Vec::new();
    r.push(MUTANT_ID);
    assert(r@ =~= seq![MUTANT_ID]);
    r
}

/// What a blocking wait waits for.
#[derive(PartialEq, Eq, Clone, Copy, Structural)]
pub enum Goal {
    /// The master reports this state.
    MasterIn(ECCStatus),
    /// The master no longer reports Running.
    MasterStopped,
    /// Every front-end reports this state.
    FrontEndsIn(ECCStatus),
    /// No monitor reports a file left in its data path.
    Cataloged,
}

/// Whether the status view meets the goal.
pub open spec fn goal_met(v: ManagerView, goal: Goal) -> bool {
    match goal {
        Goal::MasterIn(s) => v.status_of(MUTANT_ID as int) == s,
        Goal::MasterStopped => v.status_of(MUTANT_ID as int) != ECCStatus::Running,
        Goal::FrontEndsIn(s) => all_but_master_in(v, s),
        Goal::Cataloged => sentries_cataloged(v),
    }
}

fn goal_reached(status_manager: &StatusManager, goal: Goal) -> (r: bool)
    requires
        status_manager@.wf(),
    ensures
        r == goal_met(status_manager@, goal),
{
    match goal {
        Goal::MasterIn(s) => status_manager.get_ecc_status(MUTANT_ID) == s,
        Goal::MasterStopped => status_manager.is_mutant_stopped(),
        Goal::FrontEndsIn(s) => status_manager.is_all_but_mutant_in(s),
        Goal::Cataloged => status_manager.has_sentry_cataloged(),
    }
}

/// Polls the bus until the status manager meets the goal, at most `max_polls` times, pausing
/// between two polls. A goal already met needs no poll. `Timeout` comes only after
/// `max_polls` polls, with the goal still unmet.
pub fn wait_until(
    embassy: &mut Embassy,
    status_manager: &mut StatusManager,
    goal: Goal,
    max_polls: usize,
) -> (r: Result<(), EmbassyError>)
    requires
        old(status_manager)@.wf(),
    ensures
        final(status_manager)@.wf(),
        bus_unchanged(&*old(embassy), &*final(embassy)),
        old(embassy).polls() <= final(embassy).polls() <= old(embassy).polls() + max_polls,
        r is Ok ==> goal_met(final(status_manager)@, goal),
        goal_met(old(status_manager)@, goal) ==> r is Ok && final(embassy).polls() == old(
            embassy).polls() && final(status_manager)@ == old(status_manager)@,
        r == Err::<(), EmbassyError>(EmbassyError::Timeout) ==> final(embassy).polls() == old(embassy).polls() + max_polls && !goal_met(final(status_manager)@, goal),
        r matches Err(e) ==> wait_error(e),
{
    let mut polls: usize = 0;
    loop
        invariant
            status_manager@.wf(),
            bus_unchanged(&*old(embassy), &*embassy),
            polls <= max_polls,
            embassy.polls() == old(embassy).polls() + polls,
            polls == 0 ==> status_manager@ == old(status_manager)@,
            goal_met(old(status_manager)@, goal) ==> polls == 0,
        decreases max_polls - polls,
    {
        if goal_reached(status_manager, goal) {
            return Ok(());
        }
        if polls == max_polls {
            return Err(EmbassyError::Timeout);
        }
        if polls > 0 {
            embassy.pause(POLL_INTERVAL_MS);
        }
        poll_embassy(embassy, status_manager)?;
        polls = polls + 1;
    }
}

/// What a sequence of sends keeps of the bus: all but the log of module commands.
pub open spec fn sends_keep(a: &Embassy, b: &Embassy) -> bool {
    &&& b.routes() == a.routes()
    &&& b.connected() == a.connected()
    &&& b.has_monitors() == a.has_monitors()
    &&& b.has_results() == a.has_results()
    &&& b.tasks() == a.tasks()
    &&& b.broadcasted() == a.broadcasted()
    &&& b.cancelled() == a.cancelled()
    &&& b.can_cancel() == a.can_cancel()
    &&& b.polls() == a.polls()
}

/// Moves the master forward and waits until it reports Prepared.
pub fn forward_mutant_prepared_blocking(
    embassy: &mut Embassy,
    status_manager: &mut StatusManager,
    max_polls: usize,
) -> (r: Result<(), EmbassyError>)
    requires
        old(status_manager)@.wf(),
    ensures
        final(status_manager)@.wf(),
        final(embassy).routes() == old(embassy).routes(),
        final(embassy).connected() == old(embassy).connected(),
        !old(embassy).connected() ==> refused_disconnected(
            r,
            &*old(embassy),
            &*final(embassy),
            old(status_manager)@,
            final(status_manager)@,
        ),
        final(embassy).broadcasted() == old(embassy).broadcasted(),
        old(embassy).connected() ==> final(embassy).routed() == old(embassy).routed() + deliveries(
            old(embassy).routes(),
            plan(old(status_manager)@, seq![MUTANT_ID], true).0,
        ),
        r is Ok ==> final(status_manager)@.status_of(MUTANT_ID as int) == ECCStatus::Prepared,
        r == Err::<(), EmbassyError>(EmbassyError::Timeout) ==> final(embassy).polls() == old(embassy).polls() + max_polls && final(status_manager)@.status_of(MUTANT_ID as int)
            != ECCStatus::Prepared,
        r matches Err(e) ==> wait_error(e),
{
    if !embassy.is_connected() {
        return Err(EmbassyError::Disconnected);
    }
    transition_ecc(embassy, status_manager, master_list(), true);
    wait_until(embassy, status_manager, Goal::MasterIn(ECCStatus::Prepared), max_polls)
}

/// Moves every front-end forward and waits until every front-end reports Ready.
pub fn forward_cobos_ready_blocking(
    embassy: &mut Embassy,
    status_manager: &mut StatusManager,
    max_polls: usize,
) -> (r: Result<(), EmbassyError>)
    requires
        old(status_manager)@.wf(),
    ensures
        final(status_manager)@.wf(),
        final(embassy).routes() == old(embassy).routes(),
        final(embassy).connected() == old(embassy).connected(),
        !old(embassy).connected() ==> refused_disconnected(
            r,
            &*old(embassy),
            &*final(embassy),
            old(status_manager)@,
            final(status_manager)@,
        ),
        final(embassy).broadcasted() == old(embassy).broadcasted(),
        old(embassy).connected() ==> final(embassy).routed() == old(embassy).routed() + deliveries(
            old(embassy).routes(),
            plan(old(status_manager)@, front_end_ids(), true).0,
        ),
        r is Ok ==> all_but_master_in(final(status_manager)@, ECCStatus::Ready),
        r == Err::<(), EmbassyError>(EmbassyError::Timeout) ==> final(embassy).polls() == old(embassy).polls() + max_polls && !all_but_master_in(final(status_manager)@, ECCStatus::Ready),
        r matches Err(e) ==> wait_error(e),
{
    if !embassy.is_connected() {
        return Err(EmbassyError::Disconnected);
    }
    transition_ecc(embassy, status_manager, front_end_id_list(), true);
    wait_until(embassy, status_manager, Goal::FrontEndsIn(ECCStatus::Ready), max_polls)
}

/// Moves every module forward as one system, in the order that the dependencies between the
/// master and the front-ends require. From the system state the operation is chosen:
/// Describe goes to every module at once; Prepare goes to the master, and only once the master
/// is Prepared to the front-ends; Configure goes to the front-ends, and only once they are all
/// Ready to the master. Any other operation is refused with `InvalidTransition`.
pub fn forward_transition_all(
    embassy: &mut Embassy,
    status_manager: &mut StatusManager,
    max_polls: usize,
) -> (r: Result<(), EmbassyError>)
    requires
        old(status_manager)@.wf(),
    ensures
        final(status_manager)@.wf(),
        final(embassy).routes() == old(embassy).routes(),
        final(embassy).connected() == old(embassy).connected(),
        final(embassy).broadcasted() == old(embassy).broadcasted(),
        r == Err::<(), EmbassyError>(EmbassyError::Timeout) ==> final(embassy).polls() == old(embassy).polls() + max_polls,
        ({
            let op = forward_of(system_status(old(status_manager)@));
            let routes = old(embassy).routes();
            let start = old(embassy).routed();
            let v = old(status_manager)@;
            &&& (op != ECCOperation::Describe && op != ECCOperation::Prepare && op
                != ECCOperation::Configure) ==> {
                &&& r == Err::<(), EmbassyError>(EmbassyError::InvalidTransition(op))
                &&& final(status_manager)@ == v
                &&& final(embassy).routed() == start
            }
            &&& (!old(embassy).connected() && (op == ECCOperation::Describe || op
                == ECCOperation::Prepare || op == ECCOperation::Configure)) ==> refused_disconnected(
                r,
                &*old(embassy),
                &*final(embassy),
                v,
                final(status_manager)@,
            )
            &&& (op == ECCOperation::Describe && old(embassy).connected()) ==> {
                &&& r is Ok
                &&& final(status_manager)@ == plan(v, all_ids(), true).1
                &&& final(embassy).routed() == start + deliveries(
                    routes,
                    plan(v, all_ids(), true).0,
                )
            }
            &&& (op == ECCOperation::Prepare && r is Ok && old(embassy).connected()) ==> exists|mid: ManagerView|
                {
                    &&& mid.wf()
                    &&& #[trigger] mid.status_of(MUTANT_ID as int) == ECCStatus::Prepared
                    &&& final(status_manager)@ == plan(mid, front_end_ids(), true).1
                    &&& final(embassy).routed() == start + deliveries(
                        routes,
                        plan(v, seq![MUTANT_ID], true).0,
                    ) + deliveries(routes, plan(mid, front_end_ids(), true).0)
                }
            &&& (op == ECCOperation::Configure && r is Ok && old(embassy).connected()) ==> exists|mid: ManagerView|
                {
                    &&& mid.wf()
                    &&& #[trigger] all_but_master_in(mid, ECCStatus::Ready)
                    &&& final(status_manager)@ == plan(mid, seq![MUTANT_ID], true).1
                    &&& final(embassy).routed() == start + deliveries(
                        routes,
                        plan(v, front_end_ids(), true).0,
                    ) + deliveries(routes, plan(mid, seq![MUTANT_ID], true).0)
                }
            &&& (op == ECCOperation::Prepare && r is Err && old(embassy).connected()) ==> final(embassy).routed() == start
                + deliveries(routes, plan(v, seq![MUTANT_ID], true).0)
            &&& (op == ECCOperation::Configure && r is Err && old(embassy).connected()) ==> final(embassy).routed() == start
                + deliveries(routes, plan(v, front_end_ids(), true).0)
            &&& r matches Err(e) ==> (e is InvalidTransition || wait_error(e))
        }),
{
    let system = status_manager.get_system_ecc_status();
    let operation = system.get_forward_operation();
    match operation {
        ECCOperation::Describe | ECCOperation::Prepare | ECCOperation::Configure => {},
        op => return Err(EmbassyError::InvalidTransition(op)),
    }
    if !embassy.is_connected() {
        return Err(EmbassyError::Disconnected);
    }
    match operation {
        ECCOperation::Describe => {
            transition_ecc(embassy, status_manager, all_id_list(), true);
            Ok(())
        },
        ECCOperation::Prepare => {
            forward_mutant_prepared_blocking(embassy, status_manager, max_polls)?;
            let ghost mid = status_manager@;
            transition_ecc(embassy, status_manager, front_end_id_list(), true);
            proof {
                assert(mid.status_of(MUTANT_ID as int) == ECCStatus::Prepared);
            }
            Ok(())
        },
        ECCOperation::Configure => {
            forward_cobos_ready_blocking(embassy, status_manager, max_polls)?;
            let ghost mid = status_manager@;
            transition_ecc(embassy, status_manager, master_list(), true);
            proof {
                assert(all_but_master_in(mid, ECCStatus::Ready));
            }
            Ok(())
        },
        op => Err(EmbassyError::InvalidTransition(op)),
    }
}

/// Moves every module backward in one batch, in increasing id order.
pub fn backward_transition_all(embassy: &mut Embassy, status_manager: &mut StatusManager)
    requires
        old(status_manager)@.wf(),
    ensures
        final(status_manager)@.wf(),
        final(embassy).routes() == old(embassy).routes(),
        final(embassy).connected() == old(embassy).connected(),
        final(embassy).broadcasted() == old(embassy).broadcasted(),
        !old(embassy).connected() ==> final(status_manager)@ == old(status_manager)@
            && final(embassy).routed() == old(embassy).routed(),
        old(embassy).connected() ==> {
            &&& final(status_manager)@ == plan(old(status_manager)@, all_ids(), false).1
            &&& final(embassy).routed() == old(embassy).routed() + deliveries(
                old(embassy).routes(),
                plan(old(status_manager)@, all_ids(), false).0,
            )
        },
{
    transition_ecc(embassy, status_manager, all_id_list(), false);
}

/// Whether the result is the refusal of the master's Start by its closed channel.
pub open spec fn refused_start(r: Result<(), EmbassyError>) -> bool {
    match r {
        Err(EmbassyError::FailedMpscSend(m)) => m@ == op_message(ECCOperation::Start, MUTANT_ID),
        _ => false,
    }
}

/// Asks the master to start a run.
pub fn start_mutant(embassy: &mut Embassy) -> (r: Result<(), EmbassyError>)
    ensures
        sends_keep(&*old(embassy), &*final(embassy)),
        final(embassy).routed() == old(embassy).routed() + deliveries(
            old(embassy).routes(),
            seq![(MUTANT_ID, ECCOperation::Start)],
        ),
        r is Err ==> refused_start(r),
{
    let r = embassy.submit_message(EmbassyMessage::compose_operation(ECCOperation::Start, MUTANT_ID));
    proof {
        reveal_with_fuel(deliveries, 2);
        let cmds = seq![(MUTANT_ID, ECCOperation::Start)];
        assert(cmds.drop_last() =~= Seq::<(usize, ECCOperation)>::empty());
        assert(old(embassy).routed() + Seq::<(usize, MessageView)>::empty() =~= old(embassy).routed());
        assert(old(embassy).routed() + seq![(MUTANT_ID, op_message(ECCOperation::Start, MUTANT_ID))]
            =~= old(embassy).routed().push((MUTANT_ID, op_message(ECCOperation::Start, MUTANT_ID))));
    }
    r
}

/// Sends `op` to each module of `ids` in turn, stopping at the first failed send. Whatever the
/// result, the commands sent are those to a prefix of `ids`: all of it on success, up to and
/// including the module whose channel refused on failure.
fn send_to_each(embassy: &mut Embassy, ids: Vec<usize>, op: ECCOperation) -> (r: Result<
    (),
    EmbassyError,
>)
    ensures
        sends_keep(&*old(embassy), &*final(embassy)),
        exists|k: int|
            {
                &&& 0 <= k <= ids@.len()
                &&& (r is Ok ==> k == ids@.len())
                &&& (r is Err ==> k >= 1)
                &&& final(embassy).routed() == old(embassy).routed() + deliveries(
                    old(embassy).routes(),
                    #[trigger] same_op(ids@.subrange(0, k), op),
                )
            },
        r matches Err(e) ==> e is FailedMpscSend,
{
    let ghost routes = embassy.routes();
    let mut i: usize = 0;
    assert(same_op(ids@.subrange(0, 0), op) =~= Seq::<(usize, ECCOperation)>::empty());
    assert(old(embassy).routed() + Seq::<(usize, MessageView)>::empty() =~= old(embassy).routed());
    while i < ids.len()
        invariant
            i <= ids@.len(),
            embassy.routes() == routes,
            routes == old(embassy).routes(),
            sends_keep(&*old(embassy), &*embassy),
            embassy.routed() == old(embassy).routed() + deliveries(
                routes,
                same_op(ids@.subrange(0, i as int), op),
            ),
        decreases ids@.len() - i,
    {
        let id = ids[i];
        let ghost before = embassy.routed();
        let sent = embassy.submit_message(EmbassyMessage::compose_operation(op, id));
        proof {
            let prev = same_op(ids@.subrange(0, i as int), op);
            let next = same_op(ids@.subrange(0, i + 1), op);
            assert(next.drop_last() =~= prev);
            assert(next.last() == (id, op));
            if routes.contains(id) {
                assert(old(embassy).routed() + deliveries(routes, next) =~= before.push(
                    (id, op_message(op, id)),
                ));
            }
            assert(same_op(ids@.subrange(0, i + 1), op) == next);
        }
        if sent.is_err() {
            proof {
                assert(embassy.routed() == old(embassy).routed() + deliveries(
                    routes,
                    same_op(ids@.subrange(0, i + 1), op),
                ));
            }
            return sent;
        }
        i = i + 1;
    }
    proof {
        assert(ids@.subrange(0, ids@.len() as int) =~= ids@);
    }
    Ok(())
}

/// Undoes the configuration of the master and configures it again, waiting for it to report
/// Prepared in between and Ready at the end; the front-ends are not touched. This restarts the
/// event counters of the master before a run. Whatever the result, only the master was sent
/// anything, never its Start; its Configure went out only once it reported Prepared.
pub fn reconfigure_mutant_blocking(
    embassy: &mut Embassy,
    status_manager: &mut StatusManager,
    max_polls: usize,
) -> (r: Result<(), EmbassyError>)
    requires
        old(status_manager)@.wf(),
    ensures
        final(status_manager)@.wf(),
        !old(embassy).connected() ==> refused_disconnected(
            r,
            &*old(embassy),
            &*final(embassy),
            old(status_manager)@,
            final(status_manager)@,
        ),
        old(embassy).connected() ==> extends(
            final(embassy).routed(),
            old(embassy).routed() + deliveries(
                old(embassy).routes(),
                plan(old(status_manager)@, seq![MUTANT_ID], false).0,
            ),
        ),
        wait_keeps_but_sends(&*old(embassy), &*final(embassy)),
        only_to(final(embassy).routed(), old(embassy).routed().len() as int, MUTANT_ID),
        no_master_start(final(embassy).routed(), old(embassy).routed().len() as int),
        final(embassy).routed().len() >= old(embassy).routed().len(),
        old(embassy).connected() ==> ({
            let undo = old(embassy).routed() + deliveries(
                old(embassy).routes(),
                plan(old(status_manager)@, seq![MUTANT_ID], false).0,
            );
            ||| final(embassy).routed() == undo
            ||| exists|mid: ManagerView|
                {
                    &&& mid.wf()
                    &&& #[trigger] mid.status_of(MUTANT_ID as int) == ECCStatus::Prepared
                    &&& final(embassy).routed() == undo + deliveries(
                        old(embassy).routes(),
                        plan(mid, seq![MUTANT_ID], true).0,
                    )
                }
        }),
        r is Ok ==> final(status_manager)@.status_of(MUTANT_ID as int) == ECCStatus::Ready,
        r is Ok ==> exists|mid: ManagerView|
            {
                &&& mid.wf()
                &&& #[trigger] mid.status_of(MUTANT_ID as int) == ECCStatus::Prepared
                &&& final(embassy).routed() == old(embassy).routed() + deliveries(
                    old(embassy).routes(),
                    plan(old(status_manager)@, seq![MUTANT_ID], false).0,
                ) + deliveries(old(embassy).routes(), plan(mid, seq![MUTANT_ID], true).0)
            },
        r == Err::<(), EmbassyError>(EmbassyError::Timeout) ==> final(embassy).polls() >= old(embassy).polls() + max_polls,
        r matches Err(e) ==> wait_error(e),
{
    if !embassy.is_connected() {
        return Err(EmbassyError::Disconnected);
    }
    let ghost routes = embassy.routes();
    let ghost start = embassy.routed();
    proof {
        lemma_master_plan(status_manager@, false, routes);
    }
    transition_ecc(embassy, status_manager, master_list(), false);
    let ghost undo = embassy.routed();
    proof {
        assert(undo.subrange(0, undo.len() as int) =~= undo);
    }
    proof {
        assert forall|i: int| start.len() <= i < undo.len() implies (#[trigger] undo[i]).0 == MUTANT_ID
            && undo[i] != (MUTANT_ID, op_message(ECCOperation::Start, MUTANT_ID)) by {
            let d = deliveries(routes, plan(old(status_manager)@, seq![MUTANT_ID], false).0);
            assert(undo[i] == d[i - start.len()]);
        }
    }
    wait_until(embassy, status_manager, Goal::MasterIn(ECCStatus::Prepared), max_polls)?;
    let ghost mid = status_manager@;
    proof {
        lemma_master_plan(mid, true, routes);
    }
    transition_ecc(embassy, status_manager, master_list(), true);
    proof {
        lemma_extends(undo, deliveries(routes, plan(mid, seq![MUTANT_ID], true).0), undo);
        let fin = embassy.routed();
        let d = deliveries(routes, plan(mid, seq![MUTANT_ID], true).0);
        assert forall|i: int| start.len() <= i < fin.len() implies (#[trigger] fin[i]).0 == MUTANT_ID
            && fin[i] != (MUTANT_ID, op_message(ECCOperation::Start, MUTANT_ID)) by {
            if i < undo.len() {
                assert(fin[i] == undo[i]);
            } else {
                assert(fin[i] == d[i - undo.len()]);
            }
        }
        assert(mid.status_of(MUTANT_ID as int) == ECCStatus::Prepared);
    }
    let r = wait_until(embassy, status_manager, Goal::MasterIn(ECCStatus::Ready), max_polls);
    proof {
        assert(mid.status_of(MUTANT_ID as int) == ECCStatus::Prepared);
    }
    r
}

/// What a sequence of sends and waits keeps of the bus.
pub open spec fn wait_keeps_but_sends(a: &Embassy, b: &Embassy) -> bool {
    &&& b.routes() == a.routes()
    &&& b.connected() == a.connected()
    &&& b.has_monitors() == a.has_monitors()
    &&& b.has_results() == a.has_results()
    &&& b.tasks() == a.tasks()
    &&& b.broadcasted() == a.broadcasted()
    &&& b.cancelled() == a.cancelled()
    &&& b.can_cancel() == a.can_cancel()
    &&& b.polls() >= a.polls()
}

/// Asks the master to stop its run and waits until it no longer reports Running. Whatever the
/// result, the one command sent is the master's Stop.
pub fn stop_mutant_blocking(
    embassy: &mut Embassy,
    status_manager: &mut StatusManager,
    max_polls: usize,
) -> (r: Result<(), EmbassyError>)
    requires
        old(status_manager)@.wf(),
    ensures
        final(status_manager)@.wf(),
        wait_keeps_but_sends(&*old(embassy), &*final(embassy)),
        final(embassy).routed() == old(embassy).routed() + deliveries(
            old(embassy).routes(),
            seq![(MUTANT_ID, ECCOperation::Stop)],
        ),
        r is Ok ==> final(status_manager)@.status_of(MUTANT_ID as int) != ECCStatus::Running,
        r == Err::<(), EmbassyError>(EmbassyError::Timeout) ==> final(embassy).polls() == old(embassy).polls() + max_polls && final(status_manager)@.status_of(MUTANT_ID as int)
            == ECCStatus::Running,
        r matches Err(e) ==> wait_error(e) || e is FailedMpscSend,
{
    let mut master: Vec<usize> = Vec::new();
    master.push(MUTANT_ID);
    proof {
        assert(master@.subrange(0, 1) =~= master@);
        assert(same_op(master@, ECCOperation::Stop) =~= seq![(MUTANT_ID, ECCOperation::Stop)]);
    }
    send_to_each(embassy, master, ECCOperation::Stop)?;
    wait_until(embassy, status_manager, Goal::MasterStopped, max_polls)
}

/// Asks every front-end to start its run and waits until every front-end reports Running.
/// Whatever the result, the commands sent are Starts to a prefix of the front-ends, all of
/// them unless a send failed, and nothing to the master.
pub fn start_cobos_blocking(
    embassy: &mut Embassy,
    status_manager: &mut StatusManager,
    max_polls: usize,
) -> (r: Result<(), EmbassyError>)
    requires
        old(status_manager)@.wf(),
    ensures
        final(status_manager)@.wf(),
        wait_keeps_but_sends(&*old(embassy), &*final(embassy)),
        none_to_master(final(embassy).routed(), old(embassy).routed().len() as int),
        final(embassy).routed().len() >= old(embassy).routed().len(),
        exists|k: int|
            {
                &&& 0 <= k <= front_end_ids().len()
                &&& (!(r matches Err(e) && e is FailedMpscSend) ==> k == front_end_ids().len())
                &&& ((r matches Err(e) && e is FailedMpscSend) ==> k >= 1)
                &&& final(embassy).routed() == old(embassy).routed() + deliveries(
                    old(embassy).routes(),
                    #[trigger] same_op(front_end_ids().subrange(0, k), ECCOperation::Start),
                )
            },
        r is Ok ==> all_but_master_in(final(status_manager)@, ECCStatus::Running),
        r == Err::<(), EmbassyError>(EmbassyError::Timeout) ==> final(embassy).polls() == old(embassy).polls() + max_polls && !all_but_master_in(final(status_manager)@, ECCStatus::Running),
        r matches Err(e) ==> wait_error(e) || e is FailedMpscSend,
{
    let ghost routes = embassy.routes();
    let ghost start = embassy.routed();
    let sent = send_to_each(embassy, front_end_id_list(), ECCOperation::Start);
    proof {
        let k = choose|k: int|
            {
                &&& 0 <= k <= front_end_ids().len()
                &&& (sent is Ok ==> k == front_end_ids().len())
                &&& (sent is Err ==> k >= 1)
                &&& embassy.routed() == start + deliveries(
                    routes,
                    #[trigger] same_op(front_end_ids().subrange(0, k), ECCOperation::Start),
                )
            };
        lemma_front_end_commands(routes, k, ECCOperation::Start);
        let d = deliveries(routes, same_op(front_end_ids().subrange(0, k), ECCOperation::Start));
        assert forall|i: int| start.len() <= i < embassy.routed().len() implies (
        #[trigger] embassy.routed()[i]).0 != MUTANT_ID by {
            assert(embassy.routed()[i] == d[i - start.len()]);
        }
        if sent is Ok {
            assert(front_end_ids().subrange(0, front_end_ids().len() as int) =~= front_end_ids());
        }
    }
    sent?;
    wait_until(embassy, status_manager, Goal::FrontEndsIn(ECCStatus::Running), max_polls)
}

/// Asks every front-end to stop its run, in increasing id order. Whatever the result, the
/// commands sent are Stops to a prefix of the front-ends, all of them on success.
pub fn stop_cobos(embassy: &mut Embassy) -> (r: Result<(), EmbassyError>)
    ensures
        sends_keep(&*old(embassy), &*final(embassy)),
        none_to_master(final(embassy).routed(), old(embassy).routed().len() as int),
        exists|k: int|
            {
                &&& 0 <= k <= front_end_ids().len()
                &&& (r is Ok ==> k == front_end_ids().len())
                &&& (r is Err ==> k >= 1)
                &&& final(embassy).routed() == old(embassy).routed() + deliveries(
                    old(embassy).routes(),
                    #[trigger] same_op(front_end_ids().subrange(0, k), ECCOperation::Stop),
                )
            },
        r matches Err(e) ==> e is FailedMpscSend,
{
    let ghost routes = embassy.routes();
    let ghost start = embassy.routed();
    let r = send_to_each(embassy, front_end_id_list(), ECCOperation::Stop);
    proof {
        let k = choose|k: int|
            {
                &&& 0 <= k <= front_end_ids().len()
                &&& (r is Ok ==> k == front_end_ids().len())
                &&& (r is Err ==> k >= 1)
                &&& embassy.routed() == start + deliveries(
                    routes,
                    #[trigger] same_op(front_end_ids().subrange(0, k), ECCOperation::Stop),
                )
            };
        lemma_front_end_commands(routes, k, ECCOperation::Stop);
        let d = deliveries(routes, same_op(front_end_ids().subrange(0, k), ECCOperation::Stop));
        assert forall|i: int| start.len() <= i < embassy.routed().len() implies (
        #[trigger] embassy.routed()[i]).0 != MUTANT_ID by {
            assert(embassy.routed()[i] == d[i - start.len()]);
        }
    }
    r
}

/// Starts a run once the check of its run number allows it: the master is reconfigured, the
/// front-ends are started, and only once every front-end reports Running is the master
/// started. A refused check changes nothing. On failure the master's Start has not been
/// handed over, unless handing it over is what failed.
pub fn start_run_sequence(
    embassy: &mut Embassy,
    status_manager: &mut StatusManager,
    check: CommandStatus,
    max_polls: usize,
) -> (r: Result<(), EmbassyError>)
    requires
        old(status_manager)@.wf(),
    ensures
        final(status_manager)@.wf(),
        (r == Err::<(), EmbassyError>(EmbassyError::RunNumberInUse)) <==> !run_may_start(check),
        (run_may_start(check) && !old(embassy).connected()) ==> refused_disconnected(
            r,
            &*old(embassy),
            &*final(embassy),
            old(status_manager)@,
            final(status_manager)@,
        ),
        (run_may_start(check) && old(embassy).connected()) ==> extends(
            final(embassy).routed(),
            old(embassy).routed() + deliveries(
                old(embassy).routes(),
                plan(old(status_manager)@, seq![MUTANT_ID], false).0,
            ),
        ),
        !run_may_start(check) ==> {
            &&& r == Err::<(), EmbassyError>(EmbassyError::RunNumberInUse)
            &&& final(status_manager)@ == old(status_manager)@
            &&& final(embassy).routed() == old(embassy).routed()
        },
        r is Ok ==> exists|mid: ManagerView, pre: Seq<(usize, MessageView)>|
            {
                &&& #[trigger] all_but_master_in(mid, ECCStatus::Running)
                &&& #[trigger] no_master_start(pre, old(embassy).routed().len() as int)
                &&& pre.len() >= old(embassy).routed().len()
                &&& final(embassy).routed() == pre + deliveries(
                    old(embassy).routes(),
                    seq![(MUTANT_ID, ECCOperation::Start)],
                )
            },
        r is Err ==> no_master_start(final(embassy).routed(), old(embassy).routed().len() as int)
            || refused_start(r),
{
    if !may_start_run(check) {
        return Err(EmbassyError::RunNumberInUse);
    }
    if !embassy.is_connected() {
        return Err(EmbassyError::Disconnected);
    }
    let ghost routes = embassy.routes();
    let ghost start = embassy.routed();
    let ghost undo = start + deliveries(routes, plan(status_manager@, seq![MUTANT_ID], false).0);
    reconfigure_mutant_blocking(embassy, status_manager, max_polls)?;
    let ghost after_reconfigure = embassy.routed();
    let started = start_cobos_blocking(embassy, status_manager, max_polls);
    proof {
        let k = choose|k: int|
            {
                &&& 0 <= k <= front_end_ids().len()
                &&& (!(started matches Err(e) && e is FailedMpscSend) ==> k == front_end_ids().len())
                &&& embassy.routed() == after_reconfigure + deliveries(
                    routes,
                    #[trigger] same_op(front_end_ids().subrange(0, k), ECCOperation::Start),
                )
            };
        lemma_extends(
            after_reconfigure,
            deliveries(routes, same_op(front_end_ids().subrange(0, k), ECCOperation::Start)),
            undo,
        );
        let fin = embassy.routed();
        assert forall|i: int| start.len() <= i < fin.len() implies #[trigger] fin[i] != (
            MUTANT_ID,
            op_message(ECCOperation::Start, MUTANT_ID),
        ) by {
            if i < after_reconfigure.len() {
                let k = choose|k: int|
                    {
                        &&& 0 <= k <= front_end_ids().len()
                        &&& fin == after_reconfigure + deliveries(
                            routes,
                            #[trigger] same_op(front_end_ids().subrange(0, k), ECCOperation::Start),
                        )
                    };
                assert(fin[i] == after_reconfigure[i]);
            } else {
                assert(fin[i].0 != MUTANT_ID);
            }
        }
    }
    started?;
    let ghost mid = status_manager@;
    let ghost pre = embassy.routed();
    let r = start_mutant(embassy);
    proof {
        lemma_extends(pre, deliveries(routes, seq![(MUTANT_ID, ECCOperation::Start)]), undo);
        assert(all_but_master_in(mid, ECCStatus::Running));
        assert(no_master_start(pre, start.len() as int));
        assert(pre.len() >= start.len());
        assert(embassy.routed() == pre + deliveries(routes, seq![(MUTANT_ID, ECCOperation::Start)]));
    }
    r
}

/// Stops a run: the master is stopped, and only once it no longer reports Running are the
/// front-ends told to stop. If the master's stop fails or is not seen, the front-ends are sent
/// nothing.
pub fn stop_run_sequence(
    embassy: &mut Embassy,
    status_manager: &mut StatusManager,
    max_polls: usize,
) -> (r: Result<(), EmbassyError>)
    requires
        old(status_manager)@.wf(),
    ensures
        final(status_manager)@.wf(),
        ({
            let stop = old(embassy).routed() + deliveries(
                old(embassy).routes(),
                seq![(MUTANT_ID, ECCOperation::Stop)],
            );
            &&& final(embassy).routed() == stop || exists|mid: ManagerView, k: int|
                {
                    &&& 0 <= k <= front_end_ids().len()
                    &&& #[trigger] mid.status_of(MUTANT_ID as int) != ECCStatus::Running
                    &&& final(embassy).routed() == stop + deliveries(
                        old(embassy).routes(),
                        #[trigger] same_op(front_end_ids().subrange(0, k), ECCOperation::Stop),
                    )
                    &&& (r is Ok ==> k == front_end_ids().len())
                }
            &&& (r matches Err(e) && wait_error(e)) ==> final(embassy).routed() == stop
        }),
        r matches Err(e) ==> wait_error(e) || e is FailedMpscSend,
{
    let ghost routes = embassy.routes();
    let ghost start = embassy.routed();
    let stopped = stop_mutant_blocking(embassy, status_manager, max_polls);
    if stopped.is_err() {
        return stopped;
    }
    let ghost mid = status_manager@;
    let ghost stop = embassy.routed();
    let r = stop_cobos(embassy);
    proof {
        assert(mid.status_of(MUTANT_ID as int) != ECCStatus::Running);
        let k = choose|k: int|
            {
                &&& 0 <= k <= front_end_ids().len()
                &&& (r is Ok ==> k == front_end_ids().len())
                &&& (r is Err ==> k >= 1)
                &&& embassy.routed() == stop + deliveries(
                    routes,
                    #[trigger] same_op(front_end_ids().subrange(0, k), ECCOperation::Stop),
                )
            };
        assert(mid.status_of(MUTANT_ID as int) != ECCStatus::Running && embassy.routed() == stop
            + deliveries(routes, same_op(front_end_ids().subrange(0, k), ECCOperation::Stop)));
    }
    r
}

/// Asks the monitors to catalog the data of a run, then waits until no monitor reports a file
/// left in its data path.
pub fn catalog_run(
    embassy: &mut Embassy,
    status_manager: &mut StatusManager,
    experiment: &str,
    run_number: i32,
    max_polls: usize,
) -> (r: Result<(), EmbassyError>)
    requires
        old(status_manager)@.wf(),
        experiment@.len() <= u32::MAX,
    ensures
        final(status_manager)@.wf(),
        final(embassy).routes() == old(embassy).routes(),
        final(embassy).routed() == old(embassy).routed(),
        final(embassy).broadcasted() == (if old(embassy).has_monitors() {
            old(embassy).broadcasted().push(
                MessageView {
                    kind: MessageKind::SentryOperation,
                    id: 0,
                    body: sentry_operation_body(
                        SentryOperationRecord {
                            is_catalog: true,
                            experiment: experiment@,
                            run_number,
                        },
                    ),
                },
            )
        } else {
            old(embassy).broadcasted()
        }),
        r is Ok ==> sentries_cataloged(final(status_manager)@),
        r == Err::<(), EmbassyError>(EmbassyError::Timeout) ==> final(embassy).polls() == old(embassy).polls() + max_polls && !sentries_cataloged(final(status_manager)@),
        r matches Err(e) ==> wait_error(e) || e is FailedBroadcastSend,
{
    let operation = SentryOperation::Catalog(
        SentryParameters { experiment: String::from_str(experiment), run_number },
    );
    embassy.submit_message(EmbassyMessage::compose_sentry_operation(&operation, 0))?;
    wait_until(embassy, status_manager, Goal::Cataloged, max_polls)
}

} // verus!
