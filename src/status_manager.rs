//! The single record of what is believed about every module: the last status of each control
//! module, the last snapshot of each monitor, and the hold flags of modules with an operation in
//! flight. It folds the messages of the bus into that record and answers questions about the
//! whole system.
use crate::constants::{MUTANT_ID, NUMBER_OF_MODULES};
use crate::ecc_envoy::{default_status, ECCStatusResponse, StatusRecord};
use crate::ecc_operation::{forward_capable, status_code, status_of_code, ECCStatus};
use crate::error::EmbassyError;
use crate::message::{
    decode_op_response, decode_sentry_status, decode_status, EmbassyMessage, MessageKind,
    MessageView,
};
use crate::sentry_types::{
    default_sentry, sentry_server_of, SentryRecord, SentryServerStatus, SentryStatus,
};
use vstd::prelude::*;

verus! {

/// The value of a status manager.
pub struct ManagerView {
    pub ecc: Seq<StatusRecord>,
    pub sentry: Seq<SentryRecord>,
    pub holds: Seq<bool>,
}

impl ManagerView {
    /// One status and one hold flag per control module, one snapshot per front-end.
    pub open spec fn wf(&self) -> bool {
        &&& self.ecc.len() == NUMBER_OF_MODULES
        &&& self.holds.len() == NUMBER_OF_MODULES
        &&& self.sentry.len() == NUMBER_OF_MODULES - 1
    }

    /// The state of module `id`.
    pub open spec fn status_of(&self, id: int) -> ECCStatus {
        status_of_code(self.ecc[id].state)
    }
}

/// The manager at startup: every status and snapshot at its default, no hold raised.
pub open spec fn initial_view() -> ManagerView {
    ManagerView {
        ecc: Seq::new(NUMBER_OF_MODULES as nat, |i: int| default_status()),
        sentry: Seq::new((NUMBER_OF_MODULES - 1) as nat, |i: int| default_sentry()),
        holds: Seq::new(NUMBER_OF_MODULES as nat, |i: int| false),
    }
}

/// Whether the modules `0..n` all report the state code of module 0.
pub open spec fn agree_up_to(v: ManagerView, n: int) -> bool {
    forall|i: int| 0 <= i < n ==> #[trigger] v.ecc[i].state == v.ecc[0].state
}

/// The state of the whole system: the common state if every module reports the same state
/// code, else `Inconsistent`.
pub open spec fn system_status(v: ManagerView) -> ECCStatus {
    if agree_up_to(v, NUMBER_OF_MODULES as int) {
        status_of_code(v.ecc[0].state)
    } else {
        ECCStatus::Inconsistent
    }
}

/// Whether every front-end is in state `s`.
pub open spec fn all_but_master_in(v: ManagerView, s: ECCStatus) -> bool {
    agree_up_to(v, (NUMBER_OF_MODULES - 1) as int) && status_of_code(v.ecc[0].state) == s
}

/// Whether module `id` may advance, given the dependencies between the master and the
/// front-ends: a front-end leaves Described only once the master is Prepared or Ready, the
/// master leaves Prepared only once every front-end is Ready.
pub open spec fn can_advance(v: ManagerView, id: int) -> bool {
    let s = v.status_of(id);
    if s == ECCStatus::Described && id != MUTANT_ID {
        v.status_of(MUTANT_ID as int) == ECCStatus::Prepared || v.status_of(MUTANT_ID as int)
            == ECCStatus::Ready
    } else if s == ECCStatus::Prepared && id == MUTANT_ID {
        all_but_master_in(v, ECCStatus::Ready)
    } else {
        forward_capable(s)
    }
}

/// Whether no monitor reports a file left in its data path.
pub open spec fn sentries_cataloged(v: ManagerView) -> bool {
    forall|i: int| 0 <= i < v.sentry.len() ==> #[trigger] v.sentry[i].data_path_files == 0
}

/// The reachability of every monitor: their common status if they agree, else `Inconsistent`.
pub open spec fn sentry_system_status(v: ManagerView) -> SentryServerStatus {
    if forall|i: int|
        0 <= i < v.sentry.len() ==> #[trigger] sentry_server_of(v.sentry[i]) == sentry_server_of(
            v.sentry[0],
        ) {
        sentry_server_of(v.sentry[0])
    } else {
        SentryServerStatus::Inconsistent
    }
}

/// Module `id` marked as having an operation in flight: its state is Busy and its hold is up.
pub open spec fn busy_view(v: ManagerView, id: int) -> ManagerView {
    if id > MUTANT_ID {
        v
    } else {
        ManagerView {
            ecc: v.ecc.update(
                id,
                StatusRecord { state: status_code(ECCStatus::Busy), ..v.ecc[id] },
            ),
            ..v
        }.with_hold(id, true)
    }
}

impl ManagerView {
    /// This view with the hold flag of module `id` set to `h`.
    pub open spec fn with_hold(self, id: int, h: bool) -> ManagerView {
        ManagerView { holds: self.holds.update(id, h), ..self }
    }
}

/// The effect of one message: `None` when its body is not a valid body of its kind.
/// An operation outcome lowers the hold of its module; a status replaces the record of its
/// module unless the hold of that module is up; a monitor snapshot replaces the record of its
/// monitor. Other kinds, and ids outside the range of their records, change nothing.
pub open spec fn apply_message(v: ManagerView, m: MessageView) -> Option<ManagerView> {
    match m.kind {
        MessageKind::ECCOpResponse => match decode_op_response(m.body) {
            Some(_) => if m.id < NUMBER_OF_MODULES {
                Some(v.with_hold(m.id as int, false))
            } else {
                Some(v)
            },
            None => None,
        },
        MessageKind::ECCStatus => match decode_status(m.body) {
            Some(r) => if m.id < NUMBER_OF_MODULES && !v.holds[m.id as int] {
                Some(ManagerView { ecc: v.ecc.update(m.id as int, r), ..v })
            } else {
                Some(v)
            },
            None => None,
        },
        MessageKind::SentryStatus => match decode_sentry_status(m.body) {
            Some(r) => if m.id < NUMBER_OF_MODULES - 1 {
                Some(ManagerView { sentry: v.sentry.update(m.id as int, r), ..v })
            } else {
                Some(v)
            },
            None => None,
        },
        _ => Some(v),
    }
}

/// The effect of a batch of messages applied in order, stopping at the first invalid body:
/// the resulting view and, if one was met, the error it gave.
pub open spec fn apply_messages(v: ManagerView, ms: Seq<MessageView>) -> (
    ManagerView,
    Option<EmbassyError>,
)
    decreases ms.len(),
{
    if ms.len() == 0 {
        (v, None)
    } else {
        let (w, e) = apply_messages(v, ms.drop_last());
        if e is Some {
            (w, e)
        } else {
            match apply_message(w, ms.last()) {
                Some(x) => (x, None),
                None => (w, Some(EmbassyError::FailedParse(ms.last().kind))),
            }
        }
    }
}

/// Once a prefix of a batch stops at an error, the whole batch gives that same result.
pub proof fn lemma_error_sticks(v: ManagerView, ms: Seq<MessageView>, k: int)
    requires
        0 <= k <= ms.len(),
        apply_messages(v, ms.subrange(0, k)).1 is Some,
    ensures
        apply_messages(v, ms) == apply_messages(v, ms.subrange(0, k)),
    decreases ms.len() - k,
{
    if k < ms.len() {
        assert(ms.subrange(0, k + 1).drop_last() =~= ms.subrange(0, k));
        lemma_error_sticks(v, ms, k + 1);
    } else {
        assert(ms.subrange(0, k) =~= ms);
    }
}

/// The system is in state `S` when every module reports the code of `S`, and is Inconsistent
/// as soon as any two modules report different codes.
pub proof fn lemma_system_status_agreement(v: ManagerView, code: i32)
    requires
        v.wf(),
    ensures
        (forall|i: int| 0 <= i < NUMBER_OF_MODULES ==> #[trigger] v.ecc[i].state == code)
            ==> system_status(v) == status_of_code(code),
        (exists|i: int, j: int|
            0 <= i < NUMBER_OF_MODULES && 0 <= j < NUMBER_OF_MODULES && #[trigger] v.ecc[i].state
                != #[trigger] v.ecc[j].state) ==> system_status(v) == ECCStatus::Inconsistent,
{
    if forall|i: int| 0 <= i < NUMBER_OF_MODULES ==> #[trigger] v.ecc[i].state == code {
        assert(v.ecc[0].state == code);
    }
    if exists|i: int, j: int|
        0 <= i < NUMBER_OF_MODULES && 0 <= j < NUMBER_OF_MODULES && #[trigger] v.ecc[i].state
            != #[trigger] v.ecc[j].state {
        let (i, j) = choose|i: int, j: int|
            0 <= i < NUMBER_OF_MODULES && 0 <= j < NUMBER_OF_MODULES && #[trigger] v.ecc[i].state
                != #[trigger] v.ecc[j].state;
        if agree_up_to(v, NUMBER_OF_MODULES as int) {
            assert(v.ecc[i].state == v.ecc[0].state);
            assert(v.ecc[j].state == v.ecc[0].state);
        }
    }
}

/// Once module `id` is marked busy, a status for it is not recorded; the outcome of its
/// operation lowers the hold; a status delivered after that outcome is recorded.
pub proof fn lemma_hold_suppresses_status(
    v: ManagerView,
    id: usize,
    status: MessageView,
    outcome: MessageView,
    later: MessageView,
)
    requires
        v.wf(),
        id < NUMBER_OF_MODULES,
        status.kind == MessageKind::ECCStatus,
        status.id == id,
        decode_status(status.body) is Some,
        outcome.kind == MessageKind::ECCOpResponse,
        outcome.id == id,
        decode_op_response(outcome.body) is Some,
        later.kind == MessageKind::ECCStatus,
        later.id == id,
        decode_status(later.body) is Some,
    ensures
        ({
            let busy = busy_view(v, id as int);
            let after_status = apply_message(busy, status);
            let after_outcome = apply_message(busy, outcome);
            &&& after_status == Some(busy)
            &&& after_status->Some_0.status_of(id as int) == ECCStatus::Busy
            &&& after_outcome is Some
            &&& !after_outcome->Some_0.holds[id as int]
            &&& apply_message(after_outcome->Some_0, later) matches Some(w) && w.ecc[id as int]
                == decode_status(later.body)->Some_0
        }),
{
}

/// The observer of the bus: the last status of each control module, the last snapshot of each
/// monitor, and the hold flags of modules with an operation in flight.
#[derive(Debug)]
pub struct StatusManager {
    ecc_status: Vec<ECCStatusResponse>,
    sentry_status: Vec<SentryStatus>,
    ecc_holds: Vec<bool>,
}

impl View for StatusManager {
    type V = ManagerView;

    closed spec fn view(&self) -> ManagerView {
        ManagerView {
            ecc: self.ecc_status@.map_values(|r: ECCStatusResponse| r@),
            sentry: self.sentry_status@.map_values(|r: SentryStatus| r@),
            holds: self.ecc_holds@,
        }
    }
}

impl StatusManager {
    /// A manager with every status and snapshot at its default and no hold raised.
    pub fn new() -> (r: Self)
        ensures
            r@ == initial_view(),
            r@.wf(),
    {
        let mut ecc_status: Vec<ECCStatusResponse> = Vec::new();
        let mut ecc_holds: Vec<bool> = Vec::new();
        let mut i: usize = 0;
        while i < NUMBER_OF_MODULES
            invariant
                i <= NUMBER_OF_MODULES,
                ecc_status@.len() == i,
                ecc_holds@.len() == i,
                forall|j: int| 0 <= j < i ==> (#[trigger] ecc_status@[j])@ == default_status(),
                forall|j: int| 0 <= j < i ==> !(#[trigger] ecc_holds@[j]),
            decreases NUMBER_OF_MODULES - i,
        {
            ecc_status.push(ECCStatusResponse::default());
            ecc_holds.push(false);
            i = i + 1;
        }
        let mut sentry_status: Vec<SentryStatus> = Vec::new();
        let mut k: usize = 0;
        while k < NUMBER_OF_MODULES - 1
            invariant
                k <= NUMBER_OF_MODULES - 1,
                sentry_status@.len() == k,
                forall|j: int| 0 <= j < k ==> (#[trigger] sentry_status@[j])@ == default_sentry(),
            decreases NUMBER_OF_MODULES - 1 - k,
        {
            sentry_status.push(SentryStatus::default());
            k = k + 1;
        }
        let r = StatusManager { ecc_status, sentry_status, ecc_holds };
        assert(r@.ecc =~= initial_view().ecc);
        assert(r@.sentry =~= initial_view().sentry);
        assert(r@.holds =~= initial_view().holds);
        r
    }

    /// Every status, snapshot and hold flag back to its default, as at startup.
    pub fn reset(&mut self)
        requires
            old(self)@.wf(),
        ensures
            final(self)@ == initial_view(),
            final(self)@.wf(),
    {
        let fresh = StatusManager::new();
        *self = fresh;
    }

    /// Folds a batch of messages into the record, in order. Stops at the first message whose
    /// body is not a valid body of its kind and returns its error; the messages before it have
    /// taken effect.
    pub fn handle_messages(&mut self, messages: &[EmbassyMessage]) -> (r: Result<
        (),
        EmbassyError,
    >)
        requires
            old(self)@.wf(),
        ensures
            final(self)@.wf(),
            ({
                let (v, e) = apply_messages(
                    old(self)@,
                    messages@.map_values(|m: EmbassyMessage| m@),
                );
                &&& final(self)@ == v
                &&& match e {
                    Some(err) => r == Err::<(), EmbassyError>(err),
                    None => r is Ok,
                }
            }),
    {
        let ghost ms = messages@.map_values(|m: EmbassyMessage| m@);
        let mut i: usize = 0;
        while i < messages.len()
            invariant
                i <= messages@.len(),
                ms == messages@.map_values(|m: EmbassyMessage| m@),
                self@.wf(),
                apply_messages(old(self)@, ms.subrange(0, i as int)) == (self@, None::<EmbassyError>),
            decreases messages@.len() - i,
        {
            let message = &messages[i];
            let module_id = message.id;
            proof {
                assert(ms.subrange(0, i + 1).drop_last() =~= ms.subrange(0, i as int));
                assert(ms.subrange(0, i + 1).last() == message@);
            }
            match message.kind {
                MessageKind::ECCOpResponse => {
                    match message.to_ecc_operation_response() {
                        Ok(_) => {
                            if module_id < NUMBER_OF_MODULES {
                                self.ecc_holds.set(module_id, false);
                            }
                        },
                        Err(e) => {
                            proof {
                                lemma_error_sticks(old(self)@, ms, i + 1);
                            }
                            return Err(e);
                        },
                    }
                },
                MessageKind::ECCStatus => {
                    match message.to_ecc_status_response() {
                        Ok(resp) => {
                            if module_id < NUMBER_OF_MODULES && !self.ecc_holds[module_id] {
                                self.ecc_status.set(module_id, resp);
                            }
                        },
                        Err(e) => {
                            proof {
                                lemma_error_sticks(old(self)@, ms, i + 1);
                            }
                            return Err(e);
                        },
                    }
                },
                MessageKind::SentryStatus => {
                    match message.to_sentry_status() {
                        Ok(resp) => {
                            if module_id < NUMBER_OF_MODULES - 1 {
                                self.sentry_status.set(module_id, resp);
                            }
                        },
                        Err(e) => {
                            proof {
                                lemma_error_sticks(old(self)@, ms, i + 1);
                            }
                            return Err(e);
                        },
                    }
                },
                _ => {},
            }
            proof {
                assert(self@.ecc =~= apply_messages(old(self)@, ms.subrange(0, i + 1)).0.ecc);
                assert(self@.sentry =~= apply_messages(old(self)@, ms.subrange(0, i + 1)).0.sentry);
                assert(self@.holds =~= apply_messages(old(self)@, ms.subrange(0, i + 1)).0.holds);
            }
            i = i + 1;
        }
        proof {
            assert(ms.subrange(0, messages@.len() as int) =~= ms);
        }
        Ok(())
    }

    /// The statuses of all control modules, by id.
    pub fn get_ecc_status_response(&self) -> (r: &[ECCStatusResponse])
        ensures
            r@.map_values(|s: ECCStatusResponse| s@) == self@.ecc,
    {
        self.ecc_status.as_slice()
    }

    /// The state of the whole system: the common state if every module reports the same state
    /// code, else `Inconsistent`.
    pub fn get_system_ecc_status(&self) -> (r: ECCStatus)
        requires
            self@.wf(),
        ensures
            r == system_status(self@),
    {
        let sys_status = self.ecc_status[0].state;
        let mut i: usize = 0;
        while i < self.ecc_status.len()
            invariant
                self@.wf(),
                i <= NUMBER_OF_MODULES,
                sys_status == self@.ecc[0].state,
                agree_up_to(self@, i as int),
            decreases NUMBER_OF_MODULES - i,
        {
            if sys_status != self.ecc_status[i].state {
                assert(self@.ecc[i as int].state != self@.ecc[0].state);
                return ECCStatus::Inconsistent;
            }
            i = i + 1;
        }
        ECCStatus::from_code(sys_status)
    }

    /// Whether the whole system is Ready.
    pub fn is_system_ready(&self) -> (r: bool)
        requires
            self@.wf(),
        ensures
            r == (system_status(self@) == ECCStatus::Ready),
    {
        self.get_system_ecc_status() == ECCStatus::Ready
    }

    /// Whether the whole system is Running.
    pub fn is_system_running(&self) -> (r: bool)
        requires
            self@.wf(),
        ensures
            r == (system_status(self@) == ECCStatus::Running),
    {
        self.get_system_ecc_status() == ECCStatus::Running
    }

    /// Whether every front-end is in state `state`, whatever the master is in.
    pub fn is_all_but_mutant_in(&self, state: ECCStatus) -> (r: bool)
        requires
            self@.wf(),
        ensures
            r == all_but_master_in(self@, state),
    {
        let sys_status = self.ecc_status[0].state;
        let mut i: usize = 0;
        while i < NUMBER_OF_MODULES - 1
            invariant
                self@.wf(),
                i <= NUMBER_OF_MODULES - 1,
                sys_status == self@.ecc[0].state,
                agree_up_to(self@, i as int),
            decreases NUMBER_OF_MODULES - 1 - i,
        {
            if sys_status != self.ecc_status[i].state {
                assert(self@.ecc[i as int].state != self@.ecc[0].state);
                return false;
            }
            i = i + 1;
        }
        ECCStatus::from_code(sys_status) == state
    }

    /// Whether every front-end is Running, whatever the master is in.
    pub fn is_all_but_mutant_running(&self) -> (r: bool)
        requires
            self@.wf(),
        ensures
            r == all_but_master_in(self@, ECCStatus::Running),
    {
        self.is_all_but_mutant_in(ECCStatus::Running)
    }

    /// Whether every front-end is Ready, whatever the master is in.
    pub fn is_all_but_mutant_ready(&self) -> (r: bool)
        requires
            self@.wf(),
        ensures
            r == all_but_master_in(self@, ECCStatus::Ready),
    {
        self.is_all_but_mutant_in(ECCStatus::Ready)
    }

    /// Whether the master is no longer Running.
    pub fn is_mutant_stopped(&self) -> (r: bool)
        requires
            self@.wf(),
        ensures
            r == (self@.status_of(MUTANT_ID as int) != ECCStatus::Running),
    {
        self.get_ecc_status(MUTANT_ID) != ECCStatus::Running
    }

    /// Whether the master is Prepared.
    pub fn is_mutant_prepared(&self) -> (r: bool)
        requires
            self@.wf(),
        ensures
            r == (self@.status_of(MUTANT_ID as int) == ECCStatus::Prepared),
    {
        self.get_ecc_status(MUTANT_ID) == ECCStatus::Prepared
    }

    /// Whether the master is Ready.
    pub fn is_mutant_ready(&self) -> (r: bool)
        requires
            self@.wf(),
        ensures
            r == (self@.status_of(MUTANT_ID as int) == ECCStatus::Ready),
    {
        self.get_ecc_status(MUTANT_ID) == ECCStatus::Ready
    }

    /// The snapshots of all monitors, by front-end id.
    pub fn get_sentry_status_response(&self) -> (r: &[SentryStatus])
        ensures
            r@.map_values(|s: SentryStatus| s@) == self@.sentry,
    {
        self.sentry_status.as_slice()
    }

    /// The state of module `id`.
    pub fn get_ecc_status(&self, id: usize) -> (r: ECCStatus)
        requires
            self@.wf(),
            id < NUMBER_OF_MODULES,
        ensures
            r == self@.status_of(id as int),
    {
        ECCStatus::from_code(self.ecc_status[id].state)
    }

    /// Marks module `id` as having an operation in flight: its state becomes Busy and its hold
    /// is raised, so that statuses polled before the outcome arrives are not recorded. Ids
    /// beyond the master change nothing.
    pub fn set_ecc_busy(&mut self, id: usize)
        requires
            old(self)@.wf(),
        ensures
            final(self)@ == busy_view(old(self)@, id as int),
            final(self)@.wf(),
    {
        if id > MUTANT_ID {
            return;
        }
        let mut record = self.ecc_status[id].duplicate();
        record.state = ECCStatus::Busy.to_code();
        self.ecc_status.set(id, record);
        self.ecc_holds.set(id, true);
        assert(self@.ecc =~= busy_view(old(self)@, id as int).ecc);
        assert(self@.holds =~= busy_view(old(self)@, id as int).holds);
    }

    /// Whether module `id` may advance, given the dependencies between the master and the
    /// front-ends.
    pub fn can_ecc_go_forward(&self, id: usize) -> (r: bool)
        requires
            self@.wf(),
            id < NUMBER_OF_MODULES,
        ensures
            r == can_advance(self@, id as int),
    {
        let status = self.get_ecc_status(id);
        if status == ECCStatus::Described && id != MUTANT_ID {
            let master = self.get_ecc_status(MUTANT_ID);
            master == ECCStatus::Prepared || master == ECCStatus::Ready
        } else if status == ECCStatus::Prepared && id == MUTANT_ID {
            self.is_all_but_mutant_ready()
        } else {
            status.can_go_forward()
        }
    }

    /// Whether no monitor reports a file left in its data path.
    pub fn has_sentry_cataloged(&self) -> (r: bool)
        requires
            self@.wf(),
        ensures
            r == sentries_cataloged(self@),
    {
        let mut i: usize = 0;
        while i < self.sentry_status.len()
            invariant
                self@.wf(),
                i <= self@.sentry.len(),
                forall|j: int| 0 <= j < i ==> #[trigger] self@.sentry[j].data_path_files == 0,
            decreases self@.sentry.len() - i,
        {
            if self.sentry_status[i].data_path_files != 0 {
                assert(self@.sentry[i as int].data_path_files != 0);
                return false;
            }
            i = i + 1;
        }
        true
    }

    /// The reachability of every monitor: their common status if they agree, else
    /// `Inconsistent`.
    pub fn get_sentry_server_system_status(&self) -> (r: SentryServerStatus)
        requires
            self@.wf(),
        ensures
            r == sentry_system_status(self@),
    {
        let sys_status = SentryServerStatus::from_status(&self.sentry_status[0]);
        let mut i: usize = 0;
        while i < self.sentry_status.len()
            invariant
                self@.wf(),
                i <= self@.sentry.len(),
                sys_status == sentry_server_of(self@.sentry[0]),
                forall|j: int|
                    0 <= j < i ==> #[trigger] sentry_server_of(self@.sentry[j]) == sys_status,
            decreases self@.sentry.len() - i,
        {
            let this_status = SentryServerStatus::from_status(&self.sentry_status[i]);
            if sys_status != this_status {
                assert(sentry_server_of(self@.sentry[i as int]) != sys_status);
                return SentryServerStatus::Inconsistent;
            }
            i = i + 1;
        }
        sys_status
    }

    /// The reachability of the monitor of front-end `id`.
    pub fn get_sentry_server_status(&self, id: usize) -> (r: SentryServerStatus)
        requires
            self@.wf(),
            id < NUMBER_OF_MODULES - 1,
        ensures
            r == sentry_server_of(self@.sentry[id as int]),
    {
        SentryServerStatus::from_status(&self.sentry_status[id])
    }
}

} // verus!
