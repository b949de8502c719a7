//! Access to the persisted callgraph store: what a query is answered, when a build is started,
//! and what becomes of a build's result.
//!
//! A query goes through steps. Each step decides on plain values and names the next outside
//! action, such as opening the store or waiting for a build; the application performs it and
//! hands the outcome to the next step.

use vstd::prelude::*;
use vstd::string::*;

use crate::context::{
    AppContext, BuildSuspension, CallgraphSlots, ColdSeedGate, PendingReconciliationState,
    SemanticSlots, StoreHandle,
};
use crate::lifecycle;
use crate::lifecycle::{advance, ReceiverSlot};
use crate::path_set;
use crate::pending;
use crate::pending::keep_contained;
use crate::text;

verus! {

/// Why a store could not be opened or built.
#[derive(Debug)]
pub enum CallGraphStoreError {
    Unavailable(String),
    Suspended(BuildSuspension),
    /// A newer configuration owns the store.
    Superseded,
    Other(String),
}

/// What a query for the store is answered.
#[derive(Debug)]
pub enum CallgraphStoreAccess {
    /// The store is resident and can be queried.
    Ready(StoreHandle),
    /// A build is in flight, or was just started: ask again soon.
    Building,
    /// Builds are refused until that is reset or has expired.
    Suspended(BuildSuspension),
    /// Not configured, or a read-only root whose store was never built.
    Unavailable,
    Error(CallGraphStoreError),
}

/// What a background build does.
#[derive(Debug, Clone, Copy, PartialEq, Eq, Structural)]
pub enum CallgraphBackgroundWork {
    Ensure,
    ForceRebuild(u64),
    LegacyMigration,
}

/// What a background build tells its root.
#[derive(Debug)]
pub enum CallGraphStoreBuildEvent {
    Ready { store: u64, fulfilled_force_token: Option<u64>, publication_epoch: u64 },
    Denied { reason: String },
    Suspended { suspension: BuildSuspension },
    /// The build ended without a result that counts.
    Settled,
}

/// What a query carries from step to step: the generation that it was started under, the
/// rebuild that was asked for by then, and whether it may wait for a build.
#[derive(Debug, Clone, Copy, PartialEq, Eq, Structural)]
pub struct OpsTicket {
    pub generation: u64,
    pub force_token: Option<u64>,
    pub wait: bool,
}

/// The next step of a query.
#[derive(Debug)]
pub enum OpsStep {
    /// The query is answered; with `migrate`, a migration of the older layout is started too.
    Answer { access: CallgraphStoreAccess, migrate: bool },
    /// Ask whether builds are suspended.
    CheckSuspension(OpsTicket),
    /// Open the published store for reading.
    OpenReadonly(OpsTicket),
    /// Start a build, then wait for it where the ticket allows that.
    Spawn(OpsTicket, CallgraphBackgroundWork),
    /// Wait for the build in flight.
    Await,
    /// Release the finished build and open what it published.
    Reopen { fulfilled_force_token: Option<u64> },
}

/// What came of waiting for a build.
#[derive(Debug)]
pub enum OpsReceived {
    /// There is no build to wait for.
    NoReceiver,
    Event(CallGraphStoreBuildEvent),
    Timeout,
    Disconnected,
}

/// The answer that ends a query.
pub open spec fn answer(access: CallgraphStoreAccess) -> OpsStep {
    OpsStep::Answer { access, migrate: false }
}

/// The rebuild that was asked for and is not done yet.
pub open spec fn pending_force(slots: CallgraphSlots) -> Option<u64> {
    if slots.force_requested > slots.force_fulfilled {
        Some(slots.force_requested)
    } else {
        None
    }
}

/// The context with other callgraph slots.
pub open spec fn with_slots(context: AppContext, callgraph: CallgraphSlots) -> AppContext {
    AppContext { callgraph, ..context }
}

/// The context with a resident store.
pub open spec fn with_store(context: AppContext, store: StoreHandle) -> AppContext {
    with_slots(context, CallgraphSlots { resident: Some(store), ..context.callgraph })
}

/// The context in which no build is known to be refused.
pub open spec fn without_refusal(context: AppContext) -> AppContext {
    with_slots(context, CallgraphSlots { denied: None, suspension: None, ..context.callgraph })
}

/// The context without its receiver.
pub open spec fn without_receiver(context: AppContext) -> AppContext {
    with_slots(
        context,
        CallgraphSlots {
            receiver: ReceiverSlot { present: false, ..context.callgraph.receiver },
            ..context.callgraph
        },
    )
}

/// The context after its reader was compared with what is published: a reader of an older
/// publication is dropped, unless it serves the older layout while a build is in flight.
pub open spec fn revalidated(context: AppContext, resident_current: bool) -> AppContext {
    match context.callgraph.resident {
        Some(store) => if resident_current || (store.legacy_fallback
            && context.callgraph.receiver.present) {
            context
        } else {
            with_slots(context, CallgraphSlots { resident: None, ..context.callgraph })
        },
        None => context,
    }
}

/// The suspension that was met in the generation in force.
pub open spec fn suspension_in_force(context: AppContext) -> Option<BuildSuspension> {
    match context.callgraph.suspension {
        Some((generation, suspension)) => if generation == context.lifecycle.generation {
            Some(suspension)
        } else {
            None
        },
        None => None,
    }
}

/// The refusal that was met in the generation in force.
pub open spec fn denial_in_force(context: AppContext) -> Option<String> {
    match context.callgraph.denied {
        Some((generation, reason)) => if generation == context.lifecycle.generation {
            Some(reason)
        } else {
            None
        },
        None => None,
    }
}

/// The context without a suspension of an earlier generation.
pub open spec fn with_fresh_suspension(context: AppContext) -> AppContext {
    if suspension_in_force(context) is Some {
        context
    } else {
        with_slots(context, CallgraphSlots { suspension: None, ..context.callgraph })
    }
}

/// The context without a refusal of an earlier generation.
pub open spec fn with_fresh_denial(context: AppContext) -> AppContext {
    if denial_in_force(context) is Some {
        context
    } else {
        with_slots(context, CallgraphSlots { denied: None, ..context.callgraph })
    }
}

/// The context in which a warm-up of the store waits for the semantic corpus.
pub open spec fn with_deferred_warm(context: AppContext) -> AppContext {
    AppContext {
        semantic: SemanticSlots {
            seed: ColdSeedGate { callgraph_warm_deferred: true, ..context.semantic.seed },
            ..context.semantic
        },
        ..context
    }
}

/// Whether a reader of the older layout is to be migrated by this process.
pub open spec fn migration_wanted(context: AppContext, store: StoreHandle) -> bool {
    store.legacy_fallback && context.role.callgraph_writer && context.heavy_work()
}

/// The context, and whether a migration is started for a reader: while the semantic corpus is
/// collected it is put off instead.
pub open spec fn migration_scheduled(context: AppContext, store: StoreHandle) -> (
    AppContext,
    bool,
) {
    if !migration_wanted(context, store) {
        (context, false)
    } else if context.semantic.seed.active {
        (with_deferred_warm(context), false)
    } else {
        (context, true)
    }
}

/// The answer with a store: earlier refusals are forgotten.
pub open spec fn ready_answer(context: AppContext, store: StoreHandle) -> (AppContext, OpsStep) {
    let (next, migrate) = migration_scheduled(without_refusal(context), store);
    (next, OpsStep::Answer { access: CallgraphStoreAccess::Ready(store), migrate })
}

/// A cold build is needed: while the semantic corpus is collected it is put off.
pub open spec fn cold_build_step(context: AppContext, ticket: OpsTicket) -> (AppContext, OpsStep) {
    if context.semantic.seed.active {
        (with_deferred_warm(context), answer(CallgraphStoreAccess::Building))
    } else {
        (
            context,
            OpsStep::Spawn(
                ticket,
                match ticket.force_token {
                    Some(token) => CallgraphBackgroundWork::ForceRebuild(token),
                    None => CallgraphBackgroundWork::Ensure,
                },
            ),
        )
    }
}

/// The first step of a query. `resident_current` says whether the resident reader serves what
/// is published.
pub open spec fn ops_begun(
    context: AppContext,
    resident_current: bool,
    wait: bool,
) -> (AppContext, OpsStep) {
    if !context.heavy_work() {
        (context, answer(CallgraphStoreAccess::Unavailable))
    } else {
        let current = revalidated(context, resident_current);
        let force_token = pending_force(current.callgraph);
        if force_token is None && current.callgraph.resident is Some {
            ready_answer(current, current.callgraph.resident->0)
        } else {
            let checked = with_fresh_suspension(current);
            match suspension_in_force(current) {
                Some(suspension) => (
                    checked,
                    answer(CallgraphStoreAccess::Suspended(suspension)),
                ),
                None => {
                    let admitted = with_fresh_denial(checked);
                    match denial_in_force(checked) {
                        Some(reason) => (
                            admitted,
                            answer(
                                CallgraphStoreAccess::Error(
                                    CallGraphStoreError::Unavailable(reason),
                                ),
                            ),
                        ),
                        None => if !context.knows_callgraph_root() {
                            (admitted, answer(CallgraphStoreAccess::Unavailable))
                        } else if admitted.callgraph.receiver.present {
                            (
                                admitted,
                                if wait {
                                    OpsStep::Await
                                } else {
                                    answer(CallgraphStoreAccess::Building)
                                },
                            )
                        } else {
                            (
                                admitted,
                                OpsStep::CheckSuspension(
                                    OpsTicket {
                                        generation: context.lifecycle.generation,
                                        force_token,
                                        wait,
                                    },
                                ),
                            )
                        },
                    }
                },
            }
        }
    }
}

/// The step once it is known whether builds are suspended.
pub open spec fn ops_suspension_checked(
    context: AppContext,
    ticket: OpsTicket,
    found: Result<Option<BuildSuspension>, CallGraphStoreError>,
) -> (AppContext, OpsStep) {
    match found {
        Ok(Some(suspension)) => (context, answer(CallgraphStoreAccess::Suspended(suspension))),
        Err(error) => (context, answer(CallgraphStoreAccess::Error(error))),
        Ok(None) => if ticket.force_token is None {
            (context, OpsStep::OpenReadonly(ticket))
        } else if !context.role.callgraph_writer {
            (context, answer(CallgraphStoreAccess::Unavailable))
        } else {
            cold_build_step(context, ticket)
        },
    }
}

/// The step once the published store was opened, or could not be: a store is installed only
/// while the query's generation is in force, and only a writer goes on to build one.
pub open spec fn ops_opened(
    context: AppContext,
    ticket: OpsTicket,
    opened: Result<Option<StoreHandle>, CallGraphStoreError>,
) -> (AppContext, OpsStep) {
    match opened {
        Ok(Some(store)) => if context.lifecycle.admits(ticket.generation) {
            ready_answer(with_store(context, store), store)
        } else {
            (context, answer(CallgraphStoreAccess::Unavailable))
        },
        _ => if context.role.callgraph_writer {
            cold_build_step(context, ticket)
        } else {
            (context, answer(CallgraphStoreAccess::Unavailable))
        },
    }
}

/// The context with its receiver cleared, where the receiver is still the one waited for.
pub open spec fn receiver_settled(context: AppContext, generation: u64, epoch: u64) -> AppContext {
    if context.callgraph.receiver.awaits(context.lifecycle, generation, epoch) {
        without_receiver(context)
    } else {
        context
    }
}

/// The step once a build reported, or did not. `generation` and `epoch` are those of the
/// receiver that was waited on.
pub open spec fn ops_received(
    context: AppContext,
    generation: u64,
    epoch: u64,
    received: OpsReceived,
) -> (AppContext, OpsStep) {
    let awaited = context.callgraph.receiver.awaits(context.lifecycle, generation, epoch);
    let settled = receiver_settled(context, generation, epoch);
    match received {
        OpsReceived::NoReceiver => (context, answer(CallgraphStoreAccess::Building)),
        OpsReceived::Timeout => (context, answer(CallgraphStoreAccess::Building)),
        OpsReceived::Disconnected => (settled, answer(CallgraphStoreAccess::Building)),
        OpsReceived::Event(event) => match event {
            CallGraphStoreBuildEvent::Ready { store, fulfilled_force_token, publication_epoch } =>
                if context.callgraph.persist_epoch != publication_epoch {
                    (settled, answer(CallgraphStoreAccess::Building))
                } else {
                    (context, OpsStep::Reopen { fulfilled_force_token })
                },
            CallGraphStoreBuildEvent::Suspended { suspension } => if awaited {
                (
                    with_slots(
                        settled,
                        CallgraphSlots {
                            suspension: Some((generation, suspension)),
                            ..settled.callgraph
                        },
                    ),
                    answer(CallgraphStoreAccess::Suspended(suspension)),
                )
            } else {
                (context, answer(CallgraphStoreAccess::Unavailable))
            },
            CallGraphStoreBuildEvent::Denied { reason } => if awaited {
                (
                    with_slots(
                        settled,
                        CallgraphSlots {
                            denied: Some((generation, reason)),
                            ..settled.callgraph
                        },
                    ),
                    answer(
                        CallgraphStoreAccess::Error(CallGraphStoreError::Unavailable(reason)),
                    ),
                )
            } else {
                (context, answer(CallgraphStoreAccess::Unavailable))
            },
            CallGraphStoreBuildEvent::Settled => (
                settled,
                answer(CallgraphStoreAccess::Building),
            ),
        },
    }
}

/// The slots once a rebuild was fulfilled.
pub open spec fn with_fulfilled(slots: CallgraphSlots, token: Option<u64>) -> CallgraphSlots {
    match token {
        Some(token) => CallgraphSlots {
            force_fulfilled: if token > slots.force_fulfilled {
                token
            } else {
                slots.force_fulfilled
            },
            ..slots
        },
        None => slots,
    }
}

/// The context and the answer once the published store was opened again after a build.
pub open spec fn ops_reopened(
    context: AppContext,
    generation: u64,
    epoch: u64,
    fulfilled_force_token: Option<u64>,
    reopened: Result<Option<StoreHandle>, CallGraphStoreError>,
) -> (AppContext, CallgraphStoreAccess) {
    if !context.callgraph.receiver.awaits(context.lifecycle, generation, epoch) {
        (
            context,
            if context.lifecycle.unbound || context.lifecycle.generation != generation {
                CallgraphStoreAccess::Unavailable
            } else {
                CallgraphStoreAccess::Building
            },
        )
    } else {
        let settled = without_receiver(context);
        match reopened {
            Ok(Some(store)) => {
                let installed = with_store(without_refusal(settled), store);
                (
                    with_slots(
                        installed,
                        with_fulfilled(installed.callgraph, fulfilled_force_token),
                    ),
                    CallgraphStoreAccess::Ready(store),
                )
            },
            Ok(None) => (settled, CallgraphStoreAccess::Building),
            Err(error) => (settled, CallgraphStoreAccess::Error(error)),
        }
    }
}

/// How a query ends that waited for a build: the access, the paths that waited for the store
/// and are now replayed into it, and whether a background refresh is asked for.
#[derive(Debug)]
pub struct OpsEnd {
    pub access: CallgraphStoreAccess,
    pub replay: Vec<String>,
    pub request_tier2_pull: bool,
}

/// What a started build carries.
#[derive(Debug, Clone, Copy, PartialEq, Eq, Structural)]
pub struct BuildTicket {
    pub generation: u64,
    pub receiver_epoch: u64,
    pub publication_epoch: u64,
    pub force_token: Option<u64>,
}

/// Whether a build may be started: heavy work is admitted, this process writes the store, and
/// none is in flight.
pub open spec fn may_spawn(context: AppContext) -> bool {
    context.heavy_work() && context.role.callgraph_writer && !context.callgraph.receiver.present
}

/// The context once a build was started.
pub open spec fn with_spawned(context: AppContext) -> AppContext {
    with_slots(
        context,
        CallgraphSlots {
            receiver: context.callgraph.receiver.with_receiver(context.lifecycle.generation),
            persist_epoch: lifecycle::next_count(context.callgraph.persist_epoch),
            cold_builds_spawned: if context.callgraph.cold_builds_spawned == usize::MAX {
                0
            } else {
                (context.callgraph.cold_builds_spawned + 1) as usize
            },
            ..context.callgraph
        },
    )
}

/// The rebuild that a piece of work fulfils.
pub open spec fn work_token(work: CallgraphBackgroundWork) -> Option<u64> {
    match work {
        CallgraphBackgroundWork::ForceRebuild(token) => Some(token),
        _ => None,
    }
}

/// What a build reports. A result counts only while its publication is the newest one; a
/// refusal is reported only where the writer could not be had.
pub open spec fn build_report(
    ticket: BuildTicket,
    publication_current: bool,
    built: Result<Option<u64>, CallGraphStoreError>,
) -> CallGraphStoreBuildEvent {
    match built {
        Ok(Some(store)) => if publication_current {
            CallGraphStoreBuildEvent::Ready {
                store,
                fulfilled_force_token: ticket.force_token,
                publication_epoch: ticket.publication_epoch,
            }
        } else {
            CallGraphStoreBuildEvent::Settled
        },
        Ok(None) => CallGraphStoreBuildEvent::Settled,
        Err(CallGraphStoreError::Suspended(suspension)) => CallGraphStoreBuildEvent::Suspended {
            suspension,
        },
        Err(CallGraphStoreError::Unavailable(reason)) => if text::closes_with(
            reason@,
            "could not acquire writer capability"@,
        ) {
            CallGraphStoreBuildEvent::Denied { reason }
        } else {
            CallGraphStoreBuildEvent::Settled
        },
        Err(_) => CallGraphStoreBuildEvent::Settled,
    }
}

/// What a build reports once it is done.
pub fn settle_build(
    ticket: &BuildTicket,
    publication_current: bool,
    built: Result<Option<u64>, CallGraphStoreError>,
) -> (event: CallGraphStoreBuildEvent)
    ensures
        event == build_report(*ticket, publication_current, built),
{
    match built {
        Ok(Some(store)) => {
            if publication_current {
                CallGraphStoreBuildEvent::Ready {
                    store,
                    fulfilled_force_token: ticket.force_token,
                    publication_epoch: ticket.publication_epoch,
                }
            } else {
                CallGraphStoreBuildEvent::Settled
            }
        },
        Ok(None) => CallGraphStoreBuildEvent::Settled,
        Err(CallGraphStoreError::Suspended(suspension)) => CallGraphStoreBuildEvent::Suspended {
            suspension,
        },
        Err(CallGraphStoreError::Unavailable(reason)) => {
            if text::ends_with(reason.as_str(), "could not acquire writer capability") {
                CallGraphStoreBuildEvent::Denied { reason }
            } else {
                CallGraphStoreBuildEvent::Settled
            }
        },
        Err(_) => CallGraphStoreBuildEvent::Settled,
    }
}

/// The step of a caller that needs the store built, not only queried.
#[derive(Debug)]
pub enum EnsureStep {
    /// There is no store to be had, or this one.
    Done { store: Option<StoreHandle>, migrate: bool },
    Failed(CallGraphStoreError),
    /// Open the published store for reading.
    OpenReadonly,
    /// Build the store under this ticket, then open what it published.
    Build(EnsureTicket),
}

/// What a synchronous build carries.
#[derive(Debug, Clone, Copy, PartialEq, Eq, Structural)]
pub struct EnsureTicket {
    pub generation: u64,
    pub publication_epoch: u64,
    pub force_token: Option<u64>,
}

/// The end of a caller's way without a store.
pub open spec fn no_store() -> EnsureStep {
    EnsureStep::Done { store: None, migrate: false }
}

/// Only a writer builds, under a new publication.
pub open spec fn ensure_build_step(context: AppContext, force_token: Option<u64>) -> (
    AppContext,
    EnsureStep,
) {
    if !context.role.callgraph_writer || context.lifecycle.unbound {
        (context, no_store())
    } else {
        let epoch = lifecycle::next_count(context.callgraph.persist_epoch);
        (
            with_slots(context, CallgraphSlots { persist_epoch: epoch, ..context.callgraph }),
            EnsureStep::Build(
                EnsureTicket {
                    generation: context.lifecycle.generation,
                    publication_epoch: epoch,
                    force_token,
                },
            ),
        )
    }
}

/// The first step of a caller that needs the store built.
pub open spec fn ensure_begun(
    context: AppContext,
    respect_config_flag: bool,
    resident_current: bool,
) -> (AppContext, EnsureStep) {
    if (respect_config_flag && !context.config.callgraph_store) || !context.heavy_work() {
        (context, no_store())
    } else {
        let current = revalidated(context, resident_current);
        let force_token = pending_force(current.callgraph);
        if force_token is None && current.callgraph.resident is Some {
            let store = current.callgraph.resident->0;
            let (next, migrate) = migration_scheduled(current, store);
            (next, EnsureStep::Done { store: Some(store), migrate })
        } else if !context.knows_callgraph_root() {
            (current, no_store())
        } else if force_token is None {
            (current, EnsureStep::OpenReadonly)
        } else {
            ensure_build_step(current, force_token)
        }
    }
}

/// The step once the published store was opened, or could not be.
pub open spec fn ensure_opened(
    context: AppContext,
    opened: Result<Option<StoreHandle>, CallGraphStoreError>,
) -> (AppContext, EnsureStep) {
    match opened {
        Ok(Some(store)) => {
            let (next, migrate) = migration_scheduled(with_store(context, store), store);
            (next, EnsureStep::Done { store: Some(store), migrate })
        },
        Ok(None) => ensure_build_step(context, None),
        Err(error) => (context, EnsureStep::Failed(error)),
    }
}

/// The end once a synchronous build published and its store was opened: it is installed only
/// while its generation is admitted and its publication is the newest.
pub open spec fn ensure_built(
    context: AppContext,
    ticket: EnsureTicket,
    opened: Result<Option<StoreHandle>, CallGraphStoreError>,
) -> (AppContext, Result<Option<StoreHandle>, CallGraphStoreError>) {
    match opened {
        Ok(Some(store)) => if context.lifecycle.admits(ticket.generation)
            && context.callgraph.persist_epoch == ticket.publication_epoch {
            let installed = with_store(context, store);
            (
                with_slots(installed, with_fulfilled(installed.callgraph, ticket.force_token)),
                Ok(Some(store)),
            )
        } else {
            (context, Ok(None))
        },
        Ok(None) => (context, Ok(None)),
        Err(error) => (context, Err(error)),
    }
}

/// What becomes of changed paths that are handed to the store.
#[derive(Debug)]
pub enum RefreshAdmission {
    /// Nothing is handed on; the answer to the caller.
    Done(bool),
    /// The paths go to the refresh worker, fenced by the publication in force.
    Enqueue { paths: Vec<String>, publication_epoch: u64 },
}

impl AppContext {
    // ---- Rebuilds that were asked for ----

    /// Asks for a rebuild and returns its token.
    pub fn mark_callgraph_store_force_rebuild(&mut self) -> (token: u64)
        ensures
            token == lifecycle::next_count(old(self).callgraph.force_requested),
            *final(self) == with_slots(
                *old(self),
                CallgraphSlots { force_requested: token, ..old(self).callgraph },
            ),
    {
        self.callgraph.force_requested = advance(self.callgraph.force_requested);
        self.callgraph.force_requested
    }

    /// The rebuild that was asked for and is not done yet.
    pub fn pending_callgraph_store_force_token(&self) -> (token: Option<u64>)
        ensures
            token == pending_force(self.callgraph),
    {
        if self.callgraph.force_requested > self.callgraph.force_fulfilled {
            Some(self.callgraph.force_requested)
        } else {
            None
        }
    }

    /// Notes that a rebuild is done, and with it every earlier one.
    pub fn fulfill_callgraph_store_force_token(&mut self, token: u64)
        ensures
            *final(self) == with_slots(
                *old(self),
                with_fulfilled(old(self).callgraph, Some(token)),
            ),
    {
        if token > self.callgraph.force_fulfilled {
            self.callgraph.force_fulfilled = token;
        }
    }

    // ---- Refused builds ----

    pub fn record_callgraph_store_build_denied(&mut self, generation: u64, reason: String)
        ensures
            *final(self) == with_slots(
                *old(self),
                CallgraphSlots { denied: Some((generation, reason)), ..old(self).callgraph },
            ),
    {
        self.callgraph.denied = Some((generation, reason));
    }

    pub fn record_callgraph_store_build_suspension(
        &mut self,
        generation: u64,
        suspension: BuildSuspension,
    )
        ensures
            *final(self) == with_slots(
                *old(self),
                CallgraphSlots {
                    suspension: Some((generation, suspension)),
                    ..old(self).callgraph
                },
            ),
    {
        self.callgraph.suspension = Some((generation, suspension));
    }

    /// Forgets that builds were refused.
    pub fn clear_callgraph_store_build_denied(&mut self)
        ensures
            *final(self) == without_refusal(*old(self)),
    {
        self.callgraph.denied = None;
        self.callgraph.suspension = None;
    }

    /// The suspension in force; one of an earlier generation is forgotten.
    pub fn callgraph_store_build_suspension(&mut self) -> (suspension: Option<BuildSuspension>)
        ensures
            suspension == suspension_in_force(*old(self)),
            *final(self) == with_fresh_suspension(*old(self)),
    {
        let found = match &self.callgraph.suspension {
            Some((generation, suspension)) => {
                if *generation == self.lifecycle.generation {
                    Some(suspension.copy())
                } else {
                    None
                }
            },
            None => None,
        };
        if found.is_none() {
            self.callgraph.suspension = None;
        }
        found
    }

    /// The refusal in force; one of an earlier generation is forgotten.
    pub fn callgraph_store_build_denial(&mut self) -> (reason: Option<String>)
        ensures
            reason == denial_in_force(*old(self)),
            *final(self) == with_fresh_denial(*old(self)),
    {
        let found = match &self.callgraph.denied {
            Some((generation, reason)) => {
                if *generation == self.lifecycle.generation {
                    Some(reason.clone())
                } else {
                    None
                }
            },
            None => None,
        };
        if found.is_none() {
            self.callgraph.denied = None;
        }
        found
    }

    // ---- The resident reader ----

    /// Drops a reader of an older publication.
    pub fn revalidate_callgraph_store_generation(&mut self, resident_current: bool)
        ensures
            *final(self) == revalidated(*old(self), resident_current),
    {
        match self.callgraph.resident {
            Some(store) => {
                if !resident_current && !(store.legacy_fallback
                    && self.callgraph.receiver.present) {
                    self.callgraph.resident = None;
                }
            },
            None => {},
        }
    }

    /// Whether a migration is started for a reader.
    pub fn schedule_legacy_callgraph_migration_if_needed(&mut self, store: StoreHandle) -> (start:
        bool)
        ensures
            (*final(self), start) == migration_scheduled(*old(self), store),
    {
        if !store.legacy_fallback || !self.callgraph_writer() || !self.heavy_root_work_allowed() {
            return false;
        }
        if self.semantic.seed.active {
            self.semantic.seed.callgraph_warm_deferred = true;
            return false;
        }
        true
    }

    fn answer_ready(&mut self, store: StoreHandle) -> (step: OpsStep)
        ensures
            (*final(self), step) == ready_answer(*old(self), store),
    {
        self.clear_callgraph_store_build_denied();
        let migrate = self.schedule_legacy_callgraph_migration_if_needed(store);
        OpsStep::Answer { access: CallgraphStoreAccess::Ready(store), migrate }
    }

    fn start_cold_build(&mut self, ticket: OpsTicket) -> (step: OpsStep)
        ensures
            (*final(self), step) == cold_build_step(*old(self), ticket),
    {
        if self.semantic.seed.active {
            self.semantic.seed.callgraph_warm_deferred = true;
            return OpsStep::Answer { access: CallgraphStoreAccess::Building, migrate: false };
        }
        let work = match ticket.force_token {
            Some(token) => CallgraphBackgroundWork::ForceRebuild(token),
            None => CallgraphBackgroundWork::Ensure,
        };
        OpsStep::Spawn(ticket, work)
    }

    /// Whether the root of the callgraph store is known: from the caches, or as it is configured.
    pub open spec fn knows_callgraph_root(self) -> bool {
        self.role.canonical_cache_root is Some || self.config.project_root is Some
    }

    /// Whether the root of the callgraph store is known.
    pub fn callgraph_root_known(&self) -> (yes: bool)
        ensures
            yes == self.knows_callgraph_root(),
    {
        self.role.canonical_cache_root.is_some() || self.config.project_root.is_some()
    }

    /// Takes up whether all legacy partitions of the configured roots were found migrated, and
    /// answers whether that is logged: only the first time that they are.
    pub fn legacy_migration_summary_due(&mut self, all_migrated: bool) -> (due: bool)
        ensures
            due == (all_migrated && !old(self).callgraph.migration_summary_logged),
            *final(self) == with_slots(
                *old(self),
                CallgraphSlots {
                    migration_summary_logged: old(self).callgraph.migration_summary_logged
                        || all_migrated,
                    ..old(self).callgraph
                },
            ),
    {
        let due = all_migrated && !self.callgraph.migration_summary_logged;
        if all_migrated {
            self.callgraph.migration_summary_logged = true;
        }
        due
    }

    // ---- The steps of a query ----

    /// Starts a query for the store.
    pub fn callgraph_store_for_ops(
        &mut self,
        resident_current: bool,
        wait: bool,
    ) -> (step: OpsStep)
        ensures
            (*final(self), step) == ops_begun(*old(self), resident_current, wait),
    {
        if !self.heavy_root_work_allowed() {
            return OpsStep::Answer { access: CallgraphStoreAccess::Unavailable, migrate: false };
        }
        let generation = self.configure_generation();
        self.revalidate_callgraph_store_generation(resident_current);
        let force_token = self.pending_callgraph_store_force_token();
        if force_token.is_none() {
            if let Some(store) = self.callgraph.resident {
                return self.answer_ready(store);
            }
        }
        if let Some(suspension) = self.callgraph_store_build_suspension() {
            return OpsStep::Answer {
                access: CallgraphStoreAccess::Suspended(suspension),
                migrate: false,
            };
        }
        if let Some(reason) = self.callgraph_store_build_denial() {
            return OpsStep::Answer {
                access: CallgraphStoreAccess::Error(CallGraphStoreError::Unavailable(reason)),
                migrate: false,
            };
        }
        if !self.callgraph_root_known() {
            return OpsStep::Answer { access: CallgraphStoreAccess::Unavailable, migrate: false };
        }
        if self.callgraph.receiver.present {
            if wait {
                return OpsStep::Await;
            }
            return OpsStep::Answer { access: CallgraphStoreAccess::Building, migrate: false };
        }
        OpsStep::CheckSuspension(OpsTicket { generation, force_token, wait })
    }

    /// Starts a query that never waits for a build.
    pub fn schedule_callgraph_store_warm(&mut self, resident_current: bool) -> (step:
        OpsStep)
        ensures
            (*final(self), step) == ops_begun(*old(self), resident_current, false),
    {
        self.callgraph_store_for_ops(resident_current, false)
    }

    /// Goes on with a query once it is known whether builds are suspended.
    pub fn ops_after_suspension_check(
        &mut self,
        ticket: OpsTicket,
        found: Result<Option<BuildSuspension>, CallGraphStoreError>,
    ) -> (step: OpsStep)
        ensures
            (*final(self), step) == ops_suspension_checked(*old(self), ticket, found),
    {
        match found {
            Ok(Some(suspension)) => OpsStep::Answer {
                access: CallgraphStoreAccess::Suspended(suspension),
                migrate: false,
            },
            Err(error) => OpsStep::Answer {
                access: CallgraphStoreAccess::Error(error),
                migrate: false,
            },
            Ok(None) => {
                if ticket.force_token.is_none() {
                    OpsStep::OpenReadonly(ticket)
                } else if !self.callgraph_writer() {
                    OpsStep::Answer { access: CallgraphStoreAccess::Unavailable, migrate: false }
                } else {
                    self.start_cold_build(ticket)
                }
            },
        }
    }

    /// Goes on with a query once the published store was opened, or could not be.
    pub fn ops_after_open(
        &mut self,
        ticket: OpsTicket,
        opened: Result<Option<StoreHandle>, CallGraphStoreError>,
    ) -> (step: OpsStep)
        ensures
            (*final(self), step) == ops_opened(*old(self), ticket, opened),
    {
        if let Ok(Some(store)) = opened {
            if self.lifecycle.is_current(ticket.generation) {
                self.callgraph.resident = Some(store);
                return self.answer_ready(store);
            }
            return OpsStep::Answer { access: CallgraphStoreAccess::Unavailable, migrate: false };
        }
        if !self.callgraph_writer() {
            return OpsStep::Answer { access: CallgraphStoreAccess::Unavailable, migrate: false };
        }
        self.start_cold_build(ticket)
    }

    /// Goes on with a query once a build was started, or another one had been.
    pub fn ops_after_spawn(&self, ticket: OpsTicket) -> (step: OpsStep)
        ensures
            step == (if ticket.wait {
                OpsStep::Await
            } else {
                answer(CallgraphStoreAccess::Building)
            }),
    {
        if ticket.wait {
            OpsStep::Await
        } else {
            OpsStep::Answer { access: CallgraphStoreAccess::Building, migrate: false }
        }
    }

    /// Clears the receiver where it is still the one waited for.
    pub fn settle_callgraph_store_rx(&mut self, generation: u64, epoch: u64) -> (settled: bool)
        ensures
            settled == old(self).callgraph.receiver.awaits(
                old(self).lifecycle,
                generation,
                epoch,
            ),
            *final(self) == receiver_settled(*old(self), generation, epoch),
    {
        let current = self.callgraph.receiver.is_current(&self.lifecycle, generation, epoch);
        if current {
            self.callgraph.receiver.present = false;
        }
        current
    }

    /// Goes on with a query once a build reported, or did not.
    pub fn ops_after_wait(&mut self, generation: u64, epoch: u64, received: OpsReceived) -> (step:
        OpsStep)
        ensures
            (*final(self), step) == ops_received(*old(self), generation, epoch, received),
    {
        match received {
            OpsReceived::NoReceiver => OpsStep::Answer {
                access: CallgraphStoreAccess::Building,
                migrate: false,
            },
            OpsReceived::Timeout => OpsStep::Answer {
                access: CallgraphStoreAccess::Building,
                migrate: false,
            },
            OpsReceived::Disconnected => {
                let _ = self.settle_callgraph_store_rx(generation, epoch);
                OpsStep::Answer { access: CallgraphStoreAccess::Building, migrate: false }
            },
            OpsReceived::Event(event) => match event {
                CallGraphStoreBuildEvent::Ready {
                    store: _,
                    fulfilled_force_token,
                    publication_epoch,
                } => {
                    if self.callgraph.persist_epoch != publication_epoch {
                        let _ = self.settle_callgraph_store_rx(generation, epoch);
                        return OpsStep::Answer {
                            access: CallgraphStoreAccess::Building,
                            migrate: false,
                        };
                    }
                    OpsStep::Reopen { fulfilled_force_token }
                },
                CallGraphStoreBuildEvent::Suspended { suspension } => {
                    if !self.settle_callgraph_store_rx(generation, epoch) {
                        return OpsStep::Answer {
                            access: CallgraphStoreAccess::Unavailable,
                            migrate: false,
                        };
                    }
                    self.record_callgraph_store_build_suspension(generation, suspension.copy());
                    OpsStep::Answer {
                        access: CallgraphStoreAccess::Suspended(suspension),
                        migrate: false,
                    }
                },
                CallGraphStoreBuildEvent::Denied { reason } => {
                    if !self.settle_callgraph_store_rx(generation, epoch) {
                        return OpsStep::Answer {
                            access: CallgraphStoreAccess::Unavailable,
                            migrate: false,
                        };
                    }
                    self.record_callgraph_store_build_denied(generation, reason.clone());
                    OpsStep::Answer {
                        access: CallgraphStoreAccess::Error(
                            CallGraphStoreError::Unavailable(reason),
                        ),
                        migrate: false,
                    }
                },
                CallGraphStoreBuildEvent::Settled => {
                    let _ = self.settle_callgraph_store_rx(generation, epoch);
                    OpsStep::Answer { access: CallgraphStoreAccess::Building, migrate: false }
                },
            },
        }
    }

    /// Ends a query that waited for a build, once what was published was opened. With a store,
    /// the paths that waited for it are handed out for replay, as far as they lie within the
    /// root: `contained` has a verdict for each of them, in order.
    pub fn ops_after_reopen(
        &mut self,
        generation: u64,
        epoch: u64,
        fulfilled_force_token: Option<u64>,
        reopened: Result<Option<StoreHandle>, CallGraphStoreError>,
        contained: &Vec<bool>,
    ) -> (end: OpsEnd)
        ensures
            ({
                let (next, access) = ops_reopened(
                    *old(self),
                    generation,
                    epoch,
                    fulfilled_force_token,
                    reopened,
                );
                &&& end.access == access
                &&& end.request_tier2_pull == access is Ready
                &&& *final(self) == (AppContext {
                    pending: PendingReconciliationState {
                        callgraph: final(self).pending.callgraph,
                        ..old(self).pending
                    },
                    ..next
                })
                &&& if access is Ready {
                    &&& end.replay.deep_view() == pending::kept_paths(
                        old(self).pending.callgraph.deep_view(),
                        contained@,
                    )
                    &&& final(self).pending.callgraph.deep_view() == Seq::<Seq<char>>::empty()
                } else {
                    &&& end.replay@.len() == 0
                    &&& final(self).pending.callgraph == old(self).pending.callgraph
                }
            }),
            pending::keeps_pending_sets(*old(self), *final(self)),
    {
        if !self.settle_callgraph_store_rx(generation, epoch) {
            let access = if self.subc_unbound_quiesced() || self.configure_generation()
                != generation {
                CallgraphStoreAccess::Unavailable
            } else {
                CallgraphStoreAccess::Building
            };
            return OpsEnd { access, replay: Vec::new(), request_tier2_pull: false };
        }
        match reopened {
            Ok(Some(store)) => {
                self.clear_callgraph_store_build_denied();
                self.callgraph.resident = Some(store);
                let replay = keep_contained(self.pending.callgraph.take_all(), contained);
                if let Some(token) = fulfilled_force_token {
                    self.fulfill_callgraph_store_force_token(token);
                }
                OpsEnd {
                    access: CallgraphStoreAccess::Ready(store),
                    replay,
                    request_tier2_pull: true,
                }
            },
            Ok(None) => OpsEnd {
                access: CallgraphStoreAccess::Building,
                replay: Vec::new(),
                request_tier2_pull: false,
            },
            Err(error) => OpsEnd {
                access: CallgraphStoreAccess::Error(error),
                replay: Vec::new(),
                request_tier2_pull: false,
            },
        }
    }

    // ---- Background builds ----

    /// Whether a build may be started, before a permit for it is acquired.
    pub fn callgraph_cold_build_admitted(&self) -> (yes: bool)
        ensures
            yes == may_spawn(*self),
    {
        self.heavy_root_work_allowed() && self.callgraph_writer()
            && !self.callgraph.receiver.present
    }

    /// Starts a build, where one may be started and a permit was had: it gets a receiver of the
    /// generation in force and a new publication.
    pub fn spawn_callgraph_store_cold_build(
        &mut self,
        work: CallgraphBackgroundWork,
        permit: bool,
    ) -> (ticket: Option<BuildTicket>)
        ensures
            if may_spawn(*old(self)) && permit {
                &&& *final(self) == with_spawned(*old(self))
                &&& ticket == Some(
                    BuildTicket {
                        generation: old(self).lifecycle.generation,
                        receiver_epoch: final(self).callgraph.receiver.epoch,
                        publication_epoch: final(self).callgraph.persist_epoch,
                        force_token: work_token(work),
                    },
                )
            } else {
                &&& *final(self) == *old(self)
                &&& ticket is None
            },
    {
        if !self.callgraph_cold_build_admitted() || !permit {
            return None;
        }
        let generation = self.configure_generation();
        let force_token = match work {
            CallgraphBackgroundWork::ForceRebuild(token) => Some(token),
            _ => None,
        };
        let receiver_epoch = self.callgraph.receiver.install(generation);
        let publication_epoch = self.next_callgraph_persist_epoch();
        self.callgraph.cold_builds_spawned = self.callgraph.cold_builds_spawned.wrapping_add(1);
        Some(BuildTicket { generation, receiver_epoch, publication_epoch, force_token })
    }

    /// Whether a started build still goes on: no newer publication was begun since.
    pub fn callgraph_publication_is_current(&self, publication_epoch: u64) -> (yes: bool)
        ensures
            yes == (self.callgraph.persist_epoch == publication_epoch),
    {
        self.callgraph.persist_epoch == publication_epoch
    }

    /// Whether what a build delivered still counts.
    pub fn callgraph_store_rx_is_current(&self, generation: u64, epoch: u64) -> (yes: bool)
        ensures
            yes == self.callgraph.receiver.awaits(self.lifecycle, generation, epoch),
    {
        self.callgraph.receiver.is_current(&self.lifecycle, generation, epoch)
    }

    /// Drops the receiver and starts a new epoch.
    pub fn retire_callgraph_store_rx(&mut self)
        ensures
            *final(self) == with_slots(
                *old(self),
                CallgraphSlots {
                    receiver: old(self).callgraph.receiver.retired(),
                    ..old(self).callgraph
                },
            ),
    {
        self.callgraph.receiver.retire();
    }

    /// Moves a build in flight to another generation; answers whether there is one.
    pub fn adopt_callgraph_store_rx_generation(&mut self, generation: u64) -> (adopted: bool)
        ensures
            adopted == old(self).callgraph.receiver.present,
            *final(self) == with_slots(
                *old(self),
                CallgraphSlots {
                    receiver: if adopted {
                        ReceiverSlot { generation, ..old(self).callgraph.receiver }
                    } else {
                        old(self).callgraph.receiver
                    },
                    ..old(self).callgraph
                },
            ),
    {
        self.callgraph.receiver.adopt(generation)
    }

    pub fn callgraph_store_rx_generation(&self) -> (generation: u64)
        ensures
            generation == self.callgraph.receiver.generation,
    {
        self.callgraph.receiver.generation
    }

    pub fn callgraph_store_rx_epoch(&self) -> (epoch: u64)
        ensures
            epoch == self.callgraph.receiver.epoch,
    {
        self.callgraph.receiver.epoch
    }

    /// Begins a new publication; every earlier one is superseded.
    pub fn next_callgraph_persist_epoch(&mut self) -> (epoch: u64)
        ensures
            epoch == lifecycle::next_count(old(self).callgraph.persist_epoch),
            *final(self) == with_slots(
                *old(self),
                CallgraphSlots { persist_epoch: epoch, ..old(self).callgraph },
            ),
    {
        self.callgraph.persist_epoch = advance(self.callgraph.persist_epoch);
        self.callgraph.persist_epoch
    }

    /// How many builds were started since the count was reset.
    pub fn callgraph_cold_build_spawn_count_for_test(&self) -> (count: usize)
        ensures
            count == self.callgraph.cold_builds_spawned,
    {
        self.callgraph.cold_builds_spawned
    }

    /// Resets the count of builds.
    pub fn reset_callgraph_cold_build_spawn_count_for_test(&mut self)
        ensures
            *final(self) == with_slots(
                *old(self),
                CallgraphSlots { cold_builds_spawned: 0, ..old(self).callgraph },
            ),
    {
        self.callgraph.cold_builds_spawned = 0;
    }

    // ---- The steps of a caller that needs the store built ----

    fn ensure_build(&mut self, force_token: Option<u64>) -> (step: EnsureStep)
        ensures
            (*final(self), step) == ensure_build_step(*old(self), force_token),
    {
        if !self.callgraph_writer() {
            return EnsureStep::Done { store: None, migrate: false };
        }
        let generation = self.configure_generation();
        if !self.lifecycle.is_current(generation) {
            return EnsureStep::Done { store: None, migrate: false };
        }
        let publication_epoch = self.next_callgraph_persist_epoch();
        EnsureStep::Build(EnsureTicket { generation, publication_epoch, force_token })
    }

    /// Starts to ensure that the store is built, where the configuration has one.
    pub fn ensure_callgraph_store(&mut self, resident_current: bool) -> (step:
        EnsureStep)
        ensures
            (*final(self), step) == ensure_begun(
                *old(self),
                true,
                resident_current,
            ),
    {
        self.ensure_callgraph_store_with_flag(true, resident_current)
    }

    /// Starts to ensure that the store is built.
    pub fn ensure_callgraph_store_with_flag(
        &mut self,
        respect_config_flag: bool,
        resident_current: bool,
    ) -> (step: EnsureStep)
        ensures
            (*final(self), step) == ensure_begun(
                *old(self),
                respect_config_flag,
                resident_current,
            ),
    {
        if respect_config_flag && !self.config.callgraph_store {
            return EnsureStep::Done { store: None, migrate: false };
        }
        if !self.heavy_root_work_allowed() {
            return EnsureStep::Done { store: None, migrate: false };
        }
        self.revalidate_callgraph_store_generation(resident_current);
        let force_token = self.pending_callgraph_store_force_token();
        if force_token.is_none() {
            if let Some(store) = self.callgraph.resident {
                let migrate = self.schedule_legacy_callgraph_migration_if_needed(store);
                return EnsureStep::Done { store: Some(store), migrate };
            }
        }
        if !self.callgraph_root_known() {
            return EnsureStep::Done { store: None, migrate: false };
        }
        if force_token.is_none() {
            return EnsureStep::OpenReadonly;
        }
        self.ensure_build(force_token)
    }

    /// Goes on once the published store was opened, or could not be.
    pub fn ensure_after_open(
        &mut self,
        opened: Result<Option<StoreHandle>, CallGraphStoreError>,
    ) -> (step: EnsureStep)
        ensures
            (*final(self), step) == ensure_opened(*old(self), opened),
    {
        match opened {
            Ok(Some(store)) => {
                self.callgraph.resident = Some(store);
                let migrate = self.schedule_legacy_callgraph_migration_if_needed(store);
                EnsureStep::Done { store: Some(store), migrate }
            },
            Ok(None) => self.ensure_build(None),
            Err(error) => EnsureStep::Failed(error),
        }
    }

    /// Ends once a synchronous build published and its store was opened, or could not be.
    pub fn ensure_after_build(
        &mut self,
        ticket: EnsureTicket,
        opened: Result<Option<StoreHandle>, CallGraphStoreError>,
    ) -> (out: Result<Option<StoreHandle>, CallGraphStoreError>)
        ensures
            (*final(self), out) == ensure_built(*old(self), ticket, opened),
    {
        match opened {
            Ok(Some(store)) => {
                if !self.lifecycle.is_current(ticket.generation)
                    || !self.callgraph_publication_is_current(ticket.publication_epoch) {
                    return Ok(None);
                }
                self.callgraph.resident = Some(store);
                if let Some(token) = ticket.force_token {
                    self.fulfill_callgraph_store_force_token(token);
                }
                Ok(Some(store))
            },
            Ok(None) => Ok(None),
            Err(error) => Err(error),
        }
    }

    // ---- Paths that wait for the store ----

    /// Notes paths that the next store that is ready takes up.
    pub fn add_pending_callgraph_store_paths(&mut self, paths: Vec<String>)
        ensures
            final(self).pending.callgraph.deep_view() == path_set::with_paths(
                old(self).platform,
                old(self).pending.callgraph.deep_view(),
                paths.deep_view(),
            ),
            *final(self) == (AppContext {
                pending: PendingReconciliationState {
                    callgraph: final(self).pending.callgraph,
                    ..old(self).pending
                },
                ..*old(self)
            }),
            pending::keeps_pending_sets(*old(self), *final(self)),
    {
        let platform = self.platform;
        self.pending.callgraph.extend(platform, paths);
    }

    /// What becomes of changed paths: without a store in the configuration, or where heavy work
    /// is off, they are of no use; where the generation is not in force they are dropped; where
    /// this process cannot write the store, or the root is not configured, they wait.
    pub fn enqueue_callgraph_store_refresh_for_generation(
        &mut self,
        paths: Vec<String>,
        generation: u64,
    ) -> (out: RefreshAdmission)
        ensures
            if paths@.len() == 0 || !old(self).config.callgraph_store || !old(self).heavy_work() {
                &&& out == RefreshAdmission::Done(true)
                &&& *final(self) == *old(self)
            } else if !old(self).lifecycle.admits(generation) {
                &&& out == RefreshAdmission::Done(false)
                &&& *final(self) == *old(self)
            } else if !old(self).role.callgraph_writer || !old(self).knows_callgraph_root() {
                &&& out == RefreshAdmission::Done(false)
                &&& final(self).pending.callgraph.deep_view() == path_set::with_paths(
                    old(self).platform,
                    old(self).pending.callgraph.deep_view(),
                    paths.deep_view(),
                )
                &&& *final(self) == (AppContext {
                    pending: PendingReconciliationState {
                        callgraph: final(self).pending.callgraph,
                        ..old(self).pending
                    },
                    ..*old(self)
                })
            } else {
                &&& out == (RefreshAdmission::Enqueue {
                    paths,
                    publication_epoch: old(self).callgraph.persist_epoch,
                })
                &&& *final(self) == *old(self)
            },
            pending::keeps_pending_sets(*old(self), *final(self)),
    {
        if paths.len() == 0 {
            return RefreshAdmission::Done(true);
        }
        if !self.config.callgraph_store || !self.heavy_root_work_allowed() {
            return RefreshAdmission::Done(true);
        }
        if !self.lifecycle.is_current(generation) {
            return RefreshAdmission::Done(false);
        }
        if !self.callgraph_writer() || !self.callgraph_root_known() {
            self.add_pending_callgraph_store_paths(paths);
            return RefreshAdmission::Done(false);
        }
        RefreshAdmission::Enqueue { paths, publication_epoch: self.callgraph.persist_epoch }
    }

    /// The same, for the generation in force.
    pub fn enqueue_callgraph_store_refresh(&mut self, paths: Vec<String>) -> (out:
        RefreshAdmission)
        ensures
            if paths@.len() == 0 || !old(self).config.callgraph_store || !old(self).heavy_work() {
                &&& out == RefreshAdmission::Done(true)
                &&& *final(self) == *old(self)
            } else if !old(self).role.callgraph_writer || !old(self).knows_callgraph_root() {
                &&& out == RefreshAdmission::Done(false)
                &&& final(self).pending.callgraph.deep_view() == path_set::with_paths(
                    old(self).platform,
                    old(self).pending.callgraph.deep_view(),
                    paths.deep_view(),
                )
                &&& *final(self) == (AppContext {
                    pending: PendingReconciliationState {
                        callgraph: final(self).pending.callgraph,
                        ..old(self).pending
                    },
                    ..*old(self)
                })
            } else {
                &&& out == (RefreshAdmission::Enqueue {
                    paths,
                    publication_epoch: old(self).callgraph.persist_epoch,
                })
                &&& *final(self) == *old(self)
            },
            pending::keeps_pending_sets(*old(self), *final(self)),
    {
        let generation = self.configure_generation();
        self.enqueue_callgraph_store_refresh_for_generation(paths, generation)
    }
}

/// Whether a step is the answer that there is a store.
pub open spec fn answers_ready(step: OpsStep) -> bool {
    step matches OpsStep::Answer { access: CallgraphStoreAccess::Ready(_), .. }
}

/// The store that a step answers with.
pub open spec fn answered_store(step: OpsStep) -> StoreHandle {
    step->access->Ready_0
}

/// A root that no route consumes, or whose heavy work is off, is answered that there is no
/// store, and nothing about it changes.
pub proof fn law_closed_root_is_unavailable(
    context: AppContext,
    resident_current: bool,
    wait: bool,
)
    requires
        !context.heavy_work(),
    ensures
        ops_begun(context, resident_current, wait) == (
            context,
            answer(CallgraphStoreAccess::Unavailable),
        ),
        ensure_begun(context, true, resident_current) == (context, no_store()),
        !may_spawn(context),
{
}

/// A query is answered with a store only where that store is resident from then on.
pub proof fn law_answered_store_is_resident(
    context: AppContext,
    resident_current: bool,
    wait: bool,
    ticket: OpsTicket,
    opened: Result<Option<StoreHandle>, CallGraphStoreError>,
    generation: u64,
    epoch: u64,
    token: Option<u64>,
)
    ensures
        ({
            let (next, step) = ops_begun(context, resident_current, wait);
            answers_ready(step) ==> next.callgraph.resident == Some(answered_store(step))
        }),
        ({
            let (next, step) = ops_opened(context, ticket, opened);
            answers_ready(step) ==> next.callgraph.resident == Some(answered_store(step))
        }),
        ({
            let (next, access) = ops_reopened(context, generation, epoch, token, opened);
            access is Ready ==> next.callgraph.resident == Some(access->Ready_0)
        }),
{
}

/// As long as a rebuild that was asked for is not done, no query is answered with the store that
/// is resident.
pub proof fn law_pending_rebuild_hides_the_resident_store(
    context: AppContext,
    resident_current: bool,
    wait: bool,
)
    requires
        pending_force(context.callgraph) is Some,
    ensures
        !answers_ready(ops_begun(context, resident_current, wait).1),
{
}

/// A refused build is reported again to every query of the same generation, as long as there is
/// no store; after a new configuration it is not.
pub proof fn law_refusal_lasts_for_its_generation(
    context: AppContext,
    reason: String,
    wait: bool,
)
    requires
        context.heavy_work(),
        context.callgraph.resident is None,
        suspension_in_force(context) is None,
    ensures
        ({
            let denied = with_slots(
                context,
                CallgraphSlots {
                    denied: Some((context.lifecycle.generation, reason)),
                    ..context.callgraph
                },
            );
            &&& ops_begun(denied, true, wait).1 == answer(
                CallgraphStoreAccess::Error(CallGraphStoreError::Unavailable(reason)),
            )
            &&& forall|generation: u64|
                generation != context.lifecycle.generation ==> denial_in_force(
                    #[trigger] reconfigured(denied, generation),
                ) is None
        }),
{
}

/// The context in another generation.
pub open spec fn reconfigured(context: AppContext, generation: u64) -> AppContext {
    AppContext {
        lifecycle: lifecycle::SubcLifecycleAdmission { generation, ..context.lifecycle },
        ..context
    }
}

/// Builds are not doubled: while one is in flight no other is started, and starting one makes
/// it the one in flight.
pub proof fn law_one_build_in_flight(context: AppContext)
    ensures
        context.callgraph.receiver.present ==> !may_spawn(context),
        !may_spawn(with_spawned(context)),
{
}

/// What a build reports is taken up only while its publication is the newest: a report of a
/// superseded one leaves the store, the refusals and the waiting paths as they were.
pub proof fn law_superseded_publication_installs_nothing(
    context: AppContext,
    generation: u64,
    epoch: u64,
    store: u64,
    token: Option<u64>,
    publication_epoch: u64,
)
    requires
        context.callgraph.persist_epoch != publication_epoch,
    ensures
        ({
            let (next, step) = ops_received(
                context,
                generation,
                epoch,
                OpsReceived::Event(
                    CallGraphStoreBuildEvent::Ready {
                        store,
                        fulfilled_force_token: token,
                        publication_epoch,
                    },
                ),
            );
            &&& step == answer(CallgraphStoreAccess::Building)
            &&& next.callgraph.resident == context.callgraph.resident
            &&& next.callgraph.force_fulfilled == context.callgraph.force_fulfilled
            &&& next.pending == context.pending
        }),
{
}

/// A build that was started before the route was lost installs nothing once it is lost.
pub proof fn law_lost_route_installs_nothing(
    context: AppContext,
    generation: u64,
    epoch: u64,
    token: Option<u64>,
    opened: Result<Option<StoreHandle>, CallGraphStoreError>,
    ticket: OpsTicket,
    built: EnsureTicket,
)
    requires
        context.lifecycle.unbound,
    ensures
        ops_reopened(context, generation, epoch, token, opened) == (
            context,
            CallgraphStoreAccess::Unavailable,
        ),
        opened matches Ok(Some(_)) ==> ops_opened(context, ticket, opened) == (
            context,
            answer(CallgraphStoreAccess::Unavailable),
        ),
        ensure_built(context, built, opened).0 == context,
{
}

/// A read-only root never starts a build, and waits for no rebuild that it cannot make.
pub proof fn law_readonly_root_never_builds(
    context: AppContext,
    ticket: OpsTicket,
    opened: Result<Option<StoreHandle>, CallGraphStoreError>,
    found: Result<Option<BuildSuspension>, CallGraphStoreError>,
)
    requires
        !context.role.callgraph_writer,
    ensures
        !may_spawn(context),
        !(ops_opened(context, ticket, opened).1 is Spawn),
        !(ops_suspension_checked(context, ticket, found).1 is Spawn),
        !(ensure_opened(context, opened).1 is Build),
{
}

/// A rebuild is done once one that was asked for no earlier is.
pub proof fn law_fulfilled_rebuild_is_no_longer_pending(slots: CallgraphSlots, token: u64)
    requires
        pending_force(slots) matches Some(requested) && token >= requested,
    ensures
        pending_force(with_fulfilled(slots, Some(token))) is None,
{
}

/// A root that may build its store and has nothing in the way of a build.
pub open spec fn ready_to_build(context: AppContext) -> bool {
    &&& may_spawn(context)
    &&& context.knows_callgraph_root()
    &&& !context.semantic.seed.active
    &&& suspension_in_force(context) is None
    &&& denial_in_force(context) is None
    &&& context.callgraph.resident is None || pending_force(context.callgraph) is Some
}

/// A query that may wait, on a root with nothing in the way, gets the store that is built for
/// it: it starts one build, takes its report up, is answered with what was published, and every
/// later query is answered with the same store. A rebuild that was asked for is done by then.
pub proof fn law_waiting_query_gets_the_built_store(
    context: AppContext,
    resident_current: bool,
    built: u64,
    store: StoreHandle,
)
    requires
        ready_to_build(context),
        !store.legacy_fallback,
    ensures
        ({
            let force_token = pending_force(context.callgraph);
            let ticket = OpsTicket {
                generation: context.lifecycle.generation,
                force_token,
                wait: true,
            };
            let (begun, first) = ops_begun(context, resident_current, true);
            let (checked, second) = ops_suspension_checked(begun, ticket, Ok(None));
            let (opened, third) = ops_opened(checked, ticket, Ok(None));
            let ready = if force_token is None {
                opened
            } else {
                checked
            };
            let work = match force_token {
                Some(token) => CallgraphBackgroundWork::ForceRebuild(token),
                None => CallgraphBackgroundWork::Ensure,
            };
            let started = with_spawned(ready);
            let receiver = started.callgraph.receiver;
            let build = BuildTicket {
                generation: receiver.generation,
                receiver_epoch: receiver.epoch,
                publication_epoch: started.callgraph.persist_epoch,
                force_token: work_token(work),
            };
            let report = build_report(build, true, Ok(Some(built)));
            let (received, fourth) = ops_received(
                started,
                receiver.generation,
                receiver.epoch,
                OpsReceived::Event(report),
            );
            let (after, access) = ops_reopened(
                received,
                receiver.generation,
                receiver.epoch,
                force_token,
                Ok(Some(store)),
            );
            &&& first == OpsStep::CheckSuspension(ticket)
            &&& force_token is None ==> second == OpsStep::OpenReadonly(ticket) && third
                == OpsStep::Spawn(ticket, work)
            &&& force_token is Some ==> second == OpsStep::Spawn(ticket, work)
            &&& may_spawn(ready)
            &&& fourth == (OpsStep::Reopen { fulfilled_force_token: force_token })
            &&& access == CallgraphStoreAccess::Ready(store)
            &&& after.callgraph.resident == Some(store)
            &&& !after.callgraph.receiver.present
            &&& pending_force(after.callgraph) is None
            &&& forall|wait: bool|
                (#[trigger] ops_begun(after, true, wait)).1 == answer(
                    CallgraphStoreAccess::Ready(store),
                )
        }),
{
}

} // verus!
