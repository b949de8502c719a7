//! What access to the callgraph store promises as a whole.

use vstd::prelude::*;

use crate::callgraph;
use crate::callgraph::{
    BuildTicket, CallGraphStoreBuildEvent, CallGraphStoreError, CallgraphBackgroundWork,
    CallgraphStoreAccess, EnsureStep, EnsureTicket, OpsReceived, OpsStep, OpsTicket,
};
use crate::context::{AppContext, BuildSuspension, CallgraphSlots, StoreHandle};

verus! {

/// Whether two contexts agree on all that a query never touches: everything but the callgraph
/// slots and the mark that a warm-up waits.
pub open spec fn differs_in_callgraph_only(before: AppContext, after: AppContext) -> bool {
    &&& after.platform == before.platform
    &&& after.config == before.config
    &&& after.harness == before.harness
    &&& after.lifecycle == before.lifecycle
    &&& after.configure == before.configure
    &&& after.role == before.role
    &&& after.search == before.search
    &&& after.semantic.resident == before.semantic.resident
    &&& after.semantic.status == before.semantic.status
    &&& after.semantic.receiver == before.semantic.receiver
    &&& after.semantic.seed.active == before.semantic.seed.active
    &&& after.semantic.seed.generation == before.semantic.seed.generation
    &&& before.semantic.seed.callgraph_warm_deferred
        ==> after.semantic.seed.callgraph_warm_deferred
    &&& after.semantic.refresh == before.semantic.refresh
    &&& after.semantic.circuit == before.semantic.circuit
    &&& after.pending == before.pending
    &&& after.status_bar == before.status_bar
    &&& after.callgraph.cold_builds_spawned == before.callgraph.cold_builds_spawned
    &&& after.callgraph.migration_summary_logged == before.callgraph.migration_summary_logged
    &&& after.callgraph.force_requested == before.callgraph.force_requested
}

/// Whether the resident reader may answer: it serves what is published, or it serves the older
/// layout while a build is in flight.
pub open spec fn reader_serves(context: AppContext, resident_current: bool) -> bool {
    &&& context.callgraph.resident is Some
    &&& resident_current || (context.callgraph.resident->0.legacy_fallback
        && context.callgraph.receiver.present)
}

/// A reader of a superseded publication never answers: after the first step of a query, or of a
/// caller that needs the store, it is gone, unless it serves the older layout while a build is in
/// flight. A reader that serves what is published stays.
pub proof fn law_superseded_reader_is_dropped(
    context: AppContext,
    resident_current: bool,
    wait: bool,
)
    requires
        context.role.heavy_root_work,
        !context.lifecycle.unbound,
    ensures
        ({
            let (next, step) = callgraph::ops_begun(context, resident_current, wait);
            let (after, ensured) = callgraph::ensure_begun(context, false, resident_current);
            let checked = callgraph::revalidated(context, resident_current);
            &&& (context.callgraph.resident matches Some(store) && !resident_current && !(
            store.legacy_fallback && context.callgraph.receiver.present)) ==> {
                &&& next.callgraph.resident is None
                &&& !callgraph::answers_ready(step)
                &&& after.callgraph.resident is None
                &&& !(ensured matches EnsureStep::Done { store: Some(_), .. })
                &&& checked.callgraph.resident is None
            }
            &&& resident_current ==> {
                &&& next.callgraph.resident == context.callgraph.resident
                &&& after.callgraph.resident == context.callgraph.resident
                &&& checked == context
            }
            &&& (context.callgraph.resident matches Some(store) && store.legacy_fallback
                && context.callgraph.receiver.present) ==> {
                &&& next.callgraph.resident == context.callgraph.resident
                &&& after.callgraph.resident == context.callgraph.resident
                &&& checked == context
            }
        }),
{
}

/// The first step of a query answers with a store exactly where a reader that may serve is
/// resident and every rebuild that was asked for is done, and then with that reader.
pub proof fn law_query_is_answered_with_the_serving_reader(
    context: AppContext,
    resident_current: bool,
    wait: bool,
)
    requires
        context.role.heavy_root_work,
        !context.lifecycle.unbound,
    ensures
        ({
            let (next, step) = callgraph::ops_begun(context, resident_current, wait);
            let (_, ensured) = callgraph::ensure_begun(context, false, resident_current);
            let serves = reader_serves(context, resident_current)
                && context.callgraph.force_requested <= context.callgraph.force_fulfilled;
            &&& callgraph::answers_ready(step) <==> serves
            &&& (ensured matches EnsureStep::Done { store: Some(_), .. }) <==> serves
            &&& serves ==> {
                &&& step->access == CallgraphStoreAccess::Ready(context.callgraph.resident->0)
                &&& ensured->Done_store == context.callgraph.resident
                &&& next.callgraph.denied is None
                &&& next.callgraph.suspension is None
            }
        }),
{
}

/// The first step of a query does what its circumstances call for: it names the suspension or
/// the refusal of its own generation, joins a build in flight where it may wait, and goes on only
/// where nothing of that holds. It touches nothing but the callgraph slots.
pub proof fn law_first_step_follows_from_the_state(
    context: AppContext,
    resident_current: bool,
    wait: bool,
)
    ensures
        ({
            let (next, step) = callgraph::ops_begun(context, resident_current, wait);
            let generation = context.lifecycle.generation;
            let open = context.role.heavy_root_work && !context.lifecycle.unbound;
            let rooted = context.role.canonical_cache_root is Some
                || context.config.project_root is Some;
            let slots = context.callgraph;
            let asked = slots.force_requested > slots.force_fulfilled;
            let served = reader_serves(context, resident_current) && !asked;
            let (suspended_in, suspension) = slots.suspension->0;
            let (denied_in, reason) = slots.denied->0;
            let suspended = slots.suspension is Some && suspended_in == generation;
            let denied = slots.denied is Some && denied_in == generation;
            let blocked = suspended || denied;
            &&& differs_in_callgraph_only(context, next)
            &&& next.callgraph.receiver == slots.receiver
            &&& next.callgraph.persist_epoch == slots.persist_epoch
            &&& next.callgraph.force_fulfilled == slots.force_fulfilled
            &&& !open ==> next == context && step == callgraph::answer(
                CallgraphStoreAccess::Unavailable,
            )
            &&& (open && !served && suspended) ==> step == callgraph::answer(
                CallgraphStoreAccess::Suspended(suspension),
            ) && next.callgraph.suspension == slots.suspension
            &&& (open && !served && !suspended) ==> next.callgraph.suspension is None
            &&& (open && !served && !suspended && denied) ==> step == callgraph::answer(
                CallgraphStoreAccess::Error(CallGraphStoreError::Unavailable(reason)),
            ) && next.callgraph.denied == slots.denied
            &&& (open && !served && !blocked) ==> next.callgraph.denied is None
            &&& (open && !served && !blocked && !rooted) ==> step == callgraph::answer(
                CallgraphStoreAccess::Unavailable,
            )
            &&& (open && !served && !blocked && rooted && slots.receiver.present && wait) ==> step
                == OpsStep::Await
            &&& (open && !served && !blocked && rooted && slots.receiver.present && !wait) ==> step
                == callgraph::answer(CallgraphStoreAccess::Building)
            &&& (open && !served && !blocked && rooted && !slots.receiver.present) ==> step
                == OpsStep::CheckSuspension(
                OpsTicket {
                    generation,
                    force_token: if asked {
                        Some(slots.force_requested)
                    } else {
                        None
                    },
                    wait,
                },
            )
        }),
{
}

/// A migration of the older layout is started with an answer exactly where this process writes
/// the store and the semantic corpus is not being collected; while it is, the migration is put
/// off and not forgotten.
pub proof fn law_older_layout_is_migrated_by_its_writer(
    context: AppContext,
    wait: bool,
    ticket: OpsTicket,
    opened: StoreHandle,
)
    requires
        context.role.heavy_root_work,
        !context.lifecycle.unbound,
        context.callgraph.force_requested <= context.callgraph.force_fulfilled,
        ticket.generation == context.lifecycle.generation,
    ensures
        ({
            let writer = context.role.callgraph_writer;
            let collecting = context.semantic.seed.active;
            let waited = context.semantic.seed.callgraph_warm_deferred;
            let (next, step) = callgraph::ops_opened(context, ticket, Ok(Some(opened)));
            let (ensured, end) = callgraph::ensure_opened(context, Ok(Some(opened)));
            &&& step->migrate == (opened.legacy_fallback && writer && !collecting)
            &&& end->migrate == (opened.legacy_fallback && writer && !collecting)
            &&& next.semantic.seed.callgraph_warm_deferred == (waited || (opened.legacy_fallback
                && writer && collecting))
            &&& ensured.semantic.seed.callgraph_warm_deferred == (waited || (opened.legacy_fallback
                && writer && collecting))
            &&& context.callgraph.resident matches Some(store) ==> {
                let (after, first) = callgraph::ops_begun(context, true, wait);
                let (_, done) = callgraph::ensure_begun(context, false, true);
                &&& first->migrate == (store.legacy_fallback && writer && !collecting)
                &&& done->migrate == (store.legacy_fallback && writer && !collecting)
                &&& after.semantic.seed.callgraph_warm_deferred == (waited || (
                store.legacy_fallback && writer && collecting))
            }
        }),
{
}

/// What is found of suspended builds decides: a suspension and an error are answered as they
/// are, without one the published store is opened, and a rebuild that was asked for is started
/// by a writer only, once the semantic corpus is collected.
pub proof fn law_suspension_check_decides(
    context: AppContext,
    ticket: OpsTicket,
    found: Result<Option<BuildSuspension>, CallGraphStoreError>,
)
    ensures
        ({
            let (next, step) = callgraph::ops_suspension_checked(context, ticket, found);
            let collecting = context.semantic.seed.active;
            let writer = context.role.callgraph_writer;
            &&& found matches Ok(Some(suspension)) ==> step == callgraph::answer(
                CallgraphStoreAccess::Suspended(suspension),
            )
            &&& found matches Err(error) ==> step == callgraph::answer(
                CallgraphStoreAccess::Error(error),
            )
            &&& (found == Ok::<Option<BuildSuspension>, CallGraphStoreError>(None)) ==> {
                &&& ticket.force_token is None ==> step == OpsStep::OpenReadonly(ticket)
                &&& ticket.force_token matches Some(token) ==> {
                    &&& !writer ==> step == callgraph::answer(CallgraphStoreAccess::Unavailable)
                    &&& writer && collecting ==> step == callgraph::answer(
                        CallgraphStoreAccess::Building,
                    )
                    &&& writer && !collecting ==> step == OpsStep::Spawn(
                        ticket,
                        CallgraphBackgroundWork::ForceRebuild(token),
                    )
                }
            }
            &&& differs_in_callgraph_only(context, next)
            &&& next.callgraph == context.callgraph
            &&& next.semantic.seed.callgraph_warm_deferred == (
            context.semantic.seed.callgraph_warm_deferred || ((found == Ok::<
                Option<BuildSuspension>,
                CallGraphStoreError,
            >(None)) && ticket.force_token is Some && writer && collecting))
        }),
{
}

/// A store that was opened answers the query where the query's generation is in force, and is
/// resident from then on. Without one, only a writer goes on: it starts a build, or leaves that
/// for later while the semantic corpus is collected.
pub proof fn law_opened_store_answers_its_own_generation(
    context: AppContext,
    ticket: OpsTicket,
    opened: Result<Option<StoreHandle>, CallGraphStoreError>,
)
    ensures
        ({
            let (next, step) = callgraph::ops_opened(context, ticket, opened);
            let in_force = !context.lifecycle.unbound && context.lifecycle.generation
                == ticket.generation;
            let collecting = context.semantic.seed.active;
            let writer = context.role.callgraph_writer;
            &&& differs_in_callgraph_only(context, next)
            &&& next.callgraph.receiver == context.callgraph.receiver
            &&& next.callgraph.persist_epoch == context.callgraph.persist_epoch
            &&& next.callgraph.force_fulfilled == context.callgraph.force_fulfilled
            &&& opened matches Ok(Some(store)) ==> {
                &&& in_force ==> {
                    &&& step matches OpsStep::Answer { access, .. }
                    &&& access == CallgraphStoreAccess::Ready(store)
                    &&& next.callgraph.resident == Some(store)
                    &&& next.callgraph.denied is None
                    &&& next.callgraph.suspension is None
                }
                &&& !in_force ==> next == context && step == callgraph::answer(
                    CallgraphStoreAccess::Unavailable,
                )
            }
            &&& !(opened matches Ok(Some(_))) ==> {
                &&& next.callgraph == context.callgraph
                &&& !writer ==> next == context && step == callgraph::answer(
                    CallgraphStoreAccess::Unavailable,
                )
                &&& writer && collecting ==> step == callgraph::answer(
                    CallgraphStoreAccess::Building,
                ) && next.semantic.seed.callgraph_warm_deferred
                &&& writer && !collecting ==> next == context && step == OpsStep::Spawn(
                    ticket,
                    match ticket.force_token {
                        Some(token) => CallgraphBackgroundWork::ForceRebuild(token),
                        None => CallgraphBackgroundWork::Ensure,
                    },
                )
            }
        }),
{
}

/// A report counts only for the receiver that was waited on; whatever comes, no store is
/// installed yet and no rebuild counts as done, and a report that ends the build clears its
/// receiver.
pub proof fn law_report_counts_for_its_receiver(
    context: AppContext,
    generation: u64,
    epoch: u64,
    received: OpsReceived,
)
    ensures
        ({
            let (next, step) = callgraph::ops_received(context, generation, epoch, received);
            let receiver = context.callgraph.receiver;
            let awaited = !context.lifecycle.unbound && context.lifecycle.generation == generation
                && receiver.present && receiver.generation == generation && receiver.epoch == epoch;
            let building = callgraph::answer(CallgraphStoreAccess::Building);
            &&& differs_in_callgraph_only(context, next)
            &&& next.semantic == context.semantic
            &&& next.callgraph.resident == context.callgraph.resident
            &&& next.callgraph.persist_epoch == context.callgraph.persist_epoch
            &&& next.callgraph.force_fulfilled == context.callgraph.force_fulfilled
            &&& next.callgraph.receiver.generation == receiver.generation
            &&& next.callgraph.receiver.epoch == receiver.epoch
            &&& !awaited ==> next == context
            &&& (received is NoReceiver || received is Timeout) ==> next == context && step
                == building
            &&& received is Disconnected ==> step == building && (awaited
                ==> !next.callgraph.receiver.present)
            &&& received matches OpsReceived::Event(CallGraphStoreBuildEvent::Settled) ==> step
                == building && (awaited ==> !next.callgraph.receiver.present)
            &&& received matches OpsReceived::Event(
                CallGraphStoreBuildEvent::Ready { fulfilled_force_token, publication_epoch, .. },
            ) ==> {
                &&& publication_epoch == context.callgraph.persist_epoch ==> next == context && step
                    == (OpsStep::Reopen { fulfilled_force_token })
                &&& publication_epoch != context.callgraph.persist_epoch ==> step == building && (
                awaited ==> !next.callgraph.receiver.present)
            }
            &&& received matches OpsReceived::Event(
                CallGraphStoreBuildEvent::Suspended { suspension },
            ) ==> {
                &&& awaited ==> {
                    &&& step == callgraph::answer(CallgraphStoreAccess::Suspended(suspension))
                    &&& next.callgraph.suspension == Some((generation, suspension))
                    &&& next.callgraph.denied == context.callgraph.denied
                    &&& !next.callgraph.receiver.present
                }
                &&& !awaited ==> step == callgraph::answer(CallgraphStoreAccess::Unavailable)
            }
            &&& received matches OpsReceived::Event(
                CallGraphStoreBuildEvent::Denied { reason },
            ) ==> {
                &&& awaited ==> {
                    &&& step == callgraph::answer(
                        CallgraphStoreAccess::Error(CallGraphStoreError::Unavailable(reason)),
                    )
                    &&& next.callgraph.denied == Some((generation, reason))
                    &&& next.callgraph.suspension == context.callgraph.suspension
                    &&& !next.callgraph.receiver.present
                }
                &&& !awaited ==> step == callgraph::answer(CallgraphStoreAccess::Unavailable)
            }
        }),
{
}

/// A suspension or a refusal that a build reported is what the next query without a store is
/// answered, until a new generation begins.
pub proof fn law_reported_refusal_answers_the_next_query(
    context: AppContext,
    generation: u64,
    epoch: u64,
    suspension: BuildSuspension,
    reason: String,
    wait: bool,
)
    requires
        context.role.heavy_root_work,
        context.callgraph.receiver.awaits(context.lifecycle, generation, epoch),
        context.callgraph.resident is None,
        context.callgraph.suspension is None,
    ensures
        ({
            let (suspended, _) = callgraph::ops_received(
                context,
                generation,
                epoch,
                OpsReceived::Event(CallGraphStoreBuildEvent::Suspended { suspension }),
            );
            let (denied, _) = callgraph::ops_received(
                context,
                generation,
                epoch,
                OpsReceived::Event(CallGraphStoreBuildEvent::Denied { reason }),
            );
            &&& callgraph::ops_begun(suspended, true, wait).1 == callgraph::answer(
                CallgraphStoreAccess::Suspended(suspension),
            )
            &&& callgraph::ops_begun(denied, true, wait).1 == callgraph::answer(
                CallgraphStoreAccess::Error(CallGraphStoreError::Unavailable(reason)),
            )
            &&& forall|later: u64|
                later != generation ==> {
                    &&& !((#[trigger] callgraph::ops_begun(
                        callgraph::reconfigured(suspended, later),
                        true,
                        wait,
                    )).1 matches OpsStep::Answer {
                        access: CallgraphStoreAccess::Suspended(_),
                        ..
                    })
                    &&& !((#[trigger] callgraph::ops_begun(
                        callgraph::reconfigured(denied, later),
                        true,
                        wait,
                    )).1 matches OpsStep::Answer { access: CallgraphStoreAccess::Error(_), .. })
                }
        }),
{
}

/// What was published is installed only for the receiver that was waited on: then it answers the
/// query, earlier refusals are forgotten, and the rebuild that it fulfils counts as done, never
/// one that was done later.
pub proof fn law_published_store_is_installed_for_its_receiver(
    context: AppContext,
    generation: u64,
    epoch: u64,
    token: Option<u64>,
    reopened: Result<Option<StoreHandle>, CallGraphStoreError>,
)
    ensures
        ({
            let (next, access) = callgraph::ops_reopened(
                context,
                generation,
                epoch,
                token,
                reopened,
            );
            let receiver = context.callgraph.receiver;
            let in_force = !context.lifecycle.unbound && context.lifecycle.generation == generation;
            let awaited = in_force && receiver.present && receiver.generation == generation
                && receiver.epoch == epoch;
            let before = context.callgraph;
            let after = next.callgraph;
            &&& differs_in_callgraph_only(context, next)
            &&& next.semantic == context.semantic
            &&& after.persist_epoch == before.persist_epoch
            &&& !in_force ==> next == context && access == CallgraphStoreAccess::Unavailable
            &&& in_force && !awaited ==> next == context && access
                == CallgraphStoreAccess::Building
            &&& awaited ==> {
                &&& !after.receiver.present
                &&& after.receiver.epoch == receiver.epoch
                &&& reopened matches Ok(Some(store)) ==> {
                    &&& access == CallgraphStoreAccess::Ready(store)
                    &&& after.resident == Some(store)
                    &&& after.denied is None
                    &&& after.suspension is None
                    &&& after.force_fulfilled >= before.force_fulfilled
                    &&& token is None ==> after.force_fulfilled == before.force_fulfilled
                    &&& token matches Some(done) ==> {
                        &&& after.force_fulfilled >= done
                        &&& after.force_fulfilled == done || after.force_fulfilled
                            == before.force_fulfilled
                    }
                }
                &&& !(reopened matches Ok(Some(_))) ==> {
                    &&& after.resident == before.resident
                    &&& after.force_fulfilled == before.force_fulfilled
                    &&& after.denied == before.denied
                    &&& after.suspension == before.suspension
                    &&& access == (match reopened {
                        Err(error) => CallgraphStoreAccess::Error(error),
                        _ => CallgraphStoreAccess::Building,
                    })
                }
            }
        }),
{
}

/// A build is started exactly where heavy work is admitted, this process writes the store and
/// none is in flight; its receiver is the one that is awaited from then on, its publication
/// supersedes every earlier one, and it is counted.
pub proof fn law_started_build_is_the_one_awaited(
    context: AppContext,
    earlier_generation: u64,
)
    ensures
        callgraph::may_spawn(context) <==> (context.role.heavy_root_work
            && !context.lifecycle.unbound && context.role.callgraph_writer
            && !context.callgraph.receiver.present),
        ({
            let started = callgraph::with_spawned(context);
            let receiver = started.callgraph.receiver;
            &&& receiver.present
            &&& receiver.generation == context.lifecycle.generation
            &&& !context.lifecycle.unbound ==> receiver.awaits(
                context.lifecycle,
                receiver.generation,
                receiver.epoch,
            )
            &&& !receiver.awaits(
                context.lifecycle,
                earlier_generation,
                context.callgraph.receiver.epoch,
            )
            &&& started.callgraph.persist_epoch != context.callgraph.persist_epoch
            &&& context.callgraph.cold_builds_spawned < usize::MAX
                ==> started.callgraph.cold_builds_spawned == context.callgraph.cold_builds_spawned
                + 1
            &&& started.callgraph.resident == context.callgraph.resident
            &&& started.callgraph.denied == context.callgraph.denied
            &&& started.callgraph.suspension == context.callgraph.suspension
            &&& started.callgraph.force_requested == context.callgraph.force_requested
            &&& started.callgraph.force_fulfilled == context.callgraph.force_fulfilled
            &&& started.pending == context.pending
            &&& started.semantic == context.semantic
            &&& started.search == context.search
            &&& started.lifecycle == context.lifecycle
            &&& started.role == context.role
        }),
{
}

/// A build reports its store exactly where it made one and its publication is still the newest,
/// with the rebuild and the publication of its ticket; a suspension is reported as it is, and a
/// refusal only where the writer could not be had.
pub proof fn law_build_reports_what_it_made(
    ticket: BuildTicket,
    publication_current: bool,
    store: u64,
    suspension: BuildSuspension,
    front: Seq<char>,
    reason: String,
)
    ensures
        callgraph::build_report(ticket, true, Ok(Some(store))) == (
        CallGraphStoreBuildEvent::Ready {
            store,
            fulfilled_force_token: ticket.force_token,
            publication_epoch: ticket.publication_epoch,
        }),
        callgraph::build_report(ticket, false, Ok(Some(store))) is Settled,
        callgraph::build_report(ticket, publication_current, Ok(None)) is Settled,
        callgraph::build_report(
            ticket,
            publication_current,
            Err(CallGraphStoreError::Suspended(suspension)),
        ) == (CallGraphStoreBuildEvent::Suspended { suspension }),
        callgraph::build_report(
            ticket,
            publication_current,
            Err(CallGraphStoreError::Superseded),
        ) is Settled,
        callgraph::build_report(
            ticket,
            publication_current,
            Err(CallGraphStoreError::Other(reason)),
        ) is Settled,
        reason@ == front + "could not acquire writer capability"@ ==> callgraph::build_report(
            ticket,
            publication_current,
            Err(CallGraphStoreError::Unavailable(reason)),
        ) == (CallGraphStoreBuildEvent::Denied { reason }),
        callgraph::build_report(
            ticket,
            publication_current,
            Err(CallGraphStoreError::Unavailable(reason)),
        ) is Denied ==> exists|start: Seq<char>|
            reason@ == #[trigger] (start + "could not acquire writer capability"@),
{
    let end = "could not acquire writer capability"@;
    if reason@ == front + end {
        assert(reason@.skip(reason@.len() - end.len()) =~= end);
    }
    if crate::text::closes_with(reason@, end) {
        let start = reason@.take(reason@.len() - end.len());
        assert(reason@ =~= start + end);
    }
}

/// A ticket carries a rebuild exactly where the work is one.
pub proof fn law_ticket_carries_its_rebuild(token: u64)
    ensures
        callgraph::work_token(CallgraphBackgroundWork::ForceRebuild(token)) == Some(token),
        callgraph::work_token(CallgraphBackgroundWork::Ensure) is None,
        callgraph::work_token(CallgraphBackgroundWork::LegacyMigration) is None,
{
}

/// A caller that needs the store built gets none where the configuration has none or heavy work
/// is off. Else it opens what is published, and where a rebuild was asked for, or nothing is
/// published, a writer builds under a new publication and nobody else does.
pub proof fn law_store_is_built_by_its_writer(
    context: AppContext,
    respect_config_flag: bool,
    resident_current: bool,
    opened: Result<Option<StoreHandle>, CallGraphStoreError>,
)
    ensures
        ({
            let (next, step) = callgraph::ensure_begun(
                context,
                respect_config_flag,
                resident_current,
            );
            let slots = context.callgraph;
            let off = (respect_config_flag && !context.config.callgraph_store)
                || !context.role.heavy_root_work || context.lifecycle.unbound;
            let rooted = context.role.canonical_cache_root is Some
                || context.config.project_root is Some;
            let asked = slots.force_requested > slots.force_fulfilled;
            let served = reader_serves(context, resident_current) && !asked;
            &&& off ==> next == context && step == (EnsureStep::Done {
                store: None,
                migrate: false,
            })
            &&& (!off && !served && !rooted) ==> step == (EnsureStep::Done {
                store: None,
                migrate: false,
            })
            &&& (!off && !served && rooted && !asked) ==> step is OpenReadonly
            &&& (!off && rooted && asked && context.role.callgraph_writer) ==> {
                &&& step == EnsureStep::Build(
                    EnsureTicket {
                        generation: context.lifecycle.generation,
                        publication_epoch: next.callgraph.persist_epoch,
                        force_token: Some(slots.force_requested),
                    },
                )
                &&& next.callgraph.persist_epoch != slots.persist_epoch
            }
            &&& (!off && asked && !context.role.callgraph_writer) ==> step == (EnsureStep::Done {
                store: None,
                migrate: false,
            })
            &&& !(step is Build) ==> next.callgraph.persist_epoch == slots.persist_epoch
            &&& differs_in_callgraph_only(context, next)
            &&& next.callgraph.receiver == slots.receiver
            &&& next.callgraph.denied == slots.denied
            &&& next.callgraph.suspension == slots.suspension
            &&& next.callgraph.force_fulfilled == slots.force_fulfilled
        }),
        ({
            let (next, step) = callgraph::ensure_opened(context, opened);
            let slots = context.callgraph;
            &&& differs_in_callgraph_only(context, next)
            &&& opened matches Ok(Some(store)) ==> {
                &&& next.callgraph.resident == Some(store)
                &&& step matches EnsureStep::Done { store: Some(found), .. }
                &&& found == store
            }
            &&& opened matches Err(error) ==> next == context && step == EnsureStep::Failed(error)
            &&& opened matches Ok(None) ==> {
                &&& next.callgraph.resident == slots.resident
                &&& (!context.role.callgraph_writer || context.lifecycle.unbound) ==> next
                    == context && step == (EnsureStep::Done { store: None, migrate: false })
                &&& (context.role.callgraph_writer && !context.lifecycle.unbound) ==> {
                    &&& step == EnsureStep::Build(
                        EnsureTicket {
                            generation: context.lifecycle.generation,
                            publication_epoch: next.callgraph.persist_epoch,
                            force_token: None,
                        },
                    )
                    &&& next.callgraph.persist_epoch != slots.persist_epoch
                }
            }
        }),
{
}

/// A store that was built synchronously is installed exactly where its generation is in force
/// and no newer publication was begun; the rebuild that it fulfils then counts as done.
pub proof fn law_built_store_is_installed_unless_superseded(
    context: AppContext,
    ticket: EnsureTicket,
    opened: Result<Option<StoreHandle>, CallGraphStoreError>,
)
    ensures
        ({
            let (next, out) = callgraph::ensure_built(context, ticket, opened);
            let before = context.callgraph;
            let after = next.callgraph;
            let counts = !context.lifecycle.unbound && context.lifecycle.generation
                == ticket.generation && before.persist_epoch == ticket.publication_epoch;
            &&& differs_in_callgraph_only(context, next)
            &&& after.receiver == before.receiver
            &&& after.persist_epoch == before.persist_epoch
            &&& opened matches Ok(Some(store)) ==> {
                &&& counts ==> {
                    &&& out == Ok::<Option<StoreHandle>, CallGraphStoreError>(Some(store))
                    &&& after.resident == Some(store)
                    &&& after.force_fulfilled >= before.force_fulfilled
                    &&& ticket.force_token is None ==> after.force_fulfilled
                        == before.force_fulfilled
                    &&& ticket.force_token matches Some(done) ==> after.force_fulfilled >= done && (
                    after.force_fulfilled == done || after.force_fulfilled
                        == before.force_fulfilled)
                }
                &&& !counts ==> next == context && out == Ok::<
                    Option<StoreHandle>,
                    CallGraphStoreError,
                >(None)
            }
            &&& !(opened matches Ok(Some(_))) ==> next == context && out == opened
        }),
{
}

/// A rebuild is pending from the moment that it is asked for until it, or a later one, is done;
/// one that was done earlier leaves it pending.
pub proof fn law_rebuild_is_pending_until_done(slots: CallgraphSlots, token: u64)
    requires
        slots.force_requested < u64::MAX,
        slots.force_fulfilled <= slots.force_requested,
    ensures
        ({
            let asked = CallgraphSlots {
                force_requested: crate::lifecycle::next_count(slots.force_requested),
                ..slots
            };
            &&& callgraph::pending_force(asked) == Some((slots.force_requested + 1) as u64)
            &&& token <= slots.force_requested ==> callgraph::pending_force(
                callgraph::with_fulfilled(asked, Some(token)),
            ) == callgraph::pending_force(asked)
            &&& token > slots.force_requested ==> callgraph::pending_force(
                callgraph::with_fulfilled(asked, Some(token)),
            ) is None
            &&& callgraph::with_fulfilled(asked, None) == asked
        }),
{
}

} // verus!
