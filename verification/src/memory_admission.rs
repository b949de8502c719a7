//! Process-wide memory admission: reservations are charged against an optional ceiling.

use vstd::prelude::*;

verus! {

/// The stored ceiling that stands for no ceiling.
pub const DISABLED_LIMIT: u64 = u64::MAX;

/// What memory is reserved for.
#[derive(Debug, Clone, Copy, PartialEq, Eq, Structural)]
pub enum MemoryAdmissionClass {
    Search,
    Semantic,
    Callgraph,
}

/// Why a request was denied.
#[derive(Debug, PartialEq, Eq)]
pub struct MemoryAdmissionError {
    pub class: MemoryAdmissionClass,
    pub root: Option<String>,
    pub requested_bytes: u64,
    pub charged_bytes: u64,
    pub limit_bytes: Option<u64>,
}

/// The model of [`MemoryAdmissionError`].
pub struct MemoryAdmissionErrorView {
    pub class: MemoryAdmissionClass,
    pub root: Option<Seq<char>>,
    pub requested_bytes: u64,
    pub charged_bytes: u64,
    pub limit_bytes: Option<u64>,
}

impl DeepView for MemoryAdmissionError {
    type V = MemoryAdmissionErrorView;

    open spec fn deep_view(&self) -> MemoryAdmissionErrorView {
        MemoryAdmissionErrorView {
            class: self.class,
            root: self.root.deep_view(),
            requested_bytes: self.requested_bytes,
            charged_bytes: self.charged_bytes,
            limit_bytes: self.limit_bytes,
        }
    }
}

impl MemoryAdmissionError {
    fn copy(&self) -> (out: MemoryAdmissionError)
        ensures
            out.deep_view() == self.deep_view(),
    {
        MemoryAdmissionError {
            class: self.class,
            root: self.root.clone(),
            requested_bytes: self.requested_bytes,
            charged_bytes: self.charged_bytes,
            limit_bytes: self.limit_bytes,
        }
    }
}

/// The state of a ledger at one moment.
#[derive(Debug, PartialEq, Eq)]
pub struct MemoryAdmissionSnapshot {
    pub limit_bytes: Option<u64>,
    pub charged_bytes: u64,
    pub peak_charged_bytes: u64,
    pub available_bytes: Option<u64>,
    pub denied_total: u64,
    pub last_denied: Option<MemoryAdmissionError>,
}

/// The ledger of reserved memory.
#[derive(Debug)]
pub struct MemoryAdmissionLedger {
    limit: u64,
    charged: u64,
    peak: u64,
    denied: u64,
    last_denied: Option<MemoryAdmissionError>,
}

/// The model of a ledger: its effective ceiling, the bytes that are charged, the most that ever
/// were, and what was denied.
pub struct LedgerView {
    pub limit: Option<u64>,
    pub charged: u64,
    pub peak: u64,
    pub denied: u64,
    pub last_denied: Option<MemoryAdmissionErrorView>,
}

/// The ceiling that a configured one amounts to: the largest number is no ceiling.
pub open spec fn effective_limit(limit_bytes: Option<u64>) -> Option<u64> {
    if limit_bytes == Some(u64::MAX) {
        None
    } else {
        limit_bytes
    }
}

/// The stored form of a ceiling.
pub fn encode_limit(limit_bytes: Option<u64>) -> (stored: u64)
    ensures
        stored == (match limit_bytes {
            Some(limit) => limit,
            None => u64::MAX,
        }),
{
    match limit_bytes {
        Some(limit) => limit,
        None => DISABLED_LIMIT,
    }
}

/// The ceiling that a stored form stands for.
pub fn decode_limit(limit_bytes: u64) -> (limit: Option<u64>)
    ensures
        limit == (if limit_bytes == u64::MAX {
            None
        } else {
            Some(limit_bytes)
        }),
{
    if limit_bytes != DISABLED_LIMIT {
        Some(limit_bytes)
    } else {
        None
    }
}

impl View for MemoryAdmissionLedger {
    type V = LedgerView;

    closed spec fn view(&self) -> LedgerView {
        LedgerView {
            limit: if self.limit == u64::MAX {
                None
            } else {
                Some(self.limit)
            },
            charged: self.charged,
            peak: self.peak,
            denied: self.denied,
            last_denied: self.last_denied.deep_view(),
        }
    }
}

/// Whether a request fits: the sum is a number, and the ceiling is not exceeded.
pub open spec fn fits(ledger: LedgerView, requested_bytes: u64) -> bool {
    &&& ledger.charged + requested_bytes <= u64::MAX
    &&& ledger.limit is Some ==> ledger.charged + requested_bytes <= ledger.limit->0
}

/// The ledger after an admitted request.
pub open spec fn charged_with(ledger: LedgerView, requested_bytes: u64) -> LedgerView {
    let charged = (ledger.charged + requested_bytes) as u64;
    LedgerView {
        charged,
        peak: if charged > ledger.peak {
            charged
        } else {
            ledger.peak
        },
        ..ledger
    }
}

/// The error that a denied request gets.
pub open spec fn denial(
    ledger: LedgerView,
    class: MemoryAdmissionClass,
    root: Option<Seq<char>>,
    requested_bytes: u64,
) -> MemoryAdmissionErrorView {
    MemoryAdmissionErrorView {
        class,
        root,
        requested_bytes,
        charged_bytes: ledger.charged,
        limit_bytes: ledger.limit,
    }
}

/// The ledger after a denied request: nothing is charged, the denial is counted and kept.
pub open spec fn denied_with(ledger: LedgerView, error: MemoryAdmissionErrorView) -> LedgerView {
    LedgerView {
        denied: if ledger.denied == u64::MAX {
            0
        } else {
            (ledger.denied + 1) as u64
        },
        last_denied: Some(error),
        ..ledger
    }
}

/// The ledger after `bytes` were given back.
pub open spec fn released_with(ledger: LedgerView, bytes: u64) -> LedgerView {
    LedgerView { charged: (ledger.charged - bytes) as u64, ..ledger }
}

/// A ledger with nothing charged.
pub open spec fn opened(limit_bytes: Option<u64>) -> LedgerView {
    LedgerView {
        limit: effective_limit(limit_bytes),
        charged: 0,
        peak: 0,
        denied: 0,
        last_denied: None,
    }
}

/// Memory that was admitted and has to be given back to its ledger.
#[derive(Debug)]
pub struct MemoryReservation {
    bytes: u64,
}

impl View for MemoryReservation {
    type V = u64;

    closed spec fn view(&self) -> u64 {
        self.bytes
    }
}

impl MemoryAdmissionLedger {
    /// A ledger with nothing charged.
    pub fn new(limit_bytes: Option<u64>) -> (ledger: Self)
        ensures
            ledger@ == opened(limit_bytes),
    {
        MemoryAdmissionLedger {
            limit: encode_limit(limit_bytes),
            charged: 0,
            peak: 0,
            denied: 0,
            last_denied: None,
        }
    }

    /// Changes the ceiling. What is charged stays charged.
    pub fn set_limit(&mut self, limit_bytes: Option<u64>)
        ensures
            final(self)@ == (LedgerView { limit: effective_limit(limit_bytes), ..old(self)@ }),
    {
        self.limit = encode_limit(limit_bytes);
    }

    /// Asks for memory on no particular root's account.
    pub fn reserve(&mut self, class: MemoryAdmissionClass, requested_bytes: u64) -> (out: Result<
        MemoryReservation,
        MemoryAdmissionError,
    >)
        ensures
            out is Ok <==> fits(old(self)@, requested_bytes),
            match out {
                Ok(reservation) => {
                    &&& reservation@ == requested_bytes
                    &&& final(self)@ == charged_with(old(self)@, requested_bytes)
                },
                Err(error) => {
                    &&& error.deep_view() == denial(old(self)@, class, None, requested_bytes)
                    &&& final(self)@ == denied_with(old(self)@, error.deep_view())
                },
            },
    {
        self.reserve_for_root(class, None, requested_bytes)
    }

    /// Asks for memory on a root's account.
    pub fn reserve_for_root(
        &mut self,
        class: MemoryAdmissionClass,
        root: Option<String>,
        requested_bytes: u64,
    ) -> (out: Result<MemoryReservation, MemoryAdmissionError>)
        ensures
            out is Ok <==> fits(old(self)@, requested_bytes),
            match out {
                Ok(reservation) => {
                    &&& reservation@ == requested_bytes
                    &&& final(self)@ == charged_with(old(self)@, requested_bytes)
                },
                Err(error) => {
                    &&& error.deep_view() == denial(
                        old(self)@,
                        class,
                        root.deep_view(),
                        requested_bytes,
                    )
                    &&& final(self)@ == denied_with(old(self)@, error.deep_view())
                },
            },
    {
        let limit = decode_limit(self.limit);
        let next: u64 = match self.charged.checked_add(requested_bytes) {
            Some(next) => next,
            None => {
                return Err(self.record_denial(class, root, requested_bytes, limit));
            },
        };
        if let Some(limit_bytes) = limit {
            if next > limit_bytes {
                return Err(self.record_denial(class, root, requested_bytes, limit));
            }
        }
        self.charged = next;
        if next > self.peak {
            self.peak = next;
        }
        Ok(MemoryReservation { bytes: requested_bytes })
    }

    /// The state of the ledger.
    pub fn snapshot(&self) -> (out: MemoryAdmissionSnapshot)
        ensures
            out.limit_bytes == self@.limit,
            out.charged_bytes == self@.charged,
            out.peak_charged_bytes == self@.peak,
            out.available_bytes == (match self@.limit {
                Some(limit) => Some(
                    (if limit > self@.charged {
                        limit - self@.charged
                    } else {
                        0
                    }) as u64,
                ),
                None => None,
            }),
            out.denied_total == self@.denied,
            out.last_denied.deep_view() == self@.last_denied,
    {
        let limit_bytes = decode_limit(self.limit);
        MemoryAdmissionSnapshot {
            limit_bytes,
            charged_bytes: self.charged,
            peak_charged_bytes: self.peak,
            available_bytes: match limit_bytes {
                Some(limit) => Some(limit.saturating_sub(self.charged)),
                None => None,
            },
            denied_total: self.denied,
            last_denied: match &self.last_denied {
                Some(error) => Some(error.copy()),
                None => None,
            },
        }
    }

    fn record_denial(
        &mut self,
        class: MemoryAdmissionClass,
        root: Option<String>,
        requested_bytes: u64,
        limit_bytes: Option<u64>,
    ) -> (error: MemoryAdmissionError)
        requires
            limit_bytes == old(self)@.limit,
        ensures
            error.deep_view() == denial(old(self)@, class, root.deep_view(), requested_bytes),
            final(self)@ == denied_with(old(self)@, error.deep_view()),
    {
        let error = MemoryAdmissionError {
            class,
            root,
            requested_bytes,
            charged_bytes: self.charged,
            limit_bytes,
        };
        self.denied = self.denied.wrapping_add(1);
        self.last_denied = Some(error.copy());
        error
    }

    /// Takes a reservation back.
    pub fn release(&mut self, reservation: MemoryReservation)
        requires
            reservation@ <= old(self)@.charged,
        ensures
            final(self)@ == released_with(old(self)@, reservation@),
    {
        self.charged = self.charged - reservation.bytes;
    }
}

/// Giving back an admitted request leaves what was charged before it; the peak remembers it.
pub proof fn law_release_undoes_reserve(ledger: LedgerView, requested_bytes: u64)
    requires
        fits(ledger, requested_bytes),
    ensures
        released_with(charged_with(ledger, requested_bytes), requested_bytes).charged
            == ledger.charged,
        charged_with(ledger, requested_bytes).peak >= ledger.charged + requested_bytes,
{
}

/// What is charged never exceeds the ceiling: an admitted, a denied and a returned request all
/// keep that.
pub proof fn law_ceiling_is_never_exceeded(
    ledger: LedgerView,
    requested_bytes: u64,
    error: MemoryAdmissionErrorView,
)
    requires
        ledger.limit is Some ==> ledger.charged <= ledger.limit->0,
    ensures
        fits(ledger, requested_bytes) && ledger.limit is Some ==> charged_with(
            ledger,
            requested_bytes,
        ).charged <= ledger.limit->0,
        denied_with(ledger, error).charged == ledger.charged,
        requested_bytes <= ledger.charged && ledger.limit is Some ==> released_with(
            ledger,
            requested_bytes,
        ).charged <= ledger.limit->0,
{
}

/// The peak is never below what is charged.
pub proof fn law_peak_covers_charge(
    ledger: LedgerView,
    requested_bytes: u64,
    error: MemoryAdmissionErrorView,
)
    requires
        ledger.charged <= ledger.peak,
    ensures
        fits(ledger, requested_bytes) ==> charged_with(ledger, requested_bytes).charged
            <= charged_with(ledger, requested_bytes).peak,
        denied_with(ledger, error).charged <= denied_with(ledger, error).peak,
        requested_bytes <= ledger.charged ==> released_with(ledger, requested_bytes).charged
            <= released_with(ledger, requested_bytes).peak,
{
}

/// One step in the life of a ledger.
pub enum LedgerStep {
    /// Memory is asked for.
    Reserve { class: MemoryAdmissionClass, root: Option<Seq<char>>, requested_bytes: u64 },
    /// The live reservation at a place is given back.
    Release { place: int },
}

/// A ledger together with the bytes of the reservations that are live.
pub struct LedgerRun {
    pub ledger: LedgerView,
    pub live: Seq<u64>,
}

/// The bytes of all reservations of a list.
pub open spec fn total_bytes(live: Seq<u64>) -> int
    decreases live.len(),
{
    if live.len() == 0 {
        0
    } else {
        total_bytes(live.drop_last()) + live.last()
    }
}

/// A run after one more step: an admitted request becomes live, a denied one is recorded, and
/// what is given back is no longer live. There is nothing to give back at a place that holds no
/// reservation.
pub open spec fn stepped(run: LedgerRun, step: LedgerStep) -> LedgerRun {
    match step {
        LedgerStep::Reserve { class, root, requested_bytes } => if fits(
            run.ledger,
            requested_bytes,
        ) {
            LedgerRun {
                ledger: charged_with(run.ledger, requested_bytes),
                live: run.live.push(requested_bytes),
            }
        } else {
            LedgerRun {
                ledger: denied_with(
                    run.ledger,
                    denial(run.ledger, class, root, requested_bytes),
                ),
                live: run.live,
            }
        },
        LedgerStep::Release { place } => if 0 <= place < run.live.len() {
            LedgerRun {
                ledger: released_with(run.ledger, run.live[place]),
                live: run.live.remove(place),
            }
        } else {
            run
        },
    }
}

/// The run of a new ledger through a list of steps.
pub open spec fn run_of(limit_bytes: Option<u64>, steps: Seq<LedgerStep>) -> LedgerRun
    decreases steps.len(),
{
    if steps.len() == 0 {
        LedgerRun { ledger: opened(limit_bytes), live: Seq::empty() }
    } else {
        stepped(run_of(limit_bytes, steps.drop_last()), steps.last())
    }
}

proof fn lemma_total_without(live: Seq<u64>, place: int)
    requires
        0 <= place < live.len(),
    ensures
        total_bytes(live.remove(place)) == total_bytes(live) - live[place],
        total_bytes(live.remove(place)) >= 0,
    decreases live.len(),
{
    lemma_total_is_no_debt(live.remove(place));
    let front = live.drop_last();
    if place == live.len() - 1 {
        assert(live.remove(place) =~= front);
    } else {
        lemma_total_without(front, place);
        assert(live.remove(place).drop_last() =~= front.remove(place));
        assert(live.remove(place).last() == live.last());
        assert(front[place] == live[place]);
    }
}

proof fn lemma_total_is_no_debt(live: Seq<u64>)
    ensures
        total_bytes(live) >= 0,
    decreases live.len(),
{
    if live.len() > 0 {
        lemma_total_is_no_debt(live.drop_last());
    }
}

/// Through any run of requests and returns, in whatever order they come, the charge is the sum of
/// the live reservations: none of them exceeds it, so each can be given back, and nothing is
/// charged once all were. Neither the charge nor the peak ever exceeds the ceiling.
pub proof fn law_charge_is_the_sum_of_live_reservations(
    limit_bytes: Option<u64>,
    steps: Seq<LedgerStep>,
)
    ensures
        ({
            let run = run_of(limit_bytes, steps);
            &&& run.ledger.charged == total_bytes(run.live)
            &&& run.ledger.limit == effective_limit(limit_bytes)
            &&& run.ledger.limit is Some ==> total_bytes(run.live) <= run.ledger.limit->0
            &&& run.ledger.limit is Some ==> run.ledger.peak <= run.ledger.limit->0
            &&& run.ledger.charged <= run.ledger.peak
            &&& forall|place: int|
                0 <= place < run.live.len() ==> #[trigger] run.live[place] <= run.ledger.charged
            &&& run.live.len() == 0 ==> run.ledger.charged == 0
        }),
    decreases steps.len(),
{
    let run = run_of(limit_bytes, steps);
    if steps.len() > 0 {
        law_charge_is_the_sum_of_live_reservations(limit_bytes, steps.drop_last());
        let before = run_of(limit_bytes, steps.drop_last());
        match steps.last() {
            LedgerStep::Reserve { requested_bytes, .. } => {
                if fits(before.ledger, requested_bytes) {
                    assert(run.live.drop_last() =~= before.live);
                }
            },
            LedgerStep::Release { place } => {
                if 0 <= place < before.live.len() {
                    lemma_total_without(before.live, place);
                }
            },
        }
    }
    assert forall|place: int| 0 <= place < run.live.len() implies #[trigger] run.live[place]
        <= run.ledger.charged by {
        lemma_total_without(run.live, place);
    }
}

/// A request is admitted exactly where the ceiling, if there is one, is not exceeded by it and the
/// sum is a number; up to the very ceiling it is. What is admitted is charged, and nothing else of
/// the ledger changes but its peak.
pub proof fn law_request_is_admitted_up_to_the_ceiling(ledger: LedgerView, requested_bytes: u64)
    ensures
        (ledger.limit is None && ledger.charged + requested_bytes <= u64::MAX) ==> fits(
            ledger,
            requested_bytes,
        ),
        (ledger.limit matches Some(limit) && ledger.charged + requested_bytes <= limit) ==> fits(
            ledger,
            requested_bytes,
        ),
        (ledger.limit matches Some(limit) && ledger.charged + requested_bytes > limit) ==> !fits(
            ledger,
            requested_bytes,
        ),
        ledger.charged + requested_bytes > u64::MAX ==> !fits(ledger, requested_bytes),
        fits(ledger, requested_bytes) ==> ({
            let after = charged_with(ledger, requested_bytes);
            &&& after.charged == ledger.charged + requested_bytes
            &&& after.peak >= ledger.peak
            &&& after.peak == ledger.peak || after.peak == after.charged
            &&& after.limit == ledger.limit
            &&& after.denied == ledger.denied
            &&& after.last_denied == ledger.last_denied
        }),
{
}

/// A denied request is counted and remembered with what it asked for, what was charged then and
/// the ceiling; the charge, the peak and the ceiling stay.
pub proof fn law_denial_is_counted_and_remembered(
    ledger: LedgerView,
    class: MemoryAdmissionClass,
    root: Option<Seq<char>>,
    requested_bytes: u64,
)
    ensures
        ({
            let error = denial(ledger, class, root, requested_bytes);
            let after = denied_with(ledger, error);
            &&& error.class == class
            &&& error.root == root
            &&& error.requested_bytes == requested_bytes
            &&& error.charged_bytes == ledger.charged
            &&& error.limit_bytes == ledger.limit
            &&& after.last_denied == Some(error)
            &&& ledger.denied < u64::MAX ==> after.denied == ledger.denied + 1
            &&& after.charged == ledger.charged
            &&& after.peak == ledger.peak
            &&& after.limit == ledger.limit
        }),
{
}

/// Giving memory back lowers the charge by as much and changes nothing else. A new ledger has
/// nothing charged, and its ceiling is the one given; the largest number is none.
pub proof fn law_release_lowers_the_charge(
    ledger: LedgerView,
    bytes: u64,
    limit_bytes: Option<u64>,
)
    requires
        bytes <= ledger.charged,
    ensures
        ({
            let after = released_with(ledger, bytes);
            &&& after.charged + bytes == ledger.charged
            &&& after.peak == ledger.peak
            &&& after.limit == ledger.limit
            &&& after.denied == ledger.denied
            &&& after.last_denied == ledger.last_denied
        }),
        ({
            let start = opened(limit_bytes);
            &&& start.charged == 0
            &&& start.peak == 0
            &&& start.denied == 0
            &&& start.last_denied is None
            &&& limit_bytes is None ==> start.limit is None
            &&& limit_bytes == Some(u64::MAX) ==> start.limit is None
            &&& (limit_bytes matches Some(limit) && limit < u64::MAX) ==> start.limit == limit_bytes
        }),
{
}

} // verus!
