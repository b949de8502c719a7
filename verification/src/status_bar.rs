//! The counts of the agent's status bar.
//!
//! A category that no scan has produced stays absent: it never turns into a zero. The numeric
//! form of the bar is derived from the truthful values and exists only once every background
//! category has one.

use vstd::prelude::*;

use crate::lifecycle;
use crate::lifecycle::advance;

verus! {

/// The numeric form of the status bar.
#[derive(Debug, Clone, Copy, PartialEq, Eq, Structural)]
pub struct StatusBarCounts {
    pub errors: usize,
    pub warnings: usize,
    pub dead_code: usize,
    pub unused_exports: usize,
    pub duplicates: usize,
    pub todos: usize,
    pub tier2_stale: bool,
}

/// Proven status values: a missing category has no trustworthy value.
#[derive(Debug, Clone, Copy, PartialEq, Eq, Structural)]
pub struct StatusBarCountValues {
    pub errors: Option<usize>,
    pub warnings: Option<usize>,
    pub dead_code: Option<usize>,
    pub unused_exports: Option<usize>,
    pub duplicates: Option<usize>,
    pub todos: Option<usize>,
    pub tier2_stale: bool,
}

/// A count, or zero.
pub open spec fn count_or_zero(count: Option<usize>) -> usize {
    match count {
        Some(count) => count,
        None => 0,
    }
}

fn or_zero(count: Option<usize>) -> (n: usize)
    ensures
        n == count_or_zero(count),
{
    match count {
        Some(count) => count,
        None => 0,
    }
}

impl StatusBarCountValues {
    /// The numeric form: there is one exactly where the three background categories have a
    /// value; a missing other category counts as zero.
    pub open spec fn projection(self) -> Option<StatusBarCounts> {
        match (self.dead_code, self.unused_exports, self.duplicates) {
            (Some(dead_code), Some(unused_exports), Some(duplicates)) => Some(
                StatusBarCounts {
                    errors: count_or_zero(self.errors),
                    warnings: count_or_zero(self.warnings),
                    dead_code,
                    unused_exports,
                    duplicates,
                    todos: count_or_zero(self.todos),
                    tier2_stale: self.tier2_stale,
                },
            ),
            _ => None,
        }
    }

    /// The numeric form of the values.
    pub fn legacy_projection(&self) -> (counts: Option<StatusBarCounts>)
        ensures
            counts == self.projection(),
    {
        match (self.dead_code, self.unused_exports, self.duplicates) {
            (Some(dead_code), Some(unused_exports), Some(duplicates)) => Some(
                StatusBarCounts {
                    errors: or_zero(self.errors),
                    warnings: or_zero(self.warnings),
                    dead_code,
                    unused_exports,
                    duplicates,
                    todos: or_zero(self.todos),
                    tier2_stale: self.tier2_stale,
                },
            ),
            _ => None,
        }
    }
}

/// A partial scan is not shown: as long as one background category has no value there is no
/// numeric form.
pub proof fn law_partial_scan_has_no_numeric_form(values: StatusBarCountValues)
    ensures
        values.projection() is Some <==> values.dead_code is Some && values.unused_exports is Some
            && values.duplicates is Some,
{
}

/// The last known counts of background scans.
#[derive(Debug, Clone, Copy, PartialEq, Eq, Structural)]
pub struct StatusBarTier2 {
    pub dead_code: Option<usize>,
    pub unused_exports: Option<usize>,
    pub duplicates: Option<usize>,
    pub todos: Option<usize>,
    pub stale: bool,
    /// Advances whenever a visible value changes.
    pub generation: u64,
    /// The last dead-code scan found no callgraph store: nothing recomputes it until there is
    /// one.
    pub dead_code_blocked_on_callgraph: bool,
}

impl StatusBarTier2 {
    /// No scan has produced anything, in a given generation.
    pub open spec fn unproven(generation: u64) -> StatusBarTier2 {
        StatusBarTier2 {
            dead_code: None,
            unused_exports: None,
            duplicates: None,
            todos: None,
            stale: false,
            generation,
            dead_code_blocked_on_callgraph: false,
        }
    }

    /// Whether any category has a value.
    pub open spec fn has_counts(self) -> bool {
        self.dead_code is Some || self.unused_exports is Some || self.duplicates is Some
            || self.todos is Some
    }

    /// The counts marked as older than the latest edit; before the first count there is nothing
    /// to mark.
    pub open spec fn marked_stale(self) -> StatusBarTier2 {
        if self.has_counts() && !self.stale {
            StatusBarTier2 {
                stale: true,
                generation: lifecycle::next_count(self.generation),
                ..self
            }
        } else {
            self
        }
    }

    /// The counts after a scan: a category without a new count keeps the one it had.
    pub open spec fn updated(
        self,
        dead_code: Option<usize>,
        unused_exports: Option<usize>,
        duplicates: Option<usize>,
        todos: Option<usize>,
        stale: bool,
    ) -> StatusBarTier2 {
        let next = StatusBarTier2 {
            dead_code: newer(dead_code, self.dead_code),
            unused_exports: newer(unused_exports, self.unused_exports),
            duplicates: newer(duplicates, self.duplicates),
            todos: newer(todos, self.todos),
            stale,
            ..self
        };
        if next == self {
            self
        } else {
            StatusBarTier2 { generation: lifecycle::next_count(self.generation), ..next }
        }
    }

    pub fn new() -> (tier2: Self)
        ensures
            tier2 == StatusBarTier2::unproven(0),
    {
        Self::empty(0)
    }

    fn empty(generation: u64) -> (tier2: Self)
        ensures
            tier2 == StatusBarTier2::unproven(generation),
    {
        StatusBarTier2 {
            dead_code: None,
            unused_exports: None,
            duplicates: None,
            todos: None,
            stale: false,
            generation,
            dead_code_blocked_on_callgraph: false,
        }
    }

    /// Forgets every count, in a new generation.
    pub fn reset(&mut self)
        ensures
            *final(self) == StatusBarTier2::unproven(lifecycle::next_count(old(self).generation)),
    {
        *self = Self::empty(advance(self.generation));
    }

    /// Marks the counts as older than the latest edit and answers whether that is visible.
    pub fn mark_stale(&mut self) -> (changed: bool)
        ensures
            *final(self) == old(self).marked_stale(),
            changed == (*final(self) != *old(self)),
    {
        if self.dead_code.is_some() || self.unused_exports.is_some() || self.duplicates.is_some()
            || self.todos.is_some() {
            let changed = !self.stale;
            self.stale = true;
            if changed {
                self.generation = advance(self.generation);
            }
            return changed;
        }
        false
    }

    /// Takes over the counts of a scan.
    pub fn update(
        &mut self,
        dead_code: Option<usize>,
        unused_exports: Option<usize>,
        duplicates: Option<usize>,
        todos: Option<usize>,
        stale: bool,
    )
        ensures
            *final(self) == old(self).updated(dead_code, unused_exports, duplicates, todos, stale),
    {
        let next = StatusBarTier2 {
            dead_code: newer_count(dead_code, self.dead_code),
            unused_exports: newer_count(unused_exports, self.unused_exports),
            duplicates: newer_count(duplicates, self.duplicates),
            todos: newer_count(todos, self.todos),
            stale,
            generation: self.generation,
            dead_code_blocked_on_callgraph: self.dead_code_blocked_on_callgraph,
        };
        let changed = !same_count(next.dead_code, self.dead_code) || !same_count(
            next.unused_exports,
            self.unused_exports,
        ) || !same_count(next.duplicates, self.duplicates) || !same_count(next.todos, self.todos)
            || next.stale != self.stale;
        if changed {
            *self = StatusBarTier2 { generation: advance(self.generation), ..next };
        }
    }
}

/// The newer of two counts, where there is one.
pub open spec fn newer(count: Option<usize>, known: Option<usize>) -> Option<usize> {
    match count {
        Some(count) => Some(count),
        None => known,
    }
}

fn newer_count(count: Option<usize>, known: Option<usize>) -> (out: Option<usize>)
    ensures
        out == newer(count, known),
{
    match count {
        Some(count) => Some(count),
        None => known,
    }
}

fn same_count(a: Option<usize>, b: Option<usize>) -> (same: bool)
    ensures
        same == (a == b),
{
    match (a, b) {
        (Some(a), Some(b)) => a == b,
        (None, None) => true,
        _ => false,
    }
}

/// A scan never turns a known count into an unknown one.
pub proof fn law_counts_are_never_lost(
    tier2: StatusBarTier2,
    dead_code: Option<usize>,
    unused_exports: Option<usize>,
    duplicates: Option<usize>,
    todos: Option<usize>,
    stale: bool,
)
    ensures
        ({
            let next = tier2.updated(dead_code, unused_exports, duplicates, todos, stale);
            &&& tier2.dead_code is Some ==> next.dead_code is Some
            &&& tier2.unused_exports is Some ==> next.unused_exports is Some
            &&& tier2.duplicates is Some ==> next.duplicates is Some
            &&& tier2.todos is Some ==> next.todos is Some
        }),
{
}

/// A generation stands for the same visible counts as long as it does not advance: a scan that
/// changes nothing keeps the generation, one that changes something leaves it.
pub proof fn law_generation_tracks_visible_counts(
    tier2: StatusBarTier2,
    dead_code: Option<usize>,
    unused_exports: Option<usize>,
    duplicates: Option<usize>,
    todos: Option<usize>,
    stale: bool,
)
    ensures
        ({
            let next = tier2.updated(dead_code, unused_exports, duplicates, todos, stale);
            next.generation == tier2.generation <==> next == tier2
        }),
        tier2.marked_stale().generation == tier2.generation <==> tier2.marked_stale() == tier2,
{
}

/// The values of an earlier reading, and the generations that they were read under.
#[derive(Debug, Clone, Copy, PartialEq, Eq, Structural)]
pub struct StatusBarCache {
    pub diagnostics_generation: u64,
    pub tier2_generation: u64,
    pub tsconfig_generation: u64,
    pub counts: StatusBarCountValues,
}

/// Remembers the numeric form that was emitted last.
#[derive(Debug, Clone, Copy, PartialEq, Eq, Structural)]
pub struct LegacyStatusBarEmission {
    pub last: Option<StatusBarCounts>,
}

impl LegacyStatusBarEmission {
    /// Whether counts differ from those emitted last; they are then the last.
    pub fn should_emit(&mut self, counts: &StatusBarCounts) -> (emit: bool)
        ensures
            emit == (old(self).last != Some(*counts)),
            final(self).last == Some(*counts),
    {
        let emitted = match &self.last {
            Some(last) => *last == *counts,
            None => false,
        };
        if emitted {
            return false;
        }
        self.last = Some(*counts);
        true
    }

    /// Forgets what was emitted.
    pub fn clear(&mut self)
        ensures
            final(self).last is None,
    {
        self.last = None;
    }
}

/// The live counts of errors and warnings, as the diagnostics store reports them.
#[derive(Debug, Clone, Copy, PartialEq, Eq, Structural)]
pub struct DiagnosticsReading {
    pub generation: u64,
    pub tsconfig_generation: u64,
    pub errors: usize,
    pub warnings: usize,
    /// A server is still warming up: the counts prove nothing.
    pub provisional: bool,
    /// Some file has a report.
    pub has_reports: bool,
}

/// The status bar of a root.
#[derive(Debug, Clone, Copy, PartialEq, Eq, Structural)]
pub struct StatusBarState {
    pub tier2: StatusBarTier2,
    /// The last values that were read.
    pub cached: Option<StatusBarCache>,
    pub last_emitted: LegacyStatusBarEmission,
}

impl StatusBarState {
    /// Whether the cached values were read under the same generations.
    pub open spec fn cache_holds(self, diagnostics_generation: u64, tsconfig_generation: u64) -> bool {
        match self.cached {
            Some(cached) => {
                &&& cached.diagnostics_generation == diagnostics_generation
                &&& cached.tier2_generation == self.tier2.generation
                &&& cached.tsconfig_generation == tsconfig_generation
            },
            None => false,
        }
    }

    /// Errors and warnings that a reading proves: a provisional one keeps the pair that was
    /// known, and without any report there is none.
    pub open spec fn proven_pair(self, reading: DiagnosticsReading) -> (Option<usize>, Option<usize>) {
        if reading.provisional {
            match self.cached {
                Some(cached) => (cached.counts.errors, cached.counts.warnings),
                None => (None, None),
            }
        } else if reading.has_reports {
            (Some(reading.errors), Some(reading.warnings))
        } else {
            (None, None)
        }
    }

    /// The values for a reading.
    pub open spec fn values(self, reading: DiagnosticsReading) -> StatusBarCountValues {
        if self.cache_holds(reading.generation, reading.tsconfig_generation) {
            self.cached->0.counts
        } else {
            let pair = self.proven_pair(reading);
            StatusBarCountValues {
                errors: pair.0,
                warnings: pair.1,
                dead_code: self.tier2.dead_code,
                unused_exports: self.tier2.unused_exports,
                duplicates: self.tier2.duplicates,
                todos: self.tier2.todos,
                tier2_stale: self.tier2.stale,
            }
        }
    }

    /// The state after a reading: its values are the cached ones.
    pub open spec fn after_reading(self, reading: DiagnosticsReading) -> StatusBarState {
        StatusBarState {
            cached: Some(
                StatusBarCache {
                    diagnostics_generation: reading.generation,
                    tier2_generation: self.tier2.generation,
                    tsconfig_generation: reading.tsconfig_generation,
                    counts: self.values(reading),
                },
            ),
            ..self
        }
    }

    pub fn new() -> (state: Self)
        ensures
            state == (StatusBarState {
                tier2: StatusBarTier2::unproven(0),
                cached: None,
                last_emitted: LegacyStatusBarEmission { last: None },
            }),
    {
        StatusBarState {
            tier2: StatusBarTier2::new(),
            cached: None,
            last_emitted: LegacyStatusBarEmission { last: None },
        }
    }

    /// The cached values, where the generations have not moved on: then no diagnostics need be
    /// counted.
    pub fn cached_values(&self, diagnostics_generation: u64, tsconfig_generation: u64) -> (values:
        Option<StatusBarCountValues>)
        ensures
            values == (if self.cache_holds(diagnostics_generation, tsconfig_generation) {
                Some(self.cached->0.counts)
            } else {
                None
            }),
    {
        match &self.cached {
            Some(cached) => {
                if cached.diagnostics_generation == diagnostics_generation
                    && cached.tier2_generation == self.tier2.generation
                    && cached.tsconfig_generation == tsconfig_generation {
                    Some(cached.counts)
                } else {
                    None
                }
            },
            None => None,
        }
    }

    /// The values for a reading of the diagnostics store.
    pub fn count_values(&mut self, reading: DiagnosticsReading) -> (values: StatusBarCountValues)
        ensures
            values == old(self).values(reading),
            *final(self) == old(self).after_reading(reading),
    {
        if let Some(values) = self.cached_values(reading.generation, reading.tsconfig_generation) {
            return values;
        }
        let (errors, warnings) = if reading.provisional {
            match &self.cached {
                Some(cached) => (cached.counts.errors, cached.counts.warnings),
                None => (None, None),
            }
        } else if reading.has_reports {
            (Some(reading.errors), Some(reading.warnings))
        } else {
            (None, None)
        };
        let counts = StatusBarCountValues {
            errors,
            warnings,
            dead_code: self.tier2.dead_code,
            unused_exports: self.tier2.unused_exports,
            duplicates: self.tier2.duplicates,
            todos: self.tier2.todos,
            tier2_stale: self.tier2.stale,
        };
        self.cached = Some(
            StatusBarCache {
                diagnostics_generation: reading.generation,
                tier2_generation: self.tier2.generation,
                tsconfig_generation: reading.tsconfig_generation,
                counts,
            },
        );
        counts
    }
}

/// Reading twice under the same generations gives the same values, whatever the second reading
/// counted.
pub proof fn law_cached_values_are_reused(
    state: StatusBarState,
    first: DiagnosticsReading,
    second: DiagnosticsReading,
)
    requires
        first.generation == second.generation,
        first.tsconfig_generation == second.tsconfig_generation,
    ensures
        state.after_reading(first).values(second) == state.values(first),
{
}

/// A warming server never overwrites errors and warnings that were proven before.
pub proof fn law_provisional_reading_keeps_the_proven_pair(
    state: StatusBarState,
    proven: DiagnosticsReading,
    warming: DiagnosticsReading,
)
    requires
        warming.provisional,
    ensures
        state.after_reading(proven).values(warming).errors == state.values(proven).errors,
        state.after_reading(proven).values(warming).warnings == state.values(proven).warnings,
{
}

/// The numeric form shows every count as it is known, and zero for a live count that is not.
pub proof fn law_numeric_form_shows_the_counts(values: StatusBarCountValues)
    ensures
        values.projection() matches Some(counts) ==> {
            &&& values.dead_code == Some(counts.dead_code)
            &&& values.unused_exports == Some(counts.unused_exports)
            &&& values.duplicates == Some(counts.duplicates)
            &&& values.errors matches Some(n) ==> counts.errors == n
            &&& values.errors is None ==> counts.errors == 0
            &&& values.warnings matches Some(n) ==> counts.warnings == n
            &&& values.warnings is None ==> counts.warnings == 0
            &&& values.todos matches Some(n) ==> counts.todos == n
            &&& values.todos is None ==> counts.todos == 0
            &&& counts.tier2_stale == values.tier2_stale
        },
{
}

/// A scan decides each category that it counted, and leaves every other as it was.
pub proof fn law_scan_decides_what_it_counted(
    tier2: StatusBarTier2,
    dead_code: Option<usize>,
    unused_exports: Option<usize>,
    duplicates: Option<usize>,
    todos: Option<usize>,
    stale: bool,
)
    ensures
        ({
            let next = tier2.updated(dead_code, unused_exports, duplicates, todos, stale);
            &&& dead_code is Some ==> next.dead_code == dead_code
            &&& dead_code is None ==> next.dead_code == tier2.dead_code
            &&& unused_exports is Some ==> next.unused_exports == unused_exports
            &&& unused_exports is None ==> next.unused_exports == tier2.unused_exports
            &&& duplicates is Some ==> next.duplicates == duplicates
            &&& duplicates is None ==> next.duplicates == tier2.duplicates
            &&& todos is Some ==> next.todos == todos
            &&& todos is None ==> next.todos == tier2.todos
            &&& next.stale == stale
            &&& next.dead_code_blocked_on_callgraph == tier2.dead_code_blocked_on_callgraph
        }),
{
}

/// An edit marks counts as stale exactly where there are any; it changes none of them.
pub proof fn law_edit_marks_known_counts_stale(tier2: StatusBarTier2)
    ensures
        ({
            let next = tier2.marked_stale();
            let counted = tier2.dead_code is Some || tier2.unused_exports is Some
                || tier2.duplicates is Some || tier2.todos is Some;
            &&& next.stale == (tier2.stale || counted)
            &&& next.dead_code == tier2.dead_code
            &&& next.unused_exports == tier2.unused_exports
            &&& next.duplicates == tier2.duplicates
            &&& next.todos == tier2.todos
            &&& next.dead_code_blocked_on_callgraph == tier2.dead_code_blocked_on_callgraph
            &&& (next.generation == tier2.generation) == (next.stale == tier2.stale)
        }),
{
}

/// Before the first scan no category has a value and nothing is stale.
pub proof fn law_nothing_is_proven_before_a_scan(generation: u64)
    ensures
        ({
            let tier2 = StatusBarTier2::unproven(generation);
            &&& tier2.dead_code is None
            &&& tier2.unused_exports is None
            &&& tier2.duplicates is None
            &&& tier2.todos is None
            &&& !tier2.stale
            &&& !tier2.dead_code_blocked_on_callgraph
            &&& tier2.generation == generation
        }),
{
}

/// Values are read anew once any generation moved on: background counts are those of the last
/// scan, and errors and warnings those of the reading, where it proves any.
pub proof fn law_values_follow_the_reading(state: StatusBarState, reading: DiagnosticsReading)
    requires
        state.cached matches Some(cached) ==> cached.diagnostics_generation != reading.generation
            || cached.tier2_generation != state.tier2.generation || cached.tsconfig_generation
            != reading.tsconfig_generation,
    ensures
        ({
            let values = state.values(reading);
            &&& values.dead_code == state.tier2.dead_code
            &&& values.unused_exports == state.tier2.unused_exports
            &&& values.duplicates == state.tier2.duplicates
            &&& values.todos == state.tier2.todos
            &&& values.tier2_stale == state.tier2.stale
            &&& (!reading.provisional && reading.has_reports) ==> values.errors == Some(
                reading.errors,
            ) && values.warnings == Some(reading.warnings)
            &&& (!reading.provisional && !reading.has_reports) ==> values.errors is None
                && values.warnings is None
            &&& (reading.provisional && state.cached is None) ==> values.errors is None
                && values.warnings is None
            &&& reading.provisional ==> (state.cached matches Some(cached) ==> values.errors
                == cached.counts.errors && values.warnings == cached.counts.warnings)
        }),
{
}

/// A reading is remembered under the generations that it was made under, and touches neither the
/// background counts nor what was emitted.
pub proof fn law_reading_is_remembered(state: StatusBarState, reading: DiagnosticsReading)
    ensures
        ({
            let after = state.after_reading(reading);
            &&& after.tier2 == state.tier2
            &&& after.last_emitted == state.last_emitted
            &&& after.cached matches Some(cached)
            &&& cached.diagnostics_generation == reading.generation
            &&& cached.tier2_generation == state.tier2.generation
            &&& cached.tsconfig_generation == reading.tsconfig_generation
            &&& cached.counts == state.values(reading)
            &&& after.cache_holds(reading.generation, reading.tsconfig_generation)
        }),
{
}

} // verus!
