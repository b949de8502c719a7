//! Reading configuration sections out of JSON.
//!
//! A section is an object, or the list of its fields in order. A field that is absent or `null`
//! is unset; a field of the wrong kind, or out of its range, makes the section unreadable.
//! Unknown keys are ignored, except where a section says that it refuses them.

use vstd::prelude::*;

use crate::config;
use crate::config::SemanticBackend;
use crate::json::{Json, JsonView};
use crate::raw::{
    RawAftConfig, RawAftConfigView, RawBackup, RawBash, RawBashFeatures, RawBridge, RawChecker,
    RawConfigureWarningsDelivery, RawEditMode, RawEditModeView, RawExperimental,
    RawExperimentalBash, RawFormatter, RawGhRead, RawGhShim, RawGhShimView, RawGit, RawGitView,
    RawIndex, RawIndexRoot, RawIndexRootView, RawIndexView, RawInspect, RawInspectDuplicates,
    RawInspectDuplicatesView, RawInspectView, RawLsp, RawLspServerEntry, RawLspServerEntryView,
    RawLspView, RawMemory, RawPythonLsp, RawSandbox, RawSandboxView, RawSemantic, RawSemanticView,
    RawSubc, RawSubcView, RawToolSurface, RawValidateOnEdit, RawWorktree,
};
use crate::text;
use crate::text_map;
use crate::text_map::TextMap;

verus! {

/// A type that can be read out of a JSON value.
pub trait Decode: Sized + DeepView {
    /// What a value reads as; `None` where it cannot be read.
    spec fn decoded(value: JsonView) -> Option<<Self as DeepView>::V>;

    fn decode(value: &Json) -> (out: Option<Self>)
        ensures
            out.deep_view() == Self::decoded(value.deep_view()),
    ;
}

/// The field of a section with the given key, or at the given place of its list form; `null`
/// where it is absent.
pub open spec fn slot_of(section: JsonView, key: Seq<char>, place: int) -> JsonView {
    match section {
        JsonView::Object(entries) => match text_map::map_get(entries, key) {
            Some(field) => field,
            None => JsonView::Null,
        },
        JsonView::List(items) => if place < items.len() {
            items[place]
        } else {
            JsonView::Null
        },
        _ => JsonView::Null,
    }
}

/// What a slot holds.
pub open spec fn given(slot: Option<&Json>) -> JsonView {
    match slot {
        Some(value) => value.deep_view(),
        None => JsonView::Null,
    }
}

pub fn slot<'a>(section: &'a Json, key: &str, place: usize) -> (out: Option<&'a Json>)
    ensures
        given(out) == slot_of(section.deep_view(), key@, place as int),
{
    match section {
        Json::Object(entries) => {
            let ghost model = section.deep_view()->Object_0;
            let mut i: usize = 0;
            assert(model.skip(0) =~= model);
            while i < entries.len()
                invariant
                    i <= entries.len(),
                    *section == Json::Object(*entries),
                    model == section.deep_view()->Object_0,
                    text_map::map_get(model, key@) == text_map::map_get(model.skip(i as int), key@),
                decreases entries.len() - i,
            {
                assert(model.skip(i as int)[0] == (
                    entries@[i as int].0@,
                    entries@[i as int].1.deep_view(),
                ));
                if text::same_text(entries[i].0.as_str(), key) {
                    return Some(&entries[i].1);
                }
                assert(model.skip(i as int).drop_first() =~= model.skip(i + 1));
                i = i + 1;
            }
            None
        },
        Json::List(items) => if place < items.len() {
            assert(section.deep_view()->List_0[place as int] == items@[place as int].deep_view());
            Some(&items[place])
        } else {
            None
        },
        _ => None,
    }
}

/// Whether a value can be a section: an object, or a list of `least` to `most` fields.
pub open spec fn shape_of(section: JsonView, least: int, most: int) -> bool {
    match section {
        JsonView::Object(_) => true,
        JsonView::List(items) => least <= items.len() <= most,
        _ => false,
    }
}

pub fn has_shape(section: &Json, least: usize, most: usize) -> (yes: bool)
    ensures
        yes == shape_of(section.deep_view(), least as int, most as int),
{
    match section {
        Json::Object(_) => true,
        Json::List(items) => least <= items.len() && items.len() <= most,
        _ => false,
    }
}

/// Whether every key of an object is a known one.
pub open spec fn all_keys_are(section: JsonView, known: spec_fn(Seq<char>) -> bool) -> bool {
    match section {
        JsonView::Object(entries) => forall|i: int|
            0 <= i < entries.len() ==> known(#[trigger] entries[i].0),
        _ => true,
    }
}

/// The name of a variant: a text, or the only key of an object whose value is `null`.
pub open spec fn tag_of(value: JsonView) -> Option<Seq<char>> {
    match value {
        JsonView::Text(name) => Some(name),
        JsonView::Object(entries) => if entries.len() == 1 && entries[0].1 is Null {
            Some(entries[0].0)
        } else {
            None
        },
        _ => None,
    }
}

pub fn tag<'a>(value: &'a Json) -> (out: Option<&'a str>)
    ensures
        out.deep_view() == tag_of(value.deep_view()),
{
    match value {
        Json::Text(name) => Some(name.as_str()),
        Json::Object(entries) => {
            if entries.len() != 1 {
                return None;
            }
            assert(value.deep_view()->Object_0[0] == (
                entries@[0].0@,
                entries@[0].1.deep_view(),
            ));
            match &entries[0].1 {
                Json::Null => Some(entries[0].0.as_str()),
                _ => None,
            }
        },
        _ => None,
    }
}

impl Decode for bool {
    open spec fn decoded(value: JsonView) -> Option<bool> {
        match value {
            JsonView::Bool(b) => Some(b),
            _ => None,
        }
    }

    fn decode(value: &Json) -> (out: Option<bool>) {
        match value {
            Json::Bool(b) => Some(*b),
            _ => None,
        }
    }
}

impl Decode for u64 {
    open spec fn decoded(value: JsonView) -> Option<u64> {
        match value {
            JsonView::Unsigned(n) => Some(n),
            _ => None,
        }
    }

    fn decode(value: &Json) -> (out: Option<u64>) {
        match value {
            Json::Unsigned(n) => Some(*n),
            _ => None,
        }
    }
}

impl Decode for String {
    open spec fn decoded(value: JsonView) -> Option<Seq<char>> {
        match value {
            JsonView::Text(t) => Some(t),
            _ => None,
        }
    }

    fn decode(value: &Json) -> (out: Option<String>) {
        match value {
            Json::Text(t) => Some(t.clone()),
            _ => None,
        }
    }
}

impl Decode for Json {
    open spec fn decoded(value: JsonView) -> Option<JsonView> {
        Some(value)
    }

    fn decode(value: &Json) -> (out: Option<Json>) {
        Some(value.copy())
    }
}

impl Decode for RawEditMode {
    open spec fn decoded(value: JsonView) -> Option<RawEditModeView> {
        match value {
            JsonView::Text(t) => Some(
                if t == "default"@ {
                    RawEditModeView::Default
                } else if t == "hashline"@ {
                    RawEditModeView::Hashline
                } else {
                    RawEditModeView::Unknown(t)
                },
            ),
            _ => None,
        }
    }

    fn decode(value: &Json) -> (out: Option<RawEditMode>) {
        match value {
            Json::Text(t) => Some(
                if text::same_text(t.as_str(), "default") {
                    RawEditMode::Default
                } else if text::same_text(t.as_str(), "hashline") {
                    RawEditMode::Hashline
                } else {
                    RawEditMode::Unknown(t.clone())
                },
            ),
            _ => None,
        }
    }
}

/// A pair of texts is a list of exactly two.
impl Decode for (String, String) {
    open spec fn decoded(value: JsonView) -> Option<(Seq<char>, Seq<char>)> {
        match value {
            JsonView::List(items) => if items.len() == 2 && items[0] is Text && items[1] is Text {
                Some((items[0]->Text_0, items[1]->Text_0))
            } else {
                None
            },
            _ => None,
        }
    }

    fn decode(value: &Json) -> (out: Option<(String, String)>) {
        match value {
            Json::List(items) => {
                if items.len() != 2 {
                    return None;
                }
                assert(value.deep_view()->List_0[0] == items@[0].deep_view());
                assert(value.deep_view()->List_0[1] == items@[1].deep_view());
                match (&items[0], &items[1]) {
                    (Json::Text(a), Json::Text(b)) => Some((a.clone(), b.clone())),
                    _ => None,
                }
            },
            _ => None,
        }
    }
}

impl<T: Decode> Decode for Vec<T> {
    open spec fn decoded(value: JsonView) -> Option<Seq<<T as DeepView>::V>> {
        match value {
            JsonView::List(items) => if forall|i: int|
                0 <= i < items.len() ==> T::decoded(#[trigger] items[i]) is Some {
                Some(Seq::new(items.len(), |i: int| T::decoded(items[i])->0))
            } else {
                None
            },
            _ => None,
        }
    }

    fn decode(value: &Json) -> (out: Option<Vec<T>>) {
        match value {
            Json::List(items) => {
                let ghost model = value.deep_view()->List_0;
                let mut out: Vec<T> = Vec::new();
                let mut i: usize = 0;
                while i < items.len()
                    invariant
                        i <= items.len(),
                        *value == Json::List(*items),
                        model == value.deep_view()->List_0,
                        out@.len() == i,
                        forall|k: int|
                            0 <= k < i ==> T::decoded(model[k]) == Some(
                                (#[trigger] out@[k]).deep_view(),
                            ),
                    decreases items.len() - i,
                {
                    assert(model[i as int] == items@[i as int].deep_view());
                    match T::decode(&items[i]) {
                        Some(item) => {
                            out.push(item);
                        },
                        None => {
                            assert(T::decoded(model[i as int]) is None);
                            return None;
                        },
                    }
                    i = i + 1;
                }
                proof {
                    assert forall|k: int| 0 <= k < model.len() implies T::decoded(
                        #[trigger] model[k],
                    ) is Some by {
                        assert(T::decoded(model[k]) == Some(out@[k].deep_view()));
                    }
                    assert(out.deep_view() =~= Seq::new(
                        model.len(),
                        |i: int| T::decoded(model[i])->0,
                    ));
                }
                Some(out)
            },
            _ => None,
        }
    }
}

/// The map that the entries of an object read as: every value has to be readable, and of two
/// equal keys the later one counts.
pub open spec fn decoded_entries<T: Decode>(entries: Seq<(Seq<char>, JsonView)>) -> Option<
    Seq<(Seq<char>, <T as DeepView>::V)>,
>
    decreases entries.len(),
{
    if entries.len() == 0 {
        Some(Seq::empty())
    } else {
        let last = entries.last();
        match (decoded_entries::<T>(entries.drop_last()), T::decoded(last.1)) {
            (Some(map), Some(value)) => Some(text_map::map_put(map, last.0, value)),
            _ => None,
        }
    }
}

proof fn lemma_unreadable_prefix<T: Decode>(entries: Seq<(Seq<char>, JsonView)>, n: int)
    requires
        0 <= n <= entries.len(),
        decoded_entries::<T>(entries.take(n)) is None,
    ensures
        decoded_entries::<T>(entries) is None,
    decreases entries.len() - n,
{
    if n < entries.len() {
        assert(entries.take(n + 1).drop_last() =~= entries.take(n));
        lemma_unreadable_prefix::<T>(entries, n + 1);
    } else {
        assert(entries.take(n) =~= entries);
    }
}

impl<T: Decode> Decode for TextMap<T> {
    open spec fn decoded(value: JsonView) -> Option<Seq<(Seq<char>, <T as DeepView>::V)>> {
        match value {
            JsonView::Object(entries) => decoded_entries::<T>(entries),
            _ => None,
        }
    }

    fn decode(value: &Json) -> (out: Option<TextMap<T>>) {
        match value {
            Json::Object(entries) => {
                let ghost model = value.deep_view()->Object_0;
                let mut out: TextMap<T> = TextMap::new();
                let mut i: usize = 0;
                while i < entries.len()
                    invariant
                        i <= entries.len(),
                        *value == Json::Object(*entries),
                        model == value.deep_view()->Object_0,
                        decoded_entries::<T>(model.take(i as int)) == Some(out.deep_view()),
                    decreases entries.len() - i,
                {
                    proof {
                        assert(model[i as int] == (
                            entries@[i as int].0@,
                            entries@[i as int].1.deep_view(),
                        ));
                        assert(model.take(i + 1).drop_last() =~= model.take(i as int));
                        assert(model.take(i + 1).last() == model[i as int]);
                    }
                    match T::decode(&entries[i].1) {
                        Some(item) => {
                            out.put(entries[i].0.clone(), item);
                        },
                        None => {
                            proof {
                                lemma_unreadable_prefix::<T>(model, i + 1);
                            }
                            return None;
                        },
                    }
                    i = i + 1;
                }
                assert(model.take(model.len() as int) =~= model);
                Some(out)
            },
            _ => None,
        }
    }
}

/// What an optional field reads as: unset where it is `null`, `None` where it is unreadable.
pub open spec fn as_optional<T: Decode>(value: JsonView) -> Option<Option<<T as DeepView>::V>> {
    if value is Null {
        Some(None)
    } else {
        match T::decoded(value) {
            Some(field) => Some(Some(field)),
            None => None,
        }
    }
}

pub fn read_optional<T: Decode>(slot: Option<&Json>) -> (out: Option<Option<T>>)
    ensures
        out.deep_view() == as_optional::<T>(given(slot)),
{
    match slot {
        None => Some(None),
        Some(Json::Null) => Some(None),
        Some(value) => match T::decode(value) {
            Some(field) => Some(Some(field)),
            None => None,
        },
    }
}

/// What the optional field of a section reads as.
#[verifier::opaque]
pub open spec fn field_of<T: Decode>(section: JsonView, key: Seq<char>, place: int) -> Option<
    Option<<T as DeepView>::V>,
> {
    as_optional::<T>(slot_of(section, key, place))
}

pub fn read_field<T: Decode>(section: &Json, key: &str, place: usize) -> (out: Option<Option<T>>)
    ensures
        out.deep_view() == field_of::<T>(section.deep_view(), key@, place as int),
{
    reveal(field_of);
    read_optional::<T>(slot(section, key, place))
}

/// An optional integer within bounds.
pub open spec fn as_bounded(value: JsonView, least: int, most: int) -> Option<Option<u64>> {
    match as_optional::<u64>(value) {
        Some(Some(n)) => if least <= n <= most {
            Some(Some(n))
        } else {
            None
        },
        other => other,
    }
}

fn read_bounded(slot: Option<&Json>, least: u64, most: u64) -> (out: Option<Option<u64>>)
    ensures
        out == as_bounded(given(slot), least as int, most as int),
{
    match read_optional::<u64>(slot) {
        Some(Some(n)) => if least <= n && n <= most {
            Some(Some(n))
        } else {
            None
        },
        Some(None) => Some(None),
        None => None,
    }
}

/// A positive integer.
pub open spec fn as_positive_u64(value: JsonView) -> Option<Option<u64>> {
    as_bounded(value, 1, u64::MAX as int)
}

pub fn read_positive_u64(slot: Option<&Json>) -> (out: Option<Option<u64>>)
    ensures
        out.deep_view() == as_positive_u64(given(slot)),
{
    read_bounded(slot, 1, u64::MAX)
}

/// A bridge deadline of at least one second.
pub open spec fn as_bridge_timeout_ms(value: JsonView) -> Option<Option<u64>> {
    as_bounded(value, 1_000, u64::MAX as int)
}

pub fn read_bridge_timeout_ms(slot: Option<&Json>) -> (out: Option<Option<u64>>)
    ensures
        out.deep_view() == as_bridge_timeout_ms(given(slot)),
{
    read_bounded(slot, 1_000, u64::MAX)
}

/// An optional integer that counts things in memory.
pub open spec fn as_bounded_usize(value: JsonView, least: int, most: int) -> Option<Option<usize>> {
    match as_bounded(value, least, most) {
        Some(Some(n)) => if n <= usize::MAX {
            Some(Some(n as usize))
        } else {
            None
        },
        Some(None) => Some(None),
        None => None,
    }
}

fn read_bounded_usize(slot: Option<&Json>, least: u64, most: u64) -> (out: Option<Option<usize>>)
    ensures
        out == as_bounded_usize(given(slot), least as int, most as int),
{
    match read_bounded(slot, least, most) {
        Some(Some(n)) => if n <= usize::MAX as u64 {
            Some(Some(n as usize))
        } else {
            None
        },
        Some(None) => Some(None),
        None => None,
    }
}

pub open spec fn as_any_usize(value: JsonView) -> Option<Option<usize>> {
    as_bounded_usize(value, 0, u64::MAX as int)
}

pub fn read_any_usize(slot: Option<&Json>) -> (out: Option<Option<usize>>)
    ensures
        out.deep_view() == as_any_usize(given(slot)),
{
    read_bounded_usize(slot, 0, u64::MAX)
}

pub open spec fn as_positive_usize(value: JsonView) -> Option<Option<usize>> {
    as_bounded_usize(value, 1, u64::MAX as int)
}

pub fn read_positive_usize(slot: Option<&Json>) -> (out: Option<Option<usize>>)
    ensures
        out.deep_view() == as_positive_usize(given(slot)),
{
    read_bounded_usize(slot, 1, u64::MAX)
}

/// How many items a drill-down lists: 1 to 100.
pub open spec fn as_drill_down_items(value: JsonView) -> Option<Option<usize>> {
    as_bounded_usize(value, 1, 100)
}

pub fn read_drill_down_items(slot: Option<&Json>) -> (out: Option<Option<usize>>)
    ensures
        out.deep_view() == as_drill_down_items(given(slot)),
{
    read_bounded_usize(slot, 1, 100)
}

/// A subprocess deadline: 1 to 600 seconds.
pub open spec fn as_timeout_secs(value: JsonView) -> Option<Option<u32>> {
    match as_bounded(value, 1, 600) {
        Some(Some(n)) => Some(Some(n as u32)),
        Some(None) => Some(None),
        None => None,
    }
}

pub fn read_timeout_secs(slot: Option<&Json>) -> (out: Option<Option<u32>>)
    ensures
        out.deep_view() == as_timeout_secs(given(slot)),
{
    match read_bounded(slot, 1, 600) {
        Some(Some(n)) => Some(Some(n as u32)),
        Some(None) => Some(None),
        None => None,
    }
}

/// Whether the text of a number stands for one below zero: it has a minus sign, and a digit
/// other than zero before its exponent.
pub open spec fn is_below_zero(number: Seq<char>) -> bool {
    &&& number.len() > 0
    &&& number[0] == '-'
    &&& exists|i: int|
        0 <= i < number.len() && '1' <= #[trigger] number[i] <= '9' && forall|k: int|
            0 <= k < i ==> number[k] != 'e' && number[k] != 'E'
}

fn below_zero(number: &str) -> (yes: bool)
    ensures
        yes == is_below_zero(number@),
{
    let chars = text::chars_of(number);
    if chars.len() == 0 || chars[0] != '-' {
        return false;
    }
    let mut i: usize = 0;
    while i < chars.len()
        invariant
            i <= chars.len(),
            chars@ == number@,
            chars@.len() > 0,
            chars@[0] == '-',
            forall|k: int|
                0 <= k < i ==> chars@[k] != 'e' && chars@[k] != 'E' && !('1' <= chars@[k] <= '9'),
        decreases chars.len() - i,
    {
        let c = chars[i];
        if '1' <= c && c <= '9' {
            assert('1' <= number@[i as int] <= '9');
            return true;
        }
        if c == 'e' || c == 'E' {
            return false;
        }
        i = i + 1;
    }
    false
}

/// A number that is not below zero, as it is written.
pub open spec fn as_nonnegative_number(value: JsonView) -> Option<Option<JsonView>> {
    match value {
        JsonView::Null => Some(None),
        JsonView::Unsigned(_) => Some(Some(value)),
        JsonView::Float(number) => if is_below_zero(number) {
            None
        } else {
            Some(Some(value))
        },
        _ => None,
    }
}

pub fn read_nonnegative_number(slot: Option<&Json>) -> (out: Option<Option<Json>>)
    ensures
        out.deep_view() == as_nonnegative_number(given(slot)),
{
    match slot {
        None => Some(None),
        Some(Json::Null) => Some(None),
        Some(Json::Unsigned(n)) => Some(Some(Json::Unsigned(*n))),
        Some(Json::Float(number)) => if below_zero(number.as_str()) {
            None
        } else {
            Some(Some(Json::Float(number.clone())))
        },
        _ => None,
    }
}

/// A text with something in it, trimmed.
pub open spec fn as_trimmed_text(value: JsonView) -> Option<Option<Seq<char>>> {
    match as_optional::<String>(value) {
        Some(Some(t)) => if text::trimmed(t).len() > 0 {
            Some(Some(text::trimmed(t)))
        } else {
            None
        },
        other => other,
    }
}

pub fn read_trimmed_text(slot: Option<&Json>) -> (out: Option<Option<String>>)
    ensures
        out.deep_view() == as_trimmed_text(given(slot)),
{
    match read_optional::<String>(slot) {
        Some(Some(t)) => {
            let trimmed = text::trim(t.as_str());
            if trimmed.as_str().is_empty() {
                None
            } else {
                Some(Some(trimmed))
            }
        },
        Some(None) => Some(None),
        None => None,
    }
}

/// A co-author, normalized.
pub open spec fn as_co_author(value: JsonView) -> Option<Option<Seq<char>>> {
    match as_optional::<String>(value) {
        Some(Some(t)) => match config::co_author(t) {
            Some(normal) => Some(Some(normal)),
            None => None,
        },
        other => other,
    }
}

pub fn read_co_author(slot: Option<&Json>) -> (out: Option<Option<String>>)
    ensures
        out.deep_view() == as_co_author(given(slot)),
{
    match read_optional::<String>(slot) {
        Some(Some(t)) => match config::normalize_git_co_author(t.as_str()) {
            Some(normal) => Some(Some(normal)),
            None => None,
        },
        Some(None) => Some(None),
        None => None,
    }
}

/// The texts of a list, each trimmed; every one has to have something in it.
pub open spec fn as_trimmed_texts(value: JsonView) -> Option<Option<Seq<Seq<char>>>> {
    match as_optional::<Vec<String>>(value) {
        Some(Some(texts)) => if forall|i: int|
            0 <= i < texts.len() ==> text::trimmed(#[trigger] texts[i]).len() > 0 {
            Some(Some(Seq::new(texts.len(), |i: int| text::trimmed(texts[i]))))
        } else {
            None
        },
        other => other,
    }
}

pub fn read_trimmed_texts(slot: Option<&Json>) -> (out: Option<Option<Vec<String>>>)
    ensures
        out.deep_view() == as_trimmed_texts(given(slot)),
{
    let texts = match read_optional::<Vec<String>>(slot) {
        Some(Some(texts)) => texts,
        Some(None) => {
            return Some(None);
        },
        None => {
            return None;
        },
    };
    let ghost model = texts.deep_view();
    let mut out: Vec<String> = Vec::new();
    let mut i: usize = 0;
    while i < texts.len()
        invariant
            i <= texts.len(),
            model == texts.deep_view(),
            as_optional::<Vec<String>>(given(slot)) == Some(Some(model)),
            out@.len() == i,
            forall|k: int| 0 <= k < i ==> text::trimmed(#[trigger] model[k]).len() > 0,
            forall|k: int| 0 <= k < i ==> out@[k]@ == text::trimmed(#[trigger] model[k]),
        decreases texts.len() - i,
    {
        assert(model[i as int] == texts@[i as int]@);
        let trimmed = text::trim(texts[i].as_str());
        if trimmed.as_str().is_empty() {
            assert(text::trimmed(model[i as int]).len() == 0);
            return None;
        }
        assert(text::trimmed(model[i as int]).len() > 0);
        out.push(trimmed);
        i = i + 1;
    }
    proof {
        assert(out.deep_view() =~= Seq::new(model.len(), |i: int| text::trimmed(model[i])));
    }
    Some(Some(out))
}

/// File extensions: at least one, each with a character besides its leading dots.
pub open spec fn as_extensions(value: JsonView) -> Option<Option<Seq<Seq<char>>>> {
    match as_trimmed_texts(value) {
        Some(Some(texts)) => if texts.len() > 0 && forall|i: int|
            0 <= i < texts.len() ==> text::without_leading_dots(#[trigger] texts[i]).len() > 0 {
            Some(Some(texts))
        } else {
            None
        },
        other => other,
    }
}

pub fn read_extensions(slot: Option<&Json>) -> (out: Option<Option<Vec<String>>>)
    ensures
        out.deep_view() == as_extensions(given(slot)),
{
    let texts = match read_trimmed_texts(slot) {
        Some(Some(texts)) => texts,
        Some(None) => {
            return Some(None);
        },
        None => {
            return None;
        },
    };
    if texts.len() == 0 {
        return None;
    }
    let ghost model = texts.deep_view();
    let mut i: usize = 0;
    while i < texts.len()
        invariant
            i <= texts.len(),
            model == texts.deep_view(),
            model.len() > 0,
            as_trimmed_texts(given(slot)) == Some(Some(model)),
            forall|k: int|
                0 <= k < i ==> text::without_leading_dots(#[trigger] model[k]).len() > 0,
        decreases texts.len() - i,
    {
        assert(model[i as int] == texts@[i as int]@);
        if text::strip_leading_dots(texts[i].as_str()).as_str().is_empty() {
            assert(text::without_leading_dots(model[i as int]).len() == 0);
            return None;
        }
        i = i + 1;
    }
    Some(Some(texts))
}

impl Decode for SemanticBackend {
    open spec fn decoded(value: JsonView) -> Option<SemanticBackend> {
        match tag_of(value) {
            Some(name) => SemanticBackend::named(name),
            None => None,
        }
    }

    fn decode(value: &Json) -> (out: Option<SemanticBackend>) {
        match tag(value) {
            Some(name) => SemanticBackend::from_name(name),
            None => None,
        }
    }
}

impl Decode for RawValidateOnEdit {
    open spec fn decoded(value: JsonView) -> Option<RawValidateOnEdit> {
        match tag_of(value) {
            Some(name) => RawValidateOnEdit::named(name),
            None => None,
        }
    }

    fn decode(value: &Json) -> (out: Option<RawValidateOnEdit>) {
        match tag(value) {
            Some(name) => RawValidateOnEdit::from_name(name),
            None => None,
        }
    }
}

impl Decode for RawFormatter {
    open spec fn decoded(value: JsonView) -> Option<RawFormatter> {
        match tag_of(value) {
            Some(name) => RawFormatter::named(name),
            None => None,
        }
    }

    fn decode(value: &Json) -> (out: Option<RawFormatter>) {
        match tag(value) {
            Some(name) => RawFormatter::from_name(name),
            None => None,
        }
    }
}

impl Decode for RawChecker {
    open spec fn decoded(value: JsonView) -> Option<RawChecker> {
        match tag_of(value) {
            Some(name) => RawChecker::named(name),
            None => None,
        }
    }

    fn decode(value: &Json) -> (out: Option<RawChecker>) {
        match tag(value) {
            Some(name) => RawChecker::from_name(name),
            None => None,
        }
    }
}

impl Decode for RawConfigureWarningsDelivery {
    open spec fn decoded(value: JsonView) -> Option<RawConfigureWarningsDelivery> {
        match tag_of(value) {
            Some(name) => RawConfigureWarningsDelivery::named(name),
            None => None,
        }
    }

    fn decode(value: &Json) -> (out: Option<RawConfigureWarningsDelivery>) {
        match tag(value) {
            Some(name) => RawConfigureWarningsDelivery::from_name(name),
            None => None,
        }
    }
}

impl Decode for RawToolSurface {
    open spec fn decoded(value: JsonView) -> Option<RawToolSurface> {
        match tag_of(value) {
            Some(name) => RawToolSurface::named(name),
            None => None,
        }
    }

    fn decode(value: &Json) -> (out: Option<RawToolSurface>) {
        match tag(value) {
            Some(name) => RawToolSurface::from_name(name),
            None => None,
        }
    }
}

impl Decode for RawPythonLsp {
    open spec fn decoded(value: JsonView) -> Option<RawPythonLsp> {
        match tag_of(value) {
            Some(name) => RawPythonLsp::named(name),
            None => None,
        }
    }

    fn decode(value: &Json) -> (out: Option<RawPythonLsp>) {
        match tag(value) {
            Some(name) => RawPythonLsp::from_name(name),
            None => None,
        }
    }
}

impl Decode for RawMemory {
    open spec fn decoded(value: JsonView) -> Option<RawMemory> {
        let limit_bytes = as_positive_u64(slot_of(value, "limit_bytes"@, 0));
        if shape_of(value, 0, 1) && all_keys_are(value, |key: Seq<char>| is_memory_key(key)) && limit_bytes is Some {
            Some(
                RawMemory {
                    limit_bytes: limit_bytes->0,
                },
            )
        } else {
            None
        }
    }

    fn decode(value: &Json) -> (out: Option<RawMemory>) {
        if !has_shape(value, 0, 1) {
            return None;
        }
        if !memory_keys_known(value) {
            return None;
        }
        let limit_bytes = match read_positive_u64(slot(value, "limit_bytes", 0)) {
            Some(field) => field,
            None => {
                return None;
            },
        };
        Some(
            RawMemory {
                limit_bytes,
            },
        )
    }
}

/// The keys of the section.
pub open spec fn is_memory_key(key: Seq<char>) -> bool {
    ||| key == "limit_bytes"@
}

fn memory_key(key: &str) -> (yes: bool)
    ensures
        yes == is_memory_key(key@),
{
    text::same_text(key, "limit_bytes")
}

fn memory_keys_known(value: &Json) -> (yes: bool)
    ensures
        yes == all_keys_are(value.deep_view(), |key: Seq<char>| is_memory_key(key)),
{
    let ghost known = |key: Seq<char>| is_memory_key(key);
    match value {
        Json::Object(entries) => {
            let ghost model = value.deep_view()->Object_0;
            let mut i: usize = 0;
            while i < entries.len()
                invariant
                    i <= entries.len(),
                    *value == Json::Object(*entries),
                    model == value.deep_view()->Object_0,
                    known == (|key: Seq<char>| is_memory_key(key)),
                    forall|k: int| 0 <= k < i ==> is_memory_key(#[trigger] model[k].0),
                decreases entries.len() - i,
            {
                assert(model[i as int].0 == entries@[i as int].0@);
                if !memory_key(entries[i].0.as_str()) {
                    assert(!known(model[i as int].0));
                    return false;
                }
                i = i + 1;
            }
            true
        },
        _ => true,
    }
}

impl Decode for RawSemantic {
    open spec fn decoded(value: JsonView) -> Option<RawSemanticView> {
        let backend = field_of::<SemanticBackend>(value, "backend"@, 0);
        let model = as_trimmed_text(slot_of(value, "model"@, 1));
        let base_url = as_trimmed_text(slot_of(value, "base_url"@, 2));
        let api_key_env = as_trimmed_text(slot_of(value, "api_key_env"@, 3));
        let timeout_ms = as_positive_u64(slot_of(value, "timeout_ms"@, 4));
        let query_timeout_ms = as_positive_u64(slot_of(value, "query_timeout_ms"@, 5));
        let max_batch_size = as_positive_usize(slot_of(value, "max_batch_size"@, 6));
        let max_files = as_positive_usize(slot_of(value, "max_files"@, 7));
        if shape_of(value, 1, 8) && backend is Some && model is Some && base_url is Some && api_key_env is Some && timeout_ms is Some && query_timeout_ms is Some && max_batch_size is Some && max_files is Some {
            Some(
                RawSemanticView {
                    backend: backend->0,
                    model: model->0,
                    base_url: base_url->0,
                    api_key_env: api_key_env->0,
                    timeout_ms: timeout_ms->0,
                    query_timeout_ms: query_timeout_ms->0,
                    max_batch_size: max_batch_size->0,
                    max_files: max_files->0,
                },
            )
        } else {
            None
        }
    }

    fn decode(value: &Json) -> (out: Option<RawSemantic>) {
        if !has_shape(value, 1, 8) {
            return None;
        }
        let backend = match read_field::<SemanticBackend>(value, "backend", 0) {
            Some(field) => field,
            None => {
                return None;
            },
        };
        let model = match read_trimmed_text(slot(value, "model", 1)) {
            Some(field) => field,
            None => {
                return None;
            },
        };
        let base_url = match read_trimmed_text(slot(value, "base_url", 2)) {
            Some(field) => field,
            None => {
                return None;
            },
        };
        let api_key_env = match read_trimmed_text(slot(value, "api_key_env", 3)) {
            Some(field) => field,
            None => {
                return None;
            },
        };
        let timeout_ms = match read_positive_u64(slot(value, "timeout_ms", 4)) {
            Some(field) => field,
            None => {
                return None;
            },
        };
        let query_timeout_ms = match read_positive_u64(slot(value, "query_timeout_ms", 5)) {
            Some(field) => field,
            None => {
                return None;
            },
        };
        let max_batch_size = match read_positive_usize(slot(value, "max_batch_size", 6)) {
            Some(field) => field,
            None => {
                return None;
            },
        };
        let max_files = match read_positive_usize(slot(value, "max_files", 7)) {
            Some(field) => field,
            None => {
                return None;
            },
        };
        Some(
            RawSemantic {
                backend,
                model,
                base_url,
                api_key_env,
                timeout_ms,
                query_timeout_ms,
                max_batch_size,
                max_files,
            },
        )
    }
}

impl Decode for RawLspServerEntry {
    open spec fn decoded(value: JsonView) -> Option<RawLspServerEntryView> {
        let extensions = as_extensions(slot_of(value, "extensions"@, 0));
        let binary = as_trimmed_text(slot_of(value, "binary"@, 1));
        let args = field_of::<Vec<String>>(value, "args"@, 2);
        let root_markers = as_trimmed_texts(slot_of(value, "root_markers"@, 3));
        let disabled = field_of::<bool>(value, "disabled"@, 4);
        let env = field_of::<TextMap<String>>(value, "env"@, 5);
        let initialization_options = field_of::<Json>(value, "initialization_options"@, 6);
        if shape_of(value, 0, 7) && extensions is Some && binary is Some && args is Some && root_markers is Some && disabled is Some && env is Some && initialization_options is Some {
            Some(
                RawLspServerEntryView {
                    extensions: extensions->0,
                    binary: binary->0,
                    args: args->0,
                    root_markers: root_markers->0,
                    disabled: disabled->0,
                    env: env->0,
                    initialization_options: initialization_options->0,
                },
            )
        } else {
            None
        }
    }

    fn decode(value: &Json) -> (out: Option<RawLspServerEntry>) {
        if !has_shape(value, 0, 7) {
            return None;
        }
        let extensions = match read_extensions(slot(value, "extensions", 0)) {
            Some(field) => field,
            None => {
                return None;
            },
        };
        let binary = match read_trimmed_text(slot(value, "binary", 1)) {
            Some(field) => field,
            None => {
                return None;
            },
        };
        let args = match read_field::<Vec<String>>(value, "args", 2) {
            Some(field) => field,
            None => {
                return None;
            },
        };
        let root_markers = match read_trimmed_texts(slot(value, "root_markers", 3)) {
            Some(field) => field,
            None => {
                return None;
            },
        };
        let disabled = match read_field::<bool>(value, "disabled", 4) {
            Some(field) => field,
            None => {
                return None;
            },
        };
        let env = match read_field::<TextMap<String>>(value, "env", 5) {
            Some(field) => field,
            None => {
                return None;
            },
        };
        let initialization_options = match read_field::<Json>(value, "initialization_options", 6) {
            Some(field) => field,
            None => {
                return None;
            },
        };
        Some(
            RawLspServerEntry {
                extensions,
                binary,
                args,
                root_markers,
                disabled,
                env,
                initialization_options,
            },
        )
    }
}

/// The servers of an object, each under its trimmed id; an id has to have something in it.
pub open spec fn decoded_servers(entries: Seq<(Seq<char>, RawLspServerEntryView)>) -> Option<
    Seq<(Seq<char>, RawLspServerEntryView)>,
>
    decreases entries.len(),
{
    if entries.len() == 0 {
        Some(Seq::empty())
    } else {
        let last = entries.last();
        match decoded_servers(entries.drop_last()) {
            Some(map) => if text::trimmed(last.0).len() > 0 {
                Some(text_map::map_put(map, text::trimmed(last.0), last.1))
            } else {
                None
            },
            None => None,
        }
    }
}

proof fn lemma_bad_server_prefix(entries: Seq<(Seq<char>, RawLspServerEntryView)>, n: int)
    requires
        0 <= n <= entries.len(),
        decoded_servers(entries.take(n)) is None,
    ensures
        decoded_servers(entries) is None,
    decreases entries.len() - n,
{
    if n < entries.len() {
        assert(entries.take(n + 1).drop_last() =~= entries.take(n));
        lemma_bad_server_prefix(entries, n + 1);
    } else {
        assert(entries.take(n) =~= entries);
    }
}

pub open spec fn as_servers(value: JsonView) -> Option<
    Option<Seq<(Seq<char>, RawLspServerEntryView)>>,
> {
    match as_optional::<TextMap<RawLspServerEntry>>(value) {
        Some(Some(entries)) => match decoded_servers(entries) {
            Some(map) => Some(Some(map)),
            None => None,
        },
        other => other,
    }
}

pub fn read_servers(slot: Option<&Json>) -> (out: Option<Option<TextMap<RawLspServerEntry>>>)
    ensures
        out.deep_view() == as_servers(given(slot)),
{
    let found = match read_optional::<TextMap<RawLspServerEntry>>(slot) {
        Some(Some(found)) => found,
        Some(None) => {
            return Some(None);
        },
        None => {
            return None;
        },
    };
    let ghost model = found.deep_view();
    let entries = found.entries;
    let ghost all = entries@;
    let mut out: TextMap<RawLspServerEntry> = TextMap::new();
    for entry in iter: entries
        invariant
            iter.seq() == all,
            as_optional::<TextMap<RawLspServerEntry>>(given(slot)) == Some(Some(model)),
            model.len() == all.len(),
            forall|k: int| 0 <= k < all.len() ==> #[trigger] model[k] == all[k].deep_view(),
            decoded_servers(model.take(iter.index() as int)) == Some(out.deep_view()),
    {
        let ghost i = iter.index() as int;
        proof {
            assert(model[i] == entry.deep_view());
            assert(model.take(i + 1).drop_last() =~= model.take(i));
            assert(model.take(i + 1).last() == model[i]);
        }
        let (id, server) = entry;
        let trimmed = text::trim(id.as_str());
        if trimmed.as_str().is_empty() {
            proof {
                lemma_bad_server_prefix(model, i + 1);
            }
            return None;
        }
        out.put(trimmed, server);
    }
    assert(model.take(model.len() as int) =~= model);
    Some(Some(out))
}

/// Pinned versions by trimmed name; names and versions have to have something in them.
pub open spec fn decoded_versions(entries: Seq<(Seq<char>, Seq<char>)>) -> Option<
    Seq<(Seq<char>, Seq<char>)>,
>
    decreases entries.len(),
{
    if entries.len() == 0 {
        Some(Seq::empty())
    } else {
        let last = entries.last();
        match decoded_versions(entries.drop_last()) {
            Some(map) => if text::trimmed(last.0).len() > 0 && text::trimmed(last.1).len() > 0 {
                Some(text_map::map_put(map, text::trimmed(last.0), text::trimmed(last.1)))
            } else {
                None
            },
            None => None,
        }
    }
}

proof fn lemma_bad_version_prefix(entries: Seq<(Seq<char>, Seq<char>)>, n: int)
    requires
        0 <= n <= entries.len(),
        decoded_versions(entries.take(n)) is None,
    ensures
        decoded_versions(entries) is None,
    decreases entries.len() - n,
{
    if n < entries.len() {
        assert(entries.take(n + 1).drop_last() =~= entries.take(n));
        lemma_bad_version_prefix(entries, n + 1);
    } else {
        assert(entries.take(n) =~= entries);
    }
}

pub open spec fn as_versions(value: JsonView) -> Option<Option<Seq<(Seq<char>, Seq<char>)>>> {
    match as_optional::<TextMap<String>>(value) {
        Some(Some(entries)) => match decoded_versions(entries) {
            Some(map) => Some(Some(map)),
            None => None,
        },
        other => other,
    }
}

pub fn read_versions(slot: Option<&Json>) -> (out: Option<Option<TextMap<String>>>)
    ensures
        out.deep_view() == as_versions(given(slot)),
{
    let found = match read_optional::<TextMap<String>>(slot) {
        Some(Some(found)) => found,
        Some(None) => {
            return Some(None);
        },
        None => {
            return None;
        },
    };
    let ghost model = found.deep_view();
    let entries = &found.entries;
    let mut out: TextMap<String> = TextMap::new();
    let mut i: usize = 0;
    while i < entries.len()
        invariant
            i <= entries.len(),
            model == entries.deep_view(),
            as_optional::<TextMap<String>>(given(slot)) == Some(Some(model)),
            decoded_versions(model.take(i as int)) == Some(out.deep_view()),
        decreases entries.len() - i,
    {
        proof {
            assert(model[i as int] == (entries@[i as int].0@, entries@[i as int].1@));
            assert(model.take(i + 1).drop_last() =~= model.take(i as int));
            assert(model.take(i + 1).last() == model[i as int]);
        }
        let name = text::trim(entries[i].0.as_str());
        let version = text::trim(entries[i].1.as_str());
        if name.as_str().is_empty() || version.as_str().is_empty() {
            proof {
                lemma_bad_version_prefix(model, i + 1);
            }
            return None;
        }
        out.put(name, version);
        i = i + 1;
    }
    assert(model.take(model.len() as int) =~= model);
    Some(Some(out))
}

impl Decode for RawLsp {
    open spec fn decoded(value: JsonView) -> Option<RawLspView> {
        let servers = as_servers(slot_of(value, "servers"@, 0));
        let disabled = as_trimmed_texts(slot_of(value, "disabled"@, 1));
        let python = field_of::<RawPythonLsp>(value, "python"@, 2);
        let diagnostics_on_edit = field_of::<bool>(value, "diagnostics_on_edit"@, 3);
        let auto_install = field_of::<bool>(value, "auto_install"@, 4);
        let grace_days = as_positive_u64(slot_of(value, "grace_days"@, 5));
        let versions = as_versions(slot_of(value, "versions"@, 6));
        if shape_of(value, 5, 7) && servers is Some && disabled is Some && python is Some && diagnostics_on_edit is Some && auto_install is Some && grace_days is Some && versions is Some {
            Some(
                RawLspView {
                    servers: servers->0,
                    disabled: disabled->0,
                    python: python->0,
                    diagnostics_on_edit: diagnostics_on_edit->0,
                    auto_install: auto_install->0,
                    grace_days: grace_days->0,
                    versions: versions->0,
                },
            )
        } else {
            None
        }
    }

    fn decode(value: &Json) -> (out: Option<RawLsp>) {
        if !has_shape(value, 5, 7) {
            return None;
        }
        let servers = match read_servers(slot(value, "servers", 0)) {
            Some(field) => field,
            None => {
                return None;
            },
        };
        let disabled = match read_trimmed_texts(slot(value, "disabled", 1)) {
            Some(field) => field,
            None => {
                return None;
            },
        };
        let python = match read_field::<RawPythonLsp>(value, "python", 2) {
            Some(field) => field,
            None => {
                return None;
            },
        };
        let diagnostics_on_edit = match read_field::<bool>(value, "diagnostics_on_edit", 3) {
            Some(field) => field,
            None => {
                return None;
            },
        };
        let auto_install = match read_field::<bool>(value, "auto_install", 4) {
            Some(field) => field,
            None => {
                return None;
            },
        };
        let grace_days = match read_positive_u64(slot(value, "grace_days", 5)) {
            Some(field) => field,
            None => {
                return None;
            },
        };
        let versions = match read_versions(slot(value, "versions", 6)) {
            Some(field) => field,
            None => {
                return None;
            },
        };
        Some(
            RawLsp {
                servers,
                disabled,
                python,
                diagnostics_on_edit,
                auto_install,
                grace_days,
                versions,
            },
        )
    }
}

impl Decode for RawBashFeatures {
    open spec fn decoded(value: JsonView) -> Option<RawBashFeatures> {
        let rewrite = field_of::<bool>(value, "rewrite"@, 0);
        let compress = field_of::<bool>(value, "compress"@, 1);
        let background = field_of::<bool>(value, "background"@, 2);
        let host_fallback = field_of::<bool>(value, "host_fallback"@, 3);
        let subagent_background = field_of::<bool>(value, "subagent_background"@, 4);
        let detach_on_user_message = field_of::<bool>(value, "detach_on_user_message"@, 5);
        let long_running_reminder_enabled = field_of::<bool>(value, "long_running_reminder_enabled"@, 6);
        let long_running_reminder_interval_ms = as_positive_u64(slot_of(value, "long_running_reminder_interval_ms"@, 7));
        let foreground_wait_window_ms = as_positive_u64(slot_of(value, "foreground_wait_window_ms"@, 8));
        let powershell_tool = field_of::<bool>(value, "powershell_tool"@, 9);
        if shape_of(value, 0, 10) && rewrite is Some && compress is Some && background is Some && host_fallback is Some && subagent_background is Some && detach_on_user_message is Some && long_running_reminder_enabled is Some && long_running_reminder_interval_ms is Some && foreground_wait_window_ms is Some && powershell_tool is Some {
            Some(
                RawBashFeatures {
                    rewrite: rewrite->0,
                    compress: compress->0,
                    background: background->0,
                    host_fallback: host_fallback->0,
                    subagent_background: subagent_background->0,
                    detach_on_user_message: detach_on_user_message->0,
                    long_running_reminder_enabled: long_running_reminder_enabled->0,
                    long_running_reminder_interval_ms: long_running_reminder_interval_ms->0,
                    foreground_wait_window_ms: foreground_wait_window_ms->0,
                    powershell_tool: powershell_tool->0,
                },
            )
        } else {
            None
        }
    }

    fn decode(value: &Json) -> (out: Option<RawBashFeatures>) {
        if !has_shape(value, 0, 10) {
            return None;
        }
        let rewrite = match read_field::<bool>(value, "rewrite", 0) {
            Some(field) => field,
            None => {
                return None;
            },
        };
        let compress = match read_field::<bool>(value, "compress", 1) {
            Some(field) => field,
            None => {
                return None;
            },
        };
        let background = match read_field::<bool>(value, "background", 2) {
            Some(field) => field,
            None => {
                return None;
            },
        };
        let host_fallback = match read_field::<bool>(value, "host_fallback", 3) {
            Some(field) => field,
            None => {
                return None;
            },
        };
        let subagent_background = match read_field::<bool>(value, "subagent_background", 4) {
            Some(field) => field,
            None => {
                return None;
            },
        };
        let detach_on_user_message = match read_field::<bool>(value, "detach_on_user_message", 5) {
            Some(field) => field,
            None => {
                return None;
            },
        };
        let long_running_reminder_enabled = match read_field::<bool>(value, "long_running_reminder_enabled", 6) {
            Some(field) => field,
            None => {
                return None;
            },
        };
        let long_running_reminder_interval_ms = match read_positive_u64(slot(value, "long_running_reminder_interval_ms", 7)) {
            Some(field) => field,
            None => {
                return None;
            },
        };
        let foreground_wait_window_ms = match read_positive_u64(slot(value, "foreground_wait_window_ms", 8)) {
            Some(field) => field,
            None => {
                return None;
            },
        };
        let powershell_tool = match read_field::<bool>(value, "powershell_tool", 9) {
            Some(field) => field,
            None => {
                return None;
            },
        };
        Some(
            RawBashFeatures {
                rewrite,
                compress,
                background,
                host_fallback,
                subagent_background,
                detach_on_user_message,
                long_running_reminder_enabled,
                long_running_reminder_interval_ms,
                foreground_wait_window_ms,
                powershell_tool,
            },
        )
    }
}

impl Decode for RawBash {
    open spec fn decoded(value: JsonView) -> Option<RawBash> {
        match value {
            JsonView::Bool(enabled) => Some(RawBash::Bool(enabled)),
            _ => match RawBashFeatures::decoded(value) {
                Some(features) => Some(RawBash::Features(features)),
                None => None,
            },
        }
    }

    fn decode(value: &Json) -> (out: Option<RawBash>) {
        match value {
            Json::Bool(enabled) => Some(RawBash::Bool(*enabled)),
            _ => match RawBashFeatures::decode(value) {
                Some(features) => Some(RawBash::Features(features)),
                None => None,
            },
        }
    }
}

impl Decode for RawExperimentalBash {
    open spec fn decoded(value: JsonView) -> Option<RawExperimentalBash> {
        let rewrite = field_of::<bool>(value, "rewrite"@, 0);
        let compress = field_of::<bool>(value, "compress"@, 1);
        let background = field_of::<bool>(value, "background"@, 2);
        let long_running_reminder_enabled = field_of::<bool>(value, "long_running_reminder_enabled"@, 3);
        let long_running_reminder_interval_ms = as_positive_u64(slot_of(value, "long_running_reminder_interval_ms"@, 4));
        if shape_of(value, 0, 5) && rewrite is Some && compress is Some && background is Some && long_running_reminder_enabled is Some && long_running_reminder_interval_ms is Some {
            Some(
                RawExperimentalBash {
                    rewrite: rewrite->0,
                    compress: compress->0,
                    background: background->0,
                    long_running_reminder_enabled: long_running_reminder_enabled->0,
                    long_running_reminder_interval_ms: long_running_reminder_interval_ms->0,
                },
            )
        } else {
            None
        }
    }

    fn decode(value: &Json) -> (out: Option<RawExperimentalBash>) {
        if !has_shape(value, 0, 5) {
            return None;
        }
        let rewrite = match read_field::<bool>(value, "rewrite", 0) {
            Some(field) => field,
            None => {
                return None;
            },
        };
        let compress = match read_field::<bool>(value, "compress", 1) {
            Some(field) => field,
            None => {
                return None;
            },
        };
        let background = match read_field::<bool>(value, "background", 2) {
            Some(field) => field,
            None => {
                return None;
            },
        };
        let long_running_reminder_enabled = match read_field::<bool>(value, "long_running_reminder_enabled", 3) {
            Some(field) => field,
            None => {
                return None;
            },
        };
        let long_running_reminder_interval_ms = match read_positive_u64(slot(value, "long_running_reminder_interval_ms", 4)) {
            Some(field) => field,
            None => {
                return None;
            },
        };
        Some(
            RawExperimentalBash {
                rewrite,
                compress,
                background,
                long_running_reminder_enabled,
                long_running_reminder_interval_ms,
            },
        )
    }
}

impl Decode for RawExperimental {
    open spec fn decoded(value: JsonView) -> Option<RawExperimental> {
        let bash = field_of::<RawExperimentalBash>(value, "bash"@, 0);
        let lsp_ty = field_of::<bool>(value, "lsp_ty"@, 1);
        if shape_of(value, 0, 2) && bash is Some && lsp_ty is Some {
            Some(
                RawExperimental {
                    bash: bash->0,
                    lsp_ty: lsp_ty->0,
                },
            )
        } else {
            None
        }
    }

    fn decode(value: &Json) -> (out: Option<RawExperimental>) {
        if !has_shape(value, 0, 2) {
            return None;
        }
        let bash = match read_field::<RawExperimentalBash>(value, "bash", 0) {
            Some(field) => field,
            None => {
                return None;
            },
        };
        let lsp_ty = match read_field::<bool>(value, "lsp_ty", 1) {
            Some(field) => field,
            None => {
                return None;
            },
        };
        Some(
            RawExperimental {
                bash,
                lsp_ty,
            },
        )
    }
}

impl Decode for RawInspectDuplicates {
    open spec fn decoded(value: JsonView) -> Option<RawInspectDuplicatesView> {
        let expected_mirrors = field_of::<Vec<(String, String)>>(value, "expected_mirrors"@, 0);
        if shape_of(value, 0, 1) && expected_mirrors is Some {
            Some(
                RawInspectDuplicatesView {
                    expected_mirrors: expected_mirrors->0,
                },
            )
        } else {
            None
        }
    }

    fn decode(value: &Json) -> (out: Option<RawInspectDuplicates>) {
        if !has_shape(value, 0, 1) {
            return None;
        }
        let expected_mirrors = match read_field::<Vec<(String, String)>>(value, "expected_mirrors", 0) {
            Some(field) => field,
            None => {
                return None;
            },
        };
        Some(
            RawInspectDuplicates {
                expected_mirrors,
            },
        )
    }
}

impl Decode for RawInspect {
    open spec fn decoded(value: JsonView) -> Option<RawInspectView> {
        let enabled = field_of::<bool>(value, "enabled"@, 0);
        let diagnostics_timeout_ms = as_positive_u64(slot_of(value, "diagnostics_timeout_ms"@, 1));
        let tier2_idle_minutes = as_nonnegative_number(slot_of(value, "tier2_idle_minutes"@, 2));
        let categories = field_of::<TextMap<bool>>(value, "categories"@, 3);
        let tier2_soft_deadline_ms = as_positive_u64(slot_of(value, "tier2_soft_deadline_ms"@, 4));
        let max_drill_down_items = as_drill_down_items(slot_of(value, "max_drill_down_items"@, 5));
        let duplicates = field_of::<RawInspectDuplicates>(value, "duplicates"@, 6);
        if shape_of(value, 0, 7) && enabled is Some && diagnostics_timeout_ms is Some && tier2_idle_minutes is Some && categories is Some && tier2_soft_deadline_ms is Some && max_drill_down_items is Some && duplicates is Some {
            Some(
                RawInspectView {
                    enabled: enabled->0,
                    diagnostics_timeout_ms: diagnostics_timeout_ms->0,
                    tier2_idle_minutes: tier2_idle_minutes->0,
                    categories: categories->0,
                    tier2_soft_deadline_ms: tier2_soft_deadline_ms->0,
                    max_drill_down_items: max_drill_down_items->0,
                    duplicates: duplicates->0,
                },
            )
        } else {
            None
        }
    }

    fn decode(value: &Json) -> (out: Option<RawInspect>) {
        if !has_shape(value, 0, 7) {
            return None;
        }
        let enabled = match read_field::<bool>(value, "enabled", 0) {
            Some(field) => field,
            None => {
                return None;
            },
        };
        let diagnostics_timeout_ms = match read_positive_u64(slot(value, "diagnostics_timeout_ms", 1)) {
            Some(field) => field,
            None => {
                return None;
            },
        };
        let tier2_idle_minutes = match read_nonnegative_number(slot(value, "tier2_idle_minutes", 2)) {
            Some(field) => field,
            None => {
                return None;
            },
        };
        let categories = match read_field::<TextMap<bool>>(value, "categories", 3) {
            Some(field) => field,
            None => {
                return None;
            },
        };
        let tier2_soft_deadline_ms = match read_positive_u64(slot(value, "tier2_soft_deadline_ms", 4)) {
            Some(field) => field,
            None => {
                return None;
            },
        };
        let max_drill_down_items = match read_drill_down_items(slot(value, "max_drill_down_items", 5)) {
            Some(field) => field,
            None => {
                return None;
            },
        };
        let duplicates = match read_field::<RawInspectDuplicates>(value, "duplicates", 6) {
            Some(field) => field,
            None => {
                return None;
            },
        };
        Some(
            RawInspect {
                enabled,
                diagnostics_timeout_ms,
                tier2_idle_minutes,
                categories,
                tier2_soft_deadline_ms,
                max_drill_down_items,
                duplicates,
            },
        )
    }
}

impl Decode for RawBridge {
    open spec fn decoded(value: JsonView) -> Option<RawBridge> {
        let request_timeout_ms = as_bridge_timeout_ms(slot_of(value, "request_timeout_ms"@, 0));
        let hang_threshold = as_positive_u64(slot_of(value, "hang_threshold"@, 1));
        if shape_of(value, 0, 2) && request_timeout_ms is Some && hang_threshold is Some {
            Some(
                RawBridge {
                    request_timeout_ms: request_timeout_ms->0,
                    hang_threshold: hang_threshold->0,
                },
            )
        } else {
            None
        }
    }

    fn decode(value: &Json) -> (out: Option<RawBridge>) {
        if !has_shape(value, 0, 2) {
            return None;
        }
        let request_timeout_ms = match read_bridge_timeout_ms(slot(value, "request_timeout_ms", 0)) {
            Some(field) => field,
            None => {
                return None;
            },
        };
        let hang_threshold = match read_positive_u64(slot(value, "hang_threshold", 1)) {
            Some(field) => field,
            None => {
                return None;
            },
        };
        Some(
            RawBridge {
                request_timeout_ms,
                hang_threshold,
            },
        )
    }
}

impl Decode for RawSubc {
    open spec fn decoded(value: JsonView) -> Option<RawSubcView> {
        let connection_file = field_of::<String>(value, "connection_file"@, 0);
        let client_reaper = field_of::<bool>(value, "client_reaper"@, 1);
        if shape_of(value, 0, 2) && connection_file is Some && client_reaper is Some {
            Some(
                RawSubcView {
                    connection_file: connection_file->0,
                    client_reaper: client_reaper->0,
                },
            )
        } else {
            None
        }
    }

    fn decode(value: &Json) -> (out: Option<RawSubc>) {
        if !has_shape(value, 0, 2) {
            return None;
        }
        let connection_file = match read_field::<String>(value, "connection_file", 0) {
            Some(field) => field,
            None => {
                return None;
            },
        };
        let client_reaper = match read_field::<bool>(value, "client_reaper", 1) {
            Some(field) => field,
            None => {
                return None;
            },
        };
        Some(
            RawSubc {
                connection_file,
                client_reaper,
            },
        )
    }
}

impl Decode for RawWorktree {
    open spec fn decoded(value: JsonView) -> Option<RawWorktree> {
        let ram_overlay = field_of::<bool>(value, "ram_overlay"@, 0);
        if shape_of(value, 0, 1) && ram_overlay is Some {
            Some(
                RawWorktree {
                    ram_overlay: ram_overlay->0,
                },
            )
        } else {
            None
        }
    }

    fn decode(value: &Json) -> (out: Option<RawWorktree>) {
        if !has_shape(value, 0, 1) {
            return None;
        }
        let ram_overlay = match read_field::<bool>(value, "ram_overlay", 0) {
            Some(field) => field,
            None => {
                return None;
            },
        };
        Some(
            RawWorktree {
                ram_overlay,
            },
        )
    }
}

impl Decode for RawGhShim {
    open spec fn decoded(value: JsonView) -> Option<RawGhShimView> {
        let enabled = field_of::<bool>(value, "enabled"@, 0);
        let binary_path = as_trimmed_text(slot_of(value, "binary_path"@, 1));
        if shape_of(value, 0, 2) && enabled is Some && binary_path is Some {
            Some(
                RawGhShimView {
                    enabled: enabled->0,
                    binary_path: binary_path->0,
                },
            )
        } else {
            None
        }
    }

    fn decode(value: &Json) -> (out: Option<RawGhShim>) {
        if !has_shape(value, 0, 2) {
            return None;
        }
        let enabled = match read_field::<bool>(value, "enabled", 0) {
            Some(field) => field,
            None => {
                return None;
            },
        };
        let binary_path = match read_trimmed_text(slot(value, "binary_path", 1)) {
            Some(field) => field,
            None => {
                return None;
            },
        };
        Some(
            RawGhShim {
                enabled,
                binary_path,
            },
        )
    }
}

impl Decode for RawGhRead {
    open spec fn decoded(value: JsonView) -> Option<RawGhRead> {
        let enabled = field_of::<bool>(value, "enabled"@, 0);
        if shape_of(value, 0, 1) && enabled is Some {
            Some(
                RawGhRead {
                    enabled: enabled->0,
                },
            )
        } else {
            None
        }
    }

    fn decode(value: &Json) -> (out: Option<RawGhRead>) {
        if !has_shape(value, 0, 1) {
            return None;
        }
        let enabled = match read_field::<bool>(value, "enabled", 0) {
            Some(field) => field,
            None => {
                return None;
            },
        };
        Some(
            RawGhRead {
                enabled,
            },
        )
    }
}

impl Decode for RawGit {
    open spec fn decoded(value: JsonView) -> Option<RawGitView> {
        let co_author = as_co_author(slot_of(value, "co_author"@, 0));
        if shape_of(value, 0, 1) && co_author is Some {
            Some(
                RawGitView {
                    co_author: co_author->0,
                },
            )
        } else {
            None
        }
    }

    fn decode(value: &Json) -> (out: Option<RawGit>) {
        if !has_shape(value, 0, 1) {
            return None;
        }
        let co_author = match read_co_author(slot(value, "co_author", 0)) {
            Some(field) => field,
            None => {
                return None;
            },
        };
        Some(
            RawGit {
                co_author,
            },
        )
    }
}

impl Decode for RawBackup {
    open spec fn decoded(value: JsonView) -> Option<RawBackup> {
        let enabled = field_of::<bool>(value, "enabled"@, 0);
        let max_depth = as_positive_usize(slot_of(value, "max_depth"@, 1));
        let max_file_size = as_positive_u64(slot_of(value, "max_file_size"@, 2));
        if shape_of(value, 0, 3) && enabled is Some && max_depth is Some && max_file_size is Some {
            Some(
                RawBackup {
                    enabled: enabled->0,
                    max_depth: max_depth->0,
                    max_file_size: max_file_size->0,
                },
            )
        } else {
            None
        }
    }

    fn decode(value: &Json) -> (out: Option<RawBackup>) {
        if !has_shape(value, 0, 3) {
            return None;
        }
        let enabled = match read_field::<bool>(value, "enabled", 0) {
            Some(field) => field,
            None => {
                return None;
            },
        };
        let max_depth = match read_positive_usize(slot(value, "max_depth", 1)) {
            Some(field) => field,
            None => {
                return None;
            },
        };
        let max_file_size = match read_positive_u64(slot(value, "max_file_size", 2)) {
            Some(field) => field,
            None => {
                return None;
            },
        };
        Some(
            RawBackup {
                enabled,
                max_depth,
                max_file_size,
            },
        )
    }
}

impl Decode for RawSandbox {
    open spec fn decoded(value: JsonView) -> Option<RawSandboxView> {
        let enabled = field_of::<bool>(value, "enabled"@, 0);
        let write_allow = field_of::<Vec<String>>(value, "write_allow"@, 1);
        let read_deny = field_of::<Vec<String>>(value, "read_deny"@, 2);
        if shape_of(value, 0, 3) && enabled is Some && write_allow is Some && read_deny is Some {
            Some(
                RawSandboxView {
                    enabled: enabled->0,
                    write_allow: write_allow->0,
                    read_deny: read_deny->0,
                },
            )
        } else {
            None
        }
    }

    fn decode(value: &Json) -> (out: Option<RawSandbox>) {
        if !has_shape(value, 0, 3) {
            return None;
        }
        let enabled = match read_field::<bool>(value, "enabled", 0) {
            Some(field) => field,
            None => {
                return None;
            },
        };
        let write_allow = match read_field::<Vec<String>>(value, "write_allow", 1) {
            Some(field) => field,
            None => {
                return None;
            },
        };
        let read_deny = match read_field::<Vec<String>>(value, "read_deny", 2) {
            Some(field) => field,
            None => {
                return None;
            },
        };
        Some(
            RawSandbox {
                enabled,
                write_allow,
                read_deny,
            },
        )
    }
}

/// The entries of a root that are no defined field.
pub open spec fn unknown_entries(entries: Seq<(Seq<char>, JsonView)>) -> Seq<
    (Seq<char>, JsonView),
>
    decreases entries.len(),
{
    if entries.len() == 0 {
        Seq::empty()
    } else {
        let rest = unknown_entries(entries.drop_last());
        let last = entries.last();
        if last.0 == "path"@ || last.0 == "indexes"@ {
            rest
        } else {
            text_map::map_put(rest, last.0, last.1)
        }
    }
}

/// A root is an object.
impl Decode for RawIndexRoot {
    open spec fn decoded(value: JsonView) -> Option<RawIndexRootView> {
        let path = as_optional::<String>(slot_of(value, "path"@, 0));
        let indexes = as_optional::<Vec<String>>(slot_of(value, "indexes"@, 1));
        match value {
            JsonView::Object(entries) => if path is Some && indexes is Some {
                Some(
                    RawIndexRootView {
                        path: path->0,
                        indexes: indexes->0,
                        unknown: unknown_entries(entries),
                    },
                )
            } else {
                None
            },
            _ => None,
        }
    }

    fn decode(value: &Json) -> (out: Option<RawIndexRoot>) {
        let path = read_optional::<String>(slot(value, "path", 0));
        let indexes = read_optional::<Vec<String>>(slot(value, "indexes", 1));
        match (value, path, indexes) {
            (Json::Object(entries), Some(path), Some(indexes)) => {
                let ghost model = value.deep_view()->Object_0;
                let mut unknown: TextMap<Json> = TextMap::new();
                let mut i: usize = 0;
                while i < entries.len()
                    invariant
                        i <= entries.len(),
                        *value == Json::Object(*entries),
                        model == value.deep_view()->Object_0,
                        unknown_entries(model.take(i as int)) == unknown.deep_view(),
                    decreases entries.len() - i,
                {
                    proof {
                        assert(model[i as int] == (
                            entries@[i as int].0@,
                            entries@[i as int].1.deep_view(),
                        ));
                        assert(model.take(i + 1).drop_last() =~= model.take(i as int));
                        assert(model.take(i + 1).last() == model[i as int]);
                    }
                    let key = entries[i].0.as_str();
                    if !text::same_text(key, "path") && !text::same_text(key, "indexes") {
                        unknown.put(entries[i].0.clone(), entries[i].1.copy());
                    }
                    i = i + 1;
                }
                assert(model.take(model.len() as int) =~= model);
                Some(RawIndexRoot { path, indexes, unknown })
            },
            _ => None,
        }
    }
}

impl Decode for RawIndex {
    open spec fn decoded(value: JsonView) -> Option<RawIndexView> {
        let roots = field_of::<Vec<RawIndexRoot>>(value, "roots"@, 0);
        let resource_policy = field_of::<String>(value, "resource_policy"@, 1);
        if shape_of(value, 0, 2) && roots is Some && resource_policy is Some {
            Some(
                RawIndexView {
                    roots: roots->0,
                    resource_policy: resource_policy->0,
                },
            )
        } else {
            None
        }
    }

    fn decode(value: &Json) -> (out: Option<RawIndex>) {
        if !has_shape(value, 0, 2) {
            return None;
        }
        let roots = match read_field::<Vec<RawIndexRoot>>(value, "roots", 0) {
            Some(field) => field,
            None => {
                return None;
            },
        };
        let resource_policy = match read_field::<String>(value, "resource_policy", 1) {
            Some(field) => field,
            None => {
                return None;
            },
        };
        Some(
            RawIndex {
                roots,
                resource_policy,
            },
        )
    }
}

impl Decode for RawAftConfig {
    open spec fn decoded(value: JsonView) -> Option<RawAftConfigView> {
        let schema = field_of::<String>(value, "$schema"@, 0);
        let enabled = field_of::<bool>(value, "enabled"@, 1);
        let edit_mode = field_of::<RawEditMode>(value, "edit_mode"@, 2);
        let format_on_edit = field_of::<bool>(value, "format_on_edit"@, 3);
        let formatter_timeout_secs = as_timeout_secs(slot_of(value, "formatter_timeout_secs"@, 4));
        let type_checker_timeout_secs = as_timeout_secs(slot_of(value, "type_checker_timeout_secs"@, 5));
        let validate_on_edit = field_of::<RawValidateOnEdit>(value, "validate_on_edit"@, 6);
        let formatter = field_of::<TextMap<RawFormatter>>(value, "formatter"@, 7);
        let checker = field_of::<TextMap<RawChecker>>(value, "checker"@, 8);
        let configure_warnings_delivery = field_of::<RawConfigureWarningsDelivery>(value, "configure_warnings_delivery"@, 9);
        let hoist_builtin_tools = field_of::<bool>(value, "hoist_builtin_tools"@, 10);
        let tool_surface = field_of::<RawToolSurface>(value, "tool_surface"@, 11);
        let disabled_tools = field_of::<Vec<String>>(value, "disabled_tools"@, 12);
        let restrict_to_project_root = field_of::<bool>(value, "restrict_to_project_root"@, 13);
        let search_index = field_of::<bool>(value, "search_index"@, 14);
        let index = field_of::<RawIndex>(value, "index"@, 15);
        let memory = field_of::<RawMemory>(value, "memory"@, 16);
        let semantic_search = field_of::<bool>(value, "semantic_search"@, 17);
        let callgraph_store = field_of::<bool>(value, "callgraph_store"@, 18);
        let callgraph_chunk_size = as_any_usize(slot_of(value, "callgraph_chunk_size"@, 19));
        let inspect = field_of::<RawInspect>(value, "inspect"@, 20);
        let backup = field_of::<RawBackup>(value, "backup"@, 21);
        let worktree = field_of::<RawWorktree>(value, "worktree"@, 22);
        let gh_shim = field_of::<RawGhShim>(value, "gh_shim"@, 23);
        let gh_read = field_of::<RawGhRead>(value, "gh_read"@, 24);
        let git = field_of::<RawGit>(value, "git"@, 25);
        let sandbox = field_of::<RawSandbox>(value, "sandbox"@, 26);
        let bash = field_of::<RawBash>(value, "bash"@, 27);
        let experimental = field_of::<RawExperimental>(value, "experimental"@, 28);
        let lsp = field_of::<RawLsp>(value, "lsp"@, 29);
        let url_fetch_allow_private = field_of::<bool>(value, "url_fetch_allow_private"@, 30);
        let semantic = field_of::<RawSemantic>(value, "semantic"@, 31);
        let auto_update = field_of::<bool>(value, "auto_update"@, 32);
        let bridge = field_of::<RawBridge>(value, "bridge"@, 33);
        let subc = field_of::<RawSubc>(value, "subc"@, 34);
        let harnesses = field_of::<TextMap<Json>>(value, "harnesses"@, 35);
        if value is Object && all_keys_are(value, |key: Seq<char>| is_aft_config_key(key)) && schema is Some && enabled is Some && edit_mode is Some && format_on_edit is Some && formatter_timeout_secs is Some && type_checker_timeout_secs is Some && validate_on_edit is Some && formatter is Some && checker is Some && configure_warnings_delivery is Some && hoist_builtin_tools is Some && tool_surface is Some && disabled_tools is Some && restrict_to_project_root is Some && search_index is Some && index is Some && memory is Some && semantic_search is Some && callgraph_store is Some && callgraph_chunk_size is Some && inspect is Some && backup is Some && worktree is Some && gh_shim is Some && gh_read is Some && git is Some && sandbox is Some && bash is Some && experimental is Some && lsp is Some && url_fetch_allow_private is Some && semantic is Some && auto_update is Some && bridge is Some && subc is Some && harnesses is Some {
            Some(
                RawAftConfigView {
                    schema: schema->0,
                    enabled: enabled->0,
                    edit_mode: edit_mode->0,
                    format_on_edit: format_on_edit->0,
                    formatter_timeout_secs: formatter_timeout_secs->0,
                    type_checker_timeout_secs: type_checker_timeout_secs->0,
                    validate_on_edit: validate_on_edit->0,
                    formatter: formatter->0,
                    checker: checker->0,
                    configure_warnings_delivery: configure_warnings_delivery->0,
                    hoist_builtin_tools: hoist_builtin_tools->0,
                    tool_surface: tool_surface->0,
                    disabled_tools: disabled_tools->0,
                    restrict_to_project_root: restrict_to_project_root->0,
                    search_index: search_index->0,
                    index: index->0,
                    memory: memory->0,
                    semantic_search: semantic_search->0,
                    callgraph_store: callgraph_store->0,
                    callgraph_chunk_size: callgraph_chunk_size->0,
                    inspect: inspect->0,
                    backup: backup->0,
                    worktree: worktree->0,
                    gh_shim: gh_shim->0,
                    gh_read: gh_read->0,
                    git: git->0,
                    sandbox: sandbox->0,
                    bash: bash->0,
                    experimental: experimental->0,
                    lsp: lsp->0,
                    url_fetch_allow_private: url_fetch_allow_private->0,
                    semantic: semantic->0,
                    auto_update: auto_update->0,
                    bridge: bridge->0,
                    subc: subc->0,
                    harnesses: harnesses->0,
                },
            )
        } else {
            None
        }
    }

    #[verifier::rlimit(100)]
    fn decode(value: &Json) -> (out: Option<RawAftConfig>) {
        match value {
            Json::Object(_) => {},
            _ => {
                return None;
            },
        }
        if !aft_config_keys_known(value) {
            return None;
        }
        let schema = match read_field::<String>(value, "$schema", 0) {
            Some(field) => field,
            None => {
                return None;
            },
        };
        let enabled = match read_field::<bool>(value, "enabled", 1) {
            Some(field) => field,
            None => {
                return None;
            },
        };
        let edit_mode = match read_field::<RawEditMode>(value, "edit_mode", 2) {
            Some(field) => field,
            None => {
                return None;
            },
        };
        let format_on_edit = match read_field::<bool>(value, "format_on_edit", 3) {
            Some(field) => field,
            None => {
                return None;
            },
        };
        let formatter_timeout_secs = match read_timeout_secs(slot(value, "formatter_timeout_secs", 4)) {
            Some(field) => field,
            None => {
                return None;
            },
        };
        let type_checker_timeout_secs = match read_timeout_secs(slot(value, "type_checker_timeout_secs", 5)) {
            Some(field) => field,
            None => {
                return None;
            },
        };
        let validate_on_edit = match read_field::<RawValidateOnEdit>(value, "validate_on_edit", 6) {
            Some(field) => field,
            None => {
                return None;
            },
        };
        let formatter = match read_field::<TextMap<RawFormatter>>(value, "formatter", 7) {
            Some(field) => field,
            None => {
                return None;
            },
        };
        let checker = match read_field::<TextMap<RawChecker>>(value, "checker", 8) {
            Some(field) => field,
            None => {
                return None;
            },
        };
        let configure_warnings_delivery = match read_field::<RawConfigureWarningsDelivery>(value, "configure_warnings_delivery", 9) {
            Some(field) => field,
            None => {
                return None;
            },
        };
        let hoist_builtin_tools = match read_field::<bool>(value, "hoist_builtin_tools", 10) {
            Some(field) => field,
            None => {
                return None;
            },
        };
        let tool_surface = match read_field::<RawToolSurface>(value, "tool_surface", 11) {
            Some(field) => field,
            None => {
                return None;
            },
        };
        let disabled_tools = match read_field::<Vec<String>>(value, "disabled_tools", 12) {
            Some(field) => field,
            None => {
                return None;
            },
        };
        let restrict_to_project_root = match read_field::<bool>(value, "restrict_to_project_root", 13) {
            Some(field) => field,
            None => {
                return None;
            },
        };
        let search_index = match read_field::<bool>(value, "search_index", 14) {
            Some(field) => field,
            None => {
                return None;
            },
        };
        let index = match read_field::<RawIndex>(value, "index", 15) {
            Some(field) => field,
            None => {
                return None;
            },
        };
        let memory = match read_field::<RawMemory>(value, "memory", 16) {
            Some(field) => field,
            None => {
                return None;
            },
        };
        let semantic_search = match read_field::<bool>(value, "semantic_search", 17) {
            Some(field) => field,
            None => {
                return None;
            },
        };
        let callgraph_store = match read_field::<bool>(value, "callgraph_store", 18) {
            Some(field) => field,
            None => {
                return None;
            },
        };
        let callgraph_chunk_size = match read_any_usize(slot(value, "callgraph_chunk_size", 19)) {
            Some(field) => field,
            None => {
                return None;
            },
        };
        let inspect = match read_field::<RawInspect>(value, "inspect", 20) {
            Some(field) => field,
            None => {
                return None;
            },
        };
        let backup = match read_field::<RawBackup>(value, "backup", 21) {
            Some(field) => field,
            None => {
                return None;
            },
        };
        let worktree = match read_field::<RawWorktree>(value, "worktree", 22) {
            Some(field) => field,
            None => {
                return None;
            },
        };
        let gh_shim = match read_field::<RawGhShim>(value, "gh_shim", 23) {
            Some(field) => field,
            None => {
                return None;
            },
        };
        let gh_read = match read_field::<RawGhRead>(value, "gh_read", 24) {
            Some(field) => field,
            None => {
                return None;
            },
        };
        let git = match read_field::<RawGit>(value, "git", 25) {
            Some(field) => field,
            None => {
                return None;
            },
        };
        let sandbox = match read_field::<RawSandbox>(value, "sandbox", 26) {
            Some(field) => field,
            None => {
                return None;
            },
        };
        let bash = match read_field::<RawBash>(value, "bash", 27) {
            Some(field) => field,
            None => {
                return None;
            },
        };
        let experimental = match read_field::<RawExperimental>(value, "experimental", 28) {
            Some(field) => field,
            None => {
                return None;
            },
        };
        let lsp = match read_field::<RawLsp>(value, "lsp", 29) {
            Some(field) => field,
            None => {
                return None;
            },
        };
        let url_fetch_allow_private = match read_field::<bool>(value, "url_fetch_allow_private", 30) {
            Some(field) => field,
            None => {
                return None;
            },
        };
        let semantic = match read_field::<RawSemantic>(value, "semantic", 31) {
            Some(field) => field,
            None => {
                return None;
            },
        };
        let auto_update = match read_field::<bool>(value, "auto_update", 32) {
            Some(field) => field,
            None => {
                return None;
            },
        };
        let bridge = match read_field::<RawBridge>(value, "bridge", 33) {
            Some(field) => field,
            None => {
                return None;
            },
        };
        let subc = match read_field::<RawSubc>(value, "subc", 34) {
            Some(field) => field,
            None => {
                return None;
            },
        };
        let harnesses = match read_field::<TextMap<Json>>(value, "harnesses", 35) {
            Some(field) => field,
            None => {
                return None;
            },
        };
        Some(
            RawAftConfig {
                schema,
                enabled,
                edit_mode,
                format_on_edit,
                formatter_timeout_secs,
                type_checker_timeout_secs,
                validate_on_edit,
                formatter,
                checker,
                configure_warnings_delivery,
                hoist_builtin_tools,
                tool_surface,
                disabled_tools,
                restrict_to_project_root,
                search_index,
                index,
                memory,
                semantic_search,
                callgraph_store,
                callgraph_chunk_size,
                inspect,
                backup,
                worktree,
                gh_shim,
                gh_read,
                git,
                sandbox,
                bash,
                experimental,
                lsp,
                url_fetch_allow_private,
                semantic,
                auto_update,
                bridge,
                subc,
                harnesses,
            },
        )
    }
}

/// The keys of the section.
pub open spec fn is_aft_config_key(key: Seq<char>) -> bool {
    ||| key == "$schema"@
    ||| key == "enabled"@
    ||| key == "edit_mode"@
    ||| key == "format_on_edit"@
    ||| key == "formatter_timeout_secs"@
    ||| key == "type_checker_timeout_secs"@
    ||| key == "validate_on_edit"@
    ||| key == "formatter"@
    ||| key == "checker"@
    ||| key == "configure_warnings_delivery"@
    ||| key == "hoist_builtin_tools"@
    ||| key == "tool_surface"@
    ||| key == "disabled_tools"@
    ||| key == "restrict_to_project_root"@
    ||| key == "search_index"@
    ||| key == "index"@
    ||| key == "memory"@
    ||| key == "semantic_search"@
    ||| key == "callgraph_store"@
    ||| key == "callgraph_chunk_size"@
    ||| key == "inspect"@
    ||| key == "backup"@
    ||| key == "worktree"@
    ||| key == "gh_shim"@
    ||| key == "gh_read"@
    ||| key == "git"@
    ||| key == "sandbox"@
    ||| key == "bash"@
    ||| key == "experimental"@
    ||| key == "lsp"@
    ||| key == "url_fetch_allow_private"@
    ||| key == "semantic"@
    ||| key == "auto_update"@
    ||| key == "bridge"@
    ||| key == "subc"@
    ||| key == "harnesses"@
}

fn aft_config_key(key: &str) -> (yes: bool)
    ensures
        yes == is_aft_config_key(key@),
{
    text::same_text(key, "$schema") || text::same_text(key, "enabled") || text::same_text(key, "edit_mode") || text::same_text(key, "format_on_edit") || text::same_text(key, "formatter_timeout_secs") || text::same_text(key, "type_checker_timeout_secs") || text::same_text(key, "validate_on_edit") || text::same_text(key, "formatter") || text::same_text(key, "checker") || text::same_text(key, "configure_warnings_delivery") || text::same_text(key, "hoist_builtin_tools") || text::same_text(key, "tool_surface") || text::same_text(key, "disabled_tools") || text::same_text(key, "restrict_to_project_root") || text::same_text(key, "search_index") || text::same_text(key, "index") || text::same_text(key, "memory") || text::same_text(key, "semantic_search") || text::same_text(key, "callgraph_store") || text::same_text(key, "callgraph_chunk_size") || text::same_text(key, "inspect") || text::same_text(key, "backup") || text::same_text(key, "worktree") || text::same_text(key, "gh_shim") || text::same_text(key, "gh_read") || text::same_text(key, "git") || text::same_text(key, "sandbox") || text::same_text(key, "bash") || text::same_text(key, "experimental") || text::same_text(key, "lsp") || text::same_text(key, "url_fetch_allow_private") || text::same_text(key, "semantic") || text::same_text(key, "auto_update") || text::same_text(key, "bridge") || text::same_text(key, "subc") || text::same_text(key, "harnesses")
}

fn aft_config_keys_known(value: &Json) -> (yes: bool)
    ensures
        yes == all_keys_are(value.deep_view(), |key: Seq<char>| is_aft_config_key(key)),
{
    let ghost known = |key: Seq<char>| is_aft_config_key(key);
    match value {
        Json::Object(entries) => {
            let ghost model = value.deep_view()->Object_0;
            let mut i: usize = 0;
            while i < entries.len()
                invariant
                    i <= entries.len(),
                    *value == Json::Object(*entries),
                    model == value.deep_view()->Object_0,
                    known == (|key: Seq<char>| is_aft_config_key(key)),
                    forall|k: int| 0 <= k < i ==> is_aft_config_key(#[trigger] model[k].0),
                decreases entries.len() - i,
            {
                assert(model[i as int].0 == entries@[i as int].0@);
                if !aft_config_key(entries[i].0.as_str()) {
                    assert(!known(model[i as int].0));
                    return false;
                }
                i = i + 1;
            }
            true
        },
        _ => true,
    }
}

} // verus!
