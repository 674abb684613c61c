//! Bounded state that extensions show without asking anything.
use vstd::prelude::*;
use vstd::string::*;

use crate::keyed::{strictly_ordered, KeyMap, OrderedKey};
use crate::limits::RuntimeLimits;
use crate::rpc::{all_bytes, counted};
use crate::runtime::session_sync::borrowed_view;
use crate::text::{byte_len, copy_optional, copy_texts, optional_view, text_bytes};
use crate::totals::{lemma_total_absent, lemma_total_insert, lemma_total_remove, map_total};

verus! {

#[derive(Clone, Copy, Debug, PartialEq, Eq, Structural)]
pub enum WidgetPlacement {
    AboveEditor,
    BelowEditor,
}

#[derive(Debug, PartialEq, Eq)]
pub struct ExtensionWidget {
    pub lines: Vec<String>,
    pub placement: WidgetPlacement,
}

/// Model of an [`ExtensionWidget`].
pub struct ExtensionWidgetView {
    pub lines: Seq<String>,
    pub placement: WidgetPlacement,
}

impl View for ExtensionWidget {
    type V = ExtensionWidgetView;

    open spec fn view(&self) -> ExtensionWidgetView {
        ExtensionWidgetView { lines: self.lines@, placement: self.placement }
    }
}

impl Clone for ExtensionWidget {
    fn clone(&self) -> (r: Self)
        ensures
            r@ == self@,
    {
        ExtensionWidget { lines: copy_texts(&self.lines), placement: self.placement }
    }
}

#[derive(Clone, Debug, PartialEq, Eq)]
pub struct ExtensionStatusSnapshot {
    pub key: String,
    pub text: String,
}

#[derive(Clone, Debug, PartialEq, Eq)]
pub struct ExtensionWidgetSnapshot {
    pub key: String,
    pub widget: ExtensionWidget,
}

#[derive(Clone, Debug, PartialEq, Eq)]
pub struct ExtensionUiSnapshot {
    pub statuses: Vec<ExtensionStatusSnapshot>,
    pub widgets: Vec<ExtensionWidgetSnapshot>,
    pub title: Option<String>,
}

#[derive(Clone, Copy, Debug, PartialEq, Eq, Structural)]
pub enum ExtensionUiError {
    EntryLimit { limit: usize },
    ByteLimit { attempted: usize, limit: usize },
}

/// Bytes that one status takes.
pub open spec fn status_cost() -> spec_fn(Seq<char>, Seq<char>) -> nat {
    |key: Seq<char>, text: Seq<char>| byte_len(key) + byte_len(text)
}

/// Bytes that one widget takes.
pub open spec fn widget_cost() -> spec_fn(Seq<char>, ExtensionWidgetView) -> nat {
    |key: Seq<char>, widget: ExtensionWidgetView| byte_len(key) + all_bytes(widget.lines)
}

/// The model of an optional widget.
pub open spec fn widget_option(widget: Option<ExtensionWidget>) -> Option<ExtensionWidgetView> {
    match widget {
        Some(widget) => Some(widget@),
        None => None,
    }
}

/// Model of an [`ExtensionUiState`].
pub struct ExtensionUiView {
    pub statuses: Map<Seq<char>, Seq<char>>,
    pub widgets: Map<Seq<char>, ExtensionWidgetView>,
    pub title: Option<Seq<char>>,
    pub max_entries: usize,
    pub max_bytes: usize,
}

impl ExtensionUiView {
    pub open spec fn empty(limits: RuntimeLimits) -> Self {
        ExtensionUiView {
            statuses: Map::empty(),
            widgets: Map::empty(),
            title: None,
            max_entries: limits.max_extension_ui_entries_per_run,
            max_bytes: limits.max_extension_ui_bytes_per_run,
        }
    }

    pub open spec fn title_bytes(title: Option<Seq<char>>) -> nat {
        match title {
            Some(text) => byte_len(text),
            None => 0,
        }
    }

    /// Bytes of everything that is shown.
    pub open spec fn used(self) -> nat {
        map_total(self.statuses, status_cost()) + map_total(self.widgets, widget_cost())
            + Self::title_bytes(self.title)
    }

    pub open spec fn entries(self) -> nat {
        self.statuses.dom().len() + self.widgets.dom().len()
    }

    /// What is shown stays within its budgets: the bytes of everything, and the number
    /// of statuses and widgets together. The title is no entry.
    pub open spec fn within_limits(self) -> bool {
        &&& self.used() <= self.max_bytes
        &&& self.entries() <= self.max_entries
        &&& self.statuses.dom().finite()
        &&& self.widgets.dom().finite()
    }

    /// Why a change to `next`, which adds an entry or not, is refused, if it is.
    pub open spec fn refusal(self, next: Self) -> Option<ExtensionUiError> {
        if next.entries() > self.entries() && self.entries() >= self.max_entries {
            Some(ExtensionUiError::EntryLimit { limit: self.max_entries })
        } else if next.used() > self.max_bytes {
            Some(
                ExtensionUiError::ByteLimit {
                    attempted: counted(next.used()),
                    limit: self.max_bytes,
                },
            )
        } else {
            None
        }
    }

    pub open spec fn with_status(self, key: Seq<char>, text: Option<Seq<char>>) -> Self {
        ExtensionUiView {
            statuses: match text {
                Some(text) => self.statuses.insert(key, text),
                None => self.statuses.remove(key),
            },
            ..self
        }
    }

    pub open spec fn with_widget(self, key: Seq<char>, widget: Option<ExtensionWidgetView>) -> Self {
        ExtensionUiView {
            widgets: match widget {
                Some(widget) => self.widgets.insert(key, widget),
                None => self.widgets.remove(key),
            },
            ..self
        }
    }

    pub open spec fn with_title(self, title: Option<Seq<char>>) -> Self {
        ExtensionUiView { title, ..self }
    }
}

/// Statuses, widgets and title of one run, within its budgets.
#[derive(Debug, PartialEq, Eq)]
pub struct ExtensionUiState {
    statuses: KeyMap<String, String>,
    widgets: KeyMap<String, ExtensionWidget>,
    title: Option<String>,
    max_entries: usize,
    max_bytes: usize,
    used_bytes: usize,
}

impl View for ExtensionUiState {
    type V = ExtensionUiView;

    closed spec fn view(&self) -> ExtensionUiView {
        ExtensionUiView {
            statuses: self.statuses@,
            widgets: self.widgets@,
            title: optional_view(self.title),
            max_entries: self.max_entries,
            max_bytes: self.max_bytes,
        }
    }
}

/// Bytes of a list of texts, exactly.
fn exact_bytes(texts: &Vec<String>) -> (n: u128)
    ensures
        n == all_bytes(texts@),
        n <= texts@.len() * usize::MAX,
        texts@.len() <= usize::MAX,
{
    let mut n: u128 = 0;
    let mut i: usize = 0;
    assert(texts@.take(0) =~= Seq::<String>::empty());
    while i < texts.len()
        invariant
            i <= texts@.len(),
            n == all_bytes(texts@.take(i as int)),
            n <= i * usize::MAX,
        decreases texts@.len() - i,
    {
        assert(texts@.take(i + 1).drop_last() =~= texts@.take(i as int));
        let bytes: usize = text_bytes(texts[i].as_str());
        proof {
            assert((i + 1) * usize::MAX == i * usize::MAX + usize::MAX) by (nonlinear_arith);
            assert((i + 1) * usize::MAX <= u128::MAX) by (nonlinear_arith)
                requires
                    i + 1 <= usize::MAX,
                    usize::MAX <= 0xffff_ffff_ffff_ffff,
            ;
        }
        n = n + bytes as u128;
        i += 1;
    }
    assert(texts@.take(i as int) =~= texts@);
    n
}

impl ExtensionUiState {
    /// The statuses' keys, in order.
    pub closed spec fn status_keys(&self) -> Seq<Seq<char>> {
        self.statuses.key_models()
    }

    /// The widgets' keys, in order.
    pub closed spec fn widget_keys(&self) -> Seq<Seq<char>> {
        self.widgets.key_models()
    }

    #[verifier::type_invariant]
    pub closed spec fn wf(&self) -> bool {
        &&& self.used_bytes == self@.used()
        &&& self@.within_limits()
    }

    pub fn new(limits: RuntimeLimits) -> (r: Self)
        ensures
            r@ == ExtensionUiView::empty(limits),
            r@.within_limits(),
    {
        ExtensionUiState {
            statuses: KeyMap::new(),
            widgets: KeyMap::new(),
            title: None,
            max_entries: limits.max_extension_ui_entries_per_run,
            max_bytes: limits.max_extension_ui_bytes_per_run,
            used_bytes: 0,
        }
    }

    /// Checks a change that takes `new_bytes` in place of `old_bytes`.
    fn ensure_capacity(&self, adds_entry: bool, old_bytes: usize, new_bytes: u128) -> (r: Result<
        usize,
        ExtensionUiError,
    >)
        requires
            old_bytes <= self@.used(),
            new_bytes <= u128::MAX - usize::MAX,
        ensures
            match r {
                Ok(next) => next == self@.used() - old_bytes + new_bytes && next
                    <= self@.max_bytes && !(adds_entry && self@.entries() >= self@.max_entries),
                Err(error) => error == (if adds_entry && self@.entries() >= self@.max_entries {
                    ExtensionUiError::EntryLimit { limit: self@.max_entries }
                } else {
                    ExtensionUiError::ByteLimit {
                        attempted: counted((self@.used() - old_bytes + new_bytes) as nat),
                        limit: self@.max_bytes,
                    }
                }) && ((adds_entry && self@.entries() >= self@.max_entries) || self@.used()
                    - old_bytes + new_bytes > self@.max_bytes),
            },
    {
        proof {
            use_type_invariant(self);
        }
        if adds_entry && self.statuses.len() as u128 + self.widgets.len() as u128
            >= self.max_entries as u128 {
            return Err(ExtensionUiError::EntryLimit { limit: self.max_entries });
        }
        let next: u128 = (self.used_bytes - old_bytes) as u128 + new_bytes;
        if next > self.max_bytes as u128 {
            let attempted: usize = if next > usize::MAX as u128 {
                usize::MAX
            } else {
                next as usize
            };
            return Err(ExtensionUiError::ByteLimit { attempted, limit: self.max_bytes });
        }
        Ok(next as usize)
    }

    /// Sets or clears one status.
    pub fn set_status(&mut self, key: String, text: Option<String>) -> (r: Result<
        (),
        ExtensionUiError,
    >)
        ensures
            match old(self)@.refusal(old(self)@.with_status(key@, optional_view(text))) {
                Some(error) => r == Err::<(), ExtensionUiError>(error) && final(self)@ == old(self)@,
                None => r is Ok && final(self)@ == old(self)@.with_status(
                    key@,
                    optional_view(text),
                ),
            },
    {
        proof {
            use_type_invariant(&*self);
        }
        let ghost before = self@;
        let ghost text_view = optional_view(text);
        let ghost next_view = before.with_status(key@, text_view);
        let key_bytes: usize = text_bytes(key.as_str());
        let new_bytes: u128 = match &text {
            Some(text) => key_bytes as u128 + text_bytes(text.as_str()) as u128,
            None => 0,
        };
        proof {
            if before.statuses.contains_key(key@) {
                lemma_total_remove(before.statuses, status_cost(), key@);
            } else {
                lemma_total_absent(before.statuses, status_cost(), key@);
            }
            match text_view {
                Some(value) => {
                    lemma_total_insert(before.statuses, status_cost(), key@, value);
                    assert(next_view.statuses.dom() =~= before.statuses.dom().insert(key@));
                },
                None => {
                    assert(next_view.statuses.dom() =~= before.statuses.dom().remove(key@));
                },
            }
        }
        let mut adds_entry = text.is_some();
        let old_bytes: usize = match self.statuses.get(&key) {
            Some(old) => {
                adds_entry = false;
                let old_text_bytes: usize = text_bytes(old.as_str());
                key_bytes + old_text_bytes
            },
            None => 0,
        };
        let next: usize = match self.ensure_capacity(adds_entry, old_bytes, new_bytes) {
            Ok(next) => next,
            Err(error) => {
                return Err(error);
            },
        };
        let mut taken = ExtensionUiState {
            statuses: KeyMap::new(),
            widgets: KeyMap::new(),
            title: None,
            max_entries: 0,
            max_bytes: 0,
            used_bytes: 0,
        };
        core::mem::swap(self, &mut taken);
        let ExtensionUiState { mut statuses, widgets, title, max_entries, max_bytes, used_bytes } =
            taken;
        match text {
            Some(text) => {
                statuses.insert(key, text);
            },
            None => {
                let removed = statuses.remove(&key);
            },
        }
        *self =
        ExtensionUiState { statuses, widgets, title, max_entries, max_bytes, used_bytes: next };
        Ok(())
    }

    /// Sets or clears one widget.
    pub fn set_widget(&mut self, key: String, widget: Option<ExtensionWidget>) -> (r: Result<
        (),
        ExtensionUiError,
    >)
        ensures
            match old(self)@.refusal(
                old(self)@.with_widget(key@, widget_option(widget)),
            ) {
                Some(error) => r == Err::<(), ExtensionUiError>(error) && final(self)@ == old(self)@,
                None => r is Ok && final(self)@ == old(self)@.with_widget(
                    key@,
                    widget_option(widget),
                ),
            },
    {
        proof {
            use_type_invariant(&*self);
        }
        let ghost before = self@;
        let ghost widget_view = widget_option(widget);
        let ghost next_view = before.with_widget(key@, widget_view);
        let key_bytes: usize = text_bytes(key.as_str());
        let new_bytes: u128 = match &widget {
            Some(widget) => {
                let lines: u128 = exact_bytes(&widget.lines);
                proof {
                    lemma_lines_fit(widget.lines@.len());
                }
                key_bytes as u128 + lines
            },
            None => 0,
        };
        proof {
            if before.widgets.contains_key(key@) {
                lemma_total_remove(before.widgets, widget_cost(), key@);
            } else {
                lemma_total_absent(before.widgets, widget_cost(), key@);
            }
            match widget_view {
                Some(value) => {
                    lemma_total_insert(before.widgets, widget_cost(), key@, value);
                    assert(next_view.widgets.dom() =~= before.widgets.dom().insert(key@));
                },
                None => {
                    assert(next_view.widgets.dom() =~= before.widgets.dom().remove(key@));
                },
            }
        }
        let mut adds_entry = widget.is_some();
        let old_bytes: usize = match self.widgets.get(&key) {
            Some(old) => {
                adds_entry = false;
                let lines: u128 = exact_bytes(&old.lines);
                key_bytes + lines as usize
            },
            None => 0,
        };
        let next: usize = match self.ensure_capacity(adds_entry, old_bytes, new_bytes) {
            Ok(next) => next,
            Err(error) => {
                return Err(error);
            },
        };
        let mut taken = ExtensionUiState {
            statuses: KeyMap::new(),
            widgets: KeyMap::new(),
            title: None,
            max_entries: 0,
            max_bytes: 0,
            used_bytes: 0,
        };
        core::mem::swap(self, &mut taken);
        let ExtensionUiState { statuses, mut widgets, title, max_entries, max_bytes, used_bytes } =
            taken;
        match widget {
            Some(widget) => {
                widgets.insert(key, widget);
            },
            None => {
                let removed = widgets.remove(&key);
            },
        }
        *self =
        ExtensionUiState { statuses, widgets, title, max_entries, max_bytes, used_bytes: next };
        Ok(())
    }

    /// Sets or clears the title.
    pub fn set_title(&mut self, title: Option<String>) -> (r: Result<(), ExtensionUiError>)
        ensures
            match old(self)@.refusal(old(self)@.with_title(optional_view(title))) {
                Some(error) => r == Err::<(), ExtensionUiError>(error) && final(self)@ == old(self)@,
                None => r is Ok && final(self)@ == old(self)@.with_title(optional_view(title)),
            },
    {
        proof {
            use_type_invariant(&*self);
        }
        let old_bytes: usize = match &self.title {
            Some(text) => text_bytes(text.as_str()),
            None => 0,
        };
        let new_bytes: u128 = match &title {
            Some(text) => text_bytes(text.as_str()) as u128,
            None => 0,
        };
        let next: usize = match self.ensure_capacity(false, old_bytes, new_bytes) {
            Ok(next) => next,
            Err(error) => {
                return Err(error);
            },
        };
        let mut taken = ExtensionUiState {
            statuses: KeyMap::new(),
            widgets: KeyMap::new(),
            title: None,
            max_entries: 0,
            max_bytes: 0,
            used_bytes: 0,
        };
        core::mem::swap(self, &mut taken);
        let ExtensionUiState { statuses, widgets, title: _, max_entries, max_bytes, used_bytes } =
            taken;
        *self =
        ExtensionUiState { statuses, widgets, title, max_entries, max_bytes, used_bytes: next };
        Ok(())
    }

    pub fn status_count(&self) -> (n: usize)
        ensures
            n == self@.statuses.dom().len(),
            self@.within_limits(),
    {
        proof {
            use_type_invariant(self);
        }
        self.statuses.len()
    }

    pub fn widget_count(&self) -> (n: usize)
        ensures
            n == self@.widgets.dom().len(),
            self@.within_limits(),
    {
        proof {
            use_type_invariant(self);
        }
        self.widgets.len()
    }

    /// Bytes of everything that is shown; never more than the limit.
    pub fn used_bytes(&self) -> (n: usize)
        ensures
            n == self@.used(),
            n <= self@.max_bytes,
            self@.within_limits(),
    {
        proof {
            use_type_invariant(self);
        }
        self.used_bytes
    }

    pub fn title(&self) -> (r: Option<&str>)
        ensures
            borrowed_view(r) == self@.title,
    {
        match &self.title {
            Some(text) => Some(text.as_str()),
            None => None,
        }
    }

    /// The statuses with their keys, in the order of the keys.
    pub fn statuses(&self) -> (r: Vec<(&str, &str)>)
        ensures
            r@.len() == self.status_keys().len(),
            self.status_keys().to_set() == self@.statuses.dom(),
            strictly_ordered::<String>(self.status_keys()),
            forall|i: int|
                0 <= i < r@.len() ==> (#[trigger] r@[i]).0@ == self.status_keys()[i] && r@[i].1@
                    == self@.statuses[self.status_keys()[i]],
    {
        let n: usize = self.statuses.len();
        let mut r: Vec<(&str, &str)> = Vec::new();
        let mut i: usize = 0;
        while i < n
            invariant
                i <= n == self.statuses.key_models().len(),
                r@.len() == i,
                forall|k: int|
                    0 <= k < i ==> (#[trigger] r@[k]).0@ == self.statuses.key_models()[k]
                        && r@[k].1@ == self.statuses@[self.statuses.key_models()[k]],
            decreases n - i,
        {
            r.push((self.statuses.key_at(i).as_str(), self.statuses.value_at(i).as_str()));
            i += 1;
        }
        r
    }

    /// The widgets with their keys, in the order of the keys.
    pub fn widgets(&self) -> (r: Vec<(&str, &ExtensionWidget)>)
        ensures
            r@.len() == self.widget_keys().len(),
            self.widget_keys().to_set() == self@.widgets.dom(),
            strictly_ordered::<String>(self.widget_keys()),
            forall|i: int|
                0 <= i < r@.len() ==> (#[trigger] r@[i]).0@ == self.widget_keys()[i] && r@[i].1@
                    == self@.widgets[self.widget_keys()[i]],
    {
        let n: usize = self.widgets.len();
        let mut r: Vec<(&str, &ExtensionWidget)> = Vec::new();
        let mut i: usize = 0;
        while i < n
            invariant
                i <= n == self.widgets.key_models().len(),
                r@.len() == i,
                forall|k: int|
                    0 <= k < i ==> (#[trigger] r@[k]).0@ == self.widgets.key_models()[k] && r@[k].1@
                        == self.widgets@[self.widgets.key_models()[k]],
            decreases n - i,
        {
            r.push((self.widgets.key_at(i).as_str(), self.widgets.value_at(i)));
            i += 1;
        }
        r
    }

    /// Whether `snapshot` is the picture of this state, its entries in the order
    /// of their keys.
    pub open spec fn shown_by(&self, snapshot: ExtensionUiSnapshot) -> bool {
        &&& snapshot.statuses@.len() == self.status_keys().len()
        &&& self.status_keys().to_set() == self@.statuses.dom()
        &&& strictly_ordered::<String>(self.status_keys())
        &&& forall|i: int|
            0 <= i < self.status_keys().len() ==> (#[trigger] snapshot.statuses@[i]).key@
                == self.status_keys()[i] && snapshot.statuses@[i].text@
                == self@.statuses[self.status_keys()[i]]
        &&& snapshot.widgets@.len() == self.widget_keys().len()
        &&& self.widget_keys().to_set() == self@.widgets.dom()
        &&& strictly_ordered::<String>(self.widget_keys())
        &&& forall|i: int|
            0 <= i < self.widget_keys().len() ==> (#[trigger] snapshot.widgets@[i]).key@
                == self.widget_keys()[i] && snapshot.widgets@[i].widget@
                == self@.widgets[self.widget_keys()[i]]
        &&& optional_view(snapshot.title) == self@.title
    }

    pub fn snapshot(&self) -> (r: ExtensionUiSnapshot)
        ensures
            self.shown_by(r),
    {
        let mut statuses: Vec<ExtensionStatusSnapshot> = Vec::new();
        let status_count: usize = self.statuses.len();
        let mut i: usize = 0;
        while i < status_count
            invariant
                i <= status_count == self.statuses.key_models().len(),
                statuses@.len() == i,
                forall|k: int|
                    0 <= k < i ==> (#[trigger] statuses@[k]).key@ == self.statuses.key_models()[k]
                        && statuses@[k].text@ == self.statuses@[self.statuses.key_models()[k]],
            decreases status_count - i,
        {
            statuses.push(
                ExtensionStatusSnapshot {
                    key: self.statuses.key_at(i).clone(),
                    text: self.statuses.value_at(i).clone(),
                },
            );
            i += 1;
        }
        let mut widgets: Vec<ExtensionWidgetSnapshot> = Vec::new();
        let widget_count: usize = self.widgets.len();
        let mut j: usize = 0;
        while j < widget_count
            invariant
                j <= widget_count == self.widgets.key_models().len(),
                widgets@.len() == j,
                forall|k: int|
                    0 <= k < j ==> (#[trigger] widgets@[k]).key@ == self.widgets.key_models()[k]
                        && widgets@[k].widget@ == self.widgets@[self.widgets.key_models()[k]],
            decreases widget_count - j,
        {
            widgets.push(
                ExtensionWidgetSnapshot {
                    key: self.widgets.key_at(j).clone(),
                    widget: self.widgets.value_at(j).clone(),
                },
            );
            j += 1;
        }
        ExtensionUiSnapshot { statuses, widgets, title: copy_optional(&self.title) }
    }
}

proof fn lemma_lines_fit(lines: nat)
    requires
        lines <= usize::MAX,
    ensures
        lines * usize::MAX + usize::MAX <= u128::MAX - usize::MAX,
{
    assert(lines * usize::MAX <= usize::MAX * usize::MAX) by (nonlinear_arith)
        requires
            lines <= usize::MAX,
            0 <= lines,
    ;
    assert(usize::MAX * usize::MAX <= 0xffff_ffff_ffff_ffff * 0xffff_ffff_ffff_ffff)
        by (nonlinear_arith)
        requires
            0 <= usize::MAX <= 0xffff_ffff_ffff_ffff,
    ;
}

/// What was refused left nothing behind, and clearing an entry gives back what it
/// took: after a status is cleared no more bytes and no more entries are used than
/// before it was set.
pub proof fn clearing_releases_the_budget(
    ui: ExtensionUiView,
    key: Seq<char>,
    text: Seq<char>,
)
    requires
        ui.statuses.dom().finite(),
        ui.widgets.dom().finite(),
    ensures
        ui.with_status(key, Some(text)).with_status(key, None).used() <= ui.used(),
        ui.with_status(key, Some(text)).with_status(key, None).entries() <= ui.entries(),
        !ui.statuses.contains_key(key) ==> ui.with_status(key, Some(text)).with_status(key, None)
            == ui,
{
    let cleared = ui.with_status(key, Some(text)).with_status(key, None);
    assert(cleared.statuses =~= ui.statuses.remove(key));
    assert(cleared.statuses.dom() =~= ui.statuses.dom().remove(key));
    if ui.statuses.contains_key(key) {
        lemma_total_remove(ui.statuses, status_cost(), key);
    } else {
        lemma_total_absent(ui.statuses, status_cost(), key);
        assert(cleared.statuses =~= ui.statuses);
    }
}

/// A change that is not refused keeps what is shown within its budgets, and one that is
/// refused changes nothing.
pub proof fn changes_stay_within_limits(
    ui: ExtensionUiView,
    key: Seq<char>,
    text: Option<Seq<char>>,
    widget: Option<ExtensionWidgetView>,
    title: Option<Seq<char>>,
)
    requires
        ui.within_limits(),
    ensures
        ui.refusal(ui.with_status(key, text)) is None ==> ui.with_status(
            key,
            text,
        ).within_limits(),
        ui.refusal(ui.with_widget(key, widget)) is None ==> ui.with_widget(
            key,
            widget,
        ).within_limits(),
        ui.refusal(ui.with_title(title)) is None ==> ui.with_title(title).within_limits(),
{
    lemma_entries(ui.statuses, key, text);
    lemma_entries(ui.widgets, key, widget);
}

proof fn lemma_entries<V>(entries: Map<Seq<char>, V>, key: Seq<char>, value: Option<V>)
    requires
        entries.dom().finite(),
    ensures
        ({
            let next = match value {
                Some(value) => entries.insert(key, value),
                None => entries.remove(key),
            };
            &&& next.dom().finite()
            &&& next.dom().len() <= entries.dom().len() + 1
        }),
{
    assert(entries.remove(key).dom() =~= entries.dom().remove(key));
    match value {
        Some(value) => {
            assert(entries.insert(key, value).dom() =~= entries.dom().insert(key));
        },
        None => {},
    }
}

} // verus!
