//! Session state: the selected system, the signatures recorded per system, and
//! the cursor into the displayed list.

use vstd::prelude::*;
use crate::paste::{items_view, ClipboardItem};
use crate::reconcile::{merge_signatures, merge_spec, sigs_view};
use crate::signature::{Signature, SignatureView};
use crate::text::{
    first_index_of, lemma_first_index_is, lemma_first_index_of, lemma_first_index_of_push, same_text,
};

verus! {

/// The signature lists of the systems, keyed by system name.
pub struct SignatureTable {
    entries: Vec<(String, Vec<Signature>)>,
}

pub open spec fn table_keys(e: Seq<(String, Vec<Signature>)>) -> Seq<Seq<char>> {
    e.map_values(|x: (String, Vec<Signature>)| x.0@)
}

/// The list recorded under `key`, or an empty one.
pub open spec fn list_or_empty(m: Map<Seq<char>, Seq<SignatureView>>, key: Seq<char>) -> Seq<
    SignatureView,
> {
    if m.contains_key(key) {
        m[key]
    } else {
        Seq::empty()
    }
}

impl View for SignatureTable {
    type V = Map<Seq<char>, Seq<SignatureView>>;

    closed spec fn view(&self) -> Map<Seq<char>, Seq<SignatureView>> {
        Map::new(
            |k: Seq<char>| first_index_of(table_keys(self.entries@), k) >= 0,
            |k: Seq<char>| sigs_view(self.entries@[first_index_of(table_keys(self.entries@), k)].1@),
        )
    }
}

impl SignatureTable {
    pub fn new() -> (r: Self)
        ensures
            r@ == Map::<Seq<char>, Seq<SignatureView>>::empty(),
    {
        let r = SignatureTable { entries: Vec::new() };
        assert(r@ =~= Map::<Seq<char>, Seq<SignatureView>>::empty());
        r
    }

    fn position(&self, key: &str) -> (r: Option<usize>)
        ensures
            match r {
                Some(i) => i < self.entries.len() && first_index_of(table_keys(self.entries@), key@)
                    == i,
                None => first_index_of(table_keys(self.entries@), key@) == -1,
            },
    {
        let ghost keys = table_keys(self.entries@);
        let mut i: usize = 0;
        while i < self.entries.len()
            invariant
                i <= self.entries.len() == keys.len(),
                keys == table_keys(self.entries@),
                forall|k: int| 0 <= k < i ==> keys[k] != key@,
            decreases self.entries.len() - i,
        {
            assert(keys[i as int] == self.entries@[i as int].0@);
            if same_text(self.entries[i].0.as_str(), key) {
                proof {
                    lemma_first_index_is(keys, key@, i as int);
                }
                return Some(i);
            }
            i = i + 1;
        }
        proof {
            lemma_first_index_is(keys, key@, -1);
        }
        None
    }

    pub fn contains_key(&self, key: &str) -> (r: bool)
        ensures
            r == self@.contains_key(key@),
    {
        self.position(key).is_some()
    }

    pub fn get(&self, key: &str) -> (r: Option<&Vec<Signature>>)
        ensures
            match r {
                Some(v) => self@.contains_key(key@) && sigs_view(v@) == self@[key@],
                None => !self@.contains_key(key@),
            },
    {
        match self.position(key) {
            Some(i) => Some(&self.entries[i].1),
            None => None,
        }
    }

    /// Records `value` under `key`, in place of any list recorded there.
    pub fn insert(&mut self, key: String, value: Vec<Signature>)
        ensures
            final(self)@ == old(self)@.insert(key@, sigs_view(value@)),
    {
        let ghost old_entries = self.entries@;
        let ghost keys = table_keys(old_entries);
        let ghost k = key@;
        let ghost v = sigs_view(value@);
        match self.position(key.as_str()) {
            Some(i) => {
                proof {
                    lemma_first_index_of(keys, k);
                }
                self.entries.set(i, (key, value));
                assert(table_keys(self.entries@) =~= keys);
                assert forall|q: Seq<char>| #[trigger] self@.contains_key(q) == old(self)@.insert(k, v).contains_key(q)
                    && (self@.contains_key(q) ==> self@[q] == old(self)@.insert(k, v)[q]) by {
                    lemma_first_index_of(keys, q);
                }
                assert(self@ =~= old(self)@.insert(k, v));
            },
            None => {
                self.entries.push((key, value));
                assert(table_keys(self.entries@) =~= keys.push(k));
                assert forall|q: Seq<char>| #[trigger] self@.contains_key(q) == old(self)@.insert(k, v).contains_key(q)
                    && (self@.contains_key(q) ==> self@[q] == old(self)@.insert(k, v)[q]) by {
                    lemma_first_index_of_push(keys, k, q);
                    lemma_first_index_of(keys, q);
                }
                assert(self@ =~= old(self)@.insert(k, v));
            },
        }
    }

    /// Merges a scan into the list recorded under `key` (an empty list where
    /// none is recorded yet).
    pub fn merge_scan(&mut self, key: &str, new_data: &[ClipboardItem])
        ensures
            final(self)@ == old(self)@.insert(
                key@,
                merge_spec(list_or_empty(old(self)@, key@), items_view(new_data@)),
            ),
    {
        let ghost k = key@;
        let ghost cv = items_view(new_data@);
        let ghost old_map = self@;
        if !self.contains_key(key) {
            let empty: Vec<Signature> = Vec::new();
            assert(sigs_view(empty@) =~= Seq::<SignatureView>::empty());
            self.insert(key.to_owned(), empty);
        }
        assert(self@.contains_key(k) && self@[k] == list_or_empty(old_map, k));
        let ghost mid_map = self@;
        let ghost merged = merge_spec(list_or_empty(old_map, k), cv);
        assert(old_map.insert(k, merged) =~= mid_map.insert(k, merged));
        let i = match self.position(key) {
            Some(i) => i,
            None => {
                return;
            },
        };
        let ghost mid_entries = self.entries@;
        let ghost keys = table_keys(mid_entries);
        assert(sigs_view(mid_entries[i as int].1@) == list_or_empty(old_map, k));
        let mut entry = self.entries.remove(i);
        merge_signatures(&mut entry.1, new_data);
        let ghost e = entry;
        self.entries.insert(i, entry);
        assert(self.entries@ =~= mid_entries.update(i as int, e));
        assert(e.0 == mid_entries[i as int].0);
        assert(sigs_view(e.1@) == merged);
        assert(table_keys(self.entries@) =~= keys);
        proof {
            lemma_first_index_of(keys, k);
        }
        assert forall|q: Seq<char>| #[trigger] self@.contains_key(q) == mid_map.insert(
            k,
            merged,
        ).contains_key(q) && (self@.contains_key(q) ==> self@[q] == mid_map.insert(k, merged)[q]) by {
            lemma_first_index_of(keys, q);
        }
        assert(self@ =~= mid_map.insert(k, merged));
    }
}

/// What the signature panel shows: the list, or a dialog over it.
#[derive(Clone, PartialEq)]
pub enum ViewMode {
    Normal,
    Adding(Signature),
    Editing(Signature),
}

/// A key press, as far as the session tells keys apart.
#[derive(Debug, Clone, Copy, PartialEq, Eq)]
pub enum Key {
    Esc,
    Enter,
    Up,
    Down,
    Char(char),
    Other,
}

/// What the caller is to do after a key press.
#[derive(Debug, Clone, Copy, PartialEq, Eq)]
pub enum KeyOutcome {
    Continue,
    Quit,
    /// Read the clipboard and merge what it holds into the active system.
    Paste,
}

/// The cursor after a step down a list of `n` entries: it stops at the last one.
pub open spec fn cursor_down(i: usize, n: nat) -> usize {
    if n > 1 && i < n - 1 {
        (i + 1) as usize
    } else {
        i
    }
}

/// The cursor after a step up a list of `n` entries: it stops at the first one.
pub open spec fn cursor_up(i: usize, n: nat) -> usize {
    if n > 1 && i > 0 {
        (i - 1) as usize
    } else {
        i
    }
}

/// The state of a session.
pub struct App {
    pub current_system: Option<String>,
    pub system_data: SignatureTable,
    pub data_index: usize,
    pub view: ViewMode,
}

impl App {
    /// The signatures of the selected system; none where no system is
    /// selected or nothing is recorded for it.
    pub open spec fn active(&self) -> Seq<SignatureView> {
        match self.current_system {
            Some(name) => list_or_empty(self.system_data@, name@),
            None => Seq::empty(),
        }
    }

    /// A session with no system selected and nothing recorded.
    pub fn new() -> (r: Self)
        ensures
            r.current_system is None,
            r.system_data@ == Map::<Seq<char>, Seq<SignatureView>>::empty(),
            r.data_index == 0,
            r.view == ViewMode::Normal,
    {
        App {
            current_system: None,
            system_data: SignatureTable::new(),
            data_index: 0,
            view: ViewMode::Normal,
        }
    }

    pub fn system_signatures(&self) -> (r: Vec<&Signature>)
        ensures
            r@.len() == self.active().len(),
            forall|i: int| 0 <= i < r@.len() ==> r@[i]@ == self.active()[i],
    {
        let mut r: Vec<&Signature> = Vec::new();
        if let Some(current_system) = &self.current_system {
            if let Some(data) = self.system_data.get(current_system.as_str()) {
                let mut i: usize = 0;
                while i < data.len()
                    invariant
                        i <= data.len(),
                        sigs_view(data@) == self.active(),
                        r@.len() == i,
                        forall|k: int| 0 <= k < i ==> r@[k]@ == self.active()[k],
                    decreases data.len() - i,
                {
                    r.push(&data[i]);
                    i = i + 1;
                }
            }
        }
        r
    }

    /// Number of signatures of the selected system.
    pub fn active_count(&self) -> (r: usize)
        ensures
            r == self.active().len(),
    {
        if let Some(current_system) = &self.current_system {
            if let Some(data) = self.system_data.get(current_system.as_str()) {
                return data.len();
            }
        }
        0
    }

    /// Merges a pasted scan into the selected system's list, creating the list
    /// if needed; does nothing where no system is selected.
    pub fn merge_in(&mut self, new_data: &[ClipboardItem])
        ensures
            final(self).current_system == old(self).current_system,
            final(self).data_index == old(self).data_index,
            final(self).view == old(self).view,
            match old(self).current_system {
                Some(name) => final(self).system_data@ == old(self).system_data@.insert(
                    name@,
                    merge_spec(old(self).active(), items_view(new_data@)),
                ),
                None => final(self).system_data@ == old(self).system_data@,
            },
    {
        if let Some(current_system) = &self.current_system {
            self.system_data.merge_scan(current_system.as_str(), new_data);
        }
    }

    /// Makes `name` the selected system and puts the cursor on its first
    /// signature; every system's list stays as it was.
    pub fn select_system(&mut self, name: String)
        ensures
            final(self).current_system == Some(name),
            final(self).data_index == 0,
            final(self).system_data@ == old(self).system_data@,
            final(self).view == old(self).view,
    {
        self.current_system = Some(name);
        self.data_index = 0;
    }

    pub fn move_cursor_down(&mut self)
        ensures
            final(self).data_index == cursor_down(old(self).data_index, old(self).active().len()),
            final(self).current_system == old(self).current_system,
            final(self).system_data@ == old(self).system_data@,
            final(self).view == old(self).view,
    {
        let count = self.active_count();
        if count > 1 && self.data_index < count - 1 {
            self.data_index = self.data_index + 1;
        }
    }

    pub fn move_cursor_up(&mut self)
        ensures
            final(self).data_index == cursor_up(old(self).data_index, old(self).active().len()),
            final(self).current_system == old(self).current_system,
            final(self).system_data@ == old(self).system_data@,
            final(self).view == old(self).view,
    {
        let count = self.active_count();
        if count > 1 && self.data_index > 0 {
            self.data_index = self.data_index - 1;
        }
    }

    /// The signature under the cursor, copied.
    fn selected(&self) -> (r: Option<Signature>)
        ensures
            match r {
                Some(s) => self.data_index < self.active().len() && s@
                    == self.active()[self.data_index as int],
                None => self.data_index >= self.active().len(),
            },
    {
        if let Some(current_system) = &self.current_system {
            if let Some(data) = self.system_data.get(current_system.as_str()) {
                if self.data_index < data.len() {
                    return Some(data[self.data_index].copy());
                }
            }
        }
        None
    }

    /// Reacts to a key press. Esc closes any dialog. In the list view, `q`
    /// quits, Enter opens the signature under the cursor for editing, Up and
    /// Down move the cursor, `n` opens an empty signature for adding, and `v`
    /// asks for a paste. Other keys, and every key but Esc in a dialog, change
    /// nothing.
    pub fn handle_key(&mut self, key: Key) -> (r: KeyOutcome)
        ensures
            final(self).current_system == old(self).current_system,
            final(self).system_data@ == old(self).system_data@,
            key is Esc ==> r == KeyOutcome::Continue && final(self).view == ViewMode::Normal
                && final(self).data_index == old(self).data_index,
            key !is Esc && old(self).view != ViewMode::Normal ==> r == KeyOutcome::Continue
                && final(self).view == old(self).view && final(self).data_index == old(
                self,
            ).data_index,
            key !is Esc && old(self).view == ViewMode::Normal ==> match key {
                Key::Char('q') => r == KeyOutcome::Quit && final(self).view == old(self).view
                    && final(self).data_index == old(self).data_index,
                Key::Char('v') => r == KeyOutcome::Paste && final(self).view == old(self).view
                    && final(self).data_index == old(self).data_index,
                Key::Char('n') => r == KeyOutcome::Continue && final(self).data_index == old(
                    self,
                ).data_index && (final(self).view matches ViewMode::Adding(s) && s@
                    == Signature::blank_view()),
                Key::Enter => r == KeyOutcome::Continue && final(self).data_index == old(
                    self,
                ).data_index && (if old(self).data_index < old(self).active().len() {
                    final(self).view matches ViewMode::Editing(s) && s@ == old(
                        self,
                    ).active()[old(self).data_index as int]
                } else {
                    final(self).view == old(self).view
                }),
                Key::Down => r == KeyOutcome::Continue && final(self).view == old(self).view
                    && final(self).data_index == cursor_down(
                    old(self).data_index,
                    old(self).active().len(),
                ),
                Key::Up => r == KeyOutcome::Continue && final(self).view == old(self).view
                    && final(self).data_index == cursor_up(
                    old(self).data_index,
                    old(self).active().len(),
                ),
                _ => r == KeyOutcome::Continue && final(self).view == old(self).view
                    && final(self).data_index == old(self).data_index,
            },
    {
        if let Key::Esc = key {
            self.view = ViewMode::Normal;
            return KeyOutcome::Continue;
        }
        if let ViewMode::Normal = self.view {
            match key {
                Key::Char('q') => KeyOutcome::Quit,
                Key::Char('v') => KeyOutcome::Paste,
                Key::Char('n') => {
                    self.view = ViewMode::Adding(Signature::default());
                    KeyOutcome::Continue
                },
                Key::Enter => {
                    if let Some(s) = self.selected() {
                        self.view = ViewMode::Editing(s);
                    }
                    KeyOutcome::Continue
                },
                Key::Down => {
                    self.move_cursor_down();
                    KeyOutcome::Continue
                },
                Key::Up => {
                    self.move_cursor_up();
                    KeyOutcome::Continue
                },
                _ => KeyOutcome::Continue,
            }
        } else {
            KeyOutcome::Continue
        }
    }
}

} // verus!
