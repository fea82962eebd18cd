//! Per-deck preset playlists.
//!
//! A playlist is an ordered list of (name, path) items with a current
//! index, an optional shuffle mode for forward advancement, and the
//! auto-cycle settings the pump cycle reads.  Whenever the list is
//! non-empty the current index stays inside it; advancing or retreating on
//! an empty list is a no-op returning nothing.

use vstd::prelude::*;

verus! {

/// One preset entry: a display name and the preset file's path.
#[derive(Debug)]
pub struct PlaylistItem {
    pub name: String,
    pub path: String,
}

/// Two items carry the same name and path.
pub open spec fn item_like(a: PlaylistItem, b: PlaylistItem) -> bool {
    a.name@ == b.name@ && a.path@ == b.path@
}

/// Copy of an item, field by field.
pub fn clone_item(it: &PlaylistItem) -> (r: PlaylistItem)
    ensures
        item_like(r, *it),
{
    PlaylistItem { name: it.name.clone(), path: it.path.clone() }
}

/// Ordered preset list for one deck.
#[derive(Debug)]
pub struct Playlist {
    pub name: String,
    pub items: Vec<PlaylistItem>,
    pub current_index: usize,
    pub shuffle: bool,
    pub auto_cycle: bool,
    pub cycle_duration_secs: u32,
}

impl Playlist {
    /// The current index references an item whenever any exist, and rests
    /// at zero on an empty list.
    pub open spec fn wf(self) -> bool {
        if self.items@.len() == 0 {
            self.current_index == 0
        } else {
            self.current_index < self.items@.len()
        }
    }

    /// Fresh, empty playlist with the default cycle settings.
    pub fn new() -> (r: Self)
        ensures
            r.wf(),
            r.name@ == "Untitled"@,
            r.items@.len() == 0,
            r.current_index == 0,
            !r.shuffle,
            !r.auto_cycle,
            r.cycle_duration_secs == 30,
    {
        Playlist {
            name: String::from_str("Untitled"),
            items: Vec::new(),
            current_index: 0,
            shuffle: false,
            auto_cycle: false,
            cycle_duration_secs: 30,
        }
    }

    /// The currently selected item, if any.
    pub fn current_preset(&self) -> (r: Option<&PlaylistItem>)
        requires
            self.wf(),
        ensures
            self.items@.len() == 0 ==> r is None,
            self.items@.len() > 0 ==> (r matches Some(p) && *p == self.items@[self.current_index as int]),
    {
        if self.items.len() == 0 {
            None
        } else {
            Some(&self.items[self.current_index])
        }
    }

    /// Step forward: circularly when shuffle is off, to `entropy mod len`
    /// when shuffle is on.  On an empty list nothing changes and nothing
    /// is returned.
    pub fn advance(&mut self, entropy: u64) -> (r: Option<PlaylistItem>)
        requires
            old(self).wf(),
        ensures
            final(self).wf(),
            old(self).items@.len() == 0 ==> r is None && *final(self) == *old(self),
            final(self).items == old(self).items,
            final(self).name == old(self).name,
            final(self).shuffle == old(self).shuffle,
            final(self).auto_cycle == old(self).auto_cycle,
            final(self).cycle_duration_secs == old(self).cycle_duration_secs,
            old(self).items@.len() > 0 && !old(self).shuffle ==> final(self).current_index == (
            old(self).current_index + 1) % (old(self).items@.len() as int),
            old(self).items@.len() > 0 && old(self).shuffle ==> final(self).current_index == (
            entropy as int) % (old(self).items@.len() as int),
            old(self).items@.len() > 0 ==> (r matches Some(it) && item_like(
                it,
                old(self).items@[final(self).current_index as int],
            )),
    {
        if self.items.len() == 0 {
            return None;
        }
        if self.shuffle {
            self.current_index = (entropy % (self.items.len() as u64)) as usize;
        } else {
            self.current_index = (self.current_index + 1) % self.items.len();
        }
        Some(clone_item(&self.items[self.current_index]))
    }

    /// Step backward, always circularly, regardless of shuffle.  On an
    /// empty list nothing changes and nothing is returned.
    pub fn previous(&mut self) -> (r: Option<PlaylistItem>)
        requires
            old(self).wf(),
        ensures
            final(self).wf(),
            old(self).items@.len() == 0 ==> r is None && *final(self) == *old(self),
            final(self).items == old(self).items,
            final(self).name == old(self).name,
            final(self).shuffle == old(self).shuffle,
            final(self).auto_cycle == old(self).auto_cycle,
            final(self).cycle_duration_secs == old(self).cycle_duration_secs,
            old(self).items@.len() > 0 ==> final(self).current_index == (if old(
                self,
            ).current_index == 0 {
                old(self).items@.len() - 1
            } else {
                old(self).current_index - 1
            }),
            old(self).items@.len() > 0 ==> (r matches Some(it) && item_like(
                it,
                old(self).items@[final(self).current_index as int],
            )),
    {
        if self.items.len() == 0 {
            return None;
        }
        if self.current_index == 0 {
            self.current_index = self.items.len() - 1;
        } else {
            self.current_index = self.current_index - 1;
        }
        Some(clone_item(&self.items[self.current_index]))
    }

    /// Jump straight to `index`; refused when out of bounds.
    pub fn jump_to(&mut self, index: usize) -> (ok: bool)
        requires
            old(self).wf(),
        ensures
            final(self).wf(),
            ok == (index < old(self).items@.len()),
            !ok ==> *final(self) == *old(self),
            ok ==> *final(self) == (Playlist { current_index: index, ..*old(self) }),
    {
        if index < self.items.len() {
            self.current_index = index;
            true
        } else {
            false
        }
    }

    /// Append an item at the end; the current selection does not move.
    pub fn add(&mut self, name: String, path: String)
        requires
            old(self).wf(),
        ensures
            final(self).wf(),
            final(self).items@ == old(self).items@.push(PlaylistItem { name, path }),
            final(self).current_index == old(self).current_index,
            final(self).name == old(self).name,
            final(self).shuffle == old(self).shuffle,
            final(self).auto_cycle == old(self).auto_cycle,
            final(self).cycle_duration_secs == old(self).cycle_duration_secs,
    {
        self.items.push(PlaylistItem { name, path });
    }

    /// Index selected after removing `index` from a list where `cur` was
    /// selected: a removal before the selection shifts it down by one; a
    /// removal of the last selected item clamps to the new end.
    pub open spec fn index_after_remove(cur: int, index: int, new_len: int) -> int {
        if new_len == 0 {
            0
        } else if index < cur {
            cur - 1
        } else if cur < new_len {
            cur
        } else {
            new_len - 1
        }
    }

    /// Remove the item at `index`; refused when out of bounds.  The
    /// selection keeps referencing the same item where it still exists.
    pub fn remove(&mut self, index: usize) -> (ok: bool)
        requires
            old(self).wf(),
        ensures
            final(self).wf(),
            ok == (index < old(self).items@.len()),
            !ok ==> *final(self) == *old(self),
            ok ==> final(self).items@ == old(self).items@.remove(index as int),
            ok ==> final(self).current_index == Self::index_after_remove(
                old(self).current_index as int,
                index as int,
                old(self).items@.len() - 1,
            ),
            final(self).name == old(self).name,
            final(self).shuffle == old(self).shuffle,
            final(self).auto_cycle == old(self).auto_cycle,
            final(self).cycle_duration_secs == old(self).cycle_duration_secs,
    {
        if index >= self.items.len() {
            return false;
        }
        self.items.remove(index);
        if index < self.current_index {
            self.current_index = self.current_index - 1;
        } else if self.current_index >= self.items.len() {
            if self.items.len() == 0 {
                self.current_index = 0;
            } else {
                self.current_index = self.items.len() - 1;
            }
        }
        true
    }

    /// Drop every item and reset the selection.
    pub fn clear(&mut self)
        ensures
            final(self).wf(),
            final(self).items@.len() == 0,
            final(self).current_index == 0,
            final(self).name == old(self).name,
            final(self).shuffle == old(self).shuffle,
            final(self).auto_cycle == old(self).auto_cycle,
            final(self).cycle_duration_secs == old(self).cycle_duration_secs,
    {
        self.items = Vec::new();
        self.current_index = 0;
    }

    /// Index selected after moving the item at `from` to `to`: the
    /// selection follows its item.
    pub open spec fn index_after_reorder(cur: int, from: int, to: int) -> int {
        if cur == from {
            to
        } else if from < cur && to >= cur {
            cur - 1
        } else if from > cur && to <= cur {
            cur + 1
        } else {
            cur
        }
    }

    /// Move the item at `from` to position `to`; refused when either index
    /// is out of bounds.  The selection follows the item it referenced.
    pub fn reorder(&mut self, from: usize, to: usize) -> (ok: bool)
        requires
            old(self).wf(),
        ensures
            final(self).wf(),
            ok == (from < old(self).items@.len() && to < old(self).items@.len()),
            !ok ==> *final(self) == *old(self),
            ok ==> final(self).items@ == old(self).items@.remove(from as int).insert(
                to as int,
                old(self).items@[from as int],
            ),
            ok ==> final(self).current_index == Self::index_after_reorder(
                old(self).current_index as int,
                from as int,
                to as int,
            ),
            final(self).name == old(self).name,
            final(self).shuffle == old(self).shuffle,
            final(self).auto_cycle == old(self).auto_cycle,
            final(self).cycle_duration_secs == old(self).cycle_duration_secs,
    {
        let len = self.items.len();
        if from >= len || to >= len {
            return false;
        }
        let item = self.items.remove(from);
        self.items.insert(to, item);
        if self.current_index == from {
            self.current_index = to;
        } else if from < self.current_index && to >= self.current_index {
            self.current_index = self.current_index - 1;
        } else if from > self.current_index && to <= self.current_index {
            self.current_index = self.current_index + 1;
        }
        true
    }
}

} // verus!
