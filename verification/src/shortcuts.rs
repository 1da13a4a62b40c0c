//! Shortcut records and the store that keeps them in insertion order.

use vstd::prelude::*;

verus! {

/// What a shortcut is: three pieces of free-form text.
pub struct ShortcutRecord {
    pub name: Seq<char>,
    pub icon_path: Seq<char>,
    pub command: Seq<char>,
}

/// A named command with a reference to its icon.
#[derive(Debug)]
pub struct JsonShortcut {
    pub name: String,
    pub icon_path: String,
    pub command: String,
}

impl View for JsonShortcut {
    type V = ShortcutRecord;

    open spec fn view(&self) -> ShortcutRecord {
        ShortcutRecord { name: self.name@, icon_path: self.icon_path@, command: self.command@ }
    }
}

impl Clone for JsonShortcut {
    fn clone(&self) -> (copy: Self)
        ensures
            copy == *self,
    {
        JsonShortcut {
            name: self.name.clone(),
            icon_path: self.icon_path.clone(),
            command: self.command.clone(),
        }
    }
}

/// The records that a sequence of shortcuts stands for, in the same order.
pub open spec fn records(shortcuts: Seq<JsonShortcut>) -> Seq<ShortcutRecord> {
    Seq::new(shortcuts.len(), |i: int| shortcuts[i]@)
}

/// The ordered list of shortcuts of one session. Order is insertion order
/// and decides on which page a shortcut appears.
pub struct ShortcutStore {
    pub shortcuts: Vec<JsonShortcut>,
}

impl View for ShortcutStore {
    type V = Seq<ShortcutRecord>;

    open spec fn view(&self) -> Seq<ShortcutRecord> {
        records(self.shortcuts@)
    }
}

impl ShortcutStore {
    /// The store to start a session with: what was read from the durable
    /// file if reading and parsing it succeeded, and no shortcuts at all
    /// otherwise. A failed load never stops the session from starting.
    pub fn load_or_default(loaded: Option<Vec<JsonShortcut>>) -> (store: Self)
        ensures
            loaded matches Some(shortcuts) ==> store.shortcuts == shortcuts && store@ == records(
                shortcuts@,
            ),
            loaded is None ==> store.shortcuts@.len() == 0 && store@.len() == 0,
    {
        match loaded {
            Some(shortcuts) => ShortcutStore { shortcuts },
            None => ShortcutStore { shortcuts: Vec::new() },
        }
    }

    /// Appends `shortcut` after all the others. Nothing is validated here.
    pub fn add(&mut self, shortcut: JsonShortcut)
        ensures
            final(self).shortcuts@ == old(self).shortcuts@.push(shortcut),
            final(self)@ == old(self)@.push(shortcut@),
    {
        self.shortcuts.push(shortcut);
    }
}

} // verus!
