//! The session: the one owner of the shortcut collection and of the page
//! cursor, and the transitions that the user can ask for.

use vstd::prelude::*;

use crate::input::{acceptable, is_blank};
use crate::pages::{page_count, page_rows, project, total_pages, Page};
use crate::shortcuts::{JsonShortcut, ShortcutRecord, ShortcutStore};

verus! {

/// The page that a cursor at `current_page` moves to when there are
/// `pages` pages: the cursor itself while it stands on a page, else the last
/// page, and page 0 where there is none.
pub open spec fn clamped(current_page: nat, pages: nat) -> nat {
    if current_page < pages {
        current_page
    } else if pages == 0 {
        0
    } else {
        (pages - 1) as nat
    }
}

/// What a session is: the records in insertion order, and the cursor.
pub struct SessionState {
    pub records: Seq<ShortcutRecord>,
    pub current_page: nat,
}

impl SessionState {
    /// The number of pages that the records fill.
    pub open spec fn total_pages(self) -> nat {
        page_count(self.records.len())
    }

    /// The cursor stands on a page, or on page 0 where there are no pages.
    pub open spec fn well_formed(self) -> bool {
        self.current_page == 0 || self.current_page < self.total_pages()
    }

    /// The page under the cursor, as rows of records.
    pub open spec fn page(self) -> Seq<Seq<ShortcutRecord>> {
        page_rows(self.records, self.current_page)
    }

    /// There is a page after the one under the cursor.
    pub open spec fn can_advance(self) -> bool {
        self.current_page + 1 < self.total_pages()
    }

    /// The state after a request for the next page.
    pub open spec fn next(self) -> SessionState {
        if self.can_advance() {
            SessionState { records: self.records, current_page: self.current_page + 1 }
        } else {
            self
        }
    }

    /// There is a page before the one under the cursor.
    pub open spec fn can_go_back(self) -> bool {
        self.current_page > 0
    }

    /// The state after a request for the previous page.
    pub open spec fn previous(self) -> SessionState {
        if self.can_go_back() {
            SessionState { records: self.records, current_page: (self.current_page - 1) as nat }
        } else {
            self
        }
    }

    /// The state after `record` was appended: the record is the last one,
    /// and a cursor that stood beyond the pages is back on the last page.
    pub open spec fn appended(self, record: ShortcutRecord) -> SessionState {
        SessionState {
            records: self.records.push(record),
            current_page: clamped(self.current_page, page_count(self.records.len() + 1)),
        }
    }

    /// The state after the user asked to add a shortcut: with the new
    /// record where the input is acceptable, unchanged where it is not.
    pub open spec fn with_input(
        self,
        name: Seq<char>,
        icon_path: Seq<char>,
        command: Seq<char>,
    ) -> SessionState {
        if acceptable(name, command) {
            self.appended(ShortcutRecord { name, icon_path, command })
        } else {
            self
        }
    }
}

/// The cursor never leaves the pages. From a state whose cursor stands on a
/// page, or on page 0 of an empty collection, every transition leads to such
/// a state again; and after an accepted addition the cursor stands on a page
/// whatever it was before.
pub proof fn cursor_stays_on_pages(
    state: SessionState,
    name: Seq<char>,
    icon_path: Seq<char>,
    command: Seq<char>,
)
    ensures
        state.well_formed() ==> state.next().well_formed(),
        state.well_formed() ==> state.previous().well_formed(),
        state.well_formed() ==> state.with_input(name, icon_path, command).well_formed(),
        acceptable(name, command) ==> state.with_input(name, icon_path, command).current_page
            < state.with_input(name, icon_path, command).total_pages(),
{
}

/// Navigation stops at the boundaries: a request for the previous page on
/// page 0, and one for the next page on the last page, change nothing.
pub proof fn navigation_stops_at_boundaries(state: SessionState)
    ensures
        state.current_page == 0 ==> state.previous() == state,
        state.current_page + 1 == state.total_pages() ==> state.next() == state,
        state.total_pages() == 0 ==> state.next() == state,
{
}

/// Brings a cursor back onto the pages: `current_page` where it is a page
/// of the `pages` there are, else the last page, and 0 where there is none.
pub fn clamp_page(current_page: usize, pages: usize) -> (page: usize)
    ensures
        page == clamped(current_page as nat, pages as nat),
{
    if current_page < pages {
        current_page
    } else if pages == 0 {
        0
    } else {
        pages - 1
    }
}

/// What a request to add a shortcut led to.
#[derive(Debug)]
pub enum AddOutcome {
    /// The name or the command was blank. Nothing changed and nothing is
    /// to be saved.
    Rejected,
    /// The shortcut was appended and the store is to be saved. The page is
    /// the one under the cursor after the change.
    Added(Page),
}

/// One session of the launcher. It owns the shortcut collection and the
/// cursor; every change of either goes through its methods.
pub struct Session {
    pub store: ShortcutStore,
    pub current_page: usize,
}

impl View for Session {
    type V = SessionState;

    open spec fn view(&self) -> SessionState {
        SessionState { records: self.store@, current_page: self.current_page as nat }
    }
}

impl Session {
    /// A session over `store`, with the cursor on the first page.
    pub fn new(store: ShortcutStore) -> (session: Self)
        ensures
            session.store == store,
            session.current_page == 0,
            session@.well_formed(),
    {
        Session { store, current_page: 0 }
    }

    /// The number of pages that the collection fills now.
    pub fn total_pages(&self) -> (pages: usize)
        ensures
            pages == self@.total_pages(),
    {
        total_pages(self.store.shortcuts.len())
    }

    /// The index of the page under the cursor.
    pub fn current_page(&self) -> (page_index: usize)
        ensures
            page_index == self@.current_page,
    {
        self.current_page
    }

    /// The page under the cursor.
    pub fn page(&self) -> (page: Page)
        ensures
            page@ == self@.page(),
    {
        project(&self.store.shortcuts, self.current_page)
    }

    /// Moves the cursor to the next page and returns that page. On the last
    /// page, and where there are no pages, nothing changes and nothing is
    /// returned.
    pub fn next_page(&mut self) -> (shown: Option<Page>)
        ensures
            final(self).store == old(self).store,
            final(self)@ == old(self)@.next(),
            shown is Some <==> old(self)@.can_advance(),
            shown matches Some(page) ==> page@ == final(self)@.page(),
            old(self)@.current_page + 1 == old(self)@.total_pages() ==> *final(self) == *old(self)
                && shown is None,
            old(self)@.well_formed() ==> final(self)@.well_formed(),
    {
        let pages = self.total_pages();
        if pages > 0 && self.current_page < pages - 1 {
            self.current_page = self.current_page + 1;
            Some(self.page())
        } else {
            None
        }
    }

    /// Moves the cursor to the previous page and returns that page. On the
    /// first page nothing changes and nothing is returned.
    pub fn previous_page(&mut self) -> (shown: Option<Page>)
        ensures
            final(self).store == old(self).store,
            final(self)@ == old(self)@.previous(),
            shown is Some <==> old(self)@.can_go_back(),
            shown matches Some(page) ==> page@ == final(self)@.page(),
            old(self)@.current_page == 0 ==> *final(self) == *old(self) && shown is None,
            old(self)@.well_formed() ==> final(self)@.well_formed(),
    {
        if self.current_page > 0 {
            self.current_page = self.current_page - 1;
            Some(self.page())
        } else {
            None
        }
    }

    /// Appends `shortcut` to the collection, brings the cursor back onto
    /// the pages if it stood beyond them, and returns the page under it.
    /// Whatever the cursor was, it stands on a page afterwards.
    pub fn append(&mut self, shortcut: JsonShortcut) -> (page: Page)
        ensures
            final(self).store.shortcuts@ == old(self).store.shortcuts@.push(shortcut),
            final(self)@ == old(self)@.appended(shortcut@),
            page@ == final(self)@.page(),
            final(self)@.well_formed(),
            old(self)@.well_formed() ==> final(self)@.current_page == old(self)@.current_page,
    {
        self.store.add(shortcut);
        let pages = self.total_pages();
        self.current_page = clamp_page(self.current_page, pages);
        self.page()
    }

    /// Adds the shortcut that the user typed. Input whose name or command
    /// is blank is rejected before anything changes. Accepted input is
    /// appended as by `append`; the caller then saves the store.
    pub fn add_shortcut(
        &mut self,
        name: &str,
        icon_path: &str,
        command: &str,
    ) -> (outcome: AddOutcome)
        ensures
            final(self)@ == old(self)@.with_input(name@, icon_path@, command@),
            outcome is Added <==> acceptable(name@, command@),
            outcome is Rejected ==> *final(self) == *old(self),
            outcome matches AddOutcome::Added(page) ==> page@ == final(self)@.page()
                && final(self)@.well_formed(),
    {
        if is_blank(name) || is_blank(command) {
            AddOutcome::Rejected
        } else {
            let shortcut = JsonShortcut {
                name: name.to_owned(),
                icon_path: icon_path.to_owned(),
                command: command.to_owned(),
            };
            AddOutcome::Added(self.append(shortcut))
        }
    }
}

} // verus!
