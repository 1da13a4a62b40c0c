use app_launcher::pages::Page;
use app_launcher::session::{clamp_page, AddOutcome, Session};
use app_launcher::shortcuts::{JsonShortcut, ShortcutStore};

fn store_of(count: usize) -> ShortcutStore {
    let mut store = ShortcutStore::load_or_default(None);
    for i in 0..count {
        store.add(JsonShortcut {
            name: format!("s{}", i),
            icon_path: format!("s{}.png", i),
            command: format!("run s{}", i),
        });
    }
    store
}

fn row_names(page: &Page) -> Vec<Vec<String>> {
    page.rows
        .iter()
        .map(|row| row.iter().map(|shortcut| shortcut.name.clone()).collect())
        .collect()
}

fn added_page(outcome: AddOutcome) -> Page {
    match outcome {
        AddOutcome::Added(page) => page,
        AddOutcome::Rejected => panic!("the shortcut was rejected"),
    }
}

#[test]
fn new_session_starts_on_the_first_page() {
    let session = Session::new(store_of(25));
    assert_eq!(session.current_page(), 0);
    assert_eq!(session.total_pages(), 3);
    assert_eq!(session.store.shortcuts.len(), 25);
    let page = session.page();
    assert_eq!(page.rows.len(), 2);
    assert_eq!(page.rows[0][0].name, "s0");
    assert_eq!(page.rows[1][4].name, "s9");
}

#[test]
fn new_session_over_an_empty_store() {
    let session = Session::new(ShortcutStore::load_or_default(None));
    assert_eq!(session.current_page(), 0);
    assert_eq!(session.total_pages(), 0);
    assert!(session.page().rows.is_empty());
}

#[test]
fn next_page_moves_forward() {
    let mut session = Session::new(store_of(25));
    let shown = session.next_page().expect("there is a second page");
    assert_eq!(session.current_page(), 1);
    assert_eq!(shown.rows[0][0].name, "s10");
    assert_eq!(shown.rows[1][4].name, "s19");
    let shown = session.next_page().expect("there is a third page");
    assert_eq!(session.current_page(), 2);
    assert_eq!(row_names(&shown), vec![vec!["s20", "s21", "s22", "s23", "s24"]]);
}

#[test]
fn next_page_on_the_last_page_changes_nothing() {
    let mut session = Session::new(store_of(25));
    session.current_page = 2;
    assert!(session.next_page().is_none());
    assert_eq!(session.current_page(), 2);
    assert_eq!(session.store.shortcuts.len(), 25);
}

#[test]
fn next_page_on_a_single_page_changes_nothing() {
    let mut session = Session::new(store_of(10));
    assert!(session.next_page().is_none());
    assert_eq!(session.current_page(), 0);
}

#[test]
fn next_page_without_pages_changes_nothing() {
    let mut session = Session::new(store_of(0));
    assert!(session.next_page().is_none());
    assert_eq!(session.current_page(), 0);
}

#[test]
fn next_page_beyond_the_pages_changes_nothing() {
    let mut session = Session { store: store_of(5), current_page: usize::MAX };
    assert!(session.next_page().is_none());
    assert_eq!(session.current_page(), usize::MAX);
}

#[test]
fn previous_page_on_the_first_page_changes_nothing() {
    let mut session = Session::new(store_of(25));
    assert!(session.previous_page().is_none());
    assert_eq!(session.current_page(), 0);
    assert_eq!(session.store.shortcuts.len(), 25);
}

#[test]
fn previous_page_moves_back() {
    let mut session = Session::new(store_of(25));
    session.next_page();
    session.next_page();
    let shown = session.previous_page().expect("there is a page before");
    assert_eq!(session.current_page(), 1);
    assert_eq!(shown.rows[0][0].name, "s10");
    let shown = session.previous_page().expect("there is a page before");
    assert_eq!(session.current_page(), 0);
    assert_eq!(shown.rows[0][0].name, "s0");
    assert!(session.previous_page().is_none());
}

#[test]
fn add_to_ten_records_opens_a_second_page_and_keeps_the_cursor() {
    let mut session = Session::new(store_of(10));
    assert_eq!(session.total_pages(), 1);
    assert_eq!(session.current_page(), 0);
    let page = added_page(session.add_shortcut("A", "", "cmd"));
    assert_eq!(session.store.shortcuts.len(), 11);
    assert_eq!(session.total_pages(), 2);
    assert_eq!(session.current_page(), 0);
    assert_eq!(page.rows.len(), 2);
    assert_eq!(page.rows[0][0].name, "s0");
    assert_eq!(page.rows[1][4].name, "s9");
    let last = &session.store.shortcuts[10];
    assert_eq!(last.name, "A");
    assert_eq!(last.icon_path, "");
    assert_eq!(last.command, "cmd");
    let second = session.next_page().expect("the new record is on page 1");
    assert_eq!(row_names(&second), vec![vec!["A"]]);
}

#[test]
fn add_brings_a_cursor_beyond_the_pages_back_to_the_last_page() {
    let mut session = Session { store: store_of(10), current_page: 2 };
    let page = added_page(session.add_shortcut("A", "", "cmd"));
    assert_eq!(session.store.shortcuts.len(), 11);
    assert_eq!(session.total_pages(), 2);
    assert_eq!(session.current_page(), 1);
    assert_eq!(row_names(&page), vec![vec!["A"]]);
}

#[test]
fn add_brings_a_far_cursor_back_to_the_last_page() {
    let mut session = Session { store: store_of(30), current_page: 7 };
    let page = added_page(session.add_shortcut("B", "b.png", "b"));
    assert_eq!(session.total_pages(), 4);
    assert_eq!(session.current_page(), 3);
    assert_eq!(row_names(&page), vec![vec!["B"]]);
}

#[test]
fn add_keeps_a_cursor_that_reaches_its_page() {
    let mut session = Session { store: store_of(10), current_page: 1 };
    let page = added_page(session.add_shortcut("A", "", "cmd"));
    assert_eq!(session.current_page(), 1);
    assert_eq!(row_names(&page), vec![vec!["A"]]);
}

#[test]
fn add_to_an_empty_session() {
    let mut session = Session::new(store_of(0));
    let page = added_page(session.add_shortcut("first", "f.png", "echo first"));
    assert_eq!(session.store.shortcuts.len(), 1);
    assert_eq!(session.total_pages(), 1);
    assert_eq!(session.current_page(), 0);
    assert_eq!(row_names(&page), vec![vec!["first"]]);
    assert_eq!(page.rows[0][0].icon_path, "f.png");
    assert_eq!(page.rows[0][0].command, "echo first");
}

#[test]
fn add_on_a_later_page_shows_that_page() {
    let mut session = Session::new(store_of(12));
    session.next_page();
    let page = added_page(session.add_shortcut("new", "", "new"));
    assert_eq!(session.current_page(), 1);
    assert_eq!(row_names(&page), vec![vec!["s10", "s11", "new"]]);
}

#[test]
fn add_with_an_empty_name_is_rejected() {
    let mut session = Session::new(store_of(3));
    let outcome = session.add_shortcut("", "icon.png", "ls");
    assert!(matches!(outcome, AddOutcome::Rejected));
    assert_eq!(session.store.shortcuts.len(), 3);
    assert_eq!(session.current_page(), 0);
}

#[test]
fn add_with_a_blank_command_is_rejected() {
    let mut session = Session::new(store_of(3));
    let outcome = session.add_shortcut("Name", "icon.png", "   ");
    assert!(matches!(outcome, AddOutcome::Rejected));
    assert_eq!(session.store.shortcuts.len(), 3);
    assert_eq!(session.current_page(), 0);
}

#[test]
fn add_with_a_blank_name_is_rejected() {
    let mut session = Session::new(store_of(0));
    assert!(matches!(session.add_shortcut(" \t\n", "", "ls"), AddOutcome::Rejected));
    assert!(matches!(session.add_shortcut("name", "", ""), AddOutcome::Rejected));
    assert!(matches!(session.add_shortcut("", "", ""), AddOutcome::Rejected));
    assert!(session.store.shortcuts.is_empty());
    assert_eq!(session.total_pages(), 0);
}

#[test]
fn rejected_input_leaves_a_cursor_beyond_the_pages_alone() {
    let mut session = Session { store: store_of(10), current_page: 4 };
    assert!(matches!(session.add_shortcut("", "", "cmd"), AddOutcome::Rejected));
    assert_eq!(session.current_page(), 4);
    assert_eq!(session.store.shortcuts.len(), 10);
}

#[test]
fn add_accepts_an_empty_icon_path() {
    let mut session = Session::new(store_of(0));
    assert!(matches!(session.add_shortcut("n", "", "c"), AddOutcome::Added(_)));
    assert!(matches!(session.add_shortcut("n", "   ", "c"), AddOutcome::Added(_)));
    assert_eq!(session.store.shortcuts.len(), 2);
}

#[test]
fn add_keeps_the_text_as_typed() {
    let mut session = Session::new(store_of(0));
    added_page(session.add_shortcut("  Files ", " files.png", "nautilus  ~ "));
    let stored = &session.store.shortcuts[0];
    assert_eq!(stored.name, "  Files ");
    assert_eq!(stored.icon_path, " files.png");
    assert_eq!(stored.command, "nautilus  ~ ");
}

#[test]
fn append_does_not_validate() {
    let mut session = Session::new(store_of(0));
    let page = session.append(JsonShortcut {
        name: String::new(),
        icon_path: String::new(),
        command: String::new(),
    });
    assert_eq!(session.store.shortcuts.len(), 1);
    assert_eq!(page.rows.len(), 1);
    assert_eq!(page.rows[0][0].name, "");
}

#[test]
fn append_to_ten_records() {
    let mut session = Session::new(store_of(10));
    let page = session.append(JsonShortcut {
        name: "A".to_string(),
        icon_path: String::new(),
        command: "cmd".to_string(),
    });
    assert_eq!(session.store.shortcuts.len(), 11);
    assert_eq!(session.total_pages(), 2);
    assert_eq!(session.current_page(), 0);
    assert_eq!(page.rows.len(), 2);
}

#[test]
fn clamp_page_keeps_a_cursor_on_the_pages() {
    assert_eq!(clamp_page(0, 2), 0);
    assert_eq!(clamp_page(1, 2), 1);
    assert_eq!(clamp_page(0, 1), 0);
}

#[test]
fn clamp_page_moves_a_cursor_to_the_last_page() {
    assert_eq!(clamp_page(2, 2), 1);
    assert_eq!(clamp_page(5, 2), 1);
    assert_eq!(clamp_page(1, 1), 0);
    assert_eq!(clamp_page(usize::MAX, 7), 6);
}

#[test]
fn clamp_page_without_pages_is_zero() {
    assert_eq!(clamp_page(0, 0), 0);
    assert_eq!(clamp_page(3, 0), 0);
}

#[test]
fn cursor_stays_on_the_pages_through_a_session() {
    let mut session = Session::new(store_of(0));
    for step in 0..60 {
        match step % 4 {
            0 => {
                session.add_shortcut("n", "", "c");
            }
            1 => {
                session.next_page();
            }
            2 => {
                session.next_page();
            }
            _ => {
                session.previous_page();
            }
        }
        assert!(session.current_page() < session.total_pages());
    }
    assert_eq!(session.store.shortcuts.len(), 15);
}
