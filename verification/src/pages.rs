//! Pages: the windowed, two-level view of the shortcut collection that the
//! presentation layer shows, a page at a time and a row at a time.

use vstd::prelude::*;

use crate::shortcuts::{records, JsonShortcut, ShortcutRecord};

verus! {

/// How many records one page shows at most.
pub const PAGE_SIZE: usize = 10;

/// How many records one row of a page shows at most.
pub const ROW_SIZE: usize = 5;

/// The number of pages that a collection of `collection_size` records
/// fills: `collection_size / PAGE_SIZE`, rounded up.
pub open spec fn page_count(collection_size: nat) -> nat {
    ((collection_size + PAGE_SIZE - 1) / (PAGE_SIZE as int)) as nat
}

/// The number of rows that a page slice of `slice_len` records fills:
/// `slice_len / ROW_SIZE`, rounded up.
pub open spec fn row_count(slice_len: nat) -> nat {
    ((slice_len + ROW_SIZE - 1) / (ROW_SIZE as int)) as nat
}

/// The contiguous slice of `collection` that page `page_index` covers. It
/// starts at `page_index * PAGE_SIZE`, holds at most `PAGE_SIZE` records and
/// is empty for a page that starts at or after the end of the collection.
pub open spec fn page_slice<T>(collection: Seq<T>, page_index: nat) -> Seq<T> {
    let start = page_index * PAGE_SIZE;
    let end = if start + PAGE_SIZE <= collection.len() {
        start + PAGE_SIZE
    } else {
        collection.len() as int
    };
    if start >= collection.len() {
        Seq::empty()
    } else {
        collection.subrange(start, end)
    }
}

/// Row `row_index` of a page slice: the records from `row_index * ROW_SIZE`
/// on, `ROW_SIZE` of them or as many as are left.
pub open spec fn row_of<T>(slice: Seq<T>, row_index: int) -> Seq<T> {
    let start = row_index * ROW_SIZE;
    let end = if start + ROW_SIZE <= slice.len() {
        start + ROW_SIZE
    } else {
        slice.len() as int
    };
    slice.subrange(start, end)
}

/// A page slice cut into consecutive rows, in order.
pub open spec fn rows_of<T>(slice: Seq<T>) -> Seq<Seq<T>> {
    Seq::new(row_count(slice.len()), |row_index: int| row_of(slice, row_index))
}

/// Page `page_index` of `collection`, as rows of records.
pub open spec fn page_rows<T>(collection: Seq<T>, page_index: nat) -> Seq<Seq<T>> {
    rows_of(page_slice(collection, page_index))
}

/// The number of pages of a collection of `collection_size` records.
pub fn total_pages(collection_size: usize) -> (pages: usize)
    ensures
        pages == page_count(collection_size as nat),
{
    let full: usize = collection_size / PAGE_SIZE;
    if collection_size % PAGE_SIZE == 0 {
        full
    } else {
        full + 1
    }
}

/// The rows of records that rows of shortcuts stand for.
pub open spec fn row_records(rows: Seq<Vec<JsonShortcut>>) -> Seq<Seq<ShortcutRecord>> {
    Seq::new(rows.len(), |row_index: int| records(rows[row_index]@))
}

/// One page of the grid: rows of at most `ROW_SIZE` shortcuts each. A page
/// is a snapshot; it does not follow later changes of the collection.
#[derive(Debug)]
pub struct Page {
    pub rows: Vec<Vec<JsonShortcut>>,
}

impl View for Page {
    type V = Seq<Seq<ShortcutRecord>>;

    open spec fn view(&self) -> Seq<Seq<ShortcutRecord>> {
        row_records(self.rows@)
    }
}

/// Copies of the shortcuts of `collection` from index `from` up to, not
/// including, index `to`.
fn copy_range(collection: &Vec<JsonShortcut>, from: usize, to: usize) -> (copy: Vec<JsonShortcut>)
    requires
        from <= to <= collection.len(),
    ensures
        copy@ == collection@.subrange(from as int, to as int),
{
    let mut copy: Vec<JsonShortcut> = Vec::new();
    let mut i: usize = from;
    while i < to
        invariant
            from <= i <= to <= collection.len(),
            copy@ == collection@.subrange(from as int, i as int),
        decreases to - i,
    {
        copy.push(collection[i].clone());
        i += 1;
    }
    copy
}

/// The shortcuts that page `page_index` of `collection` shows, in order.
/// A page beyond the last one shows nothing; it is not an error to ask for it.
pub fn page_items(collection: &Vec<JsonShortcut>, page_index: usize) -> (items: Vec<JsonShortcut>)
    ensures
        items@ == page_slice(collection@, page_index as nat),
        records(items@) == page_slice(records(collection@), page_index as nat),
{
    let size: usize = collection.len();
    match page_index.checked_mul(PAGE_SIZE) {
        Some(start) => {
            if start >= size {
                Vec::new()
            } else {
                let end: usize = if size - start >= PAGE_SIZE {
                    start + PAGE_SIZE
                } else {
                    size
                };
                copy_range(collection, start, end)
            }
        },
        None => Vec::new(),
    }
}

/// Cuts the shortcuts of one page into consecutive rows of `ROW_SIZE`; the
/// last row holds what is left and may be shorter.
pub fn chunk_rows(items: &Vec<JsonShortcut>) -> (rows: Vec<Vec<JsonShortcut>>)
    ensures
        row_records(rows@) == rows_of(records(items@)),
{
    let size: usize = items.len();
    let mut rows: Vec<Vec<JsonShortcut>> = Vec::new();
    let mut start: usize = 0;
    while start < size
        invariant
            size == items.len(),
            start <= size,
            start == rows.len() * ROW_SIZE || start == size,
            rows.len() == row_count(start as nat),
            forall|r: int| 0 <= r < rows.len() ==> (#[trigger] rows@[r])@ == row_of(items@, r),
        decreases size - start,
    {
        let end: usize = if size - start >= ROW_SIZE {
            start + ROW_SIZE
        } else {
            size
        };
        let row = copy_range(items, start, end);
        rows.push(row);
        start = end;
    }
    proof {
        assert forall|r: int| 0 <= r < rows.len() implies #[trigger] row_records(rows@)[r]
            == rows_of(records(items@))[r] by {
            assert(records(rows@[r]@) =~= row_of(records(items@), r));
        }
        assert(row_records(rows@) =~= rows_of(records(items@)));
    }
    rows
}

/// Page `page_index` of `collection`: its slice of at most `PAGE_SIZE`
/// shortcuts, cut into rows. A page beyond the last one has no rows.
pub fn project(collection: &Vec<JsonShortcut>, page_index: usize) -> (page: Page)
    ensures
        page@ == page_rows(records(collection@), page_index as nat),
{
    let items = page_items(collection, page_index);
    Page { rows: chunk_rows(&items) }
}

/// The records of every page of `collection`, page after page and, within
/// a page, row after row.
pub open spec fn paged_records<T>(collection: Seq<T>) -> Seq<T> {
    Seq::new(
        page_count(collection.len()),
        |page_index: int| page_rows(collection, page_index as nat).flatten(),
    ).flatten()
}

/// Pieces cut from `whole` at consecutive cut points, put together again,
/// give `whole` up to the last cut point.
proof fn lemma_flatten_pieces<T>(pieces: Seq<Seq<T>>, whole: Seq<T>, cuts: Seq<int>)
    requires
        cuts.len() == pieces.len() + 1,
        cuts[0] == 0,
        forall|i: int|
            0 <= i < pieces.len() ==> 0 <= #[trigger] cuts[i] <= cuts[i + 1] <= whole.len(),
        forall|i: int|
            0 <= i < pieces.len() ==> #[trigger] pieces[i] == whole.subrange(cuts[i], cuts[i + 1]),
    ensures
        pieces.flatten() == whole.subrange(0, cuts.last()),
    decreases pieces.len(),
{
    if pieces.len() == 0 {
        assert(pieces.flatten() =~= whole.subrange(0, cuts.last()));
    } else {
        let front = pieces.drop_last();
        let last = pieces.len() - 1;
        assert(0 <= cuts[last] <= cuts[last + 1] <= whole.len());
        assert forall|i: int| 0 <= i < front.len() implies 0 <= #[trigger] cuts.drop_last()[i]
            <= cuts.drop_last()[i + 1] <= whole.len() by {
            assert(0 <= cuts[i] <= cuts[i + 1] <= whole.len());
        }
        assert forall|i: int| 0 <= i < front.len() implies #[trigger] front[i] == whole.subrange(
            cuts.drop_last()[i],
            cuts.drop_last()[i + 1],
        ) by {
            assert(pieces[i] == whole.subrange(cuts[i], cuts[i + 1]));
        }
        lemma_flatten_pieces(front, whole, cuts.drop_last());
        front.lemma_flatten_push(pieces.last());
        assert(front.push(pieces.last()) =~= pieces);
        assert(pieces[last] == whole.subrange(cuts[last], cuts[last + 1]));
        assert(whole.subrange(0, cuts[last]) + whole.subrange(cuts[last], cuts[last + 1])
            =~= whole.subrange(0, cuts[last + 1]));
    }
}

/// Rows partition a page slice. A slice of `L` records is cut into
/// `L / ROW_SIZE` rows, rounded up; every row but the last holds exactly
/// `ROW_SIZE` records; the last holds `L mod ROW_SIZE` records, or `ROW_SIZE`
/// where `L` is a multiple of `ROW_SIZE` other than zero; and the rows, read
/// in order, are the slice again.
pub proof fn rows_partition_slice<T>(slice: Seq<T>)
    ensures
        rows_of(slice).len() == row_count(slice.len()),
        slice.len() == 0 ==> row_count(slice.len()) == 0,
        slice.len() > 0 ==> (row_count(slice.len()) - 1) * ROW_SIZE < slice.len(),
        slice.len() <= row_count(slice.len()) * ROW_SIZE,
        forall|r: int|
            0 <= r < rows_of(slice).len() - 1 ==> (#[trigger] rows_of(slice)[r]).len() == ROW_SIZE,
        slice.len() > 0 && slice.len() % (ROW_SIZE as nat) == 0 ==> rows_of(slice).last().len()
            == ROW_SIZE,
        slice.len() % (ROW_SIZE as nat) != 0 ==> rows_of(slice).last().len() == slice.len() % (
        ROW_SIZE as nat),
        rows_of(slice).flatten() == slice,
{
    let rows = rows_of(slice);
    let len = slice.len() as int;
    let cuts = Seq::new(
        rows.len() + 1,
        |i: int| if i * ROW_SIZE <= len { i * ROW_SIZE } else { len },
    );
    assert forall|i: int| 0 <= i < rows.len() implies #[trigger] rows[i] == slice.subrange(
        cuts[i],
        cuts[i + 1],
    ) by {
        assert(rows[i] == row_of(slice, i));
    }
    lemma_flatten_pieces(rows, slice, cuts);
    assert(slice.subrange(0, len) =~= slice);
}

/// Pages cover the collection. A collection of `N` records has
/// `N / PAGE_SIZE` pages, rounded up; the records of all its pages, read
/// page after page and row after row, are the collection itself, each record
/// once and in its place; and any page after the last has no rows.
pub proof fn pages_cover_collection<T>(collection: Seq<T>)
    ensures
        collection.len() == 0 ==> page_count(collection.len()) == 0,
        collection.len() > 0 ==> (page_count(collection.len()) - 1) * PAGE_SIZE
            < collection.len(),
        collection.len() <= page_count(collection.len()) * PAGE_SIZE,
        paged_records(collection) == collection,
        forall|page_index: nat|
            page_index >= page_count(collection.len()) ==> (#[trigger] page_rows(
                collection,
                page_index,
            )).len() == 0,
{
    let len = collection.len() as int;
    let count = page_count(collection.len());
    let pages = Seq::new(
        count,
        |page_index: int| page_rows(collection, page_index as nat).flatten(),
    );
    let cuts = Seq::new(
        count + 1,
        |i: int| if i * PAGE_SIZE <= len { i * PAGE_SIZE } else { len },
    );
    assert forall|i: int| 0 <= i < pages.len() implies #[trigger] pages[i] == collection.subrange(
        cuts[i],
        cuts[i + 1],
    ) by {
        rows_partition_slice(page_slice(collection, i as nat));
    }
    lemma_flatten_pieces(pages, collection, cuts);
    assert(collection.subrange(0, len) =~= collection);
}

/// The page on which the record at `index` of a collection stands.
pub open spec fn page_of(index: int) -> nat {
    (index / (PAGE_SIZE as int)) as nat
}

/// The row of its page in which the record at `index` of a collection stands.
pub open spec fn row_on_page(index: int) -> int {
    (index % (PAGE_SIZE as int)) / (ROW_SIZE as int)
}

/// The place in its row at which the record at `index` of a collection stands.
pub open spec fn place_in_row(index: int) -> int {
    index % (ROW_SIZE as int)
}

/// Where a record is shown. The record at index `i` of the collection
/// stands on page `i / PAGE_SIZE`, in row `(i mod PAGE_SIZE) / ROW_SIZE` of
/// that page, at place `i mod ROW_SIZE` of that row.
pub proof fn record_position<T>(collection: Seq<T>, i: int)
    requires
        0 <= i < collection.len(),
    ensures
        page_of(i) < page_count(collection.len()),
        0 <= row_on_page(i) < page_rows(collection, page_of(i)).len(),
        0 <= place_in_row(i) < page_rows(collection, page_of(i))[row_on_page(i)].len(),
        page_rows(collection, page_of(i))[row_on_page(i)][place_in_row(i)] == collection[i],
        page_of(i) * PAGE_SIZE + row_on_page(i) * ROW_SIZE + place_in_row(i) == i,
{
}

/// What a place on a page shows. The record at place `place` of row `row`
/// of page `page_index` is the record at index
/// `page_index * PAGE_SIZE + row * ROW_SIZE + place` of the collection.
pub proof fn place_shows_record<T>(collection: Seq<T>, page_index: nat, row: int, place: int)
    requires
        0 <= row < page_rows(collection, page_index).len(),
        0 <= place < page_rows(collection, page_index)[row].len(),
    ensures
        row < PAGE_SIZE / ROW_SIZE,
        place < ROW_SIZE,
        page_index * PAGE_SIZE + row * ROW_SIZE + place < collection.len(),
        page_rows(collection, page_index)[row][place] == collection[page_index * PAGE_SIZE + row
            * ROW_SIZE + place],
{
}

} // verus!
