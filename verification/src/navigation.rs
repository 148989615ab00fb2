use vstd::prelude::*;

use crate::collection::{browsable, page_counts, views, Manga};

verus! {

/// The direction in which a viewer asks the shared position to move.
#[derive(Clone, Copy, Debug, PartialEq, Eq, Structural)]
pub enum Action {
    Next,
    Prev,
}

/// The shared read position: an item of the collection and a page of that item,
/// both counted from zero.
pub struct Cursor {
    pub manga: int,
    pub page: int,
}

/// The cursor names a page that exists, given the number of pages of each item.
pub open spec fn in_range(pages: Seq<nat>, c: Cursor) -> bool {
    &&& 0 <= c.manga < pages.len()
    &&& 0 <= c.page < pages[c.manga]
}

/// One step forward: the next page of the item; from an item's last page the
/// first page of the next item; from the last page of the last item, no move.
pub open spec fn advance(pages: Seq<nat>, c: Cursor) -> Cursor {
    if c.page + 1 < pages[c.manga] {
        Cursor { manga: c.manga, page: c.page + 1 }
    } else if c.manga + 1 < pages.len() {
        Cursor { manga: c.manga + 1, page: 0 }
    } else {
        c
    }
}

/// One step back: the page before; from an item's first page the last page of
/// the item before; from the first page of the first item, no move.
pub open spec fn retreat(pages: Seq<nat>, c: Cursor) -> Cursor {
    if c.page > 0 {
        Cursor { manga: c.manga, page: c.page - 1 }
    } else if c.manga > 0 {
        Cursor { manga: c.manga - 1, page: pages[c.manga - 1] - 1 }
    } else {
        c
    }
}

/// The cursor after one step in the given direction.
pub open spec fn step(pages: Seq<nat>, c: Cursor, action: Action) -> Cursor {
    match action {
        Action::Next => advance(pages, c),
        Action::Prev => retreat(pages, c),
    }
}

/// The cursor stands where a step in the given direction goes nowhere: on the
/// last page of the last item for `Next`, on the first page of the first item
/// for `Prev`.
pub open spec fn at_edge(pages: Seq<nat>, c: Cursor, action: Action) -> bool {
    match action {
        Action::Next => c.manga + 1 == pages.len() && c.page + 1 == pages[c.manga],
        Action::Prev => c.manga == 0 && c.page == 0,
    }
}

/// Every item has a page.
pub open spec fn no_empty_item(pages: Seq<nat>) -> bool {
    forall|i: int| 0 <= i < pages.len() ==> #[trigger] pages[i] > 0
}

/// A step never leaves the collection: from a page that exists it leads to a
/// page that exists, whatever the direction.
pub proof fn lemma_step_in_range(pages: Seq<nat>, c: Cursor, action: Action)
    requires
        no_empty_item(pages),
        in_range(pages, c),
    ensures
        in_range(pages, step(pages, c, action)),
{
}

/// A step moves the cursor exactly when the cursor is not at the edge that the
/// direction points to.
pub proof fn lemma_step_moves_unless_at_edge(pages: Seq<nat>, c: Cursor, action: Action)
    requires
        no_empty_item(pages),
        in_range(pages, c),
    ensures
        step(pages, c, action) != c <==> !at_edge(pages, c, action),
{
}

/// Moves a position one step through the collection and returns the new
/// position as item index and page index.
pub fn move_cursor(mangas: &Vec<Manga>, manga: usize, page: usize, action: Action) -> (moved: (
    usize,
    usize,
))
    requires
        browsable(views(mangas@)),
        in_range(page_counts(views(mangas@)), Cursor { manga: manga as int, page: page as int }),
    ensures
        (Cursor { manga: moved.0 as int, page: moved.1 as int }) == step(
            page_counts(views(mangas@)),
            Cursor { manga: manga as int, page: page as int },
            action,
        ),
{
    let ghost pages = page_counts(views(mangas@));
    assert(views(mangas@).len() == mangas@.len());
    assert(pages.len() == mangas@.len());
    assert(pages[manga as int] == mangas@[manga as int]@.page_paths.len());
    assert(manga < mangas.len());
    let count = mangas[manga].page_count();
    match action {
        Action::Next => {
            if page + 1 < count {
                (manga, page + 1)
            } else if manga + 1 < mangas.len() {
                (manga + 1, 0)
            } else {
                (manga, page)
            }
        },
        Action::Prev => {
            if page > 0 {
                (manga, page - 1)
            } else if manga > 0 {
                assert(pages[manga - 1] == mangas@[manga - 1]@.page_paths.len());
                assert(views(mangas@)[manga - 1].page_paths.len() > 0);
                (manga - 1, mangas[manga - 1].page_count() - 1)
            } else {
                (manga, page)
            }
        },
    }
}

} // verus!
