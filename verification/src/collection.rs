use vstd::prelude::*;

use crate::types::DisplayedMangaEntry;

verus! {

/// One item of the collection that viewers browse together.
pub struct Manga {
    name: String,
    score: i64,
    comment: String,
    page_paths: Vec<String>,
}

/// What an item is, as mathematics: its texts as sequences of characters.
pub struct MangaView {
    pub name: Seq<char>,
    pub score: i64,
    pub comment: Seq<char>,
    pub page_paths: Seq<Seq<char>>,
}

impl View for Manga {
    type V = MangaView;

    closed spec fn view(&self) -> MangaView {
        MangaView {
            name: self.name@,
            score: self.score,
            comment: self.comment@,
            page_paths: self.page_paths.deep_view(),
        }
    }
}

/// The item that a catalogue entry stands for: its title, score and comment,
/// and the paths of its pages in the catalogue's order.
pub open spec fn manga_of(entry: DisplayedMangaEntry) -> MangaView {
    MangaView {
        name: entry.entry.name@,
        score: entry.entry.score,
        comment: entry.entry.comment@,
        page_paths: Seq::new(
            entry.thumbnails@.len(),
            |j: int| entry.thumbnails@[j].image.path@,
        ),
    }
}

/// The views of a list of items, in order.
pub open spec fn views(mangas: Seq<Manga>) -> Seq<MangaView> {
    Seq::new(mangas.len(), |i: int| mangas[i]@)
}

/// The number of pages of each item, in order.
pub open spec fn page_counts(collection: Seq<MangaView>) -> Seq<nat> {
    Seq::new(collection.len(), |i: int| collection[i].page_paths.len())
}

/// A collection can be browsed when it holds an item and every item holds a page.
pub open spec fn browsable(collection: Seq<MangaView>) -> bool {
    &&& collection.len() > 0
    &&& forall|i: int| 0 <= i < collection.len() ==> (#[trigger] collection[i]).page_paths.len() > 0
}

/// Why a collection cannot be served.
#[derive(Clone, Copy, Debug, PartialEq, Eq, Structural)]
pub enum StartupError {
    /// The collection holds no item.
    EmptyCollection,
    /// The item at this index holds no page.
    EmptyItem(usize),
}

impl StartupError {
    /// The error in words.
    pub fn message(&self) -> (text: &'static str)
        ensures
            text@ == match *self {
                StartupError::EmptyCollection => "The collection is empty"@,
                StartupError::EmptyItem(_) => "An item of the collection has no pages"@,
            },
    {
        match self {
            StartupError::EmptyCollection => "The collection is empty",
            StartupError::EmptyItem(_) => "An item of the collection has no pages",
        }
    }
}

/// Checks before startup that a collection can be browsed.
pub fn check_collection(mangas: &Vec<Manga>) -> (checked: Result<(), StartupError>)
    ensures
        checked is Ok <==> browsable(views(mangas@)),
        match checked {
            Ok(_) => true,
            Err(StartupError::EmptyCollection) => mangas@.len() == 0,
            Err(StartupError::EmptyItem(i)) => {
                &&& i < mangas@.len()
                &&& mangas@[i as int]@.page_paths.len() == 0
                &&& forall|k: int| 0 <= k < i ==> (#[trigger] mangas@[k])@.page_paths.len() > 0
            },
        },
{
    if mangas.len() == 0 {
        return Err(StartupError::EmptyCollection);
    }
    let mut i: usize = 0;
    while i < mangas.len()
        invariant
            i <= mangas.len(),
            forall|k: int| 0 <= k < i ==> (#[trigger] mangas@[k])@.page_paths.len() > 0,
        decreases mangas.len() - i,
    {
        if mangas[i].page_count() == 0 {
            assert(views(mangas@)[i as int].page_paths.len() == 0);
            return Err(StartupError::EmptyItem(i));
        }
        i += 1;
    }
    assert forall|k: int| 0 <= k < views(mangas@).len() implies (#[trigger] views(
        mangas@,
    )[k]).page_paths.len() > 0 by {
        assert(mangas@[k]@.page_paths.len() > 0);
    }
    Ok(())
}

impl Manga {
    pub fn new(name: String, score: i64, comment: String, page_paths: Vec<String>) -> (manga: Manga)
        ensures
            manga@ == (MangaView {
                name: name@,
                score: score,
                comment: comment@,
                page_paths: page_paths.deep_view(),
            }),
    {
        Manga { name, score, comment, page_paths }
    }

    pub fn name(&self) -> (name: &String)
        ensures
            name@ == self@.name,
    {
        &self.name
    }

    pub fn score(&self) -> (score: i64)
        ensures
            score == self@.score,
    {
        self.score
    }

    pub fn comment(&self) -> (comment: &String)
        ensures
            comment@ == self@.comment,
    {
        &self.comment
    }

    pub fn page_count(&self) -> (count: usize)
        ensures
            count == self@.page_paths.len(),
    {
        self.page_paths.len()
    }

    /// The path of one page, or `None` past the last page.
    pub fn page_path(&self, page: usize) -> (path: Option<&String>)
        ensures
            match path {
                Some(p) => page < self@.page_paths.len() && p@ == self@.page_paths[page as int],
                None => page >= self@.page_paths.len(),
            },
    {
        if page < self.page_paths.len() {
            let p = &self.page_paths[page];
            assert(self.page_paths.deep_view()[page as int] == self.page_paths@[page as int]@);
            Some(p)
        } else {
            None
        }
    }
}

/// Turns the catalogue's entries into the items of a collection, one for one
/// and in the same order.
pub fn prepare_data(entries: &Vec<DisplayedMangaEntry>) -> (mangas: Vec<Manga>)
    ensures
        views(mangas@) == Seq::new(entries@.len(), |i: int| manga_of(entries@[i])),
{
    let mut mangas: Vec<Manga> = Vec::new();
    let mut i: usize = 0;
    while i < entries.len()
        invariant
            i <= entries.len(),
            mangas@.len() == i,
            forall|k: int| 0 <= k < i ==> (#[trigger] mangas@[k])@ == manga_of(entries@[k]),
        decreases entries.len() - i,
    {
        let entry = &entries[i];
        let mut paths: Vec<String> = Vec::new();
        let mut j: usize = 0;
        while j < entry.thumbnails.len()
            invariant
                j <= entry.thumbnails.len(),
                paths@.len() == j,
                forall|k: int| 0 <= k < j ==> (#[trigger] paths@[k])@ == entry.thumbnails@[k].image.path@,
            decreases entry.thumbnails.len() - j,
        {
            paths.push(entry.thumbnails[j].image.path.clone());
            j += 1;
        }
        let manga = Manga {
            name: entry.entry.name.clone(),
            score: entry.entry.score,
            comment: entry.entry.comment.clone(),
            page_paths: paths,
        };
        assert(manga@.page_paths =~= manga_of(*entry).page_paths);
        mangas.push(manga);
        i += 1;
    }
    assert(views(mangas@) =~= Seq::new(entries@.len(), |i: int| manga_of(entries@[i])));
    mangas
}

} // verus!
