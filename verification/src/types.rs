use vstd::prelude::*;

verus! {

/// One reviewed title as the catalogue stores it.
#[derive(Debug, Clone)]
pub struct MangaEntry {
    pub name: String,
    pub score: i64,
    pub comment: String,
    pub manga_group: i64,
    pub id: i64,
}

/// One page image of a title, with the path of its file.
#[derive(Debug, Clone)]
pub struct MangaImage {
    pub path: String,
    pub manga: i64,
    pub id: i64,
}

/// A page image as the catalogue shows it. Only the record of the image is
/// kept here: the pixels of its thumbnail play no part in navigation.
#[derive(Debug, Clone)]
pub struct DisplayedMangaImage {
    pub image: MangaImage,
}

/// A title as the catalogue shows it: its record and its pages in reading order.
#[derive(Debug, Clone)]
pub struct DisplayedMangaEntry {
    pub entry: MangaEntry,
    pub thumbnails: Vec<DisplayedMangaImage>,
}

} // verus!
