use vstd::prelude::*;

use crate::collection::{views, Manga, MangaView};

verus! {

/// The content type under which page images are served.
pub const IMAGE_CONTENT_TYPE: &'static str = "image/webp";

/// Why a request for a page image is answered with an error.
#[derive(Clone, Copy, Debug, PartialEq, Eq, Structural)]
pub enum ImageError {
    /// The collection has no item at the index asked for.
    InvalidMangaIndex,
    /// The item has no page at the index asked for.
    InvalidPageIndex,
    /// The file of the page could not be read.
    ReadFailed,
}

impl ImageError {
    /// The error in the words of the response.
    pub fn message(&self) -> (text: &'static str)
        ensures
            text@ == match *self {
                ImageError::InvalidMangaIndex => "Invalid manga index"@,
                ImageError::InvalidPageIndex => "Invalid page index"@,
                ImageError::ReadFailed => "Failed to read image"@,
            },
    {
        match self {
            ImageError::InvalidMangaIndex => "Invalid manga index",
            ImageError::InvalidPageIndex => "Invalid page index",
            ImageError::ReadFailed => "Failed to read image",
        }
    }
}

/// Where the file of a page is, or why the request cannot be served: the item
/// index is checked first, then the page index.
pub open spec fn resolved(collection: Seq<MangaView>, manga: int, page: int) -> Result<
    Seq<char>,
    ImageError,
> {
    if !(0 <= manga < collection.len()) {
        Err(ImageError::InvalidMangaIndex)
    } else if !(0 <= page < collection[manga].page_paths.len()) {
        Err(ImageError::InvalidPageIndex)
    } else {
        Ok(collection[manga].page_paths[page])
    }
}

/// Finds the path of the file of a page. Indices out of range are answered
/// with an error; they are no fault.
pub fn resolve(mangas: &Vec<Manga>, manga: usize, page: usize) -> (found: Result<String, ImageError>)
    ensures
        match found {
            Ok(path) => resolved(views(mangas@), manga as int, page as int) == Ok::<
                Seq<char>,
                ImageError,
            >(path@),
            Err(e) => resolved(views(mangas@), manga as int, page as int) == Err::<
                Seq<char>,
                ImageError,
            >(e),
        },
{
    if manga >= mangas.len() {
        return Err(ImageError::InvalidMangaIndex);
    }
    assert(views(mangas@)[manga as int] == mangas@[manga as int]@);
    match mangas[manga].page_path(page) {
        Some(path) => Ok(path.clone()),
        None => Err(ImageError::InvalidPageIndex),
    }
}

/// Settles a request once the file was read, or could not be: the bytes as
/// they are, or the error of a failed read.
pub fn finish_read(bytes: Option<Vec<u8>>) -> (response: Result<Vec<u8>, ImageError>)
    ensures
        response == match bytes {
            Some(b) => Ok::<Vec<u8>, ImageError>(b),
            None => Err::<Vec<u8>, ImageError>(ImageError::ReadFailed),
        },
{
    match bytes {
        Some(b) => Ok(b),
        None => Err(ImageError::ReadFailed),
    }
}

} // verus!
