use manga_sync::collection::{check_collection, Manga};
use manga_sync::navigation::Action;
use manga_sync::resolver::{resolve, ImageError};
use manga_sync::state::AppState;

fn pages(prefix: &str, count: usize) -> Vec<String> {
    (0..count).map(|i| format!("media/{}/{}.jpg", prefix, i)).collect()
}

fn two_items() -> Vec<Manga> {
    vec![
        Manga::new("A".to_string(), 7, "first".to_string(), pages("a", 3)),
        Manga::new("B".to_string(), 9, "second".to_string(), pages("b", 2)),
    ]
}

fn start() -> AppState {
    let mangas = two_items();
    assert!(check_collection(&mangas).is_ok());
    AppState::from_displayed(mangas)
}

/// A state over the two items with the cursor moved to the given place by the
/// votes of a viewer that leaves again.
fn state_at(manga: usize, page: usize) -> AppState {
    let mut state = start();
    assert!(state.register_with(1000));
    let mut guard = 0;
    while state.cursor() != (manga, page) {
        assert!(state.cast_vote(1000, Action::Next).is_some());
        guard += 1;
        assert!(guard < 10);
    }
    state.unregister(1000);
    assert_eq!(state.viewer_count(), 0);
    state
}

#[test]
fn two_viewers_agree_on_next_across_items() {
    let mut state = state_at(0, 2);
    assert!(state.register_with(1));
    assert!(state.register_with(2));
    assert!(state.cast_vote(1, Action::Next).is_none());
    assert_eq!(state.cursor(), (0, 2));
    let shown = state.cast_vote(2, Action::Next).expect("consensus");
    assert_eq!(state.cursor(), (1, 0));
    assert_eq!(shown.manga_name, "B");
    assert_eq!(shown.manga_pos, (2, 2));
    assert_eq!(shown.page_pos, (1, 2));
    assert_eq!(shown.page_src, "/image?manga=1&page=0");
}

#[test]
fn two_viewers_disagree_and_stay() {
    let mut state = state_at(0, 2);
    assert!(state.register_with(1));
    assert!(state.register_with(2));
    assert!(state.cast_vote(1, Action::Next).is_none());
    assert!(state.cast_vote(2, Action::Prev).is_none());
    assert_eq!(state.cursor(), (0, 2));
    assert_eq!(state.vote_of(1), Some(Action::Next));
    assert_eq!(state.vote_of(2), Some(Action::Prev));
}

#[test]
fn sole_viewer_goes_back_over_the_boundary() {
    let mut state = state_at(1, 0);
    assert!(state.register_with(7));
    let shown = state.cast_vote(7, Action::Prev).expect("consensus");
    assert_eq!(state.cursor(), (0, 2));
    assert_eq!(shown.manga_name, "A");
    assert_eq!(shown.page_pos, (3, 3));
}

#[test]
fn image_index_out_of_range_is_an_error() {
    let state = start();
    assert_eq!(resolve(state.collection(), 5, 0), Err(ImageError::InvalidMangaIndex));
    assert_eq!(ImageError::InvalidMangaIndex.message(), "Invalid manga index");
    assert_eq!(state.cursor(), (0, 0));
}

#[test]
fn leave_clears_the_pending_vote() {
    let mut state = start();
    assert!(state.register_with(10));
    assert!(state.register_with(20));
    assert!(state.cast_vote(10, Action::Next).is_none());
    assert_eq!(state.vote_of(10), Some(Action::Next));
    state.unregister(20);
    assert_eq!(state.viewer_count(), 1);
    assert_eq!(state.vote_of(10), None);
    assert_eq!(state.cursor(), (0, 0));
    assert_eq!(state.check_consensus(), None);
}
