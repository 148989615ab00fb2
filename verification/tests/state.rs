use manga_sync::collection::{check_collection, prepare_data, Manga, StartupError};
use manga_sync::navigation::Action;
use manga_sync::state::AppState;
use manga_sync::types::{DisplayedMangaEntry, DisplayedMangaImage, MangaEntry, MangaImage};
use manga_sync::viewer::{UUID_KIND_MASK, UUID_KIND_RANDOM};

fn item(name: &str, score: i64, pages: usize) -> Manga {
    let paths = (0..pages).map(|i| format!("media/{}/{}.jpg", name, i)).collect();
    Manga::new(name.to_string(), score, format!("about {}", name), paths)
}

fn start(shape: &[usize]) -> AppState {
    let mangas: Vec<Manga> =
        shape.iter().enumerate().map(|(i, n)| item(&format!("m{}", i), i as i64, *n)).collect();
    assert_eq!(check_collection(&mangas), Ok(()));
    AppState::from_displayed(mangas)
}

#[test]
fn startup_is_first_page_without_viewers() {
    let state = start(&[3, 2]);
    assert_eq!(state.cursor(), (0, 0));
    assert_eq!(state.viewer_count(), 0);
    assert!(state.viewers().is_empty());
    assert_eq!(state.check_consensus(), None);
    let shown = state.get_client_state();
    assert_eq!(shown.manga_name, "m0");
    assert_eq!(shown.manga_score, 0);
    assert_eq!(shown.manga_comment, "about m0");
    assert_eq!(shown.page_src, "/image?manga=0&page=0");
    assert_eq!(shown.manga_pos, (1, 2));
    assert_eq!(shown.page_pos, (1, 3));
}

#[test]
fn empty_collection_is_refused() {
    let mangas: Vec<Manga> = Vec::new();
    assert_eq!(check_collection(&mangas), Err(StartupError::EmptyCollection));
    assert_eq!(StartupError::EmptyCollection.message(), "The collection is empty");
}

#[test]
fn item_without_pages_is_refused() {
    let mangas = vec![item("a", 1, 2), item("b", 2, 0), item("c", 3, 0)];
    assert_eq!(check_collection(&mangas), Err(StartupError::EmptyItem(1)));
    assert_eq!(
        StartupError::EmptyItem(1).message(),
        "An item of the collection has no pages"
    );
}

#[test]
fn viewers_are_counted_through_joins_and_leaves() {
    let mut state = start(&[1]);
    for id in 1..=5u128 {
        assert!(state.register_with(id));
        assert_eq!(state.viewer_count(), id as usize);
    }
    assert!(!state.register_with(3));
    assert_eq!(state.viewer_count(), 5);
    state.unregister(2);
    state.unregister(4);
    assert_eq!(state.viewer_count(), 3);
    state.unregister(4);
    assert_eq!(state.viewer_count(), 3);
    let mut ids = state.viewers();
    ids.sort();
    assert_eq!(ids, vec![1, 3, 5]);
    assert!(state.is_registered(1));
    assert!(!state.is_registered(2));
}

#[test]
fn random_registration_gives_distinct_version_four_ids() {
    let mut state = start(&[1]);
    let a = state.register().expect("a free identifier");
    let b = state.register().expect("a free identifier");
    assert_ne!(a, b);
    assert_eq!(a & UUID_KIND_MASK, UUID_KIND_RANDOM);
    assert_eq!(b & UUID_KIND_MASK, UUID_KIND_RANDOM);
    assert_eq!(state.viewer_count(), 2);
    assert!(state.is_registered(a) && state.is_registered(b));
    assert_eq!(state.vote_of(a), None);
}

#[test]
fn three_viewers_move_only_when_all_agree() {
    let mut state = start(&[4]);
    for id in [1u128, 2, 3] {
        assert!(state.register_with(id));
    }
    assert!(state.cast_vote(1, Action::Next).is_none());
    assert!(state.cast_vote(2, Action::Next).is_none());
    assert_eq!(state.cursor(), (0, 0));
    assert_eq!(state.check_consensus(), None);
    let shown = state.cast_vote(3, Action::Next).expect("all three agree");
    assert_eq!(state.cursor(), (0, 1));
    assert_eq!(shown.page_pos, (2, 4));
    for id in [1u128, 2, 3] {
        assert_eq!(state.vote_of(id), None);
    }
}

#[test]
fn one_dissenting_vote_blocks_the_move() {
    let mut state = start(&[4]);
    for id in [1u128, 2, 3] {
        assert!(state.register_with(id));
    }
    assert!(state.cast_vote(1, Action::Next).is_none());
    assert!(state.cast_vote(2, Action::Prev).is_none());
    assert!(state.cast_vote(3, Action::Next).is_none());
    assert_eq!(state.cursor(), (0, 0));
    assert_eq!(state.vote_of(2), Some(Action::Prev));
    // the dissenter changes its mind: the round completes
    assert!(state.cast_vote(2, Action::Next).is_some());
    assert_eq!(state.cursor(), (0, 1));
}

#[test]
fn join_takes_back_pending_votes() {
    let mut state = start(&[4]);
    assert!(state.register_with(1));
    assert!(state.register_with(2));
    assert!(state.cast_vote(1, Action::Next).is_none());
    assert!(state.register_with(3));
    assert_eq!(state.vote_of(1), None);
    assert_eq!(state.vote_of(3), None);
    assert!(state.cast_vote(2, Action::Next).is_none());
    assert!(state.cast_vote(3, Action::Next).is_none());
    assert_eq!(state.cursor(), (0, 0));
}

#[test]
fn refused_registration_changes_nothing() {
    let mut state = start(&[4]);
    assert!(state.register_with(1));
    assert!(state.register_with(2));
    assert!(state.cast_vote(1, Action::Next).is_none());
    assert!(!state.register_with(2));
    assert_eq!(state.vote_of(1), Some(Action::Next));
    assert_eq!(state.viewer_count(), 2);
}

#[test]
fn vote_of_unknown_viewer_is_ignored() {
    let mut state = start(&[4]);
    assert!(state.register_with(1));
    assert!(state.cast_vote(99, Action::Next).is_none());
    assert_eq!(state.cursor(), (0, 0));
    assert_eq!(state.viewer_count(), 1);
    assert!(!state.is_registered(99));
    assert_eq!(state.vote_of(99), None);
}

#[test]
fn single_viewer_next_walks_the_whole_collection() {
    let mut state = start(&[3, 2]);
    assert!(state.register_with(1));
    let expected = [(0, 1), (0, 2), (1, 0), (1, 1), (1, 1), (1, 1)];
    for at in expected {
        let shown = state.cast_vote(1, Action::Next).expect("a sole viewer decides");
        assert_eq!(state.cursor(), at);
        assert_eq!(shown.manga_pos, (at.0 + 1, 2));
        assert_eq!(shown.page_pos.0, at.1 + 1);
        assert_eq!(state.vote_of(1), None);
    }
}

#[test]
fn single_viewer_prev_walks_back_to_the_start() {
    let mut state = start(&[3, 2]);
    assert!(state.register_with(1));
    for _ in 0..4 {
        state.cast_vote(1, Action::Next);
    }
    assert_eq!(state.cursor(), (1, 1));
    let expected = [(1, 0), (0, 2), (0, 1), (0, 0), (0, 0)];
    for at in expected {
        assert!(state.cast_vote(1, Action::Prev).is_some());
        assert_eq!(state.cursor(), at);
    }
}

#[test]
fn step_at_the_edge_still_ends_the_round() {
    let mut state = start(&[1]);
    assert!(state.register_with(1));
    assert!(state.register_with(2));
    assert!(state.cast_vote(1, Action::Prev).is_none());
    let shown = state.cast_vote(2, Action::Prev).expect("consensus at the edge");
    assert_eq!(state.cursor(), (0, 0));
    assert_eq!(shown.page_pos, (1, 1));
    assert_eq!(state.vote_of(1), None);
    assert_eq!(state.vote_of(2), None);
}

#[test]
fn navigate_and_try_advance() {
    let mut state = start(&[2, 2]);
    assert!(state.register_with(1));
    assert!(state.try_advance().is_none());
    state.navigate(Action::Next);
    assert_eq!(state.cursor(), (0, 1));
    state.navigate(Action::Next);
    assert_eq!(state.cursor(), (1, 0));
    state.navigate(Action::Prev);
    assert_eq!(state.cursor(), (0, 1));
    assert_eq!(state.vote_of(1), None);
}

#[test]
fn prepare_data_keeps_order_and_fields() {
    let entry = |id: i64, name: &str, score: i64, paths: &[&str]| DisplayedMangaEntry {
        entry: MangaEntry {
            name: name.to_string(),
            score,
            comment: format!("c{}", id),
            manga_group: 1,
            id,
        },
        thumbnails: paths
            .iter()
            .enumerate()
            .map(|(i, p)| DisplayedMangaImage {
                image: MangaImage { path: p.to_string(), manga: id, id: i as i64 },
            })
            .collect(),
    };
    let entries = vec![
        entry(5, "Five", 10, &["x/1.jpg", "x/2.jpg"]),
        entry(3, "Three", -2, &["y/1.jpg"]),
        entry(9, "Nine", 0, &[]),
    ];
    let mangas = prepare_data(&entries);
    assert_eq!(mangas.len(), 3);
    assert_eq!(mangas[0].name(), "Five");
    assert_eq!(mangas[0].score(), 10);
    assert_eq!(mangas[0].comment(), "c5");
    assert_eq!(mangas[0].page_count(), 2);
    assert_eq!(mangas[0].page_path(1).map(|p| p.as_str()), Some("x/2.jpg"));
    assert_eq!(mangas[0].page_path(2), None);
    assert_eq!(mangas[1].name(), "Three");
    assert_eq!(mangas[1].score(), -2);
    assert_eq!(mangas[1].page_path(0).map(|p| p.as_str()), Some("y/1.jpg"));
    assert_eq!(mangas[2].page_count(), 0);
    assert_eq!(check_collection(&mangas), Err(StartupError::EmptyItem(2)));
}
