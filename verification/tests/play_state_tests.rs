use musicus::config::PlaylistManagerCache;
use musicus::play_state::{check_can_draw, PlayMode, PlayPosition, PlayState};
use musicus::playlist_manager::{PlaylistManager, PlaylistView};
use musicus::song::playlist::Playlist;
use std::collections::HashMap;

fn manager(lengths: &[usize]) -> PlaylistManager {
    let playlists = lengths
        .iter()
        .enumerate()
        .map(|(p, length)| Playlist {
            id: p,
            name: format!("list {}", p),
            songs: (0..*length).map(|s| (100 * p + s) as u32).collect(),
            cursor_position: 0,
            scroll_position: 0,
        })
        .collect();
    let cache = PlaylistManagerCache {
        view: PlaylistView::Overview,
        shown_playlist_index: 0,
        playlist_scroll_position: 0,
        scroll_cursor_positions: HashMap::new(),
    };
    PlaylistManager::new(playlists, &cache)
}

#[test]
fn a_new_play_state_plays_nothing() {
    let mut state = PlayState::new(PlayMode::Shuffle);
    assert!(!state.playing);
    assert_eq!(state.mode, PlayMode::Shuffle);
    assert!(state.history.is_empty());
    assert_eq!(state.get_current_play_position(), None);
    assert_eq!(state.peek_next_song(), None);
    assert!(!state.is_playlist_played(0));
    assert!(!state.is_song_played(0, 0));
}

#[test]
fn play_song_finds_the_next_song_in_normal_mode() {
    let pm = manager(&[10, 2]);
    let mut state = PlayState::new(PlayMode::Normal);
    let position = PlayPosition::Playlist(3, 0, 3, false);
    assert_eq!(state.play_song(position, &pm), Ok(()));
    assert_eq!(state.get_current_play_position(), Some(position));
    assert_eq!(state.history, vec![position]);
    assert_eq!(state.peek_next_song(), Some(PlayPosition::Playlist(4, 0, 4, false)));
    assert!(state.is_playlist_played(0));
    assert!(!state.is_playlist_played(1));
    assert!(state.is_song_played(0, 3));
    assert!(!state.is_song_played(0, 4));
    assert_eq!(position.get_id(), 3);
    assert_eq!(PlayPosition::File(8).get_id(), 8);
}

#[test]
fn nothing_follows_the_last_song_of_a_playlist() {
    let pm = manager(&[10, 2]);
    let mut state = PlayState::new(PlayMode::Normal);
    state.set_next_song(PlayPosition::File(1));
    let position = PlayPosition::Playlist(101, 1, 1, false);
    assert_eq!(
        state.play_song(position, &pm),
        Err("get song failed with playlist_index=1 song_index=2".to_string())
    );
    // the position plays all the same, and the next song stays what it was
    assert_eq!(state.get_current_play_position(), Some(position));
    assert_eq!(state.history, vec![position]);
    assert_eq!(state.peek_next_song(), Some(PlayPosition::File(1)));
}

#[test]
fn nothing_follows_a_position_past_the_range_of_indices() {
    let pm = manager(&[3]);
    let next = PlayState::next_song_for(
        &PlayMode::Normal,
        &PlayPosition::Playlist(0, 0, usize::MAX, false),
        &pm,
        0,
    );
    let expected = format!(
        "get song failed with playlist_index=0 song_index={}",
        usize::MAX as u128 + 1
    );
    assert_eq!(next, Err(expected));
    let next = PlayState::next_song_for(
        &PlayMode::Normal,
        &PlayPosition::Playlist(0, 7, 0, false),
        &pm,
        0,
    );
    assert_eq!(next, Err("get song failed with playlist_index=7 song_index=1".to_string()));
}

#[test]
fn nothing_follows_a_song_of_the_file_browser() {
    let pm = manager(&[10]);
    let mut state = PlayState::new(PlayMode::Normal);
    assert_eq!(state.play_song(PlayPosition::File(5), &pm), Err("file".to_string()));
    assert_eq!(state.get_current_play_position(), Some(PlayPosition::File(5)));
    assert_eq!(state.peek_next_song(), None);
    let mut shuffled = PlayState::new(PlayMode::Shuffle);
    assert_eq!(shuffled.play_song(PlayPosition::File(5), &pm), Err("file".to_string()));
}

#[test]
fn without_a_current_song_no_next_song_is_defined() {
    let pm = manager(&[10]);
    let mut state = PlayState::new(PlayMode::Normal);
    assert_eq!(state.define_next_song(&pm), Err("no current song".to_string()));
    assert_eq!(state.toggle_mode(&pm), Err("no current song".to_string()));
    assert_eq!(state.mode, PlayMode::Shuffle);
    assert_eq!(
        state.play_next_song(&pm),
        Err("Cannot play next song: no next song".to_string())
    );
    assert!(state.history.is_empty());
}

#[test]
fn shuffle_goes_by_the_random_number() {
    let pm = manager(&[10, 4]);
    let position = PlayPosition::Playlist(3, 0, 3, false);
    for random in [0usize, 7, 10, 123_456, usize::MAX] {
        let next = PlayState::next_song_for(&PlayMode::Shuffle, &position, &pm, random);
        assert_eq!(next, Ok(((random % 10) as u32, random % 10, 0)));
    }
    let next = PlayState::next_song_for(
        &PlayMode::Shuffle,
        &PlayPosition::Playlist(100, 1, 0, true),
        &pm,
        6,
    );
    assert_eq!(next, Ok((102, 2, 1)));
    // in normal mode the random number makes no difference
    let next = PlayState::next_song_for(&PlayMode::Normal, &position, &pm, 6);
    assert_eq!(next, Ok((4, 4, 0)));
}

#[test]
fn songs_can_be_drawn_from_a_playlist_that_has_some() {
    let pm = manager(&[10, 0]);
    assert!(check_can_draw(&pm, &PlayPosition::Playlist(0, 0, 0, false)));
    assert!(!check_can_draw(&pm, &PlayPosition::Playlist(0, 1, 0, false)));
    assert!(!check_can_draw(&pm, &PlayPosition::Playlist(0, 2, 0, false)));
    assert!(check_can_draw(&pm, &PlayPosition::File(0)));
    let mut state = PlayState::new(PlayMode::Normal);
    assert!(state.check_can_define_next(PlayMode::Shuffle, &pm));
    state.current_song = Some(PlayPosition::Playlist(0, 1, 0, false));
    assert!(!state.check_can_define_next(PlayMode::Shuffle, &pm));
    assert!(state.check_can_define_next(PlayMode::Normal, &pm));
}

#[test]
fn toggling_the_mode_finds_the_next_song_anew() {
    let pm = manager(&[10]);
    let mut state = PlayState::new(PlayMode::Normal);
    state.play_song(PlayPosition::Playlist(3, 0, 3, false), &pm).unwrap();
    assert_eq!(state.peek_next_song(), Some(PlayPosition::Playlist(4, 0, 4, false)));
    for _ in 0..50 {
        assert_eq!(state.toggle_mode(&pm), Ok(()));
        assert_eq!(state.mode, PlayMode::Shuffle);
        match state.peek_next_song() {
            Some(PlayPosition::Playlist(song_id, 0, index, false)) => {
                assert!(index < 10);
                assert_eq!(song_id, index as u32);
            }
            other => panic!("no song of the playlist: {:?}", other),
        }
        assert_eq!(state.toggle_mode(&pm), Ok(()));
        assert_eq!(state.mode, PlayMode::Normal);
        assert_eq!(state.peek_next_song(), Some(PlayPosition::Playlist(4, 0, 4, false)));
    }
    // toggling does not touch what plays
    assert_eq!(state.history.len(), 1);
    assert_eq!(state.get_current_play_position(), Some(PlayPosition::Playlist(3, 0, 3, false)));
}

#[test]
fn play_next_song_moves_on() {
    let pm = manager(&[3]);
    let mut state = PlayState::new(PlayMode::Normal);
    state.play_song(PlayPosition::Playlist(0, 0, 0, false), &pm).unwrap();
    assert_eq!(state.play_next_song(&pm), Ok(()));
    assert_eq!(state.get_current_play_position(), Some(PlayPosition::Playlist(1, 0, 1, false)));
    assert_eq!(state.peek_next_song(), Some(PlayPosition::Playlist(2, 0, 2, false)));
    assert_eq!(
        state.play_next_song(&pm),
        Err("get song failed with playlist_index=0 song_index=3".to_string())
    );
    assert_eq!(state.get_current_play_position(), Some(PlayPosition::Playlist(2, 0, 2, false)));
    assert_eq!(
        state.history,
        vec![
            PlayPosition::Playlist(0, 0, 0, false),
            PlayPosition::Playlist(1, 0, 1, false),
            PlayPosition::Playlist(2, 0, 2, false)
        ]
    );
    // what plays is the last of the history
    assert_eq!(state.history.last().copied(), state.get_current_play_position());
}

#[test]
fn deleting_the_song_that_plays() {
    let mut state = PlayState::new(PlayMode::Normal);
    state.history = vec![PlayPosition::Playlist(7, 0, 3, false)];
    state.current_song = Some(PlayPosition::Playlist(7, 0, 3, false));
    state.next_song = Some(PlayPosition::Playlist(8, 0, 4, false));
    state.apply_playlist_delete(0, 3);
    assert_eq!(state.current_song, Some(PlayPosition::Playlist(7, 0, 3, true)));
    assert_eq!(state.next_song, Some(PlayPosition::Playlist(8, 0, 3, false)));
    assert_eq!(state.history, vec![PlayPosition::Playlist(7, 0, 3, true)]);
}

#[test]
fn deletion_adjusts_every_position() {
    let before = vec![
        PlayPosition::File(1),
        PlayPosition::Playlist(1, 0, 0, false),
        PlayPosition::Playlist(2, 0, 2, false),
        PlayPosition::Playlist(3, 0, 3, false),
        PlayPosition::Playlist(5, 0, 5, true),
        PlayPosition::Playlist(9, 0, 9, false),
        PlayPosition::Playlist(3, 1, 3, false),
        PlayPosition::Playlist(4, 1, 4, false),
        PlayPosition::Playlist(3, 0, 3, true),
    ];
    let mut state = PlayState::new(PlayMode::Normal);
    state.history = before.clone();
    state.current_song = before.last().copied();
    state.apply_playlist_delete(0, 3);
    assert_eq!(
        state.history,
        vec![
            PlayPosition::File(1),
            PlayPosition::Playlist(1, 0, 0, false),
            PlayPosition::Playlist(2, 0, 2, false),
            PlayPosition::Playlist(3, 0, 3, true),
            PlayPosition::Playlist(5, 0, 4, true),
            PlayPosition::Playlist(9, 0, 8, false),
            PlayPosition::Playlist(3, 1, 3, false),
            PlayPosition::Playlist(4, 1, 4, false),
            PlayPosition::Playlist(3, 0, 3, true),
        ]
    );
    // no position was at the song behind the deleted one, so every position at the
    // place of the deleted song is marked
    for position in &state.history {
        assert!(!matches!(position, PlayPosition::Playlist(_, 0, 3, false)));
    }
    assert_eq!(state.current_song, Some(PlayPosition::Playlist(3, 0, 3, true)));
    assert_eq!(state.next_song, None);

    let mut single = PlayPosition::Playlist(4, 0, 4, false);
    single.apply_playlist_delete(0, 3);
    assert_eq!(single, PlayPosition::Playlist(4, 0, 3, false));
}
