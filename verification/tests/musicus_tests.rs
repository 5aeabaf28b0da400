use musicus::audio_backend::{
    AudioBackendCommand, AudioCommand, AudioInfo, OpenError, SeekCommand, SeekDirection,
};
use musicus::config::{PlaylistManagerCache, ViewState};
use musicus::debug_manager::DebugManager;
use musicus::musicus::{
    changed_volume, delete_shown_song, filemanager_context_action, follow_playlist, gain,
    handle_audio_info, key_action, key_needs_render, padded, panel_line, panels_start, play,
    play_state_line, playlist_manager_context_action, seek_command, signed_decimal_string,
    start_next_song, toggle_mode, toggle_pause, volume_command, InputAction, SongInfo,
};
use musicus::play_state::{PlayMode, PlayPosition, PlayState};
use musicus::playlist_manager::{PlaylistManager, PlaylistView};
use musicus::render::{Alignment, RenderColor};
use musicus::song::playlist::Playlist;
use musicus::song::song_buffer::SongBuffer;
use musicus::song::Song;
use musicus::time::Duration;
use std::collections::HashMap;

struct Player {
    playing_song_info: Option<SongInfo>,
    play_state: PlayState,
    playlist_manager: PlaylistManager,
    song_buffer: SongBuffer,
    debug_manager: DebugManager,
}

/// A player with one playlist of the songs 0 to 4.
fn player() -> Player {
    let mut song_buffer = SongBuffer::new();
    for i in 0..5 {
        song_buffer.import(&format!("/music/{}.ogg", i), Some(&format!("song {}", i)));
    }
    let cache = PlaylistManagerCache {
        view: PlaylistView::Playlist,
        shown_playlist_index: 0,
        playlist_scroll_position: 0,
        scroll_cursor_positions: HashMap::new(),
    };
    let playlist = Playlist {
        id: 0,
        name: "all".to_string(),
        songs: vec![0, 1, 2, 3, 4],
        cursor_position: 0,
        scroll_position: 0,
    };
    Player {
        playing_song_info: None,
        play_state: PlayState::new(PlayMode::Normal),
        playlist_manager: PlaylistManager::new(vec![playlist], &cache),
        song_buffer,
        debug_manager: DebugManager::new(),
    }
}

fn log_of(debug_manager: &DebugManager) -> Vec<(String, RenderColor)> {
    debug_manager.get_render_object().panels[0]
        .entries
        .iter()
        .map(|entry| (entry.text.clone(), entry.foreground_color))
        .collect()
}

fn played_song(command: &Option<AudioBackendCommand>) -> Option<u32> {
    match command {
        Some(AudioBackendCommand::Command(AudioCommand::Play(song))) => Some(song.get_id()),
        _ => None,
    }
}

#[test]
fn keys_mean_the_same_in_every_view() {
    for view in [ViewState::FileManager, ViewState::Playlists, ViewState::Debug] {
        assert_eq!(key_action('q', view), InputAction::Quit);
        assert_eq!(key_action('L', view), InputAction::Seek(SeekDirection::Forward));
        assert_eq!(key_action('H', view), InputAction::Seek(SeekDirection::Backward));
        assert_eq!(key_action('J', view), InputAction::StartNextSong);
        assert_eq!(key_action('c', view), InputAction::TogglePause);
        assert_eq!(key_action('1', view), InputAction::ShowView(ViewState::FileManager));
        assert_eq!(key_action('2', view), InputAction::ShowView(ViewState::Playlists));
        assert_eq!(key_action('3', view), InputAction::ShowView(ViewState::Debug));
        assert_eq!(key_action('s', view), InputAction::ToggleMode);
        assert_eq!(key_action('f', view), InputAction::ToggleFollow);
        assert_eq!(key_action('+', view), InputAction::ChangeVolume(5));
        assert_eq!(key_action('-', view), InputAction::ChangeVolume(-5));
        assert_eq!(key_action('x', view), InputAction::Unknown);
    }
}

#[test]
fn keys_of_the_views() {
    let files = ViewState::FileManager;
    assert_eq!(key_action('\n', files), InputAction::FileManagerContextAction);
    assert_eq!(key_action('y', files), InputAction::FileManagerAddToPlaylist);
    assert_eq!(key_action('n', files), InputAction::FileManagerNewPlaylist);
    assert_eq!(key_action('h', files), InputAction::FileManagerMoveLeft);
    assert_eq!(key_action('j', files), InputAction::FileManagerMoveDown);
    assert_eq!(key_action('k', files), InputAction::FileManagerMoveUp);
    assert_eq!(key_action('l', files), InputAction::FileManagerMoveRight);
    assert_eq!(key_action('i', files), InputAction::ImportPlaylists);
    assert_eq!(key_action('D', files), InputAction::Unknown);
    assert_eq!(key_action('F', files), InputAction::Unknown);
    assert_eq!(key_action('p', files), InputAction::Unknown);
    let lists = ViewState::Playlists;
    assert_eq!(key_action('\n', lists), InputAction::PlaylistContextAction);
    assert_eq!(key_action('h', lists), InputAction::PlaylistMoveLeft);
    assert_eq!(key_action('l', lists), InputAction::PlaylistMoveRight);
    assert_eq!(key_action('j', lists), InputAction::PlaylistMoveDown);
    assert_eq!(key_action('k', lists), InputAction::PlaylistMoveUp);
    assert_eq!(key_action('O', lists), InputAction::OptimizeNames);
    assert_eq!(key_action('y', lists), InputAction::CopySong);
    assert_eq!(key_action('p', lists), InputAction::PasteSong);
    assert_eq!(key_action('D', lists), InputAction::DeleteSong);
    assert_eq!(key_action('F', lists), InputAction::FollowPlaylist);
    assert_eq!(key_action('i', lists), InputAction::Unknown);
    assert_eq!(key_action('n', lists), InputAction::Unknown);
    let debug = ViewState::Debug;
    assert_eq!(key_action('j', debug), InputAction::DebugScroll(1));
    assert_eq!(key_action('k', debug), InputAction::DebugScroll(-1));
    assert_eq!(key_action('h', debug), InputAction::Unknown);
    assert_eq!(key_action('\n', debug), InputAction::Unknown);
    assert!(key_needs_render(InputAction::Quit, files));
    assert!(!key_needs_render(InputAction::Unknown, files));
    assert!(!key_needs_render(InputAction::Unknown, lists));
    assert!(key_needs_render(InputAction::Unknown, debug));
}

#[test]
fn the_volume_stays_within_nothing_and_full_scale() {
    assert_eq!(changed_volume(50, 5), 55);
    assert_eq!(changed_volume(50, -5), 45);
    assert_eq!(changed_volume(98, 5), 100);
    assert_eq!(changed_volume(3, -5), 0);
    assert_eq!(changed_volume(i32::MAX, i32::MAX), 100);
    assert_eq!(changed_volume(i32::MIN, i32::MIN), 0);
    assert_eq!(gain(55), 55);
    assert_eq!(gain(-1), 0);
    assert_eq!(gain(101), 100);
    assert_eq!(gain(0), 0);
    assert_eq!(gain(100), 100);
    assert!(matches!(
        volume_command(55),
        AudioBackendCommand::Command(AudioCommand::SetVolume(55))
    ));
    assert!(matches!(
        volume_command(-3),
        AudioBackendCommand::Command(AudioCommand::SetVolume(0))
    ));
    assert!(matches!(
        volume_command(300),
        AudioBackendCommand::Command(AudioCommand::SetVolume(100))
    ));
}

#[test]
fn a_seek_key_jumps_five_seconds() {
    let expected = SeekCommand {
        duration: Duration::from_secs(5),
        direction: SeekDirection::Backward,
    };
    assert!(matches!(
        seek_command(SeekDirection::Backward),
        AudioBackendCommand::Command(AudioCommand::Seek(seek)) if seek == expected
    ));
}

#[test]
fn pause_is_toggled() {
    let mut state = PlayState::new(PlayMode::Normal);
    assert!(matches!(
        toggle_pause(&mut state),
        AudioBackendCommand::Command(AudioCommand::Unpause)
    ));
    assert!(state.playing);
    assert!(matches!(
        toggle_pause(&mut state),
        AudioBackendCommand::Command(AudioCommand::Pause)
    ));
    assert!(!state.playing);
    let song = Song::new(1, "a".to_string(), "/a".to_string());
    assert_eq!(played_song(&Some(play(&mut state, song))), Some(1));
    assert!(state.playing);
}

#[test]
fn the_cursor_follows_the_song_that_plays() {
    let mut p = player();
    follow_playlist(&p.play_state, &mut p.playlist_manager, 3);
    assert!(p.playlist_manager.scroll_cursor_positions.is_empty());
    p.play_state.current_song = Some(PlayPosition::Playlist(4, 0, 4, false));
    follow_playlist(&p.play_state, &mut p.playlist_manager, 3);
    assert_eq!(p.playlist_manager.positions(0), (2, 4));
    p.play_state.current_song = Some(PlayPosition::Playlist(1, 0, 1, true));
    follow_playlist(&p.play_state, &mut p.playlist_manager, 3);
    assert_eq!(p.playlist_manager.positions(0), (2, 4));
    p.play_state.current_song = Some(PlayPosition::File(1));
    follow_playlist(&p.play_state, &mut p.playlist_manager, 3);
    assert_eq!(p.playlist_manager.positions(0), (2, 4));
}

#[test]
fn the_song_under_the_cursor_is_played() {
    let mut p = player();
    p.playlist_manager.set_cursor_position(0, 2, 10);
    let command = playlist_manager_context_action(
        &mut p.play_state,
        &p.playlist_manager,
        &p.song_buffer,
        &mut p.debug_manager,
    );
    assert_eq!(played_song(&command), Some(2));
    assert!(p.play_state.playing);
    assert_eq!(p.play_state.current_song, Some(PlayPosition::Playlist(2, 0, 2, false)));
    assert_eq!(p.play_state.next_song, Some(PlayPosition::Playlist(3, 0, 3, false)));
    assert!(log_of(&p.debug_manager)[0].0 == "<no entries>");

    // a song that the buffer does not know
    p.playlist_manager.playlists[0].songs[2] = 77;
    let command = playlist_manager_context_action(
        &mut p.play_state,
        &p.playlist_manager,
        &p.song_buffer,
        &mut p.debug_manager,
    );
    assert!(command.is_none());
    assert_eq!(
        log_of(&p.debug_manager),
        vec![("Failed to start song id 77".to_string(), RenderColor::Red)]
    );
    // no song under the cursor
    p.playlist_manager.playlists[0].songs.clear();
    let command = playlist_manager_context_action(
        &mut p.play_state,
        &p.playlist_manager,
        &p.song_buffer,
        &mut p.debug_manager,
    );
    assert!(command.is_none());
    assert_eq!(p.play_state.history.len(), 1);
}

#[test]
fn the_file_under_the_cursor_is_played() {
    let mut p = player();
    let command = filemanager_context_action(
        &mut p.play_state,
        &p.playlist_manager,
        &mut p.song_buffer,
        "/music/new.ogg",
    );
    assert_eq!(played_song(&command), Some(5));
    assert_eq!(p.song_buffer.get(5).unwrap().get_title(), "new.ogg");
    assert!(p.play_state.playing);
    assert_eq!(p.play_state.current_song, Some(PlayPosition::File(5)));
    assert_eq!(p.play_state.next_song, None);
    let command = filemanager_context_action(
        &mut p.play_state,
        &p.playlist_manager,
        &mut p.song_buffer,
        "/music/3.ogg",
    );
    assert_eq!(played_song(&command), Some(3));
    assert_eq!(p.song_buffer.len(), 6);
}

#[test]
fn the_next_song_is_started() {
    let mut p = player();
    let command = start_next_song(
        &mut p.play_state,
        &mut p.playlist_manager,
        &p.song_buffer,
        &mut p.debug_manager,
        true,
        3,
    );
    assert!(command.is_none());
    assert_eq!(
        log_of(&p.debug_manager),
        vec![("failed to start next song: {}".to_string(), RenderColor::Red)]
    );

    p.play_state.play_song(PlayPosition::Playlist(2, 0, 2, false), &p.playlist_manager).unwrap();
    let command = start_next_song(
        &mut p.play_state,
        &mut p.playlist_manager,
        &p.song_buffer,
        &mut p.debug_manager,
        true,
        3,
    );
    assert_eq!(played_song(&command), Some(3));
    assert_eq!(p.play_state.current_song, Some(PlayPosition::Playlist(3, 0, 3, false)));
    assert_eq!(p.play_state.next_song, Some(PlayPosition::Playlist(4, 0, 4, false)));
    assert_eq!(p.playlist_manager.positions(0), (1, 3));
    assert_eq!(log_of(&p.debug_manager).len(), 1);

    // the last song of the playlist starts, and nothing follows it
    let command = start_next_song(
        &mut p.play_state,
        &mut p.playlist_manager,
        &p.song_buffer,
        &mut p.debug_manager,
        false,
        3,
    );
    assert_eq!(played_song(&command), Some(4));
    assert_eq!(p.play_state.current_song, Some(PlayPosition::Playlist(4, 0, 4, false)));
    assert_eq!(p.playlist_manager.positions(0), (1, 3));
    assert_eq!(
        log_of(&p.debug_manager)[1],
        (
            "failed to start next song: get song failed with playlist_index=0 song_index=5"
                .to_string(),
            RenderColor::Red
        )
    );
}

#[test]
fn progress_queues_the_next_song_once() {
    let mut p = player();
    let outcome = handle_audio_info(
        &mut p.playing_song_info,
        &mut p.play_state,
        &p.playlist_manager,
        &mut p.song_buffer,
        &mut p.debug_manager,
        ViewState::Playlists,
        AudioInfo::Playing(1, Duration::from_secs(1)),
    );
    assert!(outcome.command.is_none());
    assert!(!outcome.has_to_render);
    assert!(!outcome.should_follow);
    assert_eq!(
        log_of(&p.debug_manager),
        vec![(
            "Got playing update, but playing song info is not set.".to_string(),
            RenderColor::Red
        )]
    );

    p.play_state.play_song(PlayPosition::Playlist(1, 0, 1, false), &p.playlist_manager).unwrap();
    p.song_buffer.update_total_duration(1, Duration::from_secs(90));
    let outcome = handle_audio_info(
        &mut p.playing_song_info,
        &mut p.play_state,
        &p.playlist_manager,
        &mut p.song_buffer,
        &mut p.debug_manager,
        ViewState::Playlists,
        AudioInfo::SongStarts(1),
    );
    assert!(outcome.command.is_none());
    assert!(outcome.has_to_render);
    assert!(outcome.should_follow);
    let shown = p.playing_song_info.as_ref().unwrap();
    assert_eq!(shown.title, "song 1");
    assert_eq!(shown.play_position, Duration::zero());
    assert_eq!(shown.total_duration, Duration::from_secs(90));
    assert!(!shown.queued_next);
    assert_eq!(p.play_state.current_song, Some(PlayPosition::Playlist(1, 0, 1, false)));

    let outcome = handle_audio_info(
        &mut p.playing_song_info,
        &mut p.play_state,
        &p.playlist_manager,
        &mut p.song_buffer,
        &mut p.debug_manager,
        ViewState::Playlists,
        AudioInfo::Playing(1, Duration::from_secs(2)),
    );
    assert!(matches!(
        &outcome.command,
        Some(AudioBackendCommand::Command(AudioCommand::Queue(song))) if song.get_id() == 2
    ));
    let shown = p.playing_song_info.as_ref().unwrap();
    assert_eq!(shown.play_position, Duration::from_secs(2));
    assert!(shown.queued_next);
    let outcome = handle_audio_info(
        &mut p.playing_song_info,
        &mut p.play_state,
        &p.playlist_manager,
        &mut p.song_buffer,
        &mut p.debug_manager,
        ViewState::Playlists,
        AudioInfo::Playing(1, Duration::from_secs(3)),
    );
    assert!(outcome.command.is_none());
    assert_eq!(p.playing_song_info.as_ref().unwrap().play_position, Duration::from_secs(3));

    // the queued song starts: it becomes the current one
    let outcome = handle_audio_info(
        &mut p.playing_song_info,
        &mut p.play_state,
        &p.playlist_manager,
        &mut p.song_buffer,
        &mut p.debug_manager,
        ViewState::Debug,
        AudioInfo::SongStarts(2),
    );
    assert!(outcome.has_to_render);
    assert_eq!(p.play_state.current_song, Some(PlayPosition::Playlist(2, 0, 2, false)));
    assert_eq!(p.play_state.next_song, Some(PlayPosition::Playlist(3, 0, 3, false)));
    let shown = p.playing_song_info.as_ref().unwrap();
    assert_eq!(shown.title, "song 2");
    assert_eq!(shown.total_duration, Duration::zero());
    assert!(!shown.queued_next);
    assert_eq!(
        log_of(&p.debug_manager)[1..],
        vec![
            ("start song \"song 1\"".to_string(), RenderColor::White),
            ("queuing \"song 2\"".to_string(), RenderColor::White),
            ("start song \"song 2\"".to_string(), RenderColor::White),
        ]
    );
}

#[test]
fn progress_without_a_next_song_is_noted() {
    let mut p = player();
    p.playing_song_info = Some(SongInfo {
        title: "last".to_string(),
        play_position: Duration::zero(),
        total_duration: Duration::from_secs(1),
        queued_next: false,
    });
    let outcome = handle_audio_info(
        &mut p.playing_song_info,
        &mut p.play_state,
        &p.playlist_manager,
        &mut p.song_buffer,
        &mut p.debug_manager,
        ViewState::Playlists,
        AudioInfo::Playing(1, Duration::from_secs(1)),
    );
    assert!(outcome.command.is_none());
    assert!(!p.playing_song_info.as_ref().unwrap().queued_next);
    assert_eq!(
        log_of(&p.debug_manager),
        vec![("failed to peek next song".to_string(), RenderColor::Red)]
    );
}

#[test]
fn lengths_and_failures_reach_the_player() {
    let mut p = player();
    let outcome = handle_audio_info(
        &mut p.playing_song_info,
        &mut p.play_state,
        &p.playlist_manager,
        &mut p.song_buffer,
        &mut p.debug_manager,
        ViewState::Playlists,
        AudioInfo::SongDuration(3, Duration::from_secs(33)),
    );
    assert!(outcome.has_to_render);
    assert_eq!(p.song_buffer.get(3).unwrap().get_total_duration(), Some(Duration::from_secs(33)));
    let outcome = handle_audio_info(
        &mut p.playing_song_info,
        &mut p.play_state,
        &p.playlist_manager,
        &mut p.song_buffer,
        &mut p.debug_manager,
        ViewState::FileManager,
        AudioInfo::SongDuration(3, Duration::from_secs(34)),
    );
    assert!(!outcome.has_to_render);
    for (song_id, error) in [(3, OpenError::FileNotFound), (9, OpenError::NotDecodable)] {
        let outcome = handle_audio_info(
            &mut p.playing_song_info,
            &mut p.play_state,
            &p.playlist_manager,
            &mut p.song_buffer,
            &mut p.debug_manager,
            ViewState::Playlists,
            AudioInfo::FailedOpen(song_id, error),
        );
        assert!(!outcome.has_to_render);
        assert!(outcome.command.is_none());
    }
    assert_eq!(
        log_of(&p.debug_manager),
        vec![
            ("Failed to open \"song 3\": FileNotFound\n".to_string(), RenderColor::Red),
            ("Failed to open \"<unknown song>\": NotDecodable\n".to_string(), RenderColor::Red),
        ]
    );
}

#[test]
fn the_mode_is_toggled() {
    let mut p = player();
    p.play_state.play_song(PlayPosition::Playlist(4, 0, 4, false), &p.playlist_manager).unwrap_err();
    p.playing_song_info = Some(SongInfo {
        title: "song 4".to_string(),
        play_position: Duration::from_secs(1),
        total_duration: Duration::from_secs(2),
        queued_next: true,
    });
    toggle_mode(&mut p.play_state, &p.playlist_manager, &mut p.playing_song_info, &mut p.debug_manager);
    assert_eq!(p.play_state.mode, PlayMode::Shuffle);
    assert!(p.play_state.next_song.is_some());
    assert!(!p.playing_song_info.as_ref().unwrap().queued_next);
    assert_eq!(log_of(&p.debug_manager)[0].0, "<no entries>");
    toggle_mode(&mut p.play_state, &p.playlist_manager, &mut p.playing_song_info, &mut p.debug_manager);
    assert_eq!(p.play_state.mode, PlayMode::Normal);
    assert_eq!(
        log_of(&p.debug_manager),
        vec![(
            "Failed to define next song, when toggling mode: get song failed with \
             playlist_index=0 song_index=5"
                .to_string(),
            RenderColor::Red
        )]
    );
}

#[test]
fn the_song_under_the_cursor_is_deleted() {
    let mut p = player();
    p.play_state.play_song(PlayPosition::Playlist(2, 0, 2, false), &p.playlist_manager).unwrap();
    p.playlist_manager.set_cursor_position(0, 2, 10);
    delete_shown_song(&mut p.play_state, &mut p.playlist_manager);
    assert_eq!(p.playlist_manager.playlists[0].songs, vec![0, 1, 3, 4]);
    assert_eq!(p.play_state.current_song, Some(PlayPosition::Playlist(2, 0, 2, true)));
    assert_eq!(p.play_state.next_song, Some(PlayPosition::Playlist(3, 0, 2, false)));
    assert_eq!(p.play_state.history, vec![PlayPosition::Playlist(2, 0, 2, true)]);
    p.playlist_manager.shown_playlist_index = 3;
    delete_shown_song(&mut p.play_state, &mut p.playlist_manager);
    assert_eq!(p.playlist_manager.playlists[0].songs, vec![0, 1, 3, 4]);
    assert_eq!(p.play_state.next_song, Some(PlayPosition::Playlist(3, 0, 2, false)));
}

#[test]
fn the_line_at_the_bottom_of_the_screen() {
    let mut state = PlayState::new(PlayMode::Normal);
    assert_eq!(
        play_state_line(&state, false, &None, 100),
        "|             0:00 / 0:00 vol: 100%"
    );
    state.playing = true;
    state.mode = PlayMode::Shuffle;
    let info = Some(SongInfo {
        title: "a song".to_string(),
        play_position: Duration::from_secs(61),
        total_duration: Duration::from_secs(3_725),
        queued_next: false,
    });
    assert_eq!(play_state_line(&state, true, &info, 5), "> SF a song  1:01 / 1:2:05  vol: 5%");
    assert_eq!(signed_decimal_string(-17), "-17");
    assert_eq!(signed_decimal_string(0), "0");
    assert_eq!(signed_decimal_string(i32::MIN), "-2147483648");
    assert_eq!(signed_decimal_string(i32::MAX), "2147483647");
}

#[test]
fn panels_are_laid_out() {
    assert_eq!(panels_start(Alignment::Left, 80, 200, 3), 0);
    assert_eq!(panels_start(Alignment::Right, 80, 20, 3), 0);
    assert_eq!(panels_start(Alignment::Right, 80, 100, 3), -35);
    assert_eq!(padded("ab", 5), "ab   ");
    assert_eq!(padded("abcdef", 5), "abcdef");
    assert_eq!(padded("ü", 3), "ü  ");
    assert_eq!(panel_line("entry", 0, 5, 80), Some("entry     ".to_string()));
    assert_eq!(panel_line("entry", 0, 8, 80), Some("entry        ".to_string()));
    assert_eq!(panel_line("entry", -2, 5, 80), Some("try       ".to_string()));
    assert_eq!(panel_line("entry", -5, 5, 80), Some("entry     ".to_string()));
    assert_eq!(panel_line("entry", -6, 5, 80), None);
    assert_eq!(panel_line("entry", 76, 5, 80), Some("entr".to_string()));
    assert_eq!(panel_line("entry", 80, 5, 80), Some("".to_string()));
    assert_eq!(panel_line("entry", 90, 5, 80), Some("".to_string()));
}
