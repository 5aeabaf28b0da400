use crate::audio_backend::{
    AudioBackendCommand, AudioCommand, AudioInfo, OpenError, SeekCommand, SeekDirection,
};
use crate::config::ViewState;
use crate::debug_manager::DebugManager;
use crate::play_state::{can_draw, PlayMode, PlayPosition, PlayState};
use crate::playlist_manager::{lesser, last_index, PlaylistManager};
use crate::render::{format_duration, spec_format_duration, Alignment, RenderColor};
use crate::song::playlist::spec_scroll_position;
use crate::song::song_buffer::{SongBuffer, SongBufferView};
use crate::song::{Song, SongID};
use crate::string_helpers::{
    cut_str_left, limit_str_right, spec_cut_str_left, spec_limit_str_right,
};
use crate::text::{decimal, decimal_string};
use crate::time::Duration;
use vstd::prelude::*;
use vstd::string::{StrSliceExecFns, StringExecFns};
use vstd::utf8::encode_utf8;

verus! {

/// Columns between two panels.
pub const FILE_BROWSER_OFFSET: i32 = 5;

/// Seconds that one press of a seek key jumps.
pub const SEEK_SECONDS: u64 = 5;

/// Hundredths of full scale that one press of a volume key changes the volume by.
pub const VOLUME_STEP: i32 = 5;

/// What a key asks the player to do.
#[derive(Clone, Copy, Debug, PartialEq, Eq, Structural)]
pub enum InputAction {
    Quit,
    Seek(SeekDirection),
    StartNextSong,
    FileManagerContextAction,
    FileManagerAddToPlaylist,
    FileManagerNewPlaylist,
    FileManagerMoveLeft,
    FileManagerMoveDown,
    FileManagerMoveUp,
    FileManagerMoveRight,
    ImportPlaylists,
    PlaylistContextAction,
    PlaylistMoveLeft,
    PlaylistMoveRight,
    PlaylistMoveDown,
    PlaylistMoveUp,
    OptimizeNames,
    CopySong,
    PasteSong,
    DeleteSong,
    FollowPlaylist,
    DebugScroll(i32),
    TogglePause,
    ShowView(ViewState),
    ToggleMode,
    ToggleFollow,
    ChangeVolume(i32),
    /// The key means nothing in the view that is shown.
    Unknown,
}

/// What a key means that means the same in every view.
pub open spec fn spec_global_key_action(c: char) -> InputAction {
    if c == 'q' {
        InputAction::Quit
    } else if c == 'L' {
        InputAction::Seek(SeekDirection::Forward)
    } else if c == 'H' {
        InputAction::Seek(SeekDirection::Backward)
    } else if c == 'J' {
        InputAction::StartNextSong
    } else {
        InputAction::Unknown
    }
}

/// What a key means in the file browser.
pub open spec fn spec_file_manager_key_action(c: char) -> InputAction {
    if c == '\n' {
        InputAction::FileManagerContextAction
    } else if c == 'y' {
        InputAction::FileManagerAddToPlaylist
    } else if c == 'n' {
        InputAction::FileManagerNewPlaylist
    } else if c == 'h' {
        InputAction::FileManagerMoveLeft
    } else if c == 'j' {
        InputAction::FileManagerMoveDown
    } else if c == 'k' {
        InputAction::FileManagerMoveUp
    } else if c == 'l' {
        InputAction::FileManagerMoveRight
    } else {
        InputAction::Unknown
    }
}

/// What a key means in the playlist browser.
pub open spec fn spec_playlists_key_action(c: char) -> InputAction {
    if c == '\n' {
        InputAction::PlaylistContextAction
    } else if c == 'h' {
        InputAction::PlaylistMoveLeft
    } else if c == 'l' {
        InputAction::PlaylistMoveRight
    } else if c == 'j' {
        InputAction::PlaylistMoveDown
    } else if c == 'k' {
        InputAction::PlaylistMoveUp
    } else if c == 'O' {
        InputAction::OptimizeNames
    } else if c == 'y' {
        InputAction::CopySong
    } else if c == 'p' {
        InputAction::PasteSong
    } else {
        InputAction::Unknown
    }
}

/// What a key means in the debug view.
pub open spec fn spec_debug_key_action(c: char) -> InputAction {
    if c == 'j' {
        InputAction::DebugScroll(1)
    } else if c == 'k' {
        InputAction::DebugScroll(-1i32)
    } else {
        InputAction::Unknown
    }
}

/// What a key means where no earlier rule has a meaning for it.
pub open spec fn spec_late_key_action(c: char, view_state: ViewState) -> InputAction {
    if c == 'c' {
        InputAction::TogglePause
    } else if c == '1' {
        InputAction::ShowView(ViewState::FileManager)
    } else if c == '2' {
        InputAction::ShowView(ViewState::Playlists)
    } else if c == '3' {
        InputAction::ShowView(ViewState::Debug)
    } else if c == 's' {
        InputAction::ToggleMode
    } else if c == 'f' {
        InputAction::ToggleFollow
    } else if c == 'F' && view_state == ViewState::Playlists {
        InputAction::FollowPlaylist
    } else if c == '+' {
        InputAction::ChangeVolume(VOLUME_STEP)
    } else if c == '-' {
        InputAction::ChangeVolume((-VOLUME_STEP) as i32)
    } else if c == 'D' && view_state == ViewState::Playlists {
        InputAction::DeleteSong
    } else if c == 'i' && view_state == ViewState::FileManager {
        InputAction::ImportPlaylists
    } else {
        InputAction::Unknown
    }
}

/// What a key means in a view: the first meaning that the rules give it, in the order
/// of the keys of all views, the keys of the view, and the keys for the player itself.
pub open spec fn spec_key_action(c: char, view_state: ViewState) -> InputAction {
    let of_view = match view_state {
        ViewState::FileManager => spec_file_manager_key_action(c),
        ViewState::Playlists => spec_playlists_key_action(c),
        ViewState::Debug => spec_debug_key_action(c),
    };
    if spec_global_key_action(c) != InputAction::Unknown {
        spec_global_key_action(c)
    } else if of_view != InputAction::Unknown {
        of_view
    } else {
        spec_late_key_action(c, view_state)
    }
}

/// Tells what a key asks for in the view that is shown.
pub fn key_action(c: char, view_state: ViewState) -> (action: InputAction)
    ensures
        action == spec_key_action(c, view_state),
{
    match (c, view_state) {
        ('q', _) => InputAction::Quit,
        ('L', _) => InputAction::Seek(SeekDirection::Forward),
        ('H', _) => InputAction::Seek(SeekDirection::Backward),
        ('J', _) => InputAction::StartNextSong,
        ('\n', ViewState::FileManager) => InputAction::FileManagerContextAction,
        ('y', ViewState::FileManager) => InputAction::FileManagerAddToPlaylist,
        ('n', ViewState::FileManager) => InputAction::FileManagerNewPlaylist,
        ('h', ViewState::FileManager) => InputAction::FileManagerMoveLeft,
        ('j', ViewState::FileManager) => InputAction::FileManagerMoveDown,
        ('k', ViewState::FileManager) => InputAction::FileManagerMoveUp,
        ('l', ViewState::FileManager) => InputAction::FileManagerMoveRight,
        ('\n', ViewState::Playlists) => InputAction::PlaylistContextAction,
        ('h', ViewState::Playlists) => InputAction::PlaylistMoveLeft,
        ('l', ViewState::Playlists) => InputAction::PlaylistMoveRight,
        ('j', ViewState::Playlists) => InputAction::PlaylistMoveDown,
        ('k', ViewState::Playlists) => InputAction::PlaylistMoveUp,
        ('O', ViewState::Playlists) => InputAction::OptimizeNames,
        ('y', ViewState::Playlists) => InputAction::CopySong,
        ('p', ViewState::Playlists) => InputAction::PasteSong,
        ('j', ViewState::Debug) => InputAction::DebugScroll(1),
        ('k', ViewState::Debug) => InputAction::DebugScroll(-1),
        ('c', _) => InputAction::TogglePause,
        ('1', _) => InputAction::ShowView(ViewState::FileManager),
        ('2', _) => InputAction::ShowView(ViewState::Playlists),
        ('3', _) => InputAction::ShowView(ViewState::Debug),
        ('s', _) => InputAction::ToggleMode,
        ('f', _) => InputAction::ToggleFollow,
        ('F', ViewState::Playlists) => InputAction::FollowPlaylist,
        ('+', _) => InputAction::ChangeVolume(VOLUME_STEP),
        ('-', _) => InputAction::ChangeVolume(-VOLUME_STEP),
        ('D', ViewState::Playlists) => InputAction::DeleteSong,
        ('i', ViewState::FileManager) => InputAction::ImportPlaylists,
        _ => InputAction::Unknown,
    }
}

/// Tells whether the screen has to be drawn anew after a key: after every key that
/// means something, and in the debug view after every key.
pub fn key_needs_render(action: InputAction, view_state: ViewState) -> (render: bool)
    ensures
        render == (action != InputAction::Unknown || view_state == ViewState::Debug),
{
    !matches!(action, InputAction::Unknown) || matches!(view_state, ViewState::Debug)
}

/// A volume after a change, kept within nothing and full scale.
pub open spec fn spec_changed_volume(volume: i32, volume_change: i32) -> i32 {
    if volume + volume_change < 0 {
        0
    } else if volume + volume_change > 100 {
        100
    } else {
        (volume + volume_change) as i32
    }
}

/// Changes a volume, which stays within nothing and full scale.
pub fn changed_volume(volume: i32, volume_change: i32) -> (changed: i32)
    ensures
        changed == spec_changed_volume(volume, volume_change),
{
    let sum: i64 = volume as i64 + volume_change as i64;
    if sum < 0 {
        0
    } else if sum > 100 {
        100
    } else {
        sum as i32
    }
}

/// The gain that the engine is asked for at a volume: the volume itself within
/// nothing and full scale, nothing below and full scale above.
pub open spec fn spec_gain(volume: i32) -> u8 {
    if volume < 0 {
        0
    } else if volume > 100 {
        100
    } else {
        volume as u8
    }
}

/// The gain that the engine is asked for at a volume.
pub fn gain(volume: i32) -> (gain: u8)
    ensures
        gain == spec_gain(volume),
{
    if volume < 0 {
        0
    } else if volume > 100 {
        100
    } else {
        volume as u8
    }
}

/// The message that sets the engine's volume.
pub fn volume_command(volume: i32) -> (command: AudioBackendCommand)
    ensures
        command == AudioBackendCommand::Command(AudioCommand::SetVolume(spec_gain(volume))),
{
    AudioBackendCommand::Command(AudioCommand::SetVolume(gain(volume)))
}

/// The message for one press of a seek key.
pub fn seek_command(direction: SeekDirection) -> (command: AudioBackendCommand)
    ensures
        command == AudioBackendCommand::Command(
            AudioCommand::Seek(
                SeekCommand {
                    duration: Duration { nanos: (SEEK_SECONDS * 1_000_000_000) as u128 },
                    direction,
                },
            ),
        ),
{
    AudioBackendCommand::Command(
        AudioCommand::Seek(SeekCommand { duration: Duration::from_secs(SEEK_SECONDS), direction }),
    )
}

/// Pauses what plays, or lets it go on.
pub fn toggle_pause(play_state: &mut PlayState) -> (command: AudioBackendCommand)
    ensures
        *final(play_state) == (PlayState { playing: !old(play_state).playing, ..*old(play_state) }),
        command == AudioBackendCommand::Command(
            if old(play_state).playing {
                AudioCommand::Pause
            } else {
                AudioCommand::Unpause
            },
        ),
{
    let command = if play_state.playing {
        AudioBackendCommand::Command(AudioCommand::Pause)
    } else {
        AudioBackendCommand::Command(AudioCommand::Unpause)
    };
    play_state.playing = !play_state.playing;
    command
}

/// The playlist browser once its cursor went to the song that plays, in a window of
/// `num_rows` rows: to the place of the song in its playlist, or to the last song
/// where the playlist has fewer. A song that was deleted from its playlist, or that is
/// none of a playlist, moves nothing.
pub open spec fn spec_followed(
    play_state: PlayState,
    before: PlaylistManager,
    after: PlaylistManager,
    num_rows: usize,
) -> bool {
    &&& after.shown_playlist_index == before.shown_playlist_index
    &&& after.playlist_scroll_position == before.playlist_scroll_position
    &&& after.playlists == before.playlists
    &&& after.view == before.view
    &&& after.scroll_cursor_positions@ == match play_state.current_song {
        Some(PlayPosition::Playlist(_, playlist_index, song_index, false)) => if playlist_index
            < before.playlists@.len() {
            let playlist = before.playlists@[playlist_index as int];
            let row = lesser(song_index as int, last_index(playlist.songs@.len() as int));
            before.scroll_cursor_positions@.insert(
                playlist.id,
                (
                    spec_scroll_position(
                        before.spec_positions(playlist.id).0 as int,
                        row,
                        num_rows as int,
                    ) as usize,
                    row as usize,
                ),
            )
        } else {
            before.scroll_cursor_positions@
        },
        _ => before.scroll_cursor_positions@,
    }
}

/// Puts the cursor of the playlist browser on the song that plays.
pub fn follow_playlist(
    play_state: &PlayState,
    playlist_manager: &mut PlaylistManager,
    num_rows: usize,
)
    requires
        num_rows >= 1,
    ensures
        spec_followed(*play_state, *old(playlist_manager), *final(playlist_manager), num_rows),
{
    // only match songs, that are not deleted
    if let Some(PlayPosition::Playlist(_, playlist_index, song_index, false)) =
        play_state.get_current_play_position() {
        playlist_manager.set_cursor_position(playlist_index, song_index, num_rows);
    }
}

/// The column that the first panel begins at: the first column for panels that stick
/// to the left; for panels that stick to the right the column that lets the last
/// panel end at the right edge of a screen of `max_x` columns, where the panels take
/// more room than the screen has, and the first column where they take less.
pub open spec fn spec_panels_start(
    alignment: Alignment,
    max_x: i32,
    panels_size: int,
    panel_count: int,
) -> int {
    match alignment {
        Alignment::Left => 0,
        Alignment::Right => {
            let room = max_x - (panels_size + panel_count * FILE_BROWSER_OFFSET);
            if room < 0 {
                room
            } else {
                0
            }
        },
    }
}

/// Finds the column that the first panel begins at.
pub fn panels_start(alignment: Alignment, max_x: i32, panels_size: usize, panel_count: usize) -> (x_pos:
    i32)
    requires
        max_x - (panels_size + panel_count * FILE_BROWSER_OFFSET) >= i32::MIN,
    ensures
        x_pos == spec_panels_start(alignment, max_x, panels_size as int, panel_count as int),
{
    match alignment {
        Alignment::Left => 0,
        Alignment::Right => {
            let taken: i128 = panels_size as i128 + panel_count as i128 * FILE_BROWSER_OFFSET as i128;
            let room: i128 = max_x as i128 - taken;
            if room < 0 {
                room as i32
            } else {
                0
            }
        },
    }
}

/// What the player shows of the song that plays.
pub struct SongInfo {
    pub title: String,
    pub play_position: Duration,
    pub total_duration: Duration,
    /// The song that follows was handed to the engine already.
    pub queued_next: bool,
}

/// What the player does about a message of the engine.
pub struct InfoOutcome {
    /// The message to send to the engine.
    pub command: Option<AudioBackendCommand>,
    pub has_to_render: bool,
    /// The cursor of the playlist browser may follow the song that plays.
    pub should_follow: bool,
}

/// An integer in decimal digits, with a minus sign where it is below zero.
pub open spec fn signed_decimal(number: int) -> Seq<char> {
    if number < 0 {
        seq!['-'] + decimal((-number) as nat)
    } else {
        decimal(number as nat)
    }
}

/// Writes an integer in decimal digits.
pub fn signed_decimal_string(number: i32) -> (text: String)
    ensures
        text@ == signed_decimal(number as int),
{
    if number < 0 {
        proof {
            reveal_strlit("-");
        }
        let mut text = "-".to_owned();
        text.append(decimal_string((-(number as i64)) as u128).as_str());
        assert(text@ =~= signed_decimal(number as int));
        text
    } else {
        decimal_string(number as u128)
    }
}

/// The name of the reason for which a song could not be loaded.
pub open spec fn spec_open_error_name(error: OpenError) -> Seq<char> {
    match error {
        OpenError::FileNotFound => "FileNotFound"@,
        OpenError::NotDecodable => "NotDecodable"@,
    }
}

/// The title of the song with the id, if the buffer has the song.
pub open spec fn spec_known_title(buffer: SongBufferView, song_id: SongID) -> Option<Seq<char>> {
    match buffer.index_of_id(song_id) {
        Some(index) => Some(buffer.songs[index].title),
        None => None,
    }
}

/// What the log says of a song that could not be loaded.
pub open spec fn spec_failed_open_text(title: Option<Seq<char>>, error: OpenError) -> Seq<char> {
    "Failed to open \""@ + (match title {
        Some(title) => title,
        None => "<unknown song>"@,
    }) + "\": "@ + spec_open_error_name(error) + "\n"@
}

/// Takes note in the log of a song that could not be loaded.
pub fn log_failed_open(
    debug_manager: &mut DebugManager,
    song_buffer: &SongBuffer,
    song_id: SongID,
    error: OpenError,
)
    ensures
        final(debug_manager)@ == old(debug_manager)@.with_entry(
            spec_failed_open_text(spec_known_title(song_buffer@, song_id), error),
            RenderColor::Red,
            RenderColor::Black,
        ),
{
    let mut text = "Failed to open \"".to_owned();
    match song_buffer.get(song_id) {
        Some(song) => {
            text.append(song.get_title());
        },
        None => {
            text.append("<unknown song>");
        },
    }
    text.append("\": ");
    match error {
        OpenError::FileNotFound => {
            text.append("FileNotFound");
        },
        OpenError::NotDecodable => {
            text.append("NotDecodable");
        },
    }
    text.append("\n");
    assert(text@ =~= spec_failed_open_text(spec_known_title(song_buffer@, song_id), error));
    debug_manager.add_entry_color(text, RenderColor::Red, RenderColor::Black);
}

/// A text between two others.
pub open spec fn spec_quoted(before: Seq<char>, text: Seq<char>, after: Seq<char>) -> Seq<char> {
    before + text + after
}

/// Puts a text between two others.
pub fn quoted(before: &str, text: &str, after: &str) -> (whole: String)
    ensures
        whole@ == spec_quoted(before@, text@, after@),
{
    let mut whole = before.to_owned();
    whole.append(text);
    whole.append(after);
    whole
}

/// What the player shows of a song that starts.
pub open spec fn spec_song_info(buffer: SongBufferView, song_id: SongID, info: SongInfo) -> bool {
    let song = buffer.songs[buffer.index_of_id(song_id)->0];
    &&& info.title@ == song.title
    &&& info.play_position == Duration { nanos: 0 }
    &&& info.total_duration == match song.total_duration {
        Some(duration) => duration,
        None => Duration { nanos: 0 },
    }
    &&& !info.queued_next
}

/// Takes up that the engine reports progress: the time played is shown, and the song
/// that follows is handed to the engine for queueing, once for each song that plays.
pub fn handle_playing(
    playing_song_info: &mut Option<SongInfo>,
    play_state: &mut PlayState,
    song_buffer: &SongBuffer,
    debug_manager: &mut DebugManager,
    play_position: Duration,
) -> (command: Option<AudioBackendCommand>)
    requires
        (*old(playing_song_info)) is Some && !(*old(playing_song_info))->0.queued_next ==> (old(play_state).next_song matches Some(next) ==> song_buffer@.index_of_id(next.spec_get_id()) is Some),
    ensures
        *final(play_state) == *old(play_state),
        match *old(playing_song_info) {
            None => {
                &&& *final(playing_song_info) is None
                &&& command is None
                &&& final(debug_manager)@ == old(debug_manager)@.with_entry(
                    "Got playing update, but playing song info is not set."@,
                    RenderColor::Red,
                    RenderColor::Black,
                )
            },
            Some(shown) => {
                &&& *final(playing_song_info) matches Some(info) && info.title == shown.title
                    && info.play_position == play_position && info.total_duration
                    == shown.total_duration && info.queued_next == (shown.queued_next || old(play_state).next_song is Some)
                &&& (if shown.queued_next {
                    command is None && final(debug_manager)@ == old(debug_manager)@
                } else {
                    match old(play_state).next_song {
                        Some(next) => {
                            let song = song_buffer@.songs[song_buffer@.index_of_id(
                                next.spec_get_id(),
                            )->0];
                            &&& command matches Some(
                                AudioBackendCommand::Command(AudioCommand::Queue(queued)),
                            ) && queued@ == song
                            &&& final(debug_manager)@ == old(debug_manager)@.with_entry(
                                spec_quoted("queuing \""@, song.title, "\""@),
                                RenderColor::White,
                                RenderColor::Black,
                            )
                        },
                        None => command is None && final(debug_manager)@ == old(debug_manager)@.with_entry(
                            "failed to peek next song"@,
                            RenderColor::Red,
                            RenderColor::Black,
                        ),
                    }
                })
            },
        },
{
    let shown = playing_song_info.take();
    match shown {
        Some(mut playing_song) => {
            playing_song.play_position = play_position;
            let mut command: Option<AudioBackendCommand> = None;
            // check for queue command
            if !playing_song.queued_next {
                match play_state.peek_next_song() {
                    Some(next) => {
                        if let Some(song) = song_buffer.get(next.get_id()) {
                            command =
                            Some(AudioBackendCommand::Command(AudioCommand::Queue(song.clone())));
                            debug_manager.add_entry(quoted("queuing \"", song.get_title(), "\""));
                            playing_song.queued_next = true;
                        }
                    },
                    None => {
                        debug_manager.add_error_entry("failed to peek next song".to_owned());
                    },
                }
            }
            *playing_song_info = Some(playing_song);
            command
        },
        None => {
            debug_manager.add_entry_color(
                "Got playing update, but playing song info is not set.".to_owned(),
                RenderColor::Red,
                RenderColor::Black,
            );
            None
        },
    }
}

/// Takes up that the engine reports the start of a song. A song that is not the one
/// that the player took for the current one is the next one, which becomes the
/// current one. The song is shown from its start, and nothing is queued behind it yet.
pub fn handle_song_starts(
    playing_song_info: &mut Option<SongInfo>,
    play_state: &mut PlayState,
    playlist_manager: &PlaylistManager,
    song_buffer: &SongBuffer,
    debug_manager: &mut DebugManager,
    song_id: SongID,
)
    requires
        song_buffer@.index_of_id(song_id) is Some,
        old(play_state).mode == PlayMode::Shuffle ==> (old(play_state).next_song matches Some(next)
            ==> can_draw(playlist_manager.playlists@, next)),
    ensures
        *final(playing_song_info) matches Some(info) && spec_song_info(
            song_buffer@,
            song_id,
            info,
        ),
        ({
            let title = song_buffer@.songs[song_buffer@.index_of_id(song_id)->0].title;
            let started = spec_quoted("start song \""@, title, "\""@);
            if old(play_state).current_song matches Some(current) && current.spec_get_id()
                != song_id {
                match old(play_state).next_song {
                    Some(next) => exists|random: usize, result: Result<(), String>|
                        {
                            &&& #[trigger] old(play_state).plays(
                                next,
                                playlist_manager.playlists@,
                                random,
                                *final(play_state),
                                result,
                            )
                            &&& final(debug_manager)@ == if result is Ok {
                                old(debug_manager)@
                            } else {
                                old(debug_manager)@.with_entry(
                                    "failed to start next song"@,
                                    RenderColor::Red,
                                    RenderColor::Black,
                                )
                            }.with_entry(started, RenderColor::White, RenderColor::Black)
                        },
                    None => *final(play_state) == *old(play_state) && final(debug_manager)@ == old(debug_manager)@.with_entry(
                        "failed to start next song"@,
                        RenderColor::Red,
                        RenderColor::Black,
                    ).with_entry(started, RenderColor::White, RenderColor::Black),
                }
            } else {
                *final(play_state) == *old(play_state) && final(debug_manager)@ == old(debug_manager)@.with_entry(started, RenderColor::White, RenderColor::Black)
            }
        }),
{
    let ghost mut witness_random: usize = 0;
    let ghost mut witness_result: Result<(), String> = Ok(());
    if let Some(current_song) = play_state.current_song {
        if current_song.get_id() != song_id {
            let result = play_state.play_next_song(playlist_manager);
            proof {
                witness_result = result;
                if let Some(next) = old(play_state).next_song {
                    witness_random = choose|random: usize| #[trigger]
                        old(play_state).plays(
                            next,
                            playlist_manager.playlists@,
                            random,
                            *play_state,
                            result,
                        );
                }
            }
            match result {
                Ok(_) => {},
                Err(_) => {
                    debug_manager.add_error_entry("failed to start next song".to_owned());
                },
            }
        }
    }
    if let Some(song) = song_buffer.get(song_id) {
        *playing_song_info =
        Some(
            SongInfo {
                title: song.get_title().to_owned(),
                play_position: Duration::zero(),
                total_duration: match song.get_total_duration() {
                    Some(duration) => duration,
                    None => Duration::zero(),
                },
                queued_next: false,
            },
        );
        debug_manager.add_entry(quoted("start song \"", song.get_title(), "\""));
    }
    proof {
        if old(play_state).current_song matches Some(current) && current.spec_get_id() != song_id {
            if let Some(next) = old(play_state).next_song {
                assert(old(play_state).plays(
                    next,
                    playlist_manager.playlists@,
                    witness_random,
                    *play_state,
                    witness_result,
                ));
            }
        }
    }
}

/// Takes up a message of the engine.
pub fn handle_audio_info(
    playing_song_info: &mut Option<SongInfo>,
    play_state: &mut PlayState,
    playlist_manager: &PlaylistManager,
    song_buffer: &mut SongBuffer,
    debug_manager: &mut DebugManager,
    view_state: ViewState,
    info: AudioInfo,
) -> (outcome: InfoOutcome)
    requires
        info matches AudioInfo::Playing(_, _) ==> ((*old(playing_song_info)) is Some && !(*old(playing_song_info))->0.queued_next ==> (old(play_state).next_song matches Some(next) ==> old(song_buffer)@.index_of_id(next.spec_get_id()) is Some)),
        info matches AudioInfo::SongStarts(song_id) ==> old(song_buffer)@.index_of_id(song_id)
            is Some && (old(play_state).mode == PlayMode::Shuffle ==> (old(play_state).next_song
            matches Some(next) ==> can_draw(playlist_manager.playlists@, next))),
    ensures
        outcome.has_to_render == match info {
            AudioInfo::SongStarts(_) => true,
            AudioInfo::SongDuration(_, _) => view_state == ViewState::Playlists,
            _ => false,
        },
        outcome.should_follow == (info is SongStarts),
        !(info is Playing) ==> outcome.command is None,
        match info {
            AudioInfo::SongDuration(song_id, duration) => final(song_buffer)@ == old(song_buffer)@.with_total_duration(song_id, duration) && *final(play_state) == *old(play_state)
                && *final(playing_song_info) == *old(playing_song_info) && final(debug_manager)@
                == old(debug_manager)@,
            AudioInfo::FailedOpen(song_id, error) => final(song_buffer)@ == old(song_buffer)@
                && *final(play_state) == *old(play_state) && *final(playing_song_info) == *old(playing_song_info) && final(debug_manager)@ == old(debug_manager)@.with_entry(
                spec_failed_open_text(spec_known_title(old(song_buffer)@, song_id), error),
                RenderColor::Red,
                RenderColor::Black,
            ),
            AudioInfo::Playing(_, _) => final(song_buffer)@ == old(song_buffer)@ && *final(play_state) == *old(play_state),
            AudioInfo::SongStarts(song_id) => final(song_buffer)@ == old(song_buffer)@ && (*final(playing_song_info) matches Some(shown) && spec_song_info(old(song_buffer)@, song_id, shown)),
        },
{
    match info {
        AudioInfo::Playing(_song_id, play_position) => {
            let command = handle_playing(
                playing_song_info,
                play_state,
                song_buffer,
                debug_manager,
                play_position,
            );
            InfoOutcome { command, has_to_render: false, should_follow: false }
        },
        AudioInfo::FailedOpen(song_id, error) => {
            log_failed_open(debug_manager, song_buffer, song_id, error);
            InfoOutcome { command: None, has_to_render: false, should_follow: false }
        },
        AudioInfo::SongStarts(song_id) => {
            handle_song_starts(
                playing_song_info,
                play_state,
                playlist_manager,
                song_buffer,
                debug_manager,
                song_id,
            );
            InfoOutcome { command: None, has_to_render: true, should_follow: true }
        },
        AudioInfo::SongDuration(song_id, duration) => {
            song_buffer.update_total_duration(song_id, duration);
            InfoOutcome {
                command: None,
                has_to_render: matches!(view_state, ViewState::Playlists),
                should_follow: false,
            }
        },
    }
}

/// Starts the song that is kept as the next one, in place of whatever plays. Returns
/// the message for the engine. Where no song of a playlist is kept as the next one,
/// the log says so and nothing changes.
pub fn start_next_song(
    play_state: &mut PlayState,
    playlist_manager: &mut PlaylistManager,
    song_buffer: &SongBuffer,
    debug_manager: &mut DebugManager,
    follow: bool,
    num_rows: usize,
) -> (command: Option<AudioBackendCommand>)
    requires
        num_rows >= 1,
        old(play_state).next_song matches Some(PlayPosition::Playlist(song_id, _, _, _))
            ==> song_buffer@.index_of_id(song_id) is Some,
        old(play_state).mode == PlayMode::Shuffle ==> (old(play_state).next_song matches Some(next)
            ==> can_draw(old(playlist_manager).playlists@, next)),
    ensures
        match old(play_state).next_song {
            Some(PlayPosition::Playlist(song_id, playlist_index, song_index, deleted)) => {
                let next = PlayPosition::Playlist(song_id, playlist_index, song_index, deleted);
                &&& command matches Some(AudioBackendCommand::Command(AudioCommand::Play(song)))
                    && song@ == song_buffer@.songs[song_buffer@.index_of_id(song_id)->0]
                &&& exists|random: usize, result: Result<(), String>|
                    {
                        &&& #[trigger] old(play_state).plays(
                            next,
                            old(playlist_manager).playlists@,
                            random,
                            *final(play_state),
                            result,
                        )
                        &&& final(debug_manager)@ == match result {
                            Ok(_) => old(debug_manager)@,
                            Err(message) => old(debug_manager)@.with_entry(
                                "failed to start next song: "@ + message@,
                                RenderColor::Red,
                                RenderColor::Black,
                            ),
                        }
                    }
                &&& if follow {
                    spec_followed(
                        *final(play_state),
                        *old(playlist_manager),
                        *final(playlist_manager),
                        num_rows,
                    )
                } else {
                    *final(playlist_manager) == *old(playlist_manager)
                }
            },
            _ => {
                &&& command is None
                &&& *final(play_state) == *old(play_state)
                &&& *final(playlist_manager) == *old(playlist_manager)
                &&& final(debug_manager)@ == old(debug_manager)@.with_entry(
                    "failed to start next song: {}"@,
                    RenderColor::Red,
                    RenderColor::Black,
                )
            },
        },
{
    if let Some(PlayPosition::Playlist(song_id, _, _, _)) = play_state.peek_next_song() {
        let command = match song_buffer.get(song_id) {
            Some(song) => Some(AudioBackendCommand::Command(AudioCommand::Play(song.clone()))),
            None => None,
        };
        let result = play_state.play_next_song(playlist_manager);
        let ghost random = choose|random: usize| #[trigger]
            old(play_state).plays(
                old(play_state).next_song->0,
                playlist_manager.playlists@,
                random,
                *play_state,
                result,
            );
        if let Err(message) = &result {
            let mut text = "failed to start next song: ".to_owned();
            text.append(message.as_str());
            debug_manager.add_error_entry(text);
        }
        if follow {
            follow_playlist(play_state, playlist_manager, num_rows);
        }
        assert(old(play_state).plays(
            old(play_state).next_song->0,
            old(playlist_manager).playlists@,
            random,
            *play_state,
            result,
        ));
        command
    } else {
        debug_manager.add_error_entry("failed to start next song: {}".to_owned());
        None
    }
}

/// Plays the song under the cursor of the playlist that is shown. Returns the message
/// for the engine. Without such a song nothing happens; a song that the buffer does
/// not know is noted in the log.
pub fn playlist_manager_context_action(
    play_state: &mut PlayState,
    playlist_manager: &PlaylistManager,
    song_buffer: &SongBuffer,
    debug_manager: &mut DebugManager,
) -> (command: Option<AudioBackendCommand>)
    ensures
        ({
            let shown = playlist_manager.shown_playlist_index;
            if shown < playlist_manager.playlists@.len() {
                let cursor = playlist_manager.spec_positions(
                    playlist_manager.playlists@[shown as int].id,
                ).1;
                match playlist_manager.spec_get_song(shown, cursor) {
                    Some(song_id) => match song_buffer@.index_of_id(song_id) {
                        Some(index) => {
                            &&& command matches Some(
                                AudioBackendCommand::Command(AudioCommand::Play(song)),
                            ) && song@ == song_buffer@.songs[index]
                            &&& final(debug_manager)@ == old(debug_manager)@
                            &&& exists|random: usize, result: Result<(), String>| #[trigger]
                                old(play_state).now_playing().plays(
                                    PlayPosition::Playlist(song_id, shown, cursor, false),
                                    playlist_manager.playlists@,
                                    random,
                                    *final(play_state),
                                    result,
                                )
                        },
                        None => {
                            &&& command is None
                            &&& *final(play_state) == *old(play_state)
                            &&& final(debug_manager)@ == old(debug_manager)@.with_entry(
                                "Failed to start song id "@ + decimal(song_id as nat),
                                RenderColor::Red,
                                RenderColor::Black,
                            )
                        },
                    },
                    None => command is None && *final(play_state) == *old(play_state) && final(debug_manager)@ == old(debug_manager)@,
                }
            } else {
                command is None && *final(play_state) == *old(play_state) && final(debug_manager)@
                    == old(debug_manager)@
            }
        }),
{
    if let Some(song_id) = playlist_manager.get_shown_song() {
        if let Some(song) = song_buffer.get(song_id) {
            let command = play(play_state, song.clone());
            if let Some(song_index) = playlist_manager.get_shown_song_index() {
                let new_play_position = PlayPosition::Playlist(
                    song_id,
                    playlist_manager.shown_playlist_index,
                    song_index,
                    false,
                );
                let ghost before = *play_state;
                let result = play_state.play_song(new_play_position, playlist_manager);
                proof {
                    let random = choose|random: usize| #[trigger]
                        before.plays(
                            new_play_position,
                            playlist_manager.playlists@,
                            random,
                            *play_state,
                            result,
                        );
                    assert(old(play_state).now_playing().plays(
                        new_play_position,
                        playlist_manager.playlists@,
                        random,
                        *play_state,
                        result,
                    ));
                }
            }
            return Some(command);
        } else {
            let mut text = "Failed to start song id ".to_owned();
            text.append(decimal_string(song_id as u128).as_str());
            debug_manager.add_entry_color(text, RenderColor::Red, RenderColor::Black);
        }
    }
    None
}

/// Asks the engine to play a song, and takes note that something plays.
pub fn play(play_state: &mut PlayState, song: Song) -> (command: AudioBackendCommand)
    ensures
        command == AudioBackendCommand::Command(AudioCommand::Play(song)),
        *final(play_state) == old(play_state).now_playing(),
{
    play_state.playing = true;
    AudioBackendCommand::Command(AudioCommand::Play(song))
}

/// Plays the file that the file browser stands at, which is taken into the buffer
/// where the buffer does not know it. Returns the message for the engine.
pub fn filemanager_context_action(
    play_state: &mut PlayState,
    playlist_manager: &PlaylistManager,
    song_buffer: &mut SongBuffer,
    current_path: &str,
) -> (command: Option<AudioBackendCommand>)
    requires
        old(song_buffer)@.next_id < SongID::MAX,
    ensures
        final(song_buffer)@.wf(),
        exists|title: Seq<char>| final(song_buffer)@ == #[trigger] old(song_buffer)@.imported(
            current_path@,
            title,
        ),
        ({
            let song_id = old(song_buffer)@.imported_id(current_path@);
            &&& command matches Some(AudioBackendCommand::Command(AudioCommand::Play(song)))
                && song@.id == song_id && song@.path == current_path@
            &&& exists|random: usize, result: Result<(), String>| #[trigger]
                old(play_state).now_playing().plays(
                    PlayPosition::File(song_id),
                    playlist_manager.playlists@,
                    random,
                    *final(play_state),
                    result,
                )
        }),
{
    proof {
        use_type_invariant(&*song_buffer);
    }
    let ghost before_import = song_buffer@;
    let song_id = song_buffer.import(current_path, None);
    proof {
        let title = choose|title: Seq<char>|
            song_buffer@ == #[trigger] before_import.imported(current_path@, title);
        crate::song::song_buffer::lemma_imported_has(before_import, current_path@, title);
    }
    let command = match song_buffer.get(song_id) {
        Some(song) => Some(play(play_state, song.clone())),
        None => None,
    };
    let position = PlayPosition::File(song_id);
    let ghost before = *play_state;
    let result = play_state.play_song(position, playlist_manager);
    proof {
        let random = choose|random: usize| #[trigger]
            before.plays(position, playlist_manager.playlists@, random, *play_state, result);
        assert(old(play_state).now_playing().plays(
            position,
            playlist_manager.playlists@,
            random,
            *play_state,
            result,
        ));
    }
    command
}

/// Changes from normal mode to shuffle mode or back. The song that follows is found
/// anew, and has to be handed to the engine again.
pub fn toggle_mode(
    play_state: &mut PlayState,
    playlist_manager: &PlaylistManager,
    playing_song_info: &mut Option<SongInfo>,
    debug_manager: &mut DebugManager,
)
    requires
        old(play_state).can_define_next(old(play_state).mode.toggled(), playlist_manager.playlists@),
    ensures
        exists|random: usize, defined: Result<PlayPosition, String>|
            {
                &&& #[trigger] old(play_state).defines_next(
                    old(play_state).mode.toggled(),
                    playlist_manager.playlists@,
                    random,
                    *final(play_state),
                    defined,
                )
                &&& final(debug_manager)@ == match defined {
                    Ok(_) => old(debug_manager)@,
                    Err(message) => old(debug_manager)@.with_entry(
                        "Failed to define next song, when toggling mode: "@ + message@,
                        RenderColor::Red,
                        RenderColor::Black,
                    ),
                }
            },
        match *old(playing_song_info) {
            Some(shown) => *final(playing_song_info) matches Some(info) && info.title == shown.title
                && info.play_position == shown.play_position && info.total_duration
                == shown.total_duration && !info.queued_next,
            None => *final(playing_song_info) is None,
        },
{
    let result = play_state.toggle_mode(playlist_manager);
    if let Err(message) = &result {
        let mut text = "Failed to define next song, when toggling mode: ".to_owned();
        text.append(message.as_str());
        debug_manager.add_error_entry(text);
    }
    let shown = playing_song_info.take();
    if let Some(mut playing_song) = shown {
        playing_song.queued_next = false;
        *playing_song_info = Some(playing_song);
    }
}

/// Deletes the song under the cursor from the playlist that is shown, and adjusts
/// what plays and what has played to it.
pub fn delete_shown_song(play_state: &mut PlayState, playlist_manager: &mut PlaylistManager)
    ensures
        old(playlist_manager).shown_playlist_index >= old(playlist_manager).playlists@.len() ==> {
            &&& *final(play_state) == *old(play_state)
            &&& final(playlist_manager).playlists@ == old(playlist_manager).playlists@
        },
        old(playlist_manager).shown_playlist_index < old(playlist_manager).playlists@.len() ==> {
            let shown = old(playlist_manager).shown_playlist_index;
            let before = old(playlist_manager).playlists@[shown as int];
            let after = final(playlist_manager).playlists@[shown as int];
            let cursor = old(playlist_manager).spec_positions(before.id).1;
            &&& final(play_state).current_song == match old(play_state).current_song {
                Some(current) => Some(current.spec_apply_playlist_delete(shown, cursor)),
                None => None,
            }
            &&& final(play_state).next_song == match old(play_state).next_song {
                Some(next) => Some(next.spec_apply_playlist_delete(shown, cursor)),
                None => None,
            }
            &&& final(play_state).history@ == PlayState::spec_history_after_delete(
                old(play_state).history@,
                shown,
                cursor,
            )
            &&& final(play_state).playing == old(play_state).playing
            &&& final(play_state).mode == old(play_state).mode
            &&& final(playlist_manager).playlists@ == old(playlist_manager).playlists@.update(
                shown as int,
                after,
            )
            &&& after.songs@ == if cursor < before.songs@.len() {
                before.songs@.remove(cursor as int)
            } else {
                before.songs@
            }
            &&& after.id == before.id
            &&& after.name == before.name
        },
        final(playlist_manager).shown_playlist_index == old(playlist_manager).shown_playlist_index,
        final(playlist_manager).playlist_scroll_position == old(playlist_manager).playlist_scroll_position,
        final(playlist_manager).view == old(playlist_manager).view,
        final(playlist_manager).scroll_cursor_positions == old(playlist_manager).scroll_cursor_positions,
        old(play_state).wf() ==> final(play_state).wf(),
{
    if let Some(shown_song_index) = playlist_manager.get_shown_song_index() {
        play_state.apply_playlist_delete(playlist_manager.shown_playlist_index, shown_song_index);
    }
    playlist_manager.delete_current_song();
}

/// The line at the bottom of the screen without the song: whether something plays,
/// the mode, and whether the cursor follows.
pub open spec fn spec_state_flags(playing: bool, mode: PlayMode, follow: bool) -> Seq<char> {
    (if playing {
        ">"@
    } else {
        "|"@
    }) + " "@ + (match mode {
        PlayMode::Normal => " "@,
        PlayMode::Shuffle => "S"@,
    }) + (if follow {
        "F"@
    } else {
        " "@
    })
}

/// What the line at the bottom of the screen says of the song that plays: its title,
/// the time played and its length; with no song, no time of no length.
pub open spec fn spec_song_part(playing_song_info: Option<SongInfo>) -> Seq<char> {
    match playing_song_info {
        None => "          0:00 / 0:00 vol: "@,
        Some(info) => " "@ + info.title@ + "  "@ + spec_format_duration(info.play_position)
            + " / "@ + spec_format_duration(info.total_duration) + "  vol: "@,
    }
}

/// The line at the bottom of the screen: the state of the player, the song that plays
/// with the time played and its length, and the volume.
pub open spec fn spec_play_state_line(
    playing: bool,
    mode: PlayMode,
    follow: bool,
    playing_song_info: Option<SongInfo>,
    volume: i32,
) -> Seq<char> {
    spec_state_flags(playing, mode, follow) + spec_song_part(playing_song_info) + signed_decimal(
        volume as int,
    ) + "%"@
}

/// Writes whether something plays, the mode, and whether the cursor follows.
fn state_flags(playing: bool, mode: PlayMode, follow: bool) -> (flags: String)
    ensures
        flags@ == spec_state_flags(playing, mode, follow),
{
    let mut flags = if playing {
        ">".to_owned()
    } else {
        "|".to_owned()
    };
    flags.append(" ");
    match mode {
        PlayMode::Normal => {
            flags.append(" ");
        },
        PlayMode::Shuffle => {
            flags.append("S");
        },
    }
    if follow {
        flags.append("F");
    } else {
        flags.append(" ");
    }
    flags
}

/// Writes what the line at the bottom of the screen says of the song that plays.
fn song_part(playing_song_info: &Option<SongInfo>) -> (part: String)
    ensures
        part@ == spec_song_part(*playing_song_info),
{
    match playing_song_info {
        None => "          0:00 / 0:00 vol: ".to_owned(),
        Some(current_song) => {
            let mut part = " ".to_owned();
            part.append(current_song.title.as_str());
            part.append("  ");
            part.append(format_duration(current_song.play_position).as_str());
            part.append(" / ");
            part.append(format_duration(current_song.total_duration).as_str());
            part.append("  vol: ");
            part
        },
    }
}

/// Writes the line at the bottom of the screen.
pub fn play_state_line(
    play_state: &PlayState,
    follow: bool,
    playing_song_info: &Option<SongInfo>,
    volume: i32,
) -> (line: String)
    ensures
        line@ == spec_play_state_line(
            play_state.playing,
            play_state.mode,
            follow,
            *playing_song_info,
            volume,
        ),
{
    let mut line = state_flags(play_state.playing, play_state.mode, follow);
    line.append(song_part(playing_song_info).as_str());
    line.append(signed_decimal_string(volume).as_str());
    line.append("%");
    line
}

/// A text filled up with spaces on the right until it has `width` characters.
pub open spec fn spec_padded(text: Seq<char>, width: nat) -> Seq<char> {
    if text.len() >= width {
        text
    } else {
        text + Seq::new((width - text.len()) as nat, |i: int| ' ')
    }
}

/// Fills a text up with spaces on the right.
pub fn padded(text: &str, width: usize) -> (filled: String)
    ensures
        filled@ == spec_padded(text@, width as nat),
{
    let mut filled = text.to_owned();
    let len = text.unicode_len();
    if len >= width {
        return filled;
    }
    let mut added: usize = 0;
    proof {
        reveal_strlit(" ");
    }
    while added < width - len
        invariant
            len == text@.len(),
            len < width,
            added <= width - len,
            filled@ == text@ + Seq::new(added as nat, |i: int| ' '),
        decreases width - len - added,
    {
        filled.append(" ");
        proof {
            reveal_strlit(" ");
        }
        assert(filled@ =~= text@ + Seq::new((added + 1) as nat, |i: int| ' '));
        added += 1;
    }
    filled
}

/// The part of an entry that a screen of `max_x` columns shows where the panel of the
/// entry begins at column `x_pos` and is `panel_width` columns wide: the entry without
/// what lies left of the screen, filled up to the width of the panel and the room
/// between panels, and cut off at the right edge of the screen. An entry that ends
/// left of the screen is not shown.
pub open spec fn spec_panel_line(text: Seq<char>, x_pos: i32, panel_width: usize, max_x: i32) -> Option<
    Seq<char>,
> {
    if encode_utf8(text).len() >= -x_pos {
        let hidden = if x_pos < 0 {
            (-x_pos) as nat
        } else {
            0nat
        };
        let line = spec_padded(
            spec_cut_str_left(text, hidden),
            (panel_width + FILE_BROWSER_OFFSET) as nat,
        );
        let room = if max_x - x_pos > 0 {
            (max_x - x_pos) as nat
        } else {
            0nat
        };
        let visible = if room <= encode_utf8(line).len() {
            room
        } else {
            encode_utf8(line).len()
        };
        Some(spec_limit_str_right(line, visible))
    } else {
        None
    }
}

/// Makes the part of an entry that the screen shows.
pub fn panel_line(text: &str, x_pos: i32, panel_width: usize, max_x: i32) -> (line: Option<String>)
    requires
        panel_width + FILE_BROWSER_OFFSET <= usize::MAX,
    ensures
        match line {
            Some(line) => spec_panel_line(text@, x_pos, panel_width, max_x) == Some(line@),
            None => spec_panel_line(text@, x_pos, panel_width, max_x) is None,
        },
{
    let bytes = text.as_bytes().len();
    let hidden: usize = if x_pos < 0 {
        (-(x_pos as i64)) as usize
    } else {
        0
    };
    if bytes < hidden {
        return None;
    }
    let line = cut_str_left(text, hidden);
    let line = padded(line, panel_width + FILE_BROWSER_OFFSET as usize);
    let room: usize = if max_x as i64 - x_pos as i64 > 0 {
        (max_x as i64 - x_pos as i64) as usize
    } else {
        0
    };
    let line_bytes = line.as_str().as_bytes().len();
    let visible = if room <= line_bytes {
        room
    } else {
        line_bytes
    };
    Some(limit_str_right(line.as_str(), visible).to_owned())
}

} // verus!
