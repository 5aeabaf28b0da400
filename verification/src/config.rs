use crate::play_state::PlayMode;
use crate::playlist_manager::PlaylistView;
use crate::song::playlist::PlaylistID;
use std::collections::HashMap;
use vstd::prelude::*;

verus! {

/// The view that the player shows.
#[derive(Clone, Copy, Debug, PartialEq, Eq, Structural)]
pub enum ViewState {
    FileManager,
    Playlists,
    Debug,
}

/// What the player keeps from one run to the next.
pub struct Cache {
    pub view: ViewState,
    pub play_mode: PlayMode,
    pub filemanager_cache: FileManagerCache,
    pub playlist_manager_cache: PlaylistManagerCache,
    /// The volume in hundredths of full scale.
    pub volume: i32,
    pub follow: bool,
}

/// What the file browser keeps.
pub struct FileManagerCache {
    pub current_directory: String,
}

/// What the playlist browser keeps.
pub struct PlaylistManagerCache {
    pub view: PlaylistView,
    pub shown_playlist_index: usize,
    pub playlist_scroll_position: usize,
    /// Where the window and the cursor of each playlist stand.
    pub scroll_cursor_positions: HashMap<PlaylistID, (usize, usize)>,
}

impl Cache {
    /// What a player starts with that has kept nothing: the file browser in the given
    /// directory, full volume, following what plays.
    pub fn default(current_directory: String) -> (cache: Cache)
        ensures
            cache.view == ViewState::FileManager,
            cache.play_mode == PlayMode::Normal,
            cache.filemanager_cache.current_directory == current_directory,
            cache.playlist_manager_cache.view == PlaylistView::Overview,
            cache.playlist_manager_cache.playlist_scroll_position == 0,
            cache.playlist_manager_cache.shown_playlist_index == 0,
            cache.playlist_manager_cache.scroll_cursor_positions@ == Map::<
                PlaylistID,
                (usize, usize),
            >::empty(),
            cache.volume == 100,
            cache.follow,
    {
        Cache {
            view: ViewState::FileManager,
            play_mode: PlayMode::Normal,
            filemanager_cache: FileManagerCache { current_directory },
            playlist_manager_cache: PlaylistManagerCache {
                view: PlaylistView::Overview,
                playlist_scroll_position: 0,
                shown_playlist_index: 0,
                scroll_cursor_positions: HashMap::new(),
            },
            volume: 100,
            follow: true,
        }
    }
}

} // verus!
