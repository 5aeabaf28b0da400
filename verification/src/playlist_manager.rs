use crate::config::PlaylistManagerCache;
use crate::file_manager::file_utils::{get_common_ends, spec_common_ends, texts};
use crate::path_parts::parent_of;
use crate::play_state::PlayState;
use crate::render::{
    entry_views, format_duration, spec_format_duration, Alignment, RenderColor, RenderEntry,
    RenderEntryView, RenderObject, RenderPanel,
};
use crate::song::playlist::{scroll_to_cursor, spec_scroll_position, Playlist, PlaylistID};
use crate::song::song_buffer::{
    lemma_with_title_keeps_ids, spec_imported_all, spec_imported_ids, SongBuffer, SongBufferView,
};
use crate::song::{spec_trimmed, trimmed, SongID};
use crate::text::{decimal, is_decimal_digit, two_digit_string, two_digits};
use std::collections::HashMap;
use vstd::prelude::*;
use vstd::std_specs::hash::*;
use vstd::string::{StrSliceExecFns, StringExecFns};

verus! {

broadcast use group_hash_axioms;

/// The playlists of the player, the one that is shown, and where the cursors stand.
pub struct PlaylistManager {
    pub shown_playlist_index: usize,
    pub playlist_scroll_position: usize,
    pub playlists: Vec<Playlist>,
    pub view: PlaylistView,
    /// Where the window and the cursor of each playlist stand.
    pub scroll_cursor_positions: HashMap<PlaylistID, (usize, usize)>,
}

/// The half of the playlist browser that has the cursor.
#[derive(Clone, Copy, Debug, PartialEq, Eq, Structural)]
pub enum PlaylistView {
    Overview,
    Playlist,
}

/// The lesser of two numbers.
pub open spec fn lesser(a: int, b: int) -> int {
    if a <= b {
        a
    } else {
        b
    }
}

/// The index of the last of `count` items; zero where there are none.
pub open spec fn last_index(count: int) -> int {
    if count > 0 {
        count - 1
    } else {
        0
    }
}

/// Number of playlists from `from` on whose id is at least `id`.
pub open spec fn ids_from(playlists: Seq<Playlist>, id: int) -> nat
    decreases playlists.len(),
{
    if playlists.len() == 0 {
        0
    } else {
        ids_from(playlists.drop_last(), id) + if playlists.last().id >= id {
            1nat
        } else {
            0nat
        }
    }
}

/// Tells whether a playlist has the id.
pub open spec fn id_taken(playlists: Seq<Playlist>, id: int) -> bool {
    exists|i: int| 0 <= i < playlists.len() && #[trigger] playlists[i].id == id
}

/// Fewer playlists have an id above a taken id than have that id or one above.
proof fn lemma_ids_from_step(playlists: Seq<Playlist>, id: int)
    ensures
        ids_from(playlists, id + 1) <= ids_from(playlists, id),
        ids_from(playlists, id) <= playlists.len(),
        id_taken(playlists, id) ==> ids_from(playlists, id + 1) < ids_from(playlists, id),
    decreases playlists.len(),
{
    if playlists.len() > 0 {
        lemma_ids_from_step(playlists.drop_last(), id);
        if id_taken(playlists, id) {
            let i = choose|i: int| 0 <= i < playlists.len() && #[trigger] playlists[i].id == id;
            if i < playlists.len() - 1 {
                assert(playlists.drop_last()[i].id == id);
            }
        }
    }
}

impl PlaylistManager {
    /// Where the window and the cursor of a playlist stand: at the top where nothing
    /// is kept of it.
    pub open spec fn spec_positions(&self, id: PlaylistID) -> (usize, usize) {
        if self.scroll_cursor_positions@.contains_key(id) {
            self.scroll_cursor_positions@[id]
        } else {
            (0, 0)
        }
    }

    /// The song at a place of a playlist.
    pub open spec fn spec_get_song(&self, playlist_index: usize, song_index: usize) -> Option<
        SongID,
    > {
        if playlist_index < self.playlists@.len() && song_index
            < self.playlists@[playlist_index as int].songs@.len() {
            Some(self.playlists@[playlist_index as int].songs@[song_index as int])
        } else {
            None
        }
    }

    /// The playlist that is shown has the index `index`.
    pub open spec fn shows(&self, index: int) -> bool {
        index == self.shown_playlist_index && index < self.playlists@.len()
    }

    pub fn new(playlists: Vec<Playlist>, cache: &PlaylistManagerCache) -> (manager: PlaylistManager)
        ensures
            manager.shown_playlist_index == cache.shown_playlist_index,
            manager.playlist_scroll_position == cache.playlist_scroll_position,
            manager.playlists == playlists,
            manager.view == cache.view,
            manager.scroll_cursor_positions@ == cache.scroll_cursor_positions@,
    {
        PlaylistManager {
            shown_playlist_index: cache.shown_playlist_index,
            playlist_scroll_position: cache.playlist_scroll_position,
            playlists,
            view: cache.view,
            scroll_cursor_positions: cache.scroll_cursor_positions.clone(),
        }
    }

    pub fn create_cache(&self) -> (cache: PlaylistManagerCache)
        ensures
            cache.view == self.view,
            cache.playlist_scroll_position == self.playlist_scroll_position,
            cache.shown_playlist_index == self.shown_playlist_index,
            cache.scroll_cursor_positions@ == self.scroll_cursor_positions@,
    {
        PlaylistManagerCache {
            view: self.view,
            playlist_scroll_position: self.playlist_scroll_position,
            shown_playlist_index: self.shown_playlist_index,
            scroll_cursor_positions: self.scroll_cursor_positions.clone(),
        }
    }

    /// Where the window and the cursor of a playlist stand.
    pub fn positions(&self, id: PlaylistID) -> (positions: (usize, usize))
        ensures
            positions == self.spec_positions(id),
    {
        match self.scroll_cursor_positions.get(&id) {
            Some(positions) => *positions,
            None => (0, 0),
        }
    }

    /// The playlist that is shown, if there is one.
    pub fn get_shown_playlist(&self) -> (shown: Option<&Playlist>)
        ensures
            match shown {
                Some(playlist) => self.shows(self.shown_playlist_index as int) && *playlist
                    == self.playlists@[self.shown_playlist_index as int],
                None => self.shown_playlist_index >= self.playlists@.len(),
            },
    {
        if self.shown_playlist_index < self.playlists.len() {
            Some(&self.playlists[self.shown_playlist_index])
        } else {
            None
        }
    }

    /// The song under the cursor of the playlist that is shown.
    pub fn get_shown_song(&self) -> (song: Option<SongID>)
        ensures
            song == if self.shown_playlist_index < self.playlists@.len() {
                self.spec_get_song(
                    self.shown_playlist_index,
                    self.spec_positions(self.playlists@[self.shown_playlist_index as int].id).1,
                )
            } else {
                None
            },
    {
        if let Some(shown_playlist) = self.get_shown_playlist() {
            let cursor_position = self.positions(shown_playlist.id).1;
            if cursor_position < shown_playlist.songs.len() {
                return Some(shown_playlist.songs[cursor_position]);
            }
        }
        None
    }

    /// The row of the cursor of the playlist that is shown.
    pub fn get_shown_song_index(&self) -> (index: Option<usize>)
        ensures
            index == if self.shown_playlist_index < self.playlists@.len() {
                Some(self.spec_positions(self.playlists@[self.shown_playlist_index as int].id).1)
            } else {
                None
            },
    {
        match self.get_shown_playlist() {
            Some(shown_playlist) => Some(self.positions(shown_playlist.id).1),
            None => None,
        }
    }

    /// The song at a place of a playlist, if there is such a place.
    pub fn get_song(&self, playlist_index: usize, song_index: usize) -> (song: Option<SongID>)
        ensures
            song == self.spec_get_song(playlist_index, song_index),
    {
        if playlist_index < self.playlists.len() {
            let playlist = &self.playlists[playlist_index];
            if song_index < playlist.songs.len() {
                return Some(playlist.songs[song_index]);
            }
        }
        None
    }

    /// Gives the cursor to the overview.
    pub fn move_left(&mut self)
        ensures
            *final(self) == (PlaylistManager { view: PlaylistView::Overview, ..*old(self) }),
    {
        self.view = PlaylistView::Overview;
    }

    /// Gives the cursor to the playlist that is shown.
    pub fn move_right(&mut self)
        ensures
            *final(self) == (PlaylistManager { view: PlaylistView::Playlist, ..*old(self) }),
    {
        self.view = PlaylistView::Playlist;
    }

    /// The smallest id that no playlist has.
    pub fn get_next_playlist_id(&self) -> (id: PlaylistID)
        ensures
            !id_taken(self.playlists@, id as int),
            forall|smaller: int| 0 <= smaller < id ==> id_taken(self.playlists@, smaller),
    {
        let mut candidate: usize = 0;
        proof {
            lemma_ids_from_step(self.playlists@, 0);
        }
        loop
            invariant
                forall|smaller: int| 0 <= smaller < candidate ==> id_taken(self.playlists@, smaller),
                candidate + ids_from(self.playlists@, candidate as int) <= self.playlists@.len(),
            decreases ids_from(self.playlists@, candidate as int),
        {
            let mut taken = false;
            let mut index: usize = 0;
            while index < self.playlists.len()
                invariant
                    index <= self.playlists@.len(),
                    taken <==> exists|i: int|
                        0 <= i < index && #[trigger] self.playlists@[i].id == candidate,
                decreases self.playlists@.len() - index,
            {
                if self.playlists[index].id == candidate {
                    taken = true;
                }
                index += 1;
            }
            if !taken {
                return candidate;
            }
            proof {
                assert(id_taken(self.playlists@, candidate as int));
                lemma_ids_from_step(self.playlists@, candidate as int);
            }
            candidate += 1;
        }
    }

    /// Adds a playlist with the given name and songs, under the smallest id that is free.
    pub fn add_playlist_with_songs(&mut self, name: String, songs: Vec<SongID>) -> (id: PlaylistID)
        ensures
            !id_taken(old(self).playlists@, id as int),
            forall|smaller: int| 0 <= smaller < id ==> id_taken(old(self).playlists@, smaller),
            final(self).playlists@.len() == old(self).playlists@.len() + 1,
            final(self).playlists@.drop_last() == old(self).playlists@,
            final(self).playlists@.last().id == id,
            final(self).playlists@.last().name == name,
            final(self).playlists@.last().songs == songs,
            final(self).shown_playlist_index == old(self).shown_playlist_index,
            final(self).playlist_scroll_position == old(self).playlist_scroll_position,
            final(self).view == old(self).view,
            final(self).scroll_cursor_positions == old(self).scroll_cursor_positions,
    {
        let id = self.get_next_playlist_id();
        self.playlists.push(Playlist { id, name, songs, cursor_position: 0, scroll_position: 0 });
        assert(self.playlists@.drop_last() =~= old(self).playlists@);
        id
    }

    /// Puts the cursor of a playlist on a row, or on the last row where the playlist
    /// has fewer, and moves the window of the playlist so that it shows the row.
    pub fn set_cursor_position(&mut self, playlist_index: usize, cursor: usize, num_rows: usize)
        requires
            num_rows >= 1,
        ensures
            final(self).shown_playlist_index == old(self).shown_playlist_index,
            final(self).playlist_scroll_position == old(self).playlist_scroll_position,
            final(self).playlists == old(self).playlists,
            final(self).view == old(self).view,
            final(self).scroll_cursor_positions@ == if playlist_index < old(self).playlists@.len() {
                let playlist = old(self).playlists@[playlist_index as int];
                let row = lesser(cursor as int, last_index(playlist.songs@.len() as int));
                old(self).scroll_cursor_positions@.insert(
                    playlist.id,
                    (
                        spec_scroll_position(
                            old(self).spec_positions(playlist.id).0 as int,
                            row,
                            num_rows as int,
                        ) as usize,
                        row as usize,
                    ),
                )
            } else {
                old(self).scroll_cursor_positions@
            },
    {
        if playlist_index < self.playlists.len() {
            let playlist = &self.playlists[playlist_index];
            let count = playlist.songs.len();
            let last = if count > 0 {
                count - 1
            } else {
                0
            };
            let row = if cursor <= last {
                cursor
            } else {
                last
            };
            let id = playlist.id;
            let scroll = scroll_to_cursor(self.positions(id).0, row, num_rows);
            self.scroll_cursor_positions.insert(id, (scroll, row));
        }
    }

    /// Shows the playlist with the given index, if there is one, and moves the window
    /// of the overview so that it shows the playlist's row.
    pub fn set_playlist_cursor_position(&mut self, cursor_position: usize, num_rows: usize)
        requires
            num_rows >= 1,
        ensures
            *final(self) == if cursor_position < old(self).playlists@.len() {
                PlaylistManager {
                    shown_playlist_index: cursor_position,
                    playlist_scroll_position: spec_scroll_position(
                        old(self).playlist_scroll_position as int,
                        cursor_position as int,
                        num_rows as int,
                    ) as usize,
                    ..*old(self)
                }
            } else {
                *old(self)
            },
    {
        if cursor_position < self.playlists.len() {
            self.shown_playlist_index = cursor_position;
            self.playlist_scroll_position =
            scroll_to_cursor(self.playlist_scroll_position, cursor_position, num_rows);
        }
    }

    /// The playlist that is shown, to be changed, if there is one.
    pub fn get_mut_shown_playlist(&mut self) -> (shown: Option<&mut Playlist>)
        ensures
            match shown {
                Some(playlist) => {
                    &&& old(self).shows(old(self).shown_playlist_index as int)
                    &&& *playlist == old(self).playlists@[old(self).shown_playlist_index as int]
                    &&& final(self).playlists@ == old(self).playlists@.update(
                        old(self).shown_playlist_index as int,
                        *final(playlist),
                    )
                },
                None => old(self).shown_playlist_index >= old(self).playlists@.len() && final(self).playlists == old(self).playlists,
            },
            final(self).shown_playlist_index == old(self).shown_playlist_index,
            final(self).playlist_scroll_position == old(self).playlist_scroll_position,
            final(self).view == old(self).view,
            final(self).scroll_cursor_positions == old(self).scroll_cursor_positions,
    {
        if self.shown_playlist_index < self.playlists.len() {
            Some(&mut self.playlists[self.shown_playlist_index])
        } else {
            None
        }
    }

    /// Adds songs to the end of the playlist that is shown; without one they are dropped.
    pub fn add_songs(&mut self, songs: Vec<SongID>)
        ensures
            final(self).playlists@ == if old(self).shown_playlist_index < old(self).playlists@.len() {
                old(self).playlists@.update(
                    old(self).shown_playlist_index as int,
                    final(self).playlists@[old(self).shown_playlist_index as int],
                )
            } else {
                old(self).playlists@
            },
            old(self).shown_playlist_index < old(self).playlists@.len() ==> {
                let before = old(self).playlists@[old(self).shown_playlist_index as int];
                let after = final(self).playlists@[old(self).shown_playlist_index as int];
                &&& after.songs@ == before.songs@ + songs@
                &&& after.id == before.id
                &&& after.name == before.name
                &&& after.cursor_position == before.cursor_position
                &&& after.scroll_position == before.scroll_position
            },
            final(self).shown_playlist_index == old(self).shown_playlist_index,
            final(self).playlist_scroll_position == old(self).playlist_scroll_position,
            final(self).view == old(self).view,
            final(self).scroll_cursor_positions == old(self).scroll_cursor_positions,
    {
        let mut songs = songs;
        if let Some(shown_playlist) = self.get_mut_shown_playlist() {
            shown_playlist.songs.append(&mut songs);
        }
    }

    /// Takes the song under the cursor out of the playlist that is shown.
    pub fn delete_current_song(&mut self)
        ensures
            final(self).playlists@ == if old(self).shown_playlist_index < old(self).playlists@.len() {
                old(self).playlists@.update(
                    old(self).shown_playlist_index as int,
                    final(self).playlists@[old(self).shown_playlist_index as int],
                )
            } else {
                old(self).playlists@
            },
            old(self).shown_playlist_index < old(self).playlists@.len() ==> {
                let before = old(self).playlists@[old(self).shown_playlist_index as int];
                let after = final(self).playlists@[old(self).shown_playlist_index as int];
                let cursor = old(self).spec_positions(before.id).1;
                &&& after.songs@ == if cursor < before.songs@.len() {
                    before.songs@.remove(cursor as int)
                } else {
                    before.songs@
                }
                &&& after.id == before.id
                &&& after.name == before.name
                &&& after.cursor_position == before.cursor_position
                &&& after.scroll_position == before.scroll_position
            },
            final(self).shown_playlist_index == old(self).shown_playlist_index,
            final(self).playlist_scroll_position == old(self).playlist_scroll_position,
            final(self).view == old(self).view,
            final(self).scroll_cursor_positions == old(self).scroll_cursor_positions,
    {
        let mut cursor_position: usize = 0;
        if let Some(shown_playlist) = self.get_shown_playlist() {
            cursor_position = self.positions(shown_playlist.id).1;
        }
        if let Some(shown_playlist) = self.get_mut_shown_playlist() {
            if cursor_position < shown_playlist.songs.len() {
                shown_playlist.songs.remove(cursor_position);
            }
        }
    }

    /// The state after the cursor went one row down: in the overview to the playlist
    /// below, in a playlist to the song below, in both no further than the last row.
    pub open spec fn moved_down(&self, after: PlaylistManager, num_rows: usize) -> bool {
        match self.view {
            PlaylistView::Overview => {
                let row = lesser(
                    self.shown_playlist_index + 1,
                    last_index(self.playlists@.len() as int),
                );
                after == if row < self.playlists@.len() {
                    PlaylistManager {
                        shown_playlist_index: row as usize,
                        playlist_scroll_position: spec_scroll_position(
                            self.playlist_scroll_position as int,
                            row,
                            num_rows as int,
                        ) as usize,
                        ..*self
                    }
                } else {
                    *self
                }
            },
            PlaylistView::Playlist => self.cursor_moved(
                after,
                self.spec_positions(self.playlists@[self.shown_playlist_index as int].id).1 + 1,
                num_rows,
            ),
        }
    }

    /// The state after the cursor of the playlist that is shown went to `row`, or to
    /// the last row where the playlist has fewer. Without such a playlist nothing moves.
    pub open spec fn cursor_moved(&self, after: PlaylistManager, row: int, num_rows: usize) -> bool {
        &&& after.shown_playlist_index == self.shown_playlist_index
        &&& after.playlist_scroll_position == self.playlist_scroll_position
        &&& after.playlists == self.playlists
        &&& after.view == self.view
        &&& after.scroll_cursor_positions@ == if self.shown_playlist_index < self.playlists@.len() {
            let playlist = self.playlists@[self.shown_playlist_index as int];
            let row = lesser(row, last_index(playlist.songs@.len() as int));
            self.scroll_cursor_positions@.insert(
                playlist.id,
                (
                    spec_scroll_position(
                        self.spec_positions(playlist.id).0 as int,
                        row,
                        num_rows as int,
                    ) as usize,
                    row as usize,
                ),
            )
        } else {
            self.scroll_cursor_positions@
        }
    }

    /// The state after the cursor went one row up, in the overview or in the playlist
    /// that is shown. A cursor on the first song of a playlist stays where it is, and
    /// nothing is kept of it.
    pub open spec fn moved_up(&self, after: PlaylistManager, num_rows: usize) -> bool {
        match self.view {
            PlaylistView::Overview => {
                let row = if self.shown_playlist_index > 0 {
                    self.shown_playlist_index - 1
                } else {
                    0
                };
                after == if row < self.playlists@.len() {
                    PlaylistManager {
                        shown_playlist_index: row as usize,
                        playlist_scroll_position: spec_scroll_position(
                            self.playlist_scroll_position as int,
                            row,
                            num_rows as int,
                        ) as usize,
                        ..*self
                    }
                } else {
                    *self
                }
            },
            PlaylistView::Playlist => if self.shown_playlist_index < self.playlists@.len()
                && self.spec_positions(self.playlists@[self.shown_playlist_index as int].id).1
                > 0 {
                self.cursor_moved(
                    after,
                    self.spec_positions(self.playlists@[self.shown_playlist_index as int].id).1
                        - 1,
                    num_rows,
                )
            } else {
                after == *self
            },
        }
    }

    /// Moves the cursor one row down.
    pub fn move_down(&mut self, num_rows: usize)
        requires
            num_rows >= 1,
        ensures
            old(self).moved_down(*final(self), num_rows),
    {
        match self.view {
            PlaylistView::Overview => {
                let count = self.playlists.len();
                let next_index = if count == 0 {
                    0
                } else if self.shown_playlist_index >= count - 1 {
                    count - 1
                } else {
                    self.shown_playlist_index + 1
                };
                self.set_playlist_cursor_position(next_index, num_rows);
            },
            PlaylistView::Playlist => {
                if self.shown_playlist_index < self.playlists.len() {
                    let playlist_id = self.playlists[self.shown_playlist_index].id;
                    let cursor_pos = self.positions(playlist_id).1;
                    assert(self.playlists@[self.shown_playlist_index as int].songs@.len()
                        <= usize::MAX) by {
                        vstd::std_specs::vec::axiom_spec_len(
                            &self.playlists@[self.shown_playlist_index as int].songs,
                        );
                    }
                    self.set_cursor_position(
                        self.shown_playlist_index,
                        cursor_pos.saturating_add(1),
                        num_rows,
                    );
                }
            },
        }
    }

    /// Moves the cursor one row up.
    pub fn move_up(&mut self, num_rows: usize)
        requires
            num_rows >= 1,
        ensures
            old(self).moved_up(*final(self), num_rows),
    {
        match self.view {
            PlaylistView::Overview => {
                let row = if self.shown_playlist_index > 0 {
                    self.shown_playlist_index - 1
                } else {
                    0
                };
                self.set_playlist_cursor_position(row, num_rows);
            },
            PlaylistView::Playlist => {
                if self.shown_playlist_index < self.playlists.len() {
                    let playlist_id = self.playlists[self.shown_playlist_index].id;
                    let cursor_pos = self.positions(playlist_id).1;
                    if cursor_pos > 0 {
                        self.set_cursor_position(
                            self.shown_playlist_index,
                            cursor_pos - 1,
                            num_rows,
                        );
                    }
                }
            },
        }
    }
}

/// The colours of a line of a list: yellow for what plays, and for the line under the
/// cursor a blue ground in the half of the browser that has the cursor, a white one in
/// the other half.
pub open spec fn spec_list_colors(played: bool, selected: bool, focused: bool) -> (
    RenderColor,
    RenderColor,
) {
    if played {
        if selected {
            if focused {
                (RenderColor::Yellow, RenderColor::Blue)
            } else {
                (RenderColor::Yellow, RenderColor::White)
            }
        } else {
            (RenderColor::Yellow, RenderColor::Black)
        }
    } else {
        if selected {
            if focused {
                (RenderColor::White, RenderColor::Blue)
            } else {
                (RenderColor::Black, RenderColor::White)
            }
        } else {
            (RenderColor::White, RenderColor::Black)
        }
    }
}

/// The colours of a line of a list.
pub fn list_colors(played: bool, selected: bool, focused: bool) -> (colors: (
    RenderColor,
    RenderColor,
))
    ensures
        colors == spec_list_colors(played, selected, focused),
{
    if played {
        if selected {
            if focused {
                (RenderColor::Yellow, RenderColor::Blue)
            } else {
                (RenderColor::Yellow, RenderColor::White)
            }
        } else {
            (RenderColor::Yellow, RenderColor::Black)
        }
    } else {
        if selected {
            if focused {
                (RenderColor::White, RenderColor::Blue)
            } else {
                (RenderColor::Black, RenderColor::White)
            }
        } else {
            (RenderColor::White, RenderColor::Black)
        }
    }
}

/// A line with the given text in the given colours.
pub open spec fn spec_line(text: Seq<char>, colors: (RenderColor, RenderColor)) -> RenderEntryView {
    RenderEntryView { text, foreground_color: colors.0, background_color: colors.1 }
}

/// The title of the song with the id.
pub open spec fn spec_title_of(buffer: SongBufferView, id: SongID) -> Seq<char> {
    buffer.songs[buffer.index_of_id(id)->0].title
}

/// The length of the song with the id as it is shown: empty where it is not known.
pub open spec fn spec_duration_text(buffer: SongBufferView, id: SongID) -> Seq<char> {
    match buffer.songs[buffer.index_of_id(id)->0].total_duration {
        Some(duration) => spec_format_duration(duration),
        None => Seq::empty(),
    }
}

/// The buffer has every song of the list.
pub open spec fn has_all(buffer: SongBufferView, ids: Seq<SongID>) -> bool {
    forall|i: int| 0 <= i < ids.len() ==> buffer.index_of_id(#[trigger] ids[i]) is Some
}

/// The titles of the songs of a list.
pub open spec fn spec_titles_of(buffer: SongBufferView, ids: Seq<SongID>) -> Seq<Seq<char>> {
    Seq::new(ids.len(), |i: int| spec_title_of(buffer, ids[i]))
}

/// The buffer once the first `count` songs of a list got their titles anew: each
/// title loses `start_len` characters at its start and `end_len` at its end, and is
/// numbered by the place of the song in the list where it brings no track number.
pub open spec fn spec_names_optimized(
    buffer: SongBufferView,
    ids: Seq<SongID>,
    start_len: nat,
    end_len: nat,
    count: int,
) -> SongBufferView
    decreases count,
{
    if count <= 0 {
        buffer
    } else {
        let before = spec_names_optimized(buffer, ids, start_len, end_len, count - 1);
        before.with_title(
            ids[count - 1],
            spec_normalize_title(
                spec_trimmed(spec_title_of(before, ids[count - 1]), start_len, end_len),
                count as usize,
            ),
        )
    }
}

/// The buffer once the songs of a list lost what all their titles have in common. A
/// single song keeps its title.
pub open spec fn spec_optimized(buffer: SongBufferView, ids: Seq<SongID>) -> SongBufferView {
    if ids.len() > 1 {
        let (start, end) = spec_common_ends(spec_titles_of(buffer, ids))->0;
        spec_names_optimized(buffer, ids, start.len(), end.len(), ids.len() as int)
    } else {
        buffer
    }
}

/// The buffer once the songs of each of the groups lost what the titles of their group
/// have in common, group by group.
pub open spec fn spec_groups_optimized(
    buffer: SongBufferView,
    groups: Seq<Vec<SongID>>,
) -> SongBufferView
    decreases groups.len(),
{
    if groups.len() == 0 {
        buffer
    } else {
        spec_optimized(spec_groups_optimized(buffer, groups.drop_last()), groups.last()@)
    }
}

/// Songs in groups, and the directory of each group.
pub struct Grouping {
    pub groups: Seq<Seq<SongID>>,
    pub directories: Seq<Option<Seq<char>>>,
}

/// The index of the first directory from `from` on that is the given one; the number
/// of directories where none is.
pub open spec fn first_directory(
    directories: Seq<Option<Seq<char>>>,
    directory: Option<Seq<char>>,
    from: int,
) -> int
    decreases directories.len() - from,
{
    if 0 <= from < directories.len() && directories[from] != directory {
        first_directory(directories, directory, from + 1)
    } else {
        from
    }
}

/// Songs, each with the directory that it lies in, put in groups by their
/// directories: the groups stand in the order in which their first songs come, and
/// the songs of a group in the order in which they come.
pub open spec fn spec_grouped(entries: Seq<(SongID, Option<Seq<char>>)>) -> Grouping
    decreases entries.len(),
{
    if entries.len() == 0 {
        Grouping { groups: Seq::empty(), directories: Seq::empty() }
    } else {
        let before = spec_grouped(entries.drop_last());
        let (song, directory) = entries.last();
        let place = first_directory(before.directories, directory, 0);
        if 0 <= place < before.groups.len() {
            Grouping {
                groups: before.groups.update(place, before.groups[place].push(song)),
                directories: before.directories,
            }
        } else {
            Grouping {
                groups: before.groups.push(seq![song]),
                directories: before.directories.push(directory),
            }
        }
    }
}

/// The songs of a list of groups.
pub open spec fn group_views(groups: Seq<Vec<SongID>>) -> Seq<Seq<SongID>> {
    groups.map_values(|group: Vec<SongID>| group@)
}

/// The text of a directory that a song may lack.
pub open spec fn directory_view(directory: Option<String>) -> Option<Seq<char>> {
    match directory {
        Some(directory) => Some(directory@),
        None => None,
    }
}

/// Songs with their directories, the directories as texts.
pub open spec fn grouping_entries(entries: Seq<(SongID, Option<String>)>) -> Seq<
    (SongID, Option<Seq<char>>),
> {
    entries.map_values(|entry: (SongID, Option<String>)| (entry.0, directory_view(entry.1)))
}

/// The first place of a directory lies within the list or right behind it, holds the
/// directory where it lies within, and no place before it does.
proof fn lemma_first_directory(
    directories: Seq<Option<Seq<char>>>,
    directory: Option<Seq<char>>,
    from: int,
)
    requires
        0 <= from <= directories.len(),
    ensures
        from <= first_directory(directories, directory, from) <= directories.len(),
        first_directory(directories, directory, from) < directories.len()
            ==> directories[first_directory(directories, directory, from)] == directory,
        forall|i: int|
            from <= i < first_directory(directories, directory, from) ==> directories[i]
                != directory,
    decreases directories.len() - from,
{
    if from < directories.len() && directories[from] != directory {
        lemma_first_directory(directories, directory, from + 1);
    }
}

/// Grouping loses no song and invents none: there is a directory for every group, no
/// group is empty, and every song of a group is one of the songs that were grouped.
pub proof fn lemma_grouped(entries: Seq<(SongID, Option<Seq<char>>)>)
    ensures
        spec_grouped(entries).groups.len() == spec_grouped(entries).directories.len(),
        forall|g: int|
            0 <= g < spec_grouped(entries).groups.len() ==> (#[trigger] spec_grouped(
                entries,
            ).groups[g]).len() > 0,
        forall|g: int, i: int|
            0 <= g < spec_grouped(entries).groups.len() && 0 <= i < spec_grouped(
                entries,
            ).groups[g].len() ==> exists|j: int|
                0 <= j < entries.len() && (#[trigger] entries[j]).0 == #[trigger] spec_grouped(
                    entries,
                ).groups[g][i],
    decreases entries.len(),
{
    if entries.len() > 0 {
        let rest = entries.drop_last();
        lemma_grouped(rest);
        let before = spec_grouped(rest);
        let after = spec_grouped(entries);
        let (song, directory) = entries.last();
        lemma_first_directory(before.directories, directory, 0);
        let place = first_directory(before.directories, directory, 0);
        assert forall|g: int, i: int|
            0 <= g < after.groups.len() && 0 <= i < after.groups[g].len() implies exists|j: int|
            0 <= j < entries.len() && (#[trigger] entries[j]).0 == #[trigger] after.groups[g][i] by {
            let last = entries.len() - 1;
            if g < before.groups.len() && i < before.groups[g].len() {
                assert(after.groups[g][i] == before.groups[g][i]);
                let j = choose|j: int|
                    0 <= j < rest.len() && (#[trigger] rest[j]).0 == before.groups[g][i];
                assert(entries[j] == rest[j]);
            } else {
                assert(after.groups[g][i] == song);
                assert(entries[last].0 == song);
            }
        }
    }
}

/// Giving songs new titles leaves every song in the buffer, and the buffer in order.
pub proof fn lemma_names_optimized(
    buffer: SongBufferView,
    ids: Seq<SongID>,
    start_len: nat,
    end_len: nat,
    count: int,
    other: Seq<SongID>,
)
    requires
        has_all(buffer, other),
    ensures
        has_all(spec_names_optimized(buffer, ids, start_len, end_len, count), other),
        spec_names_optimized(buffer, ids, start_len, end_len, count).songs.len()
            == buffer.songs.len(),
    decreases count,
{
    if count > 0 {
        lemma_names_optimized(buffer, ids, start_len, end_len, count - 1, other);
        let before = spec_names_optimized(buffer, ids, start_len, end_len, count - 1);
        let title = spec_normalize_title(
            spec_trimmed(spec_title_of(before, ids[count - 1]), start_len, end_len),
            count as usize,
        );
        assert forall|i: int| 0 <= i < other.len() implies before.with_title(
            ids[count - 1],
            title,
        ).index_of_id(#[trigger] other[i]) is Some by {
            lemma_with_title_keeps_ids(before, ids[count - 1], title, other[i]);
        }
        lemma_with_title_keeps_ids(before, ids[count - 1], title, 0);
    }
}

impl PlaylistManager {
    /// The lines of the overview: one for each playlist, with its name.
    pub open spec fn spec_overview_entries(&self, play_state: &PlayState) -> Seq<RenderEntryView> {
        Seq::new(
            self.playlists@.len(),
            |i: int|
                spec_line(
                    self.playlists@[i].name@,
                    spec_list_colors(
                        play_state.spec_is_playlist_played(i as usize),
                        i == self.shown_playlist_index,
                        self.view == PlaylistView::Overview,
                    ),
                ),
        )
    }

    /// The colours of the line of the song at `i` of the playlist that is shown.
    pub open spec fn spec_song_colors(&self, play_state: &PlayState, i: int) -> (
        RenderColor,
        RenderColor,
    ) {
        spec_list_colors(
            play_state.spec_is_song_played(self.shown_playlist_index, i as usize),
            i == self.spec_positions(self.playlists@[self.shown_playlist_index as int].id).1,
            self.view == PlaylistView::Playlist,
        )
    }

    /// The lines of the playlist that is shown: one for each song, with its title.
    pub open spec fn spec_song_entries(
        &self,
        play_state: &PlayState,
        buffer: SongBufferView,
    ) -> Seq<RenderEntryView> {
        let songs = self.playlists@[self.shown_playlist_index as int].songs@;
        Seq::new(
            songs.len(),
            |i: int| spec_line(spec_title_of(buffer, songs[i]), self.spec_song_colors(play_state, i)),
        )
    }

    /// The lines beside those of the playlist that is shown: one for each song, with
    /// its length.
    pub open spec fn spec_duration_entries(
        &self,
        play_state: &PlayState,
        buffer: SongBufferView,
    ) -> Seq<RenderEntryView> {
        let songs = self.playlists@[self.shown_playlist_index as int].songs@;
        Seq::new(
            songs.len(),
            |i: int|
                spec_line(spec_duration_text(buffer, songs[i]), self.spec_song_colors(play_state, i)),
        )
    }

    /// The playlist browser as panels side by side, aligned to the left: the overview
    /// of all playlists and, where a playlist is shown, its songs and their lengths.
    pub fn get_render_object(&self, play_state: &PlayState, song_buffer: &SongBuffer) -> (object:
        RenderObject)
        requires
            self.shown_playlist_index < self.playlists@.len() ==> has_all(
                song_buffer@,
                self.playlists@[self.shown_playlist_index as int].songs@,
            ),
        ensures
            object.alignment == Alignment::Left,
            object.panels@.len() == if self.shown_playlist_index < self.playlists@.len() {
                3nat
            } else {
                1nat
            },
            object.panels@[0].scroll_position == self.playlist_scroll_position,
            entry_views(object.panels@[0].entries@) == self.spec_overview_entries(play_state),
            self.shown_playlist_index < self.playlists@.len() ==> {
                let scroll = self.spec_positions(
                    self.playlists@[self.shown_playlist_index as int].id,
                ).0;
                &&& object.panels@[1].scroll_position == scroll
                &&& object.panels@[2].scroll_position == scroll
                &&& entry_views(object.panels@[1].entries@) == self.spec_song_entries(
                    play_state,
                    song_buffer@,
                )
                &&& entry_views(object.panels@[2].entries@) == self.spec_duration_entries(
                    play_state,
                    song_buffer@,
                )
            },
    {
        let mut render_object = RenderObject::new(Alignment::Left);

        // add overview panel
        let mut overview_panel = RenderPanel::new(self.playlist_scroll_position);
        let overview = matches!(self.view, PlaylistView::Overview);
        let mut index: usize = 0;
        while index < self.playlists.len()
            invariant
                index <= self.playlists@.len(),
                overview == (self.view == PlaylistView::Overview),
                overview_panel.scroll_position == self.playlist_scroll_position,
                entry_views(overview_panel.entries@) == self.spec_overview_entries(play_state).take(
                    index as int,
                ),
            decreases self.playlists@.len() - index,
        {
            let (foreground_color, background_color) = list_colors(
                play_state.is_playlist_played(index),
                index == self.shown_playlist_index,
                overview,
            );
            let entry = RenderEntry::new(
                self.playlists[index].name.clone(),
                foreground_color,
                background_color,
            );
            let ghost before = entry_views(overview_panel.entries@);
            overview_panel.entries.push(entry);
            assert(entry_views(overview_panel.entries@) =~= before.push(entry@));
            assert(entry_views(overview_panel.entries@) =~= self.spec_overview_entries(
                play_state,
            ).take(index + 1));
            index += 1;
        }
        assert(entry_views(overview_panel.entries@) =~= self.spec_overview_entries(play_state));
        render_object.panels.push(overview_panel);

        // add shown playlist
        if self.shown_playlist_index < self.playlists.len() {
            let playlist = &self.playlists[self.shown_playlist_index];
            let (scroll_position, cursor_position) = self.positions(playlist.id);
            let mut songs_panel = RenderPanel::new(scroll_position);
            let mut duration_panel = RenderPanel::new(scroll_position);
            let focused = matches!(self.view, PlaylistView::Playlist);
            let mut index: usize = 0;
            while index < playlist.songs.len()
                invariant
                    index <= playlist.songs@.len(),
                    focused == (self.view == PlaylistView::Playlist),
                    self.shown_playlist_index < self.playlists@.len(),
                    *playlist == self.playlists@[self.shown_playlist_index as int],
                    cursor_position == self.spec_positions(playlist.id).1,
                    has_all(song_buffer@, playlist.songs@),
                    songs_panel.scroll_position == scroll_position,
                    duration_panel.scroll_position == scroll_position,
                    entry_views(songs_panel.entries@) == self.spec_song_entries(
                        play_state,
                        song_buffer@,
                    ).take(index as int),
                    entry_views(duration_panel.entries@) == self.spec_duration_entries(
                        play_state,
                        song_buffer@,
                    ).take(index as int),
                decreases playlist.songs@.len() - index,
            {
                let (foreground_color, background_color) = list_colors(
                    play_state.is_song_played(self.shown_playlist_index, index),
                    index == cursor_position,
                    focused,
                );
                let song_id = playlist.songs[index];
                assert(song_buffer@.index_of_id(playlist.songs@[index as int]) is Some);
                let (title, duration) = match song_buffer.get(song_id) {
                    Some(song) => (
                        song.get_title().to_owned(),
                        match song.get_total_duration() {
                            Some(duration) => format_duration(duration),
                            None => String::new(),
                        },
                    ),
                    None => (String::new(), String::new()),
                };
                let song_entry = RenderEntry::new(title, foreground_color, background_color);
                let duration_entry = RenderEntry::new(duration, foreground_color, background_color);
                let ghost songs_before = entry_views(songs_panel.entries@);
                let ghost durations_before = entry_views(duration_panel.entries@);
                songs_panel.entries.push(song_entry);
                duration_panel.entries.push(duration_entry);
                assert(entry_views(songs_panel.entries@) =~= songs_before.push(song_entry@));
                assert(entry_views(duration_panel.entries@) =~= durations_before.push(
                    duration_entry@,
                ));
                assert(entry_views(songs_panel.entries@) =~= self.spec_song_entries(
                    play_state,
                    song_buffer@,
                ).take(index + 1));
                assert(entry_views(duration_panel.entries@) =~= self.spec_duration_entries(
                    play_state,
                    song_buffer@,
                ).take(index + 1));
                index += 1;
            }
            assert(entry_views(songs_panel.entries@) =~= self.spec_song_entries(
                play_state,
                song_buffer@,
            ));
            assert(entry_views(duration_panel.entries@) =~= self.spec_duration_entries(
                play_state,
                song_buffer@,
            ));
            render_object.panels.push(songs_panel);
            render_object.panels.push(duration_panel);
        }
        render_object
    }

    /// Adds a playlist of the songs at the given paths, which are taken into the
    /// buffer where it does not know them.
    pub fn add_playlist_from_files(
        &mut self,
        paths: &Vec<String>,
        name: String,
        song_buffer: &mut SongBuffer,
    ) -> (id: PlaylistID)
        requires
            old(song_buffer)@.next_id + paths@.len() <= SongID::MAX,
        ensures
            exists|entries: Seq<(Seq<char>, Seq<char>)>|
                {
                    &&& entries.len() == paths@.len()
                    &&& forall|i: int| 0 <= i < entries.len() ==> (#[trigger] entries[i]).0
                        == paths@[i]@
                    &&& final(song_buffer)@ == #[trigger] spec_imported_all(
                        old(song_buffer)@,
                        entries,
                    )
                    &&& final(self).playlists@.last().songs@ == spec_imported_ids(
                        old(song_buffer)@,
                        entries,
                    )
                },
            final(song_buffer)@.wf(),
            !id_taken(old(self).playlists@, id as int),
            forall|smaller: int| 0 <= smaller < id ==> id_taken(old(self).playlists@, smaller),
            final(self).playlists@.len() == old(self).playlists@.len() + 1,
            final(self).playlists@.drop_last() == old(self).playlists@,
            final(self).playlists@.last().id == id,
            final(self).playlists@.last().name == name,
            final(self).shown_playlist_index == old(self).shown_playlist_index,
            final(self).playlist_scroll_position == old(self).playlist_scroll_position,
            final(self).view == old(self).view,
            final(self).scroll_cursor_positions == old(self).scroll_cursor_positions,
    {
        let songs = song_buffer.import_all(paths);
        self.add_playlist_with_songs(name, songs)
    }

    /// Gives the songs of a list new titles: each loses what the titles of all of them
    /// have in common, and is numbered by its place where it brings no track number. A
    /// single song keeps its title.
    pub fn optimize_names_impl(song_buffer: &mut SongBuffer, song_ids: &Vec<SongID>)
        requires
            has_all(old(song_buffer)@, song_ids@),
        ensures
            final(song_buffer)@ == spec_optimized(old(song_buffer)@, song_ids@),
            final(song_buffer)@.songs.len() == old(song_buffer)@.songs.len(),
            forall|other: Seq<SongID>|
                has_all(old(song_buffer)@, other) ==> #[trigger] has_all(final(song_buffer)@, other),
    {
        // matching same name parts only makes sense for more than one song
        if song_ids.len() > 1 {
            let mut titles: Vec<String> = Vec::new();
            let mut index: usize = 0;
            while index < song_ids.len()
                invariant
                    index <= song_ids@.len(),
                    has_all(song_buffer@, song_ids@),
                    titles@.len() == index,
                    forall|i: int|
                        0 <= i < index ==> (#[trigger] titles@[i])@ == spec_title_of(
                            song_buffer@,
                            song_ids@[i],
                        ),
                decreases song_ids@.len() - index,
            {
                assert(song_buffer@.index_of_id(song_ids@[index as int]) is Some);
                let title = match song_buffer.get(song_ids[index]) {
                    Some(song) => song.get_title().to_owned(),
                    None => String::new(),
                };
                titles.push(title);
                index += 1;
            }
            let mut names: Vec<&str> = Vec::new();
            let mut index: usize = 0;
            while index < titles.len()
                invariant
                    index <= titles@.len(),
                    names@.len() == index,
                    forall|i: int| 0 <= i < index ==> (#[trigger] names@[i])@ == titles@[i]@,
                decreases titles@.len() - index,
            {
                names.push(titles[index].as_str());
                index += 1;
            }
            assert(texts(names@) =~= spec_titles_of(song_buffer@, song_ids@));
            let (start_len, end_len) = match get_common_ends(names) {
                Some((start, end)) => (start.unicode_len(), end.unicode_len()),
                None => (0, 0),
            };
            let mut index: usize = 0;
            while index < song_ids.len()
                invariant
                    index <= song_ids@.len(),
                    has_all(old(song_buffer)@, song_ids@),
                    song_buffer@ == spec_names_optimized(
                        old(song_buffer)@,
                        song_ids@,
                        start_len as nat,
                        end_len as nat,
                        index as int,
                    ),
                decreases song_ids@.len() - index,
            {
                proof {
                    lemma_names_optimized(
                        old(song_buffer)@,
                        song_ids@,
                        start_len as nat,
                        end_len as nat,
                        index as int,
                        song_ids@,
                    );
                    assert(song_buffer@.index_of_id(song_ids@[index as int]) is Some);
                }
                let title = match song_buffer.get(song_ids[index]) {
                    Some(song) => normalize_title(
                        trimmed(song.get_title(), start_len, end_len),
                        index + 1,
                    ),
                    None => String::new(),
                };
                song_buffer.set_title(song_ids[index], title.as_str());
                index += 1;
            }
            proof {
                assert forall|other: Seq<SongID>| has_all(old(song_buffer)@, other) implies #[trigger] has_all(
                    song_buffer@,
                    other,
                ) by {
                    lemma_names_optimized(
                        old(song_buffer)@,
                        song_ids@,
                        start_len as nat,
                        end_len as nat,
                        song_ids@.len() as int,
                        other,
                    );
                }
                lemma_names_optimized(
                    old(song_buffer)@,
                    song_ids@,
                    start_len as nat,
                    end_len as nat,
                    song_ids@.len() as int,
                    song_ids@,
                );
            }
        }
    }

    /// Gives the songs of each group new titles, group by group.
    pub fn optimize_names_grouped(song_buffer: &mut SongBuffer, groups: &Vec<Vec<SongID>>)
        requires
            forall|g: int| 0 <= g < groups@.len() ==> has_all(
                old(song_buffer)@,
                (#[trigger] groups@[g])@,
            ),
        ensures
            final(song_buffer)@ == spec_groups_optimized(old(song_buffer)@, groups@),
            final(song_buffer)@.songs.len() == old(song_buffer)@.songs.len(),
    {
        let mut index: usize = 0;
        while index < groups.len()
            invariant
                index <= groups@.len(),
                song_buffer@ == spec_groups_optimized(old(song_buffer)@, groups@.take(index as int)),
                song_buffer@.songs.len() == old(song_buffer)@.songs.len(),
                forall|g: int| 0 <= g < groups@.len() ==> has_all(
                    song_buffer@,
                    (#[trigger] groups@[g])@,
                ),
            decreases groups@.len() - index,
        {
            let ghost before = song_buffer@;
            assert(has_all(before, groups@[index as int]@));
            Self::optimize_names_impl(song_buffer, &groups[index]);
            proof {
                assert(groups@.take(index + 1).drop_last() =~= groups@.take(index as int));
                assert forall|g: int| 0 <= g < groups@.len() implies has_all(
                    song_buffer@,
                    (#[trigger] groups@[g])@,
                ) by {
                    assert(has_all(before, groups@[g]@));
                }
            }
            index += 1;
        }
        assert(groups@.take(index as int) =~= groups@);
    }

    /// Puts songs in groups by the directories that they lie in. The groups stand in
    /// the order in which their first songs come, and the songs of a group in the
    /// order in which they come.
    pub fn group_songs(entries: &Vec<(SongID, Option<String>)>) -> (groups: Vec<Vec<SongID>>)
        ensures
            group_views(groups@) == spec_grouped(grouping_entries(entries@)).groups,
    {
        let ghost all = grouping_entries(entries@);
        let mut groups: Vec<Vec<SongID>> = Vec::new();
        let mut directories: Vec<Option<String>> = Vec::new();
        let mut index: usize = 0;
        assert(all.take(0) =~= Seq::empty());
        assert(group_views(groups@) =~= Seq::<Seq<SongID>>::empty());
        while index < entries.len()
            invariant
                index <= entries@.len(),
                all == grouping_entries(entries@),
                group_views(groups@) == spec_grouped(all.take(index as int)).groups,
                directories@.len() == groups@.len(),
                forall|g: int|
                    0 <= g < directories@.len() ==> directory_view(#[trigger] directories@[g])
                        == spec_grouped(all.take(index as int)).directories[g],
                spec_grouped(all.take(index as int)).directories.len() == directories@.len(),
            decreases entries@.len() - index,
        {
            let song_id = entries[index].0;
            let ghost before = spec_grouped(all.take(index as int));
            let ghost directory = all[index as int].1;
            let mut place: usize = 0;
            while place < directories.len() && !same_directory(
                &directories[place],
                &entries[index].1,
            )
                invariant
                    place <= directories@.len(),
                    index < entries@.len(),
                    all == grouping_entries(entries@),
                    directory == all[index as int].1,
                    directory == directory_view(entries@[index as int].1),
                    before.directories.len() == directories@.len(),
                    forall|g: int|
                        0 <= g < directories@.len() ==> directory_view(
                            #[trigger] directories@[g],
                        ) == before.directories[g],
                    first_directory(before.directories, directory, 0) == first_directory(
                        before.directories,
                        directory,
                        place as int,
                    ),
                decreases directories@.len() - place,
            {
                assert(directory_view(directories@[place as int]) != directory);
                place += 1;
            }
            proof {
                if place < directories@.len() {
                    assert(directory_view(directories@[place as int]) == directory);
                }
                assert(all.take(index + 1).drop_last() =~= all.take(index as int));
                assert(all.take(index + 1).last() == (song_id, directory));
            }
            let ghost grouped = group_views(groups@);
            if place < groups.len() {
                let mut group = groups[place].clone();
                assert(group@ =~= groups@[place as int]@);
                group.push(song_id);
                groups.set(place, group);
                assert(group_views(groups@) =~= grouped.update(
                    place as int,
                    grouped[place as int].push(song_id),
                ));
            } else {
                let mut group: Vec<SongID> = Vec::new();
                group.push(song_id);
                assert(group@ =~= seq![song_id]);
                groups.push(group);
                directories.push(copy_directory(&entries[index].1));
                assert(group_views(groups@) =~= grouped.push(seq![song_id]));
            }
            index += 1;
        }
        assert(all.take(index as int) =~= all);
        groups
    }

    /// The songs of the playlist that is shown, in groups by the directory that they
    /// lie in, each group in the order of the playlist.
    fn group_by_directory(&self, song_buffer: &SongBuffer) -> (groups: Vec<Vec<SongID>>)
        requires
            self.shown_playlist_index < self.playlists@.len() ==> has_all(
                song_buffer@,
                self.playlists@[self.shown_playlist_index as int].songs@,
            ),
        ensures
            self.shown_playlist_index < self.playlists@.len() ==> exists|
                entries: Seq<(SongID, Option<Seq<char>>)>,
            |
                {
                    let songs = self.playlists@[self.shown_playlist_index as int].songs@;
                    &&& entries.len() == songs.len()
                    &&& forall|i: int| 0 <= i < songs.len() ==> (#[trigger] entries[i]).0 == songs[i]
                    &&& group_views(groups@) == #[trigger] spec_grouped(entries).groups
                },
            forall|g: int| 0 <= g < groups@.len() ==> has_all(
                song_buffer@,
                (#[trigger] groups@[g])@,
            ),
            self.shown_playlist_index >= self.playlists@.len() ==> groups@.len() == 0,
    {
        let mut entries: Vec<(SongID, Option<String>)> = Vec::new();
        if self.shown_playlist_index < self.playlists.len() {
            let playlist = &self.playlists[self.shown_playlist_index];
            let mut index: usize = 0;
            while index < playlist.songs.len()
                invariant
                    index <= playlist.songs@.len(),
                    has_all(song_buffer@, playlist.songs@),
                    entries@.len() == index,
                    forall|i: int| 0 <= i < index ==> (#[trigger] entries@[i]).0
                        == playlist.songs@[i],
                decreases playlist.songs@.len() - index,
            {
                let song_id = playlist.songs[index];
                let directory = match song_buffer.get(song_id) {
                    Some(song) => parent_of(song.get_path()),
                    None => None,
                };
                entries.push((song_id, directory));
                index += 1;
            }
        }
        let groups = Self::group_songs(&entries);
        proof {
            let all = grouping_entries(entries@);
            lemma_grouped(all);
            if self.shown_playlist_index < self.playlists@.len() {
                let songs = self.playlists@[self.shown_playlist_index as int].songs@;
                assert forall|i: int| 0 <= i < songs.len() implies (#[trigger] all[i]).0
                    == songs[i] by {
                    assert(entries@[i].0 == songs[i]);
                }
                assert forall|g: int| 0 <= g < groups@.len() implies has_all(
                    song_buffer@,
                    (#[trigger] groups@[g])@,
                ) by {
                    assert(group_views(groups@)[g] == groups@[g]@);
                    assert forall|i: int| 0 <= i < groups@[g]@.len() implies song_buffer@.index_of_id(
                        #[trigger] groups@[g]@[i],
                    ) is Some by {
                        let j = choose|j: int|
                            0 <= j < all.len() && (#[trigger] all[j]).0 == spec_grouped(
                                all,
                            ).groups[g][i];
                        assert(songs[j] == groups@[g]@[i]);
                    }
                }
                assert(spec_grouped(all).groups == group_views(groups@));
            } else {
                assert(all =~= Seq::empty());
                assert(group_views(groups@).len() == 0);
            }
        }
        groups
    }

    /// Gives the songs of the playlist that is shown new titles: the songs of each
    /// directory lose what their titles have in common.
    pub fn optimize_names(&mut self, song_buffer: &mut SongBuffer)
        requires
            old(self).shown_playlist_index < old(self).playlists@.len() ==> has_all(
                old(song_buffer)@,
                old(self).playlists@[old(self).shown_playlist_index as int].songs@,
            ),
        ensures
            *final(self) == *old(self),
            exists|groups: Seq<Vec<SongID>>| final(song_buffer)@ == #[trigger] spec_groups_optimized(
                old(song_buffer)@,
                groups,
            ),
            final(song_buffer)@.songs.len() == old(song_buffer)@.songs.len(),
            old(self).shown_playlist_index >= old(self).playlists@.len() ==> final(song_buffer)@
                == old(song_buffer)@,
            old(self).shown_playlist_index < old(self).playlists@.len() ==> exists|
                groups: Seq<Vec<SongID>>,
                entries: Seq<(SongID, Option<Seq<char>>)>,
            |
                {
                    let songs = old(self).playlists@[old(self).shown_playlist_index as int].songs@;
                    &&& entries.len() == songs.len()
                    &&& forall|i: int| 0 <= i < songs.len() ==> (#[trigger] entries[i]).0 == songs[i]
                    &&& group_views(groups) == #[trigger] spec_grouped(entries).groups
                    &&& final(song_buffer)@ == #[trigger] spec_groups_optimized(
                        old(song_buffer)@,
                        groups,
                    )
                },
    {
        let groups = self.group_by_directory(song_buffer);
        Self::optimize_names_grouped(song_buffer, &groups);
        proof {
            if self.shown_playlist_index < self.playlists@.len() {
                let songs = self.playlists@[self.shown_playlist_index as int].songs@;
                let entries = choose|entries: Seq<(SongID, Option<Seq<char>>)>|
                    {
                        &&& entries.len() == songs.len()
                        &&& forall|i: int|
                            0 <= i < songs.len() ==> (#[trigger] entries[i]).0 == songs[i]
                        &&& group_views(groups@) == #[trigger] spec_grouped(entries).groups
                    };
                assert(group_views(groups@) == spec_grouped(entries).groups && song_buffer@
                    == spec_groups_optimized(old(song_buffer)@, groups@));
            }
        }
    }
}

/// Tells whether two songs lie in the same directory.
fn same_directory(a: &Option<String>, b: &Option<String>) -> (same: bool)
    ensures
        same == match (*a, *b) {
            (Some(a), Some(b)) => a@ == b@,
            (None, None) => true,
            _ => false,
        },
{
    match (a, b) {
        (Some(a), Some(b)) => *a == *b,
        (None, None) => true,
        _ => false,
    }
}

/// A copy of a directory that a song may lack.
fn copy_directory(directory: &Option<String>) -> (copy: Option<String>)
    ensures
        copy == *directory,
{
    match directory {
        Some(directory) => Some(directory.clone()),
        None => None,
    }
}

/// Number of decimal digits that a title begins with.
pub open spec fn leading_digits(title: Seq<char>) -> nat
    decreases title.len(),
{
    if title.len() > 0 && is_decimal_digit(title[0]) {
        1 + leading_digits(title.drop_first())
    } else {
        0
    }
}

/// A title begins with a track number where it begins with digits that a space
/// follows, or that the title ends with.
pub open spec fn has_track_number(title: Seq<char>) -> bool {
    let digits = leading_digits(title);
    digits > 0 && (digits == title.len() || title[digits as int] == ' ')
}

/// A title behind its place in the list, which is written with two digits at least.
pub open spec fn numbered_title(title: Seq<char>, index: usize) -> Seq<char> {
    two_digits(index as nat) + seq![' '] + title
}

/// The title that a song is listed under.
///
/// A title that begins with a track number of two digits stays as it is, and a track
/// number of one digit gets a zero in front. Every other title is numbered by its place
/// in the list. An empty title is replaced.
pub open spec fn spec_normalize_title(title: Seq<char>, index: usize) -> Seq<char> {
    if title.len() == 0 {
        "<no title>"@
    } else if has_track_number(title) && leading_digits(title) == 1 {
        seq!['0'] + title
    } else if has_track_number(title) && leading_digits(title) == 2 {
        title
    } else {
        numbered_title(title, index)
    }
}

/// A count of leading digits of a title, followed by another character or the end of
/// the title, is the number of digits that the title begins with.
proof fn lemma_leading_digits_is(title: Seq<char>, count: nat)
    requires
        count <= title.len(),
        forall|i: int| 0 <= i < count ==> is_decimal_digit(#[trigger] title[i]),
        count < title.len() ==> !is_decimal_digit(title[count as int]),
    ensures
        leading_digits(title) == count,
    decreases title.len(),
{
    if count > 0 {
        assert(is_decimal_digit(title[0]));
        assert forall|i: int| 0 <= i < count - 1 implies is_decimal_digit(
            #[trigger] title.drop_first()[i],
        ) by {
            assert(title.drop_first()[i] == title[i + 1]);
        }
        lemma_leading_digits_is(title.drop_first(), (count - 1) as nat);
    }
}

/// Makes the title that a song is listed under, at the given place of the list.
pub fn normalize_title(title: &str, index: usize) -> (normalized: String)
    ensures
        normalized@ == spec_normalize_title(title@, index),
{
    let len = title.unicode_len();
    if len == 0 {
        return "<no title>".to_owned();
    }
    let mut digits: usize = 0;
    while digits < len && is_digit(title.get_char(digits))
        invariant
            digits <= len,
            len == title@.len(),
            forall|i: int| 0 <= i < digits ==> is_decimal_digit(#[trigger] title@[i]),
        decreases len - digits,
    {
        digits += 1;
    }
    proof {
        lemma_leading_digits_is(title@, digits as nat);
        reveal_strlit("0");
        reveal_strlit(" ");
    }
    let track_number = digits > 0 && (digits == len || title.get_char(digits) == ' ');
    if track_number && digits == 1 {
        let mut normalized = "0".to_owned();
        normalized.append(title);
        assert(normalized@ =~= seq!['0'] + title@);
        normalized
    } else if track_number && digits == 2 {
        title.to_owned()
    } else {
        let mut normalized = two_digit_string(index as u128);
        normalized.append(" ");
        normalized.append(title);
        assert(normalized@ =~= numbered_title(title@, index));
        normalized
    }
}

/// Tells whether a character is one of the ten decimal digits.
pub fn is_digit(c: char) -> (digit: bool)
    ensures
        digit == is_decimal_digit(c),
{
    c >= '0' && c <= '9'
}

} // verus!
