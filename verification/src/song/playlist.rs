use crate::song::SongID;
use vstd::prelude::*;

verus! {

/// Identifies a playlist among those of one manager.
pub type PlaylistID = usize;

/// A list of songs with a name, and where its cursor and its window stand.
pub struct Playlist {
    pub id: PlaylistID,
    pub name: String,
    pub songs: Vec<SongID>,
    pub cursor_position: usize,
    pub scroll_position: usize,
}

/// The first row of a window of `num_rows` rows that began at `scroll` and now has to
/// show the row of the cursor: it moves no further than it must.
pub open spec fn spec_scroll_position(scroll: int, cursor: int, num_rows: int) -> int {
    if scroll > cursor {
        cursor
    } else if scroll < cursor - num_rows + 1 {
        cursor - num_rows + 1
    } else {
        scroll
    }
}

/// Moves a window so that it shows the row of the cursor.
pub fn scroll_to_cursor(scroll: usize, cursor: usize, num_rows: usize) -> (moved: usize)
    requires
        num_rows >= 1,
    ensures
        moved == spec_scroll_position(scroll as int, cursor as int, num_rows as int),
{
    if scroll > cursor {
        cursor
    } else if cursor >= num_rows && scroll < cursor - num_rows + 1 {
        cursor - num_rows + 1
    } else {
        scroll
    }
}

impl Playlist {
    /// An empty playlist.
    pub fn new(name: String) -> (playlist: Playlist)
        ensures
            playlist.id == 0,
            playlist.name == name,
            playlist.songs@ == Seq::<SongID>::empty(),
            playlist.cursor_position == 0,
            playlist.scroll_position == 0,
    {
        Playlist { id: 0, name, songs: Vec::new(), cursor_position: 0, scroll_position: 0 }
    }

    /// Puts the cursor on a row, and moves the window so that it shows the row.
    pub fn set_cursor_position(&mut self, cursor_position: usize, num_rows: usize)
        requires
            num_rows >= 1,
        ensures
            final(self).cursor_position == cursor_position,
            final(self).scroll_position == spec_scroll_position(
                old(self).scroll_position as int,
                cursor_position as int,
                num_rows as int,
            ),
            final(self).id == old(self).id,
            final(self).name == old(self).name,
            final(self).songs == old(self).songs,
    {
        self.cursor_position = cursor_position;
        self.normalize_scroll_position(num_rows)
    }

    /// Moves the window so that it shows the row of the cursor.
    pub fn normalize_scroll_position(&mut self, num_rows: usize)
        requires
            num_rows >= 1,
        ensures
            final(self).scroll_position == spec_scroll_position(
                old(self).scroll_position as int,
                old(self).cursor_position as int,
                num_rows as int,
            ),
            final(self).cursor_position == old(self).cursor_position,
            final(self).id == old(self).id,
            final(self).name == old(self).name,
            final(self).songs == old(self).songs,
    {
        self.scroll_position = scroll_to_cursor(
            self.scroll_position,
            self.cursor_position,
            num_rows,
        );
    }
}

} // verus!
