use crate::file_manager::file_utils::{get_common_ends, spec_common_ends, DirectoryEntry};
use crate::path_parts::file_name_of;
use crate::playlist_manager::{normalize_title, spec_normalize_title};
use crate::song::song_buffer::{SongBuffer, SongBufferView};
use crate::time::Duration;
use vstd::prelude::*;
use vstd::string::StrSliceExecFns;

pub mod playlist;
pub mod song_buffer;

verus! {

/// Identifies a song for as long as the process runs.
pub type SongID = u32;

/// A song that can be played: where it lies, what it is called and, once known, how long it is.
pub struct Song {
    id: SongID,
    title: String,
    path: String,
    total_duration: Option<Duration>,
}

/// What a song holds, with its texts as sequences of characters.
pub struct SongView {
    pub id: SongID,
    pub title: Seq<char>,
    pub path: Seq<char>,
    pub total_duration: Option<Duration>,
}

impl View for Song {
    type V = SongView;

    closed spec fn view(&self) -> SongView {
        SongView {
            id: self.id,
            title: self.title@,
            path: self.path@,
            total_duration: self.total_duration,
        }
    }
}

impl Clone for Song {
    fn clone(&self) -> (res: Self)
        ensures
            res == *self,
    {
        Song {
            id: self.id,
            title: self.title.clone(),
            path: self.path.clone(),
            total_duration: self.total_duration,
        }
    }
}

impl Song {
    /// A song of unknown length.
    pub fn new(id: SongID, title: String, path: String) -> (song: Song)
        ensures
            song@ == (SongView { id, title: title@, path: path@, total_duration: None }),
    {
        Song { id, title, path, total_duration: None }
    }

    pub fn get_id(&self) -> (id: SongID)
        ensures
            id == self@.id,
    {
        self.id
    }

    pub fn get_title(&self) -> (title: &str)
        ensures
            title@ == self@.title,
    {
        self.title.as_str()
    }

    pub fn get_path(&self) -> (path: &str)
        ensures
            path@ == self@.path,
    {
        self.path.as_str()
    }

    pub fn get_total_duration(&self) -> (duration: Option<Duration>)
        ensures
            duration == self@.total_duration,
    {
        self.total_duration
    }

    /// Records the song's length; everything else stays.
    pub fn update_total_duration(&mut self, duration: Duration)
        ensures
            final(self)@ == (SongView { total_duration: Some(duration), ..old(self)@ }),
    {
        self.total_duration = Some(duration);
    }

    /// Tells whether the song lies at the path.
    pub fn has_path(&self, path: &String) -> (same: bool)
        ensures
            same == (self@.path == path@),
    {
        self.path == *path
    }

    /// Renames the song; everything else stays.
    pub fn set_title(&mut self, title: &str)
        ensures
            final(self)@ == (SongView { title: title@, ..old(self)@ }),
    {
        self.title = title.to_owned();
    }
}

/// The title for a file name that a path may lack.
pub open spec fn spec_title_for(file_name: Option<String>) -> Seq<char> {
    match file_name {
        Some(name) => name@,
        None => "<no filename>"@,
    }
}

/// The title of a song whose path has the given file name, or none.
pub fn title_for(file_name: Option<String>) -> (title: String)
    ensures
        title@ == spec_title_for(file_name),
{
    match file_name {
        Some(name) => name,
        None => "<no filename>".to_owned(),
    }
}

/// The title of a song of which only the path is known: the file name of the path.
pub fn title_from_path(path: &str) -> (title: String)
    ensures
        exists|file_name: Option<String>| title@ == #[trigger] spec_title_for(file_name),
{
    let file_name = file_name_of(path);
    let title = title_for(file_name);
    assert(title@ == spec_title_for(file_name));
    title
}

/// A name without its first `start_len` and its last `end_len` characters. Where the
/// two overlap, nothing is left.
pub open spec fn spec_trimmed(name: Seq<char>, start_len: nat, end_len: nat) -> Seq<char> {
    let from = if start_len <= name.len() {
        start_len as int
    } else {
        name.len() as int
    };
    let to = if name.len() - end_len >= from {
        name.len() - end_len
    } else {
        from
    };
    name.subrange(from, to)
}

/// Cuts the first `start_len` and the last `end_len` characters off a name.
pub fn trimmed(name: &str, start_len: usize, end_len: usize) -> (rest: &str)
    ensures
        rest@ == spec_trimmed(name@, start_len as nat, end_len as nat),
{
    let len = name.unicode_len();
    let from = if start_len <= len {
        start_len
    } else {
        len
    };
    let to = if end_len <= len && len - end_len >= from {
        len - end_len
    } else {
        from
    };
    name.substring_char(from, to)
}

/// The beginning and the end that are cut off the names of a list: what all of them
/// have in common where there are several, nothing for a single name.
pub open spec fn spec_shared_ends(names: Seq<Seq<char>>) -> (Seq<char>, Seq<char>) {
    if names.len() > 1 {
        spec_common_ends(names)->0
    } else {
        (Seq::empty(), Seq::empty())
    }
}

/// The title of the file at a place of a list of sound files: its name without what
/// all names have in common, numbered by its place where it brings no track number.
pub open spec fn spec_song_title(names: Seq<Seq<char>>, index: int) -> Seq<char> {
    let (start, end) = spec_shared_ends(names);
    spec_normalize_title(spec_trimmed(names[index], start.len(), end.len()), (index + 1) as usize)
}

/// The file names of a list of entries.
pub open spec fn file_names(entries: Seq<&DirectoryEntry>) -> Seq<Seq<char>> {
    entries.map_values(|entry: &DirectoryEntry| entry.filename@)
}

/// The buffer once the first `count` files of a list are in it.
pub open spec fn spec_songs_imported(
    buffer: SongBufferView,
    entries: Seq<&DirectoryEntry>,
    count: int,
) -> SongBufferView
    decreases count,
{
    if count <= 0 {
        buffer
    } else {
        spec_songs_imported(buffer, entries, count - 1).imported(
            entries[count - 1].path@,
            spec_song_title(file_names(entries), count - 1),
        )
    }
}

/// The ids of the first `count` files of a list once they are in the buffer.
pub open spec fn spec_song_ids(
    buffer: SongBufferView,
    entries: Seq<&DirectoryEntry>,
    count: int,
) -> Seq<SongID> {
    Seq::new(
        count as nat,
        |i: int| spec_songs_imported(buffer, entries, i).imported_id(entries[i].path@),
    )
}

/// Taking files into a buffer raises the next id by one for each file at most.
proof fn lemma_songs_imported(buffer: SongBufferView, entries: Seq<&DirectoryEntry>, count: int)
    requires
        0 <= count,
    ensures
        buffer.next_id <= spec_songs_imported(buffer, entries, count).next_id <= buffer.next_id
            + count || buffer.next_id + count > SongID::MAX,
    decreases count,
{
    if count > 0 {
        lemma_songs_imported(buffer, entries, count - 1);
    }
}

impl Song {
    /// Takes the sound files of a directory into the buffer and gives their ids, in
    /// the order of the files. A file that the buffer knows keeps its title; a new one
    /// is called by its name without what the names of all files have in common.
    pub fn songs_from_sound_files(
        sound_files: Vec<&DirectoryEntry>,
        song_buffer: &mut SongBuffer,
    ) -> (songs: Vec<SongID>)
        requires
            old(song_buffer)@.next_id + sound_files@.len() <= SongID::MAX,
        ensures
            final(song_buffer)@ == spec_songs_imported(
                old(song_buffer)@,
                sound_files@,
                sound_files@.len() as int,
            ),
            songs@ == spec_song_ids(old(song_buffer)@, sound_files@, sound_files@.len() as int),
            final(song_buffer)@.wf(),
    {
        proof {
            use_type_invariant(&*song_buffer);
        }
        let ghost names = file_names(sound_files@);
        let mut start_len: usize = 0;
        let mut end_len: usize = 0;
        // matching same name parts only makes sense for more than one song
        if sound_files.len() > 1 {
            let mut filenames: Vec<&str> = Vec::new();
            let mut index: usize = 0;
            while index < sound_files.len()
                invariant
                    index <= sound_files@.len(),
                    crate::file_manager::file_utils::texts(filenames@) == names.take(index as int),
                    names == file_names(sound_files@),
                decreases sound_files@.len() - index,
            {
                let ghost before = crate::file_manager::file_utils::texts(filenames@);
                filenames.push(sound_files[index].filename.as_str());
                assert(crate::file_manager::file_utils::texts(filenames@) =~= before.push(
                    sound_files@[index as int].filename@,
                ));
                assert(names.take(index + 1) =~= names.take(index as int).push(names[index as int]));
                index += 1;
            }
            assert(names.take(index as int) =~= names);
            if let Some((start, end)) = get_common_ends(filenames) {
                start_len = start.unicode_len();
                end_len = end.unicode_len();
            }
        }
        assert(start_len == spec_shared_ends(names).0.len());
        assert(end_len == spec_shared_ends(names).1.len());

        let mut songs: Vec<SongID> = Vec::new();
        let mut index: usize = 0;
        while index < sound_files.len()
            invariant
                index <= sound_files@.len(),
                names == file_names(sound_files@),
                start_len == spec_shared_ends(names).0.len(),
                end_len == spec_shared_ends(names).1.len(),
                song_buffer@ == spec_songs_imported(old(song_buffer)@, sound_files@, index as int),
                song_buffer@.wf(),
                old(song_buffer)@.next_id + sound_files@.len() <= SongID::MAX,
                songs@ == spec_song_ids(old(song_buffer)@, sound_files@, index as int),
            decreases sound_files@.len() - index,
        {
            let sound_file = sound_files[index];
            let title = trimmed(sound_file.filename.as_str(), start_len, end_len);
            let title = normalize_title(title, index + 1);
            proof {
                lemma_songs_imported(old(song_buffer)@, sound_files@, index as int);
            }
            let id = song_buffer.import(sound_file.path.as_str(), Some(title.as_str()));
            songs.push(id);
            assert(songs@ =~= spec_song_ids(old(song_buffer)@, sound_files@, index + 1));
            index += 1;
        }
        songs
    }
}

} // verus!
