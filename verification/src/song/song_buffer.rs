use crate::song::{title_from_path, Song, SongID, SongView};
use crate::time::Duration;
use vstd::prelude::*;

verus! {

/// All songs that the player knows, each under an id of its own.
pub struct SongBuffer {
    songs: Vec<Song>,
    next_id: SongID,
}

/// The songs of a buffer by their views, and the id that the next new song gets.
pub struct SongBufferView {
    pub songs: Seq<SongView>,
    pub next_id: SongID,
}

/// The views of a list of songs.
pub open spec fn song_views(songs: Seq<Song>) -> Seq<SongView> {
    songs.map_values(|song: Song| song@)
}

impl View for SongBuffer {
    type V = SongBufferView;

    closed spec fn view(&self) -> SongBufferView {
        SongBufferView { songs: song_views(self.songs@), next_id: self.next_id }
    }
}

impl SongBufferView {
    /// No two songs share an id or a path, and every id is below the next one.
    pub open spec fn wf(self) -> bool {
        &&& forall|i: int| 0 <= i < self.songs.len() ==> (#[trigger] self.songs[i]).id < self.next_id
        &&& forall|i: int, j: int|
            0 <= i < j < self.songs.len() ==> (#[trigger] self.songs[i]).id != (
            #[trigger] self.songs[j]).id
        &&& forall|i: int, j: int|
            0 <= i < j < self.songs.len() ==> (#[trigger] self.songs[i]).path != (
            #[trigger] self.songs[j]).path
    }

    /// The index of the first song with the id.
    pub open spec fn index_of_id(self, id: SongID) -> Option<int> {
        if exists|i: int| 0 <= i < self.songs.len() && (#[trigger] self.songs[i]).id == id {
            Some(self.first_where(|song: SongView| song.id == id, 0))
        } else {
            None
        }
    }

    /// The index of the first song with the path.
    pub open spec fn index_of_path(self, path: Seq<char>) -> Option<int> {
        if exists|i: int| 0 <= i < self.songs.len() && (#[trigger] self.songs[i]).path == path {
            Some(self.first_where(|song: SongView| song.path == path, 0))
        } else {
            None
        }
    }

    /// The index of the first song from `from` on that the test holds of; the number
    /// of songs where it holds of none.
    pub open spec fn first_where(self, test: spec_fn(SongView) -> bool, from: int) -> int
        decreases self.songs.len() - from,
    {
        if 0 <= from < self.songs.len() && !test(self.songs[from]) {
            self.first_where(test, from + 1)
        } else {
            from
        }
    }

    /// The buffer with one more song, under the next id and of unknown length.
    pub open spec fn with_new(self, path: Seq<char>, title: Seq<char>) -> SongBufferView {
        SongBufferView {
            songs: self.songs.push(
                SongView { id: self.next_id, title, path, total_duration: None },
            ),
            next_id: (self.next_id + 1) as SongID,
        }
    }

    /// The buffer once the song at the path is in it: as it is where it knows the
    /// path, with a new song of the given title where it does not.
    pub open spec fn imported(self, path: Seq<char>, title: Seq<char>) -> SongBufferView {
        if self.index_of_path(path) is Some {
            self
        } else {
            self.with_new(path, title)
        }
    }

    /// The id of the song at the path once it is in the buffer.
    pub open spec fn imported_id(self, path: Seq<char>) -> SongID {
        match self.index_of_path(path) {
            Some(index) => self.songs[index].id,
            None => self.next_id,
        }
    }

    /// The buffer with the length of the song with the id; as it is where it has no
    /// such song.
    pub open spec fn with_total_duration(self, id: SongID, duration: Duration) -> SongBufferView {
        match self.index_of_id(id) {
            Some(index) => SongBufferView {
                songs: self.songs.update(
                    index,
                    SongView { total_duration: Some(duration), ..self.songs[index] },
                ),
                next_id: self.next_id,
            },
            None => self,
        }
    }

    /// The buffer with another title for the song with the id; as it is where it has
    /// no such song.
    pub open spec fn with_title(self, id: SongID, title: Seq<char>) -> SongBufferView {
        match self.index_of_id(id) {
            Some(index) => SongBufferView {
                songs: self.songs.update(index, SongView { title, ..self.songs[index] }),
                next_id: self.next_id,
            },
            None => self,
        }
    }
}

/// The first song that a test holds of lies within the list, the test holds of it and
/// of no song before it; where the test holds of no song, the search ends behind the
/// list.
pub proof fn lemma_first_where(buffer: SongBufferView, test: spec_fn(SongView) -> bool, from: int)
    requires
        0 <= from <= buffer.songs.len(),
    ensures
        from <= buffer.first_where(test, from) <= buffer.songs.len(),
        buffer.first_where(test, from) < buffer.songs.len() ==> test(
            buffer.songs[buffer.first_where(test, from)],
        ),
        forall|i: int| from <= i < buffer.first_where(test, from) ==> !test(buffer.songs[i]),
    decreases buffer.songs.len() - from,
{
    if from < buffer.songs.len() && !test(buffer.songs[from]) {
        lemma_first_where(buffer, test, from + 1);
    }
}

/// The buffer once the songs of a list of paths and titles are in it, one after the
/// other.
pub open spec fn spec_imported_all(
    buffer: SongBufferView,
    entries: Seq<(Seq<char>, Seq<char>)>,
) -> SongBufferView
    decreases entries.len(),
{
    if entries.len() == 0 {
        buffer
    } else {
        spec_imported_all(buffer, entries.drop_last()).imported(entries.last().0, entries.last().1)
    }
}

/// The ids of the songs of a list of paths and titles once they are in the buffer.
pub open spec fn spec_imported_ids(
    buffer: SongBufferView,
    entries: Seq<(Seq<char>, Seq<char>)>,
) -> Seq<SongID> {
    Seq::new(
        entries.len(),
        |i: int| spec_imported_all(buffer, entries.take(i)).imported_id(entries[i].0),
    )
}

/// Taking songs into a buffer raises the next id by one for each song at most.
pub proof fn lemma_imported_all(buffer: SongBufferView, entries: Seq<(Seq<char>, Seq<char>)>)
    ensures
        buffer.next_id <= spec_imported_all(buffer, entries).next_id <= buffer.next_id
            + entries.len() || buffer.next_id + entries.len() > SongID::MAX,
    decreases entries.len(),
{
    if entries.len() > 0 {
        lemma_imported_all(buffer, entries.drop_last());
    }
}

/// Renaming a song leaves every song where it is and under its id.
pub proof fn lemma_with_title_keeps_ids(
    buffer: SongBufferView,
    id: SongID,
    title: Seq<char>,
    other: SongID,
)
    ensures
        buffer.with_title(id, title).index_of_id(other) == buffer.index_of_id(other),
        buffer.with_title(id, title).songs.len() == buffer.songs.len(),
        buffer.with_title(id, title).next_id == buffer.next_id,
{
    let after = buffer.with_title(id, title);
    let test = |song: SongView| song.id == other;
    lemma_first_where(buffer, |song: SongView| song.id == id, 0);
    assert forall|i: int| 0 <= i < buffer.songs.len() implies (#[trigger] after.songs[i]).id
        == buffer.songs[i].id by {}
    lemma_same_ids_same_first(buffer, after, test, other, 0);
    if exists|i: int| 0 <= i < buffer.songs.len() && (#[trigger] buffer.songs[i]).id == other {
        let i = choose|i: int| 0 <= i < buffer.songs.len() && (#[trigger] buffer.songs[i]).id == other;
        assert(after.songs[i].id == other);
    }
    if exists|i: int| 0 <= i < after.songs.len() && (#[trigger] after.songs[i]).id == other {
        let i = choose|i: int| 0 <= i < after.songs.len() && (#[trigger] after.songs[i]).id == other;
        assert(buffer.songs[i].id == other);
    }
}

/// Two buffers whose songs have the same ids, place by place, find an id at the same
/// place.
proof fn lemma_same_ids_same_first(
    a: SongBufferView,
    b: SongBufferView,
    test: spec_fn(SongView) -> bool,
    id: SongID,
    from: int,
)
    requires
        a.songs.len() == b.songs.len(),
        forall|i: int| 0 <= i < a.songs.len() ==> (#[trigger] b.songs[i]).id == a.songs[i].id,
        test == (|song: SongView| song.id == id),
        0 <= from <= a.songs.len(),
    ensures
        a.first_where(test, from) == b.first_where(test, from),
    decreases a.songs.len() - from,
{
    if from < a.songs.len() {
        assert(b.songs[from].id == a.songs[from].id);
        if !test(a.songs[from]) {
            lemma_same_ids_same_first(a, b, test, id, from + 1);
        }
    }
}

/// A buffer that a song was taken into has the song under its id, at its path.
pub proof fn lemma_imported_has(buffer: SongBufferView, path: Seq<char>, title: Seq<char>)
    requires
        buffer.wf(),
        buffer.next_id < SongID::MAX,
    ensures
        ({
            let after = buffer.imported(path, title);
            let id = buffer.imported_id(path);
            &&& after.index_of_id(id) matches Some(index) && after.songs[index].id == id
                && after.songs[index].path == path
        }),
{
    let after = buffer.imported(path, title);
    let id = buffer.imported_id(path);
    let by_path = |song: SongView| song.path == path;
    let by_id = |song: SongView| song.id == id;
    lemma_first_where(buffer, by_path, 0);
    lemma_first_where(after, by_id, 0);
    let found = after.first_where(by_id, 0);
    match buffer.index_of_path(path) {
        Some(index) => {
            assert(buffer.songs[index].id == id);
            if found != index {
                assert(buffer.songs[found].id == id);
            }
        },
        None => {
            let last = buffer.songs.len() as int;
            assert(after.songs[last].id == id);
            if found < last {
                assert(buffer.songs[found].id < buffer.next_id);
            }
        },
    }
}

impl SongBuffer {
    /// No two songs share an id or a path, and every id is below the next one. This holds of every value of the type.
    #[verifier::type_invariant]
    pub open spec fn wf(&self) -> bool {
        self@.wf()
    }

    /// A buffer without songs.
    pub fn new() -> (buffer: SongBuffer)
        ensures
            buffer@ == (SongBufferView { songs: Seq::empty(), next_id: 0 }),
            buffer@.wf(),
    {
        let buffer = SongBuffer { songs: Vec::new(), next_id: 0 };
        assert(buffer@.songs =~= Seq::empty());
        buffer
    }

    /// Number of songs in the buffer.
    pub fn len(&self) -> (count: usize)
        ensures
            count == self@.songs.len(),
    {
        self.songs.len()
    }

    /// The place of the first song with the id.
    fn find_id(&self, id: SongID) -> (found: Option<usize>)
        ensures
            match found {
                Some(index) => self@.index_of_id(id) == Some(index as int) && index
                    < self@.songs.len() && self@.songs[index as int].id == id,
                None => self@.index_of_id(id) is None,
            },
    {
        let ghost test = |song: SongView| song.id == id;
        let mut index: usize = 0;
        while index < self.songs.len()
            invariant
                index <= self.songs@.len(),
                forall|i: int| 0 <= i < index ==> (#[trigger] self@.songs[i]).id != id,
                self@.first_where(test, 0) == self@.first_where(test, index as int),
                test == (|song: SongView| song.id == id),
            decreases self.songs@.len() - index,
        {
            if self.songs[index].get_id() == id {
                assert(self@.songs[index as int].id == id);
                return Some(index);
            }
            assert(!test(self@.songs[index as int]));
            index += 1;
        }
        None
    }

    /// The place of the first song with the path.
    fn find_path(&self, path: &String) -> (found: Option<usize>)
        ensures
            match found {
                Some(index) => self@.index_of_path(path@) == Some(index as int) && index
                    < self@.songs.len() && self@.songs[index as int].path == path@,
                None => self@.index_of_path(path@) is None,
            },
    {
        let ghost test = |song: SongView| song.path == path@;
        let mut index: usize = 0;
        while index < self.songs.len()
            invariant
                index <= self.songs@.len(),
                forall|i: int| 0 <= i < index ==> (#[trigger] self@.songs[i]).path != path@,
                self@.first_where(test, 0) == self@.first_where(test, index as int),
                test == (|song: SongView| song.path == path@),
            decreases self.songs@.len() - index,
        {
            if self.songs[index].has_path(path) {
                assert(self@.songs[index as int].path == path@);
                return Some(index);
            }
            assert(!test(self@.songs[index as int]));
            index += 1;
        }
        None
    }

    /// Takes the song at the path into the buffer, unless it is there already, and
    /// gives its id. A new song gets the given title, or the file name of its path.
    pub fn import(&mut self, path: &str, title: Option<&str>) -> (id: SongID)
        requires
            old(self)@.next_id < SongID::MAX,
        ensures
            id == old(self)@.imported_id(path@),
            match title {
                Some(title) => final(self)@ == old(self)@.imported(path@, title@),
                None => exists|title: Seq<char>| final(self)@ == #[trigger] old(self)@.imported(
                    path@,
                    title,
                ),
            },
            final(self)@.wf(),
    {
        proof {
            use_type_invariant(&*self);
        }
        let owned_path = path.to_owned();
        if let Some(index) = self.find_path(&owned_path) {
            let id = self.songs[index].get_id();
            proof {
                match title {
                    Some(title) => {},
                    None => {
                        assert(self@ == old(self)@.imported(path@, Seq::<char>::empty()));
                    },
                }
            }
            return id;
        }
        let title = match title {
            Some(title) => title.to_owned(),
            None => title_from_path(path),
        };
        let ghost title_text = title@;
        let id = self.import_new(owned_path, title);
        assert(self@ == old(self)@.imported(path@, title_text));
        id
    }

    /// Takes a song into the buffer that is not there yet.
    fn import_new(&mut self, path: String, title: String) -> (id: SongID)
        requires
            old(self)@.next_id < SongID::MAX,
            old(self)@.index_of_path(path@) is None,
        ensures
            id == old(self)@.next_id,
            final(self)@ == old(self)@.with_new(path@, title@),
            final(self)@.wf(),
    {
        proof {
            use_type_invariant(&*self);
            lemma_first_where(self@, |song: SongView| song.path == path@, 0);
        }
        let id = self.next_id;
        let song = Song::new(id, title, path);
        let mut songs: Vec<Song> = Vec::new();
        core::mem::swap(&mut self.songs, &mut songs);
        assert(song_views(Seq::<Song>::empty()) =~= Seq::<SongView>::empty());
        songs.push(song);
        assert(song_views(songs@) =~= old(self)@.songs.push(song@));
        self.next_id += 1;
        self.songs = songs;
        id
    }

    /// The song with the id.
    pub fn get(&self, id: SongID) -> (song: Option<&Song>)
        ensures
            match song {
                Some(song) => self@.index_of_id(id) matches Some(index) && song@
                    == self@.songs[index],
                None => self@.index_of_id(id) is None,
            },
    {
        match self.find_id(id) {
            Some(index) => Some(&self.songs[index]),
            None => None,
        }
    }

    /// The song at the path.
    pub fn get_by_path(&self, path: &str) -> (song: Option<&Song>)
        ensures
            match song {
                Some(song) => self@.index_of_path(path@) matches Some(index) && song@
                    == self@.songs[index],
                None => self@.index_of_path(path@) is None,
            },
    {
        let owned_path = path.to_owned();
        match self.find_path(&owned_path) {
            Some(index) => Some(&self.songs[index]),
            None => None,
        }
    }

    /// Records the length of the song with the id, if the buffer has the song.
    pub fn update_total_duration(&mut self, song_id: SongID, duration: Duration)
        ensures
            final(self)@ == old(self)@.with_total_duration(song_id, duration),
            final(self)@.wf(),
    {
        proof {
            use_type_invariant(&*self);
        }
        if let Some(index) = self.find_id(song_id) {
            let mut song = self.songs[index].clone();
            song.update_total_duration(duration);
            let mut songs: Vec<Song> = Vec::new();
            core::mem::swap(&mut self.songs, &mut songs);
            assert(song_views(Seq::<Song>::empty()) =~= Seq::<SongView>::empty());
            songs.set(index, song);
            assert(song_views(songs@) =~= old(self)@.with_total_duration(song_id, duration).songs);
            self.songs = songs;
        }
    }

    /// Renames the song with the id, if the buffer has the song.
    pub fn set_title(&mut self, song_id: SongID, title: &str)
        ensures
            final(self)@ == old(self)@.with_title(song_id, title@),
            final(self)@.wf(),
    {
        proof {
            use_type_invariant(&*self);
        }
        if let Some(index) = self.find_id(song_id) {
            let mut song = self.songs[index].clone();
            song.set_title(title);
            let mut songs: Vec<Song> = Vec::new();
            core::mem::swap(&mut self.songs, &mut songs);
            assert(song_views(Seq::<Song>::empty()) =~= Seq::<SongView>::empty());
            songs.set(index, song);
            assert(song_views(songs@) =~= old(self)@.with_title(song_id, title@).songs);
            self.songs = songs;
        }
    }

    /// Takes the songs at the paths into the buffer, each under the file name of its
    /// path unless the buffer knows it already, and gives their ids in the order of
    /// the paths.
    pub fn import_all(&mut self, paths: &Vec<String>) -> (ids: Vec<SongID>)
        requires
            old(self)@.next_id + paths@.len() <= SongID::MAX,
        ensures
            exists|entries: Seq<(Seq<char>, Seq<char>)>|
                {
                    &&& entries.len() == paths@.len()
                    &&& forall|i: int| 0 <= i < entries.len() ==> (#[trigger] entries[i]).0
                        == paths@[i]@
                    &&& final(self)@ == #[trigger] spec_imported_all(old(self)@, entries)
                    &&& ids@ == spec_imported_ids(old(self)@, entries)
                },
            final(self)@.wf(),
    {
        proof {
            use_type_invariant(&*self);
        }
        let mut ids: Vec<SongID> = Vec::new();
        let ghost mut entries: Seq<(Seq<char>, Seq<char>)> = Seq::empty();
        let mut index: usize = 0;
        while index < paths.len()
            invariant
                index <= paths@.len(),
                entries.len() == index,
                forall|i: int| 0 <= i < entries.len() ==> (#[trigger] entries[i]).0 == paths@[i]@,
                self@ == spec_imported_all(old(self)@, entries),
                ids@ == spec_imported_ids(old(self)@, entries),
                self@.wf(),
                old(self)@.next_id + paths@.len() <= SongID::MAX,
            decreases paths@.len() - index,
        {
            proof {
                lemma_imported_all(old(self)@, entries);
            }
            let ghost before = self@;
            let id = self.import(paths[index].as_str(), None);
            proof {
                let title = choose|title: Seq<char>|
                    self@ == #[trigger] before.imported(paths@[index as int]@, title);
                let longer = entries.push((paths@[index as int]@, title));
                assert(longer.drop_last() =~= entries);
                assert forall|i: int| 0 <= i < longer.len() implies spec_imported_ids(
                    old(self)@,
                    longer,
                )[i] == ids@.push(id)[i] by {
                    if i < entries.len() {
                        assert(longer.take(i) =~= entries.take(i));
                    } else {
                        assert(longer.take(i) =~= entries);
                    }
                }
                assert(spec_imported_ids(old(self)@, longer) =~= ids@.push(id));
                entries = longer;
            }
            ids.push(id);
            index += 1;
        }
        ids
    }

    /// The songs of the buffer, in the order in which they came in.
    pub fn songs(&self) -> (songs: &Vec<Song>)
        ensures
            song_views(songs@) == self@.songs,
    {
        &self.songs
    }

    /// The id that the next new song gets.
    pub fn next_id(&self) -> (next_id: SongID)
        ensures
            next_id == self@.next_id,
    {
        self.next_id
    }

    /// Tells whether the song at `index` shares neither its id nor its path with a
    /// song before it, and has an id below `next_id`.
    fn is_new(songs: &Vec<Song>, index: usize, next_id: SongID) -> (new: bool)
        requires
            index < songs@.len(),
        ensures
            new == (songs@[index as int]@.id < next_id && forall|i: int|
                0 <= i < index ==> (#[trigger] songs@[i])@.id != songs@[index as int]@.id
                    && songs@[i]@.path != songs@[index as int]@.path),
    {
        if songs[index].get_id() >= next_id {
            return false;
        }
        let path = songs[index].get_path().to_owned();
        let mut before: usize = 0;
        while before < index
            invariant
                before <= index,
                index < songs@.len(),
                path@ == songs@[index as int]@.path,
                forall|i: int|
                    0 <= i < before ==> (#[trigger] songs@[i])@.id != songs@[index as int]@.id
                        && songs@[i]@.path != songs@[index as int]@.path,
            decreases index - before,
        {
            if songs[before].get_id() == songs[index].get_id() || songs[before].has_path(&path) {
                return false;
            }
            before += 1;
        }
        true
    }

    /// A buffer of the given songs, if no two of them share an id or a path and all
    /// ids are below `next_id`.
    pub fn from_parts(songs: Vec<Song>, next_id: SongID) -> (buffer: Option<SongBuffer>)
        ensures
            match buffer {
                Some(buffer) => buffer@ == (SongBufferView { songs: song_views(songs@), next_id })
                    && buffer@.wf(),
                None => !(SongBufferView { songs: song_views(songs@), next_id }).wf(),
            },
    {
        let ghost view = SongBufferView { songs: song_views(songs@), next_id };
        let mut index: usize = 0;
        while index < songs.len()
            invariant
                index <= songs@.len(),
                view == (SongBufferView { songs: song_views(songs@), next_id }),
                forall|j: int| 0 <= j < index ==> (#[trigger] view.songs[j]).id < next_id,
                forall|i: int, j: int|
                    0 <= i < j < index ==> (#[trigger] view.songs[i]).id != (
                    #[trigger] view.songs[j]).id && view.songs[i].path != view.songs[j].path,
            decreases songs@.len() - index,
        {
            if !Self::is_new(&songs, index, next_id) {
                proof {
                    let j = index as int;
                    if view.songs[j].id < next_id {
                        let i = choose|i: int|
                            0 <= i < index && !((#[trigger] songs@[i])@.id != songs@[j]@.id
                                && songs@[i]@.path != songs@[j]@.path);
                        assert(view.songs[i].id == view.songs[j].id || view.songs[i].path
                            == view.songs[j].path);
                    }
                }
                return None;
            }
            proof {
                assert forall|i: int, j: int| 0 <= i < j < index + 1 implies (
                #[trigger] view.songs[i]).id != (#[trigger] view.songs[j]).id && view.songs[i].path
                    != view.songs[j].path by {
                    if j == index {
                        assert(songs@[i]@.id != songs@[j]@.id);
                    }
                }
            }
            index += 1;
        }
        Some(SongBuffer { songs, next_id })
    }
}

} // verus!
