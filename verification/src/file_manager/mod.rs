use crate::config::FileManagerCache;
use crate::file_manager::file_utils::DirectoryEntry;
use crate::path_parts::parent_of;
use crate::render::{Alignment, RenderColor, RenderEntry, RenderEntryView, RenderObject, RenderPanel, entry_views};
use vstd::prelude::*;

pub mod file_utils;

verus! {

/// Where the cursor and the window of a directory's panel stand.
pub struct PathPosition {
    pub path: String,
    pub cursor_position: usize,
    pub scroll_position: usize,
}

pub struct PathPositionView {
    pub path: Seq<char>,
    pub cursor_position: usize,
    pub scroll_position: usize,
}

impl View for PathPosition {
    type V = PathPositionView;

    open spec fn view(&self) -> PathPositionView {
        PathPositionView {
            path: self.path@,
            cursor_position: self.cursor_position,
            scroll_position: self.scroll_position,
        }
    }
}

/// A directory and what it holds, in the order in which it is shown.
pub struct DirectoryListing {
    pub path: String,
    pub entries: Vec<DirectoryEntry>,
}

/// The file browser: the path that it stands at, and where the cursor stands in each
/// directory that it has been to.
pub struct FileManager {
    pub current_path: String,
    /// Each directory once at most.
    pub positions: Vec<PathPosition>,
}

pub struct FileManagerView {
    pub current_path: Seq<char>,
    pub positions: Seq<PathPositionView>,
}

/// The views of a list of positions.
pub open spec fn position_views(positions: Seq<PathPosition>) -> Seq<PathPositionView> {
    positions.map_values(|position: PathPosition| position@)
}

impl View for FileManager {
    type V = FileManagerView;

    open spec fn view(&self) -> FileManagerView {
        FileManagerView {
            current_path: self.current_path@,
            positions: position_views(self.positions@),
        }
    }
}

/// The index of the first position from `from` on that belongs to the path; the number
/// of positions where none does.
pub open spec fn first_position(positions: Seq<PathPositionView>, path: Seq<char>, from: int) -> int
    decreases positions.len() - from,
{
    if 0 <= from < positions.len() && positions[from].path != path {
        first_position(positions, path, from + 1)
    } else {
        from
    }
}

/// Where the cursor and the window of a directory stand: at the top where nothing is
/// kept of the directory.
pub open spec fn spec_position_of(positions: Seq<PathPositionView>, path: Seq<char>) -> (
    usize,
    usize,
) {
    let index = first_position(positions, path, 0);
    if 0 <= index < positions.len() {
        (positions[index].cursor_position, positions[index].scroll_position)
    } else {
        (0, 0)
    }
}

/// The positions with the cursor and the window of a directory put where they are told.
pub open spec fn spec_with_position(
    positions: Seq<PathPositionView>,
    path: Seq<char>,
    cursor_position: usize,
    scroll_position: usize,
) -> Seq<PathPositionView> {
    let index = first_position(positions, path, 0);
    let position = PathPositionView { path, cursor_position, scroll_position };
    if 0 <= index < positions.len() {
        positions.update(index, position)
    } else {
        positions.push(position)
    }
}

/// The first position of a path lies within the list or right behind it, belongs to
/// the path where it lies within, and no position before it does.
pub proof fn lemma_first_position(positions: Seq<PathPositionView>, path: Seq<char>, from: int)
    requires
        0 <= from <= positions.len(),
    ensures
        from <= first_position(positions, path, from) <= positions.len(),
        first_position(positions, path, from) < positions.len() ==> positions[first_position(
            positions,
            path,
            from,
        )].path == path,
        forall|i: int|
            from <= i < first_position(positions, path, from) ==> (#[trigger] positions[i]).path
                != path,
    decreases positions.len() - from,
{
    if from < positions.len() && positions[from].path != path {
        lemma_first_position(positions, path, from + 1);
    }
}

/// The positions once the entries of a directory from `from` on were looked through
/// for the child: the cursor of the directory stands on the last entry that lies at
/// the child's path.
pub open spec fn spec_positions_with_child(
    positions: Seq<PathPositionView>,
    root: Seq<char>,
    entries: Seq<DirectoryEntry>,
    child: Seq<char>,
    count: int,
) -> Seq<PathPositionView>
    decreases count,
{
    if count <= 0 {
        positions
    } else {
        let before = spec_positions_with_child(positions, root, entries, child, count - 1);
        if entries[count - 1].path@ == child {
            spec_with_position(before, root, (count - 1) as usize, 0)
        } else {
            before
        }
    }
}

/// The path below the listing at `index` of a row of listings that leads down to
/// `current_path`: the path of the next listing, or `current_path` after the last.
pub open spec fn spec_child_of(
    listings: Seq<DirectoryListing>,
    current_path: Seq<char>,
    index: int,
) -> Seq<char> {
    if index + 1 < listings.len() {
        listings[index + 1].path@
    } else {
        current_path
    }
}

/// The positions in which the cursor of each of the first `count` listings stands on
/// the entry that leads on towards `current_path`.
pub open spec fn spec_initial_positions(
    listings: Seq<DirectoryListing>,
    current_path: Seq<char>,
    count: int,
) -> Seq<PathPositionView>
    decreases count,
{
    if count <= 0 {
        Seq::empty()
    } else {
        spec_positions_with_child(
            spec_initial_positions(listings, current_path, count - 1),
            listings[count - 1].path@,
            listings[count - 1].entries@,
            spec_child_of(listings, current_path, count - 1),
            listings[count - 1].entries@.len() as int,
        )
    }
}

/// The colours of an entry of the file browser: files in white and directories in
/// blue, on black; the other way round under the cursor.
pub open spec fn spec_entry_colors(is_file: bool, under_cursor: bool) -> (RenderColor, RenderColor) {
    let foreground = if is_file {
        RenderColor::White
    } else {
        RenderColor::Blue
    };
    if under_cursor {
        (RenderColor::Black, foreground)
    } else {
        (foreground, RenderColor::Black)
    }
}

/// The line of the file browser for the entry at `index` of a listing.
pub open spec fn spec_file_entry(
    entry: DirectoryEntry,
    index: int,
    cursor_position: usize,
    last_panel: bool,
) -> RenderEntryView {
    let colors = spec_entry_colors(entry.is_file, index == cursor_position && !last_panel);
    RenderEntryView { text: entry.filename@, foreground_color: colors.0, background_color: colors.1 }
}

/// The lines of the file browser for a listing.
pub open spec fn spec_file_entries(
    entries: Seq<DirectoryEntry>,
    cursor_position: usize,
    last_panel: bool,
) -> Seq<RenderEntryView> {
    Seq::new(
        entries.len(),
        |index: int| spec_file_entry(entries[index], index, cursor_position, last_panel),
    )
}

impl FileManager {
    /// No directory has two positions.
    pub open spec fn wf(&self) -> bool {
        forall|i: int, j: int|
            0 <= i < j < self.positions@.len() ==> (#[trigger] self.positions@[i]).path@ != (
            #[trigger] self.positions@[j]).path@
    }

    /// The position of a directory among those that are kept.
    fn find_position(&self, path: &String) -> (found: Option<usize>)
        ensures
            match found {
                Some(index) => index == first_position(self@.positions, path@, 0) && index
                    < self.positions@.len(),
                None => first_position(self@.positions, path@, 0) >= self.positions@.len(),
            },
    {
        let mut index: usize = 0;
        while index < self.positions.len()
            invariant
                index <= self.positions@.len(),
                first_position(self@.positions, path@, 0) == first_position(
                    self@.positions,
                    path@,
                    index as int,
                ),
            decreases self.positions@.len() - index,
        {
            if self.positions[index].path == *path {
                assert(self@.positions[index as int].path == path@);
                return Some(index);
            }
            assert(self@.positions[index as int].path != path@);
            index += 1;
        }
        None
    }

    /// Where the cursor and the window of a directory stand.
    pub fn position_of(&self, path: &String) -> (position: (usize, usize))
        ensures
            position == spec_position_of(self@.positions, path@),
    {
        match self.find_position(path) {
            Some(index) => (
                self.positions[index].cursor_position,
                self.positions[index].scroll_position,
            ),
            None => (0, 0),
        }
    }

    /// Puts the cursor and the window of a directory where they are told.
    pub fn set_position(&mut self, path: &String, cursor_position: usize, scroll_position: usize)
        ensures
            final(self)@.positions == spec_with_position(
                old(self)@.positions,
                path@,
                cursor_position,
                scroll_position,
            ),
            final(self).current_path == old(self).current_path,
            old(self).wf() ==> final(self).wf(),
    {
        let position = PathPosition { path: path.clone(), cursor_position, scroll_position };
        proof {
            lemma_first_position(self@.positions, path@, 0);
        }
        match self.find_position(path) {
            Some(index) => {
                self.positions.set(index, position);
            },
            None => {
                self.positions.push(position);
            },
        }
        assert(self@.positions =~= spec_with_position(
            old(self)@.positions,
            path@,
            cursor_position,
            scroll_position,
        ));
        assert(old(self).wf() ==> self.wf()) by {
            if old(self).wf() {
                assert forall|i: int, j: int| 0 <= i < j < self.positions@.len() implies (
                #[trigger] self.positions@[i]).path@ != (#[trigger] self.positions@[j]).path@ by {
                    assert(self@.positions[i].path == self.positions@[i].path@);
                    assert(self@.positions[j].path == self.positions@[j].path@);
                    if i < old(self).positions@.len() {
                        assert(old(self)@.positions[i].path == old(self).positions@[i].path@);
                    }
                    if j < old(self).positions@.len() {
                        assert(old(self)@.positions[j].path == old(self).positions@[j].path@);
                    }
                }
            }
        }
    }

    /// A file browser that stands at the directory of the cache. The listings are
    /// those of the directories above it, from the topmost down; the cursor of each
    /// stands on the entry that leads on towards the directory.
    pub fn new(cache: &FileManagerCache, listings: &Vec<DirectoryListing>) -> (manager: FileManager)
        ensures
            manager.current_path@ == cache.current_directory@,
            manager@.positions == spec_initial_positions(
                listings@,
                cache.current_directory@,
                listings@.len() as int,
            ),
            manager.wf(),
    {
        let mut manager = FileManager {
            current_path: cache.current_directory.clone(),
            positions: Vec::new(),
        };
        assert(manager@.positions =~= Seq::empty());
        let mut index: usize = 0;
        while index < listings.len()
            invariant
                index <= listings@.len(),
                manager.current_path@ == cache.current_directory@,
                manager@.positions == spec_initial_positions(
                    listings@,
                    cache.current_directory@,
                    index as int,
                ),
                manager.wf(),
            decreases listings@.len() - index,
        {
            let listing = &listings[index];
            let child: String = if index + 1 < listings.len() {
                listings[index + 1].path.clone()
            } else {
                cache.current_directory.clone()
            };
            let ghost before = manager@.positions;
            let mut entry_index: usize = 0;
            while entry_index < listing.entries.len()
                invariant
                    entry_index <= listing.entries@.len(),
                    manager.current_path@ == cache.current_directory@,
                    manager@.positions == spec_positions_with_child(
                        before,
                        listing.path@,
                        listing.entries@,
                        child@,
                        entry_index as int,
                    ),
                    manager.wf(),
                decreases listing.entries@.len() - entry_index,
            {
                if listing.entries[entry_index].path == child {
                    manager.set_position(&listing.path, entry_index, 0);
                }
                entry_index += 1;
            }
            index += 1;
        }
        manager
    }

    /// The file browser once it went up to the directory above, which has the given
    /// path; a file browser at the topmost directory stays.
    pub open spec fn moved_left(&self, parent: Option<String>) -> Seq<char> {
        match parent {
            Some(parent) => parent@,
            None => self.current_path@,
        }
    }

    /// Goes up to the given directory above; stays where there is none.
    pub fn move_to_parent(&mut self, parent: Option<String>)
        ensures
            final(self).current_path@ == old(self).moved_left(parent),
            final(self).positions == old(self).positions,
    {
        if let Some(parent) = parent {
            self.current_path = parent;
        }
    }

    /// Goes up to the directory above.
    pub fn move_left(&mut self)
        ensures
            exists|parent: Option<String>| final(self).current_path@ == #[trigger] old(self).moved_left(parent),
            final(self).positions == old(self).positions,
    {
        let parent = parent_of(self.current_path.as_str());
        self.move_to_parent(parent);
        assert(self.current_path@ == old(self).moved_left(parent));
    }

    /// Goes down to the entry under the cursor, of the entries of the directory that
    /// the file browser stands at; stays where the cursor is on none.
    pub fn move_right(&mut self, entries: &Vec<DirectoryEntry>)
        ensures
            final(self).current_path@ == ({
                let cursor = spec_position_of(old(self)@.positions, old(self).current_path@).0;
                if cursor < entries@.len() {
                    entries@[cursor as int].path@
                } else {
                    old(self).current_path@
                }
            }),
            final(self).positions == old(self).positions,
    {
        let cursor_position = self.position_of(&self.current_path).0;
        if cursor_position < entries.len() {
            self.current_path = entries[cursor_position].path.clone();
        }
    }

    /// Where the cursor and the window stand after the cursor went up by one entry:
    /// the window follows a cursor that leaves it at the top.
    pub open spec fn spec_cursor_up(position: (usize, usize)) -> (usize, usize) {
        if position.0 > 0 {
            (
                (position.0 - 1) as usize,
                if position.1 > position.0 - 1 {
                    (position.0 - 1) as usize
                } else {
                    position.1
                },
            )
        } else {
            position
        }
    }

    /// Moves the cursor of the directory that the file browser stands at up by one
    /// entry.
    pub fn move_cursor_up(&mut self)
        ensures
            final(self)@.positions == ({
                let moved = Self::spec_cursor_up(
                    spec_position_of(old(self)@.positions, old(self).current_path@),
                );
                spec_with_position(
                    old(self)@.positions,
                    old(self).current_path@,
                    moved.0,
                    moved.1,
                )
            }),
            final(self).current_path == old(self).current_path,
            old(self).wf() ==> final(self).wf(),
    {
        let (cursor_position, scroll_position) = self.position_of(&self.current_path);
        let path = self.current_path.clone();
        if cursor_position > 0 {
            let cursor = cursor_position - 1;
            let scroll = if scroll_position > cursor {
                cursor
            } else {
                scroll_position
            };
            self.set_position(&path, cursor, scroll);
        } else {
            self.set_position(&path, cursor_position, scroll_position);
        }
    }

    /// Where the cursor and the window stand after the cursor went down by one entry
    /// of `num_entries`: the window of `num_rows` rows follows a cursor that leaves it
    /// at the bottom.
    pub open spec fn spec_cursor_down(
        position: (usize, usize),
        num_entries: usize,
        num_rows: usize,
    ) -> (usize, usize) {
        if position.0 < num_entries - 1 {
            (
                (position.0 + 1) as usize,
                if position.1 < position.0 + 1 - num_rows + 1 {
                    (position.0 + 1 - num_rows + 1) as usize
                } else {
                    position.1
                },
            )
        } else {
            position
        }
    }

    /// Moves the cursor of the directory that the file browser stands at down by one
    /// entry, where the directory has `num_entries` entries.
    pub fn move_cursor_down(&mut self, num_entries: usize, num_rows: usize)
        requires
            num_entries >= 1,
        ensures
            final(self)@.positions == ({
                let moved = Self::spec_cursor_down(
                    spec_position_of(old(self)@.positions, old(self).current_path@),
                    num_entries,
                    num_rows,
                );
                spec_with_position(
                    old(self)@.positions,
                    old(self).current_path@,
                    moved.0,
                    moved.1,
                )
            }),
            final(self).current_path == old(self).current_path,
            old(self).wf() ==> final(self).wf(),
    {
        let (cursor_position, scroll_position) = self.position_of(&self.current_path);
        let path = self.current_path.clone();
        if cursor_position < num_entries - 1 {
            let cursor = cursor_position + 1;
            let scroll = if cursor + 1 > num_rows && scroll_position < cursor + 1 - num_rows {
                cursor + 1 - num_rows
            } else {
                scroll_position
            };
            self.set_position(&path, cursor, scroll);
        } else {
            self.set_position(&path, cursor_position, scroll_position);
        }
    }

    /// Goes to the entry above the one that the file browser stands at. The entries
    /// are those of the directory above.
    pub fn move_up(&mut self, parent_entries: &Vec<DirectoryEntry>)
        ensures
            exists|parent: Option<String>|
                {
                    let at_parent = #[trigger] old(self).moved_left(parent);
                    let moved = Self::spec_cursor_up(
                        spec_position_of(old(self)@.positions, at_parent),
                    );
                    &&& final(self)@.positions == spec_with_position(
                        old(self)@.positions,
                        at_parent,
                        moved.0,
                        moved.1,
                    )
                    &&& final(self).current_path@ == if moved.0 < parent_entries@.len() {
                        parent_entries@[moved.0 as int].path@
                    } else {
                        at_parent
                    }
                },
            old(self).wf() ==> final(self).wf(),
    {
        let parent = parent_of(self.current_path.as_str());
        self.move_to_parent(parent);
        let ghost at_parent = self.current_path@;
        assert(at_parent == old(self).moved_left(parent));
        let ghost moved = Self::spec_cursor_up(spec_position_of(old(self)@.positions, at_parent));
        self.move_cursor_up();
        proof {
            lemma_position_kept(old(self)@.positions, at_parent, moved.0, moved.1);
        }
        self.move_right(parent_entries);
    }

    /// Goes to the entry below the one that the file browser stands at. The entries
    /// are those of the directory above.
    pub fn move_down(&mut self, parent_entries: &Vec<DirectoryEntry>, num_rows: usize)
        requires
            parent_entries@.len() >= 1,
        ensures
            exists|parent: Option<String>|
                {
                    let at_parent = #[trigger] old(self).moved_left(parent);
                    let moved = Self::spec_cursor_down(
                        spec_position_of(old(self)@.positions, at_parent),
                        parent_entries@.len() as usize,
                        num_rows,
                    );
                    &&& final(self)@.positions == spec_with_position(
                        old(self)@.positions,
                        at_parent,
                        moved.0,
                        moved.1,
                    )
                    &&& final(self).current_path@ == if moved.0 < parent_entries@.len() {
                        parent_entries@[moved.0 as int].path@
                    } else {
                        at_parent
                    }
                },
            old(self).wf() ==> final(self).wf(),
    {
        let parent = parent_of(self.current_path.as_str());
        self.move_to_parent(parent);
        let ghost at_parent = self.current_path@;
        assert(at_parent == old(self).moved_left(parent));
        let ghost moved = Self::spec_cursor_down(
            spec_position_of(old(self)@.positions, at_parent),
            parent_entries@.len() as usize,
            num_rows,
        );
        self.move_cursor_down(parent_entries.len(), num_rows);
        proof {
            lemma_position_kept(old(self)@.positions, at_parent, moved.0, moved.1);
        }
        self.move_right(parent_entries);
    }

    /// Number of entries of a listing of the directory that the file browser stands at.
    pub fn get_current_num_entries(&self, entries: &Vec<DirectoryEntry>) -> (count: usize)
        ensures
            count == entries@.len(),
    {
        entries.len()
    }

    /// The file browser as panels side by side, one for each listing, aligned to the
    /// right. The listings are those of the directories from the topmost down to the
    /// path that the file browser stands at. In every panel but the last the entry
    /// under the cursor is shown in swapped colours.
    pub fn get_render_object(&self, listings: &Vec<DirectoryListing>) -> (object: RenderObject)
        ensures
            object.alignment == Alignment::Right,
            object.panels@.len() == listings@.len(),
            forall|k: int|
                0 <= k < listings@.len() ==> {
                    let position = spec_position_of(self@.positions, listings@[k].path@);
                    &&& (#[trigger] object.panels@[k]).scroll_position == position.1
                    &&& entry_views(object.panels@[k].entries@) == spec_file_entries(
                        listings@[k].entries@,
                        position.0,
                        k == listings@.len() - 1,
                    )
                },
    {
        let mut render_object = RenderObject::new(Alignment::Right);
        let mut index: usize = 0;
        while index < listings.len()
            invariant
                index <= listings@.len(),
                render_object.alignment == Alignment::Right,
                render_object.panels@.len() == index,
                forall|k: int|
                    0 <= k < index ==> {
                        let position = spec_position_of(self@.positions, listings@[k].path@);
                        &&& (#[trigger] render_object.panels@[k]).scroll_position == position.1
                        &&& entry_views(render_object.panels@[k].entries@) == spec_file_entries(
                            listings@[k].entries@,
                            position.0,
                            k == listings@.len() - 1,
                        )
                    },
            decreases listings@.len() - index,
        {
            let listing = &listings[index];
            let (cursor_position, scroll_position) = self.position_of(&listing.path);
            let last_panel = index == listings.len() - 1;
            let mut panel = RenderPanel::new(scroll_position);
            let mut entry_index: usize = 0;
            while entry_index < listing.entries.len()
                invariant
                    entry_index <= listing.entries@.len(),
                    panel.scroll_position == scroll_position,
                    entry_views(panel.entries@) == spec_file_entries(
                        listing.entries@,
                        cursor_position,
                        last_panel,
                    ).take(entry_index as int),
                decreases listing.entries@.len() - entry_index,
            {
                let entry = &listing.entries[entry_index];
                let foreground_color = if entry.is_file {
                    RenderColor::White
                } else {
                    RenderColor::Blue
                };
                let render_entry = if entry_index == cursor_position && !last_panel {
                    RenderEntry::new(entry.filename.clone(), RenderColor::Black, foreground_color)
                } else {
                    RenderEntry::new(entry.filename.clone(), foreground_color, RenderColor::Black)
                };
                let ghost before = entry_views(panel.entries@);
                panel.entries.push(render_entry);
                assert(entry_views(panel.entries@) =~= before.push(render_entry@));
                assert(entry_views(panel.entries@) =~= spec_file_entries(
                    listing.entries@,
                    cursor_position,
                    last_panel,
                ).take(entry_index + 1));
                entry_index += 1;
            }
            assert(entry_views(panel.entries@) =~= spec_file_entries(
                listing.entries@,
                cursor_position,
                last_panel,
            ));
            render_object.panels.push(panel);
            index += 1;
        }
        render_object
    }
}

/// Two lists of positions that agree wherever a position belongs to a path find the
/// same position for the path.
proof fn lemma_same_position(
    a: Seq<PathPositionView>,
    b: Seq<PathPositionView>,
    path: Seq<char>,
    from: int,
)
    requires
        0 <= from <= a.len() <= b.len(),
        forall|i: int| 0 <= i < a.len() ==> ((#[trigger] a[i]).path == path <==> b[i].path == path),
        forall|i: int| 0 <= i < a.len() && (#[trigger] a[i]).path == path ==> b[i] == a[i],
        forall|i: int| a.len() <= i < b.len() ==> (#[trigger] b[i]).path != path,
    ensures
        first_position(a, path, from) < a.len() ==> first_position(b, path, from)
            == first_position(a, path, from),
        first_position(a, path, from) >= a.len() ==> first_position(b, path, from) >= b.len(),
    decreases b.len() - from,
{
    if from < a.len() {
        assert(a[from].path == path <==> b[from].path == path);
        if a[from].path != path {
            lemma_same_position(a, b, path, from + 1);
        }
    } else {
        lemma_first_position(b, path, from);
        let found = first_position(b, path, from);
        if found < b.len() {
            assert(b[found].path == path);
        }
    }
}

/// A position that was put for one directory leaves those of all others as they were.
pub proof fn lemma_position_of_other(
    positions: Seq<PathPositionView>,
    path: Seq<char>,
    cursor_position: usize,
    scroll_position: usize,
    other: Seq<char>,
)
    requires
        other != path,
    ensures
        spec_position_of(
            spec_with_position(positions, path, cursor_position, scroll_position),
            other,
        ) == spec_position_of(positions, other),
{
    let after = spec_with_position(positions, path, cursor_position, scroll_position);
    lemma_first_position(positions, path, 0);
    lemma_first_position(positions, other, 0);
    lemma_same_position(positions, after, other, 0);
}

/// Once the entries of a directory were looked through for a child, the cursor of the
/// directory stands on the last entry that lies at the child's path, at the top of
/// its window; where no entry lies there, the directory keeps its position. Every
/// other directory keeps its position in any case.
pub proof fn lemma_positions_with_child(
    positions: Seq<PathPositionView>,
    root: Seq<char>,
    entries: Seq<DirectoryEntry>,
    child: Seq<char>,
    count: int,
)
    requires
        0 <= count <= entries.len(),
    ensures
        ({
            let after = spec_positions_with_child(positions, root, entries, child, count);
            &&& (forall|i: int| 0 <= i < count ==> (#[trigger] entries[i]).path@ != child)
                ==> spec_position_of(after, root) == spec_position_of(positions, root)
            &&& forall|i: int|
                0 <= i < count && (#[trigger] entries[i]).path@ == child && (forall|j: int|
                    i < j < count ==> (#[trigger] entries[j]).path@ != child)
                    ==> spec_position_of(after, root) == (i as usize, 0usize)
            &&& forall|other: Seq<char>|
                other != root ==> #[trigger] spec_position_of(after, other) == spec_position_of(
                    positions,
                    other,
                )
        }),
    decreases count,
{
    if count > 0 {
        lemma_positions_with_child(positions, root, entries, child, count - 1);
        let before = spec_positions_with_child(positions, root, entries, child, count - 1);
        let after = spec_positions_with_child(positions, root, entries, child, count);
        if entries[count - 1].path@ == child {
            lemma_position_kept(before, root, (count - 1) as usize, 0);
            assert forall|other: Seq<char>| other != root implies #[trigger] spec_position_of(
                after,
                other,
            ) == spec_position_of(positions, other) by {
                lemma_position_of_other(before, root, (count - 1) as usize, 0, other);
            }
            assert forall|i: int|
                0 <= i < count && (#[trigger] entries[i]).path@ == child && (forall|j: int|
                    i < j < count ==> (#[trigger] entries[j]).path@ != child) implies spec_position_of(
                after,
                root,
            ) == (i as usize, 0usize) by {
                if i < count - 1 {
                    assert(entries[count - 1].path@ != child);
                }
            }
        } else {
            assert forall|i: int|
                0 <= i < count && (#[trigger] entries[i]).path@ == child && (forall|j: int|
                    i < j < count ==> (#[trigger] entries[j]).path@ != child) implies spec_position_of(
                after,
                root,
            ) == (i as usize, 0usize) by {
                assert(i < count - 1);
                assert forall|j: int| i < j < count - 1 implies (#[trigger] entries[j]).path@
                    != child by {}
            }
        }
    }
}

/// A directory that is none of the first `count` listings has no position among those
/// that a new file browser begins with.
pub proof fn lemma_initial_positions_untouched(
    listings: Seq<DirectoryListing>,
    current_path: Seq<char>,
    count: int,
    path: Seq<char>,
)
    requires
        0 <= count <= listings.len(),
        forall|k: int| 0 <= k < count ==> (#[trigger] listings[k]).path@ != path,
    ensures
        spec_position_of(spec_initial_positions(listings, current_path, count), path) == (
            0usize,
            0usize,
        ),
    decreases count,
{
    if count > 0 {
        lemma_initial_positions_untouched(listings, current_path, count - 1, path);
        assert(listings[count - 1].path@ != path);
        lemma_positions_with_child(
            spec_initial_positions(listings, current_path, count - 1),
            listings[count - 1].path@,
            listings[count - 1].entries@,
            spec_child_of(listings, current_path, count - 1),
            listings[count - 1].entries@.len() as int,
        );
    }
}

/// In a new file browser the cursor of every listed directory stands on the last
/// entry that leads on towards the path that the file browser stands at, at the top
/// of its window, and at the top of the listing where no entry leads on. This holds
/// where no directory is listed twice.
pub proof fn lemma_initial_positions(
    listings: Seq<DirectoryListing>,
    current_path: Seq<char>,
    count: int,
    k: int,
)
    requires
        0 <= k < count <= listings.len(),
        forall|a: int, b: int|
            0 <= a < b < listings.len() ==> (#[trigger] listings[a]).path@ != (
            #[trigger] listings[b]).path@,
    ensures
        ({
            let position = spec_position_of(
                spec_initial_positions(listings, current_path, count),
                listings[k].path@,
            );
            let entries = listings[k].entries@;
            let child = spec_child_of(listings, current_path, k);
            &&& (forall|i: int| 0 <= i < entries.len() ==> (#[trigger] entries[i]).path@ != child)
                ==> position == (0usize, 0usize)
            &&& forall|i: int|
                0 <= i < entries.len() && (#[trigger] entries[i]).path@ == child && (forall|j: int|
                    i < j < entries.len() ==> (#[trigger] entries[j]).path@ != child) ==> position
                    == (i as usize, 0usize)
        }),
    decreases count,
{
    let before = spec_initial_positions(listings, current_path, count - 1);
    let last = listings[count - 1];
    lemma_positions_with_child(
        before,
        last.path@,
        last.entries@,
        spec_child_of(listings, current_path, count - 1),
        last.entries@.len() as int,
    );
    if k == count - 1 {
        assert forall|a: int| 0 <= a < count - 1 implies (#[trigger] listings[a]).path@
            != listings[k].path@ by {}
        lemma_initial_positions_untouched(listings, current_path, count - 1, listings[k].path@);
    } else {
        assert(listings[k].path@ != listings[count - 1].path@);
        lemma_initial_positions(listings, current_path, count - 1, k);
    }
}

/// A position that was just put is the one that is found.
pub proof fn lemma_position_kept(
    positions: Seq<PathPositionView>,
    path: Seq<char>,
    cursor_position: usize,
    scroll_position: usize,
)
    ensures
        spec_position_of(
            spec_with_position(positions, path, cursor_position, scroll_position),
            path,
        ) == (cursor_position, scroll_position),
{
    let index = first_position(positions, path, 0);
    let after = spec_with_position(positions, path, cursor_position, scroll_position);
    lemma_first_position(positions, path, 0);
    lemma_first_position(after, path, 0);
    let found = first_position(after, path, 0);
    if found < index {
        assert(after[found].path == path);
        assert(positions[found].path != path);
    }
    if found > index {
        assert(after[index].path == path);
    }
}

} // verus!
