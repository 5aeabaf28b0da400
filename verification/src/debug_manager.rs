use crate::render::{
    entry_views, Alignment, RenderColor, RenderEntry, RenderEntryView, RenderObject, RenderPanel,
    Renderable,
};
use vstd::prelude::*;

verus! {

/// The log that the player shows in its debug view.
pub struct DebugManager {
    entries: Vec<Entry>,
    has_update: bool,
    scroll_position: usize,
}

struct Entry {
    pub text: String,
    pub foreground_color: RenderColor,
    pub background_color: RenderColor,
}

/// What the log holds: its lines, whether it has changed since it was last asked, and
/// the line that its window begins with.
pub struct DebugManagerView {
    pub entries: Seq<RenderEntryView>,
    pub has_update: bool,
    pub scroll_position: usize,
}

impl View for DebugManager {
    type V = DebugManagerView;

    closed spec fn view(&self) -> DebugManagerView {
        DebugManagerView {
            entries: self.entries@.map_values(
                |entry: Entry|
                    RenderEntryView {
                        text: entry.text@,
                        foreground_color: entry.foreground_color,
                        background_color: entry.background_color,
                    },
            ),
            has_update: self.has_update,
            scroll_position: self.scroll_position,
        }
    }
}

impl DebugManagerView {
    /// The log with one more line, marked as changed.
    pub open spec fn with_entry(
        self,
        text: Seq<char>,
        foreground_color: RenderColor,
        background_color: RenderColor,
    ) -> DebugManagerView {
        DebugManagerView {
            entries: self.entries.push(RenderEntryView { text, foreground_color, background_color }),
            has_update: true,
            scroll_position: self.scroll_position,
        }
    }

    /// The lines that the log shows: its own, or one that says that there are none.
    pub open spec fn shown_entries(self) -> Seq<RenderEntryView> {
        if self.entries.len() == 0 {
            seq![
                RenderEntryView {
                    text: "<no entries>"@,
                    foreground_color: RenderColor::Blue,
                    background_color: RenderColor::Black,
                },
            ]
        } else {
            self.entries
        }
    }

    /// The first line of the window after it moved by `direction` lines: never above
    /// the first line of the log.
    pub open spec fn scrolled(self, direction: i32) -> int {
        if self.scroll_position + direction < 0 {
            0
        } else if self.scroll_position + direction > usize::MAX {
            usize::MAX as int
        } else {
            self.scroll_position + direction
        }
    }
}

impl DebugManager {
    /// An empty log.
    pub fn new() -> (manager: DebugManager)
        ensures
            manager@ == (DebugManagerView {
                entries: Seq::empty(),
                has_update: false,
                scroll_position: 0,
            }),
    {
        let manager = DebugManager { entries: Vec::new(), has_update: false, scroll_position: 0 };
        assert(manager@.entries =~= Seq::empty());
        manager
    }

    /// Moves the window by `direction` lines, down where it is positive.
    pub fn scroll(&mut self, direction: i32)
        ensures
            final(self)@ == (DebugManagerView {
                scroll_position: old(self)@.scrolled(direction) as usize,
                ..old(self)@
            }),
    {
        if direction >= 0 {
            self.scroll_position = self.scroll_position.saturating_add(direction as usize);
        } else {
            let back: u32 = if direction == i32::MIN {
                0x8000_0000u32
            } else {
                (-direction) as u32
            };
            self.scroll_position = self.scroll_position.saturating_sub(back as usize);
        }
    }

    /// Adds a line in white on black.
    pub fn add_entry(&mut self, text: String)
        ensures
            final(self)@ == old(self)@.with_entry(text@, RenderColor::White, RenderColor::Black),
    {
        self.add_entry_color(text, RenderColor::White, RenderColor::Black);
    }

    /// Adds a line in red on black.
    pub fn add_error_entry(&mut self, text: String)
        ensures
            final(self)@ == old(self)@.with_entry(text@, RenderColor::Red, RenderColor::Black),
    {
        self.add_entry_color(text, RenderColor::Red, RenderColor::Black);
    }

    /// Adds a line in the given colours.
    pub fn add_entry_color(
        &mut self,
        text: String,
        foreground_color: RenderColor,
        background_color: RenderColor,
    )
        ensures
            final(self)@ == old(self)@.with_entry(text@, foreground_color, background_color),
    {
        self.entries.push(Entry { text, foreground_color, background_color });
        self.has_update = true;
        assert(self@.entries =~= old(self)@.with_entry(
            text@,
            foreground_color,
            background_color,
        ).entries);
    }

    /// The log as one panel, aligned to the left.
    pub fn get_render_object(&self) -> (object: RenderObject)
        ensures
            object.alignment == Alignment::Left,
            object.panels@.len() == 1,
            entry_views(object.panels@[0].entries@) == self@.shown_entries(),
            object.panels@[0].scroll_position == self@.scroll_position,
    {
        let mut render_object = RenderObject::new(Alignment::Left);
        let mut render_panel = RenderPanel::new(0);
        let mut index: usize = 0;
        while index < self.entries.len()
            invariant
                index <= self.entries@.len(),
                entry_views(render_panel.entries@) == self@.entries.take(index as int),
            decreases self.entries@.len() - index,
        {
            let entry = &self.entries[index];
            let render_entry = RenderEntry::new(
                entry.text.clone(),
                entry.foreground_color,
                entry.background_color,
            );
            let ghost before = entry_views(render_panel.entries@);
            render_panel.entries.push(render_entry);
            assert(entry_views(render_panel.entries@) =~= before.push(render_entry@));
            assert(self@.entries.take(index + 1) =~= self@.entries.take(index as int).push(
                self@.entries[index as int],
            ));
            index += 1;
        }
        assert(self@.entries.take(index as int) =~= self@.entries);
        if self.entries.len() == 0 {
            render_panel.entries.push(
                RenderEntry::new("<no entries>".to_owned(), RenderColor::Blue, RenderColor::Black),
            );
            assert(entry_views(render_panel.entries@) =~= self@.shown_entries());
        }
        render_panel.scroll_position = self.scroll_position;
        render_object.panels.push(render_panel);
        render_object
    }

    /// Tells whether the log has changed since this was last asked.
    pub fn has_update(&mut self) -> (updated: bool)
        ensures
            updated == old(self)@.has_update,
            final(self)@ == (DebugManagerView { has_update: false, ..old(self)@ }),
    {
        let hu = self.has_update;
        self.has_update = false;
        hu
    }
}

impl Renderable for DebugManager {
    /// The log as one panel, aligned to the left.
    fn get_render_object(&self) -> (object: RenderObject)
        ensures
            object.alignment == Alignment::Left,
            object.panels@.len() == 1,
            entry_views(object.panels@[0].entries@) == self@.shown_entries(),
            object.panels@[0].scroll_position == self@.scroll_position,
    {
        DebugManager::get_render_object(self)
    }
}

} // verus!
