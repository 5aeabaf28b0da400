use crate::text::{decimal, decimal_string, two_digit_string, two_digits};
use crate::time::Duration;
use vstd::prelude::*;
use vstd::utf8::encode_utf8;

verus! {

/// What a view puts on the screen: panels side by side.
pub struct RenderObject {
    pub panels: Vec<RenderPanel>,
    pub alignment: Alignment,
}

/// The side of the screen that the panels stick to.
#[derive(Clone, Copy, Debug, PartialEq, Eq, Structural)]
pub enum Alignment {
    Left,
    Right,
}

/// A column of entries, shown from `scroll_position` on.
pub struct RenderPanel {
    pub entries: Vec<RenderEntry>,
    pub scroll_position: usize,
}

/// One line of a panel.
pub struct RenderEntry {
    pub text: String,
    pub foreground_color: RenderColor,
    pub background_color: RenderColor,
}

#[derive(Clone, Copy, Debug, PartialEq, Eq, Hash, Structural)]
pub enum RenderColor {
    Black,
    White,
    Blue,
    Cyan,
    Yellow,
    Red,
}

/// Something that can be put on the screen.
pub trait Renderable {
    fn get_render_object(&self) -> RenderObject;
}

/// What an entry holds, with its text as a sequence of characters.
pub struct RenderEntryView {
    pub text: Seq<char>,
    pub foreground_color: RenderColor,
    pub background_color: RenderColor,
}

impl View for RenderEntry {
    type V = RenderEntryView;

    open spec fn view(&self) -> RenderEntryView {
        RenderEntryView {
            text: self.text@,
            foreground_color: self.foreground_color,
            background_color: self.background_color,
        }
    }
}

impl RenderEntry {
    /// Number of bytes that the text of the entry takes.
    pub open spec fn spec_width(&self) -> nat {
        encode_utf8(self.text@).len()
    }

    pub fn new(text: String, foreground_color: RenderColor, background_color: RenderColor) -> (entry:
        Self)
        ensures
            entry.text == text,
            entry.foreground_color == foreground_color,
            entry.background_color == background_color,
    {
        RenderEntry { text, foreground_color, background_color }
    }

    pub fn get_width(&self) -> (width: usize)
        ensures
            width == self.spec_width(),
    {
        self.text.as_str().as_bytes().len()
    }
}

/// The width of the widest of the entries.
pub open spec fn widest(entries: Seq<RenderEntry>) -> nat
    decreases entries.len(),
{
    if entries.len() == 0 {
        0
    } else {
        let before = widest(entries.drop_last());
        if entries.last().spec_width() > before {
            entries.last().spec_width()
        } else {
            before
        }
    }
}

/// The view of each entry of a list.
pub open spec fn entry_views(entries: Seq<RenderEntry>) -> Seq<RenderEntryView> {
    entries.map_values(|entry: RenderEntry| entry@)
}

impl RenderPanel {
    pub open spec fn spec_width(&self) -> nat {
        widest(self.entries@)
    }

    /// A panel without entries.
    pub fn new(scroll_position: usize) -> (panel: RenderPanel)
        ensures
            panel.entries@ == Seq::<RenderEntry>::empty(),
            panel.scroll_position == scroll_position,
    {
        RenderPanel { entries: Vec::new(), scroll_position }
    }

    /// The width of the widest entry; zero for a panel without entries.
    pub fn get_width(&self) -> (width: usize)
        ensures
            width == self.spec_width(),
    {
        let mut width: usize = 0;
        let mut index: usize = 0;
        while index < self.entries.len()
            invariant
                index <= self.entries@.len(),
                width == widest(self.entries@.take(index as int)),
            decreases self.entries@.len() - index,
        {
            let entry_width = self.entries[index].get_width();
            assert(self.entries@.take(index + 1).drop_last() =~= self.entries@.take(index as int));
            if entry_width > width {
                width = entry_width;
            }
            index += 1;
        }
        assert(self.entries@.take(index as int) =~= self.entries@);
        width
    }
}

/// The widths of all panels together.
pub open spec fn total_width(panels: Seq<RenderPanel>) -> nat
    decreases panels.len(),
{
    if panels.len() == 0 {
        0
    } else {
        total_width(panels.drop_last()) + panels.last().spec_width()
    }
}

/// The width of a longer row of panels is no less than that of its beginning.
proof fn lemma_total_width_grows(panels: Seq<RenderPanel>, count: int)
    requires
        0 <= count <= panels.len(),
    ensures
        total_width(panels.take(count)) <= total_width(panels),
    decreases panels.len(),
{
    if count < panels.len() {
        lemma_total_width_grows(panels.drop_last(), count);
        assert(panels.drop_last().take(count) =~= panels.take(count));
    } else {
        assert(panels.take(count) =~= panels);
    }
}

impl RenderObject {
    pub open spec fn spec_panels_size(&self) -> nat {
        total_width(self.panels@)
    }

    /// A render object without panels.
    pub fn new(alignment: Alignment) -> (object: RenderObject)
        ensures
            object.panels@ == Seq::<RenderPanel>::empty(),
            object.alignment == alignment,
    {
        RenderObject { panels: Vec::new(), alignment }
    }

    /// The widths of all panels together.
    pub fn get_panels_size(&self) -> (size: usize)
        requires
            self.spec_panels_size() <= usize::MAX,
        ensures
            size == self.spec_panels_size(),
    {
        let mut size: usize = 0;
        let mut index: usize = 0;
        while index < self.panels.len()
            invariant
                index <= self.panels@.len(),
                size == total_width(self.panels@.take(index as int)),
                total_width(self.panels@) <= usize::MAX,
            decreases self.panels@.len() - index,
        {
            let width = self.panels[index].get_width();
            proof {
                assert(self.panels@.take(index + 1).drop_last() =~= self.panels@.take(
                    index as int,
                ));
                lemma_total_width_grows(self.panels@, index + 1);
            }
            size = size + width;
            index += 1;
        }
        assert(self.panels@.take(index as int) =~= self.panels@);
        size
    }
}

/// A time as hours, minutes and seconds: the hours only where there are any, the
/// seconds with two digits.
pub open spec fn spec_format_duration(duration: Duration) -> Seq<char> {
    let total_seconds = (duration.nanos / 1_000_000_000) as nat;
    let seconds = total_seconds % 60;
    let minutes = (total_seconds / 60) % 60;
    let hours = total_seconds / 3600;
    if hours > 0 {
        decimal(hours) + seq![':'] + decimal(minutes) + seq![':'] + two_digits(seconds)
    } else {
        decimal(minutes) + seq![':'] + two_digits(seconds)
    }
}

/// Writes a time for the screen.
pub fn format_duration(duration: Duration) -> (text: String)
    ensures
        text@ == spec_format_duration(duration),
{
    let total_seconds = duration.as_secs();
    let seconds = total_seconds % 60;
    let minutes = (total_seconds / 60) % 60;
    let hours = total_seconds / 3600;
    proof {
        reveal_strlit(":");
    }
    if hours > 0 {
        let mut text = decimal_string(hours);
        text.append(":");
        text.append(decimal_string(minutes).as_str());
        text.append(":");
        text.append(two_digit_string(seconds).as_str());
        assert(text@ =~= spec_format_duration(duration));
        text
    } else {
        let mut text = decimal_string(minutes);
        text.append(":");
        text.append(two_digit_string(seconds).as_str());
        assert(text@ =~= spec_format_duration(duration));
        text
    }
}

} // verus!
