//! A panel: one named session with a bounded log of lines.

use vstd::prelude::*;

verus! {

/// The number of lines a panel keeps; older lines are evicted first.
pub const PANEL_CAPACITY: usize = 1000;

/// What a panel is for.
#[derive(Clone, Copy, Debug, PartialEq, Eq, Structural)]
pub enum PanelType {
    /// A passive note-taking panel.
    Manual,
    /// A panel bound to the execution of the payload.
    BinaryProcess,
}

/// The mathematical value of a [`Panel`].
pub ghost struct PanelView {
    pub id: usize,
    pub title: Seq<char>,
    pub content: Seq<Seq<char>>,
    pub is_active: bool,
    pub cursor_line: usize,
    pub scroll_offset: usize,
    pub panel_type: PanelType,
}

/// One logical session: a title, a bounded log and a focus flag.
#[derive(Clone, Debug)]
pub struct Panel {
    id: usize,
    title: String,
    content: Vec<String>,
    is_active: bool,
    cursor_line: usize,
    scroll_offset: usize,
    panel_type: PanelType,
}

/// The log that results from appending `line` to `content`: the line goes to
/// the end, and if that makes more than [`PANEL_CAPACITY`] lines the oldest
/// one is dropped.
pub open spec fn appended(content: Seq<Seq<char>>, line: Seq<char>) -> Seq<Seq<char>> {
    if content.len() + 1 > PANEL_CAPACITY {
        content.push(line).skip(1)
    } else {
        content.push(line)
    }
}

/// The log that results from appending each of `lines` in turn.
pub open spec fn appended_all(content: Seq<Seq<char>>, lines: Seq<Seq<char>>) -> Seq<Seq<char>>
    decreases lines.len(),
{
    if lines.len() == 0 {
        content
    } else {
        appended(appended_all(content, lines.drop_last()), lines.last())
    }
}

/// The last `PANEL_CAPACITY` items of `all`, or all of it where it has fewer.
pub open spec fn newest(all: Seq<Seq<char>>) -> Seq<Seq<char>> {
    if all.len() > PANEL_CAPACITY {
        all.skip(all.len() - PANEL_CAPACITY)
    } else {
        all
    }
}

/// Appending any number of lines to a log within capacity keeps exactly the
/// newest `PANEL_CAPACITY` lines of the old log followed by the new lines, in
/// their order.
pub proof fn appended_all_keeps_newest(content: Seq<Seq<char>>, lines: Seq<Seq<char>>)
    requires
        content.len() <= PANEL_CAPACITY,
    ensures
        appended_all(content, lines) == newest(content + lines),
        appended_all(content, lines).len() <= PANEL_CAPACITY,
    decreases lines.len(),
{
    if lines.len() == 0 {
        assert(content + lines =~= content);
    } else {
        let front = lines.drop_last();
        appended_all_keeps_newest(content, front);
        let before = newest(content + front);
        assert((content + front).push(lines.last()) =~= content + lines);
        assert(appended(before, lines.last()) =~= newest(content + lines));
    }
}

/// A log that starts empty and receives one line more than its capacity
/// holds exactly `PANEL_CAPACITY` lines afterwards: all but the first
/// appended, in order, so the last appended line is the last of the log.
pub proof fn one_past_capacity_evicts_first(lines: Seq<Seq<char>>)
    requires
        lines.len() == PANEL_CAPACITY + 1,
    ensures
        appended_all(Seq::empty(), lines).len() == PANEL_CAPACITY,
        appended_all(Seq::empty(), lines) == lines.skip(1),
        appended_all(Seq::empty(), lines).last() == lines.last(),
        forall|i: int|
            0 <= i < PANEL_CAPACITY ==> #[trigger] appended_all(Seq::empty(), lines)[i] == lines[i
                + 1],
{
    appended_all_keeps_newest(Seq::empty(), lines);
    assert(Seq::<Seq<char>>::empty() + lines =~= lines);
}

impl View for Panel {
    type V = PanelView;

    closed spec fn view(&self) -> PanelView {
        PanelView {
            id: self.id,
            title: self.title@,
            content: self.content@.map_values(|s: String| s@),
            is_active: self.is_active,
            cursor_line: self.cursor_line,
            scroll_offset: self.scroll_offset,
            panel_type: self.panel_type,
        }
    }
}

impl Panel {
    /// The log never holds more than [`PANEL_CAPACITY`] lines.
    pub open spec fn wf(&self) -> bool {
        self@.content.len() <= PANEL_CAPACITY
    }

    /// An inactive, empty note panel.
    pub fn new(id: usize, title: String) -> (panel: Panel)
        ensures
            panel.wf(),
            panel@ == (PanelView {
                id,
                title: title@,
                content: Seq::empty(),
                is_active: false,
                cursor_line: 0,
                scroll_offset: 0,
                panel_type: PanelType::Manual,
            }),
    {
        let panel = Panel {
            id,
            title,
            content: Vec::new(),
            is_active: false,
            cursor_line: 0,
            scroll_offset: 0,
            panel_type: PanelType::Manual,
        };
        proof {
            assert(panel@.content =~= Seq::empty());
        }
        panel
    }

    /// An inactive, empty panel that hosts the payload.
    pub fn new_binary(id: usize, title: String) -> (panel: Panel)
        ensures
            panel.wf(),
            panel@ == (PanelView {
                id,
                title: title@,
                content: Seq::empty(),
                is_active: false,
                cursor_line: 0,
                scroll_offset: 0,
                panel_type: PanelType::BinaryProcess,
            }),
    {
        let panel = Panel {
            id,
            title,
            content: Vec::new(),
            is_active: false,
            cursor_line: 0,
            scroll_offset: 0,
            panel_type: PanelType::BinaryProcess,
        };
        proof {
            assert(panel@.content =~= Seq::empty());
        }
        panel
    }

    /// The panel's identifier.
    pub fn id(&self) -> (id: usize)
        ensures
            id == self@.id,
    {
        self.id
    }

    /// The display title.
    pub fn title(&self) -> (title: &String)
        ensures
            title@ == self@.title,
    {
        &self.title
    }

    /// The number of lines in the log.
    pub fn line_count(&self) -> (count: usize)
        ensures
            count == self@.content.len(),
    {
        self.content.len()
    }

    /// The line at `index`, counted from the oldest line kept.
    pub fn line(&self, index: usize) -> (line: &String)
        requires
            index < self@.content.len(),
        ensures
            line@ == self@.content[index as int],
    {
        &self.content[index]
    }

    /// Whether the panel has the focus.
    pub fn is_active(&self) -> (active: bool)
        ensures
            active == self@.is_active,
    {
        self.is_active
    }

    /// The first line shown when the panel is rendered.
    pub fn scroll_offset(&self) -> (offset: usize)
        ensures
            offset == self@.scroll_offset,
    {
        self.scroll_offset
    }

    /// The line the cursor is on.
    pub fn cursor_line(&self) -> (line: usize)
        ensures
            line == self@.cursor_line,
    {
        self.cursor_line
    }

    /// What the panel is for.
    pub fn panel_type(&self) -> (kind: PanelType)
        ensures
            kind == self@.panel_type,
    {
        self.panel_type
    }

    /// Sets the focus flag and nothing else.
    pub fn set_active(&mut self, active: bool)
        ensures
            final(self)@ == (PanelView { is_active: active, ..old(self)@ }),
    {
        self.is_active = active;
    }

    /// Sets the first line shown when the panel is rendered and nothing else.
    pub fn set_scroll_offset(&mut self, offset: usize)
        ensures
            final(self)@ == (PanelView { scroll_offset: offset, ..old(self)@ }),
    {
        self.scroll_offset = offset;
    }

    /// Appends a line to the log, evicting the oldest line where the log
    /// would otherwise exceed its capacity. Nothing else changes.
    pub fn add_line(&mut self, line: String)
        ensures
            final(self)@ == (PanelView {
                content: appended(old(self)@.content, line@),
                ..old(self)@
            }),
            old(self).wf() ==> final(self).wf(),
    {
        self.content.push(line);
        if self.content.len() > PANEL_CAPACITY {
            self.content.remove(0);
        }
        proof {
            assert(final(self)@.content =~= appended(old(self)@.content, line@));
        }
    }
}

} // verus!
