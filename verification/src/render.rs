//! Frame composition: what is to be sent to the terminal to show the
//! current state, as a list of plain drawing commands.

use vstd::prelude::*;
use vstd::string::*;
use crate::multiplexer::{Multiplexer, MultiplexerView};
use crate::panel::{PanelType, PanelView};
use crate::text::{decimal, spaces, push_decimal, push_spaces};

verus! {

/// The colours the frame uses.
#[derive(Clone, Copy, Debug, PartialEq, Eq, Structural)]
pub enum Color {
    Blue,
    White,
    Green,
    Black,
    DarkGrey,
}

/// One instruction to the terminal.
#[derive(Clone, Debug, PartialEq, Eq)]
pub enum DrawCommand {
    /// Clear the whole screen.
    ClearAll,
    /// Move the cursor to this column and row.
    MoveTo(u16, u16),
    SetBackgroundColor(Color),
    SetForegroundColor(Color),
    /// Write this text at the cursor.
    Print(String),
    ResetColor,
    /// Flush what was written so far.
    Flush,
}

/// The mathematical value of a [`DrawCommand`].
pub ghost enum DrawOp {
    ClearAll,
    MoveTo(u16, u16),
    SetBackgroundColor(Color),
    SetForegroundColor(Color),
    Print(Seq<char>),
    ResetColor,
    Flush,
}

impl View for DrawCommand {
    type V = DrawOp;

    open spec fn view(&self) -> DrawOp {
        match self {
            DrawCommand::ClearAll => DrawOp::ClearAll,
            DrawCommand::MoveTo(column, row) => DrawOp::MoveTo(*column, *row),
            DrawCommand::SetBackgroundColor(color) => DrawOp::SetBackgroundColor(*color),
            DrawCommand::SetForegroundColor(color) => DrawOp::SetForegroundColor(*color),
            DrawCommand::Print(text) => DrawOp::Print(text@),
            DrawCommand::ResetColor => DrawOp::ResetColor,
            DrawCommand::Flush => DrawOp::Flush,
        }
    }
}

/// The values of a list of commands.
pub open spec fn ops(commands: Seq<DrawCommand>) -> Seq<DrawOp> {
    commands.map_values(|c: DrawCommand| c@)
}

/// The width of the fixed part of the header that the padding allows for.
pub const HEADER_RESERVED: usize = 30;

/// The first row of the panel's log on the screen.
pub const CONTENT_START_ROW: u16 = 3;

/// The rows that are not available to the panel's log.
pub const RESERVED_ROWS: usize = 4;

/// `a - b`, or zero where `b` is the larger.
pub open spec fn minus_or_zero(a: int, b: int) -> nat {
    if a >= b {
        (a - b) as nat
    } else {
        0
    }
}

/// The header: the screen is cleared, the panel count is printed white on
/// blue and padded with the terminal's width less [`HEADER_RESERVED`]
/// spaces, and the cursor goes to the start of the tab row.
pub open spec fn header_ops(m: MultiplexerView) -> Seq<DrawOp> {
    seq![
        DrawOp::ClearAll,
        DrawOp::MoveTo(0, 0),
        DrawOp::SetBackgroundColor(Color::Blue),
        DrawOp::SetForegroundColor(Color::White),
        DrawOp::Print("OpenCode - "@ + decimal(m.panels.len()) + " panels"@),
        DrawOp::Print(spaces(minus_or_zero(m.terminal_size.0 as int, HEADER_RESERVED as int))),
        DrawOp::ResetColor,
        DrawOp::MoveTo(0, 1),
    ]
}

/// One tab: the title between two spaces, black on green for the active
/// panel and white on dark grey for the others, then a space in the default
/// colours.
pub open spec fn tab_ops(title: Seq<char>, active: bool) -> Seq<DrawOp> {
    seq![
        DrawOp::SetBackgroundColor(
            if active {
                Color::Green
            } else {
                Color::DarkGrey
            },
        ),
        DrawOp::SetForegroundColor(
            if active {
                Color::Black
            } else {
                Color::White
            },
        ),
        DrawOp::Print(" "@ + title + " "@),
        DrawOp::ResetColor,
        DrawOp::Print(" "@),
    ]
}

/// The tabs of `panels`, in their order.
pub open spec fn tabs_ops(panels: Seq<PanelView>, active_panel: usize) -> Seq<DrawOp>
    decreases panels.len(),
{
    if panels.len() == 0 {
        Seq::empty()
    } else {
        tabs_ops(panels.drop_last(), active_panel) + tab_ops(
            panels.last().title,
            panels.last().id == active_panel,
        )
    }
}

/// How many lines of the panel's log are shown on a terminal of the given
/// height: those from the scroll offset on, as far as the rows left over
/// from [`RESERVED_ROWS`] go.
pub open spec fn visible_count(panel: PanelView, height: u16) -> nat {
    let available = minus_or_zero(height as int, RESERVED_ROWS as int);
    let remaining = minus_or_zero(panel.content.len() as int, panel.scroll_offset as int);
    if remaining < available {
        remaining
    } else {
        available
    }
}

/// The first `count` visible lines of the panel's log, each at the start
/// of its own row from [`CONTENT_START_ROW`] down.
pub open spec fn body_ops(panel: PanelView, count: nat) -> Seq<DrawOp>
    decreases count,
{
    if count == 0 {
        Seq::empty()
    } else {
        body_ops(panel, (count - 1) as nat) + seq![
            DrawOp::MoveTo(0, (CONTENT_START_ROW + count - 1) as u16),
            DrawOp::Print(panel.content[panel.scroll_offset + count - 1]),
        ]
    }
}

/// The key help shown for a panel of the given kind.
pub open spec fn status_text(kind: PanelType) -> Seq<char> {
    match kind {
        PanelType::BinaryProcess =>
            "Enter: Run Go Binary | Ctrl+C: Switch Panel | Ctrl+N: New Panel | Ctrl+Q: Quit"@,
        PanelType::Manual => "Ctrl+C: Switch Panel | Ctrl+N: New Panel | Ctrl+Q: Quit"@,
    }
}

/// The status line: on the last row (the first where the height is zero),
/// white on dark grey, the key help padded with spaces to the terminal's
/// width; then the output is flushed.
pub open spec fn status_ops(kind: PanelType, size: (u16, u16)) -> Seq<DrawOp> {
    seq![
        DrawOp::MoveTo(0, minus_or_zero(size.1 as int, 1) as u16),
        DrawOp::SetBackgroundColor(Color::DarkGrey),
        DrawOp::SetForegroundColor(Color::White),
        DrawOp::Print(status_text(kind)),
        DrawOp::Print(spaces(minus_or_zero(size.0 as int, status_text(kind).len() as int))),
        DrawOp::ResetColor,
        DrawOp::Flush,
    ]
}

/// The whole frame: header, tabs, the visible part of the active panel's
/// log, status line.
pub open spec fn frame(m: MultiplexerView) -> Seq<DrawOp> {
    let active = m.panels[m.active_panel as int];
    header_ops(m) + tabs_ops(m.panels, m.active_panel) + body_ops(
        active,
        visible_count(active, m.terminal_size.1),
    ) + status_ops(active.panel_type, m.terminal_size)
}

/// Appends one command to a list.
fn emit(out: &mut Vec<DrawCommand>, command: DrawCommand)
    ensures
        ops(final(out)@) == ops(old(out)@).push(command@),
{
    out.push(command);
    proof {
        assert(ops(final(out)@) =~= ops(old(out)@).push(command@));
    }
}

/// Appends the header to `out`.
fn draw_header(out: &mut Vec<DrawCommand>, mux: &Multiplexer)
    ensures
        ops(final(out)@) == ops(old(out)@) + header_ops(mux@),
{
    emit(out, DrawCommand::ClearAll);
    emit(out, DrawCommand::MoveTo(0, 0));
    emit(out, DrawCommand::SetBackgroundColor(Color::Blue));
    emit(out, DrawCommand::SetForegroundColor(Color::White));
    let mut title = String::from_str("OpenCode - ");
    push_decimal(&mut title, mux.panel_count() as u64);
    title.append(" panels");
    emit(out, DrawCommand::Print(title));
    let width = mux.terminal_size().0 as usize;
    let padding: usize = if width >= HEADER_RESERVED {
        width - HEADER_RESERVED
    } else {
        0
    };
    let mut pad = String::new();
    push_spaces(&mut pad, padding);
    proof {
        assert(pad@ =~= spaces(padding as nat));
    }
    emit(out, DrawCommand::Print(pad));
    emit(out, DrawCommand::ResetColor);
    emit(out, DrawCommand::MoveTo(0, 1));
    proof {
        assert(ops(final(out)@) =~= ops(old(out)@) + header_ops(mux@));
    }
}

/// Appends one tab to `out`.
fn draw_tab(out: &mut Vec<DrawCommand>, title: &String, active: bool)
    ensures
        ops(final(out)@) == ops(old(out)@) + tab_ops(title@, active),
{
    if active {
        emit(out, DrawCommand::SetBackgroundColor(Color::Green));
        emit(out, DrawCommand::SetForegroundColor(Color::Black));
    } else {
        emit(out, DrawCommand::SetBackgroundColor(Color::DarkGrey));
        emit(out, DrawCommand::SetForegroundColor(Color::White));
    }
    let mut label = String::from_str(" ");
    label.append(title.as_str());
    label.append(" ");
    emit(out, DrawCommand::Print(label));
    emit(out, DrawCommand::ResetColor);
    emit(out, DrawCommand::Print(String::from_str(" ")));
    proof {
        assert(ops(final(out)@) =~= ops(old(out)@) + tab_ops(title@, active));
    }
}

/// Appends the status line to `out`.
fn draw_status(out: &mut Vec<DrawCommand>, kind: PanelType, size: (u16, u16))
    ensures
        ops(final(out)@) == ops(old(out)@) + status_ops(kind, size),
{
    let row: u16 = if size.1 >= 1 {
        size.1 - 1
    } else {
        0
    };
    emit(out, DrawCommand::MoveTo(0, row));
    emit(out, DrawCommand::SetBackgroundColor(Color::DarkGrey));
    emit(out, DrawCommand::SetForegroundColor(Color::White));
    let text = match kind {
        PanelType::BinaryProcess => String::from_str(
            "Enter: Run Go Binary | Ctrl+C: Switch Panel | Ctrl+N: New Panel | Ctrl+Q: Quit",
        ),
        PanelType::Manual => String::from_str(
            "Ctrl+C: Switch Panel | Ctrl+N: New Panel | Ctrl+Q: Quit",
        ),
    };
    let length = text.as_str().unicode_len();
    let width = size.0 as usize;
    let padding: usize = if width >= length {
        width - length
    } else {
        0
    };
    emit(out, DrawCommand::Print(text));
    let mut pad = String::new();
    push_spaces(&mut pad, padding);
    proof {
        assert(pad@ =~= spaces(padding as nat));
    }
    emit(out, DrawCommand::Print(pad));
    emit(out, DrawCommand::ResetColor);
    emit(out, DrawCommand::Flush);
    proof {
        assert(ops(final(out)@) =~= ops(old(out)@) + status_ops(kind, size));
    }
}

impl Multiplexer {
    /// Composes the frame that shows the current state.
    pub fn draw(&self) -> (commands: Vec<DrawCommand>)
        requires
            self.wf(),
        ensures
            ops(commands@) == frame(self@),
    {
        let mut out: Vec<DrawCommand> = Vec::new();
        assert(ops(out@) =~= Seq::empty());
        draw_header(&mut out, self);
        assert(ops(out@) =~= header_ops(self@));

        let count = self.panel_count();
        let active_id = self.active_panel();
        let mut i: usize = 0;
        while i < count
            invariant
                i <= count,
                count == self@.panels.len(),
                active_id == self@.active_panel,
                ops(out@) == header_ops(self@) + tabs_ops(self@.panels.take(i as int), active_id),
            decreases count - i,
        {
            let panel = self.panel(i);
            draw_tab(&mut out, panel.title(), panel.id() == active_id);
            proof {
                let next = self@.panels.take(i + 1);
                assert(next.drop_last() =~= self@.panels.take(i as int));
                assert(next.last() == self@.panels[i as int]);
                assert(ops(out@) =~= header_ops(self@) + tabs_ops(next, active_id));
            }
            i += 1;
        }
        assert(self@.panels.take(count as int) =~= self@.panels);

        let active = self.panel(active_id);
        let size = self.terminal_size();
        let height = size.1 as usize;
        let available: usize = if height >= RESERVED_ROWS {
            height - RESERVED_ROWS
        } else {
            0
        };
        let lines = active.line_count();
        let offset = active.scroll_offset();
        let remaining: usize = if lines >= offset {
            lines - offset
        } else {
            0
        };
        let visible: usize = if remaining < available {
            remaining
        } else {
            available
        };
        let ghost prefix = header_ops(self@) + tabs_ops(self@.panels, active_id);
        let mut k: usize = 0;
        while k < visible
            invariant
                k <= visible,
                visible <= available,
                available + RESERVED_ROWS <= u16::MAX || available == 0,
                visible <= remaining,
                remaining == minus_or_zero(lines as int, offset as int),
                lines == active@.content.len(),
                offset == active@.scroll_offset,
                ops(out@) == prefix + body_ops(active@, k as nat),
            decreases visible - k,
        {
            let row: u16 = CONTENT_START_ROW + (k as u16);
            emit(&mut out, DrawCommand::MoveTo(0, row));
            emit(&mut out, DrawCommand::Print(active.line(offset + k).clone()));
            k += 1;
            proof {
                assert(ops(out@) =~= prefix + body_ops(active@, k as nat));
            }
        }
        draw_status(&mut out, active.panel_type(), size);
        proof {
            assert(ops(out@) =~= frame(self@));
        }
        out
    }
}

} // verus!
