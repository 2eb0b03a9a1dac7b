//! Log tail state: the buffered log lines of the service under inspection,
//! a scroll offset, and the pausable auto-scroll ("stick to bottom") flag.

use vstd::prelude::*;

verus! {

/// Ghost image of a [`LogTailState`]: the buffered lines as sequences of
/// characters and the scroll offset as a plain integer.
pub struct LogModel {
    pub lines: Seq<Seq<char>>,
    pub scroll: int,
    pub stick_to_bottom: bool,
}

/// The log state is well formed when the buffer fits the scroll offset's
/// range and the offset never points past the buffer.
pub open spec fn log_wf(m: LogModel) -> bool {
    &&& m.lines.len() <= u16::MAX as int
    &&& 0 <= m.scroll <= m.lines.len()
}

/// The log state of a fresh session and of the moment log mode is left:
/// no lines, offset zero, auto-scroll on.
pub open spec fn empty_log() -> LogModel {
    LogModel { lines: Seq::empty(), scroll: 0, stick_to_bottom: true }
}

/// The scroll offset that shows the bottom window of a buffer of `len`
/// lines in a viewport of `viewport_rows` rows.
pub open spec fn bottom_scroll(len: int, viewport_rows: u16) -> int {
    if len >= viewport_rows {
        len - viewport_rows
    } else {
        0
    }
}

/// An operator-chosen scroll offset clamped to the valid range of a buffer
/// of `len` lines: at most the last index, never negative.
pub open spec fn clamped_scroll(scroll: int, len: int) -> int {
    if len == 0 {
        0
    } else if scroll > len - 1 {
        len - 1
    } else {
        scroll
    }
}

/// The whole state after the buffer is replaced by `new_lines`: with
/// auto-scroll on the offset is recomputed to the bottom window; with it
/// off the operator's offset is kept, clamped to the new bounds.
pub open spec fn updated_log(m: LogModel, new_lines: Seq<Seq<char>>, viewport_rows: u16) -> LogModel {
    LogModel {
        lines: new_lines,
        scroll: if m.stick_to_bottom {
            bottom_scroll(new_lines.len() as int, viewport_rows)
        } else {
            clamped_scroll(m.scroll, new_lines.len() as int)
        },
        stick_to_bottom: m.stick_to_bottom,
    }
}

/// The state after one manual scroll down: auto-scroll pauses, and the
/// offset moves one line toward the end unless it already shows the last
/// line.
pub open spec fn scrolled_down(m: LogModel) -> LogModel {
    LogModel {
        scroll: if m.scroll < m.lines.len() - 1 {
            m.scroll + 1
        } else {
            m.scroll
        },
        stick_to_bottom: false,
        ..m
    }
}

/// The state after one manual scroll up: auto-scroll pauses, and the offset
/// moves one line toward the start unless it is already there.
pub open spec fn scrolled_up(m: LogModel) -> LogModel {
    LogModel {
        scroll: if m.scroll > 0 {
            m.scroll - 1
        } else {
            m.scroll
        },
        stick_to_bottom: false,
        ..m
    }
}

/// The buffered tail of one service's log, with the operator's scroll
/// position and the auto-scroll flag. The buffer is replaced wholesale on
/// every poll.
pub struct LogTailState {
    pub lines: Vec<String>,
    pub scroll: u16,
    pub stick_to_bottom: bool,
}

impl View for LogTailState {
    type V = LogModel;

    open spec fn view(&self) -> LogModel {
        LogModel {
            lines: self.lines.deep_view(),
            scroll: self.scroll as int,
            stick_to_bottom: self.stick_to_bottom,
        }
    }
}

impl LogTailState {
    pub open spec fn wf(&self) -> bool {
        log_wf(self@)
    }

    /// An empty buffer with auto-scroll on.
    pub fn new() -> (r: Self)
        ensures
            r@ == empty_log(),
            r.wf(),
    {
        let r = LogTailState { lines: Vec::new(), scroll: 0, stick_to_bottom: true };
        proof {
            assert(r@.lines =~= empty_log().lines);
        }
        r
    }

    /// Drop the buffer and rearm auto-scroll, as happens when log mode is
    /// left.
    pub fn reset(&mut self)
        ensures
            final(self)@ == empty_log(),
            final(self).wf(),
    {
        self.lines = Vec::new();
        self.scroll = 0;
        self.stick_to_bottom = true;
        proof {
            assert(self@.lines =~= empty_log().lines);
        }
    }

    /// Replace the buffer with a fresh poll's lines. With auto-scroll on the
    /// offset is recomputed against the viewport reported by the renderer at
    /// this moment; with it off the operator's offset is only clamped to the
    /// new bounds.
    pub fn update_lines(&mut self, new_lines: Vec<String>, viewport_rows: u16)
        requires
            old(self).wf(),
            new_lines@.len() <= u16::MAX as int,
        ensures
            final(self)@ == updated_log(old(self)@, new_lines.deep_view(), viewport_rows),
            final(self).wf(),
            old(self).stick_to_bottom ==> final(self).scroll as int == bottom_scroll(
                new_lines@.len() as int,
                viewport_rows,
            ),
    {
        let len_u16: u16 = new_lines.len() as u16;
        self.lines = new_lines;
        if self.stick_to_bottom {
            self.scroll = if len_u16 >= viewport_rows {
                len_u16 - viewport_rows
            } else {
                0
            };
        } else {
            if len_u16 == 0 {
                self.scroll = 0;
            } else if self.scroll > len_u16 - 1 {
                self.scroll = len_u16 - 1;
            }
        }
    }

    /// One manual step toward the end of the buffer; pauses auto-scroll.
    pub fn scroll_down(&mut self)
        requires
            old(self).wf(),
        ensures
            final(self)@ == scrolled_down(old(self)@),
            final(self).wf(),
    {
        self.stick_to_bottom = false;
        let last: u16 = if self.lines.len() == 0 {
            0
        } else {
            (self.lines.len() - 1) as u16
        };
        if self.scroll < last {
            self.scroll = self.scroll + 1;
        }
    }

    /// One manual step toward the start of the buffer; pauses auto-scroll.
    pub fn scroll_up(&mut self)
        ensures
            final(self)@ == scrolled_up(old(self)@),
            old(self).wf() ==> final(self).wf(),
    {
        self.stick_to_bottom = false;
        if self.scroll > 0 {
            self.scroll = self.scroll - 1;
        }
    }

    /// Rearm auto-scroll; the offset is recomputed on the next buffer
    /// update.
    pub fn jump_to_end(&mut self)
        ensures
            final(self)@ == (LogModel { stick_to_bottom: true, ..old(self)@ }),
            old(self).wf() ==> final(self).wf(),
    {
        self.stick_to_bottom = true;
    }
}

/// The rows the log overlay effectively shows for a terminal of
/// `terminal_height` rows: the overlay covers 80% of the height, and two of
/// its rows go to the border.
pub open spec fn spec_log_viewport_rows(terminal_height: u16) -> int {
    let popup = terminal_height as int * 80 / 100;
    if popup >= 2 {
        popup - 2
    } else {
        0
    }
}

/// Compute the log overlay's effective viewport rows from the terminal
/// height the renderer reports.
pub fn log_viewport_rows(terminal_height: u16) -> (r: u16)
    ensures
        r as int == spec_log_viewport_rows(terminal_height),
{
    let popup: u32 = (terminal_height as u32) * 80 / 100;
    proof {
        assert(terminal_height as int * 80 / 100 <= u16::MAX as int * 80 / 100) by (nonlinear_arith)
            requires
                terminal_height as int <= u16::MAX as int,
        ;
    }
    if popup >= 2 {
        (popup - 2) as u16
    } else {
        0
    }
}

/// Law: after any buffer update made while auto-scroll is on, the offset is
/// exactly `max(0, lines.len() - viewport_rows)`.
pub proof fn lemma_autoscroll_tracks_bottom(m: LogModel, new_lines: Seq<Seq<char>>, viewport_rows: u16)
    requires
        m.stick_to_bottom,
    ensures
        updated_log(m, new_lines, viewport_rows).scroll == if new_lines.len() as int
            - viewport_rows as int >= 0 {
            new_lines.len() as int - viewport_rows as int
        } else {
            0
        },
{
}

} // verus!
