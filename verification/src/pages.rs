//! Plain state of the UI pages.
//!
//! Rendering and event binding live outside this crate with the display
//! driver; what is kept here is each page's own state and the small
//! rules that change it — selection bounds, leaving a page, feeding the
//! game core.

use vstd::prelude::*;

use crate::chip8::Chip8;
use crate::chip8::spec_cycles;
use crate::chip8::spec_load_rom;
use crate::chip8::spec_reset;
use crate::chip8::spec_tick_dt;
use crate::chip8::wf_view;
use crate::chip8::CHIP8_MEMORY_SIZE;
use crate::chip8::CHIP8_ROM_OFFSET;
use crate::chip8::Chip8View;

verus! {

/// Highest selectable index on the pages that scroll a selection.
pub const PAGE_CHOOSE_MAX: u32 = 500;

/// The clock page: a selection the wheel moves and the flags its loop
/// reads.
#[derive(Debug)]
pub struct ClockPage {
    pub begin_count: u32,
    pub current_count: u32,
    pub need_render: bool,
    pub choose_index: u32,
    pub running: bool,
    pub loading: bool,
    pub error: Option<String>,
}

impl ClockPage {
    /// A fresh page, ready to render and run.
    pub fn new() -> (p: ClockPage)
        ensures
            p.begin_count == 0,
            p.current_count == 0,
            p.need_render,
            p.choose_index == 0,
            p.running,
            !p.loading,
            p.error is None,
    {
        ClockPage {
            begin_count: 0,
            current_count: 0,
            need_render: true,
            choose_index: 0,
            running: true,
            loading: false,
            error: None,
        }
    }

    /// Move the selection up, saturating at the bound; any movement
    /// asks for a render.
    pub fn increase(&mut self)
        ensures
            old(self).choose_index < PAGE_CHOOSE_MAX ==> (final(self).choose_index as int)
                == old(self).choose_index + 1 && final(self).need_render,
            old(self).choose_index >= PAGE_CHOOSE_MAX ==> final(self).choose_index
                == old(self).choose_index && final(self).need_render == old(self).need_render,
            final(self).running == old(self).running,
            final(self).error == old(self).error,
    {
        if self.choose_index < PAGE_CHOOSE_MAX {
            self.choose_index = self.choose_index + 1;
            self.need_render = true;
        }
    }

    /// Move the selection down, saturating at zero.
    pub fn decrease(&mut self)
        ensures
            old(self).choose_index > 0 ==> (final(self).choose_index as int)
                == old(self).choose_index - 1 && final(self).need_render,
            old(self).choose_index == 0 ==> final(self).choose_index == 0
                && final(self).need_render == old(self).need_render,
            final(self).running == old(self).running,
            final(self).error == old(self).error,
    {
        if self.choose_index > 0 {
            self.choose_index = self.choose_index - 1;
            self.need_render = true;
        }
    }

    /// Leave the page: its loop stops after the current pass.
    pub fn back(&mut self)
        ensures
            !final(self).running,
            final(self).choose_index == old(self).choose_index,
            final(self).need_render == old(self).need_render,
    {
        self.running = false;
    }
}

/// The countdown page: like the clock page, without the request state.
#[derive(Eq, PartialEq, Copy, Clone, Debug, Structural)]
pub struct CountDownPage {
    pub begin_count: u32,
    pub current_count: u32,
    pub need_render: bool,
    pub choose_index: u32,
    pub running: bool,
}

impl CountDownPage {
    /// A fresh page, ready to render and run.
    pub fn new() -> (p: CountDownPage)
        ensures
            p == (CountDownPage {
                begin_count: 0,
                current_count: 0,
                need_render: true,
                choose_index: 0,
                running: true,
            }),
    {
        CountDownPage {
            begin_count: 0,
            current_count: 0,
            need_render: true,
            choose_index: 0,
            running: true,
        }
    }

    /// Move the selection up, saturating at the bound.
    pub fn increase(&mut self)
        ensures
            old(self).choose_index < PAGE_CHOOSE_MAX ==> *final(self) == (CountDownPage {
                choose_index: (old(self).choose_index + 1) as u32,
                need_render: true,
                ..*old(self)
            }),
            old(self).choose_index >= PAGE_CHOOSE_MAX ==> *final(self) == *old(self),
    {
        if self.choose_index < PAGE_CHOOSE_MAX {
            self.choose_index = self.choose_index + 1;
            self.need_render = true;
        }
    }

    /// Move the selection down, saturating at zero.
    pub fn decrease(&mut self)
        ensures
            old(self).choose_index > 0 ==> *final(self) == (CountDownPage {
                choose_index: (old(self).choose_index - 1) as u32,
                need_render: true,
                ..*old(self)
            }),
            old(self).choose_index == 0 ==> *final(self) == *old(self),
    {
        if self.choose_index > 0 {
            self.choose_index = self.choose_index - 1;
            self.need_render = true;
        }
    }

    /// Leave the page.
    pub fn back(&mut self)
        ensures
            *final(self) == (CountDownPage { running: false, ..*old(self) }),
    {
        self.running = false;
    }
}

/// The games page: the CHIP-8 machine and whether the page still runs.
pub struct GamesPage {
    pub chip8: Chip8,
    pub running: bool,
}

impl GamesPage {
    /// A fresh games page: a reset machine with the ROM loaded.
    pub fn new(rom: &[u8]) -> (p: GamesPage)
        requires
            rom@.len() <= CHIP8_MEMORY_SIZE - CHIP8_ROM_OFFSET,
        ensures
            p.chip8@ == (Chip8View {
                memory: spec_load_rom(spec_reset().memory, rom@),
                ..spec_reset()
            }),
            wf_view(p.chip8@),
            p.running,
    {
        let mut chip8 = Chip8::new();
        chip8.reset();
        chip8.load_rom(rom);
        GamesPage { chip8, running: true }
    }

    /// One frame of the game.
    pub fn step_frame(&mut self)
        requires
            wf_view(old(self).chip8@),
        ensures
            final(self).chip8@ == spec_tick_dt(spec_cycles(old(self).chip8@, 30)),
            wf_view(final(self).chip8@),
            final(self).running == old(self).running,
    {
        self.chip8.run();
    }

    /// Leave the page.
    pub fn back(&mut self)
        ensures
            !final(self).running,
            final(self).chip8@ == old(self).chip8@,
    {
        self.running = false;
    }
}

/// The boot log page: how far down the log has been written.
#[derive(Eq, PartialEq, Copy, Clone, Debug, Structural)]
pub struct InitPage {
    pub top: i32,
}

impl InitPage {
    /// An empty log at the top of the screen.
    pub fn new() -> (p: InitPage)
        ensures
            p.top == 0,
    {
        InitPage { top: 0 }
    }

    /// Account one appended log line of height `line_height`.
    pub fn advance(&mut self, line_height: i32)
        requires
            0 <= line_height,
            old(self).top + line_height <= i32::MAX,
        ensures
            final(self).top == old(self).top + line_height,
    {
        self.top = self.top + line_height;
    }
}

/// The QR-code page.
#[derive(Eq, PartialEq, Copy, Clone, Debug, Structural)]
pub struct QrcodePage {
    pub need_render: bool,
    pub running: bool,
}

impl QrcodePage {
    /// A fresh page; it renders once asked to run.
    pub fn new() -> (p: QrcodePage)
        ensures
            p == (QrcodePage { need_render: false, running: false }),
    {
        QrcodePage { need_render: false, running: false }
    }

    /// Leave the page.
    pub fn back(&mut self)
        ensures
            *final(self) == (QrcodePage { running: false, ..*old(self) }),
    {
        self.running = false;
    }
}

/// The calendar page.
#[derive(Eq, PartialEq, Copy, Clone, Debug, Structural)]
pub struct CalendarPage {
    pub running: bool,
    pub need_render: bool,
}

impl CalendarPage {
    /// A fresh page; it renders once asked to run.
    pub fn new() -> (p: CalendarPage)
        ensures
            p == (CalendarPage { running: false, need_render: false }),
    {
        CalendarPage { running: false, need_render: false }
    }

    /// Leave the page.
    pub fn back(&mut self)
        ensures
            *final(self) == (CalendarPage { running: false, ..*old(self) }),
    {
        self.running = false;
    }
}

/// The work timer page.
#[derive(Debug)]
pub struct TimerPage {
    pub begin_count: i32,
    pub need_render: bool,
    pub current_count: i32,
    pub starting: bool,
    pub finished: bool,
    pub running: bool,
    pub loading: bool,
    pub error: Option<String>,
}

impl TimerPage {
    /// A fresh, stopped timer.
    pub fn new() -> (p: TimerPage)
        ensures
            p.begin_count == 0,
            p.current_count == 0,
            p.need_render,
            !p.starting,
            !p.finished,
            p.running,
            !p.loading,
            p.error is None,
    {
        TimerPage {
            begin_count: 0,
            need_render: true,
            current_count: 0,
            starting: false,
            finished: false,
            running: true,
            loading: false,
            error: None,
        }
    }

    /// Start or pause the timer.
    pub fn toggle_starting(&mut self)
        ensures
            final(self).starting == !old(self).starting,
            final(self).need_render,
            final(self).begin_count == old(self).begin_count,
            final(self).current_count == old(self).current_count,
            final(self).running == old(self).running,
    {
        self.starting = !self.starting;
        self.need_render = true;
    }

    /// Leave the page.
    pub fn back(&mut self)
        ensures
            !final(self).running,
            final(self).starting == old(self).starting,
            final(self).current_count == old(self).current_count,
    {
        self.running = false;
    }
}

} // verus!
