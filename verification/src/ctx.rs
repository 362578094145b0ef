use vstd::prelude::*;
use crate::conf::Conf;
use crate::fps::FPSCounter;
use crate::fps::average_defined;
use crate::fps::spec_average;
use crate::fps::window_after_push;
use crate::window::Pos;

verus! {

/// How many recent frame rates the context averages over.
pub const FPS_SAMPLES: usize = 16;

/// The frame rate the main loop aims for.
pub const DEFAULT_FPS_CAP: u16 = 60;

/// Milliseconds one frame may take at a cap of `fps_cap` frames per second:
/// the integer part of `1000 / fps_cap`, and no limit at all (the largest
/// `u128`) when the cap is zero.
pub open spec fn frame_budget_ms(fps_cap: u16) -> int {
    if fps_cap == 0 {
        u128::MAX as int
    } else {
        1000int / (fps_cap as int)
    }
}

/// How long the main loop sleeps after a frame that took `real_ms`: the time
/// left of the frame budget (cut to a `u64`), or nothing once it is used up.
pub open spec fn spec_sleep_ms(real_ms: u128, fps_cap: u16) -> Option<u64> {
    if (real_ms as int) < frame_budget_ms(fps_cap) {
        Some((frame_budget_ms(fps_cap) - real_ms) as u64)
    } else {
        None
    }
}

/// What the main loop does once a frame has been drawn and shown.
#[derive(Clone, Copy, PartialEq, Eq, Structural, Debug)]
pub enum FrameAction {
    /// Quit was requested: leave the loop.
    Stop,
    /// Sleep this many milliseconds, then record the frame rate and go on.
    Sleep(u64),
    /// The budget is used up: record the frame rate and go on at once.
    Continue,
}

/// The main loop's decision after a frame that took `real_ms`: stop once
/// quit was requested, else sleep out the rest of the frame budget if any.
pub open spec fn spec_frame_action(quit: bool, real_ms: u128, fps_cap: u16) -> FrameAction {
    if quit {
        FrameAction::Stop
    } else {
        match spec_sleep_ms(real_ms, fps_cap) {
            Some(ms) => FrameAction::Sleep(ms),
            None => FrameAction::Continue,
        }
    }
}

/// The budget of one frame in milliseconds, see [`frame_budget_ms`].
pub fn frame_budget(fps_cap: u16) -> (r: u128)
    ensures
        r == frame_budget_ms(fps_cap),
{
    if fps_cap == 0 {
        u128::MAX
    } else {
        1000u128 / (fps_cap as u128)
    }
}

/// The state of the application context that is plain data: lifecycle,
/// frame statistics, pointer and window settings.
pub struct CtxState {
    pub quit: bool,
    pub fps_cap: u16,
    pub fps_counter: FPSCounter,
    pub mouse_pos: Pos,
    pub mouse_delta: Option<Pos>,
    pub scroll_delta: Option<Pos>,
    pub text_input: Option<String>,
    pub title: String,
    pub fullscreen: bool,
    pub cursor_hidden: bool,
    pub cursor_locked: bool,
    pub width: i32,
    pub height: i32,
    pub draw_calls_last: usize,
    pub draw_calls: usize,
}

impl CtxState {
    /// The state a context starts in for the configuration `conf`.
    pub fn new(conf: &Conf) -> (r: Self)
        ensures
            !r.quit,
            r.fps_cap == DEFAULT_FPS_CAP,
            r.fps_counter.wf(),
            r.fps_counter.capacity() == FPS_SAMPLES,
            r.fps_counter@ == Seq::<u16>::empty(),
            r.mouse_pos == (Pos { x: 0, y: 0 }),
            (r.mouse_delta is None),
            (r.scroll_delta is None),
            (r.text_input is None),
            r.title@ == conf.title@,
            r.fullscreen == conf.fullscreen,
            r.cursor_hidden == conf.cursor_hidden,
            r.cursor_locked == conf.cursor_locked,
            r.width == conf.width,
            r.height == conf.height,
            r.draw_calls_last == 0,
            r.draw_calls == 0,
    {
        CtxState {
            quit: false,
            fps_cap: DEFAULT_FPS_CAP,
            fps_counter: FPSCounter::new(FPS_SAMPLES),
            mouse_pos: Pos::new(0, 0),
            mouse_delta: None,
            scroll_delta: None,
            text_input: None,
            title: conf.title.as_str().to_owned(),
            fullscreen: conf.fullscreen,
            cursor_hidden: conf.cursor_hidden,
            cursor_locked: conf.cursor_locked,
            width: conf.width,
            height: conf.height,
            draw_calls_last: 0,
            draw_calls: 0,
        }
    }

    /// Asks the main loop to stop after the current frame.
    pub fn quit(&mut self)
        ensures
            *final(self) == (CtxState { quit: true, ..*old(self) }),
    {
        self.quit = true;
    }

    /// The average frame rate over the recent frames.
    pub fn fps(&self) -> (r: u16)
        requires
            self.fps_counter.wf(),
            average_defined(self.fps_counter@),
        ensures
            r == spec_average(self.fps_counter@),
    {
        return self.fps_counter.get_avg();
    }

    /// The average frame rate, or `None` where [`Self::fps`] cannot compute it.
    pub fn checked_fps(&self) -> (r: Option<u16>)
        requires
            self.fps_counter.wf(),
        ensures
            average_defined(self.fps_counter@) ==> r == Some(spec_average(self.fps_counter@) as u16),
            !average_defined(self.fps_counter@) ==> r is None,
    {
        self.fps_counter.checked_avg()
    }

    /// Records the frame rate of the frame that just ended.
    pub fn record_fps(&mut self, fps: u16)
        requires
            old(self).fps_counter.wf(),
            old(self).fps_counter.capacity() > 0,
        ensures
            final(self).fps_counter.wf(),
            final(self).fps_counter.capacity() == old(self).fps_counter.capacity(),
            final(self).fps_counter@
                == window_after_push(old(self).fps_counter@, old(self).fps_counter.capacity(), fps),
            *final(self) == (CtxState { fps_counter: final(self).fps_counter, ..*old(self) }),
    {
        self.fps_counter.push(fps);
    }

    /// How long to sleep after a frame that took `real_ms` milliseconds, so
    /// that frames are not drawn faster than the cap.
    pub fn frame_sleep_ms(&self, real_ms: u128) -> (r: Option<u64>)
        ensures
            r == spec_sleep_ms(real_ms, self.fps_cap),
    {
        let expected = frame_budget(self.fps_cap);
        if real_ms < expected {
            Some((expected - real_ms) as u64)
        } else {
            None
        }
    }

    /// What the main loop does after a frame that took `real_ms`
    /// milliseconds, see [`spec_frame_action`].
    pub fn end_of_frame(&self, real_ms: u128) -> (r: FrameAction)
        ensures
            r == spec_frame_action(self.quit, real_ms, self.fps_cap),
    {
        if self.quit {
            return FrameAction::Stop;
        }
        match self.frame_sleep_ms(real_ms) {
            Some(ms) => FrameAction::Sleep(ms),
            None => FrameAction::Continue,
        }
    }

    pub fn is_fullscreen(&self) -> (r: bool)
        ensures
            r == self.fullscreen,
    {
        return self.fullscreen;
    }

    /// Records that the window entered (`true`) or left fullscreen.
    pub fn set_fullscreen(&mut self, b: bool)
        ensures
            *final(self) == (CtxState { fullscreen: b, ..*old(self) }),
    {
        self.fullscreen = b;
    }

    /// Flips the fullscreen setting and returns the new one, which the
    /// window is then switched to.
    pub fn toggle_fullscreen(&mut self) -> (r: bool)
        ensures
            r == !old(self).fullscreen,
            *final(self) == (CtxState { fullscreen: r, ..*old(self) }),
    {
        let b = !self.is_fullscreen();
        self.set_fullscreen(b);
        b
    }

    pub fn is_cursor_hidden(&self) -> (r: bool)
        ensures
            r == self.cursor_hidden,
    {
        return self.cursor_hidden;
    }

    /// Records that the cursor was hidden (`true`) or shown.
    pub fn set_cursor_hidden(&mut self, b: bool)
        ensures
            *final(self) == (CtxState { cursor_hidden: b, ..*old(self) }),
    {
        self.cursor_hidden = b;
    }

    /// Flips the hidden-cursor setting and returns the new one.
    pub fn toggle_cursor_hidden(&mut self) -> (r: bool)
        ensures
            r == !old(self).cursor_hidden,
            *final(self) == (CtxState { cursor_hidden: r, ..*old(self) }),
    {
        let b = !self.is_cursor_hidden();
        self.set_cursor_hidden(b);
        b
    }

    pub fn is_cursor_locked(&self) -> (r: bool)
        ensures
            r == self.cursor_locked,
    {
        return self.cursor_locked;
    }

    /// Records the outcome of grabbing (`b == true`) or releasing the cursor:
    /// the setting follows `b` only when the grab succeeded, and the grab's
    /// error is handed back otherwise.
    pub fn set_cursor_locked(&mut self, b: bool, grab: Result<(), String>) -> (r: Result<(), String>)
        ensures
            r == grab,
            *final(self) == (if grab is Ok { CtxState { cursor_locked: b, ..*old(self) } } else { *old(self) }),
    {
        if grab.is_ok() {
            self.cursor_locked = b;
        }
        grab
    }

    /// The cursor-lock setting a toggle asks the window for.
    pub fn toggled_cursor_locked(&self) -> (r: bool)
        ensures
            r == !self.cursor_locked,
    {
        !self.is_cursor_locked()
    }

    /// Completes a toggle of the cursor lock once the window was asked for
    /// [`Self::toggled_cursor_locked`]: the setting flips when that grab
    /// succeeded; a failure is dropped, leaving the setting as it was.
    pub fn toggle_cursor_locked(&mut self, grab: Result<(), String>)
        ensures
            *final(self) == (if grab is Ok {
                CtxState { cursor_locked: !old(self).cursor_locked, ..*old(self) }
            } else {
                *old(self)
            }),
    {
        let b = self.toggled_cursor_locked();
        let _ = self.set_cursor_locked(b, grab);
    }

    pub fn width(&self) -> (r: i32)
        ensures
            r == self.width,
    {
        return self.width;
    }

    pub fn height(&self) -> (r: i32)
        ensures
            r == self.height,
    {
        return self.height;
    }
}

} // verus!
