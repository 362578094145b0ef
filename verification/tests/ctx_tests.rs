use dirty::conf::{Conf, Launcher};
use dirty::ctx::{frame_budget, CtxState, FrameAction, DEFAULT_FPS_CAP};
use dirty::window::Pos;

#[test]
fn ctx_state_starts_from_conf() {
    let conf = Launcher::new().title("w").size(100, 50).fullscreen(true).cursor_locked(true).into_conf();
    let s = CtxState::new(&conf);
    assert!(!s.quit);
    assert_eq!(s.fps_cap, DEFAULT_FPS_CAP);
    assert_eq!(s.fps(), 0);
    assert_eq!(s.mouse_pos, Pos::new(0, 0));
    assert!(s.mouse_delta.is_none() && s.scroll_delta.is_none() && s.text_input.is_none());
    assert_eq!(s.title, "w");
    assert!(s.is_fullscreen());
    assert!(!s.is_cursor_hidden());
    assert!(s.is_cursor_locked());
    assert_eq!(s.width(), 100);
    assert_eq!(s.height(), 50);
    assert_eq!(s.draw_calls, 0);
}

#[test]
fn ctx_quit_sets_flag() {
    let mut s = CtxState::new(&Conf::default());
    s.quit();
    assert!(s.quit);
}

#[test]
fn ctx_records_fps() {
    let mut s = CtxState::new(&Conf::default());
    s.record_fps(50);
    s.record_fps(70);
    assert_eq!(s.fps(), 60);
}

#[test]
fn frame_budget_values() {
    assert_eq!(frame_budget(60), 16);
    assert_eq!(frame_budget(1), 1000);
    assert_eq!(frame_budget(3), 333);
    assert_eq!(frame_budget(2000), 0);
    assert_eq!(frame_budget(0), u128::MAX);
}

#[test]
fn frame_sleep_fills_the_budget() {
    let s = CtxState::new(&Conf::default());
    assert_eq!(s.frame_sleep_ms(10), Some(6));
    assert_eq!(s.frame_sleep_ms(0), Some(16));
    assert_eq!(s.frame_sleep_ms(16), None);
    assert_eq!(s.frame_sleep_ms(100), None);
}

#[test]
fn frame_sleep_without_cap() {
    let mut s = CtxState::new(&Conf::default());
    s.fps_cap = 0;
    assert_eq!(s.frame_sleep_ms(5), Some(u64::MAX - 5));
}

#[test]
fn toggles_flip_and_restore() {
    let mut s = CtxState::new(&Conf::default());
    assert!(s.toggle_fullscreen());
    assert!(s.is_fullscreen());
    assert!(!s.toggle_fullscreen());
    assert!(!s.is_fullscreen());
    assert!(s.toggle_cursor_hidden());
    assert!(!s.toggle_cursor_hidden());
    assert!(!s.is_cursor_hidden());
}

#[test]
fn cursor_lock_follows_the_grab() {
    let mut s = CtxState::new(&Conf::default());
    assert_eq!(s.set_cursor_locked(true, Ok(())), Ok(()));
    assert!(s.is_cursor_locked());
    let r = s.set_cursor_locked(false, Err(String::from("no grab")));
    assert_eq!(r, Err(String::from("no grab")));
    assert!(s.is_cursor_locked());
    assert!(!s.toggled_cursor_locked());
    s.toggle_cursor_locked(Ok(()));
    assert!(!s.is_cursor_locked());
    s.toggle_cursor_locked(Err(String::from("denied")));
    assert!(!s.is_cursor_locked());
}

#[test]
fn set_flags_directly() {
    let mut s = CtxState::new(&Conf::default());
    s.set_fullscreen(true);
    s.set_cursor_hidden(true);
    assert!(s.is_fullscreen() && s.is_cursor_hidden());
}

#[test]
fn end_of_frame_decides_stop_sleep_or_continue() {
    let mut s = CtxState::new(&Conf::default());
    assert_eq!(s.end_of_frame(10), FrameAction::Sleep(6));
    assert_eq!(s.end_of_frame(16), FrameAction::Continue);
    assert_eq!(s.end_of_frame(40), FrameAction::Continue);
    s.quit();
    assert_eq!(s.end_of_frame(10), FrameAction::Stop);
    assert_eq!(s.end_of_frame(40), FrameAction::Stop);
}
