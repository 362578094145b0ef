use dirty::conf::{ColorBits, Conf, Launcher, ONE_BITS};

fn assert_default_flags(c: &Conf) {
    assert!(c.hidpi);
    assert!(!c.resizable);
    assert!(!c.fullscreen);
    assert!(!c.always_on_top);
    assert!(!c.borderless);
    assert!(!c.transparent);
    assert!(!c.vsync);
    assert!(!c.hide_title);
    assert!(!c.hide_titlebar_buttons);
    assert!(!c.fullsize_content);
    assert!(!c.titlebar_transparent);
    assert!(!c.cursor_hidden);
    assert!(!c.cursor_locked);
    assert_eq!(c.clear_color, ColorBits { r: 0, g: 0, b: 0, a: ONE_BITS });
}

#[test]
fn conf_default_values() {
    let c = Conf::default();
    assert_eq!(c.width, 640);
    assert_eq!(c.height, 480);
    assert_eq!(c.title, "");
    assert_default_flags(&c);
}

#[test]
fn opaque_black_is_one_in_alpha() {
    assert_eq!(ONE_BITS, 1.0f32.to_bits());
}

#[test]
fn conf_basic_sets_title_and_size() {
    let c = Conf::basic("game", 320, 200);
    assert_eq!(c.title, "game");
    assert_eq!(c.width, 320);
    assert_eq!(c.height, 200);
    assert_default_flags(&c);
}

#[test]
fn launcher_new_holds_default() {
    let c = Launcher::new().into_conf();
    assert_eq!(c.width, 640);
    assert_eq!(c.height, 480);
    assert_eq!(c.title, "");
    assert_default_flags(&c);
}

#[test]
fn launcher_title_and_size_match_basic() {
    let a = Launcher::new().title("t").size(1, 2).into_conf();
    let b = Conf::basic("t", 1, 2);
    assert_eq!(a.title, b.title);
    assert_eq!(a.width, b.width);
    assert_eq!(a.height, b.height);
    assert_default_flags(&a);
}

#[test]
fn launcher_flag_builders_set_only_their_flag() {
    let c = Launcher::new().vsync(true).into_conf();
    assert!(c.vsync);
    assert!(!c.fullscreen);
    let c = Launcher::new().hidpi(false).into_conf();
    assert!(!c.hidpi);
    let c = Launcher::new().resizable(true).fullscreen(true).cursor_hidden(true).into_conf();
    assert!(c.resizable && c.fullscreen && c.cursor_hidden);
    assert!(!c.cursor_locked && !c.vsync);
    let c = Launcher::new()
        .cursor_locked(true)
        .hide_title(true)
        .hide_titlebar_buttons(true)
        .transparent(true)
        .always_on_top(true)
        .into_conf();
    assert!(c.cursor_locked && c.hide_title && c.hide_titlebar_buttons);
    assert!(c.transparent && c.always_on_top);
    assert!(!c.borderless && !c.fullsize_content && !c.titlebar_transparent);
    assert_eq!(c.width, 640);
}

#[test]
fn launcher_clear_color_and_conf() {
    let red = ColorBits { r: ONE_BITS, g: 0, b: 0, a: ONE_BITS };
    let c = Launcher::new().clear_color(red).into_conf();
    assert_eq!(c.clear_color, red);
    let base = Conf::basic("x", 5, 6);
    let c = Launcher::new().size(9, 9).conf(base).into_conf();
    assert_eq!(c.width, 5);
    assert_eq!(c.title, "x");
}
