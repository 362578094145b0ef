use vstd::prelude::*;

verus! {

/// A color carried through the configuration untouched: each channel is the
/// bit pattern of its single-precision value, in red, green, blue, alpha order.
#[derive(Copy, Clone, PartialEq, Eq, Structural, Debug)]
pub struct ColorBits {
    pub r: u32,
    pub g: u32,
    pub b: u32,
    pub a: u32,
}

/// Bit pattern of the single-precision value `1.0`.
pub const ONE_BITS: u32 = 0x3F80_0000u32;

/// Opaque black: channels `0, 0, 0, 1`.
pub open spec fn opaque_black() -> ColorBits {
    ColorBits { r: 0, g: 0, b: 0, a: ONE_BITS }
}

/// Window and context settings used when the application starts.
#[derive(Clone, Debug)]
pub struct Conf {
    pub width: i32,
    pub height: i32,
    pub title: String,
    pub hidpi: bool,
    pub resizable: bool,
    pub fullscreen: bool,
    pub always_on_top: bool,
    pub borderless: bool,
    pub transparent: bool,
    pub vsync: bool,
    pub hide_title: bool,
    pub hide_titlebar_buttons: bool,
    pub fullsize_content: bool,
    pub titlebar_transparent: bool,
    pub cursor_hidden: bool,
    pub cursor_locked: bool,
    pub clear_color: ColorBits,
}

impl Conf {
    /// Every setting other than the size and the title has its default value:
    /// high-DPI on, the other switches off, opaque black as the clear color.
    pub open spec fn has_default_flags(&self) -> bool {
        &&& self.hidpi
        &&& !self.resizable
        &&& !self.fullscreen
        &&& !self.always_on_top
        &&& !self.borderless
        &&& !self.transparent
        &&& !self.vsync
        &&& !self.hide_title
        &&& !self.hide_titlebar_buttons
        &&& !self.fullsize_content
        &&& !self.titlebar_transparent
        &&& !self.cursor_hidden
        &&& !self.cursor_locked
        &&& self.clear_color == opaque_black()
    }

    /// `true` when `self` and `other` agree on every setting except perhaps
    /// the title.
    pub open spec fn same_but_title(&self, other: &Conf) -> bool {
        &&& self.width == other.width
        &&& self.height == other.height
        &&& self.hidpi == other.hidpi
        &&& self.resizable == other.resizable
        &&& self.fullscreen == other.fullscreen
        &&& self.always_on_top == other.always_on_top
        &&& self.borderless == other.borderless
        &&& self.transparent == other.transparent
        &&& self.vsync == other.vsync
        &&& self.hide_title == other.hide_title
        &&& self.hide_titlebar_buttons == other.hide_titlebar_buttons
        &&& self.fullsize_content == other.fullsize_content
        &&& self.titlebar_transparent == other.titlebar_transparent
        &&& self.cursor_hidden == other.cursor_hidden
        &&& self.cursor_locked == other.cursor_locked
        &&& self.clear_color == other.clear_color
    }

    /// `true` when the two configurations hold the same settings.
    pub open spec fn same_as(&self, other: &Conf) -> bool {
        self.same_but_title(other) && self.title@ == other.title@
    }

    /// The default configuration with the given title and size.
    pub fn basic(title: &str, width: i32, height: i32) -> (r: Self)
        ensures
            r.title@ == title@,
            r.width == width,
            r.height == height,
            r.has_default_flags(),
    {
        Conf {
            title: title.to_owned(),
            width: width,
            height: height,
            ..Conf::default()
        }
    }
}

impl Default for Conf {
    /// A 640 by 480 window with an empty title and the default settings.
    fn default() -> (r: Self)
        ensures
            r.width == 640,
            r.height == 480,
            r.title@ == Seq::<char>::empty(),
            r.has_default_flags(),
    {
        Conf {
            width: 640,
            height: 480,
            title: String::new(),
            hidpi: true,
            resizable: false,
            fullscreen: false,
            always_on_top: false,
            borderless: false,
            transparent: false,
            vsync: false,
            fullsize_content: false,
            hide_title: false,
            hide_titlebar_buttons: false,
            titlebar_transparent: false,
            cursor_hidden: false,
            cursor_locked: false,
            clear_color: ColorBits { r: 0, g: 0, b: 0, a: ONE_BITS },
        }
    }
}

/// Builds the configuration an application starts with.
pub struct Launcher {
    conf: Conf,
}

impl Default for Launcher {
    /// A launcher holding the default configuration.
    fn default() -> (r: Self)
        ensures
            r.settings().width == 640,
            r.settings().height == 480,
            r.settings().title@ == Seq::<char>::empty(),
            r.settings().has_default_flags(),
    {
        Launcher { conf: Conf::default() }
    }
}

impl Launcher {
    /// The configuration built so far.
    pub closed spec fn settings(&self) -> Conf {
        self.conf
    }

    /// A launcher holding the default configuration.
    pub fn new() -> (r: Self)
        ensures
            r.settings().width == 640,
            r.settings().height == 480,
            r.settings().title@ == Seq::<char>::empty(),
            r.settings().has_default_flags(),
    {
        return Self::default();
    }

    /// Hands out the configuration built so far.
    pub fn into_conf(self) -> (r: Conf)
        ensures
            r == self.settings(),
    {
        self.conf
    }

    /// Replaces the whole configuration.
    pub fn conf(self, c: Conf) -> (r: Self)
        ensures
            r.settings() == c,
    {
        let mut l = self;
        l.conf = c;
        return l;
    }

    /// Sets the window size; every other setting is kept.
    pub fn size(self, w: i32, h: i32) -> (r: Self)
        ensures
            r.settings() == (Conf { width: w, height: h, ..self.settings() }),
    {
        let mut l = self;
        l.conf.width = w;
        l.conf.height = h;
        return l;
    }

    /// Sets the window title; every other setting is kept.
    pub fn title(self, t: &str) -> (r: Self)
        ensures
            r.settings().title@ == t@,
            r.settings().same_but_title(&self.settings()),
    {
        let mut l = self;
        l.conf.title = t.to_owned();
        return l;
    }

    /// Sets `hidpi`; every other setting is kept.
    pub fn hidpi(self, b: bool) -> (r: Self)
        ensures
            r.settings() == (Conf { hidpi: b, ..self.settings() }),
    {
        let mut l = self;
        l.conf.hidpi = b;
        return l;
    }

    /// Sets `resizable`; every other setting is kept.
    pub fn resizable(self, b: bool) -> (r: Self)
        ensures
            r.settings() == (Conf { resizable: b, ..self.settings() }),
    {
        let mut l = self;
        l.conf.resizable = b;
        return l;
    }

    /// Sets `fullscreen`; every other setting is kept.
    pub fn fullscreen(self, b: bool) -> (r: Self)
        ensures
            r.settings() == (Conf { fullscreen: b, ..self.settings() }),
    {
        let mut l = self;
        l.conf.fullscreen = b;
        return l;
    }

    /// Sets `vsync`; every other setting is kept.
    pub fn vsync(self, b: bool) -> (r: Self)
        ensures
            r.settings() == (Conf { vsync: b, ..self.settings() }),
    {
        let mut l = self;
        l.conf.vsync = b;
        return l;
    }

    /// Sets `cursor_hidden`; every other setting is kept.
    pub fn cursor_hidden(self, b: bool) -> (r: Self)
        ensures
            r.settings() == (Conf { cursor_hidden: b, ..self.settings() }),
    {
        let mut l = self;
        l.conf.cursor_hidden = b;
        return l;
    }

    /// Sets `cursor_locked`; every other setting is kept.
    pub fn cursor_locked(self, b: bool) -> (r: Self)
        ensures
            r.settings() == (Conf { cursor_locked: b, ..self.settings() }),
    {
        let mut l = self;
        l.conf.cursor_locked = b;
        return l;
    }

    /// Sets `hide_title`; every other setting is kept.
    pub fn hide_title(self, b: bool) -> (r: Self)
        ensures
            r.settings() == (Conf { hide_title: b, ..self.settings() }),
    {
        let mut l = self;
        l.conf.hide_title = b;
        return l;
    }

    /// Sets `hide_titlebar_buttons`; every other setting is kept.
    pub fn hide_titlebar_buttons(self, b: bool) -> (r: Self)
        ensures
            r.settings() == (Conf { hide_titlebar_buttons: b, ..self.settings() }),
    {
        let mut l = self;
        l.conf.hide_titlebar_buttons = b;
        return l;
    }

    /// Sets `transparent`; every other setting is kept.
    pub fn transparent(self, b: bool) -> (r: Self)
        ensures
            r.settings() == (Conf { transparent: b, ..self.settings() }),
    {
        let mut l = self;
        l.conf.transparent = b;
        return l;
    }

    /// Sets `always_on_top`; every other setting is kept.
    pub fn always_on_top(self, b: bool) -> (r: Self)
        ensures
            r.settings() == (Conf { always_on_top: b, ..self.settings() }),
    {
        let mut l = self;
        l.conf.always_on_top = b;
        return l;
    }

    /// Sets the color the window is cleared with; every other setting is kept.
    pub fn clear_color(self, c: ColorBits) -> (r: Self)
        ensures
            r.settings() == (Conf { clear_color: c, ..self.settings() }),
    {
        let mut l = self;
        l.conf.clear_color = c;
        return l;
    }
}

} // verus!
