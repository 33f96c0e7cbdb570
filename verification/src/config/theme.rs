//! Themes: the colors and text styles the mixer draws with, the built-in
//! themes, and how a configured overlay is applied on top of a built-in
//! theme.
use vstd::prelude::*;

verus! {

/// A terminal color.
#[derive(Debug, Clone, Copy, PartialEq, Eq, Structural)]
pub enum Color {
    Reset,
    Black,
    Red,
    Green,
    Yellow,
    Blue,
    Magenta,
    Cyan,
    Gray,
    DarkGray,
    LightRed,
    LightGreen,
    LightYellow,
    LightBlue,
    LightMagenta,
    LightCyan,
    White,
    Rgb(u8, u8, u8),
    Indexed(u8),
}

/// Text modifier bits, combined with `|`.
pub const BOLD: u16 = 0b0000_0000_0001;
pub const DIM: u16 = 0b0000_0000_0010;
pub const ITALIC: u16 = 0b0000_0000_0100;
pub const UNDERLINED: u16 = 0b0000_0000_1000;
pub const SLOW_BLINK: u16 = 0b0000_0001_0000;
pub const RAPID_BLINK: u16 = 0b0000_0010_0000;
pub const REVERSED: u16 = 0b0000_0100_0000;
pub const HIDDEN: u16 = 0b0000_1000_0000;
pub const CROSSED_OUT: u16 = 0b0001_0000_0000;

/// A text style: colors to set, and modifiers to add and to remove.
#[derive(Debug, Clone, Copy, PartialEq, Eq, Structural)]
pub struct Style {
    pub fg: Option<Color>,
    pub bg: Option<Color>,
    pub underline_color: Option<Color>,
    pub add_modifier: u16,
    pub sub_modifier: u16,
}

/// The style that changes nothing.
pub open spec fn no_style() -> Style {
    Style { fg: None, bg: None, underline_color: None, add_modifier: 0, sub_modifier: 0 }
}

/// `s` with its foreground color set.
pub open spec fn with_fg(s: Style, c: Color) -> Style {
    Style { fg: Some(c), ..s }
}

/// `s` with its background color set.
pub open spec fn with_bg(s: Style, c: Color) -> Style {
    Style { bg: Some(c), ..s }
}

/// `s` with the modifiers `m` added (and no longer removed).
pub open spec fn with_modifier(s: Style, m: u16) -> Style {
    Style { add_modifier: s.add_modifier | m, sub_modifier: s.sub_modifier & !m, ..s }
}

/// `over` laid on top of `base`: the colors `over` sets replace those of
/// `base`, the modifiers `over` removes are no longer added, and those it
/// adds are no longer removed.
pub open spec fn patched(base: Style, over: Style) -> Style {
    Style {
        fg: if over.fg is Some {
            over.fg
        } else {
            base.fg
        },
        bg: if over.bg is Some {
            over.bg
        } else {
            base.bg
        },
        underline_color: if over.underline_color is Some {
            over.underline_color
        } else {
            base.underline_color
        },
        add_modifier: (base.add_modifier & !over.sub_modifier) | over.add_modifier,
        sub_modifier: (base.sub_modifier & !over.add_modifier) | over.sub_modifier,
    }
}

/// Laying the empty style on top changes nothing.
pub proof fn lemma_patch_with_no_style(base: Style)
    ensures
        patched(base, no_style()) == base,
{
    let a = base.add_modifier;
    let b = base.sub_modifier;
    assert((a & !0u16) | 0u16 == a) by (bit_vector);
    assert((b & !0u16) | 0u16 == b) by (bit_vector);
}

impl Default for Style {
    fn default() -> (r: Self)
        ensures
            r == no_style(),
    {
        Style { fg: None, bg: None, underline_color: None, add_modifier: 0, sub_modifier: 0 }
    }
}

impl Style {
    /// Changes the foreground color.
    pub fn fg(self, color: Color) -> (r: Self)
        ensures
            r == with_fg(self, color),
    {
        Style { fg: Some(color), ..self }
    }

    /// Changes the background color.
    pub fn bg(self, color: Color) -> (r: Self)
        ensures
            r == with_bg(self, color),
    {
        Style { bg: Some(color), ..self }
    }

    /// This style with `other` laid on top (see `patched`).
    pub fn patch(self, other: Style) -> (r: Self)
        ensures
            r == patched(self, other),
    {
        Style {
            fg: if other.fg.is_some() {
                other.fg
            } else {
                self.fg
            },
            bg: if other.bg.is_some() {
                other.bg
            } else {
                self.bg
            },
            underline_color: if other.underline_color.is_some() {
                other.underline_color
            } else {
                self.underline_color
            },
            add_modifier: (self.add_modifier & !other.sub_modifier) | other.add_modifier,
            sub_modifier: (self.sub_modifier & !other.add_modifier) | other.sub_modifier,
        }
    }

    /// Adds the modifiers `m` (and stops removing them).
    pub fn add_modifier(self, m: u16) -> (r: Self)
        ensures
            r == with_modifier(self, m),
    {
        Style { add_modifier: self.add_modifier | m, sub_modifier: self.sub_modifier & !m, ..self }
    }
}

/// The styles the mixer draws with.
#[derive(Debug, Clone, Copy, PartialEq, Eq, Structural)]
pub struct Theme {
    pub default_device: Style,
    pub default_stream: Style,
    pub selector: Style,
    pub tab: Style,
    pub tab_selected: Style,
    pub tab_marker: Style,
    pub list_more: Style,
    pub divider: Style,
    pub node_title: Style,
    pub node_target: Style,
    pub volume: Style,
    pub volume_empty: Style,
    pub volume_filled: Style,
    pub meter_inactive: Style,
    pub meter_inactive_overload: Style,
    pub meter_active: Style,
    pub meter_overload: Style,
    pub meter_center_inactive: Style,
    pub meter_center_active: Style,
    pub meter_split_inactive: Option<Style>,
    pub meter_split_active: Option<Style>,
    pub meter_split_overload: Option<Style>,
    pub meter_split_center_inactive: Option<Style>,
    pub meter_split_center_active: Option<Style>,
    pub config_device: Style,
    pub config_profile: Style,
    pub row_hidden: Style,
    pub row_selected: Style,
    pub row_unselected: Style,
    pub dropdown_icon: Style,
    pub dropdown_border: Style,
    pub dropdown_item: Style,
    pub dropdown_selected: Style,
    pub dropdown_more: Style,
    pub help_border: Style,
    pub help_item: Style,
    pub help_more: Style,
}

/// The built-in `default` theme.
pub open spec fn default_theme() -> Theme {
    Theme {
        default_device: no_style(),
        default_stream: no_style(),
        selector: with_fg(no_style(), Color::LightCyan),
        tab: no_style(),
        tab_selected: with_fg(no_style(), Color::LightCyan),
        tab_marker: with_fg(no_style(), Color::LightCyan),
        list_more: with_fg(no_style(), Color::DarkGray),
        divider: with_fg(no_style(), Color::DarkGray),
        node_title: no_style(),
        node_target: no_style(),
        volume: no_style(),
        volume_empty: with_fg(no_style(), Color::DarkGray),
        volume_filled: with_fg(no_style(), Color::LightBlue),
        meter_inactive: with_modifier(with_fg(no_style(), Color::LightGreen), DIM),
        meter_inactive_overload: with_modifier(with_fg(no_style(), Color::Red), DIM),
        meter_active: with_fg(no_style(), Color::LightGreen),
        meter_overload: with_fg(no_style(), Color::Red),
        meter_center_inactive: with_fg(no_style(), Color::DarkGray),
        meter_center_active: with_fg(no_style(), Color::LightGreen),
        meter_split_inactive: None,
        meter_split_active: None,
        meter_split_overload: None,
        meter_split_center_inactive: None,
        meter_split_center_active: None,
        config_device: no_style(),
        config_profile: no_style(),
        row_hidden: with_fg(no_style(), Color::DarkGray),
        row_selected: no_style(),
        row_unselected: no_style(),
        dropdown_icon: no_style(),
        dropdown_border: no_style(),
        dropdown_item: no_style(),
        dropdown_selected: with_modifier(with_fg(no_style(), Color::LightCyan), REVERSED),
        dropdown_more: with_fg(no_style(), Color::DarkGray),
        help_border: no_style(),
        help_item: no_style(),
        help_more: with_fg(no_style(), Color::DarkGray),
    }
}

/// The built-in `nocolor` theme.
pub open spec fn nocolor_theme() -> Theme {
    Theme {
        default_device: no_style(),
        default_stream: no_style(),
        selector: with_modifier(no_style(), BOLD),
        tab: no_style(),
        tab_selected: with_modifier(no_style(), BOLD),
        tab_marker: with_modifier(no_style(), BOLD),
        list_more: no_style(),
        divider: no_style(),
        node_title: no_style(),
        node_target: no_style(),
        volume: no_style(),
        volume_empty: with_modifier(no_style(), DIM),
        volume_filled: with_modifier(no_style(), BOLD),
        meter_inactive: with_modifier(no_style(), DIM),
        meter_inactive_overload: with_modifier(no_style(), DIM),
        meter_active: with_modifier(no_style(), BOLD),
        meter_overload: with_modifier(no_style(), BOLD),
        meter_center_inactive: with_modifier(no_style(), DIM),
        meter_center_active: with_modifier(no_style(), BOLD),
        meter_split_inactive: None,
        meter_split_active: None,
        meter_split_overload: None,
        meter_split_center_inactive: None,
        meter_split_center_active: None,
        config_device: no_style(),
        config_profile: no_style(),
        row_hidden: with_modifier(no_style(), DIM),
        row_selected: no_style(),
        row_unselected: no_style(),
        dropdown_icon: no_style(),
        dropdown_border: no_style(),
        dropdown_item: no_style(),
        dropdown_selected: with_modifier(no_style(), REVERSED | BOLD),
        dropdown_more: no_style(),
        help_border: no_style(),
        help_item: no_style(),
        help_more: no_style(),
    }
}

/// The built-in `plain` theme.
pub open spec fn plain_theme() -> Theme {
    Theme {
        default_device: no_style(),
        default_stream: no_style(),
        selector: no_style(),
        tab: no_style(),
        tab_selected: no_style(),
        tab_marker: no_style(),
        list_more: no_style(),
        divider: no_style(),
        node_title: no_style(),
        node_target: no_style(),
        volume: no_style(),
        volume_empty: no_style(),
        volume_filled: no_style(),
        meter_inactive: no_style(),
        meter_inactive_overload: no_style(),
        meter_active: no_style(),
        meter_overload: no_style(),
        meter_center_inactive: no_style(),
        meter_center_active: no_style(),
        meter_split_inactive: None,
        meter_split_active: None,
        meter_split_overload: None,
        meter_split_center_inactive: None,
        meter_split_center_active: None,
        config_device: no_style(),
        config_profile: no_style(),
        row_hidden: no_style(),
        row_selected: no_style(),
        row_unselected: no_style(),
        dropdown_icon: no_style(),
        dropdown_border: no_style(),
        dropdown_item: no_style(),
        dropdown_selected: no_style(),
        dropdown_more: no_style(),
        help_border: no_style(),
        help_item: no_style(),
        help_more: no_style(),
    }
}

/// The built-in `redshift` theme.
pub open spec fn redshift_theme() -> Theme {
    Theme {
        default_device: with_modifier(with_fg(no_style(), Color::White), BOLD),
        default_stream: with_modifier(with_fg(no_style(), Color::White), BOLD),
        selector: with_modifier(with_fg(no_style(), Color::Rgb(0xFF, 0xD3, 0x4D)), BOLD),
        tab: no_style(),
        tab_selected: with_modifier(with_bg(with_fg(no_style(), Color::Rgb(0xFF, 0xD3, 0x4D)), Color::Rgb(0x3A, 0x2A, 0x00)), BOLD),
        tab_marker: with_bg(with_fg(no_style(), Color::Rgb(0xFF, 0xD3, 0x4D)), Color::Rgb(0x3A, 0x2A, 0x00)),
        list_more: with_fg(no_style(), Color::DarkGray),
        divider: with_fg(no_style(), Color::DarkGray),
        node_title: no_style(),
        node_target: no_style(),
        volume: no_style(),
        volume_empty: with_fg(no_style(), Color::DarkGray),
        volume_filled: with_fg(no_style(), Color::Rgb(0xFF, 0x96, 0x40)),
        meter_inactive: with_fg(no_style(), Color::DarkGray),
        meter_inactive_overload: with_modifier(with_fg(no_style(), Color::Red), DIM),
        meter_active: with_fg(no_style(), Color::Rgb(0x9A, 0xCD, 0x32)),
        meter_overload: with_modifier(with_fg(no_style(), Color::Rgb(0xFF, 0x3B, 0x30)), BOLD),
        meter_center_inactive: with_fg(no_style(), Color::DarkGray),
        meter_center_active: with_modifier(with_fg(no_style(), Color::Rgb(0x9A, 0xCD, 0x32)), BOLD),
        meter_split_inactive: None,
        meter_split_active: None,
        meter_split_overload: None,
        meter_split_center_inactive: None,
        meter_split_center_active: None,
        config_device: no_style(),
        config_profile: no_style(),
        row_hidden: with_fg(no_style(), Color::DarkGray),
        row_selected: with_modifier(with_bg(with_fg(no_style(), Color::Rgb(0xFF, 0xD3, 0x4D)), Color::Rgb(0x3A, 0x14, 0x14)), BOLD),
        row_unselected: with_bg(no_style(), Color::Rgb(0x1F, 0x0D, 0x0D)),
        dropdown_icon: no_style(),
        dropdown_border: with_fg(no_style(), Color::DarkGray),
        dropdown_item: no_style(),
        dropdown_selected: with_modifier(with_fg(no_style(), Color::Rgb(0xFF, 0xD3, 0x4D)), BOLD | REVERSED),
        dropdown_more: with_fg(no_style(), Color::DarkGray),
        help_border: with_fg(no_style(), Color::DarkGray),
        help_item: no_style(),
        help_more: with_fg(no_style(), Color::DarkGray),
    }
}

/// The built-in theme called `name`, if there is one.
pub open spec fn builtin_theme(name: Seq<char>) -> Option<Theme> {
    if name == "default"@ {
        Some(default_theme())
    } else if name == "nocolor"@ {
        Some(nocolor_theme())
    } else if name == "plain"@ {
        Some(plain_theme())
    } else if name == "redshift"@ {
        Some(redshift_theme())
    } else {
        None
    }
}

impl Default for Theme {
    fn default() -> (r: Self)
        ensures
            r == default_theme(),
    {
        Theme {
            default_device: Style::default(),
            default_stream: Style::default(),
            selector: Style::default().fg(Color::LightCyan),
            tab: Style::default(),
            tab_selected: Style::default().fg(Color::LightCyan),
            tab_marker: Style::default().fg(Color::LightCyan),
            list_more: Style::default().fg(Color::DarkGray),
            divider: Style::default().fg(Color::DarkGray),
            node_title: Style::default(),
            node_target: Style::default(),
            volume: Style::default(),
            volume_empty: Style::default().fg(Color::DarkGray),
            volume_filled: Style::default().fg(Color::LightBlue),
            meter_inactive: Style::default().fg(Color::LightGreen).add_modifier(DIM),
            meter_inactive_overload: Style::default().fg(Color::Red).add_modifier(DIM),
            meter_active: Style::default().fg(Color::LightGreen),
            meter_overload: Style::default().fg(Color::Red),
            meter_center_inactive: Style::default().fg(Color::DarkGray),
            meter_center_active: Style::default().fg(Color::LightGreen),
            meter_split_inactive: None,
            meter_split_active: None,
            meter_split_overload: None,
            meter_split_center_inactive: None,
            meter_split_center_active: None,
            config_device: Style::default(),
            config_profile: Style::default(),
            row_hidden: Style::default().fg(Color::DarkGray),
            row_selected: Style::default(),
            row_unselected: Style::default(),
            dropdown_icon: Style::default(),
            dropdown_border: Style::default(),
            dropdown_item: Style::default(),
            dropdown_selected: Style::default().fg(Color::LightCyan).add_modifier(REVERSED),
            dropdown_more: Style::default().fg(Color::DarkGray),
            help_border: Style::default(),
            help_item: Style::default(),
            help_more: Style::default().fg(Color::DarkGray),
        }
    }
}

impl Theme {
    /// The built-in `nocolor` theme.
    pub fn nocolor() -> (r: Self)
        ensures
            r == nocolor_theme(),
    {
        Theme {
            default_device: Style::default(),
            default_stream: Style::default(),
            selector: Style::default().add_modifier(BOLD),
            tab: Style::default(),
            tab_selected: Style::default().add_modifier(BOLD),
            tab_marker: Style::default().add_modifier(BOLD),
            list_more: Style::default(),
            divider: Style::default(),
            node_title: Style::default(),
            node_target: Style::default(),
            volume: Style::default(),
            volume_empty: Style::default().add_modifier(DIM),
            volume_filled: Style::default().add_modifier(BOLD),
            meter_inactive: Style::default().add_modifier(DIM),
            meter_inactive_overload: Style::default().add_modifier(DIM),
            meter_active: Style::default().add_modifier(BOLD),
            meter_overload: Style::default().add_modifier(BOLD),
            meter_center_inactive: Style::default().add_modifier(DIM),
            meter_center_active: Style::default().add_modifier(BOLD),
            meter_split_inactive: None,
            meter_split_active: None,
            meter_split_overload: None,
            meter_split_center_inactive: None,
            meter_split_center_active: None,
            config_device: Style::default(),
            config_profile: Style::default(),
            row_hidden: Style::default().add_modifier(DIM),
            row_selected: Style::default(),
            row_unselected: Style::default(),
            dropdown_icon: Style::default(),
            dropdown_border: Style::default(),
            dropdown_item: Style::default(),
            dropdown_selected: Style::default().add_modifier(REVERSED | BOLD),
            dropdown_more: Style::default(),
            help_border: Style::default(),
            help_item: Style::default(),
            help_more: Style::default(),
        }
    }
}

impl Theme {
    /// The built-in `plain` theme.
    pub fn plain() -> (r: Self)
        ensures
            r == plain_theme(),
    {
        Theme {
            default_device: Style::default(),
            default_stream: Style::default(),
            selector: Style::default(),
            tab: Style::default(),
            tab_selected: Style::default(),
            tab_marker: Style::default(),
            list_more: Style::default(),
            divider: Style::default(),
            node_title: Style::default(),
            node_target: Style::default(),
            volume: Style::default(),
            volume_empty: Style::default(),
            volume_filled: Style::default(),
            meter_inactive: Style::default(),
            meter_inactive_overload: Style::default(),
            meter_active: Style::default(),
            meter_overload: Style::default(),
            meter_center_inactive: Style::default(),
            meter_center_active: Style::default(),
            meter_split_inactive: None,
            meter_split_active: None,
            meter_split_overload: None,
            meter_split_center_inactive: None,
            meter_split_center_active: None,
            config_device: Style::default(),
            config_profile: Style::default(),
            row_hidden: Style::default(),
            row_selected: Style::default(),
            row_unselected: Style::default(),
            dropdown_icon: Style::default(),
            dropdown_border: Style::default(),
            dropdown_item: Style::default(),
            dropdown_selected: Style::default(),
            dropdown_more: Style::default(),
            help_border: Style::default(),
            help_item: Style::default(),
            help_more: Style::default(),
        }
    }
}

impl Theme {
    /// The built-in `redshift` theme.
    pub fn redshift() -> (r: Self)
        ensures
            r == redshift_theme(),
    {
        Theme {
            default_device: Style::default().fg(Color::White).add_modifier(BOLD),
            default_stream: Style::default().fg(Color::White).add_modifier(BOLD),
            selector: Style::default().fg(Color::Rgb(0xFF, 0xD3, 0x4D)).add_modifier(BOLD),
            tab: Style::default(),
            tab_selected: Style::default().fg(Color::Rgb(0xFF, 0xD3, 0x4D)).bg(Color::Rgb(0x3A, 0x2A, 0x00)).add_modifier(BOLD),
            tab_marker: Style::default().fg(Color::Rgb(0xFF, 0xD3, 0x4D)).bg(Color::Rgb(0x3A, 0x2A, 0x00)),
            list_more: Style::default().fg(Color::DarkGray),
            divider: Style::default().fg(Color::DarkGray),
            node_title: Style::default(),
            node_target: Style::default(),
            volume: Style::default(),
            volume_empty: Style::default().fg(Color::DarkGray),
            volume_filled: Style::default().fg(Color::Rgb(0xFF, 0x96, 0x40)),
            meter_inactive: Style::default().fg(Color::DarkGray),
            meter_inactive_overload: Style::default().fg(Color::Red).add_modifier(DIM),
            meter_active: Style::default().fg(Color::Rgb(0x9A, 0xCD, 0x32)),
            meter_overload: Style::default().fg(Color::Rgb(0xFF, 0x3B, 0x30)).add_modifier(BOLD),
            meter_center_inactive: Style::default().fg(Color::DarkGray),
            meter_center_active: Style::default().fg(Color::Rgb(0x9A, 0xCD, 0x32)).add_modifier(BOLD),
            meter_split_inactive: None,
            meter_split_active: None,
            meter_split_overload: None,
            meter_split_center_inactive: None,
            meter_split_center_active: None,
            config_device: Style::default(),
            config_profile: Style::default(),
            row_hidden: Style::default().fg(Color::DarkGray),
            row_selected: Style::default().fg(Color::Rgb(0xFF, 0xD3, 0x4D)).bg(Color::Rgb(0x3A, 0x14, 0x14)).add_modifier(BOLD),
            row_unselected: Style::default().bg(Color::Rgb(0x1F, 0x0D, 0x0D)),
            dropdown_icon: Style::default(),
            dropdown_border: Style::default().fg(Color::DarkGray),
            dropdown_item: Style::default(),
            dropdown_selected: Style::default().fg(Color::Rgb(0xFF, 0xD3, 0x4D)).add_modifier(BOLD | REVERSED),
            dropdown_more: Style::default().fg(Color::DarkGray),
            help_border: Style::default().fg(Color::DarkGray),
            help_item: Style::default(),
            help_more: Style::default().fg(Color::DarkGray),
        }
    }
}

/// A configured theme: each style that is set replaces the one inherited
/// from a built-in theme (`default` unless `inherit` names another).
#[derive(Debug, Clone, Default)]
pub struct ThemeOverlay {
    pub inherit: Option<String>,
    pub default_device: Option<Style>,
    pub default_stream: Option<Style>,
    pub selector: Option<Style>,
    pub tab: Option<Style>,
    pub tab_selected: Option<Style>,
    pub tab_marker: Option<Style>,
    pub list_more: Option<Style>,
    pub divider: Option<Style>,
    pub node_title: Option<Style>,
    pub node_target: Option<Style>,
    pub volume: Option<Style>,
    pub volume_empty: Option<Style>,
    pub volume_filled: Option<Style>,
    pub meter_inactive: Option<Style>,
    pub meter_inactive_overload: Option<Style>,
    pub meter_active: Option<Style>,
    pub meter_overload: Option<Style>,
    pub meter_center_inactive: Option<Style>,
    pub meter_center_active: Option<Style>,
    pub meter_split_inactive: Option<Style>,
    pub meter_split_active: Option<Style>,
    pub meter_split_overload: Option<Style>,
    pub meter_split_center_inactive: Option<Style>,
    pub meter_split_center_active: Option<Style>,
    pub config_device: Option<Style>,
    pub config_profile: Option<Style>,
    pub row_hidden: Option<Style>,
    pub row_selected: Option<Style>,
    pub row_unselected: Option<Style>,
    pub dropdown_icon: Option<Style>,
    pub dropdown_border: Option<Style>,
    pub dropdown_item: Option<Style>,
    pub dropdown_selected: Option<Style>,
    pub dropdown_more: Option<Style>,
    pub help_border: Option<Style>,
    pub help_item: Option<Style>,
    pub help_more: Option<Style>,
}

/// The built-in theme an overlay starts from, if its `inherit` names one.
pub open spec fn overlay_base(o: ThemeOverlay) -> Option<Theme> {
    match o.inherit {
        Some(name) => builtin_theme(name@),
        None => Some(default_theme()),
    }
}

/// The theme an overlay describes on top of `base`.
pub open spec fn apply_overlay(base: Theme, o: ThemeOverlay) -> Theme {
    Theme {
        default_device: match o.default_device { Some(s) => s, None => base.default_device },
        default_stream: match o.default_stream { Some(s) => s, None => base.default_stream },
        selector: match o.selector { Some(s) => s, None => base.selector },
        tab: match o.tab { Some(s) => s, None => base.tab },
        tab_selected: match o.tab_selected { Some(s) => s, None => base.tab_selected },
        tab_marker: match o.tab_marker { Some(s) => s, None => base.tab_marker },
        list_more: match o.list_more { Some(s) => s, None => base.list_more },
        divider: match o.divider { Some(s) => s, None => base.divider },
        node_title: match o.node_title { Some(s) => s, None => base.node_title },
        node_target: match o.node_target { Some(s) => s, None => base.node_target },
        volume: match o.volume { Some(s) => s, None => base.volume },
        volume_empty: match o.volume_empty { Some(s) => s, None => base.volume_empty },
        volume_filled: match o.volume_filled { Some(s) => s, None => base.volume_filled },
        meter_inactive: match o.meter_inactive { Some(s) => s, None => base.meter_inactive },
        meter_inactive_overload: match o.meter_inactive_overload { Some(s) => s, None => base.meter_inactive_overload },
        meter_active: match o.meter_active { Some(s) => s, None => base.meter_active },
        meter_overload: match o.meter_overload { Some(s) => s, None => base.meter_overload },
        meter_center_inactive: match o.meter_center_inactive { Some(s) => s, None => base.meter_center_inactive },
        meter_center_active: match o.meter_center_active { Some(s) => s, None => base.meter_center_active },
        meter_split_inactive: match o.meter_split_inactive { Some(s) => Some(s), None => base.meter_split_inactive },
        meter_split_active: match o.meter_split_active { Some(s) => Some(s), None => base.meter_split_active },
        meter_split_overload: match o.meter_split_overload { Some(s) => Some(s), None => base.meter_split_overload },
        meter_split_center_inactive: match o.meter_split_center_inactive { Some(s) => Some(s), None => base.meter_split_center_inactive },
        meter_split_center_active: match o.meter_split_center_active { Some(s) => Some(s), None => base.meter_split_center_active },
        config_device: match o.config_device { Some(s) => s, None => base.config_device },
        config_profile: match o.config_profile { Some(s) => s, None => base.config_profile },
        row_hidden: match o.row_hidden { Some(s) => s, None => base.row_hidden },
        row_selected: match o.row_selected { Some(s) => s, None => base.row_selected },
        row_unselected: match o.row_unselected { Some(s) => s, None => base.row_unselected },
        dropdown_icon: match o.dropdown_icon { Some(s) => s, None => base.dropdown_icon },
        dropdown_border: match o.dropdown_border { Some(s) => s, None => base.dropdown_border },
        dropdown_item: match o.dropdown_item { Some(s) => s, None => base.dropdown_item },
        dropdown_selected: match o.dropdown_selected { Some(s) => s, None => base.dropdown_selected },
        dropdown_more: match o.dropdown_more { Some(s) => s, None => base.dropdown_more },
        help_border: match o.help_border { Some(s) => s, None => base.help_border },
        help_item: match o.help_item { Some(s) => s, None => base.help_item },
        help_more: match o.help_more { Some(s) => s, None => base.help_more },
    }
}

/// The overlay is accepted: it inherits from a built-in theme.
#[verifier::opaque]
pub open spec fn overlay_accepted(o: ThemeOverlay) -> bool {
    overlay_base(o) is Some
}

/// The theme an accepted overlay describes.
#[verifier::opaque]
pub open spec fn overlay_result(o: ThemeOverlay) -> Theme {
    apply_overlay(overlay_base(o).unwrap(), o)
}

/// `e` is the error a refused overlay is reported with.
#[verifier::opaque]
pub open spec fn is_overlay_error(o: ThemeOverlay, e: ThemeError) -> bool {
    match e {
        ThemeError::UnknownInherit(name) => o.inherit matches Some(i) && name@ == i@
            && builtin_theme(i@) is None,
    }
}

/// Why a configured theme is refused.
#[derive(Debug, Clone, PartialEq, Eq)]
pub enum ThemeError {
    /// `inherit` names no built-in theme.
    UnknownInherit(String),
}

/// `a` and `b` hold the same characters.
fn same_text(a: &str, b: &str) -> (r: bool)
    ensures
        r == (a@ == b@),
{
    a.to_owned() == b.to_owned()
}

/// The configured style if there is one, else the inherited one.
fn pick(configured: Option<Style>, inherited: Style) -> (r: Style)
    ensures
        r == (match configured {
            Some(s) => s,
            None => inherited,
        }),
{
    match configured {
        Some(s) => s,
        None => inherited,
    }
}

/// The configured style if there is one, else the inherited (possibly
/// unset) one.
fn pick_opt(configured: Option<Style>, inherited: Option<Style>) -> (r: Option<Style>)
    ensures
        r == (match configured {
            Some(s) => Some(s),
            None => inherited,
        }),
{
    match configured {
        Some(s) => Some(s),
        None => inherited,
    }
}

impl Theme {
    /// The built-in theme called `name`, if there is one.
    pub fn builtin(name: &str) -> (r: Option<Theme>)
        ensures
            r == builtin_theme(name@),
    {
        if same_text(name, "default") {
            Some(Theme::default())
        } else if same_text(name, "nocolor") {
            Some(Theme::nocolor())
        } else if same_text(name, "plain") {
            Some(Theme::plain())
        } else if same_text(name, "redshift") {
            Some(Theme::redshift())
        } else {
            None
        }
    }

    /// Applies `overlay` to the built-in theme it inherits from. Fails
    /// exactly when `inherit` names no built-in theme.
    pub fn try_from_overlay(overlay: ThemeOverlay) -> (r: Result<Theme, ThemeError>)
        ensures
            match r {
                Ok(t) => overlay_accepted(overlay) && t == overlay_result(overlay),
                Err(e) => !overlay_accepted(overlay) && is_overlay_error(overlay, e),
            },
    {
        reveal(overlay_accepted);
        reveal(overlay_result);
        reveal(is_overlay_error);
        let base = match &overlay.inherit {
            Some(name) => match Theme::builtin(name.as_str()) {
                Some(t) => t,
                None => {
                    return Err(ThemeError::UnknownInherit(name.clone()));
                },
            },
            None => Theme::default(),
        };
        Ok(Theme::apply(base, overlay))
    }

    /// `base` with every style that `overlay` sets replaced.
    fn apply(base: Theme, overlay: ThemeOverlay) -> (r: Theme)
        ensures
            r == apply_overlay(base, overlay),
    {
        Theme {
            default_device: pick(overlay.default_device, base.default_device),
            default_stream: pick(overlay.default_stream, base.default_stream),
            selector: pick(overlay.selector, base.selector),
            tab: pick(overlay.tab, base.tab),
            tab_selected: pick(overlay.tab_selected, base.tab_selected),
            tab_marker: pick(overlay.tab_marker, base.tab_marker),
            list_more: pick(overlay.list_more, base.list_more),
            divider: pick(overlay.divider, base.divider),
            node_title: pick(overlay.node_title, base.node_title),
            node_target: pick(overlay.node_target, base.node_target),
            volume: pick(overlay.volume, base.volume),
            volume_empty: pick(overlay.volume_empty, base.volume_empty),
            volume_filled: pick(overlay.volume_filled, base.volume_filled),
            meter_inactive: pick(overlay.meter_inactive, base.meter_inactive),
            meter_inactive_overload: pick(overlay.meter_inactive_overload, base.meter_inactive_overload),
            meter_active: pick(overlay.meter_active, base.meter_active),
            meter_overload: pick(overlay.meter_overload, base.meter_overload),
            meter_center_inactive: pick(overlay.meter_center_inactive, base.meter_center_inactive),
            meter_center_active: pick(overlay.meter_center_active, base.meter_center_active),
            meter_split_inactive: pick_opt(overlay.meter_split_inactive, base.meter_split_inactive),
            meter_split_active: pick_opt(overlay.meter_split_active, base.meter_split_active),
            meter_split_overload: pick_opt(overlay.meter_split_overload, base.meter_split_overload),
            meter_split_center_inactive: pick_opt(overlay.meter_split_center_inactive, base.meter_split_center_inactive),
            meter_split_center_active: pick_opt(overlay.meter_split_center_active, base.meter_split_center_active),
            config_device: pick(overlay.config_device, base.config_device),
            config_profile: pick(overlay.config_profile, base.config_profile),
            row_hidden: pick(overlay.row_hidden, base.row_hidden),
            row_selected: pick(overlay.row_selected, base.row_selected),
            row_unselected: pick(overlay.row_unselected, base.row_unselected),
            dropdown_icon: pick(overlay.dropdown_icon, base.dropdown_icon),
            dropdown_border: pick(overlay.dropdown_border, base.dropdown_border),
            dropdown_item: pick(overlay.dropdown_item, base.dropdown_item),
            dropdown_selected: pick(overlay.dropdown_selected, base.dropdown_selected),
            dropdown_more: pick(overlay.dropdown_more, base.dropdown_more),
            help_border: pick(overlay.help_border, base.help_border),
            help_item: pick(overlay.help_item, base.help_item),
            help_more: pick(overlay.help_more, base.help_more),
        }
    }
}

/// A set of named themes, as a list of `(name, set)` entries.
pub type ThemeTable = Vec<(String, Theme)>;

/// No two entries of the table share a name.
pub open spec fn names_distinct<T>(m: Seq<(String, T)>) -> bool {
    forall|a: int, b: int| 0 <= a < b < m.len() ==> #[trigger] m[a].0@ != #[trigger] m[b].0@
}

/// The table has an entry called `name`.
pub open spec fn table_has(m: Seq<(String, Theme)>, name: Seq<char>) -> bool {
    exists|k: int| 0 <= k < m.len() && #[trigger] m[k].0@ == name
}

/// The table has an entry called `name` holding `v`.
pub open spec fn table_maps(m: Seq<(String, Theme)>, name: Seq<char>, v: Theme) -> bool {
    exists|k: int| 0 <= k < m.len() && #[trigger] m[k].0@ == name && m[k].1 == v
}

/// Some configured overlay is called `name`.
pub open spec fn configured_has(c: Seq<(String, ThemeOverlay)>, name: Seq<char>) -> bool {
    exists|k: int| 0 <= k < c.len() && #[trigger] c[k].0@ == name
}

/// The table `merge` builds from configured overlays: each configured set
/// under its own name, and each built-in theme that was not configured
/// under its built-in name - and nothing else.
pub open spec fn is_merged_table(c: Seq<(String, ThemeOverlay)>, m: Seq<(String, Theme)>) -> bool {
    &&& names_distinct(m)
    &&& forall|k: int|
        0 <= k < c.len() ==> table_maps(m, #[trigger] c[k].0@, overlay_result(c[k].1))
    &&& forall|name: Seq<char>|
        !configured_has(c, name) && #[trigger] builtin_theme(name) is Some ==> table_maps(
            m,
            name,
            builtin_theme(name).unwrap(),
        )
    &&& forall|name: Seq<char>|
        #[trigger] table_has(m, name) <==> (configured_has(c, name) || builtin_theme(name) is Some)
}

/// The position of the entry called `name`, if the table has one.
pub fn find_theme(m: &ThemeTable, name: &str) -> (r: Option<usize>)
    ensures
        match r {
            Some(k) => k < m@.len() && m@[k as int].0@ == name@,
            None => !table_has(m@, name@),
        },
{
    let mut k: usize = 0;
    while k < m.len()
        invariant
            k <= m@.len(),
            forall|j: int| 0 <= j < k ==> m@[j].0@ != name@,
        decreases m.len() - k,
    {
        if same_text(m[k].0.as_str(), name) {
            return Some(k);
        }
        k += 1;
    }
    None
}

impl Theme {
    /// The built-in themes, by name.
    pub fn defaults() -> (r: ThemeTable)
        ensures
            names_distinct(r@),
            forall|name: Seq<char>| #[trigger] table_has(r@, name) <==> builtin_theme(name) is Some,
            forall|name: Seq<char>|
                #[trigger] builtin_theme(name) is Some ==> table_maps(r@, name, builtin_theme(name).unwrap()),
    {
        let r = Theme::merge(Vec::new());
        match r {
            Ok(m) => {
                assert forall|name: Seq<char>| #[trigger] builtin_theme(name) is Some implies table_maps(
                    m@,
                    name,
                    builtin_theme(name).unwrap(),
                ) by {
                    assert(!configured_has(Seq::<(String, ThemeOverlay)>::empty(), name));
                }
                assert forall|name: Seq<char>| #[trigger] table_has(m@, name) <==> builtin_theme(name) is Some by {
                    assert(!configured_has(Seq::<(String, ThemeOverlay)>::empty(), name));
                }
                m
            },
            Err(_) => Vec::new(),
        }
    }

    /// Checks and applies every configured overlay (in the given order,
    /// stopping at the first refused one), then adds each built-in theme
    /// that was not configured under its own name.
    pub fn merge(configured: Vec<(String, ThemeOverlay)>) -> (r: Result<ThemeTable, ThemeError>)
        requires
            names_distinct(configured@),
        ensures
            match r {
                Ok(m) => all_accepted(configured@) && is_merged_table(configured@, m@),
                Err(e) => first_refused(configured@, e),
            },
    {
        let ghost c = configured@;
        let mut merged = accept_all(configured)?;
        add_builtin(&mut merged, "default", Ghost(c));
        add_builtin(&mut merged, "nocolor", Ghost(c));
        add_builtin(&mut merged, "plain", Ghost(c));
        add_builtin(&mut merged, "redshift", Ghost(c));
        proof {
            assert forall|name: Seq<char>|
                !configured_has(c, name) && #[trigger] builtin_theme(name) is Some implies table_maps(
                merged@,
                name,
                builtin_theme(name).unwrap(),
            ) by {}
            assert forall|name: Seq<char>| #[trigger] table_has(merged@, name) <==> (configured_has(
                c,
                name,
            ) || builtin_theme(name) is Some) by {}
        }
        Ok(merged)
    }
}

/// Every configured overlay is accepted.
pub open spec fn all_accepted(c: Seq<(String, ThemeOverlay)>) -> bool {
    forall|k: int| 0 <= k < c.len() ==> overlay_accepted(#[trigger] c[k].1)
}

/// `e` is the error of the first configured overlay that is refused.
pub open spec fn first_refused(c: Seq<(String, ThemeOverlay)>, e: ThemeError) -> bool {
    exists|k: int|
        0 <= k < c.len() && (forall|j: int| 0 <= j < k ==> overlay_accepted(#[trigger] c[j].1))
            && !overlay_accepted(#[trigger] c[k].1) && is_overlay_error(c[k].1, e)
}

/// The configured overlays, checked and applied, under their own names.
fn accept_all(configured: Vec<(String, ThemeOverlay)>) -> (r: Result<ThemeTable, ThemeError>)
    requires
        names_distinct(configured@),
    ensures
        match r {
            Ok(m) => all_accepted(configured@) && names_distinct(m@) && (forall|k: int|
                0 <= k < configured@.len() ==> table_maps(
                    m@,
                    #[trigger] configured@[k].0@,
                    overlay_result(configured@[k].1),
                )) && (forall|name: Seq<char>| #[trigger] table_has(m@, name) <==> configured_has(configured@, name)),
            Err(e) => first_refused(configured@, e),
        },
{
    let ghost c = configured@;
    let n = configured.len();
    let mut rest = configured;
    let mut merged: ThemeTable = Vec::new();
    let mut done: usize = 0;
    while rest.len() > 0
        invariant
            c == configured@,
            c.len() == n,
            names_distinct(c),
            done + rest@.len() == c.len(),
            rest@ == c.subrange(done as int, c.len() as int),
            merged@.len() == done,
            forall|k: int|
                0 <= k < done ==> merged@[k].0@ == c[k].0@ && overlay_accepted(#[trigger] c[k].1)
                    && merged@[k].1 == overlay_result(c[k].1),
        decreases rest.len(),
    {
        assert(rest@[0] == c[done as int]);
        let (name, overlay) = rest.remove(0);
        match Theme::try_from_overlay(overlay) {
            Ok(theme) => {
                merged.push((name, theme));
            },
            Err(e) => {
                assert(first_refused(c, e)) by {
                    assert(!overlay_accepted(c[done as int].1));
                }
                return Err(e);
            },
        }
        assert(rest@ =~= c.subrange(done + 1, c.len() as int));
        done += 1;
    }
    proof {
        assert forall|a: int, b: int| 0 <= a < b < merged@.len() implies #[trigger] merged@[a].0@
            != #[trigger] merged@[b].0@ by {
            assert(overlay_accepted(c[a].1));
            assert(overlay_accepted(c[b].1));
            assert(c[a].0@ != c[b].0@);
        }
        assert forall|k: int| 0 <= k < c.len() implies table_maps(
            merged@,
            #[trigger] c[k].0@,
            overlay_result(c[k].1),
        ) by {
            assert(merged@[k].0@ == c[k].0@);
        }
        assert forall|name: Seq<char>| #[trigger] table_has(merged@, name) <==> configured_has(c, name) by {
            if table_has(merged@, name) {
                let k = choose|k: int| 0 <= k < merged@.len() && #[trigger] merged@[k].0@ == name;
                assert(c[k].0@ == name);
            }
            if configured_has(c, name) {
                let k = choose|k: int| 0 <= k < c.len() && #[trigger] c[k].0@ == name;
                assert(merged@[k].0@ == name);
            }
        }
    }
    Ok(merged)
}

/// Adds the built-in theme `name` to the table unless an entry of that name
/// is already there.
fn add_builtin(m: &mut ThemeTable, name: &str, Ghost(c): Ghost<Seq<(String, ThemeOverlay)>>)
    requires
        builtin_theme(name@) is Some,
        names_distinct(old(m)@),
    ensures
        names_distinct(final(m)@),
        forall|n: Seq<char>| #[trigger] table_has(final(m)@, n) <==> (table_has(old(m)@, n) || n == name@),
        forall|n: Seq<char>, v: Theme| table_maps(old(m)@, n, v) ==> #[trigger] table_maps(final(m)@, n, v),
        !table_has(old(m)@, name@) ==> table_maps(final(m)@, name@, builtin_theme(name@).unwrap()),
{
    match find_theme(m, name) {
        Some(_) => {},
        None => {
            let b = Theme::builtin(name);
            match b {
                Some(theme) => {
                    let ghost old_m = m@;
                    m.push((name.to_owned(), theme));
                    proof {
                        let len = old_m.len() as int;
                        assert(m@[len].0@ == name@);
                        assert forall|a: int, bb: int| 0 <= a < bb < m@.len() implies #[trigger] m@[a].0@
                            != #[trigger] m@[bb].0@ by {
                            if bb == len {
                                assert(old_m[a].0@ == m@[a].0@);
                            } else {
                                assert(old_m[a] == m@[a] && old_m[bb] == m@[bb]);
                            }
                        }
                        assert forall|n: Seq<char>| #[trigger] table_has(m@, n) <==> (table_has(old_m, n)
                            || n == name@) by {
                            if table_has(m@, n) {
                                let k = choose|k: int| 0 <= k < m@.len() && #[trigger] m@[k].0@ == n;
                                if k < len {
                                    assert(old_m[k] == m@[k]);
                                }
                            }
                            if table_has(old_m, n) {
                                let k = choose|k: int| 0 <= k < old_m.len() && #[trigger] old_m[k].0@ == n;
                                assert(old_m[k] == m@[k]);
                            }
                        }
                        assert forall|n: Seq<char>, v: Theme| table_maps(old_m, n, v) implies #[trigger] table_maps(
                            m@,
                            n,
                            v,
                        ) by {
                            let k = choose|k: int|
                                0 <= k < old_m.len() && #[trigger] old_m[k].0@ == n && old_m[k].1 == v;
                            assert(old_m[k] == m@[k]);
                        }
                        assert(table_maps(m@, name@, builtin_theme(name@).unwrap()));
                    }
                },
                None => {},
            }
        },
    }
}

/// An accepted overlay sets each style it gives and inherits every other
/// one from the built-in theme it names (`default` without `inherit`).
pub proof fn lemma_overlay_sets_styles(o: ThemeOverlay)
    requires
        overlay_accepted(o),
    ensures
        ({
            let base = overlay_base(o).unwrap();
            let t = overlay_result(o);
            &&& (o.default_device matches Some(s) ==> t.default_device == s)
            &&& (o.default_device is None ==> t.default_device == base.default_device)
            &&& (o.default_stream matches Some(s) ==> t.default_stream == s)
            &&& (o.default_stream is None ==> t.default_stream == base.default_stream)
            &&& (o.selector matches Some(s) ==> t.selector == s)
            &&& (o.selector is None ==> t.selector == base.selector)
            &&& (o.tab matches Some(s) ==> t.tab == s)
            &&& (o.tab is None ==> t.tab == base.tab)
            &&& (o.tab_selected matches Some(s) ==> t.tab_selected == s)
            &&& (o.tab_selected is None ==> t.tab_selected == base.tab_selected)
            &&& (o.tab_marker matches Some(s) ==> t.tab_marker == s)
            &&& (o.tab_marker is None ==> t.tab_marker == base.tab_marker)
            &&& (o.list_more matches Some(s) ==> t.list_more == s)
            &&& (o.list_more is None ==> t.list_more == base.list_more)
            &&& (o.divider matches Some(s) ==> t.divider == s)
            &&& (o.divider is None ==> t.divider == base.divider)
            &&& (o.node_title matches Some(s) ==> t.node_title == s)
            &&& (o.node_title is None ==> t.node_title == base.node_title)
            &&& (o.node_target matches Some(s) ==> t.node_target == s)
            &&& (o.node_target is None ==> t.node_target == base.node_target)
            &&& (o.volume matches Some(s) ==> t.volume == s)
            &&& (o.volume is None ==> t.volume == base.volume)
            &&& (o.volume_empty matches Some(s) ==> t.volume_empty == s)
            &&& (o.volume_empty is None ==> t.volume_empty == base.volume_empty)
            &&& (o.volume_filled matches Some(s) ==> t.volume_filled == s)
            &&& (o.volume_filled is None ==> t.volume_filled == base.volume_filled)
            &&& (o.meter_inactive matches Some(s) ==> t.meter_inactive == s)
            &&& (o.meter_inactive is None ==> t.meter_inactive == base.meter_inactive)
            &&& (o.meter_inactive_overload matches Some(s) ==> t.meter_inactive_overload == s)
            &&& (o.meter_inactive_overload is None ==> t.meter_inactive_overload == base.meter_inactive_overload)
            &&& (o.meter_active matches Some(s) ==> t.meter_active == s)
            &&& (o.meter_active is None ==> t.meter_active == base.meter_active)
            &&& (o.meter_overload matches Some(s) ==> t.meter_overload == s)
            &&& (o.meter_overload is None ==> t.meter_overload == base.meter_overload)
            &&& (o.meter_center_inactive matches Some(s) ==> t.meter_center_inactive == s)
            &&& (o.meter_center_inactive is None ==> t.meter_center_inactive == base.meter_center_inactive)
            &&& (o.meter_center_active matches Some(s) ==> t.meter_center_active == s)
            &&& (o.meter_center_active is None ==> t.meter_center_active == base.meter_center_active)
            &&& (o.meter_split_inactive matches Some(s) ==> t.meter_split_inactive == Some(s))
            &&& (o.meter_split_inactive is None ==> t.meter_split_inactive == base.meter_split_inactive)
            &&& (o.meter_split_active matches Some(s) ==> t.meter_split_active == Some(s))
            &&& (o.meter_split_active is None ==> t.meter_split_active == base.meter_split_active)
            &&& (o.meter_split_overload matches Some(s) ==> t.meter_split_overload == Some(s))
            &&& (o.meter_split_overload is None ==> t.meter_split_overload == base.meter_split_overload)
            &&& (o.meter_split_center_inactive matches Some(s) ==> t.meter_split_center_inactive == Some(s))
            &&& (o.meter_split_center_inactive is None ==> t.meter_split_center_inactive == base.meter_split_center_inactive)
            &&& (o.meter_split_center_active matches Some(s) ==> t.meter_split_center_active == Some(s))
            &&& (o.meter_split_center_active is None ==> t.meter_split_center_active == base.meter_split_center_active)
            &&& (o.config_device matches Some(s) ==> t.config_device == s)
            &&& (o.config_device is None ==> t.config_device == base.config_device)
            &&& (o.config_profile matches Some(s) ==> t.config_profile == s)
            &&& (o.config_profile is None ==> t.config_profile == base.config_profile)
            &&& (o.row_hidden matches Some(s) ==> t.row_hidden == s)
            &&& (o.row_hidden is None ==> t.row_hidden == base.row_hidden)
            &&& (o.row_selected matches Some(s) ==> t.row_selected == s)
            &&& (o.row_selected is None ==> t.row_selected == base.row_selected)
            &&& (o.row_unselected matches Some(s) ==> t.row_unselected == s)
            &&& (o.row_unselected is None ==> t.row_unselected == base.row_unselected)
            &&& (o.dropdown_icon matches Some(s) ==> t.dropdown_icon == s)
            &&& (o.dropdown_icon is None ==> t.dropdown_icon == base.dropdown_icon)
            &&& (o.dropdown_border matches Some(s) ==> t.dropdown_border == s)
            &&& (o.dropdown_border is None ==> t.dropdown_border == base.dropdown_border)
            &&& (o.dropdown_item matches Some(s) ==> t.dropdown_item == s)
            &&& (o.dropdown_item is None ==> t.dropdown_item == base.dropdown_item)
            &&& (o.dropdown_selected matches Some(s) ==> t.dropdown_selected == s)
            &&& (o.dropdown_selected is None ==> t.dropdown_selected == base.dropdown_selected)
            &&& (o.dropdown_more matches Some(s) ==> t.dropdown_more == s)
            &&& (o.dropdown_more is None ==> t.dropdown_more == base.dropdown_more)
            &&& (o.help_border matches Some(s) ==> t.help_border == s)
            &&& (o.help_border is None ==> t.help_border == base.help_border)
            &&& (o.help_item matches Some(s) ==> t.help_item == s)
            &&& (o.help_item is None ==> t.help_item == base.help_item)
            &&& (o.help_more matches Some(s) ==> t.help_more == s)
            &&& (o.help_more is None ==> t.help_more == base.help_more)
        }),
{
    reveal(overlay_accepted);
    reveal(overlay_result);
}

} // verus!
