//! Character sets: the glyphs the mixer draws with, the built-in sets, and
//! how a configured overlay is checked and applied on top of a built-in set.
use vstd::prelude::*;

verus! {

/// Border style of a popup box.
#[derive(Debug, Clone, Copy, PartialEq, Eq, Structural)]
pub enum BorderKind {
    Plain,
    Rounded,
    Double,
    Thick,
    QuadrantInside,
    QuadrantOutside,
}

/// Terminal display width of a string, in columns: what the character-set
/// checks compare against.
pub uninterp spec fn display_width(s: Seq<char>) -> nat;

/// Display width of `s` as a terminal draws it.
///
/// Trusted: calls `ratatui::text::Span::width` on `Span::raw(s)`, which
/// sums the Unicode display widths of the string's characters. The
/// contract only names the result (`display_width`), a function of the
/// string alone.
#[verifier::external_body]
fn span_width(s: &str) -> (w: usize)
    ensures
        w == display_width(s@),
{
    ratatui::text::Span::raw(s).width()
}

/// The glyphs the mixer draws with.
#[derive(Debug, Clone, PartialEq, Eq)]
pub struct CharSet {
    pub default_device: String,
    pub default_stream: String,
    pub hidden_instance: String,
    pub hidden_permanent: String,
    pub selector_top: String,
    pub selector_middle: String,
    pub selector_bottom: String,
    pub tab_marker_left: String,
    pub tab_marker_right: String,
    pub list_more: String,
    pub divider: String,
    pub volume_empty: String,
    pub volume_filled: String,
    pub meter_left_inactive: String,
    pub meter_left_inactive_overload: String,
    pub meter_left_active: String,
    pub meter_left_overload: String,
    pub meter_right_inactive: String,
    pub meter_right_inactive_overload: String,
    pub meter_right_active: String,
    pub meter_right_overload: String,
    pub meter_center_left_inactive: String,
    pub meter_center_left_active: String,
    pub meter_center_right_inactive: String,
    pub meter_center_right_active: String,
    pub meter_split_left_inactive: Option<String>,
    pub meter_split_left_inactive_overload: Option<String>,
    pub meter_split_left_active: Option<String>,
    pub meter_split_left_overload: Option<String>,
    pub meter_split_right_inactive: Option<String>,
    pub meter_split_right_inactive_overload: Option<String>,
    pub meter_split_right_active: Option<String>,
    pub meter_split_right_overload: Option<String>,
    pub meter_split_center_left_inactive: Option<String>,
    pub meter_split_center_left_active: Option<String>,
    pub meter_split_center_right_inactive: Option<String>,
    pub meter_split_center_right_active: Option<String>,
    pub dropdown_icon: String,
    pub dropdown_selector: String,
    pub dropdown_more: String,
    pub dropdown_border: BorderKind,
    pub help_more: String,
    pub help_border: BorderKind,
}

/// The content of a `CharSet`, as sequences of characters.
pub struct CharSetView {
    pub default_device: Seq<char>,
    pub default_stream: Seq<char>,
    pub hidden_instance: Seq<char>,
    pub hidden_permanent: Seq<char>,
    pub selector_top: Seq<char>,
    pub selector_middle: Seq<char>,
    pub selector_bottom: Seq<char>,
    pub tab_marker_left: Seq<char>,
    pub tab_marker_right: Seq<char>,
    pub list_more: Seq<char>,
    pub divider: Seq<char>,
    pub volume_empty: Seq<char>,
    pub volume_filled: Seq<char>,
    pub meter_left_inactive: Seq<char>,
    pub meter_left_inactive_overload: Seq<char>,
    pub meter_left_active: Seq<char>,
    pub meter_left_overload: Seq<char>,
    pub meter_right_inactive: Seq<char>,
    pub meter_right_inactive_overload: Seq<char>,
    pub meter_right_active: Seq<char>,
    pub meter_right_overload: Seq<char>,
    pub meter_center_left_inactive: Seq<char>,
    pub meter_center_left_active: Seq<char>,
    pub meter_center_right_inactive: Seq<char>,
    pub meter_center_right_active: Seq<char>,
    pub meter_split_left_inactive: Option<Seq<char>>,
    pub meter_split_left_inactive_overload: Option<Seq<char>>,
    pub meter_split_left_active: Option<Seq<char>>,
    pub meter_split_left_overload: Option<Seq<char>>,
    pub meter_split_right_inactive: Option<Seq<char>>,
    pub meter_split_right_inactive_overload: Option<Seq<char>>,
    pub meter_split_right_active: Option<Seq<char>>,
    pub meter_split_right_overload: Option<Seq<char>>,
    pub meter_split_center_left_inactive: Option<Seq<char>>,
    pub meter_split_center_left_active: Option<Seq<char>>,
    pub meter_split_center_right_inactive: Option<Seq<char>>,
    pub meter_split_center_right_active: Option<Seq<char>>,
    pub dropdown_icon: Seq<char>,
    pub dropdown_selector: Seq<char>,
    pub dropdown_more: Seq<char>,
    pub dropdown_border: BorderKind,
    pub help_more: Seq<char>,
    pub help_border: BorderKind,
}

/// The view of an optional string.
pub open spec fn opt_view(s: Option<String>) -> Option<Seq<char>> {
    match s {
        Some(s) => Some(s@),
        None => None,
    }
}

impl View for CharSet {
    type V = CharSetView;

    open spec fn view(&self) -> CharSetView {
        CharSetView {
            default_device: self.default_device@,
            default_stream: self.default_stream@,
            hidden_instance: self.hidden_instance@,
            hidden_permanent: self.hidden_permanent@,
            selector_top: self.selector_top@,
            selector_middle: self.selector_middle@,
            selector_bottom: self.selector_bottom@,
            tab_marker_left: self.tab_marker_left@,
            tab_marker_right: self.tab_marker_right@,
            list_more: self.list_more@,
            divider: self.divider@,
            volume_empty: self.volume_empty@,
            volume_filled: self.volume_filled@,
            meter_left_inactive: self.meter_left_inactive@,
            meter_left_inactive_overload: self.meter_left_inactive_overload@,
            meter_left_active: self.meter_left_active@,
            meter_left_overload: self.meter_left_overload@,
            meter_right_inactive: self.meter_right_inactive@,
            meter_right_inactive_overload: self.meter_right_inactive_overload@,
            meter_right_active: self.meter_right_active@,
            meter_right_overload: self.meter_right_overload@,
            meter_center_left_inactive: self.meter_center_left_inactive@,
            meter_center_left_active: self.meter_center_left_active@,
            meter_center_right_inactive: self.meter_center_right_inactive@,
            meter_center_right_active: self.meter_center_right_active@,
            meter_split_left_inactive: opt_view(self.meter_split_left_inactive),
            meter_split_left_inactive_overload: opt_view(self.meter_split_left_inactive_overload),
            meter_split_left_active: opt_view(self.meter_split_left_active),
            meter_split_left_overload: opt_view(self.meter_split_left_overload),
            meter_split_right_inactive: opt_view(self.meter_split_right_inactive),
            meter_split_right_inactive_overload: opt_view(self.meter_split_right_inactive_overload),
            meter_split_right_active: opt_view(self.meter_split_right_active),
            meter_split_right_overload: opt_view(self.meter_split_right_overload),
            meter_split_center_left_inactive: opt_view(self.meter_split_center_left_inactive),
            meter_split_center_left_active: opt_view(self.meter_split_center_left_active),
            meter_split_center_right_inactive: opt_view(self.meter_split_center_right_inactive),
            meter_split_center_right_active: opt_view(self.meter_split_center_right_active),
            dropdown_icon: self.dropdown_icon@,
            dropdown_selector: self.dropdown_selector@,
            dropdown_more: self.dropdown_more@,
            dropdown_border: self.dropdown_border,
            help_more: self.help_more@,
            help_border: self.help_border,
        }
    }
}

/// The built-in `default` character set.
pub open spec fn default_view() -> CharSetView {
    CharSetView {
        default_device: "◇"@,
        default_stream: "◇"@,
        hidden_instance: "[hide] "@,
        hidden_permanent: "[HIDE] "@,
        selector_top: "░"@,
        selector_middle: "▒"@,
        selector_bottom: "░"@,
        tab_marker_left: "["@,
        tab_marker_right: "]"@,
        list_more: "•••"@,
        divider: "─"@,
        volume_empty: "╌"@,
        volume_filled: "━"@,
        meter_left_inactive: "▮"@,
        meter_left_inactive_overload: "▮"@,
        meter_left_active: "▮"@,
        meter_left_overload: "▮"@,
        meter_right_inactive: "▮"@,
        meter_right_inactive_overload: "▮"@,
        meter_right_active: "▮"@,
        meter_right_overload: "▮"@,
        meter_center_left_inactive: "▮"@,
        meter_center_left_active: "▮"@,
        meter_center_right_inactive: "▮"@,
        meter_center_right_active: "▮"@,
        meter_split_left_inactive: None,
        meter_split_left_inactive_overload: None,
        meter_split_left_active: None,
        meter_split_left_overload: None,
        meter_split_right_inactive: None,
        meter_split_right_inactive_overload: None,
        meter_split_right_active: None,
        meter_split_right_overload: None,
        meter_split_center_left_inactive: None,
        meter_split_center_left_active: None,
        meter_split_center_right_inactive: None,
        meter_split_center_right_active: None,
        dropdown_icon: "▼"@,
        dropdown_selector: ">"@,
        dropdown_more: "•••"@,
        dropdown_border: BorderKind::Rounded,
        help_more: "•••"@,
        help_border: BorderKind::Rounded,
    }
}

/// The built-in `compat` character set.
pub open spec fn compat_view() -> CharSetView {
    CharSetView {
        default_device: "◊"@,
        default_stream: "◊"@,
        hidden_instance: "[hide] "@,
        hidden_permanent: "[HIDE] "@,
        selector_top: "░"@,
        selector_middle: "▒"@,
        selector_bottom: "░"@,
        tab_marker_left: "["@,
        tab_marker_right: "]"@,
        list_more: "•••"@,
        divider: "─"@,
        volume_empty: "─"@,
        volume_filled: "━"@,
        meter_left_inactive: "┃"@,
        meter_left_inactive_overload: "┃"@,
        meter_left_active: "┃"@,
        meter_left_overload: "┃"@,
        meter_right_inactive: "┃"@,
        meter_right_inactive_overload: "┃"@,
        meter_right_active: "┃"@,
        meter_right_overload: "┃"@,
        meter_center_left_inactive: "█"@,
        meter_center_left_active: "█"@,
        meter_center_right_inactive: "█"@,
        meter_center_right_active: "█"@,
        meter_split_left_inactive: Some("❘"@),
        meter_split_left_inactive_overload: Some("❘"@),
        meter_split_left_active: Some("❘"@),
        meter_split_left_overload: Some("❘"@),
        meter_split_right_inactive: Some("❘"@),
        meter_split_right_inactive_overload: Some("❘"@),
        meter_split_right_active: Some("❘"@),
        meter_split_right_overload: Some("❘"@),
        meter_split_center_left_inactive: Some("▇"@),
        meter_split_center_left_active: Some("▇"@),
        meter_split_center_right_inactive: Some("▇"@),
        meter_split_center_right_active: Some("▇"@),
        dropdown_icon: "▼"@,
        dropdown_selector: ">"@,
        dropdown_more: "•••"@,
        dropdown_border: BorderKind::Plain,
        help_more: "•••"@,
        help_border: BorderKind::Plain,
    }
}

/// The built-in `extracompat` character set.
pub open spec fn extracompat_view() -> CharSetView {
    CharSetView {
        default_device: "*"@,
        default_stream: "*"@,
        hidden_instance: "[hide] "@,
        hidden_permanent: "[HIDE] "@,
        selector_top: "-"@,
        selector_middle: "="@,
        selector_bottom: "-"@,
        tab_marker_left: "["@,
        tab_marker_right: "]"@,
        list_more: "~~~"@,
        divider: "-"@,
        volume_empty: "-"@,
        volume_filled: "="@,
        meter_left_inactive: "="@,
        meter_left_inactive_overload: "="@,
        meter_left_active: "#"@,
        meter_left_overload: "!"@,
        meter_right_inactive: "="@,
        meter_right_inactive_overload: "="@,
        meter_right_active: "#"@,
        meter_right_overload: "!"@,
        meter_center_left_inactive: "["@,
        meter_center_left_active: "["@,
        meter_center_right_inactive: "]"@,
        meter_center_right_active: "]"@,
        meter_split_left_inactive: None,
        meter_split_left_inactive_overload: None,
        meter_split_left_active: None,
        meter_split_left_overload: None,
        meter_split_right_inactive: None,
        meter_split_right_inactive_overload: None,
        meter_split_right_active: None,
        meter_split_right_overload: None,
        meter_split_center_left_inactive: None,
        meter_split_center_left_active: None,
        meter_split_center_right_inactive: None,
        meter_split_center_right_active: None,
        dropdown_icon: "\\"@,
        dropdown_selector: ">"@,
        dropdown_more: "~~~"@,
        dropdown_border: BorderKind::Plain,
        help_more: "~~~"@,
        help_border: BorderKind::Plain,
    }
}

/// The built-in `redshift_compat` character set.
pub open spec fn redshift_compat_view() -> CharSetView {
    CharSetView {
        default_device: "◊"@,
        default_stream: "◊"@,
        hidden_instance: "[hide] "@,
        hidden_permanent: "[HIDE] "@,
        selector_top: "█"@,
        selector_middle: "█"@,
        selector_bottom: "█"@,
        tab_marker_left: "["@,
        tab_marker_right: "]"@,
        list_more: "…"@,
        divider: "─"@,
        volume_empty: "─"@,
        volume_filled: "━"@,
        meter_left_inactive: "┃"@,
        meter_left_inactive_overload: "┃"@,
        meter_left_active: "┃"@,
        meter_left_overload: "┃"@,
        meter_right_inactive: "┃"@,
        meter_right_inactive_overload: "┃"@,
        meter_right_active: "┃"@,
        meter_right_overload: "┃"@,
        meter_center_left_inactive: "█"@,
        meter_center_left_active: "█"@,
        meter_center_right_inactive: "█"@,
        meter_center_right_active: "█"@,
        meter_split_left_inactive: Some("❘"@),
        meter_split_left_inactive_overload: Some("❘"@),
        meter_split_left_active: Some("❘"@),
        meter_split_left_overload: Some("❘"@),
        meter_split_right_inactive: Some("❘"@),
        meter_split_right_inactive_overload: Some("❘"@),
        meter_split_right_active: Some("❘"@),
        meter_split_right_overload: Some("❘"@),
        meter_split_center_left_inactive: Some("▇"@),
        meter_split_center_left_active: Some("▇"@),
        meter_split_center_right_inactive: Some("▇"@),
        meter_split_center_right_active: Some("▇"@),
        dropdown_icon: "▼"@,
        dropdown_selector: ">"@,
        dropdown_more: "…"@,
        dropdown_border: BorderKind::Plain,
        help_more: "…"@,
        help_border: BorderKind::Plain,
    }
}

/// The built-in character set called `name`, if there is one.
pub open spec fn builtin_view(name: Seq<char>) -> Option<CharSetView> {
    if name == "default"@ {
        Some(default_view())
    } else if name == "compat"@ {
        Some(compat_view())
    } else if name == "extracompat"@ {
        Some(extracompat_view())
    } else if name == "redshift_compat"@ {
        Some(redshift_compat_view())
    } else {
        None
    }
}

impl Default for CharSet {
    fn default() -> (r: Self)
        ensures
            r@ == default_view(),
    {
        Self {
            default_device: "◇".to_owned(),
            default_stream: "◇".to_owned(),
            hidden_instance: "[hide] ".to_owned(),
            hidden_permanent: "[HIDE] ".to_owned(),
            selector_top: "░".to_owned(),
            selector_middle: "▒".to_owned(),
            selector_bottom: "░".to_owned(),
            tab_marker_left: "[".to_owned(),
            tab_marker_right: "]".to_owned(),
            list_more: "•••".to_owned(),
            divider: "─".to_owned(),
            volume_empty: "╌".to_owned(),
            volume_filled: "━".to_owned(),
            meter_left_inactive: "▮".to_owned(),
            meter_left_inactive_overload: "▮".to_owned(),
            meter_left_active: "▮".to_owned(),
            meter_left_overload: "▮".to_owned(),
            meter_right_inactive: "▮".to_owned(),
            meter_right_inactive_overload: "▮".to_owned(),
            meter_right_active: "▮".to_owned(),
            meter_right_overload: "▮".to_owned(),
            meter_center_left_inactive: "▮".to_owned(),
            meter_center_left_active: "▮".to_owned(),
            meter_center_right_inactive: "▮".to_owned(),
            meter_center_right_active: "▮".to_owned(),
            meter_split_left_inactive: None,
            meter_split_left_inactive_overload: None,
            meter_split_left_active: None,
            meter_split_left_overload: None,
            meter_split_right_inactive: None,
            meter_split_right_inactive_overload: None,
            meter_split_right_active: None,
            meter_split_right_overload: None,
            meter_split_center_left_inactive: None,
            meter_split_center_left_active: None,
            meter_split_center_right_inactive: None,
            meter_split_center_right_active: None,
            dropdown_icon: "▼".to_owned(),
            dropdown_selector: ">".to_owned(),
            dropdown_more: "•••".to_owned(),
            dropdown_border: BorderKind::Rounded,
            help_more: "•••".to_owned(),
            help_border: BorderKind::Rounded,
        }
    }
}

impl CharSet {
    /// The built-in `compat` character set.
    pub fn compat() -> (r: Self)
        ensures
            r@ == compat_view(),
    {
        Self {
            default_device: "◊".to_owned(),
            default_stream: "◊".to_owned(),
            hidden_instance: "[hide] ".to_owned(),
            hidden_permanent: "[HIDE] ".to_owned(),
            selector_top: "░".to_owned(),
            selector_middle: "▒".to_owned(),
            selector_bottom: "░".to_owned(),
            tab_marker_left: "[".to_owned(),
            tab_marker_right: "]".to_owned(),
            list_more: "•••".to_owned(),
            divider: "─".to_owned(),
            volume_empty: "─".to_owned(),
            volume_filled: "━".to_owned(),
            meter_left_inactive: "┃".to_owned(),
            meter_left_inactive_overload: "┃".to_owned(),
            meter_left_active: "┃".to_owned(),
            meter_left_overload: "┃".to_owned(),
            meter_right_inactive: "┃".to_owned(),
            meter_right_inactive_overload: "┃".to_owned(),
            meter_right_active: "┃".to_owned(),
            meter_right_overload: "┃".to_owned(),
            meter_center_left_inactive: "█".to_owned(),
            meter_center_left_active: "█".to_owned(),
            meter_center_right_inactive: "█".to_owned(),
            meter_center_right_active: "█".to_owned(),
            meter_split_left_inactive: Some("❘".to_owned()),
            meter_split_left_inactive_overload: Some("❘".to_owned()),
            meter_split_left_active: Some("❘".to_owned()),
            meter_split_left_overload: Some("❘".to_owned()),
            meter_split_right_inactive: Some("❘".to_owned()),
            meter_split_right_inactive_overload: Some("❘".to_owned()),
            meter_split_right_active: Some("❘".to_owned()),
            meter_split_right_overload: Some("❘".to_owned()),
            meter_split_center_left_inactive: Some("▇".to_owned()),
            meter_split_center_left_active: Some("▇".to_owned()),
            meter_split_center_right_inactive: Some("▇".to_owned()),
            meter_split_center_right_active: Some("▇".to_owned()),
            dropdown_icon: "▼".to_owned(),
            dropdown_selector: ">".to_owned(),
            dropdown_more: "•••".to_owned(),
            dropdown_border: BorderKind::Plain,
            help_more: "•••".to_owned(),
            help_border: BorderKind::Plain,
        }
    }
}

impl CharSet {
    /// The built-in `extracompat` character set.
    pub fn extracompat() -> (r: Self)
        ensures
            r@ == extracompat_view(),
    {
        Self {
            default_device: "*".to_owned(),
            default_stream: "*".to_owned(),
            hidden_instance: "[hide] ".to_owned(),
            hidden_permanent: "[HIDE] ".to_owned(),
            selector_top: "-".to_owned(),
            selector_middle: "=".to_owned(),
            selector_bottom: "-".to_owned(),
            tab_marker_left: "[".to_owned(),
            tab_marker_right: "]".to_owned(),
            list_more: "~~~".to_owned(),
            divider: "-".to_owned(),
            volume_empty: "-".to_owned(),
            volume_filled: "=".to_owned(),
            meter_left_inactive: "=".to_owned(),
            meter_left_inactive_overload: "=".to_owned(),
            meter_left_active: "#".to_owned(),
            meter_left_overload: "!".to_owned(),
            meter_right_inactive: "=".to_owned(),
            meter_right_inactive_overload: "=".to_owned(),
            meter_right_active: "#".to_owned(),
            meter_right_overload: "!".to_owned(),
            meter_center_left_inactive: "[".to_owned(),
            meter_center_left_active: "[".to_owned(),
            meter_center_right_inactive: "]".to_owned(),
            meter_center_right_active: "]".to_owned(),
            meter_split_left_inactive: None,
            meter_split_left_inactive_overload: None,
            meter_split_left_active: None,
            meter_split_left_overload: None,
            meter_split_right_inactive: None,
            meter_split_right_inactive_overload: None,
            meter_split_right_active: None,
            meter_split_right_overload: None,
            meter_split_center_left_inactive: None,
            meter_split_center_left_active: None,
            meter_split_center_right_inactive: None,
            meter_split_center_right_active: None,
            dropdown_icon: "\\".to_owned(),
            dropdown_selector: ">".to_owned(),
            dropdown_more: "~~~".to_owned(),
            dropdown_border: BorderKind::Plain,
            help_more: "~~~".to_owned(),
            help_border: BorderKind::Plain,
        }
    }
}

impl CharSet {
    /// The built-in `redshift_compat` character set.
    pub fn redshift_compat() -> (r: Self)
        ensures
            r@ == redshift_compat_view(),
    {
        Self {
            default_device: "◊".to_owned(),
            default_stream: "◊".to_owned(),
            hidden_instance: "[hide] ".to_owned(),
            hidden_permanent: "[HIDE] ".to_owned(),
            selector_top: "█".to_owned(),
            selector_middle: "█".to_owned(),
            selector_bottom: "█".to_owned(),
            tab_marker_left: "[".to_owned(),
            tab_marker_right: "]".to_owned(),
            list_more: "…".to_owned(),
            divider: "─".to_owned(),
            volume_empty: "─".to_owned(),
            volume_filled: "━".to_owned(),
            meter_left_inactive: "┃".to_owned(),
            meter_left_inactive_overload: "┃".to_owned(),
            meter_left_active: "┃".to_owned(),
            meter_left_overload: "┃".to_owned(),
            meter_right_inactive: "┃".to_owned(),
            meter_right_inactive_overload: "┃".to_owned(),
            meter_right_active: "┃".to_owned(),
            meter_right_overload: "┃".to_owned(),
            meter_center_left_inactive: "█".to_owned(),
            meter_center_left_active: "█".to_owned(),
            meter_center_right_inactive: "█".to_owned(),
            meter_center_right_active: "█".to_owned(),
            meter_split_left_inactive: Some("❘".to_owned()),
            meter_split_left_inactive_overload: Some("❘".to_owned()),
            meter_split_left_active: Some("❘".to_owned()),
            meter_split_left_overload: Some("❘".to_owned()),
            meter_split_right_inactive: Some("❘".to_owned()),
            meter_split_right_inactive_overload: Some("❘".to_owned()),
            meter_split_right_active: Some("❘".to_owned()),
            meter_split_right_overload: Some("❘".to_owned()),
            meter_split_center_left_inactive: Some("▇".to_owned()),
            meter_split_center_left_active: Some("▇".to_owned()),
            meter_split_center_right_inactive: Some("▇".to_owned()),
            meter_split_center_right_active: Some("▇".to_owned()),
            dropdown_icon: "▼".to_owned(),
            dropdown_selector: ">".to_owned(),
            dropdown_more: "…".to_owned(),
            dropdown_border: BorderKind::Plain,
            help_more: "…".to_owned(),
            help_border: BorderKind::Plain,
        }
    }
}

/// A configured character set: each field that is set replaces the one
/// inherited from a built-in set (`default` unless `inherit` names another).
#[derive(Debug, Clone, Default)]
pub struct CharSetOverlay {
    pub inherit: Option<String>,
    pub default_device: Option<String>,
    pub default_stream: Option<String>,
    pub hidden_instance: Option<String>,
    pub hidden_permanent: Option<String>,
    pub selector_top: Option<String>,
    pub selector_middle: Option<String>,
    pub selector_bottom: Option<String>,
    pub tab_marker_left: Option<String>,
    pub tab_marker_right: Option<String>,
    pub list_more: Option<String>,
    pub divider: Option<String>,
    pub volume_empty: Option<String>,
    pub volume_filled: Option<String>,
    pub meter_left_inactive: Option<String>,
    pub meter_left_inactive_overload: Option<String>,
    pub meter_left_active: Option<String>,
    pub meter_left_overload: Option<String>,
    pub meter_right_inactive: Option<String>,
    pub meter_right_inactive_overload: Option<String>,
    pub meter_right_active: Option<String>,
    pub meter_right_overload: Option<String>,
    pub meter_center_left_inactive: Option<String>,
    pub meter_center_left_active: Option<String>,
    pub meter_center_right_inactive: Option<String>,
    pub meter_center_right_active: Option<String>,
    pub meter_split_left_inactive: Option<String>,
    pub meter_split_left_inactive_overload: Option<String>,
    pub meter_split_left_active: Option<String>,
    pub meter_split_left_overload: Option<String>,
    pub meter_split_right_inactive: Option<String>,
    pub meter_split_right_inactive_overload: Option<String>,
    pub meter_split_right_active: Option<String>,
    pub meter_split_right_overload: Option<String>,
    pub meter_split_center_left_inactive: Option<String>,
    pub meter_split_center_left_active: Option<String>,
    pub meter_split_center_right_inactive: Option<String>,
    pub meter_split_center_right_active: Option<String>,
    pub dropdown_icon: Option<String>,
    pub dropdown_selector: Option<String>,
    pub dropdown_more: Option<String>,
    pub dropdown_border: Option<BorderKind>,
    pub help_more: Option<String>,
    pub help_border: Option<BorderKind>,
}

/// One width check: the field's name, its configured value, and the width
/// it must have (`0` for any width).
pub type WidthCheck = (Seq<char>, Option<Seq<char>>, nat);

/// The width checks an overlay goes through, in the order they are made.
pub open spec fn width_checks(o: CharSetOverlay) -> Seq<WidthCheck> {
    seq![
        ("default_device"@, opt_view(o.default_device), 1nat),
        ("default_stream"@, opt_view(o.default_stream), 1nat),
        ("hidden_instance"@, opt_view(o.hidden_instance), 0nat),
        ("hidden_permanent"@, opt_view(o.hidden_permanent), 0nat),
        ("selector_top"@, opt_view(o.selector_top), 1nat),
        ("selector_middle"@, opt_view(o.selector_middle), 1nat),
        ("selector_bottom"@, opt_view(o.selector_bottom), 1nat),
        ("tab_marker_left"@, opt_view(o.tab_marker_left), 1nat),
        ("tab_marker_right"@, opt_view(o.tab_marker_right), 1nat),
        ("list_more"@, opt_view(o.list_more), 0nat),
        ("divider"@, opt_view(o.divider), 1nat),
        ("volume_empty"@, opt_view(o.volume_empty), 1nat),
        ("volume_filled"@, opt_view(o.volume_filled), 1nat),
        ("meter_left_inactive"@, opt_view(o.meter_left_inactive), 1nat),
        ("meter_left_inactive_overload"@, opt_view(o.meter_left_inactive_overload), 1nat),
        ("meter_left_active"@, opt_view(o.meter_left_active), 1nat),
        ("meter_left_overload"@, opt_view(o.meter_left_overload), 1nat),
        ("meter_right_inactive"@, opt_view(o.meter_right_inactive), 1nat),
        ("meter_right_inactive_overload"@, opt_view(o.meter_right_inactive_overload), 1nat),
        ("meter_right_active"@, opt_view(o.meter_right_active), 1nat),
        ("meter_right_overload"@, opt_view(o.meter_right_overload), 1nat),
        ("meter_center_left_inactive"@, opt_view(o.meter_center_left_inactive), 1nat),
        ("meter_center_left_active"@, opt_view(o.meter_center_left_active), 1nat),
        ("meter_center_right_inactive"@, opt_view(o.meter_center_right_inactive), 1nat),
        ("meter_center_right_active"@, opt_view(o.meter_center_right_active), 1nat),
        ("meter_split_left_inactive"@, opt_view(o.meter_split_left_inactive), 1nat),
        ("meter_split_left_inactive_overload"@, opt_view(o.meter_split_left_inactive_overload), 1nat),
        ("meter_split_left_active"@, opt_view(o.meter_split_left_active), 1nat),
        ("meter_split_left_overload"@, opt_view(o.meter_split_left_overload), 1nat),
        ("meter_split_right_inactive"@, opt_view(o.meter_split_right_inactive), 1nat),
        ("meter_split_right_inactive_overload"@, opt_view(o.meter_split_right_inactive_overload), 1nat),
        ("meter_split_right_active"@, opt_view(o.meter_split_right_active), 1nat),
        ("meter_split_right_overload"@, opt_view(o.meter_split_right_overload), 1nat),
        ("meter_split_center_left_inactive"@, opt_view(o.meter_split_center_left_inactive), 1nat),
        ("meter_split_center_left_active"@, opt_view(o.meter_split_center_left_active), 1nat),
        ("meter_split_center_right_inactive"@, opt_view(o.meter_split_center_right_inactive), 1nat),
        ("meter_split_center_right_active"@, opt_view(o.meter_split_center_right_active), 1nat),
        ("dropdown_icon"@, opt_view(o.dropdown_icon), 1nat),
        ("dropdown_selector"@, opt_view(o.dropdown_selector), 1nat),
        ("dropdown_more"@, opt_view(o.dropdown_more), 0nat),
        ("help_more"@, opt_view(o.help_more), 0nat),
    ]
}

/// A width check passes when the field is unset, unconstrained, or exactly
/// as wide as required.
pub open spec fn width_ok(c: WidthCheck) -> bool {
    c.1 is None || c.2 == 0 || display_width(c.1.unwrap()) == c.2
}

/// Every width check of the overlay passes.
pub open spec fn all_widths_ok(o: CharSetOverlay) -> bool {
    forall|k: int| 0 <= k < width_checks(o).len() ==> #[trigger] width_ok(width_checks(o)[k])
}

/// Check `k` is the first one of the overlay that fails.
pub open spec fn first_width_failure(o: CharSetOverlay, k: int) -> bool {
    &&& 0 <= k < width_checks(o).len()
    &&& !width_ok(width_checks(o)[k])
    &&& forall|j: int| 0 <= j < k ==> #[trigger] width_ok(width_checks(o)[j])
}

/// The built-in set an overlay starts from, if its `inherit` names one.
pub open spec fn overlay_base(o: CharSetOverlay) -> Option<CharSetView> {
    match o.inherit {
        Some(name) => builtin_view(name@),
        None => Some(default_view()),
    }
}

/// The character set an overlay describes on top of `base`.
pub open spec fn apply_overlay(base: CharSetView, o: CharSetOverlay) -> CharSetView {
    CharSetView {
        default_device: match o.default_device { Some(v) => v@, None => base.default_device },
        default_stream: match o.default_stream { Some(v) => v@, None => base.default_stream },
        hidden_instance: match o.hidden_instance { Some(v) => v@, None => base.hidden_instance },
        hidden_permanent: match o.hidden_permanent { Some(v) => v@, None => base.hidden_permanent },
        selector_top: match o.selector_top { Some(v) => v@, None => base.selector_top },
        selector_middle: match o.selector_middle { Some(v) => v@, None => base.selector_middle },
        selector_bottom: match o.selector_bottom { Some(v) => v@, None => base.selector_bottom },
        tab_marker_left: match o.tab_marker_left { Some(v) => v@, None => base.tab_marker_left },
        tab_marker_right: match o.tab_marker_right { Some(v) => v@, None => base.tab_marker_right },
        list_more: match o.list_more { Some(v) => v@, None => base.list_more },
        divider: match o.divider { Some(v) => v@, None => base.divider },
        volume_empty: match o.volume_empty { Some(v) => v@, None => base.volume_empty },
        volume_filled: match o.volume_filled { Some(v) => v@, None => base.volume_filled },
        meter_left_inactive: match o.meter_left_inactive { Some(v) => v@, None => base.meter_left_inactive },
        meter_left_inactive_overload: match o.meter_left_inactive_overload { Some(v) => v@, None => base.meter_left_inactive_overload },
        meter_left_active: match o.meter_left_active { Some(v) => v@, None => base.meter_left_active },
        meter_left_overload: match o.meter_left_overload { Some(v) => v@, None => base.meter_left_overload },
        meter_right_inactive: match o.meter_right_inactive { Some(v) => v@, None => base.meter_right_inactive },
        meter_right_inactive_overload: match o.meter_right_inactive_overload { Some(v) => v@, None => base.meter_right_inactive_overload },
        meter_right_active: match o.meter_right_active { Some(v) => v@, None => base.meter_right_active },
        meter_right_overload: match o.meter_right_overload { Some(v) => v@, None => base.meter_right_overload },
        meter_center_left_inactive: match o.meter_center_left_inactive { Some(v) => v@, None => base.meter_center_left_inactive },
        meter_center_left_active: match o.meter_center_left_active { Some(v) => v@, None => base.meter_center_left_active },
        meter_center_right_inactive: match o.meter_center_right_inactive { Some(v) => v@, None => base.meter_center_right_inactive },
        meter_center_right_active: match o.meter_center_right_active { Some(v) => v@, None => base.meter_center_right_active },
        meter_split_left_inactive: match o.meter_split_left_inactive { Some(v) => Some(v@), None => base.meter_split_left_inactive },
        meter_split_left_inactive_overload: match o.meter_split_left_inactive_overload { Some(v) => Some(v@), None => base.meter_split_left_inactive_overload },
        meter_split_left_active: match o.meter_split_left_active { Some(v) => Some(v@), None => base.meter_split_left_active },
        meter_split_left_overload: match o.meter_split_left_overload { Some(v) => Some(v@), None => base.meter_split_left_overload },
        meter_split_right_inactive: match o.meter_split_right_inactive { Some(v) => Some(v@), None => base.meter_split_right_inactive },
        meter_split_right_inactive_overload: match o.meter_split_right_inactive_overload { Some(v) => Some(v@), None => base.meter_split_right_inactive_overload },
        meter_split_right_active: match o.meter_split_right_active { Some(v) => Some(v@), None => base.meter_split_right_active },
        meter_split_right_overload: match o.meter_split_right_overload { Some(v) => Some(v@), None => base.meter_split_right_overload },
        meter_split_center_left_inactive: match o.meter_split_center_left_inactive { Some(v) => Some(v@), None => base.meter_split_center_left_inactive },
        meter_split_center_left_active: match o.meter_split_center_left_active { Some(v) => Some(v@), None => base.meter_split_center_left_active },
        meter_split_center_right_inactive: match o.meter_split_center_right_inactive { Some(v) => Some(v@), None => base.meter_split_center_right_inactive },
        meter_split_center_right_active: match o.meter_split_center_right_active { Some(v) => Some(v@), None => base.meter_split_center_right_active },
        dropdown_icon: match o.dropdown_icon { Some(v) => v@, None => base.dropdown_icon },
        dropdown_selector: match o.dropdown_selector { Some(v) => v@, None => base.dropdown_selector },
        dropdown_more: match o.dropdown_more { Some(v) => v@, None => base.dropdown_more },
        dropdown_border: match o.dropdown_border { Some(b) => b, None => base.dropdown_border },
        help_more: match o.help_more { Some(v) => v@, None => base.help_more },
        help_border: match o.help_border { Some(b) => b, None => base.help_border },
    }
}

/// The overlay is accepted: it inherits from a built-in set and passes
/// every width check.
#[verifier::opaque]
pub open spec fn overlay_accepted(o: CharSetOverlay) -> bool {
    overlay_base(o) is Some && all_widths_ok(o)
}

/// The character set an accepted overlay describes.
#[verifier::opaque]
pub open spec fn overlay_result(o: CharSetOverlay) -> CharSetView {
    apply_overlay(overlay_base(o).unwrap(), o)
}

/// `e` is the error a refused overlay is reported with: an unknown
/// `inherit`, or else the first failing width check.
#[verifier::opaque]
pub open spec fn is_overlay_error(o: CharSetOverlay, e: CharSetError) -> bool {
    match e {
        CharSetError::UnknownInherit(name) => o.inherit matches Some(i) && name@ == i@
            && builtin_view(i@) is None,
        CharSetError::WrongWidth { field, width } => overlay_base(o) is Some && exists|k: int|
            first_width_failure(o, k) && field@ == #[trigger] width_checks(o)[k].0 && width
                == width_checks(o)[k].2,
    }
}

/// Why a configured character set is refused.
#[derive(Debug, Clone, PartialEq, Eq)]
pub enum CharSetError {
    /// `inherit` names no built-in character set.
    UnknownInherit(String),
    /// A field is not as many columns wide as it must be.
    WrongWidth { field: String, width: usize },
}


/// `a` and `b` hold the same characters.
fn same_text(a: &str, b: &str) -> (r: bool)
    ensures
        r == (a@ == b@),
{
    a.to_owned() == b.to_owned()
}

impl CharSet {
    /// The built-in character set called `name`, if there is one.
    pub fn builtin(name: &str) -> (r: Option<CharSet>)
        ensures
            match builtin_view(name@) {
                Some(v) => r matches Some(c) && c@ == v,
                None => r is None,
            },
    {
        if same_text(name, "default") {
            Some(CharSet::default())
        } else if same_text(name, "compat") {
            Some(CharSet::compat())
        } else if same_text(name, "extracompat") {
            Some(CharSet::extracompat())
        } else if same_text(name, "redshift_compat") {
            Some(CharSet::redshift_compat())
        } else {
            None
        }
    }

    /// The first width check of `overlay` that fails, as the field's name
    /// and its required width.
    #[verifier::rlimit(100)]
    fn first_width_error(overlay: &CharSetOverlay) -> (r: Option<(String, usize)>)
        ensures
            match r {
                None => all_widths_ok(*overlay),
                Some((field, width)) => exists|k: int|
                    first_width_failure(*overlay, k) && field@ == #[trigger] width_checks(
                        *overlay,
                    )[k].0 && width == width_checks(*overlay)[k].2,
            },
    {
        let checks: Vec<(&str, Option<&String>, usize)> = vec![
            ("default_device", overlay.default_device.as_ref(), 1),
            ("default_stream", overlay.default_stream.as_ref(), 1),
            ("hidden_instance", overlay.hidden_instance.as_ref(), 0),
            ("hidden_permanent", overlay.hidden_permanent.as_ref(), 0),
            ("selector_top", overlay.selector_top.as_ref(), 1),
            ("selector_middle", overlay.selector_middle.as_ref(), 1),
            ("selector_bottom", overlay.selector_bottom.as_ref(), 1),
            ("tab_marker_left", overlay.tab_marker_left.as_ref(), 1),
            ("tab_marker_right", overlay.tab_marker_right.as_ref(), 1),
            ("list_more", overlay.list_more.as_ref(), 0),
            ("divider", overlay.divider.as_ref(), 1),
            ("volume_empty", overlay.volume_empty.as_ref(), 1),
            ("volume_filled", overlay.volume_filled.as_ref(), 1),
            ("meter_left_inactive", overlay.meter_left_inactive.as_ref(), 1),
            ("meter_left_inactive_overload", overlay.meter_left_inactive_overload.as_ref(), 1),
            ("meter_left_active", overlay.meter_left_active.as_ref(), 1),
            ("meter_left_overload", overlay.meter_left_overload.as_ref(), 1),
            ("meter_right_inactive", overlay.meter_right_inactive.as_ref(), 1),
            ("meter_right_inactive_overload", overlay.meter_right_inactive_overload.as_ref(), 1),
            ("meter_right_active", overlay.meter_right_active.as_ref(), 1),
            ("meter_right_overload", overlay.meter_right_overload.as_ref(), 1),
            ("meter_center_left_inactive", overlay.meter_center_left_inactive.as_ref(), 1),
            ("meter_center_left_active", overlay.meter_center_left_active.as_ref(), 1),
            ("meter_center_right_inactive", overlay.meter_center_right_inactive.as_ref(), 1),
            ("meter_center_right_active", overlay.meter_center_right_active.as_ref(), 1),
            ("meter_split_left_inactive", overlay.meter_split_left_inactive.as_ref(), 1),
            ("meter_split_left_inactive_overload", overlay.meter_split_left_inactive_overload.as_ref(), 1),
            ("meter_split_left_active", overlay.meter_split_left_active.as_ref(), 1),
            ("meter_split_left_overload", overlay.meter_split_left_overload.as_ref(), 1),
            ("meter_split_right_inactive", overlay.meter_split_right_inactive.as_ref(), 1),
            ("meter_split_right_inactive_overload", overlay.meter_split_right_inactive_overload.as_ref(), 1),
            ("meter_split_right_active", overlay.meter_split_right_active.as_ref(), 1),
            ("meter_split_right_overload", overlay.meter_split_right_overload.as_ref(), 1),
            ("meter_split_center_left_inactive", overlay.meter_split_center_left_inactive.as_ref(), 1),
            ("meter_split_center_left_active", overlay.meter_split_center_left_active.as_ref(), 1),
            ("meter_split_center_right_inactive", overlay.meter_split_center_right_inactive.as_ref(), 1),
            ("meter_split_center_right_active", overlay.meter_split_center_right_active.as_ref(), 1),
            ("dropdown_icon", overlay.dropdown_icon.as_ref(), 1),
            ("dropdown_selector", overlay.dropdown_selector.as_ref(), 1),
            ("dropdown_more", overlay.dropdown_more.as_ref(), 0),
            ("help_more", overlay.help_more.as_ref(), 0),
        ];
        let ghost spec_checks = width_checks(*overlay);
        proof {
            assert(checks@.len() == spec_checks.len());
            assert forall|i: int| 0 <= i < checks@.len() implies checks@[i].0@ == spec_checks[i].0
                && opt_ref_view(#[trigger] checks@[i].1) == spec_checks[i].1 && checks@[i].2
                == spec_checks[i].2 by {}
        }
        let mut k: usize = 0;
        while k < checks.len()
            invariant
                checks@.len() == spec_checks.len(),
                spec_checks == width_checks(*overlay),
                forall|i: int|
                    0 <= i < checks@.len() ==> checks@[i].0@ == spec_checks[i].0 && opt_ref_view(
                        #[trigger] checks@[i].1,
                    ) == spec_checks[i].1 && checks@[i].2 == spec_checks[i].2,
                k <= checks.len(),
                forall|j: int| 0 <= j < k ==> #[trigger] width_ok(spec_checks[j]),
            decreases checks.len() - k,
        {
            let (name, value, width) = checks[k];
            if let Some(v) = value {
                if width > 0 && span_width(v.as_str()) != width {
                    assert(first_width_failure(*overlay, k as int));
                    return Some((name.to_owned(), width));
                }
            }
            k += 1;
        }
        None
    }

    /// Checks `overlay` and applies it to the built-in set it inherits
    /// from. Fails when `inherit` names no built-in set, or else at the
    /// first field (in the order of `width_checks`) that is not as wide as
    /// it must be.
    pub fn try_from_overlay(overlay: CharSetOverlay) -> (r: Result<CharSet, CharSetError>)
        ensures
            match r {
                Ok(c) => overlay_accepted(overlay) && c@ == overlay_result(overlay),
                Err(e) => !overlay_accepted(overlay) && is_overlay_error(overlay, e),
            },
    {
        reveal(overlay_accepted);
        reveal(overlay_result);
        reveal(is_overlay_error);
        let base = match &overlay.inherit {
            Some(name) => match CharSet::builtin(name.as_str()) {
                Some(c) => c,
                None => {
                    return Err(CharSetError::UnknownInherit(name.clone()));
                },
            },
            None => CharSet::default(),
        };
        if let Some((field, width)) = CharSet::first_width_error(&overlay) {
            return Err(CharSetError::WrongWidth { field, width });
        }
        Ok(CharSet::apply(base, overlay))
    }

    /// `base` with every field that `overlay` sets replaced.
    fn apply(base: CharSet, overlay: CharSetOverlay) -> (r: CharSet)
        ensures
            r@ == apply_overlay(base@, overlay),
    {
        CharSet {
            default_device: pick(overlay.default_device, base.default_device),
            default_stream: pick(overlay.default_stream, base.default_stream),
            hidden_instance: pick(overlay.hidden_instance, base.hidden_instance),
            hidden_permanent: pick(overlay.hidden_permanent, base.hidden_permanent),
            selector_top: pick(overlay.selector_top, base.selector_top),
            selector_middle: pick(overlay.selector_middle, base.selector_middle),
            selector_bottom: pick(overlay.selector_bottom, base.selector_bottom),
            tab_marker_left: pick(overlay.tab_marker_left, base.tab_marker_left),
            tab_marker_right: pick(overlay.tab_marker_right, base.tab_marker_right),
            list_more: pick(overlay.list_more, base.list_more),
            divider: pick(overlay.divider, base.divider),
            volume_empty: pick(overlay.volume_empty, base.volume_empty),
            volume_filled: pick(overlay.volume_filled, base.volume_filled),
            meter_left_inactive: pick(overlay.meter_left_inactive, base.meter_left_inactive),
            meter_left_inactive_overload: pick(overlay.meter_left_inactive_overload, base.meter_left_inactive_overload),
            meter_left_active: pick(overlay.meter_left_active, base.meter_left_active),
            meter_left_overload: pick(overlay.meter_left_overload, base.meter_left_overload),
            meter_right_inactive: pick(overlay.meter_right_inactive, base.meter_right_inactive),
            meter_right_inactive_overload: pick(overlay.meter_right_inactive_overload, base.meter_right_inactive_overload),
            meter_right_active: pick(overlay.meter_right_active, base.meter_right_active),
            meter_right_overload: pick(overlay.meter_right_overload, base.meter_right_overload),
            meter_center_left_inactive: pick(overlay.meter_center_left_inactive, base.meter_center_left_inactive),
            meter_center_left_active: pick(overlay.meter_center_left_active, base.meter_center_left_active),
            meter_center_right_inactive: pick(overlay.meter_center_right_inactive, base.meter_center_right_inactive),
            meter_center_right_active: pick(overlay.meter_center_right_active, base.meter_center_right_active),
            meter_split_left_inactive: pick_opt(overlay.meter_split_left_inactive, base.meter_split_left_inactive),
            meter_split_left_inactive_overload: pick_opt(overlay.meter_split_left_inactive_overload, base.meter_split_left_inactive_overload),
            meter_split_left_active: pick_opt(overlay.meter_split_left_active, base.meter_split_left_active),
            meter_split_left_overload: pick_opt(overlay.meter_split_left_overload, base.meter_split_left_overload),
            meter_split_right_inactive: pick_opt(overlay.meter_split_right_inactive, base.meter_split_right_inactive),
            meter_split_right_inactive_overload: pick_opt(overlay.meter_split_right_inactive_overload, base.meter_split_right_inactive_overload),
            meter_split_right_active: pick_opt(overlay.meter_split_right_active, base.meter_split_right_active),
            meter_split_right_overload: pick_opt(overlay.meter_split_right_overload, base.meter_split_right_overload),
            meter_split_center_left_inactive: pick_opt(overlay.meter_split_center_left_inactive, base.meter_split_center_left_inactive),
            meter_split_center_left_active: pick_opt(overlay.meter_split_center_left_active, base.meter_split_center_left_active),
            meter_split_center_right_inactive: pick_opt(overlay.meter_split_center_right_inactive, base.meter_split_center_right_inactive),
            meter_split_center_right_active: pick_opt(overlay.meter_split_center_right_active, base.meter_split_center_right_active),
            dropdown_icon: pick(overlay.dropdown_icon, base.dropdown_icon),
            dropdown_selector: pick(overlay.dropdown_selector, base.dropdown_selector),
            dropdown_more: pick(overlay.dropdown_more, base.dropdown_more),
            dropdown_border: pick_border(overlay.dropdown_border, base.dropdown_border),
            help_more: pick(overlay.help_more, base.help_more),
            help_border: pick_border(overlay.help_border, base.help_border),
        }
    }
}

/// The configured value if there is one, else the inherited one.
fn pick(configured: Option<String>, inherited: String) -> (r: String)
    ensures
        r@ == (match configured {
            Some(v) => v@,
            None => inherited@,
        }),
{
    match configured {
        Some(v) => v,
        None => inherited,
    }
}

/// The configured value if there is one, else the inherited (possibly
/// unset) one.
fn pick_opt(configured: Option<String>, inherited: Option<String>) -> (r: Option<String>)
    ensures
        opt_view(r) == (match configured {
            Some(v) => Some(v@),
            None => opt_view(inherited),
        }),
{
    match configured {
        Some(v) => Some(v),
        None => inherited,
    }
}

/// The configured border if there is one, else the inherited one.
fn pick_border(configured: Option<BorderKind>, inherited: BorderKind) -> (r: BorderKind)
    ensures
        r == (match configured {
            Some(b) => b,
            None => inherited,
        }),
{
    match configured {
        Some(b) => b,
        None => inherited,
    }
}

/// The view of an optional borrowed string.
pub open spec fn opt_ref_view(s: Option<&String>) -> Option<Seq<char>> {
    match s {
        Some(s) => Some(s@),
        None => None,
    }
}

/// A set of named character sets, as a list of `(name, set)` entries.
pub type CharSetTable = Vec<(String, CharSet)>;

/// No two entries of the table share a name.
pub open spec fn names_distinct<T>(m: Seq<(String, T)>) -> bool {
    forall|a: int, b: int| 0 <= a < b < m.len() ==> #[trigger] m[a].0@ != #[trigger] m[b].0@
}

/// The table has an entry called `name`.
pub open spec fn table_has(m: Seq<(String, CharSet)>, name: Seq<char>) -> bool {
    exists|k: int| 0 <= k < m.len() && #[trigger] m[k].0@ == name
}

/// The table has an entry called `name` holding `v`.
pub open spec fn table_maps(m: Seq<(String, CharSet)>, name: Seq<char>, v: CharSetView) -> bool {
    exists|k: int| 0 <= k < m.len() && #[trigger] m[k].0@ == name && m[k].1@ == v
}

/// Some configured overlay is called `name`.
pub open spec fn configured_has(c: Seq<(String, CharSetOverlay)>, name: Seq<char>) -> bool {
    exists|k: int| 0 <= k < c.len() && #[trigger] c[k].0@ == name
}

/// The table `merge` builds from configured overlays: each configured set
/// under its own name, and each built-in set that was not configured
/// under its built-in name - and nothing else.
pub open spec fn is_merged_table(c: Seq<(String, CharSetOverlay)>, m: Seq<(String, CharSet)>) -> bool {
    &&& names_distinct(m)
    &&& forall|k: int|
        0 <= k < c.len() ==> table_maps(m, #[trigger] c[k].0@, overlay_result(c[k].1))
    &&& forall|name: Seq<char>|
        !configured_has(c, name) && #[trigger] builtin_view(name) is Some ==> table_maps(
            m,
            name,
            builtin_view(name).unwrap(),
        )
    &&& forall|name: Seq<char>|
        #[trigger] table_has(m, name) <==> (configured_has(c, name) || builtin_view(name) is Some)
}

/// The position of the entry called `name`, if the table has one.
pub fn find_char_set(m: &CharSetTable, name: &str) -> (r: Option<usize>)
    ensures
        match r {
            Some(k) => k < m@.len() && m@[k as int].0@ == name@,
            None => !table_has(m@, name@),
        },
{
    let mut k: usize = 0;
    while k < m.len()
        invariant
            k <= m@.len(),
            forall|j: int| 0 <= j < k ==> m@[j].0@ != name@,
        decreases m.len() - k,
    {
        if same_text(m[k].0.as_str(), name) {
            return Some(k);
        }
        k += 1;
    }
    None
}

impl CharSet {
    /// The built-in character sets, by name.
    pub fn defaults() -> (r: CharSetTable)
        ensures
            names_distinct(r@),
            forall|name: Seq<char>| #[trigger] table_has(r@, name) <==> builtin_view(name) is Some,
            forall|name: Seq<char>|
                #[trigger] builtin_view(name) is Some ==> table_maps(r@, name, builtin_view(name).unwrap()),
    {
        let r = CharSet::merge(Vec::new());
        match r {
            Ok(m) => {
                assert forall|name: Seq<char>| #[trigger] builtin_view(name) is Some implies table_maps(
                    m@,
                    name,
                    builtin_view(name).unwrap(),
                ) by {
                    assert(!configured_has(Seq::<(String, CharSetOverlay)>::empty(), name));
                }
                assert forall|name: Seq<char>| #[trigger] table_has(m@, name) <==> builtin_view(name) is Some by {
                    assert(!configured_has(Seq::<(String, CharSetOverlay)>::empty(), name));
                }
                m
            },
            Err(_) => Vec::new(),
        }
    }

    /// Checks and applies every configured overlay (in the given order,
    /// stopping at the first refused one), then adds each built-in set
    /// that was not configured under its own name.
    pub fn merge(configured: Vec<(String, CharSetOverlay)>) -> (r: Result<CharSetTable, CharSetError>)
        requires
            names_distinct(configured@),
        ensures
            match r {
                Ok(m) => all_accepted(configured@) && is_merged_table(configured@, m@),
                Err(e) => first_refused(configured@, e),
            },
    {
        let ghost c = configured@;
        let mut merged = accept_all(configured)?;
        add_builtin(&mut merged, "default", Ghost(c));
        add_builtin(&mut merged, "compat", Ghost(c));
        add_builtin(&mut merged, "extracompat", Ghost(c));
        add_builtin(&mut merged, "redshift_compat", Ghost(c));
        proof {
            assert forall|name: Seq<char>|
                !configured_has(c, name) && #[trigger] builtin_view(name) is Some implies table_maps(
                merged@,
                name,
                builtin_view(name).unwrap(),
            ) by {}
            assert forall|name: Seq<char>| #[trigger] table_has(merged@, name) <==> (configured_has(
                c,
                name,
            ) || builtin_view(name) is Some) by {}
        }
        Ok(merged)
    }
}

/// Every configured overlay is accepted.
pub open spec fn all_accepted(c: Seq<(String, CharSetOverlay)>) -> bool {
    forall|k: int| 0 <= k < c.len() ==> overlay_accepted(#[trigger] c[k].1)
}

/// `e` is the error of the first configured overlay that is refused.
pub open spec fn first_refused(c: Seq<(String, CharSetOverlay)>, e: CharSetError) -> bool {
    exists|k: int|
        0 <= k < c.len() && (forall|j: int| 0 <= j < k ==> overlay_accepted(#[trigger] c[j].1))
            && !overlay_accepted(#[trigger] c[k].1) && is_overlay_error(c[k].1, e)
}

/// The configured overlays, checked and applied, under their own names.
fn accept_all(configured: Vec<(String, CharSetOverlay)>) -> (r: Result<CharSetTable, CharSetError>)
    requires
        names_distinct(configured@),
    ensures
        match r {
            Ok(m) => all_accepted(configured@) && names_distinct(m@) && (forall|k: int|
                0 <= k < configured@.len() ==> table_maps(
                    m@,
                    #[trigger] configured@[k].0@,
                    overlay_result(configured@[k].1),
                )) && (forall|name: Seq<char>| #[trigger] table_has(m@, name) <==> configured_has(configured@, name)),
            Err(e) => first_refused(configured@, e),
        },
{
    let ghost c = configured@;
    let n = configured.len();
    let mut rest = configured;
    let mut merged: CharSetTable = Vec::new();
    let mut done: usize = 0;
    while rest.len() > 0
        invariant
            c == configured@,
            c.len() == n,
            names_distinct(c),
            done + rest@.len() == c.len(),
            rest@ == c.subrange(done as int, c.len() as int),
            merged@.len() == done,
            forall|k: int|
                0 <= k < done ==> merged@[k].0@ == c[k].0@ && overlay_accepted(#[trigger] c[k].1)
                    && merged@[k].1@ == overlay_result(c[k].1),
        decreases rest.len(),
    {
        assert(rest@[0] == c[done as int]);
        let (name, overlay) = rest.remove(0);
        match CharSet::try_from_overlay(overlay) {
            Ok(char_set) => {
                merged.push((name, char_set));
            },
            Err(e) => {
                assert(first_refused(c, e)) by {
                    assert(!overlay_accepted(c[done as int].1));
                }
                return Err(e);
            },
        }
        assert(rest@ =~= c.subrange(done + 1, c.len() as int));
        done += 1;
    }
    proof {
        assert forall|a: int, b: int| 0 <= a < b < merged@.len() implies #[trigger] merged@[a].0@
            != #[trigger] merged@[b].0@ by {
            assert(overlay_accepted(c[a].1));
            assert(overlay_accepted(c[b].1));
            assert(c[a].0@ != c[b].0@);
        }
        assert forall|k: int| 0 <= k < c.len() implies table_maps(
            merged@,
            #[trigger] c[k].0@,
            overlay_result(c[k].1),
        ) by {
            assert(merged@[k].0@ == c[k].0@);
        }
        assert forall|name: Seq<char>| #[trigger] table_has(merged@, name) <==> configured_has(c, name) by {
            if table_has(merged@, name) {
                let k = choose|k: int| 0 <= k < merged@.len() && #[trigger] merged@[k].0@ == name;
                assert(c[k].0@ == name);
            }
            if configured_has(c, name) {
                let k = choose|k: int| 0 <= k < c.len() && #[trigger] c[k].0@ == name;
                assert(merged@[k].0@ == name);
            }
        }
    }
    Ok(merged)
}

/// Adds the built-in set `name` to the table unless an entry of that name
/// is already there.
fn add_builtin(m: &mut CharSetTable, name: &str, Ghost(c): Ghost<Seq<(String, CharSetOverlay)>>)
    requires
        builtin_view(name@) is Some,
        names_distinct(old(m)@),
    ensures
        names_distinct(final(m)@),
        forall|n: Seq<char>| #[trigger] table_has(final(m)@, n) <==> (table_has(old(m)@, n) || n == name@),
        forall|n: Seq<char>, v: CharSetView| table_maps(old(m)@, n, v) ==> #[trigger] table_maps(final(m)@, n, v),
        !table_has(old(m)@, name@) ==> table_maps(final(m)@, name@, builtin_view(name@).unwrap()),
{
    match find_char_set(m, name) {
        Some(_) => {},
        None => {
            let b = CharSet::builtin(name);
            match b {
                Some(char_set) => {
                    let ghost old_m = m@;
                    m.push((name.to_owned(), char_set));
                    proof {
                        let len = old_m.len() as int;
                        assert(m@[len].0@ == name@);
                        assert forall|a: int, bb: int| 0 <= a < bb < m@.len() implies #[trigger] m@[a].0@
                            != #[trigger] m@[bb].0@ by {
                            if bb == len {
                                assert(old_m[a].0@ == m@[a].0@);
                            } else {
                                assert(old_m[a] == m@[a] && old_m[bb] == m@[bb]);
                            }
                        }
                        assert forall|n: Seq<char>| #[trigger] table_has(m@, n) <==> (table_has(old_m, n)
                            || n == name@) by {
                            if table_has(m@, n) {
                                let k = choose|k: int| 0 <= k < m@.len() && #[trigger] m@[k].0@ == n;
                                if k < len {
                                    assert(old_m[k] == m@[k]);
                                }
                            }
                            if table_has(old_m, n) {
                                let k = choose|k: int| 0 <= k < old_m.len() && #[trigger] old_m[k].0@ == n;
                                assert(old_m[k] == m@[k]);
                            }
                        }
                        assert forall|n: Seq<char>, v: CharSetView| table_maps(old_m, n, v) implies #[trigger] table_maps(
                            m@,
                            n,
                            v,
                        ) by {
                            let k = choose|k: int|
                                0 <= k < old_m.len() && #[trigger] old_m[k].0@ == n && old_m[k].1@ == v;
                            assert(old_m[k] == m@[k]);
                        }
                        assert(table_maps(m@, name@, builtin_view(name@).unwrap()));
                    }
                },
                None => {},
            }
        },
    }
}

/// An accepted overlay sets each glyph it gives and inherits every other
/// one from the built-in set it names (`default` without `inherit`).
pub proof fn lemma_overlay_sets_glyphs(o: CharSetOverlay)
    requires
        overlay_accepted(o),
    ensures
        ({
            let base = overlay_base(o).unwrap();
            let c = overlay_result(o);
            &&& (o.default_device matches Some(v) ==> c.default_device == v@)
            &&& (o.default_device is None ==> c.default_device == base.default_device)
            &&& (o.default_stream matches Some(v) ==> c.default_stream == v@)
            &&& (o.default_stream is None ==> c.default_stream == base.default_stream)
            &&& (o.hidden_instance matches Some(v) ==> c.hidden_instance == v@)
            &&& (o.hidden_instance is None ==> c.hidden_instance == base.hidden_instance)
            &&& (o.hidden_permanent matches Some(v) ==> c.hidden_permanent == v@)
            &&& (o.hidden_permanent is None ==> c.hidden_permanent == base.hidden_permanent)
            &&& (o.selector_top matches Some(v) ==> c.selector_top == v@)
            &&& (o.selector_top is None ==> c.selector_top == base.selector_top)
            &&& (o.selector_middle matches Some(v) ==> c.selector_middle == v@)
            &&& (o.selector_middle is None ==> c.selector_middle == base.selector_middle)
            &&& (o.selector_bottom matches Some(v) ==> c.selector_bottom == v@)
            &&& (o.selector_bottom is None ==> c.selector_bottom == base.selector_bottom)
            &&& (o.tab_marker_left matches Some(v) ==> c.tab_marker_left == v@)
            &&& (o.tab_marker_left is None ==> c.tab_marker_left == base.tab_marker_left)
            &&& (o.tab_marker_right matches Some(v) ==> c.tab_marker_right == v@)
            &&& (o.tab_marker_right is None ==> c.tab_marker_right == base.tab_marker_right)
            &&& (o.list_more matches Some(v) ==> c.list_more == v@)
            &&& (o.list_more is None ==> c.list_more == base.list_more)
            &&& (o.divider matches Some(v) ==> c.divider == v@)
            &&& (o.divider is None ==> c.divider == base.divider)
            &&& (o.volume_empty matches Some(v) ==> c.volume_empty == v@)
            &&& (o.volume_empty is None ==> c.volume_empty == base.volume_empty)
            &&& (o.volume_filled matches Some(v) ==> c.volume_filled == v@)
            &&& (o.volume_filled is None ==> c.volume_filled == base.volume_filled)
            &&& (o.meter_left_inactive matches Some(v) ==> c.meter_left_inactive == v@)
            &&& (o.meter_left_inactive is None ==> c.meter_left_inactive == base.meter_left_inactive)
            &&& (o.meter_left_inactive_overload matches Some(v) ==> c.meter_left_inactive_overload == v@)
            &&& (o.meter_left_inactive_overload is None ==> c.meter_left_inactive_overload == base.meter_left_inactive_overload)
            &&& (o.meter_left_active matches Some(v) ==> c.meter_left_active == v@)
            &&& (o.meter_left_active is None ==> c.meter_left_active == base.meter_left_active)
            &&& (o.meter_left_overload matches Some(v) ==> c.meter_left_overload == v@)
            &&& (o.meter_left_overload is None ==> c.meter_left_overload == base.meter_left_overload)
            &&& (o.meter_right_inactive matches Some(v) ==> c.meter_right_inactive == v@)
            &&& (o.meter_right_inactive is None ==> c.meter_right_inactive == base.meter_right_inactive)
            &&& (o.meter_right_inactive_overload matches Some(v) ==> c.meter_right_inactive_overload == v@)
            &&& (o.meter_right_inactive_overload is None ==> c.meter_right_inactive_overload == base.meter_right_inactive_overload)
            &&& (o.meter_right_active matches Some(v) ==> c.meter_right_active == v@)
            &&& (o.meter_right_active is None ==> c.meter_right_active == base.meter_right_active)
            &&& (o.meter_right_overload matches Some(v) ==> c.meter_right_overload == v@)
            &&& (o.meter_right_overload is None ==> c.meter_right_overload == base.meter_right_overload)
            &&& (o.meter_center_left_inactive matches Some(v) ==> c.meter_center_left_inactive == v@)
            &&& (o.meter_center_left_inactive is None ==> c.meter_center_left_inactive == base.meter_center_left_inactive)
            &&& (o.meter_center_left_active matches Some(v) ==> c.meter_center_left_active == v@)
            &&& (o.meter_center_left_active is None ==> c.meter_center_left_active == base.meter_center_left_active)
            &&& (o.meter_center_right_inactive matches Some(v) ==> c.meter_center_right_inactive == v@)
            &&& (o.meter_center_right_inactive is None ==> c.meter_center_right_inactive == base.meter_center_right_inactive)
            &&& (o.meter_center_right_active matches Some(v) ==> c.meter_center_right_active == v@)
            &&& (o.meter_center_right_active is None ==> c.meter_center_right_active == base.meter_center_right_active)
            &&& (o.meter_split_left_inactive matches Some(v) ==> c.meter_split_left_inactive == Some(v@))
            &&& (o.meter_split_left_inactive is None ==> c.meter_split_left_inactive == base.meter_split_left_inactive)
            &&& (o.meter_split_left_inactive_overload matches Some(v) ==> c.meter_split_left_inactive_overload == Some(v@))
            &&& (o.meter_split_left_inactive_overload is None ==> c.meter_split_left_inactive_overload == base.meter_split_left_inactive_overload)
            &&& (o.meter_split_left_active matches Some(v) ==> c.meter_split_left_active == Some(v@))
            &&& (o.meter_split_left_active is None ==> c.meter_split_left_active == base.meter_split_left_active)
            &&& (o.meter_split_left_overload matches Some(v) ==> c.meter_split_left_overload == Some(v@))
            &&& (o.meter_split_left_overload is None ==> c.meter_split_left_overload == base.meter_split_left_overload)
            &&& (o.meter_split_right_inactive matches Some(v) ==> c.meter_split_right_inactive == Some(v@))
            &&& (o.meter_split_right_inactive is None ==> c.meter_split_right_inactive == base.meter_split_right_inactive)
            &&& (o.meter_split_right_inactive_overload matches Some(v) ==> c.meter_split_right_inactive_overload == Some(v@))
            &&& (o.meter_split_right_inactive_overload is None ==> c.meter_split_right_inactive_overload == base.meter_split_right_inactive_overload)
            &&& (o.meter_split_right_active matches Some(v) ==> c.meter_split_right_active == Some(v@))
            &&& (o.meter_split_right_active is None ==> c.meter_split_right_active == base.meter_split_right_active)
            &&& (o.meter_split_right_overload matches Some(v) ==> c.meter_split_right_overload == Some(v@))
            &&& (o.meter_split_right_overload is None ==> c.meter_split_right_overload == base.meter_split_right_overload)
            &&& (o.meter_split_center_left_inactive matches Some(v) ==> c.meter_split_center_left_inactive == Some(v@))
            &&& (o.meter_split_center_left_inactive is None ==> c.meter_split_center_left_inactive == base.meter_split_center_left_inactive)
            &&& (o.meter_split_center_left_active matches Some(v) ==> c.meter_split_center_left_active == Some(v@))
            &&& (o.meter_split_center_left_active is None ==> c.meter_split_center_left_active == base.meter_split_center_left_active)
            &&& (o.meter_split_center_right_inactive matches Some(v) ==> c.meter_split_center_right_inactive == Some(v@))
            &&& (o.meter_split_center_right_inactive is None ==> c.meter_split_center_right_inactive == base.meter_split_center_right_inactive)
            &&& (o.meter_split_center_right_active matches Some(v) ==> c.meter_split_center_right_active == Some(v@))
            &&& (o.meter_split_center_right_active is None ==> c.meter_split_center_right_active == base.meter_split_center_right_active)
            &&& (o.dropdown_icon matches Some(v) ==> c.dropdown_icon == v@)
            &&& (o.dropdown_icon is None ==> c.dropdown_icon == base.dropdown_icon)
            &&& (o.dropdown_selector matches Some(v) ==> c.dropdown_selector == v@)
            &&& (o.dropdown_selector is None ==> c.dropdown_selector == base.dropdown_selector)
            &&& (o.dropdown_more matches Some(v) ==> c.dropdown_more == v@)
            &&& (o.dropdown_more is None ==> c.dropdown_more == base.dropdown_more)
            &&& (o.dropdown_border matches Some(b) ==> c.dropdown_border == b)
            &&& (o.dropdown_border is None ==> c.dropdown_border == base.dropdown_border)
            &&& (o.help_more matches Some(v) ==> c.help_more == v@)
            &&& (o.help_more is None ==> c.help_more == base.help_more)
            &&& (o.help_border matches Some(b) ==> c.help_border == b)
            &&& (o.help_border is None ==> c.help_border == base.help_border)
        }),
{
    reveal(overlay_accepted);
    reveal(overlay_result);
}

} // verus!
