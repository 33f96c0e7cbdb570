//! Mixer configuration: the settings the rest of the mixer reads, their
//! defaults, command-line overrides, and the checks that turn a parsed
//! configuration file into a `Config`.
pub mod char_set;
pub mod matching;
pub mod theme;



use vstd::prelude::*;

pub use crate::config::char_set::{find_char_set, BorderKind, CharSet, CharSetError, CharSetOverlay, CharSetTable};
pub use crate::config::matching::{MatchCondition, MatchValue, MatchValueError};
pub use crate::config::theme::{find_theme, Color, Style, Theme, ThemeError, ThemeOverlay, ThemeTable};



verus! {

/// Audio peak meters.
#[derive(Debug, Clone, Copy, PartialEq, Eq, Structural)]
pub enum Peaks {
    Off,
    Mono,
    Auto,
}

impl Default for Peaks {
    fn default() -> (r: Self)
        ensures
            r == Peaks::Auto,
    {
        Peaks::Auto
    }
}

/// Whether a node's volume is ever shown as more than one bar/row when
/// its setting is linked - "unified" (always one) or "always" (always
/// split, per `split_style`).
#[derive(Debug, Clone, Copy, PartialEq, Eq, Structural)]
pub enum ChannelDisplay {
    Unified,
    Always,
}

impl Default for ChannelDisplay {
    fn default() -> (r: Self)
        ensures
            r == ChannelDisplay::Unified,
    {
        ChannelDisplay::Unified
    }
}

/// How an imbalanced node is indicated while `channel_display` is
/// "unified".
#[derive(Debug, Clone, Copy, PartialEq, Eq, Structural)]
pub enum UnifiedImbalance {
    NoIndication,
    Cycle,
    Split,
}

impl Default for UnifiedImbalance {
    fn default() -> (r: Self)
        ensures
            r == UnifiedImbalance::NoIndication,
    {
        UnifiedImbalance::NoIndication
    }
}

/// Rendering style whenever a node's volume actually is split.
#[derive(Debug, Clone, Copy, PartialEq, Eq, Structural)]
pub enum SplitStyle {
    Radiating,
    Stacked,
}

impl Default for SplitStyle {
    fn default() -> (r: Self)
        ensures
            r == SplitStyle::Radiating,
    {
        SplitStyle::Radiating
    }
}

/// How a radiating pair row labels which physical pair it's showing.
#[derive(Debug, Clone, Copy, PartialEq, Eq, Structural)]
pub enum PairLabelStyle {
    Verbose,
    Short,
}

impl Default for PairLabelStyle {
    fn default() -> (r: Self)
        ensures
            r == PairLabelStyle::Verbose,
    {
        PairLabelStyle::Verbose
    }
}

/// One of the three high-level ways the object list can display and
/// target a node's volume - a convenience wrapper over `channel_mode`/
/// `channel_display`, derived from them rather than stored as separate
/// state. "unified" = `channel_mode = false`, `channel_display =
/// "unified"` (one collapsed bar/row). "linked" = `channel_mode = false`,
/// `channel_display = "always"` (always split, but volume keys still
/// adjust every channel together). "channels" = `channel_mode = true`
/// (always split, volume keys target only the cursored channel).
#[derive(Debug, Clone, Copy, PartialEq, Eq, PartialOrd, Structural)]
pub enum ChannelView {
    Unified,
    Linked,
    Channels,
}

impl Default for ChannelView {
    fn default() -> (r: Self)
        ensures
            r == ChannelView::Unified,
    {
        ChannelView::Unified
    }
}

/// Bundles the independent axes that decide how a node's volume is
/// displayed/set.
#[derive(Debug, Clone, Copy, PartialEq, Eq, Structural)]
pub struct ChannelState {
    pub channel_mode: bool,
    pub channel_display: ChannelDisplay,
    pub unified_imbalance: UnifiedImbalance,
    pub split_style: SplitStyle,
    pub pair_label_style: PairLabelStyle,
}

/// The `ChannelView` that the two setting axes amount to.
pub open spec fn view_of(channel_mode: bool, channel_display: ChannelDisplay) -> ChannelView {
    if channel_mode {
        ChannelView::Channels
    } else if channel_display == ChannelDisplay::Always {
        ChannelView::Linked
    } else {
        ChannelView::Unified
    }
}

impl ChannelState {
    /// The `ChannelView` this state amounts to - see `ChannelView`'s own
    /// doc comment for the exact mapping.
    pub fn view(&self) -> (v: ChannelView)
        ensures
            v == view_of(self.channel_mode, self.channel_display),
    {
        if self.channel_mode {
            ChannelView::Channels
        } else if self.channel_display == ChannelDisplay::Always {
            ChannelView::Linked
        } else {
            ChannelView::Unified
        }
    }
}

/// Kinds of objects a name override applies to.
#[derive(Debug, Clone, Copy, PartialEq, Eq, Structural)]
pub enum OverrideType {
    Stream,
    Endpoint,
    Device,
}

/// The tabs of the mixer.
#[derive(Debug, Clone, Copy, PartialEq, Eq, Structural)]
pub enum TabKind {
    Playback,
    Recording,
    Output,
    Input,
    Configuration,
}

impl Default for TabKind {
    fn default() -> (r: Self)
        ensures
            r == TabKind::Playback,
    {
        TabKind::Playback
    }
}

/// Default blank gap between a row's volume and meter sides.
pub fn default_gap() -> (r: u16)
    ensures
        r == 2,
{
    2
}

/// Default blank margin at a row's right edge.
pub fn default_right_margin() -> (r: u16)
    ensures
        r == 3,
{
    3
}

pub fn default_mouse() -> (r: bool)
    ensures
        r,
{
    true
}

pub fn default_peaks() -> (r: Option<Peaks>)
    ensures
        r == Some(Peaks::Auto),
{
    Some(Peaks::default())
}

pub fn default_tab() -> (r: Option<TabKind>)
    ensures
        r == Some(TabKind::Playback),
{
    Some(TabKind::default())
}

/// All tabs, in their default order.
pub open spec fn all_tabs() -> Seq<TabKind> {
    seq![
        TabKind::Playback,
        TabKind::Recording,
        TabKind::Output,
        TabKind::Input,
        TabKind::Configuration,
    ]
}

pub fn default_tabs() -> (r: Vec<TabKind>)
    ensures
        r@ == all_tabs(),
{
    let r = vec![
        TabKind::Playback,
        TabKind::Recording,
        TabKind::Output,
        TabKind::Input,
        TabKind::Configuration,
    ];
    assert(r@ =~= all_tabs());
    r
}

pub fn default_char_set_name() -> (r: String)
    ensures
        r@ == "default"@,
{
    "default".to_owned()
}

pub fn default_theme_name() -> (r: String)
    ensures
        r@ == "default"@,
{
    "default".to_owned()
}

pub fn default_enforce_max_volume() -> (r: bool)
    ensures
        !r,
{
    false
}

pub fn default_lenient_config() -> (r: bool)
    ensures
        !r,
{
    false
}

pub fn default_lazy_capture() -> (r: bool)
    ensures
        !r,
{
    false
}

pub fn default_show_dividers() -> (r: bool)
    ensures
        !r,
{
    false
}

pub fn default_compact_layout() -> (r: bool)
    ensures
        !r,
{
    false
}

pub fn default_capture_hidden() -> (r: bool)
    ensures
        r,
{
    true
}

pub fn default_row_selected_extend() -> (r: bool)
    ensures
        !r,
{
    false
}

pub fn default_channel_display() -> (r: Option<ChannelDisplay>)
    ensures
        r == Some(ChannelDisplay::Unified),
{
    Some(ChannelDisplay::default())
}

pub fn default_unified_imbalance() -> (r: Option<UnifiedImbalance>)
    ensures
        r == Some(UnifiedImbalance::NoIndication),
{
    Some(UnifiedImbalance::default())
}

pub fn default_split_style() -> (r: Option<SplitStyle>)
    ensures
        r == Some(SplitStyle::Radiating),
{
    Some(SplitStyle::default())
}

pub fn default_channel_mode() -> (r: bool)
    ensures
        !r,
{
    false
}

pub fn default_expand_unused_label_space() -> (r: bool)
    ensures
        r,
{
    true
}

pub fn default_expand_unpaired_channel_bars() -> (r: bool)
    ensures
        !r,
{
    false
}

pub fn default_pair_label_style() -> (r: Option<PairLabelStyle>)
    ensures
        r == Some(PairLabelStyle::Verbose),
{
    Some(PairLabelStyle::default())
}

/// All three views, in their default cycling order.
pub open spec fn all_views() -> Seq<ChannelView> {
    seq![ChannelView::Unified, ChannelView::Linked, ChannelView::Channels]
}

pub fn default_view_cycle() -> (r: Vec<ChannelView>)
    ensures
        r@ == all_views(),
{
    let r = vec![ChannelView::Unified, ChannelView::Linked, ChannelView::Channels];
    assert(r@ =~= all_views());
    r
}

} // verus!

verus! {

/// A named group of match conditions, as configured under `[[filters]]`.
#[derive(Debug, Clone)]
pub struct Filter {
    pub id: Option<String>,
    pub matches: Vec<MatchCondition>,
}

/// Command-line overrides of configuration settings. Each `no_x`/`x` flag
/// pair turns a setting off/on; `x` wins when both are given.
#[derive(Debug, Clone, Default)]
pub struct Opt {
    pub remote: Option<String>,
    pub char_set: Option<String>,
    pub theme: Option<String>,
    pub peaks: Option<Peaks>,
    pub no_mouse: bool,
    pub mouse: bool,
    pub tab: Option<TabKind>,
    pub tabs: Option<Vec<TabKind>>,
    pub no_enforce_max_volume: bool,
    pub enforce_max_volume: bool,
    pub no_lazy_capture: bool,
    pub lazy_capture: bool,
    pub no_show_dividers: bool,
    pub show_dividers: bool,
    pub no_compact_layout: bool,
    pub compact_layout: bool,
    pub no_lenient_config: bool,
    pub lenient_config: bool,
    pub max_concurrent_captures: Option<usize>,
    pub max_concurrent_captures_global: Option<usize>,
    pub no_capture_hidden: bool,
    pub capture_hidden: bool,
    pub channel_display: Option<ChannelDisplay>,
    pub unified_imbalance: Option<UnifiedImbalance>,
    pub split_style: Option<SplitStyle>,
    pub no_channel_mode: bool,
    pub channel_mode: bool,
    pub pair_label_style: Option<PairLabelStyle>,
}

/// A configuration as read from a file, before a character set and theme
/// are picked out of the configured ones and the settings are checked.
#[derive(Debug)]
pub struct ConfigFile {
    pub remote: Option<String>,
    pub mouse: bool,
    pub peaks: Option<Peaks>,
    pub char_set: String,
    pub theme: String,
    pub show_dividers: bool,
    pub compact_layout: bool,
    pub row_selected_extend_above: bool,
    pub row_selected_extend_below: bool,
    pub enforce_max_volume: bool,
    pub lenient_config: bool,
    pub char_sets: CharSetTable,
    pub themes: ThemeTable,
    pub tab: Option<TabKind>,
    pub tabs: Vec<TabKind>,
    pub lazy_capture: bool,
    pub max_concurrent_captures: Option<usize>,
    pub max_concurrent_captures_global: Option<usize>,
    pub capture_hidden: bool,
    pub channel_display: Option<ChannelDisplay>,
    pub unified_imbalance: Option<UnifiedImbalance>,
    pub split_style: Option<SplitStyle>,
    pub channel_mode: bool,
    pub pair_label_style: Option<PairLabelStyle>,
    pub view_cycle: Vec<ChannelView>,
    pub expand_unused_label_space: bool,
    pub expand_unpaired_channel_bars: bool,
    pub filters: Vec<Filter>,
}

/// A flag after a command line's `no_x`/`x` pair: `x` turns it on, `no_x`
/// off, and neither leaves it as configured.
pub open spec fn flag_after(configured: bool, off: bool, on: bool) -> bool {
    if on {
        true
    } else if off {
        false
    } else {
        configured
    }
}

/// An optional setting after a command-line override, if one was given.
pub open spec fn overridden<T>(configured: Option<T>, given: Option<T>) -> Option<T> {
    match given {
        Some(v) => Some(v),
        None => configured,
    }
}

/// A flag after a command line's `no_x`/`x` pair.
fn flag_value(configured: bool, off: bool, on: bool) -> (r: bool)
    ensures
        r == flag_after(configured, off, on),
{
    if on {
        true
    } else if off {
        false
    } else {
        configured
    }
}

/// An optional setting after a command-line override.
fn override_value<T: Copy>(configured: Option<T>, given: Option<T>) -> (r: Option<T>)
    ensures
        r == overridden(configured, given),
{
    match given {
        Some(v) => Some(v),
        None => configured,
    }
}

/// The configuration as the file gives it, once the command line has had
/// its say: every setting that `opt` gives replaces the configured one,
/// and nothing else changes.
pub open spec fn applied(old: ConfigFile, new: ConfigFile, opt: Opt) -> bool {
    &&& new.remote == overridden(old.remote, opt.remote)
    &&& new.char_set@ == (match opt.char_set {
        Some(c) => c@,
        None => old.char_set@,
    })
    &&& new.theme@ == (match opt.theme {
        Some(t) => t@,
        None => old.theme@,
    })
    &&& new.tabs@ == (match opt.tabs {
        Some(t) => t@,
        None => old.tabs@,
    })
    &&& new.char_sets == old.char_sets
    &&& new.themes == old.themes
    &&& new.view_cycle == old.view_cycle
    &&& new.filters == old.filters
    &&& settings_applied(old, new, opt)
}

/// The flags and plain settings part of `applied`.
pub open spec fn settings_applied(old: ConfigFile, new: ConfigFile, opt: Opt) -> bool {
    &&& new.mouse == flag_after(old.mouse, opt.no_mouse, opt.mouse)
    &&& new.peaks == overridden(old.peaks, opt.peaks)
    &&& new.show_dividers == flag_after(old.show_dividers, opt.no_show_dividers, opt.show_dividers)
    &&& new.compact_layout == flag_after(
        old.compact_layout,
        opt.no_compact_layout,
        opt.compact_layout,
    )
    &&& new.row_selected_extend_above == old.row_selected_extend_above
    &&& new.row_selected_extend_below == old.row_selected_extend_below
    &&& new.enforce_max_volume == flag_after(
        old.enforce_max_volume,
        opt.no_enforce_max_volume,
        opt.enforce_max_volume,
    )
    &&& new.lenient_config == flag_after(
        old.lenient_config,
        opt.no_lenient_config,
        opt.lenient_config,
    )
    &&& new.tab == overridden(old.tab, opt.tab)
    &&& new.lazy_capture == flag_after(old.lazy_capture, opt.no_lazy_capture, opt.lazy_capture)
    &&& new.max_concurrent_captures == overridden(
        old.max_concurrent_captures,
        opt.max_concurrent_captures,
    )
    &&& new.max_concurrent_captures_global == overridden(
        old.max_concurrent_captures_global,
        opt.max_concurrent_captures_global,
    )
    &&& new.capture_hidden == flag_after(
        old.capture_hidden,
        opt.no_capture_hidden,
        opt.capture_hidden,
    )
    &&& new.channel_display == overridden(old.channel_display, opt.channel_display)
    &&& new.unified_imbalance == overridden(old.unified_imbalance, opt.unified_imbalance)
    &&& new.split_style == overridden(old.split_style, opt.split_style)
    &&& new.channel_mode == flag_after(old.channel_mode, opt.no_channel_mode, opt.channel_mode)
    &&& new.pair_label_style == overridden(old.pair_label_style, opt.pair_label_style)
    &&& new.expand_unused_label_space == old.expand_unused_label_space
    &&& new.expand_unpaired_channel_bars == old.expand_unpaired_channel_bars
}

/// Whether the command line overrides nothing.
pub open spec fn overrides_nothing(opt: Opt) -> bool {
    &&& opt.remote is None
    &&& opt.char_set is None
    &&& opt.theme is None
    &&& opt.peaks is None
    &&& !opt.no_mouse && !opt.mouse
    &&& opt.tab is None
    &&& opt.tabs is None
    &&& !opt.no_enforce_max_volume && !opt.enforce_max_volume
    &&& !opt.no_lazy_capture && !opt.lazy_capture
    &&& !opt.no_show_dividers && !opt.show_dividers
    &&& !opt.no_compact_layout && !opt.compact_layout
    &&& !opt.no_lenient_config && !opt.lenient_config
    &&& opt.max_concurrent_captures is None
    &&& opt.max_concurrent_captures_global is None
    &&& !opt.no_capture_hidden && !opt.capture_hidden
    &&& opt.channel_display is None
    &&& opt.unified_imbalance is None
    &&& opt.split_style is None
    &&& !opt.no_channel_mode && !opt.channel_mode
    &&& opt.pair_label_style is None
}

/// A command line that overrides nothing leaves the configuration as the
/// file gives it.
pub proof fn lemma_no_override_keeps_file(old: ConfigFile, new: ConfigFile, opt: Opt)
    requires
        applied(old, new, opt),
        overrides_nothing(opt),
    ensures
        new.remote == old.remote,
        new.char_set@ == old.char_set@,
        new.theme@ == old.theme@,
        new.tabs@ == old.tabs@,
        new.char_sets == old.char_sets,
        new.themes == old.themes,
        new.view_cycle == old.view_cycle,
        new.filters == old.filters,
        new.mouse == old.mouse,
        new.peaks == old.peaks,
        new.show_dividers == old.show_dividers,
        new.compact_layout == old.compact_layout,
        new.row_selected_extend_above == old.row_selected_extend_above,
        new.row_selected_extend_below == old.row_selected_extend_below,
        new.enforce_max_volume == old.enforce_max_volume,
        new.lenient_config == old.lenient_config,
        new.tab == old.tab,
        new.lazy_capture == old.lazy_capture,
        new.max_concurrent_captures == old.max_concurrent_captures,
        new.max_concurrent_captures_global == old.max_concurrent_captures_global,
        new.capture_hidden == old.capture_hidden,
        new.channel_display == old.channel_display,
        new.unified_imbalance == old.unified_imbalance,
        new.split_style == old.split_style,
        new.channel_mode == old.channel_mode,
        new.pair_label_style == old.pair_label_style,
        new.expand_unused_label_space == old.expand_unused_label_space,
        new.expand_unpaired_channel_bars == old.expand_unpaired_channel_bars,
{
}

/// Each setting the command line gives replaces the configured one, and
/// each it leaves out stays as configured; of a `no_x`/`x` flag pair, `x`
/// turns the setting on (even with `no_x`), `no_x` alone turns it off.
pub proof fn lemma_given_settings_replace(old: ConfigFile, new: ConfigFile, opt: Opt)
    requires
        applied(old, new, opt),
    ensures
        opt.remote matches Some(v) ==> new.remote == Some(v),
        opt.remote is None ==> new.remote == old.remote,
        opt.peaks matches Some(v) ==> new.peaks == Some(v),
        opt.peaks is None ==> new.peaks == old.peaks,
        opt.tab matches Some(v) ==> new.tab == Some(v),
        opt.tab is None ==> new.tab == old.tab,
        opt.max_concurrent_captures matches Some(v) ==> new.max_concurrent_captures == Some(v),
        opt.max_concurrent_captures is None ==> new.max_concurrent_captures == old.max_concurrent_captures,
        opt.max_concurrent_captures_global matches Some(v) ==> new.max_concurrent_captures_global == Some(v),
        opt.max_concurrent_captures_global is None ==> new.max_concurrent_captures_global == old.max_concurrent_captures_global,
        opt.channel_display matches Some(v) ==> new.channel_display == Some(v),
        opt.channel_display is None ==> new.channel_display == old.channel_display,
        opt.unified_imbalance matches Some(v) ==> new.unified_imbalance == Some(v),
        opt.unified_imbalance is None ==> new.unified_imbalance == old.unified_imbalance,
        opt.split_style matches Some(v) ==> new.split_style == Some(v),
        opt.split_style is None ==> new.split_style == old.split_style,
        opt.pair_label_style matches Some(v) ==> new.pair_label_style == Some(v),
        opt.pair_label_style is None ==> new.pair_label_style == old.pair_label_style,
        opt.char_set matches Some(v) ==> new.char_set@ == v@,
        opt.char_set is None ==> new.char_set@ == old.char_set@,
        opt.theme matches Some(v) ==> new.theme@ == v@,
        opt.theme is None ==> new.theme@ == old.theme@,
        opt.tabs matches Some(v) ==> new.tabs@ == v@,
        opt.tabs is None ==> new.tabs@ == old.tabs@,
        opt.mouse ==> new.mouse,
        opt.no_mouse && !opt.mouse ==> !new.mouse,
        !opt.no_mouse && !opt.mouse ==> new.mouse == old.mouse,
        opt.enforce_max_volume ==> new.enforce_max_volume,
        opt.no_enforce_max_volume && !opt.enforce_max_volume ==> !new.enforce_max_volume,
        !opt.no_enforce_max_volume && !opt.enforce_max_volume ==> new.enforce_max_volume == old.enforce_max_volume,
        opt.lazy_capture ==> new.lazy_capture,
        opt.no_lazy_capture && !opt.lazy_capture ==> !new.lazy_capture,
        !opt.no_lazy_capture && !opt.lazy_capture ==> new.lazy_capture == old.lazy_capture,
        opt.show_dividers ==> new.show_dividers,
        opt.no_show_dividers && !opt.show_dividers ==> !new.show_dividers,
        !opt.no_show_dividers && !opt.show_dividers ==> new.show_dividers == old.show_dividers,
        opt.compact_layout ==> new.compact_layout,
        opt.no_compact_layout && !opt.compact_layout ==> !new.compact_layout,
        !opt.no_compact_layout && !opt.compact_layout ==> new.compact_layout == old.compact_layout,
        opt.lenient_config ==> new.lenient_config,
        opt.no_lenient_config && !opt.lenient_config ==> !new.lenient_config,
        !opt.no_lenient_config && !opt.lenient_config ==> new.lenient_config == old.lenient_config,
        opt.capture_hidden ==> new.capture_hidden,
        opt.no_capture_hidden && !opt.capture_hidden ==> !new.capture_hidden,
        !opt.no_capture_hidden && !opt.capture_hidden ==> new.capture_hidden == old.capture_hidden,
        opt.channel_mode ==> new.channel_mode,
        opt.no_channel_mode && !opt.channel_mode ==> !new.channel_mode,
        !opt.no_channel_mode && !opt.channel_mode ==> new.channel_mode == old.channel_mode,
{
}

/// A copy of a list of tabs.
fn copy_tabs(tabs: &Vec<TabKind>) -> (r: Vec<TabKind>)
    ensures
        r@ == tabs@,
{
    let mut r: Vec<TabKind> = Vec::new();
    let mut i: usize = 0;
    while i < tabs.len()
        invariant
            i <= tabs@.len(),
            r@ == tabs@.subrange(0, i as int),
        decreases tabs.len() - i,
    {
        r.push(tabs[i]);
        i += 1;
        assert(r@ =~= tabs@.subrange(0, i as int));
    }
    assert(r@ =~= tabs@);
    r
}

/// A configuration file that sets nothing (see `ConfigFile::defaults`).
pub open spec fn is_default_file(r: ConfigFile, filters: Vec<Filter>) -> bool {
    &&& r.remote is None
    &&& r.mouse
    &&& r.peaks == Some(Peaks::Auto)
    &&& r.char_set@ == "default"@
    &&& r.theme@ == "default"@
    &&& !r.show_dividers
    &&& !r.compact_layout
    &&& !r.row_selected_extend_above
    &&& !r.row_selected_extend_below
    &&& !r.enforce_max_volume
    &&& !r.lenient_config
    &&& char_set::names_distinct(r.char_sets@)
    &&& forall|name: Seq<char>| #[trigger]
            char_set::table_has(r.char_sets@, name) <==> char_set::builtin_view(name) is Some
    &&& forall|name: Seq<char>| #[trigger]
            char_set::builtin_view(name) is Some ==> char_set::table_maps(
                r.char_sets@,
                name,
                char_set::builtin_view(name).unwrap(),
            )
    &&& theme::names_distinct(r.themes@)
    &&& forall|name: Seq<char>| #[trigger]
            theme::table_has(r.themes@, name) <==> theme::builtin_theme(name) is Some
    &&& forall|name: Seq<char>| #[trigger]
            theme::builtin_theme(name) is Some ==> theme::table_maps(
                r.themes@,
                name,
                theme::builtin_theme(name).unwrap(),
            )
    &&& r.tab == Some(TabKind::Playback)
    &&& r.tabs@ == all_tabs()
    &&& !r.lazy_capture
    &&& r.max_concurrent_captures is None
    &&& r.max_concurrent_captures_global is None
    &&& r.capture_hidden
    &&& r.channel_display == Some(ChannelDisplay::Unified)
    &&& r.unified_imbalance == Some(UnifiedImbalance::NoIndication)
    &&& r.split_style == Some(SplitStyle::Radiating)
    &&& !r.channel_mode
    &&& r.pair_label_style == Some(PairLabelStyle::Verbose)
    &&& r.view_cycle@ == all_views()
    &&& r.expand_unused_label_space
    &&& !r.expand_unpaired_channel_bars
    &&& r.filters == filters
}

impl ConfigFile {
    /// The configuration of a file that sets nothing: every setting at its
    /// default, the built-in character sets and themes, and `filters` as
    /// the default filters.
    pub fn defaults(filters: Vec<Filter>) -> (r: ConfigFile)
        ensures
            is_default_file(r, filters),
    {
        ConfigFile {
            remote: None,
            mouse: default_mouse(),
            peaks: default_peaks(),
            char_set: default_char_set_name(),
            theme: default_theme_name(),
            show_dividers: default_show_dividers(),
            compact_layout: default_compact_layout(),
            row_selected_extend_above: default_row_selected_extend(),
            row_selected_extend_below: default_row_selected_extend(),
            enforce_max_volume: default_enforce_max_volume(),
            lenient_config: default_lenient_config(),
            char_sets: CharSet::defaults(),
            themes: Theme::defaults(),
            tab: default_tab(),
            tabs: default_tabs(),
            lazy_capture: default_lazy_capture(),
            max_concurrent_captures: None,
            max_concurrent_captures_global: None,
            capture_hidden: default_capture_hidden(),
            channel_display: default_channel_display(),
            unified_imbalance: default_unified_imbalance(),
            split_style: default_split_style(),
            channel_mode: default_channel_mode(),
            pair_label_style: default_pair_label_style(),
            view_cycle: default_view_cycle(),
            expand_unused_label_space: default_expand_unused_label_space(),
            expand_unpaired_channel_bars: default_expand_unpaired_channel_bars(),
            filters,
        }
    }
}

impl ConfigFile {
    /// Overrides configuration with command-line arguments.
    pub fn apply_opt(&mut self, opt: &Opt)
        ensures
            applied(*old(self), *final(self), *opt),
    {
        let mut file = ConfigFile::placeholder();
        std::mem::swap(self, &mut file);
        *self = file.with_opt(opt);
    }

    /// An empty configuration file, to stand in while one is rebuilt.
    fn placeholder() -> (r: ConfigFile)
        ensures
            r.remote is None,
            !r.mouse,
            r.peaks is None,
            r.char_set@.len() == 0,
            r.theme@.len() == 0,
            !r.show_dividers,
            !r.compact_layout,
            !r.row_selected_extend_above,
            !r.row_selected_extend_below,
            !r.enforce_max_volume,
            !r.lenient_config,
            r.char_sets@.len() == 0,
            r.themes@.len() == 0,
            r.tab is None,
            r.tabs@.len() == 0,
            !r.lazy_capture,
            r.max_concurrent_captures is None,
            r.max_concurrent_captures_global is None,
            !r.capture_hidden,
            r.channel_display is None,
            r.unified_imbalance is None,
            r.split_style is None,
            !r.channel_mode,
            r.pair_label_style is None,
            r.view_cycle@.len() == 0,
            !r.expand_unused_label_space,
            !r.expand_unpaired_channel_bars,
            r.filters@.len() == 0,
    {
        ConfigFile {
            remote: None,
            mouse: false,
            peaks: None,
            char_set: String::new(),
            theme: String::new(),
            show_dividers: false,
            compact_layout: false,
            row_selected_extend_above: false,
            row_selected_extend_below: false,
            enforce_max_volume: false,
            lenient_config: false,
            char_sets: Vec::new(),
            themes: Vec::new(),
            tab: None,
            tabs: Vec::new(),
            lazy_capture: false,
            max_concurrent_captures: None,
            max_concurrent_captures_global: None,
            capture_hidden: false,
            channel_display: None,
            unified_imbalance: None,
            split_style: None,
            channel_mode: false,
            pair_label_style: None,
            view_cycle: Vec::new(),
            expand_unused_label_space: false,
            expand_unpaired_channel_bars: false,
            filters: Vec::new(),
        }
    }

    /// This configuration with `opt`'s overrides applied.
    fn with_opt(self, opt: &Opt) -> (r: ConfigFile)
        ensures
            applied(self, r, *opt),
    {
        ConfigFile {
            remote: match &opt.remote {
                Some(remote) => Some(remote.clone()),
                None => self.remote,
            },
            mouse: flag_value(self.mouse, opt.no_mouse, opt.mouse),
            peaks: override_value(self.peaks, opt.peaks),
            char_set: match &opt.char_set {
                Some(char_set) => char_set.clone(),
                None => self.char_set,
            },
            theme: match &opt.theme {
                Some(theme) => theme.clone(),
                None => self.theme,
            },
            show_dividers: flag_value(self.show_dividers, opt.no_show_dividers, opt.show_dividers),
            compact_layout: flag_value(
                self.compact_layout,
                opt.no_compact_layout,
                opt.compact_layout,
            ),
            row_selected_extend_above: self.row_selected_extend_above,
            row_selected_extend_below: self.row_selected_extend_below,
            enforce_max_volume: flag_value(
                self.enforce_max_volume,
                opt.no_enforce_max_volume,
                opt.enforce_max_volume,
            ),
            lenient_config: flag_value(
                self.lenient_config,
                opt.no_lenient_config,
                opt.lenient_config,
            ),
            char_sets: self.char_sets,
            themes: self.themes,
            tab: override_value(self.tab, opt.tab),
            tabs: match &opt.tabs {
                Some(tabs) => copy_tabs(tabs),
                None => self.tabs,
            },
            lazy_capture: flag_value(self.lazy_capture, opt.no_lazy_capture, opt.lazy_capture),
            max_concurrent_captures: override_value(
                self.max_concurrent_captures,
                opt.max_concurrent_captures,
            ),
            max_concurrent_captures_global: override_value(
                self.max_concurrent_captures_global,
                opt.max_concurrent_captures_global,
            ),
            capture_hidden: flag_value(
                self.capture_hidden,
                opt.no_capture_hidden,
                opt.capture_hidden,
            ),
            channel_display: override_value(self.channel_display, opt.channel_display),
            unified_imbalance: override_value(self.unified_imbalance, opt.unified_imbalance),
            split_style: override_value(self.split_style, opt.split_style),
            channel_mode: flag_value(self.channel_mode, opt.no_channel_mode, opt.channel_mode),
            pair_label_style: override_value(self.pair_label_style, opt.pair_label_style),
            view_cycle: self.view_cycle,
            expand_unused_label_space: self.expand_unused_label_space,
            expand_unpaired_channel_bars: self.expand_unpaired_channel_bars,
            filters: self.filters,
        }
    }
}

/// The settings the mixer runs with.
#[derive(Debug)]
pub struct Config {
    pub remote: Option<String>,
    pub mouse: bool,
    pub peaks: Peaks,
    pub char_set: CharSet,
    pub theme: Theme,
    pub show_dividers: bool,
    pub compact_layout: bool,
    pub row_selected_extend_above: bool,
    pub row_selected_extend_below: bool,
    pub enforce_max_volume: bool,
    /// Index into `tabs` of the tab shown first.
    pub tab: usize,
    pub tabs: Vec<TabKind>,
    pub lazy_capture: bool,
    pub max_concurrent_captures: Option<usize>,
    pub max_concurrent_captures_global: Option<usize>,
    pub capture_hidden: bool,
    pub channel_display: ChannelDisplay,
    pub unified_imbalance: UnifiedImbalance,
    pub split_style: SplitStyle,
    pub channel_mode: bool,
    pub pair_label_style: PairLabelStyle,
    /// Which `ChannelView`s cycling steps through, and in what order.
    /// Never empty.
    pub view_cycle: Vec<ChannelView>,
    pub expand_unused_label_space: bool,
    pub expand_unpaired_channel_bars: bool,
    pub filters: Vec<MatchCondition>,
}

/// Why a configuration is refused.
#[derive(Debug, Clone, PartialEq, Eq)]
pub enum ConfigError {
    /// `char_set` names no configured or built-in character set.
    UnknownCharSet(String),
    /// `theme` names no configured or built-in theme.
    UnknownTheme(String),
    /// A numeric setting is out of range; the message says which.
    OutOfRange(String),
    /// `tabs` is empty.
    EmptyTabs,
    /// `view_cycle` is empty.
    EmptyViewCycle,
    /// The initial tab is not one of `tabs`.
    TabNotInTabs,
}

/// All the match conditions of the filters, filter by filter.
pub open spec fn filter_conditions(filters: Seq<Filter>) -> Seq<MatchCondition>
    decreases filters.len(),
{
    if filters.len() == 0 {
        Seq::empty()
    } else {
        filter_conditions(filters.drop_last()) + filters.last().matches@
    }
}

/// The first position of `tab` in `tabs`, if it occurs.
pub open spec fn first_position(tabs: Seq<TabKind>, tab: TabKind) -> Option<int> {
    if exists|i: int| 0 <= i < tabs.len() && tabs[i] == tab {
        Some(choose|i: int| 0 <= i < tabs.len() && tabs[i] == tab && forall|j: int| 0 <= j < i ==> tabs[j] != tab)
    } else {
        None
    }
}

/// The tab shown first: the configured one, `playback` if unset.
pub open spec fn initial_tab(tab: Option<TabKind>) -> TabKind {
    match tab {
        Some(t) => t,
        None => TabKind::Playback,
    }
}

/// What `Config::try_from_file` reports for a file: the first failing
/// check, in order - the character set, the theme, the numeric settings
/// (whose verdict is `numeric_error`), `tabs`, `view_cycle`, the initial
/// tab - or `None` when every check passes.
pub open spec fn config_error(f: ConfigFile, numeric_error: Option<String>) -> Option<ConfigError> {
    if !char_set::table_has(f.char_sets@, f.char_set@) {
        Some(ConfigError::UnknownCharSet(f.char_set))
    } else if !theme::table_has(f.themes@, f.theme@) {
        Some(ConfigError::UnknownTheme(f.theme))
    } else if numeric_error is Some {
        Some(ConfigError::OutOfRange(numeric_error.unwrap()))
    } else if f.tabs@.len() == 0 {
        Some(ConfigError::EmptyTabs)
    } else if f.view_cycle@.len() == 0 {
        Some(ConfigError::EmptyViewCycle)
    } else if first_position(f.tabs@, initial_tab(f.tab)) is None {
        Some(ConfigError::TabNotInTabs)
    } else {
        None
    }
}

/// The first index of `tab` in `tabs`, if any.
fn position_of(tabs: &Vec<TabKind>, tab: TabKind) -> (r: Option<usize>)
    ensures
        match r {
            Some(i) => first_position(tabs@, tab) == Some(i as int) && i < tabs@.len(),
            None => first_position(tabs@, tab) is None,
        },
{
    let mut i: usize = 0;
    while i < tabs.len()
        invariant
            i <= tabs@.len(),
            forall|j: int| 0 <= j < i ==> tabs@[j] != tab,
        decreases tabs.len() - i,
    {
        if tabs[i] == tab {
            proof {
                assert(0 <= i < tabs@.len() && tabs@[i as int] == tab && forall|j: int|
                    0 <= j < i ==> tabs@[j] != tab);
                let w = choose|w: int|
                    0 <= w < tabs@.len() && tabs@[w] == tab && forall|j: int|
                        0 <= j < w ==> tabs@[j] != tab;
                if w < i {
                    assert(tabs@[w] != tab);
                } else if w > i {
                    assert(tabs@[i as int] != tab);
                }
            }
            return Some(i);
        }
        i += 1;
    }
    None
}

/// All the match conditions of `filters`, in order.
fn collect_conditions(filters: Vec<Filter>) -> (r: Vec<MatchCondition>)
    ensures
        r@ == filter_conditions(filters@),
{
    let ghost fs = filters@;
    let n = filters.len();
    let mut rest = filters;
    let mut done: usize = 0;
    let mut r: Vec<MatchCondition> = Vec::new();
    while rest.len() > 0
        invariant
            fs.len() == n,
            done + rest@.len() == fs.len(),
            rest@ == fs.subrange(done as int, fs.len() as int),
            r@ == filter_conditions(fs.subrange(0, done as int)),
        decreases rest.len(),
    {
        assert(rest@[0] == fs[done as int]);
        let filter = rest.remove(0);
        let ghost before = r@;
        let mut matches = filter.matches;
        let ghost ms = matches@;
        let m_len = matches.len();
        let mut k: usize = 0;
        while matches.len() > 0
            invariant
                ms.len() == m_len,
                k + matches@.len() == ms.len(),
                matches@ == ms.subrange(k as int, ms.len() as int),
                r@ == before + ms.subrange(0, k as int),
            decreases matches.len(),
        {
            assert(matches@[0] == ms[k as int]);
            let m = matches.remove(0);
            r.push(m);
            assert(matches@ =~= ms.subrange(k + 1, ms.len() as int));
            assert(r@ =~= before + ms.subrange(0, k + 1));
            k += 1;
        }
        assert(ms.subrange(0, k as int) =~= ms);
        assert(fs.subrange(0, done + 1).drop_last() =~= fs.subrange(0, done as int));
        assert(rest@ =~= fs.subrange(done + 1, fs.len() as int));
        done += 1;
    }
    assert(fs.subrange(0, done as int) =~= fs);
    r
}

impl Config {
    /// Turns a configuration file (with command-line overrides already
    /// applied) into the settings the mixer runs with: picks the named
    /// character set and theme out of the configured ones, takes
    /// `numeric_error` as the verdict on the numeric settings this library
    /// does not hold, and checks `tabs`, `view_cycle` and the initial tab -
    /// reporting the first check that fails (see `config_error`).
    pub fn try_from_file(config_file: ConfigFile, numeric_error: Option<String>) -> (r: Result<Config, ConfigError>)
        requires
            char_set::names_distinct(config_file.char_sets@),
            theme::names_distinct(config_file.themes@),
        ensures
            match r {
                Err(e) => config_error(config_file, numeric_error) == Some(e),
                Ok(c) => {
                    &&& config_error(config_file, numeric_error) is None
                    &&& char_set::table_maps(config_file.char_sets@, config_file.char_set@, c.char_set@)
                    &&& theme::table_maps(config_file.themes@, config_file.theme@, c.theme)
                    &&& Some(c.tab as int) == first_position(config_file.tabs@, initial_tab(config_file.tab))
                    &&& c.tab < c.tabs@.len()
                    &&& c.remote == config_file.remote
                    &&& c.mouse == config_file.mouse
                    &&& c.peaks == (match config_file.peaks {
                        Some(p) => p,
                        None => Peaks::Auto,
                    })
                    &&& c.show_dividers == config_file.show_dividers
                    &&& c.compact_layout == config_file.compact_layout
                    &&& c.row_selected_extend_above == config_file.row_selected_extend_above
                    &&& c.row_selected_extend_below == config_file.row_selected_extend_below
                    &&& c.enforce_max_volume == config_file.enforce_max_volume
                    &&& c.tabs == config_file.tabs
                    &&& c.lazy_capture == config_file.lazy_capture
                    &&& c.max_concurrent_captures == config_file.max_concurrent_captures
                    &&& c.max_concurrent_captures_global == config_file.max_concurrent_captures_global
                    &&& c.capture_hidden == config_file.capture_hidden
                    &&& c.channel_display == (match config_file.channel_display {
                        Some(d) => d,
                        None => ChannelDisplay::Unified,
                    })
                    &&& c.unified_imbalance == (match config_file.unified_imbalance {
                        Some(u) => u,
                        None => UnifiedImbalance::NoIndication,
                    })
                    &&& c.split_style == (match config_file.split_style {
                        Some(s) => s,
                        None => SplitStyle::Radiating,
                    })
                    &&& c.channel_mode == config_file.channel_mode
                    &&& c.pair_label_style == (match config_file.pair_label_style {
                        Some(p) => p,
                        None => PairLabelStyle::Verbose,
                    })
                    &&& c.view_cycle == config_file.view_cycle
                    &&& c.expand_unused_label_space == config_file.expand_unused_label_space
                    &&& c.expand_unpaired_channel_bars == config_file.expand_unpaired_channel_bars
                    &&& c.filters@ == filter_conditions(config_file.filters@)
                },
            },
    {
        let ghost f = config_file;
        let ConfigFile {
            remote,
            mouse,
            peaks,
            char_set: char_set_name,
            theme: theme_name,
            show_dividers,
            compact_layout,
            row_selected_extend_above,
            row_selected_extend_below,
            enforce_max_volume,
            lenient_config: _,
            mut char_sets,
            mut themes,
            tab,
            tabs,
            lazy_capture,
            max_concurrent_captures,
            max_concurrent_captures_global,
            capture_hidden,
            channel_display,
            unified_imbalance,
            split_style,
            channel_mode,
            pair_label_style,
            view_cycle,
            expand_unused_label_space,
            expand_unpaired_channel_bars,
            filters,
        } = config_file;
        let char_set = match find_char_set(&char_sets, char_set_name.as_str()) {
            Some(k) => {
                let entry = char_sets.remove(k);
                proof {
                    assert(f.char_sets@[k as int] == entry);
                }
                entry.1
            },
            None => {
                return Err(ConfigError::UnknownCharSet(char_set_name));
            },
        };
        let theme = match find_theme(&themes, theme_name.as_str()) {
            Some(k) => themes[k].1,
            None => {
                return Err(ConfigError::UnknownTheme(theme_name));
            },
        };
        let filters = collect_conditions(filters);
        if let Some(message) = numeric_error {
            return Err(ConfigError::OutOfRange(message));
        }
        if tabs.len() == 0 {
            return Err(ConfigError::EmptyTabs);
        }
        if view_cycle.len() == 0 {
            return Err(ConfigError::EmptyViewCycle);
        }
        let initial = match tab {
            Some(t) => t,
            None => TabKind::default(),
        };
        let tab = match position_of(&tabs, initial) {
            Some(i) => i,
            None => {
                return Err(ConfigError::TabNotInTabs);
            },
        };
        Ok(Config {
            remote,
            mouse,
            peaks: match peaks {
                Some(p) => p,
                None => Peaks::default(),
            },
            char_set,
            theme,
            show_dividers,
            compact_layout,
            row_selected_extend_above,
            row_selected_extend_below,
            enforce_max_volume,
            tab,
            tabs,
            lazy_capture,
            max_concurrent_captures,
            max_concurrent_captures_global,
            capture_hidden,
            channel_display: match channel_display {
                Some(d) => d,
                None => ChannelDisplay::default(),
            },
            unified_imbalance: match unified_imbalance {
                Some(u) => u,
                None => UnifiedImbalance::default(),
            },
            split_style: match split_style {
                Some(s) => s,
                None => SplitStyle::default(),
            },
            channel_mode,
            pair_label_style: match pair_label_style {
                Some(p) => p,
                None => PairLabelStyle::default(),
            },
            view_cycle,
            expand_unused_label_space,
            expand_unpaired_channel_bars,
            filters,
        })
    }
}

/// `parts` joined with `, ` between them.
pub open spec fn joined(parts: Seq<Seq<char>>) -> Seq<char>
    decreases parts.len(),
{
    if parts.len() == 0 {
        Seq::empty()
    } else if parts.len() == 1 {
        parts[0]
    } else {
        joined(parts.drop_last()) + ", "@ + parts.last()
    }
}

/// A file that sets nothing is accepted: the default character set and
/// theme are built in, and the default initial tab is among the default
/// tabs.
pub proof fn lemma_default_file_accepted(f: ConfigFile, filters: Vec<Filter>)
    requires
        is_default_file(f, filters),
    ensures
        config_error(f, None) is None,
{
    reveal_strlit("default");
    assert(char_set::table_has(f.char_sets@, "default"@));
    assert(theme::table_has(f.themes@, "default"@));
    assert(f.tabs@[0] == TabKind::Playback);
}

impl ConfigFile {
    /// The error for fields of the file that the configuration does not
    /// know: none when there are no such fields or `lenient_config` is on
    /// (each is then only worth a warning), else one message naming them
    /// all.
    pub fn unknown_fields_error(&self, unknown: &Vec<String>) -> (r: Option<String>)
        ensures
            r is Some <==> (!self.lenient_config && unknown@.len() > 0),
            r matches Some(m) ==> m@ == "unknown configuration field(s): "@ + joined(
                unknown@.map_values(|u: String| u@),
            ) + " (pass --lenient-config, or set lenient_config = true, to ignore instead of failing)"@,
    {
        if unknown.len() == 0 || self.lenient_config {
            return None;
        }
        let ghost parts = unknown@.map_values(|u: String| u@);
        let mut list = unknown[0].clone();
        let mut i: usize = 1;
        while i < unknown.len()
            invariant
                1 <= i <= unknown@.len(),
                parts == unknown@.map_values(|u: String| u@),
                list@ == joined(parts.take(i as int)),
            decreases unknown.len() - i,
        {
            list.append(", ");
            list.append(unknown[i].as_str());
            assert(parts.take(i + 1).drop_last() =~= parts.take(i as int));
            i += 1;
        }
        assert(parts.take(i as int) =~= parts);
        let message = "unknown configuration field(s): ".to_owned().concat(list.as_str()).concat(
            " (pass --lenient-config, or set lenient_config = true, to ignore instead of failing)",
        );
        Some(message)
    }
}

} // verus!
