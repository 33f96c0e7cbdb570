//! The decisions behind a node's row in an object list: its size, where
//! its target dropdown opens, which marks its title carries and which
//! meter it shows.
use vstd::prelude::*;

use crate::area::{sat_sub16, Area};
use crate::layout::{
    exact_before, exact_or_shares, in_columns_of, in_rows_of, shares_before, size_needed,
    split_area, Axis, Extent, Flow,
};
use crate::config::theme::{patched, Style, Theme};
use crate::config::{CharSet, Peaks};
use crate::object_list::{DeviceKind, ObjectList};

verus! {

/// What a node's row shows about the node and how it stands in the list.
#[derive(Debug, Clone, Copy, PartialEq, Eq, Structural)]
pub struct NodeWidget {
    /// The kind of default device the list can set, if any.
    pub device_kind: Option<DeviceKind>,
    /// Whether the node is the default sink.
    pub is_default_sink: bool,
    /// Whether the node is the default source.
    pub is_default_source: bool,
    pub selected: bool,
    /// Hidden for this session only.
    pub hidden_instance: bool,
    /// Hidden across restarts.
    pub hidden_permanent: bool,
}

/// The mark in front of a hidden node's title.
#[derive(Debug, Clone, Copy, PartialEq, Eq, Structural)]
pub enum HiddenMark {
    /// Hidden across restarts (this mark wins when both apply).
    Permanent,
    /// Hidden for this session only.
    Instance,
    /// Not hidden: no mark.
    Unmarked,
}

/// The layout of a node's peak meter.
#[derive(Debug, Clone, Copy, PartialEq, Eq, Structural)]
pub enum MeterLayout {
    /// Left and right halves around a center mark.
    Stereo,
    /// One bar beside a center mark.
    Mono,
}

/// The byte length of the longest title among `targets`, or 0 without
/// targets.
pub open spec fn max_title_len<T>(targets: Seq<(T, String)>) -> nat
    decreases targets.len(),
{
    if targets.len() == 0 {
        0
    } else {
        let rest = max_title_len(targets.drop_last());
        let bytes = utf8_len(targets.last().1);
        if bytes > rest {
            bytes
        } else {
            rest
        }
    }
}

/// The longest title length is at least every title's byte length and,
/// with targets, is the byte length of one of them.
pub proof fn lemma_max_title_len_is_longest<T>(targets: Seq<(T, String)>)
    ensures
        forall|i: int| 0 <= i < targets.len() ==> utf8_len(#[trigger] targets[i].1) <= max_title_len(targets),
        targets.len() == 0 ==> max_title_len(targets) == 0,
        targets.len() > 0 ==> exists|j: int|
            0 <= j < targets.len() && max_title_len(targets) == utf8_len(#[trigger] targets[j].1),
    decreases targets.len(),
{
    if targets.len() > 0 {
        let rest = targets.drop_last();
        lemma_max_title_len_is_longest(rest);
        let last = targets.len() - 1;
        assert forall|i: int| 0 <= i < targets.len() implies utf8_len(#[trigger] targets[i].1)
            <= max_title_len(targets) by {
            if i < last {
                assert(targets[i] == rest[i]);
            }
        }
        if utf8_len(targets[last].1) > max_title_len(rest) {
            assert(max_title_len(targets) == utf8_len(targets[last].1));
        } else if rest.len() == 0 {
            assert(max_title_len(targets) == utf8_len(targets[last].1));
        } else {
            let j = choose|j: int|
                0 <= j < rest.len() && max_title_len(rest) == utf8_len(#[trigger] rest[j].1);
            assert(targets[j] == rest[j]);
            assert(max_title_len(targets) == utf8_len(targets[j].1));
        }
    }
}

/// The number of bytes of `s` in UTF-8, as `str::len` reports it.
pub open spec fn utf8_len(s: String) -> nat {
    (vstd::utf8::encode_utf8(s@).len() as usize) as nat
}

/// The dropdown of `targets` for a node whose row is `object_area`: as
/// wide as the longest title plus 4 (2 for the borders, 2 for the
/// highlight mark), truncated to `u16`; 2 rows of border plus a row for
/// each target, at most 5; aligned to the right edge of `list_area`, with
/// its top border on the row above the node's row.
pub open spec fn dropdown_spec<T>(targets: Seq<(T, String)>, list_area: Area, object_area: Area) -> Area {
    let longest = max_title_len(targets);
    let padded = if longest + 4 > usize::MAX {
        usize::MAX as int
    } else {
        (longest + 4) as int
    };
    let width = padded as u16;
    let shown = if targets.len() < 5 {
        targets.len()
    } else {
        5
    };
    let height = (shown + 2) as u16;
    Area::spec_new(sat_sub16(list_area.spec_right(), width), sat_sub16(object_area.y, 1), width, height)
}

impl NodeWidget {
    pub fn new(
        device_kind: Option<DeviceKind>,
        is_default_sink: bool,
        is_default_source: bool,
        selected: bool,
        hidden_instance: bool,
        hidden_permanent: bool,
    ) -> (r: Self)
        ensures
            r == (NodeWidget {
                device_kind,
                is_default_sink,
                is_default_source,
                selected,
                hidden_instance,
                hidden_permanent,
            }),
    {
        NodeWidget {
            device_kind,
            is_default_sink,
            is_default_source,
            selected,
            hidden_instance,
            hidden_permanent,
        }
    }

    /// Rows of a full node display.
    pub fn height() -> (r: u16)
        ensures
            r == 3,
    {
        3
    }

    /// Rows between nodes.
    pub fn spacing() -> (r: u16)
        ensures
            r == 2,
    {
        2
    }

    /// The area of the target dropdown (see `dropdown_spec`).
    pub fn dropdown_area<T>(object_list: &ObjectList<T>, list_area: &Area, object_area: &Area) -> (r: Area)
        ensures
            r == dropdown_spec(object_list.targets@, *list_area, *object_area),
    {
        let targets = &object_list.targets;
        let mut longest: usize = 0;
        let mut i: usize = 0;
        while i < targets.len()
            invariant
                i <= targets@.len(),
                longest == max_title_len(targets@.subrange(0, i as int)),
            decreases targets@.len() - i,
        {
            let bytes = targets[i].1.as_str().len();
            proof {
                assert(bytes == utf8_len(targets@[i as int].1));
                assert(targets@.subrange(0, i + 1).drop_last() =~= targets@.subrange(0, i as int));
            }
            if bytes > longest {
                longest = bytes;
            }
            i += 1;
        }
        proof {
            assert(targets@.subrange(0, targets@.len() as int) =~= targets@);
        }
        let width = longest.saturating_add(4) as u16;
        let shown = if targets.len() < 5 {
            targets.len()
        } else {
            5
        };
        let height = (shown + 2) as u16;
        let x = list_area.right().saturating_sub(width);
        let y = object_area.y.saturating_sub(1);
        Area::new(x, y, width, height)
    }

    /// Whether the node is the default device of the kind the list sets.
    pub fn is_default(&self) -> (r: bool)
        ensures
            r == match self.device_kind {
                Some(DeviceKind::Sink) => self.is_default_sink,
                Some(DeviceKind::Source) => self.is_default_source,
                None => false,
            },
    {
        match self.device_kind {
            Some(DeviceKind::Sink) => self.is_default_sink,
            Some(DeviceKind::Source) => self.is_default_source,
            None => false,
        }
    }

    /// Whether the node is hidden, for the session or for good.
    pub fn hidden(&self) -> (r: bool)
        ensures
            r == (self.hidden_instance || self.hidden_permanent),
    {
        self.hidden_instance || self.hidden_permanent
    }

    /// The mark in front of the node's title.
    pub fn hidden_mark(&self) -> (r: HiddenMark)
        ensures
            r == if self.hidden_permanent {
                HiddenMark::Permanent
            } else if self.hidden_instance {
                HiddenMark::Instance
            } else {
                HiddenMark::Unmarked
            },
    {
        if self.hidden_permanent {
            HiddenMark::Permanent
        } else if self.hidden_instance {
            HiddenMark::Instance
        } else {
            HiddenMark::Unmarked
        }
    }

    /// `base` with the hidden-row style laid on top when the node is
    /// hidden (which changes nothing unless a theme sets that style).
    pub fn hidden_style(&self, theme: &Theme, base: Style) -> (r: Style)
        ensures
            r == if self.hidden_instance || self.hidden_permanent {
                patched(base, theme.row_hidden)
            } else {
                base
            },
    {
        if self.hidden() {
            base.patch(theme.row_hidden)
        } else {
            base
        }
    }

    /// `style` with the unselected-row style laid on top when the node is
    /// not the selected one; it touches text only, unlike the selected
    /// row's fill of the whole row.
    pub fn text_style(&self, theme: &Theme, style: Style) -> (r: Style)
        ensures
            r == if self.selected {
                style
            } else {
                patched(style, theme.row_unselected)
            },
    {
        if self.selected {
            style
        } else {
            style.patch(theme.row_unselected)
        }
    }

    /// The style of the node's title: the theme's title style, marked as
    /// hidden where the node is, and as unselected where it is not the
    /// selected one.
    pub fn title_style(&self, theme: &Theme) -> (r: Style)
        ensures
            r == (if self.selected {
                if self.hidden_instance || self.hidden_permanent {
                    patched(theme.node_title, theme.row_hidden)
                } else {
                    theme.node_title
                }
            } else {
                patched(
                    if self.hidden_instance || self.hidden_permanent {
                        patched(theme.node_title, theme.row_hidden)
                    } else {
                        theme.node_title
                    },
                    theme.row_unselected,
                )
            }),
    {
        let hidden = self.hidden_style(theme, theme.node_title);
        self.text_style(theme, hidden)
    }

    /// The selector marks down the left edge of the row, top to bottom:
    /// none unless the node is selected; the top and bottom marks for a
    /// compact (two-row) node; else the top, middle and bottom marks.
    pub fn selector_marks(&self, char_set: &CharSet, compact_layout: bool) -> (r: Vec<String>)
        ensures
            !self.selected ==> r@.len() == 0,
            self.selected && compact_layout ==> r@.len() == 2 && r@[0]@ == char_set.selector_top@
                && r@[1]@ == char_set.selector_bottom@,
            self.selected && !compact_layout ==> r@.len() == 3 && r@[0]@ == char_set.selector_top@
                && r@[1]@ == char_set.selector_middle@ && r@[2]@ == char_set.selector_bottom@,
    {
        let mut marks: Vec<String> = Vec::new();
        if !self.selected {
            return marks;
        }
        marks.push(char_set.selector_top.clone());
        if !compact_layout {
            marks.push(char_set.selector_middle.clone());
        }
        marks.push(char_set.selector_bottom.clone());
        marks
    }

    /// Whether the row draws a peak meter: not when peaks are off, and not
    /// when peak monitoring is suspended for it - it is hidden and hidden
    /// objects are not captured - since an idle placeholder would read as
    /// broken rather than off.
    pub fn shows_meter(&self, peaks: Peaks, capture_hidden: bool) -> (r: bool)
        ensures
            r == (peaks != Peaks::Off && !((self.hidden_instance || self.hidden_permanent)
                && !capture_hidden)),
    {
        let monitoring_suspended = self.hidden() && !capture_hidden;
        peaks != Peaks::Off && !monitoring_suspended
    }
}

/// The meter a node shows, and whether it is live: with two peak values
/// (and peaks not forced to mono), a live stereo meter; with other peak
/// values, a mono meter, live when there is at least one; without peak
/// values, an idle stereo meter for a node with two channel positions
/// (peaks not forced to mono), else an idle mono meter.
pub open spec fn meter_spec(peaks: Peaks, peak_count: Option<usize>, positions: Option<usize>) -> (
    MeterLayout,
    bool,
) {
    match peak_count {
        Some(n) => if n == 2 && peaks != Peaks::Mono {
            (MeterLayout::Stereo, true)
        } else {
            (MeterLayout::Mono, n > 0)
        },
        None => if positions == Some(2usize) && peaks != Peaks::Mono {
            (MeterLayout::Stereo, false)
        } else {
            (MeterLayout::Mono, false)
        },
    }
}

/// The meter layout for a node with `peak_count` peak values (none while
/// it is not monitored) and `positions` channel positions (if known), and
/// whether the meter is live (see `meter_spec`).
pub fn meter_layout(peaks: Peaks, peak_count: Option<usize>, positions: Option<usize>) -> (r: (
    MeterLayout,
    bool,
))
    ensures
        r == meter_spec(peaks, peak_count, positions),
{
    match peak_count {
        Some(n) => {
            if n == 2 && peaks != Peaks::Mono {
                (MeterLayout::Stereo, true)
            } else {
                (MeterLayout::Mono, n > 0)
            }
        },
        None => {
            if positions == Some(2usize) && peaks != Peaks::Mono {
                (MeterLayout::Stereo, false)
            } else {
                (MeterLayout::Mono, false)
            }
        },
    }
}

/// The parts of a node's row: the selector column at its left and the
/// node's own columns beside it; in those, the header row and the bar row;
/// in the bar row, the volume bar and, where peaks are not off, the meter.
#[derive(Debug, Clone, Copy)]
pub struct RowAreas {
    pub selector: Area,
    pub node: Area,
    pub header: Area,
    pub bar: Area,
    pub volume: Area,
    pub meter: Option<Area>,
}

/// The columns of a node's row: one for the selector, the rest for the
/// node.
pub open spec fn row_columns() -> Seq<Extent> {
    seq![Extent::Exactly(1), Extent::AtLeast(0)]
}

/// The columns of the bar row: two of padding, then the volume bar and
/// padding sharing the rest nine to one; where peaks show, the volume bar,
/// padding, meter and padding sharing it four, one, four, one.
pub open spec fn bar_columns(peaks: Peaks) -> Seq<Extent> {
    if peaks == Peaks::Off {
        seq![Extent::Exactly(2), Extent::Share(9), Extent::Share(1)]
    } else {
        seq![
            Extent::Exactly(2),
            Extent::Share(4),
            Extent::Share(1),
            Extent::Share(4),
            Extent::Share(1),
        ]
    }
}

/// `part` ends within one column of where `tenths` tenths of the `room`
/// columns after `start` put it.
pub open spec fn ends_near(part: Area, start: int, room: int, tenths: int) -> bool {
    -10 < 10 * (part.x + part.width - start) - tenths * room < 10
}

impl NodeWidget {
    /// Where the parts of a node's row go in its `area`: a one-column
    /// selector at the left and the node's columns beside it; in those a
    /// one-row header at the top and the bar row at the bottom, a blank row
    /// apart unless the layout is compact (the legacy layout hands any rows
    /// left over to these two); in the bar row, after two columns of
    /// padding, the volume bar and the meter by the shares of
    /// `bar_columns`.
    pub fn row_areas(area: Area, compact_layout: bool, peaks: Peaks) -> (r: RowAreas)
        ensures
            ({
                let gap: int = if compact_layout { 0 } else { 1 };
                let room = r.bar.spec_right() - r.bar.x - 2;
                &&& in_columns_of(r.selector, area)
                &&& in_columns_of(r.node, area)
                &&& r.selector.x == area.x
                &&& r.selector.x + r.selector.width <= r.node.x
                &&& area.spec_right() - area.x >= 1 ==> {
                    &&& r.selector.width == 1
                    &&& r.node.x == area.x + 1
                    &&& r.node.x + r.node.width == area.spec_right()
                }
                &&& in_rows_of(r.header, r.node)
                &&& in_rows_of(r.bar, r.node)
                &&& r.header.y == area.y
                &&& r.header.y + r.header.height <= r.bar.y
                &&& area.spec_bottom() - area.y >= 2 + gap ==> {
                    &&& r.header.height >= 1
                    &&& r.bar.y == r.header.y + r.header.height + gap
                    &&& r.bar.height >= 1
                    &&& r.bar.y + r.bar.height == area.spec_bottom()
                }
                &&& in_columns_of(r.volume, r.bar)
                &&& r.meter is Some <==> peaks != Peaks::Off
                &&& r.meter matches Some(m) ==> in_columns_of(m, r.bar) && r.volume.x
                    + r.volume.width <= m.x
                &&& r.bar.spec_right() - r.bar.x >= 2 ==> {
                    &&& r.volume.x == r.bar.x + 2
                    &&& peaks == Peaks::Off ==> ends_near(r.volume, r.volume.x as int, room, 9)
                    &&& peaks != Peaks::Off ==> ends_near(r.volume, r.volume.x as int, room, 4)
                    &&& r.meter matches Some(m) ==> -10 < 10 * (m.x - r.volume.x) - 5 * room < 10
                        && ends_near(m, r.volume.x as int, room, 9)
                }
            }),
    {
        let columns = vec![Extent::Exactly(1), Extent::AtLeast(0)];
        proof {
            reveal_with_fuel(size_needed, 3);
            assert(columns@ =~= row_columns());
            assert(columns@[1] is AtLeast);
        }
        let split = split_area(area, &columns, 0, Axis::Across, Flow::Start);
        let selector = split[0];
        let node = split[1];
        let gap: u16 = if compact_layout { 0 } else { 1 };
        let rows = vec![Extent::Exactly(1), Extent::Exactly(1)];
        proof {
            reveal_with_fuel(size_needed, 3);
        }
        let split = split_area(node, &rows, gap, Axis::Down, Flow::Legacy);
        let header = split[0];
        let bar = split[1];
        let (volume, meter) = if peaks == Peaks::Off {
            let parts = vec![Extent::Exactly(2), Extent::Share(9), Extent::Share(1)];
            proof {
                reveal_with_fuel(size_needed, 4);
                reveal_with_fuel(shares_before, 4);
                reveal_with_fuel(exact_before, 4);
                assert(parts@ =~= bar_columns(peaks));
                assert(parts@[1] is Share);
                assert(exact_or_shares(parts@));
                assert(shares_before(parts@, 3) == 10);
                assert(shares_before(parts@, 2) == 9);
                assert(exact_before(parts@, 2) == 2);
            }
            let split = split_area(bar, &parts, 0, Axis::Across, Flow::Start);
            proof {
                assert(in_columns_of(split@[2], bar));
            }
            (split[1], None)
        } else {
            let parts = vec![
                Extent::Exactly(2),
                Extent::Share(4),
                Extent::Share(1),
                Extent::Share(4),
                Extent::Share(1),
            ];
            proof {
                reveal_with_fuel(size_needed, 6);
                reveal_with_fuel(shares_before, 6);
                reveal_with_fuel(exact_before, 6);
                assert(parts@ =~= bar_columns(peaks));
                assert(parts@[1] is Share);
                assert(exact_or_shares(parts@));
                assert(shares_before(parts@, 5) == 10);
                assert(shares_before(parts@, 2) == 4);
                assert(shares_before(parts@, 3) == 5);
                assert(shares_before(parts@, 4) == 9);
                assert(exact_before(parts@, 2) == 2);
                assert(exact_before(parts@, 3) == 2);
                assert(exact_before(parts@, 4) == 2);
            }
            let split = split_area(bar, &parts, 0, Axis::Across, Flow::Start);
            proof {
                assert(in_columns_of(split@[2], bar));
                assert(in_columns_of(split@[4], bar));
            }
            (split[1], Some(split[3]))
        };
        RowAreas { selector, node, header, bar, volume, meter }
    }
}

} // verus!
