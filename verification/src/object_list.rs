//! The interactable list of PipeWire objects: which object (and, in
//! channel mode, which channel of it) is selected, how the list scrolls,
//! the target dropdown, and which object an action applies to.
use vstd::prelude::*;

use std::collections::HashSet;

use crate::area::{lemma_intersection_within, min16, sat_add16, sat_sub16, Area};
use crate::layout::{grows, in_rows_of, size_needed, split_area, stacked, Axis, Extent, Flow};
use crate::config::theme::Style;
use crate::config::{
    view_of, ChannelDisplay, ChannelState, ChannelView, PairLabelStyle, SplitStyle,
    UnifiedImbalance,
};

verus! {

broadcast use vstd::std_specs::hash::group_hash_axioms;

/// A PipeWire object's id.
pub type ObjectId = u32;

/// Which kind of objects a list shows.
#[derive(Debug, Clone, Copy, PartialEq, Eq, Structural)]
pub enum ListKind {
    /// Nodes (streams and endpoints), which carry per-channel volumes.
    Node,
    /// Devices, whose rows carry no per-channel volumes.
    Device,
}

/// Which default device a node list can set.
#[derive(Debug, Clone, Copy, PartialEq, Eq, Structural)]
pub enum DeviceKind {
    Sink,
    Source,
}

/// What the object list reads from the current view of its objects: their
/// ids in display order, and how many channels each one has.
#[derive(Debug, Clone)]
pub struct ListView {
    pub ids: Vec<ObjectId>,
    pub channels: Vec<usize>,
}

impl ListView {
    /// Each object has a channel count, and no id occurs twice.
    pub open spec fn valid(&self) -> bool {
        &&& self.ids@.len() == self.channels@.len()
        &&& forall|a: int, b: int|
            0 <= a < b < self.ids@.len() ==> #[trigger] self.ids@[a] != #[trigger] self.ids@[b]
    }
}

/// The position of `id` in `ids`, if it occurs.
pub open spec fn index_in(ids: Seq<ObjectId>, id: ObjectId) -> Option<int> {
    if exists|i: int| 0 <= i < ids.len() && ids[i] == id {
        Some(choose|i: int| 0 <= i < ids.len() && ids[i] == id)
    } else {
        None
    }
}

/// The object after `selected` in display order - the last one stays
/// selected at the end of the list, and with nothing (or an object no
/// longer listed) selected, the first object.
pub open spec fn next_of(ids: Seq<ObjectId>, selected: Option<ObjectId>) -> Option<ObjectId> {
    if ids.len() == 0 {
        None
    } else {
        match selected {
            Some(id) => match index_in(ids, id) {
                Some(i) => Some(
                    if i + 1 < ids.len() {
                        ids[i + 1]
                    } else {
                        ids[i]
                    },
                ),
                None => Some(ids[0]),
            },
            None => Some(ids[0]),
        }
    }
}

/// The object before `selected` in display order - the first one stays
/// selected at the start of the list, and with nothing (or an object no
/// longer listed) selected, the first object.
pub open spec fn previous_of(ids: Seq<ObjectId>, selected: Option<ObjectId>) -> Option<ObjectId> {
    if ids.len() == 0 {
        None
    } else {
        match selected {
            Some(id) => match index_in(ids, id) {
                Some(i) => Some(
                    if i > 0 {
                        ids[i - 1]
                    } else {
                        ids[i]
                    },
                ),
                None => Some(ids[0]),
            },
            None => Some(ids[0]),
        }
    }
}

/// The number of channels of `id` that channel mode cycles through: none
/// for devices, whose rows carry no per-channel volumes, and none for an
/// object no longer listed.
pub open spec fn channel_count_of(view: ListView, kind: ListKind, id: ObjectId) -> nat {
    if kind is Device {
        0
    } else {
        match index_in(view.ids@, id) {
            Some(i) => view.channels@[i] as nat,
            None => 0,
        }
    }
}

/// The channel a newly selected object starts on: in channel mode, for an
/// object with more than one channel, the first one - or the last one when
/// arriving from below (`from_end`), so that up and down retrace each
/// other; otherwise none.
pub open spec fn initial_channel_of(channel_mode: bool, count: nat, from_end: bool) -> Option<usize> {
    if !channel_mode || count <= 1 {
        None
    } else if from_end {
        Some((count - 1) as usize)
    } else {
        Some(0)
    }
}

/// Where moving down leads, as the selected object and channel: in
/// channel mode, to the selected node's next channel while there is one;
/// else to the next object (see `next_of`), on its first channel; with no
/// object listed, nowhere.
pub open spec fn down_step(
    view: ListView,
    kind: ListKind,
    channel_mode: bool,
    selected: Option<ObjectId>,
    channel: Option<usize>,
) -> (Option<ObjectId>, Option<usize>) {
    if selected matches Some(id) && channel matches Some(c) && c + 1 < channel_count_of(
        view,
        kind,
        id,
    ) {
        (selected, Some((channel.unwrap() + 1) as usize))
    } else {
        match next_of(view.ids@, selected) {
            Some(next) => (
                Some(next),
                initial_channel_of(channel_mode, channel_count_of(view, kind, next), false),
            ),
            None => (selected, channel),
        }
    }
}

/// Where moving up leads, as the selected object and channel: in channel
/// mode, to the selected node's previous channel while there is one; else
/// to the previous object (see `previous_of`), on its last channel; with
/// no object listed, nowhere.
pub open spec fn up_step(
    view: ListView,
    kind: ListKind,
    channel_mode: bool,
    selected: Option<ObjectId>,
    channel: Option<usize>,
) -> (Option<ObjectId>, Option<usize>) {
    if channel matches Some(c) && c > 0 {
        (selected, Some((channel.unwrap() - 1) as usize))
    } else {
        match previous_of(view.ids@, selected) {
            Some(previous) => (
                Some(previous),
                initial_channel_of(channel_mode, channel_count_of(view, kind, previous), true),
            ),
            None => (selected, channel),
        }
    }
}

/// A selection as the list keeps it: a listed object, on a channel below
/// its channel count exactly when channel mode cycles through its
/// channels.
pub open spec fn settled(
    view: ListView,
    kind: ListKind,
    channel_mode: bool,
    selected: Option<ObjectId>,
    channel: Option<usize>,
) -> bool {
    &&& selected matches Some(id)
    &&& index_in(view.ids@, id) is Some
    &&& if channel_mode && channel_count_of(view, kind, selected.unwrap()) > 1 {
        channel matches Some(c) && c < channel_count_of(view, kind, selected.unwrap())
    } else {
        channel is None
    }
}

/// Up retraces down: from a settled selection that is not on the last
/// object, or that has a next channel on it, moving down and then up returns to the
/// same object and channel.
pub proof fn lemma_up_undoes_down(
    view: ListView,
    kind: ListKind,
    channel_mode: bool,
    selected: Option<ObjectId>,
    channel: Option<usize>,
)
    requires
        view.valid(),
        settled(view, kind, channel_mode, selected, channel),
        index_in(view.ids@, selected.unwrap()).unwrap() + 1 < view.ids@.len() || (channel matches Some(
            c,
        ) && c + 1 < channel_count_of(view, kind, selected.unwrap())),
    ensures
        ({
            let (s, c) = down_step(view, kind, channel_mode, selected, channel);
            up_step(view, kind, channel_mode, s, c) == (selected, channel)
        }),
{
    let id = selected.unwrap();
    let i = index_in(view.ids@, id).unwrap();
    let (s, c) = down_step(view, kind, channel_mode, selected, channel);
    if !(channel matches Some(ch) && ch + 1 < channel_count_of(view, kind, id)) {
        assert(i + 1 < view.ids@.len());
        let next = view.ids@[i + 1];
        lemma_index_in_at(view.ids@, i + 1);
        assert(s == Some(next));
    }
}

/// Down retraces up: from a settled selection that is not on the first
/// object, or that has a previous channel on it, moving up and then down returns to the
/// same object and channel.
pub proof fn lemma_down_undoes_up(
    view: ListView,
    kind: ListKind,
    channel_mode: bool,
    selected: Option<ObjectId>,
    channel: Option<usize>,
)
    requires
        view.valid(),
        settled(view, kind, channel_mode, selected, channel),
        index_in(view.ids@, selected.unwrap()).unwrap() > 0 || (channel matches Some(c) && c > 0),
    ensures
        ({
            let (s, c) = up_step(view, kind, channel_mode, selected, channel);
            down_step(view, kind, channel_mode, s, c) == (selected, channel)
        }),
{
    let id = selected.unwrap();
    let i = index_in(view.ids@, id).unwrap();
    let (s, c) = up_step(view, kind, channel_mode, selected, channel);
    if !(channel matches Some(ch) && ch > 0) {
        assert(i > 0);
        let previous = view.ids@[i - 1];
        lemma_index_in_at(view.ids@, i - 1);
        assert(s == Some(previous));
    }
}

/// In a list without repeats, the object at position `k` is found there.
proof fn lemma_index_in_at(ids: Seq<ObjectId>, k: int)
    requires
        0 <= k < ids.len(),
        forall|a: int, b: int| 0 <= a < b < ids.len() ==> #[trigger] ids[a] != #[trigger] ids[b],
    ensures
        index_in(ids, ids[k]) == Some(k),
{
    let j = choose|j: int| 0 <= j < ids.len() && ids[j] == ids[k];
    if j != k {
        if j < k {
            assert(ids[j] != ids[k]);
        } else {
            assert(ids[k] != ids[j]);
        }
    }
}

/// `ratatui`'s `ListState::select_next`: the item after the selected one,
/// or the first one when nothing is selected.
pub open spec fn select_next_of(selected: Option<usize>) -> Option<usize> {
    match selected {
        Some(i) => Some(if i < usize::MAX { (i + 1) as usize } else { i }),
        None => Some(0),
    }
}

/// `ratatui`'s `ListState::select_previous`: the item before the selected
/// one, or the last one (`usize::MAX`, corrected when drawn) when nothing
/// is selected.
pub open spec fn select_previous_of(selected: Option<usize>) -> Option<usize> {
    match selected {
        Some(i) => Some(if i > 0 { (i - 1) as usize } else { 0 }),
        None => Some(usize::MAX),
    }
}

/// The command that sets the default for a node list's selected node.
#[derive(Debug, Clone, Copy, PartialEq, Eq, Structural)]
pub enum DefaultCommand {
    /// Make the node the default device of this kind.
    SetDefaultDevice(ObjectId, DeviceKind),
    /// Point the node at the default target.
    TargetDefault(ObjectId),
}

/// The object list's state: selection, scrolling and dropdown, and the
/// display/setting axes of channel rendering. `T` is what a dropdown
/// target refers to.
pub struct ObjectList<T> {
    /// Index of the first object in the viewport.
    pub top: usize,
    /// The currently selected object.
    pub selected: Option<ObjectId>,
    /// Which kind of objects the list shows.
    pub list_kind: ListKind,
    /// Default device kind for defaults and node rendering.
    pub device_kind: Option<DeviceKind>,
    /// The highlighted entry of the target dropdown; the dropdown is open
    /// exactly when this is `Some`.
    pub dropdown_selected: Option<usize>,
    /// The dropdown's targets, with their titles.
    pub targets: Vec<(T, String)>,
    /// Number of objects visible at once, as of the last `update()`.
    pub page_size: usize,
    /// Whether navigation and volume actions target individual channels
    /// of the selected node instead of the whole node.
    pub channel_mode: bool,
    /// Which channel of the selected node is targeted; only ever `Some` in
    /// channel mode, for an object with more than one channel.
    pub selected_channel: Option<usize>,
    pub channel_display: ChannelDisplay,
    pub unified_imbalance: UnifiedImbalance,
    pub split_style: SplitStyle,
    pub pair_label_style: PairLabelStyle,
}

/// The position of `id` in the view's order.
fn position_in(ids: &Vec<ObjectId>, id: ObjectId) -> (r: Option<usize>)
    requires
        forall|a: int, b: int| 0 <= a < b < ids@.len() ==> #[trigger] ids@[a] != #[trigger] ids@[b],
    ensures
        match r {
            Some(i) => index_in(ids@, id) == Some(i as int) && i < ids@.len(),
            None => index_in(ids@, id) is None,
        },
{
    let mut i: usize = 0;
    while i < ids.len()
        invariant
            i <= ids@.len(),
            forall|a: int, b: int| 0 <= a < b < ids@.len() ==> #[trigger] ids@[a] != #[trigger] ids@[b],
            forall|j: int| 0 <= j < i ==> ids@[j] != id,
        decreases ids.len() - i,
    {
        if ids[i] == id {
            proof {
                let w = choose|w: int| 0 <= w < ids@.len() && ids@[w] == id;
                if w != i {
                    if w < i {
                        assert(ids@[w] != id);
                    } else {
                        assert(ids@[i as int] != ids@[w]);
                    }
                }
            }
            return Some(i);
        }
        i += 1;
    }
    None
}

/// The view's answer to "what follows `selected`" - see `next_of`.
pub fn next_id(view: &ListView, selected: Option<ObjectId>) -> (r: Option<ObjectId>)
    requires
        view.valid(),
    ensures
        r == next_of(view.ids@, selected),
{
    let len = view.ids.len();
    if len == 0 {
        return None;
    }
    match selected {
        Some(id) => match position_in(&view.ids, id) {
            Some(i) => if i + 1 < len {
                Some(view.ids[i + 1])
            } else {
                Some(view.ids[i])
            },
            None => Some(view.ids[0]),
        },
        None => Some(view.ids[0]),
    }
}

/// The view's answer to "what precedes `selected`" - see `previous_of`.
pub fn previous_id(view: &ListView, selected: Option<ObjectId>) -> (r: Option<ObjectId>)
    requires
        view.valid(),
    ensures
        r == previous_of(view.ids@, selected),
{
    let len = view.ids.len();
    if len == 0 {
        return None;
    }
    match selected {
        Some(id) => match position_in(&view.ids, id) {
            Some(i) => if i > 0 {
                Some(view.ids[i - 1])
            } else {
                Some(view.ids[i])
            },
            None => Some(view.ids[0]),
        },
        None => Some(view.ids[0]),
    }
}

impl<T> ObjectList<T> {
    /// Everything but the selection, its channel, the dropdown and its
    /// targets is as in `other`.
    pub open spec fn same_settings(self, other: Self) -> bool {
        &&& self.top == other.top
        &&& self.list_kind == other.list_kind
        &&& self.device_kind == other.device_kind
        &&& self.page_size == other.page_size
        &&& self.channel_mode == other.channel_mode
        &&& self.channel_display == other.channel_display
        &&& self.unified_imbalance == other.unified_imbalance
        &&& self.split_style == other.split_style
        &&& self.pair_label_style == other.pair_label_style
    }
}

impl<T> ObjectList<T> {
    /// An empty list of the given kind, with nothing selected.
    pub fn new(list_kind: ListKind, device_kind: Option<DeviceKind>) -> (r: Self)
        ensures
            r.top == 0,
            r.selected is None,
            r.list_kind == list_kind,
            r.device_kind == device_kind,
            r.dropdown_selected is None,
            r.targets@.len() == 0,
            r.page_size == 0,
            !r.channel_mode,
            r.selected_channel is None,
            r.channel_display == ChannelDisplay::Unified,
            r.unified_imbalance == UnifiedImbalance::NoIndication,
            r.split_style == SplitStyle::Radiating,
            r.pair_label_style == PairLabelStyle::Verbose,
    {
        ObjectList {
            top: 0,
            selected: None,
            list_kind,
            device_kind,
            dropdown_selected: None,
            targets: Vec::new(),
            page_size: 0,
            channel_mode: false,
            selected_channel: None,
            channel_display: ChannelDisplay::Unified,
            unified_imbalance: UnifiedImbalance::NoIndication,
            split_style: SplitStyle::Radiating,
            pair_label_style: PairLabelStyle::Verbose,
        }
    }

    /// Number of channels `object_id` has to cycle through in channel
    /// mode - see `channel_count_of`.
    fn channel_count(&self, view: &ListView, object_id: ObjectId) -> (r: usize)
        requires
            view.valid(),
        ensures
            r == channel_count_of(*view, self.list_kind, object_id),
    {
        if self.list_kind == ListKind::Device {
            return 0;
        }
        match position_in(&view.ids, object_id) {
            Some(i) => view.channels[i],
            None => 0,
        }
    }

    /// The channel a newly selected object starts on - see
    /// `initial_channel_of`.
    fn initial_channel(&self, view: &ListView, object_id: Option<ObjectId>, from_end: bool) -> (r: Option<usize>)
        requires
            view.valid(),
        ensures
            r == (match object_id {
                Some(id) => initial_channel_of(
                    self.channel_mode,
                    channel_count_of(*view, self.list_kind, id),
                    from_end,
                ),
                None => None::<usize>,
            }),
    {
        if !self.channel_mode {
            return None;
        }
        let object_id = match object_id {
            Some(id) => id,
            None => {
                return None;
            },
        };
        let count = self.channel_count(view, object_id);
        if count <= 1 {
            return None;
        }
        Some(if from_end { count - 1 } else { 0 })
    }

    /// Selects `object_id`, starting on its initial channel, and closes
    /// the dropdown (which may belong to the previous selection).
    fn select(&mut self, view: &ListView, object_id: Option<ObjectId>, from_end: bool)
        requires
            view.valid(),
        ensures
            final(self).selected == object_id,
            final(self).selected_channel == (match object_id {
                Some(id) => initial_channel_of(
                    old(self).channel_mode,
                    channel_count_of(*view, old(self).list_kind, id),
                    from_end,
                ),
                None => None::<usize>,
            }),
            final(self).dropdown_selected is None,
            final(self).top == old(self).top,
            final(self).page_size == old(self).page_size,
            final(self).list_kind == old(self).list_kind,
            final(self).device_kind == old(self).device_kind,
            final(self).channel_mode == old(self).channel_mode,
            final(self).channel_display == old(self).channel_display,
            final(self).unified_imbalance == old(self).unified_imbalance,
            final(self).split_style == old(self).split_style,
            final(self).pair_label_style == old(self).pair_label_style,
            final(self).targets == old(self).targets,
    {
        self.selected = object_id;
        self.selected_channel = self.initial_channel(view, object_id, from_end);
        self.dropdown_close();
    }

    /// Moves down: to the next dropdown entry while the dropdown is open;
    /// else, in channel mode, to the selected node's next channel; else to
    /// the next object, on its first channel.
    pub fn down(&mut self, view: &ListView)
        requires
            view.valid(),
        ensures
            final(self).top == old(self).top,
            final(self).page_size == old(self).page_size,
            final(self).channel_mode == old(self).channel_mode,
            final(self).list_kind == old(self).list_kind,
            final(self).targets == old(self).targets,
            old(self).dropdown_selected is Some ==> {
                &&& final(self).dropdown_selected == select_next_of(old(self).dropdown_selected)
                &&& final(self).selected == old(self).selected
                &&& final(self).selected_channel == old(self).selected_channel
            },
            old(self).dropdown_selected is None ==> {
                &&& (final(self).selected, final(self).selected_channel) == down_step(
                    *view,
                    old(self).list_kind,
                    old(self).channel_mode,
                    old(self).selected,
                    old(self).selected_channel,
                )
                &&& final(self).dropdown_selected is None
            },
            final(self).same_settings(*old(self)),
            final(self).targets == old(self).targets,
    {
        if let Some(i) = self.dropdown_selected {
            self.dropdown_selected = Some(i.saturating_add(1));
            return;
        }
        if let (Some(object_id), Some(channel)) = (self.selected, self.selected_channel) {
            if channel.saturating_add(1) < self.channel_count(view, object_id) {
                self.selected_channel = Some(channel + 1);
                return;
            }
        }
        let new_selected = next_id(view, self.selected);
        if new_selected.is_some() {
            self.select(view, new_selected, false);
        }
    }

    /// Moves up: to the previous dropdown entry while the dropdown is
    /// open; else, in channel mode, to the selected node's previous
    /// channel; else to the previous object, on its *last* channel - so
    /// that up and down retrace each other.
    pub fn up(&mut self, view: &ListView)
        requires
            view.valid(),
        ensures
            final(self).top == old(self).top,
            final(self).page_size == old(self).page_size,
            final(self).channel_mode == old(self).channel_mode,
            final(self).list_kind == old(self).list_kind,
            final(self).targets == old(self).targets,
            old(self).dropdown_selected is Some ==> {
                &&& final(self).dropdown_selected == select_previous_of(old(self).dropdown_selected)
                &&& final(self).selected == old(self).selected
                &&& final(self).selected_channel == old(self).selected_channel
            },
            old(self).dropdown_selected is None ==> {
                &&& (final(self).selected, final(self).selected_channel) == up_step(
                    *view,
                    old(self).list_kind,
                    old(self).channel_mode,
                    old(self).selected,
                    old(self).selected_channel,
                )
                &&& final(self).dropdown_selected is None
            },
            final(self).same_settings(*old(self)),
            final(self).targets == old(self).targets,
    {
        if let Some(i) = self.dropdown_selected {
            self.dropdown_selected = Some(i.saturating_sub(1));
            return;
        }
        if let Some(channel) = self.selected_channel {
            if channel > 0 {
                self.selected_channel = Some(channel - 1);
                return;
            }
        }
        let new_selected = previous_id(view, self.selected);
        if new_selected.is_some() {
            self.select(view, new_selected, true);
        }
    }

    /// Toggles whether navigation and volume actions target individual
    /// channels of the selected node, starting on its first channel.
    pub fn toggle_channel_mode(&mut self, view: &ListView)
        requires
            view.valid(),
        ensures
            final(self).channel_mode == !old(self).channel_mode,
            final(self).selected == old(self).selected,
            final(self).selected_channel == (match old(self).selected {
                Some(id) => initial_channel_of(
                    !old(self).channel_mode,
                    channel_count_of(*view, old(self).list_kind, id),
                    false,
                ),
                None => None::<usize>,
            }),
            final(self).channel_display == old(self).channel_display,
            final(self).list_kind == old(self).list_kind,
            final(self).dropdown_selected == old(self).dropdown_selected,
            final(self).top == old(self).top,
            final(self).device_kind == old(self).device_kind,
            final(self).page_size == old(self).page_size,
            final(self).unified_imbalance == old(self).unified_imbalance,
            final(self).split_style == old(self).split_style,
            final(self).pair_label_style == old(self).pair_label_style,
            final(self).targets == old(self).targets,
    {
        self.channel_mode = !self.channel_mode;
        self.selected_channel = self.initial_channel(view, self.selected, false);
    }

    /// Cycles the display axis between "unified" and "always".
    pub fn cycle_channel_display(&mut self)
        ensures
            final(self).channel_display == (match old(self).channel_display {
                ChannelDisplay::Unified => ChannelDisplay::Always,
                ChannelDisplay::Always => ChannelDisplay::Unified,
            }),
            final(self).channel_mode == old(self).channel_mode,
            final(self).selected == old(self).selected,
            final(self).selected_channel == old(self).selected_channel,
            final(self).list_kind == old(self).list_kind,
            final(self).top == old(self).top,
            final(self).device_kind == old(self).device_kind,
            final(self).page_size == old(self).page_size,
            final(self).unified_imbalance == old(self).unified_imbalance,
            final(self).split_style == old(self).split_style,
            final(self).pair_label_style == old(self).pair_label_style,
            final(self).targets == old(self).targets,
            final(self).dropdown_selected == old(self).dropdown_selected,
    {
        self.channel_display = match self.channel_display {
            ChannelDisplay::Unified => ChannelDisplay::Always,
            ChannelDisplay::Always => ChannelDisplay::Unified,
        };
    }

    /// Bundles the display/setting axes for rendering.
    pub fn channel_state(&self) -> (s: ChannelState)
        ensures
            s == (ChannelState {
                channel_mode: self.channel_mode,
                channel_display: self.channel_display,
                unified_imbalance: self.unified_imbalance,
                split_style: self.split_style,
                pair_label_style: self.pair_label_style,
            }),
    {
        ChannelState {
            channel_mode: self.channel_mode,
            channel_display: self.channel_display,
            unified_imbalance: self.unified_imbalance,
            split_style: self.split_style,
            pair_label_style: self.pair_label_style,
        }
    }

    /// The current `ChannelView`.
    pub fn channel_view(&self) -> (v: ChannelView)
        ensures
            v == view_of(self.channel_mode, self.channel_display),
    {
        self.channel_state().view()
    }

    /// Switches directly to `target`, starting the selection on its first
    /// channel. `unified_imbalance`/`split_style`/`pair_label_style` are
    /// untouched.
    pub fn select_view(&mut self, target: ChannelView, view: &ListView)
        requires
            view.valid(),
        ensures
            view_of(final(self).channel_mode, final(self).channel_display) == target,
            final(self).channel_mode == (target == ChannelView::Channels),
            target != ChannelView::Channels ==> final(self).channel_display == (if target
                == ChannelView::Linked {
                ChannelDisplay::Always
            } else {
                ChannelDisplay::Unified
            }),
            target == ChannelView::Channels ==> final(self).channel_display == old(self).channel_display,
            final(self).selected == old(self).selected,
            final(self).selected_channel == (match old(self).selected {
                Some(id) => initial_channel_of(
                    target == ChannelView::Channels,
                    channel_count_of(*view, old(self).list_kind, id),
                    false,
                ),
                None => None::<usize>,
            }),
            final(self).unified_imbalance == old(self).unified_imbalance,
            final(self).split_style == old(self).split_style,
            final(self).pair_label_style == old(self).pair_label_style,
            final(self).list_kind == old(self).list_kind,
            final(self).dropdown_selected == old(self).dropdown_selected,
            final(self).top == old(self).top,
            final(self).device_kind == old(self).device_kind,
            final(self).page_size == old(self).page_size,
            final(self).targets == old(self).targets,
    {
        match target {
            ChannelView::Unified => {
                self.channel_mode = false;
                self.channel_display = ChannelDisplay::Unified;
            },
            ChannelView::Linked => {
                self.channel_mode = false;
                self.channel_display = ChannelDisplay::Always;
            },
            ChannelView::Channels => {
                self.channel_mode = true;
            },
        }
        self.selected_channel = self.initial_channel(view, self.selected, false);
    }

    /// Advances to the view after the current one in `view_cycle`,
    /// wrapping; lands on `view_cycle`'s first entry when the current view
    /// is not in it.
    pub fn cycle_channel_view(&mut self, view_cycle: &Vec<ChannelView>, view: &ListView)
        requires
            view.valid(),
        ensures
            view_of(final(self).channel_mode, final(self).channel_display) == next_view(
                view_cycle@,
                view_of(old(self).channel_mode, old(self).channel_display),
            ),
            final(self).selected == old(self).selected,
            final(self).selected_channel == (match old(self).selected {
                Some(id) => initial_channel_of(
                    final(self).channel_mode,
                    channel_count_of(*view, old(self).list_kind, id),
                    false,
                ),
                None => None::<usize>,
            }),
            final(self).top == old(self).top,
            final(self).list_kind == old(self).list_kind,
            final(self).device_kind == old(self).device_kind,
            final(self).page_size == old(self).page_size,
            final(self).unified_imbalance == old(self).unified_imbalance,
            final(self).split_style == old(self).split_style,
            final(self).pair_label_style == old(self).pair_label_style,
            final(self).targets == old(self).targets,
            final(self).dropdown_selected == old(self).dropdown_selected,
    {
        let current = self.channel_view();
        let next = match find_view(view_cycle, current) {
            Some(i) => {
                let n = view_cycle.len();
                view_cycle[(i + 1) % n]
            },
            None => if view_cycle.len() > 0 {
                view_cycle[0]
            } else {
                ChannelView::Unified
            },
        };
        self.select_view(next, view);
    }

    /// Moves the selection down by a page (however many objects were
    /// visible at the last `update()`, at least one), stopping at the
    /// last object. The dropdown, if open, moves by one entry.
    pub fn page_down(&mut self, view: &ListView)
        requires
            view.valid(),
        ensures
            old(self).dropdown_selected is Some ==> final(self).dropdown_selected == select_next_of(
                old(self).dropdown_selected,
            ) && final(self).selected == old(self).selected,
            old(self).dropdown_selected is None && view.ids@.len() > 0 ==> final(self).selected
                == steps_down(view.ids@, old(self).selected, page_steps(old(self).page_size))
                && final(self).dropdown_selected is None,
            old(self).dropdown_selected is None && view.ids@.len() == 0 ==> final(self).selected
                == old(self).selected,
            final(self).same_settings(*old(self)),
            final(self).targets == old(self).targets,
            old(self).dropdown_selected is Some ==> final(self).selected_channel == old(
                self,
            ).selected_channel,
            old(self).dropdown_selected is None && view.ids@.len() > 0 ==> final(self).selected is Some
                && final(self).selected_channel == initial_channel_of(
                old(self).channel_mode,
                channel_count_of(*view, old(self).list_kind, final(self).selected.unwrap()),
                false,
            ),
            old(self).dropdown_selected is None && view.ids@.len() == 0 ==> final(self).selected_channel
                == (match old(self).selected {
                Some(id) => initial_channel_of(
                    old(self).channel_mode,
                    channel_count_of(*view, old(self).list_kind, id),
                    false,
                ),
                None => old(self).selected_channel,
            }),
            old(self).dropdown_selected is None ==> final(self).dropdown_selected is None,
    {
        if let Some(i) = self.dropdown_selected {
            self.dropdown_selected = Some(i.saturating_add(1));
            return;
        }
        let steps = if self.page_size > 1 { self.page_size } else { 1 };
        let start = self.selected;
        let mut new_selected = start;
        let mut k: usize = 0;
        while k < steps
            invariant
                view.valid(),
                k <= steps,
                view.ids@.len() > 0 ==> new_selected == steps_down(view.ids@, start, k as nat),
                view.ids@.len() > 0 && k > 0 ==> new_selected is Some,
                view.ids@.len() == 0 ==> new_selected == start,
            decreases steps - k,
        {
            if let Some(id) = next_id(view, new_selected) {
                new_selected = Some(id);
            }
            k += 1;
        }
        if new_selected.is_some() {
            self.select(view, new_selected, false);
        }
    }

    /// Moves the selection up by a page, stopping at the first object -
    /// see `page_down()`.
    pub fn page_up(&mut self, view: &ListView)
        requires
            view.valid(),
        ensures
            old(self).dropdown_selected is Some ==> final(self).dropdown_selected
                == select_previous_of(old(self).dropdown_selected) && final(self).selected == old(
                self,
            ).selected,
            old(self).dropdown_selected is None && view.ids@.len() > 0 ==> final(self).selected
                == steps_up(view.ids@, old(self).selected, page_steps(old(self).page_size))
                && final(self).dropdown_selected is None,
            old(self).dropdown_selected is None && view.ids@.len() == 0 ==> final(self).selected
                == old(self).selected,
            final(self).same_settings(*old(self)),
            final(self).targets == old(self).targets,
            old(self).dropdown_selected is Some ==> final(self).selected_channel == old(
                self,
            ).selected_channel,
            old(self).dropdown_selected is None && view.ids@.len() > 0 ==> final(self).selected is Some
                && final(self).selected_channel == initial_channel_of(
                old(self).channel_mode,
                channel_count_of(*view, old(self).list_kind, final(self).selected.unwrap()),
                true,
            ),
            old(self).dropdown_selected is None && view.ids@.len() == 0 ==> final(self).selected_channel
                == (match old(self).selected {
                Some(id) => initial_channel_of(
                    old(self).channel_mode,
                    channel_count_of(*view, old(self).list_kind, id),
                    true,
                ),
                None => old(self).selected_channel,
            }),
            old(self).dropdown_selected is None ==> final(self).dropdown_selected is None,
    {
        if let Some(i) = self.dropdown_selected {
            self.dropdown_selected = Some(i.saturating_sub(1));
            return;
        }
        let steps = if self.page_size > 1 { self.page_size } else { 1 };
        let start = self.selected;
        let mut new_selected = start;
        let mut k: usize = 0;
        while k < steps
            invariant
                view.valid(),
                k <= steps,
                view.ids@.len() > 0 ==> new_selected == steps_up(view.ids@, start, k as nat),
                view.ids@.len() > 0 && k > 0 ==> new_selected is Some,
                view.ids@.len() == 0 ==> new_selected == start,
            decreases steps - k,
        {
            if let Some(id) = previous_id(view, new_selected) {
                new_selected = Some(id);
            }
            k += 1;
        }
        if new_selected.is_some() {
            self.select(view, new_selected, true);
        }
    }

    /// Jumps the selection to the first object, or the dropdown to its
    /// first entry.
    pub fn first(&mut self, view: &ListView)
        requires
            view.valid(),
        ensures
            old(self).dropdown_selected is Some ==> final(self).dropdown_selected == Some(0usize)
                && final(self).selected == old(self).selected,
            old(self).dropdown_selected is None && view.ids@.len() > 0 ==> final(self).selected
                == Some(view.ids@[0]) && final(self).selected_channel == initial_channel_of(
                old(self).channel_mode,
                channel_count_of(*view, old(self).list_kind, view.ids@[0]),
                false,
            ),
            old(self).dropdown_selected is None && view.ids@.len() == 0 ==> final(self).selected
                == old(self).selected,
            final(self).same_settings(*old(self)),
            final(self).targets == old(self).targets,
            old(self).dropdown_selected is Some ==> final(self).selected_channel == old(
                self,
            ).selected_channel,
            old(self).dropdown_selected is None && view.ids@.len() > 0 ==> final(self).dropdown_selected is None,
            old(self).dropdown_selected is None && view.ids@.len() == 0 ==> final(self).selected_channel
                == old(self).selected_channel && final(self).dropdown_selected is None,
    {
        if self.dropdown_selected.is_some() {
            self.dropdown_selected = Some(0);
            return;
        }
        if view.ids.len() > 0 {
            let id = view.ids[0];
            self.select(view, Some(id), false);
        }
    }

    /// Jumps the selection to the last object (on its last channel), or
    /// the dropdown to its last entry.
    pub fn last(&mut self, view: &ListView)
        requires
            view.valid(),
        ensures
            old(self).dropdown_selected is Some ==> final(self).dropdown_selected == Some(
                usize::MAX,
            ) && final(self).selected == old(self).selected,
            old(self).dropdown_selected is None && view.ids@.len() > 0 ==> final(self).selected
                == Some(view.ids@.last()) && final(self).selected_channel == initial_channel_of(
                old(self).channel_mode,
                channel_count_of(*view, old(self).list_kind, view.ids@.last()),
                true,
            ),
            old(self).dropdown_selected is None && view.ids@.len() == 0 ==> final(self).selected
                == old(self).selected,
            final(self).same_settings(*old(self)),
            final(self).targets == old(self).targets,
            old(self).dropdown_selected is Some ==> final(self).selected_channel == old(
                self,
            ).selected_channel,
            old(self).dropdown_selected is None && view.ids@.len() > 0 ==> final(self).dropdown_selected is None,
            old(self).dropdown_selected is None && view.ids@.len() == 0 ==> final(self).selected_channel
                == old(self).selected_channel && final(self).dropdown_selected is None,
    {
        if self.dropdown_selected.is_some() {
            self.dropdown_selected = Some(usize::MAX);
            return;
        }
        let len = view.ids.len();
        if len > 0 {
            let id = view.ids[len - 1];
            self.select(view, Some(id), true);
        }
    }

    /// Releases the selection from `object_id`, which has just been
    /// hidden: moves it to the object after it in the view's (pre-hide)
    /// order, else to the one before it, else to nothing.
    pub fn release_hidden_selection(&mut self, view: &ListView, object_id: ObjectId)
        requires
            view.valid(),
        ensures
            final(self).selected == release_target(view.ids@, object_id),
            final(self).dropdown_selected is None,
            final(self).same_settings(*old(self)),
            final(self).targets == old(self).targets,
            final(self).selected_channel == (match release_target(view.ids@, object_id) {
                Some(id) => initial_channel_of(
                    old(self).channel_mode,
                    channel_count_of(*view, old(self).list_kind, id),
                    false,
                ),
                None => None::<usize>,
            }),
    {
        let after = next_id(view, Some(object_id));
        let candidate = match after {
            Some(id) if id != object_id => Some(id),
            _ => match previous_id(view, Some(object_id)) {
                Some(id) if id != object_id => Some(id),
                _ => None,
            },
        };
        self.select(view, candidate, false);
    }

    /// Closes the dropdown.
    pub fn dropdown_close(&mut self)
        ensures
            final(self).dropdown_selected is None,
            final(self).selected == old(self).selected,
            final(self).selected_channel == old(self).selected_channel,
            final(self).top == old(self).top,
            final(self).page_size == old(self).page_size,
            final(self).list_kind == old(self).list_kind,
            final(self).device_kind == old(self).device_kind,
            final(self).channel_mode == old(self).channel_mode,
            final(self).channel_display == old(self).channel_display,
            final(self).unified_imbalance == old(self).unified_imbalance,
            final(self).split_style == old(self).split_style,
            final(self).pair_label_style == old(self).pair_label_style,
            final(self).targets == old(self).targets,
    {
        self.dropdown_selected = None;
    }

    /// Opens the dropdown on the view's targets for the selected object
    /// (`targets`: the targets and the index of the current one), unless
    /// there are none.
    fn dropdown_open(&mut self, targets: Option<(Vec<(T, String)>, usize)>)
        ensures
            match targets {
                Some((t, index)) if t@.len() > 0 => final(self).targets == t
                    && final(self).dropdown_selected == Some(index),
                _ => final(self).targets == old(self).targets && final(self).dropdown_selected
                    == old(self).dropdown_selected,
            },
            final(self).selected == old(self).selected,
            final(self).same_settings(*old(self)),
            final(self).selected_channel == old(self).selected_channel,
    {
        if let Some((targets, index)) = targets {
            if targets.len() > 0 {
                self.targets = targets;
                self.dropdown_selected = Some(index);
            }
        }
    }

    /// Activates the dropdown: opens it on `targets` (the view's targets
    /// for the selected object) when it is closed; when it is open, closes
    /// it and returns the selected object with the index of the
    /// highlighted target, for the caller to set.
    pub fn dropdown_activate(&mut self, targets: Option<(Vec<(T, String)>, usize)>) -> (r: Option<(ObjectId, usize)>)
        ensures
            old(self).dropdown_selected is None ==> r is None && (match targets {
                Some((t, index)) if t@.len() > 0 => final(self).targets == t
                    && final(self).dropdown_selected == Some(index),
                _ => final(self).dropdown_selected is None,
            }),
            old(self).dropdown_selected matches Some(index) ==> {
                &&& final(self).dropdown_selected is None
                &&& r == (if old(self).selected is Some && index < old(self).targets@.len() {
                    Some((old(self).selected.unwrap(), index))
                } else {
                    None
                })
            },
            final(self).selected == old(self).selected,
            final(self).same_settings(*old(self)),
            final(self).selected_channel == old(self).selected_channel,
            old(self).dropdown_selected is Some ==> final(self).targets == old(self).targets,
            old(self).dropdown_selected is None && !(targets matches Some((t, _)) && t@.len() > 0)
                ==> final(self).targets == old(self).targets,
    {
        let index = match self.dropdown_selected {
            None => {
                self.dropdown_open(targets);
                return None;
            },
            Some(index) => index,
        };
        let r = match self.selected {
            Some(object_id) if index < self.targets.len() => Some((object_id, index)),
            _ => None,
        };
        self.dropdown_selected = None;
        r
    }

    /// The highlighted target of the open dropdown, if any.
    pub fn selected_target(&self) -> (r: Option<&T>)
        ensures
            match self.dropdown_selected {
                Some(i) if i < self.targets@.len() => r == Some(&self.targets@[i as int].0),
                _ => r is None,
            },
    {
        match self.dropdown_selected {
            Some(i) if i < self.targets.len() => Some(&self.targets[i].0),
            _ => None,
        }
    }

    /// Closes the dropdown and returns the selected object, whose target
    /// the caller sets.
    pub fn set_target(&mut self) -> (r: Option<ObjectId>)
        ensures
            r == old(self).selected,
            final(self).dropdown_selected is None,
            final(self).selected == old(self).selected,
            final(self).same_settings(*old(self)),
            final(self).targets == old(self).targets,
            final(self).selected_channel == old(self).selected_channel,
    {
        self.dropdown_close();
        self.selected
    }

    /// The node that muting and volume changes apply to: the selected
    /// object of a node list, none for a device list.
    pub fn node_action_target(&self) -> (r: Option<ObjectId>)
        ensures
            r == (if self.list_kind is Device {
                None
            } else {
                self.selected
            }),
    {
        if self.list_kind == ListKind::Device {
            return None;
        }
        self.selected
    }

    /// The node whose mute the caller toggles - see `node_action_target`.
    pub fn toggle_mute(&self) -> (r: Option<ObjectId>)
        ensures
            r == (if self.list_kind is Device {
                None
            } else {
                self.selected
            }),
    {
        self.node_action_target()
    }

    /// The command that makes the selected node the default: the default
    /// device of the list's device kind, or else the default target; none
    /// for a device list or without a selection.
    pub fn set_default(&self) -> (r: Option<DefaultCommand>)
        ensures
            r == (if self.list_kind is Device {
                None
            } else {
                match self.selected {
                    Some(id) => Some(
                        match self.device_kind {
                            Some(kind) => DefaultCommand::SetDefaultDevice(id, kind),
                            None => DefaultCommand::TargetDefault(id),
                        },
                    ),
                    None => None,
                }
            }),
    {
        if self.list_kind == ListKind::Device {
            return None;
        }
        match self.selected {
            Some(node_id) => Some(
                match self.device_kind {
                    Some(kind) => DefaultCommand::SetDefaultDevice(node_id, kind),
                    None => DefaultCommand::TargetDefault(node_id),
                },
            ),
            None => None,
        }
    }

    /// Position of the selected object in the view.
    pub fn selected_index(&self, view: &ListView) -> (r: Option<usize>)
        requires
            view.valid(),
        ensures
            r == (match self.selected {
                Some(id) => match index_in(view.ids@, id) {
                    Some(i) => Some(i as usize),
                    None => None::<usize>,
                },
                None => None::<usize>,
            }),
            r matches Some(i) ==> i < view.ids@.len(),
    {
        match self.selected {
            Some(id) => position_in(&view.ids, id),
            None => None,
        }
    }
}

/// The first position of `v` in `cycle`, if it occurs.
pub open spec fn first_index_of(cycle: Seq<ChannelView>, v: ChannelView) -> Option<int> {
    if exists|i: int| 0 <= i < cycle.len() && cycle[i] == v {
        Some(choose|i: int| 0 <= i < cycle.len() && cycle[i] == v && forall|j: int| 0 <= j < i ==> cycle[j] != v)
    } else {
        None
    }
}

/// The view that cycling moves to from `current`: the entry after its
/// first occurrence in `cycle` (wrapping), or `cycle`'s first entry when
/// `current` is not in it (`unified` for an empty cycle).
pub open spec fn next_view(cycle: Seq<ChannelView>, current: ChannelView) -> ChannelView {
    match first_index_of(cycle, current) {
        Some(i) => cycle[(i + 1) % (cycle.len() as int)],
        None => if cycle.len() > 0 {
            cycle[0]
        } else {
            ChannelView::Unified
        },
    }
}

/// Cycling views moves from a view to the entry after its first
/// occurrence `i` in the cycle, wrapping from the last entry to the first.
pub proof fn lemma_next_view_after(cycle: Seq<ChannelView>, current: ChannelView, i: int)
    requires
        0 <= i < cycle.len(),
        cycle[i] == current,
        forall|j: int| 0 <= j < i ==> cycle[j] != current,
    ensures
        next_view(cycle, current) == cycle[(i + 1) % (cycle.len() as int)],
{
    lemma_first_index_at(cycle, current, i);
}

/// Cycling views moves from a view that does not occur in a non-empty
/// cycle to the cycle's first entry.
pub proof fn lemma_next_view_absent(cycle: Seq<ChannelView>, current: ChannelView)
    requires
        cycle.len() > 0,
        forall|i: int| 0 <= i < cycle.len() ==> cycle[i] != current,
    ensures
        next_view(cycle, current) == cycle[0],
{
}

/// A first occurrence is what `first_index_of` finds.
proof fn lemma_first_index_at(cycle: Seq<ChannelView>, v: ChannelView, i: int)
    requires
        0 <= i < cycle.len(),
        cycle[i] == v,
        forall|j: int| 0 <= j < i ==> cycle[j] != v,
    ensures
        first_index_of(cycle, v) == Some(i),
{
    let w = choose|w: int|
        0 <= w < cycle.len() && cycle[w] == v && forall|j: int| 0 <= j < w ==> cycle[j] != v;
    if w < i {
        assert(cycle[w] != v);
    } else if w > i {
        assert(cycle[i] != v);
    }
}

/// How many objects a page move steps over: the page size, at least one.
pub open spec fn page_steps(page_size: usize) -> nat {
    if page_size > 1 {
        page_size as nat
    } else {
        1
    }
}

/// The selection after `k` steps down from `selected` in a non-empty list.
pub open spec fn steps_down(ids: Seq<ObjectId>, selected: Option<ObjectId>, k: nat) -> Option<ObjectId>
    decreases k,
{
    if k == 0 {
        selected
    } else {
        next_of(ids, steps_down(ids, selected, (k - 1) as nat))
    }
}

/// The selection after `k` steps up from `selected` in a non-empty list.
pub open spec fn steps_up(ids: Seq<ObjectId>, selected: Option<ObjectId>, k: nat) -> Option<ObjectId>
    decreases k,
{
    if k == 0 {
        selected
    } else {
        previous_of(ids, steps_up(ids, selected, (k - 1) as nat))
    }
}

/// The first position of `v` in `cycle`.
fn find_view(cycle: &Vec<ChannelView>, v: ChannelView) -> (r: Option<usize>)
    ensures
        match r {
            Some(i) => first_index_of(cycle@, v) == Some(i as int) && i < cycle@.len(),
            None => first_index_of(cycle@, v) is None,
        },
{
    let mut i: usize = 0;
    while i < cycle.len()
        invariant
            i <= cycle@.len(),
            forall|j: int| 0 <= j < i ==> cycle@[j] != v,
        decreases cycle.len() - i,
    {
        if cycle[i] == v {
            proof {
                assert(0 <= i < cycle@.len() && cycle@[i as int] == v && forall|j: int|
                    0 <= j < i ==> cycle@[j] != v);
                let w = choose|w: int|
                    0 <= w < cycle@.len() && cycle@[w] == v && forall|j: int|
                        0 <= j < w ==> cycle@[j] != v;
                if w < i {
                    assert(cycle@[w] != v);
                } else if w > i {
                    assert(cycle@[i as int] != v);
                }
            }
            return Some(i);
        }
        i += 1;
    }
    None
}

/// Where the selection goes when `object_id` is hidden: the object after
/// it, else the one before it, else nowhere.
pub open spec fn release_target(ids: Seq<ObjectId>, object_id: ObjectId) -> Option<ObjectId> {
    match next_of(ids, Some(object_id)) {
        Some(id) if id != object_id => Some(id),
        _ => match previous_of(ids, Some(object_id)) {
            Some(id) if id != object_id => Some(id),
            _ => None,
        },
    }
}

/// The rows of the list's parts: a one-row header, the list taking the
/// rest, a one-row footer.
pub open spec fn list_rows() -> Seq<Extent> {
    seq![Extent::Exactly(1), Extent::AtLeast(0), Extent::Exactly(1)]
}

/// The first object shown from the viewport's `top`, within a list of
/// `len` objects.
pub open spec fn first_shown(top: usize, len: nat) -> int {
    if top <= len {
        top as int
    } else {
        len as int
    }
}

/// The rows of the objects shown from `start`: exactly each of the
/// `visible` objects' heights, then at most the next object's height (for
/// an object cut off at the bottom; none when the list ends).
pub open spec fn object_rows_of(heights: Seq<u16>, start: int, visible: int) -> Seq<Extent> {
    let partial: u16 = if start + visible < heights.len() {
        heights[start + visible]
    } else {
        0
    };
    Seq::new(visible as nat, |k: int| Extent::Exactly(heights[start + k])).push(Extent::AtMost(partial))
}

/// Rows the first `k` objects from `start` take, each followed by
/// `spacing` rows.
pub open spec fn stacked_rows(heights: Seq<u16>, start: int, spacing: u16, k: nat) -> int
    decreases k,
{
    if k == 0 {
        0
    } else {
        stacked_rows(heights, start, spacing, (k - 1) as nat) + heights[start + k - 1] + spacing
    }
}

/// The exact rows of the first `k` objects take what `stacked_rows` counts,
/// less the spacing after the last of them.
proof fn lemma_exact_size_needed(heights: Seq<u16>, start: int, spacing: u16, k: nat)
    requires
        1 <= k,
        0 <= start,
        start + k <= heights.len(),
    ensures
        size_needed(Seq::new(k, |j: int| Extent::Exactly(heights[start + j])), spacing) + spacing
            == stacked_rows(heights, start, spacing, k),
    decreases k,
{
    let parts = Seq::new(k, |j: int| Extent::Exactly(heights[start + j]));
    assert(parts.last() == Extent::Exactly(heights[start + k - 1]));
    if k > 1 {
        let prev = Seq::new((k - 1) as nat, |j: int| Extent::Exactly(heights[start + j]));
        assert(parts.drop_last() =~= prev);
        lemma_exact_size_needed(heights, start, spacing, (k - 1) as nat);
    } else {
        assert(parts[0] == Extent::Exactly(heights[start]));
        assert(stacked_rows(heights, start, spacing, 0) == 0);
    }
}

/// The object rows from `start` fit where the objects and their spacing
/// do.
pub proof fn lemma_object_size_needed(heights: Seq<u16>, start: int, spacing: u16, visible: nat)
    requires
        0 <= start,
        start + visible <= heights.len(),
    ensures
        size_needed(object_rows_of(heights, start, visible as int), spacing) == stacked_rows(
            heights,
            start,
            spacing,
            visible,
        ),
{
    let parts = object_rows_of(heights, start, visible as int);
    let exact = Seq::new(visible, |k: int| Extent::Exactly(heights[start + k]));
    assert(parts.drop_last() =~= exact);
    if visible >= 1 {
        lemma_exact_size_needed(heights, start, spacing, visible);
    }
}

/// The rows handed to the layout for the `visible` objects shown from
/// `start` (see `object_rows_of`).
pub fn object_rows(heights: &Vec<u16>, start: usize, visible: usize) -> (r: Vec<Extent>)
    requires
        start <= heights@.len(),
        visible <= heights@.len() - start,
    ensures
        r@ == object_rows_of(heights@, start as int, visible as int),
{
    let len = heights.len();
    let end = start + visible;
    let mut rows: Vec<Extent> = Vec::new();
    let mut i = start;
    while i < end
        invariant
            start <= i <= end,
            end <= heights@.len(),
            rows@ =~= Seq::new((i - start) as nat, |k: int| Extent::Exactly(heights@[start + k])),
        decreases end - i,
    {
        rows.push(Extent::Exactly(heights[i]));
        i += 1;
    }
    let partial = if end < len {
        heights[end]
    } else {
        0
    };
    rows.push(Extent::AtMost(partial));
    rows
}

impl<T> ObjectList<T> {
    /// The header row (scroll-up mark), list area and footer row
    /// (scroll-down mark) of the list's `area`, as the layout of
    /// `list_rows` splits it: from the area's top, in that order; with two
    /// rows or more, a header and footer of one row each at the area's top
    /// and bottom and the list in between.
    pub fn areas(&self, area: &Area) -> (r: (Area, Area, Area))
        ensures
            in_rows_of(r.0, *area),
            in_rows_of(r.1, *area),
            in_rows_of(r.2, *area),
            r.0.y == area.y,
            r.0.y + r.0.height <= r.1.y,
            r.1.y + r.1.height <= r.2.y,
            area.spec_bottom() - area.y >= 2 ==> {
                &&& r.0.height == 1
                &&& r.1.y == area.y + 1
                &&& r.2.y == r.1.y + r.1.height
                &&& r.2.height == 1
                &&& r.2.y + 1 == area.spec_bottom()
            },
    {
        let parts = vec![Extent::Exactly(1), Extent::AtLeast(0), Extent::Exactly(1)];
        proof {
            assert(parts@ =~= list_rows());
            assert(parts@.drop_last().drop_last() =~= seq![Extent::Exactly(1)]);
            assert(parts@.drop_last() =~= seq![Extent::Exactly(1), Extent::AtLeast(0)]);
            reveal_with_fuel(size_needed, 4);
            assert(size_needed(parts@, 0) == 2);
            assert(parts@[1] is AtLeast);
            assert(grows(parts@));
        }
        let split = split_area(*area, &parts, 0, Axis::Down, Flow::Start);
        proof {
            assert(in_rows_of(split@[0], *area));
            assert(in_rows_of(split@[1], *area));
            assert(in_rows_of(split@[2], *area));
        }
        (split[0], split[1], split[2])
    }

    /// The areas of the objects shown from the top of the viewport in
    /// `list_area`, as the layout of `object_rows_of` splits it, `spacing`
    /// rows apart: in order from the list's top and, where the `visible`
    /// objects and their spacing fit, each visible object at its height
    /// `spacing` rows below the one before, and the object cut off at the
    /// bottom at its height or the rows left, whichever is fewer.
    pub fn objects_layout(&self, heights: &Vec<u16>, visible: usize, spacing: u16, list_area: Area) -> (r: Vec<Area>)
        requires
            visible <= heights@.len() - first_shown(self.top, heights@.len()),
        ensures
            ({
                let start = first_shown(self.top, heights@.len());
                let partial: u16 = if start + visible < heights@.len() {
                    heights@[start + visible]
                } else {
                    0
                };
                &&& r@.len() == visible + 1
                &&& forall|i: int| 0 <= i < r@.len() ==> in_rows_of(#[trigger] r@[i], list_area)
                &&& spacing <= 0x7fff ==> r@[0].y == list_area.y
                &&& spacing <= 0x7fff ==> forall|i: int|
                    1 <= i < r@.len() ==> r@[i - 1].y + r@[i - 1].height <= #[trigger] r@[i].y
                &&& spacing <= 0x7fff && stacked_rows(heights@, start, spacing, visible as nat)
                    <= list_area.spec_bottom() - list_area.y ==> {
                    &&& forall|k: int| 0 <= k < visible ==> #[trigger] r@[k].height == heights@[start + k]
                    &&& forall|k: int|
                        1 <= k <= visible ==> #[trigger] r@[k].y == r@[k - 1].y + heights@[start + k
                            - 1] + spacing
                    &&& r@[visible as int].height == min16(
                        partial,
                        sat_sub16(list_area.spec_bottom(), r@[visible as int].y),
                    )
                }
            }),
    {
        let start = if self.top <= heights.len() {
            self.top
        } else {
            heights.len()
        };
        let parts = object_rows(heights, start, visible);
        let split = split_area(list_area, &parts, spacing, Axis::Down, Flow::Start);
        proof {
            lemma_object_size_needed(heights@, start as int, spacing, visible as nat);
            let needed = stacked_rows(heights@, start as int, spacing, visible as nat);
            if spacing <= 0x7fff && needed <= list_area.spec_bottom() - list_area.y {
                assert(stacked(split@, parts@, spacing, list_area, Axis::Down, Flow::Start));
                assert forall|k: int| 0 <= k < visible implies #[trigger] split@[k].height
                    == heights@[start + k] by {
                    assert(parts@[k] == Extent::Exactly(heights@[start + k]));
                }
                assert forall|k: int| 1 <= k <= visible implies #[trigger] split@[k].y
                    == split@[k - 1].y + heights@[start + k - 1] + spacing by {
                    assert(parts@[k - 1] == Extent::Exactly(heights@[start + k - 1]));
                    assert(split@[k - 1].height == heights@[start + k - 1]);
                }
                assert(!grows(parts@)) by {
                    if grows(parts@) {
                        let i = choose|i: int| 0 <= i < parts@.len() && parts@[i] is AtLeast;
                        assert(parts@[i] !is AtLeast);
                    }
                }
            }
        }
        split
    }
}

/// Rows an item takes in the list: its own height plus the spacing after
/// it, capped at the largest row count.
pub open spec fn item_step(height: u16, spacing: u16) -> int {
    if height + spacing > u16::MAX {
        u16::MAX as int
    } else {
        height + spacing
    }
}

/// Rows the `k` items starting at `start` take together, capped at the
/// largest row count.
pub open spec fn rows_used(heights: Seq<u16>, start: int, spacing: u16, k: nat) -> int
    decreases k,
{
    if k == 0 {
        0
    } else {
        let sum = rows_used(heights, start, spacing, (k - 1) as nat) + item_step(
            heights[start + k - 1],
            spacing,
        );
        if sum > u16::MAX {
            u16::MAX as int
        } else {
            sum
        }
    }
}

/// How many items, from `start` on, fit whole into `list_height` rows:
/// the items are taken in order until the next one no longer fits.
pub open spec fn fits(heights: Seq<u16>, start: int, spacing: u16, list_height: u16, count: nat) -> bool {
    &&& start + count <= heights.len()
    &&& rows_used(heights, start, spacing, count) <= list_height
    &&& start + count < heights.len() ==> rows_used(heights, start, spacing, count + 1)
        > list_height
}

/// The number of items, from `start` on, that fit whole into
/// `list_height` rows (each followed by `spacing` rows), and the rows they
/// take.
pub fn fit_count(heights: &Vec<u16>, start: usize, spacing: u16, list_height: u16) -> (r: (usize, u16))
    requires
        start <= heights@.len(),
    ensures
        fits(heights@, start as int, spacing, list_height, r.0 as nat),
        r.1 == rows_used(heights@, start as int, spacing, r.0 as nat),
{
    let mut used: u16 = 0;
    let mut count: usize = 0;
    while count < heights.len() - start
        invariant
            start <= heights@.len(),
            start + count <= heights@.len(),
            used == rows_used(heights@, start as int, spacing, count as nat),
            used <= list_height,
        decreases heights@.len() - start - count,
    {
        let step = heights[start + count].saturating_add(spacing);
        if used.saturating_add(step) > list_height {
            return (count, used);
        }
        used = used.saturating_add(step);
        count += 1;
    }
    (count, used)
}

/// Where the viewport's top goes to keep the selection (at position
/// `index`, if any) in view: if the list shrank below the top, up so
/// that the end of the list shows; then, if the selection is below the
/// viewport, so that it is the last visible item; if above, so that it
/// is the first.
pub open spec fn scrolled_top(top: usize, len: usize, visible: usize, index: Option<usize>) -> usize {
    let top1 = if top >= len {
        if len >= visible {
            (len - visible) as usize
        } else {
            0
        }
    } else {
        top
    };
    match index {
        Some(i) => if i >= top1 + visible {
            let keep = if visible >= 1 {
                visible - 1
            } else {
                0
            };
            if i >= keep {
                (i - keep) as usize
            } else {
                0
            }
        } else if i < top1 {
            i
        } else {
            top1
        },
        None => top1,
    }
}

impl<T> ObjectList<T> {
    /// Number of objects, from the top of the viewport, that fit whole in
    /// a list area `list_height` rows tall (see `areas`). `heights` holds every object's
    /// height in list order; each object is followed by `item_spacing`
    /// rows, and one more when dividers are shown.
    pub fn visible_count(&self, heights: &Vec<u16>, item_spacing: u16, show_dividers: bool, list_height: u16) -> (r: usize)
        requires
            show_dividers ==> item_spacing < u16::MAX,
        ensures
            fits(
                heights@,
                first_shown(self.top, heights@.len()),
                row_spacing(item_spacing, show_dividers),
                list_height,
                r as nat,
            ),
    {
        let spacing = if show_dividers { item_spacing + 1 } else { item_spacing };
        let start = if self.top <= heights.len() { self.top } else { heights.len() };
        fit_count(heights, start, spacing, list_height).0
    }

    /// Reconciles the selection and viewport with the current objects:
    /// selects the first object when nothing listed is selected, records
    /// the page size, and scrolls so that the selection is visible (see
    /// `scrolled_top`). `heights` holds every object's height in list
    /// order.
    pub fn update(&mut self, view: &ListView, heights: &Vec<u16>, item_spacing: u16, show_dividers: bool, list_height: u16)
        requires
            view.valid(),
            heights@.len() == view.ids@.len(),
            show_dividers ==> item_spacing < u16::MAX,
        ensures
            ({
                let old_index = match old(self).selected {
                    Some(id) => index_in(view.ids@, id),
                    None => None::<int>,
                };
                let selection = if old_index is Some {
                    old(self).selected
                } else {
                    next_of(view.ids@, None)
                };
                let index = match selection {
                    Some(id) => index_in(view.ids@, id),
                    None => None::<int>,
                };
                let start = first_shown(old(self).top, heights@.len());
                &&& final(self).selected == selection
                &&& old_index is Some ==> final(self).selected_channel == old(self).selected_channel
                    && final(self).dropdown_selected == old(self).dropdown_selected
                &&& old_index is None ==> final(self).dropdown_selected is None
                    && final(self).selected_channel == (match selection {
                    Some(id) => initial_channel_of(
                        old(self).channel_mode,
                        channel_count_of(*view, old(self).list_kind, id),
                        false,
                    ),
                    None => None::<usize>,
                })
                &&& final(self).list_kind == old(self).list_kind
                &&& final(self).device_kind == old(self).device_kind
                &&& final(self).channel_mode == old(self).channel_mode
                &&& final(self).channel_display == old(self).channel_display
                &&& final(self).unified_imbalance == old(self).unified_imbalance
                &&& final(self).split_style == old(self).split_style
                &&& final(self).pair_label_style == old(self).pair_label_style
                &&& final(self).targets == old(self).targets
                &&& fits(
                    heights@,
                    start,
                    row_spacing(item_spacing, show_dividers),
                    list_height,
                    final(self).page_size as nat,
                )
                &&& final(self).top == scrolled_top(
                    old(self).top,
                    view.ids@.len() as usize,
                    final(self).page_size,
                    match index {
                        Some(i) => Some(i as usize),
                        None => None::<usize>,
                    },
                )
            }),
    {
        let selected_index = match self.selected_index(view) {
            Some(i) => Some(i),
            None => {
                let first = next_id(view, None);
                self.select(view, first, false);
                self.selected_index(view)
            },
        };
        let objects_len = view.ids.len();
        let spacing = if show_dividers { item_spacing + 1 } else { item_spacing };
        let start = if self.top <= heights.len() { self.top } else { heights.len() };
        let visible_count = fit_count(heights, start, spacing, list_height).0;
        self.page_size = visible_count;
        if self.top >= objects_len {
            self.top = objects_len.saturating_sub(visible_count);
        }
        if self.selected.is_some() {
            match selected_index {
                Some(selected_index) => {
                    if selected_index >= self.top.saturating_add(visible_count) {
                        let visible_count_except_last = visible_count.saturating_sub(1);
                        self.top = selected_index.saturating_sub(visible_count_except_last);
                    } else if selected_index < self.top {
                        self.top = selected_index;
                    }
                },
                None => self.select(view, None, false),
            }
        }
    }

    /// Whether to show the "more items" marks above and below the list:
    /// above when objects are scrolled off the top; below when objects
    /// remain past the visible ones - except when only one remains and it
    /// fits, margins aside, into the rows left over.
    pub fn scroll_marks(&self, heights: &Vec<u16>, item_spacing: u16, show_dividers: bool, list_height: u16) -> (r: (bool, bool))
        requires
            show_dividers ==> item_spacing < u16::MAX,
        ensures
            ({
                let spacing = row_spacing(item_spacing, show_dividers);
                let len = heights@.len();
                let start = first_shown(self.top, len);
                forall|visible: nat|
                    fits(heights@, start, spacing, list_height, visible) ==> {
                        let used = rows_used(heights@, start, spacing, visible);
                        let bottom_last = start + visible == len - 1;
                        let bottom_enough = start + visible < len ==> list_height - used
                            >= heights@[start + visible];
                        &&& r.0 == (self.top > 0)
                        &&& r.1 == (start + visible < len && !(bottom_last && bottom_enough))
                    }
            }),
    {
        let spacing = if show_dividers { item_spacing + 1 } else { item_spacing };
        let len = heights.len();
        let start = if self.top <= len { self.top } else { len };
        let (visible, used) = fit_count(heights, start, spacing, list_height);
        proof {
            lemma_fits_unique(heights@, start as int, spacing, list_height, visible as nat);
        }
        let end = start + visible;
        let bottom_last = len > 0 && end == len - 1;
        let bottom_enough = if end < len {
            list_height - used >= heights[end]
        } else {
            true
        };
        (self.top > 0, end < len && !(bottom_last && bottom_enough))
    }
}

/// The item counts that fit are unique: `fits` pins down one count.
pub proof fn lemma_fits_unique(heights: Seq<u16>, start: int, spacing: u16, list_height: u16, count: nat)
    requires
        fits(heights, start, spacing, list_height, count),
    ensures
        forall|other: nat| fits(heights, start, spacing, list_height, other) ==> other == count,
{
    assert forall|other: nat| fits(heights, start, spacing, list_height, other) implies other
        == count by {
        if other < count {
            lemma_rows_used_monotone(heights, start, spacing, other + 1, count);
        } else if other > count {
            lemma_rows_used_monotone(heights, start, spacing, count + 1, other);
        }
    }
}

/// More items take at least as many rows.
pub proof fn lemma_rows_used_monotone(heights: Seq<u16>, start: int, spacing: u16, a: nat, b: nat)
    requires
        a <= b,
    ensures
        rows_used(heights, start, spacing, a) <= rows_used(heights, start, spacing, b),
    decreases b - a,
{
    if a < b {
        lemma_rows_used_monotone(heights, start, spacing, a, (b - 1) as nat);
    }
}

/// Whether a selected row's highlight may extend into the header row
/// above the list (only for the very first object, when the list is
/// scrolled to the top) and into the footer row below it (only for the
/// very last object). `i` is the row's position among the visible ones.
pub fn selected_row_extends(top: usize, i: usize, total: usize) -> (r: (bool, bool))
    ensures
        r == (i == 0 && top == 0, top + i + 1 == total),
{
    let into_footer = match top.checked_add(i) {
        Some(t) => match t.checked_add(1) {
            Some(end) => end == total,
            None => false,
        },
        None => false,
    };
    (i == 0 && top == 0, into_footer)
}


/// After an update, a listed selection lies among the visible objects
/// whenever at least one object fits: the viewport's new top is at or
/// above it, and it is fewer than `visible` objects below that top.
pub proof fn lemma_selection_stays_visible(top: usize, len: usize, visible: usize, index: usize)
    requires
        visible >= 1,
        index < len,
    ensures
        scrolled_top(top, len, visible, Some(index)) <= index,
        index < scrolled_top(top, len, visible, Some(index)) + visible,
{
}

/// The rows between objects: the item spacing, and one more when dividers
/// are shown, so that a divider sits centered in the gap.
pub open spec fn row_spacing(item_spacing: u16, show_dividers: bool) -> u16 {
    if show_dividers {
        (item_spacing + 1) as u16
    } else {
        item_spacing
    }
}

/// A node of the view with what it links to, where it has them: the
/// client that created it and the device it belongs to.
#[derive(Debug, Clone, Copy, PartialEq, Eq, Structural)]
pub struct NodeLinks {
    pub node: ObjectId,
    pub client: Option<ObjectId>,
    pub device: Option<ObjectId>,
}

/// `id` is the client or the device of `node`, as the view's `nodes` give
/// them.
pub open spec fn linked(nodes: Seq<NodeLinks>, node: ObjectId, id: ObjectId) -> bool {
    exists|p: int|
        0 <= p < nodes.len() && (#[trigger] nodes[p]).node == node && (nodes[p].client == Some(id)
            || nodes[p].device == Some(id))
}

/// Whether the row of the object at position `k` shows the state of object
/// `id`: the object itself, its client and device, and, in a node list,
/// the target it resolves to (`targets[k]`) with that target's client and
/// device.
pub open spec fn row_shows(
    ids: Seq<ObjectId>,
    nodes: Seq<NodeLinks>,
    targets: Seq<Option<ObjectId>>,
    kind: ListKind,
    k: int,
    id: ObjectId,
) -> bool {
    ||| ids[k] == id
    ||| linked(nodes, ids[k], id)
    ||| kind is Node && (targets[k] matches Some(t) && (t == id || linked(nodes, t, id)))
}

/// Whether the rows of the objects at positions `top` up to `last` show
/// the state of object `id`; object 0, the global state, always counts.
pub open spec fn is_shown(
    ids: Seq<ObjectId>,
    nodes: Seq<NodeLinks>,
    targets: Seq<Option<ObjectId>>,
    kind: ListKind,
    top: int,
    last: int,
    id: ObjectId,
) -> bool {
    id == 0 || exists|k: int| top <= k < last && #[trigger] row_shows(ids, nodes, targets, kind, k, id)
}

/// Taking the row at position `k` in adds what it shows.
proof fn lemma_shown_step(
    ids: Seq<ObjectId>,
    nodes: Seq<NodeLinks>,
    targets: Seq<Option<ObjectId>>,
    kind: ListKind,
    top: int,
    k: int,
    id: ObjectId,
)
    requires
        top <= k,
    ensures
        is_shown(ids, nodes, targets, kind, top, k + 1, id) == (is_shown(
            ids,
            nodes,
            targets,
            kind,
            top,
            k,
            id,
        ) || row_shows(ids, nodes, targets, kind, k, id)),
{
    if is_shown(ids, nodes, targets, kind, top, k + 1, id) && id != 0 {
        let m = choose|m: int| top <= m < k + 1 && #[trigger] row_shows(ids, nodes, targets, kind, m, id);
        if m < k {
            assert(top <= m < k && row_shows(ids, nodes, targets, kind, m, id));
        }
    }
    if is_shown(ids, nodes, targets, kind, top, k, id) && id != 0 {
        let m = choose|m: int| top <= m < k && #[trigger] row_shows(ids, nodes, targets, kind, m, id);
        assert(top <= m < k + 1 && row_shows(ids, nodes, targets, kind, m, id));
    }
    if row_shows(ids, nodes, targets, kind, k, id) {
        assert(top <= k < k + 1 && row_shows(ids, nodes, targets, kind, k, id));
    }
}

/// `shown` with the client and the device of `node` added.
fn with_links(shown: HashSet<ObjectId>, nodes: &Vec<NodeLinks>, node: ObjectId) -> (r: HashSet<ObjectId>)
    ensures
        forall|id: ObjectId| r@.contains(id) == (shown@.contains(id) || linked(nodes@, node, id)),
{
    let ghost before = shown@;
    let mut set = shown;
    let mut p: usize = 0;
    while p < nodes.len()
        invariant
            p <= nodes@.len(),
            forall|id: ObjectId|
                #[trigger] set@.contains(id) == (before.contains(id) || exists|q: int|
                    0 <= q < p && (#[trigger] nodes@[q]).node == node && (nodes@[q].client == Some(
                        id,
                    ) || nodes@[q].device == Some(id))),
        decreases nodes@.len() - p,
    {
        let ghost start = set@;
        let links = nodes[p];
        if links.node == node {
            if let Some(client) = links.client {
                set.insert(client);
            }
            if let Some(device) = links.device {
                set.insert(device);
            }
        }
        proof {
            assert(links == nodes@[p as int]);
            assert forall|id: ObjectId|
                #[trigger] set@.contains(id) == (before.contains(id) || exists|q: int|
                    0 <= q < p + 1 && (#[trigger] nodes@[q]).node == node && (nodes@[q].client
                        == Some(id) || nodes@[q].device == Some(id))) by {
                assert(set@.contains(id) == (start.contains(id) || (links.node == node && (
                links.client == Some(id) || links.device == Some(id)))));
                if links.node == node && (links.client == Some(id) || links.device == Some(id)) {
                    assert(0 <= p < p + 1 && nodes@[p as int].node == node);
                }
                if start.contains(id) && !before.contains(id) {
                    let q = choose|q: int|
                        0 <= q < p && (#[trigger] nodes@[q]).node == node && (nodes@[q].client
                            == Some(id) || nodes@[q].device == Some(id));
                    assert(0 <= q < p + 1 && nodes@[q].node == node);
                }
                if (exists|q: int|
                    0 <= q < p + 1 && (#[trigger] nodes@[q]).node == node && (nodes@[q].client
                        == Some(id) || nodes@[q].device == Some(id))) {
                    let q = choose|q: int|
                        0 <= q < p + 1 && (#[trigger] nodes@[q]).node == node && (nodes@[q].client
                            == Some(id) || nodes@[q].device == Some(id));
                    if q < p {
                        assert(0 <= q < p && nodes@[q].node == node);
                    }
                }
            }
        }
        p += 1;
    }
    set
}

impl<T> ObjectList<T> {
    /// The ids of the objects whose state the visible rows show (see
    /// `is_shown`): those from the top of the viewport that fit whole into
    /// a list area `list_height` rows tall, with their clients and devices
    /// (from `nodes`, the view's nodes) and, in a node list, the targets
    /// they resolve to (`targets`, one per listed object) with those
    /// targets' clients and devices.
    pub fn visible_objects(
        &self,
        view: &ListView,
        nodes: &Vec<NodeLinks>,
        targets: &Vec<Option<ObjectId>>,
        heights: &Vec<u16>,
        item_spacing: u16,
        show_dividers: bool,
        list_height: u16,
    ) -> (r: HashSet<ObjectId>)
        requires
            view.valid(),
            targets@.len() == view.ids@.len(),
            heights@.len() == view.ids@.len(),
            self.top <= heights@.len(),
            show_dividers ==> item_spacing < u16::MAX,
        ensures
            exists|count: nat|
                {
                    &&& #[trigger] fits(
                        heights@,
                        self.top as int,
                        row_spacing(item_spacing, show_dividers),
                        list_height,
                        count,
                    )
                    &&& forall|id: ObjectId|
                        r@.contains(id) == is_shown(
                            view.ids@,
                            nodes@,
                            targets@,
                            self.list_kind,
                            self.top as int,
                            self.top + count,
                            id,
                        )
                },
    {
        let count = self.visible_count(heights, item_spacing, show_dividers, list_height);
        let len = view.ids.len();
        let last = if count <= len - self.top {
            self.top + count
        } else {
            len
        };
        let ghost ids = view.ids@;
        let ghost kind = self.list_kind;
        let mut shown: HashSet<ObjectId> = HashSet::new();
        shown.insert(0);
        let mut i = self.top;
        while i < last
            invariant
                self.top <= i <= last,
                last <= view.ids@.len(),
                ids == view.ids@,
                kind == self.list_kind,
                targets@.len() == view.ids@.len(),
                forall|id: ObjectId|
                    shown@.contains(id) == is_shown(
                        ids,
                        nodes@,
                        targets@,
                        kind,
                        self.top as int,
                        i as int,
                        id,
                    ),
            decreases last - i,
        {
            let object = view.ids[i];
            shown.insert(object);
            shown = with_links(shown, nodes, object);
            if self.list_kind == ListKind::Node {
                if let Some(target) = targets[i] {
                    shown.insert(target);
                    shown = with_links(shown, nodes, target);
                }
            }
            proof {
                assert forall|id: ObjectId|
                    shown@.contains(id) == is_shown(
                        ids,
                        nodes@,
                        targets@,
                        kind,
                        self.top as int,
                        i + 1,
                        id,
                    ) by {
                    lemma_shown_step(ids, nodes@, targets@, kind, self.top as int, i as int, id);
                }
            }
            i += 1;
        }
        shown
    }
}

/// Where the divider below `object_area` goes: a row as wide as the
/// object, on the middle row of the gap below it (one blank row above
/// it), clipped to `list_area`; none when dividers are off or none of it
/// lies in the list.
pub open spec fn divider_spec(show_dividers: bool, object_area: Area, list_area: Area) -> Option<Area> {
    if !show_dividers {
        None
    } else {
        let row = Area {
            x: object_area.x,
            y: sat_add16(sat_add16(object_area.y, object_area.height), 1),
            width: object_area.width,
            height: 1,
        };
        let clipped = list_area.spec_intersection(row);
        if clipped.width == 0 || clipped.height == 0 {
            None
        } else {
            Some(clipped)
        }
    }
}

/// Where to draw the divider below `object_area` (see `divider_spec`). A
/// divider never reaches outside `list_area`.
pub fn divider_area(show_dividers: bool, object_area: Area, list_area: Area) -> (r: Option<Area>)
    ensures
        r == divider_spec(show_dividers, object_area, list_area),
        r matches Some(d) ==> {
            &&& list_area.x <= d.x
            &&& d.spec_right() <= list_area.spec_right()
            &&& list_area.y <= d.y
            &&& d.spec_bottom() <= list_area.spec_bottom()
        },
{
    if !show_dividers {
        return None;
    }
    let row = Area {
        x: object_area.x,
        y: object_area.y.saturating_add(object_area.height).saturating_add(1),
        width: object_area.width,
        height: 1,
    };
    let clipped = list_area.intersection(&row);
    proof {
        lemma_intersection_within(list_area, row);
    }
    if clipped.is_empty() {
        None
    } else {
        Some(clipped)
    }
}

/// The row just above (`above`) or just below a selected object's area
/// that its highlight extends into, clipped to `clip`, and the part of it
/// in the object's leftmost column, where the selector mark goes. A
/// spacing of zero leaves no row to extend into.
pub open spec fn extension_spec(object_area: Area, clip: Area, spacing: u16, above: bool) -> (Area, Area) {
    let rows: u16 = if spacing >= 1 {
        1
    } else {
        0
    };
    let y = if above {
        sat_sub16(object_area.y, rows)
    } else {
        sat_add16(object_area.y, object_area.height)
    };
    let row = Area { x: object_area.x, y, width: object_area.width, height: rows };
    let mark = Area { x: object_area.x, y, width: 1, height: rows };
    (clip.spec_intersection(row), clip.spec_intersection(mark))
}

/// The areas a selected object's highlight extends into above and below
/// it (see `extension_spec`), each only when configured. The second area
/// of each pair, where the selector mark is repeated, is given only when
/// the selected-row style changes anything, since repeating the mark
/// draws glyphs while an empty style paints nothing.
pub fn selected_row_extensions(
    extend_above: bool,
    extend_below: bool,
    row_selected: Style,
    object_area: Area,
    above_clip: Area,
    below_clip: Area,
    spacing: u16,
) -> (r: (Option<(Area, Option<Area>)>, Option<(Area, Option<Area>)>))
    ensures
        ({
            let marks = row_selected != crate::config::theme::no_style();
            let (above_fill, above_mark) = extension_spec(object_area, above_clip, spacing, true);
            let (below_fill, below_mark) = extension_spec(object_area, below_clip, spacing, false);
            &&& r.0 == if extend_above {
                Some((above_fill, if marks { Some(above_mark) } else { None }))
            } else {
                None
            }
            &&& r.1 == if extend_below {
                Some((below_fill, if marks { Some(below_mark) } else { None }))
            } else {
                None
            }
        }),
{
    let rows: u16 = if spacing >= 1 {
        1
    } else {
        0
    };
    let marks = row_selected != Style::default();
    let above = if extend_above {
        let y = object_area.y.saturating_sub(rows);
        let row = Area { x: object_area.x, y, width: object_area.width, height: rows };
        let mark = Area { x: object_area.x, y, width: 1, height: rows };
        Some(
            (
                above_clip.intersection(&row),
                if marks {
                    Some(above_clip.intersection(&mark))
                } else {
                    None
                },
            ),
        )
    } else {
        None
    };
    let below = if extend_below {
        let y = object_area.y.saturating_add(object_area.height);
        let row = Area { x: object_area.x, y, width: object_area.width, height: rows };
        let mark = Area { x: object_area.x, y, width: 1, height: rows };
        Some(
            (
                below_clip.intersection(&row),
                if marks {
                    Some(below_clip.intersection(&mark))
                } else {
                    None
                },
            ),
        )
    } else {
        None
    };
    (above, below)
}

} // verus!
