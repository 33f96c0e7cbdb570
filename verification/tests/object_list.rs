use wiremix::area::Area;
use wiremix::config::theme::Style;
use wiremix::config::{ChannelDisplay, ChannelView};
use wiremix::node_widget::NodeWidget;
use wiremix::object_list::{
    divider_area, fit_count, object_rows, selected_row_extends, selected_row_extensions,
    DefaultCommand, DeviceKind, ListKind, ListView, NodeLinks, ObjectList,
};
use wiremix::layout::Extent;

/// Ten nodes, ids 1 to 10, two channels each.
fn ten_nodes() -> ListView {
    ListView { ids: (1..=10).collect(), channels: vec![2; 10] }
}

fn heights(view: &ListView) -> Vec<u16> {
    vec![NodeWidget::height(); view.ids.len()]
}

/// Room for `n` nodes of the default height, plus the header and footer
/// rows.
fn room_for(n: u16) -> Area {
    let height = NodeWidget::height() + NodeWidget::spacing();
    Area::new(0, 0, 80, height * n + 2)
}

/// The rows of the list area of `area`, between the header and footer.
fn list_height(area: Area) -> u16 {
    node_list().areas(&area).1.height
}

/// No listed object has a target.
fn untargeted(view: &ListView) -> Vec<Option<u32>> {
    vec![None; view.ids.len()]
}

fn node_list() -> ObjectList<u32> {
    ObjectList::new(ListKind::Node, None)
}

#[test]
fn object_list_up_overflow() {
    let view = ten_nodes();
    let rect = room_for(3);
    let mut object_list = node_list();
    object_list.down(&view);
    assert_eq!(object_list.top, 0);
    assert_eq!(object_list.selected, Some(1));

    object_list.up(&view);
    object_list.update(&view, &heights(&view), NodeWidget::spacing(), false, list_height(rect));
    assert_eq!(object_list.top, 0);
    assert_eq!(object_list.selected, Some(1));
}

#[test]
fn object_list_down_overflow() {
    let view = ten_nodes();
    let rect = room_for(3);
    let mut object_list = node_list();
    object_list.down(&view);
    assert_eq!(object_list.top, 0);
    assert_eq!(object_list.selected, Some(1));

    for _ in 0..(view.ids.len() * 2) {
        object_list.down(&view);
    }

    object_list.update(&view, &heights(&view), NodeWidget::spacing(), false, list_height(rect));
    assert_eq!(object_list.top, 7);
    assert_eq!(object_list.selected, Some(10));
}

#[test]
fn object_list_page_down_page_up() {
    let view = ten_nodes();
    let rect = room_for(3);
    let mut object_list = node_list();
    object_list.down(&view);
    object_list.update(&view, &heights(&view), NodeWidget::spacing(), false, list_height(rect));
    assert_eq!(object_list.selected, Some(1));
    assert_eq!(object_list.page_size, 3);

    object_list.page_down(&view);
    assert_eq!(object_list.selected, Some(4));

    object_list.page_up(&view);
    assert_eq!(object_list.selected, Some(1));
}

#[test]
fn object_list_page_down_overflow() {
    let view = ten_nodes();
    let rect = room_for(3);
    let h = heights(&view);
    let mut object_list = node_list();
    object_list.down(&view);
    object_list.update(&view, &h, NodeWidget::spacing(), false, list_height(rect));

    for _ in 0..10 {
        object_list.page_down(&view);
        object_list.update(&view, &h, NodeWidget::spacing(), false, list_height(rect));
    }
    assert_eq!(object_list.selected, Some(10));

    for _ in 0..10 {
        object_list.page_up(&view);
        object_list.update(&view, &h, NodeWidget::spacing(), false, list_height(rect));
    }
    assert_eq!(object_list.selected, Some(1));
}

#[test]
fn object_list_first_last() {
    let view = ten_nodes();
    let rect = room_for(3);
    let h = heights(&view);
    let mut object_list = node_list();
    object_list.down(&view);
    object_list.update(&view, &h, NodeWidget::spacing(), false, list_height(rect));
    object_list.page_down(&view);
    object_list.update(&view, &h, NodeWidget::spacing(), false, list_height(rect));

    object_list.last(&view);
    assert_eq!(object_list.selected, Some(10));

    object_list.first(&view);
    assert_eq!(object_list.selected, Some(1));
}

#[test]
fn channel_mode_down_cycles_channels_before_advancing_node() {
    let view = ten_nodes();
    let mut object_list = node_list();
    object_list.channel_mode = true;

    object_list.down(&view);
    assert_eq!(object_list.selected, Some(1));
    assert_eq!(object_list.selected_channel, Some(0));

    object_list.down(&view);
    assert_eq!(object_list.selected, Some(1));
    assert_eq!(object_list.selected_channel, Some(1));

    object_list.down(&view);
    assert_eq!(object_list.selected, Some(2));
    assert_eq!(object_list.selected_channel, Some(0));
}

#[test]
fn channel_mode_up_cycles_channels_before_receding_node() {
    let view = ten_nodes();
    let mut object_list = node_list();
    object_list.channel_mode = true;

    object_list.down(&view);
    object_list.down(&view);
    object_list.down(&view);
    object_list.down(&view);
    assert_eq!(object_list.selected, Some(2));
    assert_eq!(object_list.selected_channel, Some(1));

    object_list.up(&view);
    assert_eq!(object_list.selected, Some(2));
    assert_eq!(object_list.selected_channel, Some(0));

    object_list.up(&view);
    assert_eq!(object_list.selected, Some(1));
    assert_eq!(object_list.selected_channel, Some(1));
}

#[test]
fn channel_mode_up_and_down_are_exact_reverses() {
    let view = ten_nodes();
    let mut object_list = node_list();
    object_list.channel_mode = true;

    let mut visited = Vec::new();
    for _ in 0..5 {
        object_list.down(&view);
        visited.push((object_list.selected, object_list.selected_channel));
    }

    for expected in visited[..4].iter().rev() {
        object_list.up(&view);
        assert_eq!((object_list.selected, object_list.selected_channel), *expected);
    }
}

#[test]
fn channel_mode_skips_cycling_for_single_channel_node() {
    let view = ListView { ids: vec![1, 2], channels: vec![1, 2] };
    let mut object_list = node_list();
    object_list.channel_mode = true;

    object_list.down(&view);
    assert_eq!(object_list.selected, Some(1));
    assert_eq!(object_list.selected_channel, None);

    object_list.down(&view);
    assert_eq!(object_list.selected, Some(2));
    assert_eq!(object_list.selected_channel, Some(0));
}

#[test]
fn toggle_channel_mode_sets_initial_channel_for_current_selection() {
    let view = ten_nodes();
    let mut object_list = node_list();
    object_list.down(&view);
    assert_eq!(object_list.selected_channel, None);

    object_list.toggle_channel_mode(&view);
    assert!(object_list.channel_mode);
    assert_eq!(object_list.selected_channel, Some(0));

    object_list.toggle_channel_mode(&view);
    assert!(!object_list.channel_mode);
    assert_eq!(object_list.selected_channel, None);
}

#[test]
fn channel_view_derives_from_channel_mode_and_channel_display() {
    let mut object_list = node_list();
    assert_eq!(object_list.channel_view(), ChannelView::Unified);

    object_list.channel_display = ChannelDisplay::Always;
    assert_eq!(object_list.channel_view(), ChannelView::Linked);

    object_list.channel_mode = true;
    assert_eq!(object_list.channel_view(), ChannelView::Channels);
    object_list.channel_display = ChannelDisplay::Unified;
    assert_eq!(object_list.channel_view(), ChannelView::Channels);
}

#[test]
fn select_view_switches_channel_mode_and_channel_display() {
    let view = ten_nodes();
    let mut object_list = node_list();
    object_list.down(&view);

    object_list.select_view(ChannelView::Linked, &view);
    assert!(!object_list.channel_mode);
    assert_eq!(object_list.channel_display, ChannelDisplay::Always);
    assert_eq!(object_list.selected_channel, None);

    object_list.select_view(ChannelView::Channels, &view);
    assert!(object_list.channel_mode);
    assert_eq!(object_list.selected_channel, Some(0));

    object_list.select_view(ChannelView::Unified, &view);
    assert!(!object_list.channel_mode);
    assert_eq!(object_list.channel_display, ChannelDisplay::Unified);
    assert_eq!(object_list.selected_channel, None);
}

#[test]
fn cycle_channel_view_advances_through_view_cycle_and_wraps() {
    let view = ten_nodes();
    let cycle = vec![ChannelView::Unified, ChannelView::Linked, ChannelView::Channels];
    let mut object_list = node_list();
    object_list.down(&view);
    assert_eq!(object_list.channel_view(), ChannelView::Unified);

    object_list.cycle_channel_view(&cycle, &view);
    assert_eq!(object_list.channel_view(), ChannelView::Linked);

    object_list.cycle_channel_view(&cycle, &view);
    assert_eq!(object_list.channel_view(), ChannelView::Channels);

    object_list.cycle_channel_view(&cycle, &view);
    assert_eq!(object_list.channel_view(), ChannelView::Unified);
}

#[test]
fn cycle_channel_view_lands_on_first_entry_when_current_view_is_excluded() {
    let view = ten_nodes();
    let cycle = vec![ChannelView::Linked, ChannelView::Channels];
    let mut object_list = node_list();
    object_list.down(&view);
    assert_eq!(object_list.channel_view(), ChannelView::Unified);

    object_list.cycle_channel_view(&cycle, &view);
    assert_eq!(object_list.channel_view(), ChannelView::Linked);
}

#[test]
fn channel_mode_accounts_for_taller_nodes_in_visible_count() {
    // One node that is 5 rows tall once its 4 channels are shown, against
    // the ordinary height of 3.
    let rect = room_for(1);
    let object_list = node_list();
    assert_eq!(
        object_list.visible_count(&vec![NodeWidget::height()], NodeWidget::spacing(), false, list_height(rect)),
        1
    );
    assert_eq!(object_list.visible_count(&vec![5], NodeWidget::spacing(), false, list_height(rect)), 0);
}

#[test]
fn channel_mode_shrinks_visible_objects_for_lazy_capture() {
    let view = ListView { ids: vec![1], channels: vec![4] };
    let rect = room_for(1);
    let object_list = node_list();
    let visible = object_list.visible_objects(
        &view,
        &Vec::new(),
        &untargeted(&view),
        &vec![NodeWidget::height()],
        NodeWidget::spacing(),
        false,
        list_height(rect),
    );
    assert!(visible.contains(&1));

    let visible =
        object_list.visible_objects(&view, &Vec::new(), &untargeted(&view), &vec![5], NodeWidget::spacing(), false, list_height(rect));
    assert!(!visible.contains(&1));
}

#[test]
fn visible_objects_changes_with_scroll() {
    let view = ten_nodes();
    let h = heights(&view);
    let rect = room_for(3);
    let mut object_list = node_list();

    let visible = object_list.visible_objects(&view, &Vec::new(), &untargeted(&view), &h, NodeWidget::spacing(), false, list_height(rect));
    assert_eq!(visible.len(), 4);
    for id in [0, 1, 2, 3] {
        assert!(visible.contains(&id));
    }

    object_list.top = 5;
    let visible = object_list.visible_objects(&view, &Vec::new(), &untargeted(&view), &h, NodeWidget::spacing(), false, list_height(rect));
    assert_eq!(visible.len(), 4);
    for id in [0, 6, 7, 8] {
        assert!(visible.contains(&id));
    }

    object_list.top = 4;
    let visible = object_list.visible_objects(&view, &Vec::new(), &untargeted(&view), &h, NodeWidget::spacing(), false, list_height(rect));
    assert_eq!(visible.len(), 4);
    for id in [0, 5, 6, 7] {
        assert!(visible.contains(&id));
    }
}

#[test]
fn show_dividers_true_reserves_extra_row_per_item() {
    let view = ten_nodes();
    let h = heights(&view);
    let rect = room_for(3);
    let object_list = node_list();

    let without = object_list.visible_objects(&view, &Vec::new(), &untargeted(&view), &h, NodeWidget::spacing(), false, list_height(rect));
    let with = object_list.visible_objects(&view, &Vec::new(), &untargeted(&view), &h, NodeWidget::spacing(), true, list_height(rect));
    assert_eq!(without.len(), 4);
    assert_eq!(with.len(), 3);
}

#[test]
fn compact_layout_true_fits_more_rows_per_screen() {
    let view = ten_nodes();
    let compact_height = NodeWidget::height() - 1 + NodeWidget::spacing();
    let rect = Area::new(0, 0, 80, compact_height * 4 + 2);
    let object_list = node_list();

    let normal = object_list.visible_objects(
        &view,
        &Vec::new(),
        &untargeted(&view),
        &vec![NodeWidget::height(); 10],
        NodeWidget::spacing(),
        false,
        list_height(rect),
    );
    let compact = object_list.visible_objects(
        &view,
        &Vec::new(),
        &untargeted(&view),
        &vec![NodeWidget::height() - 1; 10],
        NodeWidget::spacing(),
        false,
        list_height(rect),
    );
    assert_eq!(normal.len(), 4);
    assert_eq!(compact.len(), 5);
}

#[test]
fn render_divider_noop_when_disabled() {
    let object_area = Area::new(0, 0, 10, 3);
    let list_area = Area::new(0, 0, 10, 10);
    assert_eq!(divider_area(false, object_area, list_area), None);
}

#[test]
fn render_divider_draws_when_enabled() {
    let object_area = Area::new(0, 0, 10, 3);
    let list_area = Area::new(0, 0, 10, 10);
    // Row 3, right below the item, stays blank: the divider is on row 4.
    assert_eq!(divider_area(true, object_area, list_area), Some(Area::new(0, 4, 10, 1)));
}

#[test]
fn render_divider_clips_to_list_area() {
    let object_area = Area::new(0, 8, 10, 3);
    let list_area = Area::new(0, 0, 10, 10);
    assert_eq!(divider_area(true, object_area, list_area), None);
}

#[test]
fn extend_selected_row_above_reaches_into_widened_clip() {
    let blue = Style::default().bg(wiremix::config::theme::Color::Blue);
    let object_area = Area::new(0, 1, 20, 3);
    let list_area = Area::new(0, 1, 20, 10);
    let widened = Area::new(0, 0, 20, 11);

    let (above, below) =
        selected_row_extensions(true, false, blue, object_area, list_area, list_area, NodeWidget::spacing());
    assert!(below.is_none());
    let (fill, mark) = above.unwrap();
    assert!(fill.is_empty());
    assert!(mark.unwrap().is_empty());

    let (above, _) =
        selected_row_extensions(true, false, blue, object_area, widened, list_area, NodeWidget::spacing());
    let (fill, mark) = above.unwrap();
    assert_eq!(fill, Area::new(0, 0, 20, 1));
    assert_eq!(mark, Some(Area::new(0, 0, 1, 1)));
}

#[test]
fn extend_selected_row_below_reaches_into_widened_clip() {
    let blue = Style::default().bg(wiremix::config::theme::Color::Blue);
    let object_area = Area::new(0, 0, 20, 3);
    let list_area = Area::new(0, 0, 20, 3);
    let widened = Area::new(0, 0, 20, 4);

    let (_, below) =
        selected_row_extensions(false, true, blue, object_area, list_area, list_area, NodeWidget::spacing());
    assert!(below.unwrap().0.is_empty());

    let (_, below) =
        selected_row_extensions(false, true, blue, object_area, list_area, widened, NodeWidget::spacing());
    assert_eq!(below.unwrap().0, Area::new(0, 3, 20, 1));
}

#[test]
fn extending_with_the_empty_style_draws_no_marks() {
    let object_area = Area::new(0, 1, 20, 3);
    let list_area = Area::new(0, 0, 20, 10);
    let (above, below) =
        selected_row_extensions(true, true, Style::default(), object_area, list_area, list_area, 2);
    assert_eq!(above, Some((Area::new(0, 0, 20, 1), None)));
    assert_eq!(below, Some((Area::new(0, 4, 20, 1), None)));
    // Without spacing there is no row to extend into.
    let (above, _) = selected_row_extensions(true, false, Style::default(), object_area, list_area, list_area, 0);
    assert!(above.unwrap().0.is_empty());
}

#[test]
fn update_scrolls_up_when_the_list_shrinks() {
    let mut object_list = node_list();
    let view = ten_nodes();
    let rect = room_for(3);
    object_list.last(&view);
    object_list.update(&view, &heights(&view), NodeWidget::spacing(), false, list_height(rect));
    assert_eq!(object_list.top, 7);

    let small = ListView { ids: vec![1, 2, 3, 4], channels: vec![2; 4] };
    object_list.update(&small, &heights(&small), NodeWidget::spacing(), false, list_height(rect));
    // The selection is gone: the first object is selected, and in view.
    assert_eq!(object_list.selected, Some(1));
    assert_eq!(object_list.top, 0);
}

#[test]
fn scroll_marks_show_above_and_below() {
    let view = ten_nodes();
    let h = heights(&view);
    let rect = room_for(3);
    let mut object_list = node_list();
    assert_eq!(object_list.scroll_marks(&h, NodeWidget::spacing(), false, list_height(rect)), (false, true));
    object_list.top = 7;
    assert_eq!(object_list.scroll_marks(&h, NodeWidget::spacing(), false, list_height(rect)), (true, false));
    object_list.top = 4;
    assert_eq!(object_list.scroll_marks(&h, NodeWidget::spacing(), false, list_height(rect)), (true, true));
}

#[test]
fn scroll_mark_below_left_out_when_last_object_fits_without_margin() {
    // 3 whole nodes take 15 rows; 3 more rows hold the last node's 3 rows
    // but not its spacing.
    let view = ListView { ids: vec![1, 2, 3, 4], channels: vec![2; 4] };
    let h = heights(&view);
    let rect = Area::new(0, 0, 80, 18 + 2);
    let object_list = node_list();
    assert_eq!(object_list.visible_count(&h, NodeWidget::spacing(), false, list_height(rect)), 3);
    assert_eq!(object_list.scroll_marks(&h, NodeWidget::spacing(), false, list_height(rect)), (false, false));
}

#[test]
fn fit_count_counts_whole_items() {
    assert_eq!(fit_count(&vec![3, 3, 3], 0, 2, 10), (2, 10));
    assert_eq!(fit_count(&vec![3, 3, 3], 1, 2, 9), (1, 5));
    assert_eq!(fit_count(&vec![3, 3, 3], 3, 2, 9), (0, 0));
    assert_eq!(fit_count(&vec![u16::MAX, 1], 0, 2, u16::MAX), (2, u16::MAX));
}

#[test]
fn selected_row_extends_only_at_list_ends() {
    assert_eq!(selected_row_extends(0, 0, 10), (true, false));
    assert_eq!(selected_row_extends(1, 0, 10), (false, false));
    assert_eq!(selected_row_extends(7, 2, 10), (false, true));
}

#[test]
fn objects_layout_stacks_rows_with_spacing() {
    let view = ten_nodes();
    let h = heights(&view);
    let object_list = node_list();
    let (_, list_area, _) = object_list.areas(&room_for(3));
    assert_eq!(list_area, Area::new(0, 1, 80, 15));
    let areas = object_list.objects_layout(&h, 3, NodeWidget::spacing(), list_area);
    assert_eq!(areas.len(), 4);
    assert_eq!(areas[0], Area::new(0, 1, 80, 3));
    assert_eq!(areas[1], Area::new(0, 6, 80, 3));
    assert_eq!(areas[2], Area::new(0, 11, 80, 3));
}

#[test]
fn release_hidden_selection_moves_to_neighbour() {
    let view = ten_nodes();
    let mut object_list = node_list();
    object_list.release_hidden_selection(&view, 4);
    assert_eq!(object_list.selected, Some(5));
    object_list.release_hidden_selection(&view, 10);
    assert_eq!(object_list.selected, Some(9));
    let single = ListView { ids: vec![3], channels: vec![2] };
    object_list.release_hidden_selection(&single, 3);
    assert_eq!(object_list.selected, None);
}

#[test]
fn cycle_channel_display_toggles_between_unified_and_always() {
    let mut object_list = node_list();
    object_list.cycle_channel_display();
    assert_eq!(object_list.channel_display, ChannelDisplay::Always);
    object_list.cycle_channel_display();
    assert_eq!(object_list.channel_display, ChannelDisplay::Unified);
}

#[test]
fn dropdown_opens_then_activates_the_highlighted_target() {
    let view = ten_nodes();
    let mut object_list = node_list();
    object_list.down(&view);
    // Opening with no targets leaves it closed.
    assert_eq!(object_list.dropdown_activate(Some((Vec::new(), 0))), None);
    assert_eq!(object_list.dropdown_selected, None);

    let targets = vec![(100, String::from("Speakers")), (200, String::from("Headphones"))];
    assert_eq!(object_list.dropdown_activate(Some((targets, 0))), None);
    assert_eq!(object_list.dropdown_selected, Some(0));
    assert_eq!(object_list.selected_target(), Some(&100));

    // Down moves within the open dropdown, not the list.
    object_list.down(&view);
    assert_eq!(object_list.selected, Some(1));
    assert_eq!(object_list.selected_target(), Some(&200));

    assert_eq!(object_list.dropdown_activate(None), Some((1, 1)));
    assert_eq!(object_list.dropdown_selected, None);
    assert_eq!(object_list.selected_target(), None);
}

#[test]
fn set_target_closes_the_dropdown() {
    let view = ten_nodes();
    let mut object_list = node_list();
    object_list.down(&view);
    object_list.dropdown_activate(Some((vec![(7, String::from("x"))], 0)));
    assert_eq!(object_list.set_target(), Some(1));
    assert_eq!(object_list.dropdown_selected, None);
}

#[test]
fn node_actions_apply_only_to_node_lists() {
    let view = ten_nodes();
    let mut nodes = node_list();
    nodes.down(&view);
    assert_eq!(nodes.toggle_mute(), Some(1));
    assert_eq!(nodes.set_default(), Some(DefaultCommand::TargetDefault(1)));

    let mut sinks: ObjectList<u32> = ObjectList::new(ListKind::Node, Some(DeviceKind::Sink));
    sinks.down(&view);
    assert_eq!(sinks.set_default(), Some(DefaultCommand::SetDefaultDevice(1, DeviceKind::Sink)));

    let mut devices: ObjectList<u32> = ObjectList::new(ListKind::Device, None);
    devices.down(&view);
    assert_eq!(devices.toggle_mute(), None);
    assert_eq!(devices.set_default(), None);
    assert_eq!(devices.node_action_target(), None);
}


fn links(node: u32, client: Option<u32>, device: Option<u32>) -> NodeLinks {
    NodeLinks { node, client, device }
}

#[test]
fn visible_objects_includes_linked_clients() {
    let view = ten_nodes();
    let rect = room_for(1);
    let object_list = node_list();
    // Node 1 was created by client 101; node 2 (not shown) by client 102.
    let nodes = vec![links(1, Some(101), None), links(2, Some(102), None)];
    let visible = object_list.visible_objects(
        &view,
        &nodes,
        &untargeted(&view),
        &heights(&view),
        NodeWidget::spacing(),
        false,
        list_height(rect),
    );
    assert_eq!(visible.len(), 3);
    for id in [0, 1, 101] {
        assert!(visible.contains(&id));
    }
}

#[test]
fn visible_objects_includes_linked_devices() {
    let view = ten_nodes();
    let rect = room_for(1);
    let object_list = node_list();
    let nodes = vec![links(1, None, Some(101))];
    let visible = object_list.visible_objects(
        &view,
        &nodes,
        &untargeted(&view),
        &heights(&view),
        NodeWidget::spacing(),
        false,
        list_height(rect),
    );
    assert_eq!(visible.len(), 3);
    for id in [0, 1, 101] {
        assert!(visible.contains(&id));
    }
}

#[test]
fn visible_objects_includes_resolved_target() {
    // A playback stream (object 0) whose target resolves to sink 100.
    let view = ListView { ids: vec![0], channels: vec![2] };
    let rect = room_for(1);
    let object_list = node_list();
    let nodes = vec![links(0, None, None), links(100, None, None)];
    let visible = object_list.visible_objects(
        &view,
        &nodes,
        &vec![Some(100)],
        &vec![3],
        NodeWidget::spacing(),
        false,
        list_height(rect),
    );
    assert!(visible.contains(&0));
    assert!(visible.contains(&100));
}

#[test]
fn visible_objects_includes_target_client() {
    let view = ListView { ids: vec![0], channels: vec![2] };
    let rect = room_for(1);
    let object_list = node_list();
    // The sink the stream targets was created by client 101.
    let nodes = vec![links(0, None, None), links(100, Some(101), None)];
    let visible = object_list.visible_objects(
        &view,
        &nodes,
        &vec![Some(100)],
        &vec![3],
        NodeWidget::spacing(),
        false,
        list_height(rect),
    );
    for id in [0, 100, 101] {
        assert!(visible.contains(&id));
    }
}

#[test]
fn visible_objects_includes_target_device() {
    let view = ListView { ids: vec![0], channels: vec![2] };
    let rect = room_for(1);
    let object_list = node_list();
    // The sink the stream targets belongs to device 101.
    let nodes = vec![links(0, None, None), links(100, None, Some(101))];
    let visible = object_list.visible_objects(
        &view,
        &nodes,
        &vec![Some(100)],
        &vec![3],
        NodeWidget::spacing(),
        false,
        list_height(rect),
    );
    for id in [0, 100, 101] {
        assert!(visible.contains(&id));
    }
}

#[test]
fn visible_objects_leaves_out_objects_linked_to_rows_that_do_not_fit() {
    let view = ten_nodes();
    let rect = room_for(1);
    let object_list = node_list();
    let nodes = vec![links(1, Some(101), None), links(2, Some(201), Some(202))];
    let mut targets = untargeted(&view);
    targets[1] = Some(300);
    let visible = object_list.visible_objects(
        &view,
        &nodes,
        &targets,
        &heights(&view),
        NodeWidget::spacing(),
        false,
        list_height(rect),
    );
    assert!(visible.contains(&101));
    for id in [2, 201, 202, 300] {
        assert!(!visible.contains(&id));
    }
}

#[test]
fn device_lists_show_no_targets() {
    let view = ListView { ids: vec![50], channels: vec![0] };
    let rect = room_for(1);
    let devices: ObjectList<u32> = ObjectList::new(ListKind::Device, None);
    let visible = devices.visible_objects(
        &view,
        &Vec::new(),
        &vec![Some(100)],
        &vec![3],
        NodeWidget::spacing(),
        false,
        list_height(rect),
    );
    assert!(visible.contains(&50));
    assert!(!visible.contains(&100));
}

#[test]
fn list_areas_lie_in_the_list() {
    let object_list = node_list();
    let area = room_for(3);
    let (header, list, footer) = object_list.areas(&area);
    assert_eq!(header, Area::new(0, 0, 80, 1));
    assert_eq!(list, Area::new(0, 1, 80, 15));
    assert_eq!(footer, Area::new(0, 16, 80, 1));
}

#[test]
fn object_rows_take_visible_heights_then_the_next_one() {
    let h = vec![3, 4, 5, 6];
    assert_eq!(
        object_rows(&h, 1, 2),
        vec![Extent::Exactly(4), Extent::Exactly(5), Extent::AtMost(6)]
    );
    assert_eq!(object_rows(&h, 2, 2), vec![Extent::Exactly(5), Extent::Exactly(6), Extent::AtMost(0)]);
    assert_eq!(object_rows(&h, 4, 0), vec![Extent::AtMost(0)]);
}

#[test]
fn objects_layout_cuts_off_the_object_at_the_bottom() {
    let object_list = node_list();
    let list_area = Area::new(0, 1, 80, 15);
    let areas = object_list.objects_layout(&vec![3, 3, 3, 3, 3], 2, 2, list_area);
    assert_eq!(areas.len(), 3);
    assert_eq!(areas[0], Area::new(0, 1, 80, 3));
    assert_eq!(areas[1], Area::new(0, 6, 80, 3));
    assert_eq!(areas[2], Area::new(0, 11, 80, 3));
    let areas = object_list.objects_layout(&vec![3, 3, 8], 2, 2, list_area);
    assert_eq!(areas[2], Area::new(0, 11, 80, 5));
}

#[test]
fn objects_layout_past_the_end_of_the_list() {
    let mut object_list = node_list();
    object_list.top = 9;
    let list_area = Area::new(0, 1, 80, 15);
    let areas = object_list.objects_layout(&vec![3, 3], 0, 2, list_area);
    assert_eq!(areas, vec![Area::new(0, 1, 80, 0)]);
    assert_eq!(object_list.visible_count(&vec![3, 3], 1, false, 15), 0);
    assert_eq!(object_list.scroll_marks(&vec![3, 3], 1, false, 15), (true, false));
}

#[test]
fn list_areas_of_a_single_row_start_at_its_top() {
    let object_list = node_list();
    let (header, list, footer) = object_list.areas(&Area::new(2, 5, 10, 1));
    assert_eq!(header.y, 5);
    assert!(header.y + header.height <= list.y);
    assert!(list.y + list.height <= footer.y);
    assert!(footer.y + footer.height <= 6);
    let (header, list, footer) = object_list.areas(&Area::new(2, 5, 10, 2));
    assert_eq!(header, Area::new(2, 5, 10, 1));
    assert_eq!(list, Area::new(2, 6, 10, 0));
    assert_eq!(footer, Area::new(2, 6, 10, 1));
}
