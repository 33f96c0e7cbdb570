use wiremix::area::Area;
use wiremix::config::theme::{Color, Style, Theme, BOLD, DIM, ITALIC};
use wiremix::config::{CharSet, Peaks};
use wiremix::hidden_state::HiddenState;
use wiremix::meter::{peak_sizes, PeakSizes};
use wiremix::node_widget::{meter_layout, HiddenMark, MeterLayout, NodeWidget};
use wiremix::object_list::{DeviceKind, ListKind, ObjectList};

#[test]
fn sizes_always_sum_to_total_width() {
    for (lit, zero) in [(0, 36), (10, 36), (36, 36), (38, 36), (40, 36)] {
        let sizes = peak_sizes(40, lit, zero);
        assert_eq!(sizes.active + sizes.overload + sizes.inactive + sizes.inactive_overload, 40);
    }
}

#[test]
fn silence_previews_the_entire_overload_zone_as_unlit() {
    let sizes = peak_sizes(40, 0, 36);
    assert_eq!(sizes.active, 0);
    assert_eq!(sizes.overload, 0);
    assert!(sizes.inactive_overload > 0);
    assert_eq!(sizes, PeakSizes { active: 0, overload: 0, inactive: 36, inactive_overload: 4 });
}

#[test]
fn deep_overload_leaves_nothing_left_to_preview() {
    let sizes = peak_sizes(40, 40, 36);
    assert_eq!(sizes.inactive, 0);
    assert_eq!(sizes.inactive_overload, 0);
    assert_eq!(sizes.active, 36);
    assert_eq!(sizes.overload, 4);
}

#[test]
fn inactive_and_inactive_overload_are_a_clean_partition_of_the_unlit_remainder() {
    for lit in [0, 1, 20, 36, 37, 40] {
        let sizes = peak_sizes(40, lit, 36);
        let unlit = 40 - sizes.active - sizes.overload;
        assert_eq!(sizes.inactive + sizes.inactive_overload, unlit);
    }
}

#[test]
fn partly_lit_meter_splits_at_zero_db() {
    assert_eq!(
        peak_sizes(40, 20, 36),
        PeakSizes { active: 20, overload: 0, inactive: 16, inactive_overload: 4 }
    );
}

#[test]
fn meter_hidden_when_monitoring_suspended() {
    let hidden = NodeWidget::new(None, false, false, false, true, false);
    assert!(hidden.shows_meter(Peaks::Mono, true));
    assert!(!hidden.shows_meter(Peaks::Mono, false));
    let shown = NodeWidget::new(None, false, false, false, false, false);
    assert!(shown.shows_meter(Peaks::Mono, false));
    assert!(!shown.shows_meter(Peaks::Off, true));
}

#[test]
fn node_geometry() {
    assert_eq!(NodeWidget::height(), 3);
    assert_eq!(NodeWidget::spacing(), 2);
}

#[test]
fn dropdown_area_fits_the_longest_title() {
    let mut object_list: ObjectList<u32> = ObjectList::new(ListKind::Node, None);
    object_list.targets = vec![(1, String::from("Speakers")), (2, String::from("Headphones (USB)"))];
    let list_area = Area::new(0, 1, 80, 20);
    let object_area = Area::new(0, 6, 80, 3);
    let area = NodeWidget::dropdown_area(&object_list, &list_area, &object_area);
    // 16 bytes of title, 2 border columns and 2 highlight columns.
    assert_eq!(area, Area::new(60, 5, 20, 4));
}

#[test]
fn dropdown_area_shows_at_most_five_targets() {
    let mut object_list: ObjectList<u32> = ObjectList::new(ListKind::Node, None);
    object_list.targets = (0..9).map(|i| (i, String::from("ab"))).collect();
    let area = NodeWidget::dropdown_area(&object_list, &Area::new(0, 0, 10, 30), &Area::new(0, 0, 10, 3));
    assert_eq!(area, Area::new(4, 0, 6, 7));
}

#[test]
fn dropdown_title_width_counts_bytes() {
    let mut object_list: ObjectList<u32> = ObjectList::new(ListKind::Node, None);
    object_list.targets = vec![(1, String::from("é"))];
    let area = NodeWidget::dropdown_area(&object_list, &Area::new(0, 0, 40, 30), &Area::new(0, 2, 40, 3));
    assert_eq!(area.width, 6);
}

#[test]
fn default_marks_follow_the_list_kind() {
    let sink = NodeWidget::new(Some(DeviceKind::Sink), true, false, false, false, false);
    assert!(sink.is_default());
    let source = NodeWidget::new(Some(DeviceKind::Source), true, false, false, false, false);
    assert!(!source.is_default());
    let stream = NodeWidget::new(None, true, true, false, false, false);
    assert!(!stream.is_default());
}

#[test]
fn permanent_hiding_takes_the_mark() {
    assert_eq!(NodeWidget::new(None, false, false, false, true, true).hidden_mark(), HiddenMark::Permanent);
    assert_eq!(NodeWidget::new(None, false, false, false, true, false).hidden_mark(), HiddenMark::Instance);
    assert_eq!(NodeWidget::new(None, false, false, false, false, false).hidden_mark(), HiddenMark::Unmarked);
}

#[test]
fn meter_layout_follows_peaks_and_positions() {
    assert_eq!(meter_layout(Peaks::Auto, Some(2), None), (MeterLayout::Stereo, true));
    assert_eq!(meter_layout(Peaks::Mono, Some(2), None), (MeterLayout::Mono, true));
    assert_eq!(meter_layout(Peaks::Auto, Some(0), None), (MeterLayout::Mono, false));
    assert_eq!(meter_layout(Peaks::Auto, None, Some(2)), (MeterLayout::Stereo, false));
    assert_eq!(meter_layout(Peaks::Auto, None, Some(6)), (MeterLayout::Mono, false));
}

#[test]
fn no_item_is_hidden_by_default() {
    let state = HiddenState::default();
    assert!(state.hidden.is_empty());
}

#[test]
fn area_arithmetic_saturates() {
    let a = Area::new(u16::MAX - 2, 0, 10, 5);
    assert_eq!(a.width, 2);
    assert_eq!(a.right(), u16::MAX);
    let b = Area::new(0, 0, 10, 10);
    let c = Area::new(5, 5, 10, 10);
    assert_eq!(b.intersection(&c), Area::new(5, 5, 5, 5));
    assert_eq!(b.union(&c), Area::new(0, 0, 15, 15));
    assert!(b.intersection(&Area::new(20, 20, 1, 1)).is_empty());
}

#[test]
fn hidden_rows_take_the_hidden_style_only_when_hidden() {
    let mut theme = Theme::default();
    theme.row_hidden = Style::default().fg(Color::DarkGray);
    let hidden = NodeWidget::new(None, false, false, true, true, false);
    let shown = NodeWidget::new(None, false, false, true, false, false);
    let base = Style::default().fg(Color::White).add_modifier(BOLD);
    assert_eq!(
        hidden.hidden_style(&theme, base),
        Style::default().fg(Color::DarkGray).add_modifier(BOLD)
    );
    assert_eq!(shown.hidden_style(&theme, base), base);
}

#[test]
fn unselected_rows_take_the_unselected_style() {
    let mut theme = Theme::default();
    theme.row_unselected = Style::default().add_modifier(DIM);
    let selected = NodeWidget::new(None, false, false, true, false, false);
    let unselected = NodeWidget::new(None, false, false, false, false, false);
    let base = Style::default();
    assert_eq!(selected.text_style(&theme, base), base);
    assert_eq!(unselected.text_style(&theme, base), Style::default().add_modifier(DIM));
    assert_eq!(unselected.title_style(&theme), theme.node_title.patch(theme.row_unselected));
}

#[test]
fn patch_replaces_set_colors_and_moves_modifiers() {
    let base = Style::default().fg(Color::Red).bg(Color::Blue).add_modifier(BOLD | ITALIC);
    let over = Style { sub_modifier: BOLD, ..Style::default().fg(Color::Green) };
    let r = base.patch(over);
    assert_eq!(r.fg, Some(Color::Green));
    assert_eq!(r.bg, Some(Color::Blue));
    assert_eq!(r.add_modifier, ITALIC);
    assert_eq!(r.sub_modifier, BOLD);
    assert_eq!(base.patch(Style::default()), base);
}

#[test]
fn selector_marks_fit_the_row_height() {
    let char_set = CharSet::default();
    let selected = NodeWidget::new(None, false, false, true, false, false);
    let unselected = NodeWidget::new(None, false, false, false, false, false);
    assert!(unselected.selector_marks(&char_set, false).is_empty());
    assert_eq!(
        selected.selector_marks(&char_set, true),
        vec![char_set.selector_top.clone(), char_set.selector_bottom.clone()]
    );
    assert_eq!(
        selected.selector_marks(&char_set, false),
        vec![
            char_set.selector_top.clone(),
            char_set.selector_middle.clone(),
            char_set.selector_bottom.clone()
        ]
    );
}

#[test]
fn node_row_areas_full_layout_without_peaks() {
    let r = NodeWidget::row_areas(Area::new(0, 4, 80, 3), false, Peaks::Off);
    assert_eq!(r.selector, Area::new(0, 4, 1, 3));
    assert_eq!(r.node, Area::new(1, 4, 79, 3));
    assert_eq!(r.header, Area::new(1, 4, 79, 1));
    assert_eq!(r.bar, Area::new(1, 6, 79, 1));
    assert_eq!(r.volume, Area::new(3, 6, 69, 1));
    assert!(r.meter.is_none());
}

#[test]
fn node_row_areas_compact_layout_with_peaks() {
    let r = NodeWidget::row_areas(Area::new(0, 0, 52, 2), true, Peaks::Auto);
    assert_eq!(r.header, Area::new(1, 0, 51, 1));
    assert_eq!(r.bar, Area::new(1, 1, 51, 1));
    assert_eq!(r.volume, Area::new(3, 1, 20, 1));
    assert_eq!(r.meter, Some(Area::new(28, 1, 19, 1)));
}

#[test]
fn node_row_areas_hand_extra_rows_to_the_bar() {
    let r = NodeWidget::row_areas(Area::new(0, 0, 20, 5), false, Peaks::Off);
    assert_eq!(r.header.y, 0);
    assert_eq!(r.bar.y + r.bar.height, 5);
    assert_eq!(r.bar.y, r.header.y + r.header.height + 1);
    assert_eq!(r.header.height, 1);
    assert_eq!(r.bar.height, 3);
}
