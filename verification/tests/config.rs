use wiremix::config::char_set::{CharSetError, CharSetOverlay};
use wiremix::config::theme::{Color, Style, ThemeError, ThemeOverlay};
use wiremix::config::{
    find_char_set, find_theme, ChannelDisplay, ChannelView, CharSet, Config, ConfigError,
    ConfigFile, Opt, PairLabelStyle, Peaks, TabKind, Theme,
};

fn default_file() -> ConfigFile {
    ConfigFile::defaults(Vec::new())
}

fn s(text: &str) -> Option<String> {
    Some(String::from(text))
}

// Character sets.

#[test]
fn empty_overlay() {
    CharSet::try_from_overlay(CharSetOverlay::default()).unwrap();
}

#[test]
fn builtins_present() {
    let configured = vec![(String::from("test"), CharSetOverlay::default())];
    let merged = CharSet::merge(configured).unwrap();
    for (name, _) in CharSet::defaults().iter() {
        assert!(find_char_set(&merged, name).is_some());
    }
    assert!(find_char_set(&merged, "test").is_some());
}

#[test]
fn override_default() {
    let overlay = CharSetOverlay { dropdown_icon: s("$"), ..Default::default() };
    let char_set = CharSet::try_from_overlay(overlay).unwrap();
    assert_eq!(char_set.dropdown_icon, "$");
}

#[test]
fn width_too_narrow() {
    let overlay = CharSetOverlay { meter_right_active: s(""), ..Default::default() };
    assert!(CharSet::try_from_overlay(overlay).is_err());
}

#[test]
fn width_too_wide() {
    let overlay = CharSetOverlay { meter_right_active: s("$$"), ..Default::default() };
    let result = CharSet::try_from_overlay(overlay);
    assert!(result.is_err());
    assert_eq!(
        result.unwrap_err(),
        CharSetError::WrongWidth { field: String::from("meter_right_active"), width: 1 }
    );
}

#[test]
fn width_correct() {
    let overlay = CharSetOverlay { meter_right_active: s("$"), ..Default::default() };
    let char_set = CharSet::try_from_overlay(overlay).unwrap();
    assert_eq!(char_set.meter_right_active, "$");
}

#[test]
fn width_1_column_grapheme_cluster() {
    let overlay = CharSetOverlay { meter_right_active: s("⚓︎"), ..Default::default() };
    let char_set = CharSet::try_from_overlay(overlay).unwrap();
    assert_eq!(char_set.meter_right_active, "⚓︎");
}

#[test]
fn width_2_column_grapheme_cluster() {
    let overlay = CharSetOverlay { meter_right_active: s("🏳️‍🌈"), ..Default::default() };
    assert!(CharSet::try_from_overlay(overlay).is_err());
}

#[test]
fn width_unlimited() {
    let overlay = CharSetOverlay {
        list_more: s(""),
        dropdown_more: s("$$$$$$$$$$$$$$$$$$$$$$$$"),
        ..Default::default()
    };
    let char_set = CharSet::try_from_overlay(overlay).unwrap();
    assert_eq!(char_set.list_more, "");
    assert_eq!(char_set.dropdown_more, "$$$$$$$$$$$$$$$$$$$$$$$$");
}

#[test]
fn char_set_inherit_nonexistent() {
    let overlay = CharSetOverlay {
        inherit: s("doesntexist"),
        meter_right_active: s("$"),
        ..Default::default()
    };
    let result = CharSet::try_from_overlay(overlay);
    assert!(result.is_err());
    assert_eq!(result.unwrap_err(), CharSetError::UnknownInherit(String::from("doesntexist")));
}

#[test]
fn char_set_inherit() {
    for (name, builtin) in CharSet::defaults().iter() {
        let overlay = CharSetOverlay {
            inherit: Some(name.clone()),
            meter_right_active: s("$"),
            ..Default::default()
        };
        let char_set = CharSet::try_from_overlay(overlay).unwrap();
        assert_eq!(char_set.meter_right_active, "$");
        assert_eq!(char_set.meter_left_active, builtin.meter_left_active);
    }
}

#[test]
fn merge_reports_a_refused_overlay() {
    let configured = vec![(
        String::from("broken"),
        CharSetOverlay { meter_left_active: s("ab"), ..Default::default() },
    )];
    assert!(CharSet::merge(configured).is_err());
}

#[test]
fn configured_char_set_replaces_builtin_of_same_name() {
    let configured = vec![(
        String::from("default"),
        CharSetOverlay { divider: s("="), ..Default::default() },
    )];
    let merged = CharSet::merge(configured).unwrap();
    let k = find_char_set(&merged, "default").unwrap();
    assert_eq!(merged[k].1.divider, "=");
    assert_eq!(merged.iter().filter(|(n, _)| n == "default").count(), 1);
}

// Themes.

#[test]
fn theme_inherit_nonexistent() {
    let overlay = ThemeOverlay {
        inherit: s("doesntexist"),
        tab_selected: Some(Style::default()),
        ..Default::default()
    };
    let result = Theme::try_from_overlay(overlay);
    assert!(result.is_err());
    assert_eq!(result.unwrap_err(), ThemeError::UnknownInherit(String::from("doesntexist")));
}

#[test]
fn theme_inherit() {
    for (name, builtin) in Theme::defaults().iter() {
        let overlay = ThemeOverlay {
            inherit: Some(name.clone()),
            tab_selected: Some(Style::default()),
            ..Default::default()
        };
        let theme = Theme::try_from_overlay(overlay).unwrap();
        assert_eq!(theme.tab_selected, Style::default());
        assert_eq!(theme.selector, builtin.selector);
    }
}

#[test]
fn meter_split_colors_are_unset_by_default_and_configurable() {
    for (_, builtin) in Theme::defaults().iter() {
        assert_eq!(builtin.meter_split_inactive, None);
        assert_eq!(builtin.meter_split_active, None);
        assert_eq!(builtin.meter_split_overload, None);
        assert_eq!(builtin.meter_split_center_inactive, None);
        assert_eq!(builtin.meter_split_center_active, None);
    }

    let overlay = ThemeOverlay {
        meter_split_inactive: Some(Style::default().fg(Color::Black)),
        ..Default::default()
    };
    let theme = Theme::try_from_overlay(overlay).unwrap();
    assert_eq!(theme.meter_split_inactive, Some(Style::default().fg(Color::Black)));
    assert_eq!(theme.meter_split_active, None);
}

#[test]
fn builtin_themes_are_found_by_name() {
    let themes = Theme::defaults();
    for name in ["default", "nocolor", "plain"] {
        assert!(find_theme(&themes, name).is_some());
    }
    assert!(Theme::builtin("nonexistent").is_none());
    assert_eq!(Theme::builtin("default"), Some(Theme::default()));
}

// Configuration files.

#[test]
fn unknown_field_top_level_errors_by_default() {
    let file = default_file();
    let error = file.unknown_fields_error(&vec![String::from("unknown")]);
    assert!(error.is_some());
}

#[test]
fn unknown_field_keybinding_errors_by_default() {
    let file = default_file();
    assert!(file.unknown_fields_error(&vec![String::from("keybindings.0.unknown")]).is_some());
}

#[test]
fn unknown_field_names_errors_by_default() {
    let file = default_file();
    assert!(file.unknown_fields_error(&vec![String::from("names.unknown")]).is_some());
}

#[test]
fn unknown_field_name_override_errors_by_default() {
    let file = default_file();
    assert!(file
        .unknown_fields_error(&vec![String::from("names.overrides.0.unknown")])
        .is_some());
}

#[test]
fn unknown_field_nested_theme_errors_by_default() {
    let file = default_file();
    assert!(file.unknown_fields_error(&vec![String::from("themes.default.unknown")]).is_some());
}

#[test]
fn unknown_field_nested_char_set_errors_by_default() {
    let file = default_file();
    assert!(file.unknown_fields_error(&vec![String::from("char_sets.default.unknown")]).is_some());
}

#[test]
fn unknown_field_lenient_via_config_file_is_ignored() {
    let mut file = default_file();
    file.lenient_config = true;
    file.apply_opt(&Opt::default());
    assert!(file.unknown_fields_error(&vec![String::from("unknown")]).is_none());
}

#[test]
fn unknown_field_lenient_via_cli_flag_is_ignored() {
    let mut file = default_file();
    let opt = Opt { lenient_config: true, ..Default::default() };
    file.apply_opt(&opt);
    assert!(file.unknown_fields_error(&vec![String::from("unknown")]).is_none());
}

#[test]
fn cli_no_lenient_config_overrides_config_file_lenient() {
    let mut file = default_file();
    file.lenient_config = true;
    let opt = Opt { no_lenient_config: true, ..Default::default() };
    file.apply_opt(&opt);
    assert!(file.unknown_fields_error(&vec![String::from("unknown")]).is_some());
}

#[test]
fn no_unknown_fields_ok_even_when_strict() {
    let file = default_file();
    assert!(file.unknown_fields_error(&Vec::new()).is_none());
}

#[test]
fn unknown_fields_message_names_every_field() {
    let file = default_file();
    let message = file
        .unknown_fields_error(&vec![String::from("a"), String::from("b.c")])
        .unwrap();
    assert_eq!(
        message,
        "unknown configuration field(s): a, b.c (pass --lenient-config, or set lenient_config = true, to ignore instead of failing)"
    );
}

#[test]
fn pair_label_style_defaults_to_verbose() {
    let config = Config::try_from_file(default_file(), None).unwrap();
    assert_eq!(config.pair_label_style, PairLabelStyle::Verbose);
}

#[test]
fn tabs_empty_is_error() {
    let mut file = default_file();
    file.tabs = Vec::new();
    assert_eq!(Config::try_from_file(file, None).unwrap_err(), ConfigError::EmptyTabs);
}

#[test]
fn tab_not_in_tabs_is_error() {
    let mut file = default_file();
    file.tabs = vec![TabKind::Output, TabKind::Input];
    assert_eq!(Config::try_from_file(file, None).unwrap_err(), ConfigError::TabNotInTabs);
}

#[test]
fn meter_layout_percent_out_of_range_is_error() {
    let message = String::from("meter_width_percent must be greater than 0 and less than 100");
    let result = Config::try_from_file(default_file(), Some(message.clone()));
    assert_eq!(result.unwrap_err(), ConfigError::OutOfRange(message));
}

#[test]
fn view_cycle_defaults_to_all_three_and_is_configurable() {
    let config = Config::try_from_file(default_file(), None).unwrap();
    assert_eq!(
        config.view_cycle,
        vec![ChannelView::Unified, ChannelView::Linked, ChannelView::Channels]
    );

    let mut file = default_file();
    file.view_cycle = vec![ChannelView::Linked, ChannelView::Channels];
    let config = Config::try_from_file(file, None).unwrap();
    assert_eq!(config.view_cycle, vec![ChannelView::Linked, ChannelView::Channels]);
}

#[test]
fn view_cycle_empty_is_error() {
    let mut file = default_file();
    file.view_cycle = Vec::new();
    assert_eq!(Config::try_from_file(file, None).unwrap_err(), ConfigError::EmptyViewCycle);
}

#[test]
fn tab_index_resolves_to_position_in_tabs() {
    let mut file = default_file();
    file.tab = Some(TabKind::Output);
    file.tabs = vec![TabKind::Playback, TabKind::Output, TabKind::Input];
    let config = Config::try_from_file(file, None).unwrap();
    assert_eq!(config.tab, 1);
}

#[test]
fn opt_tabs_overrides_config_tabs() {
    let mut file = default_file();
    let opt = Opt { tabs: Some(vec![TabKind::Playback, TabKind::Input]), ..Default::default() };
    file.apply_opt(&opt);
    let config = Config::try_from_file(file, None).unwrap();
    assert_eq!(config.tabs, vec![TabKind::Playback, TabKind::Input]);
}

#[test]
fn unknown_char_set_is_error() {
    let mut file = default_file();
    file.char_set = String::from("nonexistent");
    assert_eq!(
        Config::try_from_file(file, None).unwrap_err(),
        ConfigError::UnknownCharSet(String::from("nonexistent"))
    );
}

#[test]
fn unknown_theme_is_error() {
    let mut file = default_file();
    file.theme = String::from("nonexistent");
    assert_eq!(
        Config::try_from_file(file, None).unwrap_err(),
        ConfigError::UnknownTheme(String::from("nonexistent"))
    );
}

#[test]
fn the_first_failing_check_is_reported() {
    let mut file = default_file();
    file.theme = String::from("nonexistent");
    file.tabs = Vec::new();
    assert_eq!(
        Config::try_from_file(file, Some(String::from("bad"))).unwrap_err(),
        ConfigError::UnknownTheme(String::from("nonexistent"))
    );
}

#[test]
fn defaults_fill_in_unset_settings() {
    let config = Config::try_from_file(default_file(), None).unwrap();
    assert_eq!(config.peaks, Peaks::Auto);
    assert_eq!(config.channel_display, ChannelDisplay::Unified);
    assert_eq!(config.tab, 0);
    assert!(config.mouse);
    assert_eq!(config.theme, Theme::default());
    assert_eq!(config.char_set, CharSet::default());
}

#[test]
fn opt_flags_override_and_on_wins_over_off() {
    let mut file = default_file();
    let opt = Opt {
        no_mouse: true,
        show_dividers: true,
        no_show_dividers: true,
        peaks: Some(Peaks::Off),
        theme: s("nocolor"),
        channel_mode: true,
        ..Default::default()
    };
    file.apply_opt(&opt);
    assert!(!file.mouse);
    assert!(file.show_dividers);
    assert_eq!(file.peaks, Some(Peaks::Off));
    assert_eq!(file.theme, "nocolor");
    assert!(file.channel_mode);
    let config = Config::try_from_file(file, None).unwrap();
    assert_eq!(config.theme, Theme::nocolor());
}

#[test]
fn an_empty_command_line_changes_nothing() {
    let mut file = default_file();
    file.theme = String::from("plain");
    file.tabs = vec![TabKind::Input];
    file.tab = Some(TabKind::Input);
    file.mouse = false;
    file.apply_opt(&Opt::default());
    assert_eq!(file.theme, "plain");
    assert_eq!(file.tabs, vec![TabKind::Input]);
    assert_eq!(file.tab, Some(TabKind::Input));
    assert!(!file.mouse);
    assert_eq!(file.peaks, Some(Peaks::Auto));
    let config = Config::try_from_file(file, None).unwrap();
    assert_eq!(config.theme, Theme::plain());
    assert_eq!(config.tab, 0);
}
