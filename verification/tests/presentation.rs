use augment_vol_brt_man::display::{
    bar_style_name, decide_icon, icon_file_name, level_bar, BarStyle, DisplayType, Icon,
    LEVEL_WIDTH,
};

fn volume(is_muted: bool, is_extended: bool) -> DisplayType {
    DisplayType::Volume { is_muted, is_extended }
}

#[test]
fn icon_bands_for_unmuted_volume() {
    assert_eq!(decide_icon(&volume(false, false), 0), Icon::VolumeMuted);
    assert_eq!(decide_icon(&volume(false, false), 1), Icon::VolumeNotMax);
    assert_eq!(decide_icon(&volume(false, false), 99), Icon::VolumeNotMax);
    assert_eq!(decide_icon(&volume(false, false), 100), Icon::VolumeMax);
    assert_eq!(decide_icon(&volume(false, true), 101), Icon::VolumeExtended);
    assert_eq!(decide_icon(&volume(false, true), 125), Icon::VolumeExtended);
    assert_eq!(decide_icon(&volume(false, true), 150), Icon::VolumeExtended);
}

#[test]
fn icon_for_muted_volume_ignores_level() {
    assert_eq!(decide_icon(&volume(true, false), 0), Icon::VolumeMuted);
    assert_eq!(decide_icon(&volume(true, false), 50), Icon::VolumeMuted);
    assert_eq!(decide_icon(&volume(true, true), 150), Icon::VolumeMuted);
}

#[test]
fn icon_bands_for_brightness() {
    assert_eq!(decide_icon(&DisplayType::Brightness, 1), Icon::BrightnessMin);
    assert_eq!(decide_icon(&DisplayType::Brightness, 57), Icon::BrightnessNotMax);
    assert_eq!(decide_icon(&DisplayType::Brightness, 100), Icon::BrightnessMax);
}

#[test]
fn icon_file_names() {
    assert_eq!(icon_file_name(Icon::VolumeMax), "volume_max_icon.png");
    assert_eq!(icon_file_name(Icon::VolumeNotMax), "volume_not_max_icon.png");
    assert_eq!(icon_file_name(Icon::VolumeMuted), "volume_muted_icon.png");
    assert_eq!(icon_file_name(Icon::VolumeExtended), "volume_extended_icon.png");
    assert_eq!(icon_file_name(Icon::BrightnessMax), "brightness_max_icon.png");
    assert_eq!(icon_file_name(Icon::BrightnessNotMax), "brightness_not_max_icon.png");
    assert_eq!(icon_file_name(Icon::BrightnessMin), "brightness_min_icon.png");
}

#[test]
fn bar_at_the_band_edges() {
    let b = level_bar(&volume(false, false), 0);
    assert_eq!(b.style, BarStyle::Min);
    assert_eq!(b.width, None);

    let b = level_bar(&volume(false, false), 100);
    assert_eq!(b.style, BarStyle::Normal);
    assert_eq!(b.width, Some(LEVEL_WIDTH));

    let b = level_bar(&DisplayType::Brightness, 1);
    assert_eq!(b.style, BarStyle::Min);
    assert_eq!(b.width, None);

    let b = level_bar(&DisplayType::Brightness, 100);
    assert_eq!(b.style, BarStyle::Normal);
    assert_eq!(b.width, Some(LEVEL_WIDTH));
}

#[test]
fn bar_width_is_the_scaled_ceiling() {
    // ceil(50 / 100 * 272) = 136
    let b = level_bar(&volume(false, false), 50);
    assert_eq!(b.style, BarStyle::Normal);
    assert_eq!(b.width, Some(136));

    // ceil((57 - 1) / 100 * 272) = ceil(152.32) = 153
    let b = level_bar(&DisplayType::Brightness, 57);
    assert_eq!(b.width, Some(153));
}

#[test]
fn bar_above_nominal_ceiling_is_extended() {
    // ceil(125 / 150 * 272) = ceil(226.66) = 227
    let b = level_bar(&volume(false, true), 125);
    assert_eq!(b.style, BarStyle::Extended);
    assert_eq!(b.width, Some(227));

    let b = level_bar(&volume(false, true), 150);
    assert_eq!(b.style, BarStyle::Extended);
    assert_eq!(b.width, Some(LEVEL_WIDTH));
}

#[test]
fn bar_style_names() {
    assert_eq!(bar_style_name(BarStyle::Min), "level-min");
    assert_eq!(bar_style_name(BarStyle::Normal), "level");
    assert_eq!(bar_style_name(BarStyle::Extended), "level-extended");
}
