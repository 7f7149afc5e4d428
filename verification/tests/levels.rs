use augment_vol_brt_man::brightness::Brightness;
use augment_vol_brt_man::error::OsdError;
use augment_vol_brt_man::volume::Volume;

#[test]
fn volume_increase_steps_up() {
    let mut v = Volume::new(false, 50, false);
    v.increase_volume();
    assert_eq!(v.current_volume, 55);
    assert_eq!(v.extended_volume, false);
    assert_eq!(v.is_muted, false);
}

#[test]
fn volume_increase_from_ceiling_stays() {
    let mut v = Volume::new(false, 100, false);
    v.increase_volume();
    assert_eq!(v.current_volume, 100);
}

#[test]
fn volume_increase_clamps_to_ceiling() {
    let mut v = Volume::new(false, 98, false);
    v.increase_volume();
    assert_eq!(v.current_volume, 100);
}

#[test]
fn volume_ceiling_extends_to_150() {
    let mut v = Volume::new(true, 100, false);
    v.increase_volume();
    assert_eq!(v.current_volume, 105);
    let mut w = Volume::new(true, 148, false);
    w.increase_volume();
    assert_eq!(w.current_volume, 150);
    w.increase_volume();
    assert_eq!(w.current_volume, 150);
}

#[test]
fn volume_decrease_from_floor_stays() {
    let mut v = Volume::new(false, 0, false);
    v.decrease_volume();
    assert_eq!(v.current_volume, 0);
}

#[test]
fn volume_decrease_clamps_to_floor() {
    let mut v = Volume::new(false, 3, false);
    v.decrease_volume();
    assert_eq!(v.current_volume, 0);
}

#[test]
fn volume_decrease_steps_down() {
    let mut v = Volume::new(true, 150, true);
    v.decrease_volume();
    assert_eq!(v.current_volume, 145);
    assert_eq!(v.is_muted, true);
}

#[test]
fn volume_set_is_unclamped() {
    let mut v = Volume::new(false, 10, false);
    v.set_volume(200);
    assert_eq!(v.current_volume, 200);
}

#[test]
fn volume_mute_flips_the_guess() {
    let mut v = Volume::new(false, 42, false);
    v.mute();
    assert_eq!(v.is_muted, true);
    assert_eq!(v.current_volume, 42);
    v.mute();
    assert_eq!(v.is_muted, false);
}

#[test]
fn mute_query_reads_the_marker() {
    assert!(Volume::is_muted(b"MUTED\n"));
    assert!(Volume::is_muted(b"  MUTED  "));
    assert!(!Volume::is_muted(b"\n"));
    assert!(!Volume::is_muted(b"muted\n"));
    assert!(!Volume::is_muted(b"MUTED!"));
}

#[test]
fn volume_query_parses_trimmed_number() {
    assert_eq!(Volume::get_current_volume(b" 45\n"), Ok(45));
    assert_eq!(Volume::get_current_volume(b"0"), Ok(0));
    assert_eq!(Volume::get_current_volume(b"4294967295\n"), Ok(4294967295));
}

#[test]
fn volume_query_rejects_unparseable_output() {
    assert_eq!(
        Volume::get_current_volume(b"abc\n"),
        Err(OsdError::ExternalToolError)
    );
    assert_eq!(Volume::get_current_volume(b""), Err(OsdError::ExternalToolError));
    assert_eq!(Volume::get_current_volume(b"  \n"), Err(OsdError::ExternalToolError));
    assert_eq!(
        Volume::get_current_volume(b"12 34"),
        Err(OsdError::ExternalToolError)
    );
    assert_eq!(
        Volume::get_current_volume(b"4294967296"),
        Err(OsdError::ExternalToolError)
    );
}

#[test]
fn brightness_increase_steps_and_clamps() {
    let mut b = Brightness::new(50);
    b.increase_brightness();
    assert_eq!(b.current_brightness, 55);
    let mut c = Brightness::new(100);
    c.increase_brightness();
    assert_eq!(c.current_brightness, 100);
    let mut d = Brightness::new(98);
    d.increase_brightness();
    assert_eq!(d.current_brightness, 100);
}

#[test]
fn brightness_floor_is_one_not_zero() {
    let mut b = Brightness::new(1);
    b.decrease_brightness();
    assert_eq!(b.current_brightness, 1);
    let mut c = Brightness::new(6);
    c.decrease_brightness();
    assert_eq!(c.current_brightness, 1);
    let mut d = Brightness::new(3);
    d.decrease_brightness();
    assert_eq!(d.current_brightness, 1);
}

#[test]
fn brightness_decrease_steps_down() {
    let mut b = Brightness::new(50);
    b.decrease_brightness();
    assert_eq!(b.current_brightness, 45);
}

#[test]
fn brightness_query_parses_output() {
    assert_eq!(Brightness::get_current_brightness(b"73\n"), Ok(73));
    assert_eq!(
        Brightness::get_current_brightness(b"7a\n"),
        Err(OsdError::ExternalToolError)
    );
}
