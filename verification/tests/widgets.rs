use barust::active_window::ActiveWindow;
use barust::battery::{Battery, BatteryIcons, BatteryReading, Error as BatteryError};
use barust::brightness::{Brightness, Error as BrightnessError};
use barust::disk::{Disk, DiskStats};
use barust::volume::{Volume, VolumeReading};
use barust::weather::{Error as WeatherError, Meteo, MeteoIcons, OpenMeteoProvider, Weather};
use barust::widget::{HookPlan, WidgetConfig};
use barust::wlan::{WirelessInfo, Wlan};

#[test]
fn battery_picks_the_first_battery_entry() {
    let config = WidgetConfig::standard();
    let names = vec!["AC".to_string(), "BAT0".to_string(), "BAT1".to_string()];
    let b = Battery::new("%c%", None, &config, &names).unwrap();
    assert_eq!(b.root_path, "BAT0");
}

#[test]
fn battery_without_supply_entry_is_an_error() {
    let config = WidgetConfig::standard();
    let names = vec!["AC".to_string(), "usb".to_string()];
    let r = Battery::new("%c%", None, &config, &names);
    assert!(matches!(r, Err(BatteryError::NoBattery)));
}

#[test]
fn battery_renders_percent_and_icon() {
    let config = WidgetConfig::standard();
    let names = vec!["BAT0".to_string()];
    let mut b = *Battery::new("%i %c%", None, &config, &names).unwrap();
    let icons = BatteryIcons::default();
    b.update(&BatteryReading {
        charge_now: Some("42\n".to_string()),
        charge_full: Some("100".to_string()),
        energy_now: None,
        energy_full: None,
        status: None,
    });
    let expected = format!("{} 42%", icons.percentages[4]);
    assert_eq!(b.inner.text, expected);
}

#[test]
fn battery_charging_uses_the_charging_icons() {
    let config = WidgetConfig::standard();
    let names = vec!["BAT0".to_string()];
    let mut b = *Battery::new("%i", None, &config, &names).unwrap();
    let icons = BatteryIcons::default();
    b.update(&BatteryReading {
        charge_now: Some("90".to_string()),
        charge_full: Some("100".to_string()),
        energy_now: None,
        energy_full: None,
        status: Some("Charging\n".to_string()),
    });
    assert_eq!(b.inner.text, icons.percentages_charging[6]);
}

#[test]
fn battery_falls_back_to_energy_files() {
    let config = WidgetConfig::standard();
    let names = vec!["BAT0".to_string()];
    let mut b = *Battery::new("%c", None, &config, &names).unwrap();
    b.update(&BatteryReading {
        charge_now: None,
        charge_full: None,
        energy_now: Some("30".to_string()),
        energy_full: Some("60".to_string()),
        status: None,
    });
    assert_eq!(b.inner.text, "50");
}

#[test]
fn brightness_shows_briefly_then_hides() {
    let config = WidgetConfig::standard();
    let mut b = *Brightness::new("%b", &config);
    assert_eq!(b.update(&Some(50), 0), Ok(()));
    assert_eq!(b.inner.text, "50");
    // unchanged level: the show window runs out
    assert_eq!(b.update(&Some(50), config.hide_timeout_ms + 1), Ok(()));
    assert_eq!(b.inner.text, "");
    // a change shows it again
    assert_eq!(b.update(&Some(51), 10), Ok(()));
    assert_eq!(b.inner.text, "51");
}

#[test]
fn brightness_read_failure_is_reported_and_harmless() {
    let config = WidgetConfig::standard();
    let mut b = *Brightness::new("%b", &config);
    assert_eq!(b.update(&Some(50), 0), Ok(()));
    assert_eq!(b.update(&None, 10), Err(BrightnessError::CommandError));
    assert_eq!(b.inner.text, "50");
}

#[test]
fn volume_renders_level_and_icon() {
    let config = WidgetConfig::standard();
    let mut v = *Volume::new("%p %i", None, &config);
    v.update(
        &VolumeReading { volume_tenths: Some(421), muted: Some(false) },
        0,
    );
    let expected = format!("42.1 {}", v.icons.percentages[1]);
    assert_eq!(v.inner.text, expected);
}

#[test]
fn volume_mute_shows_the_mute_icon() {
    let config = WidgetConfig::standard();
    let mut v = *Volume::new("%p %i", None, &config);
    v.update(&VolumeReading { volume_tenths: Some(300), muted: Some(true) }, 0);
    assert_eq!(v.inner.text, v.icons.muted);
}

#[test]
fn volume_hides_after_inactivity() {
    let config = WidgetConfig::standard();
    let mut v = *Volume::new("%p", None, &config);
    v.update(&VolumeReading { volume_tenths: Some(300), muted: Some(false) }, 0);
    assert_eq!(v.inner.text, "30.0");
    v.update(
        &VolumeReading { volume_tenths: Some(300), muted: Some(false) },
        config.hide_timeout_ms + 1,
    );
    assert_eq!(v.inner.text, "");
}

#[test]
fn wlan_renders_interface_essid_and_quality() {
    let config = WidgetConfig::standard();
    let mut w = *Wlan::new("%i:%e:%q", "wlp1s0".to_string(), &config);
    w.update(&Some(WirelessInfo { essid: "home".to_string(), quality: 70 }));
    assert_eq!(w.inner.text, "wlp1s0:home:70");
    w.update(&None);
    assert_eq!(w.inner.text, "No interface");
}

#[test]
fn active_window_caches_the_title() {
    let config = WidgetConfig::standard();
    let mut w = *ActiveWindow::new(&config);
    assert_eq!(w.hook_plan(), HookPlan::Listener);
    w.update("editor".to_string());
    assert_eq!(w.inner.text, "editor");
    assert_eq!(w.size(), 6);
}

#[test]
fn meteo_assembles_from_parts() {
    let m = Meteo::from_parts(
        "Lisbon".to_string(),
        2,
        Some("19.5".to_string()),
        Some("23.1".to_string()),
        Some("12.0".to_string()),
        "\u{b0}C".to_string(),
        "\u{b0}C".to_string(),
    )
    .unwrap();
    assert_eq!(m.current, "19.5\u{b0}C");
    assert_eq!(m.max, "23.1\u{b0}C");
    assert_eq!(m.min, "12.0\u{b0}C");
}

#[test]
fn meteo_missing_part_names_it() {
    let r = Meteo::from_parts(
        "Lisbon".to_string(),
        2,
        Some("19.5".to_string()),
        None,
        Some("12.0".to_string()),
        "C".to_string(),
        "C".to_string(),
    );
    match r {
        Err(WeatherError::MissingData(which)) => assert_eq!(which, "max_temperature"),
        other => panic!("unexpected: {:?}", other),
    }
}

#[test]
fn weather_renders_the_snapshot() {
    let config = WidgetConfig::standard();
    let _provider = OpenMeteoProvider::new();
    let icons = MeteoIcons::default();
    let clear = icons.clear.clone();
    let mut w = *Weather::new("%city %icon %cur (%min..%max)", icons, &config);
    assert_eq!(w.inner.text, "Loading...");
    let m = Meteo {
        code: 0,
        city: "Lisbon".to_string(),
        current: "19C".to_string(),
        max: "23C".to_string(),
        min: "12C".to_string(),
    };
    assert_eq!(w.update(Ok(m)), Ok(()));
    assert_eq!(w.inner.text, format!("Lisbon {} 19C (12C..23C)", clear));
    // a failed fetch keeps the last rendering
    let r = w.update(Err(WeatherError::PublicIpNotFound));
    assert_eq!(r, Err(WeatherError::PublicIpNotFound));
    assert_eq!(w.inner.text, format!("Lisbon {} 19C (12C..23C)", clear));
}

#[test]
fn condition_codes_translate_to_icons() {
    let icons = MeteoIcons::default();
    assert_eq!(icons.translate_code(0), icons.clear);
    assert_eq!(icons.translate_code(2), icons.cloudy);
    assert_eq!(icons.translate_code(45), icons.fog);
    assert_eq!(icons.translate_code(65), icons.rain);
    assert_eq!(icons.translate_code(77), icons.light_snow);
    assert_eq!(icons.translate_code(99), icons.hail);
    assert_eq!(icons.translate_code(42), icons.unknown);
}

#[test]
fn disk_renders_usage_figures() {
    let config = WidgetConfig::standard();
    let mut d = *Disk::new("%p used (%u of %t, %f free)", "/", &config);
    let stats = DiskStats {
        total: 100 * 1024 * 1024,
        used: 25 * 1024 * 1024,
        free: 75 * 1024 * 1024,
    };
    assert!(d.update(&Some(stats)).is_ok());
    assert_eq!(d.inner.text, "25.0 used (25MB of 100MB, 75MB free)");
    assert!(d.update(&None).is_err());
    assert_eq!(d.inner.text, "25.0 used (25MB of 100MB, 75MB free)");
}

#[test]
fn widgets_report_their_display_names() {
    let config = WidgetConfig::standard();
    let names = vec!["BAT0".to_string()];
    assert_eq!(Battery::new("%c", None, &config, &names).unwrap().name(), "Battery");
    assert_eq!(Brightness::new("%b", &config).name(), "Brightness");
    assert_eq!(Volume::new("%p", None, &config).name(), "Volume");
    assert_eq!(Disk::new("%u", "/", &config).name(), "Disk");
    assert_eq!(Wlan::new("%q", "wlan0".to_string(), &config).name(), "Network");
    assert_eq!(Weather::new("%cur", MeteoIcons::default(), &config).name(), "Weather");
}
