//! The weather widget: renders the current conditions at the machine's
//! location. Geolocation and the forecast query happen outside the
//! library; the assembled snapshot is handed to `update`, and assembling
//! it from the query's parts is verified here.

use vstd::prelude::*;
use vstd::string::*;
use crate::text::replace;
use crate::text::replaced;
use crate::widget::{HookPlan, Text, WidgetConfig};

verus! {

/// A weather snapshot: the condition code and already-rendered
/// temperature strings.
#[derive(Debug)]
pub struct Meteo {
    pub code: u8,
    pub city: String,
    pub current: String,
    pub max: String,
    pub min: String,
}

/// The weather widget's errors.
#[derive(PartialEq, Eq, Debug)]
pub enum Error {
    /// The machine's public address could not be found.
    PublicIpNotFound,
    /// Geolocation failed.
    Geo(String),
    /// The forecast query failed.
    OpenMeteoRequest(String),
    /// The forecast answer lacks a field.
    MissingData(String),
}

/// Tags the default forecast source; the query itself runs outside the
/// library and yields the parts `Meteo::from_parts` assembles.
pub struct OpenMeteoProvider;

impl OpenMeteoProvider {
    pub fn new() -> (r: Box<OpenMeteoProvider>) {
        Box::new(OpenMeteoProvider)
    }
}

impl Meteo {
    /// Assembles a snapshot from a forecast answer's parts: each
    /// temperature gets its unit appended (the current one is reported
    /// with the daily-minimum unit), and a missing part is the error that
    /// names it.
    pub fn from_parts(
        city: String,
        code: u8,
        current_temp: Option<String>,
        max_temp: Option<String>,
        min_temp: Option<String>,
        unit_max: String,
        unit_min: String,
    ) -> (r: Result<Meteo, Error>)
        ensures
            match r {
                Ok(m) => {
                    &&& current_temp matches Some(c) && m.current@ == c@ + unit_min@
                    &&& max_temp matches Some(x) && m.max@ == x@ + unit_max@
                    &&& min_temp matches Some(n) && m.min@ == n@ + unit_min@
                    &&& m.city == city
                    &&& m.code == code
                },
                Err(Error::MissingData(which)) => {
                    ||| current_temp is None && which@ == "current_weather"@
                    ||| current_temp is Some && max_temp is None && which@
                        == "max_temperature"@
                    ||| current_temp is Some && max_temp is Some && min_temp is None && which@
                        == "min_temperature"@
                },
                Err(_) => false,
            },
    {
        let current = match current_temp {
            Some(c) => c,
            None => {
                return Err(Error::MissingData(String::from_str("current_weather")));
            },
        };
        let maxv = match max_temp {
            Some(x) => x,
            None => {
                return Err(Error::MissingData(String::from_str("max_temperature")));
            },
        };
        let minv = match min_temp {
            Some(n) => n,
            None => {
                return Err(Error::MissingData(String::from_str("min_temperature")));
            },
        };
        Ok(
            Meteo {
                code,
                city,
                current: current.concat(unit_min.as_str()),
                max: maxv.concat(unit_max.as_str()),
                min: minv.concat(unit_min.as_str()),
            },
        )
    }
}

/// The icon strings used by the weather widget.
pub struct MeteoIcons {
    pub clear: String,
    pub cloudy: String,
    pub fog: String,
    pub freezing_rain: String,
    pub freezing_drizzle: String,
    pub hail: String,
    pub rain: String,
    pub snow: String,
    pub drizzle: String,
    pub light_snow: String,
    pub thunderstorm: String,
    pub unknown: String,
}

impl Default for MeteoIcons {
    fn default() -> (r: MeteoIcons)
        ensures
            r.clear@ == "󰖙"@,
            r.cloudy@ == "󰖐"@,
            r.drizzle@ == "󰖗"@,
            r.fog@ == "󰖑"@,
            r.freezing_drizzle@ == "󰖘"@,
            r.freezing_rain@ == "󰙿"@,
            r.hail@ == "󰖒"@,
            r.light_snow@ == "󰖘"@,
            r.rain@ == "󰖖"@,
            r.snow@ == "󰼶"@,
            r.thunderstorm@ == "\u{e31d}"@,
            r.unknown@ == "\u{f128}"@,
    {
        MeteoIcons {
            clear: String::from_str("󰖙"),
            cloudy: String::from_str("󰖐"),
            drizzle: String::from_str("󰖗"),
            fog: String::from_str("󰖑"),
            freezing_drizzle: String::from_str("󰖘"),
            freezing_rain: String::from_str("󰙿"),
            hail: String::from_str("󰖒"),
            light_snow: String::from_str("󰖘"),
            rain: String::from_str("󰖖"),
            snow: String::from_str("󰼶"),
            thunderstorm: String::from_str("\u{e31d}"),
            unknown: String::from_str("\u{f128}"),
        }
    }
}

/// The icon a condition code selects.
pub open spec fn spec_translate_code(icons: MeteoIcons, value: u8) -> Seq<char> {
    if value == 0 {
        icons.clear@
    } else if 1 <= value <= 3 {
        icons.cloudy@
    } else if value == 45 || value == 48 {
        icons.fog@
    } else if value == 51 || value == 53 || value == 55 {
        icons.drizzle@
    } else if value == 56 || value == 57 {
        icons.freezing_drizzle@
    } else if value == 61 || value == 63 || value == 65 {
        icons.rain@
    } else if value == 66 || value == 67 {
        icons.freezing_rain@
    } else if value == 71 || value == 73 || value == 75 {
        icons.snow@
    } else if value == 77 {
        icons.light_snow@
    } else if value == 85 || value == 86 {
        icons.snow@
    } else if value == 95 {
        icons.thunderstorm@
    } else if value == 96 || value == 99 {
        icons.hail@
    } else {
        icons.unknown@
    }
}

impl MeteoIcons {
    /// Converts a condition code to its icon.
    pub fn translate_code(&self, value: u8) -> (r: String)
        ensures
            r@ == spec_translate_code(*self, value),
    {
        match value {
            0 => self.clear.clone(),
            1..=3 => self.cloudy.clone(),
            45 | 48 => self.fog.clone(),
            51 | 53 | 55 => self.drizzle.clone(),
            56 | 57 => self.freezing_drizzle.clone(),
            61 | 63 | 65 => self.rain.clone(),
            66 | 67 => self.freezing_rain.clone(),
            71 | 73 | 75 => self.snow.clone(),
            77 => self.light_snow.clone(),
            85 | 86 => self.snow.clone(),
            95 => self.thunderstorm.clone(),
            96 | 99 => self.hail.clone(),
            _ => self.unknown.clone(),
        }
    }
}

/// Fetches and displays the conditions at the machine's position.
pub struct Weather {
    pub icons: MeteoIcons,
    pub format: String,
    pub inner: Text,
}

/// The rendered text: the format with `%city` the place, `%icon` the
/// condition icon, and `%cur`, `%max`, `%min` the temperatures.
pub open spec fn weather_rendered(format: Seq<char>, icons: MeteoIcons, m: Meteo) -> Seq<char> {
    replaced(
        replaced(
            replaced(
                replaced(
                    replaced(format, "%city"@, m.city@),
                    "%icon"@,
                    spec_translate_code(icons, m.code),
                ),
                "%cur"@,
                m.current@,
            ),
            "%max"@,
            m.max@,
        ),
        "%min"@,
        m.min@,
    )
}

/// How an update changes the widget: a failed fetch leaves it exactly as
/// it was; otherwise only the cached text changes.
pub open spec fn weather_update_rel(
    pre: Weather,
    post: Weather,
    fetch: Result<Meteo, Error>,
) -> bool {
    match fetch {
        Err(_) => post == pre,
        Ok(m) => {
            &&& post.format == pre.format
            &&& post.icons == pre.icons
            &&& post.inner.padding == pre.inner.padding
            &&& post.inner.flex == pre.inner.flex
            &&& post.inner.text@ == weather_rendered(pre.format@, pre.icons, m)
        },
    }
}

impl Weather {
    /// `%city` is replaced with the place the forecast is for, `%icon`
    /// with the condition icon, and `%cur`, `%max`, `%min` with the
    /// temperatures.
    pub fn new(format: &str, icons: MeteoIcons, config: &WidgetConfig) -> (r: Box<Weather>)
        ensures
            r.format@ == format@,
            r.icons == icons,
            r.inner.text@ == "Loading..."@,
            r.inner.padding == config.padding,
            r.inner.flex == config.flex,
    {
        Box::new(
            Weather { icons, format: String::from_str(format), inner: Text::new("Loading...", config) },
        )
    }

    /// Renders a fetched snapshot; errs exactly with a failed fetch,
    /// handing its error back and leaving the widget untouched.
    pub fn update(&mut self, fetch: Result<Meteo, Error>) -> (r: Result<(), Error>)
        ensures
            weather_update_rel(*old(self), *final(self), fetch),
            match fetch {
                Ok(_) => r is Ok,
                Err(e) => r == Err::<(), Error>(e),
            },
    {
        let m = match fetch {
            Ok(m) => m,
            Err(e) => {
                return Err(e);
            },
        };
        proof {
            reveal_strlit("%city");
            reveal_strlit("%icon");
            reveal_strlit("%cur");
            reveal_strlit("%max");
            reveal_strlit("%min");
        }
        let icon = self.icons.translate_code(m.code);
        let a = replace(self.format.as_str(), "%city", m.city.as_str());
        let b = replace(a.as_str(), "%icon", icon.as_str());
        let c = replace(b.as_str(), "%cur", m.current.as_str());
        let d = replace(c.as_str(), "%max", m.max.as_str());
        let e = replace(d.as_str(), "%min", m.min.as_str());
        self.inner.set_text(e);
        Ok(())
    }

    /// A weather widget re-fetches at its own slow pace (hourly).
    pub fn hook_plan(&self) -> (r: HookPlan)
        ensures
            r == (HookPlan::SelfPaced { interval_ms: 3600000u64 }),
    {
        HookPlan::SelfPaced { interval_ms: 3600000 }
    }

    /// The horizontal extent the cached text needs.
    pub fn size(&self) -> (r: u64)
        ensures
            r == self.inner.text@.len(),
    {
        self.inner.size()
    }

    /// Fixed extra margin around the widget.
    pub fn padding(&self) -> (r: u64)
        ensures
            r == self.inner.padding,
    {
        self.inner.padding()
    }

    /// The widget's display name.
    pub fn name(&self) -> (r: &'static str)
        ensures
            r@ == "Weather"@,
    {
        "Weather"
    }
}

} // verus!
