//! The battery widget: renders charge percentage and a charge-level icon.
//! Reading the power-supply files happens outside the library; their raw
//! contents are handed to `update`, and the parsing, rounding and icon
//! choice are verified here.

use vstd::prelude::*;
use vstd::string::*;
use crate::text::{
    contains, dec_str, parse_u64, replace, replaced, spec_parse_u64, str_contains, str_eq, trim,
    trimmed,
};
use crate::util::{percent_of, percentage_to_index, spec_percent_of, spec_percentage_to_index};
use crate::widget::{default_poll_ms, spec_default_poll_ms, HookPlan, Text, WidgetConfig};

verus! {

/// Icons shown beside the charge percentage, from empty to full.
pub struct BatteryIcons {
    pub percentages: Vec<String>,
    /// Shown while the device is charging.
    pub percentages_charging: Vec<String>,
}

impl Default for BatteryIcons {
    fn default() -> (r: BatteryIcons)
        ensures
            r.percentages@.len() == 10,
            r.percentages_charging@.len() == 7,
            r.percentages@[0]@ == "\u{f579}"@,
            r.percentages@[4]@ == "\u{f57d}"@,
            r.percentages@[9]@ == "\u{f578}"@,
            r.percentages_charging@[6]@ == "\u{f584}"@,
    {
        let mut percentages: Vec<String> = Vec::new();
        percentages.push(String::from_str("\u{f579}"));
        percentages.push(String::from_str("\u{f57a}"));
        percentages.push(String::from_str("\u{f57b}"));
        percentages.push(String::from_str("\u{f57c}"));
        percentages.push(String::from_str("\u{f57d}"));
        percentages.push(String::from_str("\u{f57e}"));
        percentages.push(String::from_str("\u{f57f}"));
        percentages.push(String::from_str("\u{f580}"));
        percentages.push(String::from_str("\u{f581}"));
        percentages.push(String::from_str("\u{f578}"));
        let mut percentages_charging: Vec<String> = Vec::new();
        percentages_charging.push(String::from_str("\u{f585}"));
        percentages_charging.push(String::from_str("\u{f586}"));
        percentages_charging.push(String::from_str("\u{f587}"));
        percentages_charging.push(String::from_str("\u{f588}"));
        percentages_charging.push(String::from_str("\u{f589}"));
        percentages_charging.push(String::from_str("\u{f58a}"));
        percentages_charging.push(String::from_str("\u{f584}"));
        BatteryIcons { percentages, percentages_charging }
    }
}

/// The raw contents of the power-supply files, where they could be read.
pub struct BatteryReading {
    pub charge_now: Option<String>,
    pub charge_full: Option<String>,
    pub energy_now: Option<String>,
    pub energy_full: Option<String>,
    pub status: Option<String>,
}

/// The battery widget's errors.
#[derive(Clone, Copy, PartialEq, Eq, Structural, Debug)]
pub enum Error {
    /// No power-supply entry names a battery.
    NoBattery,
}

/// Displays status and charge of the battery.
pub struct Battery {
    pub format: String,
    pub inner: Text,
    pub root_path: String,
    pub icons: BatteryIcons,
}

/// The rounded percentage a now/full file pair yields: both must hold a
/// decimal number after trimming, and the full value must be positive.
pub open spec fn pair_percent(now: Option<String>, full: Option<String>) -> Option<u64> {
    match (now, full) {
        (Some(n), Some(f)) => match (
            spec_parse_u64(trimmed(n@)),
            spec_parse_u64(trimmed(f@)),
        ) {
            (Some(a), Some(b)) => if b == 0 {
                None
            } else {
                Some(spec_percent_of(a as int, b as int))
            },
            _ => None,
        },
        _ => None,
    }
}

/// Whether a status file reports the device as charging.
pub open spec fn spec_is_charging(status: Option<String>) -> bool {
    match status {
        Some(s) => trimmed(s@) == "Charging"@,
        None => false,
    }
}

/// The percentage a whole reading yields: the charge pair wins, the
/// energy pair is the fallback.
pub open spec fn reading_percent(r: BatteryReading) -> Option<u64> {
    match pair_percent(r.charge_now, r.charge_full) {
        Some(p) => Some(p),
        None => pair_percent(r.energy_now, r.energy_full),
    }
}

/// The text a reading renders to: the format with `%i` the icon matching
/// the percentage (from the charging row while charging) and `%c` the
/// percentage itself.
pub open spec fn battery_rendered(pre: Battery, r: BatteryReading, p: u64) -> Seq<char> {
    let list = if spec_is_charging(r.status) {
        pre.icons.percentages_charging@
    } else {
        pre.icons.percentages@
    };
    let icon = if list.len() == 0 {
        Seq::<char>::empty()
    } else {
        list[spec_percentage_to_index(p as int, 0, list.len() - 1)]@
    };
    replaced(replaced(pre.format@, "%i"@, icon), "%c"@, dec_str(p as int))
}

/// How an update changes the widget: a reading with no usable file pair
/// leaves it exactly as it was; otherwise only the cached text changes.
pub open spec fn battery_update_rel(pre: Battery, post: Battery, r: BatteryReading) -> bool {
    match reading_percent(r) {
        None => post == pre,
        Some(p) => {
            &&& post.format == pre.format
            &&& post.root_path == pre.root_path
            &&& post.icons == pre.icons
            &&& post.inner.padding == pre.inner.padding
            &&& post.inner.flex == pre.inner.flex
            &&& post.inner.text@ == battery_rendered(pre, r, p)
        },
    }
}

/// The first power-supply entry that names a battery.
pub open spec fn first_battery(names: Seq<String>) -> Option<String>
    decreases names.len(),
{
    if names.len() == 0 {
        None
    } else if str_contains(names[0]@, "BAT"@) {
        Some(names[0])
    } else {
        first_battery(names.skip(1))
    }
}

fn read_pair(now: &Option<String>, full: &Option<String>) -> (r: Option<u64>)
    ensures
        r == pair_percent(*now, *full),
{
    match (now, full) {
        (Some(n), Some(f)) => {
            let tn = trim(n.as_str());
            match parse_u64(tn.as_str()) {
                Some(a) => {
                    let tf = trim(f.as_str());
                    match parse_u64(tf.as_str()) {
                        Some(b) => percent_of(a, b),
                        None => None,
                    }
                },
                None => None,
            }
        },
        _ => None,
    }
}

impl Battery {
    /// `%c` is replaced with the charge percentage and `%i` with the icon
    /// matching it. The battery is looked up among the given power-supply
    /// entry names: the first one mentioning "BAT" is taken, and the
    /// construction fails exactly when there is none.
    pub fn new(
        format: &str,
        icons: Option<BatteryIcons>,
        config: &WidgetConfig,
        supply_names: &Vec<String>,
    ) -> (r: Result<Box<Battery>, Error>)
        ensures
            match r {
                Ok(b) => {
                    &&& first_battery(supply_names@) == Some(b.root_path)
                    &&& b.format@ == format@
                    &&& b.inner.text@.len() == 0
                    &&& b.inner.padding == config.padding
                    &&& b.inner.flex == config.flex
                    &&& (icons matches Some(i) ==> b.icons == i)
                    &&& (icons is None ==> b.icons.percentages@.len() == 10
                        && b.icons.percentages_charging@.len() == 7)
                },
                Err(e) => e == Error::NoBattery && first_battery(supply_names@) is None,
            },
    {
        proof {
            reveal_strlit("BAT");
            reveal_strlit("");
        }
        let n = supply_names.len();
        let mut i: usize = 0;
        proof {
            assert(supply_names@.skip(0) =~= supply_names@);
        }
        while i < n
            invariant
                i <= n,
                n == supply_names@.len(),
                first_battery(supply_names@) == first_battery(supply_names@.skip(i as int)),
            decreases n - i,
        {
            proof {
                reveal_strlit("BAT");
                reveal_strlit("");
                assert(supply_names@.skip(i as int)[0] == supply_names@[i as int]);
            }
            if contains(supply_names[i].as_str(), "BAT") {
                let root_path = supply_names[i].clone();
                let ic = match icons {
                    Some(ic) => ic,
                    None => BatteryIcons::default(),
                };
                return Ok(
                    Box::new(
                        Battery {
                            format: String::from_str(format),
                            inner: Text::new("", config),
                            root_path,
                            icons: ic,
                        },
                    ),
                );
            }
            proof {
                assert(supply_names@.skip(i as int).skip(1) =~= supply_names@.skip(i + 1));
            }
            i += 1;
        }
        proof {
            assert(supply_names@.skip(n as int) =~= Seq::<String>::empty());
        }
        Err(Error::NoBattery)
    }

    /// Renders a fresh reading into the cached text: the charge file pair
    /// wins, the energy pair is the fallback, and a reading with neither
    /// leaves the widget untouched (it will retry at the next signal).
    pub fn update(&mut self, reading: &BatteryReading)
        ensures
            battery_update_rel(*old(self), *final(self), *reading),
    {
        let percent = match read_pair(&reading.charge_now, &reading.charge_full) {
            Some(p) => Some(p),
            None => read_pair(&reading.energy_now, &reading.energy_full),
        };
        let p = match percent {
            Some(p) => p,
            None => {
                return ;
            },
        };
        let charging = match &reading.status {
            Some(s) => {
                let t = trim(s.as_str());
                str_eq(t.as_str(), "Charging")
            },
            None => false,
        };
        let list = if charging {
            &self.icons.percentages_charging
        } else {
            &self.icons.percentages
        };
        let icon: String = if list.len() == 0 {
            String::new()
        } else {
            let idx = percentage_to_index(p, (0, list.len() - 1));
            list[idx].clone()
        };
        proof {
            reveal_strlit("%i");
            reveal_strlit("%c");
        }
        let a = replace(self.format.as_str(), "%i", icon.as_str());
        let c = crate::text::u64_to_string(p);
        let b = replace(a.as_str(), "%c", c.as_str());
        self.inner.set_text(b);
    }

    /// A battery widget polls on the shared timer.
    pub fn hook_plan(&self) -> (r: HookPlan)
        ensures
            r == (HookPlan::Timed { interval_ms: spec_default_poll_ms() }),
    {
        HookPlan::Timed { interval_ms: default_poll_ms() }
    }

    /// The horizontal extent the cached text needs.
    pub fn size(&self) -> (r: u64)
        ensures
            r == self.inner.text@.len(),
    {
        self.inner.size()
    }

    /// Fixed extra margin around the widget.
    pub fn padding(&self) -> (r: u64)
        ensures
            r == self.inner.padding,
    {
        self.inner.padding()
    }

    /// The widget's display name.
    pub fn name(&self) -> (r: &'static str)
        ensures
            r@ == "Battery"@,
    {
        "Battery"
    }
}

} // verus!
