//! The volume widget: shows the audio level briefly after it changes,
//! with an icon scaled to the level, or a mute icon. Querying the mixer
//! happens outside the library; the reading is handed to `update` with
//! the level in tenths of a percent.

use vstd::prelude::*;
use vstd::string::*;
use crate::text::{fixed1_str, replace, replaced, tenths_to_string};
use crate::timer::{spec_advanced, ResettableTimer};
use crate::util::{percentage_to_index, spec_percentage_to_index};
use crate::widget::{default_poll_ms, spec_default_poll_ms, HookPlan, Text, WidgetConfig};

verus! {

/// Icons shown beside the volume, from quiet to loud, and while muted.
pub struct VolumeIcons {
    pub percentages: Vec<String>,
    /// Shown while the device is muted.
    pub muted: String,
}

impl Default for VolumeIcons {
    fn default() -> (r: VolumeIcons)
        ensures
            r.percentages@.len() == 3,
            r.muted@ == "\u{fc5d}"@,
    {
        let mut percentages: Vec<String> = Vec::new();
        percentages.push(String::from_str("\u{fa7e}"));
        percentages.push(String::from_str("\u{fa7f}"));
        percentages.push(String::from_str("\u{fa7d}"));
        VolumeIcons { percentages, muted: String::from_str("\u{fc5d}") }
    }
}

/// What a mixer query yields: the level in tenths of a percent and the
/// mute state, each absent when the query failed.
#[derive(Clone, Copy, PartialEq, Eq, Structural, Debug)]
pub struct VolumeReading {
    pub volume_tenths: Option<u64>,
    pub muted: Option<bool>,
}

/// Displays status and volume of the audio device.
pub struct Volume {
    pub format: String,
    pub inner: Text,
    pub icons: VolumeIcons,
    pub previous_volume: u64,
    pub previous_muted: bool,
    pub show_counter: ResettableTimer,
}

/// The text the widget shows for a level and mute state: nothing once the
/// show window has passed, the mute icon while muted, otherwise the
/// format with `%p` the level (one decimal) and `%i` its icon.
pub open spec fn volume_text(
    format: Seq<char>,
    icons: VolumeIcons,
    counter: ResettableTimer,
    volume: u64,
    muted: bool,
) -> Seq<char> {
    if counter.spec_is_done() {
        Seq::<char>::empty()
    } else if muted {
        icons.muted@
    } else {
        let list = icons.percentages@;
        let icon = if list.len() == 0 {
            Seq::<char>::empty()
        } else {
            list[spec_percentage_to_index(volume as int / 10, 0, list.len() - 1)]@
        };
        replaced(replaced(format, "%p"@, fixed1_str(volume as int)), "%i"@, icon)
    }
}

/// How an update changes the widget: a failed query counts as unmuted
/// silence; the show window advances (and restarts when level or mute
/// state changed), and the text follows `volume_text`.
pub open spec fn volume_update_rel(
    pre: Volume,
    post: Volume,
    reading: VolumeReading,
    delta_ms: u64,
) -> bool {
    let volume = match reading.volume_tenths {
        Some(v) => v,
        None => 0u64,
    };
    let muted = match reading.muted {
        Some(m) => m,
        None => false,
    };
    let moved = spec_advanced(pre.show_counter, delta_ms as int);
    let counter = if volume != pre.previous_volume || muted != pre.previous_muted {
        ResettableTimer { duration_ms: moved.duration_ms, elapsed_ms: 0 }
    } else {
        moved
    };
    &&& post.format == pre.format
    &&& post.icons == pre.icons
    &&& post.previous_volume == volume
    &&& post.previous_muted == muted
    &&& post.show_counter == counter
    &&& post.inner.padding == pre.inner.padding
    &&& post.inner.flex == pre.inner.flex
    &&& post.inner.text@ == volume_text(pre.format@, pre.icons, counter, volume, muted)
}

impl Volume {
    /// `%p` is replaced with the volume percentage (one decimal) and `%i`
    /// with the icon matching it. The level is shown for the configured
    /// hide timeout after each change.
    pub fn new(format: &str, icons: Option<VolumeIcons>, config: &WidgetConfig) -> (r: Box<
        Volume,
    >)
        ensures
            r.format@ == format@,
            r.previous_volume == 0,
            !r.previous_muted,
            r.show_counter == (ResettableTimer {
                duration_ms: config.hide_timeout_ms,
                elapsed_ms: config.hide_timeout_ms,
            }),
            r.inner.text@.len() == 0,
            r.inner.padding == config.padding,
            r.inner.flex == config.flex,
            (icons matches Some(i) ==> r.icons == i),
            (icons is None ==> r.icons.percentages@.len() == 3 && r.icons.muted@ == "\u{fc5d}"@),
    {
        proof {
            reveal_strlit("");
        }
        let ic = match icons {
            Some(i) => i,
            None => VolumeIcons::default(),
        };
        Box::new(
            Volume {
                format: String::from_str(format),
                inner: Text::new("", config),
                icons: ic,
                previous_volume: 0,
                previous_muted: false,
                show_counter: ResettableTimer::new(config.hide_timeout_ms),
            },
        )
    }

    /// Renders what the widget shows for a level and mute state.
    pub fn build_string(&self, volume: u64, muted: bool) -> (r: String)
        ensures
            r@ == volume_text(self.format@, self.icons, self.show_counter, volume, muted),
    {
        if self.show_counter.is_done() {
            return String::new();
        }
        if muted {
            return self.icons.muted.clone();
        }
        let icon: String = if self.icons.percentages.len() == 0 {
            String::new()
        } else {
            let idx = percentage_to_index(volume / 10, (0, self.icons.percentages.len() - 1));
            self.icons.percentages[idx].clone()
        };
        proof {
            reveal_strlit("%p");
            reveal_strlit("%i");
        }
        let p = tenths_to_string(volume);
        let a = replace(self.format.as_str(), "%p", p.as_str());
        replace(a.as_str(), "%i", icon.as_str())
    }

    /// Renders a fresh reading; a failed query counts as unmuted silence,
    /// so the widget itself never fails.
    pub fn update(&mut self, reading: &VolumeReading, delta_ms: u64)
        ensures
            volume_update_rel(*old(self), *final(self), *reading, delta_ms),
    {
        let volume = match reading.volume_tenths {
            Some(v) => v,
            None => 0,
        };
        let muted = match reading.muted {
            Some(m) => m,
            None => false,
        };
        self.show_counter.advance(delta_ms);
        if volume != self.previous_volume || muted != self.previous_muted {
            self.previous_volume = volume;
            self.previous_muted = muted;
            self.show_counter.reset();
        }
        let text = self.build_string(volume, muted);
        self.inner.set_text(text);
    }

    /// A volume widget polls on the shared timer.
    pub fn hook_plan(&self) -> (r: HookPlan)
        ensures
            r == (HookPlan::Timed { interval_ms: spec_default_poll_ms() }),
    {
        HookPlan::Timed { interval_ms: default_poll_ms() }
    }

    /// The horizontal extent the cached text needs.
    pub fn size(&self) -> (r: u64)
        ensures
            r == self.inner.text@.len(),
    {
        self.inner.size()
    }

    /// Fixed extra margin around the widget.
    pub fn padding(&self) -> (r: u64)
        ensures
            r == self.inner.padding,
    {
        self.inner.padding()
    }

    /// The widget's display name.
    pub fn name(&self) -> (r: &'static str)
        ensures
            r@ == "Volume"@,
    {
        "Volume"
    }
}

} // verus!
