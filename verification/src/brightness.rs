//! The brightness widget: shows the backlight level briefly after it
//! changes, then hides it again. Reading the level happens outside the
//! library; the reading is handed to `update`.

use vstd::prelude::*;
use vstd::string::*;
use crate::text::{int_str, i64_to_string, replace, replaced};
use crate::timer::{spec_advanced, ResettableTimer};
use crate::widget::{HookPlan, Text, WidgetConfig};

verus! {

/// The brightness widget's errors.
#[derive(Clone, Copy, PartialEq, Eq, Structural, Debug)]
pub enum Error {
    /// The backlight level could not be read.
    CommandError,
}

/// Displays the backlight level while it changes.
pub struct Brightness {
    pub format: String,
    pub previous_brightness: i32,
    pub show_counter: ResettableTimer,
    pub inner: Text,
}

/// How an update changes the widget: an absent reading leaves it exactly
/// as it was; otherwise the show window advances (and restarts when the
/// level changed), and the level is rendered only while the window is
/// open.
pub open spec fn brightness_update_rel(
    pre: Brightness,
    post: Brightness,
    reading: Option<i32>,
    delta_ms: u64,
) -> bool {
    match reading {
        None => post == pre,
        Some(level) => {
            let moved = spec_advanced(pre.show_counter, delta_ms as int);
            let counter = if level != pre.previous_brightness {
                ResettableTimer { duration_ms: moved.duration_ms, elapsed_ms: 0 }
            } else {
                moved
            };
            &&& post.format == pre.format
            &&& post.previous_brightness == level
            &&& post.show_counter == counter
            &&& post.inner.padding == pre.inner.padding
            &&& post.inner.flex == pre.inner.flex
            &&& post.inner.text@ == if counter.spec_is_done() {
                Seq::<char>::empty()
            } else {
                replaced(pre.format@, "%b"@, int_str(level as int))
            }
        },
    }
}

impl Brightness {
    /// `%b` is replaced with the backlight level. The level is shown for
    /// the configured hide timeout after each change.
    pub fn new(format: &str, config: &WidgetConfig) -> (r: Box<Brightness>)
        ensures
            r.format@ == format@,
            r.previous_brightness == 0,
            r.show_counter == (ResettableTimer {
                duration_ms: config.hide_timeout_ms,
                elapsed_ms: config.hide_timeout_ms,
            }),
            r.inner.text@.len() == 0,
            r.inner.padding == config.padding,
            r.inner.flex == config.flex,
    {
        proof {
            reveal_strlit("");
        }
        Box::new(
            Brightness {
                format: String::from_str(format),
                previous_brightness: 0,
                show_counter: ResettableTimer::new(config.hide_timeout_ms),
                inner: Text::new("", config),
            },
        )
    }

    /// Renders a fresh reading; errs exactly when the reading is absent,
    /// leaving the widget untouched.
    pub fn update(&mut self, reading: &Option<i32>, delta_ms: u64) -> (r: Result<(), Error>)
        ensures
            brightness_update_rel(*old(self), *final(self), *reading, delta_ms),
            match r {
                Ok(()) => reading is Some,
                Err(e) => reading is None && e == Error::CommandError,
            },
    {
        let level = match reading {
            Some(v) => *v,
            None => {
                return Err(Error::CommandError);
            },
        };
        self.show_counter.advance(delta_ms);
        if level != self.previous_brightness {
            self.previous_brightness = level;
            self.show_counter.reset();
        }
        let text = if self.show_counter.is_done() {
            String::new()
        } else {
            proof {
                reveal_strlit("%b");
            }
            let b = i64_to_string(level as i64);
            replace(self.format.as_str(), "%b", b.as_str())
        };
        self.inner.set_text(text);
        Ok(())
    }

    /// A brightness widget polls on the shared timer, fast enough to
    /// close its show window on time (a tenth of it, at least every
    /// millisecond).
    pub fn hook_plan(&self) -> (r: HookPlan)
        ensures
            r == (HookPlan::Timed {
                interval_ms: if self.show_counter.duration_ms / 10 == 0 {
                    1u64
                } else {
                    self.show_counter.duration_ms / 10
                },
            }),
    {
        let d = self.show_counter.duration_ms / 10;
        let interval_ms = if d == 0 {
            1
        } else {
            d
        };
        HookPlan::Timed { interval_ms }
    }

    /// The horizontal extent the cached text needs.
    pub fn size(&self) -> (r: u64)
        ensures
            r == self.inner.text@.len(),
    {
        self.inner.size()
    }

    /// Fixed extra margin around the widget.
    pub fn padding(&self) -> (r: u64)
        ensures
            r == self.inner.padding,
    {
        self.inner.padding()
    }

    /// The widget's display name.
    pub fn name(&self) -> (r: &'static str)
        ensures
            r@ == "Brightness"@,
    {
        "Brightness"
    }
}

} // verus!
