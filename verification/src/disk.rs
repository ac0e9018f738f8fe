//! The disk widget: renders usage of one mount point. Reading the disk
//! happens outside the library; the figures are handed to `update`.

use vstd::prelude::*;
use vstd::string::*;
use crate::text::{fixed1_str, replace, replaced, tenths_to_string};
use crate::util::{bytes_closest, bytes_to_closest};
use crate::widget::{default_poll_ms, spec_default_poll_ms, HookPlan, Text, WidgetConfig};

verus! {

/// Disk usage figures, in bytes.
#[derive(Clone, Copy, PartialEq, Eq, Structural, Debug)]
pub struct DiskStats {
    pub total: u64,
    pub used: u64,
    pub free: u64,
}

/// The disk widget's error: the usage figures could not be read.
#[derive(Clone, Copy, PartialEq, Eq, Structural, Debug)]
pub enum Error {
    Psutil,
}

/// Displays usage of one disk.
pub struct Disk {
    pub format: String,
    pub path: String,
    pub inner: Text,
}

/// The used share in tenths of a percent: `used * 1000 / total`, capped
/// at 100.0% and 0 when the total is zero.
pub open spec fn disk_percent_tenths(s: DiskStats) -> int {
    if s.total == 0 {
        0
    } else if (s.used as int) * 1000 / (s.total as int) > 1000 {
        1000
    } else {
        (s.used as int) * 1000 / (s.total as int)
    }
}

/// The rendered text: the format with `%p` the used percentage, `%u`,
/// `%f` and `%t` the used, free and total sizes in their closest unit.
pub open spec fn disk_rendered(format: Seq<char>, s: DiskStats) -> Seq<char> {
    replaced(
        replaced(
            replaced(
                replaced(format, "%p"@, fixed1_str(disk_percent_tenths(s))),
                "%u"@,
                bytes_closest(s.used as int),
            ),
            "%f"@,
            bytes_closest(s.free as int),
        ),
        "%t"@,
        bytes_closest(s.total as int),
    )
}

/// How an update changes the widget: a reading renders into the cached
/// text; a failed reading leaves the widget exactly as it was.
pub open spec fn disk_update_rel(pre: Disk, post: Disk, stats: Option<DiskStats>) -> bool {
    &&& post.format == pre.format
    &&& post.path == pre.path
    &&& post.inner.padding == pre.inner.padding
    &&& post.inner.flex == pre.inner.flex
    &&& post.inner.text@ == match stats {
        Some(s) => disk_rendered(pre.format@, s),
        None => pre.inner.text@,
    }
}

impl Disk {
    /// `%p` is replaced with the used percent, `%u` with the used space,
    /// `%f` with the free space and `%t` with the total space.
    pub fn new(format: &str, path: &str, config: &WidgetConfig) -> (r: Box<Disk>)
        ensures
            r.format@ == format@,
            r.path@ == path@,
            r.inner.text@.len() == 0,
            r.inner.padding == config.padding,
            r.inner.flex == config.flex,
    {
        proof {
            reveal_strlit("");
        }
        Box::new(
            Disk {
                format: String::from_str(format),
                path: String::from_str(path),
                inner: Text::new("", config),
            },
        )
    }

    /// Renders fresh figures into the cached text; errs exactly when the
    /// figures are absent, keeping the previous text.
    pub fn update(&mut self, stats: &Option<DiskStats>) -> (r: Result<(), Error>)
        ensures
            disk_update_rel(*old(self), *final(self), *stats),
            r is Ok <==> stats is Some,
    {
        match stats {
            None => Err(Error::Psutil),
            Some(s) => {
                let tenths_wide: u128 = if s.total == 0 {
                    0
                } else {
                    (s.used as u128) * 1000 / (s.total as u128)
                };
                let tenths: u64 = if tenths_wide > 1000 {
                    1000
                } else {
                    tenths_wide as u64
                };
                proof {
                    reveal_strlit("%p");
                    reveal_strlit("%u");
                    reveal_strlit("%f");
                    reveal_strlit("%t");
                }
                let p = tenths_to_string(tenths);
                let a = replace(self.format.as_str(), "%p", p.as_str());
                let u = bytes_to_closest(s.used);
                let b = replace(a.as_str(), "%u", u.as_str());
                let f = bytes_to_closest(s.free);
                let c = replace(b.as_str(), "%f", f.as_str());
                let t = bytes_to_closest(s.total);
                let d = replace(c.as_str(), "%t", t.as_str());
                self.inner.set_text(d);
                Ok(())
            },
        }
    }

    /// A disk widget polls on the shared timer.
    pub fn hook_plan(&self) -> (r: HookPlan)
        ensures
            r == (HookPlan::Timed { interval_ms: spec_default_poll_ms() }),
    {
        HookPlan::Timed { interval_ms: default_poll_ms() }
    }

    /// The horizontal extent the cached text needs.
    pub fn size(&self) -> (r: u64)
        ensures
            r == self.inner.text@.len(),
    {
        self.inner.size()
    }

    /// Fixed extra margin around the widget.
    pub fn padding(&self) -> (r: u64)
        ensures
            r == self.inner.padding,
    {
        self.inner.padding()
    }

    /// The widget's display name.
    pub fn name(&self) -> (r: &'static str)
        ensures
            r@ == "Disk"@,
    {
        "Disk"
    }
}

} // verus!
