//! The wireless widget: renders a network interface's name, essid and
//! signal quality. Querying the interface happens outside the library;
//! the reading is handed to `update`.

use vstd::prelude::*;
use vstd::string::*;
use crate::text::{dec_str, replace, replaced, u64_to_string};
use crate::widget::{default_poll_ms, spec_default_poll_ms, HookPlan, Text, WidgetConfig};

verus! {

/// What a wireless query yields when the interface is up.
pub struct WirelessInfo {
    pub essid: String,
    pub quality: u8,
}

/// Displays information about a network interface.
pub struct Wlan {
    pub format: String,
    pub interface: String,
    pub inner: Text,
}

/// The rendered text: the format with `%i` the interface, `%e` the essid
/// and `%q` the quality, or a fixed notice when the interface is absent.
pub open spec fn wlan_rendered(
    format: Seq<char>,
    interface: Seq<char>,
    info: Option<WirelessInfo>,
) -> Seq<char> {
    match info {
        None => "No interface"@,
        Some(d) => replaced(
            replaced(replaced(format, "%i"@, interface), "%e"@, d.essid@),
            "%q"@,
            dec_str(d.quality as int),
        ),
    }
}

/// How an update changes the widget: only the cached text, to the
/// rendering of the reading.
pub open spec fn wlan_update_rel(pre: Wlan, post: Wlan, info: Option<WirelessInfo>) -> bool {
    &&& post.format == pre.format
    &&& post.interface == pre.interface
    &&& post.inner.padding == pre.inner.padding
    &&& post.inner.flex == pre.inner.flex
    &&& post.inner.text@ == wlan_rendered(pre.format@, pre.interface@, info)
}

impl Wlan {
    /// `%i` is replaced with the interface name, `%e` with the essid and
    /// `%q` with the signal quality.
    pub fn new(format: &str, interface: String, config: &WidgetConfig) -> (r: Box<Wlan>)
        ensures
            r.format@ == format@,
            r.interface == interface,
            r.inner.text@.len() == 0,
            r.inner.padding == config.padding,
            r.inner.flex == config.flex,
    {
        proof {
            reveal_strlit("");
        }
        Box::new(
            Wlan { format: String::from_str(format), interface, inner: Text::new("", config) },
        )
    }

    /// Renders a reading against the widget's format.
    pub fn build_string(&self, info: &Option<WirelessInfo>) -> (r: String)
        ensures
            r@ == wlan_rendered(self.format@, self.interface@, *info),
    {
        match info {
            None => String::from_str("No interface"),
            Some(d) => {
                proof {
                    reveal_strlit("%i");
                    reveal_strlit("%e");
                    reveal_strlit("%q");
                }
                let a = replace(self.format.as_str(), "%i", self.interface.as_str());
                let b = replace(a.as_str(), "%e", d.essid.as_str());
                let q = u64_to_string(d.quality as u64);
                replace(b.as_str(), "%q", q.as_str())
            },
        }
    }

    /// Caches the rendering of a fresh reading.
    pub fn update(&mut self, info: &Option<WirelessInfo>)
        ensures
            wlan_update_rel(*old(self), *final(self), *info),
    {
        let t = self.build_string(info);
        self.inner.set_text(t);
    }

    /// A wireless widget polls on the shared timer.
    pub fn hook_plan(&self) -> (r: HookPlan)
        ensures
            r == (HookPlan::Timed { interval_ms: spec_default_poll_ms() }),
    {
        HookPlan::Timed { interval_ms: default_poll_ms() }
    }

    /// The horizontal extent the cached text needs.
    pub fn size(&self) -> (r: u64)
        ensures
            r == self.inner.text@.len(),
    {
        self.inner.size()
    }

    /// Fixed extra margin around the widget.
    pub fn padding(&self) -> (r: u64)
        ensures
            r == self.inner.padding,
    {
        self.inner.padding()
    }

    /// The widget's display name.
    pub fn name(&self) -> (r: &'static str)
        ensures
            r@ == "Network"@,
    {
        "Network"
    }
}

} // verus!
