//! The active-window widget: renders the window manager's current window
//! title. Fetching the title and listening for property-change events
//! happen outside the library; the fetched title is handed to `update`.

use vstd::prelude::*;
use crate::widget::{HookPlan, Text, WidgetConfig};

verus! {

/// Displays the title of the currently focused window.
pub struct ActiveWindow {
    pub inner: Text,
}

/// How an update changes the widget: the freshly fetched title becomes
/// the cached text; configuration is untouched.
pub open spec fn active_window_update_rel(
    pre: ActiveWindow,
    post: ActiveWindow,
    name: Seq<char>,
) -> bool {
    &&& post.inner.text@ == name
    &&& post.inner.padding == pre.inner.padding
    &&& post.inner.flex == pre.inner.flex
}

impl ActiveWindow {
    /// Starts with an empty title.
    pub fn new(config: &WidgetConfig) -> (r: Box<ActiveWindow>)
        ensures
            r.inner.text@.len() == 0,
            r.inner.padding == config.padding,
            r.inner.flex == config.flex,
    {
        proof {
            reveal_strlit("");
        }
        Box::new(ActiveWindow { inner: Text::new("", config) })
    }

    /// Caches a freshly fetched window title.
    pub fn update(&mut self, name: String)
        ensures
            active_window_update_rel(*old(self), *final(self), name@),
    {
        self.inner.set_text(name);
    }

    /// A window-title widget needs a dedicated OS-event listener.
    pub fn hook_plan(&self) -> (r: HookPlan)
        ensures
            r == HookPlan::Listener,
    {
        HookPlan::Listener
    }

    /// The horizontal extent the cached title needs.
    pub fn size(&self) -> (r: u64)
        ensures
            r == self.inner.text@.len(),
    {
        self.inner.size()
    }

    /// Fixed extra margin around the widget.
    pub fn padding(&self) -> (r: u64)
        ensures
            r == self.inner.padding,
    {
        self.inner.padding()
    }
}

} // verus!
