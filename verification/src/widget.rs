//! What every widget shares: its configuration, the cached-text inner
//! widget whose content is drawn and measured, and the notification plan a
//! widget announces during its hook phase.

use vstd::prelude::*;
use vstd::string::*;

verus! {

/// Shared widget options. Sizes are in display units (character cells).
pub struct WidgetConfig {
    pub font: String,
    pub font_size: u64,
    pub padding: u64,
    /// Widgets that show a value only briefly hide it again after this.
    pub hide_timeout_ms: u64,
    /// Whether the widget may stretch to fill spare width.
    pub flex: bool,
}

impl WidgetConfig {
    /// The stock configuration.
    pub fn standard() -> (r: WidgetConfig)
        ensures
            r.font@ == "monospace"@,
            r.font_size == 15,
            r.padding == 10,
            r.hide_timeout_ms == 2500,
            !r.flex,
    {
        WidgetConfig {
            font: String::from_str("monospace"),
            font_size: 15,
            padding: 10,
            hide_timeout_ms: 2500,
            flex: false,
        }
    }
}

impl Default for WidgetConfig {
    fn default() -> (r: WidgetConfig)
        ensures
            r.font@ == "monospace"@,
            r.font_size == 15,
            r.padding == 10,
            r.hide_timeout_ms == 2500,
            !r.flex,
    {
        WidgetConfig::standard()
    }
}

/// A widget's cached render state: exactly the text its next draw shows.
/// Its width is the text's length in character cells.
pub struct Text {
    pub text: String,
    pub padding: u64,
    pub flex: bool,
}

impl Text {
    pub fn new(text: &str, config: &WidgetConfig) -> (r: Text)
        ensures
            r.text@ == text@,
            r.padding == config.padding,
            r.flex == config.flex,
    {
        Text { text: String::from_str(text), padding: config.padding, flex: config.flex }
    }

    /// Replaces the cached text; nothing else changes.
    pub fn set_text(&mut self, text: String)
        ensures
            final(self).text == text,
            final(self).padding == old(self).padding,
            final(self).flex == old(self).flex,
    {
        self.text = text;
    }

    /// The cached text, as the draw call will render it.
    pub fn text(&self) -> (r: String)
        ensures
            r@ == self.text@,
    {
        self.text.clone()
    }

    /// The horizontal extent the cached text needs, consistent with what
    /// its draw will occupy.
    pub fn size(&self) -> (r: u64)
        ensures
            r == self.text@.len(),
    {
        self.text.as_str().unicode_len() as u64
    }

    /// Fixed extra margin around the widget.
    pub fn padding(&self) -> (r: u64)
        ensures
            r == self.padding,
    {
        self.padding
    }
}

/// How a widget arranges its future notifications, decided once during
/// the hook phase.
#[derive(Clone, Copy, PartialEq, Eq, Structural, Debug)]
pub enum HookPlan {
    /// Subscribe to the shared timed-hook multiplexer at this period.
    Timed { interval_ms: u64 },
    /// A dedicated thread must block on an OS event subscription.
    Listener,
    /// A self-paced task polls and signals at this period.
    SelfPaced { interval_ms: u64 },
}

/// The polling period widgets use when they have no tighter need.
pub open spec fn spec_default_poll_ms() -> u64 {
    1000
}

/// The polling period widgets use when they have no tighter need.
pub fn default_poll_ms() -> (r: u64)
    ensures
        r == spec_default_poll_ms(),
{
    1000
}

} // verus!
