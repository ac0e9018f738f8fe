//! The dispatcher: the single owner of all widgets. It fans in their hook
//! signals, coalesces bursts within a debounce window, updates the
//! implicated widgets (a failure keeps the widget's previous render
//! state), and runs exactly one serialized layout+redraw pass per wake.

use vstd::prelude::*;
use vstd::string::*;
use crate::active_window::{active_window_update_rel, ActiveWindow};
use crate::battery::{battery_update_rel, Battery, BatteryReading};
use crate::brightness::{brightness_update_rel, Brightness};
use crate::disk::{disk_update_rel, Disk, DiskStats};
use crate::weather::{weather_update_rel, Meteo, Weather};
use crate::volume::{volume_update_rel, Volume, VolumeReading};
use crate::wlan::{wlan_update_rel, WirelessInfo, Wlan};
use crate::widget::HookPlan;
use crate::hook::{hook_channel, HookReceiver, HookSender};
use crate::layout::{
    click_target, compute_layout, left_x, rect_contains, right_x, spec_overflow, spec_span, Rect,
};
use crate::timer::{HookSubscription, TimedHooks};

verus! {

/// One widget under the dispatcher's ownership: the uniform capability
/// surface over the widget families.
pub enum WidgetKind {
    ActiveWindow(ActiveWindow),
    Battery(Battery),
    Brightness(Brightness),
    Disk(Disk),
    Volume(Volume),
    Weather(Weather),
    Wlan(Wlan),
}

/// A data refresh for one widget, as its provider delivered it. A reading
/// of the wrong family is a provider error for the receiving widget.
pub enum Reading {
    ActiveWindow(String),
    Battery(BatteryReading),
    Brightness(Option<i32>),
    Disk(Option<DiskStats>),
    Volume(VolumeReading),
    Weather(Result<Meteo, crate::weather::Error>),
    Wlan(Option<WirelessInfo>),
}

/// The error an update reports to the dispatcher, which logs it and keeps
/// the widget's previous render state.
#[derive(Clone, Copy, PartialEq, Eq, Structural, Debug)]
pub enum WidgetError {
    /// The widget's data source failed.
    Provider,
    /// The reading addressed another widget family.
    WrongReading,
}

/// The text a widget's next draw will show.
pub open spec fn widget_text(w: WidgetKind) -> Seq<char> {
    match w {
        WidgetKind::ActiveWindow(x) => x.inner.text@,
        WidgetKind::Battery(x) => x.inner.text@,
        WidgetKind::Brightness(x) => x.inner.text@,
        WidgetKind::Disk(x) => x.inner.text@,
        WidgetKind::Volume(x) => x.inner.text@,
        WidgetKind::Weather(x) => x.inner.text@,
        WidgetKind::Wlan(x) => x.inner.text@,
    }
}

/// A widget's fixed margin.
pub open spec fn widget_padding(w: WidgetKind) -> u64 {
    match w {
        WidgetKind::ActiveWindow(x) => x.inner.padding,
        WidgetKind::Battery(x) => x.inner.padding,
        WidgetKind::Brightness(x) => x.inner.padding,
        WidgetKind::Disk(x) => x.inner.padding,
        WidgetKind::Volume(x) => x.inner.padding,
        WidgetKind::Weather(x) => x.inner.padding,
        WidgetKind::Wlan(x) => x.inner.padding,
    }
}

/// Whether a reading addresses the widget's family and succeeds on it.
pub open spec fn update_ok(w: WidgetKind, r: Reading) -> bool {
    match (w, r) {
        (WidgetKind::ActiveWindow(_), Reading::ActiveWindow(_)) => true,
        (WidgetKind::Battery(_), Reading::Battery(_)) => true,
        (WidgetKind::Brightness(_), Reading::Brightness(o)) => o is Some,
        (WidgetKind::Disk(_), Reading::Disk(s)) => s is Some,
        (WidgetKind::Volume(_), Reading::Volume(_)) => true,
        (WidgetKind::Weather(_), Reading::Weather(f)) => f is Ok,
        (WidgetKind::Wlan(_), Reading::Wlan(_)) => true,
        _ => false,
    }
}

/// How one update changes one widget: each family follows its own update
/// relation; a reading of the wrong family changes nothing.
pub open spec fn widget_update_rel(
    pre: WidgetKind,
    post: WidgetKind,
    r: Reading,
    delta_ms: u64,
) -> bool {
    match (pre, r) {
        (WidgetKind::ActiveWindow(p), Reading::ActiveWindow(name)) => post matches
            WidgetKind::ActiveWindow(q) && active_window_update_rel(p, q, name@),
        (WidgetKind::Battery(p), Reading::Battery(rd)) => post matches WidgetKind::Battery(q)
            && battery_update_rel(p, q, rd),
        (WidgetKind::Brightness(p), Reading::Brightness(rd)) => post matches
            WidgetKind::Brightness(q) && brightness_update_rel(p, q, rd, delta_ms),
        (WidgetKind::Disk(p), Reading::Disk(rd)) => post matches WidgetKind::Disk(q)
            && disk_update_rel(p, q, rd),
        (WidgetKind::Volume(p), Reading::Volume(rd)) => post matches WidgetKind::Volume(q)
            && volume_update_rel(p, q, rd, delta_ms),
        (WidgetKind::Weather(p), Reading::Weather(rd)) => post matches WidgetKind::Weather(q)
            && weather_update_rel(p, q, rd),
        (WidgetKind::Wlan(p), Reading::Wlan(rd)) => post matches WidgetKind::Wlan(q)
            && wlan_update_rel(p, q, rd),
        _ => post == pre,
    }
}

/// Failure containment: an update that fails leaves the widget's rendered
/// text exactly as it was (the last successful value, or the initial one).
pub proof fn lemma_failure_keeps_text(
    pre: WidgetKind,
    post: WidgetKind,
    r: Reading,
    delta_ms: u64,
)
    requires
        widget_update_rel(pre, post, r, delta_ms),
        !update_ok(pre, r),
    ensures
        widget_text(post) == widget_text(pre),
{
}

impl WidgetKind {
    /// Performs the data refresh the reading carries. A failure is
    /// reported, never propagated: the cached render state then stays
    /// unchanged and the next pass redraws the previous text.
    pub fn update(&mut self, reading: Reading, delta_ms: u64) -> (res: Result<(), WidgetError>)
        ensures
            widget_update_rel(*old(self), *final(self), reading, delta_ms),
            res is Ok <==> update_ok(*old(self), reading),
    {
        match (&mut *self, reading) {
            (WidgetKind::ActiveWindow(w), Reading::ActiveWindow(name)) => {
                w.update(name);
                Ok(())
            },
            (WidgetKind::Battery(w), Reading::Battery(rd)) => {
                w.update(&rd);
                Ok(())
            },
            (WidgetKind::Brightness(w), Reading::Brightness(rd)) => {
                match w.update(&rd, delta_ms) {
                    Ok(()) => Ok(()),
                    Err(_) => Err(WidgetError::Provider),
                }
            },
            (WidgetKind::Disk(w), Reading::Disk(rd)) => {
                match w.update(&rd) {
                    Ok(()) => Ok(()),
                    Err(_) => Err(WidgetError::Provider),
                }
            },
            (WidgetKind::Volume(w), Reading::Volume(rd)) => {
                w.update(&rd, delta_ms);
                Ok(())
            },
            (WidgetKind::Weather(w), Reading::Weather(rd)) => {
                match w.update(rd) {
                    Ok(()) => Ok(()),
                    Err(_) => Err(WidgetError::Provider),
                }
            },
            (WidgetKind::Wlan(w), Reading::Wlan(rd)) => {
                w.update(&rd);
                Ok(())
            },
            _ => Err(WidgetError::WrongReading),
        }
    }

    /// The text the widget's next draw will show.
    pub fn text(&self) -> (r: String)
        ensures
            r@ == widget_text(*self),
    {
        match self {
            WidgetKind::ActiveWindow(x) => x.inner.text(),
            WidgetKind::Battery(x) => x.inner.text(),
            WidgetKind::Brightness(x) => x.inner.text(),
            WidgetKind::Disk(x) => x.inner.text(),
            WidgetKind::Volume(x) => x.inner.text(),
            WidgetKind::Weather(x) => x.inner.text(),
            WidgetKind::Wlan(x) => x.inner.text(),
        }
    }

    /// The horizontal extent the widget needs, consistent with its draw.
    pub fn size(&self) -> (r: u64)
        ensures
            r == widget_text(*self).len(),
    {
        match self {
            WidgetKind::ActiveWindow(x) => x.size(),
            WidgetKind::Battery(x) => x.size(),
            WidgetKind::Brightness(x) => x.size(),
            WidgetKind::Disk(x) => x.size(),
            WidgetKind::Volume(x) => x.size(),
            WidgetKind::Weather(x) => x.size(),
            WidgetKind::Wlan(x) => x.size(),
        }
    }

    /// The widget's fixed margin.
    pub fn padding(&self) -> (r: u64)
        ensures
            r == widget_padding(*self),
    {
        match self {
            WidgetKind::ActiveWindow(x) => x.padding(),
            WidgetKind::Battery(x) => x.padding(),
            WidgetKind::Brightness(x) => x.padding(),
            WidgetKind::Disk(x) => x.padding(),
            WidgetKind::Volume(x) => x.padding(),
            WidgetKind::Weather(x) => x.padding(),
            WidgetKind::Wlan(x) => x.padding(),
        }
    }

    /// The notification plan the widget announces in its hook phase.
    pub open spec fn spec_hook_plan(self) -> HookPlan {
        match self {
            WidgetKind::ActiveWindow(_) => HookPlan::Listener,
            WidgetKind::Battery(_) => HookPlan::Timed {
                interval_ms: crate::widget::spec_default_poll_ms(),
            },
            WidgetKind::Brightness(x) => HookPlan::Timed {
                interval_ms: if x.show_counter.duration_ms / 10 == 0 {
                    1u64
                } else {
                    x.show_counter.duration_ms / 10
                },
            },
            WidgetKind::Disk(_) => HookPlan::Timed {
                interval_ms: crate::widget::spec_default_poll_ms(),
            },
            WidgetKind::Volume(_) => HookPlan::Timed {
                interval_ms: crate::widget::spec_default_poll_ms(),
            },
            WidgetKind::Weather(_) => HookPlan::SelfPaced { interval_ms: 3600000u64 },
            WidgetKind::Wlan(_) => HookPlan::Timed {
                interval_ms: crate::widget::spec_default_poll_ms(),
            },
        }
    }

    /// The notification plan the widget announces in its hook phase.
    pub fn hook_plan(&self) -> (r: HookPlan)
        ensures
            r == self.spec_hook_plan(),
    {
        match self {
            WidgetKind::ActiveWindow(x) => x.hook_plan(),
            WidgetKind::Battery(x) => x.hook_plan(),
            WidgetKind::Brightness(x) => x.hook_plan(),
            WidgetKind::Disk(x) => x.hook_plan(),
            WidgetKind::Volume(x) => x.hook_plan(),
            WidgetKind::Weather(x) => x.hook_plan(),
            WidgetKind::Wlan(x) => x.hook_plan(),
        }
    }
}

/// The dispatcher's lifecycle.
#[derive(Clone, Copy, PartialEq, Eq, Structural, Debug)]
pub enum DispatcherState {
    Starting,
    Running,
    Stopping,
    Stopped,
}

/// One draw call of a redraw pass: which widget, where, and what text.
pub struct DrawCmd {
    pub widget: usize,
    pub rect: Rect,
    pub text: String,
}

/// One serialized layout+redraw pass: exactly one draw call per widget,
/// in display order. Passes are numbered in the order they are produced;
/// a pass is complete before the next one is begun.
pub struct DrawPass {
    pub seq_no: u64,
    pub overflow: bool,
    pub cmds: Vec<DrawCmd>,
}

/// The error the bar's construction can report.
#[derive(Clone, Copy, PartialEq, Eq, Structural, Debug)]
pub enum BarError {
    /// No widgets were configured.
    NoWidgets,
}

/// The (size, padding) pairs the layout works on: one per widget, the
/// size being the cached text's length in character cells.
pub open spec fn entries_of(ws: Seq<WidgetKind>) -> Seq<(u64, u64)> {
    Seq::new(ws.len(), |i: int| (widget_text(ws[i]).len() as u64, widget_padding(ws[i])))
}

/// Whether `pass` renders exactly the widgets `ws`: one draw call per
/// widget in display order, each carrying the widget's cached text and
/// its rectangle from the layout for width `avail`, with the overflow
/// condition reported.
pub open spec fn pass_renders(
    pass: DrawPass,
    ws: Seq<WidgetKind>,
    left_count: int,
    avail: int,
) -> bool {
    &&& pass.cmds@.len() == ws.len()
    &&& forall|i: int| 0 <= i < ws.len() ==> (#[trigger] pass.cmds@[i]).widget == i
    &&& forall|i: int|
        0 <= i < ws.len() ==> (#[trigger] pass.cmds@[i]).text@ == widget_text(ws[i])
    &&& forall|i: int|
        0 <= i < ws.len() ==> (#[trigger] pass.cmds@[i]).rect.width as int == spec_span(
            widget_text(ws[i]).len() as u64 as int,
            widget_padding(ws[i]) as int,
        )
    &&& forall|i: int|
        0 <= i < left_count ==> (#[trigger] pass.cmds@[i]).rect.x as int == left_x(
            entries_of(ws),
            i,
        )
    &&& forall|i: int|
        left_count <= i < ws.len() ==> (#[trigger] pass.cmds@[i]).rect.x as int == right_x(
            entries_of(ws),
            left_count,
            avail,
            i,
        )
    &&& pass.overflow == spec_overflow(entries_of(ws), avail)
}

/// Serialized drawing within a pass: no two draw calls of one pass
/// address the same widget.
pub proof fn lemma_pass_serialized(pass: DrawPass, ws: Seq<WidgetKind>, left_count: int, avail: int)
    requires
        pass_renders(pass, ws, left_count, avail),
    ensures
        forall|i: int, j: int|
            0 <= i < j < pass.cmds@.len() ==> pass.cmds@[i].widget != pass.cmds@[j].widget,
{
}

/// How many of the first `i` widgets plan a timed subscription.
pub open spec fn timed_count(ws: Seq<WidgetKind>, i: int) -> int
    decreases i,
{
    if i <= 0 {
        0
    } else {
        timed_count(ws, i - 1) + if ws[i - 1].spec_hook_plan() matches HookPlan::Timed { .. } {
            1int
        } else {
            0int
        }
    }
}

/// Whether a subscription belongs to a widget of `ws` that planned it:
/// tagged with the widget's identity and carrying its requested period.
pub open spec fn sub_matches(ws: Seq<WidgetKind>, s: HookSubscription) -> bool {
    &&& s.sender.id < ws.len()
    &&& ws[s.sender.id as int].spec_hook_plan() == (HookPlan::Timed { interval_ms: s.duration_ms })
}

/// Whether any of the updates addresses widget `i`.
pub open spec fn signalled(updates: Seq<(usize, Reading)>, i: int) -> bool {
    exists|k: int| 0 <= k < updates.len() && (#[trigger] updates[k]).0 == i
}

/// The central event loop's owner: all widgets, their layout, the shared
/// timer service and the signal channel. Only this dispatcher ever
/// mutates a widget or draws, so widget state needs no locks.
pub struct StatusBar {
    pub widgets: Vec<WidgetKind>,
    pub left_count: usize,
    pub state: DispatcherState,
    pub hooks: TimedHooks,
    pub receiver: HookReceiver,
    pub sender: HookSender,
    pub rects: Vec<Rect>,
    pub pass_count: u64,
    pub debounce_ms: u64,
    pub width: u64,
}

impl StatusBar {
    pub open spec fn wf(&self) -> bool {
        &&& self.left_count <= self.widgets@.len()
        &&& self.hooks.wf()
    }

    /// Builds the bar around its widgets: the left group then the right
    /// group, in display order. Fails exactly when no widgets are
    /// configured.
    pub fn new(left: Vec<WidgetKind>, right: Vec<WidgetKind>, width: u64, debounce_ms: u64) -> (r:
        Result<StatusBar, BarError>)
        ensures
            match r {
                Ok(b) => {
                    &&& b.wf()
                    &&& b.widgets@ == left@ + right@
                    &&& b.left_count == left@.len()
                    &&& b.state == DispatcherState::Starting
                    &&& b.pass_count == 0
                    &&& b.rects@.len() == 0
                    &&& b.hooks.subs@.len() == 0
                    &&& b.debounce_ms == debounce_ms
                    &&& b.width == width
                },
                Err(e) => e == BarError::NoWidgets && left@.len() + right@.len() == 0,
            },
    {
        if left.len() == 0 && right.len() == 0 {
            return Err(BarError::NoWidgets);
        }
        let left_count = left.len();
        let mut widgets = left;
        let mut rest = right;
        widgets.append(&mut rest);
        let (sender, receiver) = hook_channel(1024, 0);
        Ok(
            StatusBar {
                widgets,
                left_count,
                state: DispatcherState::Starting,
                hooks: TimedHooks::new(),
                receiver,
                sender,
                rects: Vec::new(),
                pass_count: 0,
                debounce_ms,
                width,
            },
        )
    }

    /// Recomputes the layout from the widgets' current sizes and emits
    /// one draw call per widget: one whole serialized redraw pass.
    fn render_pass(&mut self) -> (pass: DrawPass)
        requires
            old(self).wf(),
            old(self).pass_count < u64::MAX,
        ensures
            final(self).wf(),
            final(self).widgets == old(self).widgets,
            final(self).left_count == old(self).left_count,
            final(self).state == old(self).state,
            final(self).hooks == old(self).hooks,
            final(self).receiver == old(self).receiver,
            final(self).sender == old(self).sender,
            final(self).debounce_ms == old(self).debounce_ms,
            final(self).width == old(self).width,
            final(self).pass_count == old(self).pass_count + 1,
            pass.seq_no == old(self).pass_count,
            pass_renders(pass, old(self).widgets@, old(self).left_count as int, old(self).width as int),
            final(self).rects@.len() == old(self).widgets@.len(),
            forall|i: int|
                0 <= i < old(self).widgets@.len() ==> final(self).rects@[i] == (#[trigger] pass.cmds@[i]).rect,
    {
        let n = self.widgets.len();
        let mut entries: Vec<(u64, u64)> = Vec::new();
        let mut i: usize = 0;
        while i < n
            invariant
                i <= n,
                n == self.widgets@.len(),
                entries@.len() == i,
                forall|k: int|
                    0 <= k < i ==> #[trigger] entries@[k] == (
                        widget_text(self.widgets@[k]).len() as u64,
                        widget_padding(self.widgets@[k]),
                    ),
            decreases n - i,
        {
            let w = &self.widgets[i];
            entries.push((w.size(), w.padding()));
            i += 1;
        }
        proof {
            assert(entries@ =~= entries_of(self.widgets@));
        }
        let (rects, overflow) = compute_layout(&entries, self.left_count, self.width);
        let mut cmds: Vec<DrawCmd> = Vec::new();
        let mut j: usize = 0;
        while j < n
            invariant
                j <= n,
                n == self.widgets@.len(),
                rects@.len() == n,
                entries@ == entries_of(self.widgets@),
                forall|k: int|
                    0 <= k < n ==> (#[trigger] rects@[k]).width as int == spec_span(
                        entries_of(self.widgets@)[k].0 as int,
                        entries_of(self.widgets@)[k].1 as int,
                    ),
                forall|k: int|
                    0 <= k < self.left_count ==> (#[trigger] rects@[k]).x as int == left_x(
                        entries_of(self.widgets@),
                        k,
                    ),
                forall|k: int|
                    self.left_count <= k < n ==> (#[trigger] rects@[k]).x as int == right_x(
                        entries_of(self.widgets@),
                        self.left_count as int,
                        self.width as int,
                        k,
                    ),
                cmds@.len() == j,
                forall|k: int| 0 <= k < j ==> (#[trigger] cmds@[k]).widget == k,
                forall|k: int|
                    0 <= k < j ==> (#[trigger] cmds@[k]).text@ == widget_text(self.widgets@[k]),
                forall|k: int| 0 <= k < j ==> (#[trigger] cmds@[k]).rect == rects@[k],
            decreases n - j,
        {
            let text = self.widgets[j].text();
            let rect = rects[j];
            cmds.push(DrawCmd { widget: j, rect, text });
            j += 1;
        }
        let seq_no = self.pass_count;
        self.pass_count = self.pass_count + 1;
        self.rects = rects;
        DrawPass { seq_no, overflow, cmds }
    }

    /// The `Starting` phase: consults every widget's hook plan exactly
    /// once in display order, registers the timed ones with the shared
    /// multiplexer, performs one initial update per widget from the given
    /// readings, and emits the first redraw pass so the bar is never
    /// shown blank. Individual failures are contained: a widget whose
    /// update fails still gets its draw call, with its initial text.
    /// Returns the plans (the caller arranges listener and self-paced
    /// notifiers) and the initial pass.
    pub fn start(&mut self, initial: Vec<Reading>) -> (r: (Vec<HookPlan>, DrawPass))
        requires
            old(self).wf(),
            old(self).state == DispatcherState::Starting,
            old(self).pass_count < u64::MAX,
            old(self).hooks.subs@.len() == 0,
            initial@.len() == old(self).widgets@.len(),
        ensures
            final(self).wf(),
            final(self).state == DispatcherState::Running,
            final(self).left_count == old(self).left_count,
            final(self).debounce_ms == old(self).debounce_ms,
            final(self).width == old(self).width,
            final(self).widgets@.len() == old(self).widgets@.len(),
            r.0@.len() == old(self).widgets@.len(),
            forall|i: int|
                0 <= i < old(self).widgets@.len() ==> #[trigger] r.0@[i] == old(
                    self,
                ).widgets@[i].spec_hook_plan(),
            final(self).hooks.subs@.len() == timed_count(
                old(self).widgets@,
                old(self).widgets@.len() as int,
            ),
            forall|k: int|
                0 <= k < final(self).hooks.subs@.len() ==> sub_matches(
                    old(self).widgets@,
                    #[trigger] final(self).hooks.subs@[k],
                ),
            forall|i: int|
                0 <= i < old(self).widgets@.len() ==> widget_update_rel(
                    old(self).widgets@[i],
                    final(self).widgets@[i],
                    initial@[i],
                    0,
                ),
            final(self).pass_count == old(self).pass_count + 1,
            r.1.seq_no == old(self).pass_count,
            pass_renders(
                r.1,
                final(self).widgets@,
                old(self).left_count as int,
                old(self).width as int,
            ),
            final(self).rects@.len() == old(self).widgets@.len(),
            forall|i: int|
                0 <= i < old(self).widgets@.len() ==> final(self).rects@[i] == (
                #[trigger] r.1.cmds@[i]).rect,
    {
        let n = self.widgets.len();
        let mut plans: Vec<HookPlan> = Vec::new();
        let mut i: usize = 0;
        while i < n
            invariant
                i <= n,
                n == self.widgets@.len(),
                self.widgets == old(self).widgets,
                self.left_count == old(self).left_count,
                self.state == old(self).state,
                self.receiver == old(self).receiver,
                self.sender == old(self).sender,
                self.rects == old(self).rects,
                self.pass_count == old(self).pass_count,
                self.debounce_ms == old(self).debounce_ms,
                self.width == old(self).width,
                self.hooks.wf(),
                plans@.len() == i,
                forall|k: int|
                    0 <= k < i ==> #[trigger] plans@[k] == self.widgets@[k].spec_hook_plan(),
                self.hooks.subs@.len() == timed_count(self.widgets@, i as int),
                forall|k: int|
                    0 <= k < self.hooks.subs@.len() ==> sub_matches(
                        self.widgets@,
                        #[trigger] self.hooks.subs@[k],
                    ),
            decreases n - i,
        {
            let plan = self.widgets[i].hook_plan();
            match plan {
                HookPlan::Timed { interval_ms } => {
                    proof {
                        assert(interval_ms >= 1);
                    }
                    let s = self.sender.for_widget(i as u64);
                    let res = self.hooks.subscribe(interval_ms, s);
                    proof {
                        assert(res is Ok);
                    }
                },
                _ => {},
            }
            plans.push(plan);
            i += 1;
        }
        let mut readings = initial;
        let ghost hooks_snap = self.hooks;
        let mut j: usize = 0;
        while j < n
            invariant
                j <= n,
                n == self.widgets@.len(),
                n == old(self).widgets@.len(),
                initial@.len() == n,
                readings@ =~= initial@.skip(j as int),
                self.left_count == old(self).left_count,
                self.state == old(self).state,
                self.receiver == old(self).receiver,
                self.sender == old(self).sender,
                self.rects == old(self).rects,
                self.pass_count == old(self).pass_count,
                self.debounce_ms == old(self).debounce_ms,
                self.width == old(self).width,
                self.hooks == hooks_snap,
                forall|k: int|
                    j <= k < n ==> #[trigger] self.widgets@[k] == old(self).widgets@[k],
                forall|k: int|
                    0 <= k < j ==> widget_update_rel(
                        old(self).widgets@[k],
                        #[trigger] self.widgets@[k],
                        initial@[k],
                        0,
                    ),
            decreases n - j,
        {
            let rd = readings.remove(0);
            proof {
                assert(initial@.skip(j as int)[0] == initial@[j as int]);
                assert(initial@.skip(j as int).remove(0) =~= initial@.skip(j + 1));
            }
            let _ = self.widgets[j].update(rd, 0);
            j += 1;
        }
        self.state = DispatcherState::Running;
        let pass = self.render_pass();
        (plans, pass)
    }

    /// One `Running` wake: updates exactly the signalled widgets (the
    /// distinct identities collected within one debounce window) with
    /// their readings, then runs exactly one layout+redraw pass over the
    /// whole bar. A widget whose update fails keeps its previous text
    /// and is still drawn; widgets that did not signal are untouched.
    pub fn step(&mut self, updates: Vec<(usize, Reading)>, delta_ms: u64) -> (pass: DrawPass)
        requires
            old(self).wf(),
            old(self).state == DispatcherState::Running,
            old(self).pass_count < u64::MAX,
            forall|k: int|
                0 <= k < updates@.len() ==> (#[trigger] updates@[k]).0 < old(
                    self,
                ).widgets@.len(),
            forall|k1: int, k2: int|
                0 <= k1 < k2 < updates@.len() ==> (#[trigger] updates@[k1]).0 != (
                #[trigger] updates@[k2]).0,
        ensures
            final(self).wf(),
            final(self).state == DispatcherState::Running,
            final(self).left_count == old(self).left_count,
            final(self).debounce_ms == old(self).debounce_ms,
            final(self).width == old(self).width,
            final(self).hooks == old(self).hooks,
            final(self).widgets@.len() == old(self).widgets@.len(),
            forall|k: int|
                0 <= k < updates@.len() ==> widget_update_rel(
                    old(self).widgets@[(#[trigger] updates@[k]).0 as int],
                    final(self).widgets@[updates@[k].0 as int],
                    updates@[k].1,
                    delta_ms,
                ),
            forall|i: int|
                0 <= i < old(self).widgets@.len() && !signalled(updates@, i)
                    ==> final(self).widgets@[i] == old(self).widgets@[i],
            final(self).pass_count == old(self).pass_count + 1,
            pass.seq_no == old(self).pass_count,
            pass_renders(
                pass,
                final(self).widgets@,
                old(self).left_count as int,
                old(self).width as int,
            ),
            final(self).rects@.len() == old(self).widgets@.len(),
            forall|i: int|
                0 <= i < old(self).widgets@.len() ==> final(self).rects@[i] == (
                #[trigger] pass.cmds@[i]).rect,
    {
        let n = self.widgets.len();
        let total = updates.len();
        let mut remaining = updates;
        let mut j: usize = 0;
        while j < total
            invariant
                j <= total,
                n == self.widgets@.len(),
                n == old(self).widgets@.len(),
                total == updates@.len(),
                remaining@ =~= updates@.skip(j as int),
                forall|k: int|
                    0 <= k < updates@.len() ==> (#[trigger] updates@[k]).0 < n,
                forall|k1: int, k2: int|
                    0 <= k1 < k2 < updates@.len() ==> (#[trigger] updates@[k1]).0 != (
                    #[trigger] updates@[k2]).0,
                self.left_count == old(self).left_count,
                self.state == old(self).state,
                self.receiver == old(self).receiver,
                self.sender == old(self).sender,
                self.rects == old(self).rects,
                self.pass_count == old(self).pass_count,
                self.debounce_ms == old(self).debounce_ms,
                self.width == old(self).width,
                self.hooks == old(self).hooks,
                forall|i: int|
                    0 <= i < n && !signalled(updates@.subrange(0, j as int), i)
                        ==> #[trigger] self.widgets@[i] == old(self).widgets@[i],
                forall|k: int|
                    0 <= k < j ==> widget_update_rel(
                        old(self).widgets@[(#[trigger] updates@[k]).0 as int],
                        self.widgets@[updates@[k].0 as int],
                        updates@[k].1,
                        delta_ms,
                    ),
            decreases total - j,
        {
            let (id, rd) = remaining.remove(0);
            proof {
                assert(updates@.skip(j as int)[0] == updates@[j as int]);
                assert(updates@.skip(j as int).remove(0) =~= updates@.skip(j + 1));
                assert(!signalled(updates@.subrange(0, j as int), updates@[j as int].0 as int));
            }
            let _ = self.widgets[id].update(rd, delta_ms);
            proof {
                let prefix = updates@.subrange(0, j as int);
                let next = updates@.subrange(0, j + 1);
                assert forall|i: int|
                    0 <= i < n && !signalled(next, i) implies #[trigger] self.widgets@[i] == old(
                    self,
                ).widgets@[i] by {
                    assert(!signalled(prefix, i)) by {
                        if signalled(prefix, i) {
                            let k = choose|k: int|
                                0 <= k < prefix.len() && (#[trigger] prefix[k]).0 == i;
                            assert(next[k].0 == i);
                        }
                    }
                    assert(next[j as int].0 != i);
                }
            }
            j += 1;
        }
        proof {
            assert(updates@.subrange(0, total as int) =~= updates@);
        }
        self.render_pass()
    }

    /// Blocks until a signal arrives (at most `timeout_ms`), then keeps
    /// draining until the channel stays quiet for the debounce window:
    /// bursts coalesce into one wake. Returns the distinct widget
    /// identities that signalled, validated against the widget count; an
    /// empty result means the timeout passed quietly.
    pub fn wait_signals(&self, timeout_ms: u64) -> (r: Vec<usize>)
        ensures
            forall|k: int| 0 <= k < r@.len() ==> #[trigger] r@[k] < self.widgets@.len(),
            forall|k1: int, k2: int| 0 <= k1 < k2 < r@.len() ==> r@[k1] != r@[k2],
    {
        let n = self.widgets.len();
        let mut seen: Vec<bool> = Vec::new();
        let mut i: usize = 0;
        while i < n
            invariant
                seen@.len() == i,
                i <= n,
            decreases n - i,
        {
            seen.push(false);
            i += 1;
        }
        let mut out: Vec<usize> = Vec::new();
        let first = match self.receiver.recv_timeout_ms(timeout_ms) {
            Some(raw) => raw,
            None => {
                return out;
            },
        };
        if first < n as u64 {
            let id = first as usize;
            seen[id] = true;
            out.push(id);
        }
        let mut pulls: usize = 0;
        while pulls < 1024
            invariant
                n == self.widgets@.len(),
                seen@.len() == n,
                forall|k: int| 0 <= k < out@.len() ==> #[trigger] out@[k] < n,
                forall|k: int| 0 <= k < out@.len() ==> seen@[out@[k] as int],
                forall|k1: int, k2: int| 0 <= k1 < k2 < out@.len() ==> out@[k1] != out@[k2],
            decreases 1024 - pulls,
        {
            match self.receiver.recv_timeout_ms(self.debounce_ms) {
                Some(raw) => {
                    if raw < n as u64 {
                        let id = raw as usize;
                        if !seen[id] {
                            seen[id] = true;
                            out.push(id);
                        }
                    }
                },
                None => {
                    return out;
                },
            }
            pulls += 1;
        }
        out
    }

    /// Advances the shared timers, firing due subscriptions; the delta is
    /// clamped to what every lifetime counter can still absorb.
    pub fn tick_timers(&mut self, delta_ms: u64)
        requires
            old(self).wf(),
        ensures
            final(self).wf(),
            final(self).widgets == old(self).widgets,
            final(self).left_count == old(self).left_count,
            final(self).state == old(self).state,
            final(self).receiver == old(self).receiver,
            final(self).sender == old(self).sender,
            final(self).rects == old(self).rects,
            final(self).pass_count == old(self).pass_count,
            final(self).debounce_ms == old(self).debounce_ms,
            final(self).width == old(self).width,
            final(self).hooks.subs@.len() == old(self).hooks.subs@.len(),
            forall|i: int|
                0 <= i < final(self).hooks.subs@.len() ==> {
                    let post = #[trigger] final(self).hooks.subs@[i];
                    let pre = old(self).hooks.subs@[i];
                    let d = crate::timer::clamped_delta(old(self).hooks, delta_ms);
                    &&& post.duration_ms == pre.duration_ms
                    &&& post.sender == pre.sender
                    &&& post.total_ms == pre.total_ms + d
                    &&& post.fired == (pre.total_ms + d) / (pre.duration_ms as int)
                },
    {
        let room = self.hooks.max_tick();
        let d = if delta_ms > room {
            room
        } else {
            delta_ms
        };
        proof {
            assert forall|i: int|
                0 <= i < self.hooks.subs@.len() implies (
            #[trigger] self.hooks.subs@[i]).total_ms + d <= u64::MAX by {
                crate::timer::lemma_max_total_bound(
                    self.hooks.subs@,
                    i,
                    self.hooks.subs@.len() as int,
                );
            }
        }
        self.hooks.tick(d);
    }

    /// Resolves a pointer click's horizontal position to the widget whose
    /// precomputed rectangle contains it, scanning in display order.
    pub fn route_click(&self, x: u64) -> (r: Option<usize>)
        ensures
            match r {
                Some(i) => i < self.rects@.len() && rect_contains(self.rects@[i as int], x as int)
                    && forall|k: int|
                    0 <= k < i ==> !rect_contains(#[trigger] self.rects@[k], x as int),
                None => forall|k: int|
                    0 <= k < self.rects@.len() ==> !rect_contains(
                        #[trigger] self.rects@[k],
                        x as int,
                    ),
            },
    {
        click_target(&self.rects, x)
    }

    /// Asks the loop to stop: cooperative notifiers are to exit at their
    /// next suspension point, and no further passes are produced.
    pub fn request_stop(&mut self)
        ensures
            final(self).state == DispatcherState::Stopping,
            final(self).widgets == old(self).widgets,
            final(self).left_count == old(self).left_count,
            final(self).hooks == old(self).hooks,
            final(self).receiver == old(self).receiver,
            final(self).sender == old(self).sender,
            final(self).rects == old(self).rects,
            final(self).pass_count == old(self).pass_count,
            final(self).debounce_ms == old(self).debounce_ms,
            final(self).width == old(self).width,
    {
        self.state = DispatcherState::Stopping;
    }

    /// Acknowledges that the loop has exited: the dispatcher is finished.
    pub fn confirm_stopped(&mut self)
        requires
            old(self).state == DispatcherState::Stopping,
        ensures
            final(self).state == DispatcherState::Stopped,
            final(self).widgets == old(self).widgets,
            final(self).left_count == old(self).left_count,
            final(self).hooks == old(self).hooks,
            final(self).receiver == old(self).receiver,
            final(self).sender == old(self).sender,
            final(self).rects == old(self).rects,
            final(self).pass_count == old(self).pass_count,
            final(self).debounce_ms == old(self).debounce_ms,
            final(self).width == old(self).width,
    {
        self.state = DispatcherState::Stopped;
    }
}

} // verus!
