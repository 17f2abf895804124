//! The event loop driver's translation step.
//!
//! One `poll` of the bridge drains the platform queue: every pending
//! platform event is translated, in arrival order, into one
//! `(event_name, json_payload)` callback invocation. The pump itself — the
//! platform call that yields the pending events — lives outside this crate;
//! this module holds the decisions: which events are reported, under which
//! name, and with exactly which payload text.
//!
//! The driver comes in two shapes, one pipeline parameterized by the
//! presence of an identity registry: multi-window builds carry one and
//! annotate every window payload with an `id` member (`null` when the
//! window is not bound), single-window builds carry none and omit the
//! member entirely.

use vstd::prelude::*;
use vstd::string::StringExecFns;
use crate::fmt::{spec_uint_str, spec_int_str, u64_to_string, i64_to_string};
use crate::registry::IdentityRegistry;

verus! {

/// What a pointer did to a tray icon.
#[derive(Clone, Copy, Debug, PartialEq, Eq, Structural)]
pub enum TrayAction {
    Press,
    Release,
    Drag,
}

/// A pending platform event, reduced to the plain values the driver reads.
#[derive(Clone, Copy, Debug, PartialEq, Eq, Structural)]
pub enum PlatformEvent {
    /// The user asked a window to close.
    CloseRequested { window: u64 },
    /// A window gained or lost focus.
    FocusChanged { window: u64, focused: bool },
    /// A window moved to a new position.
    Moved { window: u64, x: i64, y: i64 },
    /// A window was resized.
    Resized { window: u64, width: u64, height: u64 },
    /// A pointer acted on a tray icon. Only the release is reported; press
    /// and drag are not.
    TrayClick { tray: u16, action: TrayAction },
}

/// The caller id a registry answers for a native window identity.
pub open spec fn spec_lookup(reg: Map<u64, u16>, window: u64) -> Option<u16> {
    if reg.contains_key(window) {
        Some(reg[window])
    } else {
        None
    }
}

/// The `id` member of a multi-window payload: the bound caller id, or
/// `null` for an unbound window.
pub open spec fn spec_id_json(idv: Option<u16>) -> Seq<char> {
    match idv {
        Some(n) => spec_uint_str(n as nat),
        None => "null"@,
    }
}

/// A JSON boolean.
pub open spec fn spec_bool_json(b: bool) -> Seq<char> {
    if b {
        "true"@
    } else {
        "false"@
    }
}

/// The callback name an event is reported under.
pub open spec fn spec_event_name(e: PlatformEvent) -> Seq<char> {
    match e {
        PlatformEvent::CloseRequested { .. } => "window_close_requested"@,
        PlatformEvent::FocusChanged { .. } => "window_focused"@,
        PlatformEvent::Moved { .. } => "window_moved"@,
        PlatformEvent::Resized { .. } => "window_resized"@,
        PlatformEvent::TrayClick { .. } => "tray_clicked"@,
    }
}

/// The exact payload text an event is reported with. `mode` is the
/// registry of a multi-window driver, or nothing for a single-window one.
pub open spec fn spec_payload(e: PlatformEvent, mode: Option<Map<u64, u16>>) -> Seq<char> {
    match e {
        PlatformEvent::CloseRequested { window } => match mode {
            Some(reg) => "{\"id\":"@ + spec_id_json(spec_lookup(reg, window)) + "}"@,
            None => "{}"@,
        },
        PlatformEvent::FocusChanged { window, focused } => match mode {
            Some(reg) => "{\"id\":"@ + spec_id_json(spec_lookup(reg, window)) + ",\"focused\":"@
                + spec_bool_json(focused) + "}"@,
            None => "{\"focused\":"@ + spec_bool_json(focused) + "}"@,
        },
        PlatformEvent::Moved { window, x, y } => match mode {
            Some(reg) => "{\"id\":"@ + spec_id_json(spec_lookup(reg, window)) + ",\"x\":"@
                + spec_int_str(x as int) + ",\"y\":"@ + spec_int_str(y as int) + "}"@,
            None => "{\"x\":"@ + spec_int_str(x as int) + ",\"y\":"@ + spec_int_str(y as int)
                + "}"@,
        },
        PlatformEvent::Resized { window, width, height } => match mode {
            Some(reg) => "{\"id\":"@ + spec_id_json(spec_lookup(reg, window)) + ",\"width\":"@
                + spec_uint_str(width as nat) + ",\"height\":"@ + spec_uint_str(height as nat)
                + "}"@,
            None => "{\"width\":"@ + spec_uint_str(width as nat) + ",\"height\":"@ + spec_uint_str(
                height as nat,
            ) + "}"@,
        },
        PlatformEvent::TrayClick { tray, .. } => "{\"id\":"@ + spec_uint_str(tray as nat) + "}"@,
    }
}

/// Whether the driver reports an event at all.
pub open spec fn spec_reported(e: PlatformEvent) -> bool {
    match e {
        PlatformEvent::TrayClick { action, .. } => action is Release,
        _ => true,
    }
}

/// The callback invocation an event turns into, if any.
pub open spec fn spec_translate(e: PlatformEvent, mode: Option<Map<u64, u16>>) -> Option<
    (Seq<char>, Seq<char>),
> {
    if spec_reported(e) {
        Some((spec_event_name(e), spec_payload(e, mode)))
    } else {
        None
    }
}

/// The callback invocations one drain cycle produces for a batch of pending
/// events, in arrival order.
pub open spec fn spec_drain(evs: Seq<PlatformEvent>, mode: Option<Map<u64, u16>>) -> Seq<
    (Seq<char>, Seq<char>),
>
    decreases evs.len(),
{
    if evs.len() == 0 {
        Seq::empty()
    } else {
        let rest = spec_drain(evs.drop_last(), mode);
        match spec_translate(evs.last(), mode) {
            Some(p) => rest.push(p),
            None => rest,
        }
    }
}

/// Law: when every event of a scripted batch is one the driver reports, a
/// drain cycle yields exactly one callback invocation per event, in the
/// same relative order — none dropped, none duplicated.
pub proof fn lemma_drain_order(evs: Seq<PlatformEvent>, mode: Option<Map<u64, u16>>)
    requires
        forall|i: int| 0 <= i < evs.len() ==> spec_reported(#[trigger] evs[i]),
    ensures
        spec_drain(evs, mode).len() == evs.len(),
        forall|i: int|
            0 <= i < evs.len() ==> spec_drain(evs, mode)[i] == spec_translate(
                #[trigger] evs[i],
                mode,
            ).unwrap(),
    decreases evs.len(),
{
    if evs.len() > 0 {
        assert forall|i: int| 0 <= i < evs.drop_last().len() implies spec_reported(
            #[trigger] evs.drop_last()[i],
        ) by {
            assert(evs.drop_last()[i] == evs[i]);
        }
        lemma_drain_order(evs.drop_last(), mode);
        assert(spec_reported(evs[evs.len() - 1]));
        assert forall|i: int| 0 <= i < evs.len() implies spec_drain(evs, mode)[i]
            == spec_translate(#[trigger] evs[i], mode).unwrap() by {
            if i < evs.len() - 1 {
                assert(evs.drop_last()[i] == evs[i]);
            }
        }
    }
}

/// The renderable `id` member: the bound caller id in decimal, or `null`.
fn id_json(idv: Option<u16>) -> (r: String)
    ensures
        r@ == spec_id_json(idv),
{
    match idv {
        Some(n) => u64_to_string(n as u64),
        None => "null".to_owned(),
    }
}

/// A JSON boolean.
fn bool_json(b: bool) -> (r: &'static str)
    ensures
        r@ == spec_bool_json(b),
{
    if b {
        "true"
    } else {
        "false"
    }
}

/// The decision half of the event loop driver.
///
/// Created once, polled many times, destroyed once. The platform pump hands
/// each pending event in; the driver decides the callback invocation it
/// becomes.
pub struct EventLoopCore {
    /// Present in multi-window builds: the table that routes native window
    /// identities to caller-assigned ids. Absent in single-window builds.
    pub registry: Option<IdentityRegistry>,
}

impl EventLoopCore {
    /// The registry it carries is well formed.
    pub open spec fn wf(&self) -> bool {
        match self.registry {
            Some(reg) => reg.wf(),
            None => true,
        }
    }

    /// The driver's routing table, if it is a multi-window driver.
    pub open spec fn mode(&self) -> Option<Map<u64, u16>> {
        match self.registry {
            Some(reg) => Some(reg@),
            None => None,
        }
    }

    /// A fresh driver: with an empty identity registry for a multi-window
    /// build, without one for a single-window build.
    pub fn new(multi_window: bool) -> (r: EventLoopCore)
        ensures
            r.wf(),
            r.mode() == if multi_window {
                Some(Map::<u64, u16>::empty())
            } else {
                None::<Map<u64, u16>>
            },
    {
        if multi_window {
            EventLoopCore { registry: Some(IdentityRegistry::new()) }
        } else {
            EventLoopCore { registry: None }
        }
    }

    /// Records, at window creation, which caller id a native window identity
    /// routes to. A single-window driver keeps no table and ignores this.
    pub fn bind_window(&mut self, native: u64, caller: u16)
        requires
            old(self).wf(),
        ensures
            final(self).wf(),
            final(self).mode() == match old(self).mode() {
                Some(m) => Some(m.insert(native, caller)),
                None => None::<Map<u64, u16>>,
            },
    {
        match &mut self.registry {
            Some(reg) => reg.bind(native, caller),
            None => {},
        }
    }

    /// Removes, at window destruction, the entry of a native window
    /// identity.
    pub fn unbind_window(&mut self, native: u64)
        requires
            old(self).wf(),
        ensures
            final(self).wf(),
            final(self).mode() == match old(self).mode() {
                Some(m) => Some(m.remove(native)),
                None => None::<Map<u64, u16>>,
            },
    {
        match &mut self.registry {
            Some(reg) => reg.unbind(native),
            None => {},
        }
    }

    /// The caller id bound to a native window identity, if this driver keeps
    /// a table and the identity is bound.
    pub fn lookup_window(&self, native: u64) -> (r: Option<u16>)
        requires
            self.wf(),
        ensures
            r == match self.mode() {
                Some(m) => spec_lookup(m, native),
                None => None::<u16>,
            },
    {
        match &self.registry {
            Some(reg) => reg.lookup(native),
            None => None,
        }
    }

    /// The `id` member value for a window-scoped payload.
    fn window_id_json(&self, window: u64) -> (r: String)
        requires
            self.wf(),
            self.mode() is Some,
        ensures
            r@ == spec_id_json(spec_lookup(self.mode().unwrap(), window)),
    {
        match &self.registry {
            Some(reg) => id_json(reg.lookup(window)),
            None => id_json(None),
        }
    }

    /// Translates one platform event into the callback invocation it is
    /// reported as, or nothing for events the driver does not report.
    pub fn translate_event(&self, e: &PlatformEvent) -> (r: Option<(String, String)>)
        requires
            self.wf(),
        ensures
            match spec_translate(*e, self.mode()) {
                Some(p) => r matches Some(q) && q.0@ == p.0 && q.1@ == p.1,
                None => r is None,
            },
    {
        match e {
            PlatformEvent::CloseRequested { window } => {
                let mut payload: String;
                if self.registry.is_some() {
                    payload = "{\"id\":".to_owned();
                    payload.append(self.window_id_json(*window).as_str());
                    payload.append("}");
                } else {
                    payload = "{}".to_owned();
                }
                proof {
                    assert(payload@ =~= spec_payload(*e, self.mode()));
                }
                Some(("window_close_requested".to_owned(), payload))
            },
            PlatformEvent::FocusChanged { window, focused } => {
                let mut payload: String;
                if self.registry.is_some() {
                    payload = "{\"id\":".to_owned();
                    payload.append(self.window_id_json(*window).as_str());
                    payload.append(",\"focused\":");
                } else {
                    payload = "{\"focused\":".to_owned();
                }
                payload.append(bool_json(*focused));
                payload.append("}");
                proof {
                    assert(payload@ =~= spec_payload(*e, self.mode()));
                }
                Some(("window_focused".to_owned(), payload))
            },
            PlatformEvent::Moved { window, x, y } => {
                let mut payload: String;
                if self.registry.is_some() {
                    payload = "{\"id\":".to_owned();
                    payload.append(self.window_id_json(*window).as_str());
                    payload.append(",\"x\":");
                } else {
                    payload = "{\"x\":".to_owned();
                }
                payload.append(i64_to_string(*x).as_str());
                payload.append(",\"y\":");
                payload.append(i64_to_string(*y).as_str());
                payload.append("}");
                proof {
                    assert(payload@ =~= spec_payload(*e, self.mode()));
                }
                Some(("window_moved".to_owned(), payload))
            },
            PlatformEvent::Resized { window, width, height } => {
                let mut payload: String;
                if self.registry.is_some() {
                    payload = "{\"id\":".to_owned();
                    payload.append(self.window_id_json(*window).as_str());
                    payload.append(",\"width\":");
                } else {
                    payload = "{\"width\":".to_owned();
                }
                payload.append(u64_to_string(*width).as_str());
                payload.append(",\"height\":");
                payload.append(u64_to_string(*height).as_str());
                payload.append("}");
                proof {
                    assert(payload@ =~= spec_payload(*e, self.mode()));
                }
                Some(("window_resized".to_owned(), payload))
            },
            PlatformEvent::TrayClick { tray, action } => {
                match action {
                    TrayAction::Release => {
                        let mut payload = "{\"id\":".to_owned();
                        payload.append(u64_to_string(*tray as u64).as_str());
                        payload.append("}");
                        proof {
                            assert(payload@ =~= spec_payload(*e, self.mode()));
                        }
                        Some(("tray_clicked".to_owned(), payload))
                    },
                    _ => None,
                }
            },
        }
    }

    /// One bounded drain cycle over a batch of pending platform events: the
    /// callback invocations they become, in arrival order. The caller
    /// invokes its callback for each pair, first to last.
    pub fn drain(&self, events: &Vec<PlatformEvent>) -> (r: Vec<(String, String)>)
        requires
            self.wf(),
        ensures
            r@.len() == spec_drain(events@, self.mode()).len(),
            forall|i: int|
                0 <= i < r@.len() ==> (#[trigger] r@[i].0@, r@[i].1@) == spec_drain(
                    events@,
                    self.mode(),
                )[i],
    {
        let mut out: Vec<(String, String)> = Vec::new();
        let mut i: usize = 0;
        while i < events.len()
            invariant
                self.wf(),
                i <= events@.len(),
                out@.len() == spec_drain(events@.subrange(0, i as int), self.mode()).len(),
                forall|j: int|
                    0 <= j < out@.len() ==> (#[trigger] out@[j].0@, out@[j].1@) == spec_drain(
                        events@.subrange(0, i as int),
                        self.mode(),
                    )[j],
            decreases events@.len() - i,
        {
            let ghost prefix = events@.subrange(0, i as int);
            match self.translate_event(&events[i]) {
                Some(p) => out.push(p),
                None => {},
            }
            proof {
                let next = events@.subrange(0, i + 1);
                assert(next.drop_last() =~= prefix);
                assert(next.last() == events@[i as int]);
            }
            i = i + 1;
        }
        proof {
            assert(events@.subrange(0, events@.len() as int) =~= events@);
        }
        out
    }
}

} // verus!
