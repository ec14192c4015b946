//! Global hotkeys: F8 toggles auto-capture, F9 saves the last sixty seconds,
//! F10 the last thirty.
use vstd::prelude::*;

verus! {

/// Identifier of the F8 hotkey (toggle auto-capture).
pub const HOTKEY_F8: i32 = 1;

/// Identifier of the F9 hotkey (save sixty seconds).
pub const HOTKEY_F9: i32 = 2;

/// Identifier of the F10 hotkey (save thirty seconds).
pub const HOTKEY_F10: i32 = 3;

/// Hotkey event type.
#[derive(Debug, Clone, Copy, PartialEq, Eq, Structural)]
pub enum HotkeyEvent {
    /// F8.
    ToggleAutoCapture,
    /// F9.
    SaveReplay60,
    /// F10.
    SaveReplay30,
}

/// The event of a registered hotkey id.
pub open spec fn event_of(id: i32) -> Option<HotkeyEvent> {
    if id == HOTKEY_F8 {
        Some(HotkeyEvent::ToggleAutoCapture)
    } else if id == HOTKEY_F9 {
        Some(HotkeyEvent::SaveReplay60)
    } else if id == HOTKEY_F10 {
        Some(HotkeyEvent::SaveReplay30)
    } else {
        None
    }
}

impl HotkeyEvent {
    /// The event a hotkey message with this id reports; `None` for ids that
    /// were not registered.
    pub fn from_hotkey_id(id: i32) -> (r: Option<HotkeyEvent>)
        ensures
            r == event_of(id),
    {
        if id == HOTKEY_F8 {
            Some(HotkeyEvent::ToggleAutoCapture)
        } else if id == HOTKEY_F9 {
            Some(HotkeyEvent::SaveReplay60)
        } else if id == HOTKEY_F10 {
            Some(HotkeyEvent::SaveReplay30)
        } else {
            None
        }
    }

    /// The hotkey id this event is registered under.
    pub fn hotkey_id(&self) -> (id: i32)
        ensures
            event_of(id) == Some(*self),
    {
        match self {
            HotkeyEvent::ToggleAutoCapture => HOTKEY_F8,
            HotkeyEvent::SaveReplay60 => HOTKEY_F9,
            HotkeyEvent::SaveReplay30 => HOTKEY_F10,
        }
    }
}

/// The events reported for a sequence of hotkey messages, in order: one for
/// each message with a registered id, none for the others.
pub open spec fn events_of(ids: Seq<i32>) -> Seq<HotkeyEvent>
    decreases ids.len(),
{
    if ids.len() == 0 {
        Seq::empty()
    } else {
        let before = events_of(ids.drop_last());
        match event_of(ids.last()) {
            Some(e) => before.push(e),
            None => before,
        }
    }
}

/// The events of a sequence of hotkey messages (their ids), in order.
pub fn dispatch_messages(ids: &Vec<i32>) -> (r: Vec<HotkeyEvent>)
    ensures
        r@ == events_of(ids@),
{
    let mut r: Vec<HotkeyEvent> = Vec::new();
    let mut i: usize = 0;
    while i < ids.len()
        invariant
            i <= ids@.len(),
            r@ == events_of(ids@.subrange(0, i as int)),
        decreases ids@.len() - i,
    {
        assert(ids@.subrange(0, i + 1).drop_last() =~= ids@.subrange(0, i as int));
        match HotkeyEvent::from_hotkey_id(ids[i]) {
            Some(e) => r.push(e),
            None => {},
        }
        i += 1;
    }
    assert(ids@.subrange(0, ids@.len() as int) =~= ids@);
    r
}

/// Messages are handled one by one: the events of two runs of messages are
/// those of the first followed by those of the second, each registered message
/// giving its own event once and any other message none.
pub proof fn law_messages_dispatch_in_order(a: Seq<i32>, b: Seq<i32>)
    ensures
        events_of(a + b) == events_of(a) + events_of(b),
        forall|id: i32|
            #[trigger] events_of(seq![id]) == (match event_of(id) {
                Some(e) => seq![e],
                None => Seq::<HotkeyEvent>::empty(),
            }),
    decreases b.len(),
{
    assert forall|id: i32|
        #[trigger] events_of(seq![id]) == (match event_of(id) {
            Some(e) => seq![e],
            None => Seq::<HotkeyEvent>::empty(),
        }) by {
        assert(seq![id].drop_last() =~= Seq::<i32>::empty());
        assert(seq![id].last() == id);
        assert(events_of(Seq::<i32>::empty()) =~= Seq::<HotkeyEvent>::empty());
        match event_of(id) {
            Some(e) => {
                assert(Seq::<HotkeyEvent>::empty().push(e) =~= seq![e]);
            },
            None => {},
        }
    }
    if b.len() == 0 {
        assert(a + b =~= a);
        assert(events_of(a) + events_of(b) =~= events_of(a));
    } else {
        law_messages_dispatch_in_order(a, b.drop_last());
        assert((a + b).drop_last() =~= a + b.drop_last());
        assert((a + b).last() == b.last());
        match event_of(b.last()) {
            Some(e) => {
                assert(events_of(a) + events_of(b) =~= (events_of(a) + events_of(b.drop_last())).push(e));
            },
            None => {},
        }
    }
}

/// What the application does on a hotkey.
#[derive(Debug, Clone, Copy, PartialEq, Eq, Structural)]
pub enum HotkeyAction {
    /// Stop event monitoring, then the replay buffer.
    StopAutoCapture,
    /// Start the replay buffer, then event monitoring.
    StartAutoCapture,
    /// Save the last this many seconds (the recorder is stopped and restarted).
    SaveReplay(u32),
}

/// The action of a hotkey event: F8 stops auto-capture while it runs and
/// starts it otherwise; F9 saves sixty seconds, F10 thirty.
pub fn hotkey_action(event: HotkeyEvent, is_monitoring: bool) -> (r: HotkeyAction)
    ensures
        r == (match event {
            HotkeyEvent::ToggleAutoCapture => if is_monitoring {
                HotkeyAction::StopAutoCapture
            } else {
                HotkeyAction::StartAutoCapture
            },
            HotkeyEvent::SaveReplay60 => HotkeyAction::SaveReplay(60),
            HotkeyEvent::SaveReplay30 => HotkeyAction::SaveReplay(30),
        }),
{
    match event {
        HotkeyEvent::ToggleAutoCapture => if is_monitoring {
            HotkeyAction::StopAutoCapture
        } else {
            HotkeyAction::StartAutoCapture
        },
        HotkeyEvent::SaveReplay60 => HotkeyAction::SaveReplay(60),
        HotkeyEvent::SaveReplay30 => HotkeyAction::SaveReplay(30),
    }
}

/// Hotkey manager: whether the listener is enabled.
pub struct HotkeyManager {
    enabled: bool,
}

impl HotkeyManager {
    /// Whether hotkeys are enabled.
    pub closed spec fn enabled_spec(&self) -> bool {
        self.enabled
    }

    /// A manager whose listener has not started.
    pub fn new() -> (m: Self)
        ensures
            !m.enabled_spec(),
    {
        HotkeyManager { enabled: false }
    }

    /// The listener was started.
    pub fn mark_started(&mut self)
        ensures
            final(self).enabled_spec(),
    {
        self.enabled = true;
    }

    /// Stop the hotkey listener.
    pub fn stop(&mut self)
        ensures
            !final(self).enabled_spec(),
    {
        self.enabled = false;
    }

    /// Whether hotkeys are enabled.
    pub fn is_enabled(&self) -> (r: bool)
        ensures
            r == self.enabled_spec(),
    {
        self.enabled
    }
}

} // verus!
