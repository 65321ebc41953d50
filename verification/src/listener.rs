//! The input listener: bridges raw OS hook callbacks into canonical
//! input events. Each callback is one synchronous unit of work: the raw
//! code is resolved through the name table (an unmapped code drops the
//! callback), the live configuration gates all processing, the
//! press-state tracker turns raw presses and releases into true
//! transitions, and each accepted event is published onto the bus
//! fire-and-forget.

use vstd::prelude::*;

use crate::bus::Bus;
use crate::bus::BusV;
use crate::bus::publish_spec;
use crate::config::Config;
use crate::config::ConfigV;
use crate::inputs::InputInfo;
use crate::inputs::InputInfoV;
use crate::inputs::InputMessage;
use crate::inputs::InputMessageV;
use crate::inputs::InputSource;
use crate::inputs::KeyButton;
use crate::inputs::RawEvent;
use crate::keys::button_name;
use crate::keys::get_key_name;
use crate::keys::get_mouse_button_name;
use crate::keys::key_name;
use crate::message::Message;
use crate::message::MessageData;
use crate::message::MessageType;
use crate::message::MessageV;
use crate::message::input_msg_v;
use crate::tracker::Tracker;

verus! {

/// Abstract state of a [`Handler`]: the held identifiers of each input
/// group and the display resolution.
#[verifier::ext_equal]
pub ghost struct HandlerV {
    pub pressing_keys: Set<Seq<char>>,
    pub pressing_mouse_buttons: Set<Seq<char>>,
    pub screen_size: (u64, u64),
}

/// The listener's state: one press-state tracker per input group, and
/// the display resolution reported with pointer moves.
pub struct Handler {
    /// Currently-held keyboard keys.
    pub pressing_keys: Tracker,
    /// Currently-held mouse buttons.
    pub pressing_mouse_buttons: Tracker,
    /// The display resolution, fixed per process lifetime.
    pub screen_size: (u64, u64),
}

impl View for Handler {
    type V = HandlerV;

    open spec fn view(&self) -> HandlerV {
        HandlerV {
            pressing_keys: self.pressing_keys@,
            pressing_mouse_buttons: self.pressing_mouse_buttons@,
            screen_size: self.screen_size,
        }
    }
}

/// The canonical identifier of a key or button code, if the table maps
/// it.
pub open spec fn key_button_name(kb: KeyButton) -> Option<Seq<char>> {
    match kb {
        KeyButton::Key(k) => key_name(k),
        KeyButton::Button(b) => button_name(b),
    }
}

/// The held-set consulted for `source`: the keyboard group for
/// keyboard events, the mouse-button group for everything else.
pub open spec fn held_of(h: HandlerV, source: InputSource) -> Set<Seq<char>> {
    if source is Keyboard {
        h.pressing_keys
    } else {
        h.pressing_mouse_buttons
    }
}

/// `h` with the held-set of `source` replaced by `held`.
pub open spec fn with_held(h: HandlerV, source: InputSource, held: Set<Seq<char>>) -> HandlerV {
    if source is Keyboard {
        HandlerV {
            pressing_keys: held,
            pressing_mouse_buttons: h.pressing_mouse_buttons,
            screen_size: h.screen_size,
        }
    } else {
        HandlerV {
            pressing_keys: h.pressing_keys,
            pressing_mouse_buttons: held,
            screen_size: h.screen_size,
        }
    }
}

/// The event announcing that `name` transitioned to held or released.
pub open spec fn pressing_msg_v(
    source: InputSource,
    name: Seq<char>,
    pressing: bool,
    time: u64,
) -> MessageV {
    input_msg_v(
        InputMessageV { source, info: InputInfoV::Pressing { name, pressing }, time },
    )
}

/// One raw press: an unmapped code or an already-held identifier
/// changes nothing; a true transition marks the identifier held and
/// emits its event.
pub open spec fn press_step(h: HandlerV, source: InputSource, kb: KeyButton, time: u64) -> (
    HandlerV,
    Option<MessageV>,
) {
    match key_button_name(kb) {
        None => (h, None),
        Some(name) => {
            let held = held_of(h, source);
            if held.contains(name) {
                (h, None)
            } else {
                (
                    with_held(h, source, held.insert(name)),
                    Some(pressing_msg_v(source, name, true, time)),
                )
            }
        },
    }
}

/// One raw release: an unmapped code or a not-held identifier changes
/// nothing; a true transition unmarks the identifier and emits its
/// event.
pub open spec fn release_step(h: HandlerV, source: InputSource, kb: KeyButton, time: u64) -> (
    HandlerV,
    Option<MessageV>,
) {
    match key_button_name(kb) {
        None => (h, None),
        Some(name) => {
            let held = held_of(h, source);
            if held.contains(name) {
                (
                    with_held(h, source, held.remove(name)),
                    Some(pressing_msg_v(source, name, false, time)),
                )
            } else {
                (h, None)
            }
        },
    }
}

/// The pointer-move event at the given position.
pub open spec fn move_msg_v(h: HandlerV, x_bits: u64, y_bits: u64, time: u64) -> MessageV {
    input_msg_v(
        InputMessageV {
            source: InputSource::MouseMove,
            info: InputInfoV::Coord { x_bits, y_bits, screen_size: h.screen_size },
            time,
        },
    )
}

/// The wheel event with the given deltas.
pub open spec fn wheel_msg_v(delta_x: i64, delta_y: i64, time: u64) -> MessageV {
    input_msg_v(
        InputMessageV {
            source: InputSource::MouseWheel,
            info: InputInfoV::Roll { delta_x, delta_y },
            time,
        },
    )
}

/// One whole listener step for one raw callback: with the master
/// switch off nothing happens at all, not even tracker mutation;
/// pointer moves additionally require their own switch; presses and
/// releases emit only on true transitions; moves and wheels always
/// emit, subject to the gates.
pub open spec fn listener_step(h: HandlerV, cfg: ConfigV, event: RawEvent, time: u64) -> (
    HandlerV,
    Option<MessageV>,
) {
    if !cfg.enable {
        (h, None)
    } else {
        match event {
            RawEvent::KeyPress(k) => press_step(h, InputSource::Keyboard, KeyButton::Key(k), time),
            RawEvent::KeyRelease(k) => release_step(
                h,
                InputSource::Keyboard,
                KeyButton::Key(k),
                time,
            ),
            RawEvent::ButtonPress(b) => press_step(
                h,
                InputSource::MouseButton,
                KeyButton::Button(b),
                time,
            ),
            RawEvent::ButtonRelease(b) => release_step(
                h,
                InputSource::MouseButton,
                KeyButton::Button(b),
                time,
            ),
            RawEvent::MouseMove { x_bits, y_bits } => if !cfg.mouse_move_enable {
                (h, None)
            } else {
                (h, Some(move_msg_v(h, x_bits, y_bits, time)))
            },
            RawEvent::Wheel { delta_x, delta_y } => (h, Some(wheel_msg_v(delta_x, delta_y, time))),
        }
    }
}

/// The bus after an optional emission.
pub open spec fn bus_after(b: BusV, m: Option<MessageV>) -> BusV {
    match m {
        Some(mv) => publish_spec(b, mv),
        None => b,
    }
}

/// Publishes one input event onto the bus; a delivery failure on a
/// torn-down bus is swallowed, the listener never stops for it.
fn send(bus: &mut Bus, data: InputMessage)
    requires
        old(bus).wf(),
        old(bus)@.next_seq() < u64::MAX,
    ensures
        final(bus).wf(),
        final(bus)@ == publish_spec(old(bus)@, input_msg_v(data@)),
{
    let ghost dv = data@;
    let message = Message { kind: MessageType::Input, data: MessageData::InputMessage(data) };
    proof {
        assert(message@ == input_msg_v(dv));
    }
    let _ = bus.publish(message);
}

impl Handler {
    /// Both trackers are internally well-formed.
    pub open spec fn wf(&self) -> bool {
        &&& self.pressing_keys.wf()
        &&& self.pressing_mouse_buttons.wf()
    }

    /// Creates a listener state with nothing held, for a display of
    /// the given resolution.
    pub fn new(screen_size: (u64, u64)) -> (h: Handler)
        ensures
            h.wf(),
            h@ == (HandlerV {
                pressing_keys: Set::<Seq<char>>::empty(),
                pressing_mouse_buttons: Set::<Seq<char>>::empty(),
                screen_size,
            }),
    {
        Handler {
            pressing_keys: Tracker::new(),
            pressing_mouse_buttons: Tracker::new(),
            screen_size,
        }
    }

    /// Handles one raw press callback, as [`press_step`] says.
    pub fn on_press(&mut self, bus: &mut Bus, time: u64, source: InputSource, key_button: KeyButton)
        requires
            old(self).wf(),
            old(bus).wf(),
            old(bus)@.next_seq() < u64::MAX,
        ensures
            final(self).wf(),
            final(bus).wf(),
            final(self)@ == press_step(old(self)@, source, key_button, time).0,
            final(bus)@ == bus_after(old(bus)@, press_step(old(self)@, source, key_button, time).1),
    {
        let name_res = match key_button {
            KeyButton::Key(key) => get_key_name(key),
            KeyButton::Button(button) => get_mouse_button_name(button),
        };
        let name = match name_res {
            Ok(name) => name,
            Err(_) => {
                return ;
            },
        };
        let transition = if let InputSource::Keyboard = source {
            self.pressing_keys.on_raw_press(name)
        } else {
            self.pressing_mouse_buttons.on_raw_press(name)
        };
        if transition {
            send(
                bus,
                InputMessage {
                    source,
                    info: InputInfo::Pressing { name: String::from_str(name), pressing: true },
                    time,
                },
            );
        }
    }

    /// Handles one raw release callback, as [`release_step`] says.
    pub fn on_release(
        &mut self,
        bus: &mut Bus,
        time: u64,
        source: InputSource,
        key_button: KeyButton,
    )
        requires
            old(self).wf(),
            old(bus).wf(),
            old(bus)@.next_seq() < u64::MAX,
        ensures
            final(self).wf(),
            final(bus).wf(),
            final(self)@ == release_step(old(self)@, source, key_button, time).0,
            final(bus)@ == bus_after(
                old(bus)@,
                release_step(old(self)@, source, key_button, time).1,
            ),
    {
        let name_res = match key_button {
            KeyButton::Key(key) => get_key_name(key),
            KeyButton::Button(button) => get_mouse_button_name(button),
        };
        let name = match name_res {
            Ok(name) => name,
            Err(_) => {
                return ;
            },
        };
        let transition = if let InputSource::Keyboard = source {
            self.pressing_keys.on_raw_release(name)
        } else {
            self.pressing_mouse_buttons.on_raw_release(name)
        };
        if transition {
            send(
                bus,
                InputMessage {
                    source,
                    info: InputInfo::Pressing { name: String::from_str(name), pressing: false },
                    time,
                },
            );
        }
    }

    /// Emits one pointer-move event with the display resolution.
    pub fn on_mouse_move(&mut self, bus: &mut Bus, x_bits: u64, y_bits: u64, time: u64)
        requires
            old(self).wf(),
            old(bus).wf(),
            old(bus)@.next_seq() < u64::MAX,
        ensures
            final(self).wf(),
            final(bus).wf(),
            final(self)@ == old(self)@,
            final(bus)@ == publish_spec(old(bus)@, move_msg_v(old(self)@, x_bits, y_bits, time)),
    {
        send(
            bus,
            InputMessage {
                source: InputSource::MouseMove,
                info: InputInfo::Coord { x_bits, y_bits, screen_size: self.screen_size },
                time,
            },
        );
    }

    /// Emits one wheel event with the scroll deltas.
    pub fn on_mouse_scroll(&mut self, bus: &mut Bus, delta_x: i64, delta_y: i64, time: u64)
        requires
            old(self).wf(),
            old(bus).wf(),
            old(bus)@.next_seq() < u64::MAX,
        ensures
            final(self).wf(),
            final(bus).wf(),
            final(self)@ == old(self)@,
            final(bus)@ == publish_spec(old(bus)@, wheel_msg_v(delta_x, delta_y, time)),
    {
        send(
            bus,
            InputMessage {
                source: InputSource::MouseWheel,
                info: InputInfo::Roll { delta_x, delta_y },
                time,
            },
        );
    }
}

/// Handles one raw OS callback end to end, as [`listener_step`] says:
/// resolves, gates, tracks, and publishes. It never panics and never
/// stops the hook, whatever the callback carries.
pub fn process_event(handler: &mut Handler, bus: &mut Bus, config: &Config, event: RawEvent, time: u64)
    requires
        old(handler).wf(),
        old(bus).wf(),
        old(bus)@.next_seq() < u64::MAX,
    ensures
        final(handler).wf(),
        final(bus).wf(),
        final(handler)@ == listener_step(old(handler)@, config@, event, time).0,
        final(bus)@ == bus_after(old(bus)@, listener_step(old(handler)@, config@, event, time).1),
{
    if !config.enable {
        return ;
    }
    match event {
        RawEvent::KeyPress(key) => handler.on_press(
            bus,
            time,
            InputSource::Keyboard,
            KeyButton::Key(key),
        ),
        RawEvent::KeyRelease(key) => handler.on_release(
            bus,
            time,
            InputSource::Keyboard,
            KeyButton::Key(key),
        ),
        RawEvent::ButtonPress(button) => handler.on_press(
            bus,
            time,
            InputSource::MouseButton,
            KeyButton::Button(button),
        ),
        RawEvent::ButtonRelease(button) => handler.on_release(
            bus,
            time,
            InputSource::MouseButton,
            KeyButton::Button(button),
        ),
        RawEvent::MouseMove { x_bits, y_bits } => {
            if !config.mouse_move_enable {
                return ;
            }
            handler.on_mouse_move(bus, x_bits, y_bits, time);
        },
        RawEvent::Wheel { delta_x, delta_y } => handler.on_mouse_scroll(
            bus,
            delta_x,
            delta_y,
            time,
        ),
    }
}

/// The press target of a raw callback, where it is a press.
pub open spec fn press_event_target(event: RawEvent) -> Option<(InputSource, KeyButton)> {
    match event {
        RawEvent::KeyPress(k) => Some((InputSource::Keyboard, KeyButton::Key(k))),
        RawEvent::ButtonPress(b) => Some((InputSource::MouseButton, KeyButton::Button(b))),
        _ => None,
    }
}

/// The release target of a raw callback, where it is a release.
pub open spec fn release_event_target(event: RawEvent) -> Option<(InputSource, KeyButton)> {
    match event {
        RawEvent::KeyRelease(k) => Some((InputSource::Keyboard, KeyButton::Key(k))),
        RawEvent::ButtonRelease(b) => Some((InputSource::MouseButton, KeyButton::Button(b))),
        _ => None,
    }
}

/// A press is idempotent: a raw press of an already-held identifier
/// emits no second pressed event and changes no state, until a release
/// is observed.
pub proof fn lemma_idempotent_press(h: HandlerV, cfg: ConfigV, event: RawEvent, time: u64)
    requires
        ({
            &&& press_event_target(event) matches Some((source, kb))
            &&& key_button_name(kb) matches Some(name)
            &&& held_of(h, source).contains(name)
        }),
    ensures
        listener_step(h, cfg, event, time) == (h, None::<MessageV>),
{
}

/// There are no spurious releases: a raw release of a not-held
/// identifier emits no released event and changes no state.
pub proof fn lemma_no_spurious_release(h: HandlerV, cfg: ConfigV, event: RawEvent, time: u64)
    requires
        ({
            &&& release_event_target(event) matches Some((source, kb))
            &&& key_button_name(kb) matches Some(name)
            &&& !held_of(h, source).contains(name)
        }),
    ensures
        listener_step(h, cfg, event, time) == (h, None::<MessageV>),
{
}

/// A press, release, press of the same mapped identifier, starting
/// not-held and with the master switch on, emits exactly the events
/// pressed, released, pressed, in that order.
pub proof fn lemma_press_release_press(
    h: HandlerV,
    cfg: ConfigV,
    source: InputSource,
    kb: KeyButton,
    ev1: RawEvent,
    ev2: RawEvent,
    ev3: RawEvent,
    t1: u64,
    t2: u64,
    t3: u64,
)
    requires
        cfg.enable,
        press_event_target(ev1) == Some((source, kb)),
        release_event_target(ev2) == Some((source, kb)),
        press_event_target(ev3) == Some((source, kb)),
        key_button_name(kb) is Some,
        !held_of(h, source).contains(key_button_name(kb)->0),
    ensures
        ({
            let name = key_button_name(kb)->0;
            let (h1, m1) = listener_step(h, cfg, ev1, t1);
            let (h2, m2) = listener_step(h1, cfg, ev2, t2);
            let (h3, m3) = listener_step(h2, cfg, ev3, t3);
            &&& m1 == Some(pressing_msg_v(source, name, true, t1))
            &&& m2 == Some(pressing_msg_v(source, name, false, t2))
            &&& m3 == Some(pressing_msg_v(source, name, true, t3))
        }),
{
    let name = key_button_name(kb)->0;
    let (h1, m1) = listener_step(h, cfg, ev1, t1);
    assert(held_of(h1, source).contains(name));
    let (h2, m2) = listener_step(h1, cfg, ev2, t2);
    assert(!held_of(h2, source).contains(name));
}

/// With the master switch off, no raw callback of any source emits an
/// event or mutates the press-state tracker: a press that happens
/// fully while disabled does not register as held once re-enabled.
pub proof fn lemma_disabled_drops_everything(h: HandlerV, cfg: ConfigV, event: RawEvent, time: u64)
    requires
        !cfg.enable,
    ensures
        listener_step(h, cfg, event, time) == (h, None::<MessageV>),
{
}

/// With the master switch on and the pointer-move switch off, pointer
/// moves are suppressed while every other source flows exactly as it
/// would with the pointer-move switch on.
pub proof fn lemma_mouse_move_gated(h: HandlerV, cfg: ConfigV, event: RawEvent, time: u64)
    requires
        cfg.enable,
        !cfg.mouse_move_enable,
    ensures
        event matches RawEvent::MouseMove { .. } ==> listener_step(h, cfg, event, time) == (
            h,
            None::<MessageV>,
        ),
        !(event matches RawEvent::MouseMove { .. }) ==> listener_step(h, cfg, event, time)
            == listener_step(
            h,
            ConfigV { mouse_move_enable: true, ..cfg },
            event,
            time,
        ),
{
}

/// Every message the listener emits is well-shaped: its type tag
/// agrees with the shape of its payload.
pub proof fn lemma_emitted_messages_well_shaped(
    h: HandlerV,
    cfg: ConfigV,
    event: RawEvent,
    time: u64,
)
    ensures
        listener_step(h, cfg, event, time).1 matches Some(m) ==> crate::message::kind_agrees(m),
{
}

/// An unmapped raw key or button code never produces an event and
/// never changes state; it is dropped, not a crash.
pub proof fn lemma_unmapped_code_drops(h: HandlerV, cfg: ConfigV, event: RawEvent, time: u64)
    requires
        ({
            ||| press_event_target(event) matches Some((source, kb)) && key_button_name(kb)
                is None
            ||| release_event_target(event) matches Some((source, kb)) && key_button_name(kb)
                is None
        }),
    ensures
        listener_step(h, cfg, event, time) == (h, None::<MessageV>),
{
}

} // verus!
