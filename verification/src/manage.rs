//! The management interface's effect on the core: replacing the live
//! configuration and announcing the change to every active stream over
//! the bus, without any reconnection.

use vstd::prelude::*;

use crate::bus::Bus;
use crate::bus::publish_spec;
use crate::config::Config;
use crate::config::ConfigStore;
use crate::message::Message;
use crate::message::MessageData;
use crate::message::MessageType;
use crate::message::config_msg_v;

verus! {

/// Applies one configuration update. `parsed` is the payload as the
/// management boundary deserialized it: `None` stands for a
/// structurally invalid payload, which leaves the store's prior value
/// unchanged, publishes nothing, and reports failure. A valid payload
/// replaces the store value wholesale — no field carries over — and a
/// configuration message with the new value is published so every
/// currently-subscribed stream observes the change.
pub fn set_config(store: &mut ConfigStore, bus: &mut Bus, parsed: Option<Config>) -> (ok: bool)
    requires
        old(bus).wf(),
        old(bus)@.next_seq() < u64::MAX,
    ensures
        final(bus).wf(),
        ok == (parsed is Some),
        parsed is None ==> final(store)@ == old(store)@ && final(bus)@ == old(bus)@,
        parsed matches Some(c) ==> final(store)@ == c@ && final(bus)@ == publish_spec(
            old(bus)@,
            config_msg_v(c@),
        ),
{
    match parsed {
        None => false,
        Some(config) => {
            let announcement = Message {
                kind: MessageType::Config,
                data: MessageData::ConfigMessage(config.clone()),
            };
            store.replace(config);
            let _ = bus.publish(announcement);
            true
        },
    }
}

} // verus!
