//! The unit carried on the event bus: a typed envelope around either a
//! configuration snapshot, an input event, or a diagnostic payload. The
//! envelope's type tag and the shape of its data always agree.

use vstd::prelude::*;

use crate::config::Config;
use crate::config::ConfigV;
use crate::inputs::InputMessage;
use crate::inputs::InputMessageV;

verus! {

/// The type tag of a bus message.
#[derive(Clone, Copy, Debug, PartialEq, Eq, Structural)]
pub enum MessageType {
    Input,
    Config,
    Test,
}

/// Abstract value of a [`MessageData`].
pub ghost enum MessageDataV {
    ConfigMessage(ConfigV),
    InputMessage(InputMessageV),
    TestMessage(Seq<char>),
}

/// The payload of a bus message.
#[derive(Debug, PartialEq)]
pub enum MessageData {
    ConfigMessage(Config),
    InputMessage(InputMessage),
    TestMessage(String),
}

impl View for MessageData {
    type V = MessageDataV;

    open spec fn view(&self) -> MessageDataV {
        match *self {
            MessageData::ConfigMessage(c) => MessageDataV::ConfigMessage(c@),
            MessageData::InputMessage(m) => MessageDataV::InputMessage(m@),
            MessageData::TestMessage(s) => MessageDataV::TestMessage(s@),
        }
    }
}

impl Clone for MessageData {
    fn clone(&self) -> (r: Self)
        ensures
            r@ == self@,
    {
        match self {
            MessageData::ConfigMessage(c) => MessageData::ConfigMessage(c.clone()),
            MessageData::InputMessage(m) => MessageData::InputMessage(m.clone()),
            MessageData::TestMessage(s) => MessageData::TestMessage(s.clone()),
        }
    }
}

/// Abstract value of a [`Message`].
pub ghost struct MessageV {
    pub kind: MessageType,
    pub data: MessageDataV,
}

/// One unit on the event bus.
#[derive(Debug, PartialEq)]
pub struct Message {
    /// The type tag; always agrees with the shape of `data`.
    pub kind: MessageType,
    /// The payload.
    pub data: MessageData,
}

impl View for Message {
    type V = MessageV;

    open spec fn view(&self) -> MessageV {
        MessageV { kind: self.kind, data: self.data@ }
    }
}

impl Clone for Message {
    fn clone(&self) -> (r: Self)
        ensures
            r@ == self@,
    {
        Message { kind: self.kind, data: self.data.clone() }
    }
}

/// The type tag a message must carry for its payload's shape.
pub open spec fn data_kind(data: MessageDataV) -> MessageType {
    match data {
        MessageDataV::ConfigMessage(_) => MessageType::Config,
        MessageDataV::InputMessage(_) => MessageType::Input,
        MessageDataV::TestMessage(_) => MessageType::Test,
    }
}

/// A message is well-shaped when its type tag agrees with its payload.
pub open spec fn kind_agrees(m: MessageV) -> bool {
    m.kind == data_kind(m.data)
}

/// The envelope of an input event.
pub open spec fn input_msg_v(m: InputMessageV) -> MessageV {
    MessageV { kind: MessageType::Input, data: MessageDataV::InputMessage(m) }
}

/// The envelope of a configuration snapshot or change notification.
pub open spec fn config_msg_v(c: ConfigV) -> MessageV {
    MessageV { kind: MessageType::Config, data: MessageDataV::ConfigMessage(c) }
}

} // verus!
