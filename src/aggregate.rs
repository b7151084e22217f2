use vstd::prelude::*;

verus! {

/// An event proposed by `decide`: its type name and opaque payload.
#[derive(Clone, Debug, PartialEq, Eq)]
pub struct Event {
    pub event_type: String,
    pub payload: Vec<u8>,
}

/// A borrowed view of an event.
#[derive(Clone, Copy)]
pub struct EventRef<'a> {
    pub event_type: &'a str,
    pub payload: &'a [u8],
}

/// An event as handed to the guest's `replay` operation.
#[derive(Clone, Copy, Debug)]
pub struct EventParam<'a> {
    pub event_type: &'a str,
    pub payload: &'a [u8],
}

/// An event as returned by the guest's `decide` operation.
#[derive(Clone, Debug)]
pub struct EventResult {
    pub event_type: String,
    pub payload: Vec<u8>,
}

/// A command as handed to the guest's `decide` operation.
#[derive(Clone, Copy, Debug)]
pub struct Command<'a> {
    pub command: &'a str,
    pub payload: &'a [u8],
}

/// What an event is, in contracts: its type name and payload.
pub struct EventView {
    pub event_type: Seq<char>,
    pub payload: Seq<u8>,
}

impl View for Event {
    type V = EventView;

    open spec fn view(&self) -> EventView {
        EventView { event_type: self.event_type@, payload: self.payload@ }
    }
}

impl<'a> View for EventRef<'a> {
    type V = EventView;

    open spec fn view(&self) -> EventView {
        EventView { event_type: self.event_type@, payload: self.payload@ }
    }
}

impl<'a> View for EventParam<'a> {
    type V = EventView;

    open spec fn view(&self) -> EventView {
        EventView { event_type: self.event_type@, payload: self.payload@ }
    }
}

impl View for EventResult {
    type V = EventView;

    open spec fn view(&self) -> EventView {
        EventView { event_type: self.event_type@, payload: self.payload@ }
    }
}

impl Event {
    /// Borrows the event's fields.
    pub fn as_ref(&self) -> (r: EventRef<'_>)
        ensures
            r@ == self@,
    {
        EventRef { event_type: self.event_type.as_str(), payload: self.payload.as_slice() }
    }
}

impl From<EventResult> for Event {
    fn from(event: EventResult) -> (r: Event) {
        Event { event_type: event.event_type, payload: event.payload }
    }
}

impl vstd::std_specs::convert::FromSpecImpl<EventResult> for Event {
    open spec fn obeys_from_spec() -> bool {
        true
    }

    open spec fn from_spec(event: EventResult) -> Event {
        Event { event_type: event.event_type, payload: event.payload }
    }
}

impl<'a> From<EventRef<'a>> for EventParam<'a> {
    fn from(event: EventRef<'a>) -> (r: EventParam<'a>) {
        EventParam { event_type: event.event_type, payload: event.payload }
    }
}

impl<'a> vstd::std_specs::convert::FromSpecImpl<EventRef<'a>> for EventParam<'a> {
    open spec fn obeys_from_spec() -> bool {
        true
    }

    open spec fn from_spec(event: EventRef<'a>) -> EventParam<'a> {
        EventParam { event_type: event.event_type, payload: event.payload }
    }
}

/// A failure reported by the guest's own logic.
#[derive(Clone, Debug, PartialEq, Eq)]
pub enum Error {
    Command(String),
    Custom(String),
    DeserializeCommand(String),
    DeserializeEvent(String),
    DeserializeState(String),
    SerializeCommand(String),
    SerializeEvent(String),
    SerializeState(String),
    UnknownCommand,
    UnknownEvent,
}

/// The human-readable text of a domain error.
pub open spec fn error_text(e: Error) -> Seq<char> {
    match e {
        Error::Command(m) => "command failed: "@ + m@,
        Error::Custom(m) => "error: "@ + m@,
        Error::DeserializeCommand(m) => "deserialize command failed: "@ + m@,
        Error::DeserializeEvent(m) => "deserialize event failed: "@ + m@,
        Error::DeserializeState(m) => "deserialize state failed: "@ + m@,
        Error::SerializeCommand(m) => "serialize command failed: "@ + m@,
        Error::SerializeEvent(m) => "serialize event failed: "@ + m@,
        Error::SerializeState(m) => "serialize state failed: "@ + m@,
        Error::UnknownCommand => "unknown command"@,
        Error::UnknownEvent => "unknown event"@,
    }
}

impl Error {
    /// The error's text: a prefix naming the kind, then the guest's message.
    pub fn message(&self) -> (r: String)
        ensures
            r@ == error_text(*self),
    {
        match self {
            Error::Command(m) => String::from_str("command failed: ").concat(m.as_str()),
            Error::Custom(m) => String::from_str("error: ").concat(m.as_str()),
            Error::DeserializeCommand(m) => String::from_str("deserialize command failed: ").concat(
                m.as_str(),
            ),
            Error::DeserializeEvent(m) => String::from_str("deserialize event failed: ").concat(
                m.as_str(),
            ),
            Error::DeserializeState(m) => String::from_str("deserialize state failed: ").concat(
                m.as_str(),
            ),
            Error::SerializeCommand(m) => String::from_str("serialize command failed: ").concat(
                m.as_str(),
            ),
            Error::SerializeEvent(m) => String::from_str("serialize event failed: ").concat(
                m.as_str(),
            ),
            Error::SerializeState(m) => String::from_str("serialize state failed: ").concat(
                m.as_str(),
            ),
            Error::UnknownCommand => String::from_str("unknown command"),
            Error::UnknownEvent => String::from_str("unknown event"),
        }
    }
}

} // verus!
