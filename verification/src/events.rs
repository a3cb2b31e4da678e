//! The events read from the daemon's event FIFO, and the messages of its loop.
use vstd::prelude::*;

verus! {

/// An event written to the daemon's event FIFO.
#[derive(Clone, Copy, Debug, PartialEq, Eq)]
pub enum EventType {
    VolumeUp,
    VolumeDown,
    MuteToggle,
}

impl EventType {
    pub open spec fn spec_name(self) -> Seq<char> {
        match self {
            EventType::VolumeUp => "VolumeUp"@,
            EventType::VolumeDown => "VolumeDown"@,
            EventType::MuteToggle => "MuteToggle"@,
        }
    }

    /// The event named `s`, if there is one; names are matched exactly.
    pub open spec fn spec_parse(s: Seq<char>) -> Option<EventType> {
        if s == "VolumeUp"@ {
            Some(EventType::VolumeUp)
        } else if s == "VolumeDown"@ {
            Some(EventType::VolumeDown)
        } else if s == "MuteToggle"@ {
            Some(EventType::MuteToggle)
        } else {
            None
        }
    }

    /// The event's name, as it is written in a message: its variant's name.
    pub fn name(&self) -> (r: &'static str)
        ensures
            r@ == self.spec_name(),
    {
        match self {
            EventType::VolumeUp => "VolumeUp",
            EventType::VolumeDown => "VolumeDown",
            EventType::MuteToggle => "MuteToggle",
        }
    }

    /// Reads an event from its name.
    pub fn parse(s: &str) -> (r: Option<EventType>)
        ensures
            r == Self::spec_parse(s@),
    {
        let given: String = String::from_str(s);
        if given == String::from_str("VolumeUp") {
            Some(EventType::VolumeUp)
        } else if given == String::from_str("VolumeDown") {
            Some(EventType::VolumeDown)
        } else if given == String::from_str("MuteToggle") {
            Some(EventType::MuteToggle)
        } else {
            None
        }
    }

    /// The events are named `VolumeUp`, `VolumeDown` and `MuteToggle`, and each of those
    /// names reads as its event.
    pub proof fn lemma_names()
        ensures
            EventType::VolumeUp.spec_name() == "VolumeUp"@,
            EventType::VolumeDown.spec_name() == "VolumeDown"@,
            EventType::MuteToggle.spec_name() == "MuteToggle"@,
            Self::spec_parse("VolumeUp"@) == Some(EventType::VolumeUp),
            Self::spec_parse("VolumeDown"@) == Some(EventType::VolumeDown),
            Self::spec_parse("MuteToggle"@) == Some(EventType::MuteToggle),
    {
        Self::lemma_name_parses_back(EventType::VolumeUp);
        Self::lemma_name_parses_back(EventType::VolumeDown);
        Self::lemma_name_parses_back(EventType::MuteToggle);
    }

    /// Different events have different names.
    pub proof fn lemma_names_differ(e1: EventType, e2: EventType)
        requires
            e1 != e2,
        ensures
            e1.spec_name() != e2.spec_name(),
    {
        Self::lemma_name_parses_back(e1);
        Self::lemma_name_parses_back(e2);
    }

    /// An event's name reads back as that event.
    pub proof fn lemma_name_parses_back(e: EventType)
        ensures
            Self::spec_parse(e.spec_name()) == Some(e),
    {
        reveal_strlit("VolumeUp");
        reveal_strlit("VolumeDown");
        reveal_strlit("MuteToggle");
        assert("VolumeUp"@[6] != "VolumeDown"@[6]);
        assert("VolumeUp"@.len() != "MuteToggle"@.len());
        assert("VolumeDown"@[0] != "MuteToggle"@[0]);
    }
}

/// What the daemon's loop is told: an event to handle, or that the colour is to be cleared.
pub enum DaemonMessage {
    Event(EventType),
    ClearColor,
}

} // verus!
