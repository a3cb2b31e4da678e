//! The events that the daemon is asked to handle.
use vstd::prelude::*;

verus! {

/// An audio event that the daemon is asked to handle.
#[derive(Clone, Copy, Debug, PartialEq, Eq)]
pub enum AudioEventType {
    VolumeUp,
    VolumeDown,
    MuteToggle,
}

impl AudioEventType {
    pub open spec fn spec_name(self) -> Seq<char> {
        match self {
            AudioEventType::VolumeUp => "VolumeUp"@,
            AudioEventType::VolumeDown => "VolumeDown"@,
            AudioEventType::MuteToggle => "MuteToggle"@,
        }
    }

    /// The event named `s`, if there is one; names are matched exactly.
    pub open spec fn spec_parse(s: Seq<char>) -> Option<AudioEventType> {
        if s == "VolumeUp"@ {
            Some(AudioEventType::VolumeUp)
        } else if s == "VolumeDown"@ {
            Some(AudioEventType::VolumeDown)
        } else if s == "MuteToggle"@ {
            Some(AudioEventType::MuteToggle)
        } else {
            None
        }
    }

    /// The event's name, as it is written in a message: its variant's name.
    pub fn name(&self) -> (r: &'static str)
        ensures
            r@ == self.spec_name(),
    {
        match self {
            AudioEventType::VolumeUp => "VolumeUp",
            AudioEventType::VolumeDown => "VolumeDown",
            AudioEventType::MuteToggle => "MuteToggle",
        }
    }

    /// Reads an event from its name.
    pub fn parse(s: &str) -> (r: Option<AudioEventType>)
        ensures
            r == Self::spec_parse(s@),
    {
        let given: String = String::from_str(s);
        if given == String::from_str("VolumeUp") {
            Some(AudioEventType::VolumeUp)
        } else if given == String::from_str("VolumeDown") {
            Some(AudioEventType::VolumeDown)
        } else if given == String::from_str("MuteToggle") {
            Some(AudioEventType::MuteToggle)
        } else {
            None
        }
    }

    /// The events are named `VolumeUp`, `VolumeDown` and `MuteToggle`, and each of those
    /// names reads as its event.
    pub proof fn lemma_names()
        ensures
            AudioEventType::VolumeUp.spec_name() == "VolumeUp"@,
            AudioEventType::VolumeDown.spec_name() == "VolumeDown"@,
            AudioEventType::MuteToggle.spec_name() == "MuteToggle"@,
            Self::spec_parse("VolumeUp"@) == Some(AudioEventType::VolumeUp),
            Self::spec_parse("VolumeDown"@) == Some(AudioEventType::VolumeDown),
            Self::spec_parse("MuteToggle"@) == Some(AudioEventType::MuteToggle),
    {
        Self::lemma_name_parses_back(AudioEventType::VolumeUp);
        Self::lemma_name_parses_back(AudioEventType::VolumeDown);
        Self::lemma_name_parses_back(AudioEventType::MuteToggle);
    }

    /// Different events have different names.
    pub proof fn lemma_names_differ(e1: AudioEventType, e2: AudioEventType)
        requires
            e1 != e2,
        ensures
            e1.spec_name() != e2.spec_name(),
    {
        Self::lemma_name_parses_back(e1);
        Self::lemma_name_parses_back(e2);
    }

    /// An event's name reads back as that event.
    pub proof fn lemma_name_parses_back(e: AudioEventType)
        ensures
            Self::spec_parse(e.spec_name()) == Some(e),
    {
        reveal_strlit("VolumeUp");
        reveal_strlit("VolumeDown");
        reveal_strlit("MuteToggle");
        assert("VolumeUp"@[6] != "VolumeDown"@[6]);
        assert("VolumeUp"@.len() != "MuteToggle"@.len());
        assert("VolumeDown"@[0] != "MuteToggle"@[0]);
    }
}

} // verus!
