//! The closed set of message kinds, the categories they fall into, and the
//! names under which both are known to callers.

use vstd::prelude::*;

verus! {

/// The family a message kind belongs to.
#[derive(Debug, Clone, Copy, PartialEq, Eq, Structural)]
pub enum Category {
    ChannelVoice,
    ChannelMode,
    SystemCommon,
    SystemRealtime,
    Unknown,
}

/// One tag per message kind: the concrete kinds, then the two sentinels.
#[derive(Debug, Clone, Copy, PartialEq, Eq, Structural)]
pub enum Kind {
    NoteOff,
    NoteOn,
    PolyAfterTouch,
    ControlChange,
    ProgramChange,
    AfterTouch,
    PitchBend,
    AllSoundOff,
    ResetAllControllers,
    LocalControl,
    AllNotesOff,
    OmniModeOff,
    OmniModeOn,
    MonoModeOn,
    PolyModeOn,
    SystemExclusive,
    TimeCodeQuarterFrame,
    SongPosition,
    SongSelect,
    TuneRequest,
    EndOfExclusive,
    TimingClock,
    Start,
    Continue,
    Stop,
    ActiveSensing,
    Reset,
    Undefined,
    Malformed,
}

impl Category {
    /// The name of the category as callers spell it.
    pub open spec fn spec_name(self) -> &'static str {
        match self {
            Category::ChannelVoice => "channel_voice",
            Category::ChannelMode => "channel_mode",
            Category::SystemCommon => "system_common",
            Category::SystemRealtime => "system_realtime",
            Category::Unknown => "unknown",
        }
    }

    /// The name of the category as callers spell it.
    #[verifier::when_used_as_spec(spec_name)]
    pub fn name(self) -> (name: &'static str)
        ensures
            name@ == self.spec_name()@,
    {
        match self {
            Category::ChannelVoice => "channel_voice",
            Category::ChannelMode => "channel_mode",
            Category::SystemCommon => "system_common",
            Category::SystemRealtime => "system_realtime",
            Category::Unknown => "unknown",
        }
    }
}

impl Kind {
    /// The category of a kind. Only the two sentinels are `Unknown`.
    pub open spec fn spec_category(self) -> Category {
        match self {
            Kind::NoteOff
            | Kind::NoteOn
            | Kind::PolyAfterTouch
            | Kind::ControlChange
            | Kind::ProgramChange
            | Kind::AfterTouch
            | Kind::PitchBend => Category::ChannelVoice,
            Kind::AllSoundOff
            | Kind::ResetAllControllers
            | Kind::LocalControl
            | Kind::AllNotesOff
            | Kind::OmniModeOff
            | Kind::OmniModeOn
            | Kind::MonoModeOn
            | Kind::PolyModeOn => Category::ChannelMode,
            Kind::SystemExclusive
            | Kind::TimeCodeQuarterFrame
            | Kind::SongPosition
            | Kind::SongSelect
            | Kind::TuneRequest
            | Kind::EndOfExclusive => Category::SystemCommon,
            Kind::TimingClock
            | Kind::Start
            | Kind::Continue
            | Kind::Stop
            | Kind::ActiveSensing
            | Kind::Reset => Category::SystemRealtime,
            Kind::Undefined | Kind::Malformed => Category::Unknown,
        }
    }

    /// Whether the kind is one of the concrete kinds rather than a sentinel.
    pub open spec fn spec_is_concrete(self) -> bool {
        self != Kind::Undefined && self != Kind::Malformed
    }

    /// The name of the kind as callers spell it: lower case, words joined by underscores.
    pub open spec fn spec_name(self) -> &'static str {
        match self {
            Kind::NoteOff => "note_off",
            Kind::NoteOn => "note_on",
            Kind::PolyAfterTouch => "poly_after_touch",
            Kind::ControlChange => "control_change",
            Kind::ProgramChange => "program_change",
            Kind::AfterTouch => "after_touch",
            Kind::PitchBend => "pitch_bend",
            Kind::AllSoundOff => "all_sound_off",
            Kind::ResetAllControllers => "reset_all_controllers",
            Kind::LocalControl => "local_control",
            Kind::AllNotesOff => "all_notes_off",
            Kind::OmniModeOff => "omni_mode_off",
            Kind::OmniModeOn => "omni_mode_on",
            Kind::MonoModeOn => "mono_mode_on",
            Kind::PolyModeOn => "poly_mode_on",
            Kind::SystemExclusive => "system_exclusive",
            Kind::TimeCodeQuarterFrame => "time_code_quarter_frame",
            Kind::SongPosition => "song_position",
            Kind::SongSelect => "song_select",
            Kind::TuneRequest => "tune_request",
            Kind::EndOfExclusive => "end_of_exclusive",
            Kind::TimingClock => "timing_clock",
            Kind::Start => "start",
            Kind::Continue => "continue",
            Kind::Stop => "stop",
            Kind::ActiveSensing => "active_sensing",
            Kind::Reset => "reset",
            Kind::Undefined => "undefined",
            Kind::Malformed => "malformed",
        }
    }

    /// The category of a kind.
    #[verifier::when_used_as_spec(spec_category)]
    pub fn category(self) -> (category: Category)
        ensures
            category == self.spec_category(),
    {
        match self {
            Kind::NoteOff
            | Kind::NoteOn
            | Kind::PolyAfterTouch
            | Kind::ControlChange
            | Kind::ProgramChange
            | Kind::AfterTouch
            | Kind::PitchBend => Category::ChannelVoice,
            Kind::AllSoundOff
            | Kind::ResetAllControllers
            | Kind::LocalControl
            | Kind::AllNotesOff
            | Kind::OmniModeOff
            | Kind::OmniModeOn
            | Kind::MonoModeOn
            | Kind::PolyModeOn => Category::ChannelMode,
            Kind::SystemExclusive
            | Kind::TimeCodeQuarterFrame
            | Kind::SongPosition
            | Kind::SongSelect
            | Kind::TuneRequest
            | Kind::EndOfExclusive => Category::SystemCommon,
            Kind::TimingClock
            | Kind::Start
            | Kind::Continue
            | Kind::Stop
            | Kind::ActiveSensing
            | Kind::Reset => Category::SystemRealtime,
            Kind::Undefined | Kind::Malformed => Category::Unknown,
        }
    }

    /// Whether the kind is one of the concrete kinds rather than a sentinel.
    #[verifier::when_used_as_spec(spec_is_concrete)]
    pub fn is_concrete(self) -> (concrete: bool)
        ensures
            concrete == self.spec_is_concrete(),
    {
        match self {
            Kind::Undefined | Kind::Malformed => false,
            _ => true,
        }
    }

    /// The name of the kind as callers spell it.
    #[verifier::when_used_as_spec(spec_name)]
    pub fn name(self) -> (name: &'static str)
        ensures
            name@ == self.spec_name()@,
    {
        match self {
            Kind::NoteOff => "note_off",
            Kind::NoteOn => "note_on",
            Kind::PolyAfterTouch => "poly_after_touch",
            Kind::ControlChange => "control_change",
            Kind::ProgramChange => "program_change",
            Kind::AfterTouch => "after_touch",
            Kind::PitchBend => "pitch_bend",
            Kind::AllSoundOff => "all_sound_off",
            Kind::ResetAllControllers => "reset_all_controllers",
            Kind::LocalControl => "local_control",
            Kind::AllNotesOff => "all_notes_off",
            Kind::OmniModeOff => "omni_mode_off",
            Kind::OmniModeOn => "omni_mode_on",
            Kind::MonoModeOn => "mono_mode_on",
            Kind::PolyModeOn => "poly_mode_on",
            Kind::SystemExclusive => "system_exclusive",
            Kind::TimeCodeQuarterFrame => "time_code_quarter_frame",
            Kind::SongPosition => "song_position",
            Kind::SongSelect => "song_select",
            Kind::TuneRequest => "tune_request",
            Kind::EndOfExclusive => "end_of_exclusive",
            Kind::TimingClock => "timing_clock",
            Kind::Start => "start",
            Kind::Continue => "continue",
            Kind::Stop => "stop",
            Kind::ActiveSensing => "active_sensing",
            Kind::Reset => "reset",
            Kind::Undefined => "undefined",
            Kind::Malformed => "malformed",
        }
    }
}

impl Category {
    /// Every category, in the order in which callers list them.
    pub open spec fn spec_all() -> Seq<Category> {
        seq![
            Category::ChannelVoice,
            Category::ChannelMode,
            Category::SystemCommon,
            Category::SystemRealtime,
            Category::Unknown,
        ]
    }

    /// The place of the category in the list of all categories.
    pub open spec fn index(self) -> int {
        match self {
            Category::ChannelVoice => 0,
            Category::ChannelMode => 1,
            Category::SystemCommon => 2,
            Category::SystemRealtime => 3,
            Category::Unknown => 4,
        }
    }

    /// Every category, in the order in which callers list them.
    pub fn all() -> (categories: Vec<Category>)
        ensures
            categories@ == Category::spec_all(),
    {
        let categories = vec![
            Category::ChannelVoice,
            Category::ChannelMode,
            Category::SystemCommon,
            Category::SystemRealtime,
            Category::Unknown,
        ];
        proof {
            assert(categories@ =~= Category::spec_all());
        }
        categories
    }

    /// Every category is listed, once, at its own place.
    pub proof fn lemma_listed(self)
        ensures
            0 <= self.index() < Category::spec_all().len(),
            Category::spec_all()[self.index()] == self,
            forall|i: int|
                0 <= i < Category::spec_all().len() && #[trigger] Category::spec_all()[i] == self
                    ==> i == self.index(),
    {
    }
}

impl Kind {
    /// Every kind, in the order in which callers list them: the concrete
    /// kinds, then the two sentinels.
    pub open spec fn spec_all() -> Seq<Kind> {
        seq![
            Kind::NoteOff,
            Kind::NoteOn,
            Kind::PolyAfterTouch,
            Kind::ControlChange,
            Kind::ProgramChange,
            Kind::AfterTouch,
            Kind::PitchBend,
            Kind::AllSoundOff,
            Kind::ResetAllControllers,
            Kind::LocalControl,
            Kind::AllNotesOff,
            Kind::OmniModeOff,
            Kind::OmniModeOn,
            Kind::MonoModeOn,
            Kind::PolyModeOn,
            Kind::SystemExclusive,
            Kind::TimeCodeQuarterFrame,
            Kind::SongPosition,
            Kind::SongSelect,
            Kind::TuneRequest,
            Kind::EndOfExclusive,
            Kind::TimingClock,
            Kind::Start,
            Kind::Continue,
            Kind::Stop,
            Kind::ActiveSensing,
            Kind::Reset,
            Kind::Undefined,
            Kind::Malformed,
        ]
    }

    /// The place of the kind in the list of all kinds.
    pub open spec fn index(self) -> int {
        match self {
            Kind::NoteOff => 0,
            Kind::NoteOn => 1,
            Kind::PolyAfterTouch => 2,
            Kind::ControlChange => 3,
            Kind::ProgramChange => 4,
            Kind::AfterTouch => 5,
            Kind::PitchBend => 6,
            Kind::AllSoundOff => 7,
            Kind::ResetAllControllers => 8,
            Kind::LocalControl => 9,
            Kind::AllNotesOff => 10,
            Kind::OmniModeOff => 11,
            Kind::OmniModeOn => 12,
            Kind::MonoModeOn => 13,
            Kind::PolyModeOn => 14,
            Kind::SystemExclusive => 15,
            Kind::TimeCodeQuarterFrame => 16,
            Kind::SongPosition => 17,
            Kind::SongSelect => 18,
            Kind::TuneRequest => 19,
            Kind::EndOfExclusive => 20,
            Kind::TimingClock => 21,
            Kind::Start => 22,
            Kind::Continue => 23,
            Kind::Stop => 24,
            Kind::ActiveSensing => 25,
            Kind::Reset => 26,
            Kind::Undefined => 27,
            Kind::Malformed => 28,
        }
    }

    /// Every kind, in the order in which callers list them.
    pub fn all() -> (kinds: Vec<Kind>)
        ensures
            kinds@ == Kind::spec_all(),
    {
        let kinds = vec![
            Kind::NoteOff,
            Kind::NoteOn,
            Kind::PolyAfterTouch,
            Kind::ControlChange,
            Kind::ProgramChange,
            Kind::AfterTouch,
            Kind::PitchBend,
            Kind::AllSoundOff,
            Kind::ResetAllControllers,
            Kind::LocalControl,
            Kind::AllNotesOff,
            Kind::OmniModeOff,
            Kind::OmniModeOn,
            Kind::MonoModeOn,
            Kind::PolyModeOn,
            Kind::SystemExclusive,
            Kind::TimeCodeQuarterFrame,
            Kind::SongPosition,
            Kind::SongSelect,
            Kind::TuneRequest,
            Kind::EndOfExclusive,
            Kind::TimingClock,
            Kind::Start,
            Kind::Continue,
            Kind::Stop,
            Kind::ActiveSensing,
            Kind::Reset,
            Kind::Undefined,
            Kind::Malformed,
        ];
        proof {
            assert(kinds@ =~= Kind::spec_all());
        }
        kinds
    }

    /// Every kind is listed, once, at its own place.
    pub proof fn lemma_listed(self)
        ensures
            0 <= self.index() < Kind::spec_all().len(),
            Kind::spec_all()[self.index()] == self,
            forall|i: int|
                0 <= i < Kind::spec_all().len() && #[trigger] Kind::spec_all()[i] == self ==> i
                    == self.index(),
    {
    }
}

/// The names of all kinds, in the order of `Kind::all`.
pub fn type_names() -> (names: Vec<&'static str>)
    ensures
        names@.len() == Kind::spec_all().len(),
        forall|i: int|
            0 <= i < names@.len() ==> (#[trigger] names@[i])@ == Kind::spec_all()[i].spec_name()@,
{
    let kinds = Kind::all();
    let mut names: Vec<&'static str> = Vec::new();
    let mut i: usize = 0;
    while i < kinds.len()
        invariant
            kinds@ == Kind::spec_all(),
            i <= kinds@.len(),
            names@.len() == i,
            forall|j: int| 0 <= j < i ==> (#[trigger] names@[j])@ == kinds@[j].spec_name()@,
        decreases kinds@.len() - i,
    {
        names.push(kinds[i].name());
        i += 1;
    }
    names
}

/// The names of all categories, in the order of `Category::all`.
pub fn category_names() -> (names: Vec<&'static str>)
    ensures
        names@.len() == Category::spec_all().len(),
        forall|i: int|
            0 <= i < names@.len() ==> (#[trigger] names@[i])@
                == Category::spec_all()[i].spec_name()@,
{
    let categories = Category::all();
    let mut names: Vec<&'static str> = Vec::new();
    let mut i: usize = 0;
    while i < categories.len()
        invariant
            categories@ == Category::spec_all(),
            i <= categories@.len(),
            names@.len() == i,
            forall|j: int| 0 <= j < i ==> (#[trigger] names@[j])@ == categories@[j].spec_name()@,
        decreases categories@.len() - i,
    {
        names.push(categories[i].name());
        i += 1;
    }
    names
}

impl Category {
    /// No two categories share a name.
    pub proof fn lemma_names_differ(self, other: Category)
        requires
            self.spec_name()@ == other.spec_name()@,
        ensures
            self == other,
    {
        reveal_strlit("channel_voice");
        reveal_strlit("channel_mode");
        reveal_strlit("system_common");
        reveal_strlit("system_realtime");
        reveal_strlit("unknown");
        let a = self.spec_name()@;
        let b = other.spec_name()@;
        assert(a.len() == b.len());
        assert(a[0] == b[0]);
    }
}

impl Kind {
    /// No two kinds share a name.
    pub proof fn lemma_names_differ(self, other: Kind)
        requires
            self.spec_name()@ == other.spec_name()@,
        ensures
            self == other,
    {
        reveal_strlit("note_off");
        reveal_strlit("note_on");
        reveal_strlit("poly_after_touch");
        reveal_strlit("control_change");
        reveal_strlit("program_change");
        reveal_strlit("after_touch");
        reveal_strlit("pitch_bend");
        reveal_strlit("all_sound_off");
        reveal_strlit("reset_all_controllers");
        reveal_strlit("local_control");
        reveal_strlit("all_notes_off");
        reveal_strlit("omni_mode_off");
        reveal_strlit("omni_mode_on");
        reveal_strlit("mono_mode_on");
        reveal_strlit("poly_mode_on");
        reveal_strlit("system_exclusive");
        reveal_strlit("time_code_quarter_frame");
        reveal_strlit("song_position");
        reveal_strlit("song_select");
        reveal_strlit("tune_request");
        reveal_strlit("end_of_exclusive");
        reveal_strlit("timing_clock");
        reveal_strlit("start");
        reveal_strlit("continue");
        reveal_strlit("stop");
        reveal_strlit("active_sensing");
        reveal_strlit("reset");
        reveal_strlit("undefined");
        reveal_strlit("malformed");
        let a = self.spec_name()@;
        let b = other.spec_name()@;
        assert(a.len() == b.len());
        assert(a[0] == b[0]);
        if a.len() > 4 {
            assert(a[4] == b[4]);
        }
    }
}

} // verus!
