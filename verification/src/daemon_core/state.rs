//! The daemon's state: the last volume it reported and the colour to show it in.
use vstd::prelude::*;

verus! {

/// How the reported volume is coloured on the status bar.
#[derive(Clone, Copy, Debug, PartialEq, Eq)]
pub enum ColorState {
    Default,
    Increased,
    Decreased,
}

/// How long an increase or a decrease stays coloured: one second, in nanoseconds.
pub const COLOR_HOLD_NANOS: u64 = 1_000_000_000;

impl ColorState {
    /// `text` in this colour, in the markup of the status bar: green for an increase,
    /// red for a decrease, uncoloured otherwise.
    pub open spec fn colored(self, text: Seq<char>) -> Seq<char> {
        match self {
            ColorState::Default => text,
            ColorState::Increased => "%{F#00ff00}"@ + text + "%{F-}"@,
            ColorState::Decreased => "%{F#ff0000}"@ + text + "%{F-}"@,
        }
    }

    pub fn apply_color(&self, text: &str) -> (r: String)
        ensures
            r@ == self.colored(text@),
    {
        match self {
            ColorState::Default => String::from_str(text),
            ColorState::Increased => {
                let mut r: String = String::from_str("%{F#00ff00}");
                r.append(text);
                r.append("%{F-}");
                r
            },
            ColorState::Decreased => {
                let mut r: String = String::from_str("%{F#ff0000}");
                r.append(text);
                r.append("%{F-}");
                r
            },
        }
    }

    pub open spec fn spec_name(self) -> Seq<char> {
        match self {
            ColorState::Default => "Default"@,
            ColorState::Increased => "Increased"@,
            ColorState::Decreased => "Decreased"@,
        }
    }

    /// The colour's name: its variant's name.
    pub fn name(&self) -> (r: &'static str)
        ensures
            r@ == self.spec_name(),
    {
        match self {
            ColorState::Default => "Default",
            ColorState::Increased => "Increased",
            ColorState::Decreased => "Decreased",
        }
    }
}

/// The last volume reported, its colour, and when the last event was handled (in
/// nanoseconds on the daemon's monotonic clock).
#[derive(Clone, Debug)]
pub struct VolumeState {
    pub color: ColorState,
    pub last_event_time: Option<u64>,
    pub volume: Option<String>,
}

#[derive(Clone, Debug)]
pub struct DaemonState {
    pub volume_state: VolumeState,
}

pub open spec fn opt_volume(v: Option<String>) -> Option<Seq<char>> {
    match v {
        Some(s) => Some(s@),
        None => None,
    }
}

/// The text that the volume endpoint answers: the last volume, or `NA` before the first,
/// in the current colour.
pub open spec fn volume_display_text(color: ColorState, volume: Option<Seq<char>>) -> Seq<char> {
    match volume {
        Some(v) => color.colored(v),
        None => color.colored("NA"@),
    }
}

/// An event handled at `last` is still coloured at `now` while no more than
/// `COLOR_HOLD_NANOS` have passed.
pub open spec fn color_expired(last: u64, now: u64) -> bool {
    now > last && now - last > COLOR_HOLD_NANOS
}

impl DaemonState {
    /// The state the daemon starts in: no volume yet, uncoloured.
    pub fn new() -> (s: DaemonState)
        ensures
            s.volume_state.color == ColorState::Default,
            s.volume_state.last_event_time is None,
            s.volume_state.volume is None,
    {
        DaemonState {
            volume_state: VolumeState { color: ColorState::Default, last_event_time: None, volume: None },
        }
    }

    /// What the volume endpoint answers.
    pub fn volume_display(&self) -> (r: String)
        ensures
            r@ == volume_display_text(self.volume_state.color, opt_volume(self.volume_state.volume)),
    {
        match &self.volume_state.volume {
            Some(v) => self.volume_state.color.apply_color(v.as_str()),
            None => self.volume_state.color.apply_color("NA"),
        }
    }

    /// Notes that an event request was handled at `now`, whatever its outcome, so that the
    /// colour reset counts from then.
    pub fn mark_event_time(&mut self, now: u64)
        ensures
            final(self).volume_state.last_event_time == Some(now),
            final(self).volume_state.color == old(self).volume_state.color,
            final(self).volume_state.volume == old(self).volume_state.volume,
    {
        self.volume_state.last_event_time = Some(now);
    }

    /// The periodic colour reset: once more than a second has passed since the last event,
    /// the colour goes back to `Default` and the event time is forgotten; otherwise nothing
    /// changes.
    pub fn clear_stale_color(&mut self, now: u64)
        ensures
            final(self).volume_state == stale_color_cleared(old(self).volume_state, now),
    {
        if let Some(last) = self.volume_state.last_event_time {
            if now > last && now - last > COLOR_HOLD_NANOS {
                self.volume_state.color = ColorState::Default;
                self.volume_state.last_event_time = None;
            }
        }
    }
}

/// `v` after the colour reset at `now`.
pub open spec fn stale_color_cleared(v: VolumeState, now: u64) -> VolumeState {
    match v.last_event_time {
        Some(last) => if color_expired(last, now) {
            VolumeState { color: ColorState::Default, last_event_time: None, ..v }
        } else {
            v
        },
        None => v,
    }
}

/// An increase is shown as the text between the green markup and the colour reset, a
/// decrease between the red markup and the colour reset, and the default colour shows the
/// text bare: the markup never depends on the text.
pub proof fn lemma_color_markup(t: Seq<char>)
    ensures
        ColorState::Increased.colored(t) == "%{F#00ff00}"@ + t + "%{F-}"@,
        ColorState::Decreased.colored(t) == "%{F#ff0000}"@ + t + "%{F-}"@,
        ColorState::Default.colored(t) == t,
{
}

/// The colour resets run at the times `times`, in order, starting from `v`.
pub open spec fn after_resets(v: VolumeState, times: Seq<u64>) -> VolumeState
    decreases times.len(),
{
    if times.len() == 0 {
        v
    } else {
        after_resets(stale_color_cleared(v, times[0]), times.drop_first())
    }
}

/// While no more than `COLOR_HOLD_NANOS` have passed since the last event, a reset leaves
/// the whole state alone, the event time included.
pub proof fn lemma_reset_waits(v: VolumeState, t: u64, now: u64)
    requires
        v.last_event_time == Some(t),
        now <= t || now - t <= COLOR_HOLD_NANOS,
    ensures
        stale_color_cleared(v, now) == v,
{
}

/// A reset never changes the volume, and without an event time it changes nothing.
pub proof fn lemma_reset_keeps_volume(v: VolumeState, now: u64)
    ensures
        stale_color_cleared(v, now).volume == v.volume,
        v.last_event_time is None ==> stale_color_cleared(v, now) == v,
        stale_color_cleared(v, now).color == v.color || stale_color_cleared(v, now).color
            == ColorState::Default,
{
}

/// After an event at `t`, any run of resets that includes one at a time more than
/// `COLOR_HOLD_NANOS` after `t` leaves the volume uncoloured and forgets the event time,
/// whatever resets ran before it; a run of resets that includes none leaves the state alone.
pub proof fn lemma_resets_clear_after_hold(v: VolumeState, t: u64, times: Seq<u64>)
    requires
        v.last_event_time == Some(t),
    ensures
        after_resets(v, times).volume == v.volume,
        (exists|i: int| 0 <= i < times.len() && #[trigger] times[i] > t && times[i] - t > COLOR_HOLD_NANOS)
            ==> after_resets(v, times).color == ColorState::Default
            && after_resets(v, times).last_event_time is None,
        (forall|i: int| 0 <= i < times.len() ==> #[trigger] times[i] <= t || times[i] - t <= COLOR_HOLD_NANOS)
            ==> after_resets(v, times) == v,
    decreases times.len(),
{
    if times.len() > 0 {
        let w = stale_color_cleared(v, times[0]);
        if times[0] > t && times[0] - t > COLOR_HOLD_NANOS {
            lemma_resets_after_clear(w, times.drop_first());
        } else {
            lemma_reset_waits(v, t, times[0]);
            lemma_resets_clear_after_hold(v, t, times.drop_first());
            if exists|i: int| 0 <= i < times.len() && #[trigger] times[i] > t && times[i] - t > COLOR_HOLD_NANOS {
                let i = choose|i: int| 0 <= i < times.len() && #[trigger] times[i] > t && times[i] - t > COLOR_HOLD_NANOS;
                assert(times.drop_first()[i - 1] == times[i]);
            }
            if forall|i: int| 0 <= i < times.len() ==> #[trigger] times[i] <= t || times[i] - t <= COLOR_HOLD_NANOS {
                assert forall|i: int| 0 <= i < times.drop_first().len() implies #[trigger] times.drop_first()[i] <= t
                    || times.drop_first()[i] - t <= COLOR_HOLD_NANOS by {
                    assert(times.drop_first()[i] == times[i + 1]);
                }
            }
        }
    }
}

proof fn lemma_resets_after_clear(w: VolumeState, times: Seq<u64>)
    requires
        w.last_event_time is None,
    ensures
        after_resets(w, times) == w,
    decreases times.len(),
{
    if times.len() > 0 {
        lemma_resets_after_clear(stale_color_cleared(w, times[0]), times.drop_first());
    }
}


/// The volume endpoint answers the last volume in the current colour, and `NA` in the current
/// colour before any volume is known.
pub proof fn lemma_volume_display(color: ColorState, volume: Option<Seq<char>>)
    ensures
        volume is Some ==> volume_display_text(color, volume) == color.colored(volume->0),
        volume is None ==> volume_display_text(color, volume) == color.colored("NA"@),
{
}

} // verus!
