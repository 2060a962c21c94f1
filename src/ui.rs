//! Decisions of the input controller: how knob level and button chords update the
//! levels and the frame rate, which shared writes follow, and what is logged.

use vstd::prelude::*;

use crate::rgb::{valid_frame_rate, valid_levels, CHANNELS};
use crate::{DEFAULT_FRAME_RATE, LEVELS};

verus! {

/// Frame rate step per knob level.
pub const FRAME_RATE_STEP: u64 = 10;

/// One line of the diagnostic log.
#[derive(Clone, Copy, Debug, PartialEq, Eq)]
pub enum LogLine {
    /// An empty separator line.
    Blank,
    /// The level of one channel, in a state dump.
    Level { channel: usize, level: u32 },
    /// The frame rate, in a state dump.
    FrameRate(u64),
    /// The knob level read in this poll.
    Knob(u32),
    /// The frame rate was changed to this value.
    SetFrameRate(u64),
    /// The button chord that selected a channel (pressed or not, for each button).
    Buttons { a_down: bool, b_down: bool },
    /// A channel was changed to a new level.
    SetChannel { channel: usize, level: u32 },
}

/// What the controller writes to the shared values after one decision.
#[derive(Clone, Copy, Debug, PartialEq, Eq)]
pub enum SharedWrite {
    /// Nothing changed: no write.
    Nothing,
    /// Store this frame rate.
    FrameRate(u64),
    /// Store this level triple.
    Levels([u32; 3]),
}

/// The outcome of one decision: the shared write to perform and the lines to log.
pub struct UiStep {
    pub write: SharedWrite,
    pub log: Vec<LogLine>,
}

/// Frame rate selected by a knob level: `(1 + level) * 10`.
pub open spec fn frame_rate_for(level: int) -> int {
    (1 + level) * FRAME_RATE_STEP
}

/// Channel a button chord selects, when at least one button is down:
/// A alone selects blue, B alone green, both red.
pub open spec fn chord_channel(a_down: bool, b_down: bool) -> int {
    if a_down && b_down {
        0
    } else if b_down {
        1
    } else {
        2
    }
}

/// The levels after one poll with the knob at `level`.
pub open spec fn next_levels(levels: Seq<u32>, level: u32, a_down: bool, b_down: bool) -> Seq<u32> {
    if !a_down && !b_down {
        levels
    } else {
        levels.update(chord_channel(a_down, b_down), level)
    }
}

/// The frame rate after one poll with the knob at `level`.
pub open spec fn next_frame_rate(frame_rate: u64, level: u32, a_down: bool, b_down: bool) -> int {
    if !a_down && !b_down {
        frame_rate_for(level as int)
    } else {
        frame_rate as int
    }
}

/// The state dump: a blank line, the three levels, then the frame rate.
pub open spec fn show_log(levels: Seq<u32>, frame_rate: u64) -> Seq<LogLine> {
    seq![
        LogLine::Blank,
        LogLine::Level { channel: 0, level: levels[0] },
        LogLine::Level { channel: 1, level: levels[1] },
        LogLine::Level { channel: 2, level: levels[2] },
        LogLine::FrameRate(frame_rate),
    ]
}

/// Lines logged when channel `channel` is set to `level`: nothing when it already has
/// that level, else the change followed by a dump of the new state.
pub open spec fn channel_log(levels: Seq<u32>, frame_rate: u64, channel: int, level: u32) -> Seq<LogLine> {
    if levels[channel] == level {
        seq![]
    } else {
        seq![LogLine::SetChannel { channel: channel as usize, level }]
            + show_log(levels.update(channel, level), frame_rate)
    }
}

/// Lines logged by one poll.
pub open spec fn poll_log(
    levels: Seq<u32>,
    frame_rate: u64,
    level: u32,
    a_down: bool,
    b_down: bool,
) -> Seq<LogLine> {
    seq![LogLine::Knob(level)] + if !a_down && !b_down {
        if frame_rate_for(level as int) != frame_rate {
            seq![LogLine::SetFrameRate(frame_rate_for(level as int) as u64)]
        } else {
            seq![]
        }
    } else {
        seq![LogLine::Buttons { a_down, b_down }] + channel_log(
            levels,
            frame_rate,
            chord_channel(a_down, b_down),
            level,
        )
    }
}

/// Controller-local copy of the levels and frame rate, used to detect changes.
#[derive(Clone, Copy, Debug)]
pub struct UiState {
    pub levels: [u32; 3],
    pub frame_rate: u64,
}

impl UiState {
    /// Levels in range and a frame rate the driver accepts.
    pub open spec fn wf(&self) -> bool {
        &&& valid_levels(self.levels)
        &&& valid_frame_rate(self.frame_rate)
    }

    /// The state dump for the diagnostic log.
    pub fn show(&self) -> (lines: Vec<LogLine>)
        ensures
            lines@ == show_log(self.levels@, self.frame_rate),
    {
        let mut lines: Vec<LogLine> = Vec::new();
        lines.push(LogLine::Blank);
        let mut i: usize = 0;
        while i < CHANNELS
            invariant
                i <= CHANNELS,
                lines@.len() == i + 1,
                lines@[0] == LogLine::Blank,
                forall|j: int| 0 <= j < i ==> #[trigger] lines@[j + 1] == (LogLine::Level { channel: j as usize, level: self.levels@[j] }),
            decreases CHANNELS - i,
        {
            lines.push(LogLine::Level { channel: i, level: self.levels[i] });
            i = i + 1;
        }
        lines.push(LogLine::FrameRate(self.frame_rate));
        assert(lines@ =~= show_log(self.levels@, self.frame_rate)) by {
            assert(lines@[0int + 1] == lines@[1int]);
            assert(lines@[1int + 1] == lines@[2int]);
            assert(lines@[2int + 1] == lines@[3int]);
        }
        lines
    }
}

impl Default for UiState {
    /// All channels at the top level, and the default frame rate.
    fn default() -> (s: Self)
        ensures
            s.levels@ == seq![(LEVELS - 1) as u32, (LEVELS - 1) as u32, (LEVELS - 1) as u32],
            s.frame_rate == DEFAULT_FRAME_RATE,
            s.wf(),
    {
        let s = UiState { levels: [LEVELS - 1, LEVELS - 1, LEVELS - 1], frame_rate: DEFAULT_FRAME_RATE };
        assert(s.levels@ =~= seq![(LEVELS - 1) as u32, (LEVELS - 1) as u32, (LEVELS - 1) as u32]);
        s
    }
}

/// The input controller's decision state: its cached copy of the shared values.
pub struct Ui {
    state: UiState,
}

impl Ui {
    /// The cached state.
    pub closed spec fn state_spec(&self) -> UiState {
        self.state
    }

    /// The cached state is well formed.
    pub open spec fn wf(&self) -> bool {
        self.state_spec().wf()
    }

    /// A controller whose cache holds the default state.
    pub fn new() -> (ui: Ui)
        ensures
            ui.wf(),
            ui.state_spec().levels@ == seq![(LEVELS - 1) as u32, (LEVELS - 1) as u32, (LEVELS - 1) as u32],
            ui.state_spec().frame_rate == DEFAULT_FRAME_RATE,
    {
        Ui { state: UiState::default() }
    }

    /// The cached state, copied out.
    pub fn state(&self) -> (s: UiState)
        ensures
            s == self.state_spec(),
    {
        self.state
    }

    /// Start-up before the first poll: seeds blue from the knob level, and returns the
    /// levels to push to the shared value together with the state dump to log.
    pub fn start(&mut self, level: u32) -> (step: UiStep)
        requires
            old(self).wf(),
            level < LEVELS,
        ensures
            final(self).wf(),
            final(self).state_spec().levels@ == old(self).state_spec().levels@.update(2, level),
            final(self).state_spec().frame_rate == old(self).state_spec().frame_rate,
            step.write == SharedWrite::Levels(final(self).state_spec().levels),
            step.log@ == show_log(final(self).state_spec().levels@, final(self).state_spec().frame_rate),
    {
        self.state.levels[2] = level;
        let write = SharedWrite::Levels(self.state.levels);
        let log = self.state.show();
        UiStep { write, log }
    }

    /// Sets channel `channel` to `level`. When the channel already has that level nothing is
    /// written and nothing logged; otherwise the cache is updated, the change and a state
    /// dump are logged, and the whole triple is written.
    pub fn set_rgb_level(&mut self, channel: usize, level: u32) -> (step: UiStep)
        requires
            old(self).wf(),
            channel < CHANNELS,
            level < LEVELS,
        ensures
            final(self).wf(),
            final(self).state_spec().frame_rate == old(self).state_spec().frame_rate,
            final(self).state_spec().levels@ == old(self).state_spec().levels@.update(channel as int, level),
            step.log@ == channel_log(
                old(self).state_spec().levels@,
                old(self).state_spec().frame_rate,
                channel as int,
                level,
            ),
            old(self).state_spec().levels@[channel as int] == level ==> step.write == SharedWrite::Nothing,
            old(self).state_spec().levels@[channel as int] != level ==> step.write == SharedWrite::Levels(
                final(self).state_spec().levels,
            ),
    {
        if self.state.levels[channel] == level {
            assert(self.state.levels@ =~= self.state.levels@.update(channel as int, level));
            return UiStep { write: SharedWrite::Nothing, log: Vec::new() };
        }
        let mut log: Vec<LogLine> = Vec::new();
        log.push(LogLine::SetChannel { channel, level });
        self.state.levels[channel] = level;
        let mut dump = self.state.show();
        log.append(&mut dump);
        assert(log@ =~= channel_log(
            old(self).state_spec().levels@,
            old(self).state_spec().frame_rate,
            channel as int,
            level,
        ));
        UiStep { write: SharedWrite::Levels(self.state.levels), log }
    }

    /// One poll of the knob and buttons. With both buttons up the knob sets the frame rate
    /// to `(1 + level) * 10`, written only when it changes; with A alone it sets blue, with
    /// B alone green, with both red, as `set_rgb_level` does.
    pub fn poll(&mut self, level: u32, a_down: bool, b_down: bool) -> (step: UiStep)
        requires
            old(self).wf(),
            level < LEVELS,
        ensures
            final(self).wf(),
            final(self).state_spec().levels@ == next_levels(old(self).state_spec().levels@, level, a_down, b_down),
            final(self).state_spec().frame_rate == next_frame_rate(
                old(self).state_spec().frame_rate,
                level,
                a_down,
                b_down,
            ),
            step.log@ == poll_log(old(self).state_spec().levels@, old(self).state_spec().frame_rate, level, a_down, b_down),
            match step.write {
                SharedWrite::Nothing => final(self).state_spec().levels@ == old(self).state_spec().levels@
                    && final(self).state_spec().frame_rate == old(self).state_spec().frame_rate,
                SharedWrite::FrameRate(rate) => rate == final(self).state_spec().frame_rate
                    && rate != old(self).state_spec().frame_rate
                    && final(self).state_spec().levels@ == old(self).state_spec().levels@,
                SharedWrite::Levels(levels) => levels == final(self).state_spec().levels
                    && levels@ != old(self).state_spec().levels@
                    && final(self).state_spec().frame_rate == old(self).state_spec().frame_rate,
            },
    {
        let mut log: Vec<LogLine> = Vec::new();
        log.push(LogLine::Knob(level));
        if !a_down && !b_down {
            let new_rate: u64 = (1 + level as u64) * FRAME_RATE_STEP;
            if new_rate != self.state.frame_rate {
                self.state.frame_rate = new_rate;
                log.push(LogLine::SetFrameRate(new_rate));
                return UiStep { write: SharedWrite::FrameRate(new_rate), log };
            }
            assert(log@ =~= poll_log(self.state.levels@, self.state.frame_rate, level, a_down, b_down));
            return UiStep { write: SharedWrite::Nothing, log };
        }
        log.push(LogLine::Buttons { a_down, b_down });
        let channel: usize = if a_down && b_down {
            0
        } else if b_down {
            1
        } else {
            2
        };
        let ghost before = self.state.levels@;
        let mut step = self.set_rgb_level(channel, level);
        log.append(&mut step.log);
        proof {
            if before[channel as int] != level {
                assert(self.state.levels@[channel as int] == level);
            }
        }
        UiStep { write: step.write, log }
    }
}

/// The chord dispatch table: with both buttons up only the frame rate can change; with a
/// button down exactly the selected channel can change (A alone blue, B alone green, both
/// red) and the frame rate stays.
pub proof fn lemma_chord_dispatch(levels: Seq<u32>, frame_rate: u64, level: u32, a_down: bool, b_down: bool)
    requires
        levels.len() == 3,
    ensures
        !a_down && !b_down ==> next_levels(levels, level, a_down, b_down) == levels,
        a_down || b_down ==> next_frame_rate(frame_rate, level, a_down, b_down) == frame_rate,
        a_down || b_down ==> forall|i: int|
            0 <= i < 3 && i != chord_channel(a_down, b_down) ==> #[trigger] next_levels(
                levels,
                level,
                a_down,
                b_down,
            )[i] == levels[i],
        a_down || b_down ==> next_levels(levels, level, a_down, b_down)[chord_channel(a_down, b_down)] == level,
        a_down && !b_down ==> chord_channel(a_down, b_down) == 2,
        !a_down && b_down ==> chord_channel(a_down, b_down) == 1,
        a_down && b_down ==> chord_channel(a_down, b_down) == 0,
{
}

/// Setting a channel to the level it already has logs nothing (and `set_rgb_level` then
/// writes nothing); changing it logs exactly one change line, first.
pub proof fn lemma_redundant_set_is_silent(levels: Seq<u32>, frame_rate: u64, channel: int, level: u32)
    requires
        levels.len() == 3,
        0 <= channel < 3,
    ensures
        levels[channel] == level ==> channel_log(levels, frame_rate, channel, level).len() == 0,
        levels[channel] != level ==> channel_log(levels, frame_rate, channel, level)[0] == (LogLine::SetChannel {
            channel: channel as usize,
            level,
        }),
        forall|i: int|
            1 <= i < channel_log(levels, frame_rate, channel, level).len() ==> !(#[trigger] channel_log(
                levels,
                frame_rate,
                channel,
                level,
            )[i] is SetChannel),
{
    if levels[channel] != level {
        let log = channel_log(levels, frame_rate, channel, level);
        assert(log.len() == 6);
        assert forall|i: int| 1 <= i < log.len() implies !(#[trigger] log[i] is SetChannel) by {
            assert(log[i] == show_log(levels.update(channel, level), frame_rate)[i - 1]);
        }
    }
}

} // verus!
