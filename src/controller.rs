use vstd::prelude::*;

use crate::code_table::{decode, decoded};
use crate::symbol::{render, glyphs_of, symbol_for, Symbol};
use crate::timing::{advanced, PauseTimer, PressTimer};
use crate::transcript::Transcript;

verus! {

/// The character shown before anything has been decoded.
pub const BLANK: char = ' ';

/// Timing and features of a decoder.
#[derive(Clone, Copy, Debug, PartialEq, Eq, Structural)]
pub struct Config {
    /// Presses shorter than this are dots, the others dashes (microseconds).
    pub click_threshold: u64,
    /// A pause this long after a release closes the character (microseconds).
    pub char_gap: u64,
    /// Whether decoded characters are kept in the transcript.
    pub keep_transcript: bool,
    /// Whether presses and releases emit tone signals.
    pub tone: bool,
}

impl Config {
    /// The full profile: 0.15 s click threshold, 0.2 s character gap,
    /// transcript and tone on.
    pub fn standard() -> (r: Config)
        ensures
            r == (Config { click_threshold: 150_000, char_gap: 200_000, keep_transcript: true, tone: true }),
    {
        Config { click_threshold: 150_000, char_gap: 200_000, keep_transcript: true, tone: true }
    }

    /// The display-only profile: 0.15 s click threshold, 0.5 s character gap,
    /// no transcript and no tone.
    pub fn minimal() -> (r: Config)
        ensures
            r == (Config { click_threshold: 150_000, char_gap: 500_000, keep_transcript: false, tone: false }),
    {
        Config { click_threshold: 150_000, char_gap: 500_000, keep_transcript: false, tone: false }
    }
}

/// An input signal.
#[derive(Clone, Copy, Debug, PartialEq, Eq, Structural)]
pub enum Input {
    /// The key or button went down.
    PressStart,
    /// The key or button came up.
    PressEnd,
    /// Empty the transcript.
    ResetTranscript,
    /// Remove the last character of the transcript.
    DeleteLast,
}

/// A signal for the tone generator.
#[derive(Clone, Copy, Debug, PartialEq, Eq, Structural)]
pub enum Tone {
    Start,
    Stop,
}

/// The whole state of a decoder.
pub struct ControllerView {
    pub config: Config,
    pub press: PressTimer,
    pub pause: PauseTimer,
    /// The symbols of the character in progress.
    pub buffer: Seq<Symbol>,
    /// The last character decoded, or `BLANK`.
    pub display: char,
    pub transcript: Seq<char>,
}

/// A fresh decoder under `config`.
pub open spec fn initial(config: Config) -> ControllerView {
    ControllerView {
        config,
        press: PressTimer { held: false, elapsed: 0 },
        pause: PauseTimer { armed: false, elapsed: 0 },
        buffer: Seq::empty(),
        display: BLANK,
        transcript: Seq::empty(),
    }
}

/// A press begins: the press timer restarts and any pending character
/// boundary is cancelled. Ignored while already held.
pub open spec fn pressed(s: ControllerView) -> ControllerView {
    if s.press.held {
        s
    } else {
        ControllerView {
            press: s.press.spec_started(),
            pause: PauseTimer { armed: false, elapsed: s.pause.elapsed },
            ..s
        }
    }
}

/// A press ends: its symbol joins the buffer and the pause timer starts from
/// zero. Ignored while nothing is held.
pub open spec fn released(s: ControllerView) -> ControllerView {
    if !s.press.held {
        s
    } else {
        ControllerView {
            press: PressTimer { held: false, elapsed: s.press.elapsed },
            pause: PauseTimer { armed: true, elapsed: 0 },
            buffer: s.buffer.push(symbol_for(s.press.elapsed, s.config.click_threshold)),
            ..s
        }
    }
}

/// The transcript emptied.
pub open spec fn transcript_reset(s: ControllerView) -> ControllerView {
    ControllerView { transcript: Seq::empty(), ..s }
}

/// The last character of the transcript removed, if there is one.
pub open spec fn last_deleted(s: ControllerView) -> ControllerView {
    if s.transcript.len() == 0 {
        s
    } else {
        ControllerView { transcript: s.transcript.drop_last(), ..s }
    }
}

/// The state after one input.
pub open spec fn after_input(s: ControllerView, input: Input) -> ControllerView {
    match input {
        Input::PressStart => pressed(s),
        Input::PressEnd => released(s),
        Input::ResetTranscript => transcript_reset(s),
        Input::DeleteLast => last_deleted(s),
    }
}

/// The tone signal that an input gives, if tones are on and the input is not
/// ignored.
pub open spec fn tone_for(s: ControllerView, input: Input) -> Option<Tone> {
    if !s.config.tone {
        None
    } else {
        match input {
            Input::PressStart => if s.press.held {
                None
            } else {
                Some(Tone::Start)
            },
            Input::PressEnd => if s.press.held {
                Some(Tone::Stop)
            } else {
                None
            },
            _ => None,
        }
    }
}

/// The state after `inputs`, in order.
pub open spec fn after_inputs(s: ControllerView, inputs: Seq<Input>) -> ControllerView
    decreases inputs.len(),
{
    if inputs.len() == 0 {
        s
    } else {
        after_input(after_inputs(s, inputs.drop_last()), inputs.last())
    }
}

/// The tone signals that `inputs` give, in order.
pub open spec fn tones_for(s: ControllerView, inputs: Seq<Input>) -> Seq<Tone>
    decreases inputs.len(),
{
    if inputs.len() == 0 {
        Seq::empty()
    } else {
        let before = tones_for(s, inputs.drop_last());
        match tone_for(after_inputs(s, inputs.drop_last()), inputs.last()) {
            Some(t) => before.push(t),
            None => before,
        }
    }
}

/// The character in progress is closed: a sequence in the code table becomes
/// the displayed character and, when kept, joins the transcript; any other
/// is dropped. The buffer is emptied either way.
pub open spec fn finalized(s: ControllerView) -> ControllerView {
    match decoded(s.buffer) {
        Some(c) => ControllerView {
            buffer: Seq::empty(),
            display: c,
            transcript: if s.config.keep_transcript {
                s.transcript.push(c)
            } else {
                s.transcript
            },
            ..s
        },
        None => ControllerView { buffer: Seq::empty(), ..s },
    }
}

/// The state after `delta` microseconds: a held press counts on, an armed
/// pause counts on, and a pause that reaches the gap closes the character.
pub open spec fn ticked(s: ControllerView, delta: u64) -> ControllerView {
    let (pause, fired) = s.pause.spec_tick(delta, s.config.char_gap);
    let next = ControllerView { press: s.press.spec_ticked(delta), pause, ..s };
    if fired {
        finalized(next)
    } else {
        next
    }
}

/// A press that comes while a character boundary is pending, that is, before
/// the pause has reached the gap, cancels it: the buffer is kept through any
/// tick, and the next release appends to that same buffer.
pub proof fn lemma_press_cancels_boundary(s: ControllerView, delta: u64)
    requires
        s.pause.armed,
        !s.press.held,
    ensures
        !pressed(s).pause.armed,
        pressed(s).buffer == s.buffer,
        ticked(pressed(s), delta).buffer == s.buffer,
        ticked(pressed(s), delta).display == s.display,
        ticked(pressed(s), delta).transcript == s.transcript,
        released(ticked(pressed(s), delta)).buffer == s.buffer.push(
            symbol_for(advanced(0, delta), s.config.click_threshold),
        ),
{
}

/// Within one step a press wins over the pause: whatever the pause had
/// counted, a step that starts a press never closes the character.
pub proof fn lemma_press_wins_within_step(s: ControllerView, delta: u64)
    requires
        !s.press.held,
    ensures
        ticked(after_inputs(s, seq![Input::PressStart]), delta).buffer == s.buffer,
        ticked(after_inputs(s, seq![Input::PressStart]), delta).display == s.display,
{
    assert(seq![Input::PressStart].drop_last() == Seq::<Input>::empty());
    assert(after_inputs(s, Seq::<Input>::empty()) == s);
}

/// Closing a character disarms the pause and empties the buffer, and while
/// no pause is armed, time alone changes neither the buffer, the displayed
/// character nor the transcript: a character is closed at most once per
/// armed pause.
pub proof fn lemma_finalize_once(s: ControllerView, delta: u64, later: u64)
    ensures
        s.pause.spec_tick(delta, s.config.char_gap).1 ==> !ticked(s, delta).pause.armed
            && ticked(s, delta).buffer.len() == 0,
        !s.pause.armed ==> ticked(s, later).buffer == s.buffer && ticked(s, later).display
            == s.display && ticked(s, later).transcript == s.transcript,
{
}

/// Turns presses and releases into decoded characters.
pub struct Controller {
    config: Config,
    press: PressTimer,
    pause: PauseTimer,
    buffer: Vec<Symbol>,
    display: char,
    transcript: Transcript,
}

impl View for Controller {
    type V = ControllerView;

    closed spec fn view(&self) -> ControllerView {
        ControllerView {
            config: self.config,
            press: self.press,
            pause: self.pause,
            buffer: self.buffer@,
            display: self.display,
            transcript: self.transcript@,
        }
    }
}

impl Controller {
    /// A decoder under `config`, with nothing pressed, decoded or kept.
    pub fn new(config: Config) -> (r: Controller)
        ensures
            r@ == initial(config),
    {
        Controller {
            config,
            press: PressTimer::new(),
            pause: PauseTimer::new(),
            buffer: Vec::new(),
            display: BLANK,
            transcript: Transcript::new(),
        }
    }

    /// Handles the start of a press.
    pub fn press_start(&mut self) -> (r: Option<Tone>)
        ensures
            final(self)@ == pressed(old(self)@),
            r == tone_for(old(self)@, Input::PressStart),
    {
        if self.press.held {
            return None;
        }
        self.press.start();
        self.pause.disarm();
        if self.config.tone {
            Some(Tone::Start)
        } else {
            None
        }
    }

    /// Handles the end of a press.
    pub fn press_end(&mut self) -> (r: Option<Tone>)
        ensures
            final(self)@ == released(old(self)@),
            r == tone_for(old(self)@, Input::PressEnd),
    {
        match self.press.release(self.config.click_threshold) {
            Some(symbol) => {
                self.buffer.push(symbol);
                self.pause.arm();
                if self.config.tone {
                    Some(Tone::Stop)
                } else {
                    None
                }
            },
            None => None,
        }
    }

    /// Empties the transcript, whatever it held.
    pub fn reset_transcript(&mut self)
        ensures
            final(self)@ == transcript_reset(old(self)@),
            final(self)@.transcript.len() == 0,
    {
        self.transcript.clear();
    }

    /// Removes the last character of the transcript; nothing happens when it
    /// is empty.
    pub fn delete_last(&mut self)
        ensures
            final(self)@ == last_deleted(old(self)@),
            old(self)@.transcript.len() == 0 ==> final(self)@.transcript.len() == 0,
    {
        self.transcript.remove_last();
    }

    /// Handles one input.
    pub fn handle(&mut self, input: Input) -> (r: Option<Tone>)
        ensures
            final(self)@ == after_input(old(self)@, input),
            r == tone_for(old(self)@, input),
    {
        match input {
            Input::PressStart => self.press_start(),
            Input::PressEnd => self.press_end(),
            Input::ResetTranscript => {
                self.reset_transcript();
                None
            },
            Input::DeleteLast => {
                self.delete_last();
                None
            },
        }
    }

    /// Closes the character in progress.
    fn finalize(&mut self)
        ensures
            final(self)@ == finalized(old(self)@),
    {
        match decode(&self.buffer) {
            Some(c) => {
                self.display = c;
                if self.config.keep_transcript {
                    self.transcript.append(c);
                }
            },
            None => {},
        }
        self.buffer.clear();
    }

    /// Lets `delta` microseconds pass.
    pub fn tick(&mut self, delta: u64)
        ensures
            final(self)@ == ticked(old(self)@, delta),
    {
        self.press.tick(delta);
        if self.pause.tick(delta, self.config.char_gap) {
            self.finalize();
        }
    }

    /// One time step: the inputs in order, then `delta` microseconds. Returns
    /// the tone signals that the inputs gave.
    pub fn step(&mut self, inputs: &Vec<Input>, delta: u64) -> (r: Vec<Tone>)
        ensures
            final(self)@ == ticked(after_inputs(old(self)@, inputs@), delta),
            r@ == tones_for(old(self)@, inputs@),
    {
        let ghost start = self@;
        let mut tones: Vec<Tone> = Vec::new();
        let mut i: usize = 0;
        while i < inputs.len()
            invariant
                i <= inputs.len(),
                self@ == after_inputs(start, inputs@.subrange(0, i as int)),
                tones@ == tones_for(start, inputs@.subrange(0, i as int)),
            decreases inputs.len() - i,
        {
            proof {
                assert(inputs@.subrange(0, i + 1).drop_last() == inputs@.subrange(0, i as int));
            }
            match self.handle(inputs[i]) {
                Some(t) => tones.push(t),
                None => {},
            }
            i = i + 1;
        }
        assert(inputs@.subrange(0, i as int) == inputs@);
        self.tick(delta);
        tones
    }

    /// The configuration.
    pub fn config(&self) -> (r: Config)
        ensures
            r == self@.config,
    {
        self.config
    }

    /// The last character decoded, or `BLANK` before the first.
    pub fn display_char(&self) -> (r: char)
        ensures
            r == self@.display,
    {
        self.display
    }

    /// The symbols of the character in progress.
    pub fn symbols(&self) -> (r: &Vec<Symbol>)
        ensures
            r@ == self@.buffer,
    {
        &self.buffer
    }

    /// The character in progress as glyphs; empty when none is in progress.
    pub fn buffer_glyphs(&self) -> (r: Vec<char>)
        ensures
            r@ == glyphs_of(self@.buffer),
    {
        render(&self.buffer)
    }

    /// The transcript, oldest first.
    pub fn transcript(&self) -> (r: &Vec<char>)
        ensures
            r@ == self@.transcript,
    {
        self.transcript.chars()
    }

    /// Whether a press is in progress.
    pub fn is_held(&self) -> (r: bool)
        ensures
            r == self@.press.held,
    {
        self.press.held
    }

    /// Whether a character boundary is pending.
    pub fn is_armed(&self) -> (r: bool)
        ensures
            r == self@.pause.armed,
    {
        self.pause.armed
    }
}

} // verus!
