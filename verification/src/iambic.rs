//! Iambic keyer finite state machine.
//!
//! Pure logic: each call to [`IambicProcessor::tick`] consumes the current
//! time and paddle state and yields a keying decision as a stream sample.
//! The whole transition is written out as a specification function
//! ([`IambicProcessor::spec_tick`]), and `tick` is proved to implement it
//! exactly; the mode and squeeze laws at the end of this module are proved
//! over that transition.
//!
//! Timing follows the PARIS standard: a dit lasts `1_200_000 / wpm`
//! microseconds, a dah three dits, and the inter-element gap one dit.  Gaps
//! are anchored at the element's scheduled end, and a gap that has already
//! elapsed cascades into the next element decision within the same tick, so
//! no tick of latency is added between gap end and the next element.

use vstd::prelude::*;

use crate::sample::{GpioState, StreamSample};

verus! {

/// Latest timestamp (microseconds) the keyer accepts: far beyond any
/// uptime, small enough that element arithmetic can never overflow.
pub const TIME_LIMIT_US: i64 = 4_000_000_000_000_000;

/// Iambic keyer mode.
#[derive(Clone, Copy, Debug, PartialEq, Eq, Structural)]
pub enum IambicMode {
    /// Mode A: stop immediately when the paddles are released.
    A,
    /// Mode B: after a squeeze is released, complete the current element
    /// and send one bonus element.
    B,
}

impl Default for IambicMode {
    /// Mode B, the more common convention.
    fn default() -> (r: Self)
        ensures
            r == IambicMode::B,
    {
        IambicMode::B
    }
}

/// Keying element type.
#[derive(Clone, Copy, Debug, PartialEq, Eq, Structural)]
pub enum Element {
    Dit,
    Dah,
}

impl Element {
    /// The other element.
    pub open spec fn spec_opposite(self) -> Element {
        match self {
            Element::Dit => Element::Dah,
            Element::Dah => Element::Dit,
        }
    }

    /// Get the opposite element.
    pub fn opposite(self) -> (r: Self)
        ensures
            r == self.spec_opposite(),
    {
        match self {
            Element::Dit => Element::Dah,
            Element::Dah => Element::Dit,
        }
    }
}

/// FSM state.
#[derive(Clone, Copy, Debug, PartialEq, Eq, Structural)]
pub enum State {
    Idle,
    SendDit,
    SendDah,
    Gap,
}

/// Iambic keyer configuration.
///
/// A configuration is valid only with `wpm >= 1`; zero speed is rejected
/// at configuration time and never reaches the state machine.
#[derive(Clone, Copy, Debug, PartialEq, Eq, Structural)]
pub struct IambicConfig {
    /// Speed in words per minute (PARIS timing).
    pub wpm: u32,
    /// Iambic mode (A or B).
    pub mode: IambicMode,
    /// Dit memory enable.
    pub dit_memory: bool,
    /// Dah memory enable.
    pub dah_memory: bool,
}

impl IambicConfig {
    /// A speed the PARIS formula is defined for.
    pub open spec fn valid(self) -> bool {
        self.wpm >= 1
    }

    /// Dit duration in microseconds: `1_200_000 / wpm`.
    pub open spec fn spec_dit_us(self) -> int {
        1_200_000int / (self.wpm as int)
    }

    /// Dah duration in microseconds: three dits.
    pub open spec fn spec_dah_us(self) -> int {
        3 * self.spec_dit_us()
    }

    /// Inter-element gap in microseconds: one dit.
    pub open spec fn spec_gap_us(self) -> int {
        self.spec_dit_us()
    }

    /// Create a config for the given speed with default mode and memories.
    pub fn with_wpm(wpm: u32) -> (r: Self)
        requires
            wpm >= 1,
        ensures
            r == (IambicConfig { wpm, mode: IambicMode::B, dit_memory: true, dah_memory: true }),
    {
        IambicConfig { wpm, mode: IambicMode::B, dit_memory: true, dah_memory: true }
    }

    /// Dit duration in microseconds (PARIS timing: 1.2 s / WPM).
    pub fn dit_duration_us(&self) -> (r: i64)
        requires
            self.valid(),
        ensures
            r == self.spec_dit_us(),
            0 <= r <= 1_200_000,
    {
        proof {
            let w = self.wpm as int;
            assert(0 <= 1_200_000int / w <= 1_200_000) by (nonlinear_arith)
                requires
                    w >= 1,
            ;
        }
        1_200_000i64 / (self.wpm as i64)
    }

    /// Dah duration in microseconds (three dits).
    pub fn dah_duration_us(&self) -> (r: i64)
        requires
            self.valid(),
        ensures
            r == self.spec_dah_us(),
            0 <= r <= 3_600_000,
    {
        self.dit_duration_us() * 3
    }

    /// Inter-element gap in microseconds (one dit).
    pub fn gap_duration_us(&self) -> (r: i64)
        requires
            self.valid(),
        ensures
            r == self.spec_gap_us(),
            r == self.spec_dit_us(),
            0 <= r <= 1_200_000,
    {
        self.dit_duration_us()
    }
}

impl Default for IambicConfig {
    /// 20 WPM, mode B, both memories on.
    fn default() -> (r: Self)
        ensures
            r == (IambicConfig {
                wpm: 20,
                mode: IambicMode::B,
                dit_memory: true,
                dah_memory: true,
            }),
    {
        IambicConfig { wpm: 20, mode: IambicMode::B, dit_memory: true, dah_memory: true }
    }
}

/// Iambic keyer processor: the full state of the paddle-to-keying machine.
///
/// Owned exclusively by the real-time task and mutated only by `tick` (and
/// the explicit `reset`/`set_config`).  The fields are the state the
/// transition specification is written over.
#[derive(Clone, Copy, Debug, PartialEq, Eq, Structural)]
pub struct IambicProcessor {
    /// Active configuration; changes apply between ticks, never mid-tick.
    pub config: IambicConfig,
    /// Current FSM state.
    pub state: State,
    /// When the current element or gap is scheduled to end (microseconds).
    pub element_end_us: i64,
    /// The element sent most recently; squeeze alternation starts opposite
    /// to it.
    pub last_element: Element,
    /// Whether the DIT paddle was pressed at the last tick.
    pub dit_pressed: bool,
    /// Whether the DAH paddle was pressed at the last tick.
    pub dah_pressed: bool,
    /// Armed dit memory: a dit was requested during the current element.
    pub dit_memory: bool,
    /// Armed dah memory: a dah was requested during the current element.
    pub dah_memory: bool,
    /// Whether a squeeze has been seen since the last idle decision
    /// (mode B bonus-element tracking).
    pub squeeze_seen: bool,
    /// Current keying output (true = key down).
    pub key_down: bool,
}

impl IambicProcessor {
    /// State machine invariant: a valid speed, and an element deadline that
    /// keeps every duration addition inside the timestamp range.
    pub open spec fn wf(self) -> bool {
        &&& self.config.valid()
        &&& 0 <= self.element_end_us <= TIME_LIMIT_US + 3_600_000
    }

    /// The element the machine is currently committed to: the one being
    /// sent, or — during a gap — the one just sent.
    pub open spec fn spec_current_element(self) -> Option<Element> {
        match self.state {
            State::Idle => None,
            State::SendDit => Some(Element::Dit),
            State::SendDah => Some(Element::Dah),
            State::Gap => Some(self.last_element),
        }
    }

    /// Step 1 of a tick: latch the paddle state, detect the transition into
    /// a squeeze, and arm the memories.
    ///
    /// A memory arms only for the paddle opposite to the current element: a
    /// paddle held through its own element must not retrigger that element,
    /// or a plain held paddle would echo after release and a pure squeeze
    /// would repeat one element instead of alternating.
    pub open spec fn spec_update_gpio(self, gpio: GpioState) -> IambicProcessor {
        let was_squeeze = self.dit_pressed && self.dah_pressed;
        let dit_pressed = gpio.spec_dit();
        let dah_pressed = gpio.spec_dah();
        IambicProcessor {
            dit_pressed,
            dah_pressed,
            squeeze_seen: self.squeeze_seen || (dit_pressed && dah_pressed && !was_squeeze),
            dit_memory: self.dit_memory || (dit_pressed && self.config.dit_memory
                && self.spec_current_element() == Some(Element::Dah)),
            dah_memory: self.dah_memory || (dah_pressed && self.config.dah_memory
                && self.spec_current_element() == Some(Element::Dit)),
            ..self
        }
    }

    /// The element decision made whenever the machine is idle, in priority
    /// order: armed dit memory, armed dah memory, the mode B bonus element
    /// (a squeeze was seen and has been released), then the live paddles
    /// (squeeze alternates from the last element).  Returns the state after
    /// the decision and the element chosen, if any.
    pub open spec fn spec_decide(self) -> (IambicProcessor, Option<Element>) {
        if self.dit_memory {
            (IambicProcessor { dit_memory: false, ..self }, Some(Element::Dit))
        } else if self.dah_memory {
            (IambicProcessor { dah_memory: false, ..self }, Some(Element::Dah))
        } else if self.config.mode == IambicMode::B && self.squeeze_seen && !(self.dit_pressed
            && self.dah_pressed) {
            (
                IambicProcessor { squeeze_seen: false, ..self },
                Some(self.last_element.spec_opposite()),
            )
        } else if self.dit_pressed && self.dah_pressed {
            (self, Some(self.last_element.spec_opposite()))
        } else if self.dit_pressed {
            (self, Some(Element::Dit))
        } else if self.dah_pressed {
            (self, Some(Element::Dah))
        } else {
            (IambicProcessor { squeeze_seen: false, ..self }, None)
        }
    }

    /// Start sending an element at time `now`: key down, schedule the
    /// element's end, and re-arm squeeze tracking from the live paddles.
    pub open spec fn spec_start(self, element: Element, now: i64) -> IambicProcessor {
        IambicProcessor {
            key_down: true,
            squeeze_seen: self.dit_pressed && self.dah_pressed,
            state: if element == Element::Dit {
                State::SendDit
            } else {
                State::SendDah
            },
            element_end_us: (now + if element == Element::Dit {
                self.config.spec_dit_us()
            } else {
                self.config.spec_dah_us()
            }) as i64,
            ..self
        }
    }

    /// The idle step: decide the next element and start it, or stay idle.
    pub open spec fn spec_tick_idle(self, now: i64) -> IambicProcessor {
        let decision = self.spec_decide();
        match decision.1 {
            Some(element) => decision.0.spec_start(element, now),
            None => decision.0,
        }
    }

    /// The gap step: once the gap's scheduled end has passed, go idle and
    /// immediately re-run the idle decision for the same tick, so no tick
    /// of latency separates gap end and the next element start.
    pub open spec fn spec_tick_gap(self, now: i64) -> IambicProcessor {
        if now >= self.element_end_us {
            IambicProcessor { state: State::Idle, ..self }.spec_tick_idle(now)
        } else {
            self
        }
    }

    /// The sending step: once the element's scheduled end has passed, key
    /// up, record the element, and enter the gap anchored at that scheduled
    /// end; a gap that has also already elapsed cascades further.
    pub open spec fn spec_tick_sending(self, element: Element, now: i64) -> IambicProcessor {
        if now >= self.element_end_us {
            IambicProcessor {
                key_down: false,
                last_element: element,
                state: State::Gap,
                element_end_us: (self.element_end_us + self.config.spec_gap_us()) as i64,
                ..self
            }.spec_tick_gap(now)
        } else {
            self
        }
    }

    /// One full tick of the machine at time `now` with paddle state `gpio`.
    pub open spec fn spec_tick(self, now: i64, gpio: GpioState) -> IambicProcessor {
        let s = self.spec_update_gpio(gpio);
        match s.state {
            State::Idle => s.spec_tick_idle(now),
            State::SendDit => s.spec_tick_sending(Element::Dit, now),
            State::SendDah => s.spec_tick_sending(Element::Dah, now),
            State::Gap => s.spec_tick_gap(now),
        }
    }

    /// Create a new processor in the idle state.
    ///
    /// `last_element` starts as dah so that the very first press of the DIT
    /// paddle (and the first squeeze) sends a dit.
    pub fn new(config: IambicConfig) -> (r: Self)
        requires
            config.valid(),
        ensures
            r == (IambicProcessor {
                config,
                state: State::Idle,
                element_end_us: 0,
                last_element: Element::Dah,
                dit_pressed: false,
                dah_pressed: false,
                dit_memory: false,
                dah_memory: false,
                squeeze_seen: false,
                key_down: false,
            }),
            r.wf(),
    {
        IambicProcessor {
            config,
            state: State::Idle,
            element_end_us: 0,
            last_element: Element::Dah,
            dit_pressed: false,
            dah_pressed: false,
            dit_memory: false,
            dah_memory: false,
            squeeze_seen: false,
            key_down: false,
        }
    }

    /// Replace the configuration (applied from the next tick on).
    pub fn set_config(&mut self, config: IambicConfig)
        requires
            config.valid(),
        ensures
            *final(self) == (IambicProcessor { config, ..*old(self) }),
    {
        self.config = config;
    }

    /// The active configuration.
    pub fn config(&self) -> (r: &IambicConfig)
        ensures
            *r == self.config,
    {
        &self.config
    }

    /// Tick the state machine and produce the output sample for this time
    /// slice: the new state is exactly [`IambicProcessor::spec_tick`] of the
    /// old, and the sample carries the paddle input and the keying output.
    pub fn tick(&mut self, now_us: i64, gpio: GpioState) -> (r: StreamSample)
        requires
            old(self).wf(),
            0 <= now_us <= TIME_LIMIT_US,
        ensures
            *final(self) == old(self).spec_tick(now_us, gpio),
            final(self).wf(),
            r == (StreamSample::Concrete {
                gpio,
                local_key: final(self).key_down,
                remote_key: false,
                flags: 0,
            }),
    {
        self.update_gpio(gpio);
        match self.state {
            State::Idle => self.tick_idle(now_us),
            State::SendDit => self.tick_sending(now_us, Element::Dit),
            State::SendDah => self.tick_sending(now_us, Element::Dah),
            State::Gap => self.tick_gap(now_us),
        }
        StreamSample::Concrete { gpio, local_key: self.key_down, remote_key: false, flags: 0 }
    }

    /// Whether the key output is currently active.
    pub fn is_key_down(&self) -> (r: bool)
        ensures
            r == self.key_down,
    {
        self.key_down
    }

    /// Force the machine back to idle with cleared memories and key up.
    /// Configuration, paddle latches and the last element are kept.
    pub fn reset(&mut self)
        ensures
            *final(self) == (IambicProcessor {
                state: State::Idle,
                element_end_us: 0,
                dit_memory: false,
                dah_memory: false,
                squeeze_seen: false,
                key_down: false,
                ..*old(self)
            }),
    {
        self.state = State::Idle;
        self.element_end_us = 0;
        self.dit_memory = false;
        self.dah_memory = false;
        self.squeeze_seen = false;
        self.key_down = false;
    }

    fn update_gpio(&mut self, gpio: GpioState)
        ensures
            *final(self) == old(self).spec_update_gpio(gpio),
    {
        let was_squeeze = self.dit_pressed && self.dah_pressed;
        self.dit_pressed = gpio.dit();
        self.dah_pressed = gpio.dah();
        let is_squeeze = self.dit_pressed && self.dah_pressed;
        if is_squeeze && !was_squeeze {
            self.squeeze_seen = true;
        }
        let sending_dah = match self.state {
            State::SendDah => true,
            State::Gap => matches!(self.last_element, Element::Dah),
            _ => false,
        };
        let sending_dit = match self.state {
            State::SendDit => true,
            State::Gap => matches!(self.last_element, Element::Dit),
            _ => false,
        };
        if sending_dah && self.dit_pressed && self.config.dit_memory {
            self.dit_memory = true;
        }
        if sending_dit && self.dah_pressed && self.config.dah_memory {
            self.dah_memory = true;
        }
    }

    fn decide_next_element(&mut self) -> (r: Option<Element>)
        ensures
            *final(self) == old(self).spec_decide().0,
            r == old(self).spec_decide().1,
    {
        if self.dit_memory {
            self.dit_memory = false;
            return Some(Element::Dit);
        }
        if self.dah_memory {
            self.dah_memory = false;
            return Some(Element::Dah);
        }
        if self.config.mode == IambicMode::B && self.squeeze_seen {
            if !(self.dit_pressed && self.dah_pressed) {
                self.squeeze_seen = false;
                return Some(self.last_element.opposite());
            }
        }
        if self.dit_pressed && self.dah_pressed {
            Some(self.last_element.opposite())
        } else if self.dit_pressed {
            Some(Element::Dit)
        } else if self.dah_pressed {
            Some(Element::Dah)
        } else {
            self.squeeze_seen = false;
            None
        }
    }

    fn start_element(&mut self, element: Element, now_us: i64)
        requires
            old(self).config.valid(),
            0 <= now_us <= TIME_LIMIT_US,
        ensures
            *final(self) == old(self).spec_start(element, now_us),
            final(self).wf(),
    {
        self.key_down = true;
        self.squeeze_seen = self.dit_pressed && self.dah_pressed;
        let duration = match element {
            Element::Dit => self.config.dit_duration_us(),
            Element::Dah => self.config.dah_duration_us(),
        };
        self.state = match element {
            Element::Dit => State::SendDit,
            Element::Dah => State::SendDah,
        };
        self.element_end_us = now_us + duration;
    }

    fn tick_idle(&mut self, now_us: i64)
        requires
            old(self).wf(),
            0 <= now_us <= TIME_LIMIT_US,
        ensures
            *final(self) == old(self).spec_tick_idle(now_us),
            final(self).wf(),
    {
        let next = self.decide_next_element();
        if let Some(element) = next {
            self.start_element(element, now_us);
        }
    }

    fn tick_gap(&mut self, now_us: i64)
        requires
            old(self).wf(),
            0 <= now_us <= TIME_LIMIT_US,
        ensures
            *final(self) == old(self).spec_tick_gap(now_us),
            final(self).wf(),
    {
        if now_us >= self.element_end_us {
            self.state = State::Idle;
            self.tick_idle(now_us);
        }
    }

    fn tick_sending(&mut self, now_us: i64, element: Element)
        requires
            old(self).wf(),
            0 <= now_us <= TIME_LIMIT_US,
        ensures
            *final(self) == old(self).spec_tick_sending(element, now_us),
            final(self).wf(),
    {
        if now_us >= self.element_end_us {
            self.key_down = false;
            self.last_element = element;
            self.state = State::Gap;
            self.element_end_us = self.element_end_us + self.config.gap_duration_us();
            self.tick_gap(now_us);
        }
    }
}

/// PARIS timing law: the dit is `1_200_000 / wpm` microseconds, the dah is
/// exactly three dits, and the inter-element gap always equals the dit.
pub proof fn lemma_paris_timing(cfg: IambicConfig)
    requires
        cfg.valid(),
    ensures
        cfg.spec_dit_us() == 1_200_000int / (cfg.wpm as int),
        cfg.spec_dah_us() == 3 * cfg.spec_dit_us(),
        cfg.spec_gap_us() == cfg.spec_dit_us(),
{
}

/// Mode A / mode B divergence law.
///
/// Take a machine mid-element with a squeeze on record, no armed memory,
/// and both paddles now released, and tick it at any time past the end of
/// the element's trailing gap.  In mode B the machine sends exactly one
/// bonus element — the opposite of the element it was sending — and in
/// mode A it falls silent and goes idle.
pub proof fn lemma_mode_divergence(p: IambicProcessor, now: i64)
    requires
        p.wf(),
        p.state == State::SendDit || p.state == State::SendDah,
        !p.dit_memory,
        !p.dah_memory,
        p.squeeze_seen,
        now >= p.element_end_us + p.config.spec_gap_us(),
        now <= TIME_LIMIT_US,
    ensures
        ({
            let sent = if p.state == State::SendDit {
                Element::Dit
            } else {
                Element::Dah
            };
            let after = p.spec_tick(now, GpioState { bits: 0 });
            &&& p.config.mode == IambicMode::B ==> after.key_down && after.state == (
            if sent == Element::Dit {
                State::SendDah
            } else {
                State::SendDit
            }) && after.last_element == sent
            &&& p.config.mode == IambicMode::A ==> !after.key_down && after.state == State::Idle
                && !after.squeeze_seen
        }),
{
    let idle = GpioState { bits: 0 };
    assert(0u8 & 1u8 == 0 && 0u8 & 2u8 == 0) by (bit_vector);
    assert(!idle.spec_dit() && !idle.spec_dah());
}

/// Squeeze alternation law.
///
/// A machine mid-element with both paddles held, whose own element's memory
/// is not armed, ticked past the end of the element's trailing gap, starts
/// exactly the opposite element — and the new element's own memory is again
/// unarmed, so under a continuous squeeze successive elements strictly
/// alternate, by induction over the elements.
pub proof fn lemma_squeeze_alternation(p: IambicProcessor, now: i64)
    requires
        p.wf(),
        p.state == State::SendDit || p.state == State::SendDah,
        p.state == State::SendDit ==> !p.dit_memory,
        p.state == State::SendDah ==> !p.dah_memory,
        now >= p.element_end_us + p.config.spec_gap_us(),
        now <= TIME_LIMIT_US,
    ensures
        ({
            let sent = if p.state == State::SendDit {
                Element::Dit
            } else {
                Element::Dah
            };
            let after = p.spec_tick(now, GpioState { bits: 3 });
            &&& after.key_down
            &&& after.last_element == sent
            &&& after.state == (if sent == Element::Dit {
                State::SendDah
            } else {
                State::SendDit
            })
            &&& after.state == State::SendDit ==> !after.dit_memory
            &&& after.state == State::SendDah ==> !after.dah_memory
        }),
{
    let both = GpioState { bits: 3 };
    assert(3u8 & 1u8 != 0 && 3u8 & 2u8 != 0) by (bit_vector);
    assert(both.spec_dit() && both.spec_dah());
}

/// The first element of a squeeze from idle: with no memory armed, a
/// machine at rest that sees both paddles pressed starts the element
/// opposite to `last_element`.  A fresh machine starts at `last_element ==
/// Dah`, so the very first squeezed element is a dit.
pub proof fn lemma_squeeze_first_element(p: IambicProcessor, now: i64)
    requires
        p.wf(),
        p.state == State::Idle,
        !p.dit_memory,
        !p.dah_memory,
        0 <= now <= TIME_LIMIT_US,
    ensures
        ({
            let after = p.spec_tick(now, GpioState { bits: 3 });
            &&& after.key_down
            &&& after.state == (if p.last_element == Element::Dah {
                State::SendDit
            } else {
                State::SendDah
            })
        }),
{
    let both = GpioState { bits: 3 };
    assert(3u8 & 1u8 != 0 && 3u8 & 2u8 != 0) by (bit_vector);
    assert(both.spec_dit() && both.spec_dah());
}

} // verus!
