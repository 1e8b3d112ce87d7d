//! Choosing a port that is free on both TCP and UDP.
//!
//! The search has two phases. First up to `ATTEMPTS` guesses drawn from
//! `[GUESS_LOW, GUESS_HIGH)`, each kept if it binds on TCP and on UDP. Then
//! up to `ATTEMPTS` requests for a port that the operating system assigns on
//! TCP, each kept if the same number also binds on UDP. The host performs
//! each probe that `PortPicker` asks for and reports what it found.
use rand::Rng;
use vstd::prelude::*;

verus! {

/// Lower end (inclusive) of the range that guesses are drawn from.
pub const GUESS_LOW: u16 = 15000;

/// Upper end (exclusive) of the range that guesses are drawn from.
pub const GUESS_HIGH: u16 = 25000;

/// The number of tries in each phase.
pub const ATTEMPTS: u32 = 10;

/// The next thing the host must do.
#[derive(Clone, Copy, Debug, PartialEq, Eq, Structural)]
pub enum Probe {
    /// Test whether the port binds on TCP and on UDP; answer with `Outcome::Free`.
    Both(u16),
    /// Bind TCP to port 0 and read back the port the system assigned; answer
    /// with `Outcome::Assigned`.
    AskOs,
    /// Test whether the port binds on UDP; answer with `Outcome::Free`.
    Udp(u16),
    /// The search is over, with the port found if any.
    Done(Option<u16>),
}

/// What the host found when it performed a probe.
#[derive(Clone, Copy, Debug, PartialEq, Eq, Structural)]
pub enum Outcome {
    Free(bool),
    Assigned(Option<u16>),
}

/// The state of one search for a free port.
#[derive(Clone, Copy, Debug)]
pub struct PortPicker {
    /// Guesses made so far.
    pub guesses: u32,
    /// Requests to the operating system made so far.
    pub asks: u32,
    /// The probe awaiting its outcome, or the result.
    pub pending: Probe,
}

/// Whether `o` is the kind of outcome that probe `p` waits for.
pub open spec fn answers(p: Probe, o: Outcome) -> bool {
    match p {
        Probe::Both(_) => o is Free,
        Probe::Udp(_) => o is Free,
        Probe::AskOs => o is Assigned,
        Probe::Done(_) => false,
    }
}

/// Whether `p` lies in the range that guesses are drawn from.
pub open spec fn in_guess_range(p: u16) -> bool {
    GUESS_LOW <= p < GUESS_HIGH
}

/// After a failed request to the system (or a port that is taken on UDP):
/// ask again, or give up once all requests are spent.
pub open spec fn retry_os(s: PortPicker) -> PortPicker {
    if s.asks < ATTEMPTS {
        PortPicker { guesses: s.guesses, asks: (s.asks + 1) as u32, pending: Probe::AskOs }
    } else {
        PortPicker { guesses: s.guesses, asks: s.asks, pending: Probe::Done(None) }
    }
}

/// The state after outcome `o` of the pending probe, where `draw` is the
/// guess used if a new one is needed.
pub open spec fn next(s: PortPicker, o: Outcome, draw: u16) -> PortPicker {
    match s.pending {
        Probe::Both(p) => {
            if o == Outcome::Free(true) {
                PortPicker { guesses: s.guesses, asks: s.asks, pending: Probe::Done(Some(p)) }
            } else if s.guesses < ATTEMPTS {
                PortPicker {
                    guesses: (s.guesses + 1) as u32,
                    asks: s.asks,
                    pending: Probe::Both(draw),
                }
            } else {
                retry_os(s)
            }
        },
        Probe::AskOs => match o {
            Outcome::Assigned(Some(p)) => PortPicker {
                guesses: s.guesses,
                asks: s.asks,
                pending: Probe::Udp(p),
            },
            _ => retry_os(s),
        },
        Probe::Udp(p) => {
            if o == Outcome::Free(true) {
                PortPicker { guesses: s.guesses, asks: s.asks, pending: Probe::Done(Some(p)) }
            } else {
                retry_os(s)
            }
        },
        Probe::Done(_) => s,
    }
}

/// Whether the step from `s` on `o` draws a new guess.
pub open spec fn needs_guess(s: PortPicker, o: Outcome) -> bool {
    s.pending is Both && o != Outcome::Free(true) && s.guesses < ATTEMPTS
}

/// Relies on `rand::thread_rng` and `Rng::gen_range`: a value in the
/// half-open range, which must not be empty.
#[verifier::external_body]
fn random_in(low: u16, high: u16) -> (r: u16)
    requires
        low < high,
    ensures
        low <= r < high,
{
    rand::thread_rng().gen_range(low..high)
}

/// How many probes at most remain before the search is over.
pub open spec fn probes_left(s: PortPicker) -> nat {
    match s.pending {
        Probe::Done(_) => 0,
        _ => {
            let phase: nat = match s.pending {
                Probe::Both(_) => 1,
                Probe::AskOs => 2,
                _ => 1,
            };
            (ATTEMPTS - s.guesses) as nat + 2 * (ATTEMPTS - s.asks) as nat + phase
        },
    }
}

/// A port the search ends with was confirmed free by the probe just
/// answered: a guess that bound on TCP and UDP, or a port the system had
/// just bound on TCP that then bound on UDP too.
pub proof fn lemma_found_port_confirmed(s: PortPicker, o: Outcome, draw: u16)
    requires
        s.wf(),
        answers(s.pending, o),
        in_guess_range(draw),
    ensures
        match next(s, o, draw).pending {
            Probe::Done(Some(p)) => o == Outcome::Free(true) && (s.pending == Probe::Both(p)
                || s.pending == Probe::Udp(p)),
            _ => true,
        },
{
}

/// Every guess the search probes, and so every port the guessing phase
/// returns, lies in `[GUESS_LOW, GUESS_HIGH)`.
pub proof fn lemma_guess_in_range(s: PortPicker, o: Outcome, draw: u16)
    requires
        s.wf(),
        answers(s.pending, o),
        in_guess_range(draw),
    ensures
        next(s, o, draw).pending matches Probe::Both(p) ==> in_guess_range(p),
        s.pending is Both ==> match next(s, o, draw).pending {
            Probe::Done(Some(p)) => in_guess_range(p),
            _ => true,
        },
{
}

/// Each outcome either ends the search or brings it closer to its end, so
/// a search makes at most `3 * ATTEMPTS` probes.
pub proof fn lemma_search_ends(s: PortPicker, o: Outcome, draw: u16)
    requires
        s.wf(),
        answers(s.pending, o),
        in_guess_range(draw),
    ensures
        next(s, o, draw).wf(),
        next(s, o, draw).pending is Done || probes_left(next(s, o, draw)) < probes_left(s),
        probes_left(s) <= 3 * ATTEMPTS,
{
}

impl PortPicker {
    /// The counters stay within their phases, and a guess lies in its range.
    pub open spec fn wf(&self) -> bool {
        &&& self.guesses <= ATTEMPTS
        &&& self.asks <= ATTEMPTS
        &&& match self.pending {
            Probe::Both(p) => in_guess_range(p) && self.asks == 0 && 1 <= self.guesses,
            Probe::AskOs => self.guesses == ATTEMPTS && 1 <= self.asks,
            Probe::Udp(_) => self.guesses == ATTEMPTS && 1 <= self.asks,
            Probe::Done(_) => true,
        }
    }

    /// A search whose first guess is `draw`.
    pub fn with_first_guess(draw: u16) -> (r: PortPicker)
        requires
            in_guess_range(draw),
        ensures
            r.wf(),
            r == (PortPicker { guesses: 1, asks: 0, pending: Probe::Both(draw) }),
    {
        PortPicker { guesses: 1, asks: 0, pending: Probe::Both(draw) }
    }

    /// A new search, with a first guess drawn at random.
    pub fn new() -> (r: PortPicker)
        ensures
            r.wf(),
            r.guesses == 1,
            r.asks == 0,
            r.pending is Both,
    {
        let draw = random_in(GUESS_LOW, GUESS_HIGH);
        PortPicker::with_first_guess(draw)
    }

    /// The probe the host must perform next, or the result.
    pub fn next_probe(&self) -> (r: Probe)
        ensures
            r == self.pending,
    {
        self.pending
    }

    /// Takes the outcome of the pending probe; `draw` is the next guess, if
    /// one is needed.
    pub fn step(&mut self, o: Outcome, draw: u16)
        requires
            old(self).wf(),
            answers(old(self).pending, o),
            in_guess_range(draw),
        ensures
            *final(self) == next(*old(self), o, draw),
            final(self).wf(),
    {
        match self.pending {
            Probe::Both(p) => {
                if o == Outcome::Free(true) {
                    self.pending = Probe::Done(Some(p));
                } else if self.guesses < ATTEMPTS {
                    self.guesses = self.guesses + 1;
                    self.pending = Probe::Both(draw);
                } else {
                    self.retry_os();
                }
            },
            Probe::AskOs => match o {
                Outcome::Assigned(Some(p)) => {
                    self.pending = Probe::Udp(p);
                },
                _ => {
                    self.retry_os();
                },
            },
            Probe::Udp(p) => {
                if o == Outcome::Free(true) {
                    self.pending = Probe::Done(Some(p));
                } else {
                    self.retry_os();
                }
            },
            Probe::Done(_) => {},
        }
    }

    fn retry_os(&mut self)
        requires
            old(self).asks <= ATTEMPTS,
        ensures
            *final(self) == retry_os(*old(self)),
    {
        if self.asks < ATTEMPTS {
            self.asks = self.asks + 1;
            self.pending = Probe::AskOs;
        } else {
            self.pending = Probe::Done(None);
        }
    }

    /// Takes the outcome of the pending probe, drawing a new guess at random
    /// where one is needed.
    pub fn advance(&mut self, o: Outcome)
        requires
            old(self).wf(),
            answers(old(self).pending, o),
        ensures
            exists|draw: u16| in_guess_range(draw) && *final(self) == next(*old(self), o, draw),
            !needs_guess(*old(self), o) ==> *final(self) == next(*old(self), o, GUESS_LOW),
            final(self).wf(),
    {
        let guess = match self.pending {
            Probe::Both(_) => o != Outcome::Free(true) && self.guesses < ATTEMPTS,
            _ => false,
        };
        let draw = if guess {
            random_in(GUESS_LOW, GUESS_HIGH)
        } else {
            GUESS_LOW
        };
        self.step(o, draw);
    }
}

} // verus!
