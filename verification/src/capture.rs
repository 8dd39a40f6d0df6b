//! The decisions of the capture thread. The thread itself only performs
//! what it is told (a blocking read, one analysis) and reports back what
//! came of it; which step follows, and what the channels and the sample
//! window look like afterwards, is decided here.

use crate::config::CaptureConfig;
use crate::decode::decode;
use crate::decode::decode_spec;
use crate::decode::supported_width;
use crate::link::offered;
use crate::link::Link;
use crate::link::LinkView;
use crate::link::SlotView;
use crate::ring::valid_capacity;
use crate::ring::window;
use crate::ring::SampleRing;
use vstd::prelude::*;

verus! {

/// Where the capture loop stands.
#[derive(Debug, Clone, Copy, PartialEq, Eq, Structural)]
pub enum Phase {
    /// The next thing to come is the outcome of a read.
    Reading,
    /// The next thing to come is the outcome of an analysis.
    Analyzing,
    /// The loop has ended.
    Stopped,
}

/// What the capture thread is to do next.
pub enum Action {
    /// Read exactly this many bytes from the source, and report them.
    Read(usize),
    /// Analyse these samples, a full window with the oldest first, and
    /// report the result.
    Analyze(Vec<i32>),
    /// Leave the loop.
    Stop,
}

/// An action, with its samples as a sequence.
pub enum ActionView {
    Read(nat),
    Analyze(Seq<i32>),
    Stop,
}

impl View for Action {
    type V = ActionView;

    open spec fn view(&self) -> ActionView {
        match self {
            Action::Read(bytes) => ActionView::Read(*bytes as nat),
            Action::Analyze(samples) => ActionView::Analyze(samples@),
            Action::Stop => ActionView::Stop,
        }
    }
}

/// The state of the capture loop, as plain values.
pub struct LoopView {
    /// The samples in the window, oldest first.
    pub window: Seq<i32>,
    /// The capacity of the window.
    pub capacity: nat,
    /// The width of one sample, in bytes.
    pub sample_width: nat,
    /// The number of bytes of one read.
    pub frame_bytes: nat,
    /// Whether the consumer has asked for a result that is still owed.
    pub armed: bool,
    /// Where the loop stands.
    pub phase: Phase,
}

/// The capture loop together with the channels it shares with the consumer.
pub struct World<T> {
    pub capture: LoopView,
    pub link: LinkView<T>,
}

/// The action that a loop is waiting on.
pub open spec fn pending(capture: LoopView) -> ActionView {
    match capture.phase {
        Phase::Reading => ActionView::Read(capture.frame_bytes),
        Phase::Analyzing => ActionView::Analyze(capture.window),
        Phase::Stopped => ActionView::Stop,
    }
}

/// The loop has ended: the result channel is closed behind it.
pub open spec fn halted<T>(world: World<T>) -> World<T> {
    World {
        capture: LoopView { phase: Phase::Stopped, ..world.capture },
        link: LinkView {
            ready: world.link.ready,
            slot: SlotView { item: world.link.slot.item, closed: true },
        },
    }
}

/// The top of the loop: on to the next read while the session runs, and
/// out of the loop once it has been told to stop.
pub open spec fn resumed<T>(world: World<T>, running: bool) -> World<T> {
    if running {
        World { capture: LoopView { phase: Phase::Reading, ..world.capture }, link: world.link }
    } else {
        halted(world)
    }
}

/// The world after the loop was entered: at the top of the loop where it
/// was about to read, and unchanged in any other phase.
pub open spec fn begun<T>(world: World<T>, running: bool) -> World<T> {
    if world.capture.phase == Phase::Reading {
        resumed(world, running)
    } else {
        world
    }
}

/// Whether an analysis is due: the window is full and a result is owed.
pub open spec fn gate(capture: LoopView) -> bool {
    capture.armed && capture.window.len() == capture.capacity
}

/// The world after a read has been reported. A failed read ends the loop.
/// A frame that does not decode is dropped. Otherwise its samples enter the
/// window, a waiting ready token is taken, and the loop either goes on to
/// an analysis or back to the top.
pub open spec fn after_read<T>(
    world: World<T>,
    frame: Option<Seq<u8>>,
    running: bool,
) -> World<T> {
    if world.capture.phase != Phase::Reading {
        world
    } else {
        match frame {
            None => halted(world),
            Some(bytes) => match decode_spec(bytes, world.capture.sample_width) {
                Err(_) => resumed(world, running),
                Ok(samples) => {
                    let fed = World {
                        capture: LoopView {
                            window: window(
                                world.capture.window + samples,
                                world.capture.capacity,
                            ),
                            armed: world.capture.armed || world.link.ready,
                            ..world.capture
                        },
                        link: LinkView { ready: false, slot: world.link.slot },
                    };
                    if gate(fed.capture) {
                        World {
                            capture: LoopView { phase: Phase::Analyzing, ..fed.capture },
                            link: fed.link,
                        }
                    } else {
                        resumed(fed, running)
                    }
                },
            },
        }
    }
}

/// The world after an analysis has been reported. A result settles what
/// was owed and is offered to the consumer, send or drop; a failed analysis
/// leaves the request standing, so that the next full window is analysed
/// again. Either way the loop goes back to the top.
pub open spec fn after_analysis<T>(
    world: World<T>,
    outcome: Option<T>,
    running: bool,
) -> World<T> {
    if world.capture.phase != Phase::Analyzing {
        world
    } else {
        match outcome {
            None => resumed(world, running),
            Some(result) => resumed(
                World {
                    capture: LoopView { armed: false, ..world.capture },
                    link: LinkView {
                        ready: world.link.ready,
                        slot: offered(world.link.slot, result),
                    },
                },
                running,
            ),
        }
    }
}

/// The world in which a loop starts: an empty window, nothing owed.
pub open spec fn fresh_loop(capacity: nat, sample_width: nat, frame_bytes: nat) -> LoopView {
    LoopView {
        window: Seq::<i32>::empty(),
        capacity,
        sample_width,
        frame_bytes,
        armed: false,
        phase: Phase::Reading,
    }
}

/// The bytes of a reported read, as a sequence.
pub open spec fn frame_view(frame: Option<&[u8]>) -> Option<Seq<u8>> {
    match frame {
        None => None,
        Some(bytes) => Some(bytes@),
    }
}

/// The state of the capture thread: the sample window, and what is owed to
/// the consumer.
pub struct CaptureLoop {
    ring: SampleRing,
    sample_width: usize,
    frame_bytes: usize,
    armed: bool,
    phase: Phase,
}

impl View for CaptureLoop {
    type V = LoopView;

    closed spec fn view(&self) -> LoopView {
        LoopView {
            window: self.ring@,
            capacity: self.ring.cap(),
            sample_width: self.sample_width as nat,
            frame_bytes: self.frame_bytes as nat,
            armed: self.armed,
            phase: self.phase,
        }
    }
}

impl CaptureLoop {
    /// The invariant of the loop.
    pub closed spec fn wf(&self) -> bool {
        &&& self.sound()
        &&& self.phase == Phase::Analyzing ==> gate(self@)
    }

    /// The part of the invariant that holds in the middle of a step too.
    spec fn sound(&self) -> bool {
        &&& self.ring.wf()
        &&& supported_width(self.sample_width as nat)
    }

    /// A well-formed loop has a window within its capacity, and whenever it
    /// waits on an analysis a result is owed and the window is full.
    pub proof fn lemma_window_bounded(&self)
        requires
            self.wf(),
        ensures
            self@.window.len() <= self@.capacity,
            valid_capacity(self@.capacity),
            supported_width(self@.sample_width),
            self@.phase == Phase::Analyzing ==> gate(self@),
    {
        self.ring.lemma_bounded();
    }

    /// The loop of a session that starts.
    pub fn new(config: &CaptureConfig) -> (capture: CaptureLoop)
        requires
            config.wf(),
        ensures
            capture.wf(),
            capture@ == fresh_loop(
                config@.capacity,
                config@.sample_width,
                config@.frame_samples * config@.sample_width,
            ),
    {
        CaptureLoop {
            ring: SampleRing::make(config.capacity()),
            sample_width: config.sample_width(),
            frame_bytes: config.frame_bytes(),
            armed: false,
            phase: Phase::Reading,
        }
    }

    /// Where the loop stands.
    pub fn phase(&self) -> (phase: Phase)
        ensures
            phase == self@.phase,
    {
        self.phase
    }

    /// Whether a result is owed to the consumer.
    pub fn is_armed(&self) -> (armed: bool)
        ensures
            armed == self@.armed,
    {
        self.armed
    }

    /// The number of samples in the window.
    pub fn buffered(&self) -> (len: usize)
        ensures
            len == self@.window.len(),
    {
        self.ring.len()
    }

    /// The action that the loop is waiting on.
    fn waiting_on(&self) -> (action: Action)
        requires
            self.wf(),
        ensures
            action@ == pending(self@),
    {
        match self.phase {
            Phase::Reading => Action::Read(self.frame_bytes),
            Phase::Analyzing => Action::Analyze(self.ring.snapshot()),
            Phase::Stopped => Action::Stop,
        }
    }

    /// Ends the loop and closes the result channel behind it.
    fn halt<T>(&mut self, link: &mut Link<T>) -> (action: Action)
        requires
            old(self).sound(),
        ensures
            final(self).wf(),
            (World { capture: final(self)@, link: final(link)@ }) == halted(
                World { capture: old(self)@, link: old(link)@ },
            ),
            action@ == ActionView::Stop,
    {
        self.phase = Phase::Stopped;
        link.result.close();
        Action::Stop
    }

    /// Goes back to the top of the loop.
    fn resume<T>(&mut self, link: &mut Link<T>, running: bool) -> (action: Action)
        requires
            old(self).sound(),
        ensures
            final(self).wf(),
            (World { capture: final(self)@, link: final(link)@ }) == resumed(
                World { capture: old(self)@, link: old(link)@ },
                running,
            ),
            action@ == pending(final(self)@),
    {
        if running {
            self.phase = Phase::Reading;
            Action::Read(self.frame_bytes)
        } else {
            self.halt(link)
        }
    }

    /// The first step of the loop: a read while the session runs, the end
    /// of the loop where it was told to stop before it began.
    pub fn begin<T>(&mut self, link: &mut Link<T>, running: bool) -> (action: Action)
        requires
            old(self).wf(),
        ensures
            final(self).wf(),
            (World { capture: final(self)@, link: final(link)@ }) == begun(
                World { capture: old(self)@, link: old(link)@ },
                running,
            ),
            action@ == pending(final(self)@),
    {
        match self.phase {
            Phase::Reading => self.resume(link, running),
            _ => self.waiting_on(),
        }
    }

    /// Takes the outcome of a read: the bytes, or `None` where the read
    /// failed or the stream ended. `running` is the session's running flag
    /// as the thread sees it now. Returns what to do next.
    pub fn on_read<T>(
        &mut self,
        frame: Option<&[u8]>,
        link: &mut Link<T>,
        running: bool,
    ) -> (action: Action)
        requires
            old(self).wf(),
        ensures
            final(self).wf(),
            (World { capture: final(self)@, link: final(link)@ }) == after_read(
                World { capture: old(self)@, link: old(link)@ },
                frame_view(frame),
                running,
            ),
            action@ == pending(final(self)@),
    {
        match self.phase {
            Phase::Reading => {},
            _ => {
                return self.waiting_on();
            },
        }
        let bytes = match frame {
            None => {
                return self.halt(link);
            },
            Some(bytes) => bytes,
        };
        let samples = match decode(bytes, self.sample_width) {
            Err(_) => {
                return self.resume(link, running);
            },
            Ok(samples) => samples,
        };
        self.ring.extend(&samples);
        if link.ready.take() {
            self.armed = true;
        }
        if self.armed && self.ring.is_full() {
            self.phase = Phase::Analyzing;
            Action::Analyze(self.ring.snapshot())
        } else {
            self.resume(link, running)
        }
    }

    /// Takes the outcome of an analysis: the result, or `None` where the
    /// analysis failed. `running` is the session's running flag as the
    /// thread sees it now. Returns what to do next.
    pub fn on_analysis<T>(
        &mut self,
        outcome: Option<T>,
        link: &mut Link<T>,
        running: bool,
    ) -> (action: Action)
        requires
            old(self).wf(),
        ensures
            final(self).wf(),
            (World { capture: final(self)@, link: final(link)@ }) == after_analysis(
                World { capture: old(self)@, link: old(link)@ },
                outcome,
                running,
            ),
            action@ == pending(final(self)@),
    {
        match self.phase {
            Phase::Analyzing => {},
            _ => {
                return self.waiting_on();
            },
        }
        match outcome {
            None => {},
            Some(result) => {
                self.armed = false;
                let _ = link.result.offer(result);
            },
        }
        self.resume(link, running)
    }
}

} // verus!
