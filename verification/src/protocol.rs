//! What holds of every run of a session: the capture loop and the consumer
//! taking their steps in any order, on any input. The steps are those of
//! `capture` and `link`; here they are put one after the other, counted,
//! and shown never to build up a backlog.

use crate::capture::after_analysis;
use crate::capture::after_read;
use crate::capture::begun;
use crate::capture::fresh_loop;
use crate::capture::gate;
use crate::capture::Phase;
use crate::capture::World;
use crate::decode::decode_spec;
use crate::link::fresh_link;
use crate::link::found;
use crate::link::pulled;
use crate::link::Poll;
use crate::ring::lemma_window_append;
use crate::ring::window;
use vstd::prelude::*;

verus! {

/// One step of a session, with what the outside world put into it.
pub enum Move<T> {
    /// The capture thread enters its loop and sees the running flag.
    Begin { running: bool },
    /// The capture thread reports a read, failed (`None`) or not, and sees
    /// the running flag.
    Read { frame: Option<Seq<u8>>, running: bool },
    /// The capture thread reports an analysis, failed (`None`) or not, and
    /// sees the running flag.
    Analysed { outcome: Option<T>, running: bool },
    /// The consumer looks for a result.
    Pull,
}

/// The world after one step.
pub open spec fn step<T>(world: World<T>, m: Move<T>) -> World<T> {
    match m {
        Move::Begin { running } => begun(world, running),
        Move::Read { frame, running } => after_read(world, frame, running),
        Move::Analysed { outcome, running } => after_analysis(world, outcome, running),
        Move::Pull => World { capture: world.capture, link: pulled(world.link) },
    }
}

/// The world after a run of steps.
pub open spec fn run<T>(world: World<T>, moves: Seq<Move<T>>) -> World<T>
    decreases moves.len(),
{
    if moves.len() == 0 {
        world
    } else {
        step(run(world, moves.drop_last()), moves.last())
    }
}

/// The world in which a session starts: an empty window, nothing owed, no
/// result, and one ready token.
pub open spec fn start<T>(capacity: nat, sample_width: nat, frame_bytes: nat) -> World<T> {
    World { capture: fresh_loop(capacity, sample_width, frame_bytes), link: fresh_link() }
}

/// Whether the step takes a ready token out of its channel.
pub open spec fn grants<T>(world: World<T>, m: Move<T>) -> bool {
    &&& m matches Move::Read { frame: Some(bytes), .. }
    &&& world.capture.phase == Phase::Reading
    &&& decode_spec(bytes, world.capture.sample_width) is Ok
    &&& world.link.ready
}

/// Whether the step completes a result.
pub open spec fn computes<T>(world: World<T>, m: Move<T>) -> bool {
    &&& m matches Move::Analysed { outcome: Some(_), .. }
    &&& world.capture.phase == Phase::Analyzing
}

/// Whether the step completes a result that is dropped because another
/// one waits unread.
pub open spec fn drops<T>(world: World<T>, m: Move<T>) -> bool {
    computes(world, m) && world.link.slot.item is Some
}

/// Whether the step hands a result to the consumer.
pub open spec fn delivers<T>(world: World<T>, m: Move<T>) -> bool {
    m is Pull && world.link.slot.item is Some
}

/// How often each of these happened in a run.
pub struct Tally {
    /// Ready tokens taken by the capture loop.
    pub granted: nat,
    /// Results completed.
    pub computed: nat,
    /// Results dropped instead of stored.
    pub dropped: nat,
    /// Results handed to the consumer.
    pub delivered: nat,
}

/// 1 for true, 0 for false.
pub open spec fn count(b: bool) -> nat {
    if b {
        1
    } else {
        0
    }
}

/// The tally of a run that starts in `world`.
pub open spec fn tally<T>(world: World<T>, moves: Seq<Move<T>>) -> Tally
    decreases moves.len(),
{
    if moves.len() == 0 {
        Tally { granted: 0, computed: 0, dropped: 0, delivered: 0 }
    } else {
        let before = run(world, moves.drop_last());
        let so_far = tally(world, moves.drop_last());
        Tally {
            granted: so_far.granted + count(grants(before, moves.last())),
            computed: so_far.computed + count(computes(before, moves.last())),
            dropped: so_far.dropped + count(drops(before, moves.last())),
            delivered: so_far.delivered + count(delivers(before, moves.last())),
        }
    }
}

/// The one request of a session is in exactly one place: as a token in the
/// ready channel, as the capture loop's debt, or as a result in the result
/// channel.
pub open spec fn one_request<T>(world: World<T>) -> bool {
    &&& count(world.link.ready) + count(world.capture.armed) + count(
        world.link.slot.item is Some,
    ) == 1
    &&& world.capture.phase == Phase::Analyzing ==> world.capture.armed
}

/// The books of a run balance.
pub open spec fn balanced<T>(world: World<T>, books: Tally) -> bool {
    &&& one_request(world)
    &&& books.dropped == 0
    &&& books.computed == books.delivered + count(world.link.slot.item is Some)
    &&& books.granted == books.computed + count(world.capture.armed)
}

/// Every step keeps the one request in one place.
pub proof fn lemma_step_keeps_request<T>(world: World<T>, m: Move<T>)
    requires
        one_request(world),
    ensures
        one_request(step(world, m)),
        drops(world, m) == false,
{
}

/// Whatever the two sides do, in whatever order, and whatever the source
/// and the analyser hand in: the books of a session balance.
pub proof fn lemma_balanced<T>(
    capacity: nat,
    sample_width: nat,
    frame_bytes: nat,
    moves: Seq<Move<T>>,
)
    ensures
        balanced(
            run(start::<T>(capacity, sample_width, frame_bytes), moves),
            tally(start::<T>(capacity, sample_width, frame_bytes), moves),
        ),
    decreases moves.len(),
{
    if moves.len() > 0 {
        lemma_balanced::<T>(capacity, sample_width, frame_bytes, moves.drop_last());
        lemma_step_keeps_request(
            run(start::<T>(capacity, sample_width, frame_bytes), moves.drop_last()),
            moves.last(),
        );
    }
}

/// At any point of any run, at most one result is in flight: completed but
/// not yet handed to the consumer. No result is ever dropped, and the
/// result channel holds exactly those in flight.
pub proof fn lemma_one_in_flight<T>(
    capacity: nat,
    sample_width: nat,
    frame_bytes: nat,
    moves: Seq<Move<T>>,
)
    ensures
        ({
            let books = tally(start::<T>(capacity, sample_width, frame_bytes), moves);
            let world = run(start::<T>(capacity, sample_width, frame_bytes), moves);
            &&& books.computed - books.delivered <= 1
            &&& books.computed - books.delivered == count(world.link.slot.item is Some)
            &&& books.dropped == 0
        }),
{
    lemma_balanced::<T>(capacity, sample_width, frame_bytes, moves);
}

/// No result is completed without a ready token taken for it: at any point
/// of any run the results completed are as many as the tokens taken, less
/// the one for which a result is still owed.
pub proof fn lemma_results_follow_tokens<T>(
    capacity: nat,
    sample_width: nat,
    frame_bytes: nat,
    moves: Seq<Move<T>>,
)
    ensures
        ({
            let books = tally(start::<T>(capacity, sample_width, frame_bytes), moves);
            let world = run(start::<T>(capacity, sample_width, frame_bytes), moves);
            &&& books.computed <= books.granted
            &&& books.granted == books.computed + count(world.capture.armed)
            &&& books.granted <= books.delivered + 1
        }),
{
    lemma_balanced::<T>(capacity, sample_width, frame_bytes, moves);
}

/// A run in which the consumer never looks hands nothing over.
pub proof fn lemma_no_pull_no_delivery<T>(world: World<T>, moves: Seq<Move<T>>)
    requires
        forall|i: int| 0 <= i < moves.len() ==> !(#[trigger] moves[i] is Pull),
    ensures
        tally(world, moves).delivered == 0,
    decreases moves.len(),
{
    if moves.len() > 0 {
        assert(!(moves[moves.len() - 1] is Pull));
        assert forall|i: int| 0 <= i < moves.drop_last().len() implies !(
        #[trigger] moves.drop_last()[i] is Pull) by {
            assert(moves.drop_last()[i] == moves[i]);
        }
        lemma_no_pull_no_delivery(world, moves.drop_last());
    }
}

/// While the consumer does not look, the capture loop completes at most
/// one result, however many windows fill up: the first takes the session's
/// one token, and no later one finds another.
pub proof fn lemma_idle_consumer<T>(
    capacity: nat,
    sample_width: nat,
    frame_bytes: nat,
    moves: Seq<Move<T>>,
)
    requires
        forall|i: int| 0 <= i < moves.len() ==> !(#[trigger] moves[i] is Pull),
    ensures
        tally(start::<T>(capacity, sample_width, frame_bytes), moves).computed <= 1,
        tally(start::<T>(capacity, sample_width, frame_bytes), moves).granted <= 1,
{
    lemma_balanced::<T>(capacity, sample_width, frame_bytes, moves);
    lemma_no_pull_no_delivery(start::<T>(capacity, sample_width, frame_bytes), moves);
}

/// A loop that has ended stays ended, and its result channel stays closed,
/// whatever is reported to it afterwards.
pub proof fn lemma_ended_stays_ended<T>(world: World<T>, moves: Seq<Move<T>>)
    requires
        world.capture.phase == Phase::Stopped,
        world.link.slot.closed,
    ensures
        run(world, moves).capture == world.capture,
        run(world, moves).link.slot.closed,
    decreases moves.len(),
{
    if moves.len() > 0 {
        lemma_ended_stays_ended(world, moves.drop_last());
    }
}

/// A failed read ends the loop at once, and from then on a consumer that
/// finds no result waiting is told that the producer has stopped.
pub proof fn lemma_failed_read_disconnects<T>(world: World<T>, running: bool)
    requires
        world.capture.phase == Phase::Reading,
    ensures
        after_read(world, None, running).capture.phase == Phase::Stopped,
        after_read(world, None, running).link.slot.closed,
        world.link.slot.item is None ==> found(after_read(world, None, running).link.slot)
            == Poll::<T>::Disconnected,
{
}

/// The samples that the step takes into the window.
pub open spec fn hears<T>(world: World<T>, m: Move<T>) -> Seq<i32> {
    match m {
        Move::Read { frame: Some(bytes), .. } => if world.capture.phase == Phase::Reading {
            match decode_spec(bytes, world.capture.sample_width) {
                Ok(samples) => samples,
                Err(_) => Seq::<i32>::empty(),
            }
        } else {
            Seq::<i32>::empty()
        },
        _ => Seq::<i32>::empty(),
    }
}

/// All samples taken into the window in a run, in order.
pub open spec fn heard<T>(world: World<T>, moves: Seq<Move<T>>) -> Seq<i32>
    decreases moves.len(),
{
    if moves.len() == 0 {
        Seq::<i32>::empty()
    } else {
        heard(world, moves.drop_last()) + hears(
            run(world, moves.drop_last()),
            moves.last(),
        )
    }
}

/// One step takes the samples it hears into the window, and keeps the
/// sizes the loop was made with.
pub proof fn lemma_step_slides_window<T>(world: World<T>, m: Move<T>)
    ensures
        step(world, m).capture.window == window(
            world.capture.window + hears(world, m),
            world.capture.capacity,
        ) || (hears(world, m).len() == 0 && step(world, m).capture.window
            == world.capture.window),
        step(world, m).capture.capacity == world.capture.capacity,
        step(world, m).capture.sample_width == world.capture.sample_width,
        step(world, m).capture.frame_bytes == world.capture.frame_bytes,
{
}

/// At any point of any run the window holds the last `capacity` samples of
/// all that the source delivered in frames that decoded, in their order.
pub proof fn lemma_window_follows_stream<T>(
    capacity: nat,
    sample_width: nat,
    frame_bytes: nat,
    moves: Seq<Move<T>>,
)
    ensures
        run(start::<T>(capacity, sample_width, frame_bytes), moves).capture.window == window(
            heard(start::<T>(capacity, sample_width, frame_bytes), moves),
            capacity,
        ),
        run(start::<T>(capacity, sample_width, frame_bytes), moves).capture.capacity
            == capacity,
    decreases moves.len(),
{
    let origin = start::<T>(capacity, sample_width, frame_bytes);
    if moves.len() > 0 {
        let before = run(origin, moves.drop_last());
        lemma_window_follows_stream::<T>(capacity, sample_width, frame_bytes, moves.drop_last());
        lemma_step_slides_window(before, moves.last());
        lemma_window_append(
            heard(origin, moves.drop_last()),
            hears(before, moves.last()),
            capacity,
        );
        if hears(before, moves.last()).len() == 0 {
            assert(heard(origin, moves) =~= heard(origin, moves.drop_last()));
        }
    }
}

/// Whether the loop waits on an analysis only with a full window and a
/// result owed.
pub open spec fn analysis_is_due<T>(world: World<T>) -> bool {
    world.capture.phase == Phase::Analyzing ==> gate(world.capture)
}

/// An analysis is only ever asked for on a full window, and only while a
/// result is owed to the consumer.
pub proof fn lemma_analysis_is_due<T>(
    capacity: nat,
    sample_width: nat,
    frame_bytes: nat,
    moves: Seq<Move<T>>,
)
    ensures
        analysis_is_due(run(start::<T>(capacity, sample_width, frame_bytes), moves)),
    decreases moves.len(),
{
    if moves.len() > 0 {
        lemma_analysis_is_due::<T>(capacity, sample_width, frame_bytes, moves.drop_last());
    }
}

} // verus!
