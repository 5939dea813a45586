use crate::components::movement::{Pos, Steering};
use crate::resources::history::{law_frame_keeps_position, Frame, History};
use vstd::prelude::*;

verus! {

/// What rewinding does in a frame, as the rewind key and the state of the last frame say.
#[derive(Debug, Clone, Copy, PartialEq, Eq, Structural)]
pub enum RewindStep {
    /// Rewinding starts: the first step back is one period away.
    Start,
    /// A step back is taken now: the next one is a period later.
    Renew,
    /// Rewinding goes on: the time to the next step back runs down.
    Tick,
    /// Rewinding stops: the player's position is recorded as a key frame.
    Stop,
    /// Time runs forwards.
    Idle,
}

/// Decides the frame's rewinding: while the rewind key is held, time runs backwards, one step
/// each time the step back is due; releasing the key stops it.
pub fn rewind_control(was_rewinding: bool, key_held: bool, step_due: bool) -> (res: RewindStep)
    ensures
        key_held && !was_rewinding ==> res == RewindStep::Start,
        key_held && was_rewinding && step_due ==> res == RewindStep::Renew,
        key_held && was_rewinding && !step_due ==> res == RewindStep::Tick,
        !key_held && was_rewinding ==> res == RewindStep::Stop,
        !key_held && !was_rewinding ==> res == RewindStep::Idle,
{
    if key_held {
        if !was_rewinding {
            RewindStep::Start
        } else if step_due {
            RewindStep::Renew
        } else {
            RewindStep::Tick
        }
    } else if was_rewinding {
        RewindStep::Stop
    } else {
        RewindStep::Idle
    }
}

/// Whether time runs backwards after the step, and whether a key frame must be recorded.
pub fn rewind_outcome(step: RewindStep) -> (res: (bool, bool))
    ensures
        res.0 == (step == RewindStep::Start || step == RewindStep::Renew || step
            == RewindStep::Tick),
        res.1 == (step == RewindStep::Stop),
{
    match step {
        RewindStep::Start | RewindStep::Renew | RewindStep::Tick => (true, false),
        RewindStep::Stop => (false, true),
        RewindStep::Idle => (false, false),
    }
}

/// After the player moved this frame, records its new position as the newest frame of its
/// history. A position that did not change is recorded only where a key frame is forced,
/// as after a rewind ends. Returns whether a frame was recorded.
pub fn record_position(history: &mut History, old_pos: Pos, new_pos: Pos, force_key_frame: bool) -> (recorded: bool)
    ensures
        recorded == (old_pos != new_pos || force_key_frame),
        recorded ==> final(history).frames() == seq![Frame::spec_new(new_pos)] + old(history).frames(),
        !recorded ==> final(history).frames() == old(history).frames(),
{
    if old_pos != new_pos || force_key_frame {
        history.add_frame(Frame::new(new_pos));
        true
    } else {
        false
    }
}

/// One step back in time: takes the newest frame out of the history and puts the player
/// back where that frame saw it, standing still there. With an empty history nothing changes.
pub fn rewind_step(history: &mut History, steering: &mut Steering) -> (res: Option<Frame>)
    ensures
        old(history).frames().len() == 0 ==> {
            &&& res is None
            &&& final(history).frames() == old(history).frames()
            &&& *final(steering) == *old(steering)
        },
        old(history).frames().len() > 0 ==> {
            &&& res == Some(old(history).frames()[0])
            &&& final(history).frames() == old(history).frames().drop_first()
            &&& *final(steering) == (Steering {
                pos: old(history).frames()[0].spec_player_position(),
                destination: old(history).frames()[0].spec_player_position(),
                ..*old(steering)
            })
        },
{
    let popped = history.pop_frame();
    match popped {
        Some(frame) => {
            let p = frame.player_position();
            steering.pos = p;
            steering.destination = p;
            Some(frame)
        },
        None => None,
    }
}

/// Rewinding right after a move was recorded puts the player back at the position just
/// recorded, standing still, and leaves the history as it was before the recording.
pub proof fn law_rewind_after_record(frames: Seq<Frame>, p: Pos, steering: Steering)
    ensures
        ({
            let recorded = seq![Frame::spec_new(p)] + frames;
            &&& recorded.len() > 0
            &&& recorded.drop_first() == frames
            &&& (Steering {
                pos: recorded[0].spec_player_position(),
                destination: recorded[0].spec_player_position(),
                ..steering
            }) == (Steering { pos: p, destination: p, ..steering })
        }),
{
    law_frame_keeps_position(p);
    assert((seq![Frame::spec_new(p)] + frames).drop_first() =~= frames);
}

} // verus!
