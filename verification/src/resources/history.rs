use crate::components::movement::Pos;
use vstd::prelude::*;

verus! {

/// The frames of the player's past, the newest first.
pub struct History {
    frames: Vec<Frame>,
}

impl History {
    /// The recorded frames, the newest first.
    pub closed spec fn frames(&self) -> Seq<Frame> {
        self.frames@
    }

    /// Records a frame as the newest.
    pub fn add_frame(&mut self, frame: Frame)
        ensures
            final(self).frames() == seq![frame] + old(self).frames(),
    {
        self.frames.insert(0, frame);
        proof {
            assert(self.frames@ =~= seq![frame] + old(self).frames@);
        }
    }

    /// Takes out the newest frame, if any.
    pub fn pop_frame(&mut self) -> (res: Option<Frame>)
        ensures
            old(self).frames().len() == 0 ==> res is None,
            old(self).frames().len() == 0 ==> final(self).frames() == old(self).frames(),
            old(self).frames().len() > 0 ==> res == Some(old(self).frames()[0]),
            old(self).frames().len() > 0 ==> final(self).frames() == old(self).frames().drop_first(),
    {
        if self.frames.len() == 0 {
            None
        } else {
            let f = self.frames.remove(0);
            proof {
                assert(self.frames@ =~= old(self).frames@.drop_first());
            }
            Some(f)
        }
    }

    /// The number of recorded frames.
    pub fn len(&self) -> (res: usize)
        ensures
            res == self.frames().len(),
    {
        self.frames.len()
    }

    /// The frame at the given age: 0 is the newest.
    pub fn frame(&self, i: usize) -> (res: &Frame)
        requires
            i < self.frames().len(),
        ensures
            *res == self.frames()[i as int],
    {
        &self.frames[i]
    }
}

impl Default for History {
    fn default() -> (res: Self)
        ensures
            res.frames() == Seq::<Frame>::empty(),
    {
        History { frames: Vec::new() }
    }
}

/// A snapshot of the player's past: where the player was.
#[derive(Debug, Clone, Copy, PartialEq, Eq, Structural)]
pub struct Frame {
    player_position: Pos,
}

impl Frame {
    pub closed spec fn spec_player_position(&self) -> Pos {
        self.player_position
    }

    /// The frame that saw the player at the given position.
    pub closed spec fn spec_new(player_position: Pos) -> Frame {
        Frame { player_position }
    }

    pub fn new(player_position: Pos) -> (res: Self)
        ensures
            res == Frame::spec_new(player_position),
            res.spec_player_position() == player_position,
    {
        Frame { player_position }
    }

    /// Where the player was.
    pub fn player_position(&self) -> (res: Pos)
        ensures
            res == self.spec_player_position(),
    {
        self.player_position
    }
}

/// A frame gives back the position at which it saw the player.
pub proof fn law_frame_keeps_position(p: Pos)
    ensures
        Frame::spec_new(p).spec_player_position() == p,
{
}

/// Taking out the newest frame right after adding one gives that frame back and leaves the
/// history as it was.
pub proof fn law_pop_undoes_add(frames: Seq<Frame>, frame: Frame)
    ensures
        (seq![frame] + frames).len() > 0,
        (seq![frame] + frames)[0] == frame,
        (seq![frame] + frames).drop_first() == frames,
{
    assert((seq![frame] + frames).drop_first() =~= frames);
}

} // verus!
