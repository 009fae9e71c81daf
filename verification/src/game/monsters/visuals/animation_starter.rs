use vstd::prelude::*;

verus! {

/// Starts the flying animation of monsters done fading in.
pub struct MonsterAnimationStarterPlugin;

impl MonsterAnimationStarterPlugin {
    /// The frames of the flying loop: 0, 3, 6, then 3 again.
    pub fn flying_frame_indices() -> (frames: Vec<usize>)
        ensures
            frames@ == seq![0usize, 3usize, 6usize, 3usize],
    {
        let mut frames: Vec<usize> = Vec::new();
        frames.push(0);
        frames.push(3);
        frames.push(6);
        frames.push(3);
        assert(frames@ =~= seq![0usize, 3usize, 6usize, 3usize]);
        frames
    }
}

} // verus!
