use vstd::prelude::*;

verus! {

/// Animates monsters as they fly along their paths.
pub struct MonsterAnimationManagerPlugin;

impl MonsterAnimationManagerPlugin {
    /// The frames of the flying loop for a monster heading the way whose first
    /// frame is `initial_frame_index`: that frame and the ones 9 and 18 further
    /// in the atlas, back to 9 further.
    pub fn flying_frame_indices(initial_frame_index: usize) -> (frames: Vec<usize>)
        requires
            initial_frame_index + 18 <= usize::MAX,
        ensures
            frames@ == seq![
                initial_frame_index,
                (initial_frame_index + 9) as usize,
                (initial_frame_index + 18) as usize,
                (initial_frame_index + 9) as usize,
            ],
    {
        let mut frames: Vec<usize> = Vec::new();
        frames.push(initial_frame_index);
        frames.push(initial_frame_index + 9);
        frames.push(initial_frame_index + 18);
        frames.push(initial_frame_index + 9);
        assert(frames@ =~= seq![
            initial_frame_index,
            (initial_frame_index + 9) as usize,
            (initial_frame_index + 18) as usize,
            (initial_frame_index + 9) as usize,
        ]);
        frames
    }
}

} // verus!
