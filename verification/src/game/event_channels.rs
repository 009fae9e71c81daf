use vstd::prelude::*;
use crate::timers::TimerDoneEventType;

verus! {

/// Events that concern the whole game.
#[derive(Debug, Clone, Copy, PartialEq, Eq, Structural)]
pub enum GameEvent {
    RestartGame,
    GameOver,
    DebugKeyPressed,
}

/// The game events that done timers announce, in the order of the timers.
pub open spec fn game_events_of(done: Seq<TimerDoneEventType>) -> Seq<GameEvent>
    decreases done.len(),
{
    if done.len() == 0 {
        Seq::empty()
    } else {
        let earlier = game_events_of(done.drop_last());
        match done.last() {
            TimerDoneEventType::GameEvent(event) => earlier.push(event),
            _ => earlier,
        }
    }
}

/// Carries the game events that timers announce once done.
pub struct GameEventPlugin;

impl GameEventPlugin {
    /// The game events to send for the timers that are done, one for each timer
    /// whose done event is a game event.
    pub fn game_events_of_done_timers(done: &Vec<TimerDoneEventType>) -> (events: Vec<GameEvent>)
        ensures
            events@ == game_events_of(done@),
    {
        let mut events: Vec<GameEvent> = Vec::new();
        let mut i: usize = 0;
        while i < done.len()
            invariant
                i <= done.len(),
                events@ == game_events_of(done@.take(i as int)),
            decreases done.len() - i,
        {
            assert(done@.take(i + 1).drop_last() =~= done@.take(i as int));
            if let TimerDoneEventType::GameEvent(event) = done[i] {
                events.push(event);
            }
            i = i + 1;
        }
        assert(done@.take(done.len() as int) =~= done@);
        events
    }
}


/// Done timers announce their game events in order, one for each timer that
/// carries one: a further done timer adds its game event at the end if it
/// carries one and adds nothing otherwise; no timers, no events.
pub proof fn lemma_game_events_in_timer_order(done: Seq<TimerDoneEventType>, next: TimerDoneEventType)
    ensures
        game_events_of(Seq::<TimerDoneEventType>::empty()) == Seq::<GameEvent>::empty(),
        game_events_of(done.push(next)) == (match next {
            TimerDoneEventType::GameEvent(event) => game_events_of(done).push(event),
            _ => game_events_of(done),
        }),
        game_events_of(done).len() <= done.len(),
    decreases done.len(),
{
    assert(done.push(next).drop_last() =~= done);
    if done.len() > 0 {
        lemma_game_events_in_timer_order(done.drop_last(), done.last());
        assert(done.drop_last().push(done.last()) =~= done);
    }
}

} // verus!
