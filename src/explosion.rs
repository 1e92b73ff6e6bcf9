//! Explosions: short-lived marks where something was destroyed.
use crate::constants::EXPLOSION_DURATION;
use crate::entity::{Entity, EntityIds};
use crate::geometry::Pos;
use crate::timer::Timer;
use vstd::prelude::*;

verus! {

/// Request to show an explosion at a place.
#[derive(Clone, Copy, Debug, PartialEq, Eq, Structural)]
pub struct ExplosionEvent(pub Pos);

/// A live explosion and the time it has left.
#[derive(Clone, Copy, Debug, PartialEq, Eq, Structural)]
pub struct Explosion {
    pub id: Entity,
    pub pos: Pos,
    pub timer: Timer,
}

pub open spec fn explosions_wf(s: Seq<Explosion>) -> bool {
    forall|i: int| 0 <= i < s.len() ==> (#[trigger] s[i]).timer.wf()
}

/// Starts an explosion for each request, in order, and empties the queue.
pub fn spawn_explosion(
    events: &mut Vec<ExplosionEvent>,
    explosions: &mut Vec<Explosion>,
    ids: &mut EntityIds,
)
    requires
        old(ids).has_room(old(events)@.len() as int),
        explosions_wf(old(explosions)@),
    ensures
        final(events)@.len() == 0,
        final(ids).next == old(ids).next + old(events)@.len(),
        final(explosions)@ == old(explosions)@ + Seq::new(
            old(events)@.len(),
            |i: int|
                Explosion {
                    id: (old(ids).next + i) as u64,
                    pos: old(events)@[i].0,
                    timer: Timer {
                        duration: EXPLOSION_DURATION,
                        elapsed: 0,
                        paused: false,
                        just_finished: false,
                    },
                },
        ),
        explosions_wf(final(explosions)@),
{
    let ghost start = explosions@.len() as int;
    let ghost base = ids.next as int;
    let ghost fresh = Seq::new(
        events@.len(),
        |i: int|
            Explosion {
                id: (base + i) as u64,
                pos: events@[i].0,
                timer: Timer {
                    duration: EXPLOSION_DURATION,
                    elapsed: 0,
                    paused: false,
                    just_finished: false,
                },
            },
    );
    let mut k: usize = 0;
    while k < events.len()
        invariant
            k <= events@.len(),
            events@ == old(events)@,
            base == old(ids).next,
            start == old(explosions)@.len(),
            ids.next == base + k,
            base + events@.len() < u64::MAX,
            fresh.len() == events@.len(),
            fresh == Seq::new(
                events@.len(),
                |i: int|
                    Explosion {
                        id: (base + i) as u64,
                        pos: events@[i].0,
                        timer: Timer {
                            duration: EXPLOSION_DURATION,
                            elapsed: 0,
                            paused: false,
                            just_finished: false,
                        },
                    },
            ),
            explosions@ == old(explosions)@ + fresh.subrange(0, k as int),
            explosions_wf(explosions@),
        decreases events@.len() - k,
    {
        let id = ids.fresh();
        let e = Explosion { id, pos: events[k].0, timer: Timer::new(EXPLOSION_DURATION) };
        explosions.push(e);
        assert(fresh.subrange(0, k + 1) =~= fresh.subrange(0, k as int).push(fresh[k as int]));
        assert(explosions@ =~= old(explosions)@ + fresh.subrange(0, k + 1));
        k = k + 1;
    }
    assert(fresh.subrange(0, fresh.len() as int) =~= fresh);
    events.clear();
}

/// An explosion after one tick, if it is still showing.
pub open spec fn explosion_ticked(e: Explosion, dt: u64) -> Explosion {
    Explosion { timer: e.timer.ticked(dt), ..e }
}

/// Advances every explosion and removes those that ran out on this tick.
pub fn despawn_explosions(explosions: &mut Vec<Explosion>, dt: u64)
    requires
        explosions_wf(old(explosions)@),
        dt <= 1_000_000,
    ensures
        final(explosions)@ == old(explosions)@.map_values(|e: Explosion| explosion_ticked(e, dt)).filter(
            |e: Explosion| !e.timer.just_finished,
        ),
        explosions_wf(final(explosions)@),
{
    let ghost ticked = old(explosions)@.map_values(|e: Explosion| explosion_ticked(e, dt));
    let mut kept: Vec<Explosion> = Vec::new();
    let mut i: usize = 0;
    while i < explosions.len()
        invariant
            i <= explosions@.len(),
            explosions@ == old(explosions)@,
            explosions_wf(explosions@),
            dt <= 1_000_000,
            ticked == old(explosions)@.map_values(|e: Explosion| explosion_ticked(e, dt)),
            kept@ == ticked.subrange(0, i as int).filter(|e: Explosion| !e.timer.just_finished),
            explosions_wf(kept@),
        decreases explosions@.len() - i,
    {
        let mut e = explosions[i];
        assert(explosions@[i as int].timer.wf());
        e.timer.tick(dt);
        proof {
            let f = |e: Explosion| !e.timer.just_finished;
            assert(ticked.subrange(0, i + 1) =~= ticked.subrange(0, i as int).push(e));
            ticked.subrange(0, i as int).lemma_filter_push(e, f);
        }
        if !e.timer.just_finished {
            kept.push(e);
        }
        i = i + 1;
    }
    assert(ticked.subrange(0, ticked.len() as int) =~= ticked);
    *explosions = kept;
}

/// The frame of the explosion sheet to show: the three frames are played
/// backwards over the explosion's life.
pub open spec fn explosion_frame(t: Timer) -> usize {
    let f = t.elapsed * 3 / (t.duration as int);
    if f >= 2 {
        0
    } else {
        (2 - f) as usize
    }
}

/// The frame each explosion shows now, in the order of `explosions`.
pub fn animate_explosion(explosions: &Vec<Explosion>) -> (frames: Vec<usize>)
    requires
        explosions_wf(explosions@),
    ensures
        frames@.len() == explosions@.len(),
        forall|i: int| 0 <= i < explosions@.len() ==> #[trigger] frames@[i] == explosion_frame(explosions@[i].timer),
{
    let mut frames: Vec<usize> = Vec::new();
    let mut i: usize = 0;
    while i < explosions.len()
        invariant
            i <= explosions@.len(),
            explosions_wf(explosions@),
            frames@.len() == i,
            forall|j: int| 0 <= j < i ==> #[trigger] frames@[j] == explosion_frame(explosions@[j].timer),
        decreases explosions@.len() - i,
    {
        let t = explosions[i].timer;
        assert(explosions@[i as int].timer.wf());
        assert(t.elapsed * 3 <= 3 * 1_000_000_000_000u64);
        let f = t.elapsed * 3 / t.duration;
        let frame: usize = if f >= 2 {
            0
        } else {
            (2 - f) as usize
        };
        frames.push(frame);
        i = i + 1;
    }
    frames
}

} // verus!
