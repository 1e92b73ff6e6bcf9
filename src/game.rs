//! The state of a run and the transitions between levels, lives and runs.
use crate::beetle::{
    beetle_opt_wf, beetle_spawn_shroom, despawn_beetle, move_beetle, spawn_beetle, Beetle,
};
use crate::constants::{
    DOWNTIMER, GAMEOVER_TIMER, MUSHROOM_MAX_AMOUNT, PLAYER_SPAWN_Y, STARTING_LIVES, TOP_UI_HEIGHT,
};
use crate::entity::EntityIds;
use crate::explosion::{despawn_explosions, explosions_wf, spawn_explosion, Explosion};
use crate::geometry::{Field, Pos};
use crate::level::{GameOverTimer, GameVariables, Level};
use crate::millipede::{
    chain_segment, change_direction, death_notice, collide_with_head, collide_with_shroom,
    confine_segment_movement, head_gets_poisoned, segment_hits_player, segment_movement,
    segments_wf, spawn_lone_head, start_segment_spawner_timer, update_head_color,
    update_positions, update_segment_parents, bounced_seq, confined_seq, lone_head_origin,
    millipede_turn_ends, moved_seq, poisoned_seq, promoted_seq, recolored_seq, segment_touches_player,
    segments_moved, segments_steered, turn_through, turned_seq, DespawnSegment, Millipede,
    SegmentEntity, SegmentSpawnerTimer,
};
use crate::player::{
    confine_player_movement, confined_player, move_player, moved_player, DownTimer, Lives, MoveInput,
    Player,
};
use crate::projectile::{
    despawn_projectile, move_projectile, projectile_hits_beetle, projectile_hits_scorpion,
    projectile_hits_segment, projectile_hits_shroom, projectile_hits_spider, projectile_opt_wf,
    projectile_despawned, projectile_moved, queues_wf, shoot_projectile, first_hit_segment, first_hit_shroom, hit_kind, lemma_first_hit_segment_in_range,
    lemma_first_hit_shroom_in_range, hit_reward, HitEvents, HitKind, PlayerProjectile,
};
use crate::score::{added, Score};
use crate::scorpion::{
    convert_to_poison_shroom, despawn_scorpion, move_scorpion, poisoned_by, scorpion_opt_wf,
    spawn_scorpion,
    Scorpion,
};
use crate::shroom::{
    alive_mushrooms, despawn_mushroom, grown, hit_spec, mushrooms_wf, spawn_shroom, MushroomEntity,
    SpawnMushroomEvent,
};
use crate::spider::{
    confine_spider_movement, despawn_spider, move_spider, set_spider_direction, spawn_spider,
    spider_hits_player, spider_opt_wf, Spider, SpiderTimer,
};
use crate::state::{AppState, GameState, LevelState, PlayerState};
use crate::timer::Timer;
use vstd::prelude::*;

verus! {

/// Identifiers a run may use up: far more than any run can.
pub const ID_BUDGET: u64 = 0x4000_0000_0000_0000;

/// Everything a run of the game holds: the entities, the score, lives and
/// level, the difficulty parameters, the states, the timers, and the
/// notices raised during a frame and handled later in it.
pub struct Game {
    pub field: Field,
    pub ids: EntityIds,
    pub segments: Vec<SegmentEntity>,
    pub mushrooms: Vec<MushroomEntity>,
    pub player: Option<Player>,
    pub projectile: Option<PlayerProjectile>,
    pub spider: Option<Spider>,
    pub scorpion: Option<Scorpion>,
    pub beetle: Option<Beetle>,
    pub explosions: Vec<Explosion>,
    pub score: Score,
    pub lives: Lives,
    pub level: Level,
    pub vars: GameVariables,
    pub level_state: LevelState,
    pub player_state: PlayerState,
    pub app_state: AppState,
    pub down_timer: DownTimer,
    pub game_over_timer: GameOverTimer,
    pub spider_timer: SpiderTimer,
    pub segment_spawner_timer: SegmentSpawnerTimer,
    pub events: HitEvents,
}

/// Where a new millipede appears: the middle of the top of the field, below
/// the top bar.
pub open spec fn millipede_origin(field: Field) -> Pos {
    Pos { x: (field.width / 2) as i64, y: (field.height - TOP_UI_HEIGHT) as i64 }
}

/// Where the player appears: the middle of the bottom of the field.
pub open spec fn player_origin(field: Field) -> Pos {
    Pos { x: (field.width / 2) as i64, y: PLAYER_SPAWN_Y }
}

impl Game {
    pub open spec fn wf(&self) -> bool {
        &&& self.field.wf()
        &&& segments_wf(self.segments@)
        &&& mushrooms_wf(self.mushrooms@)
        &&& self.player matches Some(p) ==> p.pos.wf()
        &&& projectile_opt_wf(self.projectile)
        &&& spider_opt_wf(self.spider)
        &&& scorpion_opt_wf(self.scorpion)
        &&& beetle_opt_wf(self.beetle)
        &&& explosions_wf(self.explosions@)
        &&& self.vars.wf()
        &&& self.down_timer.0.wf()
        &&& self.down_timer.0.duration == DOWNTIMER
        &&& self.game_over_timer.0.wf()
        &&& self.spider_timer.0.wf()
        &&& self.segment_spawner_timer.0.wf()
        &&& queues_wf(self.events)
    }

    /// Whether identifiers remain for `n` more entities within the budget.
    pub open spec fn ids_left(&self, n: int) -> bool {
        self.ids.next + n <= ID_BUDGET
    }

    /// A game on the main menu, on a field of the given size.
    pub fn new(field: Field) -> (g: Game)
        requires
            field.wf(),
        ensures
            g.wf(),
            g.field == field,
            g.ids.next == 0,
            g.app_state == AppState::MainMenu,
            g.level_state == LevelState::Changing,
            g.player_state == PlayerState::Dead,
            g.score.0 == 0,
            g.lives.0 == STARTING_LIVES,
            g.level.0 == 0,
            g.vars == GameVariables::initial(),
            g.segments@.len() == 0,
            g.mushrooms@.len() == 0,
            g.explosions@.len() == 0,
            g.player.is_none(),
            g.projectile.is_none(),
            g.spider.is_none(),
            g.scorpion.is_none(),
            g.beetle.is_none(),
            g.down_timer.0 == Timer::new_spec(DOWNTIMER),
            g.game_over_timer.0 == Timer::new_spec(GAMEOVER_TIMER),
            g.spider_timer.0 == Timer::new_spec(crate::constants::SPIDER_TIMER),
            g.segment_spawner_timer.0.paused,
            g.segment_spawner_timer.0.elapsed == 0,
    {
        Game {
            field,
            ids: EntityIds::new(),
            segments: Vec::new(),
            mushrooms: Vec::new(),
            player: None,
            projectile: None,
            spider: None,
            scorpion: None,
            beetle: None,
            explosions: Vec::new(),
            score: Score(0),
            lives: Lives(STARTING_LIVES),
            level: Level(0),
            vars: GameVariables::default(),
            level_state: LevelState::Changing,
            player_state: PlayerState::Dead,
            app_state: AppState::MainMenu,
            down_timer: DownTimer(Timer::new(DOWNTIMER)),
            game_over_timer: GameOverTimer(Timer::new(GAMEOVER_TIMER)),
            spider_timer: SpiderTimer(Timer::new(crate::constants::SPIDER_TIMER)),
            segment_spawner_timer: SegmentSpawnerTimer::default(),
            events: HitEvents {
                explosions: Vec::new(),
                mushrooms: Vec::new(),
                floating: Vec::new(),
                segments: Vec::new(),
            },
        }
    }
}

/// Starts a run afresh: lives, score, level and difficulty back to their
/// starting values, the down timer and the spider's wait restarted, every
/// entity of the game removed, and the level set to change so that the
/// first level begins.
pub fn init_game(g: &mut Game)
    requires
        old(g).wf(),
    ensures
        final(g).wf(),
        final(g).lives.0 == STARTING_LIVES,
        final(g).score.0 == 0,
        final(g).level.0 == 0,
        final(g).vars == GameVariables::initial(),
        final(g).down_timer.0 == (Timer { elapsed: 0, just_finished: false, ..old(g).down_timer.0 }),
        final(g).spider_timer.0 == Timer::new_spec(GameVariables::initial().spider_timer_length),
        final(g).segments@.len() == 0,
        final(g).mushrooms@.len() == 0,
        final(g).explosions@.len() == 0,
        final(g).player.is_none(),
        final(g).spider.is_none(),
        final(g).scorpion.is_none(),
        final(g).beetle.is_none(),
        final(g).level_state == LevelState::Changing,
        final(g).field == old(g).field,
        final(g).ids == old(g).ids,
        final(g).projectile.is_none(),
        final(g).app_state == old(g).app_state,
        final(g).player_state == old(g).player_state,
        final(g).segment_spawner_timer == old(g).segment_spawner_timer,
        final(g).game_over_timer == old(g).game_over_timer,
        final(g).events == old(g).events,
{
    g.lives = Lives(STARTING_LIVES);
    g.score = Score(0);
    g.level = Level(0);
    g.vars.reset();
    g.down_timer.0.reset();
    g.spider = None;
    g.spider_timer = SpiderTimer(Timer::new(g.vars.spider_timer_length));
    g.scorpion = None;
    g.beetle = None;
    g.player = None;
    g.projectile = None;
    g.mushrooms.clear();
    Millipede::despawn(&mut g.segments);
    g.explosions.clear();
    g.level_state = LevelState::Changing;
}

/// Enters a run from a menu: starts it afresh, places the player and asks
/// for the starting field of mushrooms.
pub fn start_game(g: &mut Game)
    requires
        old(g).wf(),
        old(g).ids_left(1),
    ensures
        final(g).wf(),
        final(g).app_state == AppState::InGame,
        final(g).score.0 == 0,
        final(g).lives.0 == STARTING_LIVES,
        final(g).level.0 == 0,
        final(g).level_state == LevelState::Changing,
        final(g).player_state == PlayerState::Alive,
        final(g).player == Some(Player { id: old(g).ids.next, pos: player_origin(old(g).field) }),
        final(g).segments@.len() == 0,
        final(g).ids.next == old(g).ids.next + 1,
        final(g).events.mushrooms@.len() == old(g).events.mushrooms@.len() + MUSHROOM_MAX_AMOUNT,
        final(g).mushrooms@.len() == 0,
        final(g).projectile.is_none(),
        final(g).spider.is_none(),
        final(g).scorpion.is_none(),
        final(g).beetle.is_none(),
{
    init_game(g);
    Player::spawn(
        Pos { x: g.field.width / 2, y: PLAYER_SPAWN_Y },
        &mut g.player,
        &mut g.player_state,
        &mut g.ids,
    );
    let ghost prev = g.events.mushrooms@;
    crate::shroom::spawn_shroom_field(g.field, &mut g.events.mushrooms);
    proof {
        assert forall|i: int| 0 <= i < g.events.mushrooms@.len() implies (
        #[trigger] g.events.mushrooms@[i]).0.wf() by {
            if i < prev.len() {
                assert(g.events.mushrooms@.subrange(0, prev.len() as int)[i] == g.events.mushrooms@[i]);
                assert(prev[i].0.wf());
            }
        }
    }
    g.app_state = AppState::InGame;
}

/// Once every segment is gone, restarts the down timer and sets the level
/// to change.
pub fn check_if_change_level(g: &mut Game)
    requires
        old(g).wf(),
    ensures
        final(g).wf(),
        if old(g).segments@.len() == 0 {
            &&& final(g).down_timer.0 == (Timer { elapsed: 0, just_finished: false, ..old(g).down_timer.0 })
            &&& final(g).level_state == LevelState::Changing
        } else {
            &&& final(g).down_timer == old(g).down_timer
            &&& final(g).level_state == old(g).level_state
        },
        final(g).segments@ == old(g).segments@,
        final(g).score == old(g).score,
        final(g).lives == old(g).lives,
        final(g).level == old(g).level,
        final(g).player_state == old(g).player_state,
        final(g).app_state == old(g).app_state,
        final(g).ids == old(g).ids,
        final(g).field == old(g).field,
        final(g).events == old(g).events,
{
    if g.segments.len() != 0 {
        return;
    }
    g.down_timer.0.reset();
    g.level_state = LevelState::Changing;
}

/// How far a new level's down timer is set on when the player is already
/// gone, so that the restart from death follows at once.
pub const DOWNTIMER_PREARM: u64 = 1_990_000;

/// Once the down timer finishes: moves the difficulty on from the current
/// level, spawns a millipede of the new length at the top, counts the
/// level, pauses and restarts the lone-head spawner and settles the level.
/// If the player is gone, marks it dead and sets the down timer nearly to
/// its end, so the restart from death follows at once.
pub fn start_new_level(g: &mut Game, dt: u64)
    requires
        old(g).wf(),
        dt <= 1_000_000,
        old(g).ids_left(64),
    ensures
        final(g).wf(),
        final(g).field == old(g).field,
        final(g).score == old(g).score,
        final(g).lives == old(g).lives,
        final(g).app_state == old(g).app_state,
        final(g).mushrooms@ == old(g).mushrooms@,
        final(g).player == old(g).player,
        final(g).ids.next <= old(g).ids.next + 64,
        final(g).ids.next >= old(g).ids.next,
        final(g).events == old(g).events,
        final(g).spider == old(g).spider,
        final(g).scorpion == old(g).scorpion,
        final(g).beetle == old(g).beetle,
        final(g).projectile == old(g).projectile,
        final(g).explosions@ == old(g).explosions@,
        final(g).spider_timer == old(g).spider_timer,
        final(g).game_over_timer == old(g).game_over_timer,
        ({
            let t = old(g).down_timer.0.ticked(dt);
            if !t.just_finished {
                &&& final(g).down_timer.0 == t
                &&& final(g).ids == old(g).ids
                &&& final(g).segments@ == old(g).segments@
                &&& final(g).vars == old(g).vars
                &&& final(g).level == old(g).level
                &&& final(g).level_state == old(g).level_state
                &&& final(g).player_state == old(g).player_state
                &&& final(g).segment_spawner_timer == old(g).segment_spawner_timer
            } else {
                let v = old(g).vars.escalated(old(g).level.0);
                let n = old(g).segments@.len();
                &&& final(g).vars == v
                &&& final(g).ids.next == old(g).ids.next + v.millipede_length
                &&& final(g).level.0 == (if old(g).level.0 < u32::MAX {
                    old(g).level.0 + 1
                } else {
                    old(g).level.0 as int
                })
                &&& final(g).segments@.len() == n + v.millipede_length
                &&& final(g).segments@.subrange(0, n as int) == old(g).segments@
                &&& forall|i: int|
                    0 <= i < v.millipede_length ==> #[trigger] final(g).segments@[n + i] == chain_segment(
                        millipede_origin(old(g).field),
                        old(g).ids.next as int,
                        i,
                    )
                &&& final(g).segment_spawner_timer.0 == (Timer {
                    elapsed: 0,
                    paused: true,
                    just_finished: false,
                    ..old(g).segment_spawner_timer.0
                })
                &&& final(g).level_state == LevelState::Unchanging
                &&& if old(g).player.is_none() {
                    &&& final(g).player_state == PlayerState::Dead
                    &&& final(g).down_timer.0 == (Timer {
                        elapsed: DOWNTIMER_PREARM,
                        just_finished: false,
                        ..t
                    })
                } else {
                    &&& final(g).player_state == old(g).player_state
                    &&& final(g).down_timer.0 == t
                }
            }
        }),
{
    g.down_timer.0.tick(dt);
    if !g.down_timer.0.just_finished {
        return;
    }
    let origin = Pos { x: g.field.width / 2, y: g.field.height - TOP_UI_HEIGHT };
    g.vars.escalate(g.level.0);
    Millipede::spawn(g.vars.millipede_length, origin, &mut g.segments, &mut g.ids);
    g.level.0 = g.level.0.saturating_add(1);
    g.segment_spawner_timer.0.pause();
    g.segment_spawner_timer.0.reset();
    g.level_state = LevelState::Unchanging;
    if g.player.is_none() {
        g.player_state = PlayerState::Dead;
        g.down_timer.0.reset();
        g.down_timer.0.set_elapsed(DOWNTIMER_PREARM);
    }
}

/// While the player is dead, once the down timer finishes: with no lives
/// left, arms the game-over timer and ends the run; otherwise clears the
/// millipede, the spider, the scorpion and the projectile, pauses and
/// restarts the lone-head spawner, spawns a millipede of the current length
/// at the top and brings the player back.
pub fn restart_level_from_death(g: &mut Game, dt: u64)
    requires
        old(g).wf(),
        dt <= 1_000_000,
        old(g).ids_left(64),
    ensures
        final(g).wf(),
        final(g).field == old(g).field,
        final(g).score == old(g).score,
        final(g).lives == old(g).lives,
        final(g).level == old(g).level,
        final(g).vars == old(g).vars,
        final(g).mushrooms@ == old(g).mushrooms@,
        final(g).ids.next <= old(g).ids.next + 64,
        final(g).ids.next >= old(g).ids.next,
        final(g).events == old(g).events,
        final(g).beetle == old(g).beetle,
        final(g).explosions@ == old(g).explosions@,
        ({
            let t = old(g).down_timer.0.ticked(dt);
            &&& final(g).down_timer.0 == t
            &&& if !t.just_finished {
                &&& final(g).segments@ == old(g).segments@
                &&& final(g).player == old(g).player
                &&& final(g).player_state == old(g).player_state
                &&& final(g).app_state == old(g).app_state
            } else if old(g).lives.0 == 0 {
                &&& final(g).app_state == AppState::GameOver
                &&& final(g).game_over_timer.0 == (Timer {
                    elapsed: 0,
                    paused: false,
                    just_finished: false,
                    ..old(g).game_over_timer.0
                })
                &&& final(g).segments@ == old(g).segments@
                &&& final(g).player == old(g).player
                &&& final(g).player_state == old(g).player_state
                &&& final(g).ids == old(g).ids
                &&& final(g).spider == old(g).spider
                &&& final(g).scorpion == old(g).scorpion
                &&& final(g).projectile == old(g).projectile
                &&& final(g).spider_timer == old(g).spider_timer
                &&& final(g).segment_spawner_timer == old(g).segment_spawner_timer
            } else {
                let n = old(g).vars.millipede_length;
                &&& final(g).app_state == old(g).app_state
                &&& final(g).game_over_timer == old(g).game_over_timer
                &&& final(g).spider_timer.0 == (if old(g).spider.is_some() {
                    Timer::new_spec(old(g).vars.spider_timer_length)
                } else {
                    old(g).spider_timer.0
                })
                &&& final(g).segments@.len() == n
                &&& forall|i: int|
                    0 <= i < n ==> #[trigger] final(g).segments@[i] == chain_segment(
                        millipede_origin(old(g).field),
                        old(g).ids.next as int,
                        i,
                    )
                &&& final(g).spider.is_none()
                &&& final(g).scorpion.is_none()
                &&& final(g).projectile.is_none()
                &&& final(g).segment_spawner_timer.0 == (Timer {
                    elapsed: 0,
                    paused: true,
                    just_finished: false,
                    ..old(g).segment_spawner_timer.0
                })
                &&& final(g).player == Some(
                    Player { id: (old(g).ids.next + n) as u64, pos: player_origin(old(g).field) },
                )
                &&& final(g).player_state == PlayerState::Alive
            }
        }),
{
    g.down_timer.0.tick(dt);
    if !g.down_timer.0.just_finished {
        return;
    }
    if g.lives.0 == 0 {
        g.game_over_timer.0.reset();
        g.game_over_timer.0.unpause();
        g.app_state = AppState::GameOver;
        return;
    }
    Millipede::despawn(&mut g.segments);
    if g.spider.is_some() {
        Spider::despawn(&mut g.spider, &mut g.spider_timer, g.vars.spider_timer_length);
    }
    Scorpion::despawn(&mut g.scorpion);
    g.projectile = None;
    g.segment_spawner_timer.0.pause();
    g.segment_spawner_timer.0.reset();
    let origin = Pos { x: g.field.width / 2, y: g.field.height - TOP_UI_HEIGHT };
    assert(origin == millipede_origin(g.field));
    let ghost base = g.ids.next;
    Millipede::spawn(g.vars.millipede_length, origin, &mut g.segments, &mut g.ids);
    assert(g.ids.next == base + g.vars.millipede_length);
    assert(forall|i: int| 0 <= i < g.vars.millipede_length ==> #[trigger] g.segments@[i] == chain_segment(millipede_origin(g.field), base as int, i)) by {
        assert forall|i: int| 0 <= i < g.vars.millipede_length implies #[trigger] g.segments@[i] == chain_segment(millipede_origin(g.field), base as int, i) by {
            assert(g.segments@[0 + i] == chain_segment(origin, base as int, i));
        }
    }
    Player::spawn(
        Pos { x: g.field.width / 2, y: PLAYER_SPAWN_Y },
        &mut g.player,
        &mut g.player_state,
        &mut g.ids,
    );
}

/// The segments once the hit `k` is resolved: a shot segment is gone.
pub open spec fn segments_after_hit(g: Game, k: HitKind) -> Seq<SegmentEntity> {
    match k {
        HitKind::Segment(i) => g.segments@.remove(i as int),
        _ => g.segments@,
    }
}

/// The death notices once the hit `k` is resolved.
pub open spec fn notices_after_hit(g: Game, k: HitKind) -> Seq<DespawnSegment> {
    match k {
        HitKind::Segment(i) => g.events.segments@.push(death_notice(g.segments@[i as int])),
        _ => g.events.segments@,
    }
}

/// The mushrooms once the hit `k` is resolved: a shot mushroom loses health.
pub open spec fn mushrooms_after_hit(g: Game, k: HitKind) -> Seq<MushroomEntity> {
    match k {
        HitKind::Mushroom(i) => g.mushrooms@.update(i as int, hit_spec(g.mushrooms@[i as int]).0),
        _ => g.mushrooms@,
    }
}

/// The requests for new mushrooms once the hit `k` is resolved: a shot
/// segment or beetle leaves one where it was.
pub open spec fn requests_after_hit(g: Game, k: HitKind) -> Seq<SpawnMushroomEvent> {
    match k {
        HitKind::Segment(i) => g.events.mushrooms@.push(SpawnMushroomEvent(g.segments@[i as int].pos)),
        HitKind::Beetle => g.events.mushrooms@.push(SpawnMushroomEvent(g.beetle.unwrap().pos)),
        _ => g.events.mushrooms@,
    }
}

/// What the projectile of `g` hits first.
pub open spec fn hit_of(g: Game) -> HitKind {
    hit_kind(g.projectile, g.scorpion, g.spider, g.segments@, g.beetle, g.mushrooms@)
}

/// Tests the projectile against each kind of target in a fixed order
/// (scorpion, spider, segments, beetle, mushrooms); the first hit uses the
/// projectile up, so one shot scores at most once.
#[verifier::rlimit(60)]
pub fn resolve_projectile_hits(g: &mut Game)
    requires
        old(g).wf(),
    ensures
        final(g).wf(),
        final(g).ids == old(g).ids,
        final(g).field == old(g).field,
        final(g).player == old(g).player,
        final(g).player_state == old(g).player_state,
        final(g).level_state == old(g).level_state,
        final(g).app_state == old(g).app_state,
        final(g).lives == old(g).lives,
        final(g).level == old(g).level,
        final(g).vars == old(g).vars,
        final(g).down_timer == old(g).down_timer,
        final(g).game_over_timer == old(g).game_over_timer,
        final(g).segment_spawner_timer == old(g).segment_spawner_timer,
        final(g).explosions@ == old(g).explosions@,
        final(g).events.explosions@.len() <= old(g).events.explosions@.len() + 1,
        final(g).score.0 == added(
            old(g).score.0,
            hit_reward(hit_of(*old(g)), old(g).spider, old(g).segments@, old(g).mushrooms@, old(g).vars.spider_reward),
        ),
        final(g).projectile == (if hit_of(*old(g)) == HitKind::Miss {
            old(g).projectile
        } else {
            None
        }),
        final(g).scorpion == (if hit_of(*old(g)) == HitKind::Scorpion {
            None
        } else {
            old(g).scorpion
        }),
        final(g).spider == (if hit_of(*old(g)) == HitKind::Spider {
            None
        } else {
            old(g).spider
        }),
        final(g).spider_timer.0 == (if hit_of(*old(g)) == HitKind::Spider {
            Timer::new_spec(old(g).vars.spider_timer_length)
        } else {
            old(g).spider_timer.0
        }),
        final(g).beetle == (if hit_of(*old(g)) == HitKind::Beetle {
            None
        } else {
            old(g).beetle
        }),
        final(g).segments@ == segments_after_hit(*old(g), hit_of(*old(g))),
        final(g).mushrooms@ == mushrooms_after_hit(*old(g), hit_of(*old(g))),
        final(g).events.segments@ == notices_after_hit(*old(g), hit_of(*old(g))),
        final(g).events.mushrooms@ == requests_after_hit(*old(g), hit_of(*old(g))),
{
    // The lengths bound the indices a hit can name.
    let _segment_count = g.segments.len();
    let _mushroom_count = g.mushrooms.len();
    proof {
        if let Some(p) = old(g).projectile {
            lemma_first_hit_shroom_in_range(p.pos, old(g).mushrooms@);
            lemma_first_hit_segment_in_range(p.pos, old(g).segments@);
            let f = first_hit_shroom(p.pos, old(g).mushrooms@);
            if f is Some {
                assert(0 <= f.unwrap() < old(g).mushrooms@.len());
            }
            let h = first_hit_segment(p.pos, old(g).segments@);
            if h is Some {
                assert(0 <= h.unwrap() < old(g).segments@.len());
            }
        }
    }
    projectile_hits_scorpion(&mut g.projectile, &mut g.scorpion, &mut g.score, &mut g.events);
    projectile_hits_spider(
        &mut g.projectile,
        &mut g.spider,
        &mut g.spider_timer,
        &mut g.score,
        &mut g.events,
        g.vars.spider_reward,
        g.vars.spider_timer_length,
    );
    projectile_hits_segment(&mut g.projectile, &mut g.segments, &mut g.score, &mut g.events);
    projectile_hits_beetle(&mut g.projectile, &mut g.beetle, &mut g.score, &mut g.events);
    projectile_hits_shroom(&mut g.projectile, &mut g.mushrooms, &mut g.score);
}

/// The keys of a frame.
#[derive(Clone, Copy, Debug, PartialEq, Eq, Structural)]
pub struct FrameInput {
    pub moves: MoveInput,
    pub shoot: bool,
}

/// Identifiers a frame may use besides one per queued mushroom and
/// explosion.
pub const FRAME_IDS: u64 = 200;

/// Whether the player fires this frame: the shoot key is held, there is a
/// player and no projectile in flight.
pub open spec fn fires(g: Game, input: FrameInput) -> bool {
    g.projectile.is_none() && input.shoot && g.player.is_some()
}

/// The projectile in flight once the player has moved and perhaps fired
/// and the projectile has flown for the frame.
pub open spec fn shot_of(g: Game, input: FrameInput, dt: u64) -> Option<PlayerProjectile> {
    let after_move = moved_player(g.player, input.moves, dt as int);
    projectile_moved(
        if fires(g, input) {
            Some(PlayerProjectile { id: g.ids.next, pos: after_move.unwrap().pos })
        } else {
            g.projectile
        },
        dt as int,
    )
}

/// What this frame's shot hits first.
pub open spec fn frame_hit(g: Game, input: FrameInput, dt: u64) -> HitKind {
    hit_kind(shot_of(g, input, dt), g.scorpion, g.spider, g.segments@, g.beetle, g.mushrooms@)
}

/// The player once moved and kept in its band.
pub open spec fn player_after_move(g: Game, input: FrameInput, dt: u64) -> Option<Player> {
    confined_player(moved_player(g.player, input.moves, dt as int), g.field)
}

/// The mushrooms the millipede meets this frame: those left after the
/// shot, then those grown from the queued requests.
pub open spec fn frame_mushrooms(g: Game, input: FrameInput, dt: u64) -> Seq<MushroomEntity> {
    let k = frame_hit(g, input, dt);
    alive_mushrooms(mushrooms_after_hit(g, k)) + grown(
        requests_after_hit(g, k),
        g.ids.next + if fires(g, input) {
            1int
        } else {
            0
        },
    )
}

/// The player moves and shoots, and the projectile flies and hits.
#[verifier::rlimit(60)]
fn player_step(g: &mut Game, input: FrameInput, dt: u64) -> (fired: bool)
    requires
        old(g).wf(),
        dt <= 1_000_000,
        old(g).ids_left(1),
    ensures
        final(g).wf(),
        fired == fires(*old(g), input),
        final(g).player == player_after_move(*old(g), input, dt),
        final(g).ids.next == old(g).ids.next + if fired {
            1int
        } else {
            0
        },
        final(g).projectile == projectile_despawned(
            if frame_hit(*old(g), input, dt) == HitKind::Miss {
                shot_of(*old(g), input, dt)
            } else {
                None
            },
            old(g).field,
        ),
        final(g).score.0 == added(
            old(g).score.0,
            hit_reward(
                frame_hit(*old(g), input, dt),
                old(g).spider,
                old(g).segments@,
                old(g).mushrooms@,
                old(g).vars.spider_reward,
            ),
        ),
        final(g).segments@ == segments_after_hit(*old(g), frame_hit(*old(g), input, dt)),
        final(g).events.segments@ == notices_after_hit(*old(g), frame_hit(*old(g), input, dt)),
        final(g).mushrooms@ == alive_mushrooms(mushrooms_after_hit(*old(g), frame_hit(*old(g), input, dt))),
        final(g).events.mushrooms@ == requests_after_hit(*old(g), frame_hit(*old(g), input, dt)),
        final(g).scorpion == (if frame_hit(*old(g), input, dt) == HitKind::Scorpion {
            None
        } else {
            old(g).scorpion
        }),
        final(g).events.explosions@.len() <= old(g).events.explosions@.len() + 1,
        final(g).level == old(g).level,
        final(g).level_state == old(g).level_state,
        final(g).app_state == old(g).app_state,
        final(g).vars == old(g).vars,
        final(g).field == old(g).field,
        final(g).lives == old(g).lives,
        final(g).player_state == old(g).player_state,
        final(g).down_timer == old(g).down_timer,
        final(g).segment_spawner_timer == old(g).segment_spawner_timer,
{
    let dti = dt as i64;
    move_player(&mut g.player, input.moves, dti);
    let fired = shoot_projectile(&mut g.projectile, &g.player, input.shoot, &mut g.ids);
    confine_player_movement(&mut g.player, g.field);
    move_projectile(&mut g.projectile, dti);
    assert(g.projectile == shot_of(*old(g), input, dt));
    assert(hit_of(*g) == frame_hit(*old(g), input, dt));
    resolve_projectile_hits(g);
    despawn_projectile(&mut g.projectile, g.field);
    despawn_mushroom(&mut g.mushrooms);
    fired
}

/// New mushrooms grow, and the beetle comes, falls and sows.
fn beetle_step(g: &mut Game, dt: u64)
    requires
        old(g).wf(),
        dt <= 1_000_000,
        old(g).ids_left(1 + old(g).events.mushrooms@.len() as int),
    ensures
        final(g).wf(),
        final(g).mushrooms@ == old(g).mushrooms@ + grown(old(g).events.mushrooms@, old(g).ids.next as int),
        final(g).ids.next >= old(g).ids.next + old(g).events.mushrooms@.len(),
        final(g).ids.next <= old(g).ids.next + 1 + old(g).events.mushrooms@.len(),
        final(g).events.explosions@ == old(g).events.explosions@,
        final(g).events.mushrooms@.len() <= 1,
        final(g).events.segments@ == old(g).events.segments@,
        final(g).segments@ == old(g).segments@,
        final(g).player == old(g).player,
        final(g).projectile == old(g).projectile,
        final(g).score == old(g).score,
        final(g).scorpion == old(g).scorpion,
        final(g).level == old(g).level,
        final(g).level_state == old(g).level_state,
        final(g).app_state == old(g).app_state,
        final(g).vars == old(g).vars,
        final(g).field == old(g).field,
        final(g).lives == old(g).lives,
        final(g).player_state == old(g).player_state,
        final(g).down_timer == old(g).down_timer,
        final(g).segment_spawner_timer == old(g).segment_spawner_timer,
{
    let dti = dt as i64;
    spawn_shroom(&mut g.events.mushrooms, &mut g.mushrooms, &mut g.ids);
    spawn_beetle(&mut g.beetle, g.mushrooms.len(), g.field, &mut g.ids);
    move_beetle(&mut g.beetle, dti);
    beetle_spawn_shroom(&g.beetle, &mut g.events.mushrooms);
    despawn_beetle(&mut g.beetle);
}

/// The millipede takes its turn: orphans are promoted, every segment moves
/// against this frame's snapshot of positions and is kept in the field, a
/// touched player dies, and heads turn, get poisoned or cured, bounce off
/// mushrooms, a lone head may come, and heads that meet turn back.
#[verifier::rlimit(60)]
fn millipede_step(g: &mut Game, dt: u64)
    requires
        old(g).wf(),
        dt <= 1_000_000,
        old(g).ids_left(2),
    ensures
        final(g).wf(),
        millipede_turn_ends(
            segments_steered(
                old(g).segments@,
                old(g).events.segments@,
                old(g).mushrooms@,
                old(g).vars.millipede_speed as int,
                dt as int,
                old(g).field,
            ),
            final(g).segments@,
        ),
        final(g).player == (match old(g).player {
            Some(p) => if segment_touches_player(
                p.pos,
                segments_moved(
                    old(g).segments@,
                    old(g).events.segments@,
                    old(g).vars.millipede_speed as int,
                    dt as int,
                    old(g).field,
                ),
            ) {
                None
            } else {
                Some(p)
            },
            None => None,
        }),
        final(g).score == old(g).score,
        final(g).mushrooms@ == old(g).mushrooms@,
        final(g).projectile == old(g).projectile,
        final(g).scorpion == old(g).scorpion,
        final(g).ids.next >= old(g).ids.next,
        final(g).ids.next <= old(g).ids.next + 1,
        final(g).events.explosions@.len() <= old(g).events.explosions@.len() + 1,
        final(g).events.mushrooms@ == old(g).events.mushrooms@,
        final(g).events.segments@.len() == 0,
        final(g).player.is_some() ==> final(g).down_timer == old(g).down_timer,
        final(g).level == old(g).level,
        final(g).level_state == old(g).level_state,
        final(g).app_state == old(g).app_state,
        final(g).vars == old(g).vars,
        final(g).field == old(g).field,
{
    let dti = dt as i64;
    let ghost s0 = g.segments@;
    let ghost evs = g.events.segments@;
    update_segment_parents(&mut g.events.segments, &mut g.segments);
    assert(g.segments@ =~= promoted_seq(s0, evs));
    let positions = update_positions(&g.segments);
    let ghost s1 = g.segments@;
    segment_movement(&positions, &mut g.segments, g.vars.millipede_speed, dti);
    assert(g.segments@ =~= moved_seq(s1, g.vars.millipede_speed as int, dt as int));
    let ghost s2 = g.segments@;
    confine_segment_movement(&mut g.segments, g.field);
    assert(g.segments@ =~= confined_seq(s2, g.field));
    assert(g.segments@ == segments_moved(s0, evs, g.vars.millipede_speed as int, dt as int, g.field));
    if segment_hits_player(&g.player, &g.segments) {
        Player::kill(&mut g.player, &mut g.player_state, &mut g.lives, &mut g.down_timer, &mut g.events.explosions);
    }
    let ghost s3 = g.segments@;
    change_direction(&mut g.segments, g.field);
    assert(g.segments@ =~= turned_seq(s3, g.field));
    let ghost s4 = g.segments@;
    head_gets_poisoned(&mut g.segments, &g.mushrooms);
    assert(g.segments@ =~= poisoned_seq(s4, g.mushrooms@));
    let ghost s5 = g.segments@;
    collide_with_shroom(&mut g.segments, &g.mushrooms);
    assert(g.segments@ =~= bounced_seq(s5, g.mushrooms@));
    let ghost s6 = g.segments@;
    start_segment_spawner_timer(&mut g.segment_spawner_timer, &g.segments);
    spawn_lone_head(&mut g.segment_spawner_timer, g.level_state, dt, &mut g.segments, &mut g.ids);
    let ghost s7 = g.segments@;
    assert(s7 == s6 || s7 == s6.push(chain_segment(lone_head_origin(), old(g).ids.next as int, 0)));
    collide_with_head(&mut g.segments);
    let ghost x = g.segments@;
    update_head_color(&mut g.segments);
    assert(g.segments@ =~= recolored_seq(x));
    assert(turn_through(s6, s7, x, g.segments@));
}

/// The spider and the scorpion take their turns.
fn spider_step(g: &mut Game, dt: u64)
    requires
        old(g).wf(),
        dt <= 1_000_000,
        old(g).ids_left(2),
    ensures
        final(g).wf(),
        final(g).mushrooms@ == poisoned_by(old(g).mushrooms@, old(g).scorpion),
        final(g).player == old(g).player || final(g).player.is_none(),
        final(g).score == old(g).score,
        final(g).segments@ == old(g).segments@,
        final(g).projectile == old(g).projectile,
        final(g).ids.next >= old(g).ids.next,
        final(g).ids.next <= old(g).ids.next + 2,
        final(g).events.explosions@.len() <= old(g).events.explosions@.len() + 1,
        final(g).events.mushrooms@ == old(g).events.mushrooms@,
        final(g).events.segments@ == old(g).events.segments@,
        final(g).player.is_some() ==> final(g).down_timer == old(g).down_timer,
        final(g).level == old(g).level,
        final(g).level_state == old(g).level_state,
        final(g).app_state == old(g).app_state,
        final(g).vars == old(g).vars,
        final(g).field == old(g).field,
{
    let dti = dt as i64;
    spawn_spider(
        &mut g.spider,
        &mut g.spider_timer,
        dt,
        g.field,
        g.vars.spider_average_spawn_height,
        &mut g.ids,
    );
    set_spider_direction(
        &mut g.spider,
        g.field,
        &g.player,
        g.vars.spider_attack_rate,
        g.vars.spider_leave_rate,
    );
    move_spider(&mut g.spider, g.vars.spider_speed, dti);
    despawn_spider(&mut g.spider, &mut g.spider_timer, g.field, g.vars.spider_timer_length);
    confine_spider_movement(&mut g.spider, g.field);
    if spider_hits_player(&g.spider, &g.player) {
        Player::kill(&mut g.player, &mut g.player_state, &mut g.lives, &mut g.down_timer, &mut g.events.explosions);
    }
    convert_to_poison_shroom(&g.scorpion, &mut g.mushrooms);
    spawn_scorpion(&mut g.scorpion, g.level.0, g.field, &mut g.ids);
    move_scorpion(&mut g.scorpion, dti);
    despawn_scorpion(&mut g.scorpion, g.field);
}

/// The gameplay of a frame while the player is alive and the game is not
/// paused: the player moves and shoots, the projectile flies and scores its
/// first hit, mushrooms grow and the beetle takes its turn, then the
/// millipede moves, steers and may kill the player, and the spider and the
/// scorpion take their turns. Tells whether a shot was fired.
pub fn gameplay_step(g: &mut Game, input: FrameInput, dt: u64) -> (fired: bool)
    requires
        old(g).wf(),
        dt <= 1_000_000,
        old(g).ids_left(FRAME_IDS + old(g).events.mushrooms@.len() as int),
    ensures
        final(g).wf(),
        fired == fires(*old(g), input),
        final(g).score.0 == added(
            old(g).score.0,
            hit_reward(
                frame_hit(*old(g), input, dt),
                old(g).spider,
                old(g).segments@,
                old(g).mushrooms@,
                old(g).vars.spider_reward,
            ),
        ),
        final(g).projectile == projectile_despawned(
            if frame_hit(*old(g), input, dt) == HitKind::Miss {
                shot_of(*old(g), input, dt)
            } else {
                None
            },
            old(g).field,
        ),
        millipede_turn_ends(
            segments_steered(
                segments_after_hit(*old(g), frame_hit(*old(g), input, dt)),
                notices_after_hit(*old(g), frame_hit(*old(g), input, dt)),
                frame_mushrooms(*old(g), input, dt),
                old(g).vars.millipede_speed as int,
                dt as int,
                old(g).field,
            ),
            final(g).segments@,
        ),
        final(g).mushrooms@ == poisoned_by(
            frame_mushrooms(*old(g), input, dt),
            if frame_hit(*old(g), input, dt) == HitKind::Scorpion {
                None
            } else {
                old(g).scorpion
            },
        ),
        final(g).player == player_after_move(*old(g), input, dt) || final(g).player.is_none(),
        (match player_after_move(*old(g), input, dt) {
            Some(p) => segment_touches_player(
                p.pos,
                segments_moved(
                    segments_after_hit(*old(g), frame_hit(*old(g), input, dt)),
                    notices_after_hit(*old(g), frame_hit(*old(g), input, dt)),
                    old(g).vars.millipede_speed as int,
                    dt as int,
                    old(g).field,
                ),
            ),
            None => false,
        }) ==> final(g).player.is_none(),
        final(g).score.0 >= old(g).score.0,
        final(g).ids.next >= old(g).ids.next,
        final(g).ids.next <= old(g).ids.next + FRAME_IDS + old(g).events.mushrooms@.len(),
        final(g).events.explosions@.len() <= old(g).events.explosions@.len() + 3,
        final(g).events.mushrooms@.len() <= 1,
        final(g).events.segments@.len() == 0,
        final(g).player.is_some() ==> final(g).down_timer == old(g).down_timer,
        final(g).level == old(g).level,
        final(g).level_state == old(g).level_state,
        final(g).app_state == old(g).app_state,
        final(g).vars == old(g).vars,
        final(g).field == old(g).field,
{
    let fired = player_step(g, input, dt);
    beetle_step(g, dt);
    millipede_step(g, dt);
    spider_step(g, dt);
    fired
}

/// Which sound loops should be audible: each enemy's loop while it is
/// about during a run, the background beat while a run is not paused, and
/// the falling sound while a beetle falls toward a live player.
#[derive(Clone, Copy, Debug, PartialEq, Eq, Structural)]
pub struct LoopCues {
    pub millipede: bool,
    pub spider: bool,
    pub scorpion: bool,
    pub background: bool,
    pub falling: bool,
}

pub fn loop_cues(g: &Game, game_state: GameState) -> (r: LoopCues)
    ensures
        r == (LoopCues {
            millipede: g.segments@.len() > 0 && g.app_state == AppState::InGame,
            spider: g.spider.is_some() && g.app_state == AppState::InGame,
            scorpion: g.scorpion.is_some() && g.app_state == AppState::InGame,
            background: g.app_state == AppState::InGame && game_state == GameState::Running,
            falling: g.beetle.is_some() && g.app_state == AppState::InGame && g.player.is_some(),
        }),
{
    let in_game = g.app_state == AppState::InGame;
    LoopCues {
        millipede: g.segments.len() > 0 && in_game,
        spider: g.spider.is_some() && in_game,
        scorpion: g.scorpion.is_some() && in_game,
        background: in_game && game_state == GameState::Running,
        falling: g.beetle.is_some() && in_game && g.player.is_some(),
    }
}

/// Whether `s` ends with a fresh millipede of `len` segments at `origin`,
/// numbered from `base` on.
pub open spec fn ends_with_chain(s: Seq<SegmentEntity>, origin: Pos, len: int, base: int) -> bool {
    len <= s.len() && forall|i: int|
        0 <= i < len ==> #[trigger] s[s.len() - len + i] == chain_segment(origin, base, i)
}

/// Whether identifiers remain for one more frame.
pub open spec fn frame_room(g: &Game) -> bool {
    g.ids_left(2 * FRAME_IDS + g.events.mushrooms@.len() + g.events.explosions@.len())
}

impl Game {
    /// Whether identifiers remain for one more frame.
    pub fn has_frame_room(&self) -> (r: bool)
        ensures
            r == frame_room(self),
    {
        let m = self.events.mushrooms.len() as u64;
        let e = self.events.explosions.len() as u64;
        self.ids.next <= ID_BUDGET && ID_BUDGET - self.ids.next >= 2 * FRAME_IDS
            && ID_BUDGET - self.ids.next - 2 * FRAME_IDS >= m && ID_BUDGET - self.ids.next - 2
            * FRAME_IDS - m >= e
    }
}

/// One frame of a run, in the fixed order of the game: while in a run, the
/// gameplay (unless paused or the player is dead), then the restart from
/// death, the level change, and the explosions. Which of these run is
/// decided by the states at the start of the frame. The score never goes
/// down. Tells whether a shot was fired.
pub fn frame(g: &mut Game, input: FrameInput, dt: u64, paused: bool) -> (fired: bool)
    requires
        old(g).wf(),
        dt <= 1_000_000,
        frame_room(old(g)),
    ensures
        final(g).wf(),
        final(g).score.0 >= old(g).score.0,
        final(g).ids.next >= old(g).ids.next,
        final(g).field == old(g).field,
        old(g).app_state != AppState::InGame ==> final(g).score == old(g).score && final(g).segments@
            == old(g).segments@ && final(g).app_state == old(g).app_state,
        old(g).app_state == AppState::InGame ==> final(g).events.explosions@.len() == 0,
        old(g).app_state == AppState::InGame && !paused && old(g).player_state == PlayerState::Alive
            ==> final(g).events.segments@.len() == 0 && final(g).events.mushrooms@.len() <= 1,
        fired == (old(g).app_state == AppState::InGame && !paused && old(g).player_state
            == PlayerState::Alive && fires(*old(g), input)),
        // With the player dead and no life left, the run ends once the down
        // timer runs out.
        old(g).app_state == AppState::InGame && old(g).player_state == PlayerState::Dead
            && old(g).level_state == LevelState::Unchanging && old(g).lives.0 == 0
            && old(g).down_timer.0.ticked(dt).just_finished ==> final(g).app_state == AppState::GameOver,
        // A changing level starts once the down timer runs out, unless the
        // player died during this frame.
        old(g).app_state == AppState::InGame && old(g).level_state == LevelState::Changing
            && old(g).down_timer.0.ticked(dt).just_finished && (paused || old(g).player_state
            != PlayerState::Alive || final(g).player.is_some()) ==> {
            let v = old(g).vars.escalated(old(g).level.0);
            let n = final(g).segments@.len() - v.millipede_length;
            &&& final(g).level.0 == (if old(g).level.0 < u32::MAX {
                old(g).level.0 + 1
            } else {
                old(g).level.0 as int
            })
            &&& final(g).level_state == LevelState::Unchanging
            &&& final(g).vars == v
            &&& n >= 0
            &&& exists|base: int|
                #[trigger] ends_with_chain(
                    final(g).segments@,
                    millipede_origin(old(g).field),
                    v.millipede_length as int,
                    base,
                )
        },
        // A level with no segments left starts to change.
        old(g).app_state == AppState::InGame && old(g).level_state == LevelState::Unchanging
            && final(g).segments@.len() == 0 ==> final(g).level_state == LevelState::Changing,
{
    if g.app_state != AppState::InGame {
        return false;
    }
    let alive = g.player_state == PlayerState::Alive;
    let level_changing = g.level_state == LevelState::Changing;
    let mut fired = false;
    if !paused && alive {
        fired = gameplay_step(g, input, dt);
    }
    if !alive && !level_changing {
        restart_level_from_death(g, dt);
    }
    if level_changing {
        let ghost before = *g;
        start_new_level(g, dt);
        proof {
            if before.down_timer.0.ticked(dt).just_finished {
                let len = g.vars.millipede_length as int;
                let n = before.segments@.len() as int;
                assert(g.segments@.len() == n + len);
                assert forall|i: int| 0 <= i < len implies #[trigger] g.segments@[g.segments@.len() - len + i]
                    == chain_segment(millipede_origin(g.field), before.ids.next as int, i) by {
                    assert(g.segments@[n + i] == chain_segment(
                        millipede_origin(before.field),
                        before.ids.next as int,
                        i,
                    ));
                }
                assert(ends_with_chain(
                    g.segments@,
                    millipede_origin(g.field),
                    len,
                    before.ids.next as int,
                ));
            }
        }
    } else {
        check_if_change_level(g);
    }
    let ghost mid = *g;
    spawn_explosion(&mut g.events.explosions, &mut g.explosions, &mut g.ids);
    despawn_explosions(&mut g.explosions, dt);
    proof {
        if level_changing && old(g).down_timer.0.ticked(dt).just_finished && (paused || !alive
            || g.player.is_some()) {
            assert(mid.segments@ == g.segments@);
            assert(g.level_state == LevelState::Unchanging);
            assert(g.vars == old(g).vars.escalated(old(g).level.0));
            assert(g.segments@.len() >= g.vars.millipede_length);
        }
    }
    fired
}

} // verus!