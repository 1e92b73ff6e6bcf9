use millipede::constants::{DOWNTIMER, DROP_AMOUNT, SEGMENT_REWARD};
use millipede::entity::EntityIds;
use millipede::game::{restart_level_from_death, start_game, Game};
use millipede::geometry::{Field, Pos, UNIT};
use millipede::millipede::{
    change_direction, update_segment_parents, HeadState, Heading, Millipede, Segment,
    SegmentColor, SegmentEntity,
};
use millipede::player::Player;
use millipede::projectile::{projectile_hits_segment, HitEvents, PlayerProjectile};
use millipede::score::Score;
use millipede::shroom::spawn_shroom;
use millipede::spider::{steer, Direction, Spider, SpiderRolls, SpiderState};
use millipede::state::{AppState, LevelState, PlayerState};

fn field() -> Field {
    Field { width: 480_000, height: 640_000 }
}

fn no_events() -> HitEvents {
    HitEvents { explosions: Vec::new(), mushrooms: Vec::new(), floating: Vec::new(), segments: Vec::new() }
}

fn quiet_rolls() -> SpiderRolls {
    SpiderRolls { drift: 0, change: false, rx: 0, ry: 0, attack: false, leave: false, right: false }
}

#[test]
fn segment_kill_splits_the_chain() {
    let mut segments: Vec<SegmentEntity> = Vec::new();
    let mut ids = EntityIds::new();
    Millipede::spawn(5, Pos::new(100_000, 100_000), &mut segments, &mut ids);
    assert_eq!(segments.len(), 5);
    // Spread the chain out so that only segment 2 sits under the shot.
    for (i, s) in segments.iter_mut().enumerate() {
        s.pos.x = 100_000 + (i as i64 - 2) * 30_000;
    }
    let dead = segments[2].id;
    let next = segments[3].id;
    let mut projectile = Some(PlayerProjectile { id: 99, pos: Pos::new(100_000, 100_000) });
    let mut score = Score(0);
    let mut events = no_events();
    projectile_hits_segment(&mut projectile, &mut segments, &mut score, &mut events);
    assert!(projectile.is_none());
    assert_eq!(score.0, SEGMENT_REWARD);
    assert_eq!(segments.len(), 4);
    assert_eq!(events.mushrooms.len(), 1);
    assert_eq!(events.mushrooms[0].0, Pos::new(100_000, 100_000));
    assert_eq!(events.explosions.len(), 1);
    assert_eq!(events.floating.len(), 1);
    assert_eq!(events.floating[0].1, SEGMENT_REWARD);

    update_segment_parents(&mut events.segments, &mut segments);
    assert!(events.segments.is_empty());
    // First chain: segments 0 and 1.
    assert!(matches!(segments[0].segment, Segment::Head { .. }));
    assert_eq!(segments[1].segment, Segment::Body { parent: Some(segments[0].id) });
    // Second chain: old segments 3 and 4, led by a fresh head.
    assert_eq!(segments[2].id, next);
    assert_eq!(
        segments[2].segment,
        Segment::Head { direction: Heading { x: 1, y: -1 }, head_state: HeadState::Healthy }
    );
    assert_eq!(segments[3].segment, Segment::Body { parent: Some(next) });
    for s in &segments {
        assert_ne!(s.segment, Segment::Body { parent: Some(dead) });
    }

    let mut mushrooms = Vec::new();
    spawn_shroom(&mut events.mushrooms, &mut mushrooms, &mut ids);
    assert_eq!(mushrooms.len(), 1);
    assert_eq!(mushrooms[0].pos, Pos::new(100_000, 100_000));
}

#[test]
fn player_death_at_zero_lives_ends_the_run() {
    let mut g = Game::new(field());
    start_game(&mut g);
    assert_eq!(g.lives.0, 1);
    assert_eq!(g.player_state, PlayerState::Alive);
    Player::kill(&mut g.player, &mut g.player_state, &mut g.lives, &mut g.down_timer, &mut g.events.explosions);
    assert_eq!(g.lives.0, 0);
    assert_eq!(g.player_state, PlayerState::Dead);
    assert!(g.player.is_none());
    assert_eq!(g.events.explosions.len(), 1);
    g.level_state = LevelState::Unchanging;
    // Before the down timer runs out nothing happens.
    restart_level_from_death(&mut g, DOWNTIMER / 2);
    assert_eq!(g.app_state, AppState::InGame);
    restart_level_from_death(&mut g, DOWNTIMER / 2);
    assert_eq!(g.app_state, AppState::GameOver);
    assert!(g.player.is_none());
    assert_eq!(g.player_state, PlayerState::Dead);
}

#[test]
fn head_bounces_at_the_right_edge() {
    let f = field();
    let y = 300_000;
    let mut segments = vec![SegmentEntity {
        id: 0,
        pos: Pos::new(f.width - 1_000, y),
        segment: Segment::Head { direction: Heading { x: 1, y: -1 }, head_state: HeadState::Healthy },
        color: SegmentColor::Head,
    }];
    change_direction(&mut segments, f);
    match segments[0].segment {
        Segment::Head { direction, .. } => {
            assert!(direction.x < 0);
            assert_eq!(direction.y, -1);
        }
        Segment::Body { .. } => panic!("the head became a body"),
    }
    assert_eq!(segments[0].pos.y, y - DROP_AMOUNT);
    assert_eq!(segments[0].pos.x, f.width - 1_000);
}

#[test]
fn spider_centers_wanders_then_attacks() {
    let f = field();
    let mut s = Spider {
        id: 1,
        pos: Pos::new(100_000, 300_000),
        state: SpiderState::Centering,
        direction: Direction { x: UNIT, y: 0 },
    };
    s = steer(s, f, None, quiet_rolls());
    assert_eq!(s.state, SpiderState::Centering);
    assert_eq!(s.direction.x, UNIT);
    // Within the band around the centre it starts wandering.
    s.pos.x = f.width / 2 + 1_500;
    s = steer(s, f, None, quiet_rolls());
    assert_eq!(s.state, SpiderState::Wandering);
    // A certain attack roll sends it at the player.
    let player = Pos::new(s.pos.x + 30_000, s.pos.y - 40_000);
    let rolls = SpiderRolls { change: true, attack: true, rx: 500, ry: 0, ..quiet_rolls() };
    s = steer(s, f, Some(player), rolls);
    assert_eq!(s.state, SpiderState::Attacking);
    assert_eq!(s.direction, Direction { x: 600, y: -UNIT });
}

fn idle() -> millipede::game::FrameInput {
    millipede::game::FrameInput {
        moves: millipede::player::MoveInput { left: false, right: false, up: false, down: false },
        shoot: false,
    }
}

#[test]
fn frames_start_a_level_then_clear_it() {
    let mut g = Game::new(field());
    start_game(&mut g);
    assert_eq!(g.level_state, LevelState::Changing);
    assert!(!millipede::game::frame(&mut g, idle(), DOWNTIMER, false));
    assert_eq!(g.level.0, 1);
    assert_eq!(g.level_state, LevelState::Unchanging);
    assert_eq!(g.segments.len(), 10);
    assert_eq!(g.mushrooms.len(), 100);
    // With every segment gone, the next frame sets the level to change.
    g.segments.clear();
    millipede::game::frame(&mut g, idle(), 1_000, false);
    assert_eq!(g.level_state, LevelState::Changing);
}

#[test]
fn frame_ends_the_run_when_the_last_life_is_lost() {
    let mut g = Game::new(field());
    start_game(&mut g);
    g.level_state = LevelState::Unchanging;
    Player::kill(&mut g.player, &mut g.player_state, &mut g.lives, &mut g.down_timer, &mut g.events.explosions);
    millipede::game::frame(&mut g, idle(), DOWNTIMER, false);
    assert_eq!(g.app_state, AppState::GameOver);
}
