use millipede::constants::{
    BEETLE_REWARD, MILLIPEDE_MAX_LENGTH, MILLIPEDE_MAX_SPEED, MUSHROOM_HEALTH,
    MUSHROOM_REWARD, PPM, SCORPION_REWARD, SPIDER_REWARD, STARTING_LIVES,
};
use millipede::beetle::Beetle;
use millipede::entity::EntityIds;
use millipede::explosion::{animate_explosion, despawn_explosions, spawn_explosion, ExplosionEvent};
use millipede::game::{frame, init_game, start_game, FrameInput, Game};
use millipede::geometry::{isqrt, scale, Field, Pos, UNIT};
use millipede::level::GameVariables;
use millipede::millipede::{
    collide_with_head, collide_with_shroom, follow_parent, head_gets_poisoned, segment_movement,
    spawn_lone_head, update_positions, HeadState, Heading, Segment, SegmentColor, SegmentEntity,
    SegmentSpawnerTimer,
};
use millipede::player::{confine_player_movement, move_player, MoveInput, Player};
use millipede::projectile::{
    projectile_hits_beetle, projectile_hits_scorpion, projectile_hits_shroom, projectile_hits_spider,
    shoot_projectile, spider_reward, HitEvents, PlayerProjectile,
};
use millipede::score::Score;
use millipede::scorpion::{convert_to_poison_shroom, Scorpion};
use millipede::shroom::{despawn_mushroom, hit_mushroom, Health, Mushroom, MushroomEntity};
use millipede::spider::{
    confine_spider_movement, normalize_or_zero, spawn_spider, Direction, Spider, SpiderState,
    SpiderTimer,
};
use millipede::state::{AppState, LevelState};
use millipede::timer::Timer;

fn field() -> Field {
    Field { width: 480_000, height: 640_000 }
}

fn no_events() -> HitEvents {
    HitEvents { explosions: Vec::new(), mushrooms: Vec::new(), floating: Vec::new(), segments: Vec::new() }
}

fn head(id: u64, x: i64, y: i64, dx: i64) -> SegmentEntity {
    SegmentEntity {
        id,
        pos: Pos::new(x, y),
        segment: Segment::Head { direction: Heading { x: dx, y: -1 }, head_state: HeadState::Healthy },
        color: SegmentColor::Head,
    }
}

fn shroom(id: u64, x: i64, y: i64, kind: Mushroom) -> MushroomEntity {
    MushroomEntity { id, pos: Pos::new(x, y), kind, health: Health(MUSHROOM_HEALTH) }
}

#[test]
fn body_stops_at_the_spacing() {
    let p = Pos::new(0, 0);
    let q = Pos::new(30_000, 40_000);
    // A long step stops 15 pixels short of the parent.
    assert_eq!(follow_parent(p, q, 1_000_000), Pos::new(21_000, 28_000));
    // A short step moves straight toward the parent.
    assert_eq!(follow_parent(p, q, 10_000), Pos::new(6_000, 8_000));
    // Already within the spacing: no move.
    assert_eq!(follow_parent(p, Pos::new(9_000, 12_000), 1_000_000), p);
}

#[test]
fn bodies_chase_the_snapshot_not_the_moved_parent() {
    let mut segments = vec![
        head(0, 100_000, 300_000, 1),
        SegmentEntity {
            id: 1,
            pos: Pos::new(50_000, 300_000),
            segment: Segment::Body { parent: Some(0) },
            color: SegmentColor::Plain,
        },
    ];
    let positions = update_positions(&segments);
    segment_movement(&positions, &mut segments, 300_000, 100_000);
    // The head moved 30 px right; the body chased where the head was.
    assert_eq!(segments[0].pos, Pos::new(130_000, 300_000));
    assert_eq!(segments[1].pos, Pos::new(85_000, 300_000));
}

#[test]
fn one_projectile_at_a_time() {
    let mut ids = EntityIds::new();
    let player = Some(Player { id: 7, pos: Pos::new(240_000, 20_000) });
    let mut projectile = None;
    assert!(shoot_projectile(&mut projectile, &player, true, &mut ids));
    let first = projectile;
    assert!(!shoot_projectile(&mut projectile, &player, true, &mut ids));
    assert_eq!(projectile, first);
    assert!(!shoot_projectile(&mut None, &None, true, &mut ids));
}

#[test]
fn score_never_goes_down_in_frames() {
    let mut g = Game::new(field());
    start_game(&mut g);
    let mut last = g.score.0;
    for i in 0..600u32 {
        if !g.has_frame_room() {
            break;
        }
        let input = FrameInput {
            moves: MoveInput { left: i % 7 == 0, right: i % 5 == 0, up: false, down: false },
            shoot: true,
        };
        frame(&mut g, input, 16_667, false);
        assert!(g.score.0 >= last);
        last = g.score.0;
        if g.app_state != AppState::InGame {
            break;
        }
    }
    init_game(&mut g);
    assert_eq!(g.score.0, 0);
    assert_eq!(g.lives.0, STARTING_LIVES);
}

#[test]
fn mushroom_takes_three_hits() {
    let m = shroom(1, 0, 0, Mushroom::Normal);
    let (m1, r1) = hit_mushroom(m);
    let (m2, r2) = hit_mushroom(m1);
    let (m3, r3) = hit_mushroom(m2);
    assert_eq!((m1.health.0, m2.health.0, m3.health.0), (2, 1, 0));
    assert_eq!((r1, r2, r3), (0, 0, MUSHROOM_REWARD));

    let mut mushrooms = vec![m, shroom(2, 200_000, 200_000, Mushroom::Normal)];
    let mut score = Score(0);
    for _ in 0..3 {
        let mut projectile = Some(PlayerProjectile { id: 9, pos: Pos::new(0, 0) });
        projectile_hits_shroom(&mut projectile, &mut mushrooms, &mut score);
        assert!(projectile.is_none());
    }
    assert_eq!(score.0, MUSHROOM_REWARD);
    despawn_mushroom(&mut mushrooms);
    assert_eq!(mushrooms.len(), 1);
    assert_eq!(mushrooms[0].id, 2);
}

#[test]
fn escalation_stays_within_bounds() {
    let mut v = GameVariables::default();
    v.escalate(0);
    assert_eq!(v.millipede_length, 10);
    assert_eq!(v.millipede_speed, 307_500);
    assert_eq!(v.spider_speed, 275_275);
    assert_eq!(v.spider_attack_rate, 100_100);
    assert_eq!(v.spider_leave_rate, 792_079);
    for level in 1..500u32 {
        v.escalate(level);
        assert!(v.millipede_speed <= MILLIPEDE_MAX_SPEED);
        assert!(v.millipede_length <= MILLIPEDE_MAX_LENGTH);
        assert!(v.spider_attack_rate <= PPM);
    }
    assert_eq!(v.millipede_length, MILLIPEDE_MAX_LENGTH);
    assert_eq!(v.spider_reward, SPIDER_REWARD * 4);
}

#[test]
fn spider_points_grow_with_height() {
    assert_eq!(spider_reward(100_000, SPIDER_REWARD), SPIDER_REWARD + 80);
    assert_eq!(spider_reward(0, SPIDER_REWARD), SPIDER_REWARD);
    assert_eq!(spider_reward(-5_000, SPIDER_REWARD), SPIDER_REWARD);
    // Later levels pay more for the same spider.
    assert_eq!(spider_reward(100_000, SPIDER_REWARD * 4), SPIDER_REWARD * 4 + 80);
}

#[test]
fn shooting_the_spider_scores_and_restarts_its_wait() {
    let mut projectile = Some(PlayerProjectile { id: 9, pos: Pos::new(200_000, 100_000) });
    let mut spider = Some(Spider {
        id: 3,
        pos: Pos::new(205_000, 100_000),
        state: SpiderState::Wandering,
        direction: Direction { x: 0, y: 0 },
    });
    let mut timer = SpiderTimer(Timer::new(10_000_000));
    timer.0.tick(4_000_000);
    let mut score = Score(5);
    let mut events = no_events();
    projectile_hits_spider(&mut projectile, &mut spider, &mut timer, &mut score, &mut events, 1_000, 6_000_000);
    assert!(projectile.is_none() && spider.is_none());
    assert_eq!(timer.0.elapsed, 0);
    assert_eq!(timer.0.duration, 6_000_000);
    assert_eq!(score.0, 5 + 1_000 + 80);
    assert_eq!(events.floating.len(), 1);
    assert_eq!(events.floating[0].1, 1_000 + 80);
}

#[test]
fn shooting_the_scorpion_and_the_beetle() {
    let mut projectile = Some(PlayerProjectile { id: 9, pos: Pos::new(100_000, 500_000) });
    let mut scorpion = Some(Scorpion { id: 4, pos: Pos::new(113_000, 500_000), direction: 1 });
    let mut score = Score(0);
    let mut events = no_events();
    projectile_hits_scorpion(&mut projectile, &mut scorpion, &mut score, &mut events);
    assert!(projectile.is_none() && scorpion.is_none());
    assert_eq!(score.0, SCORPION_REWARD);

    let mut projectile = Some(PlayerProjectile { id: 10, pos: Pos::new(100_000, 500_000) });
    let mut beetle = Some(Beetle { id: 5, pos: Pos::new(100_000, 510_000) });
    projectile_hits_beetle(&mut projectile, &mut beetle, &mut score, &mut events);
    assert!(projectile.is_none() && beetle.is_none());
    assert_eq!(score.0, SCORPION_REWARD + BEETLE_REWARD);
    assert_eq!(events.mushrooms.len(), 1);
    assert_eq!(events.explosions.len(), 2);

    // A miss changes nothing.
    let mut projectile = Some(PlayerProjectile { id: 11, pos: Pos::new(0, 0) });
    let mut beetle = Some(Beetle { id: 6, pos: Pos::new(100_000, 510_000) });
    projectile_hits_beetle(&mut projectile, &mut beetle, &mut score, &mut events);
    assert!(projectile.is_some() && beetle.is_some());
    assert_eq!(score.0, SCORPION_REWARD + BEETLE_REWARD);
}

#[test]
fn heads_bounce_off_mushrooms_and_each_other() {
    let mushrooms = vec![shroom(1, 100_000, 300_000, Mushroom::Normal)];
    let mut segments = vec![head(0, 104_000, 300_000, 1)];
    collide_with_shroom(&mut segments, &mushrooms);
    assert_eq!(segments[0].pos, Pos::new(94_000, 291_000));
    assert!(matches!(segments[0].segment, Segment::Head { direction: Heading { x: -1, y: -1 }, .. }));

    let lone = head(5, 400_000, 100_000, 1);
    let mut segments = vec![head(0, 200_000, 300_000, 1), head(1, 205_000, 300_000, -1), lone];
    collide_with_head(&mut segments);
    assert!(matches!(segments[0].segment, Segment::Head { direction: Heading { x: -1, .. }, .. }));
    assert!(matches!(segments[1].segment, Segment::Head { direction: Heading { x: 1, .. }, .. }));
    assert!(segments[0].pos.x < 200_000);
    assert!(segments[1].pos.x >= 215_000);
    assert_eq!(segments[2], lone);
}

#[test]
fn heads_get_poisoned_and_recover() {
    let mushrooms = vec![shroom(1, 100_000, 300_000, Mushroom::Poison)];
    let mut segments = vec![head(0, 105_000, 300_000, 1), head(1, 300_000, 5_000, 1)];
    if let Segment::Head { ref mut head_state, .. } = segments[1].segment {
        *head_state = HeadState::Poisoned;
    }
    head_gets_poisoned(&mut segments, &mushrooms);
    assert!(matches!(segments[0].segment, Segment::Head { head_state: HeadState::Poisoned, .. }));
    assert!(matches!(segments[1].segment, Segment::Head { head_state: HeadState::Healthy, .. }));
}

#[test]
fn scorpion_poisons_what_it_touches() {
    let scorpion = Some(Scorpion { id: 1, pos: Pos::new(100_000, 500_000), direction: 1 });
    let mut mushrooms =
        vec![shroom(2, 110_000, 500_000, Mushroom::Normal), shroom(3, 300_000, 500_000, Mushroom::Normal)];
    convert_to_poison_shroom(&scorpion, &mut mushrooms);
    assert_eq!(mushrooms[0].kind, Mushroom::Poison);
    assert_eq!(mushrooms[1].kind, Mushroom::Normal);
}

#[test]
fn player_moves_diagonally_and_stays_in_its_band() {
    let mut player = Some(Player { id: 1, pos: Pos::new(100_000, 50_000) });
    move_player(&mut player, MoveInput { left: false, right: true, up: true, down: false }, 100_000);
    assert_eq!(player.unwrap().pos, Pos::new(125_000, 75_000));
    move_player(&mut player, MoveInput { left: false, right: false, up: true, down: false }, 1_000_000);
    confine_player_movement(&mut player, field());
    assert_eq!(player.unwrap().pos, Pos::new(125_000, 92_000));
}

#[test]
fn spider_bounces_unless_leaving() {
    let f = field();
    let mut spider = Some(Spider {
        id: 1,
        pos: Pos::new(-3_000, 700_000),
        state: SpiderState::Wandering,
        direction: Direction { x: -500, y: 500 },
    });
    confine_spider_movement(&mut spider, f);
    let s = spider.unwrap();
    assert_eq!(s.pos, Pos::new(0, 616_000));
    assert_eq!(s.direction, Direction { x: 500, y: -500 });
    let mut leaving = Some(Spider { state: SpiderState::Leaving, ..Spider { pos: Pos::new(-3_000, 300_000), ..s } });
    confine_spider_movement(&mut leaving, f);
    assert_eq!(leaving.unwrap().pos.x, -3_000);
}

#[test]
fn spider_spawns_at_an_edge_after_its_wait() {
    let f = field();
    let mut ids = EntityIds::new();
    let mut timer = SpiderTimer(Timer::new(1_000_000));
    let mut spawned = None;
    for _ in 0..200 {
        let mut spider = None;
        spawn_spider(&mut spider, &mut timer, 1_000_000, f, 500_000, &mut ids);
        if spider.is_some() {
            spawned = spider;
            break;
        }
    }
    let s = spawned.expect("a spider comes within two hundred rolls");
    assert_eq!(s.state, SpiderState::Centering);
    assert!(s.pos.x == 0 || s.pos.x == f.width);
    assert!(s.pos.y >= 450_000 && s.pos.y < 550_000);
    assert_eq!(s.direction.x, if s.pos.x == 0 { UNIT } else { -UNIT });
}

#[test]
fn lone_head_comes_when_the_spawner_finishes() {
    let mut timer = SegmentSpawnerTimer::default();
    timer.0.unpause();
    let mut segments = Vec::new();
    let mut ids = EntityIds::new();
    spawn_lone_head(&mut timer, LevelState::Unchanging, 5_000_000, &mut segments, &mut ids);
    assert!(segments.is_empty());
    spawn_lone_head(&mut timer, LevelState::Changing, 5_000_000, &mut segments, &mut ids);
    assert!(segments.is_empty());
    spawn_lone_head(&mut timer, LevelState::Unchanging, 5_000_000, &mut segments, &mut ids);
    assert_eq!(segments.len(), 1);
    assert_eq!(segments[0].pos, Pos::new(0, 100_000));
    assert_eq!(timer.0.elapsed, 0);
}

#[test]
fn explosions_play_backwards_then_go() {
    let mut events = vec![ExplosionEvent(Pos::new(1, 2))];
    let mut explosions = Vec::new();
    let mut ids = EntityIds::new();
    spawn_explosion(&mut events, &mut explosions, &mut ids);
    assert!(events.is_empty());
    assert_eq!(animate_explosion(&explosions), vec![2]);
    despawn_explosions(&mut explosions, 40_000);
    assert_eq!(animate_explosion(&explosions), vec![1]);
    despawn_explosions(&mut explosions, 60_000);
    assert!(explosions.is_empty());
}

#[test]
fn integer_helpers() {
    assert_eq!(isqrt(0), 0);
    assert_eq!(isqrt(24), 4);
    assert_eq!(isqrt(25), 5);
    assert_eq!(isqrt(2_500_000_000), 50_000);
    assert_eq!(scale(-7, 1, 2), -3);
    assert_eq!(scale(7, 1, 2), 3);
    assert_eq!(normalize_or_zero(3, -4), Direction { x: 600, y: -800 });
    assert_eq!(normalize_or_zero(0, 0), Direction { x: 0, y: 0 });
}

#[test]
fn starting_field_lies_in_its_band() {
    let f = field();
    let mut events = Vec::new();
    millipede::shroom::spawn_shroom_field(f, &mut events);
    assert_eq!(events.len(), 100);
    for e in &events {
        assert!(e.0.x >= 20_000 && e.0.x < f.width - 20_000);
        assert!(e.0.y >= 100_000 && e.0.y < f.height - 24_000);
    }
    // The places are drawn at random, not all at the corner of the band.
    assert!(events.iter().any(|e| e.0.x != 20_000));
    assert!(events.iter().any(|e| e.0.y != 100_000));
}

#[test]
fn mushrooms_look_bitten() {
    let mut m = shroom(1, 0, 0, Mushroom::Normal);
    let mut frames = Vec::new();
    for _ in 0..4 {
        frames.push(millipede::shroom::update_shroom_sprite(&vec![m])[0]);
        m = hit_mushroom(m).0;
    }
    assert_eq!(frames, vec![Some(0), Some(1), Some(2), None]);
    let mut all = vec![m];
    millipede::shroom::despawn_shroom_field(&mut all);
    assert!(all.is_empty());
}
