use ball_battle::ball_type::{
    death_outcome, reduce_life, DeathOutcome, EnemyBall, Life, PlayerBall, Team,
};
use ball_battle::physic::{Boundary, CircleCollider, Collision, PhysicConfig, collision_candidates};
use ball_battle::utils::EntityId;

#[test]
fn players_and_tree_are_friends() {
    assert!(Team::Player(PlayerBall::Boy).is_friend());
    assert!(Team::Player(PlayerBall::Princess).is_friend());
    assert!(Team::Player(PlayerBall::Dog).is_friend());
    assert!(Team::Enemy(EnemyBall::Tree).is_friend());
    assert!(!Team::Enemy(EnemyBall::Tree).is_enemy());
    for kind in [EnemyBall::GreenBlob, EnemyBall::RedBlob, EnemyBall::Snake, EnemyBall::Phantom] {
        assert!(Team::Enemy(kind).is_enemy());
        assert!(!Team::Enemy(kind).is_friend());
    }
}

#[test]
fn enemy_property_table() {
    assert_eq!(EnemyBall::GreenBlob.size(), 8);
    assert_eq!(EnemyBall::RedBlob.size(), 8);
    assert_eq!(EnemyBall::Snake.size(), 8);
    assert_eq!(EnemyBall::Phantom.size(), 8);
    assert_eq!(EnemyBall::Tree.size(), 16);
    assert_eq!(EnemyBall::GreenBlob.mass(), 1000);
    assert_eq!(EnemyBall::RedBlob.mass(), 1000);
    assert_eq!(EnemyBall::Snake.mass(), 600);
    assert_eq!(EnemyBall::Phantom.mass(), 1000);
    assert_eq!(EnemyBall::Tree.mass(), 10_000_000);
    assert_eq!(EnemyBall::GreenBlob.life(), 1);
    assert_eq!(EnemyBall::RedBlob.life(), 1);
    assert_eq!(EnemyBall::Snake.life(), 2);
    assert_eq!(EnemyBall::Phantom.life(), 6);
    assert_eq!(EnemyBall::Tree.life(), 255);
}

#[test]
fn player_ball_properties() {
    let t = Team::Player(PlayerBall::Dog);
    assert_eq!(t.collider_radius(), 8);
    assert_eq!(t.mass_milli(), 1000);
    assert_eq!(t.starting_life(), Life(1));
    assert_eq!(Life::default(), Life(1));
    assert_eq!(Team::Enemy(EnemyBall::Tree).collider_radius(), 16);
    assert_eq!(Team::Enemy(EnemyBall::Snake).mass_milli(), 600);
    assert_eq!(Team::Enemy(EnemyBall::Phantom).starting_life(), Life(6));
}

#[test]
fn player_hit_takes_one_life_from_hostile_enemy() {
    let blob = Team::Enemy(EnemyBall::Snake);
    let r = reduce_life(Some(Team::Player(PlayerBall::Boy)), blob, Life(2));
    assert_eq!(r, Life(1));
}

#[test]
fn life_never_goes_below_zero() {
    let r = reduce_life(Some(Team::Player(PlayerBall::Boy)), Team::Enemy(EnemyBall::GreenBlob), Life(0));
    assert_eq!(r, Life(0));
}

#[test]
fn tree_and_green_blob_do_not_hurt_each_other() {
    let tree = Team::Enemy(EnemyBall::Tree);
    let blob = Team::Enemy(EnemyBall::GreenBlob);
    // The collision reaches both balls; neither delivery takes a life.
    assert_eq!(reduce_life(Some(tree), blob, Life(1)), Life(1));
    assert_eq!(reduce_life(Some(blob), tree, Life(255)), Life(255));
}

#[test]
fn hostile_enemy_never_hurts_player() {
    let r = reduce_life(Some(Team::Enemy(EnemyBall::Phantom)), Team::Player(PlayerBall::Dog), Life(1));
    assert_eq!(r, Life(1));
}

#[test]
fn player_does_not_hurt_tree_or_player() {
    let p = Team::Player(PlayerBall::Princess);
    assert_eq!(reduce_life(Some(p), Team::Enemy(EnemyBall::Tree), Life(255)), Life(255));
    assert_eq!(reduce_life(Some(p), Team::Player(PlayerBall::Boy), Life(1)), Life(1));
}

#[test]
fn vanished_attacker_changes_nothing() {
    assert_eq!(reduce_life(None, Team::Enemy(EnemyBall::GreenBlob), Life(1)), Life(1));
}

#[test]
fn red_blob_splits_on_death() {
    assert_eq!(death_outcome(Life(0), Team::Enemy(EnemyBall::RedBlob)), DeathOutcome::SplitIntoGreenBlobs);
    assert_eq!(death_outcome(Life(0), Team::Enemy(EnemyBall::GreenBlob)), DeathOutcome::Despawn);
    assert_eq!(death_outcome(Life(0), Team::Player(PlayerBall::Boy)), DeathOutcome::Despawn);
    assert_eq!(death_outcome(Life(1), Team::Enemy(EnemyBall::RedBlob)), DeathOutcome::Alive);
}

#[test]
fn screen_and_play_area_boundaries() {
    let s = PhysicConfig::screen_boundary();
    assert_eq!(s.boundary, Boundary { min_x: 0, min_y: 0, max_x: 240, max_y: 160 });
    let d = PhysicConfig::default();
    assert_eq!(d.boundary, Boundary { min_x: 0, min_y: 0, max_x: 0, max_y: 0 });
    let w = PhysicConfig::default().with_screen_boundary();
    assert_eq!(w.boundary.max_x, 240);
    let mut m = PhysicConfig::play_area();
    assert_eq!(m.boundary, Boundary { min_x: 16, min_y: 32, max_x: 224, max_y: 144 });
    m.set_screen_boundary();
    assert_eq!(m.boundary.min_y, 0);
}

#[test]
fn collider_geometry() {
    let a = CircleCollider::from(8);
    let b = CircleCollider::from(16);
    assert_eq!(a.radius, 8);
    assert_eq!(a.center_offset(), (8, 8));
    assert_eq!(a.collision_distance_squared(&b), 576);
    assert_eq!(CircleCollider::from(255).collision_distance_squared(&CircleCollider::from(255)), 260_100);
}

#[test]
fn collision_seen_from_each_side() {
    let c = Collision { entity1: EntityId(7), entity2: EntityId(9) };
    assert_eq!(c.self_and_other(&EntityId(7)), Some((EntityId(7), EntityId(9))));
    assert_eq!(c.self_and_other(&EntityId(9)), Some((EntityId(9), EntityId(7))));
    assert_eq!(c.self_and_other(&EntityId(3)), None);
    assert!(c.resolves_on(&EntityId(7)));
    assert!(!c.resolves_on(&EntityId(9)));
}

#[test]
fn each_enabled_pair_scanned_once() {
    let r = collision_candidates(&vec![true, true, false, true]);
    assert_eq!(r, vec![(1, 0), (3, 0), (3, 1)]);
    assert!(collision_candidates(&vec![]).is_empty());
    assert!(collision_candidates(&vec![true]).is_empty());
    assert_eq!(collision_candidates(&vec![true, true, true]), vec![(1, 0), (2, 0), (2, 1)]);
}
