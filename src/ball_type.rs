use vstd::prelude::*;

verus! {

/// Collider radius, in pixels, of every player ball.
pub const PLAYER_BALL_RADIUS: u8 = 8;

/// Mass of a player ball, in thousandths of a mass unit.
pub const PLAYER_BALL_MASS_MILLI: u32 = 1000;

/// The cosmetic kind of a player ball; it only selects a sprite.
#[derive(Clone, Copy, PartialEq, Eq, Debug, Structural)]
pub enum PlayerBall {
    Boy,
    Princess,
    Dog,
}

/// The kind of an enemy ball, which fixes its mass, life and collider size.
#[derive(Clone, Copy, PartialEq, Eq, Debug, Structural)]
pub enum EnemyBall {
    GreenBlob,
    RedBlob,
    Snake,
    Phantom,
    Tree,
}

/// Which side a ball plays for.
#[derive(Clone, Copy, PartialEq, Eq, Debug, Structural)]
pub enum Team {
    Player(PlayerBall),
    Enemy(EnemyBall),
}

/// Remaining hit points of a ball; the ball is removed when it reaches zero.
#[derive(Clone, Copy, PartialEq, Eq, Debug, Structural)]
pub struct Life(pub u8);

/// What happens to a ball after its life changed.
#[derive(Clone, Copy, PartialEq, Eq, Debug, Structural)]
pub enum DeathOutcome {
    /// The ball still has life left.
    Alive,
    /// The ball is removed.
    Despawn,
    /// The ball is removed and two green blobs take its place.
    SplitIntoGreenBlobs,
}

/// Players and the tree are friendly; every other enemy is hostile.
pub open spec fn spec_is_friend(t: Team) -> bool {
    match t {
        Team::Player(_) => true,
        Team::Enemy(kind) => kind == EnemyBall::Tree,
    }
}

/// A collision lets `attacker` take one life from `target` exactly when the
/// attacker is a player ball and the target is a hostile enemy. Two balls of
/// the enemy team never hurt each other, the friendly tree included.
pub open spec fn spec_hits(attacker: Team, target: Team) -> bool {
    &&& spec_is_friend(attacker)
    &&& !spec_is_friend(target)
    &&& !(attacker is Enemy && target is Enemy)
}

/// Collider radius of an enemy kind, in pixels.
pub open spec fn spec_enemy_size(kind: EnemyBall) -> u8 {
    match kind {
        EnemyBall::Tree => 16,
        _ => 8,
    }
}

/// Mass of an enemy kind, in thousandths of a mass unit.
pub open spec fn spec_enemy_mass_milli(kind: EnemyBall) -> u32 {
    match kind {
        EnemyBall::Tree => 10_000_000,
        EnemyBall::Snake => 600,
        _ => 1000,
    }
}

/// Starting life of an enemy kind.
pub open spec fn spec_enemy_life(kind: EnemyBall) -> u8 {
    match kind {
        EnemyBall::Tree => 255,
        EnemyBall::Phantom => 6,
        EnemyBall::Snake => 2,
        _ => 1,
    }
}

impl Team {
    pub fn is_friend(&self) -> (r: bool)
        ensures
            r == spec_is_friend(*self),
    {
        match self {
            Team::Player(_) => true,
            Team::Enemy(EnemyBall::Tree) => true,
            Team::Enemy(_) => false,
        }
    }

    pub fn is_enemy(&self) -> (r: bool)
        ensures
            r == !spec_is_friend(*self),
    {
        !self.is_friend()
    }

    /// Collider radius of a ball of this team and kind, in pixels.
    pub fn collider_radius(&self) -> (r: u8)
        ensures
            r == match *self {
                Team::Player(_) => PLAYER_BALL_RADIUS,
                Team::Enemy(kind) => spec_enemy_size(kind),
            },
    {
        match self {
            Team::Player(_) => PLAYER_BALL_RADIUS,
            Team::Enemy(kind) => kind.size(),
        }
    }

    /// Mass of a ball of this team and kind, in thousandths of a mass unit.
    pub fn mass_milli(&self) -> (r: u32)
        ensures
            r > 0,
            r == match *self {
                Team::Player(_) => PLAYER_BALL_MASS_MILLI,
                Team::Enemy(kind) => spec_enemy_mass_milli(kind),
            },
    {
        match self {
            Team::Player(_) => PLAYER_BALL_MASS_MILLI,
            Team::Enemy(kind) => kind.mass(),
        }
    }

    /// Starting life of a ball of this team and kind.
    pub fn starting_life(&self) -> (r: Life)
        ensures
            r.0 == match *self {
                Team::Player(_) => 1u8,
                Team::Enemy(kind) => spec_enemy_life(kind),
            },
    {
        match self {
            Team::Player(_) => Life::default(),
            Team::Enemy(kind) => Life(kind.life()),
        }
    }
}

impl Default for Life {
    fn default() -> (r: Life)
        ensures
            r.0 == 1,
    {
        Life(1)
    }
}

impl EnemyBall {
    pub fn size(&self) -> (r: u8)
        ensures
            r == spec_enemy_size(*self),
    {
        match self {
            EnemyBall::Tree => 16,
            _ => 8,
        }
    }

    /// Mass in thousandths of a mass unit (a snake weighs 0.6, a tree 10000).
    pub fn mass(&self) -> (r: u32)
        ensures
            r == spec_enemy_mass_milli(*self),
            r > 0,
    {
        match self {
            EnemyBall::Tree => 10_000_000,
            EnemyBall::Snake => 600,
            _ => 1000,
        }
    }

    pub fn life(&self) -> (r: u8)
        ensures
            r == spec_enemy_life(*self),
    {
        match self {
            EnemyBall::Tree => u8::MAX,
            EnemyBall::Phantom => 6,
            EnemyBall::Snake => 2,
            _ => 1,
        }
    }
}

/// Life of `target` after a collision event delivered to the ball `attacker`
/// (`None` when that ball no longer exists or carries no team): one life is
/// taken, never going below zero, exactly when the attacker hits the target.
pub fn reduce_life(attacker: Option<Team>, target_team: Team, target_life: Life) -> (r: Life)
    ensures
        r.0 == if attacker is Some && spec_hits(attacker->0, target_team) && target_life.0 > 0 {
            (target_life.0 - 1) as u8
        } else {
            target_life.0
        },
{
    let attacker_team = match attacker {
        Some(t) => t,
        None => return target_life,
    };
    if attacker_team.is_enemy() {
        return target_life;
    }
    let hostile_enemy = match target_team {
        Team::Enemy(_) => target_team.is_enemy(),
        Team::Player(_) => false,
    };
    if !hostile_enemy || matches!(attacker_team, Team::Enemy(_)) {
        return target_life;
    }
    if target_life.0 > 0 {
        Life(target_life.0 - 1)
    } else {
        target_life
    }
}

/// What becomes of a ball whose life just changed: a ball at zero life is
/// removed, and a red blob splits into two green blobs as it goes.
pub fn death_outcome(life: Life, team: Team) -> (r: DeathOutcome)
    ensures
        life.0 > 0 ==> r == DeathOutcome::Alive,
        life.0 == 0 && team == Team::Enemy(EnemyBall::RedBlob) ==> r == DeathOutcome::SplitIntoGreenBlobs,
        life.0 == 0 && team != Team::Enemy(EnemyBall::RedBlob) ==> r == DeathOutcome::Despawn,
{
    if life.0 > 0 {
        DeathOutcome::Alive
    } else if team == Team::Enemy(EnemyBall::RedBlob) {
        DeathOutcome::SplitIntoGreenBlobs
    } else {
        DeathOutcome::Despawn
    }
}

/// A collision is delivered to both of its balls, and each delivery may take a
/// life from the other ball. Over the two deliveries, a ball loses one life
/// exactly when the other ball is a player ball and it is itself a hostile
/// enemy; every other pairing leaves both lives as they were.
pub proof fn lemma_collision_hurts_only_hostile_side(a: Team, b: Team)
    ensures
        spec_hits(a, b) <==> (a is Player && !spec_is_friend(b)),
        spec_hits(b, a) <==> (b is Player && !spec_is_friend(a)),
        (a is Enemy && b is Enemy) ==> !spec_hits(a, b) && !spec_hits(b, a),
        (a is Player && b is Player) ==> !spec_hits(a, b) && !spec_hits(b, a),
        !(spec_hits(a, b) && spec_hits(b, a)),
{
}

} // verus!
