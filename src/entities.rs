//! The player, enemies and pickups, with their per-frame motion.
use vstd::prelude::*;

use crate::config::{
    BOOST_ONE, COIN_SIZE, ENEMY_SIZE, ENEMY_SPEED, GRAVITY, JUMP_SPEED, LIMIT, MAX_DT_MS, PLAYER_SIZE, POWERUP_SIZE, START_LIVES, START_X, START_Y,
    WALK_SPEED,
};
use crate::geometry::{overlaps, overlaps_spec, within, Rect};
use crate::kinematics::{
    damp, damp_velocity, fall_speed, land, land_spec, platforms_fit, reach, resolve_horizontal,
    resolve_vertical, resolve_x_spec, resolve_y_spec, travel, turn, turn_spec, valid_dt,
};

verus! {

/// Movement intent and edge-triggered commands read for one frame.
#[derive(Clone, Copy, Debug, PartialEq, Eq, Structural)]
pub struct Input {
    pub left: bool,
    pub right: bool,
    pub jump: bool,
    pub pause: bool,
    pub start: bool,
    pub restart: bool,
    pub menu: bool,
}

impl Input {
    /// No key held or pressed.
    pub fn idle() -> (r: Input)
        ensures
            !r.left && !r.right && !r.jump && !r.pause && !r.start && !r.restart && !r.menu,
    {
        Input {
            left: false,
            right: false,
            jump: false,
            pause: false,
            start: false,
            restart: false,
            menu: false,
        }
    }
}

#[derive(Clone, Copy, Debug, PartialEq, Eq, Structural)]
pub struct Player {
    pub body: Rect,
    /// Velocities in milli-units per second; `vy > 0` is falling.
    pub vx: i64,
    pub vy: i64,
    pub on_ground: bool,
    pub score: i64,
    /// Multipliers in thousandths.
    pub speed_boost: i64,
    pub jump_boost: i64,
    pub lives: i64,
    /// Milliseconds since the last reset; drives animation only.
    pub anim_ms: i64,
    pub facing_right: bool,
}

/// Bound on a multiplier, in thousandths.
pub open spec fn boost_cap() -> int {
    1_000_000
}

pub open spec fn in_limit(v: int) -> bool {
    -LIMIT <= v <= LIMIT
}

/// Back at the level start, at rest, without boosts; score, lives and the
/// grounded flag are kept.
pub open spec fn reset_spec(p: Player) -> Player {
    Player {
        body: p.body.at(START_X as int, START_Y as int),
        vx: 0,
        vy: 0,
        speed_boost: BOOST_ONE,
        jump_boost: BOOST_ONE,
        anim_ms: 0,
        facing_right: true,
        ..p
    }
}

/// Movement intent: walking sets the horizontal velocity (right wins over
/// left), a jump acts only on the ground. The flag tells whether it jumped.
pub open spec fn input_spec(p: Player, input: Input) -> (Player, bool) {
    let speed = WALK_SPEED * p.speed_boost;
    let p1 = if input.left {
        Player { vx: (-speed) as i64, facing_right: false, ..p }
    } else {
        p
    };
    let p2 = if input.right {
        Player { vx: speed as i64, facing_right: true, ..p1 }
    } else {
        p1
    };
    if input.jump && p.on_ground {
        (Player { vy: (-(JUMP_SPEED * p.jump_boost)) as i64, ..p2 }, true)
    } else {
        (p2, false)
    }
}

/// One frame of player motion: gravity, horizontal move and resolution,
/// vertical move and resolution, then damping of the horizontal velocity.
pub open spec fn player_step_spec(p: Player, dt: i64, ps: Seq<Rect>) -> Player {
    let vy1 = fall_speed(p.vy as int, dt as int);
    let b1 = p.body.at(p.body.x + travel(p.vx as int, dt as int), p.body.y as int);
    let (b2, vx2) = resolve_x_spec(b1, p.vx, ps);
    let b3 = b2.at(b2.x as int, b2.y + travel(vy1, dt as int));
    let (b4, vy4, g4) = resolve_y_spec(b3, vy1 as i64, false, ps);
    Player {
        body: b4,
        vx: damp(vx2 as int) as i64,
        vy: vy4,
        on_ground: g4,
        anim_ms: (p.anim_ms + dt) as i64,
        ..p
    }
}

/// The player at the start of a game.
pub open spec fn initial_player() -> Player {
    Player {
        body: Rect { x: START_X, y: START_Y, width: PLAYER_SIZE, height: PLAYER_SIZE },
        vx: 0,
        vy: 0,
        on_ground: false,
        score: 0,
        speed_boost: BOOST_ONE,
        jump_boost: BOOST_ONE,
        lives: START_LIVES,
        anim_ms: 0,
        facing_right: true,
    }
}

impl Player {
    /// Every field within the bounds under which a frame cannot overflow.
    pub open spec fn fits(self) -> bool {
        &&& self.body.fits()
        &&& in_limit(self.vx as int)
        &&& in_limit(self.vy as int)
        &&& in_limit(self.score as int)
        &&& in_limit(self.lives as int)
        &&& 0 <= self.anim_ms <= LIMIT
        &&& 0 <= self.speed_boost <= boost_cap()
        &&& 0 <= self.jump_boost <= boost_cap()
    }

    pub fn check_fits(&self) -> (r: bool)
        ensures
            r == self.fits(),
    {
        let b = &self.body;
        let lim = LIMIT;
        -lim <= b.x && b.x <= lim && -lim <= b.y && b.y <= lim && 0 <= b.width && b.width <= lim
            && 0 <= b.height && b.height <= lim && -lim <= self.vx && self.vx <= lim && -lim
            <= self.vy && self.vy <= lim && -lim <= self.score && self.score <= lim && -lim
            <= self.lives && self.lives <= lim && 0 <= self.anim_ms && self.anim_ms <= lim && 0
            <= self.speed_boost && self.speed_boost <= 1_000_000 && 0 <= self.jump_boost
            && self.jump_boost <= 1_000_000
    }

    pub fn new() -> (r: Player)
        ensures
            r == initial_player(),
            r.fits(),
    {
        Player {
            body: Rect { x: START_X, y: START_Y, width: PLAYER_SIZE, height: PLAYER_SIZE },
            vx: 0,
            vy: 0,
            on_ground: false,
            score: 0,
            speed_boost: BOOST_ONE,
            jump_boost: BOOST_ONE,
            lives: START_LIVES,
            anim_ms: 0,
            facing_right: true,
        }
    }

    pub fn reset_position(&mut self)
        ensures
            *final(self) == reset_spec(*old(self)),
    {
        self.body.x = START_X;
        self.body.y = START_Y;
        self.vx = 0;
        self.vy = 0;
        self.speed_boost = BOOST_ONE;
        self.jump_boost = BOOST_ONE;
        self.anim_ms = 0;
        self.facing_right = true;
    }

    /// Applies the frame's movement intent; returns whether the player jumped.
    pub fn handle_input(&mut self, input: &Input) -> (jumped: bool)
        requires
            old(self).fits(),
        ensures
            (*final(self), jumped) == input_spec(*old(self), *input),
            final(self).fits(),
    {
        let speed = WALK_SPEED * self.speed_boost;
        let jump_force = -(JUMP_SPEED * self.jump_boost);
        let mut jumped = false;
        if input.left {
            self.vx = -speed;
            self.facing_right = false;
        }
        if input.right {
            self.vx = speed;
            self.facing_right = true;
        }
        if input.jump && self.on_ground {
            self.vy = jump_force;
            jumped = true;
        }
        jumped
    }

    /// Advances the player by `dt` milliseconds against the platforms.
    pub fn update(&mut self, dt: i64, platforms: &Vec<Rect>)
        requires
            old(self).fits(),
            valid_dt(dt),
            platforms_fit(platforms@),
        ensures
            *final(self) == player_step_spec(*old(self), dt, platforms@),
            within(final(self).body, reach()),
            final(self).body.width == old(self).body.width,
            final(self).body.height == old(self).body.height,
            in_limit(final(self).vx as int),
            -LIMIT <= final(self).vy <= LIMIT + GRAVITY * MAX_DT_MS,
    {
        self.anim_ms = self.anim_ms + dt;
        let vy1 = self.vy + GRAVITY * dt;
        assert(-LIMIT * MAX_DT_MS <= self.vx * dt <= LIMIT * MAX_DT_MS) by (nonlinear_arith)
            requires
                in_limit(self.vx as int),
                valid_dt(dt),
        ;
        assert(-(LIMIT + GRAVITY * MAX_DT_MS) * MAX_DT_MS <= vy1 * dt <= (LIMIT + GRAVITY
            * MAX_DT_MS) * MAX_DT_MS) by (nonlinear_arith)
            requires
                -LIMIT <= vy1 <= LIMIT + GRAVITY * MAX_DT_MS,
                valid_dt(dt),
        ;
        let b1 = Rect { x: self.body.x + self.vx * dt, ..self.body };
        let (b2, vx2) = resolve_horizontal(b1, self.vx, platforms);
        proof {
            lemma_resolve_x_keeps(b1, self.vx, platforms@);
        }
        let b3 = Rect { y: b2.y + vy1 * dt, ..b2 };
        let (b4, vy4, g4) = resolve_vertical(b3, vy1, platforms);
        proof {
            lemma_resolve_y_keeps(b3, vy1, false, platforms@);
        }
        self.body = b4;
        self.vx = damp_velocity(vx2);
        self.vy = vy4;
        self.on_ground = g4;
    }
}

/// The horizontal pass moves only the left edge and can only stop the body.
pub proof fn lemma_resolve_x_keeps(b: Rect, vx: i64, ps: Seq<Rect>)
    ensures
        resolve_x_spec(b, vx, ps).0.y == b.y,
        resolve_x_spec(b, vx, ps).0.width == b.width,
        resolve_x_spec(b, vx, ps).0.height == b.height,
        resolve_x_spec(b, vx, ps).1 == vx || resolve_x_spec(b, vx, ps).1 == 0,
    decreases ps.len(),
{
    if ps.len() > 0 {
        lemma_resolve_x_keeps(b, vx, ps.drop_last());
    }
}

/// The vertical pass moves only the top edge and can only stop the body.
pub proof fn lemma_resolve_y_keeps(b: Rect, vy: i64, g: bool, ps: Seq<Rect>)
    ensures
        resolve_y_spec(b, vy, g, ps).0.x == b.x,
        resolve_y_spec(b, vy, g, ps).0.width == b.width,
        resolve_y_spec(b, vy, g, ps).0.height == b.height,
        resolve_y_spec(b, vy, g, ps).1 == vy || resolve_y_spec(b, vy, g, ps).1 == 0,
    decreases ps.len(),
{
    if ps.len() > 0 {
        lemma_resolve_y_keeps(b, vy, g, ps.drop_last());
    }
}

/// The landing pass moves only the top edge and can only stop the body.
pub proof fn lemma_land_keeps(b: Rect, vy: i64, ps: Seq<Rect>)
    ensures
        land_spec(b, vy, ps).0.x == b.x,
        land_spec(b, vy, ps).0.width == b.width,
        land_spec(b, vy, ps).0.height == b.height,
        land_spec(b, vy, ps).1 == vy || land_spec(b, vy, ps).1 == 0,
    decreases ps.len(),
{
    if ps.len() > 0 {
        lemma_land_keeps(b, vy, ps.drop_last());
    }
}

#[derive(Clone, Copy, Debug, PartialEq, Eq, Structural)]
pub struct Enemy {
    pub body: Rect,
    /// Patrol speed in milli-units per second, and its sign: 1 right, -1 left.
    pub vx: i64,
    pub vy: i64,
    pub direction: i64,
    pub alive: bool,
}

/// One frame of enemy motion. A dead enemy stays frozen. A live one falls,
/// walks in its direction, turns at the edge of the platform it stands on,
/// and lands on platforms below it.
pub open spec fn enemy_step_spec(e: Enemy, dt: i64, ps: Seq<Rect>) -> Enemy {
    if !e.alive {
        e
    } else {
        let vy1 = fall_speed(e.vy as int, dt as int);
        let b1 = e.body.at(e.body.x + travel(e.vx * e.direction, dt as int), e.body.y as int);
        let dir = turn_spec(b1, e.direction, ps);
        let b2 = b1.at(b1.x as int, b1.y + travel(vy1, dt as int));
        let (b3, vy3) = land_spec(b2, vy1 as i64, ps);
        Enemy { body: b3, vy: vy3, direction: dir, ..e }
    }
}

impl Enemy {
    pub open spec fn fits(self) -> bool {
        &&& self.body.fits()
        &&& in_limit(self.vx as int)
        &&& in_limit(self.vy as int)
        &&& (self.direction == 1 || self.direction == -1)
    }

    /// A live enemy at `(x, y)` heading right.
    pub fn new(x: i64, y: i64) -> (r: Enemy)
        ensures
            r.body == (Rect { x, y, width: ENEMY_SIZE, height: ENEMY_SIZE }),
            r.vx == ENEMY_SPEED && r.vy == 0 && r.direction == 1,
            r.alive,
    {
        Enemy {
            body: Rect { x, y, width: ENEMY_SIZE, height: ENEMY_SIZE },
            vx: ENEMY_SPEED,
            vy: 0,
            direction: 1,
            alive: true,
        }
    }

    pub fn update(&mut self, dt: i64, platforms: &Vec<Rect>)
        requires
            old(self).fits(),
            valid_dt(dt),
            platforms_fit(platforms@),
        ensures
            *final(self) == enemy_step_spec(*old(self), dt, platforms@),
            within(final(self).body, reach()),
            final(self).body.width == old(self).body.width,
            final(self).body.height == old(self).body.height,
            final(self).direction == 1 || final(self).direction == -1,
    {
        if !self.alive {
            return ;
        }
        let vy1 = self.vy + GRAVITY * dt;
        let v = self.vx * self.direction;
        assert(-LIMIT * MAX_DT_MS <= v * dt <= LIMIT * MAX_DT_MS) by (nonlinear_arith)
            requires
                in_limit(v as int),
                valid_dt(dt),
        ;
        assert(-(LIMIT + GRAVITY * MAX_DT_MS) * MAX_DT_MS <= vy1 * dt <= (LIMIT + GRAVITY
            * MAX_DT_MS) * MAX_DT_MS) by (nonlinear_arith)
            requires
                -LIMIT <= vy1 <= LIMIT + GRAVITY * MAX_DT_MS,
                valid_dt(dt),
        ;
        let b1 = Rect { x: self.body.x + v * dt, ..self.body };
        let dir = turn(b1, self.direction, platforms);
        let b2 = Rect { y: b1.y + vy1 * dt, ..b1 };
        let (b3, vy3) = land(b2, vy1, platforms);
        proof {
            lemma_land_keeps(b2, vy1, platforms@);
        }
        self.body = b3;
        self.vy = vy3;
        self.direction = dir;
    }

    /// A live enemy touching the player's body.
    pub fn check_collision(&self, player: &Rect) -> (r: bool)
        requires
            within(self.body, reach()),
            within(*player, reach()),
        ensures
            r == (self.alive && overlaps_spec(self.body, *player)),
    {
        self.alive && overlaps(&self.body, player)
    }
}

#[derive(Clone, Copy, Debug, PartialEq, Eq, Structural)]
pub struct Coin {
    pub body: Rect,
    pub collected: bool,
}

impl Coin {
    pub fn new(x: i64, y: i64) -> (r: Coin)
        ensures
            r.body == (Rect { x, y, width: COIN_SIZE, height: COIN_SIZE }),
            !r.collected,
    {
        Coin { body: Rect { x, y, width: COIN_SIZE, height: COIN_SIZE }, collected: false }
    }

    /// A coin not yet collected touching the player's body.
    pub fn check_collision(&self, player: &Rect) -> (r: bool)
        requires
            within(self.body, reach()),
            within(*player, reach()),
        ensures
            r == (!self.collected && overlaps_spec(self.body, *player)),
    {
        !self.collected && overlaps(&self.body, player)
    }
}

#[derive(Clone, Copy, Debug, PartialEq, Eq, Structural)]
pub enum PowerUpKind {
    SpeedBoost,
    JumpBoost,
}

#[derive(Clone, Copy, Debug, PartialEq, Eq, Structural)]
pub struct PowerUp {
    pub body: Rect,
    pub collected: bool,
    pub kind: PowerUpKind,
}

impl PowerUp {
    pub fn new(x: i64, y: i64, kind: PowerUpKind) -> (r: PowerUp)
        ensures
            r.body == (Rect { x, y, width: POWERUP_SIZE, height: POWERUP_SIZE }),
            !r.collected,
            r.kind == kind,
    {
        PowerUp {
            body: Rect { x, y, width: POWERUP_SIZE, height: POWERUP_SIZE },
            collected: false,
            kind,
        }
    }

    /// A power-up not yet collected touching the player's body.
    pub fn check_collision(&self, player: &Rect) -> (r: bool)
        requires
            within(self.body, reach()),
            within(*player, reach()),
        ensures
            r == (!self.collected && overlaps_spec(self.body, *player)),
    {
        !self.collected && overlaps(&self.body, player)
    }
}

} // verus!
