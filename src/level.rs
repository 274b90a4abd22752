//! A level: static platforms, the enemies, coins and power-ups placed on
//! them, and a goal point.
use vstd::prelude::*;

use crate::config::{ENEMY_SPEED, GOAL_ABOVE, GOAL_BELOW, GOAL_WIDTH, LIMIT, MAX_ITEMS, UNIT};
use crate::entities::{in_limit, Coin, Enemy, PowerUp, PowerUpKind};
use crate::geometry::{within, Rect};
use crate::interaction::{
    batch_cap, batch_spec, coin_after, contact_events, count_coins, count_powerups, enemy_after,
    max_items, powerup_after, repeat_event, resolve_coins, resolve_enemies, resolve_powerups,
    Effects, Event, Snapshot,
};
use crate::kinematics::{platforms_fit, reach, valid_dt};

verus! {

pub struct Level {
    pub platforms: Vec<Rect>,
    pub enemies: Vec<Enemy>,
    pub coins: Vec<Coin>,
    pub powerups: Vec<PowerUp>,
    pub goal_x: i64,
    pub goal_y: i64,
}

/// The trigger rectangle of a goal point: `GOAL_WIDTH` wide, from
/// `GOAL_ABOVE` above the point to `GOAL_BELOW` below it.
pub open spec fn goal_rect_spec(gx: i64, gy: i64) -> Rect {
    Rect {
        x: gx,
        y: (gy - GOAL_ABOVE) as i64,
        width: GOAL_WIDTH,
        height: (GOAL_ABOVE + GOAL_BELOW) as i64,
    }
}

/// A rectangle given in whole world units.
pub open spec fn rect_u(x: int, y: int, w: int, h: int) -> Rect {
    Rect { x: (x * UNIT) as i64, y: (y * UNIT) as i64, width: (w * UNIT) as i64, height: (h * UNIT) as i64 }
}

/// A fresh enemy at a point given in whole world units.
pub open spec fn enemy_u(x: int, y: int) -> Enemy {
    Enemy { body: rect_u(x, y, 24, 24), vx: ENEMY_SPEED, vy: 0, direction: 1, alive: true }
}

pub open spec fn coin_u(x: int, y: int) -> Coin {
    Coin { body: rect_u(x, y, 16, 16), collected: false }
}

pub open spec fn powerup_u(x: int, y: int, kind: PowerUpKind) -> PowerUp {
    PowerUp { body: rect_u(x, y, 20, 20), collected: false, kind }
}

/// Platforms of level `k` (counted from 0).
pub open spec fn layout_platforms(k: int) -> Seq<Rect> {
    if k == 0 {
        seq![
            rect_u(0, 550, 800, 50),
            rect_u(200, 450, 150, 20),
            rect_u(500, 400, 120, 20),
            rect_u(100, 350, 100, 20),
            rect_u(650, 300, 150, 20),
            rect_u(900, 500, 200, 20),
            rect_u(1200, 400, 150, 20),
            rect_u(1500, 350, 100, 20),
            rect_u(1700, 500, 200, 50),
        ]
    } else if k == 1 {
        seq![
            rect_u(0, 550, 300, 50),
            rect_u(400, 500, 100, 20),
            rect_u(600, 450, 100, 20),
            rect_u(800, 400, 100, 20),
            rect_u(1000, 350, 100, 20),
            rect_u(1200, 300, 150, 20),
            rect_u(1450, 400, 100, 20),
            rect_u(1650, 500, 100, 20),
            rect_u(1850, 450, 100, 20),
            rect_u(2050, 400, 200, 50),
        ]
    } else {
        seq![
            rect_u(0, 550, 200, 50),
            rect_u(300, 500, 80, 20),
            rect_u(480, 450, 80, 20),
            rect_u(660, 400, 80, 20),
            rect_u(840, 350, 80, 20),
            rect_u(1020, 300, 100, 20),
            rect_u(1200, 250, 150, 20),
            rect_u(1450, 300, 80, 20),
            rect_u(1630, 350, 80, 20),
            rect_u(1810, 400, 80, 20),
            rect_u(1990, 450, 80, 20),
            rect_u(2170, 500, 200, 50),
        ]
    }
}

pub open spec fn layout_enemies(k: int) -> Seq<Enemy> {
    if k == 0 {
        seq![
            enemy_u(250, 420),
            enemy_u(550, 370),
            enemy_u(950, 470),
            enemy_u(1250, 370),
        ]
    } else if k == 1 {
        seq![
            enemy_u(450, 470),
            enemy_u(650, 420),
            enemy_u(850, 370),
            enemy_u(1050, 320),
            enemy_u(1300, 270),
            enemy_u(1500, 370),
            enemy_u(1700, 470),
        ]
    } else {
        seq![
            enemy_u(350, 470),
            enemy_u(530, 420),
            enemy_u(710, 370),
            enemy_u(890, 320),
            enemy_u(1070, 270),
            enemy_u(1300, 220),
            enemy_u(1500, 270),
            enemy_u(1680, 320),
            enemy_u(1860, 370),
            enemy_u(2040, 420),
        ]
    }
}

pub open spec fn layout_coins(k: int) -> Seq<Coin> {
    if k == 0 {
        seq![
            coin_u(150, 520),
            coin_u(275, 430),
            coin_u(325, 430),
            coin_u(575, 380),
            coin_u(700, 280),
            coin_u(1000, 480),
            coin_u(1300, 380),
            coin_u(1550, 330),
        ]
    } else if k == 1 {
        seq![
            coin_u(250, 520),
            coin_u(450, 480),
            coin_u(650, 430),
            coin_u(850, 380),
            coin_u(1050, 330),
            coin_u(1325, 280),
            coin_u(1500, 380),
            coin_u(1700, 480),
            coin_u(1900, 430),
            coin_u(2100, 380),
        ]
    } else {
        seq![
            coin_u(340, 480),
            coin_u(520, 430),
            coin_u(700, 380),
            coin_u(880, 330),
            coin_u(1070, 280),
            coin_u(1325, 230),
            coin_u(1490, 280),
            coin_u(1670, 330),
            coin_u(1850, 380),
            coin_u(2030, 430),
            coin_u(2220, 480),
            coin_u(2270, 480),
        ]
    }
}

pub open spec fn layout_powerups(k: int) -> Seq<PowerUp> {
    if k == 0 {
        seq![
            powerup_u(275, 420, PowerUpKind::SpeedBoost),
            powerup_u(750, 280, PowerUpKind::JumpBoost),
            powerup_u(1000, 470, PowerUpKind::SpeedBoost),
        ]
    } else if k == 1 {
        seq![
            powerup_u(425, 470, PowerUpKind::JumpBoost),
            powerup_u(1275, 270, PowerUpKind::SpeedBoost),
            powerup_u(1875, 420, PowerUpKind::JumpBoost),
        ]
    } else {
        seq![
            powerup_u(380, 470, PowerUpKind::JumpBoost),
            powerup_u(1325, 220, PowerUpKind::SpeedBoost),
            powerup_u(2220, 470, PowerUpKind::JumpBoost),
        ]
    }
}

/// The goal point of level `k`, in whole world units.
pub open spec fn layout_goal(k: int) -> (int, int) {
    if k == 0 {
        (1800, 450)
    } else if k == 1 {
        (2150, 350)
    } else {
        (2300, 450)
    }
}

/// The level holds exactly the items of layout `k`, as built.
pub open spec fn has_layout(l: Level, k: int) -> bool {
    &&& l.platforms@ == layout_platforms(k)
    &&& l.enemies@ == layout_enemies(k)
    &&& l.coins@ == layout_coins(k)
    &&& l.powerups@ == layout_powerups(k)
    &&& l.goal_x == layout_goal(k).0 * UNIT
    &&& l.goal_y == layout_goal(k).1 * UNIT
}

impl Level {
    /// Every item within the world bounds and every collection of bounded
    /// length.
    pub open spec fn fits(&self) -> bool {
        &&& platforms_fit(self.platforms@)
        &&& forall|i: int| 0 <= i < self.enemies@.len() ==> #[trigger] self.enemies@[i].fits()
        &&& forall|i: int| 0 <= i < self.coins@.len() ==> #[trigger] self.coins@[i].body.fits()
        &&& forall|i: int|
            0 <= i < self.powerups@.len() ==> #[trigger] self.powerups@[i].body.fits()
        &&& self.enemies@.len() <= max_items()
        &&& self.coins@.len() <= max_items()
        &&& self.powerups@.len() <= max_items()
        &&& in_limit(self.goal_x as int)
        &&& in_limit(self.goal_y as int)
    }

    /// As built: every enemy alive, nothing collected.
    pub open spec fn is_fresh(&self) -> bool {
        &&& forall|i: int| 0 <= i < self.enemies@.len() ==> #[trigger] self.enemies@[i].alive
        &&& forall|i: int| 0 <= i < self.coins@.len() ==> !#[trigger] self.coins@[i].collected
        &&& forall|i: int|
            0 <= i < self.powerups@.len() ==> !#[trigger] self.powerups@[i].collected
    }

    /// Basic tutorial layout over open ground.
    pub fn create_level_1() -> (r: Level)
        ensures
            r.fits(),
            r.is_fresh(),
            has_layout(r, 0),
    {
        let platforms = vec![
            Rect::new(0, 550 * UNIT, 800 * UNIT, 50 * UNIT),
            Rect::new(200 * UNIT, 450 * UNIT, 150 * UNIT, 20 * UNIT),
            Rect::new(500 * UNIT, 400 * UNIT, 120 * UNIT, 20 * UNIT),
            Rect::new(100 * UNIT, 350 * UNIT, 100 * UNIT, 20 * UNIT),
            Rect::new(650 * UNIT, 300 * UNIT, 150 * UNIT, 20 * UNIT),
            Rect::new(900 * UNIT, 500 * UNIT, 200 * UNIT, 20 * UNIT),
            Rect::new(1200 * UNIT, 400 * UNIT, 150 * UNIT, 20 * UNIT),
            Rect::new(1500 * UNIT, 350 * UNIT, 100 * UNIT, 20 * UNIT),
            Rect::new(1700 * UNIT, 500 * UNIT, 200 * UNIT, 50 * UNIT),
        ];
        let enemies = vec![
            Enemy::new(250 * UNIT, 420 * UNIT),
            Enemy::new(550 * UNIT, 370 * UNIT),
            Enemy::new(950 * UNIT, 470 * UNIT),
            Enemy::new(1250 * UNIT, 370 * UNIT),
        ];
        let coins = vec![
            Coin::new(150 * UNIT, 520 * UNIT),
            Coin::new(275 * UNIT, 430 * UNIT),
            Coin::new(325 * UNIT, 430 * UNIT),
            Coin::new(575 * UNIT, 380 * UNIT),
            Coin::new(700 * UNIT, 280 * UNIT),
            Coin::new(1000 * UNIT, 480 * UNIT),
            Coin::new(1300 * UNIT, 380 * UNIT),
            Coin::new(1550 * UNIT, 330 * UNIT),
        ];
        let powerups = vec![
            PowerUp::new(275 * UNIT, 420 * UNIT, PowerUpKind::SpeedBoost),
            PowerUp::new(750 * UNIT, 280 * UNIT, PowerUpKind::JumpBoost),
            PowerUp::new(1000 * UNIT, 470 * UNIT, PowerUpKind::SpeedBoost),
        ];
        Level { platforms, enemies, coins, powerups, goal_x: 1800 * UNIT, goal_y: 450 * UNIT }
    }

    /// Rising and falling steps with more enemies.
    pub fn create_level_2() -> (r: Level)
        ensures
            r.fits(),
            r.is_fresh(),
            has_layout(r, 1),
    {
        let platforms = vec![
            Rect::new(0, 550 * UNIT, 300 * UNIT, 50 * UNIT),
            Rect::new(400 * UNIT, 500 * UNIT, 100 * UNIT, 20 * UNIT),
            Rect::new(600 * UNIT, 450 * UNIT, 100 * UNIT, 20 * UNIT),
            Rect::new(800 * UNIT, 400 * UNIT, 100 * UNIT, 20 * UNIT),
            Rect::new(1000 * UNIT, 350 * UNIT, 100 * UNIT, 20 * UNIT),
            Rect::new(1200 * UNIT, 300 * UNIT, 150 * UNIT, 20 * UNIT),
            Rect::new(1450 * UNIT, 400 * UNIT, 100 * UNIT, 20 * UNIT),
            Rect::new(1650 * UNIT, 500 * UNIT, 100 * UNIT, 20 * UNIT),
            Rect::new(1850 * UNIT, 450 * UNIT, 100 * UNIT, 20 * UNIT),
            Rect::new(2050 * UNIT, 400 * UNIT, 200 * UNIT, 50 * UNIT),
        ];
        let enemies = vec![
            Enemy::new(450 * UNIT, 470 * UNIT),
            Enemy::new(650 * UNIT, 420 * UNIT),
            Enemy::new(850 * UNIT, 370 * UNIT),
            Enemy::new(1050 * UNIT, 320 * UNIT),
            Enemy::new(1300 * UNIT, 270 * UNIT),
            Enemy::new(1500 * UNIT, 370 * UNIT),
            Enemy::new(1700 * UNIT, 470 * UNIT),
        ];
        let coins = vec![
            Coin::new(250 * UNIT, 520 * UNIT),
            Coin::new(450 * UNIT, 480 * UNIT),
            Coin::new(650 * UNIT, 430 * UNIT),
            Coin::new(850 * UNIT, 380 * UNIT),
            Coin::new(1050 * UNIT, 330 * UNIT),
            Coin::new(1325 * UNIT, 280 * UNIT),
            Coin::new(1500 * UNIT, 380 * UNIT),
            Coin::new(1700 * UNIT, 480 * UNIT),
            Coin::new(1900 * UNIT, 430 * UNIT),
            Coin::new(2100 * UNIT, 380 * UNIT),
        ];
        let powerups = vec![
            PowerUp::new(425 * UNIT, 470 * UNIT, PowerUpKind::JumpBoost),
            PowerUp::new(1275 * UNIT, 270 * UNIT, PowerUpKind::SpeedBoost),
            PowerUp::new(1875 * UNIT, 420 * UNIT, PowerUpKind::JumpBoost),
        ];
        Level { platforms, enemies, coins, powerups, goal_x: 2150 * UNIT, goal_y: 350 * UNIT }
    }

    /// Small platforms up to a high castle area and down again.
    pub fn create_level_3() -> (r: Level)
        ensures
            r.fits(),
            r.is_fresh(),
            has_layout(r, 2),
    {
        let platforms = vec![
            Rect::new(0, 550 * UNIT, 200 * UNIT, 50 * UNIT),
            Rect::new(300 * UNIT, 500 * UNIT, 80 * UNIT, 20 * UNIT),
            Rect::new(480 * UNIT, 450 * UNIT, 80 * UNIT, 20 * UNIT),
            Rect::new(660 * UNIT, 400 * UNIT, 80 * UNIT, 20 * UNIT),
            Rect::new(840 * UNIT, 350 * UNIT, 80 * UNIT, 20 * UNIT),
            Rect::new(1020 * UNIT, 300 * UNIT, 100 * UNIT, 20 * UNIT),
            Rect::new(1200 * UNIT, 250 * UNIT, 150 * UNIT, 20 * UNIT),
            Rect::new(1450 * UNIT, 300 * UNIT, 80 * UNIT, 20 * UNIT),
            Rect::new(1630 * UNIT, 350 * UNIT, 80 * UNIT, 20 * UNIT),
            Rect::new(1810 * UNIT, 400 * UNIT, 80 * UNIT, 20 * UNIT),
            Rect::new(1990 * UNIT, 450 * UNIT, 80 * UNIT, 20 * UNIT),
            Rect::new(2170 * UNIT, 500 * UNIT, 200 * UNIT, 50 * UNIT),
        ];
        let enemies = vec![
            Enemy::new(350 * UNIT, 470 * UNIT),
            Enemy::new(530 * UNIT, 420 * UNIT),
            Enemy::new(710 * UNIT, 370 * UNIT),
            Enemy::new(890 * UNIT, 320 * UNIT),
            Enemy::new(1070 * UNIT, 270 * UNIT),
            Enemy::new(1300 * UNIT, 220 * UNIT),
            Enemy::new(1500 * UNIT, 270 * UNIT),
            Enemy::new(1680 * UNIT, 320 * UNIT),
            Enemy::new(1860 * UNIT, 370 * UNIT),
            Enemy::new(2040 * UNIT, 420 * UNIT),
        ];
        let coins = vec![
            Coin::new(340 * UNIT, 480 * UNIT),
            Coin::new(520 * UNIT, 430 * UNIT),
            Coin::new(700 * UNIT, 380 * UNIT),
            Coin::new(880 * UNIT, 330 * UNIT),
            Coin::new(1070 * UNIT, 280 * UNIT),
            Coin::new(1325 * UNIT, 230 * UNIT),
            Coin::new(1490 * UNIT, 280 * UNIT),
            Coin::new(1670 * UNIT, 330 * UNIT),
            Coin::new(1850 * UNIT, 380 * UNIT),
            Coin::new(2030 * UNIT, 430 * UNIT),
            Coin::new(2220 * UNIT, 480 * UNIT),
            Coin::new(2270 * UNIT, 480 * UNIT),
        ];
        let powerups = vec![
            PowerUp::new(380 * UNIT, 470 * UNIT, PowerUpKind::JumpBoost),
            PowerUp::new(1325 * UNIT, 220 * UNIT, PowerUpKind::SpeedBoost),
            PowerUp::new(2220 * UNIT, 470 * UNIT, PowerUpKind::JumpBoost),
        ];
        Level { platforms, enemies, coins, powerups, goal_x: 2300 * UNIT, goal_y: 450 * UNIT }
    }

    pub fn check_fits(&self) -> (r: bool)
        ensures
            r == self.fits(),
    {
        if self.enemies.len() > MAX_ITEMS || self.coins.len() > MAX_ITEMS || self.powerups.len()
            > MAX_ITEMS {
            return false;
        }
        if !(-LIMIT <= self.goal_x && self.goal_x <= LIMIT && -LIMIT
            <= self.goal_y && self.goal_y <= LIMIT) {
            return false;
        }
        let mut i: usize = 0;
        while i < self.platforms.len()
            invariant
                i <= self.platforms@.len(),
                forall|j: int| 0 <= j < i ==> #[trigger] self.platforms@[j].fits(),
            decreases self.platforms@.len() - i,
        {
            if !rect_fits(&self.platforms[i]) {
                return false;
            }
            i += 1;
        }
        let mut i: usize = 0;
        while i < self.enemies.len()
            invariant
                i <= self.enemies@.len(),
                forall|j: int| 0 <= j < i ==> #[trigger] self.enemies@[j].fits(),
            decreases self.enemies@.len() - i,
        {
            let e = &self.enemies[i];
            if !(rect_fits(&e.body) && value_fits(e.vx) && value_fits(e.vy) && (e.direction == 1
                || e.direction == -1)) {
                assert(!self.enemies@[i as int].fits());
                return false;
            }
            i += 1;
        }
        let mut i: usize = 0;
        while i < self.coins.len()
            invariant
                i <= self.coins@.len(),
                forall|j: int| 0 <= j < i ==> #[trigger] self.coins@[j].body.fits(),
            decreases self.coins@.len() - i,
        {
            if !rect_fits(&self.coins[i].body) {
                return false;
            }
            i += 1;
        }
        let mut i: usize = 0;
        while i < self.powerups.len()
            invariant
                i <= self.powerups@.len(),
                forall|j: int| 0 <= j < i ==> #[trigger] self.powerups@[j].body.fits(),
            decreases self.powerups@.len() - i,
        {
            if !rect_fits(&self.powerups[i].body) {
                return false;
            }
            i += 1;
        }
        true
    }

    pub fn goal_rect(&self) -> (r: Rect)
        requires
            in_limit(self.goal_y as int),
        ensures
            r == goal_rect_spec(self.goal_x, self.goal_y),
    {
        Rect {
            x: self.goal_x,
            y: self.goal_y - GOAL_ABOVE,
            width: GOAL_WIDTH,
            height: GOAL_ABOVE + GOAL_BELOW,
        }
    }

    /// Runs the enemy, coin and power-up passes against the player's
    /// snapshot and returns the frame's batch; the level's items are updated
    /// in place and the notifications appended to `events`.
    pub fn resolve_interactions(&mut self, dt: i64, s: Snapshot, events: &mut Vec<Event>) -> (fx:
        Effects)
        requires
            old(self).fits(),
            valid_dt(dt),
            within(s.body, reach()),
        ensures
            fx == batch_spec(
                old(self).enemies@,
                old(self).coins@,
                old(self).powerups@,
                dt,
                old(self).platforms@,
                s,
            ),
            -batch_cap() <= fx.score <= batch_cap(),
            -batch_cap() <= fx.lives <= batch_cap(),
            final(self).platforms@ == old(self).platforms@,
            final(self).goal_x == old(self).goal_x,
            final(self).goal_y == old(self).goal_y,
            final(self).enemies@ == old(self).enemies@.map_values(
                |e: Enemy| enemy_after(e, dt, old(self).platforms@, s),
            ),
            final(self).coins@ == old(self).coins@.map_values(|c: Coin| coin_after(c, s)),
            final(self).powerups@ == old(self).powerups@.map_values(
                |u: PowerUp| powerup_after(u, s),
            ),
            final(events)@ == old(events)@ + contact_events(
                old(self).enemies@,
                dt,
                old(self).platforms@,
                s,
            ) + repeat_event(Event::CoinCollected, count_coins(old(self).coins@, s))
                + repeat_event(
                Event::PowerUpCollected,
                count_powerups(old(self).powerups@, s),
            ),
    {
        let (stomps, hits) = resolve_enemies(&mut self.enemies, dt, &self.platforms, s, events);
        let coins = resolve_coins(&mut self.coins, s, events);
        let (taken, speed, jump) = resolve_powerups(&mut self.powerups, s, events);
        let score = 100 * (stomps as i64) + 10 * (coins as i64) + 50 * (taken as i64);
        Effects {
            bounce: stomps > 0,
            score,
            lives: -(hits as i64),
            speed_boost: speed,
            jump_boost: jump,
            reset: hits > 0,
        }
    }
}

fn value_fits(v: i64) -> (r: bool)
    ensures
        r == in_limit(v as int),
{
    -LIMIT <= v && v <= LIMIT
}

fn rect_fits(r: &Rect) -> (b: bool)
    ensures
        b == r.fits(),
{
    value_fits(r.x) && value_fits(r.y) && 0 <= r.width && r.width <= LIMIT && 0
        <= r.height && r.height <= LIMIT
}

} // verus!
