//! The game state machine and the per-frame orchestration of motion,
//! interactions, level progress and lives.
use vstd::prelude::*;

use crate::config::{GOAL_SCORE, MAX_DT_MS, START_X, START_Y, HALF_SCREEN_H, HALF_SCREEN_W, WORLD_BOTTOM};
use crate::entities::{
    initial_player, input_spec, player_step_spec, reset_spec, Input, Player,
};
use crate::geometry::{overlaps, overlaps_spec, within};
use crate::interaction::{
    apply_effects, apply_spec, batch_spec, coin_after, contact_events, count_coins, count_powerups,
    enemy_after, lemma_count_coins_bound, lemma_count_contacts_bound, lemma_count_powerups_bound,
    powerup_after, repeat_event, Contact, Effects, Event, Snapshot,
};
use crate::kinematics::{reach, valid_dt};
use crate::level::{goal_rect_spec, has_layout, Level};

verus! {

#[derive(Clone, Copy, Debug, PartialEq, Eq, Structural)]
pub enum GameState {
    StartScreen,
    Playing,
    Paused,
    GameOver,
}

/// Top-left corner of the view, centred on the player.
#[derive(Clone, Copy, Debug, PartialEq, Eq, Structural)]
pub struct Camera {
    pub x: i64,
    pub y: i64,
}

pub open spec fn follow_spec(p: Player) -> Camera {
    Camera {
        x: (p.body.x + p.body.width / 2 - HALF_SCREEN_W) as i64,
        y: (p.body.y + p.body.height / 2 - HALF_SCREEN_H) as i64,
    }
}

impl Camera {
    pub fn new() -> (r: Camera)
        ensures
            r == (Camera { x: 0, y: 0 }),
    {
        Camera { x: 0, y: 0 }
    }

    pub fn follow_player(&mut self, player: &Player)
        requires
            within(player.body, reach()),
        ensures
            *final(self) == follow_spec(*player),
    {
        self.x = player.body.x + player.body.width / 2 - HALF_SCREEN_W;
        self.y = player.body.y + player.body.height / 2 - HALF_SCREEN_H;
    }
}

pub struct Game {
    pub state: GameState,
    pub player: Player,
    pub camera: Camera,
    pub levels: Vec<Level>,
    pub current_level: usize,
    /// The current level's goal has been reached on this visit.
    pub level_completed: bool,
}

/// Level `k` of a game as built: its layout, fresh and within bounds.
pub open spec fn built_level(l: Level, k: int) -> bool {
    &&& l.fits()
    &&& l.is_fresh()
    &&& has_layout(l, k)
}

/// A game as it starts (apart from its state): the initial player at the
/// first of three freshly built levels.
pub open spec fn restarted(g: Game) -> bool {
    &&& g.player == initial_player()
    &&& g.camera == (Camera { x: 0, y: 0 })
    &&& g.current_level == 0
    &&& !g.level_completed
    &&& g.levels@.len() == 3
    &&& forall|k: int| 0 <= k < 3 ==> built_level(#[trigger] g.levels@[k], k)
}

pub open spec fn current_spec(g: Game) -> Level {
    g.levels@[g.current_level as int]
}

/// The player after input and motion.
pub open spec fn moved(g: Game, dt: i64, input: Input) -> Player {
    player_step_spec(input_spec(g.player, input).0, dt, current_spec(g).platforms@)
}

pub open spec fn snapshot_of(p: Player) -> Snapshot {
    Snapshot { body: p.body, vy: p.vy }
}

pub open spec fn frame_batch(g: Game, dt: i64, input: Input) -> Effects {
    let l = current_spec(g);
    batch_spec(
        l.enemies@,
        l.coins@,
        l.powerups@,
        dt,
        l.platforms@,
        snapshot_of(moved(g, dt, input)),
    )
}

pub open spec fn after_batch(g: Game, dt: i64, input: Input) -> Player {
    apply_spec(moved(g, dt, input), frame_batch(g, dt, input))
}

/// The goal is reached when the player touches its trigger and the level
/// was not yet completed on this visit.
pub open spec fn reaches_goal(p: Player, l: Level, completed: bool) -> bool {
    overlaps_spec(p.body, goal_rect_spec(l.goal_x, l.goal_y)) && !completed
}

/// Reaching the goal scores and moves to the next level from its start, or
/// ends the game after the last level. Returns the player, the level index,
/// the completed flag and the state.
pub open spec fn goal_spec(p: Player, reached: bool, completed: bool, cur: int, n: int, st: GameState) -> (
    Player,
    int,
    bool,
    GameState,
) {
    if reached {
        let p1 = Player { score: (p.score + GOAL_SCORE) as i64, ..p };
        if cur + 1 < n {
            (reset_spec(p1), cur + 1, false, st)
        } else {
            (p1, cur, true, GameState::GameOver)
        }
    } else {
        (p, cur, completed, st)
    }
}

pub open spec fn after_goal(g: Game, dt: i64, input: Input) -> (Player, int, bool, GameState) {
    let p = after_batch(g, dt, input);
    goal_spec(
        p,
        reaches_goal(p, current_spec(g), g.level_completed),
        g.level_completed,
        g.current_level as int,
        g.levels@.len() as int,
        if p.lives <= 0 {
            GameState::GameOver
        } else {
            GameState::Playing
        },
    )
}

pub open spec fn falls_off(p: Player) -> bool {
    p.body.y > WORLD_BOTTOM
}

/// Falling off the world costs a life; the game ends when none is left,
/// else the player returns to the start.
pub open spec fn fall_spec(p: Player, st: GameState) -> (Player, GameState) {
    if falls_off(p) {
        let p1 = Player { lives: (p.lives - 1) as i64, ..p };
        if p1.lives <= 0 {
            (p1, GameState::GameOver)
        } else {
            (reset_spec(p1), st)
        }
    } else {
        (p, st)
    }
}

pub open spec fn after_fall(g: Game, dt: i64, input: Input) -> (Player, GameState) {
    let (p, _, _, st) = after_goal(g, dt, input);
    fall_spec(p, st)
}

/// The notifications of one playing frame, in order.
pub open spec fn frame_events(g: Game, dt: i64, input: Input) -> Seq<Event> {
    let l = current_spec(g);
    let s = snapshot_of(moved(g, dt, input));
    let p = after_batch(g, dt, input);
    (if input_spec(g.player, input).1 {
        seq![Event::Jump]
    } else {
        Seq::<Event>::empty()
    }) + contact_events(l.enemies@, dt, l.platforms@, s) + repeat_event(
        Event::CoinCollected,
        count_coins(l.coins@, s),
    ) + repeat_event(Event::PowerUpCollected, count_powerups(l.powerups@, s)) + (if reaches_goal(
        p,
        l,
        g.level_completed,
    ) {
        seq![Event::LevelComplete]
    } else {
        Seq::<Event>::empty()
    }) + (if falls_off(after_goal(g, dt, input).0) {
        seq![Event::PlayerHit]
    } else {
        Seq::<Event>::empty()
    })
}

/// The current level after a frame: same platforms and goal, every enemy
/// moved and resolved, touched pickups collected.
pub open spec fn level_after(l1: Level, l0: Level, dt: i64, s: Snapshot) -> bool {
    &&& l1.platforms@ == l0.platforms@
    &&& l1.goal_x == l0.goal_x
    &&& l1.goal_y == l0.goal_y
    &&& l1.enemies@ == l0.enemies@.map_values(|e| enemy_after(e, dt, l0.platforms@, s))
    &&& l1.coins@ == l0.coins@.map_values(|c| coin_after(c, s))
    &&& l1.powerups@ == l0.powerups@.map_values(|u| powerup_after(u, s))
}

/// One playing frame from `g0` to `g1`, with the notifications `ev`.
pub open spec fn frame_post(g0: Game, g1: Game, dt: i64, input: Input, ev: Seq<Event>) -> bool {
    let cur = g0.current_level as int;
    &&& g1.player == after_fall(g0, dt, input).0
    &&& g1.state == after_fall(g0, dt, input).1
    &&& g1.current_level == after_goal(g0, dt, input).1
    &&& g1.level_completed == after_goal(g0, dt, input).2
    &&& g1.camera == follow_spec(g1.player)
    &&& g1.levels@.len() == g0.levels@.len()
    &&& forall|k: int| 0 <= k < g0.levels@.len() && k != cur ==> #[trigger] g1.levels@[k] == g0.levels@[k]
    &&& level_after(g1.levels@[cur], g0.levels@[cur], dt, snapshot_of(moved(g0, dt, input)))
    &&& ev == frame_events(g0, dt, input)
}

/// One call of `update`: the state machine's transitions, and a frame of
/// play while playing.
pub open spec fn update_post(g0: Game, g1: Game, dt: i64, input: Input, ev: Seq<Event>) -> bool {
    match g0.state {
        GameState::StartScreen => ev.len() == 0 && if input.start {
            g1 == Game { state: GameState::Playing, ..g0 }
        } else {
            g1 == g0
        },
        GameState::Paused => ev.len() == 0 && if input.pause {
            g1 == Game { state: GameState::Playing, ..g0 }
        } else {
            g1 == g0
        },
        GameState::GameOver => ev.len() == 0 && if input.restart {
            restarted(g1) && g1.state == GameState::Playing
        } else if input.menu {
            g1 == Game { state: GameState::StartScreen, ..g0 }
        } else {
            g1 == g0
        },
        GameState::Playing => if input.pause {
            ev.len() == 0 && g1 == Game { state: GameState::Paused, ..g0 }
        } else {
            frame_post(g0, g1, dt, input, ev)
        },
    }
}

impl Game {
    /// The current level exists and every value is within the bounds
    /// under which a frame cannot overflow.
    pub open spec fn fits(&self) -> bool {
        &&& self.current_level < self.levels@.len()
        &&& forall|k: int| 0 <= k < self.levels@.len() ==> #[trigger] self.levels@[k].fits()
        &&& self.player.fits()
    }

    pub fn new() -> (r: Game)
        ensures
            restarted(r),
            r.state == GameState::StartScreen,
            r.fits(),
    {
        let levels = vec![Level::create_level_1(), Level::create_level_2(), Level::create_level_3()];
        Game {
            state: GameState::StartScreen,
            player: Player::new(),
            camera: Camera::new(),
            levels,
            current_level: 0,
            level_completed: false,
        }
    }

    /// Rebuilds the player and every level; the state is kept.
    pub fn reset_game(&mut self)
        ensures
            restarted(*final(self)),
            final(self).state == old(self).state,
            final(self).fits(),
    {
        self.player = Player::new();
        self.camera = Camera::new();
        self.current_level = 0;
        self.level_completed = false;
        self.levels = vec![Level::create_level_1(), Level::create_level_2(), Level::create_level_3()];
    }

    pub fn current_level(&self) -> (r: &Level)
        requires
            self.current_level < self.levels@.len(),
        ensures
            *r == current_spec(*self),
    {
        &self.levels[self.current_level]
    }

    pub fn check_fits(&self) -> (r: bool)
        ensures
            r == self.fits(),
    {
        if self.current_level >= self.levels.len() || !self.player.check_fits() {
            return false;
        }
        let mut k: usize = 0;
        while k < self.levels.len()
            invariant
                k <= self.levels@.len(),
                forall|j: int| 0 <= j < k ==> #[trigger] self.levels@[j].fits(),
            decreases self.levels@.len() - k,
        {
            if !self.levels[k].check_fits() {
                return false;
            }
            k += 1;
        }
        true
    }

    /// One frame of play: input, motion, interactions, the batch, then the
    /// checks for lives, goal and falling, and the camera.
    #[verifier::rlimit(50)]
    fn play_frame(&mut self, dt: i64, input: Input) -> (ev: Vec<Event>)
        requires
            old(self).fits(),
            old(self).state == GameState::Playing,
            valid_dt(dt),
        ensures
            frame_post(*old(self), *final(self), dt, input, ev@),
    {
        let cur = self.current_level;
        let mut events: Vec<Event> = Vec::new();
        let jumped = self.player.handle_input(&input);
        if jumped {
            events.push(Event::Jump);
        }
        assert(self.levels@[cur as int].fits());
        self.player.update(dt, &self.levels[cur].platforms);
        assert(self.player == moved(*old(self), dt, input));
        let s = Snapshot { body: self.player.body, vy: self.player.vy };
        let fx = self.levels[cur].resolve_interactions(dt, s, &mut events);
        apply_effects(&mut self.player, &fx);
        assert(fx == frame_batch(*old(self), dt, input));
        assert(self.player == after_batch(*old(self), dt, input));
        if self.player.lives <= 0 {
            self.state = GameState::GameOver;
        }
        assert(self.levels@.len() == old(self).levels@.len());
        let goal = self.levels[cur].goal_rect();
        if overlaps(&self.player.body, &goal) && !self.level_completed {
            self.level_completed = true;
            events.push(Event::LevelComplete);
            self.player.score = self.player.score + GOAL_SCORE;
            if self.levels.len() - cur > 1 {
                self.current_level = cur + 1;
                self.player.reset_position();
                self.level_completed = false;
            } else {
                self.state = GameState::GameOver;
            }
        }
        assert(self.player == after_goal(*old(self), dt, input).0);
        if self.player.body.y > WORLD_BOTTOM {
            self.player.lives = self.player.lives - 1;
            events.push(Event::PlayerHit);
            if self.player.lives <= 0 {
                self.state = GameState::GameOver;
            } else {
                self.player.reset_position();
            }
        }
        self.camera.follow_player(&self.player);
        proof {
            let g0 = *old(self);
            let g1 = *self;
            assert(g1.player == after_fall(g0, dt, input).0);
            assert(g1.state == after_fall(g0, dt, input).1);
            assert(g1.current_level == after_goal(g0, dt, input).1);
            assert(g1.level_completed == after_goal(g0, dt, input).2);
            assert(forall|k: int| 0 <= k < g0.levels@.len() && k != cur ==> #[trigger] g1.levels@[k] == g0.levels@[k]);
            assert(level_after(g1.levels@[cur as int], g0.levels@[cur as int], dt, snapshot_of(moved(g0, dt, input))));
            assert(events@ == frame_events(g0, dt, input));
        }
        events
    }

    /// Advances the game by one frame of `dt` milliseconds under `input`.
    pub fn update(&mut self, dt: i64, input: Input) -> (ev: Vec<Event>)
        requires
            old(self).fits(),
            valid_dt(dt),
        ensures
            update_post(*old(self), *final(self), dt, input, ev@),
            final(self).current_level < final(self).levels@.len(),
    {
        match self.state {
            GameState::StartScreen => {
                if input.start {
                    self.state = GameState::Playing;
                }
                Vec::new()
            },
            GameState::Playing => {
                if input.pause {
                    self.state = GameState::Paused;
                    Vec::new()
                } else {
                    self.play_frame(dt, input)
                }
            },
            GameState::Paused => {
                if input.pause {
                    self.state = GameState::Playing;
                }
                Vec::new()
            },
            GameState::GameOver => {
                if input.restart {
                    self.reset_game();
                    self.state = GameState::Playing;
                } else if input.menu {
                    self.state = GameState::StartScreen;
                }
                Vec::new()
            },
        }
    }

    /// `update` where the frame time and every stored value are within its
    /// bounds; otherwise `None`, with the game left as it was.
    pub fn step(&mut self, dt: i64, input: Input) -> (r: Option<Vec<Event>>)
        ensures
            r is None <==> !(old(self).fits() && valid_dt(dt)),
            r is None ==> *final(self) == *old(self),
            r matches Some(ev) ==> update_post(*old(self), *final(self), dt, input, ev@),
            old(self).current_level < old(self).levels@.len() ==> final(self).current_level
                < final(self).levels@.len(),
    {
        if 0 <= dt && dt <= MAX_DT_MS && self.check_fits() {
            Some(self.update(dt, input))
        } else {
            None
        }
    }
}

/// Falling below the world bottom costs exactly one life; with lives left
/// the player is back at the level start, at rest, and play goes on.
pub proof fn lemma_fall_costs_one_life(p: Player, st: GameState)
    requires
        p.fits(),
        falls_off(p),
        p.lives > 1,
    ensures
        fall_spec(p, st).0.lives == p.lives - 1,
        fall_spec(p, st).0.body.x == START_X,
        fall_spec(p, st).0.body.y == START_Y,
        fall_spec(p, st).0.vx == 0,
        fall_spec(p, st).0.vy == 0,
        fall_spec(p, st).1 == st,
{
}

/// Reaching the goal of the last level ends the game, and the level index
/// stays on that last, existing level.
pub proof fn lemma_last_goal_ends_game(g: Game, dt: i64, input: Input)
    requires
        g.fits(),
        g.current_level + 1 == g.levels@.len(),
        reaches_goal(after_batch(g, dt, input), current_spec(g), g.level_completed),
    ensures
        after_goal(g, dt, input).3 == GameState::GameOver,
        after_fall(g, dt, input).1 == GameState::GameOver,
        after_goal(g, dt, input).1 == g.current_level,
        after_goal(g, dt, input).1 < g.levels@.len(),
{
}

/// Within a game, score only grows: a frame of play never lowers it.
pub proof fn lemma_frame_never_lowers_score(g: Game, dt: i64, input: Input)
    requires
        g.fits(),
    ensures
        after_fall(g, dt, input).0.score >= g.player.score,
{
    let l = current_spec(g);
    let s = snapshot_of(moved(g, dt, input));
    assert(l.fits());
    lemma_count_contacts_bound(l.enemies@, dt, l.platforms@, s, Contact::Stomp);
    lemma_count_coins_bound(l.coins@, s);
    lemma_count_powerups_bound(l.powerups@, s);
}

} // verus!
