//! Player interactions with enemies, coins and power-ups, gathered into a
//! batch of effects that is applied to the player once per frame.
use vstd::prelude::*;

use crate::config::{
    COIN_SCORE, JUMP_BOOST, MAX_ITEMS, POWERUP_SCORE, SPEED_BOOST, START_X,
    START_Y, STOMP_BOUNCE, STOMP_SCORE,
};
use crate::entities::{
    enemy_step_spec, in_limit, reset_spec, Coin, Enemy, Player, PowerUp, PowerUpKind,
};
use crate::geometry::{overlaps_spec, within, Rect};
use crate::kinematics::{platforms_fit, reach, valid_dt};

verus! {

/// Notifications for the presentation layer.
#[derive(Clone, Copy, Debug, PartialEq, Eq, Structural)]
pub enum Event {
    Jump,
    CoinCollected,
    EnemyDefeated,
    PowerUpCollected,
    PlayerHit,
    LevelComplete,
}

/// The player as the interaction passes see it: its body and vertical
/// velocity after the frame's motion, read once before any pass.
#[derive(Clone, Copy, Debug, PartialEq, Eq, Structural)]
pub struct Snapshot {
    pub body: Rect,
    pub vy: i64,
}

/// Effects scheduled for the player during one frame.
#[derive(Clone, Copy, Debug, PartialEq, Eq, Structural)]
pub struct Effects {
    /// Bounce upwards after a stomp.
    pub bounce: bool,
    pub score: i64,
    pub lives: i64,
    pub speed_boost: bool,
    pub jump_boost: bool,
    /// Return to the level start.
    pub reset: bool,
}

/// How a live enemy met the player this frame.
#[derive(Clone, Copy, Debug, PartialEq, Eq, Structural)]
pub enum Contact {
    Miss,
    Stomp,
    Hit,
}

/// A contact is a stomp when the player falls and its top lies above the
/// enemy's top; any other contact hurts the player.
pub open spec fn contact_spec(e: Enemy, s: Snapshot) -> Contact {
    if e.alive && overlaps_spec(e.body, s.body) {
        if s.vy > 0 && s.body.y < e.body.y {
            Contact::Stomp
        } else {
            Contact::Hit
        }
    } else {
        Contact::Miss
    }
}

/// An enemy after its motion this frame and the player's stomp, if any.
pub open spec fn enemy_after(e: Enemy, dt: i64, ps: Seq<Rect>, s: Snapshot) -> Enemy {
    let e1 = enemy_step_spec(e, dt, ps);
    if contact_spec(e1, s) == Contact::Stomp {
        Enemy { alive: false, ..e1 }
    } else {
        e1
    }
}

pub open spec fn contact_of(e: Enemy, dt: i64, ps: Seq<Rect>, s: Snapshot) -> Contact {
    contact_spec(enemy_step_spec(e, dt, ps), s)
}

/// Number of enemies of `es` whose contact this frame is `c`.
pub open spec fn count_contacts(es: Seq<Enemy>, dt: i64, ps: Seq<Rect>, s: Snapshot, c: Contact) -> nat
    decreases es.len(),
{
    if es.len() == 0 {
        0
    } else {
        count_contacts(es.drop_last(), dt, ps, s, c) + if contact_of(es.last(), dt, ps, s) == c {
            1nat
        } else {
            0nat
        }
    }
}

pub open spec fn contact_events(es: Seq<Enemy>, dt: i64, ps: Seq<Rect>, s: Snapshot) -> Seq<Event>
    decreases es.len(),
{
    if es.len() == 0 {
        seq![]
    } else {
        contact_events(es.drop_last(), dt, ps, s) + match contact_of(es.last(), dt, ps, s) {
            Contact::Stomp => seq![Event::EnemyDefeated],
            Contact::Hit => seq![Event::PlayerHit],
            Contact::Miss => Seq::<Event>::empty(),
        }
    }
}

pub open spec fn coin_taken(c: Coin, s: Snapshot) -> bool {
    !c.collected && overlaps_spec(c.body, s.body)
}

pub open spec fn coin_after(c: Coin, s: Snapshot) -> Coin {
    if coin_taken(c, s) {
        Coin { collected: true, ..c }
    } else {
        c
    }
}

pub open spec fn count_coins(cs: Seq<Coin>, s: Snapshot) -> nat
    decreases cs.len(),
{
    if cs.len() == 0 {
        0
    } else {
        count_coins(cs.drop_last(), s) + if coin_taken(cs.last(), s) {
            1nat
        } else {
            0nat
        }
    }
}

pub open spec fn powerup_taken(p: PowerUp, s: Snapshot) -> bool {
    !p.collected && overlaps_spec(p.body, s.body)
}

pub open spec fn powerup_after(p: PowerUp, s: Snapshot) -> PowerUp {
    if powerup_taken(p, s) {
        PowerUp { collected: true, ..p }
    } else {
        p
    }
}

pub open spec fn count_powerups(us: Seq<PowerUp>, s: Snapshot) -> nat
    decreases us.len(),
{
    if us.len() == 0 {
        0
    } else {
        count_powerups(us.drop_last(), s) + if powerup_taken(us.last(), s) {
            1nat
        } else {
            0nat
        }
    }
}

/// Some power-up of kind `k` is collected this frame.
pub open spec fn takes_kind(us: Seq<PowerUp>, s: Snapshot, k: PowerUpKind) -> bool {
    exists|i: int| 0 <= i < us.len() && powerup_taken(#[trigger] us[i], s) && us[i].kind == k
}

/// The batch of a whole frame, from the counts of each interaction.
pub open spec fn batch_spec(
    es: Seq<Enemy>,
    cs: Seq<Coin>,
    us: Seq<PowerUp>,
    dt: i64,
    ps: Seq<Rect>,
    s: Snapshot,
) -> Effects {
    let stomps = count_contacts(es, dt, ps, s, Contact::Stomp);
    let hits = count_contacts(es, dt, ps, s, Contact::Hit);
    Effects {
        bounce: stomps > 0,
        score: (STOMP_SCORE * stomps + COIN_SCORE * count_coins(cs, s) + POWERUP_SCORE
            * count_powerups(us, s)) as i64,
        lives: -hits as i64,
        speed_boost: takes_kind(us, s, PowerUpKind::SpeedBoost),
        jump_boost: takes_kind(us, s, PowerUpKind::JumpBoost),
        reset: hits > 0,
    }
}

/// The player after a batch: the bounce, then score and lives, then the
/// boosts, and last a return to the start.
pub open spec fn apply_spec(p: Player, fx: Effects) -> Player {
    let p1 = if fx.bounce {
        Player { vy: STOMP_BOUNCE, ..p }
    } else {
        p
    };
    let p2 = Player { score: (p1.score + fx.score) as i64, lives: (p1.lives + fx.lives) as i64, ..p1 };
    let p3 = if fx.speed_boost {
        Player { speed_boost: SPEED_BOOST, ..p2 }
    } else {
        p2
    };
    let p4 = if fx.jump_boost {
        Player { jump_boost: JUMP_BOOST, ..p3 }
    } else {
        p3
    };
    if fx.reset {
        reset_spec(p4)
    } else {
        p4
    }
}

pub open spec fn max_items() -> int {
    MAX_ITEMS as int
}

pub proof fn lemma_count_contacts_bound(es: Seq<Enemy>, dt: i64, ps: Seq<Rect>, s: Snapshot, c: Contact)
    ensures
        count_contacts(es, dt, ps, s, c) <= es.len(),
    decreases es.len(),
{
    if es.len() > 0 {
        lemma_count_contacts_bound(es.drop_last(), dt, ps, s, c);
    }
}

pub proof fn lemma_count_coins_bound(cs: Seq<Coin>, s: Snapshot)
    ensures
        count_coins(cs, s) <= cs.len(),
    decreases cs.len(),
{
    if cs.len() > 0 {
        lemma_count_coins_bound(cs.drop_last(), s);
    }
}

pub proof fn lemma_count_powerups_bound(us: Seq<PowerUp>, s: Snapshot)
    ensures
        count_powerups(us, s) <= us.len(),
    decreases us.len(),
{
    if us.len() > 0 {
        lemma_count_powerups_bound(us.drop_last(), s);
    }
}

/// `n` copies of one event.
pub open spec fn repeat_event(e: Event, n: nat) -> Seq<Event> {
    Seq::new(n, |i: int| e)
}

/// Moves every enemy, classifies its contact with the player, and defeats
/// the stomped ones. Returns the numbers of stomps and of hits.
pub fn resolve_enemies(
    enemies: &mut Vec<Enemy>,
    dt: i64,
    ps: &Vec<Rect>,
    s: Snapshot,
    events: &mut Vec<Event>,
) -> (r: (u64, u64))
    requires
        forall|i: int| 0 <= i < old(enemies)@.len() ==> #[trigger] old(enemies)@[i].fits(),
        old(enemies)@.len() <= max_items(),
        valid_dt(dt),
        platforms_fit(ps@),
        within(s.body, reach()),
    ensures
        final(enemies)@ == old(enemies)@.map_values(|e: Enemy| enemy_after(e, dt, ps@, s)),
        r.0 == count_contacts(old(enemies)@, dt, ps@, s, Contact::Stomp),
        r.1 == count_contacts(old(enemies)@, dt, ps@, s, Contact::Hit),
        r.0 + r.1 <= old(enemies)@.len(),
        final(events)@ == old(events)@ + contact_events(old(enemies)@, dt, ps@, s),
{
    let ghost es0 = enemies@;
    let ghost ev0 = events@;
    let mut stomps: u64 = 0;
    let mut hits: u64 = 0;
    let mut i: usize = 0;
    while i < enemies.len()
        invariant
            enemies@.len() == es0.len(),
            es0.len() <= max_items(),
            i <= es0.len(),
            forall|j: int| 0 <= j < es0.len() ==> #[trigger] es0[j].fits(),
            valid_dt(dt),
            platforms_fit(ps@),
            within(s.body, reach()),
            forall|j: int| 0 <= j < i ==> enemies@[j] == enemy_after(#[trigger] es0[j], dt, ps@, s),
            forall|j: int| i <= j < es0.len() ==> enemies@[j] == #[trigger] es0[j],
            stomps == count_contacts(es0.take(i as int), dt, ps@, s, Contact::Stomp),
            hits == count_contacts(es0.take(i as int), dt, ps@, s, Contact::Hit),
            stomps + hits <= i,
            events@ == ev0 + contact_events(es0.take(i as int), dt, ps@, s),
        decreases es0.len() - i,
    {
        assert(es0.take(i + 1).drop_last() =~= es0.take(i as int));
        assert(es0.take(i + 1).last() == es0[i as int]);
        let mut e = enemies[i];
        e.update(dt, ps);
        if e.check_collision(&s.body) {
            if s.vy > 0 && s.body.y < e.body.y {
                e.alive = false;
                stomps = stomps + 1;
                events.push(Event::EnemyDefeated);
            } else {
                hits = hits + 1;
                events.push(Event::PlayerHit);
            }
        }
        enemies[i] = e;
        i += 1;
        proof {
            assert(events@ =~= ev0 + contact_events(es0.take(i as int), dt, ps@, s));
        }
    }
    assert(es0.take(es0.len() as int) =~= es0);
    assert(enemies@ =~= es0.map_values(|e: Enemy| enemy_after(e, dt, ps@, s)));
    (stomps, hits)
}

/// Collects every coin the player touches. Returns how many were collected.
pub fn resolve_coins(coins: &mut Vec<Coin>, s: Snapshot, events: &mut Vec<Event>) -> (r: u64)
    requires
        forall|i: int| 0 <= i < old(coins)@.len() ==> #[trigger] old(coins)@[i].body.fits(),
        old(coins)@.len() <= max_items(),
        within(s.body, reach()),
    ensures
        final(coins)@ == old(coins)@.map_values(|c: Coin| coin_after(c, s)),
        r == count_coins(old(coins)@, s),
        r <= old(coins)@.len(),
        final(events)@ == old(events)@ + repeat_event(Event::CoinCollected, r as nat),
{
    let ghost cs0 = coins@;
    let ghost ev0 = events@;
    let mut n: u64 = 0;
    let mut i: usize = 0;
    while i < coins.len()
        invariant
            coins@.len() == cs0.len(),
            cs0.len() <= max_items(),
            i <= cs0.len(),
            forall|j: int| 0 <= j < cs0.len() ==> #[trigger] cs0[j].body.fits(),
            within(s.body, reach()),
            forall|j: int| 0 <= j < i ==> coins@[j] == coin_after(#[trigger] cs0[j], s),
            forall|j: int| i <= j < cs0.len() ==> coins@[j] == #[trigger] cs0[j],
            n == count_coins(cs0.take(i as int), s),
            n <= i,
            events@ == ev0 + repeat_event(Event::CoinCollected, n as nat),
        decreases cs0.len() - i,
    {
        assert(cs0.take(i + 1).drop_last() =~= cs0.take(i as int));
        assert(cs0.take(i + 1).last() == cs0[i as int]);
        assert(cs0[i as int].body.fits());
        let mut c = coins[i];
        if c.check_collision(&s.body) {
            c.collected = true;
            n = n + 1;
            events.push(Event::CoinCollected);
        }
        coins[i] = c;
        i += 1;
        proof {
            assert(events@ =~= ev0 + repeat_event(Event::CoinCollected, n as nat));
        }
    }
    assert(cs0.take(cs0.len() as int) =~= cs0);
    assert(coins@ =~= cs0.map_values(|c: Coin| coin_after(c, s)));
    n
}

/// Collects every power-up the player touches. Returns how many were
/// collected, and whether a speed and a jump boost were among them.
pub fn resolve_powerups(powerups: &mut Vec<PowerUp>, s: Snapshot, events: &mut Vec<Event>) -> (r: (
    u64,
    bool,
    bool,
))
    requires
        forall|i: int| 0 <= i < old(powerups)@.len() ==> #[trigger] old(powerups)@[i].body.fits(),
        old(powerups)@.len() <= max_items(),
        within(s.body, reach()),
    ensures
        final(powerups)@ == old(powerups)@.map_values(|u: PowerUp| powerup_after(u, s)),
        r.0 == count_powerups(old(powerups)@, s),
        r.0 <= old(powerups)@.len(),
        r.1 == takes_kind(old(powerups)@, s, PowerUpKind::SpeedBoost),
        r.2 == takes_kind(old(powerups)@, s, PowerUpKind::JumpBoost),
        final(events)@ == old(events)@ + repeat_event(Event::PowerUpCollected, r.0 as nat),
{
    let ghost us0 = powerups@;
    let ghost ev0 = events@;
    let mut n: u64 = 0;
    let mut speed = false;
    let mut jump = false;
    let mut i: usize = 0;
    while i < powerups.len()
        invariant
            powerups@.len() == us0.len(),
            us0.len() <= max_items(),
            i <= us0.len(),
            forall|j: int| 0 <= j < us0.len() ==> #[trigger] us0[j].body.fits(),
            within(s.body, reach()),
            forall|j: int| 0 <= j < i ==> powerups@[j] == powerup_after(#[trigger] us0[j], s),
            forall|j: int| i <= j < us0.len() ==> powerups@[j] == #[trigger] us0[j],
            n == count_powerups(us0.take(i as int), s),
            n <= i,
            speed == takes_kind(us0.take(i as int), s, PowerUpKind::SpeedBoost),
            jump == takes_kind(us0.take(i as int), s, PowerUpKind::JumpBoost),
            events@ == ev0 + repeat_event(Event::PowerUpCollected, n as nat),
        decreases us0.len() - i,
    {
        let ghost pre = us0.take(i as int);
        let ghost post = us0.take(i + 1);
        assert(post.drop_last() =~= pre);
        assert(post.last() == us0[i as int]);
        assert(us0[i as int].body.fits());
        assert(forall|j: int| 0 <= j < i ==> post[j] == #[trigger] pre[j]);
        let mut u = powerups[i];
        let taken = u.check_collision(&s.body);
        if taken {
            u.collected = true;
            match u.kind {
                PowerUpKind::SpeedBoost => {
                    speed = true;
                },
                PowerUpKind::JumpBoost => {
                    jump = true;
                },
            }
            n = n + 1;
            events.push(Event::PowerUpCollected);
        }
        proof {
            if taken {
                assert(powerup_taken(post[i as int], s));
            }
            if takes_kind(pre, s, PowerUpKind::SpeedBoost) {
                let j = choose|j: int|
                    0 <= j < pre.len() && powerup_taken(#[trigger] pre[j], s) && pre[j].kind
                        == PowerUpKind::SpeedBoost;
                assert(powerup_taken(post[j], s));
            }
            if takes_kind(pre, s, PowerUpKind::JumpBoost) {
                let j = choose|j: int|
                    0 <= j < pre.len() && powerup_taken(#[trigger] pre[j], s) && pre[j].kind
                        == PowerUpKind::JumpBoost;
                assert(powerup_taken(post[j], s));
            }
        }
        powerups[i] = u;
        i += 1;
        proof {
            assert(events@ =~= ev0 + repeat_event(Event::PowerUpCollected, n as nat));
        }
    }
    assert(us0.take(us0.len() as int) =~= us0);
    assert(powerups@ =~= us0.map_values(|u: PowerUp| powerup_after(u, s)));
    (n, speed, jump)
}

/// Bound on the magnitude of a batch's score change.
pub open spec fn batch_cap() -> int {
    1_000_000_000
}

/// Applies a frame's batch to the player, all at once.
pub fn apply_effects(p: &mut Player, fx: &Effects)
    requires
        in_limit(old(p).score as int),
        in_limit(old(p).lives as int),
        -batch_cap() <= fx.score <= batch_cap(),
        -batch_cap() <= fx.lives <= batch_cap(),
    ensures
        *final(p) == apply_spec(*old(p), *fx),
{
    if fx.bounce {
        p.vy = STOMP_BOUNCE;
    }
    p.score = p.score + fx.score;
    p.lives = p.lives + fx.lives;
    if fx.speed_boost {
        p.speed_boost = SPEED_BOOST;
    }
    if fx.jump_boost {
        p.jump_boost = JUMP_BOOST;
    }
    if fx.reset {
        p.reset_position();
    }
}

/// A collected coin is inert: touching it changes neither the coin nor the
/// score, so a second pass over the coins with the same player collects
/// nothing and changes nothing.
pub proof fn lemma_coin_pass_idempotent(cs: Seq<Coin>, s: Snapshot)
    ensures
        count_coins(cs.map_values(|c: Coin| coin_after(c, s)), s) == 0,
        cs.map_values(|c: Coin| coin_after(c, s)).map_values(|c: Coin| coin_after(c, s))
            == cs.map_values(|c: Coin| coin_after(c, s)),
    decreases cs.len(),
{
    let once = cs.map_values(|c: Coin| coin_after(c, s));
    if cs.len() > 0 {
        lemma_coin_pass_idempotent(cs.drop_last(), s);
        assert(once.drop_last() =~= cs.drop_last().map_values(|c: Coin| coin_after(c, s)));
    }
    assert(once.map_values(|c: Coin| coin_after(c, s)) =~= once);
}

/// The same for power-ups: a second pass collects nothing, so it adds no
/// score and sets no boost.
pub proof fn lemma_powerup_pass_idempotent(us: Seq<PowerUp>, s: Snapshot)
    ensures
        count_powerups(us.map_values(|u: PowerUp| powerup_after(u, s)), s) == 0,
        !takes_kind(us.map_values(|u: PowerUp| powerup_after(u, s)), s, PowerUpKind::SpeedBoost),
        !takes_kind(us.map_values(|u: PowerUp| powerup_after(u, s)), s, PowerUpKind::JumpBoost),
        us.map_values(|u: PowerUp| powerup_after(u, s)).map_values(|u: PowerUp| powerup_after(u, s))
            == us.map_values(|u: PowerUp| powerup_after(u, s)),
    decreases us.len(),
{
    let once = us.map_values(|u: PowerUp| powerup_after(u, s));
    if us.len() > 0 {
        lemma_powerup_pass_idempotent(us.drop_last(), s);
        assert(once.drop_last() =~= us.drop_last().map_values(|u: PowerUp| powerup_after(u, s)));
    }
    assert(once.map_values(|u: PowerUp| powerup_after(u, s)) =~= once);
}

/// A stomp defeats the enemy for good: a defeated enemy no longer moves and
/// never meets the player again, so it scores only once.
pub proof fn lemma_stomp_defeats_once(e: Enemy, dt: i64, ps: Seq<Rect>, s: Snapshot, dt2: i64, ps2: Seq<Rect>, s2: Snapshot)
    requires
        contact_of(e, dt, ps, s) == Contact::Stomp,
    ensures
        !enemy_after(e, dt, ps, s).alive,
        enemy_after(enemy_after(e, dt, ps, s), dt2, ps2, s2) == enemy_after(e, dt, ps, s),
        contact_of(enemy_after(e, dt, ps, s), dt2, ps2, s2) == Contact::Miss,
{
}

/// A frame whose contacts are stomps only bounces the player upwards at the
/// stomp speed and adds the stomp score for each of them, beside the pickups.
pub proof fn lemma_stomp_bounces_and_scores(
    p: Player,
    es: Seq<Enemy>,
    cs: Seq<Coin>,
    us: Seq<PowerUp>,
    dt: i64,
    ps: Seq<Rect>,
    s: Snapshot,
)
    requires
        p.fits(),
        count_contacts(es, dt, ps, s, Contact::Stomp) > 0,
        count_contacts(es, dt, ps, s, Contact::Hit) == 0,
        es.len() <= max_items() && cs.len() <= max_items() && us.len() <= max_items(),
    ensures
        apply_spec(p, batch_spec(es, cs, us, dt, ps, s)).vy == STOMP_BOUNCE,
        apply_spec(p, batch_spec(es, cs, us, dt, ps, s)).score == p.score + STOMP_SCORE
            * count_contacts(es, dt, ps, s, Contact::Stomp) + COIN_SCORE * count_coins(cs, s)
            + POWERUP_SCORE * count_powerups(us, s),
        apply_spec(p, batch_spec(es, cs, us, dt, ps, s)).lives == p.lives,
{
    lemma_count_contacts_bound(es, dt, ps, s, Contact::Stomp);
    lemma_count_coins_bound(cs, s);
    lemma_count_powerups_bound(us, s);
}

/// A frame with exactly one hurting contact costs exactly one life and puts
/// the player back at the level start, at rest.
pub proof fn lemma_hit_costs_one_life(
    p: Player,
    es: Seq<Enemy>,
    cs: Seq<Coin>,
    us: Seq<PowerUp>,
    dt: i64,
    ps: Seq<Rect>,
    s: Snapshot,
)
    requires
        p.fits(),
        count_contacts(es, dt, ps, s, Contact::Hit) == 1,
    ensures
        apply_spec(p, batch_spec(es, cs, us, dt, ps, s)).lives == p.lives - 1,
        apply_spec(p, batch_spec(es, cs, us, dt, ps, s)).body.x == START_X,
        apply_spec(p, batch_spec(es, cs, us, dt, ps, s)).body.y == START_Y,
        apply_spec(p, batch_spec(es, cs, us, dt, ps, s)).vx == 0,
        apply_spec(p, batch_spec(es, cs, us, dt, ps, s)).vy == 0,
{
}

} // verus!
