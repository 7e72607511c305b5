//! The game orchestrator: score, round lifecycle, mob spawning and the
//! wiring of player and HUD.
//!
//! The round phase is an explicit state: `Idle` until the first round,
//! `GetReady` while the start timer runs, `Playing` while the repeating
//! score and mob timers run, `GameOver` after a hit. Arming and stopping
//! timers is an effect of the transitions, never the source of truth.

use vstd::prelude::*;

use crate::decimal::spec_decimal;
use crate::geom::Vec2;
use crate::geom::MAX_COORD;
use crate::hud::get_ready_timer_t;
use crate::hud::show_game_over_t;
use crate::hud::show_get_ready_t;
use crate::hud::start_button_pressed_t;
use crate::hud::start_button_timer_t;
use crate::hud::start_message_timer_t;
use crate::hud::update_score_t;
use crate::hud::Hud;
use crate::hud::HudView;
use crate::hud::Message;
use crate::mob::path_point_and_tangent;
use crate::mob::spec_path_point;
use crate::mob::spec_path_tangent_deg;
use crate::mob::spec_perimeter;
use crate::mob::Mob;
use crate::mob::MobView;
use crate::mob::MOB_MAX_SPEED;
use crate::mob::MOB_MIN_SPEED;
use crate::mob::SPAWN_JITTER_DEG;
use crate::player::Player;
use crate::player::PlayerAnim;
use crate::player::MAX_SPEED;
use crate::rng::gen_range_i64;
use crate::rng::rng_from_seed;

verus! {

/// Number of distinct values the spawn progress is drawn from (the draw is
/// uniform over `[0, PROGRESS_RANGE)`, reduced modulo the path length).
pub const PROGRESS_RANGE: i64 = 4_294_967_295;

/// The round lifecycle.
#[derive(Clone, Copy, PartialEq, Eq, Structural, Debug)]
pub enum Phase {
    /// Before the first round.
    Idle,
    /// The start timer runs; the HUD shows "Get Ready".
    GetReady,
    /// The score and mob timers run.
    Playing,
    /// The round ended on a hit; mobs keep moving, nothing spawns.
    GameOver,
}

/// The timers whose expiry drives the state machine: the orchestrator's
/// three, then the HUD's three.
#[derive(Clone, Copy, PartialEq, Eq, Structural, Debug)]
pub enum TimerId {
    /// One-shot; delays gameplay until "Get Ready" has been seen.
    Start,
    /// Repeating; increments the score each interval.
    Score,
    /// Repeating; spawns one mob each interval.
    MobSpawn,
    /// One-shot; hides the "Get Ready" message.
    HudGetReadyMessage,
    /// One-shot; replaces "Game Over" with the title.
    HudStartMessage,
    /// One-shot; reveals the start button.
    HudStartButton,
}

/// The whole game state, for contracts.
#[verifier::ext_equal]
pub ghost struct GameView {
    pub score: nat,
    pub phase: Phase,
    pub start_timer_armed: bool,
    pub score_timer_armed: bool,
    pub mob_timer_armed: bool,
    pub player: Player,
    pub hud: HudView,
    pub mobs: Seq<MobView>,
    pub start_position: Vec2,
    pub screen_size: Vec2,
    pub mob_variants: Seq<Seq<char>>,
    pub music_playing: bool,
    pub death_sound_playing: bool,
}

/// The state a fresh orchestrator is constructed in.
pub open spec fn spec_init(
    screen_size: Vec2,
    start_position: Vec2,
    player_speed: i64,
    mob_variants: Seq<Seq<char>>,
) -> GameView {
    GameView {
        score: 0,
        phase: Phase::Idle,
        start_timer_armed: false,
        score_timer_armed: false,
        mob_timer_armed: false,
        player: Player {
            position: Vec2 { x: 0, y: 0 },
            speed: player_speed,
            screen_size,
            visible: false,
            collision_disabled: false,
            pending_collision_disable: false,
            animation: PlayerAnim::Walk,
            flip_h: false,
            flip_v: false,
            animation_playing: false,
        },
        hud: HudView {
            message: Message::Blank,
            message_visible: false,
            score_text: Seq::<char>::empty(),
            start_button_visible: false,
            get_ready_timer_armed: false,
            start_message_timer_armed: false,
            start_button_timer_armed: false,
        },
        mobs: Seq::<MobView>::empty(),
        start_position,
        screen_size,
        mob_variants,
        music_playing: false,
        death_sound_playing: false,
    }
}

/// The state after `new_game`: score reset to zero, player restarted at the
/// start marker, the start timer armed, the HUD showing score 0 and
/// "Get Ready", every live mob purged, the music restarted.
pub open spec fn new_game_t(s: GameView) -> GameView {
    GameView {
        score: 0,
        phase: Phase::GetReady,
        start_timer_armed: true,
        player: s.player.start_t(s.start_position),
        hud: show_get_ready_t(update_score_t(s.hud, 0)),
        mobs: Seq::<MobView>::empty(),
        music_playing: true,
        ..s
    }
}

/// The state after the start timer fires: both repeating timers armed,
/// gameplay begins.
pub open spec fn start_round_t(s: GameView) -> GameView {
    GameView {
        phase: Phase::Playing,
        start_timer_armed: false,
        score_timer_armed: true,
        mob_timer_armed: true,
        ..s
    }
}

/// The state after one score-timer tick: the score one higher, the HUD
/// showing it.
pub open spec fn score_tick_t(s: GameView) -> GameView {
    GameView { score: s.score + 1, hud: update_score_t(s.hud, s.score + 1), ..s }
}

/// The state after the player's hit signal: both repeating timers stopped,
/// the HUD showing "Game Over", the music stopped and the death sound
/// playing. The score keeps its value and no mob is destroyed.
pub open spec fn hit_t(s: GameView) -> GameView {
    GameView {
        phase: Phase::GameOver,
        score_timer_armed: false,
        mob_timer_armed: false,
        hud: show_game_over_t(s.hud),
        music_playing: false,
        death_sound_playing: true,
        ..s
    }
}

/// The state after one mob-timer tick, given the three uniform draws and
/// the drawn animation variant: one mob added at the path point of
/// `progress`, rotated to the path's inward perpendicular there plus
/// `jitter`, moving at `speed`.
pub open spec fn spawn_t(
    s: GameView,
    progress: int,
    jitter: int,
    speed: int,
    variant: int,
) -> GameView {
    let off = progress % spec_perimeter(s.screen_size);
    let tangent = spec_path_tangent_deg(s.screen_size, off);
    GameView {
        mobs: s.mobs.push(
            MobView {
                position: spec_path_point(s.screen_size, off),
                direction_deg: (tangent + 90 + jitter) as i64,
                speed: speed as i64,
                animation: s.mob_variants[variant],
            },
        ),
        ..s
    }
}

/// The game orchestrator.
pub struct Game {
    pub score: u32,
    pub phase: Phase,
    pub start_timer_armed: bool,
    pub score_timer_armed: bool,
    pub mob_timer_armed: bool,
    pub player: Player,
    pub hud: Hud,
    pub mobs: Vec<Mob>,
    pub start_position: Vec2,
    pub screen_size: Vec2,
    pub mob_variants: Vec<String>,
    pub music_playing: bool,
    pub death_sound_playing: bool,
    /// The generator behind the spawn and animation draws; opaque to the
    /// contracts, which state only the ranges of the draws.
    pub rng: rand::rngs::StdRng,
}

impl View for Game {
    type V = GameView;

    open spec fn view(&self) -> GameView {
        GameView {
            score: self.score as nat,
            phase: self.phase,
            start_timer_armed: self.start_timer_armed,
            score_timer_armed: self.score_timer_armed,
            mob_timer_armed: self.mob_timer_armed,
            player: self.player,
            hud: self.hud@,
            mobs: Seq::new(self.mobs@.len(), |i: int| self.mobs@[i]@),
            start_position: self.start_position,
            screen_size: self.screen_size,
            mob_variants: Seq::new(self.mob_variants@.len(), |i: int| self.mob_variants@[i]@),
            music_playing: self.music_playing,
            death_sound_playing: self.death_sound_playing,
        }
    }
}

impl Game {
    /// Well-formed orchestrator state: a valid configuration, and each
    /// timer armed exactly in the phase it drives — at most one round is
    /// active at a time.
    pub open spec fn wf(self) -> bool {
        &&& self.player.wf()
        &&& self.player.screen_size == self.screen_size
        &&& 1 <= self.screen_size.x <= MAX_COORD
        &&& 1 <= self.screen_size.y <= MAX_COORD
        &&& self.start_position.in_box(Vec2 { x: 0, y: 0 }, self.screen_size)
        &&& self.mob_variants@.len() > 0
        &&& (self.start_timer_armed <==> self.phase == Phase::GetReady)
        &&& (self.score_timer_armed <==> self.phase == Phase::Playing)
        &&& (self.mob_timer_armed <==> self.phase == Phase::Playing)
    }

    /// Build an orchestrator in the `Idle` phase, with nothing armed and
    /// nothing alive. The scene supplies the screen size, the start marker,
    /// the player's speed and the mob's animation variants; `seed` fixes
    /// the random sequence.
    pub fn new(
        screen_size: Vec2,
        start_position: Vec2,
        player_speed: i64,
        mob_variants: Vec<String>,
        seed: u64,
    ) -> (g: Game)
        requires
            1 <= screen_size.x <= MAX_COORD,
            1 <= screen_size.y <= MAX_COORD,
            start_position.in_box(Vec2 { x: 0, y: 0 }, screen_size),
            0 < player_speed <= MAX_SPEED,
            mob_variants@.len() > 0,
        ensures
            g.wf(),
            g@ == spec_init(
                screen_size,
                start_position,
                player_speed,
                Seq::new(mob_variants@.len(), |i: int| mob_variants@[i]@),
            ),
    {
        let g = Game {
            score: 0,
            phase: Phase::Idle,
            start_timer_armed: false,
            score_timer_armed: false,
            mob_timer_armed: false,
            player: Player::new(player_speed, screen_size),
            hud: Hud::new(),
            mobs: Vec::new(),
            start_position,
            screen_size,
            mob_variants,
            music_playing: false,
            death_sound_playing: false,
            rng: rng_from_seed(seed),
        };
        proof {
            assert(g@ =~= spec_init(
                screen_size,
                start_position,
                player_speed,
                Seq::new(g.mob_variants@.len(), |i: int| g.mob_variants@[i]@),
            ));
        }
        g
    }

    /// Start a round: reset the score to zero, restart the player at the
    /// start marker, arm the start timer, show score and "Get Ready" on the
    /// HUD, purge every live mob, and restart the music.
    pub fn new_game(&mut self)
        requires
            old(self).wf(),
            old(self).phase == Phase::Idle || old(self).phase == Phase::GameOver,
        ensures
            final(self).wf(),
            final(self)@ == new_game_t(old(self)@),
            final(self).score == 0,
            final(self).mobs@.len() == 0,
    {
        self.score = 0;
        self.phase = Phase::GetReady;
        self.player.start(self.start_position);
        self.start_timer_armed = true;
        self.hud.update_score(self.score);
        self.hud.show_get_ready();
        self.mobs = Vec::new();
        self.music_playing = true;
        proof {
            assert(self@ =~= new_game_t(old(self)@));
        }
    }

    /// The one-shot start timer fired: arm both repeating timers; gameplay
    /// begins.
    pub fn on_start_timer_timeout(&mut self)
        requires
            old(self).wf(),
            old(self).phase == Phase::GetReady,
        ensures
            final(self).wf(),
            final(self)@ == start_round_t(old(self)@),
    {
        self.phase = Phase::Playing;
        self.start_timer_armed = false;
        self.score_timer_armed = true;
        self.mob_timer_armed = true;
        proof {
            assert(self@ =~= start_round_t(old(self)@));
        }
    }

    /// The repeating score timer fired: one more point, pushed to the HUD.
    pub fn on_score_timer_timeout(&mut self)
        requires
            old(self).wf(),
            old(self).phase == Phase::Playing,
            old(self).score < u32::MAX,
        ensures
            final(self).wf(),
            final(self)@ == score_tick_t(old(self)@),
    {
        self.score = self.score + 1;
        self.hud.update_score(self.score);
        proof {
            assert(self@ =~= score_tick_t(old(self)@));
        }
    }

    /// The repeating mob timer fired: spawn one mob. Its spot on the spawn
    /// path, the perturbation of its direction and its speed are uniform
    /// draws; the contract states every outcome's range and effect.
    pub fn on_mob_timer_timeout(&mut self)
        requires
            old(self).wf(),
            old(self).phase == Phase::Playing,
        ensures
            final(self).wf(),
            exists|progress: int, jitter: int, speed: int, variant: int|
                #![trigger spawn_t(old(self)@, progress, jitter, speed, variant)]
                0 <= progress < PROGRESS_RANGE && -SPAWN_JITTER_DEG <= jitter < SPAWN_JITTER_DEG
                    && MOB_MIN_SPEED <= speed < MOB_MAX_SPEED && 0 <= variant < old(
                    self,
                )@.mob_variants.len() && final(self)@ == spawn_t(
                    old(self)@,
                    progress,
                    jitter,
                    speed,
                    variant,
                ),
    {
        let progress = gen_range_i64(&mut self.rng, 0, PROGRESS_RANGE);
        let (position, tangent_deg) = path_point_and_tangent(self.screen_size, progress);
        let jitter = gen_range_i64(&mut self.rng, -SPAWN_JITTER_DEG, SPAWN_JITTER_DEG);
        let direction_deg = tangent_deg + 90 + jitter;
        let speed = gen_range_i64(&mut self.rng, MOB_MIN_SPEED, MOB_MAX_SPEED);
        let mob = Mob::spawn(&mut self.rng, &self.mob_variants, position, direction_deg, speed);
        self.mobs.push(mob);
        proof {
            let s = old(self)@;
            let vi = choose|i: int|
                0 <= i < self.mob_variants@.len() && self.mobs@.last()@.animation
                    == self.mob_variants@[i]@;
            assert(self@.mobs =~= s.mobs.push(self.mobs@.last()@));
            assert(self@ =~= spawn_t(s, progress as int, jitter as int, speed as int, vi));
        }
    }

    /// The player's hit signal arrived: stop both repeating timers, show
    /// "Game Over", stop the music and play the death sound. The score is
    /// frozen and existing mobs keep moving. Delivered again in `GameOver`
    /// — a duplicate signal — it changes nothing further.
    pub fn on_player_hit(&mut self)
        requires
            old(self).wf(),
            old(self).phase == Phase::Playing || old(self).phase == Phase::GameOver,
        ensures
            final(self).wf(),
            final(self)@ == hit_t(old(self)@),
            final(self).score == old(self).score,
    {
        self.phase = Phase::GameOver;
        self.score_timer_armed = false;
        self.mob_timer_armed = false;
        self.hud.show_game_over();
        self.music_playing = false;
        self.death_sound_playing = true;
        proof {
            assert(self@ =~= hit_t(old(self)@));
        }
    }

    /// A body ran into the player: let the player controller react, and if
    /// it emitted its hit signal, end the round. A hidden player (already
    /// hit) emits nothing.
    pub fn on_player_collision(&mut self)
        requires
            old(self).wf(),
            old(self).phase == Phase::Playing || old(self).phase == Phase::GameOver,
        ensures
            final(self).wf(),
            old(self).player.visible ==> final(self)@ == hit_t(
                GameView { player: old(self).player.hit_t(), ..old(self)@ },
            ),
            !old(self).player.visible ==> final(self)@ == old(self)@,
    {
        let emitted = self.player.on_body_entered();
        if emitted {
            self.on_player_hit();
        }
    }

    /// The HUD's start button emitted `start_game`: begin a new round.
    pub fn on_hud_start_game(&mut self)
        requires
            old(self).wf(),
            old(self).phase == Phase::Idle || old(self).phase == Phase::GameOver,
        ensures
            final(self).wf(),
            final(self)@ == new_game_t(old(self)@),
    {
        self.new_game();
    }

    /// The start button was pressed: the HUD hides it and stops its timer,
    /// and its `start_game` signal starts a new round, all in one tick.
    pub fn on_start_button_pressed(&mut self)
        requires
            old(self).wf(),
            old(self).phase == Phase::Idle || old(self).phase == Phase::GameOver,
        ensures
            final(self).wf(),
            final(self)@ == new_game_t(
                GameView { hud: start_button_pressed_t(old(self)@.hud), ..old(self)@ },
            ),
    {
        self.hud.on_start_button_pressed();
        self.new_game();
    }

    /// A mob left the visible screen region and self-destructs.
    pub fn on_mob_screen_exited(&mut self, index: usize)
        requires
            old(self).wf(),
            index < old(self).mobs@.len(),
        ensures
            final(self).wf(),
            final(self)@ == (GameView { mobs: old(self)@.mobs.remove(index as int), ..old(self)@ }),
    {
        self.mobs.remove(index);
        proof {
            assert(self@.mobs =~= old(self)@.mobs.remove(index as int));
            assert(self@ =~= (GameView {
                mobs: old(self)@.mobs.remove(index as int),
                ..old(self)@
            }));
        }
    }

    /// One timer expired: dispatch to its handler if it is armed, else do
    /// nothing — a late expiry of a stopped timer has no effect.
    pub fn on_timer_expired(&mut self, t: TimerId)
        requires
            old(self).wf(),
            t == TimerId::Score && old(self).score_timer_armed ==> old(self).score < u32::MAX,
        ensures
            final(self).wf(),
            ({
                let s = old(self)@;
                let s2 = final(self)@;
                match t {
                    TimerId::Start => s2 == if s.start_timer_armed {
                        start_round_t(s)
                    } else {
                        s
                    },
                    TimerId::Score => s2 == if s.score_timer_armed {
                        score_tick_t(s)
                    } else {
                        s
                    },
                    TimerId::MobSpawn => if s.mob_timer_armed {
                        exists|progress: int, jitter: int, speed: int, variant: int|
                            #![trigger spawn_t(s, progress, jitter, speed, variant)]
                            0 <= progress < PROGRESS_RANGE && -SPAWN_JITTER_DEG <= jitter
                                < SPAWN_JITTER_DEG && MOB_MIN_SPEED <= speed < MOB_MAX_SPEED && 0
                                <= variant < s.mob_variants.len() && s2 == spawn_t(
                                s,
                                progress,
                                jitter,
                                speed,
                                variant,
                            )
                    } else {
                        s2 == s
                    },
                    TimerId::HudGetReadyMessage => s2 == if s.hud.get_ready_timer_armed {
                        (GameView { hud: get_ready_timer_t(s.hud), ..s })
                    } else {
                        s
                    },
                    TimerId::HudStartMessage => s2 == if s.hud.start_message_timer_armed {
                        (GameView { hud: start_message_timer_t(s.hud), ..s })
                    } else {
                        s
                    },
                    TimerId::HudStartButton => s2 == if s.hud.start_button_timer_armed {
                        (GameView { hud: start_button_timer_t(s.hud), ..s })
                    } else {
                        s
                    },
                }
            }),
    {
        match t {
            TimerId::Start => {
                if self.start_timer_armed {
                    self.on_start_timer_timeout();
                }
            },
            TimerId::Score => {
                if self.score_timer_armed {
                    self.on_score_timer_timeout();
                }
            },
            TimerId::MobSpawn => {
                if self.mob_timer_armed {
                    self.on_mob_timer_timeout();
                }
            },
            TimerId::HudGetReadyMessage => {
                if self.hud.get_ready_timer_armed {
                    self.hud.on_get_ready_message_timer_timeout();
                    proof {
                        assert(self@ =~= (GameView {
                            hud: get_ready_timer_t(old(self)@.hud),
                            ..old(self)@
                        }));
                    }
                }
            },
            TimerId::HudStartMessage => {
                if self.hud.start_message_timer_armed {
                    self.hud.on_start_message_timer_timeout();
                    proof {
                        assert(self@ =~= (GameView {
                            hud: start_message_timer_t(old(self)@.hud),
                            ..old(self)@
                        }));
                    }
                }
            },
            TimerId::HudStartButton => {
                if self.hud.start_button_timer_armed {
                    self.hud.on_start_button_timer_timeout();
                    proof {
                        assert(self@ =~= (GameView {
                            hud: start_button_timer_t(old(self)@.hud),
                            ..old(self)@
                        }));
                    }
                }
            },
        }
    }
}

/// `k` score-timer ticks in a row.
pub open spec fn spec_score_ticks(s: GameView, k: nat) -> GameView
    decreases k,
{
    if k == 0 {
        s
    } else {
        score_tick_t(spec_score_ticks(s, (k - 1) as nat))
    }
}

/// Law: starting from a fresh round, the score after `k` score-timer ticks
/// is exactly `k`, and the HUD's score label shows its decimal string.
pub proof fn lemma_score_counts_ticks(s: GameView, k: nat)
    ensures
        spec_score_ticks(new_game_t(s), k).score == k,
        spec_score_ticks(new_game_t(s), k).hud.score_text == spec_decimal(k),
    decreases k,
{
    if k > 0 {
        lemma_score_counts_ticks(s, (k - 1) as nat);
    }
}

/// Law: starting a round resets the score to exactly zero and purges every
/// previously live mob — whatever their number, and whatever the prior
/// state.
pub proof fn lemma_new_game_resets(s: GameView)
    ensures
        new_game_t(s).score == 0,
        new_game_t(s).mobs == Seq::<MobView>::empty(),
{
}

/// Law: ending the round is idempotent — a duplicate hit report leaves the
/// state exactly as the first one did: the score keeps its value, the
/// stopped timers stay stopped, nothing is decremented or re-armed.
pub proof fn lemma_player_hit_idempotent(s: GameView)
    ensures
        hit_t(hit_t(s)) == hit_t(s),
{
    assert(hit_t(hit_t(s)) =~= hit_t(s));
}

/// Law: a spawn only appends — every prior mob survives unchanged — and
/// the new mob's direction lies within the 45-degree cone around the path
/// tangent plus 90 degrees, its speed within `[150, 250]`.
pub proof fn lemma_spawn_policy(s: GameView, progress: int, jitter: int, speed: int, variant: int)
    requires
        0 <= progress,
        1 <= s.screen_size.x <= MAX_COORD,
        1 <= s.screen_size.y <= MAX_COORD,
        -SPAWN_JITTER_DEG <= jitter <= SPAWN_JITTER_DEG,
        MOB_MIN_SPEED <= speed <= MOB_MAX_SPEED,
        0 <= variant < s.mob_variants.len(),
    ensures
        ({
            let s2 = spawn_t(s, progress, jitter, speed, variant);
            let tangent = spec_path_tangent_deg(
                s.screen_size,
                progress % spec_perimeter(s.screen_size),
            );
            let m = s2.mobs.last();
            &&& s2.mobs.len() == s.mobs.len() + 1
            &&& s2.mobs.subrange(0, s.mobs.len() as int) == s.mobs
            &&& tangent + 90 - SPAWN_JITTER_DEG <= m.direction_deg <= tangent + 90
                + SPAWN_JITTER_DEG
            &&& MOB_MIN_SPEED <= m.speed <= MOB_MAX_SPEED
        }),
{
    let s2 = spawn_t(s, progress, jitter, speed, variant);
    assert(s2.mobs.subrange(0, s.mobs.len() as int) =~= s.mobs);
}

} // verus!
