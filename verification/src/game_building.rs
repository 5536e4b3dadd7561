//! Configuring and constructing games.

use vstd::prelude::*;

use std::collections::VecDeque;

use crate::delays::{DelayCurve, DelayCurveExt};
use crate::durations::{Factor, InGameTime};
use crate::game::{
    Configuration, Game, GameLimits, Phase, SoftDropRate, State, StateInitialization, is_default_config,
    same_config,
};
use crate::rotation::RotationSystem;
use crate::game_update::{game_consistent, same_play_state};
use crate::generation::{StdTetGen, is_snappy};
use crate::pieces::Board;
use crate::rng::{fresh_seed, seeded_generator, seeded_rng};

verus! {

/// A template for new games: an optional seed, an optional tetromino
/// generator and a configuration. It is not used up by building, so one
/// template can start many games.
#[derive(PartialEq, Eq, Debug, Hash)]
pub struct GameBuilder {
    seed: Option<u64>,
    tetromino_generator: Option<StdTetGen>,
    config: Configuration,
}

/// The state a game starts in: at time zero, nothing pressed, held or
/// previewed, an empty board, no stats, and the delays of the configured
/// curves at zero cleared lines (the lock delay equal to the fall delay when
/// there is no lock curve).
pub open spec fn initial_state_of(config: Configuration, generator: StdTetGen, s: State) -> bool {
    let every = config.update_delays_every_n_lineclears as nat;
    let fall = config.fall_delay_curve.value_at(0, every);
    &&& s.time == 0
    &&& s.active_buttons@ == Seq::new(11, |i: int| None::<u64>)
    &&& s.piece_generator == generator
    &&& s.piece_preview@.len() == 0
    &&& s.piece_held is None
    &&& forall|y: int, x: int| 0 <= y < 32 && 0 <= x < 10 ==> (#[trigger] s.board[y][x]) is None
    &&& s.fall_delay == fall
    &&& s.fall_delay_lowerbound_hit_at_n_lineclears == (if config.fall_delay_curve.limit_reached_at(0, every) {
        Some(0u32)
    } else {
        None
    })
    &&& s.lock_delay == (match config.lock_delay_curve {
        Some(c) => c.value_at(0, every),
        None => fall,
    })
    &&& s.pieces_locked@ == Seq::new(7, |i: int| 0u32)
    &&& s.lineclears == 0
    &&& s.consecutive_lineclears == 0
    &&& s.points == 0
}

/// What a game built from a template is: the template's configuration; its
/// seed, or any seed when it has none; its tetromino generator, or the
/// recency-based one with exponent 2.5; the random number generator made from
/// that seed; the initial state; spawning at time zero.
pub open spec fn built_from(b: GameBuilder, r: Game) -> bool {
    &&& same_config(r.config_spec(), b.config_spec())
    &&& b.seed_spec() matches Some(s) ==> r.state_init_spec().seed == s
    &&& match b.tetromino_generator_spec() {
        Some(g) => r.state_init_spec().tetromino_generator == g,
        None => is_snappy(r.state_init_spec().tetromino_generator),
    }
    &&& r.state_spec().rng == seeded_generator(r.state_init_spec().seed)
    &&& initial_state_of(b.config_spec(), r.state_init_spec().tetromino_generator, r.state_spec())
    &&& r.phase_spec() == (Phase::Spawning { spawn_time: 0 })
    &&& game_consistent(r.state_spec(), r.phase_spec())
}

/// Law: a game is reproducible from its seed. Two games built from one template
/// that holds a seed start alike: the same initialisation, configuration and
/// phase, and the same state, random number generator included.
pub proof fn lemma_build_reproducible(b: GameBuilder, g1: Game, g2: Game)
    requires
        b.seed_spec() is Some,
        built_from(b, g1),
        built_from(b, g2),
    ensures
        g1.state_init_spec() == g2.state_init_spec(),
        same_config(g1.config_spec(), g2.config_spec()),
        same_play_state(g1.state_spec(), g2.state_spec()),
        g1.state_spec().rng == g2.state_spec().rng,
        g1.phase_spec() == g2.phase_spec(),
{
    let s1 = g1.state_spec();
    let s2 = g2.state_spec();
    let i1 = g1.state_init_spec();
    let i2 = g2.state_init_spec();
    if b.tetromino_generator_spec() is None {
        let r1 = i1.tetromino_generator->Recency_0;
        let r2 = i2.tetromino_generator->Recency_0;
        assert(r1.tets_last_emitted =~= r2.tets_last_emitted) by {
            assert(r1.tets_last_emitted@ =~= r2.tets_last_emitted@);
        }
        assert(r1.factor == r2.factor);
        assert(r1 == r2);
    }
    assert(s1.active_buttons =~= s2.active_buttons) by {
        assert(s1.active_buttons@ =~= s2.active_buttons@);
    }
    assert forall|y: int| 0 <= y < 32 implies s1.board[y] =~= s2.board[y] by {
        assert forall|x: int| 0 <= x < 10 implies s1.board[y][x] == s2.board[y][x] by {
            assert(s1.board[y][x] is None);
            assert(s2.board[y][x] is None);
        }
    }
    assert(s1.board =~= s2.board);
    assert(s1.pieces_locked =~= s2.pieces_locked) by {
        assert(s1.pieces_locked@ =~= s2.pieces_locked@);
    }
    assert(s1.piece_preview@ =~= s2.piece_preview@);
}

impl GameBuilder {
    /// The seed given, if any.
    pub closed spec fn seed_spec(&self) -> Option<u64> {
        self.seed
    }

    /// The tetromino generator given, if any.
    pub closed spec fn tetromino_generator_spec(&self) -> Option<StdTetGen> {
        self.tetromino_generator
    }

    /// The configuration games are built with.
    pub closed spec fn config_spec(&self) -> Configuration {
        self.config
    }

    /// A template with no seed, no tetromino generator and the default configuration.
    pub fn new() -> (r: Self)
        ensures
            r.seed_spec() is None,
            r.tetromino_generator_spec() is None,
            is_default_config(r.config_spec()),
    {
        GameBuilder { seed: None, tetromino_generator: None, config: Configuration::default() }
    }

    /// The value to seed the game's random number generator with.
    pub fn seed(&mut self, x: u64) -> (r: &mut Self)
        ensures
            r.seed_spec() == Some(x),
            r.tetromino_generator_spec() == old(self).tetromino_generator_spec(),
            r.config_spec() == old(self).config_spec(),
            *final(self) == *final(r),
    {
        self.seed = Some(x);
        self
    }

    /// The tetromino generator (and its state) the game starts with.
    pub fn tetromino_generator(&mut self, x: StdTetGen) -> (r: &mut Self)
        ensures
            r.seed_spec() == old(self).seed_spec(),
            r.tetromino_generator_spec() == Some(x),
            r.config_spec() == old(self).config_spec(),
            *final(self) == *final(r),
    {
        self.tetromino_generator = Some(x);
        self
    }

    /// The configuration games are built with.
    pub fn config(&mut self, x: Configuration) -> (r: &mut Self)
        ensures
            r.seed_spec() == old(self).seed_spec(),
            r.tetromino_generator_spec() == old(self).tetromino_generator_spec(),
            r.config_spec() == x,
            *final(self) == *final(r),
    {
        self.config = x;
        self
    }

    /// How many upcoming pieces are generated in advance and visible.
    pub fn generate_piece_preview(&mut self, x: usize) -> (r: &mut Self)
        ensures
            r.seed_spec() == old(self).seed_spec(),
            r.tetromino_generator_spec() == old(self).tetromino_generator_spec(),
            r.config_spec() == (Configuration { generate_piece_preview: x, ..old(self).config_spec() }),
            *final(self) == *final(r),
    {
        self.config.generate_piece_preview = x;
        self
    }

    /// Whether held rotate, hold and teleport buttons act on a piece as it spawns.
    pub fn allow_spawn_manipulation(&mut self, x: bool) -> (r: &mut Self)
        ensures
            r.seed_spec() == old(self).seed_spec(),
            r.tetromino_generator_spec() == old(self).tetromino_generator_spec(),
            r.config_spec() == (Configuration { allow_spawn_manipulation: x, ..old(self).config_spec() }),
            *final(self) == *final(r),
    {
        self.config.allow_spawn_manipulation = x;
        self
    }

    /// The rotation system.
    pub fn rotation_system(&mut self, x: RotationSystem) -> (r: &mut Self)
        ensures
            r.seed_spec() == old(self).seed_spec(),
            r.tetromino_generator_spec() == old(self).tetromino_generator_spec(),
            r.config_spec() == (Configuration { rotation_system: x, ..old(self).config_spec() }),
            *final(self) == *final(r),
    {
        self.config.rotation_system = x;
        self
    }

    /// How long spawning a new piece takes.
    pub fn spawn_delay(&mut self, x: InGameTime) -> (r: &mut Self)
        ensures
            r.seed_spec() == old(self).seed_spec(),
            r.tetromino_generator_spec() == old(self).tetromino_generator_spec(),
            r.config_spec() == (Configuration { spawn_delay: x, ..old(self).config_spec() }),
            *final(self) == *final(r),
    {
        self.config.spawn_delay = x;
        self
    }

    /// How long a move button is held before the piece starts shifting by itself.
    pub fn delayed_auto_shift(&mut self, x: InGameTime) -> (r: &mut Self)
        ensures
            r.seed_spec() == old(self).seed_spec(),
            r.tetromino_generator_spec() == old(self).tetromino_generator_spec(),
            r.config_spec() == (Configuration { delayed_auto_shift: x, ..old(self).config_spec() }),
            *final(self) == *final(r),
    {
        self.config.delayed_auto_shift = x;
        self
    }

    /// How long each repeated automatic shift takes.
    pub fn auto_repeat_rate(&mut self, x: InGameTime) -> (r: &mut Self)
        ensures
            r.seed_spec() == old(self).seed_spec(),
            r.tetromino_generator_spec() == old(self).tetromino_generator_spec(),
            r.config_spec() == (Configuration { auto_repeat_rate: x, ..old(self).config_spec() }),
            *final(self) == *final(r),
    {
        self.config.auto_repeat_rate = x;
        self
    }

    /// How the fall delay progresses with cleared lines.
    pub fn fall_delay_curve(&mut self, x: DelayCurve) -> (r: &mut Self)
        ensures
            r.seed_spec() == old(self).seed_spec(),
            r.tetromino_generator_spec() == old(self).tetromino_generator_spec(),
            r.config_spec() == (Configuration { fall_delay_curve: x, ..old(self).config_spec() }),
            *final(self) == *final(r),
    {
        self.config.fall_delay_curve = x;
        self
    }

    /// How soft dropping speeds up falling: by a factor of the fall speed, or by capping the fall delay.
    pub fn soft_drop_speedup(&mut self, x: SoftDropRate) -> (r: &mut Self)
        ensures
            r.seed_spec() == old(self).seed_spec(),
            r.tetromino_generator_spec() == old(self).tetromino_generator_spec(),
            r.config_spec() == (Configuration { soft_drop_rate: x, ..old(self).config_spec() }),
            *final(self) == *final(r),
    {
        self.config.soft_drop_rate = x;
        self
    }

    /// How the lock delay progresses; equal to the fall delay when `None`.
    pub fn lock_delay_curve(&mut self, x: Option<DelayCurve>) -> (r: &mut Self)
        ensures
            r.seed_spec() == old(self).seed_spec(),
            r.tetromino_generator_spec() == old(self).tetromino_generator_spec(),
            r.config_spec() == (Configuration { lock_delay_curve: x, ..old(self).config_spec() }),
            *final(self) == *final(r),
    {
        self.config.lock_delay_curve = x;
        self
    }

    /// Whether automatic shifts are hastened so that they happen before a lock.
    pub fn ensure_shift_delay_lt_lock_delay(&mut self, x: bool) -> (r: &mut Self)
        ensures
            r.seed_spec() == old(self).seed_spec(),
            r.tetromino_generator_spec() == old(self).tetromino_generator_spec(),
            r.config_spec() == (Configuration { ensure_shift_delay_lt_lock_delay: x, ..old(self).config_spec() }),
            *final(self) == *final(r),
    {
        self.config.ensure_shift_delay_lt_lock_delay = x;
        self
    }

    /// Whether pressing a rotate or move button refreshes the lock delay even when the piece does not change.
    pub fn allow_lenient_lock_reset(&mut self, x: bool) -> (r: &mut Self)
        ensures
            r.seed_spec() == old(self).seed_spec(),
            r.tetromino_generator_spec() == old(self).tetromino_generator_spec(),
            r.config_spec() == (Configuration { allow_lenient_lock_reset: x, ..old(self).config_spec() }),
            *final(self) == *final(r),
    {
        self.config.allow_lenient_lock_reset = x;
        self
    }

    /// How many lock delays a piece may spend on the ground in total.
    pub fn lock_reset_cap_factor(&mut self, x: Factor) -> (r: &mut Self)
        ensures
            r.seed_spec() == old(self).seed_spec(),
            r.tetromino_generator_spec() == old(self).tetromino_generator_spec(),
            r.config_spec() == (Configuration { lock_reset_cap_factor: x, ..old(self).config_spec() }),
            *final(self) == *final(r),
    {
        self.config.lock_reset_cap_factor = x;
        self
    }

    /// How long clearing lines takes.
    pub fn line_clear_duration(&mut self, x: InGameTime) -> (r: &mut Self)
        ensures
            r.seed_spec() == old(self).seed_spec(),
            r.tetromino_generator_spec() == old(self).tetromino_generator_spec(),
            r.config_spec() == (Configuration { line_clear_duration: x, ..old(self).config_spec() }),
            *final(self) == *final(r),
    {
        self.config.line_clear_duration = x;
        self
    }

    /// After how many cleared lines the delays are recomputed.
    pub fn update_delays_every_n_lineclears(&mut self, x: u32) -> (r: &mut Self)
        ensures
            r.seed_spec() == old(self).seed_spec(),
            r.tetromino_generator_spec() == old(self).tetromino_generator_spec(),
            r.config_spec() == (Configuration { update_delays_every_n_lineclears: x, ..old(self).config_spec() }),
            *final(self) == *final(r),
    {
        self.config.update_delays_every_n_lineclears = x;
        self
    }

    /// The limits a round is played to; each ends the game as a win or a loss.
    pub fn game_limits(&mut self, x: GameLimits) -> (r: &mut Self)
        ensures
            r.seed_spec() == old(self).seed_spec(),
            r.tetromino_generator_spec() == old(self).tetromino_generator_spec(),
            r.config_spec() == (Configuration { game_limits: x, ..old(self).config_spec() }),
            *final(self) == *final(r),
    {
        self.config.game_limits = x;
        self
    }

    /// Whether notifications are produced.
    pub fn send_notifications(&mut self, x: bool) -> (r: &mut Self)
        ensures
            r.seed_spec() == old(self).seed_spec(),
            r.tetromino_generator_spec() == old(self).tetromino_generator_spec(),
            r.config_spec() == (Configuration { send_notifications: x, ..old(self).config_spec() }),
            *final(self) == *final(r),
    {
        self.config.send_notifications = x;
        self
    }

    /// Starts a game from this template. Without a seed, a fresh one is drawn
    /// from the operating system's random source; `None` is returned only when
    /// that source fails. Without a tetromino generator, the recency-based one
    /// with exponent 2.5 is used. The game starts spawning at time zero in its
    /// initial state (see [`built_from`]).
    pub fn build(&self) -> (r: Option<Game>)
        ensures
            self.seed_spec() is Some ==> r is Some,
            r matches Some(g) ==> built_from(*self, g),
    {
        match self.seed {
            Some(s) => Some(self.build_seeded(s)),
            None => match fresh_seed() {
                Some(s) => Some(self.build_seeded(s)),
                None => None,
            },
        }
    }

    /// Starts a game from this template with the given seed, which is the
    /// template's own where it has one.
    fn build_seeded(&self, seed: u64) -> (r: Game)
        requires
            self.seed_spec() matches Some(s) ==> s == seed,
        ensures
            built_from(*self, r),
            r.state_init_spec().seed == seed,
    {
        let rng = seeded_rng(seed);
        let tetromino_generator = match self.tetromino_generator {
            Some(g) => g,
            None => StdTetGen::snappy(),
        };
        let every = self.config.update_delays_every_n_lineclears;
        let (fall_delay, fall_limit_hit) = self.config.fall_delay_curve.retrieve_and_check(0, every);
        let lock_delay = match &self.config.lock_delay_curve {
            Some(c) => c.retrieve_and_check(0, every).0,
            None => fall_delay,
        };
        let board: Board = [[None; 10]; 32];
        let state = State {
            time: 0,
            active_buttons: [None; 11],
            rng,
            piece_generator: tetromino_generator,
            piece_preview: VecDeque::new(),
            piece_held: None,
            board,
            fall_delay,
            fall_delay_lowerbound_hit_at_n_lineclears: if fall_limit_hit {
                Some(0)
            } else {
                None
            },
            lock_delay,
            pieces_locked: [0; 7],
            lineclears: 0,
            consecutive_lineclears: 0,
            points: 0,
        };
        assert(state.active_buttons@ =~= Seq::new(11, |i: int| None::<u64>));
        assert(state.pieces_locked@ =~= Seq::new(7, |i: int| 0u32));
        Game::assemble(
            self.config.clone(),
            StateInitialization { seed, tetromino_generator },
            state,
            Phase::Spawning { spawn_time: 0 },
        )
    }
}

impl Clone for GameBuilder {
    fn clone(&self) -> (r: Self)
        ensures
            r.seed_spec() == self.seed_spec(),
            r.tetromino_generator_spec() == self.tetromino_generator_spec(),
            same_config(r.config_spec(), self.config_spec()),
    {
        GameBuilder { seed: self.seed, tetromino_generator: self.tetromino_generator, config: self.config.clone() }
    }
}

impl Default for GameBuilder {
    fn default() -> (r: Self)
        ensures
            r.seed_spec() is None,
            r.tetromino_generator_spec() is None,
            is_default_config(r.config_spec()),
    {
        GameBuilder::new()
    }
}

impl Game {
    /// A template for a new game, with no seed, no tetromino generator and the
    /// default configuration.
    pub fn builder() -> (r: GameBuilder)
        ensures
            r.seed_spec() is None,
            r.tetromino_generator_spec() is None,
            is_default_config(r.config_spec()),
    {
        GameBuilder::new()
    }

    /// The template this game can be rebuilt from: its seed, its initial
    /// tetromino generator and its configuration. The list of modifier
    /// identifiers and settings is empty, as games carry no modifiers.
    pub fn blueprint(&self) -> (r: (GameBuilder, Vec<(String, String)>))
        ensures
            r.0.seed_spec() == Some(self.state_init_spec().seed),
            r.0.tetromino_generator_spec() == Some(self.state_init_spec().tetromino_generator),
            same_config(r.0.config_spec(), self.config_spec()),
            r.1@.len() == 0,
    {
        let init = self.state_init();
        let builder = GameBuilder {
            seed: Some(init.seed),
            tetromino_generator: Some(init.tetromino_generator),
            config: self.config_ref().clone(),
        };
        (builder, Vec::new())
    }
}

} // verus!
