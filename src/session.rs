use vstd::prelude::*;

use crate::attestation::{attest_spec, AttestationInput};
use crate::deck::{
    generate_deck, is_valid_deck, lemma_valid_deck_values, ordered_deck_spec, shuffle_spec,
    DECK_SIZE, PAIR_COUNT,
};
use crate::record::{encode_record, record_spec};
use crate::score::{score_formula, score_spec, TIME_LIMIT};

verus! {

/// Where a session stands in its turn cycle.
#[derive(Clone, Copy, Debug, PartialEq, Eq, Structural)]
pub enum Phase {
    /// Dealt but not started: flips and ticks are ignored.
    NotStarted,
    /// Waiting for flips; the clock runs.
    Active,
    /// Two cards are face up and their check is pending; the clock runs.
    Resolving,
    /// Won or timed out; the counters are frozen.
    Ended,
}

/// What a flip did, so that the caller knows whether to schedule a check.
#[derive(Clone, Copy, Debug, PartialEq, Eq, Structural)]
pub enum FlipOutcome {
    /// The flip was refused and nothing changed.
    Ignored,
    /// One card is face up.
    Revealed,
    /// A second card is face up: a check is due.
    CheckPending,
}

/// What a check did.
#[derive(Clone, Copy, Debug, PartialEq, Eq, Structural)]
pub enum ResolveOutcome {
    /// No check was pending for this generation; nothing changed.
    Ignored,
    /// The two cards matched; play goes on.
    Matched,
    /// The two cards differ and are turned down again.
    Mismatched,
    /// The last pair was matched and the session is won.
    Won,
}

/// What a clock tick did.
#[derive(Clone, Copy, Debug, PartialEq, Eq, Structural)]
pub enum TickOutcome {
    /// The session is not running or the tick is stale; nothing changed.
    Ignored,
    /// A second passed; play goes on.
    Running,
    /// The time limit was reached and the session is lost.
    TimeUp,
}

/// The mathematical state of a session.
pub struct SessionView {
    pub deck: Seq<usize>,
    pub revealed: Seq<usize>,
    pub matched: Seq<usize>,
    pub moves: u32,
    pub elapsed: u32,
    pub phase: Phase,
    pub winner: bool,
    pub display_score: u32,
    pub generation: u64,
}

/// The invariant of every session.
pub open spec fn session_wf(s: SessionView) -> bool {
    &&& is_valid_deck(s.deck)
    &&& s.revealed.len() <= 2
    &&& forall|k: int| 0 <= k < s.revealed.len() ==> #[trigger] s.revealed[k] < DECK_SIZE
    &&& s.revealed.len() == 2 ==> s.revealed[0] != s.revealed[1]
    &&& forall|k: int|
        0 <= k < s.revealed.len() ==> !s.matched.contains(s.deck[#[trigger] s.revealed[k] as int])
    &&& s.matched.no_duplicates()
    &&& forall|k: int| 0 <= k < s.matched.len() ==> #[trigger] s.matched[k] < PAIR_COUNT
    &&& s.matched.len() <= PAIR_COUNT
    &&& (s.phase == Phase::Active || s.phase == Phase::Resolving) ==> s.matched.len()
        < PAIR_COUNT
    &&& (s.phase == Phase::Resolving) == (s.revealed.len() == 2)
    &&& (s.phase == Phase::NotStarted || s.phase == Phase::Ended) ==> s.revealed.len() == 0
    &&& s.elapsed <= TIME_LIMIT
    &&& (s.phase == Phase::Active || s.phase == Phase::Resolving) ==> s.elapsed < TIME_LIMIT
    &&& s.winner ==> s.phase == Phase::Ended
    &&& s.phase == Phase::Ended ==> (s.winner <==> s.matched.len() == PAIR_COUNT)
    &&& s.display_score as int == if s.phase == Phase::Ended {
        score_spec(s.elapsed as int, s.moves as int, s.winner)
    } else {
        0
    }
}

/// The next generation tag, wrapping to zero after the largest.
pub open spec fn next_generation(g: u64) -> u64 {
    if g < u64::MAX {
        (g + 1) as u64
    } else {
        0
    }
}

/// A session with fresh counters over `deck`.
pub open spec fn fresh_spec(deck: Seq<usize>, phase: Phase, generation: u64) -> SessionView {
    SessionView {
        deck,
        revealed: Seq::empty(),
        matched: Seq::empty(),
        moves: 0,
        elapsed: 0,
        phase,
        winner: false,
        display_score: 0,
        generation,
    }
}

/// Whether `flip(index)` is accepted in `s`.
pub open spec fn flip_accepted(s: SessionView, index: usize) -> bool {
    &&& s.phase == Phase::Active
    &&& index < s.deck.len()
    &&& !s.revealed.contains(index)
    &&& !s.matched.contains(s.deck[index as int])
}

/// The move count after one more check; it stays at its largest value.
pub open spec fn count_move(moves: u32) -> u32 {
    if moves < u32::MAX {
        (moves + 1) as u32
    } else {
        moves
    }
}

/// The state after `flip(index)`.
pub open spec fn flip_spec(s: SessionView, index: usize) -> SessionView {
    if flip_accepted(s, index) {
        let revealed = s.revealed.push(index);
        if revealed.len() == 2 {
            SessionView { revealed, moves: count_move(s.moves), phase: Phase::Resolving, ..s }
        } else {
            SessionView { revealed, ..s }
        }
    } else {
        s
    }
}

/// The state after the session ends, won or not: the turn in progress is
/// dropped and the display score is computed.
pub open spec fn end_spec(s: SessionView, winner: bool) -> SessionView {
    SessionView {
        revealed: Seq::empty(),
        phase: Phase::Ended,
        winner,
        display_score: score_spec(s.elapsed as int, s.moves as int, winner) as u32,
        ..s
    }
}

/// Whether a check tagged `generation` is due in `s`.
pub open spec fn resolve_accepted(s: SessionView, generation: u64) -> bool {
    s.phase == Phase::Resolving && generation == s.generation
}

/// Whether the two face-up cards of a pending check hold the same value.
pub open spec fn revealed_match(s: SessionView) -> bool {
    s.deck[s.revealed[0] as int] == s.deck[s.revealed[1] as int]
}

/// The state after the check tagged `generation`.
pub open spec fn resolve_spec(s: SessionView, generation: u64) -> SessionView {
    if resolve_accepted(s, generation) {
        if revealed_match(s) {
            let matched = s.matched.push(s.deck[s.revealed[0] as int]);
            if matched.len() == PAIR_COUNT {
                end_spec(SessionView { matched, ..s }, true)
            } else {
                SessionView { matched, revealed: Seq::empty(), phase: Phase::Active, ..s }
            }
        } else {
            SessionView { revealed: Seq::empty(), phase: Phase::Active, ..s }
        }
    } else {
        s
    }
}

/// Whether a tick tagged `generation` counts in `s`.
pub open spec fn tick_accepted(s: SessionView, generation: u64) -> bool {
    (s.phase == Phase::Active || s.phase == Phase::Resolving) && generation == s.generation
}

/// The state after the clock tick tagged `generation`.
pub open spec fn tick_spec(s: SessionView, generation: u64) -> SessionView {
    if tick_accepted(s, generation) {
        let elapsed = (s.elapsed + 1) as u32;
        if elapsed >= TIME_LIMIT {
            end_spec(SessionView { elapsed, ..s }, false)
        } else {
            SessionView { elapsed, ..s }
        }
    } else {
        s
    }
}

/// The state after `start` with a deck shuffled by `draws`.
pub open spec fn start_spec(s: SessionView, draws: Seq<usize>) -> SessionView {
    if s.phase == Phase::NotStarted || s.phase == Phase::Ended {
        fresh_spec(
            shuffle_spec(ordered_deck_spec(), draws),
            Phase::Active,
            next_generation(s.generation),
        )
    } else {
        s
    }
}

/// The counters of `s` as the attester receives them.
pub open spec fn attestation_input_spec(s: SessionView) -> AttestationInput {
    AttestationInput {
        moves: s.moves,
        elapsed_seconds: s.elapsed,
        matched_pairs: s.matched.len() as u32,
    }
}

/// One memory-game session: the deck, the turn in progress and the counters.
///
/// Events are processed one at a time, each to completion. A check and a
/// clock tick that fall due together take effect in the order they are
/// delivered: a last pair matched before the final tick wins, and once the
/// session has ended the other event is ignored. Checks and ticks carry the
/// generation they were scheduled in; `start` and `reset` begin a new
/// generation, so events left over from an earlier session change nothing.
pub struct GameSession {
    deck: Vec<usize>,
    revealed: Vec<usize>,
    matched: Vec<usize>,
    moves: u32,
    elapsed: u32,
    phase: Phase,
    winner: bool,
    display_score: u32,
    generation: u64,
}

impl View for GameSession {
    type V = SessionView;

    closed spec fn view(&self) -> SessionView {
        SessionView {
            deck: self.deck@,
            revealed: self.revealed@,
            matched: self.matched@,
            moves: self.moves,
            elapsed: self.elapsed,
            phase: self.phase,
            winner: self.winner,
            display_score: self.display_score,
            generation: self.generation,
        }
    }
}

fn contains(v: &Vec<usize>, x: usize) -> (r: bool)
    ensures
        r == v@.contains(x),
{
    let mut k: usize = 0;
    while k < v.len()
        invariant
            k <= v@.len(),
            forall|m: int| 0 <= m < k ==> v@[m] != x,
        decreases v@.len() - k,
    {
        if v[k] == x {
            return true;
        }
        k = k + 1;
    }
    false
}

fn advance_generation(g: u64) -> (r: u64)
    ensures
        r == next_generation(g),
{
    if g < u64::MAX {
        g + 1
    } else {
        0
    }
}

impl GameSession {
    /// A session that is dealt, with a deck shuffled by `draws`, and not yet
    /// started.
    pub fn new(draws: &Vec<usize>) -> (r: GameSession)
        ensures
            r@ == fresh_spec(shuffle_spec(ordered_deck_spec(), draws@), Phase::NotStarted, 0),
            session_wf(r@),
    {
        let deck = generate_deck(draws);
        GameSession {
            deck,
            revealed: Vec::new(),
            matched: Vec::new(),
            moves: 0,
            elapsed: 0,
            phase: Phase::NotStarted,
            winner: false,
            display_score: 0,
            generation: 0,
        }
    }

    fn end(&mut self, winner: bool)
        requires
            old(self)@.elapsed <= TIME_LIMIT,
        ensures
            final(self)@ == end_spec(old(self)@, winner),
    {
        self.revealed = Vec::new();
        self.phase = Phase::Ended;
        self.winner = winner;
        self.display_score = score_formula(self.elapsed, self.moves, winner);
    }

    /// Starts play on a newly shuffled deck, from a session that is dealt or
    /// has ended; in any other phase nothing changes.
    pub fn start(&mut self, draws: &Vec<usize>)
        requires
            session_wf(old(self)@),
        ensures
            final(self)@ == start_spec(old(self)@, draws@),
            session_wf(final(self)@),
    {
        if self.phase == Phase::NotStarted || self.phase == Phase::Ended {
            let generation = advance_generation(self.generation);
            *self = GameSession::new(draws);
            self.phase = Phase::Active;
            self.generation = generation;
        }
    }

    /// Replaces the session with a newly dealt one that is not yet started,
    /// in a new generation.
    pub fn reset(&mut self, draws: &Vec<usize>)
        ensures
            final(self)@ == fresh_spec(
                shuffle_spec(ordered_deck_spec(), draws@),
                Phase::NotStarted,
                next_generation(old(self)@.generation),
            ),
            session_wf(final(self)@),
    {
        let generation = advance_generation(self.generation);
        *self = GameSession::new(draws);
        self.generation = generation;
    }

    /// Turns card `index` face up. Ignored unless the session is active, the
    /// index is on the board, the card is not already face up and its value
    /// is not matched yet. The second card of a turn counts one move and
    /// makes a check pending.
    pub fn flip(&mut self, index: usize) -> (r: FlipOutcome)
        requires
            session_wf(old(self)@),
        ensures
            final(self)@ == flip_spec(old(self)@, index),
            session_wf(final(self)@),
            r == if !flip_accepted(old(self)@, index) {
                FlipOutcome::Ignored
            } else if final(self)@.phase == Phase::Resolving {
                FlipOutcome::CheckPending
            } else {
                FlipOutcome::Revealed
            },
    {
        if self.phase != Phase::Active || index >= self.deck.len() {
            return FlipOutcome::Ignored;
        }
        if contains(&self.revealed, index) || contains(&self.matched, self.deck[index]) {
            return FlipOutcome::Ignored;
        }
        self.revealed.push(index);
        if self.revealed.len() == 2 {
            if self.moves < u32::MAX {
                self.moves = self.moves + 1;
            }
            self.phase = Phase::Resolving;
            FlipOutcome::CheckPending
        } else {
            FlipOutcome::Revealed
        }
    }

    /// Settles the pending check tagged `generation`: a matching pair is
    /// recorded and, if it was the last one, the session is won; otherwise
    /// both cards are turned down. Ignored when no check is pending or the tag
    /// is stale.
    pub fn resolve(&mut self, generation: u64) -> (r: ResolveOutcome)
        requires
            session_wf(old(self)@),
        ensures
            final(self)@ == resolve_spec(old(self)@, generation),
            session_wf(final(self)@),
            r == if !resolve_accepted(old(self)@, generation) {
                ResolveOutcome::Ignored
            } else if !revealed_match(old(self)@) {
                ResolveOutcome::Mismatched
            } else if final(self)@.phase == Phase::Ended {
                ResolveOutcome::Won
            } else {
                ResolveOutcome::Matched
            },
    {
        if self.phase != Phase::Resolving || generation != self.generation {
            return ResolveOutcome::Ignored;
        }
        let first = self.deck[self.revealed[0]];
        let second = self.deck[self.revealed[1]];
        if first == second {
            proof {
                lemma_valid_deck_values(self.deck@);
            }
            self.matched.push(first);
            if self.matched.len() == PAIR_COUNT {
                self.end(true);
                ResolveOutcome::Won
            } else {
                self.revealed = Vec::new();
                self.phase = Phase::Active;
                ResolveOutcome::Matched
            }
        } else {
            self.revealed = Vec::new();
            self.phase = Phase::Active;
            ResolveOutcome::Mismatched
        }
    }

    /// Counts one second of the clock tick tagged `generation`. At the time
    /// limit the session ends as lost, dropping any turn in progress. Ignored
    /// unless the session is running and the tag is current.
    pub fn tick(&mut self, generation: u64) -> (r: TickOutcome)
        requires
            session_wf(old(self)@),
        ensures
            final(self)@ == tick_spec(old(self)@, generation),
            session_wf(final(self)@),
            r == if !tick_accepted(old(self)@, generation) {
                TickOutcome::Ignored
            } else if final(self)@.phase == Phase::Ended {
                TickOutcome::TimeUp
            } else {
                TickOutcome::Running
            },
    {
        if !(self.phase == Phase::Active || self.phase == Phase::Resolving) || generation
            != self.generation {
            return TickOutcome::Ignored;
        }
        self.elapsed = self.elapsed + 1;
        if self.elapsed >= TIME_LIMIT {
            self.end(false);
            TickOutcome::TimeUp
        } else {
            TickOutcome::Running
        }
    }

    /// The counters to hand to the attester, once the session has ended.
    pub fn attestation_input(&self) -> (r: Option<AttestationInput>)
        requires
            session_wf(self@),
        ensures
            r == if self@.phase == Phase::Ended {
                Some(attestation_input_spec(self@))
            } else {
                None
            },
    {
        if self.phase == Phase::Ended {
            Some(
                AttestationInput {
                    moves: self.moves,
                    elapsed_seconds: self.elapsed,
                    matched_pairs: self.matched.len() as u32,
                },
            )
        } else {
            None
        }
    }

    /// The session as a byte record: move count, elapsed seconds and display
    /// score, four little-endian bytes each, then whether it ended, then the
    /// matched values.
    pub fn record(&self) -> (r: Vec<u8>)
        ensures
            r@ == record_spec(
                self@.moves,
                self@.elapsed,
                self@.display_score,
                self@.phase == Phase::Ended,
                self@.matched,
            ),
    {
        encode_record(
            self.moves,
            self.elapsed,
            self.display_score,
            self.phase == Phase::Ended,
            &self.matched,
        )
    }

    /// The cards in board order.
    pub fn deck(&self) -> (r: &Vec<usize>)
        ensures
            r@ == self@.deck,
    {
        &self.deck
    }

    /// The indices of the face-up cards of the turn in progress.
    pub fn revealed(&self) -> (r: &Vec<usize>)
        ensures
            r@ == self@.revealed,
    {
        &self.revealed
    }

    /// The matched values, in the order they were found.
    pub fn matched_values(&self) -> (r: &Vec<usize>)
        ensures
            r@ == self@.matched,
    {
        &self.matched
    }

    /// The number of completed checks.
    pub fn move_count(&self) -> (r: u32)
        ensures
            r == self@.moves,
    {
        self.moves
    }

    /// The seconds counted so far.
    pub fn elapsed_seconds(&self) -> (r: u32)
        ensures
            r == self@.elapsed,
    {
        self.elapsed
    }

    /// The current phase.
    pub fn phase(&self) -> (r: Phase)
        ensures
            r == self@.phase,
    {
        self.phase
    }

    /// Whether the session ended with every pair matched.
    pub fn is_winner(&self) -> (r: bool)
        ensures
            r == self@.winner,
    {
        self.winner
    }

    /// The score shown to the player; zero until the session ends.
    pub fn display_score(&self) -> (r: u32)
        ensures
            r == self@.display_score,
    {
        self.display_score
    }

    /// The tag that the checks and ticks of this session carry.
    pub fn generation(&self) -> (r: u64)
        ensures
            r == self@.generation,
    {
        self.generation
    }
}

/// A completed check counts exactly one move, whether or not the cards
/// match; a first flip, a check and a tick count none.
pub proof fn lemma_move_accounting(s: SessionView, index: usize, generation: u64)
    requires
        session_wf(s),
        s.moves < u32::MAX,
    ensures
        flip_spec(s, index).moves == if flip_accepted(s, index) && s.revealed.len() == 1 {
            s.moves + 1
        } else {
            s.moves as int
        },
        flip_accepted(s, index) && s.revealed.len() == 1 ==> flip_spec(s, index).phase
            == Phase::Resolving,
        resolve_spec(s, generation).moves == s.moves,
        tick_spec(s, generation).moves == s.moves,
{
}

/// A flip while a check is pending changes nothing: not the face-up cards,
/// not the move count, not the matched values.
pub proof fn lemma_flip_while_resolving(s: SessionView, index: usize)
    requires
        s.phase == Phase::Resolving,
    ensures
        flip_spec(s, index) == s,
        flip_spec(s, index).revealed == s.revealed,
        flip_spec(s, index).moves == s.moves,
        flip_spec(s, index).matched == s.matched,
{
}

/// The score a finished session shows is the score the attester recomputes
/// from its counters, and the attester finds it complete exactly when it was
/// won.
pub proof fn lemma_display_matches_attestation(s: SessionView)
    requires
        session_wf(s),
        s.phase == Phase::Ended,
    ensures
        attest_spec(attestation_input_spec(s)).final_score == s.display_score,
        attest_spec(attestation_input_spec(s)).is_complete == s.winner,
{
}

/// Play never changes the deck, never forgets a matched value and never
/// turns the clock back; once a session has ended, flips, checks and ticks
/// leave it as it is.
pub proof fn lemma_play_is_monotone(s: SessionView, index: usize, generation: u64)
    requires
        session_wf(s),
    ensures
        flip_spec(s, index).deck == s.deck,
        resolve_spec(s, generation).deck == s.deck,
        tick_spec(s, generation).deck == s.deck,
        flip_spec(s, index).matched == s.matched,
        s.matched.is_prefix_of(resolve_spec(s, generation).matched),
        tick_spec(s, generation).matched == s.matched,
        s.elapsed <= tick_spec(s, generation).elapsed,
        flip_spec(s, index).elapsed == s.elapsed,
        resolve_spec(s, generation).elapsed == s.elapsed,
        s.phase == Phase::Ended ==> flip_spec(s, index) == s && resolve_spec(s, generation) == s
            && tick_spec(s, generation) == s,
        session_wf(flip_spec(s, index)),
        session_wf(resolve_spec(s, generation)),
        session_wf(tick_spec(s, generation)),
{
    if resolve_accepted(s, generation) && revealed_match(s) {
        lemma_valid_deck_values(s.deck);
    }
}

} // verus!
