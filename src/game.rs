use vstd::prelude::*;

use crate::challenge::{eligible, Challenge, ChallengeRules, CompareMode};
use crate::combination::{
    classify, faces_in_range, Combination, CombinationView, DiceError, DiceResult,
};

verus! {

/// Dice thrown by each side.
pub const NB_DICES: usize = 3;

/// Throws that a player may take back in a turn.
pub const DEFAULT_RETRIES: u8 = 3;

/// Throws that the player may still take back.
#[derive(Clone, Copy, Debug, PartialEq, Eq)]
pub struct RetriesLeft(pub u8);

impl Default for RetriesLeft {
    fn default() -> (r: RetriesLeft)
        ensures
            r.0 == DEFAULT_RETRIES,
    {
        RetriesLeft(DEFAULT_RETRIES)
    }
}

impl RetriesLeft {
    /// Takes one retry, if any is left, and says whether it did.
    pub fn spend(&mut self) -> (r: bool)
        ensures
            r == (old(self).0 > 0),
            final(self).0 == if r {
                (old(self).0 - 1) as u8
            } else {
                old(self).0
            },
    {
        if self.0 > 0 {
            self.0 = self.0 - 1;
            true
        } else {
            false
        }
    }
}

/// Where the player's turn stands after a throw.
#[derive(Clone, Copy, Debug, PartialEq, Eq)]
pub enum ThrowStep {
    /// The throw wins the challenge.
    Won,
    /// The throw loses and no retry is left.
    Lost,
    /// The throw loses, but the player may throw again.
    MayRetry,
}

/// Where the player's turn stands after a throw that `won` or not, with
/// `retries` left.
pub fn after_throw(won: bool, retries: RetriesLeft) -> (r: ThrowStep)
    ensures
        r == if won {
            ThrowStep::Won
        } else if retries.0 == 0 {
            ThrowStep::Lost
        } else {
            ThrowStep::MayRetry
        },
{
    if won {
        ThrowStep::Won
    } else if retries.0 == 0 {
        ThrowStep::Lost
    } else {
        ThrowStep::MayRetry
    }
}

/// Whether the player may end the turn now.
#[derive(Clone, Copy, Debug, PartialEq, Eq)]
pub struct CanSkipTurn(pub bool);

impl Default for CanSkipTurn {
    fn default() -> (r: CanSkipTurn)
        ensures
            !r.0,
    {
        CanSkipTurn(false)
    }
}

/// The phase of a round.
#[derive(Clone, Copy, Debug, PartialEq, Eq, Hash)]
pub enum GameState {
    Setup,
    NPCRolling,
    PlayerRolling,
}

impl Default for GameState {
    fn default() -> (r: GameState)
        ensures
            r == GameState::Setup,
    {
        GameState::Setup
    }
}

/// The phase that follows the setup.
pub fn setup_game_state() -> (r: GameState)
    ensures
        r == GameState::NPCRolling,
{
    GameState::NPCRolling
}

/// The last combination thrown, and whether it won.
#[derive(Clone, Debug, PartialEq, Eq)]
pub struct LastCombination {
    pub combination: Combination,
    pub win: bool,
}

/// What to show of a round: the combination to beat and, once the player
/// has thrown, the player's combination and whether it wins.
#[derive(Clone, Debug, PartialEq, Eq)]
pub struct DisplayScore {
    pub npc: Combination,
    pub player: Option<(Combination, bool)>,
}

/// The message shown for a round, from the texts of the combinations.
pub open spec fn score_message(npc: Seq<char>, player: Option<(Seq<char>, bool)>) -> Seq<char> {
    match player {
        Some((p, wins)) => "To beat: ".view() + npc + ".\nYou scored: ".view() + p + "\n".view()
            + if wins {
            "You win!".view()
        } else {
            "You lose!".view()
        },
        None => "To beat: ".view() + npc,
    }
}

impl DisplayScore {
    /// The combination to beat, before the player has thrown.
    pub fn npc(npc: Combination) -> (r: DisplayScore)
        ensures
            r.npc == npc,
            r.player is None,
    {
        DisplayScore { npc, player: None }
    }

    /// The combination to beat, the player's and whether it wins.
    pub fn player(npc: Combination, player: Combination, wins: bool) -> (r: DisplayScore)
        ensures
            r.npc == npc,
            r.player == Some((player, wins)),
    {
        DisplayScore { npc, player: Some((player, wins)) }
    }

    /// The message to show.
    pub fn message(&self) -> (r: String)
        requires
            self.npc@.wf(),
            self.player matches Some((p, _)) ==> p@.wf(),
        ensures
            r@ == score_message(
                self.npc@.text(),
                match self.player {
                    Some((p, w)) => Some((p@.text(), w)),
                    None => None,
                },
            ),
    {
        let mut s = String::new();
        s.append("To beat: ");
        let npc = self.npc.display();
        s.append(npc.as_str());
        match &self.player {
            Some((p, wins)) => {
                s.append(".\nYou scored: ");
                let pt = p.display();
                s.append(pt.as_str());
                s.append("\n");
                if *wins {
                    s.append("You win!");
                } else {
                    s.append("You lose!");
                }
            },
            None => {},
        }
        s
    }
}

/// What the round does after the dice at rest have been read.
#[derive(Clone, Debug, PartialEq, Eq)]
pub struct TurnStep {
    /// Whether the player may end the turn.
    pub can_skip_turn: bool,
    /// The scores to show, if any.
    pub display: Option<DisplayScore>,
    /// The next phase, if the phase changes.
    pub next_state: Option<GameState>,
    /// Whether the computer throws again, its roll not being a target
    /// that the rules accept.
    pub rethrow_npc: bool,
    /// Why the round cannot go on, if it cannot.
    pub failure: Option<DiceError>,
}

/// Whether both sides hold a full roll at rest.
pub open spec fn full_roll(s: Seq<DiceResult>) -> bool {
    s.len() == NB_DICES
}

/// Whether `attempts` numbers a draw that the rules allow.
pub open spec fn draw_allowed(rules: ChallengeRules, attempts: u32) -> bool {
    1 <= attempts <= rules.max_attempts
}

/// Whether `d` shows `npc` as the combination to beat, before the player
/// has thrown.
pub open spec fn announces(d: Option<DisplayScore>, npc: CombinationView) -> bool {
    match d {
        Some(d) => d.npc@ == npc && d.player is None,
        None => false,
    }
}

/// Whether `d` shows `npc` as the combination to beat, `player` as the
/// player's, and that the player wins exactly when `mode` accepts how
/// `player` ranks against `npc`.
pub open spec fn settles(
    d: Option<DisplayScore>,
    mode: CompareMode,
    npc: CombinationView,
    player: CombinationView,
) -> bool {
    match d {
        Some(d) => d.npc@ == npc && match d.player {
            Some((p, wins)) => p@ == player && wins == mode.accepts(player.compare(npc)),
            None => false,
        },
        None => false,
    }
}

/// Decides the step of a round from the faces of the dice at rest on the
/// table. Once the computer's roll, its draw number `attempts`, is
/// complete, it becomes the roll to beat if the rules accept it as a
/// target; otherwise the computer throws again, and after the last draw
/// allowed the round fails. Once the player is out of throws and both
/// rolls are complete, the player wins when `mode` accepts how the player's
/// combination ranks against the computer's.
pub fn analyze_dices(
    state: GameState,
    rules: &ChallengeRules,
    attempts: u32,
    mode: CompareMode,
    throws_left: u8,
    results_npc: Vec<DiceResult>,
    results_player: Vec<DiceResult>,
) -> (r: TurnStep)
    requires
        faces_in_range(results_npc@),
        faces_in_range(results_player@),
    ensures
        r.can_skip_turn == full_roll(results_player@),
        state == GameState::NPCRolling && full_roll(results_npc@) && draw_allowed(*rules, attempts)
            && eligible(*rules, classify(results_npc@)) ==> r.next_state == Some(
            GameState::PlayerRolling,
        ) && announces(r.display, classify(results_npc@)) && !r.rethrow_npc && r.failure is None,
        state == GameState::NPCRolling && full_roll(results_npc@) && 1 <= attempts
            < rules.max_attempts && !eligible(*rules, classify(results_npc@)) ==> r.next_state
            is None && r.display is None && r.rethrow_npc && r.failure is None,
        state == GameState::NPCRolling && full_roll(results_npc@) && !(1 <= attempts
            < rules.max_attempts) && !(draw_allowed(*rules, attempts) && eligible(
            *rules,
            classify(results_npc@),
        )) ==> r.next_state is None && r.display is None && !r.rethrow_npc && r.failure == Some(
            DiceError::DegenerateChallengeGeneration,
        ),
        state == GameState::NPCRolling && r.display is Some ==> eligible(
            *rules,
            classify(results_npc@),
        ),
        state == GameState::PlayerRolling && throws_left == 0 && full_roll(results_npc@)
            && full_roll(results_player@) ==> r.next_state == Some(GameState::NPCRolling)
            && settles(r.display, mode, classify(results_npc@), classify(results_player@))
            && !r.rethrow_npc && r.failure is None,
        !(state == GameState::NPCRolling && full_roll(results_npc@)) && !(state
            == GameState::PlayerRolling && throws_left == 0 && full_roll(results_npc@)
            && full_roll(results_player@)) ==> r.next_state is None && r.display is None
            && !r.rethrow_npc && r.failure is None,
        r.display matches Some(d) ==> d.npc@.wf() && (d.player matches Some((p, _)) ==> p@.wf()),
{
    let can_skip_turn = results_player.len() == NB_DICES;
    let idle = TurnStep {
        can_skip_turn,
        display: None,
        next_state: None,
        rethrow_npc: false,
        failure: None,
    };
    match state {
        GameState::NPCRolling => {
            if results_npc.len() != NB_DICES {
                return idle;
            }
            if attempts < 1 || attempts > rules.max_attempts {
                return TurnStep {
                    can_skip_turn,
                    display: None,
                    next_state: None,
                    rethrow_npc: false,
                    failure: Some(DiceError::DegenerateChallengeGeneration),
                };
            }
            match Challenge::after_draw(rules, attempts, results_npc) {
                Ok(Some(npc)) => TurnStep {
                    can_skip_turn,
                    display: Some(DisplayScore::npc(npc)),
                    next_state: Some(GameState::PlayerRolling),
                    rethrow_npc: false,
                    failure: None,
                },
                Ok(None) => TurnStep {
                    can_skip_turn,
                    display: None,
                    next_state: None,
                    rethrow_npc: true,
                    failure: None,
                },
                Err(e) => TurnStep {
                    can_skip_turn,
                    display: None,
                    next_state: None,
                    rethrow_npc: false,
                    failure: Some(e),
                },
            }
        },
        GameState::PlayerRolling => {
            if throws_left == 0 && results_npc.len() == NB_DICES && results_player.len()
                == NB_DICES {
                if let (Ok(player), Ok(npc)) = (
                    Combination::get(results_player),
                    Combination::get(results_npc),
                ) {
                    let wins = mode.judge(&player, &npc);
                    return TurnStep {
                        can_skip_turn,
                        display: Some(DisplayScore::player(npc, player, wins)),
                        next_state: Some(GameState::NPCRolling),
                        rethrow_npc: false,
                        failure: None,
                    };
                }
            }
            idle
        },
        GameState::Setup => idle,
    }
}

} // verus!
