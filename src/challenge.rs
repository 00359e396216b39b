use std::cmp::Ordering;
use vstd::prelude::*;

use crate::combination::{
    classify, faces_in_range, Combination, CombinationView, DiceError, DiceResult, FACES,
    MIN_NB_DICES,
};

verus! {

/// How a roll is held against the target of a challenge.
#[derive(Clone, Copy, Debug, PartialEq, Eq)]
pub enum CompareMode {
    /// The roll ranks at least as high as the target.
    AtLeast,
    /// The roll ranks above the target.
    StrictlyGreater,
    /// The roll ranks equal to the target.
    Exact,
}

impl CompareMode {
    /// Whether a roll that stands in the order `o` to the target wins.
    pub open spec fn accepts(self, o: Ordering) -> bool {
        match self {
            CompareMode::AtLeast => o != Ordering::Less,
            CompareMode::StrictlyGreater => o == Ordering::Greater,
            CompareMode::Exact => o == Ordering::Equal,
        }
    }

    /// The mode numbered `i`, in the order of declaration; any number from
    /// two up gives `Exact`.
    pub open spec fn numbered(i: u8) -> CompareMode {
        if i == 0 {
            CompareMode::AtLeast
        } else if i == 1 {
            CompareMode::StrictlyGreater
        } else {
            CompareMode::Exact
        }
    }

    /// The mode numbered `i`, in the order of declaration; any number from
    /// two up gives `Exact`.
    pub fn from_index(i: u8) -> (r: CompareMode)
        ensures
            r == CompareMode::numbered(i),
    {
        if i == 0 {
            CompareMode::AtLeast
        } else if i == 1 {
            CompareMode::StrictlyGreater
        } else {
            CompareMode::Exact
        }
    }

    /// Whether `candidate` wins against `target` under this mode.
    pub fn judge(self, candidate: &Combination, target: &Combination) -> (r: bool)
        ensures
            r == self.accepts(candidate@.compare(target@)),
    {
        let o = candidate.compare(target);
        match self {
            CompareMode::AtLeast => !matches!(o, Ordering::Less),
            CompareMode::StrictlyGreater => matches!(o, Ordering::Greater),
            CompareMode::Exact => matches!(o, Ordering::Equal),
        }
    }
}

/// How challenge targets are drawn.
#[derive(Clone, Debug, PartialEq, Eq)]
pub struct ChallengeRules {
    /// Dice in each roll.
    pub dice_count: usize,
    /// Draws allowed before giving up.
    pub max_attempts: u32,
    /// Kinds, by [`Combination::kind_index`], that are too easy to be a
    /// target, besides `Any`, which never is one.
    pub excluded: Vec<u8>,
    /// Whether the mode is drawn at random; otherwise it is `AtLeast`.
    pub random_mode: bool,
}

/// A target combination that a later roll must beat.
#[derive(Clone, Debug, PartialEq, Eq)]
pub struct Challenge {
    /// The combination to beat.
    pub target: Combination,
    /// How many draws it took to find the target.
    pub attempts: u32,
    /// How a roll is held against the target.
    pub mode: CompareMode,
}

/// Whether the rules accept `c` as a target.
pub open spec fn eligible(rules: ChallengeRules, c: CombinationView) -> bool {
    c.kind_index() != 0 && !rules.excluded@.contains(c.kind_index())
}

/// Relies on rand's `Rng::gen_range` over `thread_rng()`: a value drawn
/// between `low` and `high`, both included (it panics on an empty range).
#[verifier::external_body]
fn draw_between(low: u8, high: u8) -> (r: u8)
    requires
        low <= high,
    ensures
        low <= r <= high,
{
    rand::Rng::gen_range(&mut rand::thread_rng(), low..=high)
}

/// A roll of `count` dice, each face drawn at random.
pub fn roll_dice(count: usize) -> (r: Vec<DiceResult>)
    ensures
        r@.len() == count,
        faces_in_range(r@),
{
    let mut v: Vec<DiceResult> = Vec::new();
    let mut i: usize = 0;
    while i < count
        invariant
            i <= count,
            v@.len() == i,
            faces_in_range(v@),
        decreases count - i,
    {
        let f = draw_between(1, FACES);
        v.push(f);
        i = i + 1;
    }
    v
}

/// Whether `rules` exclude the kind `k`.
fn is_excluded(rules: &ChallengeRules, k: u8) -> (r: bool)
    ensures
        r == rules.excluded@.contains(k),
{
    let mut i: usize = 0;
    while i < rules.excluded.len()
        invariant
            i <= rules.excluded@.len(),
            forall|j: int| 0 <= j < i ==> rules.excluded@[j] != k,
        decreases rules.excluded.len() - i,
    {
        if rules.excluded[i] == k {
            return true;
        }
        i = i + 1;
    }
    false
}

impl Challenge {
    /// The target that `roll` offers: its combination, where the rules
    /// accept it.
    pub fn target_of_roll(rules: &ChallengeRules, roll: Vec<DiceResult>) -> (r: Result<
        Option<Combination>,
        DiceError,
    >)
        requires
            faces_in_range(roll@),
        ensures
            roll@.len() < MIN_NB_DICES ==> r == Err::<Option<Combination>, DiceError>(
                DiceError::InvalidRollLength,
            ),
            roll@.len() >= MIN_NB_DICES ==> r is Ok,
            r matches Ok(Some(c)) ==> c@ == classify(roll@) && c@.wf(),
            r matches Ok(o) ==> (o is Some <==> eligible(*rules, classify(roll@))),
    {
        let c = Combination::get(roll)?;
        let k = c.kind_index();
        if k == 0 || is_excluded(rules, k) {
            Ok(None)
        } else {
            Ok(Some(c))
        }
    }

    /// What the draw numbered `attempts` decides: its combination where the
    /// rules accept it; otherwise another draw while attempts are left, or
    /// the failure of the search after the last one.
    pub fn after_draw(rules: &ChallengeRules, attempts: u32, roll: Vec<DiceResult>) -> (r: Result<
        Option<Combination>,
        DiceError,
    >)
        requires
            faces_in_range(roll@),
            roll@.len() >= MIN_NB_DICES,
            1 <= attempts <= rules.max_attempts,
        ensures
            (r matches Ok(Some(c)) && c@ == classify(roll@)) <==> eligible(*rules, classify(roll@)),
            r == Ok::<Option<Combination>, DiceError>(None) <==> !eligible(*rules, classify(roll@))
                && attempts < rules.max_attempts,
            r == Err::<Option<Combination>, DiceError>(DiceError::DegenerateChallengeGeneration)
                <==> !eligible(*rules, classify(roll@)) && attempts == rules.max_attempts,
            r matches Ok(Some(c)) ==> c@.wf(),
    {
        match Challenge::target_of_roll(rules, roll) {
            Ok(Some(c)) => Ok(Some(c)),
            _ => if attempts < rules.max_attempts {
                Ok(None)
            } else {
                Err(DiceError::DegenerateChallengeGeneration)
            },
        }
    }

    /// Draws rolls until one gives a target that the rules accept, at most
    /// `rules.max_attempts` times, and picks the mode.
    pub fn generate(rules: &ChallengeRules) -> (r: Result<Challenge, DiceError>)
        ensures
            rules.dice_count < MIN_NB_DICES ==> r == Err::<Challenge, DiceError>(
                DiceError::InvalidRollLength,
            ),
            rules.dice_count >= MIN_NB_DICES && rules.max_attempts == 0 ==> r == Err::<
                Challenge,
                DiceError,
            >(DiceError::DegenerateChallengeGeneration),
            r matches Err(e) ==> (e == DiceError::InvalidRollLength <==> rules.dice_count
                < MIN_NB_DICES),
            r matches Ok(ch) ==> {
                &&& 1 <= ch.attempts <= rules.max_attempts
                &&& ch.target@.wf()
                &&& eligible(*rules, ch.target@)
                &&& exists|roll: Seq<DiceResult>|
                    #![trigger classify(roll)]
                    roll.len() == rules.dice_count && faces_in_range(roll) && ch.target@
                        == classify(roll)
                &&& !rules.random_mode ==> ch.mode == CompareMode::AtLeast
            },
    {
        if rules.dice_count < MIN_NB_DICES {
            return Err(DiceError::InvalidRollLength);
        }
        if rules.max_attempts == 0 {
            return Err(DiceError::DegenerateChallengeGeneration);
        }
        let mut attempts: u32 = 1;
        loop
            invariant
                rules.dice_count >= MIN_NB_DICES,
                1 <= attempts <= rules.max_attempts,
            decreases rules.max_attempts - attempts,
        {
            let roll = roll_dice(rules.dice_count);
            let ghost faces = roll@;
            match Challenge::after_draw(rules, attempts, roll) {
                Ok(Some(target)) => {
                    let mode = if rules.random_mode {
                        CompareMode::from_index(draw_between(0, 2))
                    } else {
                        CompareMode::AtLeast
                    };
                    assert(faces.len() == rules.dice_count && faces_in_range(faces) && target@
                        == classify(faces));
                    return Ok(Challenge { target, attempts, mode });
                },
                Ok(None) => {
                    attempts = attempts + 1;
                },
                Err(e) => {
                    return Err(e);
                },
            }
        }
    }

    /// Whether `candidate` wins against the target under the mode.
    pub fn is_won(&self, candidate: &Combination) -> (r: bool)
        ensures
            r == self.mode.accepts(candidate@.compare(self.target@)),
    {
        self.mode.judge(candidate, &self.target)
    }
}

} // verus!
