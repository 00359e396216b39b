use std::cmp::Ordering;
use vstd::prelude::*;

use crate::faces::{
    all_above, all_below, all_equal_to, best_run_end, count_faces, count_of, dedup, dedup_faces,
    has_face, is_sorted, lemma_best_run_end_bound, lemma_run_len_bound, longest_run, run_len_at,
    sort_faces, sorted_faces,
};

verus! {

/// The value shown by a die that has come to rest.
pub type DiceResult = u8;

/// Fewest dice that a roll may hold.
pub const MIN_NB_DICES: usize = 2;

/// Faces of each die.
pub const FACES: u8 = 6;

/// Half the faces: a high roll lies above it on every die, a low roll below it.
pub const HALF_FACES: u8 = FACES / 2;

/// Why a roll or a challenge could not be made.
#[derive(Clone, Copy, Debug, PartialEq, Eq)]
pub enum DiceError {
    /// A roll with fewer than [`MIN_NB_DICES`] dice.
    InvalidRollLength,
    /// Every draw allowed for a challenge target was rejected.
    DegenerateChallengeGeneration,
}

/// A classified roll.
#[derive(Clone, Debug, PartialEq, Eq)]
pub enum Combination {
    /// No pattern: the sorted faces.
    Any(Vec<DiceResult>),
    /// Every face below three: the sorted faces.
    LowRoll(Vec<DiceResult>),
    /// Every face above three: the sorted faces.
    HighRoll(Vec<DiceResult>),
    /// A run of consecutive faces: its highest face and its length.
    Straight(DiceResult, usize),
    /// Every die shows the same face.
    Strike(DiceResult),
    /// Every die but one shows 1: the face of the other die.
    Ace(DiceResult),
    /// A 4, a 2 and a 1 in a roll of the given length.
    FourTwoOne(usize),
}

/// The mathematical value of a [`Combination`]: the same variants, with
/// sequences in place of vectors.
pub ghost enum CombinationView {
    Any(Seq<DiceResult>),
    LowRoll(Seq<DiceResult>),
    HighRoll(Seq<DiceResult>),
    Straight(DiceResult, usize),
    Strike(DiceResult),
    Ace(DiceResult),
    FourTwoOne(usize),
}

impl View for Combination {
    type V = CombinationView;

    open spec fn view(&self) -> CombinationView {
        match self {
            Combination::Any(v) => CombinationView::Any(v@),
            Combination::LowRoll(v) => CombinationView::LowRoll(v@),
            Combination::HighRoll(v) => CombinationView::HighRoll(v@),
            Combination::Straight(h, n) => CombinationView::Straight(*h, *n),
            Combination::Strike(d) => CombinationView::Strike(*d),
            Combination::Ace(d) => CombinationView::Ace(*d),
            Combination::FourTwoOne(n) => CombinationView::FourTwoOne(*n),
        }
    }
}

/// The sum of the faces.
pub open spec fn face_sum(s: Seq<DiceResult>) -> int
    decreases s.len(),
{
    if s.len() == 0 {
        0
    } else {
        face_sum(s.drop_last()) + s.last()
    }
}

/// How two integers are ordered.
pub open spec fn order_of(a: int, b: int) -> Ordering {
    if a < b {
        Ordering::Less
    } else if a > b {
        Ordering::Greater
    } else {
        Ordering::Equal
    }
}

impl CombinationView {
    /// The shape of every combination that a roll can produce.
    pub open spec fn wf(self) -> bool {
        match self {
            CombinationView::Any(v) => v.len() >= MIN_NB_DICES,
            CombinationView::LowRoll(v) => v.len() >= MIN_NB_DICES,
            CombinationView::HighRoll(v) => v.len() >= MIN_NB_DICES,
            CombinationView::Straight(h, n) => 3 <= n && n <= h + 1,
            CombinationView::Strike(_) => true,
            CombinationView::Ace(d) => d != 1,
            CombinationView::FourTwoOne(n) => n >= 3,
        }
    }

    /// The rank score.
    pub open spec fn score(self) -> u32 {
        match self {
            CombinationView::FourTwoOne(n) => if n == 0 { 0 } else { (30usize / n) as u32 },
            CombinationView::Strike(d) => if d == 1 { 7 } else { d as u32 },
            CombinationView::Ace(d) => d as u32,
            CombinationView::Straight(_, _) => 4,
            CombinationView::HighRoll(_) => 3,
            CombinationView::LowRoll(_) => 2,
            CombinationView::Any(_) => 1,
        }
    }

    /// The fixed ordinal of each kind of combination, used when two kinds
    /// reach the same score.
    pub open spec fn kind_index(self) -> u8 {
        match self {
            CombinationView::Any(_) => 0,
            CombinationView::LowRoll(_) => 1,
            CombinationView::HighRoll(_) => 2,
            CombinationView::Straight(_, _) => 3,
            CombinationView::Strike(_) => 4,
            CombinationView::Ace(_) => 5,
            CombinationView::FourTwoOne(_) => 6,
        }
    }

    /// The ordering between two combinations of the same score and kind.
    pub open spec fn tie_break(self, other: CombinationView) -> Ordering {
        match (self, other) {
            (CombinationView::Any(a), CombinationView::Any(b)) => order_of(face_sum(a), face_sum(b)),
            (CombinationView::HighRoll(a), CombinationView::HighRoll(b)) => order_of(
                face_sum(a),
                face_sum(b),
            ),
            (CombinationView::LowRoll(a), CombinationView::LowRoll(b)) => order_of(
                face_sum(a),
                face_sum(b),
            ),
            (CombinationView::Strike(a), CombinationView::Strike(b)) => order_of(a as int, b as int),
            (CombinationView::Straight(h1, n1), CombinationView::Straight(h2, n2)) => if n1 != n2 {
                order_of(n1 as int, n2 as int)
            } else {
                order_of(h1 as int, h2 as int)
            },
            _ => Ordering::Equal,
        }
    }

    /// The rank order: by score, then by kind, then by the tie-break of the kind.
    pub open spec fn compare(self, other: CombinationView) -> Ordering {
        if self.score() != other.score() {
            order_of(self.score() as int, other.score() as int)
        } else if self.kind_index() != other.kind_index() {
            order_of(self.kind_index() as int, other.kind_index() as int)
        } else {
            self.tie_break(other)
        }
    }
}

/// The sum of the faces of `v`.
fn sum_faces(v: &Vec<DiceResult>) -> (r: u128)
    ensures
        r == face_sum(v@),
{
    let mut acc: u128 = 0;
    let mut i: usize = 0;
    while i < v.len()
        invariant
            i <= v.len(),
            acc == face_sum(v@.subrange(0, i as int)),
            acc <= 255 * i,
        decreases v.len() - i,
    {
        assert(v@.subrange(0, i + 1).drop_last() =~= v@.subrange(0, i as int));
        acc = acc + v[i] as u128;
        i = i + 1;
    }
    assert(v@.subrange(0, v.len() as int) =~= v@);
    acc
}

/// How two integers are ordered.
fn order_u128(a: u128, b: u128) -> (r: Ordering)
    ensures
        r == order_of(a as int, b as int),
{
    if a < b {
        Ordering::Less
    } else if a > b {
        Ordering::Greater
    } else {
        Ordering::Equal
    }
}

/// Whether every face lies between 1 and [`FACES`].
pub open spec fn faces_in_range(s: Seq<DiceResult>) -> bool {
    forall|i: int| 0 <= i < s.len() ==> 1 <= #[trigger] s[i] <= FACES
}

/// The combination of a roll whose faces are `t`, sorted; the first pattern
/// that matches wins.
pub open spec fn classify_sorted(t: Seq<DiceResult>) -> CombinationView {
    let d = dedup(t);
    let b = best_run_end(d, d.len() as int);
    if forall|i: int| 0 <= i < t.len() ==> #[trigger] t[i] == t[0] {
        CombinationView::Strike(t[0])
    } else if count_of(t, 1) == t.len() - 1 {
        CombinationView::Ace(t.last())
    } else if run_len_at(d, b) >= 3 {
        CombinationView::Straight(d[b], run_len_at(d, b) as usize)
    } else if t.contains(4) && t.contains(2) && t.contains(1) {
        CombinationView::FourTwoOne(t.len() as usize)
    } else if forall|i: int| 0 <= i < t.len() ==> #[trigger] t[i] > HALF_FACES {
        CombinationView::HighRoll(t)
    } else if forall|i: int| 0 <= i < t.len() ==> #[trigger] t[i] < HALF_FACES {
        CombinationView::LowRoll(t)
    } else {
        CombinationView::Any(t)
    }
}

/// The combination of the roll `s`.
pub open spec fn classify(s: Seq<DiceResult>) -> CombinationView {
    classify_sorted(sorted_faces(s))
}

impl Combination {
    /// Classifies a roll.
    pub fn get(results: Vec<DiceResult>) -> (r: Result<Combination, DiceError>)
        requires
            faces_in_range(results@),
        ensures
            results@.len() < MIN_NB_DICES ==> r == Err::<Combination, DiceError>(
                DiceError::InvalidRollLength,
            ),
            results@.len() >= MIN_NB_DICES ==> r is Ok,
            r matches Ok(c) ==> c@ == classify(results@) && c@.wf(),
    {
        if results.len() < MIN_NB_DICES {
            return Err(DiceError::InvalidRollLength);
        }
        let t = sort_faces(&results);
        proof {
            assert forall|i: int| 0 <= i < t@.len() implies 1 <= #[trigger] t@[i] <= FACES by {
                broadcast use vstd::seq_lib::group_to_multiset_ensures;

                assert(t@.contains(t@[i]));
                assert(t@.to_multiset().count(t@[i]) > 0);
                assert(results@.contains(t@[i]));
            }
            assert(t@.len() == results@.len()) by {
                broadcast use vstd::seq_lib::group_to_multiset_ensures;

                assert(t@.len() == t@.to_multiset().len());
                assert(results@.len() == results@.to_multiset().len());
            }
        }
        if all_equal_to(&t, t[0]) {
            return Ok(Combination::Strike(t[0]));
        }
        let last = t[t.len() - 1];
        if count_faces(&t, 1) == t.len() - 1 {
            return Ok(Combination::Ace(last));
        }
        let d = dedup_faces(&t);
        proof {
            assert(t@.drop_last().len() + 1 == t@.len());
            assert(d@.len() >= 1);
            lemma_best_run_end_bound(d@, d@.len() as int);
            lemma_run_len_bound(d@, best_run_end(d@, d@.len() as int));
        }
        let (high, len) = longest_run(&d);
        if len >= 3 {
            return Ok(Combination::Straight(high, len));
        }
        if has_face(&t, 4) && has_face(&t, 2) && has_face(&t, 1) {
            return Ok(Combination::FourTwoOne(t.len()));
        }
        if all_above(&t, HALF_FACES) {
            return Ok(Combination::HighRoll(t));
        }
        if all_below(&t, HALF_FACES) {
            return Ok(Combination::LowRoll(t));
        }
        Ok(Combination::Any(t))
    }
    /// The rank score of the combination.
    pub fn score(&self) -> (r: u32)
        ensures
            r == self@.score(),
    {
        match self {
            Combination::FourTwoOne(n) => if *n == 0 {
                0
            } else {
                (30 / *n) as u32
            },
            Combination::Strike(d) => if *d == 1 { 7 } else { *d as u32 },
            Combination::Ace(d) => *d as u32,
            Combination::Straight(_, _) => 4,
            Combination::HighRoll(_) => 3,
            Combination::LowRoll(_) => 2,
            Combination::Any(_) => 1,
        }
    }

    /// The fixed ordinal of the kind of the combination.
    pub fn kind_index(&self) -> (r: u8)
        ensures
            r == self@.kind_index(),
    {
        match self {
            Combination::Any(_) => 0,
            Combination::LowRoll(_) => 1,
            Combination::HighRoll(_) => 2,
            Combination::Straight(_, _) => 3,
            Combination::Strike(_) => 4,
            Combination::Ace(_) => 5,
            Combination::FourTwoOne(_) => 6,
        }
    }

    /// Ranks `self` against `other`.
    pub fn compare(&self, other: &Combination) -> (r: Ordering)
        ensures
            r == self@.compare(other@),
    {
        let (s1, s2) = (self.score(), other.score());
        if s1 != s2 {
            return order_u128(s1 as u128, s2 as u128);
        }
        let (k1, k2) = (self.kind_index(), other.kind_index());
        if k1 != k2 {
            return order_u128(k1 as u128, k2 as u128);
        }
        match (self, other) {
            (Combination::Any(a), Combination::Any(b)) => order_u128(sum_faces(a), sum_faces(b)),
            (Combination::HighRoll(a), Combination::HighRoll(b)) => order_u128(
                sum_faces(a),
                sum_faces(b),
            ),
            (Combination::LowRoll(a), Combination::LowRoll(b)) => order_u128(
                sum_faces(a),
                sum_faces(b),
            ),
            (Combination::Strike(a), Combination::Strike(b)) => order_u128(*a as u128, *b as u128),
            (Combination::Straight(h1, n1), Combination::Straight(h2, n2)) => if *n1 != *n2 {
                order_u128(*n1 as u128, *n2 as u128)
            } else {
                order_u128(*h1 as u128, *h2 as u128)
            },
            _ => Ordering::Equal,
        }
    }
}


/// Every combination ranks equal to itself.
pub proof fn lemma_compare_reflexive(a: CombinationView)
    ensures
        a.compare(a) == Ordering::Equal,
{
}

/// Swapping the two sides reverses the order: `a` is below `b` exactly when
/// `b` is above `a`, and equal exactly when `b` is equal to `a`.
pub proof fn lemma_compare_antisymmetric(a: CombinationView, b: CombinationView)
    ensures
        a.compare(b) == Ordering::Less <==> b.compare(a) == Ordering::Greater,
        a.compare(b) == Ordering::Equal <==> b.compare(a) == Ordering::Equal,
        a.compare(b) == Ordering::Greater <==> b.compare(a) == Ordering::Less,
{
}

/// The order is transitive: below-or-equal chains keep their direction, and
/// the result is strict as soon as one step is.
pub proof fn lemma_compare_transitive(a: CombinationView, b: CombinationView, c: CombinationView)
    ensures
        a.compare(b) == Ordering::Equal && b.compare(c) == Ordering::Equal ==> a.compare(c)
            == Ordering::Equal,
        a.compare(b) == Ordering::Less && b.compare(c) == Ordering::Less ==> a.compare(c)
            == Ordering::Less,
        a.compare(b) == Ordering::Less && b.compare(c) == Ordering::Equal ==> a.compare(c)
            == Ordering::Less,
        a.compare(b) == Ordering::Equal && b.compare(c) == Ordering::Less ==> a.compare(c)
            == Ordering::Less,
{
}

/// A strictly higher score always ranks above, whatever the kinds and the
/// tie-breaks.
pub proof fn lemma_higher_score_ranks_above(a: CombinationView, b: CombinationView)
    requires
        a.score() > b.score(),
    ensures
        a.compare(b) == Ordering::Greater,
        b.compare(a) == Ordering::Less,
{
}


/// Combinations are ordered by rank. Two different combinations may rank
/// equal (two `Any` rolls with the same sum), so `partial_cmp` can answer
/// `Equal` where `==` answers `false`.
impl PartialOrd for Combination {
    fn partial_cmp(&self, other: &Combination) -> (r: Option<Ordering>) {
        Some(self.compare(other))
    }
}

impl vstd::std_specs::cmp::PartialOrdSpecImpl for Combination {
    open spec fn obeys_partial_cmp_spec() -> bool {
        true
    }

    open spec fn partial_cmp_spec(&self, other: &Combination) -> Option<Ordering> {
        Some(self@.compare(other@))
    }
}

/// Rearranging the faces of a roll leaves its combination unchanged.
pub proof fn lemma_classify_permutation_invariant(s1: Seq<DiceResult>, s2: Seq<DiceResult>)
    requires
        s1.to_multiset() == s2.to_multiset(),
    ensures
        classify(s1) == classify(s2),
{
}

} // verus!
