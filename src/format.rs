use vstd::prelude::*;

use crate::combination::{Combination, CombinationView, DiceResult};

verus! {

/// The decimal digit `d` as a character.
pub open spec fn digit_char(d: nat) -> char {
    if d == 0 {
        '0'
    } else if d == 1 {
        '1'
    } else if d == 2 {
        '2'
    } else if d == 3 {
        '3'
    } else if d == 4 {
        '4'
    } else if d == 5 {
        '5'
    } else if d == 6 {
        '6'
    } else if d == 7 {
        '7'
    } else if d == 8 {
        '8'
    } else {
        '9'
    }
}

/// `n` written in decimal, without leading zeros.
pub open spec fn decimal(n: nat) -> Seq<char>
    decreases n,
{
    if n < 10 {
        seq![digit_char(n)]
    } else {
        decimal(n / 10) + seq![digit_char(n % 10)]
    }
}

/// The faces written one after another.
pub open spec fn faces_text(v: Seq<DiceResult>) -> Seq<char>
    decreases v.len(),
{
    if v.len() == 0 {
        Seq::empty()
    } else {
        faces_text(v.drop_last()) + decimal(v.last() as nat)
    }
}

/// The `n` values from `h` downwards, separated by commas.
pub open spec fn descending_text(h: int, n: nat) -> Seq<char>
    decreases n,
{
    if n == 0 {
        Seq::empty()
    } else if n == 1 {
        decimal(h as nat)
    } else {
        decimal(h as nat) + ",".view() + descending_text(h - 1, (n - 1) as nat)
    }
}

impl CombinationView {
    /// The name of the combination.
    pub open spec fn label(self) -> Seq<char> {
        match self {
            CombinationView::FourTwoOne(_) => "Four-Two-One!".view(),
            CombinationView::Ace(d) => "Ace of ".view() + decimal(d as nat),
            CombinationView::Strike(d) => "Strike of ".view() + decimal(d as nat),
            CombinationView::Straight(h, n) => "Straight ".view() + descending_text(
                h as int,
                n as nat,
            ),
            CombinationView::HighRoll(v) => "High Roll ".view() + faces_text(v),
            CombinationView::LowRoll(v) => "Low Roll ".view() + faces_text(v),
            CombinationView::Any(v) => faces_text(v),
        }
    }

    /// The name of the combination followed by its score.
    pub open spec fn text(self) -> Seq<char> {
        self.label() + "  [".view() + decimal(self.score() as nat) + "¤]".view()
    }
}

/// The decimal digit `d`.
fn digit_str(d: u32) -> (r: &'static str)
    requires
        d < 10,
    ensures
        r@ == seq![digit_char(d as nat)],
{
    proof {
        reveal_strlit("0");
        reveal_strlit("1");
        reveal_strlit("2");
        reveal_strlit("3");
        reveal_strlit("4");
        reveal_strlit("5");
        reveal_strlit("6");
        reveal_strlit("7");
        reveal_strlit("8");
        reveal_strlit("9");
    }
    let r = match d {
        0 => "0",
        1 => "1",
        2 => "2",
        3 => "3",
        4 => "4",
        5 => "5",
        6 => "6",
        7 => "7",
        8 => "8",
        _ => "9",
    };
    assert(r@ =~= seq![digit_char(d as nat)]);
    r
}

/// Appends `n` in decimal to `s`.
pub fn push_decimal(s: &mut String, n: u32)
    ensures
        final(s)@ == old(s)@ + decimal(n as nat),
    decreases n,
{
    if n >= 10 {
        push_decimal(s, n / 10);
        s.append(digit_str(n % 10));
        assert(decimal(n as nat) == decimal((n / 10) as nat) + seq![digit_char((n % 10) as nat)]);
    } else {
        s.append(digit_str(n));
    }
    assert(s@ =~= old(s)@ + decimal(n as nat));
}


/// Appends the faces of `v` to `s`, one after another.
fn push_faces(s: &mut String, v: &Vec<DiceResult>)
    ensures
        final(s)@ == old(s)@ + faces_text(v@),
{
    let mut i: usize = 0;
    while i < v.len()
        invariant
            i <= v.len(),
            s@ == old(s)@ + faces_text(v@.subrange(0, i as int)),
        decreases v.len() - i,
    {
        assert(v@.subrange(0, i + 1).drop_last() =~= v@.subrange(0, i as int));
        push_decimal(s, v[i] as u32);
        i = i + 1;
        assert(s@ =~= old(s)@ + faces_text(v@.subrange(0, i as int)));
    }
    assert(v@.subrange(0, v.len() as int) =~= v@);
}

/// Appends the `n` values from `h` downwards to `s`, separated by commas.
fn push_descending(s: &mut String, h: u8, n: usize)
    requires
        n <= h + 1,
    ensures
        final(s)@ == old(s)@ + descending_text(h as int, n as nat),
    decreases n,
{
    if n == 0 {
        assert(s@ =~= old(s)@ + descending_text(h as int, n as nat));
    } else if n == 1 {
        push_decimal(s, h as u32);
    } else {
        push_decimal(s, h as u32);
        s.append(",");
        push_descending(s, h - 1, n - 1);
        assert(s@ =~= old(s)@ + descending_text(h as int, n as nat));
    }
}

impl Combination {
    /// The name of the combination followed by its score, as in
    /// `"Strike of 2  [2¤]"`.
    pub fn display(&self) -> (r: String)
        requires
            self@.wf(),
        ensures
            r@ == self@.text(),
    {
        let mut s = String::new();
        match self {
            Combination::FourTwoOne(_) => s.append("Four-Two-One!"),
            Combination::Ace(d) => {
                s.append("Ace of ");
                push_decimal(&mut s, *d as u32);
            },
            Combination::Strike(d) => {
                s.append("Strike of ");
                push_decimal(&mut s, *d as u32);
            },
            Combination::Straight(h, n) => {
                s.append("Straight ");
                push_descending(&mut s, *h, *n);
            },
            Combination::HighRoll(v) => {
                s.append("High Roll ");
                push_faces(&mut s, v);
            },
            Combination::LowRoll(v) => {
                s.append("Low Roll ");
                push_faces(&mut s, v);
            },
            Combination::Any(v) => push_faces(&mut s, v),
        }
        assert(s@ =~= self@.label());
        s.append("  [");
        push_decimal(&mut s, self.score());
        s.append("¤]");
        assert(s@ =~= self@.text());
        s
    }
}

} // verus!
