//! The best score: its stored text form and the rule for replacing it.
use vstd::prelude::*;

verus! {

/// `c` is an ASCII decimal digit.
pub open spec fn is_digit(c: u8) -> bool {
    0x30 <= c <= 0x39
}

/// The value of the decimal digits `s`, most significant first.
pub open spec fn digits_value(s: Seq<u8>) -> nat
    decreases s.len(),
{
    if s.len() == 0 {
        0
    } else {
        digits_value(s.drop_last()) * 10 + (s.last() - 0x30) as nat
    }
}

/// The digits of `s`: all of it but a leading `+` sign.
pub open spec fn unsigned_digits(s: Seq<u8>) -> Seq<u8> {
    if s.len() > 0 && s[0] == 0x2b { s.drop_first() } else { s }
}

/// `s` is the text of a score: an optional `+`, then one or more decimal
/// digits whose value is at most 255.
pub open spec fn is_score_text(s: Seq<u8>) -> bool {
    let d = unsigned_digits(s);
    &&& d.len() > 0
    &&& forall|i: int| 0 <= i < d.len() ==> is_digit(#[trigger] d[i])
    &&& digits_value(d) <= 255
}

/// The score that the stored text `s` holds: its value when it is the text
/// of a score, and 0 for anything else (missing, damaged or out of range).
pub open spec fn score_of(s: Seq<u8>) -> u8 {
    if is_score_text(s) { digits_value(unsigned_digits(s)) as u8 } else { 0 }
}

/// The shortest decimal text of `n`.
pub open spec fn decimal(n: nat) -> Seq<u8>
    decreases n,
{
    if n < 10 {
        seq![(0x30 + n) as u8]
    } else {
        decimal(n / 10).push((0x30 + n % 10) as u8)
    }
}

/// Reads a stored best score; text that is not a score reads as 0.
pub fn parse_score(text: &[u8]) -> (r: u8)
    ensures
        r == score_of(text@),
{
    let n = text.len();
    let mut start: usize = 0;
    if n > 0 && text[0] == 0x2b {
        start = 1;
    }
    let ghost d = unsigned_digits(text@);
    assert(d =~= text@.subrange(start as int, n as int));
    if start == n {
        return 0;
    }
    let mut acc: u32 = 0;
    let mut i: usize = start;
    while i < n
        invariant
            start <= i <= n,
            n == text@.len(),
            d == unsigned_digits(text@),
            d =~= text@.subrange(start as int, n as int),
            forall|j: int| start <= j < i ==> is_digit(#[trigger] text@[j]),
            acc as nat == if digits_value(text@.subrange(start as int, i as int)) < 256 {
                digits_value(text@.subrange(start as int, i as int))
            } else {
                256
            },
        decreases n - i,
    {
        let c = text[i];
        if c < 0x30 || c > 0x39 {
            assert(!is_digit(d[i - start]));
            return 0;
        }
        let ghost prev = text@.subrange(start as int, i as int);
        let ghost next = text@.subrange(start as int, i + 1);
        assert(next.drop_last() =~= prev);
        let ghost v = digits_value(prev);
        let ghost dv = (c - 0x30) as nat;
        assert(digits_value(next) == v * 10 + dv);
        if acc >= 256 {
            assert(v * 10 + dv >= 256) by (nonlinear_arith)
                requires v >= 256;
        } else {
            acc = acc * 10 + (c - 0x30) as u32;
            acc = if acc > 256 { 256 } else { acc };
        }
        i += 1;
    }
    assert(text@.subrange(start as int, n as int) =~= d);
    assert forall|j: int| 0 <= j < d.len() implies is_digit(#[trigger] d[j]) by {
        assert(d[j] == text@[start + j]);
    }
    if acc > 255 {
        0
    } else {
        acc as u8
    }
}

/// The text under which a best score is stored: its shortest decimal form.
pub fn score_text(score: u8) -> (r: Vec<u8>)
    ensures
        r@ == decimal(score as nat),
{
    let mut r: Vec<u8> = Vec::new();
    proof {
        reveal_with_fuel(decimal, 3);
    }
    if score >= 100 {
        r.push(0x30 + score / 100);
        assert(score / 10 / 10 == score / 100);
    }
    if score >= 10 {
        r.push(0x30 + (score / 10) % 10);
    }
    r.push(0x30 + score % 10);
    assert(r@ =~= decimal(score as nat));
    r
}

proof fn lemma_decimal_digits(n: nat)
    ensures
        decimal(n).len() > 0,
        forall|i: int| 0 <= i < decimal(n).len() ==> is_digit(#[trigger] decimal(n)[i]),
        digits_value(decimal(n)) == n,
    decreases n,
{
    if n >= 10 {
        lemma_decimal_digits(n / 10);
        let s = decimal(n);
        assert(s.drop_last() =~= decimal(n / 10));
        assert(n == (n / 10) * 10 + n % 10) by (nonlinear_arith);
        assert(s.last() - 0x30 == n % 10);
    } else {
        let s = decimal(n);
        assert(s.drop_last() =~= Seq::<u8>::empty());
        assert(digits_value(s.drop_last()) == 0);
    }
}

/// A stored score reads back as the score that was stored.
pub proof fn lemma_score_round_trip(score: u8)
    ensures
        score_of(decimal(score as nat)) == score,
{
    lemma_decimal_digits(score as nat);
    assert(decimal(score as nat)[0] != 0x2b);
}

/// The best score so far, and the one it replaced.
#[derive(Clone, Copy, Debug, PartialEq, Eq, Structural)]
pub struct HighScore {
    pub best: u8,
    pub old_best: u8,
}

impl HighScore {
    /// The best score as loaded at start-up, with no earlier one.
    pub fn new(best: u8) -> (r: HighScore)
        ensures
            r.best == best,
            r.old_best == 0,
    {
        HighScore { best, old_best: 0 }
    }

    /// Records the score of a finished playthrough. Returns whether it beats
    /// the best score, in which case it becomes the best and the former best
    /// is kept as the old one; the new best is then to be stored.
    pub fn record(&mut self, score: u8) -> (beaten: bool)
        ensures
            beaten == (score > old(self).best),
            beaten ==> *final(self) == (HighScore { best: score, old_best: old(self).best }),
            !beaten ==> *final(self) == *old(self),
    {
        if score > self.best {
            self.old_best = self.best;
            self.best = score;
            true
        } else {
            false
        }
    }
}

} // verus!
