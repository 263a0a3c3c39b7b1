//! The local record of collected items and the per-colour summary read from it.

use vstd::prelude::*;
use crate::color::ColorId;

verus! {

/// How many entries of `s` have the colour `c`.
pub open spec fn count_of(s: Seq<ColorId>, c: ColorId) -> nat
    decreases s.len(),
{
    if s.len() == 0 {
        0
    } else {
        count_of(s.drop_last(), c) + if s.last() == c { 1nat } else { 0nat }
    }
}

/// `n` entries of the colour `c`.
pub open spec fn run_of(c: ColorId, n: nat) -> Seq<ColorId> {
    Seq::new(n, |i: int| c)
}

/// A remote count as the ledger takes it: a read that failed counts as zero.
pub open spec fn count_or_zero(c: Option<u64>) -> nat {
    match c {
        Some(n) => n as nat,
        None => 0,
    }
}

/// The ledger `s` after seeding with the three remote counts.
pub open spec fn seeded(s: Seq<ColorId>, red: nat, blue: nat, green: nat) -> Seq<ColorId> {
    s + run_of(ColorId::Red, red) + run_of(ColorId::Blue, blue) + run_of(ColorId::Green, green)
}

/// No colour is counted more often than the record is long.
pub proof fn count_of_bounded(s: Seq<ColorId>, c: ColorId)
    ensures
        count_of(s, c) <= s.len(),
    decreases s.len(),
{
    if s.len() > 0 {
        count_of_bounded(s.drop_last(), c);
    }
}

/// Counting goes through concatenation.
pub proof fn count_of_concat(a: Seq<ColorId>, b: Seq<ColorId>, c: ColorId)
    ensures
        count_of(a + b, c) == count_of(a, c) + count_of(b, c),
    decreases b.len(),
{
    if b.len() == 0 {
        assert(a + b =~= a);
    } else {
        assert((a + b).drop_last() =~= a + b.drop_last());
        count_of_concat(a, b.drop_last(), c);
    }
}

/// A run of one colour counts for that colour alone.
pub proof fn count_of_run(x: ColorId, n: nat, c: ColorId)
    ensures
        count_of(run_of(x, n), c) == if x == c { n } else { 0 },
    decreases n,
{
    if n > 0 {
        assert(run_of(x, n).drop_last() =~= run_of(x, (n - 1) as nat));
        count_of_run(x, (n - 1) as nat, c);
    }
}

/// The three colour counts of any record add up to its length.
pub proof fn counts_sum_to_len(s: Seq<ColorId>)
    ensures
        count_of(s, ColorId::Red) + count_of(s, ColorId::Blue) + count_of(s, ColorId::Green)
            == s.len(),
    decreases s.len(),
{
    if s.len() > 0 {
        counts_sum_to_len(s.drop_last());
    }
}

/// Seeding adds to each colour exactly the count read for it, whatever the
/// record held before.
pub proof fn seeding_adds_counts(s: Seq<ColorId>, red: nat, blue: nat, green: nat)
    ensures
        count_of(seeded(s, red, blue, green), ColorId::Red) == count_of(s, ColorId::Red) + red,
        count_of(seeded(s, red, blue, green), ColorId::Blue) == count_of(s, ColorId::Blue) + blue,
        count_of(seeded(s, red, blue, green), ColorId::Green) == count_of(s, ColorId::Green)
            + green,
        seeded(s, red, blue, green).len() == s.len() + red + blue + green,
{
    let r = run_of(ColorId::Red, red);
    let b = run_of(ColorId::Blue, blue);
    let g = run_of(ColorId::Green, green);
    count_of_concat(s, r, ColorId::Red);
    count_of_concat(s + r, b, ColorId::Red);
    count_of_concat(s + r + b, g, ColorId::Red);
    count_of_concat(s, r, ColorId::Blue);
    count_of_concat(s + r, b, ColorId::Blue);
    count_of_concat(s + r + b, g, ColorId::Blue);
    count_of_concat(s, r, ColorId::Green);
    count_of_concat(s + r, b, ColorId::Green);
    count_of_concat(s + r + b, g, ColorId::Green);
    count_of_run(ColorId::Red, red, ColorId::Red);
    count_of_run(ColorId::Red, red, ColorId::Blue);
    count_of_run(ColorId::Red, red, ColorId::Green);
    count_of_run(ColorId::Blue, blue, ColorId::Red);
    count_of_run(ColorId::Blue, blue, ColorId::Blue);
    count_of_run(ColorId::Blue, blue, ColorId::Green);
    count_of_run(ColorId::Green, green, ColorId::Red);
    count_of_run(ColorId::Green, green, ColorId::Blue);
    count_of_run(ColorId::Green, green, ColorId::Green);
}

/// Total and per-colour counts of a record.
#[derive(Clone, Copy, Debug, PartialEq, Eq, Structural)]
pub struct Tally {
    pub total: usize,
    pub red: usize,
    pub blue: usize,
    pub green: usize,
}

impl Tally {
    /// The tally is the summary of the record `s`.
    pub open spec fn summarizes(self, s: Seq<ColorId>) -> bool {
        &&& self.total == s.len()
        &&& self.red == count_of(s, ColorId::Red)
        &&& self.blue == count_of(s, ColorId::Blue)
        &&& self.green == count_of(s, ColorId::Green)
    }

    /// The count for one colour.
    pub fn of(&self, c: ColorId) -> (r: usize)
        ensures
            r == match c {
                ColorId::Red => self.red,
                ColorId::Blue => self.blue,
                ColorId::Green => self.green,
            },
    {
        match c {
            ColorId::Red => self.red,
            ColorId::Blue => self.blue,
            ColorId::Green => self.green,
        }
    }
}

/// A record has one summary: two summaries taken of the same record, with no
/// change in between, are equal.
pub proof fn summary_is_unique(a: Tally, b: Tally, s: Seq<ColorId>)
    requires
        a.summarizes(s),
        b.summarizes(s),
    ensures
        a == b,
{
}

/// The colours collected so far, oldest first. Entries are only ever added.
pub struct CollectionLedger {
    entries: Vec<ColorId>,
}

impl View for CollectionLedger {
    type V = Seq<ColorId>;

    closed spec fn view(&self) -> Seq<ColorId> {
        self.entries@
    }
}

impl CollectionLedger {
    pub fn new() -> (r: CollectionLedger)
        ensures
            r@ == Seq::<ColorId>::empty(),
    {
        CollectionLedger { entries: Vec::new() }
    }

    pub fn len(&self) -> (r: usize)
        ensures
            r == self@.len(),
    {
        self.entries.len()
    }

    /// The entry at position `i`, if the record is that long.
    pub fn get(&self, i: usize) -> (r: Option<ColorId>)
        ensures
            i < self@.len() ==> r == Some(self@[i as int]),
            i >= self@.len() ==> r is None,
    {
        if i < self.entries.len() {
            Some(self.entries[i])
        } else {
            None
        }
    }

    /// Records one collected item.
    pub fn append(&mut self, c: ColorId)
        ensures
            final(self)@ == old(self)@.push(c),
    {
        self.entries.push(c);
    }

    /// Adds `count` entries of one colour.
    pub fn seed(&mut self, c: ColorId, count: u64)
        ensures
            final(self)@ == old(self)@ + run_of(c, count as nat),
    {
        let mut i: u64 = 0;
        while i < count
            invariant
                i <= count,
                self@ == old(self)@ + run_of(c, i as nat),
            decreases count - i,
        {
            self.entries.push(c);
            i = i + 1;
            assert(self@ =~= old(self)@ + run_of(c, i as nat));
        }
    }

    /// Seeds the record from the counts read off the remote ledger, red first,
    /// then blue, then green. A count that could not be read counts as zero.
    pub fn reconcile(&mut self, red: Option<u64>, blue: Option<u64>, green: Option<u64>)
        ensures
            final(self)@ == seeded(
                old(self)@,
                count_or_zero(red),
                count_or_zero(blue),
                count_or_zero(green),
            ),
    {
        let r: u64 = match red {
            Some(n) => n,
            None => 0,
        };
        let b: u64 = match blue {
            Some(n) => n,
            None => 0,
        };
        let g: u64 = match green {
            Some(n) => n,
            None => 0,
        };
        self.seed(ColorId::Red, r);
        self.seed(ColorId::Blue, b);
        self.seed(ColorId::Green, g);
    }

    /// The per-colour summary of the record. It reads the record and changes
    /// nothing.
    pub fn tally(&self) -> (r: Tally)
        ensures
            r.summarizes(self@),
            r.red + r.blue + r.green == r.total,
    {
        let n: usize = self.entries.len();
        let mut red: usize = 0;
        let mut blue: usize = 0;
        let mut green: usize = 0;
        let mut i: usize = 0;
        while i < n
            invariant
                n == self.entries@.len(),
                i <= n,
                red == count_of(self.entries@.take(i as int), ColorId::Red),
                blue == count_of(self.entries@.take(i as int), ColorId::Blue),
                green == count_of(self.entries@.take(i as int), ColorId::Green),
            decreases n - i,
        {
            proof {
                let next = self.entries@.take(i + 1);
                assert(next.drop_last() =~= self.entries@.take(i as int));
                count_of_bounded(next, ColorId::Red);
                count_of_bounded(next, ColorId::Blue);
                count_of_bounded(next, ColorId::Green);
            }
            match self.entries[i] {
                ColorId::Red => {
                    red = red + 1;
                },
                ColorId::Blue => {
                    blue = blue + 1;
                },
                ColorId::Green => {
                    green = green + 1;
                },
            }
            i = i + 1;
        }
        proof {
            assert(self.entries@.take(n as int) =~= self.entries@);
            counts_sum_to_len(self@);
        }
        Tally { total: n, red, blue, green }
    }
}

} // verus!
