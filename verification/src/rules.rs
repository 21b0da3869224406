//! The rule catalog: named birth/survival rules for the 8-neighbor
//! cellular automaton, their device encoding, and their display names.
//!
//! A rule holds two 9-bit masks: bit `i` of `born` means a dead cell with
//! exactly `i` live neighbors becomes alive, bit `i` of `survives` means a
//! live cell with exactly `i` live neighbors stays alive.  The catalog order
//! is meaningful: the simulation cycles through it.

use vstd::prelude::*;
use vstd::string::*;

verus! {

/// Whether bit `i` of a rule mask is set.
pub open spec fn mask_bit(mask: u16, i: u16) -> bool
    recommends
        i < 9,
{
    mask & (1u16 << i) != 0
}

/// One transition rule of the catalog.
#[derive(Clone, Copy)]
pub struct Rule {
    /// 9-bit mask: neighbor counts on which a dead cell is born.
    pub born: u16,
    /// 9-bit mask: neighbor counts on which a live cell survives.
    pub survives: u16,
    /// Preferred initial density (percent of live cells), between 1 and 99.
    pub initial_density: u8,
    /// Base display name of the rule.
    pub name: &'static str,
}

/// A well-formed rule: both masks fit in 9 bits and the preferred
/// density is a valid percentage strictly between 0 and 100.
pub open spec fn rule_wf(r: Rule) -> bool {
    &&& r.born < 512
    &&& r.survives < 512
    &&& 1 <= r.initial_density <= 99
}

/// The catalog, in cycling order.
pub open spec fn catalog() -> Seq<Rule> {
    seq![
        (Rule { born: 0b1000, survives: 0b1100, initial_density: 12, name: "Conway's Life" }),
        (Rule { born: 0b0_1011_1000, survives: 0b1_0111_0000, initial_density: 15, name: "Gems" }),
        (Rule { born: 0b1_1100_1000, survives: 0b1_1101_1000, initial_density: 50, name: "Day & Night" }),
        (Rule { born: 0b1_1110_1000, survives: 0b1_1110_0000, initial_density: 48, name: "Diamoeba" }),
        (Rule { born: 0b0_1000_1000, survives: 0b0_0000_1100, initial_density: 12, name: "DryLife" }),
        (Rule { born: 0b1_1110_0100, survives: 0b1_1110_0000, initial_density: 1, name: "Iceballs	" }),
        (Rule { born: 0b0_0010_1000, survives: 0b1_1011_1100, initial_density: 4, name: "Land Rush" }),
        (Rule { born: 0b0_0100_1000, survives: 0b1_1011_1100, initial_density: 4, name: "Land Rush 2" }),
        (Rule { born: 0b0_0000_0100, survives: 0b0_0000_0000, initial_density: 1, name: "Live Free or Die	" }),
        (Rule { born: 0b0_0000_1000, survives: 0b0_0011_1110, initial_density: 3, name: "Maze" }),
        (Rule { born: 0b0_0000_1000, survives: 0b0_0001_1110, initial_density: 3, name: "Mazectric" }),
        (Rule { born: 0b1_0000_1000, survives: 0b0_0000_1100, initial_density: 10, name: "Pedestrian Life" }),
        (Rule { born: 0b0_1010_1010, survives: 0b0_1010_1010, initial_density: 1, name: "Replicator" }),
        (Rule { born: 0b0_0001_1100, survives: 0b0_0000_0000, initial_density: 1, name: "Serviettes" }),
        (Rule { born: 0b0_0000_1000, survives: 0b0_1000_1110, initial_density: 3, name: "SnowLife" }),
        (Rule { born: 0b1_1100_1000, survives: 0b1_1110_1100, initial_density: 8, name: "Stains" }),
        (Rule { born: 0b1_1110_0000, survives: 0b1_1111_0000, initial_density: 50, name: "Vote" }),
    ]
}

/// Every catalog entry is well-formed.
pub proof fn lemma_catalog_wf()
    ensures
        catalog().len() == 17,
        forall|i: int| 0 <= i < catalog().len() ==> rule_wf(#[trigger] catalog()[i]),
{
    assert forall|i: int| 0 <= i < catalog().len() implies rule_wf(#[trigger] catalog()[i]) by {
        if i == 0 {
            assert(rule_wf(catalog()[0]));
        }
    }
}

/// The catalog as a vector, in catalog order.
pub fn get_rules() -> (r: Vec<Rule>)
    ensures
        r@ == catalog(),
{
    let mut v: Vec<Rule> = Vec::new();
    v.push(Rule { born: 0b1000, survives: 0b1100, initial_density: 12, name: "Conway's Life" });
    v.push(Rule { born: 0b0_1011_1000, survives: 0b1_0111_0000, initial_density: 15, name: "Gems" });
    v.push(Rule { born: 0b1_1100_1000, survives: 0b1_1101_1000, initial_density: 50, name: "Day & Night" });
    v.push(Rule { born: 0b1_1110_1000, survives: 0b1_1110_0000, initial_density: 48, name: "Diamoeba" });
    v.push(Rule { born: 0b0_1000_1000, survives: 0b0_0000_1100, initial_density: 12, name: "DryLife" });
    v.push(Rule { born: 0b1_1110_0100, survives: 0b1_1110_0000, initial_density: 1, name: "Iceballs	" });
    v.push(Rule { born: 0b0_0010_1000, survives: 0b1_1011_1100, initial_density: 4, name: "Land Rush" });
    v.push(Rule { born: 0b0_0100_1000, survives: 0b1_1011_1100, initial_density: 4, name: "Land Rush 2" });
    v.push(Rule { born: 0b0_0000_0100, survives: 0b0_0000_0000, initial_density: 1, name: "Live Free or Die	" });
    v.push(Rule { born: 0b0_0000_1000, survives: 0b0_0011_1110, initial_density: 3, name: "Maze" });
    v.push(Rule { born: 0b0_0000_1000, survives: 0b0_0001_1110, initial_density: 3, name: "Mazectric" });
    v.push(Rule { born: 0b1_0000_1000, survives: 0b0_0000_1100, initial_density: 10, name: "Pedestrian Life" });
    v.push(Rule { born: 0b0_1010_1010, survives: 0b0_1010_1010, initial_density: 1, name: "Replicator" });
    v.push(Rule { born: 0b0_0001_1100, survives: 0b0_0000_0000, initial_density: 1, name: "Serviettes" });
    v.push(Rule { born: 0b0_0000_1000, survives: 0b0_1000_1110, initial_density: 3, name: "SnowLife" });
    v.push(Rule { born: 0b1_1100_1000, survives: 0b1_1110_1100, initial_density: 8, name: "Stains" });
    v.push(Rule { born: 0b1_1110_0000, survives: 0b1_1111_0000, initial_density: 50, name: "Vote" });
    proof {
        assert(v@ =~= catalog());
    }
    v
}

/// How many rules the catalog holds.
pub fn num_rules() -> (n: u32)
    ensures
        n == catalog().len(),
{
    17
}

/// The rule at a catalog index; an out-of-range index falls back to the
/// first entry rather than failing.
pub fn rule_at(idx: u32) -> (r: Rule)
    ensures
        idx < catalog().len() ==> r == catalog()[idx as int],
        idx >= catalog().len() ==> r == catalog()[0],
{
    let rules = get_rules();
    if (idx as usize) < rules.len() {
        rules[idx as usize]
    } else {
        rules[0]
    }
}

impl Rule {
    /// The rule as it is uploaded to the device: the two masks widened
    /// to 32 bits, birth mask first.
    pub fn rule_array(&self) -> (r: [u32; 2])
        ensures
            r@ == seq![self.born as u32, self.survives as u32],
    {
        let r = [self.born as u32, self.survives as u32];
        proof {
            assert(r@ =~= seq![self.born as u32, self.survives as u32]);
        }
        r
    }
}

/// The digit character for a neighbor count between 0 and 8.
pub open spec fn digit_char(i: int) -> char {
    if i == 0 {
        '0'
    } else if i == 1 {
        '1'
    } else if i == 2 {
        '2'
    } else if i == 3 {
        '3'
    } else if i == 4 {
        '4'
    } else if i == 5 {
        '5'
    } else if i == 6 {
        '6'
    } else if i == 7 {
        '7'
    } else {
        '8'
    }
}

/// The digits of the neighbor counts whose bits are set among the low `n`
/// bits of a mask, in increasing order.
pub open spec fn mask_digits(mask: u16, n: int) -> Seq<char>
    decreases n,
{
    if n <= 0 {
        Seq::empty()
    } else {
        mask_digits(mask, n - 1) + (if mask_bit(mask, (n - 1) as u16) {
            seq![digit_char(n - 1)]
        } else {
            Seq::empty()
        })
    }
}

/// The full display name of a rule: its base name followed by the
/// conventional "B<digits>/S<digits>" notation read off the two masks.
pub open spec fn display_name(r: Rule) -> Seq<char> {
    r.name@ + seq![' ', 'B'] + mask_digits(r.born, 9) + seq!['/', 'S'] + mask_digits(r.survives, 9)
}

/// The one-character string for a neighbor-count digit.
fn digit_str(i: u16) -> (s: &'static str)
    requires
        i < 9,
    ensures
        s@ == seq![digit_char(i as int)],
{
    let s: &'static str = match i {
        0 => "0",
        1 => "1",
        2 => "2",
        3 => "3",
        4 => "4",
        5 => "5",
        6 => "6",
        7 => "7",
        _ => "8",
    };
    proof {
        reveal_strlit("0");
        reveal_strlit("1");
        reveal_strlit("2");
        reveal_strlit("3");
        reveal_strlit("4");
        reveal_strlit("5");
        reveal_strlit("6");
        reveal_strlit("7");
        reveal_strlit("8");
        assert(s@ =~= seq![digit_char(i as int)]);
    }
    s
}

impl Rule {
    /// Build the display name "B<digits>/S<digits>" by testing each of
    /// the 9 neighbor-count bits of the two masks, so that the name
    /// exactly reflects the encoded form of the rule.
    pub fn name(&self) -> (s: String)
        ensures
            s@ == display_name(*self),
    {
        let mut s = String::from_str(self.name);
        s.append(" B");
        proof {
            reveal_strlit(" B");
            assert(s@ =~= self.name@ + seq![' ', 'B'] + mask_digits(self.born, 0));
        }
        let mut i: u16 = 0;
        while i < 9
            invariant
                i <= 9,
                s@ == self.name@ + seq![' ', 'B'] + mask_digits(self.born, i as int),
            decreases 9 - i,
        {
            if self.born & (1u16 << i) != 0 {
                let d = digit_str(i);
                s.append(d);
            }
            proof {
                assert(s@ =~= self.name@ + seq![' ', 'B'] + mask_digits(self.born, i as int + 1));
            }
            i = i + 1;
        }
        s.append("/S");
        proof {
            reveal_strlit("/S");
            assert(s@ =~= self.name@ + seq![' ', 'B'] + mask_digits(self.born, 9) + seq!['/', 'S']
                + mask_digits(self.survives, 0));
        }
        let mut j: u16 = 0;
        while j < 9
            invariant
                j <= 9,
                s@ == self.name@ + seq![' ', 'B'] + mask_digits(self.born, 9) + seq!['/', 'S']
                    + mask_digits(self.survives, j as int),
            decreases 9 - j,
        {
            if self.survives & (1u16 << j) != 0 {
                let d = digit_str(j);
                s.append(d);
            }
            proof {
                assert(s@ =~= self.name@ + seq![' ', 'B'] + mask_digits(self.born, 9) + seq![
                    '/',
                    'S',
                ] + mask_digits(self.survives, j as int + 1));
            }
            j = j + 1;
        }
        proof {
            assert(s@ =~= display_name(*self));
        }
        s
    }
}

/// Widening a 9-bit mask to 32 bits for the device loses nothing: the
/// encoded pair of a well-formed rule determines the rule's masks.
pub proof fn lemma_encoding_round_trips(r: Rule)
    requires
        rule_wf(r),
    ensures
        (r.born as u32) as u16 == r.born,
        (r.survives as u32) as u16 == r.survives,
{
}

} // verus!
