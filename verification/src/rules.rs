//! Diacritic rules: which letter a shape trigger may rewrite, which letters
//! may follow it, and the replacement pair.  One fixed rule set exists per
//! trigger (circumflex, horn, breve, crossed d).

use vstd::prelude::*;
use crate::chars::fold;

verus! {

/// One diacritic rule as the matcher consumes it: a base letter to match
/// (lower case), the accent-stripped, case-folded letters allowed to follow
/// it, and the replacement in its lower- and upper-case form.
pub struct DiacriticMatch {
    pub ch: char,
    pub pair_with: Vec<char>,
    pub replace_with: (char, char),
}

/// The mathematical shape of a diacritic rule.
pub struct Rule {
    pub base: char,
    pub pair: Seq<char>,
    pub lower: char,
    pub upper: char,
}

impl View for DiacriticMatch {
    type V = Rule;

    open spec fn view(&self) -> Rule {
        Rule {
            base: self.ch,
            pair: self.pair_with@,
            lower: self.replace_with.0,
            upper: self.replace_with.1,
        }
    }
}

/// The views of a rule list.
pub open spec fn views_of(ms: Seq<DiacriticMatch>) -> Seq<Rule> {
    ms.map_values(|m: DiacriticMatch| m@)
}

/// Whether rule `r` fires at position `i` of `buf`: the accent-stripped,
/// case-folded character there is the rule's base letter, and either the
/// position is the last one or the folded follower is a permitted pairing.
pub open spec fn rule_applies(r: Rule, buf: Seq<char>, i: int) -> bool {
    &&& r.base == fold(buf[i])
    &&& (i + 1 == buf.len() || r.pair.contains(fold(buf[i + 1])))
}

/// The rules of the circumflex trigger.
pub open spec fn circumflex_rules() -> Seq<Rule> {
    seq![
        Rule { base: 'a', pair: seq!['u', 'n', 'm', 'p', 't', 'c', 'y'], lower: 'â', upper: 'Â' },
        Rule { base: 'e', pair: seq!['u', 'n', 'm', 'p', 't', 'c', 'y'], lower: 'ê', upper: 'Ê' },
        Rule { base: 'o', pair: seq!['i', 'n', 'm', 'p', 't', 'c', 'y'], lower: 'ô', upper: 'Ô' },
    ]
}

/// The rules of the horn trigger.
pub open spec fn horn_rules() -> Seq<Rule> {
    seq![
        Rule { base: 'u', pair: seq!['o', 'i', 'n', 'm', 'a', 'p', 't', 'c'], lower: 'ư', upper: 'Ư' },
        Rule { base: 'o', pair: seq!['i', 'n', 'm', 'p', 't', 'c', 'y'], lower: 'ơ', upper: 'Ơ' },
    ]
}

/// The rules of the breve trigger.
pub open spec fn breve_rules() -> Seq<Rule> {
    seq![
        Rule { base: 'a', pair: seq!['p', 'n', 'm', 't', 'c'], lower: 'ă', upper: 'Ă' },
    ]
}

/// The rules of the crossed-d trigger.
pub open spec fn crossed_d_rules() -> Seq<Rule> {
    seq![
        Rule {
            base: 'd',
            pair: seq!['a', 'c', 'e', 'i', 'm', 'n', 'o', 'p', 't', 'u', 'y'],
            lower: 'đ',
            upper: 'Đ',
        },
    ]
}

/// Builds the circumflex rule set.
pub fn circumflex_matches() -> (v: Vec<DiacriticMatch>)
    ensures
        views_of(v@) == circumflex_rules(),
{
    let v = vec![
        DiacriticMatch {
            ch: 'a',
            pair_with: vec!['u', 'n', 'm', 'p', 't', 'c', 'y'],
            replace_with: ('â', 'Â'),
        },
        DiacriticMatch {
            ch: 'e',
            pair_with: vec!['u', 'n', 'm', 'p', 't', 'c', 'y'],
            replace_with: ('ê', 'Ê'),
        },
        DiacriticMatch {
            ch: 'o',
            pair_with: vec!['i', 'n', 'm', 'p', 't', 'c', 'y'],
            replace_with: ('ô', 'Ô'),
        },
    ];
    proof {
        assert(v@[0]@.pair =~= circumflex_rules()[0].pair);
        assert(v@[1]@.pair =~= circumflex_rules()[1].pair);
        assert(v@[2]@.pair =~= circumflex_rules()[2].pair);
        assert(views_of(v@) =~= circumflex_rules());
    }
    v
}

/// Builds the horn rule set.
pub fn horn_matches() -> (v: Vec<DiacriticMatch>)
    ensures
        views_of(v@) == horn_rules(),
{
    let v = vec![
        DiacriticMatch {
            ch: 'u',
            pair_with: vec!['o', 'i', 'n', 'm', 'a', 'p', 't', 'c'],
            replace_with: ('ư', 'Ư'),
        },
        DiacriticMatch {
            ch: 'o',
            pair_with: vec!['i', 'n', 'm', 'p', 't', 'c', 'y'],
            replace_with: ('ơ', 'Ơ'),
        },
    ];
    proof {
        assert(v@[0]@.pair =~= horn_rules()[0].pair);
        assert(v@[1]@.pair =~= horn_rules()[1].pair);
        assert(views_of(v@) =~= horn_rules());
    }
    v
}

/// Builds the breve rule set.
pub fn breve_matches() -> (v: Vec<DiacriticMatch>)
    ensures
        views_of(v@) == breve_rules(),
{
    let v = vec![
        DiacriticMatch {
            ch: 'a',
            pair_with: vec!['p', 'n', 'm', 't', 'c'],
            replace_with: ('ă', 'Ă'),
        },
    ];
    proof {
        assert(v@[0]@.pair =~= breve_rules()[0].pair);
        assert(views_of(v@) =~= breve_rules());
    }
    v
}

/// Builds the crossed-d rule set.
pub fn crossed_d_matches() -> (v: Vec<DiacriticMatch>)
    ensures
        views_of(v@) == crossed_d_rules(),
{
    let v = vec![
        DiacriticMatch {
            ch: 'd',
            pair_with: vec!['a', 'c', 'e', 'i', 'm', 'n', 'o', 'p', 't', 'u', 'y'],
            replace_with: ('đ', 'Đ'),
        },
    ];
    proof {
        assert(v@[0]@.pair =~= crossed_d_rules()[0].pair);
        assert(views_of(v@) =~= crossed_d_rules());
    }
    v
}

} // verus!
