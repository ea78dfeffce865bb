//! The unit system of a forecast and its two-letter service code.

use vstd::prelude::*;

verus! {

/// Display convention for forecast values.
#[derive(Clone, Copy, Debug, PartialEq, Eq, Structural)]
pub enum UnitSystem {
    /// Fahrenheit and miles per hour; service code `us`.
    Imperial,
    /// Celsius and kilometres per hour; service code `si`.
    Metric,
}

/// True when `token` spells the two-letter word `first second`, in either case.
pub open spec fn spells(token: Seq<char>, first: (char, char), second: (char, char)) -> bool {
    &&& token.len() == 2
    &&& (token[0] == first.0 || token[0] == first.1)
    &&& (token[1] == second.0 || token[1] == second.1)
}

/// The unit system that a token names, if any: `us` or `si`, in either case.
pub open spec fn token_meaning(token: Seq<char>) -> Option<UnitSystem> {
    if spells(token, ('u', 'U'), ('s', 'S')) {
        Some(UnitSystem::Imperial)
    } else if spells(token, ('s', 'S'), ('i', 'I')) {
        Some(UnitSystem::Metric)
    } else {
        None
    }
}

impl UnitSystem {
    /// The lowercase code used as the `units` query value.
    pub open spec fn code_text(self) -> Seq<char> {
        match self {
            UnitSystem::Imperial => seq!['u', 's'],
            UnitSystem::Metric => seq!['s', 'i'],
        }
    }

    /// Returns the lowercase service code of this unit system.
    pub fn code(self) -> (text: &'static str)
        ensures
            text@ == self.code_text(),
    {
        match self {
            UnitSystem::Imperial => {
                proof {
                    reveal_strlit("us");
                }
                assert("us"@ =~= seq!['u', 's']);
                "us"
            },
            UnitSystem::Metric => {
                proof {
                    reveal_strlit("si");
                }
                assert("si"@ =~= seq!['s', 'i']);
                "si"
            },
        }
    }

    /// Reads a unit token. Exactly the tokens `us` and `si` are accepted,
    /// whatever the case of their letters.
    pub fn from_token(token: &str) -> (system: Option<UnitSystem>)
        ensures
            system == token_meaning(token@),
    {
        if token.unicode_len() != 2 {
            return None;
        }
        let first = token.get_char(0);
        let second = token.get_char(1);
        if (first == 'u' || first == 'U') && (second == 's' || second == 'S') {
            Some(UnitSystem::Imperial)
        } else if (first == 's' || first == 'S') && (second == 'i' || second == 'I') {
            Some(UnitSystem::Metric)
        } else {
            None
        }
    }
}

impl Default for UnitSystem {
    /// Imperial units are the default.
    fn default() -> (system: UnitSystem)
        ensures
            system == UnitSystem::Imperial,
    {
        UnitSystem::Imperial
    }
}

/// Reading back the code of a unit system yields that unit system.
pub proof fn lemma_code_names_itself(system: UnitSystem)
    ensures
        token_meaning(system.code_text()) == Some(system),
{
}

} // verus!
