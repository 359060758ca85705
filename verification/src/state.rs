//! The hold-state machine: the closed three-value decision model and its
//! wire encoding in the decision store.

use vstd::prelude::*;
use vstd::string::*;

verus! {

/// The decision recorded for one managed payment.
///
/// `Hodl` is the initial state: the payment is kept pending. The only way to
/// leave it is an explicit operator decision, `Accept` or `Reject`.
#[derive(Debug, Clone, Copy, PartialEq, Eq, Structural)]
pub enum Hodlstate {
    Hodl,
    Reject,
    Accept,
}

/// Case-insensitive equality of two characters: equal outright, or equal
/// after folding an ASCII capital letter to its lower-case form.
pub open spec fn ci_char_eq(a: char, b: char) -> bool {
    ||| a == b
    ||| (65 <= a as int <= 90 && a as int + 32 == b as int)
    ||| (65 <= b as int <= 90 && b as int + 32 == a as int)
}

/// Case-insensitive equality of two texts (ASCII folding, position by
/// position).
pub open spec fn ci_eq(s: Seq<char>, t: Seq<char>) -> bool {
    s.len() == t.len() && (forall|i: int| 0 <= i < s.len() ==> ci_char_eq(s[i], t[i]))
}

impl Hodlstate {
    /// The canonical wire text of each state, as written to the decision
    /// store.
    pub open spec fn wire_text(self) -> Seq<char> {
        match self {
            Hodlstate::Hodl => "hodl"@,
            Hodlstate::Reject => "reject"@,
            Hodlstate::Accept => "accept"@,
        }
    }

    /// Which state, if any, a stored text decodes to: the unique state whose
    /// wire text it matches case-insensitively.
    pub open spec fn spec_from_text(t: Seq<char>) -> Option<Hodlstate> {
        if ci_eq(t, Hodlstate::Hodl.wire_text()) {
            Some(Hodlstate::Hodl)
        } else if ci_eq(t, Hodlstate::Reject.wire_text()) {
            Some(Hodlstate::Reject)
        } else if ci_eq(t, Hodlstate::Accept.wire_text()) {
            Some(Hodlstate::Accept)
        } else {
            None
        }
    }

    /// Canonical encoding, used as the value of a decision record.
    pub fn to_string(&self) -> (r: String)
        ensures
            r@ == self.wire_text(),
    {
        match self {
            Hodlstate::Hodl => String::from_str("hodl"),
            Hodlstate::Reject => String::from_str("reject"),
            Hodlstate::Accept => String::from_str("accept"),
        }
    }

    /// Decode a stored text, case-insensitively; any text that matches no
    /// state yields `None` — never a default state.
    pub fn from_str(s: &str) -> (r: Option<Hodlstate>)
        ensures
            r == Self::spec_from_text(s@),
    {
        if eq_ignore_ascii_case(s, "hodl") {
            Some(Hodlstate::Hodl)
        } else if eq_ignore_ascii_case(s, "reject") {
            Some(Hodlstate::Reject)
        } else if eq_ignore_ascii_case(s, "accept") {
            Some(Hodlstate::Accept)
        } else {
            None
        }
    }
}

/// Whether two texts are equal, character by character.
pub(crate) fn str_eq(s: &str, t: &str) -> (r: bool)
    ensures
        r == (s@ == t@),
{
    let n = s.unicode_len();
    let m = t.unicode_len();
    if n != m {
        return false;
    }
    let mut i: usize = 0;
    while i < n
        invariant
            n == s@.len(),
            n == t@.len(),
            i <= n,
            forall|j: int| 0 <= j < i ==> s@[j] == t@[j],
        decreases n - i,
    {
        if s.get_char(i) != t.get_char(i) {
            return false;
        }
        i += 1;
    }
    proof {
        assert(s@ =~= t@);
    }
    true
}

/// Whether two characters are equal up to ASCII case.
fn char_ci_eq(a: char, b: char) -> (r: bool)
    ensures
        r == ci_char_eq(a, b),
{
    if a == b {
        true
    } else {
        let au = a as u32;
        let bu = b as u32;
        (65 <= au && au <= 90 && au + 32 == bu) || (65 <= bu && bu <= 90 && bu + 32 == au)
    }
}

/// Whether two texts are equal up to ASCII case.
fn eq_ignore_ascii_case(s: &str, t: &str) -> (r: bool)
    ensures
        r == ci_eq(s@, t@),
{
    let n = s.unicode_len();
    let m = t.unicode_len();
    if n != m {
        return false;
    }
    let mut i: usize = 0;
    while i < n
        invariant
            n == s@.len(),
            n == t@.len(),
            i <= n,
            forall|j: int| 0 <= j < i ==> ci_char_eq(s@[j], t@[j]),
        decreases n - i,
    {
        let a = s.get_char(i);
        let b = t.get_char(i);
        if !char_ci_eq(a, b) {
            return false;
        }
        i += 1;
    }
    true
}

} // verus!
