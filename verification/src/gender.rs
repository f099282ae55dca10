//! The gender enumeration and its case-insensitive parser.

use vstd::prelude::*;
use vstd::string::StrSliceExecFns;
use crate::Error;

verus! {

/// Selects a column of the mortality table.
#[derive(Clone, Copy, Debug, PartialEq, Eq, Structural)]
pub enum Gender {
    Male,
    Female,
}

/// The code point of `c` with an ASCII upper-case letter folded to lower
/// case; any other character is left as it is.
pub open spec fn lower_code(c: char) -> int {
    let n = c as int;
    if 65 <= n && n <= 90 {
        n + 32
    } else {
        n
    }
}

/// Character sequences that are equal up to ASCII case.
pub open spec fn eq_ignore_ascii_case(s: Seq<char>, t: Seq<char>) -> bool {
    &&& s.len() == t.len()
    &&& forall|i: int| 0 <= i < s.len() ==> lower_code(s[i]) == lower_code(t[i])
}

fn lower_code_exec(c: char) -> (r: u32)
    ensures
        r == lower_code(c),
{
    let n = c as u32;
    if 65 <= n && n <= 90 {
        n + 32
    } else {
        n
    }
}

fn str_eq_ignore_ascii_case(s: &str, t: &str) -> (r: bool)
    ensures
        r == eq_ignore_ascii_case(s@, t@),
{
    let sn = s.unicode_len();
    let tn = t.unicode_len();
    if sn != tn {
        return false;
    }
    let mut i: usize = 0;
    while i < sn
        invariant
            0 <= i <= sn,
            sn == s@.len(),
            tn == t@.len(),
            sn == tn,
            forall|j: int| 0 <= j < i ==> lower_code(s@[j]) == lower_code(t@[j]),
        decreases sn - i,
    {
        let sc = lower_code_exec(s.get_char(i));
        let tc = lower_code_exec(t.get_char(i));
        if sc != tc {
            return false;
        }
        i += 1;
    }
    true
}

impl Gender {
    /// Parses "male" or "female", ignoring ASCII case; any other string is
    /// rejected with `Error::InvalidGender`.
    pub fn from_str(s: &str) -> (r: Result<Gender, Error>)
        ensures
            eq_ignore_ascii_case(s@, "male"@) ==> r == Ok::<Gender, Error>(Gender::Male),
            eq_ignore_ascii_case(s@, "female"@) ==> r == Ok::<Gender, Error>(Gender::Female),
            !eq_ignore_ascii_case(s@, "male"@) && !eq_ignore_ascii_case(s@, "female"@)
                ==> r == Err::<Gender, Error>(Error::InvalidGender),
    {
        proof {
            reveal_strlit("male");
            reveal_strlit("female");
        }
        if str_eq_ignore_ascii_case(s, "male") {
            Ok(Gender::Male)
        } else if str_eq_ignore_ascii_case(s, "female") {
            Ok(Gender::Female)
        } else {
            Err(Error::InvalidGender)
        }
    }
}

} // verus!
