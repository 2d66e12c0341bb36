//! Naming the output files.
//!
//! In single-document mode the caller's output path is used as it stands.
//! In multi-document mode the path, which must hold exactly one extension
//! separator, is split there and the current sequence number is woven in:
//! `name.ext` becomes `name-N.ext`.

use vstd::prelude::*;
use vstd::string::{StrSliceExecFns, StringExecFns};

verus! {

/// The decimal digit character for a value below ten.
pub open spec fn spec_digit_char(d: nat) -> char {
    if d == 0 { '0' }
    else if d == 1 { '1' }
    else if d == 2 { '2' }
    else if d == 3 { '3' }
    else if d == 4 { '4' }
    else if d == 5 { '5' }
    else if d == 6 { '6' }
    else if d == 7 { '7' }
    else if d == 8 { '8' }
    else { '9' }
}

/// The decimal digits of a number, most significant first, with no sign
/// and no leading zero (a single zero for zero itself).
pub open spec fn spec_decimal(n: nat) -> Seq<char>
    decreases n,
{
    if n < 10 {
        seq![spec_digit_char(n)]
    } else {
        spec_decimal(n / 10) + seq![spec_digit_char(n % 10)]
    }
}

/// The one-character string for a decimal digit.
fn digit_str(d: u64) -> (s: &'static str)
    requires
        d < 10,
    ensures
        s@ == seq![spec_digit_char(d as nat)],
{
    let s: &'static str = if d == 0 { "0" }
    else if d == 1 { "1" }
    else if d == 2 { "2" }
    else if d == 3 { "3" }
    else if d == 4 { "4" }
    else if d == 5 { "5" }
    else if d == 6 { "6" }
    else if d == 7 { "7" }
    else if d == 8 { "8" }
    else { "9" };
    proof {
        reveal_strlit("0");
        reveal_strlit("1");
        reveal_strlit("2");
        reveal_strlit("3");
        reveal_strlit("4");
        reveal_strlit("5");
        reveal_strlit("6");
        reveal_strlit("7");
        reveal_strlit("8");
        reveal_strlit("9");
        assert(s@ =~= seq![spec_digit_char(d as nat)]);
    }
    s
}

/// Writes a number in decimal.
pub fn decimal_string(n: u64) -> (s: String)
    ensures
        s@ == spec_decimal(n as nat),
    decreases n,
{
    if n < 10 {
        String::from_str(digit_str(n))
    } else {
        let mut s = decimal_string(n / 10);
        s.append(digit_str(n % 10));
        s
    }
}

/// Position `i` holds the only `.` of the string.
pub open spec fn is_only_dot(s: Seq<char>, i: int) -> bool {
    &&& 0 <= i < s.len()
    &&& s[i] == '.'
    &&& forall|j: int| 0 <= j < s.len() && j != i ==> s[j] != '.'
}

/// The string holds exactly one `.`.
pub open spec fn spec_single_dot(s: Seq<char>) -> bool {
    exists|i: int| is_only_dot(s, i)
}

/// The position of the only `.` of a string that has exactly one.
pub open spec fn spec_dot_index(s: Seq<char>) -> int {
    choose|i: int| is_only_dot(s, i)
}

/// Looks for the position of the string's only `.`: the position when there
/// is exactly one, nothing when there is none or more than one.
pub fn find_single_dot(s: &str) -> (r: Option<usize>)
    ensures
        match r {
            Some(i) => is_only_dot(s@, i as int),
            None => !spec_single_dot(s@),
        },
{
    let len = s.unicode_len();
    let mut i: usize = 0;
    let mut found: Option<usize> = None;
    while i < len
        invariant
            i <= len,
            len == s@.len(),
            match found {
                Some(k) => k < i && s@[k as int] == '.'
                    && forall|j: int| 0 <= j < i && j != k ==> s@[j] != '.',
                None => forall|j: int| 0 <= j < i ==> s@[j] != '.',
            },
        decreases len - i,
    {
        let c = s.get_char(i);
        if c == '.' {
            match found {
                None => {
                    found = Some(i);
                },
                Some(k) => {
                    proof {
                        if spec_single_dot(s@) {
                            let w = choose|w: int| is_only_dot(s@, w);
                            assert(is_only_dot(s@, w));
                            assert(s@[k as int] == '.');
                            assert(s@[i as int] == '.');
                            assert(false);
                        }
                    }
                    return None;
                },
            }
        }
        i = i + 1;
    }
    proof {
        match found {
            Some(k) => {
                assert(is_only_dot(s@, k as int));
            },
            None => {
                if spec_single_dot(s@) {
                    let w = choose|w: int| is_only_dot(s@, w);
                    assert(is_only_dot(s@, w));
                    assert(false);
                }
            },
        }
    }
    found
}

/// The name of the file for one saved document. In single-document mode it
/// is the output path itself; in multi-document mode the sequence number is
/// inserted before the extension: `name.ext` becomes `name-N.ext`.
pub open spec fn spec_filename(multi: bool, outfile: Seq<char>, count: nat) -> Seq<char> {
    if multi {
        let i = spec_dot_index(outfile);
        outfile.subrange(0, i) + "-"@ + spec_decimal(count) + "."@
            + outfile.subrange(i + 1, outfile.len() as int)
    } else {
        outfile
    }
}

/// Computes the output filename for the document with the given sequence
/// number, per [`spec_filename`]. In multi-document mode the output path
/// must hold exactly one extension separator.
pub fn determine_filename(multi: bool, outfile: &str, count: u64) -> (name: String)
    requires
        multi ==> spec_single_dot(outfile@),
    ensures
        name@ == spec_filename(multi, outfile@, count as nat),
{
    if multi {
        let len = outfile.unicode_len();
        let idx: usize = match find_single_dot(outfile) {
            Some(i) => i,
            None => {
                proof {
                    assert(false);
                }
                0
            },
        };
        proof {
            assert(is_only_dot(outfile@, idx as int));
            assert(spec_single_dot(outfile@));
            let i0 = spec_dot_index(outfile@);
            assert(is_only_dot(outfile@, i0));
            assert(i0 == idx as int);
        }
        let stem = outfile.substring_char(0, idx);
        let ext = outfile.substring_char(idx + 1, len);
        let num = decimal_string(count);
        let name = String::from_str(stem).concat("-").concat(num.as_str()).concat(".").concat(
            ext,
        );
        proof {
            assert(name@ =~= spec_filename(true, outfile@, count as nat));
        }
        name
    } else {
        String::from_str(outfile)
    }
}

} // verus!
