//! Field identity resolution.
//!
//! Every field of a variant gets exactly one canonical identifier: the
//! declared name when the field is named, and the decimal rendering of the
//! positional index when it is not. The synthesized identifier starts with a
//! digit, so it can never collide with a declared name, and it is a pure
//! function of the index, so repeated runs produce identical output.

use vstd::prelude::*;
use vstd::string::StringExecFns;

verus! {

/// The decimal digit character for `d`, meaningful for `0 <= d <= 9`.
pub open spec fn dec_digit(d: int) -> char {
    if d == 0 {
        '0'
    } else if d == 1 {
        '1'
    } else if d == 2 {
        '2'
    } else if d == 3 {
        '3'
    } else if d == 4 {
        '4'
    } else if d == 5 {
        '5'
    } else if d == 6 {
        '6'
    } else if d == 7 {
        '7'
    } else if d == 8 {
        '8'
    } else {
        '9'
    }
}

/// Whether `c` is one of the ten decimal digit characters.
pub open spec fn is_digit_char(c: char) -> bool {
    ||| c == '0'
    ||| c == '1'
    ||| c == '2'
    ||| c == '3'
    ||| c == '4'
    ||| c == '5'
    ||| c == '6'
    ||| c == '7'
    ||| c == '8'
    ||| c == '9'
}

/// The decimal representation of `n`, most significant digit first, with no
/// leading zeros (a single `'0'` for zero). Meaningful for `n >= 0`.
pub open spec fn dec_seq(n: int) -> Seq<char>
    recommends
        n >= 0,
    decreases n,
{
    if n < 10 {
        seq![dec_digit(n)]
    } else {
        dec_seq(n / 10).push(dec_digit(n % 10))
    }
}

/// The canonical identifier of a field: its declared name when present,
/// otherwise the decimal rendering of its positional index.
pub open spec fn canonical_identity(declared: Option<Seq<char>>, index: int) -> Seq<char> {
    match declared {
        Some(name) => name,
        None => dec_seq(index),
    }
}

/// The view of an optional owned identifier.
pub open spec fn opt_name_view(o: Option<String>) -> Option<Seq<char>> {
    match o {
        Some(s) => Some(s@),
        None => None,
    }
}

/// A name that may stand for a field or variant in generated code: nonempty
/// and not starting with a digit, so it is distinct from every synthesized
/// positional identifier.
pub open spec fn is_declared_name(s: Seq<char>) -> bool {
    s.len() > 0 && !is_digit_char(s[0])
}

fn digit_str(d: usize) -> (r: &'static str)
    requires
        d < 10,
    ensures
        r@ == seq![dec_digit(d as int)],
{
    if d == 0 {
        proof {
            reveal_strlit("0");
            assert("0"@ =~= seq![dec_digit(0)]);
        }
        "0"
    } else if d == 1 {
        proof {
            reveal_strlit("1");
            assert("1"@ =~= seq![dec_digit(1)]);
        }
        "1"
    } else if d == 2 {
        proof {
            reveal_strlit("2");
            assert("2"@ =~= seq![dec_digit(2)]);
        }
        "2"
    } else if d == 3 {
        proof {
            reveal_strlit("3");
            assert("3"@ =~= seq![dec_digit(3)]);
        }
        "3"
    } else if d == 4 {
        proof {
            reveal_strlit("4");
            assert("4"@ =~= seq![dec_digit(4)]);
        }
        "4"
    } else if d == 5 {
        proof {
            reveal_strlit("5");
            assert("5"@ =~= seq![dec_digit(5)]);
        }
        "5"
    } else if d == 6 {
        proof {
            reveal_strlit("6");
            assert("6"@ =~= seq![dec_digit(6)]);
        }
        "6"
    } else if d == 7 {
        proof {
            reveal_strlit("7");
            assert("7"@ =~= seq![dec_digit(7)]);
        }
        "7"
    } else if d == 8 {
        proof {
            reveal_strlit("8");
            assert("8"@ =~= seq![dec_digit(8)]);
        }
        "8"
    } else {
        proof {
            reveal_strlit("9");
            assert("9"@ =~= seq![dec_digit(9)]);
        }
        "9"
    }
}

/// The decimal rendering of `n`, as a fresh owned string.
pub fn decimal_string(n: usize) -> (r: String)
    ensures
        r@ == dec_seq(n as int),
    decreases n,
{
    if n < 10 {
        let s = digit_str(n);
        s.to_owned()
    } else {
        let prefix = decimal_string(n / 10);
        let d = digit_str(n % 10);
        let r = prefix.concat(d);
        proof {
            assert(r@ =~= dec_seq(n as int));
        }
        r
    }
}

/// Resolves the canonical identity of a field from its declared name (absent
/// for positional fields) and its positional index within the variant.
pub fn resolve_identity(declared: &Option<String>, index: usize) -> (r: String)
    ensures
        r@ == canonical_identity(opt_name_view(*declared), index as int),
{
    match declared {
        Some(name) => name.clone(),
        None => decimal_string(index),
    }
}

/// Every synthesized positional identifier starts with a digit and is
/// nonempty.
pub proof fn lemma_dec_seq_shape(n: int)
    requires
        n >= 0,
    ensures
        dec_seq(n).len() >= 1,
        is_digit_char(dec_seq(n)[0]),
    decreases n,
{
    if n >= 10 {
        lemma_dec_seq_shape(n / 10);
    }
}

/// Distinct indices yield distinct positional identifiers.
pub proof fn lemma_dec_seq_injective(a: int, b: int)
    requires
        a >= 0,
        b >= 0,
        dec_seq(a) == dec_seq(b),
    ensures
        a == b,
    decreases a,
{
    if a < 10 && b < 10 {
        assert(dec_seq(a) == seq![dec_digit(a)]);
        assert(dec_seq(b) == seq![dec_digit(b)]);
        assert(dec_seq(a)[0] == dec_digit(a));
        assert(dec_seq(b)[0] == dec_digit(b));
        assert(dec_digit(a) == dec_digit(b));
    } else if a < 10 && b >= 10 {
        lemma_dec_seq_shape(b / 10);
        assert(dec_seq(b).len() >= 2);
    } else if a >= 10 && b < 10 {
        lemma_dec_seq_shape(a / 10);
        assert(dec_seq(a).len() >= 2);
    } else {
        let pa = dec_seq(a / 10);
        let pb = dec_seq(b / 10);
        assert(dec_seq(a) == pa.push(dec_digit(a % 10)));
        assert(dec_seq(b) == pb.push(dec_digit(b % 10)));
        assert(pa.push(dec_digit(a % 10)).last() == dec_digit(a % 10));
        assert(pb.push(dec_digit(b % 10)).last() == dec_digit(b % 10));
        assert(dec_digit(a % 10) == dec_digit(b % 10));
        assert(a % 10 == b % 10);
        assert(pa.push(dec_digit(a % 10)).drop_last() =~= pa);
        assert(pb.push(dec_digit(b % 10)).drop_last() =~= pb);
        assert(pa == pb);
        lemma_dec_seq_injective(a / 10, b / 10);
        assert(a == 10 * (a / 10) + a % 10);
        assert(b == 10 * (b / 10) + b % 10);
    }
}

/// Canonical identities are unique within a variant: two fields at distinct
/// positions whose declared names (when present) are well-formed and
/// distinct never resolve to the same identifier.
pub proof fn lemma_identity_unique(
    a: Option<Seq<char>>,
    i: int,
    b: Option<Seq<char>>,
    j: int,
)
    requires
        0 <= i,
        0 <= j,
        i != j,
        a matches Some(n) ==> is_declared_name(n),
        b matches Some(n) ==> is_declared_name(n),
        (match (a, b) {
            (Some(an), Some(bn)) => an != bn,
            _ => true,
        }),
    ensures
        canonical_identity(a, i) != canonical_identity(b, j),
{
    match (a, b) {
        (Some(_), Some(_)) => {
        }
        (Some(an), None) => {
            lemma_dec_seq_shape(j);
            if an == dec_seq(j) {
                assert(an[0] == dec_seq(j)[0]);
            }
        }
        (None, Some(bn)) => {
            lemma_dec_seq_shape(i);
            if bn == dec_seq(i) {
                assert(bn[0] == dec_seq(i)[0]);
            }
        }
        (None, None) => {
            if dec_seq(i) == dec_seq(j) {
                lemma_dec_seq_injective(i, j);
            }
        }
    }
}

} // verus!

