//! The object-path convention: all question objects live under one fixed
//! root path, and a question with identity `id` lives at `<root>/<id>`.

use vstd::prelude::*;
use vstd::string::StringExecFns;

verus! {

/// The fixed root path under which all question objects live.
pub open spec fn root_path_chars() -> Seq<char> {
    "/org/opensuse/Agama1/Questions"@
}

/// The root path as an owned string.
pub fn root_path() -> (r: String)
    ensures
        r@ == root_path_chars(),
{
    "/org/opensuse/Agama1/Questions".to_owned()
}

/// The character that writes the decimal digit `d`.
pub open spec fn digit_char(d: nat) -> char {
    if d == 0 {
        '0'
    } else if d == 1 {
        '1'
    } else if d == 2 {
        '2'
    } else if d == 3 {
        '3'
    } else if d == 4 {
        '4'
    } else if d == 5 {
        '5'
    } else if d == 6 {
        '6'
    } else if d == 7 {
        '7'
    } else if d == 8 {
        '8'
    } else {
        '9'
    }
}

/// The decimal writing of `n`, most significant digit first, without
/// leading zeros (a single zero for `n == 0`).
pub open spec fn decimal_chars(n: nat) -> Seq<char>
    decreases n,
{
    if n < 10 {
        seq![digit_char(n)]
    } else {
        decimal_chars(n / 10) + seq![digit_char(n % 10)]
    }
}

/// The one-character string that writes the decimal digit `d`.
fn digit_str(d: u32) -> (r: &'static str)
    requires
        d < 10,
    ensures
        r@ == seq![digit_char(d as nat)],
{
    let r: &'static str = if d == 0 {
        "0"
    } else if d == 1 {
        "1"
    } else if d == 2 {
        "2"
    } else if d == 3 {
        "3"
    } else if d == 4 {
        "4"
    } else if d == 5 {
        "5"
    } else if d == 6 {
        "6"
    } else if d == 7 {
        "7"
    } else if d == 8 {
        "8"
    } else {
        "9"
    };
    proof {
        reveal_strlit("0");
        reveal_strlit("1");
        reveal_strlit("2");
        reveal_strlit("3");
        reveal_strlit("4");
        reveal_strlit("5");
        reveal_strlit("6");
        reveal_strlit("7");
        reveal_strlit("8");
        reveal_strlit("9");
        assert(r@ =~= seq![digit_char(d as nat)]);
    }
    r
}

/// Writes `n` in decimal.
pub fn decimal_string(n: u32) -> (r: String)
    ensures
        r@ == decimal_chars(n as nat),
    decreases n,
{
    if n < 10 {
        digit_str(n).to_owned()
    } else {
        proof {
            assert(n / 10 < n && n as nat % 10 < 10) by (nonlinear_arith)
                requires
                    n >= 10,
            ;
        }
        let mut s = decimal_string(n / 10);
        s.append(digit_str(n % 10));
        s
    }
}

/// The path of the question object with identity `id`: the root path, a
/// separator, and the identity in decimal.
pub open spec fn question_path_chars(id: u32) -> Seq<char> {
    root_path_chars() + seq!['/'] + decimal_chars(id as nat)
}

/// Whether `c` may stand inside a path element: a letter, a digit, or an
/// underscore.
pub open spec fn path_element_char(c: char) -> bool {
    ('a' <= c && c <= 'z') || ('A' <= c && c <= 'Z') || ('0' <= c && c <= '9') || c == '_'
}

/// Whether `s` is a well-formed object path: it starts with the separator,
/// does not end with one (unless it is the root path itself), holds no
/// empty element, and every element character is a letter, a digit, or an
/// underscore.
pub open spec fn valid_object_path(s: Seq<char>) -> bool {
    &&& s.len() > 0
    &&& s[0] == '/'
    &&& (s.len() == 1 || s[s.len() - 1] != '/')
    &&& forall|i: int| 0 <= i < s.len() ==> s[i] == '/' || path_element_char(#[trigger] s[i])
    &&& forall|i: int| 0 < i < s.len() && #[trigger] s[i] == '/' ==> s[i - 1] != '/'
}

/// Every character a decimal writing carries is a digit.
pub proof fn lemma_decimal_chars_digits(n: nat)
    ensures
        decimal_chars(n).len() >= 1,
        forall|i: int|
            0 <= i < decimal_chars(n).len() ==> path_element_char(#[trigger] decimal_chars(n)[i])
                && decimal_chars(n)[i] != '/',
    decreases n,
{
    if n < 10 {
    } else {
        lemma_decimal_chars_digits(n / 10);
        assert(n % 10 < 10) by (nonlinear_arith);
    }
}

/// Distinct numbers have distinct decimal writings.
pub proof fn lemma_decimal_injective(a: nat, b: nat)
    requires
        decimal_chars(a) == decimal_chars(b),
    ensures
        a == b,
    decreases a,
{
    lemma_decimal_chars_digits(a);
    lemma_decimal_chars_digits(b);
    if a < 10 && b < 10 {
        assert(decimal_chars(a) == seq![digit_char(a)]);
        assert(decimal_chars(b) == seq![digit_char(b)]);
        assert(seq![digit_char(a)][0] == seq![digit_char(b)][0]);
        assert(digit_char(a) == digit_char(b));
        assert(a == b);
    } else if a < 10 {
        assert(decimal_chars(b).len() >= 2) by {
            lemma_decimal_chars_digits(b / 10);
        }
    } else if b < 10 {
        assert(decimal_chars(a).len() >= 2) by {
            lemma_decimal_chars_digits(a / 10);
        }
    } else {
        assert(decimal_chars(a).last() == digit_char(a % 10));
        assert(decimal_chars(b).last() == digit_char(b % 10));
        assert(a % 10 < 10 && b % 10 < 10) by (nonlinear_arith);
        assert(a % 10 == b % 10);
        assert(decimal_chars(a).drop_last() =~= decimal_chars(a / 10));
        assert(decimal_chars(b).drop_last() =~= decimal_chars(b / 10));
        assert(a / 10 < a) by (nonlinear_arith)
            requires
                a >= 10,
        ;
        lemma_decimal_injective(a / 10, b / 10);
        assert(a == 10 * (a / 10) + a % 10 && b == 10 * (b / 10) + b % 10) by (nonlinear_arith);
    }
}

/// Law: distinct question identities resolve to distinct object paths, so a
/// submission addresses exactly the question it names.
pub proof fn lemma_question_paths_distinct(a: u32, b: u32)
    requires
        a != b,
    ensures
        question_path_chars(a) != question_path_chars(b),
{
    if question_path_chars(a) == question_path_chars(b) {
        let root_len = root_path_chars().len() as int;
        let sa = question_path_chars(a);
        let sb = question_path_chars(b);
        assert(decimal_chars(a as nat) =~= sa.subrange(root_len + 1, sa.len() as int));
        assert(decimal_chars(b as nat) =~= sb.subrange(root_len + 1, sb.len() as int));
        lemma_decimal_injective(a as nat, b as nat);
    }
}

/// Law: the path resolved for every question identity is a well-formed
/// object path.
pub proof fn lemma_question_path_valid(id: u32)
    ensures
        valid_object_path(question_path_chars(id)),
{
    reveal_strlit("/org/opensuse/Agama1/Questions");
    let root = root_path_chars();
    let s = question_path_chars(id);
    let digits = decimal_chars(id as nat);
    lemma_decimal_chars_digits(id as nat);
    assert(forall|i: int|
        0 <= i < root.len() ==> root[i] == '/' || path_element_char(#[trigger] root[i]));
    assert(forall|i: int| 0 < i < root.len() && #[trigger] root[i] == '/' ==> root[i - 1] != '/');
    assert(forall|i: int| 0 <= i < root.len() ==> #[trigger] s[i] == root[i]);
    assert(s[root.len() as int] == '/');
    assert(forall|i: int|
        root.len() + 1 <= i < s.len() ==> #[trigger] s[i] == digits[i - root.len() - 1]);
    assert(s[s.len() - 1] != '/');
    assert(forall|i: int| 0 <= i < s.len() ==> s[i] == '/' || path_element_char(#[trigger] s[i]));
    assert(forall|i: int| 0 < i < s.len() && #[trigger] s[i] == '/' ==> s[i - 1] != '/');
}

/// Resolves a question identity to the path of its object.
pub fn question_path(id: u32) -> (r: String)
    ensures
        r@ == question_path_chars(id),
{
    let mut s = root_path();
    s.append("/");
    proof {
        reveal_strlit("/");
        assert("/"@ =~= seq!['/']);
    }
    let digits = decimal_string(id);
    s.append(digits.as_str());
    proof {
        assert(s@ =~= question_path_chars(id));
    }
    s
}

} // verus!
