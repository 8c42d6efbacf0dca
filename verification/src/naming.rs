//! Where a recording is stored: `<output dir>/<unix seconds at startup>.wav`.

use vstd::prelude::*;
use vstd::string::StringExecFns;

verus! {

/// The character of one decimal digit.
pub open spec fn digit_char(d: nat) -> char {
    if d == 0 {
        '0'
    } else if d == 1 {
        '1'
    } else if d == 2 {
        '2'
    } else if d == 3 {
        '3'
    } else if d == 4 {
        '4'
    } else if d == 5 {
        '5'
    } else if d == 6 {
        '6'
    } else if d == 7 {
        '7'
    } else if d == 8 {
        '8'
    } else {
        '9'
    }
}

/// The digit that a character stands for; anything else counts as zero.
pub open spec fn digit_value(c: char) -> nat {
    if c == '1' {
        1
    } else if c == '2' {
        2
    } else if c == '3' {
        3
    } else if c == '4' {
        4
    } else if c == '5' {
        5
    } else if c == '6' {
        6
    } else if c == '7' {
        7
    } else if c == '8' {
        8
    } else if c == '9' {
        9
    } else {
        0
    }
}

/// A number in decimal notation, most significant digit first, without
/// leading zeros.
pub open spec fn decimal(n: nat) -> Seq<char>
    decreases n,
{
    if n < 10 {
        seq![digit_char(n)]
    } else {
        decimal(n / 10).push(digit_char(n % 10))
    }
}

/// The number that a string of digits denotes.
pub open spec fn decimal_value(digits: Seq<char>) -> nat
    decreases digits.len(),
{
    if digits.len() == 0 {
        0
    } else {
        10 * decimal_value(digits.drop_last()) + digit_value(digits.last())
    }
}

/// The path of the recording that starts at `now` seconds after the epoch.
pub open spec fn file_path(out_dir: Seq<char>, now: nat) -> Seq<char> {
    out_dir + seq!['/'] + decimal(now) + seq!['.', 'w', 'a', 'v']
}

/// The directory that recordings go to when none is configured.
pub open spec fn default_out_dir() -> Seq<char> {
    seq!['/', 't', 'm', 'p']
}

/// Decimal notation denotes the number it was made from, so two numbers with
/// the same notation are the same number.
pub proof fn lemma_decimal_value(n: nat)
    ensures
        decimal_value(decimal(n)) == n,
        decimal(n).len() >= 1,
    decreases n,
{
    if n < 10 {
        assert(decimal(n).drop_last() =~= Seq::<char>::empty());
        assert(decimal_value(decimal(n).drop_last()) == 0);
        assert(decimal(n).last() == digit_char(n));
    } else {
        lemma_decimal_value(n / 10);
        let digits = decimal(n);
        assert(digits.drop_last() =~= decimal(n / 10));
        assert(digits.last() == digit_char(n % 10));
    }
}

/// Whether a character is one of the ten decimal digits.
pub open spec fn is_digit(c: char) -> bool {
    c == '0' || c == '1' || c == '2' || c == '3' || c == '4' || c == '5' || c == '6' || c == '7'
        || c == '8' || c == '9'
}

/// Decimal notation holds digits only, and starts with a zero only for the
/// number zero.
pub proof fn lemma_decimal_digits(n: nat)
    ensures
        forall|i: int| 0 <= i < decimal(n).len() ==> is_digit(#[trigger] decimal(n)[i]),
        decimal(n)[0] == '0' <==> n == 0,
    decreases n,
{
    if n >= 10 {
        lemma_decimal_digits(n / 10);
        lemma_decimal_value(n / 10);
    }
}

/// Recordings that start in different seconds get different paths in the same
/// directory.
pub proof fn lemma_file_path_injective(out_dir: Seq<char>, a: nat, b: nat)
    requires
        file_path(out_dir, a) == file_path(out_dir, b),
    ensures
        a == b,
{
    lemma_decimal_value(a);
    lemma_decimal_value(b);
    let pa = file_path(out_dir, a);
    let pb = file_path(out_dir, b);
    let start = out_dir.len() + 1;
    assert(pa.len() == start + decimal(a).len() + 4);
    assert(pb.len() == start + decimal(b).len() + 4);
    assert(decimal(a).len() == decimal(b).len());
    assert forall|i: int| 0 <= i < decimal(a).len() implies decimal(a)[i] == decimal(b)[i] by {
        assert(pa[start + i] == decimal(a)[i]);
        assert(pb[start + i] == decimal(b)[i]);
    }
    assert(decimal(a) =~= decimal(b));
}

/// The one-character string of a decimal digit.
fn digit_str(d: u64) -> (s: &'static str)
    requires
        d < 10,
    ensures
        s@ == seq![digit_char(d as nat)],
{
    proof {
        reveal_strlit("0");
        reveal_strlit("1");
        reveal_strlit("2");
        reveal_strlit("3");
        reveal_strlit("4");
        reveal_strlit("5");
        reveal_strlit("6");
        reveal_strlit("7");
        reveal_strlit("8");
        reveal_strlit("9");
    }
    let s = if d == 0 {
        "0"
    } else if d == 1 {
        "1"
    } else if d == 2 {
        "2"
    } else if d == 3 {
        "3"
    } else if d == 4 {
        "4"
    } else if d == 5 {
        "5"
    } else if d == 6 {
        "6"
    } else if d == 7 {
        "7"
    } else if d == 8 {
        "8"
    } else {
        "9"
    };
    assert(s@ =~= seq![digit_char(d as nat)]);
    s
}

/// Adds the decimal notation of `n` to the end of `text`.
fn push_decimal(text: &mut String, n: u64)
    ensures
        final(text)@ == old(text)@ + decimal(n as nat),
    decreases n,
{
    if n >= 10 {
        push_decimal(text, n / 10);
    }
    text.append(digit_str(n % 10));
    proof {
        if n >= 10 {
            assert(old(text)@ + decimal((n / 10) as nat) + seq![digit_char((n % 10) as nat)]
                =~= old(text)@ + decimal(n as nat));
        }
    }
}

/// The path of the recording that starts at `now` seconds after the epoch, in
/// the directory `out_dir`.
pub fn out_file(out_dir: &str, now: u64) -> (path: String)
    ensures
        path@ == file_path(out_dir@, now as nat),
{
    let mut path = String::from_str(out_dir);
    proof {
        reveal_strlit("/");
        reveal_strlit(".wav");
    }
    path.append("/");
    push_decimal(&mut path, now);
    path.append(".wav");
    assert(path@ =~= file_path(out_dir@, now as nat)) by {
        assert("/"@ =~= seq!['/']);
        assert(".wav"@ =~= seq!['.', 'w', 'a', 'v']);
    }
    path
}

/// The directory that recordings go to: the configured one, or `/tmp` where
/// none is configured.
pub fn out_dir(configured: Option<String>) -> (dir: String)
    ensures
        dir@ == match configured {
            Some(given) => given@,
            None => default_out_dir(),
        },
{
    match configured {
        Some(given) => given,
        None => {
            proof {
                reveal_strlit("/tmp");
            }
            let dir = String::from_str("/tmp");
            assert(dir@ =~= default_out_dir());
            dir
        },
    }
}

} // verus!
