//! Names for the entries that a test case creates: one per count, never the
//! same for two counts.

use vstd::prelude::*;
use vstd::string::*;
use vstd::utf8::is_ascii_chars;

verus! {

/// The decimal digit for `d`, for `d` below ten.
pub open spec fn digit(d: nat) -> char {
    if d == 0 {
        '0'
    } else if d == 1 {
        '1'
    } else if d == 2 {
        '2'
    } else if d == 3 {
        '3'
    } else if d == 4 {
        '4'
    } else if d == 5 {
        '5'
    } else if d == 6 {
        '6'
    } else if d == 7 {
        '7'
    } else if d == 8 {
        '8'
    } else {
        '9'
    }
}

/// The number that a decimal digit stands for; zero for any other character.
pub open spec fn digit_value(c: char) -> nat {
    if c == '1' {
        1
    } else if c == '2' {
        2
    } else if c == '3' {
        3
    } else if c == '4' {
        4
    } else if c == '5' {
        5
    } else if c == '6' {
        6
    } else if c == '7' {
        7
    } else if c == '8' {
        8
    } else if c == '9' {
        9
    } else {
        0
    }
}

/// `n` in decimal, without leading zeros.
pub open spec fn decimal(n: nat) -> Seq<char>
    decreases n,
{
    if n < 10 {
        seq![digit(n)]
    } else {
        decimal(n / 10).push(digit(n % 10))
    }
}

/// The number that a string of decimal digits stands for.
pub open spec fn decimal_value(s: Seq<char>) -> nat
    decreases s.len(),
{
    if s.len() == 0 {
        0
    } else {
        10 * decimal_value(s.drop_last()) + digit_value(s.last())
    }
}

/// What precedes the count in a generated name.
pub open spec fn name_prefix() -> Seq<char> {
    "pjdfstest_"@
}

/// The name generated for `count`.
pub open spec fn generated_name(count: nat) -> Seq<char> {
    name_prefix() + decimal(count)
}

/// `name` cut or filled with `x` to exactly `len` characters.
pub open spec fn fitted(name: Seq<char>, len: nat) -> Seq<char> {
    if name.len() >= len {
        name.take(len as int)
    } else {
        name + Seq::new((len - name.len()) as nat, |i: int| 'x')
    }
}

/// The path of the entry `name` in the directory `dir`.
pub open spec fn joined(dir: Seq<char>, name: Seq<char>) -> Seq<char> {
    dir + seq!['/'] + name
}

/// Reading a number back from its decimal form gives the number.
pub proof fn lemma_decimal_value(n: nat)
    ensures
        decimal_value(decimal(n)) == n,
        decimal(n).len() >= 1,
    decreases n,
{
    if n < 10 {
        let s = decimal(n);
        assert(s.drop_last().len() == 0);
        assert(decimal_value(s.drop_last()) == 0);
        assert(s.last() == digit(n));
    } else {
        lemma_decimal_value(n / 10);
        let s = decimal(n);
        assert(s.drop_last() =~= decimal(n / 10));
        assert(s.last() == digit(n % 10));
    }
}

/// Two counts never have the same decimal form.
pub proof fn lemma_decimal_distinct(a: nat, b: nat)
    requires
        a != b,
    ensures
        decimal(a) != decimal(b),
{
    lemma_decimal_value(a);
    lemma_decimal_value(b);
}

/// Two counts never get the same generated name.
pub proof fn lemma_generated_names_distinct(a: nat, b: nat)
    requires
        a != b,
    ensures
        generated_name(a) != generated_name(b),
{
    lemma_decimal_distinct(a, b);
    let p = name_prefix();
    assert(generated_name(a).skip(p.len() as int) =~= decimal(a));
    assert(generated_name(b).skip(p.len() as int) =~= decimal(b));
}

/// In one directory, two names never give the same path.
pub proof fn lemma_joined_distinct(dir: Seq<char>, a: Seq<char>, b: Seq<char>)
    requires
        a != b,
    ensures
        joined(dir, a) != joined(dir, b),
{
    assert(joined(dir, a).skip(dir.len() as int + 1) =~= a);
    assert(joined(dir, b).skip(dir.len() as int + 1) =~= b);
}

/// A decimal form holds ASCII characters only.
pub proof fn lemma_decimal_is_ascii(n: nat)
    ensures
        is_ascii_chars(decimal(n)),
    decreases n,
{
    if n >= 10 {
        lemma_decimal_is_ascii(n / 10);
    }
    assert forall|i: int| 0 <= i < decimal(n).len() implies '\0' <= #[trigger] decimal(n)[i]
        <= '\u{7f}' by {
        if n >= 10 && i < decimal(n / 10).len() {
            assert(decimal(n)[i] == decimal(n / 10)[i]);
        }
    }
}

/// A generated name, cut or filled to any length, holds ASCII characters
/// only: it takes as many bytes as it has characters.
pub proof fn lemma_fitted_name_is_ascii(count: nat, len: nat)
    ensures
        is_ascii_chars(generated_name(count)),
        is_ascii_chars(fitted(generated_name(count), len)),
        fitted(generated_name(count), len).len() == len,
{
    reveal_strlit("pjdfstest_");
    lemma_decimal_is_ascii(count);
    let name = generated_name(count);
    assert forall|i: int| 0 <= i < name.len() implies '\0' <= #[trigger] name[i] <= '\u{7f}' by {
        if i >= name_prefix().len() {
            assert(name[i] == decimal(count)[i - name_prefix().len()]);
        }
    }
    let out = fitted(name, len);
    assert forall|i: int| 0 <= i < out.len() implies '\0' <= #[trigger] out[i] <= '\u{7f}' by {
        if i < name.len() {
            assert(out[i] == name[i]);
        }
    }
}

/// The one-character string for a decimal digit.
fn digit_str(d: u64) -> (s: &'static str)
    requires
        d < 10,
    ensures
        s@ == seq![digit(d as nat)],
{
    proof {
        reveal_strlit("0");
        reveal_strlit("1");
        reveal_strlit("2");
        reveal_strlit("3");
        reveal_strlit("4");
        reveal_strlit("5");
        reveal_strlit("6");
        reveal_strlit("7");
        reveal_strlit("8");
        reveal_strlit("9");
    }
    let s: &'static str = if d == 0 {
        "0"
    } else if d == 1 {
        "1"
    } else if d == 2 {
        "2"
    } else if d == 3 {
        "3"
    } else if d == 4 {
        "4"
    } else if d == 5 {
        "5"
    } else if d == 6 {
        "6"
    } else if d == 7 {
        "7"
    } else if d == 8 {
        "8"
    } else {
        "9"
    };
    assert(s@ =~= seq![digit(d as nat)]);
    s
}

/// Writes `n` in decimal, without leading zeros.
pub fn to_decimal(n: u64) -> (text: String)
    ensures
        text@ == decimal(n as nat),
    decreases n,
{
    if n < 10 {
        digit_str(n).to_owned()
    } else {
        let mut text: String = to_decimal(n / 10);
        text.append(digit_str(n % 10));
        text
    }
}

/// The name generated for `count`.
pub fn name_for(count: u64) -> (name: String)
    ensures
        name@ == generated_name(count as nat),
{
    let mut name: String = "pjdfstest_".to_owned();
    let digits: String = to_decimal(count);
    name.append(digits.as_str());
    name
}

/// Cuts `name`, or fills it with `x`, to exactly `len` characters.
pub fn fit(name: &str, len: usize) -> (out: String)
    ensures
        out@ == fitted(name@, len as nat),
        out@.len() == len,
{
    let have: usize = name.unicode_len();
    if have >= len {
        name.substring_char(0, len).to_owned()
    } else {
        let mut out: String = name.to_owned();
        let mut filled: usize = have;
        while filled < len
            invariant
                have <= filled <= len,
                have == name@.len(),
                out@ == name@ + Seq::new((filled - have) as nat, |i: int| 'x'),
            decreases len - filled,
        {
            proof {
                reveal_strlit("x");
            }
            out.append("x");
            assert(out@ =~= name@ + Seq::new((filled + 1 - have) as nat, |i: int| 'x'));
            filled = filled + 1;
        }
        out
    }
}

/// The path of the entry `name` in the directory `dir`.
pub fn join(dir: &str, name: &str) -> (path: String)
    ensures
        path@ == joined(dir@, name@),
{
    proof {
        reveal_strlit("/");
    }
    let mut path: String = dir.to_owned();
    path.append("/");
    assert(path@ =~= dir@ + seq!['/']);
    path.append(name);
    path
}

} // verus!
