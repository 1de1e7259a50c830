//! Small verified string utilities: decimal rendering, character maps,
//! joining, and a prefix test, used by the resolution engine and the
//! emitters.

use vstd::prelude::*;

verus! {

/// Relies on `String::push`: appends exactly one character at the end.
#[verifier::external_body]
pub(crate) fn push_char(s: &mut String, c: char)
    ensures
        final(s)@ == old(s)@.push(c),
{
    s.push(c);
}

/// Equality of two string slices, stated over their character sequences.
pub fn str_equal(a: &str, b: &str) -> (r: bool)
    ensures
        r == (a@ == b@),
{
    let sa: String = a.to_owned();
    let sb: String = b.to_owned();
    sa == sb
}

/// The character for one decimal digit.
pub open spec fn digit_char(d: nat) -> char {
    if d == 0 {
        '0'
    } else if d == 1 {
        '1'
    } else if d == 2 {
        '2'
    } else if d == 3 {
        '3'
    } else if d == 4 {
        '4'
    } else if d == 5 {
        '5'
    } else if d == 6 {
        '6'
    } else if d == 7 {
        '7'
    } else if d == 8 {
        '8'
    } else {
        '9'
    }
}

/// Decimal representation of a number, most significant digit first.
pub open spec fn dec_digits(n: nat) -> Seq<char>
    decreases n,
{
    if n < 10 {
        seq![digit_char(n)]
    } else {
        dec_digits(n / 10).push(digit_char(n % 10))
    }
}

fn exec_digit_char(d: u64) -> (c: char)
    requires
        d < 10,
    ensures
        c == digit_char(d as nat),
{
    match d {
        0 => '0',
        1 => '1',
        2 => '2',
        3 => '3',
        4 => '4',
        5 => '5',
        6 => '6',
        7 => '7',
        8 => '8',
        _ => '9',
    }
}

/// Renders a number in decimal.
pub fn u64_to_dec(n: u64) -> (r: String)
    ensures
        r@ == dec_digits(n as nat),
    decreases n,
{
    if n < 10 {
        let mut s = String::new();
        push_char(&mut s, exec_digit_char(n));
        proof {
            assert(s@ =~= seq![digit_char(n as nat)]);
        }
        s
    } else {
        let mut s = u64_to_dec(n / 10);
        push_char(&mut s, exec_digit_char(n % 10));
        s
    }
}

/// Whether a character is a decimal digit.
pub open spec fn is_dec_digit(c: char) -> bool {
    digit_val(c) < 10
}

/// Which digit a character is, ten when it is none.
pub open spec fn digit_val(c: char) -> nat {
    if c == '0' {
        0
    } else if c == '1' {
        1
    } else if c == '2' {
        2
    } else if c == '3' {
        3
    } else if c == '4' {
        4
    } else if c == '5' {
        5
    } else if c == '6' {
        6
    } else if c == '7' {
        7
    } else if c == '8' {
        8
    } else if c == '9' {
        9
    } else {
        10
    }
}

/// A nonempty string of decimal digits.
pub open spec fn is_digit_seq(s: Seq<char>) -> bool {
    s.len() >= 1 && forall|i: int| 0 <= i < s.len() ==> is_dec_digit(#[trigger] s[i])
}

/// The number a string of digits denotes.
pub open spec fn dec_value(s: Seq<char>) -> nat
    decreases s.len(),
{
    if s.len() == 0 {
        0
    } else {
        dec_value(s.drop_last()) * 10 + digit_val(s.last())
    }
}

/// Reading more digits never shrinks the value.
pub proof fn lemma_dec_value_take_grows(s: Seq<char>, i: int, j: int)
    requires
        0 <= i <= j <= s.len(),
    ensures
        dec_value(s.take(i)) <= dec_value(s.take(j)),
    decreases j - i,
{
    if i < j {
        lemma_dec_value_take_grows(s, i, j - 1);
        assert(s.take(j).drop_last() =~= s.take(j - 1));
        assert(dec_value(s.take(j)) == dec_value(s.take(j - 1)) * 10 + digit_val(s.take(j).last()));
    }
}

/// A decimal rendering consists of digits.
pub proof fn lemma_dec_digits_are_digits(n: nat)
    ensures
        is_digit_seq(dec_digits(n)),
    decreases n,
{
    if n < 10 {
        assert(digit_val(digit_char(n)) == n);
    } else {
        lemma_dec_digits_are_digits(n / 10);
        assert(digit_val(digit_char(n % 10)) == n % 10);
        assert(forall|i: int|
            0 <= i < dec_digits(n / 10).len() ==> is_dec_digit(#[trigger] dec_digits(n)[i]));
    }
}

/// Reading a decimal rendering back gives the number.
pub proof fn lemma_dec_value_of_digits(n: nat)
    ensures
        dec_value(dec_digits(n)) == n,
    decreases n,
{
    if n < 10 {
        assert(dec_digits(n).drop_last() =~= Seq::<char>::empty());
        assert(dec_value(Seq::<char>::empty()) == 0);
        assert(dec_digits(n).last() == digit_char(n));
        assert(digit_val(digit_char(n)) == n);
    } else {
        lemma_dec_value_of_digits(n / 10);
        assert(dec_digits(n).drop_last() =~= dec_digits(n / 10));
        assert(dec_digits(n).last() == digit_char(n % 10));
        assert(digit_val(digit_char(n % 10)) == n % 10);
        assert(dec_value(dec_digits(n)) == (n / 10) * 10 + n % 10);
        assert(n == (n / 10) * 10 + n % 10) by (nonlinear_arith);
    }
}

fn exec_digit_val(c: char) -> (d: u64)
    ensures
        d as nat == digit_val(c),
{
    match c {
        '0' => 0,
        '1' => 1,
        '2' => 2,
        '3' => 3,
        '4' => 4,
        '5' => 5,
        '6' => 6,
        '7' => 7,
        '8' => 8,
        '9' => 9,
        _ => 10,
    }
}

/// Reads a decimal number: `Some` exactly when the string is one or more
/// digits whose value fits.
pub fn parse_u64_dec(s: &str) -> (r: Option<u64>)
    ensures
        match r {
            Some(v) => is_digit_seq(s@) && v as nat == dec_value(s@),
            None => !is_digit_seq(s@) || dec_value(s@) > u64::MAX,
        },
{
    let n = s.unicode_len();
    if n == 0 {
        return None;
    }
    let mut acc: u64 = 0;
    let mut i: usize = 0;
    while i < n
        invariant
            i <= n,
            n == s@.len(),
            n >= 1,
            acc as nat == dec_value(s@.take(i as int)),
            forall|j: int| 0 <= j < i ==> is_dec_digit(#[trigger] s@[j]),
        decreases n - i,
    {
        let c = s.get_char(i);
        let d = exec_digit_val(c);
        if d == 10 {
            proof {
                assert(!is_dec_digit(s@[i as int]));
            }
            return None;
        }
        proof {
            assert(s@.take(i as int + 1).drop_last() =~= s@.take(i as int));
        }
        let scaled = match acc.checked_mul(10) {
            Some(x) => x,
            None => {
                proof {
                    lemma_dec_value_take_grows(s@, i as int + 1, n as int);
                    assert(s@.take(n as int) =~= s@);
                }
                return None;
            },
        };
        acc = match scaled.checked_add(d) {
            Some(x) => x,
            None => {
                proof {
                    lemma_dec_value_take_grows(s@, i as int + 1, n as int);
                    assert(s@.take(n as int) =~= s@);
                }
                return None;
            },
        };
        i = i + 1;
    }
    proof {
        assert(s@.take(n as int) =~= s@);
    }
    Some(acc)
}

/// Replaces every space by a tilde, as LaTeX non-breaking spaces in names.
pub open spec fn spec_tilde(s: Seq<char>) -> Seq<char> {
    s.map_values(|c: char| if c == ' ' { '~' } else { c })
}

/// Rewrites a name with `~` in place of each space.
pub fn tilde_name(s: &str) -> (r: String)
    ensures
        r@ == spec_tilde(s@),
{
    let n = s.unicode_len();
    let mut r = String::new();
    let mut i: usize = 0;
    while i < n
        invariant
            i <= n,
            n == s@.len(),
            r@ == spec_tilde(s@.take(i as int)),
        decreases n - i,
    {
        let c = s.get_char(i);
        if c == ' ' {
            push_char(&mut r, '~');
        } else {
            push_char(&mut r, c);
        }
        proof {
            assert(r@ =~= spec_tilde(s@.take(i as int + 1)));
        }
        i = i + 1;
    }
    proof {
        assert(s@.take(n as int) =~= s@);
    }
    r
}

/// Replaces every double quote by `%22`, keeping every other character.
pub open spec fn spec_escape_quotes(s: Seq<char>) -> Seq<char>
    decreases s.len(),
{
    if s.len() == 0 {
        Seq::empty()
    } else {
        spec_escape_quotes(s.drop_last()) + (if s.last() == '"' {
            seq!['%', '2', '2']
        } else {
            seq![s.last()]
        })
    }
}

/// Escapes double quotes in a label so it can stand inside an attribute.
pub fn escape_quotes(s: &str) -> (r: String)
    ensures
        r@ == spec_escape_quotes(s@),
{
    let n = s.unicode_len();
    let mut r = String::new();
    let mut i: usize = 0;
    while i < n
        invariant
            i <= n,
            n == s@.len(),
            r@ == spec_escape_quotes(s@.take(i as int)),
        decreases n - i,
    {
        let c = s.get_char(i);
        if c == '"' {
            push_char(&mut r, '%');
            push_char(&mut r, '2');
            push_char(&mut r, '2');
        } else {
            push_char(&mut r, c);
        }
        proof {
            assert(s@.take(i as int + 1).drop_last() =~= s@.take(i as int));
            assert(r@ =~= spec_escape_quotes(s@.take(i as int + 1)));
        }
        i = i + 1;
    }
    proof {
        assert(s@.take(n as int) =~= s@);
    }
    r
}

/// The uppercase equivalent of a string of characters.
pub uninterp spec fn upper_of(s: Seq<char>) -> Seq<char>;

/// Relies on `str::to_uppercase`: the uppercase equivalent, a function
/// of the characters alone.
#[verifier::external_body]
pub(crate) fn to_upper(s: &str) -> (r: String)
    ensures
        r@ == upper_of(s@),
{
    s.to_uppercase()
}

/// The items joined with the separator between neighbours.
pub open spec fn spec_join(items: Seq<Seq<char>>, sep: Seq<char>) -> Seq<char>
    decreases items.len(),
{
    if items.len() == 0 {
        Seq::empty()
    } else if items.len() == 1 {
        items[0]
    } else {
        spec_join(items.drop_last(), sep) + sep + items.last()
    }
}

/// Joins the strings with the separator between neighbours.
pub fn join_strings(items: &Vec<String>, sep: &str) -> (r: String)
    ensures
        r@ == spec_join(items.deep_view(), sep@),
{
    let mut r = String::new();
    let mut i: usize = 0;
    while i < items.len()
        invariant
            i <= items.len(),
            r@ == spec_join(items.deep_view().take(i as int), sep@),
        decreases items.len() - i,
    {
        if i > 0 {
            r.append(sep);
        }
        r.append(items[i].as_str());
        proof {
            assert(items.deep_view().take(i as int + 1).drop_last() =~= items.deep_view().take(
                i as int,
            ));
            assert(r@ =~= spec_join(items.deep_view().take(i as int + 1), sep@));
        }
        i = i + 1;
    }
    proof {
        assert(items.deep_view().take(items.len() as int) =~= items.deep_view());
    }
    r
}

} // verus!
