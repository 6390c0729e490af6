//! Checking of the command-line values that the server validates itself.

use vstd::prelude::*;

verus! {

/// The smallest receive buffer the server accepts, in bytes.
pub const MIN_RECV_BUFFER_SIZE: usize = 512;

pub open spec fn is_decimal_digit(c: char) -> bool {
    '0' <= c && c <= '9'
}

pub open spec fn all_decimal_digits(s: Seq<char>) -> bool {
    forall|i: int| 0 <= i < s.len() ==> is_decimal_digit(#[trigger] s[i])
}

pub open spec fn digit_value(c: char) -> nat {
    (c as int - '0' as int) as nat
}

/// The number that a string of decimal digits spells, most significant first.
pub open spec fn decimal_value(s: Seq<char>) -> nat
    decreases s.len(),
{
    if s.len() == 0 {
        0
    } else {
        decimal_value(s.drop_last()) * 10 + digit_value(s.last())
    }
}

/// What `usize::from_str` accepts, as std documents it for unsigned types:
/// an optional `+` followed by one or more decimal digits and nothing else,
/// whose value fits in a `usize`.
pub open spec fn parsed_usize(s: Seq<char>) -> Option<usize> {
    let body = if s.len() > 0 && s[0] == '+' {
        s.drop_first()
    } else {
        s
    };
    if body.len() > 0 && all_decimal_digits(body) && decimal_value(body) <= usize::MAX {
        Some(decimal_value(body) as usize)
    } else {
        None
    }
}

/// The decimal digit for `d`.
pub open spec fn digit_char(d: nat) -> char {
    if d == 0 { '0' }
    else if d == 1 { '1' }
    else if d == 2 { '2' }
    else if d == 3 { '3' }
    else if d == 4 { '4' }
    else if d == 5 { '5' }
    else if d == 6 { '6' }
    else if d == 7 { '7' }
    else if d == 8 { '8' }
    else { '9' }
}

/// How `Display` writes an unsigned integer: its decimal digits, most
/// significant first, with no leading zeros (`0` is written `0`).
pub open spec fn decimal_text(n: nat) -> Seq<char>
    decreases n,
{
    if n < 10 {
        seq![digit_char(n)]
    } else {
        decimal_text(n / 10).push(digit_char(n % 10))
    }
}

/// The message for a value that is not a number.
pub open spec fn not_a_number_message(s: Seq<char>) -> Seq<char> {
    "'"@ + s + "' is not a valid number"@
}

/// The message for a buffer size under the minimum.
pub open spec fn too_small_message(n: usize) -> Seq<char> {
    "recv-buffer-size must be at least 512 bytes (got "@ + decimal_text(n as nat) + ")"@
}

proof fn lemma_decimal_value_grows(s: Seq<char>, i: int)
    requires
        0 <= i <= s.len(),
        all_decimal_digits(s),
    ensures
        decimal_value(s.take(i)) <= decimal_value(s),
    decreases s.len() - i,
{
    if i < s.len() {
        lemma_decimal_value_grows(s, i + 1);
        assert(s.take(i + 1).drop_last() =~= s.take(i));
        assert(s.take(i + 1).last() == s[i]);
    } else {
        assert(s.take(i) =~= s);
    }
}

/// Reads a `usize` from text with the rules of `usize::from_str`.
pub fn parse_usize(s: &str) -> (r: Option<usize>)
    ensures
        r == parsed_usize(s@),
{
    let len = s.unicode_len();
    let mut start: usize = 0;
    if len > 0 && s.get_char(0) == '+' {
        start = 1;
    }
    let ghost body = if s@.len() > 0 && s@[0] == '+' {
        s@.drop_first()
    } else {
        s@
    };
    assert(body =~= s@.subrange(start as int, len as int));
    if start >= len {
        return None;
    }
    let mut value: usize = 0;
    let mut i: usize = start;
    while i < len
        invariant
            len == s@.len(),
            start <= i <= len,
            body =~= s@.subrange(start as int, len as int),
            body == (if s@.len() > 0 && s@[0] == '+' {
                s@.drop_first()
            } else {
                s@
            }),
            body.len() > 0,
            all_decimal_digits(body.take(i - start)),
            value as nat == decimal_value(body.take(i - start)),
        decreases len - i,
    {
        let c = s.get_char(i);
        let ghost k: int = i - start;
        assert(body[k] == c);
        if c < '0' || c > '9' {
            assert(!all_decimal_digits(body));
            return None;
        }
        let d: usize = (c as u32 - '0' as u32) as usize;
        assert(body.take(k + 1).drop_last() =~= body.take(k));
        assert(all_decimal_digits(body.take(k + 1)));
        if value > (usize::MAX - d) / 10 {
            proof {
                assert(decimal_value(body.take(k + 1)) == value * 10 + d);
                assert(value * 10 + d > usize::MAX) by (nonlinear_arith)
                    requires
                        value > (usize::MAX - d) / 10,
                        d <= 9,
                ;
                if all_decimal_digits(body) {
                    lemma_decimal_value_grows(body, k + 1);
                }
            }
            return None;
        }
        assert(value * 10 + d <= usize::MAX) by (nonlinear_arith)
            requires
                value <= (usize::MAX - d) / 10,
                d <= 9,
        ;
        value = value * 10 + d;
        i = i + 1;
    }
    assert(body.take(i - start) =~= body);
    Some(value)
}

fn digit_str(d: usize) -> (r: &'static str)
    requires
        d < 10,
    ensures
        r@ == seq![digit_char(d as nat)],
{
    proof {
        reveal_strlit("0");
        reveal_strlit("1");
        reveal_strlit("2");
        reveal_strlit("3");
        reveal_strlit("4");
        reveal_strlit("5");
        reveal_strlit("6");
        reveal_strlit("7");
        reveal_strlit("8");
        reveal_strlit("9");
    }
    if d == 0 { "0" }
    else if d == 1 { "1" }
    else if d == 2 { "2" }
    else if d == 3 { "3" }
    else if d == 4 { "4" }
    else if d == 5 { "5" }
    else if d == 6 { "6" }
    else if d == 7 { "7" }
    else if d == 8 { "8" }
    else { "9" }
}

/// Writes `n` in decimal, as `Display` does.
pub fn decimal_string(n: usize) -> (r: String)
    ensures
        r@ == decimal_text(n as nat),
    decreases n,
{
    if n < 10 {
        String::from_str(digit_str(n))
    } else {
        let mut s = decimal_string(n / 10);
        s.append(digit_str(n % 10));
        s
    }
}

/// What checking the receive buffer size gives: the size where the text is a
/// number of at least 512, else the message that says which rule it broke.
pub open spec fn buffer_size_outcome(s: Seq<char>) -> Result<usize, Seq<char>> {
    match parsed_usize(s) {
        None => Err(not_a_number_message(s)),
        Some(n) => if n < MIN_RECV_BUFFER_SIZE {
            Err(too_small_message(n))
        } else {
            Ok(n)
        },
    }
}

/// Checks the receive buffer size given on the command line: a number of at
/// least 512 bytes. The error says which rule the text broke.
pub fn parse_buffer_size(s: &str) -> (r: Result<usize, String>)
    ensures
        match r {
            Ok(n) => buffer_size_outcome(s@) == Ok::<usize, Seq<char>>(n),
            Err(msg) => buffer_size_outcome(s@) == Err::<usize, Seq<char>>(msg@),
        },
{
    match parse_usize(s) {
        None => {
            let mut msg = String::from_str("'");
            msg.append(s);
            msg.append("' is not a valid number");
            Err(msg)
        },
        Some(n) => {
            if n < MIN_RECV_BUFFER_SIZE {
                let mut msg = String::from_str("recv-buffer-size must be at least 512 bytes (got ");
                let digits = decimal_string(n);
                msg.append(digits.as_str());
                msg.append(")");
                Err(msg)
            } else {
                Ok(n)
            }
        },
    }
}

} // verus!
