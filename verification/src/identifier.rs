//! Per-notification identifiers for the macOS backend.
//!
//! A unique identifier per notification keeps notifications independent:
//! two panes ringing show two notifications, and closing a handle withdraws
//! exactly its own one. Reusing an identifier would make a new request
//! silently replace the previous notification.
use vstd::prelude::*;

verus! {

/// The character of decimal digit `d`.
pub open spec fn digit_char(d: nat) -> char {
    if d == 0 {
        '0'
    } else if d == 1 {
        '1'
    } else if d == 2 {
        '2'
    } else if d == 3 {
        '3'
    } else if d == 4 {
        '4'
    } else if d == 5 {
        '5'
    } else if d == 6 {
        '6'
    } else if d == 7 {
        '7'
    } else if d == 8 {
        '8'
    } else {
        '9'
    }
}

/// The digit a character stands for.
pub open spec fn digit_value(c: char) -> nat {
    if c == '1' {
        1
    } else if c == '2' {
        2
    } else if c == '3' {
        3
    } else if c == '4' {
        4
    } else if c == '5' {
        5
    } else if c == '6' {
        6
    } else if c == '7' {
        7
    } else if c == '8' {
        8
    } else if c == '9' {
        9
    } else {
        0
    }
}

/// `n` in decimal, without leading zeros.
pub open spec fn decimal(n: nat) -> Seq<char>
    decreases n,
{
    if n < 10 {
        seq![digit_char(n)]
    } else {
        decimal(n / 10).push(digit_char(n % 10))
    }
}

/// The number a string of decimal digits spells.
pub open spec fn decimal_value(s: Seq<char>) -> nat
    decreases s.len(),
{
    if s.len() == 0 {
        0
    } else {
        decimal_value(s.drop_last()) * 10 + digit_value(s.last())
    }
}

/// The identifier of the notification numbered `n`.
pub open spec fn identifier_view(n: u64) -> Seq<char> {
    "rio-notification-"@ + decimal(n as nat)
}

/// Reading a number back from its decimal spelling gives the number.
pub proof fn lemma_decimal_roundtrip(n: nat)
    ensures
        decimal_value(decimal(n)) == n,
    decreases n,
{
    if n < 10 {
        assert(decimal(n).drop_last() =~= Seq::<char>::empty());
        assert(digit_value(digit_char(n)) == n);
        let d = decimal(n);
        assert(decimal_value(d) == decimal_value(d.drop_last()) * 10 + digit_value(d.last()));
    } else {
        lemma_decimal_roundtrip(n / 10);
        assert(decimal(n).drop_last() =~= decimal(n / 10));
        assert(digit_value(digit_char(n % 10)) == n % 10);
        assert((n / 10) * 10 + n % 10 == n) by (nonlinear_arith);
        let d = decimal(n);
        assert(d.last() == digit_char(n % 10));
        assert(decimal_value(d) == decimal_value(d.drop_last()) * 10 + digit_value(d.last()));
    }
}

/// Different numbers give different identifiers.
pub proof fn law_identifiers_distinct(a: u64, b: u64)
    requires
        a != b,
    ensures
        identifier_view(a) != identifier_view(b),
{
    let prefix = "rio-notification-"@;
    if identifier_view(a) == identifier_view(b) {
        assert(identifier_view(a).skip(prefix.len() as int) =~= decimal(a as nat));
        assert(identifier_view(b).skip(prefix.len() as int) =~= decimal(b as nat));
        lemma_decimal_roundtrip(a as nat);
        lemma_decimal_roundtrip(b as nat);
    }
}

/// An identifier is `rio-notification-` followed by digits that read back
/// as the notification's number, without a leading zero.
pub proof fn law_identifier_spells_number(n: u64)
    ensures
        identifier_view(n).len() > 17,
        identifier_view(n).subrange(0, 17) == seq![
            'r', 'i', 'o', '-', 'n', 'o', 't', 'i', 'f', 'i', 'c', 'a', 't', 'i', 'o', 'n', '-'
        ],
        decimal_value(identifier_view(n).skip(17)) == n,
        identifier_view(n).len() > 18 ==> identifier_view(n)[17] != '0',
{
    reveal_strlit("rio-notification-");
    let prefix = "rio-notification-"@;
    assert(prefix.len() == 17);
    assert(identifier_view(n).subrange(0, 17) =~= prefix);
    assert(identifier_view(n).skip(17) =~= decimal(n as nat));
    lemma_decimal_roundtrip(n as nat);
    lemma_decimal_leading(n as nat);
}

proof fn lemma_decimal_leading(n: nat)
    ensures
        decimal(n).len() >= 1,
        decimal(n).len() > 1 ==> decimal(n)[0] != '0',
    decreases n,
{
    if n >= 10 {
        lemma_decimal_leading(n / 10);
        let d = decimal(n / 10);
        assert(decimal(n) == d.push(digit_char(n % 10)));
        assert(decimal(n)[0] == d[0]);
        if n / 10 < 10 {
            assert(n / 10 >= 1);
            assert(d[0] == digit_char(n / 10));
        } else {
            assert(d == decimal(n / 10 / 10).push(digit_char(n / 10 % 10)));
        }
    }
}

/// Appends decimal digit `d`.
fn push_digit(text: &mut String, d: u64)
    requires
        d < 10,
    ensures
        final(text)@ == old(text)@.push(digit_char(d as nat)),
{
    proof {
        reveal_strlit("0");
        reveal_strlit("1");
        reveal_strlit("2");
        reveal_strlit("3");
        reveal_strlit("4");
        reveal_strlit("5");
        reveal_strlit("6");
        reveal_strlit("7");
        reveal_strlit("8");
        reveal_strlit("9");
    }
    let digit = if d == 0 {
        "0"
    } else if d == 1 {
        "1"
    } else if d == 2 {
        "2"
    } else if d == 3 {
        "3"
    } else if d == 4 {
        "4"
    } else if d == 5 {
        "5"
    } else if d == 6 {
        "6"
    } else if d == 7 {
        "7"
    } else if d == 8 {
        "8"
    } else {
        "9"
    };
    text.append(digit);
    assert(final(text)@ =~= old(text)@.push(digit_char(d as nat)));
}

/// Appends `n` in decimal.
fn push_decimal(text: &mut String, n: u64)
    ensures
        final(text)@ == old(text)@ + decimal(n as nat),
    decreases n,
{
    if n >= 10 {
        push_decimal(text, n / 10);
    }
    push_digit(text, n % 10);
    assert(final(text)@ =~= old(text)@ + decimal(n as nat));
}

/// The identifier of the notification numbered `n`:
/// `rio-notification-` and `n` in decimal.
pub fn identifier_for(n: u64) -> (identifier: String)
    ensures
        identifier@ == identifier_view(n),
{
    let mut identifier = "rio-notification-".to_owned();
    push_decimal(&mut identifier, n);
    identifier
}

/// Draws the next notification number from `source` and returns its
/// identifier. The number depends on the other threads drawing from the
/// same source, so the identifier is stated for whatever number was drawn.
pub fn next_identifier(source: &std::sync::atomic::AtomicU64) -> (identifier: String)
    ensures
        exists|n: u64| identifier@ == identifier_view(n),
{
    let n = source.fetch_add(1, std::sync::atomic::Ordering::Relaxed);
    identifier_for(n)
}

} // verus!
