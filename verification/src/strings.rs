use vstd::prelude::*;

verus! {

/// `String::push` of the standard library: the string afterwards is the
/// string before with `ch` at its end.
pub assume_specification[ String::push ](s: &mut String, ch: char)
    ensures
        final(s)@ == old(s)@.push(ch),
;

/// `String::pop` of the standard library: it takes the last character off
/// and returns it; of an empty string it returns `None` and leaves it empty.
pub assume_specification[ String::pop ](s: &mut String) -> (ch: Option<char>)
    ensures
        old(s)@.len() == 0 ==> ch is None && final(s)@ == old(s)@,
        old(s)@.len() > 0 ==> ch == Some(old(s)@.last()) && final(s)@ == old(s)@.drop_last(),
;

/// The character that shows the digit `d`.
pub open spec fn digit(d: nat) -> char {
    if d == 0 {
        '0'
    } else if d == 1 {
        '1'
    } else if d == 2 {
        '2'
    } else if d == 3 {
        '3'
    } else if d == 4 {
        '4'
    } else if d == 5 {
        '5'
    } else if d == 6 {
        '6'
    } else if d == 7 {
        '7'
    } else if d == 8 {
        '8'
    } else {
        '9'
    }
}

/// `n` written in base ten, without leading zeros.
pub open spec fn decimal(n: nat) -> Seq<char>
    decreases n,
{
    if n < 10 {
        seq![digit(n)]
    } else {
        decimal(n / 10).push(digit(n % 10))
    }
}

/// The character that shows the digit `d`.
fn digit_char(d: u128) -> (ch: char)
    requires
        d < 10,
    ensures
        ch == digit(d as nat),
{
    if d == 0 {
        '0'
    } else if d == 1 {
        '1'
    } else if d == 2 {
        '2'
    } else if d == 3 {
        '3'
    } else if d == 4 {
        '4'
    } else if d == 5 {
        '5'
    } else if d == 6 {
        '6'
    } else if d == 7 {
        '7'
    } else if d == 8 {
        '8'
    } else {
        '9'
    }
}

/// Appends `n` in base ten to `out`.
pub fn push_decimal(out: &mut String, n: u128)
    ensures
        final(out)@ == old(out)@ + decimal(n as nat),
    decreases n,
{
    if n >= 10 {
        push_decimal(out, n / 10);
    }
    out.push(digit_char(n % 10));
    assert(final(out)@ =~= old(out)@ + decimal(n as nat));
}

/// Appends the characters of `chars` to `out`.
pub fn push_chars(out: &mut String, chars: &Vec<char>)
    ensures
        final(out)@ == old(out)@ + chars@,
{
    let mut i: usize = 0;
    while i < chars.len()
        invariant
            i <= chars.len(),
            out@ == old(out)@ + chars@.take(i as int),
        decreases chars.len() - i,
    {
        out.push(chars[i]);
        i = i + 1;
        assert(out@ =~= old(out)@ + chars@.take(i as int));
    }
    assert(chars@.take(chars.len() as int) == chars@);
}

} // verus!
