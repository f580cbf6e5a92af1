use vstd::prelude::*;
use vstd::string::StringExecFns;

verus! {

/// `String::push` appends one character to the end of the string.
pub assume_specification[ String::push ](s: &mut String, ch: char)
    ensures
        final(s)@ == old(s)@.push(ch),
;

/// The character that writes the digit `d`, for `d` below ten.
pub open spec fn digit_char(d: nat) -> char {
    ((48 + d) as u8) as char
}

/// The decimal numeral of `n`, without sign or leading zeros.
pub open spec fn decimal_text(n: nat) -> Seq<char>
    decreases n,
{
    if n < 10 {
        seq![digit_char(n)]
    } else {
        decimal_text(n / 10).push(digit_char(n % 10))
    }
}

/// The items of `parts` one after another, with `sep` between neighbours.
pub open spec fn joined(parts: Seq<Seq<char>>, sep: Seq<char>) -> Seq<char>
    decreases parts.len(),
{
    if parts.len() == 0 {
        Seq::<char>::empty()
    } else if parts.len() == 1 {
        parts[0]
    } else {
        joined(parts.drop_last(), sep) + sep + parts.last()
    }
}

/// Appends the decimal numeral of `n` to `out`.
pub fn push_decimal(out: &mut String, n: usize)
    ensures
        final(out)@ == old(out)@ + decimal_text(n as nat),
    decreases n,
{
    if n >= 10 {
        push_decimal(out, n / 10);
    }
    let d: u8 = (n % 10) as u8;
    out.push((48u8 + d) as char);
    proof {
        let before = old(out)@;
        if n >= 10 {
            assert(before + decimal_text(n as nat) =~= (before + decimal_text((n / 10) as nat)).push(
                digit_char((n % 10) as nat),
            ));
        } else {
            assert(before + decimal_text(n as nat) =~= before.push(digit_char(n as nat)));
        }
    }
}

/// The decimal numeral of `n` as a string.
pub fn decimal_string(n: usize) -> (s: String)
    ensures
        s@ == decimal_text(n as nat),
{
    let mut s = String::new();
    push_decimal(&mut s, n);
    assert(Seq::<char>::empty() + decimal_text(n as nat) =~= decimal_text(n as nat));
    s
}

/// Joining one more part: the parts so far, the separator unless these are
/// the first, then the new part.
pub proof fn lemma_joined_push(parts: Seq<Seq<char>>, sep: Seq<char>, part: Seq<char>)
    ensures
        joined(parts.push(part), sep) == if parts.len() == 0 {
            part
        } else {
            joined(parts, sep) + sep + part
        },
{
    let all = parts.push(part);
    assert(all.drop_last() =~= parts);
    assert(all.last() == part);
    if parts.len() == 0 {
        assert(all[0] == part);
    }
}

/// One more step of writing `parts` behind `head` with `sep` between them:
/// the first part follows `head` directly, every later one follows a
/// separator.
pub proof fn lemma_joined_step(head: Seq<char>, parts: Seq<Seq<char>>, sep: Seq<char>, i: int)
    requires
        0 <= i < parts.len(),
    ensures
        head + joined(parts.take(i + 1), sep) == if i == 0 {
            head + parts[i]
        } else {
            head + joined(parts.take(i), sep) + sep + parts[i]
        },
{
    lemma_joined_push(parts.take(i), sep, parts[i]);
    assert(parts.take(i + 1) =~= parts.take(i).push(parts[i]));
    let done = joined(parts.take(i), sep);
    if i == 0 {
        assert(parts.take(0).len() == 0);
    } else {
        assert(head + (done + sep + parts[i]) =~= head + done + sep + parts[i]);
    }
}

/// The characters that the bytes `draws` stand for, one for one: each byte
/// as the character of that code.
pub open spec fn letters(draws: Seq<u8>) -> Seq<char> {
    draws.map_values(|b: u8| b as char)
}

/// The string spelled by `draws`: for each place, the character of the byte
/// at that place.
pub fn letters_of(draws: &Vec<u8>) -> (s: String)
    ensures
        s@ == draws@.map_values(|b: u8| b as char),
        s@ == letters(draws@),
{
    let mut s = String::new();
    let mut i: usize = 0;
    while i < draws.len()
        invariant
            i <= draws@.len(),
            s@ == letters(draws@.take(i as int)),
        decreases draws@.len() - i,
    {
        s.push(draws[i] as char);
        assert(letters(draws@.take(i + 1)) =~= letters(draws@.take(i as int)).push(
            draws@[i as int] as char,
        ));
        i += 1;
    }
    assert(draws@.take(i as int) =~= draws@);
    s
}

} // verus!
