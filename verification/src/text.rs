//! Text: decimal numbers, prefixes and the few string operations that the
//! exporter is built from.
//!
//! A string is seen as the sequence of its characters.
use vstd::prelude::*;

verus! {

/// `String::push` appends its character to the end of the string.
pub assume_specification[ String::push ](s: &mut String, ch: char)
    ensures
        final(s)@ == old(s)@.push(ch),
;

/// The decimal digit `d`, as a character.
pub open spec fn digit_char(d: nat) -> char
    recommends
        d < 10,
{
    (48 + d) as char
}

/// Whether `c` is one of the ASCII digits `0` to `9`.
pub open spec fn is_digit(c: char) -> bool {
    '0' <= c <= '9'
}

/// The decimal spelling of `n`, without leading zeros.
pub open spec fn decimal(n: nat) -> Seq<char>
    decreases n,
{
    if n < 10 {
        seq![digit_char(n)]
    } else {
        decimal(n / 10).push(digit_char(n % 10))
    }
}

/// The decimal spelling of `n`, with a leading `-` where `n` is negative.
pub open spec fn signed_decimal(n: int) -> Seq<char> {
    if n < 0 {
        "-"@ + decimal((-n) as nat)
    } else {
        decimal(n as nat)
    }
}

/// The number that a sequence of decimal digits spells.
pub open spec fn number(digits: Seq<char>) -> nat
    decreases digits.len(),
{
    if digits.len() == 0 {
        0
    } else {
        number(digits.drop_last()) * 10 + (digits.last() as nat - 48) as nat
    }
}

/// Whether every character of `s` is a digit.
pub open spec fn all_digits(s: Seq<char>) -> bool {
    forall|i: int| 0 <= i < s.len() ==> is_digit(#[trigger] s[i])
}

/// Whether `s` begins with `prefix`.
pub open spec fn begins_with(s: Seq<char>, prefix: Seq<char>) -> bool {
    prefix.len() <= s.len() && s.take(prefix.len() as int) == prefix
}

/// The number of digits that `s` begins with.
pub open spec fn digit_run(s: Seq<char>) -> nat
    decreases s.len(),
{
    if s.len() == 0 || !is_digit(s[0]) {
        0
    } else {
        1 + digit_run(s.drop_first())
    }
}

/// `s` with every occurrence of `from` replaced by `to`.
pub open spec fn replaced(s: Seq<char>, from: char, to: char) -> Seq<char> {
    s.map_values(
        |c: char|
            if c == from {
                to
            } else {
                c
            },
    )
}

/// The characters of each text in a table.
pub open spec fn texts(table: Map<u64, String>) -> Map<u64, Seq<char>> {
    table.map_values(|s: String| s@)
}

/// A table and its characters have the same keys.
pub broadcast proof fn lemma_texts(table: Map<u64, String>, id: u64)
    ensures
        #![trigger texts(table).contains_key(id)]
        #![trigger texts(table)[id]]
        texts(table).contains_key(id) == table.contains_key(id),
        table.contains_key(id) ==> texts(table)[id] == table[id]@,
{
}

/// What is entered into a table is entered by its characters.
pub broadcast proof fn lemma_texts_insert(table: Map<u64, String>, id: u64, s: String)
    ensures
        #[trigger] texts(table.insert(id, s)) == texts(table).insert(id, s@),
{
    assert(texts(table.insert(id, s)) =~= texts(table).insert(id, s@));
}

/// Appends the decimal spelling of `n`.
pub(crate) fn push_decimal(out: &mut String, n: u128)
    ensures
        final(out)@ == old(out)@ + decimal(n as nat),
    decreases n,
{
    if n >= 10 {
        push_decimal(out, n / 10);
    }
    let d: u8 = (n % 10) as u8;
    out.push((48 + d) as char);
    proof {
        if n >= 10 {
            assert(old(out)@ + decimal((n / 10) as nat).push(digit_char((n % 10) as nat)) =~= (old(
                out,
            )@ + decimal((n / 10) as nat)).push(digit_char((n % 10) as nat)));
        }
    }
}

/// The characters of `s`.
pub(crate) fn characters(s: &str) -> (r: Vec<char>)
    ensures
        r@ == s@,
{
    let mut r: Vec<char> = Vec::new();
    for c in it: s.chars()
        invariant
            it.seq() == s@,
            r@ == s@.take(it.index() as int),
    {
        r.push(c);
        assert(s@.take(it.index() + 1) =~= s@.take(it.index() as int).push(c));
    }
    assert(s@.take(s@.len() as int) =~= s@);
    r
}

/// Whether two strings have the same characters.
pub(crate) fn same_text(a: &str, b: &str) -> (r: bool)
    ensures
        r == (a@ == b@),
{
    let x = characters(a);
    let y = characters(b);
    assert(x@.take(x@.len() as int) =~= x@);
    x.len() == y.len() && has_prefix(&x, &y)
}

/// Whether `s` begins with `prefix`.
pub(crate) fn has_prefix(s: &Vec<char>, prefix: &Vec<char>) -> (r: bool)
    ensures
        r == begins_with(s@, prefix@),
{
    if s.len() < prefix.len() {
        return false;
    }
    let mut i: usize = 0;
    while i < prefix.len()
        invariant
            i <= prefix.len() <= s.len(),
            forall|j: int| 0 <= j < i ==> s@[j] == prefix@[j],
        decreases prefix.len() - i,
    {
        if s[i] != prefix[i] {
            assert(s@.take(prefix@.len() as int)[i as int] != prefix@[i as int]);
            return false;
        }
        i += 1;
    }
    assert(s@.take(prefix@.len() as int) =~= prefix@);
    true
}

/// The text of `s` with every `from` replaced by `to`.
pub(crate) fn replace_char(s: &str, from: char, to: char) -> (r: String)
    ensures
        r@ == replaced(s@, from, to),
{
    let mut r: String = String::new();
    for c in it: s.chars()
        invariant
            it.seq() == s@,
            r@ == replaced(s@, from, to).take(it.index() as int),
    {
        if c == from {
            r.push(to);
        } else {
            r.push(c);
        }
        assert(replaced(s@, from, to).take(it.index() + 1) =~= replaced(s@, from, to).take(
            it.index() as int,
        ).push(replaced(s@, from, to)[it.index() as int]));
    }
    assert(replaced(s@, from, to).take(s@.len() as int) =~= replaced(s@, from, to));
    r
}

/// The index behind the digits that begin at `start`.
pub(crate) fn digits_end(s: &Vec<char>, start: usize) -> (end: usize)
    requires
        start <= s.len(),
    ensures
        start <= end <= s.len(),
        end - start == digit_run(s@.skip(start as int)),
        all_digits(s@.subrange(start as int, end as int)),
    decreases s.len() - start,
{
    if start < s.len() && '0' <= s[start] && s[start] <= '9' {
        let end = digits_end(s, start + 1);
        proof {
            assert(s@.skip(start as int).drop_first() =~= s@.skip(start + 1));
            let run = s@.subrange(start as int, end as int);
            assert forall|i: int| 0 <= i < run.len() implies is_digit(#[trigger] run[i]) by {
                if i > 0 {
                    assert(run[i] == s@.subrange(start + 1, end as int)[i - 1]);
                }
            }
        }
        end
    } else {
        start
    }
}

/// Reads `s[start..end]`, digits all, as a 32-bit number.
pub(crate) fn parse_u32(s: &Vec<char>, start: usize, end: usize) -> (r: Option<u32>)
    requires
        start <= end <= s.len(),
        all_digits(s@.subrange(start as int, end as int)),
    ensures
        ({
            let n = number(s@.subrange(start as int, end as int));
            if n <= u32::MAX {
                r == Some(n as u32)
            } else {
                r is None
            }
        }),
{
    let mut n: u32 = 0;
    let mut i: usize = start;
    assert(s@.subrange(start as int, start as int) =~= Seq::<char>::empty());
    while i < end
        invariant
            start <= i <= end <= s.len(),
            all_digits(s@.subrange(start as int, end as int)),
            n == number(s@.subrange(start as int, i as int)),
        decreases end - i,
    {
        let ghost so_far = s@.subrange(start as int, i as int);
        let ghost next = s@.subrange(start as int, i + 1);
        assert(next.drop_last() =~= so_far);
        assert(s@.subrange(start as int, end as int)[i - start] == s@[i as int]);
        let d: u32 = s[i] as u32 - 48;
        let wide: u64 = n as u64 * 10 + d as u64;
        assert(wide == number(next));
        if wide > u32::MAX as u64 {
            proof {
                let whole = s@.subrange(start as int, end as int);
                assert(whole.take(i + 1 - start) =~= next);
                lemma_number_monotone(whole, i + 1 - start);
            }
            return None;
        }
        n = wide as u32;
        i += 1;
    }
    Some(n)
}

/// A text is made of digits exactly if its leading digits are all of it.
pub(crate) proof fn lemma_digit_run_whole(s: Seq<char>)
    ensures
        digit_run(s) <= s.len(),
        all_digits(s) <==> digit_run(s) == s.len(),
    decreases s.len(),
{
    if s.len() > 0 {
        let rest = s.drop_first();
        lemma_digit_run_whole(rest);
        if is_digit(s[0]) && all_digits(rest) {
            assert forall|i: int| 0 <= i < s.len() implies is_digit(#[trigger] s[i]) by {
                if i > 0 {
                    assert(s[i] == rest[i - 1]);
                }
            }
        }
        if all_digits(s) {
            assert(is_digit(s[0]));
            assert forall|i: int| 0 <= i < rest.len() implies is_digit(#[trigger] rest[i]) by {
                assert(rest[i] == s[i + 1]);
            }
        }
    }
}

/// The first digits of a number spell at most that number.
proof fn lemma_number_monotone(digits: Seq<char>, n: int)
    requires
        0 <= n <= digits.len(),
    ensures
        number(digits.take(n)) <= number(digits),
    decreases digits.len() - n,
{
    if n < digits.len() {
        assert(digits.drop_last().take(n) =~= digits.take(n));
        lemma_number_monotone(digits.drop_last(), n);
    } else {
        assert(digits.take(n) =~= digits);
    }
}

/// The decimal spelling of a number is made of digits and spells that number.
pub proof fn lemma_decimal_number(n: nat)
    ensures
        decimal(n).len() > 0,
        all_digits(decimal(n)),
        number(decimal(n)) == n,
    decreases n,
{
    reveal_with_fuel(number, 2);
    if n >= 10 {
        lemma_decimal_number(n / 10);
        assert(decimal(n).drop_last() =~= decimal(n / 10));
    } else {
        assert(decimal(n).drop_last() =~= Seq::<char>::empty());
    }
}

/// Different numbers have different spellings.
pub proof fn lemma_decimal_injective(m: nat, n: nat)
    requires
        decimal(m) == decimal(n),
    ensures
        m == n,
{
    lemma_decimal_number(m);
    lemma_decimal_number(n);
}

} // verus!
