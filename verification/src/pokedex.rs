//! The Pokédex: species by dex number, where a number such as `6.1` names
//! variant 1 of species 6.

use vstd::prelude::*;
use vstd::string::*;
use std::collections::HashMap;

verus! {

broadcast use vstd::std_specs::hash::group_hash_axioms;

/// A species number and the number of a variant of that species.
#[derive(Clone, Copy, Debug, PartialEq, Eq, Structural)]
pub struct DexNumber {
    pub dex_number: u8,
    pub dex_variant: u8,
}

pub open spec fn is_digit(c: char) -> bool {
    '0' <= c <= '9'
}

pub open spec fn digit_value(c: char) -> nat {
    (c as u32 - '0' as u32) as nat
}

/// The number that a run of decimal digits writes.
pub open spec fn digits_value(s: Seq<char>) -> nat
    decreases s.len(),
{
    if s.len() == 0 {
        0
    } else {
        digits_value(s.drop_last()) * 10 + digit_value(s.last())
    }
}

pub open spec fn all_digits(s: Seq<char>) -> bool {
    forall|i: int| 0 <= i < s.len() ==> is_digit(#[trigger] s[i])
}

/// The byte that `s` writes: an optional plus sign, then at least one
/// decimal digit, the whole no greater than 255. Anything else is no
/// byte.
pub open spec fn parse_u8_spec(s: Seq<char>) -> Option<u8> {
    if s.len() > 0 && s[0] == '+' {
        parse_digits(s.subrange(1, s.len() as int))
    } else {
        parse_digits(s)
    }
}

/// The byte that a run of digits writes, if it is not empty and writes no
/// more than 255.
pub open spec fn parse_digits(digits: Seq<char>) -> Option<u8> {
    if digits.len() > 0 && all_digits(digits) && digits_value(digits) <= 255 {
        Some(digits_value(digits) as u8)
    } else {
        None
    }
}

/// The place of the first full stop in `s` at or after `from`, or the
/// length of `s` where there is none.
pub open spec fn first_dot(s: Seq<char>, from: int) -> int
    decreases s.len() - from,
{
    if from < 0 || from >= s.len() {
        s.len() as int
    } else if s[from] == '.' {
        from
    } else {
        first_dot(s, from + 1)
    }
}

/// The dex number that a decimal text writes: the species before the
/// first full stop, the variant between the first and the second. A part
/// that is missing or is no byte counts as zero.
pub open spec fn dex_number_of(s: Seq<char>) -> DexNumber {
    let dot = first_dot(s, 0);
    let species = parse_u8_spec(s.subrange(0, dot));
    let variant = if dot < s.len() {
        parse_u8_spec(s.subrange(dot + 1, first_dot(s, dot + 1)))
    } else {
        None
    };
    DexNumber {
        dex_number: if species is Some {
            species->0
        } else {
            0
        },
        dex_variant: if variant is Some {
            variant->0
        } else {
            0
        },
    }
}

/// Finds the first full stop at or after `from`.
fn find_dot(text: &str, from: usize) -> (out: usize)
    requires
        from <= text@.len(),
    ensures
        out == first_dot(text@, from as int),
        from <= out <= text@.len(),
{
    let len = text.unicode_len();
    let mut i = from;
    while i < len
        invariant
            len == text@.len(),
            from <= i <= len,
            first_dot(text@, from as int) == first_dot(text@, i as int),
        decreases len - i,
    {
        if text.get_char(i) == '.' {
            return i;
        }
        i += 1;
    }
    i
}

/// Reads the characters of `text` from `from` up to `to` as a byte.
fn parse_u8_range(text: &str, from: usize, to: usize) -> (out: Option<u8>)
    requires
        from <= to <= text@.len(),
    ensures
        out == parse_u8_spec(text@.subrange(from as int, to as int)),
{
    let ghost part = text@.subrange(from as int, to as int);
    let mut start = from;
    if start < to && text.get_char(start) == '+' {
        start += 1;
    }
    let ghost digits = text@.subrange(start as int, to as int);
    assert(digits =~= if part.len() > 0 && part[0] == '+' {
        part.subrange(1, part.len() as int)
    } else {
        part
    });
    assert(parse_u8_spec(part) == parse_digits(digits));
    if start == to {
        return None;
    }
    let mut value: u32 = 0;
    let mut i = start;
    assert(digits.subrange(0, 0) =~= Seq::<char>::empty());
    while i < to
        invariant
            start <= i <= to <= text@.len(),
            digits == text@.subrange(start as int, to as int),
            parse_u8_spec(text@.subrange(from as int, to as int)) == parse_digits(digits),
            all_digits(digits.subrange(0, i - start)),
            value == digits_value(digits.subrange(0, i - start)),
            value <= 255,
        decreases to - i,
    {
        let c = text.get_char(i);
        let ghost before = digits.subrange(0, i - start);
        let ghost after = digits.subrange(0, i + 1 - start);
        assert(after.drop_last() =~= before);
        assert(after.last() == c);
        if c < '0' || c > '9' {
            assert(!is_digit(digits[i - start]));
            return None;
        }
        let digit = c as u32 - '0' as u32;
        value = value * 10 + digit;
        assert(all_digits(after)) by {
            assert forall|k: int| 0 <= k < after.len() implies is_digit(#[trigger] after[k]) by {
                if k < before.len() {
                    assert(after[k] == before[k]);
                }
            }
        }
        if value > 255 {
            proof {
                lemma_too_large(digits, i + 1 - start);
            }
            return None;
        }
        i += 1;
    }
    assert(digits.subrange(0, to - start) =~= digits);
    Some(value as u8)
}

/// Digits past a prefix never make a number smaller.
proof fn lemma_too_large(s: Seq<char>, n: int)
    requires
        0 <= n <= s.len(),
        all_digits(s.subrange(0, n)),
        digits_value(s.subrange(0, n)) > 255,
    ensures
        !all_digits(s) || digits_value(s) > 255,
    decreases s.len() - n,
{
    if n < s.len() && all_digits(s) {
        let longer = s.subrange(0, n + 1);
        assert(longer.drop_last() =~= s.subrange(0, n));
        assert forall|k: int| 0 <= k < longer.len() implies is_digit(#[trigger] longer[k]) by {
            assert(longer[k] == s[k]);
        }
        lemma_too_large(s, n + 1);
    } else if n == s.len() {
        assert(s.subrange(0, n) =~= s);
    }
}

impl DexNumber {
    /// The key of this number in a Pokédex: species and variant side by
    /// side.
    pub open spec fn key(self) -> u16 {
        (self.dex_number as u16 * 256 + self.dex_variant as u16) as u16
    }

    /// The key of this number in a Pokédex.
    pub fn to_key(&self) -> (out: u16)
        ensures
            out == self.key(),
    {
        self.dex_number as u16 * 256 + self.dex_variant as u16
    }

    /// Reads a dex number from its decimal text, such as `3.1`.
    pub fn from_decimal_text(text: &str) -> (out: DexNumber)
        ensures
            out == dex_number_of(text@),
    {
        let len = text.unicode_len();
        let dot = find_dot(text, 0);
        let dex_number = match parse_u8_range(text, 0, dot) {
            Some(value) => value,
            None => 0,
        };
        let dex_variant = if dot < len {
            let end = find_dot(text, dot + 1);
            match parse_u8_range(text, dot + 1, end) {
                Some(value) => value,
                None => 0,
            }
        } else {
            0
        };
        DexNumber { dex_number, dex_variant }
    }
}

/// Two dex numbers with one key are one number.
pub proof fn lemma_key_injective(a: DexNumber, b: DexNumber)
    requires
        a.key() == b.key(),
    ensures
        a == b,
{
}

/// How many entries the Kanto dex has.
pub const KANTO_ENTRIES: usize = 9;

/// The dex number of the `k`-th entry of the Kanto dex.
pub open spec fn kanto_number(k: int) -> DexNumber {
    if k == 0 {
        DexNumber { dex_number: 1, dex_variant: 0 }
    } else if k == 1 {
        DexNumber { dex_number: 2, dex_variant: 0 }
    } else if k == 2 {
        DexNumber { dex_number: 3, dex_variant: 0 }
    } else if k == 3 {
        DexNumber { dex_number: 3, dex_variant: 1 }
    } else if k == 4 {
        DexNumber { dex_number: 4, dex_variant: 0 }
    } else if k == 5 {
        DexNumber { dex_number: 5, dex_variant: 0 }
    } else if k == 6 {
        DexNumber { dex_number: 6, dex_variant: 0 }
    } else if k == 7 {
        DexNumber { dex_number: 6, dex_variant: 1 }
    } else {
        DexNumber { dex_number: 6, dex_variant: 2 }
    }
}

/// The dex numbers of the Kanto dex, in order.
pub fn kanto_numbers() -> (out: Vec<DexNumber>)
    ensures
        out@.len() == KANTO_ENTRIES,
        forall|k: int| 0 <= k < KANTO_ENTRIES ==> #[trigger] out@[k] == kanto_number(k),
{
    let mut out: Vec<DexNumber> = Vec::new();
    out.push(DexNumber { dex_number: 1, dex_variant: 0 });
    out.push(DexNumber { dex_number: 2, dex_variant: 0 });
    out.push(DexNumber { dex_number: 3, dex_variant: 0 });
    out.push(DexNumber { dex_number: 3, dex_variant: 1 });
    out.push(DexNumber { dex_number: 4, dex_variant: 0 });
    out.push(DexNumber { dex_number: 5, dex_variant: 0 });
    out.push(DexNumber { dex_number: 6, dex_variant: 0 });
    out.push(DexNumber { dex_number: 6, dex_variant: 1 });
    out.push(DexNumber { dex_number: 6, dex_variant: 2 });
    out
}

/// Species records by dex number.
pub struct Pokedex<P> {
    pub pokemon: HashMap<u16, P>,
}

impl<P> Pokedex<P> {
    /// An empty Pokédex.
    pub fn new() -> (out: Self)
        ensures
            out.pokemon@ == Map::<u16, P>::empty(),
    {
        Pokedex { pokemon: HashMap::new() }
    }

    /// Files `pokemon` under `dex_number`, in place of what was there.
    pub fn insert_pokemon(&mut self, dex_number: DexNumber, pokemon: P)
        ensures
            final(self).pokemon@ == old(self).pokemon@.insert(dex_number.key(), pokemon),
    {
        self.pokemon.insert(dex_number.to_key(), pokemon);
    }

    /// The record filed under `dex_number`.
    pub fn get_pokemon(&self, dex_number: DexNumber) -> (out: Option<&P>)
        ensures
            match out {
                Some(pokemon) => self.pokemon@.contains_key(dex_number.key()) && *pokemon
                    == self.pokemon@[dex_number.key()],
                None => !self.pokemon@.contains_key(dex_number.key()),
            },
    {
        let key = dex_number.to_key();
        self.pokemon.get(&key)
    }
}

/// The Kanto dex over the given records: the `k`-th record is filed under
/// the `k`-th Kanto number.
pub fn create_kanto_dex<P>(species: Vec<P>) -> (out: Pokedex<P>)
    requires
        species@.len() == KANTO_ENTRIES,
    ensures
        forall|key: u16|
            out.pokemon@.contains_key(key) <==> exists|k: int|
                0 <= k < KANTO_ENTRIES && key == #[trigger] kanto_number(k).key(),
        forall|k: int|
            0 <= k < KANTO_ENTRIES ==> out.pokemon@[#[trigger] kanto_number(k).key()] == species@[k],
{
    let numbers = kanto_numbers();
    let mut species = species;
    let mut out: Pokedex<P> = Pokedex::new();
    let ghost all = species@;
    let mut n: usize = KANTO_ENTRIES;
    while n > 0
        invariant
            n <= KANTO_ENTRIES,
            numbers@.len() == KANTO_ENTRIES,
            forall|k: int| 0 <= k < KANTO_ENTRIES ==> #[trigger] numbers@[k] == kanto_number(k),
            all.len() == KANTO_ENTRIES,
            species@ == all.subrange(0, n as int),
            forall|key: u16|
                out.pokemon@.contains_key(key) <==> exists|k: int|
                    n <= k < KANTO_ENTRIES && key == #[trigger] kanto_number(k).key(),
            forall|k: int|
                n <= k < KANTO_ENTRIES ==> out.pokemon@[#[trigger] kanto_number(k).key()] == all[k],
        decreases n,
    {
        n -= 1;
        let record = species.pop().unwrap();
        assert(record == all[n as int]);
        assert(numbers@[n as int] == kanto_number(n as int));
        out.insert_pokemon(numbers[n], record);
        assert(species@ =~= all.subrange(0, n as int));
        assert forall|k: int| n <= k < KANTO_ENTRIES implies out.pokemon@[#[trigger] kanto_number(
            k,
        ).key()] == all[k] by {
            if k > n {
                assert(kanto_number(k).key() != kanto_number(n as int).key());
            }
        }
    }
    out
}

} // verus!
