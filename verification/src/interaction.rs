//! The commands of a line-by-line debugging session.

use vstd::prelude::*;
use vstd::string::StrSliceExecFns;

verus! {

/// What the user of a debugging session asks for.
#[derive(Clone, Copy, Debug, PartialEq, Eq, Structural)]
pub enum Interaction {
    /// Advance the emulator.
    Advance,
    /// Print the state of the processor.
    CPU,
    /// Print the byte at an address.
    Ram(u16),
    /// Run freely.
    Run,
}

/// White space, as Unicode defines it.
pub open spec fn is_space(c: char) -> bool {
    let u = c as u32;
    ||| 0x09 <= u <= 0x0D
    ||| u == 0x20
    ||| u == 0x85
    ||| u == 0xA0
    ||| u == 0x1680
    ||| 0x2000 <= u <= 0x200A
    ||| u == 0x2028
    ||| u == 0x2029
    ||| u == 0x202F
    ||| u == 0x205F
    ||| u == 0x3000
}

/// The words of a line from position `i` on, where `current` holds the
/// letters of the word that position `i` continues.
pub open spec fn split(s: Seq<char>, i: int, current: Seq<char>) -> Seq<Seq<char>>
    decreases s.len() - i,
{
    if i < 0 || i >= s.len() {
        if current.len() > 0 {
            seq![current]
        } else {
            Seq::empty()
        }
    } else if is_space(s[i]) {
        if current.len() > 0 {
            seq![current] + split(s, i + 1, Seq::empty())
        } else {
            split(s, i + 1, Seq::empty())
        }
    } else {
        split(s, i + 1, current.push(s[i]))
    }
}

/// The words of a line: its runs of letters between white space.
pub open spec fn words(s: Seq<char>) -> Seq<Seq<char>> {
    split(s, 0, Seq::empty())
}

/// The value of a hexadecimal digit, or -1 for any other letter.
pub open spec fn hex_digit(c: char) -> int {
    let u = c as u32;
    if 0x30 <= u <= 0x39 {
        u - 0x30
    } else if 0x61 <= u <= 0x66 {
        u - 0x61 + 10
    } else if 0x41 <= u <= 0x46 {
        u - 0x41 + 10
    } else {
        -1
    }
}

/// The number that hexadecimal digits write, or -1 if a letter among them
/// is no digit.
pub open spec fn hex_value(digits: Seq<char>) -> int
    decreases digits.len(),
{
    if digits.len() == 0 {
        0
    } else {
        let head = hex_value(digits.drop_last());
        let last = hex_digit(digits.last());
        if head < 0 || last < 0 {
            -1
        } else {
            head * 16 + last
        }
    }
}

/// The address that a word writes in hexadecimal: digits, at least one,
/// after an optional plus sign, and no more than 16 bits.
pub open spec fn address_written(word: Seq<char>) -> Option<u16> {
    let digits = if word.len() > 0 && word[0] == '+' {
        word.subrange(1, word.len() as int)
    } else {
        word
    };
    if digits.len() == 0 || hex_value(digits) < 0 || hex_value(digits) > 0xFFFF {
        None
    } else {
        Some(hex_value(digits) as u16)
    }
}

/// The command that the words of a line give: none to advance, `run`,
/// `cpu`, or `ram` and an address.
pub open spec fn command(words: Seq<Seq<char>>) -> Option<Interaction> {
    if words.len() == 0 {
        Some(Interaction::Advance)
    } else if words.len() == 1 {
        if words[0] == seq!['r', 'u', 'n'] {
            Some(Interaction::Run)
        } else if words[0] == seq!['c', 'p', 'u'] {
            Some(Interaction::CPU)
        } else {
            None
        }
    } else if words.len() == 2 && words[0] == seq!['r', 'a', 'm'] {
        match address_written(words[1]) {
            Some(address) => Some(Interaction::Ram(address)),
            None => None,
        }
    } else {
        None
    }
}

/// The words held in vectors, as sequences.
pub open spec fn views(held: Seq<Vec<char>>) -> Seq<Seq<char>> {
    Seq::new(held.len(), |k: int| held[k]@)
}

/// Once digits are no number, or a number beyond 16 bits, more letters do
/// not mend them.
pub proof fn lemma_hex_prefix(digits: Seq<char>, n: int)
    requires
        0 <= n <= digits.len(),
        hex_value(digits.take(n)) < 0 || hex_value(digits.take(n)) > 0xFFFF,
    ensures
        hex_value(digits) < 0 || hex_value(digits) > 0xFFFF,
    decreases digits.len() - n,
{
    if n == digits.len() {
        assert(digits.take(n) =~= digits);
    } else {
        assert(digits.drop_last().take(n) =~= digits.take(n));
        lemma_hex_prefix(digits.drop_last(), n);
    }
}

/// Whether a letter is white space.
pub fn space(c: char) -> (b: bool)
    ensures
        b == is_space(c),
{
    let u: u32 = c as u32;
    (0x09 <= u && u <= 0x0D) || u == 0x20 || u == 0x85 || u == 0xA0 || u == 0x1680 || (0x2000 <= u
        && u <= 0x200A) || u == 0x2028 || u == 0x2029 || u == 0x202F || u == 0x205F || u == 0x3000
}

/// Splits a line into its words.
pub fn split_words(line: &str) -> (found: Vec<Vec<char>>)
    ensures
        views(found@) == words(line@),
{
    let n: usize = line.unicode_len();
    let mut found: Vec<Vec<char>> = Vec::new();
    let mut current: Vec<char> = Vec::new();
    let mut i: usize = 0;
    while i < n
        invariant
            i <= n,
            n == line@.len(),
            views(found@) + split(line@, i as int, current@) == words(line@),
        decreases n - i,
    {
        let c: char = line.get_char(i);
        let ghost before = views(found@);
        let ghost word = current@;
        if space(c) {
            if current.len() > 0 {
                found.push(current);
                current = Vec::new();
                assert(views(found@) =~= before.push(word));
                assert(before + (seq![word] + split(line@, i + 1, Seq::empty())) =~= before.push(
                    word,
                ) + split(line@, i + 1, Seq::empty()));
            }
            assert(current@ =~= Seq::<char>::empty());
        } else {
            current.push(c);
        }
        i = i + 1;
    }
    let ghost before = views(found@);
    let ghost word = current@;
    if current.len() > 0 {
        found.push(current);
        assert(views(found@) =~= before.push(word));
        assert(before + seq![word] =~= before.push(word));
    } else {
        assert(before + Seq::<Seq<char>>::empty() =~= before);
    }
    found
}

/// Whether a word is the three letters given.
pub fn is_word(word: &Vec<char>, a: char, b: char, c: char) -> (same: bool)
    ensures
        same == (word@ == seq![a, b, c]),
{
    if word.len() == 3 && word[0] == a && word[1] == b && word[2] == c {
        assert(word@ =~= seq![a, b, c]);
        true
    } else {
        assert(seq![a, b, c].len() == 3);
        assert(seq![a, b, c][0] == a && seq![a, b, c][1] == b && seq![a, b, c][2] == c);
        false
    }
}

/// Reads an address written in hexadecimal.
pub fn parse_address(word: &Vec<char>) -> (address: Option<u16>)
    ensures
        address == address_written(word@),
{
    let start: usize = if word.len() > 0 && word[0] == '+' { 1 } else { 0 };
    let ghost digits = if word@.len() > 0 && word@[0] == '+' {
        word@.subrange(1, word@.len() as int)
    } else {
        word@
    };
    assert(digits =~= word@.subrange(start as int, word@.len() as int));
    if start == word.len() {
        return None;
    }
    let mut value: u32 = 0;
    let mut k: usize = start;
    assert(digits.take(0) =~= Seq::<char>::empty());
    while k < word.len()
        invariant
            start <= k <= word.len(),
            start < word.len(),
            digits == word@.subrange(start as int, word@.len() as int),
            digits == (if word@.len() > 0 && word@[0] == '+' {
                word@.subrange(1, word@.len() as int)
            } else {
                word@
            }),
            value == hex_value(digits.take(k - start)),
            value <= 0xFFFF,
        decreases word.len() - k,
    {
        let u: u32 = word[k] as u32;
        let digit: u32 = if 0x30 <= u && u <= 0x39 {
            u - 0x30
        } else if 0x61 <= u && u <= 0x66 {
            u - 0x61 + 10
        } else if 0x41 <= u && u <= 0x46 {
            u - 0x41 + 10
        } else {
            16
        };
        let ghost longer = digits.take(k + 1 - start);
        assert(longer.drop_last() =~= digits.take(k - start));
        assert(longer.last() == word@[k as int]);
        if digit == 16 {
            proof {
                lemma_hex_prefix(digits, k + 1 - start);
            }
            return None;
        }
        let next: u32 = value * 16 + digit;
        if next > 0xFFFF {
            proof {
                lemma_hex_prefix(digits, k + 1 - start);
            }
            return None;
        }
        value = next;
        k = k + 1;
    }
    assert(digits.take(k - start) =~= digits);
    Some(value as u16)
}

/// Reads the command that a line gives, if it gives one.
pub fn parse_interaction(line: &str) -> (asked: Option<Interaction>)
    ensures
        asked == command(words(line@)),
{
    let found = split_words(line);
    assert(forall|k: int| 0 <= k < found@.len() ==> views(found@)[k] == found@[k]@);
    if found.len() == 0 {
        Some(Interaction::Advance)
    } else if found.len() == 1 {
        if is_word(&found[0], 'r', 'u', 'n') {
            Some(Interaction::Run)
        } else if is_word(&found[0], 'c', 'p', 'u') {
            Some(Interaction::CPU)
        } else {
            None
        }
    } else if found.len() == 2 && is_word(&found[0], 'r', 'a', 'm') {
        match parse_address(&found[1]) {
            Some(address) => Some(Interaction::Ram(address)),
            None => None,
        }
    } else {
        None
    }
}

} // verus!
