//! The mnemonic alphabet: a fixed, ordered sequence of 36 printable
//! symbols, handed out in order to the candidate windows of one pick.
//!
//! The order favours the home row (letters reachable without moving the
//! hand come first), then the remaining letters, then the digit row, so
//! shorter window lists get the easiest keys. Every symbol is distinct, so
//! one pick never assigns the same mnemonic twice.

use vstd::prelude::*;

verus! {

/// How many mnemonic symbols one pick can hand out.
pub const ALPHABET_SIZE: usize = 36;

/// The `i`-th symbol handed out during a pick (0-based hand-out order).
pub open spec fn spec_mnemonic(i: int) -> char {
    if i == 0 {
        'a'
    } else if i == 1 {
        's'
    } else if i == 2 {
        'd'
    } else if i == 3 {
        'f'
    } else if i == 4 {
        'j'
    } else if i == 5 {
        'k'
    } else if i == 6 {
        'l'
    } else if i == 7 {
        'g'
    } else if i == 8 {
        'h'
    } else if i == 9 {
        'q'
    } else if i == 10 {
        'w'
    } else if i == 11 {
        'e'
    } else if i == 12 {
        'r'
    } else if i == 13 {
        'u'
    } else if i == 14 {
        'i'
    } else if i == 15 {
        'o'
    } else if i == 16 {
        'p'
    } else if i == 17 {
        't'
    } else if i == 18 {
        'y'
    } else if i == 19 {
        'z'
    } else if i == 20 {
        'x'
    } else if i == 21 {
        'c'
    } else if i == 22 {
        'v'
    } else if i == 23 {
        'm'
    } else if i == 24 {
        'b'
    } else if i == 25 {
        'n'
    } else if i == 26 {
        '1'
    } else if i == 27 {
        '2'
    } else if i == 28 {
        '3'
    } else if i == 29 {
        '4'
    } else if i == 30 {
        '5'
    } else if i == 31 {
        '6'
    } else if i == 32 {
        '7'
    } else if i == 33 {
        '8'
    } else if i == 34 {
        '9'
    } else {
        '0'
    }
}

/// The `i`-th symbol of the alphabet, as executable code.
pub fn mnemonic_at(i: usize) -> (c: char)
    requires
        i < ALPHABET_SIZE,
    ensures
        c == spec_mnemonic(i as int),
{
    match i {
        0 => 'a',
        1 => 's',
        2 => 'd',
        3 => 'f',
        4 => 'j',
        5 => 'k',
        6 => 'l',
        7 => 'g',
        8 => 'h',
        9 => 'q',
        10 => 'w',
        11 => 'e',
        12 => 'r',
        13 => 'u',
        14 => 'i',
        15 => 'o',
        16 => 'p',
        17 => 't',
        18 => 'y',
        19 => 'z',
        20 => 'x',
        21 => 'c',
        22 => 'v',
        23 => 'm',
        24 => 'b',
        25 => 'n',
        26 => '1',
        27 => '2',
        28 => '3',
        29 => '4',
        30 => '5',
        31 => '6',
        32 => '7',
        33 => '8',
        34 => '9',
        _ => '0',
    }
}

/// No two hand-out positions share a symbol: mnemonics assigned within one
/// pick are pairwise distinct.
pub proof fn lemma_mnemonics_distinct()
    ensures
        forall|i: int, j: int|
            0 <= i < j < ALPHABET_SIZE ==> spec_mnemonic(i) != spec_mnemonic(j),
{
}

} // verus!
