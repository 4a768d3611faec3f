//! Key Resolution Table: the fixed mapping from raw input-device key codes
//! to the mnemonic alphabet, plus the distinguished cancel key.
//!
//! The table is a static fact about the input device's code space. Codes
//! outside the table resolve to `Unmapped`, which the picker's event loop
//! ignores rather than treating as a choice.

use vstd::prelude::*;

verus! {

/// What one raw key code means to the picker.
#[derive(Clone, Copy, Debug, PartialEq, Eq, Structural)]
pub enum KeyResolution {
    /// The cancel key (Escape): abort the pick.
    Cancel,
    /// A key of the mnemonic alphabet, carrying its printable symbol.
    Symbol(char),
    /// A code outside the table (a modifier, a function key, ...).
    Unmapped,
}

/// The resolution of each raw key code, as a mathematical function.
pub open spec fn spec_resolve_key(code: u8) -> KeyResolution {
    match code {
        9u8 => KeyResolution::Cancel,
        38u8 => KeyResolution::Symbol('a'),
        56u8 => KeyResolution::Symbol('b'),
        54u8 => KeyResolution::Symbol('c'),
        40u8 => KeyResolution::Symbol('d'),
        26u8 => KeyResolution::Symbol('e'),
        41u8 => KeyResolution::Symbol('f'),
        42u8 => KeyResolution::Symbol('g'),
        43u8 => KeyResolution::Symbol('h'),
        31u8 => KeyResolution::Symbol('i'),
        44u8 => KeyResolution::Symbol('j'),
        45u8 => KeyResolution::Symbol('k'),
        46u8 => KeyResolution::Symbol('l'),
        58u8 => KeyResolution::Symbol('m'),
        57u8 => KeyResolution::Symbol('n'),
        32u8 => KeyResolution::Symbol('o'),
        33u8 => KeyResolution::Symbol('p'),
        24u8 => KeyResolution::Symbol('q'),
        27u8 => KeyResolution::Symbol('r'),
        39u8 => KeyResolution::Symbol('s'),
        28u8 => KeyResolution::Symbol('t'),
        30u8 => KeyResolution::Symbol('u'),
        55u8 => KeyResolution::Symbol('v'),
        25u8 => KeyResolution::Symbol('w'),
        53u8 => KeyResolution::Symbol('x'),
        29u8 => KeyResolution::Symbol('y'),
        52u8 => KeyResolution::Symbol('z'),
        10u8 => KeyResolution::Symbol('1'),
        11u8 => KeyResolution::Symbol('2'),
        12u8 => KeyResolution::Symbol('3'),
        13u8 => KeyResolution::Symbol('4'),
        14u8 => KeyResolution::Symbol('5'),
        15u8 => KeyResolution::Symbol('6'),
        16u8 => KeyResolution::Symbol('7'),
        17u8 => KeyResolution::Symbol('8'),
        18u8 => KeyResolution::Symbol('9'),
        19u8 => KeyResolution::Symbol('0'),
        _ => KeyResolution::Unmapped,
    }
}

/// Resolves one raw key code against the table.
pub fn resolve_key(code: u8) -> (r: KeyResolution)
    ensures
        r == spec_resolve_key(code),
{
    match code {
        9u8 => KeyResolution::Cancel,
        38u8 => KeyResolution::Symbol('a'),
        56u8 => KeyResolution::Symbol('b'),
        54u8 => KeyResolution::Symbol('c'),
        40u8 => KeyResolution::Symbol('d'),
        26u8 => KeyResolution::Symbol('e'),
        41u8 => KeyResolution::Symbol('f'),
        42u8 => KeyResolution::Symbol('g'),
        43u8 => KeyResolution::Symbol('h'),
        31u8 => KeyResolution::Symbol('i'),
        44u8 => KeyResolution::Symbol('j'),
        45u8 => KeyResolution::Symbol('k'),
        46u8 => KeyResolution::Symbol('l'),
        58u8 => KeyResolution::Symbol('m'),
        57u8 => KeyResolution::Symbol('n'),
        32u8 => KeyResolution::Symbol('o'),
        33u8 => KeyResolution::Symbol('p'),
        24u8 => KeyResolution::Symbol('q'),
        27u8 => KeyResolution::Symbol('r'),
        39u8 => KeyResolution::Symbol('s'),
        28u8 => KeyResolution::Symbol('t'),
        30u8 => KeyResolution::Symbol('u'),
        55u8 => KeyResolution::Symbol('v'),
        25u8 => KeyResolution::Symbol('w'),
        53u8 => KeyResolution::Symbol('x'),
        29u8 => KeyResolution::Symbol('y'),
        52u8 => KeyResolution::Symbol('z'),
        10u8 => KeyResolution::Symbol('1'),
        11u8 => KeyResolution::Symbol('2'),
        12u8 => KeyResolution::Symbol('3'),
        13u8 => KeyResolution::Symbol('4'),
        14u8 => KeyResolution::Symbol('5'),
        15u8 => KeyResolution::Symbol('6'),
        16u8 => KeyResolution::Symbol('7'),
        17u8 => KeyResolution::Symbol('8'),
        18u8 => KeyResolution::Symbol('9'),
        19u8 => KeyResolution::Symbol('0'),
        _ => KeyResolution::Unmapped,
    }
}

} // verus!
