//! Rust's scalar and compound data types, one demonstration each, with the
//! demonstrated facts proved rather than merely executed. Floating point
//! lies outside what this library can state, so that demonstration stays
//! with the host.

use vstd::prelude::*;

verus! {

/// Walks through the scalar types: integers, booleans, characters.
pub fn scalar_types() {
    integers();
    booleans();
    characters();
}

/// Walks through the compound types: tuples and arrays.
pub fn compound_types() {
    tuples();
    arrays();
}

/// One value, three notations besides decimal: hexadecimal, octal and
/// binary, with an optional separator for readability.
pub fn integers() {
    let dec_representation = 97u8;
    let hex_representation = 0x61u8;
    let oct_representation = 0o141u8;
    let bin_representation = 0b0000_0000_0110_0001u16;
    assert(dec_representation == hex_representation);
    assert(hex_representation == oct_representation);
    assert(oct_representation as u16 == bin_representation);
    overflow();
}

/// The one boolean fact worth asserting.
pub fn booleans() {
    let boolean = true;
    assert(boolean);
}

/// Characters are Unicode scalar values, whatever the notation.
pub fn characters() {
    let character = '\u{1F63B}';
    assert(character == '\u{1F63B}');
}

/// Tuples can be destructured or indexed.
pub fn tuples() {
    let transparent_navy: (u8, u8, u8) = (0, 0, 128);
    let (_, _, blue_component) = transparent_navy;
    assert(blue_component == 128);
    assert(transparent_navy.1 == 0);
}

/// Arrays have a fixed length and are indexed from zero.
pub fn arrays() {
    let arr = [1u8, 2u8, 3u8];
    assert(arr[0] == 1);
    let arr: [u8; 5] = [42;5];
    assert(arr[4] == 42);
}

/// What the explicit alternatives to implicit overflow do at the edge of
/// `i8`: wrapping wraps around, checked declines.
pub fn overflow() {
    let at_limit = 127i8;

    let result = at_limit.wrapping_add(1);
    assert(result == -128i8);

    let result = at_limit.checked_add(1);
    assert(result.is_none());
}

} // verus!
