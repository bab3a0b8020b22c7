//! Fixed mapping from physical key identity to a logical button index.
//!
//! A physical key is identified by its virtual key code, a plain `i32` (for
//! printable keys this is the ASCII code of the unshifted character). The
//! mapping is total: each of the sixteen keys of the fixed table resolves to
//! its documented button index in `0x0..=0xF`, and every other key resolves
//! to "unmapped", which is an absence, never an error.

use vstd::prelude::*;

verus! {

/// Key code of the escape key, which terminates the interactive loop.
pub const KEY_ESCAPE: i32 = 27;

pub const KEY_NUM1: i32 = 49;
pub const KEY_NUM2: i32 = 50;
pub const KEY_NUM3: i32 = 51;
pub const KEY_NUM4: i32 = 52;
pub const KEY_Q: i32 = 113;
pub const KEY_W: i32 = 119;
pub const KEY_E: i32 = 101;
pub const KEY_R: i32 = 114;
pub const KEY_A: i32 = 97;
pub const KEY_S: i32 = 115;
pub const KEY_D: i32 = 100;
pub const KEY_F: i32 = 102;
pub const KEY_Z: i32 = 122;
pub const KEY_X: i32 = 120;
pub const KEY_C: i32 = 99;
pub const KEY_V: i32 = 118;

/// The fixed key-to-button table: the sixteen mapped keys each yield their
/// documented button index; all other key codes yield `None`.
pub open spec fn spec_key2btn(key: i32) -> Option<usize> {
    if key == KEY_NUM1 {
        Some(0x1)
    } else if key == KEY_NUM2 {
        Some(0x2)
    } else if key == KEY_NUM3 {
        Some(0x3)
    } else if key == KEY_NUM4 {
        Some(0xC)
    } else if key == KEY_Q {
        Some(0x4)
    } else if key == KEY_W {
        Some(0x5)
    } else if key == KEY_E {
        Some(0x6)
    } else if key == KEY_R {
        Some(0xD)
    } else if key == KEY_A {
        Some(0x7)
    } else if key == KEY_S {
        Some(0x8)
    } else if key == KEY_D {
        Some(0x9)
    } else if key == KEY_F {
        Some(0xE)
    } else if key == KEY_Z {
        Some(0xA)
    } else if key == KEY_X {
        Some(0x0)
    } else if key == KEY_C {
        Some(0xB)
    } else if key == KEY_V {
        Some(0xF)
    } else {
        None
    }
}

/// Translates a physical key code to its logical button index, or `None`
/// when the key is not part of the fixed table.
pub fn key2btn(key: i32) -> (r: Option<usize>)
    ensures
        r == spec_key2btn(key),
{
    if key == KEY_NUM1 {
        Some(0x1)
    } else if key == KEY_NUM2 {
        Some(0x2)
    } else if key == KEY_NUM3 {
        Some(0x3)
    } else if key == KEY_NUM4 {
        Some(0xC)
    } else if key == KEY_Q {
        Some(0x4)
    } else if key == KEY_W {
        Some(0x5)
    } else if key == KEY_E {
        Some(0x6)
    } else if key == KEY_R {
        Some(0xD)
    } else if key == KEY_A {
        Some(0x7)
    } else if key == KEY_S {
        Some(0x8)
    } else if key == KEY_D {
        Some(0x9)
    } else if key == KEY_F {
        Some(0xE)
    } else if key == KEY_Z {
        Some(0xA)
    } else if key == KEY_X {
        Some(0x0)
    } else if key == KEY_C {
        Some(0xB)
    } else if key == KEY_V {
        Some(0xF)
    } else {
        None
    }
}

/// Every button index the table yields lies in `0x0..=0xF`.
pub proof fn lemma_key2btn_in_range(key: i32)
    ensures
        spec_key2btn(key) matches Some(b) ==> b <= 0xF,
{
}

/// The table maps distinct keys to distinct buttons: no two physical keys
/// share a logical button index.
pub proof fn lemma_key2btn_injective(k1: i32, k2: i32)
    requires
        spec_key2btn(k1) is Some,
        spec_key2btn(k1) == spec_key2btn(k2),
    ensures
        k1 == k2,
{
}

/// Every logical button index in `0x0..=0xF` is reachable from exactly one
/// key of the fixed table.
pub proof fn lemma_key2btn_covers(b: usize)
    requires
        b <= 0xF,
    ensures
        exists|key: i32| spec_key2btn(key) == Some(b),
{
    if b == 0x1 {
        assert(spec_key2btn(KEY_NUM1) == Some(b));
    } else if b == 0x2 {
        assert(spec_key2btn(KEY_NUM2) == Some(b));
    } else if b == 0x3 {
        assert(spec_key2btn(KEY_NUM3) == Some(b));
    } else if b == 0xC {
        assert(spec_key2btn(KEY_NUM4) == Some(b));
    } else if b == 0x4 {
        assert(spec_key2btn(KEY_Q) == Some(b));
    } else if b == 0x5 {
        assert(spec_key2btn(KEY_W) == Some(b));
    } else if b == 0x6 {
        assert(spec_key2btn(KEY_E) == Some(b));
    } else if b == 0xD {
        assert(spec_key2btn(KEY_R) == Some(b));
    } else if b == 0x7 {
        assert(spec_key2btn(KEY_A) == Some(b));
    } else if b == 0x8 {
        assert(spec_key2btn(KEY_S) == Some(b));
    } else if b == 0x9 {
        assert(spec_key2btn(KEY_D) == Some(b));
    } else if b == 0xE {
        assert(spec_key2btn(KEY_F) == Some(b));
    } else if b == 0xA {
        assert(spec_key2btn(KEY_Z) == Some(b));
    } else if b == 0x0 {
        assert(spec_key2btn(KEY_X) == Some(b));
    } else if b == 0xB {
        assert(spec_key2btn(KEY_C) == Some(b));
    } else {
        assert(spec_key2btn(KEY_V) == Some(b));
    }
}

} // verus!
