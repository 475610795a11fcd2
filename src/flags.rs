//! The eight processor status flags, each at its own bit of the status byte
//! (from bit 7 down: negative, overflow, unused, break, decimal,
//! interrupt-disable, zero, carry).

use vstd::prelude::*;

verus! {

/// One of the eight status flags.
#[derive(Clone, Copy, Debug, PartialEq, Eq, Structural)]
pub enum StatusFlag {
    Carry,
    Zero,
    InterruptDisable,
    Decimal,
    Break,
    Unused,
    Overflow,
    Negative,
}

/// The single bit that `f` occupies in the status byte.
pub open spec fn flag_mask(f: StatusFlag) -> u8 {
    match f {
        StatusFlag::Carry => 0x01,
        StatusFlag::Zero => 0x02,
        StatusFlag::InterruptDisable => 0x04,
        StatusFlag::Decimal => 0x08,
        StatusFlag::Break => 0x10,
        StatusFlag::Unused => 0x20,
        StatusFlag::Overflow => 0x40,
        StatusFlag::Negative => 0x80,
    }
}

/// Whether `f` is set in `status`.
pub open spec fn flag_is_set(status: u8, f: StatusFlag) -> bool {
    status & flag_mask(f) != 0
}

/// `status` with the bit of `f` set when `on` holds and cleared otherwise.
pub open spec fn with_flag(status: u8, f: StatusFlag, on: bool) -> u8 {
    if on {
        status | flag_mask(f)
    } else {
        status & !flag_mask(f)
    }
}

/// Whether bit 7, the sign bit, of `v` is set.
pub open spec fn sign_bit(v: u8) -> bool {
    v & 0x80 != 0
}

/// The status after a register has been loaded with `v`: zero set exactly
/// when `v` is 0, negative set exactly when bit 7 of `v` is set, every other
/// flag as it was.
pub open spec fn load_flags(status: u8, v: u8) -> u8 {
    with_flag(with_flag(status, StatusFlag::Zero, v == 0), StatusFlag::Negative, sign_bit(v))
}

impl StatusFlag {
    /// The bit mask of this flag.
    pub fn mask(&self) -> (r: u8)
        ensures
            r == flag_mask(*self),
    {
        match self {
            StatusFlag::Carry => 0x01,
            StatusFlag::Zero => 0x02,
            StatusFlag::InterruptDisable => 0x04,
            StatusFlag::Decimal => 0x08,
            StatusFlag::Break => 0x10,
            StatusFlag::Unused => 0x20,
            StatusFlag::Overflow => 0x40,
            StatusFlag::Negative => 0x80,
        }
    }
}

/// Every flag has a bit, and two different flags never share one.
pub proof fn lemma_flags_distinct(f: StatusFlag, g: StatusFlag)
    ensures
        flag_mask(f) != 0,
        f != g ==> flag_mask(f) & flag_mask(g) == 0,
{
    assert(forall|m: u8, n: u8|
        (m == 1 || m == 2 || m == 4 || m == 8 || m == 16 || m == 32 || m == 64 || m == 128) && (
        n == 1 || n == 2 || n == 4 || n == 8 || n == 16 || n == 32 || n == 64 || n == 128) ==> (m
        != n ==> m & n == 0)) by (bit_vector);
}

/// Setting or clearing one flag decides that flag and leaves every other
/// flag as it was.
pub proof fn lemma_with_flag(status: u8, f: StatusFlag, on: bool, g: StatusFlag)
    ensures
        flag_is_set(with_flag(status, f, on), f) == on,
        g != f ==> flag_is_set(with_flag(status, f, on), g) == flag_is_set(status, g),
{
    lemma_flags_distinct(f, g);
    let m = flag_mask(f);
    let n = flag_mask(g);
    assert((status | m) & m != 0 && (status & !m) & m == 0) by (bit_vector)
        requires
            m != 0,
    ;
    if g != f {
        assert(((status | m) & n != 0) == (status & n != 0) && ((status & !m) & n != 0) == (status
            & n != 0)) by (bit_vector)
            requires
                m & n == 0,
        ;
    }
}

/// The post-load update sets zero exactly when the loaded value is 0 and
/// negative exactly when its bit 7 is set; the other six flags keep their
/// values.
pub proof fn lemma_load_flags(status: u8, v: u8, g: StatusFlag)
    ensures
        flag_is_set(load_flags(status, v), StatusFlag::Zero) == (v == 0),
        flag_is_set(load_flags(status, v), StatusFlag::Negative) == sign_bit(v),
        g != StatusFlag::Zero && g != StatusFlag::Negative ==> flag_is_set(load_flags(status, v), g)
            == flag_is_set(status, g),
{
    let z = with_flag(status, StatusFlag::Zero, v == 0);
    lemma_with_flag(status, StatusFlag::Zero, v == 0, g);
    lemma_with_flag(z, StatusFlag::Negative, sign_bit(v), g);
    lemma_with_flag(z, StatusFlag::Negative, sign_bit(v), StatusFlag::Zero);
}

} // verus!
