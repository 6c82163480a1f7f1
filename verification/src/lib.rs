//! Arithmetic and message formatting behind a pair of host-callable exports:
//! a wrapping 32-bit multiplication and a fixed-template console message.

use vstd::prelude::*;

verus! {

/// The value of the mathematical integer `x` reduced modulo 2^32 into the
/// two's-complement range of `i32`.
pub open spec fn wrap_to_i32(x: int) -> int {
    let m: int = x % 0x1_0000_0000;
    if m >= 0x8000_0000 {
        m - 0x1_0000_0000
    } else {
        m
    }
}

/// Multiplies two signed 32-bit integers, wrapping around on overflow in
/// two's-complement fashion.
pub fn multiply(a: i32, b: i32) -> (r: i32)
    ensures
        r as int == wrap_to_i32((a as int) * (b as int)),
{
    a.wrapping_mul(b)
}

/// Multiplying by zero yields zero: whatever `b` is, the wrapped product of
/// `0` and `b` is `0`, so `multiply(0, b)` returns `0`.
pub proof fn lemma_multiply_by_zero(b: i32)
    ensures
        wrap_to_i32(0 * (b as int)) == 0,
{
}

/// The wrapped product is commutative: swapping the factors never changes
/// what `multiply` returns.
pub proof fn lemma_multiply_commutes(a: i32, b: i32)
    ensures
        wrap_to_i32((a as int) * (b as int)) == wrap_to_i32((b as int) * (a as int)),
{
}

/// The text that the console logger writes for `action`: the fixed template
/// `"Logged Action: "` followed by the action text itself.
pub open spec fn log_message_of(action: Seq<char>) -> Seq<char> {
    "Logged Action: "@ + action
}

/// Formats the console message for `action`: the fixed template followed by
/// the action text, and nothing else.
pub fn log_message(action: &str) -> (r: String)
    ensures
        r@ == log_message_of(action@),
{
    let mut message = String::from_str("Logged Action: ");
    message.append(action);
    message
}

} // verus!
