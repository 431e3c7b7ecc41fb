//! The small pieces of code that the evaluation scenarios work on.
use vstd::prelude::*;

verus! {

/// Where to connect to.
#[derive(Debug, PartialEq, Eq)]
pub struct Connection {
    pub host: String,
    pub port: u16,
}

impl Connection {
    /// A connection to `port` of `host`.
    pub fn new(host: String, port: u16) -> (r: Self)
        ensures
            r == (Connection { host, port }),
    {
        Self { host, port }
    }
}

/// Twice `x`, where that is an `i32`, else the `i32` nearest to it.
pub open spec fn doubled(x: i32) -> int {
    if 2 * x > i32::MAX {
        i32::MAX as int
    } else if 2 * x < i32::MIN {
        i32::MIN as int
    } else {
        2 * x
    }
}

/// Doubles a number without overflow.
pub fn foo_bar(x: i32) -> (r: i32)
    ensures
        r == doubled(x),
{
    if x > i32::MAX / 2 {
        i32::MAX
    } else if x < i32::MIN / 2 {
        i32::MIN
    } else {
        x * 2
    }
}

/// Twice five.
pub fn caller() -> (r: i32)
    ensures
        r == 10,
{
    foo_bar(5)
}

/// Doubling is exact where there is room, and else stops at the end that it runs
/// into; it keeps the order of numbers.
pub proof fn doubling_keeps_the_order(x: i32, y: i32)
    ensures
        i32::MIN <= x + x <= i32::MAX ==> doubled(x) == x + x,
        x + x > i32::MAX ==> doubled(x) == i32::MAX,
        x + x < i32::MIN ==> doubled(x) == i32::MIN,
        x <= y ==> doubled(x) <= doubled(y),
{
}

} // verus!
