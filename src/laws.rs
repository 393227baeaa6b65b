//! What holds of every handle: releases, moves and reports.
use vstd::prelude::*;

use crate::error_support::{debug_text, release_arg, ErrorContext};

verus! {

/// The boundary calls that a release decision amounts to, in order.
pub open spec fn drop_calls(arg: Option<u32>) -> Seq<u32> {
    match arg {
        Some(h) => seq![h],
        None => seq![],
    }
}

/// The character of a decimal digit `d < 10`.
pub open spec fn digit_char(d: nat) -> char {
    if d == 0 {
        '0'
    } else if d == 1 {
        '1'
    } else if d == 2 {
        '2'
    } else if d == 3 {
        '3'
    } else if d == 4 {
        '4'
    } else if d == 5 {
        '5'
    } else if d == 6 {
        '6'
    } else if d == 7 {
        '7'
    } else if d == 8 {
        '8'
    } else {
        '9'
    }
}

/// The decimal text of `n`, without leading zeros.
pub open spec fn decimal_of(n: nat) -> Seq<char>
    decreases n,
{
    if n < 10 {
        seq![digit_char(n)]
    } else {
        decimal_of(n / 10).push(digit_char(n % 10))
    }
}

/// `c` is one of the ten ASCII decimal digits.
pub open spec fn is_digit(c: char) -> bool {
    '0' <= c && c <= '9'
}

/// `t` occurs in `s` as a contiguous run.
pub open spec fn contains_text(s: Seq<char>, t: Seq<char>) -> bool {
    exists|i: int| 0 <= i && i + t.len() <= s.len() && #[trigger] s.subrange(i, i + t.len()) == t
}

proof fn lemma_decimal_digits(n: nat)
    ensures
        decimal_of(n).len() >= 1,
        forall|i: int| 0 <= i < decimal_of(n).len() ==> is_digit(#[trigger] decimal_of(n)[i]),
    decreases n,
{
    if n >= 10 {
        lemma_decimal_digits(n / 10);
    }
}

/// Releasing a non-zero handle makes exactly one `error-context-drop` call,
/// and its argument is that handle.
pub proof fn lemma_nonzero_handle_released_once(h: u32)
    requires
        h != 0,
    ensures
        drop_calls(release_arg(h)).len() == 1,
        drop_calls(release_arg(h))[0] == h,
{
}

/// Releasing the reserved handle `0` makes no `error-context-drop` call.
pub proof fn lemma_zero_handle_never_released()
    ensures
        drop_calls(release_arg(0)).len() == 0,
{
}

/// Whichever value a handle has been moved into, releasing it makes at most
/// one `error-context-drop` call; since `release` consumes the value and the
/// type cannot be copied, no second release of the same handle can follow.
pub proof fn lemma_moved_handle_released_at_most_once(moved: ErrorContext)
    ensures
        drop_calls(release_arg(moved@)).len() <= 1,
        drop_calls(release_arg(moved@)).len() == 1 ==> drop_calls(release_arg(moved@))[0]
            == moved@,
{
}

/// The debug report never holds the decimal text of the handle.
pub proof fn lemma_debug_hides_handle(c: ErrorContext)
    ensures
        !contains_text(debug_text(), decimal_of(c@ as nat)),
{
    let t = decimal_of(c@ as nat);
    let s = debug_text();
    lemma_decimal_digits(c@ as nat);
    assert forall|i: int| 0 <= i < s.len() implies !is_digit(#[trigger] s[i]) by {}
    if contains_text(s, t) {
        let i = choose|i: int|
            0 <= i && i + t.len() <= s.len() && #[trigger] s.subrange(i, i + t.len()) == t;
        assert(s.subrange(i, i + t.len())[0] == s[i]);
        assert(is_digit(t[0]));
    }
}

} // verus!
