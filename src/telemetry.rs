//! Trace correlation: the trace and span identifiers of the current span,
//! written as the fixed-width lower-case hex text that trace headers use.

use vstd::prelude::*;
use vstd::string::*;

verus! {

/// The hex digits, by value.
pub open spec fn hex_digits() -> Seq<char> {
    "0123456789abcdef"@
}

/// `v` written as `n` lower-case hex digits, most significant first, keeping
/// the low `4 * n` bits.
pub open spec fn hex_text(v: u128, n: nat) -> Seq<char> {
    Seq::new(n, |i: int| hex_digits()[((v >> ((4 * (n - 1 - i)) as u128)) & 15u128) as int])
}

/// `v` written as `n` lower-case hex digits.
fn hex_of(v: u128, n: usize) -> (r: String)
    requires
        n <= 32,
    ensures
        r@ == hex_text(v, n as nat),
{
    let digits = "0123456789abcdef";
    proof {
        reveal_strlit("0123456789abcdef");
    }
    let mut r = String::new();
    let mut i: usize = 0;
    while i < n
        invariant
            i <= n <= 32,
            digits@ == hex_digits(),
            hex_digits().len() == 16,
            r@ == hex_text(v, n as nat).subrange(0, i as int),
        decreases n - i,
    {
        let shift: u128 = (4 * (n - 1 - i)) as u128;
        let masked: u128 = (v >> shift) & 15u128;
        assert(masked <= 15) by (bit_vector)
            requires
                masked == (v >> shift) & 15u128,
        ;
        let d = masked as usize;
        let digit = digits.substring_char(d, d + 1);
        let ghost before = r@;
        r.append(digit);
        proof {
            assert(r@ =~= hex_text(v, n as nat).subrange(0, i + 1)) by {
                assert(r@ =~= before.push(hex_digits()[d as int]));
            }
        }
        i = i + 1;
    }
    proof {
        assert(hex_text(v, n as nat).subrange(0, n as int) =~= hex_text(v, n as nat));
    }
    r
}

/// The trace id (32 hex digits) and span id (16 hex digits) of a span
/// context, or `None` when the context is invalid: a context is valid when
/// neither id is zero.
pub fn get_trace_and_span_id(trace_id: u128, span_id: u64) -> (r: Option<(String, String)>)
    ensures
        trace_id != 0 && span_id != 0 ==> (r matches Some((t, s)) && t@ == hex_text(trace_id, 32)
            && s@ == hex_text(span_id as u128, 16)),
        trace_id == 0 || span_id == 0 ==> r is None,
{
    if trace_id != 0 && span_id != 0 {
        Some((hex_of(trace_id, 32), hex_of(span_id as u128, 16)))
    } else {
        None
    }
}

} // verus!
