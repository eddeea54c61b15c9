//! Assignment of timestamps to fixed-width windows.

use vstd::prelude::*;

verus! {

/// The window that holds `timestamp` when windows are `window_size` wide.
pub open spec fn epoch_spec(timestamp: u64, window_size: u32) -> int
    recommends
        window_size > 0,
{
    timestamp as int / window_size as int
}

/// The first instant of `window`.
pub open spec fn window_start_spec(window: u64, window_size: u32) -> int {
    window as int * window_size as int
}

/// The first instant after `window`.
pub open spec fn window_end_spec(window: u64, window_size: u32) -> int {
    window as int * window_size as int + window_size as int
}

/// Computes the window of a timestamp: the timestamp divided by the window
/// width, rounded down.
pub fn epoch_of(timestamp: u64, window_size: u32) -> (window: u64)
    requires
        window_size > 0,
    ensures
        window as int == epoch_spec(timestamp, window_size),
        window_start_spec(window, window_size) <= timestamp as int,
        (timestamp as int) < window_end_spec(window, window_size),
{
    let width: u64 = window_size as u64;
    proof {
        vstd::arithmetic::div_mod::lemma_fundamental_div_mod(
            timestamp as int,
            window_size as int,
        );
        vstd::arithmetic::div_mod::lemma_mod_bound(timestamp as int, window_size as int);
        assert(window_size as int * (timestamp as int / window_size as int) == (timestamp as int
            / window_size as int) * window_size as int) by (nonlinear_arith);
    }
    timestamp / width
}

/// Later timestamps never fall into earlier windows.
pub proof fn epoch_monotonic(t1: u64, t2: u64, window_size: u32)
    requires
        window_size > 0,
        t1 <= t2,
    ensures
        epoch_spec(t1, window_size) <= epoch_spec(t2, window_size),
{
    vstd::arithmetic::div_mod::lemma_div_is_ordered(
        t1 as int,
        t2 as int,
        window_size as int,
    );
}

/// A window is exactly the set of timestamps between its start and its end.
pub proof fn epoch_characterised(timestamp: u64, window: u64, window_size: u32)
    requires
        window_size > 0,
    ensures
        epoch_spec(timestamp, window_size) == window as int <==> (window_start_spec(
            window,
            window_size,
        ) <= timestamp as int && (timestamp as int) < window_end_spec(window, window_size)),
{
    let t = timestamp as int;
    let w = window_size as int;
    let k = window as int;
    vstd::arithmetic::div_mod::lemma_fundamental_div_mod(t, w);
    vstd::arithmetic::div_mod::lemma_mod_bound(t, w);
    if k * w <= t && t < k * w + w {
        vstd::arithmetic::div_mod::lemma_fundamental_div_mod_converse(t, w, k, t - k * w);
    }
    assert(w * (t / w) == (t / w) * w) by (nonlinear_arith);
}

} // verus!
