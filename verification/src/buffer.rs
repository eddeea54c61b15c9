//! Per-window buffers: what a stage holds of a window until the window
//! closes.

use std::collections::HashMap;
use vstd::prelude::*;

verus! {

broadcast use vstd::std_specs::hash::group_hash_axioms;

/// What is buffered for `window`: nothing where the window has no entry.
pub open spec fn buffered<T>(windows: Map<u64, Vec<T>>, window: u64) -> Seq<T> {
    if windows.contains_key(window) {
        windows[window]@
    } else {
        Seq::empty()
    }
}

/// Appends `items` to the buffer of `window`, which is created where the
/// window had none. No other window changes.
pub fn append_to_window<T: Copy>(windows: &mut HashMap<u64, Vec<T>>, window: u64, items: &Vec<T>)
    ensures
        final(windows)@.dom() == old(windows)@.dom().insert(window),
        buffered(final(windows)@, window) == buffered(old(windows)@, window) + items@,
        forall|other: u64|
            other != window ==> #[trigger] buffered(final(windows)@, other) == buffered(
                old(windows)@,
                other,
            ),
{
    let mut buffer: Vec<T> = match windows.remove(&window) {
        Some(buffer) => buffer,
        None => Vec::new(),
    };
    let ghost before = buffer@;
    let mut i: usize = 0;
    while i < items.len()
        invariant
            0 <= i <= items@.len(),
            buffer@ == before + items@.take(i as int),
        decreases items@.len() - i,
    {
        buffer.push(items[i]);
        assert(items@.take(i as int).push(items@[i as int]) =~= items@.take(i + 1));
        assert(buffer@ =~= before + items@.take(i + 1));
        i += 1;
    }
    assert(items@.take(i as int) =~= items@);
    windows.insert(window, buffer);
    assert(final(windows)@.dom() =~= old(windows)@.dom().insert(window));
}

/// Takes the buffer of `window` out, leaving the window without an entry.
/// No other window changes.
pub fn take_window<T>(windows: &mut HashMap<u64, Vec<T>>, window: u64) -> (taken: Option<Vec<T>>)
    ensures
        final(windows)@.dom() == old(windows)@.dom().remove(window),
        taken is Some == old(windows)@.contains_key(window),
        taken is Some ==> taken->Some_0 == old(windows)@[window],
        buffered(final(windows)@, window) == Seq::<T>::empty(),
        forall|other: u64|
            other != window ==> #[trigger] buffered(final(windows)@, other) == buffered(
                old(windows)@,
                other,
            ),
{
    let taken = windows.remove(&window);
    assert(final(windows)@.dom() =~= old(windows)@.dom().remove(window));
    taken
}

} // verus!
