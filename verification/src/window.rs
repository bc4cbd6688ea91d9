//! Extraction of the valid sample window from the circular capture buffer.
//!
//! The hardware writes the buffer circularly and leaves no explicit write
//! pointer: it is recovered from the pre/post-trigger status counters.
//! After a reset the counters and the write position start at zero, so a
//! capture of `count = pre_status + post_status` samples ends at
//! `count % BUFFER_SIZE` and the chronologically ordered window starts
//! `count` slots before that, wrapping at the buffer boundary.  A count
//! beyond the buffer capacity means the window overwrote itself; such a
//! capture is reported as overflowed, never silently clipped.

use vstd::prelude::*;

use vstd::arithmetic::div_mod::{lemma_mod_self_0, lemma_small_mod};

verus! {

/// Error reported when the status counters describe more samples than
/// the buffer can hold, so the oldest part of the window was overwritten
/// and its extent is ambiguous.
#[derive(Clone, Copy, Debug, PartialEq, Eq, Structural)]
pub enum WindowError {
    /// The counted window exceeds the buffer capacity.
    Overflow,
}

/// The time-ordered samples of one capture, oldest first, together with
/// the interpretation of each buffer slot: with `rle` set every slot is
/// a (value, run-length) record rather than a single raw sample, and the
/// count is a record count.
#[derive(Debug)]
pub struct SampleWindow {
    /// Samples in chronological order.
    pub samples: Vec<u16>,
    /// Whether each slot is a run-length-encoded record.
    pub rle: bool,
}

/// The implicit write pointer recovered from the status counters.
pub open spec fn spec_pointer(count: int) -> int {
    count % (crate::BUFFER_SIZE as int)
}

/// Buffer slot holding the `i`-th sample (oldest first) of a window of
/// `count` samples that ends at the write pointer.
pub open spec fn window_index(count: int, i: int) -> int {
    (spec_pointer(count) + crate::BUFFER_SIZE - count + i) % (crate::BUFFER_SIZE as int)
}

/// The whole time-ordered window of `count` samples, read circularly
/// out of the buffer.
pub open spec fn spec_window(buffer: Seq<u16>, count: int) -> Seq<u16> {
    Seq::new(count as nat, |i: int| buffer[window_index(count, i)])
}

/// A window that fits in the buffer never wraps past the write pointer:
/// counting from the reset position, its `i`-th sample sits in slot `i`,
/// strictly before the pointer's slot (or exactly filling the buffer).
pub proof fn lemma_window_no_wrap(count: int, i: int)
    requires
        0 <= count <= crate::BUFFER_SIZE,
        0 <= i < count,
    ensures
        window_index(count, i) == i,
{
    let b = crate::BUFFER_SIZE as int;
    if count < b {
        lemma_small_mod(count as nat, b as nat);
        assert(spec_pointer(count) == count);
        assert(window_index(count, i) == (b + i) % b);
        lemma_small_mod(i as nat, b as nat);
        assert((b + i) % b == i) by {
            vstd::arithmetic::div_mod::lemma_mod_add_multiples_vanish(i, b);
        }
    } else {
        lemma_mod_self_0(b);
        assert(spec_pointer(count) == 0);
        lemma_small_mod(i as nat, b as nat);
    }
}

/// Extract the valid, time-ordered sample window of the most recent
/// capture from the raw circular buffer, given the pre/post-trigger
/// status counters and the active slot interpretation.
pub fn extract_window(buffer: &Vec<u16>, pre_status: u32, post_status: u32, rle: bool) -> (r:
    Result<SampleWindow, WindowError>)
    requires
        buffer@.len() == crate::BUFFER_SIZE,
    ensures
        r is Ok <==> pre_status + post_status <= crate::BUFFER_SIZE,
        r matches Ok(w) ==> w.rle == rle,
        r matches Ok(w) ==> w.samples@.len() == pre_status + post_status,
        r matches Ok(w) ==> w.samples@ == spec_window(buffer@, pre_status + post_status),
{
    let count_wide: u64 = pre_status as u64 + post_status as u64;
    if count_wide > crate::BUFFER_SIZE as u64 {
        return Err(WindowError::Overflow);
    }
    let count: usize = count_wide as usize;
    let bsize: usize = crate::BUFFER_SIZE as usize;
    let pointer: usize = count % bsize;
    let start: usize = (pointer + bsize - count) % bsize;
    let mut samples: Vec<u16> = Vec::new();
    let mut i: usize = 0;
    proof {
        if count < bsize {
            lemma_small_mod(count as nat, bsize as nat);
        }
        lemma_mod_self_0(bsize as int);
        assert(start == 0);
    }
    while i < count
        invariant
            count == pre_status + post_status,
            count <= crate::BUFFER_SIZE,
            buffer@.len() == crate::BUFFER_SIZE,
            bsize == crate::BUFFER_SIZE,
            start == 0,
            i <= count,
            samples@.len() == i,
            forall|j: int| 0 <= j < i ==> samples@[j] == buffer@[window_index(count as int, j)],
        decreases count - i,
    {
        let idx: usize = (start + i) % bsize;
        proof {
            lemma_small_mod(i as nat, bsize as nat);
            lemma_window_no_wrap(count as int, i as int);
            assert(idx == window_index(count as int, i as int));
        }
        let sample = buffer[idx];
        samples.push(sample);
        i += 1;
    }
    proof {
        assert(samples@ =~= spec_window(buffer@, count as int));
    }
    Ok(SampleWindow { samples, rle })
}

} // verus!
