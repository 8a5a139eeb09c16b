//! Sizing of a device buffer that grows by doubling and never shrinks.
//!
//! The buffer itself lives on the device. This module keeps its capacity,
//! decides when it has to be replaced by a larger one, and says when the
//! frame's bytes may be written.

use vstd::arithmetic::power2::{lemma_pow2_strictly_increases, lemma_pow2_unfold, pow2};
use vstd::prelude::*;

verus! {

/// Why an upload could not be served.
#[derive(Clone, Copy, Debug, PartialEq, Eq, Structural)]
pub enum BufferError {
    /// No buffer large enough could be had: either no doubling of the
    /// capacity reaches the demand, or the device refused the allocation.
    BufferAllocationFailure,
}

/// Where a buffer stands between two uploads.
#[derive(Clone, Copy, Debug, PartialEq, Eq, Structural)]
pub enum BufferPhase {
    /// The device buffer has the recorded capacity.
    Sized,
    /// A larger device buffer of `target` bytes has been asked for and is
    /// not there yet.
    Growing { target: u64 },
}

/// What the caller does next with the device buffer.
#[derive(Clone, Copy, Debug, PartialEq, Eq, Structural)]
pub enum UploadStep {
    /// Write the bytes at offset zero; they fit.
    Write,
    /// Replace the buffer by a fresh one of `capacity` bytes, report the
    /// outcome, then write. The old contents need not be kept.
    Reallocate { capacity: u64 },
}

/// `capacity` doubled `k` times.
pub open spec fn doubled(capacity: nat, k: nat) -> nat {
    capacity * pow2(k)
}

/// `grown` is the least doubling of `capacity` that holds `required` bytes.
pub open spec fn is_least_doubling(capacity: nat, required: nat, grown: nat) -> bool {
    &&& grown >= required
    &&& exists|k: nat| grown == #[trigger] doubled(capacity, k)
    &&& forall|k: nat| #[trigger] doubled(capacity, k) >= required ==> grown <= doubled(capacity, k)
}

/// Doubling more often never gives less.
proof fn lemma_doubled_monotonic(capacity: nat, j: nat, k: nat)
    requires
        j <= k,
    ensures
        doubled(capacity, j) <= doubled(capacity, k),
{
    if j < k {
        lemma_pow2_strictly_increases(j, k);
    }
    assert(capacity * pow2(j) <= capacity * pow2(k)) by (nonlinear_arith)
        requires
            pow2(j) <= pow2(k),
    ;
}

/// One more doubling is twice as much.
proof fn lemma_doubled_step(capacity: nat, k: nat)
    ensures
        doubled(capacity, k + 1) == 2 * doubled(capacity, k),
        doubled(capacity, 0) == capacity,
{
    lemma_pow2_unfold(k + 1);
    vstd::arithmetic::power2::lemma2_to64();
    assert(capacity * (2 * pow2(k)) == 2 * (capacity * pow2(k))) by (nonlinear_arith);
}

/// The capacity a buffer of `capacity` bytes needs for `required` bytes: the
/// capacity itself where that is enough, else the first of its doublings
/// that is. `None` when no doubling that fits in 64 bits is enough.
pub fn grown_capacity(capacity: u64, required: u64) -> (grown: Option<u64>)
    ensures
        match grown {
            Some(n) => is_least_doubling(capacity as nat, required as nat, n as nat),
            None => forall|k: nat| #[trigger]
                doubled(capacity as nat, k) >= required ==> doubled(capacity as nat, k) > u64::MAX,
        },
        capacity >= required ==> grown == Some(capacity),
{
    let mut size: u64 = capacity;
    let ghost mut steps: nat = 0;
    proof {
        lemma_doubled_step(capacity as nat, 0);
    }
    while size < required
        invariant
            size == doubled(capacity as nat, steps),
            capacity <= size,
            forall|j: nat| j < steps ==> #[trigger] doubled(capacity as nat, j) < required,
        decreases
                (if size < required {
                    required - size
                } else {
                    0
                }),
    {
        if size == 0 || size > u64::MAX / 2 {
            proof {
                assert forall|k: nat| #[trigger]
                    doubled(capacity as nat, k) >= required implies doubled(capacity as nat, k)
                    > u64::MAX by {
                    if k <= steps {
                        lemma_doubled_monotonic(capacity as nat, k, steps);
                    } else if size == 0 {
                        assert(capacity == 0);
                        assert(doubled(capacity as nat, k) == 0) by (nonlinear_arith)
                            requires
                                capacity == 0,
                                doubled(capacity as nat, k) == capacity * pow2(k),
                        ;
                    } else {
                        lemma_doubled_step(capacity as nat, steps);
                        lemma_doubled_monotonic(capacity as nat, steps + 1, k);
                    }
                }
            }
            return None;
        }
        proof {
            lemma_doubled_step(capacity as nat, steps);
            steps = steps + 1;
        }
        size = size * 2;
    }
    proof {
        assert forall|k: nat| #[trigger] doubled(capacity as nat, k) >= required implies size
            <= doubled(capacity as nat, k) by {
            if k < steps {
                assert(doubled(capacity as nat, k) < required);
            } else {
                lemma_doubled_monotonic(capacity as nat, steps, k);
            }
        }
        assert(size == doubled(capacity as nat, steps));
    }
    Some(size)
}

/// What is known of a device buffer: its capacity in bytes and its phase.
pub struct BufferView {
    pub capacity: u64,
    pub phase: BufferPhase,
}

/// The bookkeeping of one growable device buffer.
#[derive(Clone, Copy, Debug, PartialEq, Eq)]
pub struct GrowableBuffer {
    capacity: u64,
    phase: BufferPhase,
}

impl View for GrowableBuffer {
    type V = BufferView;

    closed spec fn view(&self) -> BufferView {
        BufferView { capacity: self.capacity, phase: self.phase }
    }
}

/// How `begin_upload` for `required` bytes takes a buffer from `before` to
/// `after`, and what it answers.
///
/// The capacity is not touched. Where the bytes fit, the answer is `Write`.
/// Where they do not, the answer is `Reallocate` to the least doubling of the
/// capacity that holds them, and the buffer is growing towards it; where no
/// such doubling fits in 64 bits, the answer is the failure. A growth that
/// was still pending is forgotten either way.
pub open spec fn upload_begun(
    before: BufferView,
    required: u64,
    after: BufferView,
    answer: Result<UploadStep, BufferError>,
) -> bool {
    &&& after.capacity == before.capacity
    &&& match answer {
        Ok(UploadStep::Write) => required <= before.capacity && after.phase == BufferPhase::Sized,
        Ok(UploadStep::Reallocate { capacity }) => {
            &&& required > before.capacity
            &&& is_least_doubling(before.capacity as nat, required as nat, capacity as nat)
            &&& after.phase == BufferPhase::Growing { target: capacity }
        },
        Err(BufferError::BufferAllocationFailure) => {
            &&& required > before.capacity
            &&& forall|k: nat| #[trigger]
                doubled(before.capacity as nat, k) >= required ==> doubled(
                    before.capacity as nat,
                    k,
                ) > u64::MAX
            &&& after.phase == BufferPhase::Sized
        },
    }
}

/// How `finish_growth` takes a buffer from `before` to `after`, and what it
/// answers, when the device did (`allocated`) or did not provide the buffer.
///
/// A growing buffer becomes sized: with the target capacity when the
/// allocation succeeded, with its old capacity and the failure as answer
/// when it did not. A buffer that was not growing stays as it is.
pub open spec fn growth_finished(
    before: BufferView,
    allocated: bool,
    after: BufferView,
    answer: Result<(), BufferError>,
) -> bool {
    match before.phase {
        BufferPhase::Growing { target } => {
            &&& after.phase == BufferPhase::Sized
            &&& allocated ==> after.capacity == target && answer == Ok::<(), BufferError>(())
            &&& !allocated ==> after.capacity == before.capacity && answer == Err::<
                (),
                BufferError,
            >(BufferError::BufferAllocationFailure)
        },
        BufferPhase::Sized => after == before && answer == Ok::<(), BufferError>(()),
    }
}

/// A buffer only ever grows towards more than it has.
pub open spec fn buffer_sound(buffer: BufferView) -> bool {
    match buffer.phase {
        BufferPhase::Growing { target } => target > buffer.capacity,
        BufferPhase::Sized => true,
    }
}

impl GrowableBuffer {
    #[verifier::type_invariant]
    spec fn sound(&self) -> bool {
        buffer_sound(self@)
    }

    /// The bookkeeping for a device buffer of `capacity` bytes.
    pub fn new(capacity: u64) -> (buffer: GrowableBuffer)
        ensures
            buffer@ == (BufferView { capacity, phase: BufferPhase::Sized }),
    {
        GrowableBuffer { capacity, phase: BufferPhase::Sized }
    }

    /// The capacity of the device buffer in bytes.
    pub fn capacity(&self) -> (capacity: u64)
        ensures
            capacity == self@.capacity,
    {
        self.capacity
    }

    /// The phase the buffer is in. A growing buffer grows towards more than
    /// its capacity.
    pub fn phase(&self) -> (phase: BufferPhase)
        ensures
            phase == self@.phase,
            buffer_sound(self@),
    {
        proof {
            use_type_invariant(self);
        }
        self.phase
    }

    /// Decides how `required` bytes get into the buffer.
    pub fn begin_upload(&mut self, required: u64) -> (answer: Result<UploadStep, BufferError>)
        ensures
            upload_begun(old(self)@, required, final(self)@, answer),
    {
        if self.capacity >= required {
            self.phase = BufferPhase::Sized;
            return Ok(UploadStep::Write);
        }
        match grown_capacity(self.capacity, required) {
            Some(target) => {
                self.phase = BufferPhase::Growing { target };
                Ok(UploadStep::Reallocate { capacity: target })
            },
            None => {
                self.phase = BufferPhase::Sized;
                Err(BufferError::BufferAllocationFailure)
            },
        }
    }

    /// Records how the reallocation that `begin_upload` asked for ended.
    pub fn finish_growth(&mut self, allocated: bool) -> (answer: Result<(), BufferError>)
        ensures
            growth_finished(old(self)@, allocated, final(self)@, answer),
            final(self)@.capacity >= old(self)@.capacity,
    {
        proof {
            use_type_invariant(&*self);
        }
        match self.phase {
            BufferPhase::Growing { target } => {
                self.phase = BufferPhase::Sized;
                if allocated {
                    self.capacity = target;
                    Ok(())
                } else {
                    Err(BufferError::BufferAllocationFailure)
                }
            },
            BufferPhase::Sized => Ok(()),
        }
    }
}

/// The least doubling that holds the bytes is unique.
pub proof fn lemma_least_doubling_unique(capacity: nat, required: nat, a: nat, b: nat)
    requires
        is_least_doubling(capacity, required, a),
        is_least_doubling(capacity, required, b),
    ensures
        a == b,
{
    let ka = choose|k: nat| a == #[trigger] doubled(capacity, k);
    let kb = choose|k: nat| b == #[trigger] doubled(capacity, k);
    assert(doubled(capacity, ka) >= required);
    assert(doubled(capacity, kb) >= required);
}

/// Growth before the write.
///
/// Let an upload of `required` bytes be answered by `Reallocate`. The new
/// capacity is then the least doubling of the old one that holds the bytes.
/// No write is announced until the growth has been reported: once it
/// succeeded, the same upload is answered by `Write` against the new
/// capacity; once it failed, the failure is the answer, the old capacity
/// stands, and the same upload is again answered by `Reallocate`, never by
/// `Write`.
pub proof fn lemma_growth_precedes_write(
    sized: BufferView,
    required: u64,
    growing: BufferView,
    target: u64,
    allocated: bool,
    settled: BufferView,
    report: Result<(), BufferError>,
    last: BufferView,
    answer: Result<UploadStep, BufferError>,
)
    requires
        upload_begun(
            sized,
            required,
            growing,
            Ok::<UploadStep, BufferError>(UploadStep::Reallocate { capacity: target }),
        ),
        growth_finished(growing, allocated, settled, report),
        upload_begun(settled, required, last, answer),
    ensures
        sized.capacity < required <= target,
        is_least_doubling(sized.capacity as nat, required as nat, target as nat),
        allocated ==> report is Ok && settled.capacity == target && answer == Ok::<
            UploadStep,
            BufferError,
        >(UploadStep::Write),
        !allocated ==> report == Err::<(), BufferError>(BufferError::BufferAllocationFailure)
            && settled.capacity == sized.capacity && answer == Ok::<UploadStep, BufferError>(
            UploadStep::Reallocate { capacity: target },
        ),
{
    if !allocated {
        match answer {
            Ok(UploadStep::Write) => {},
            Ok(UploadStep::Reallocate { capacity }) => {
                lemma_least_doubling_unique(
                    sized.capacity as nat,
                    required as nat,
                    capacity as nat,
                    target as nat,
                );
            },
            Err(_) => {
                let k = choose|k: nat| target as nat == #[trigger] doubled(sized.capacity as nat, k);
                assert(doubled(sized.capacity as nat, k) >= required);
            },
        }
    }
}

} // verus!
