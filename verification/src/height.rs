//! Toroidal height-field addressing and temporal smoothing, used to keep the
//! camera visually grounded on generated terrain.

use vstd::prelude::*;
use crate::fixed::{Fx, FX_ONE, div_trunc, div_trunc_i64};
use crate::vec3::abs_int;

verus! {

/// Where a signed world coordinate lands inside `[0, wrap)`: the magnitude
/// is truncated to whole units and reduced modulo `wrap`; a negative
/// coordinate wraps back from the top instead of going negative.
pub open spec fn wrap_spec(raw: int, wrap: int) -> int {
    let mag = abs_int(raw) / (FX_ONE as int);
    let diff = mag % wrap;
    if raw >= 0 {
        diff
    } else if diff == 0 {
        0
    } else {
        wrap - diff
    }
}

/// Maps any fixed-point coordinate into `[0, wrap)` by magnitude-based
/// modulo with sign correction, realizing toroidal addressing over a finite
/// height field.
pub fn wrap_to_size(v: Fx, wrap: usize) -> (r: usize)
    requires
        wrap >= 1,
        v.raw > i64::MIN,
    ensures
        r == wrap_spec(v.raw as int, wrap as int),
        r < wrap,
{
    let mag64: u64 = if v.raw >= 0 {
        (v.raw as u64) / (FX_ONE as u64)
    } else {
        ((-v.raw) as u64) / (FX_ONE as u64)
    };
    let wrap64: u64 = wrap as u64;
    let diff: u64 = mag64 % wrap64;
    let r64: u64 = if v.raw >= 0 {
        diff
    } else if diff == 0 {
        0
    } else {
        wrap64 - diff
    };
    r64 as usize
}

/// A `W x W` toroidal height field with a five-slot rolling history of
/// sampled heights, smoothed by the fixed weights `[5, 3, 2, 1, 1] / 12`.
pub struct HeightSampler {
    pub field: Vec<Vec<Fx>>,
    pub size: usize,
    pub h0: Fx,
    pub h1: Fx,
    pub h2: Fx,
    pub h3: Fx,
    pub h4: Fx,
}

/// Bound on history entries so the weighted sum stays inside `i64`.
pub const HEIGHT_BOUND: i64 = 0x80_0000_0000_0000;

impl HeightSampler {
    /// Square, nonempty field and a bounded history.
    pub open spec fn wf(self) -> bool {
        &&& self.size == self.field@.len()
        &&& self.size >= 1
        &&& forall|r: int|
            0 <= r < self.field@.len() ==> (#[trigger] self.field@[r])@.len() == self.size
        &&& -HEIGHT_BOUND <= self.h0.raw <= HEIGHT_BOUND
        &&& -HEIGHT_BOUND <= self.h1.raw <= HEIGHT_BOUND
        &&& -HEIGHT_BOUND <= self.h2.raw <= HEIGHT_BOUND
        &&& -HEIGHT_BOUND <= self.h3.raw <= HEIGHT_BOUND
        &&& -HEIGHT_BOUND <= self.h4.raw <= HEIGHT_BOUND
    }

    /// The stored field, row-major.
    pub open spec fn spec_field(self) -> Seq<Vec<Fx>> {
        self.field@
    }

    /// The field's side length.
    pub open spec fn spec_size(self) -> int {
        self.size as int
    }

    /// The rolling history, most recent first.
    pub open spec fn spec_history(self) -> (Fx, Fx, Fx, Fx, Fx) {
        (self.h0, self.h1, self.h2, self.h3, self.h4)
    }

    /// Wraps a field read from a backend: accepted exactly when the rows
    /// form a nonempty square; the history starts at zero.
    pub fn new(field: Vec<Vec<Fx>>) -> (r: Option<HeightSampler>)
        ensures
            r is Some <==> (field@.len() >= 1 && forall|i: int|
                0 <= i < field@.len() ==> (#[trigger] field@[i])@.len() == field@.len()),
            r is Some ==> {
                let s = r->0;
                &&& s.wf()
                &&& s.spec_field() == field@
                &&& s.spec_size() == field@.len()
                &&& s.spec_history() == (
                    Fx { raw: 0 },
                    Fx { raw: 0 },
                    Fx { raw: 0 },
                    Fx { raw: 0 },
                    Fx { raw: 0 },
                )
            },
    {
        let n = field.len();
        if n == 0 {
            return None;
        }
        let mut i: usize = 0;
        while i < n
            invariant
                i <= n,
                n == field@.len(),
                forall|r: int| 0 <= r < i ==> (#[trigger] field@[r])@.len() == n,
            decreases n - i,
        {
            if field[i].len() != n {
                return None;
            }
            i = i + 1;
        }
        let z = Fx { raw: 0 };
        Some(HeightSampler { field, size: n, h0: z, h1: z, h2: z, h3: z, h4: z })
    }

    /// Reads the height under a world coordinate pair, wrapping both axes
    /// toroidally; the row is selected by `z`, the column by `x`.
    pub fn sample_at(&self, x: Fx, z: Fx) -> (r: Fx)
        requires
            self.wf(),
            x.raw > i64::MIN,
            z.raw > i64::MIN,
        ensures
            r == self.spec_field()[wrap_spec(z.raw as int, self.spec_size())]@[wrap_spec(
                x.raw as int,
                self.spec_size(),
            )],
    {
        let row = wrap_to_size(z, self.size);
        let col = wrap_to_size(x, self.size);
        self.field[row][col]
    }

    /// Pushes `sample` into the rolling history (most recent first) and
    /// returns the weighted average with weights `[5, 3, 2, 1, 1] / 12`,
    /// truncated toward zero — a low-pass filter damping frame-to-frame
    /// height jitter.
    pub fn smoothed_height(&mut self, sample: Fx) -> (r: Fx)
        requires
            old(self).wf(),
            -HEIGHT_BOUND <= sample.raw <= HEIGHT_BOUND,
        ensures
            final(self).wf(),
            final(self).spec_field() == old(self).spec_field(),
            final(self).spec_size() == old(self).spec_size(),
            final(self).h0 == sample,
            final(self).h1 == old(self).h0,
            final(self).h2 == old(self).h1,
            final(self).h3 == old(self).h2,
            final(self).h4 == old(self).h3,
            r.raw == div_trunc(
                5 * final(self).h0.raw + 3 * final(self).h1.raw + 2 * final(self).h2.raw
                    + final(self).h3.raw + final(self).h4.raw,
                12,
            ),
    {
        self.h4 = self.h3;
        self.h3 = self.h2;
        self.h2 = self.h1;
        self.h1 = self.h0;
        self.h0 = sample;
        let sum: i64 = 5 * self.h0.raw + 3 * self.h1.raw + 2 * self.h2.raw + self.h3.raw
            + self.h4.raw;
        let q: i64 = div_trunc_i64(sum, 12);
        Fx { raw: q }
    }
}

} // verus!
