//! The evaluator itself: construction, round advancement, score updates,
//! candidate-vector generation, and per-participant trust judgements.
//!
//! Scores are exact signed integers. The baseline threshold is the exact
//! rational `r * (2f + 1) / (3f + 1)`, kept as a numerator/denominator
//! pair; trust comparisons cross-multiply, so no rounding ever occurs.

use vstd::prelude::*;
use std::collections::VecDeque;

verus! {

/// Errors surfaced to the caller; every one is locally recoverable.
#[derive(Clone, Copy, Debug, PartialEq, Eq, Structural)]
pub enum AbseError {
    /// `new` was given a zero window capacity.
    ZeroSize,
    /// `generate` was invoked before any `update`.
    EmptyWindow,
    /// The vote-information vector is longer than the latest score vector.
    LengthMismatch,
    /// `judge` was queried with an index outside a non-empty reference vector.
    IndexOutOfRange,
}

/// `s` zero-extended on the right to length `n`.
pub open spec fn zero_extend(s: Seq<i64>, n: int) -> Seq<i64>
    recommends
        s.len() <= n,
{
    Seq::new(n as nat, |i: int| if i < s.len() { s[i] } else { 0i64 })
}

/// Mathematical model of an evaluator's state.
pub struct Model {
    /// The bounded FIFO history of score vectors, oldest first.
    pub window: Seq<Seq<i64>>,
    /// The most recently evicted score vector; empty before any eviction.
    pub reference: Seq<i64>,
    /// The externally supplied vote/weight vector.
    pub info: Seq<i64>,
    /// The round counter, advanced only by `advance_round`.
    pub round: int,
    /// Numerator of the baseline threshold `round * (2f + 1)`.
    pub baseline_num: int,
    /// Denominator of the baseline threshold `3f + 1`.
    pub baseline_den: int,
    /// The fixed window capacity.
    pub size: int,
}

impl Model {
    /// Well-formedness: positive capacity, window within capacity, and the
    /// baseline fields within the bounds that the update formula can produce
    /// (the round fits in `u32`, the denominator is positive and below
    /// `3 * u32::MAX + 1`, the numerator below `u32::MAX * (2 * u32::MAX + 1)`).
    pub open spec fn wf(self) -> bool {
        &&& 0 < self.size
        &&& self.window.len() <= self.size
        &&& 0 <= self.round <= u32::MAX
        &&& 1 <= self.baseline_den <= 3 * (u32::MAX as int) + 1
        &&& 0 <= self.baseline_num <= (u32::MAX as int) * (2 * (u32::MAX as int) + 1)
    }

    /// The trust verdict on participant `j`: default-trust while no eviction
    /// has happened, otherwise a strict comparison of the reference score
    /// against the baseline rational (`s > num / den`, cross-multiplied).
    pub open spec fn trusted(self, j: int) -> bool {
        self.reference.len() == 0 || self.reference[j] * self.baseline_den > self.baseline_num
    }
}

/// Adaptive baseline score evaluator.
pub struct ABSE {
    /// Round counter, advanced externally between rounds.
    r: u32,
    /// The most recently evicted score vector.
    ref_s: Vec<i64>,
    /// The bounded FIFO window of score vectors.
    scores_i: VecDeque<Vec<i64>>,
    /// The vote/weight information vector.
    info: Vec<i64>,
    /// Baseline numerator, recomputed on every `update`.
    bl_num: u128,
    /// Baseline denominator, recomputed on every `update`.
    bl_den: u64,
    /// Window capacity, fixed at construction.
    size: usize,
}

impl View for ABSE {
    type V = Model;

    closed spec fn view(&self) -> Model {
        Model {
            window: self.scores_i@.map_values(|v: Vec<i64>| v@),
            reference: self.ref_s@,
            info: self.info@,
            round: self.r as int,
            baseline_num: self.bl_num as int,
            baseline_den: self.bl_den as int,
            size: self.size as int,
        }
    }
}

impl ABSE {
    /// Well-formedness of the concrete evaluator, stated over its model.
    pub open spec fn wf(&self) -> bool {
        self@.wf()
    }

    /// Creates an evaluator with window capacity `size`: empty window, empty
    /// reference and vote vectors, round 0, baseline 0 (as the rational 0/1).
    /// A zero capacity would force an eviction on every update, so it is
    /// rejected outright.
    pub fn new(size: usize) -> (result: Result<ABSE, AbseError>)
        ensures
            match result {
                Ok(e) => {
                    &&& size > 0
                    &&& e.wf()
                    &&& e@.window.len() == 0
                    &&& e@.reference.len() == 0
                    &&& e@.info.len() == 0
                    &&& e@.round == 0
                    &&& e@.baseline_num == 0
                    &&& e@.baseline_den == 1
                    &&& e@.size == size
                },
                Err(err) => size == 0 && err == AbseError::ZeroSize,
            },
    {
        if size == 0 {
            return Err(AbseError::ZeroSize);
        }
        let e = ABSE {
            r: 0,
            ref_s: Vec::new(),
            scores_i: VecDeque::new(),
            info: Vec::new(),
            bl_num: 0,
            bl_den: 1,
            size,
        };
        Ok(e)
    }

    /// Advances the round counter by one. The protocol calls this between
    /// rounds; no evaluator operation advances the counter on its own.
    pub fn advance_round(&mut self)
        requires
            old(self).wf(),
            old(self)@.round < u32::MAX,
        ensures
            final(self).wf(),
            final(self)@.round == old(self)@.round + 1,
            final(self)@.window == old(self)@.window,
            final(self)@.reference == old(self)@.reference,
            final(self)@.info == old(self)@.info,
            final(self)@.baseline_num == old(self)@.baseline_num,
            final(self)@.baseline_den == old(self)@.baseline_den,
            final(self)@.size == old(self)@.size,
    {
        self.r = self.r + 1;
    }

    /// Records the score vector `s` for the current round. If the window was
    /// already at capacity, the oldest vector is evicted first and becomes the
    /// reference vector; otherwise the reference vector is untouched. The
    /// baseline is then recomputed as the exact rational
    /// `round * (2f + 1) / (3f + 1)` from the current round counter and the
    /// supplied fault-tolerance bound `f`.
    pub fn update(&mut self, s: Vec<i64>, f: u32)
        requires
            old(self).wf(),
        ensures
            final(self).wf(),
            final(self)@.round == old(self)@.round,
            final(self)@.info == old(self)@.info,
            final(self)@.size == old(self)@.size,
            final(self)@.baseline_num == old(self)@.round * (2 * f + 1),
            final(self)@.baseline_den == 3 * f + 1,
            old(self)@.window.len() < old(self)@.size ==> {
                &&& final(self)@.window == old(self)@.window.push(s@)
                &&& final(self)@.reference == old(self)@.reference
            },
            old(self)@.window.len() == old(self)@.size ==> {
                &&& final(self)@.window == old(self)@.window.drop_first().push(s@)
                &&& final(self)@.reference == old(self)@.window[0]
            },
    {
        let ghost prior = self@;
        if self.scores_i.len() >= self.size {
            if let Some(front) = self.scores_i.pop_front() {
                self.ref_s = front;
            }
        }
        self.scores_i.push_back(s);
        let den: u64 = 3 * (f as u64) + 1;
        proof {
            assert((self.r as int) * (2 * (f as int) + 1)
                <= (u32::MAX as int) * (2 * (u32::MAX as int) + 1)) by (nonlinear_arith)
                requires
                    self.r <= u32::MAX,
                    f <= u32::MAX,
            ;
        }
        let num: u128 = (self.r as u128) * (2 * (f as u128) + 1);
        self.bl_num = num;
        self.bl_den = den;
        proof {
            let vmap = |v: Vec<i64>| v@;
            if prior.window.len() < prior.size {
                assert(self.scores_i@.map_values(vmap) =~= prior.window.push(s@));
            } else {
                assert(self.scores_i@.map_values(vmap) =~= prior.window.drop_first().push(s@));
            }
        }
    }

    /// Produces the candidate score vector for broadcast: the elementwise sum
    /// of the vote-information vector and the most recently recorded score
    /// vector. A vote vector shorter than that score vector is first
    /// zero-extended to its length, and that extension persists in the
    /// evaluator; one longer than it is an error. The window, reference
    /// vector, baseline and round are untouched.
    ///
    /// The one precondition beyond well-formedness is a machine limit: each
    /// elementwise sum must fit in `i64`.
    pub fn generate(&mut self) -> (result: Result<Vec<i64>, AbseError>)
        requires
            old(self).wf(),
            old(self)@.window.len() > 0 && old(self)@.info.len()
                <= old(self)@.window.last().len() ==> forall|i: int|
                0 <= i < old(self)@.info.len() ==> i64::MIN <= #[trigger] old(self)@.info[i]
                    + old(self)@.window.last()[i] <= i64::MAX,
        ensures
            final(self).wf(),
            final(self)@.window == old(self)@.window,
            final(self)@.reference == old(self)@.reference,
            final(self)@.round == old(self)@.round,
            final(self)@.baseline_num == old(self)@.baseline_num,
            final(self)@.baseline_den == old(self)@.baseline_den,
            final(self)@.size == old(self)@.size,
            result is Ok <==> (old(self)@.window.len() > 0 && old(self)@.info.len() <= old(
                self,
            )@.window.last().len()),
            match result {
                Ok(v) => {
                    &&& final(self)@.info == zero_extend(
                        old(self)@.info,
                        old(self)@.window.last().len() as int,
                    )
                    &&& v@.len() == old(self)@.window.last().len()
                    &&& forall|i: int|
                        0 <= i < v@.len() ==> v@[i] == final(self)@.info[i] + old(
                            self,
                        )@.window.last()[i]
                },
                Err(err) => {
                    &&& final(self)@.info == old(self)@.info
                    &&& (err == AbseError::EmptyWindow <==> old(self)@.window.len() == 0)
                    &&& (err == AbseError::LengthMismatch <==> old(self)@.window.len() > 0 && old(
                        self,
                    )@.info.len() > old(self)@.window.last().len())
                },
            },
    {
        let n = self.scores_i.len();
        if n == 0 {
            return Err(AbseError::EmptyWindow);
        }
        let rear_len = self.scores_i[n - 1].len();
        proof {
            assert(old(self)@.window.last() == self.scores_i@[n - 1]@);
        }
        if self.info.len() > rear_len {
            return Err(AbseError::LengthMismatch);
        }
        while self.info.len() < rear_len
            invariant
                self.info@.len() <= rear_len,
                old(self)@.info.len() <= self.info@.len(),
                forall|i: int| 0 <= i < old(self)@.info.len() ==> self.info@[i] == old(
                    self,
                )@.info[i],
                forall|i: int|
                    old(self)@.info.len() <= i < self.info@.len() ==> self.info@[i] == 0i64,
                self.scores_i == old(self).scores_i,
                self.ref_s == old(self).ref_s,
                self.r == old(self).r,
                self.bl_num == old(self).bl_num,
                self.bl_den == old(self).bl_den,
                self.size == old(self).size,
            decreases rear_len - self.info.len(),
        {
            self.info.push(0);
        }
        proof {
            assert(self.info@ =~= zero_extend(old(self)@.info, rear_len as int));
        }
        let mut out: Vec<i64> = Vec::new();
        let mut i: usize = 0;
        while i < rear_len
            invariant
                i <= rear_len,
                out@.len() == i,
                n == self.scores_i@.len(),
                n >= 1,
                rear_len == self.scores_i@[n - 1]@.len(),
                self.info@ == zero_extend(old(self)@.info, rear_len as int),
                old(self)@.window.last() == self.scores_i@[n - 1]@,
                forall|i: int|
                    0 <= i < old(self)@.info.len() ==> i64::MIN <= #[trigger] old(self)@.info[i]
                        + old(self)@.window.last()[i] <= i64::MAX,
                forall|k: int|
                    0 <= k < i ==> out@[k] == self.info@[k] + self.scores_i@[n - 1]@[k],
                self.scores_i == old(self).scores_i,
                self.ref_s == old(self).ref_s,
                self.r == old(self).r,
                self.bl_num == old(self).bl_num,
                self.bl_den == old(self).bl_den,
                self.size == old(self).size,
            decreases rear_len - i,
        {
            let a = self.info[i];
            let b = self.scores_i[n - 1][i];
            out.push(a + b);
            i = i + 1;
        }
        Ok(out)
    }

    /// The trust verdict for participant `j`. While the reference vector is
    /// empty (no eviction has happened yet) every participant is trusted.
    /// Otherwise `j` is trusted iff its reference score strictly exceeds the
    /// baseline rational; a score equal to the baseline is not trusted. An
    /// index outside a non-empty reference vector is an error, never a
    /// default verdict.
    pub fn judge(&self, j: usize) -> (result: Result<bool, AbseError>)
        requires
            self.wf(),
        ensures
            result is Ok <==> (self@.reference.len() == 0 || j < self@.reference.len()),
            match result {
                Ok(b) => b == self@.trusted(j as int),
                Err(err) => err == AbseError::IndexOutOfRange,
            },
    {
        if self.ref_s.len() == 0 {
            return Ok(true);
        }
        if j >= self.ref_s.len() {
            return Err(AbseError::IndexOutOfRange);
        }
        let score: i64 = self.ref_s[j];
        let den: i128 = self.bl_den as i128;
        proof {
            assert(i64::MIN * (3 * (u32::MAX as int) + 1) <= (score as int) * (den as int)
                <= i64::MAX * (3 * (u32::MAX as int) + 1)) by (nonlinear_arith)
                requires
                    i64::MIN <= score <= i64::MAX,
                    1 <= den <= 3 * (u32::MAX as int) + 1,
            ;
        }
        let lhs: i128 = (score as i128) * den;
        let rhs: i128 = self.bl_num as i128;
        Ok(lhs > rhs)
    }

    /// Replaces the vote-information vector. The protocol supplies (and may
    /// reset) vote information between rounds; the evaluator itself only ever
    /// zero-extends it inside `generate`.
    pub fn set_vote_info(&mut self, info: Vec<i64>)
        requires
            old(self).wf(),
        ensures
            final(self).wf(),
            final(self)@.info == info@,
            final(self)@.window == old(self)@.window,
            final(self)@.reference == old(self)@.reference,
            final(self)@.round == old(self)@.round,
            final(self)@.baseline_num == old(self)@.baseline_num,
            final(self)@.baseline_den == old(self)@.baseline_den,
            final(self)@.size == old(self)@.size,
    {
        self.info = info;
    }

    /// The window capacity fixed at construction.
    pub fn size(&self) -> (result: usize)
        ensures
            result == self@.size,
    {
        self.size
    }

    /// How many score vectors the window currently holds.
    pub fn window_len(&self) -> (result: usize)
        ensures
            result == self@.window.len(),
    {
        self.scores_i.len()
    }

    /// The score vector at position `i` of the window (oldest first), or
    /// `None` if `i` is out of bounds.
    pub fn window_at(&self, i: usize) -> (result: Option<&Vec<i64>>)
        ensures
            match result {
                Some(v) => i < self@.window.len() && v@ == self@.window[i as int],
                None => i >= self@.window.len(),
            },
    {
        if i < self.scores_i.len() {
            Some(&self.scores_i[i])
        } else {
            None
        }
    }

    /// The reference vector: the most recently evicted score vector, empty
    /// while no eviction has happened.
    pub fn reference(&self) -> (result: &Vec<i64>)
        ensures
            result@ == self@.reference,
    {
        &self.ref_s
    }

    /// The vote-information vector as it currently stands.
    pub fn vote_info(&self) -> (result: &Vec<i64>)
        ensures
            result@ == self@.info,
    {
        &self.info
    }

    /// The current round counter.
    pub fn round(&self) -> (result: u32)
        ensures
            result == self@.round,
    {
        self.r
    }

    /// The numerator of the baseline rational.
    pub fn baseline_num(&self) -> (result: u128)
        ensures
            result == self@.baseline_num,
    {
        self.bl_num
    }

    /// The denominator of the baseline rational.
    pub fn baseline_den(&self) -> (result: u64)
        ensures
            result == self@.baseline_den,
    {
        self.bl_den
    }
}

/// Capacity invariant: a well-formed evaluator never holds more score vectors
/// than its capacity. `new` establishes well-formedness and every operation
/// preserves it, so this bound holds after any sequence of calls.
pub proof fn lemma_capacity_invariant(e: &ABSE)
    requires
        e.wf(),
    ensures
        e@.window.len() <= e@.size,
{
}

/// Default trust during warm-up: while the reference vector is empty, the
/// verdict on every index is `true`, whatever the baseline is.
pub proof fn lemma_default_trust(m: Model, j: int)
    requires
        m.reference.len() == 0,
    ensures
        m.trusted(j),
{
}

} // verus!
