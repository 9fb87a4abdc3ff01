//! Bookkeeping of the ADC-to-IQ conversion.
//!
//! The filters themselves are floating-point arithmetic and run in the driver.
//! What they read, how much of a buffer they consume and how many samples come
//! out is decided here.

use crate::streaming;
use crate::usb::bytes;
use vstd::arithmetic::div_mod;
use vstd::arithmetic::mul;
use vstd::arithmetic::power2;
use vstd::prelude::*;

verus! {

/// What one conversion consumes and produces.
#[derive(Clone, Copy, Debug, Eq, PartialEq, Structural)]
pub struct ConversionPlan {
    /// Input bytes consumed.
    pub consumed_bytes: usize,
    /// Samples written to the output.
    pub written: usize,
    /// Whether one more sample is produced than the output has room for.
    pub pending: bool,
}

/// Decimation factor in use: no decimation where none is asked for.
pub open spec fn effective_decimation(decimation_factor: usize) -> int {
    if decimation_factor == 0 {
        1
    } else {
        decimation_factor as int
    }
}

/// Bytes of one conversion group: four ADC values for each decimation phase.
///
/// A group keeps the phase of every decimation stage and yields two samples.
pub open spec fn group_bytes(decimation_factor: usize) -> int {
    8 * effective_decimation(decimation_factor)
}

/// Groups that a conversion of `raw_len` bytes into `out_len` samples takes:
/// whole groups only, and no more than the output asks for.
pub open spec fn conversion_groups(raw_len: int, decimation_factor: usize, out_len: int) -> int {
    let available = raw_len / group_bytes(decimation_factor);
    let requested = (out_len + 1) / 2;
    if available < requested {
        available
    } else {
        requested
    }
}

/// Plan of a conversion of `raw_len` bytes into `out_len` samples.
pub open spec fn conversion_plan(
    raw_len: int,
    decimation_factor: usize,
    out_len: int,
) -> ConversionPlan {
    let groups = conversion_groups(raw_len, decimation_factor, out_len);
    ConversionPlan {
        consumed_bytes: (groups * group_bytes(decimation_factor)) as usize,
        written: if out_len < 2 * groups { out_len as usize } else { (2 * groups) as usize },
        pending: out_len < 2 * groups,
    }
}

/// Decide what a conversion of `raw_len` bytes into `out_len` samples consumes
/// and produces.
///
/// Input is consumed in groups that preserve every decimation stage's
/// four-sample phase. One more sample than fits can therefore come out where
/// `out_len` is odd; the stream retains it.
pub fn plan_conversion(raw_len: usize, decimation_factor: usize, out_len: usize) -> (plan:
    ConversionPlan)
    ensures
        plan == conversion_plan(raw_len as int, decimation_factor, out_len as int),
        plan.consumed_bytes <= raw_len,
        plan.written <= out_len,
        plan.consumed_bytes == conversion_groups(raw_len as int, decimation_factor, out_len as int)
            * group_bytes(decimation_factor),
{
    let decimation: usize = if decimation_factor == 0 { 1 } else { decimation_factor };
    let available: usize = raw_len / 8 / decimation;
    let requested: usize = out_len / 2 + out_len % 2;
    let groups: usize = if available < requested { available } else { requested };
    proof {
        div_mod::lemma_div_denominator(raw_len as int, 8, decimation as int);
        lemma_plan_fits(raw_len as int, decimation_factor, out_len as int);
        assert(groups == conversion_groups(raw_len as int, decimation_factor, out_len as int));
        mul::lemma_mul_is_associative(groups as int, 8, decimation as int);
        assert(groups * 8 <= groups * 8 * decimation) by (nonlinear_arith)
            requires
                groups >= 0,
                decimation >= 1,
        ;
    }
    let consumed_bytes: usize = groups * 8 * decimation;
    let pairs: usize = groups * 2;
    ConversionPlan {
        consumed_bytes,
        written: if out_len < pairs { out_len } else { pairs },
        pending: out_len < pairs,
    }
}

/// A plan consumes no more than there is.
proof fn lemma_plan_fits(raw_len: int, decimation_factor: usize, out_len: int)
    requires
        raw_len >= 0,
        out_len >= 0,
    ensures
        0 <= conversion_groups(raw_len, decimation_factor, out_len),
        conversion_groups(raw_len, decimation_factor, out_len) * group_bytes(decimation_factor)
            <= raw_len,
        conversion_groups(raw_len, decimation_factor, out_len) <= raw_len / group_bytes(
            decimation_factor,
        ),
{
    let group = group_bytes(decimation_factor);
    let groups = conversion_groups(raw_len, decimation_factor, out_len);
    div_mod::lemma_fundamental_div_mod(raw_len, group);
    div_mod::lemma_div_pos_is_pos(raw_len, group);
    mul::lemma_mul_inequality(groups, raw_len / group, group);
    assert((raw_len / group) * group == group * (raw_len / group)) by (nonlinear_arith);
}

/// Law: every sample that comes out, written or pending, stands for exactly
/// `4 * decimation` consumed bytes, and at most one sample is left pending.
pub proof fn law_conversion_accounts_for_every_byte(
    raw_len: usize,
    decimation_factor: usize,
    out_len: usize,
)
    ensures
        ({
            let plan = conversion_plan(raw_len as int, decimation_factor, out_len as int);
            let produced = plan.written + if plan.pending { 1int } else { 0 };
            &&& plan.consumed_bytes == 4 * effective_decimation(decimation_factor) * produced
            &&& plan.pending ==> plan.written == out_len
        }),
{
    let d = effective_decimation(decimation_factor);
    let groups = conversion_groups(raw_len as int, decimation_factor, out_len as int);
    lemma_plan_fits(raw_len as int, decimation_factor, out_len as int);
    assert(groups * (8 * d) == 4 * d * (2 * groups)) by (nonlinear_arith);
    assert(2 * groups <= raw_len) by (nonlinear_arith)
        requires
            groups * (8 * d) <= raw_len,
            groups >= 0,
            d >= 1,
    ;
}

/// Law: of whole groups something is always converted, and whole groups are
/// left over.
pub proof fn law_whole_groups_make_progress(
    raw_len: usize,
    decimation_factor: usize,
    out_len: usize,
)
    requires
        raw_len > 0,
        out_len > 0,
        raw_len as int % group_bytes(decimation_factor) == 0,
    ensures
        ({
            let plan = conversion_plan(raw_len as int, decimation_factor, out_len as int);
            &&& 0 < plan.consumed_bytes <= raw_len
            &&& plan.written > 0
            &&& (raw_len - plan.consumed_bytes) % group_bytes(decimation_factor) == 0
        }),
{
    let group = group_bytes(decimation_factor);
    let groups = conversion_groups(raw_len as int, decimation_factor, out_len as int);
    lemma_plan_fits(raw_len as int, decimation_factor, out_len as int);
    div_mod::lemma_fundamental_div_mod(raw_len as int, group);
    let available = raw_len as int / group;
    assert(available > 0) by (nonlinear_arith)
        requires
            raw_len as int == group * available,
            raw_len > 0,
            group > 0,
    ;
    assert(groups > 0);
    assert(groups * group > 0) by (nonlinear_arith)
        requires
            groups > 0,
            group > 0,
    ;
    assert(raw_len - groups * group == group * (available - groups) + 0) by (nonlinear_arith)
        requires
            raw_len as int == group * available,
    ;
    div_mod::lemma_mod_multiples_vanish(available - groups, 0, group);
    div_mod::lemma_small_mod(0, group as nat);
    assert(2 * groups <= raw_len) by (nonlinear_arith)
        requires
            groups * group <= raw_len,
            group >= 8,
            groups >= 0,
    ;
}

/// Law: an output with room for everything drains a buffer of whole groups in
/// one conversion, with nothing pending.
pub proof fn law_a_large_output_drains_the_buffer(
    raw_len: usize,
    decimation_factor: usize,
    out_len: usize,
)
    requires
        raw_len as int % group_bytes(decimation_factor) == 0,
        out_len >= 2 * (raw_len as int / group_bytes(decimation_factor)),
    ensures
        ({
            let plan = conversion_plan(raw_len as int, decimation_factor, out_len as int);
            &&& plan.consumed_bytes == raw_len
            &&& plan.written == 2 * (raw_len as int / group_bytes(decimation_factor))
            &&& !plan.pending
        }),
{
    let group = group_bytes(decimation_factor);
    lemma_plan_fits(raw_len as int, decimation_factor, out_len as int);
    div_mod::lemma_fundamental_div_mod(raw_len as int, group);
    let groups = conversion_groups(raw_len as int, decimation_factor, out_len as int);
    assert(groups == raw_len as int / group);
    assert(groups * group == raw_len) by (nonlinear_arith)
        requires
            raw_len as int == group * groups,
    ;
    assert(2 * groups <= raw_len) by (nonlinear_arith)
        requires
            groups * group == raw_len,
            group >= 8,
            groups >= 0,
    ;
}

/// Number of halving stages that decimate by `factor`.
pub open spec fn stage_count(factor: nat) -> nat
    decreases factor,
{
    if factor <= 1 {
        0
    } else {
        1 + stage_count(factor / 2)
    }
}

/// Number of halving stages that decimate by `factor`.
pub fn decimation_stages(factor: usize) -> (stages: usize)
    ensures
        stages == stage_count(factor as nat),
        streaming::valid_decimation(factor) ==> power2::pow2(stages as nat) == factor,
{
    proof {
        if streaming::valid_decimation(factor) {
            law_stages_decimate_by_the_factor(factor);
        }
    }
    let mut rest: usize = factor;
    let mut stages: usize = 0;
    while rest > 1
        invariant
            stages + stage_count(rest as nat) == stage_count(factor as nat),
            stages + rest <= factor,
        decreases rest,
    {
        rest = rest / 2;
        stages = stages + 1;
    }
    stages
}

/// Samples that one halving stage makes of `samples`: two of each four.
pub open spec fn stage_outputs(samples: nat) -> nat {
    2 * (samples / 4)
}

/// Samples that `stages` halving stages make of `samples`.
pub open spec fn chain_outputs(samples: nat, stages: nat) -> nat
    decreases stages,
{
    if stages == 0 {
        samples
    } else {
        chain_outputs(stage_outputs(samples), (stages - 1) as nat)
    }
}

/// Law: the stages of a decimation by a power of two drop no sample of whole
/// groups: `2 * groups * factor` samples become `2 * groups`.
pub proof fn law_stages_drop_no_sample(groups: nat, stages: nat)
    ensures
        chain_outputs(2 * groups * power2::pow2(stages), stages) == 2 * groups,
    decreases stages,
{
    if stages == 0 {
        power2::lemma2_to64();
        assert(2 * groups * 1 == 2 * groups);
    } else {
        let half = power2::pow2((stages - 1) as nat);
        power2::lemma_pow2_unfold(stages);
        let samples = 2 * groups * power2::pow2(stages);
        assert(2 * groups * (2 * half) == 4 * (groups * half)) by (nonlinear_arith);
        assert(2 * groups * half == 2 * (groups * half)) by (nonlinear_arith);
        assert(samples / 4 == groups * half);
        assert(stage_outputs(samples) == 2 * groups * half);
        law_stages_drop_no_sample(groups, (stages - 1) as nat);
    }
}

/// Law: the stages of a factor are as many as fit: they decimate by no more than
/// the factor, and one more would decimate by more than it.
pub proof fn law_stages_halve_down_to_one(factor: nat)
    requires
        factor >= 1,
    ensures
        power2::pow2(stage_count(factor)) <= factor < power2::pow2(stage_count(factor) + 1),
    decreases factor,
{
    power2::lemma2_to64();
    if factor > 1 {
        law_stages_halve_down_to_one(factor / 2);
        let stages = stage_count(factor / 2);
        power2::lemma_pow2_unfold(stages + 1);
        power2::lemma_pow2_unfold(stages + 2);
    }
}

/// Law: the stages of a host decimation factor together decimate by exactly that
/// factor: each halves, and they multiply up to it.
pub proof fn law_stages_decimate_by_the_factor(factor: usize)
    requires
        factor == 1 || factor == 2 || factor == 4 || factor == 8 || factor == 16 || factor == 32
            || factor == 64,
    ensures
        power2::pow2(stage_count(factor as nat)) == factor,
{
    power2::lemma2_to64();
    reveal_with_fuel(stage_count, 8);
}

/// Law: a factor that is twice another takes one stage more.
pub proof fn law_doubling_the_factor_takes_one_more_stage(factor: nat)
    requires
        factor >= 1,
    ensures
        stage_count(2 * factor) == stage_count(factor) + 1,
        stage_count(1) == 0,
{
}

/// Law: what a conversion consumes is what its stages turn into the samples that
/// its plan announces: of each four bytes one sample goes into the first stage,
/// and what leaves the last one is written or pending.
pub proof fn law_the_stages_produce_what_the_plan_announces(
    raw_len: usize,
    factor: usize,
    out_len: usize,
)
    requires
        streaming::valid_decimation(factor),
    ensures
        ({
            let plan = conversion_plan(raw_len as int, factor, out_len as int);
            let produced = plan.written + if plan.pending { 1int } else { 0 };
            &&& plan.consumed_bytes as int % 4 == 0
            &&& chain_outputs((plan.consumed_bytes / 4) as nat, stage_count(factor as nat))
                == produced
        }),
{
    let plan = conversion_plan(raw_len as int, factor, out_len as int);
    let groups = conversion_groups(raw_len as int, factor, out_len as int);
    lemma_plan_fits(raw_len as int, factor, out_len as int);
    law_conversion_accounts_for_every_byte(raw_len, factor, out_len);
    law_stages_decimate_by_the_factor(factor);
    law_stages_drop_no_sample(groups as nat, stage_count(factor as nat));
    let produced = plan.written + if plan.pending { 1int } else { 0 };
    assert(2 * groups <= raw_len) by (nonlinear_arith)
        requires
            groups * (8 * factor) <= raw_len,
            groups >= 0,
            factor >= 1,
    ;
    assert(produced == 2 * groups);
    assert(plan.consumed_bytes == 4 * (2 * groups * factor)) by (nonlinear_arith)
        requires
            plan.consumed_bytes == 4 * (factor as int) * produced,
            produced == 2 * groups,
    ;
}

/// Law: a conversion goes as far as it can: it stops only where the output is full
/// or less than one group of input is left. A sample takes `4 * factor` bytes.
pub proof fn law_a_conversion_goes_as_far_as_it_can(raw_len: usize, factor: usize, out_len: usize)
    requires
        factor >= 1,
    ensures
        ({
            let plan = conversion_plan(raw_len as int, factor, out_len as int);
            let produced = plan.written + if plan.pending { 1int } else { 0 };
            &&& plan.consumed_bytes <= raw_len
            &&& plan.written <= out_len
            &&& plan.consumed_bytes == 4 * factor * produced
            &&& plan.written == out_len || raw_len - plan.consumed_bytes < 8 * factor
            &&& plan.pending ==> out_len as int % 2 == 1
        }),
{
    let groups = conversion_groups(raw_len as int, factor, out_len as int);
    let group = 8 * factor as int;
    lemma_plan_fits(raw_len as int, factor, out_len as int);
    law_conversion_accounts_for_every_byte(raw_len, factor, out_len);
    div_mod::lemma_fundamental_div_mod(raw_len as int, group);
    div_mod::lemma_mod_bound(raw_len as int, group);
    let available = raw_len as int / group;
    assert(2 * groups <= raw_len) by (nonlinear_arith)
        requires
            groups * group <= raw_len,
            group >= 8,
            groups >= 0,
    ;
    if groups == available {
        assert(groups * group == group * available) by (nonlinear_arith)
            requires
                groups == available,
        ;
    }
}

/// ADC value number `index` of `raw`: the low 12 bits of a 16-bit word.
pub open spec fn spec_adc_sample(raw: Seq<u8>, index: int) -> int {
    bytes::le_value(raw.subrange(2 * index, 2 * index + 2)) as int % 4096
}

/// Law: an ADC value is the low byte of its word and the low half of the high
/// byte, whatever else stands in the buffer.
pub proof fn law_adc_values_are_twelve_bits(raw: Seq<u8>, index: int)
    requires
        0 <= index,
        2 * index + 2 <= raw.len(),
    ensures
        spec_adc_sample(raw, index) == raw[2 * index] + 256 * (raw[2 * index + 1] as int % 16),
        0 <= spec_adc_sample(raw, index) < 4096,
{
    let word = raw.subrange(2 * index, 2 * index + 2);
    reveal_with_fuel(bytes::le_value, 3);
    assert(word.drop_first().drop_first().len() == 0);
    assert(word[0] == raw[2 * index] && word.drop_first()[0] == raw[2 * index + 1]);
}

/// ADC value number `index` of `raw`.
pub fn adc_sample(raw: &[u8], index: usize) -> (value: u16)
    requires
        2 * index + 2 <= raw@.len(),
    ensures
        value == spec_adc_sample(raw@, index as int),
        value < 4096,
{
    proof {
        let word = raw@.subrange(2 * index, 2 * index + 2);
        reveal_with_fuel(bytes::le_value, 3);
        assert(word.drop_first().drop_first().len() == 0);
    }
    let total: usize = raw.len();
    assert(2 * index + 2 <= total);
    let low: u16 = raw[2 * index] as u16;
    let high: u16 = raw[2 * index + 1] as u16;
    (low + 256 * high) % 4096
}

/// Last values pushed, in one piece of memory.
///
/// Each value is stored twice, one capacity apart, so that the values from the
/// oldest to the newest always stand side by side.
#[derive(Debug)]
pub struct History<T> {
    queue: Vec<T>,
    capacity: usize,
    next: usize,
}

impl<T> View for History<T> {
    type V = Seq<T>;

    /// The values held, oldest first.
    closed spec fn view(&self) -> Seq<T> {
        self.queue@.subrange(self.next as int, self.next + self.capacity)
    }
}

impl<T: Copy> History<T> {
    /// Whether both copies of every value agree.
    pub closed spec fn well_formed(self) -> bool {
        &&& 0 < self.capacity
        &&& self.next < self.capacity
        &&& self.queue@.len() == 2 * self.capacity
        &&& forall|i: int|
            0 <= i < self.capacity ==> #[trigger] self.queue@[i] == self.queue@[i + self.capacity]
    }

    /// History of `capacity` values, all equal to `fill`.
    pub fn new(capacity: usize, fill: T) -> (history: Self)
        requires
            0 < capacity <= usize::MAX / 2,
        ensures
            history.well_formed(),
            history@ == Seq::new(capacity as nat, |i: int| fill),
    {
        let mut queue: Vec<T> = Vec::new();
        while queue.len() < 2 * capacity
            invariant
                0 < capacity <= usize::MAX / 2,
                queue@.len() <= 2 * capacity,
                forall|i: int| 0 <= i < queue@.len() ==> #[trigger] queue@[i] == fill,
            decreases 2 * capacity - queue@.len(),
        {
            queue.push(fill);
        }
        let history: History<T> = History { queue, capacity, next: 0 };
        assert(history@ =~= Seq::new(capacity as nat, |i: int| fill));
        history
    }

    /// Store a value in place of the oldest one.
    pub fn push(&mut self, value: T)
        requires
            old(self).well_formed(),
        ensures
            final(self).well_formed(),
            final(self)@ == old(self)@.drop_first().push(value),
    {
        let total: usize = self.queue.len();
        let slot: usize = self.next;
        self.queue.set(slot, value);
        self.queue.set(slot + self.capacity, value);
        self.next = if slot + 1 == self.capacity { 0 } else { slot + 1 };
        assert(self@ =~= old(self)@.drop_first().push(value));
    }

    /// The `count` newest values, oldest of them first.
    pub fn recent(&self, count: usize) -> (values: &[T])
        requires
            self.well_formed(),
            count <= self@.len(),
        ensures
            values@ == self@.skip(self@.len() - count),
    {
        let total: usize = self.queue.len();
        let end: usize = self.next + self.capacity;
        let values: &[T] = vstd::slice::slice_subrange(self.queue.as_slice(), end - count, end);
        assert(values@ =~= self@.skip(self@.len() - count));
        values
    }
}

/// Values on their way through a fixed delay.
#[derive(Debug)]
pub struct DelayLine<T> {
    line: Vec<T>,
    next: usize,
}

impl<T> View for DelayLine<T> {
    type V = Seq<T>;

    /// The values under way, oldest first.
    closed spec fn view(&self) -> Seq<T> {
        self.line@.skip(self.next as int) + self.line@.take(self.next as int)
    }
}

impl<T: Copy> DelayLine<T> {
    /// Whether the position is inside the line.
    pub closed spec fn well_formed(self) -> bool {
        self.next < self.line@.len()
    }

    /// Delay of `length` values, all equal to `fill`.
    pub fn new(length: usize, fill: T) -> (delay: Self)
        requires
            0 < length,
        ensures
            delay.well_formed(),
            delay@ == Seq::new(length as nat, |i: int| fill),
    {
        let mut line: Vec<T> = Vec::new();
        while line.len() < length
            invariant
                0 < length,
                line@.len() <= length,
                forall|i: int| 0 <= i < line@.len() ==> #[trigger] line@[i] == fill,
            decreases length - line@.len(),
        {
            line.push(fill);
        }
        let delay: DelayLine<T> = DelayLine { line, next: 0 };
        assert(delay@ =~= Seq::new(length as nat, |i: int| fill));
        delay
    }

    /// Put a value in and take the oldest one out.
    pub fn push(&mut self, value: T) -> (oldest: T)
        requires
            old(self).well_formed(),
        ensures
            final(self).well_formed(),
            oldest == old(self)@[0],
            final(self)@ == old(self)@.drop_first().push(value),
    {
        let length: usize = self.line.len();
        let slot: usize = self.next;
        let oldest: T = self.line[slot];
        self.line.set(slot, value);
        self.next = if slot + 1 == length { 0 } else { slot + 1 };
        assert(self@ =~= old(self)@.drop_first().push(value));
        oldest
    }
}

/// Values held after pushing `values` one by one into `held`.
pub open spec fn pushed<T>(held: Seq<T>, values: Seq<T>) -> Seq<T>
    decreases values.len(),
{
    if values.len() == 0 {
        held
    } else {
        pushed(held.drop_first().push(values[0]), values.drop_first())
    }
}

/// Law: a history or a delay line holds the last values pushed, in order.
pub proof fn law_the_last_values_are_held<T>(held: Seq<T>, values: Seq<T>)
    requires
        held.len() > 0,
    ensures
        pushed(held, values) == (held + values).skip(values.len() as int),
    decreases values.len(),
{
    if values.len() == 0 {
        assert((held + values).skip(0) =~= held);
    } else {
        let next = held.drop_first().push(values[0]);
        law_the_last_values_are_held(next, values.drop_first());
        assert((next + values.drop_first()).skip(values.len() - 1) =~= (held + values).skip(
            values.len() as int,
        ));
    }
}

/// Law: no decimation is a decimation by one.
pub proof fn law_no_decimation_is_a_decimation_by_one(raw_len: int, out_len: int)
    ensures
        conversion_plan(raw_len, 0, out_len) == conversion_plan(raw_len, 1, out_len),
        effective_decimation(0) == 1,
        group_bytes(0) == 8,
        forall|factor: usize| factor >= 1 ==> #[trigger] group_bytes(factor) == 8 * factor,
        forall|factor: usize| factor >= 1 ==> #[trigger] effective_decimation(factor) == factor,
{
}

} // verus!
