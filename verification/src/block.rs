//! Blocks and ports, the validation of the slices of a call, and the
//! recursion over the samples of a block in which the contracts of the nodes
//! are stated.

use vstd::prelude::*;

verus! {

/// How often a port carries a new value.
#[derive(Clone, Copy, Debug, PartialEq, Eq, Structural)]
pub enum Rate {
    /// One value per sample.
    Audio,
    /// One value per block.
    Control,
}

/// Position of a port among the inputs or the outputs of a node.
#[derive(Clone, Copy, Debug, PartialEq, Eq, Structural)]
pub struct PortId(pub usize);

/// A connection point of a node.
#[derive(Clone, Copy, Debug, PartialEq, Eq, Structural)]
pub struct Port {
    pub id: PortId,
    pub rate: Rate,
}

/// Why a call to a processing function was refused. The outputs and the state
/// are then as they were before the call.
#[derive(Clone, Copy, Debug, PartialEq, Eq, Structural)]
pub enum ShapeError {
    /// Fewer input slices than the node requires.
    MissingInput,
    /// Fewer output slices than the node declares.
    MissingOutput,
    /// A slice whose length is not the block's.
    LengthMismatch,
    /// A block size that a state cannot be made for.
    InvalidBlockSize,
}

impl ShapeError {
    /// A fixed description of the failure.
    pub fn description(&self) -> (r: &'static str)
        ensures
            r@ == describe(*self),
    {
        match self {
            ShapeError::MissingInput => "a required input is missing",
            ShapeError::MissingOutput => "a declared output is missing",
            ShapeError::LengthMismatch => "input and output block sizes must match",
            ShapeError::InvalidBlockSize => "the block size is not valid",
        }
    }
}

/// The text that `ShapeError::description` returns.
pub open spec fn describe(e: ShapeError) -> Seq<char> {
    match e {
        ShapeError::MissingInput => "a required input is missing"@,
        ShapeError::MissingOutput => "a declared output is missing"@,
        ShapeError::LengthMismatch => "input and output block sizes must match"@,
        ShapeError::InvalidBlockSize => "the block size is not valid"@,
    }
}

/// The ports `0 .. n`, all at audio rate, in order.
pub open spec fn audio_ports(n: nat) -> Seq<Port> {
    Seq::new(n, |i: int| Port { id: PortId(i as usize), rate: Rate::Audio })
}

/// Builds the port list `audio_ports(n)`.
pub fn make_audio_ports(n: usize) -> (r: Vec<Port>)
    ensures
        r@ == audio_ports(n as nat),
{
    let mut ports: Vec<Port> = Vec::new();
    let mut i: usize = 0;
    while i < n
        invariant
            i <= n,
            ports@.len() == i,
            forall|j: int| 0 <= j < i ==> ports@[j] == (Port { id: PortId(j as usize), rate: Rate::Audio }),
        decreases n - i,
    {
        ports.push(Port { id: PortId(i), rate: Rate::Audio });
        i += 1;
    }
    assert(ports@ =~= audio_ports(n as nat));
    ports
}

/// The input slices of a call as a sequence of sample sequences, by port.
pub open spec fn rows<S>(inputs: &[&[S]]) -> Seq<Seq<S>> {
    Seq::new(inputs@.len(), |p: int| inputs@[p]@)
}

/// The output buffers of a call as a sequence of sample sequences, by port.
pub open spec fn cols<S>(outputs: Seq<Vec<S>>) -> Seq<Seq<S>> {
    Seq::new(outputs.len(), |q: int| outputs[q]@)
}

/// The block length of a call: that of the first output where the node has
/// one, else that of the first input, else zero.
pub open spec fn block_len<S>(inputs: Seq<Seq<S>>, outputs: Seq<Seq<S>>, outs: nat) -> nat {
    if outs > 0 && outputs.len() > 0 {
        outputs[0].len()
    } else if inputs.len() > 0 {
        inputs[0].len()
    } else {
        0
    }
}

/// Whether every slice that the node will touch has the block length `n`.
///
/// The inputs below `strict` carry `n` samples. An input from `strict` up to
/// `declared` may be left out, or be empty, which means the same; otherwise it
/// carries `n` samples too. The first `outs` outputs hold `n` samples.
pub open spec fn lengths_agree<S>(
    inputs: Seq<Seq<S>>,
    outputs: Seq<Seq<S>>,
    n: nat,
    strict: nat,
    declared: nat,
    outs: nat,
) -> bool {
    &&& forall|p: int| 0 <= p < strict && p < inputs.len() ==> (#[trigger] inputs[p]).len() == n
    &&& forall|p: int|
        strict <= p < declared && p < inputs.len() ==> (#[trigger] inputs[p]).len() == 0
            || inputs[p].len() == n
    &&& forall|q: int| 0 <= q < outs && q < outputs.len() ==> (#[trigger] outputs[q]).len() == n
}

/// The verdict on the slices of a call: the block length, or the first
/// failure in the order missing input, missing output, length mismatch.
pub open spec fn shape_of<S>(
    inputs: Seq<Seq<S>>,
    outputs: Seq<Seq<S>>,
    required: nat,
    strict: nat,
    declared: nat,
    outs: nat,
) -> Result<nat, ShapeError> {
    if inputs.len() < required {
        Err(ShapeError::MissingInput)
    } else if outputs.len() < outs {
        Err(ShapeError::MissingOutput)
    } else if lengths_agree(inputs, outputs, block_len(inputs, outputs, outs), strict, declared, outs) {
        Ok(block_len(inputs, outputs, outs))
    } else {
        Err(ShapeError::LengthMismatch)
    }
}

/// The failure, if any, that `shape_of` finds.
pub open spec fn shape_verdict<S>(
    inputs: Seq<Seq<S>>,
    outputs: Seq<Seq<S>>,
    required: nat,
    strict: nat,
    declared: nat,
    outs: nat,
) -> Result<(), ShapeError> {
    match shape_of(inputs, outputs, required, strict, declared, outs) {
        Ok(_) => Ok(()),
        Err(e) => Err(e),
    }
}

/// Validates the slices of a call and returns the block length.
pub fn check_block<S>(
    inputs: &[&[S]],
    outputs: &[Vec<S>],
    required: usize,
    strict: usize,
    declared: usize,
    outs: usize,
) -> (r: Result<usize, ShapeError>)
    requires
        strict <= declared,
    ensures
        match r {
            Ok(n) => {
                &&& shape_of(rows(inputs), cols(outputs@), required as nat, strict as nat, declared as nat, outs as nat)
                    == Ok::<nat, ShapeError>(n as nat)
                &&& inputs@.len() >= required
                &&& outputs@.len() >= outs
                &&& forall|p: int| 0 <= p < strict && p < inputs@.len() ==> (#[trigger] inputs@[p])@.len() == n
                &&& forall|p: int|
                    strict <= p < declared && p < inputs@.len() ==> (#[trigger] inputs@[p])@.len() == 0
                        || inputs@[p]@.len() == n
                &&& forall|q: int| 0 <= q < outs ==> (#[trigger] outputs@[q])@.len() == n
            },
            Err(e) => shape_of(rows(inputs), cols(outputs@), required as nat, strict as nat, declared as nat, outs as nat)
                == Err::<nat, ShapeError>(e),
        },
{
    if inputs.len() < required {
        return Err(ShapeError::MissingInput);
    }
    if outputs.len() < outs {
        return Err(ShapeError::MissingOutput);
    }
    let n: usize = if outs > 0 && outputs.len() > 0 {
        outputs[0].len()
    } else if inputs.len() > 0 {
        inputs[0].len()
    } else {
        0
    };
    let ghost ins = rows(inputs);
    let ghost os = cols(outputs@);
    assert(block_len(ins, os, outs as nat) == n);
    let mut p: usize = 0;
    while p < declared && p < inputs.len()
        invariant
            ins == rows(inputs),
            os == cols(outputs@),
            block_len(ins, os, outs as nat) == n,
            inputs@.len() >= required,
            outputs@.len() >= outs,
            strict <= declared,
            forall|k: int| 0 <= k < p && k < strict ==> (#[trigger] ins[k]).len() == n,
            forall|k: int| strict <= k < p ==> (#[trigger] ins[k]).len() == 0 || ins[k].len() == n,
            p <= declared,
            p <= inputs@.len(),
        decreases inputs@.len() - p,
    {
        let len: usize = inputs[p].len();
        assert(ins[p as int].len() == len);
        if len != n && (p < strict || len != 0) {
            assert(!lengths_agree(ins, os, n as nat, strict as nat, declared as nat, outs as nat));
            return Err(ShapeError::LengthMismatch);
        }
        p += 1;
    }
    let mut q: usize = 0;
    while q < outs && q < outputs.len()
        invariant
            ins == rows(inputs),
            os == cols(outputs@),
            block_len(ins, os, outs as nat) == n,
            inputs@.len() >= required,
            outputs@.len() >= outs,
            forall|k: int| 0 <= k < strict && k < ins.len() ==> (#[trigger] ins[k]).len() == n,
            forall|k: int|
                strict <= k < declared && k < ins.len() ==> (#[trigger] ins[k]).len() == 0 || ins[k].len() == n,
            forall|k: int| 0 <= k < q ==> (#[trigger] os[k]).len() == n,
            q <= outs,
            q <= outputs@.len(),
        decreases outputs@.len() - q,
    {
        assert(os[q as int].len() == outputs@[q as int]@.len());
        if outputs[q].len() != n {
            assert(!lengths_agree(ins, os, n as nat, strict as nat, declared as nat, outs as nat));
            return Err(ShapeError::LengthMismatch);
        }
        q += 1;
    }
    assert forall|p: int| 0 <= p < strict && p < inputs@.len() implies (#[trigger] inputs@[p])@.len() == n by {
        assert(ins[p].len() == n);
    }
    assert forall|p: int| strict <= p < declared && p < inputs@.len() implies (#[trigger] inputs@[p])@.len() == 0
        || inputs@[p]@.len() == n by {
        assert(ins[p].len() == 0 || ins[p].len() == n);
    }
    assert forall|q: int| 0 <= q < outs implies (#[trigger] outputs@[q])@.len() == n by {
        assert(os[q].len() == n);
    }
    Ok(n)
}

/// The sample of input `p` at index `i`, or `default` where the port is left
/// out or empty.
pub open spec fn port_or<S>(inputs: Seq<Seq<S>>, p: int, i: int, default: S) -> S {
    if 0 <= p < inputs.len() && inputs[p].len() > 0 {
        inputs[p][i]
    } else {
        default
    }
}

/// Reads the sample of input `p` at index `i`.
pub fn read_at<S: Copy>(inputs: &[&[S]], p: usize, i: usize) -> (r: S)
    requires
        p < inputs@.len(),
        i < inputs@[p as int]@.len(),
    ensures
        r == rows(inputs)[p as int][i as int],
{
    inputs[p][i]
}

/// Reads `port_or(rows(inputs), p, i, default)`.
pub fn read_or<S: Copy>(inputs: &[&[S]], p: usize, i: usize, default: S) -> (r: S)
    requires
        p < inputs@.len() && inputs@[p as int]@.len() > 0 ==> i < inputs@[p as int]@.len(),
    ensures
        r == port_or(rows(inputs), p as int, i as int, default),
{
    if p < inputs.len() && inputs[p].len() > 0 {
        inputs[p][i]
    } else {
        default
    }
}

/// The state after `k` steps of a per-sample recursion `f`, which maps the
/// state before sample `i` to the state after it and the sample put out.
pub open spec fn state_after<St, S>(f: spec_fn(St, int) -> (St, S), st: St, k: nat) -> St
    decreases k,
{
    if k == 0 {
        st
    } else {
        f(state_after(f, st, (k - 1) as nat), k - 1).0
    }
}

/// The sample that the recursion `f` puts out at index `i`, started in `st`.
pub open spec fn output_at<St, S>(f: spec_fn(St, int) -> (St, S), st: St, i: int) -> S {
    f(state_after(f, st, i as nat), i).1
}

/// Whether `out` and `st1` are what the recursion `f` gives over a block as
/// long as `out`, started in `st0`.
pub open spec fn renders<St, S>(f: spec_fn(St, int) -> (St, S), st0: St, st1: St, out: Seq<S>) -> bool {
    &&& st1 == state_after(f, st0, out.len())
    &&& forall|i: int| 0 <= i < out.len() ==> out[i] == #[trigger] output_at(f, st0, i)
}

/// The recursion `f` with its sample index moved on by `by`: what `f` does
/// from sample `by` on, counted from zero.
pub open spec fn later<St, S>(f: spec_fn(St, int) -> (St, S), by: int) -> spec_fn(St, int) -> (St, S) {
    |st: St, i: int| f(st, i + by)
}

/// What every step keeps, a run keeps. If a step of the first `k` from a
/// state that meets `kept` leads to a state that meets it again, and puts out
/// a sample that meets `fine`, then a run of `k` steps from such a state ends
/// in such a state, and every sample it puts out meets `fine`.
pub proof fn lemma_run_keeps<St, S>(
    f: spec_fn(St, int) -> (St, S),
    st: St,
    k: nat,
    kept: spec_fn(St) -> bool,
    fine: spec_fn(S) -> bool,
)
    requires
        kept(st),
        forall|s: St, i: int| 0 <= i < k && kept(s) ==> kept((#[trigger] f(s, i)).0) && fine(f(s, i).1),
    ensures
        kept(state_after(f, st, k)),
        forall|i: int| 0 <= i < k ==> fine(#[trigger] output_at(f, st, i)),
    decreases k,
{
    if k > 0 {
        lemma_run_keeps(f, st, (k - 1) as nat, kept, fine);
        let before = state_after(f, st, (k - 1) as nat);
        assert(kept(f(before, k - 1).0) && fine(f(before, k - 1).1));
        assert forall|i: int| 0 <= i < k implies fine(#[trigger] output_at(f, st, i)) by {
            if i == k - 1 {
                assert(output_at(f, st, i) == f(before, k - 1).1);
            }
        }
    }
}

/// A run over `a + b` samples is a run over `a` samples followed by a run
/// over the `b` samples behind them: cutting a stream into blocks does not
/// change the state that it leaves.
pub proof fn lemma_state_after_split<St, S>(f: spec_fn(St, int) -> (St, S), st: St, a: nat, b: nat)
    ensures
        state_after(f, st, a + b) == state_after(later(f, a as int), state_after(f, st, a), b),
    decreases b,
{
    if b > 0 {
        lemma_state_after_split(f, st, a, (b - 1) as nat);
        assert(a + b - 1 == a + (b - 1) as nat);
    }
}

/// Cutting a stream into blocks does not change the samples put out either:
/// sample `a + i` of a run is sample `i` of the run that starts behind the
/// first `a` samples.
pub proof fn lemma_output_at_split<St, S>(f: spec_fn(St, int) -> (St, S), st: St, a: nat, i: nat)
    ensures
        output_at(f, st, (a + i) as int) == output_at(later(f, a as int), state_after(f, st, a), i as int),
{
    lemma_state_after_split(f, st, a, i);
}

/// Two recursions that agree on the first `k` samples leave the same state
/// after them.
pub proof fn lemma_state_after_agrees<St, S>(
    f: spec_fn(St, int) -> (St, S),
    g: spec_fn(St, int) -> (St, S),
    st: St,
    k: nat,
)
    requires
        forall|s: St, i: int| 0 <= i < k ==> #[trigger] f(s, i) == g(s, i),
    ensures
        state_after(f, st, k) == state_after(g, st, k),
    decreases k,
{
    if k > 0 {
        lemma_state_after_agrees(f, g, st, (k - 1) as nat);
    }
}

/// Two blocks in a row are one block. Where the recursion `whole` does on its
/// first `a` samples what `first` does, and on the `b` samples behind them
/// what `second` does, a run of `whole` over `a + b` samples leaves the state
/// and puts out the samples of a run of `first` over `a` samples followed by
/// a run of `second` over `b` samples from the state that the first run left.
pub proof fn lemma_blocks_join<St, S>(
    whole: spec_fn(St, int) -> (St, S),
    first: spec_fn(St, int) -> (St, S),
    second: spec_fn(St, int) -> (St, S),
    st: St,
    a: nat,
    b: nat,
)
    requires
        forall|s: St, i: int| 0 <= i < a ==> #[trigger] whole(s, i) == first(s, i),
        forall|s: St, i: int| 0 <= i < b ==> #[trigger] whole(s, i + a) == second(s, i),
    ensures
        state_after(whole, st, a + b) == state_after(second, state_after(first, st, a), b),
        forall|i: int| 0 <= i < a ==> #[trigger] output_at(whole, st, i) == output_at(first, st, i),
        forall|i: int|
            0 <= i < b ==> #[trigger] output_at(whole, st, a + i) == output_at(
                second,
                state_after(first, st, a),
                i,
            ),
{
    let mid = state_after(first, st, a);
    lemma_state_after_agrees(whole, first, st, a);
    assert forall|s: St, j: int| 0 <= j < b implies #[trigger] later(whole, a as int)(s, j) == second(s, j) by {
        assert(whole(s, j + a) == second(s, j));
    }
    lemma_state_after_split(whole, st, a, b);
    lemma_state_after_agrees(later(whole, a as int), second, mid, b);
    assert forall|i: int| 0 <= i < a implies #[trigger] output_at(whole, st, i) == output_at(first, st, i) by {
        lemma_state_after_agrees(whole, first, st, i as nat);
        assert(whole(state_after(first, st, i as nat), i) == first(state_after(first, st, i as nat), i));
    }
    assert forall|i: int| 0 <= i < b implies #[trigger] output_at(whole, st, a + i) == output_at(second, mid, i) by {
        lemma_state_after_split(whole, st, a, i as nat);
        lemma_state_after_agrees(later(whole, a as int), second, mid, i as nat);
        assert(whole(state_after(second, mid, i as nat), i + a) == second(state_after(second, mid, i as nat), i));
    }
}

/// A block has one rendering: two runs of one recursion from one state over
/// blocks of one length leave the same state and the same samples.
pub proof fn lemma_renders_unique<St, S>(
    f: spec_fn(St, int) -> (St, S),
    st0: St,
    st1: St,
    out1: Seq<S>,
    st2: St,
    out2: Seq<S>,
)
    requires
        renders(f, st0, st1, out1),
        renders(f, st0, st2, out2),
        out1.len() == out2.len(),
    ensures
        st1 == st2,
        out1 == out2,
{
    assert forall|i: int| 0 <= i < out1.len() implies out1[i] == out2[i] by {
        assert(out1[i] == output_at(f, st0, i));
        assert(out2[i] == output_at(f, st0, i));
    }
    assert(out1 =~= out2);
}

/// A call that is accepted has slices of one length: every input that the
/// node reads in full and every output that it writes is as long as the
/// block.
pub proof fn lemma_accepted_lengths<S>(
    inputs: Seq<Seq<S>>,
    outputs: Seq<Seq<S>>,
    required: nat,
    strict: nat,
    declared: nat,
    outs: nat,
    p: int,
    q: int,
)
    requires
        shape_verdict(inputs, outputs, required, strict, declared, outs).is_ok(),
        0 <= p < strict,
        p < inputs.len(),
        0 <= q < outs,
    ensures
        q < outputs.len(),
        inputs[p].len() == outputs[q].len(),
        inputs[p].len() == block_len(inputs, outputs, outs),
{
    let n = block_len(inputs, outputs, outs);
    assert(lengths_agree(inputs, outputs, n, strict, declared, outs));
    assert(inputs[p].len() == n);
    assert(outputs[q].len() == n);
}

/// A call with too few inputs, too few outputs or a slice of another length
/// is refused with the matching failure, whatever the node.
pub proof fn lemma_refused_shapes<S>(
    inputs: Seq<Seq<S>>,
    outputs: Seq<Seq<S>>,
    required: nat,
    strict: nat,
    declared: nat,
    outs: nat,
)
    ensures
        inputs.len() < required ==> shape_verdict(inputs, outputs, required, strict, declared, outs) == Err::<
            (),
            ShapeError,
        >(ShapeError::MissingInput),
        inputs.len() >= required && outputs.len() < outs ==> shape_verdict(
            inputs,
            outputs,
            required,
            strict,
            declared,
            outs,
        ) == Err::<(), ShapeError>(ShapeError::MissingOutput),
        inputs.len() >= required && outputs.len() >= outs && !lengths_agree(
            inputs,
            outputs,
            block_len(inputs, outputs, outs),
            strict,
            declared,
            outs,
        ) ==> shape_verdict(inputs, outputs, required, strict, declared, outs) == Err::<(), ShapeError>(
            ShapeError::LengthMismatch,
        ),
{
}

/// The lengths of a set of output buffers, by port.
pub open spec fn lens_of<S>(outputs: Seq<Vec<S>>) -> Seq<nat> {
    Seq::new(outputs.len(), |q: int| outputs[q]@.len())
}

/// The number of samples in the first `q` of a set of buffers with the
/// lengths `lens`.
pub open spec fn samples_before(lens: Seq<nat>, q: nat) -> nat
    decreases q,
{
    if q == 0 {
        0
    } else {
        samples_before(lens, (q - 1) as nat) + lens[q - 1]
    }
}

/// Whether the buffers `outputs`, one after the other, and `st1` are what the
/// recursion `f` gives over as many samples as they hold, started in `st0`.
pub open spec fn renders_all<St, S>(
    f: spec_fn(St, int) -> (St, S),
    st0: St,
    st1: St,
    outputs: Seq<Vec<S>>,
) -> bool {
    &&& st1 == state_after(f, st0, samples_before(lens_of(outputs), outputs.len()))
    &&& forall|q: int, i: int|
        0 <= q < outputs.len() && 0 <= i < outputs[q]@.len() ==> (#[trigger] outputs[q]@[i]) == output_at(
            f,
            st0,
            samples_before(lens_of(outputs), q as nat) + i,
        )
}

/// Whether two sets of output buffers have the same lengths, port by port.
pub open spec fn same_lens<S>(a: Seq<Vec<S>>, b: Seq<Vec<S>>) -> bool {
    &&& a.len() == b.len()
    &&& forall|q: int| 0 <= q < a.len() ==> (#[trigger] a[q])@.len() == b[q]@.len()
}

/// Whether the buffers from port `from` on hold the same samples in `a` and `b`.
pub open spec fn same_from<S>(a: Seq<Vec<S>>, b: Seq<Vec<S>>, from: int) -> bool {
    &&& a.len() == b.len()
    &&& forall|q: int| from <= q < a.len() ==> (#[trigger] a[q])@ == b[q]@
}

} // verus!
