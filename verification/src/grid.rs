//! The grid of the treatments of an experiment, and the run through it.
//!
//! Every input level is paired with every algorithm level. The pairs are
//! run with the input levels in the outer loop and the algorithm levels in
//! the inner one, so that the input of a level is built once, before the
//! first treatment that needs it.

use vstd::prelude::*;

verus! {

/// One treatment of the grid: the input level `i` paired with the algorithm
/// level `a`, the `t`-th pair in the order of execution. All three count
/// from zero.
#[derive(Clone, Copy, Debug, PartialEq, Eq, Structural)]
pub struct Run {
    pub t: usize,
    pub i: usize,
    pub a: usize,
}

/// The treatments of a grid in the order of execution: input levels in the
/// outer loop, algorithm levels in the inner one.
pub open spec fn grid(num_inputs: nat, num_algs: nat) -> Seq<Run> {
    Seq::new(
        num_inputs * num_algs,
        |t: int|
            Run { t: t as usize, i: (t / num_algs as int) as usize, a: (t % num_algs as int) as usize },
    )
}

/// The place of the pair `(i, a)` in the grid is `i * num_algs + a`.
pub proof fn lemma_grid_index(num_inputs: nat, num_algs: nat, i: nat, a: nat)
    requires
        i < num_inputs,
        a < num_algs,
        num_inputs * num_algs <= usize::MAX,
    ensures
        i * num_algs + a < num_inputs * num_algs,
        grid(num_inputs, num_algs)[(i * num_algs + a) as int] == (Run {
            t: (i * num_algs + a) as usize,
            i: i as usize,
            a: a as usize,
        }),
{
    let t = (i * num_algs + a) as int;
    let n = num_algs as int;
    assert(i * num_algs + a < num_inputs * num_algs) by (nonlinear_arith)
        requires
            i < num_inputs,
            a < num_algs,
    ;
    assert(t / n == i && t % n == a) by (nonlinear_arith)
        requires
            t == i * n + a,
            0 <= a < n,
            0 <= i,
    ;
    assert(i < usize::MAX && a < usize::MAX) by (nonlinear_arith)
        requires
            i * num_algs + a < num_inputs * num_algs,
            num_inputs * num_algs <= usize::MAX,
            i < num_inputs,
            a < num_algs,
    ;
}

/// Counts the treatments of `num_inputs` input levels crossed with
/// `num_algs` algorithm levels.
pub fn num_treatments(num_inputs: usize, num_algs: usize) -> (count: u128)
    ensures
        count == num_inputs * num_algs,
        count == grid(num_inputs as nat, num_algs as nat).len(),
{
    assert(num_inputs * num_algs <= u128::MAX) by (nonlinear_arith)
        requires
            num_inputs <= 0xffff_ffff_ffff_ffff,
            num_algs <= 0xffff_ffff_ffff_ffff,
    ;
    num_inputs as u128 * num_algs as u128
}

/// One step of a run of all treatments.
#[derive(Clone, Copy, Debug, PartialEq, Eq, Structural)]
pub enum Step {
    /// Build the input of the input level `i`. It serves all the treatments
    /// up to the next step of this kind.
    BuildInput { i: usize },
    /// Check and measure one treatment on the input that was built last.
    Measure(Run),
}

/// The steps for the input level `i`: its input is built, then it is paired
/// with each of the `num_algs` algorithm levels in turn.
pub open spec fn steps_of_input(i: nat, num_algs: nat) -> Seq<Step> {
    seq![Step::BuildInput { i: i as usize }] + Seq::new(
        num_algs,
        |a: int| Step::Measure(Run { t: (i * num_algs + a) as usize, i: i as usize, a: a as usize }),
    )
}

/// The steps of a run of all treatments: the steps of the input levels, one
/// level after another in the order in which they are given.
pub open spec fn steps(num_inputs: nat, num_algs: nat) -> Seq<Step>
    decreases num_inputs,
{
    if num_inputs == 0 {
        Seq::empty()
    } else {
        steps((num_inputs - 1) as nat, num_algs) + steps_of_input(
            (num_inputs - 1) as nat,
            num_algs,
        )
    }
}

/// The treatments that the steps measure, in the order of the steps.
pub open spec fn measured(steps: Seq<Step>) -> Seq<Run>
    decreases steps.len(),
{
    if steps.len() == 0 {
        Seq::empty()
    } else {
        match steps.last() {
            Step::BuildInput { .. } => measured(steps.drop_last()),
            Step::Measure(run) => measured(steps.drop_last()).push(run),
        }
    }
}

proof fn lemma_measured_add(first: Seq<Step>, second: Seq<Step>)
    ensures
        measured(first + second) == measured(first) + measured(second),
    decreases second.len(),
{
    if second.len() == 0 {
        assert(first + second =~= first);
        assert(measured(first) + measured(second) =~= measured(first));
    } else {
        lemma_measured_add(first, second.drop_last());
        assert((first + second).drop_last() =~= first + second.drop_last());
        assert((first + second).last() == second.last());
        assert(measured(first + second) =~= measured(first) + measured(second));
    }
}

proof fn lemma_measured_of_input(i: nat, num_algs: nat, upto: nat)
    requires
        upto <= num_algs,
    ensures
        measured(steps_of_input(i, num_algs).take(1 + upto as int)) == Seq::new(
            upto,
            |a: int| Run { t: (i * num_algs + a) as usize, i: i as usize, a: a as usize },
        ),
    decreases upto,
{
    let all = steps_of_input(i, num_algs);
    let taken = all.take(1 + upto as int);
    let target = Seq::new(
        upto,
        |a: int| Run { t: (i * num_algs + a) as usize, i: i as usize, a: a as usize },
    );
    if upto == 0 {
        assert(taken.drop_last() =~= Seq::<Step>::empty());
        assert(measured(taken.drop_last()) =~= Seq::<Run>::empty());
        assert(measured(taken) =~= target);
    } else {
        lemma_measured_of_input(i, num_algs, (upto - 1) as nat);
        assert(taken.drop_last() =~= all.take(upto as int));
        assert(measured(taken) =~= target);
    }
}

/// A run of all treatments measures every pair of an input level and an
/// algorithm level once: `num_inputs * num_algs` treatments, in the order
/// of their numbers `t`, which count up from zero.
pub proof fn lemma_steps_measure_grid(num_inputs: nat, num_algs: nat)
    requires
        num_inputs * num_algs <= usize::MAX,
    ensures
        measured(steps(num_inputs, num_algs)) == grid(num_inputs, num_algs),
        grid(num_inputs, num_algs).len() == num_inputs * num_algs,
        forall|t: int|
            0 <= t < num_inputs * num_algs ==> (#[trigger] grid(num_inputs, num_algs)[t]).t == t,
        forall|s: int, t: int|
            0 <= s < t < num_inputs * num_algs ==> (#[trigger] grid(num_inputs, num_algs)[s]).t < (
            #[trigger] grid(num_inputs, num_algs)[t]).t,
    decreases num_inputs,
{
    if num_inputs == 0 {
        assert(num_inputs * num_algs == 0) by (nonlinear_arith)
            requires
                num_inputs == 0,
        ;
        assert(measured(steps(num_inputs, num_algs)) =~= grid(num_inputs, num_algs));
    } else {
        let before = (num_inputs - 1) as nat;
        assert(before * num_algs <= num_inputs * num_algs) by (nonlinear_arith)
            requires
                before <= num_inputs,
        ;
        assert(before * num_algs + num_algs == num_inputs * num_algs) by (nonlinear_arith)
            requires
                before + 1 == num_inputs,
        ;
        lemma_steps_measure_grid(before, num_algs);
        lemma_measured_add(steps(before, num_algs), steps_of_input(before, num_algs));
        lemma_measured_of_input(before, num_algs, num_algs);
        assert(steps_of_input(before, num_algs).take(1 + num_algs as int) =~= steps_of_input(
            before,
            num_algs,
        ));
        let row = measured(steps_of_input(before, num_algs));
        let whole = grid(num_inputs, num_algs);
        let joint = grid(before, num_algs) + row;
        assert(joint.len() == whole.len());
        assert forall|t: int| 0 <= t < whole.len() implies joint[t] == whole[t] by {
            let n = num_algs as int;
            if t >= before * num_algs {
                let a = t - before * num_algs;
                assert(t / n == before && t % n == a) by (nonlinear_arith)
                    requires
                        t == before * n + a,
                        0 <= a < n,
                        0 <= before,
                ;
            }
        }
        assert(joint =~= whole);
    }
}

/// Lays out the run of all treatments of `num_inputs` input levels crossed
/// with `num_algs` algorithm levels: for every input level, in the order
/// given, the building of its input and then one measurement for every
/// algorithm level, in the order given.
pub fn schedule(num_inputs: usize, num_algs: usize) -> (plan: Vec<Step>)
    ensures
        plan@ == steps(num_inputs as nat, num_algs as nat),
{
    let mut plan: Vec<Step> = Vec::new();
    let mut t: usize = 0;
    let mut i: usize = 0;
    while i < num_inputs
        invariant
            i <= num_inputs,
            t == i * num_algs,
            t <= plan.len(),
            plan@ == steps(i as nat, num_algs as nat),
        decreases num_inputs - i,
    {
        let ghost before = plan@;
        let ghost row = steps_of_input(i as nat, num_algs as nat);
        plan.push(Step::BuildInput { i });
        let mut a: usize = 0;
        while a < num_algs
            invariant
                i < num_inputs,
                a <= num_algs,
                t == i * num_algs + a,
                t < plan.len(),
                row == steps_of_input(i as nat, num_algs as nat),
                plan@ == before + row.take(1 + a),
            decreases num_algs - a,
        {
            plan.push(Step::Measure(Run { t, i, a }));
            assert(plan@ =~= before + row.take(1 + a + 1));
            t += 1;
            a += 1;
        }
        proof {
            assert(i * num_algs + num_algs == (i + 1) * num_algs) by (nonlinear_arith);
            assert(row.take(1 + num_algs) =~= row);
        }
        i += 1;
    }
    plan
}

} // verus!
