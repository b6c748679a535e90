//! The control of the loops of the script language: for the counting loop `for i = from
//! to end step s`, how its bounds are read from script values, when it stops, what it
//! does after each run of its body, and the loop run as a whole; for `while` and
//! `repeat`, what they do after each run. The interpreter evaluates the body and the
//! conditions and hands back how the body ended.

use vstd::prelude::*;
use crate::args::{Object, ObjectModel, Value, ValueModel};
use crate::num::{saturating_cast, saturating_trunc};
use crate::text::{parse_i64, parsed_i64};

verus! {

/// A bound or step as a script value gives it: a number as Rust's `as` converts a double
/// to `i64`, a boolean as 1 or 0, a string as `str::parse::<i64>` reads it; anything else
/// (and a string that is no integer) is a `for` error.
pub open spec fn for_value_spec(o: ObjectModel) -> Option<int> {
    match o.value {
        ValueModel::Num(n) => Some(saturating_cast(n, i64::MIN as int, i64::MAX as int)),
        ValueModel::Bool(b) => Some(if b { 1int } else { 0int }),
        ValueModel::String(s) => parsed_i64(s),
        _ => None,
    }
}

/// A bound or step of a `for` loop (see `for_value_spec`).
pub fn for_value(o: &Object) -> (r: Option<i64>)
    ensures
        match r {
            Some(n) => for_value_spec(o.model()) == Some(n as int),
            None => for_value_spec(o.model()) is None,
        },
{
    match &o.value {
        Value::Num(n) => Some(saturating_trunc(*n, i64::MIN, i64::MAX)),
        Value::Bool(b) => Some(if *b { 1 } else { 0 }),
        Value::String(s) => parse_i64(s.as_str()),
        _ => None,
    }
}

/// The state of a running `for` loop.
pub struct ForLoop {
    pub counter: i64,
    pub end: i64,
    pub step: i64,
}

/// How a run of the loop body ended.
#[derive(PartialEq, Eq, Clone, Copy, Structural)]
pub enum BlockEnd {
    /// The body ran to its end.
    Normal,
    /// `continue n`.
    Continue(u32),
    /// `break n`.
    Break(u32),
    /// Any other result that leaves the loop (a return value, `exit`).
    Leave,
}

/// What the loop does next.
#[derive(PartialEq, Eq, Clone, Copy, Structural)]
pub enum ForStep {
    /// Go on with the next value of the counter.
    Next,
    /// Leave the loop and pass `continue n` on to the enclosing loop.
    PassContinue(u32),
    /// Leave the loop and pass `break n` on to the enclosing loop.
    PassBreak(u32),
    /// Leave the loop by `break`; its `else` block does not run.
    Broke,
    /// Leave the loop with the body's result.
    Leave,
}

impl ForLoop {
    /// A loop from `from` to `to` by `step` (1 when there is none); `None` for a step of
    /// 0, which is an error ("step can not be 0").
    pub fn new(from: i64, to: i64, step: Option<i64>) -> (r: Option<ForLoop>)
        ensures
            r is None <==> step == Some(0i64),
            r matches Some(l) ==> l.counter == from && l.end == to
                && l.step == (match step { Some(s) => s, None => 1 }),
    {
        let s = match step {
            Some(s) => s,
            None => 1,
        };
        if s == 0 {
            None
        } else {
            Some(ForLoop { counter: from, end: to, step: s })
        }
    }

    /// Whether the counter has passed the end: above it for a rising loop, below it for
    /// a falling one.
    pub open spec fn done_spec(&self) -> bool {
        (self.step > 0 && self.counter > self.end) || (self.step < 0 && self.counter < self.end)
    }

    /// Whether the loop stops before running its body again (see `done_spec`).
    pub fn is_done(&self) -> (r: bool)
        ensures
            r == self.done_spec(),
    {
        (self.step > 0 && self.counter > self.end) || (self.step < 0 && self.counter < self.end)
    }

    /// Whether the counter moves on after this ending of the body: after a normal end and
    /// after `continue` (or `continue 1`).
    pub open spec fn advances(end: BlockEnd) -> bool {
        end == BlockEnd::Normal || (end matches BlockEnd::Continue(n) && n <= 1)
    }

    /// Whether the counter moves on after this ending of the body (see `advances`).
    pub fn advances_exec(end: BlockEnd) -> (r: bool)
        ensures
            r == Self::advances(end),
    {
        match end {
            BlockEnd::Normal => true,
            BlockEnd::Continue(n) => n <= 1,
            _ => false,
        }
    }

    /// What the loop does after its body ended as `end`: a normal end or `continue 1`
    /// adds the step to the counter and goes on; `continue n` and `break n` with n > 1
    /// leave the loop and pass on n - 1; `break 1` leaves the loop; any other result
    /// leaves it with that result.
    pub fn after_block(&mut self, end: BlockEnd) -> (r: ForStep)
        requires
            Self::advances(end) ==> i64::MIN <= old(self).counter + old(self).step <= i64::MAX,
        ensures
            final(self).end == old(self).end,
            final(self).step == old(self).step,
            Self::advances(end) ==> r == ForStep::Next && final(self).counter == old(self).counter + old(self).step,
            !Self::advances(end) ==> final(self).counter == old(self).counter,
            end matches BlockEnd::Continue(n) ==> (n > 1 ==> r == ForStep::PassContinue((n - 1) as u32)),
            end matches BlockEnd::Break(n) ==> (n > 1 ==> r == ForStep::PassBreak((n - 1) as u32)),
            end matches BlockEnd::Break(n) ==> (n <= 1 ==> r == ForStep::Broke),
            end == BlockEnd::Leave ==> r == ForStep::Leave,
    {
        match end {
            BlockEnd::Normal => {
                self.counter = self.counter + self.step;
                ForStep::Next
            },
            BlockEnd::Continue(n) => if n > 1 {
                ForStep::PassContinue(n - 1)
            } else {
                self.counter = self.counter + self.step;
                ForStep::Next
            },
            BlockEnd::Break(n) => if n > 1 {
                ForStep::PassBreak(n - 1)
            } else {
                ForStep::Broke
            },
            BlockEnd::Leave => ForStep::Leave,
        }
    }
}


/// How many times the body of `for i = from to end step s` runs when it always runs to
/// its end: none when the start is already past the end, else one more than the number
/// of whole steps from the start to the end.
pub open spec fn for_count(from: int, to: int, step: int) -> int {
    if (step > 0 && from > to) || (step < 0 && from < to) {
        0
    } else if step > 0 {
        (to - from) / step + 1
    } else {
        (from - to) / (-step) + 1
    }
}

/// How a `for` loop ended.
#[derive(PartialEq, Eq, Clone, Copy, Structural)]
pub enum ForExit {
    /// The counter passed the end; the `else` block runs.
    Completed,
    /// The body broke out of this loop.
    Broke,
    /// The body asked to continue an enclosing loop (`continue n`, passed on as n - 1).
    PassContinue(u32),
    /// The body asked to break an enclosing loop (`break n`, passed on as n - 1).
    PassBreak(u32),
    /// The body left with a result of its own.
    Leave,
}

/// The end of a loop run: how it ended, how many times the body ran, and the counter.
pub struct ForRun {
    pub exit: ForExit,
    pub runs: u64,
    pub counter: i64,
}

impl ForRun {
    /// Whether the loop's `else` block runs: exactly when the loop was not left from its
    /// body.
    pub fn runs_else(&self) -> (r: bool)
        ensures
            r == (self.exit == ForExit::Completed),
    {
        self.exit == ForExit::Completed
    }
}

/// The exit that a body ending which does not advance the counter makes.
pub open spec fn exit_of(end: BlockEnd) -> ForExit {
    match end {
        BlockEnd::Continue(n) => ForExit::PassContinue((n - 1) as u32),
        BlockEnd::Break(n) => if n > 1 { ForExit::PassBreak((n - 1) as u32) } else { ForExit::Broke },
        _ => ForExit::Leave,
    }
}

proof fn lemma_steps(from: int, to: int, step: int, j: int)
    requires
        step != 0,
        !((step > 0 && from > to) || (step < 0 && from < to)),
        0 <= j,
    ensures
        (j < for_count(from, to, step)) == !((step > 0 && from + j * step > to) || (step < 0 && from + j * step < to)),
        j <= for_count(from, to, step) ==> (step > 0 ==> from <= from + j * step <= from + for_count(from, to, step) * step),
        j <= for_count(from, to, step) ==> (step < 0 ==> from >= from + j * step >= from + for_count(from, to, step) * step),
{
    let c = for_count(from, to, step);
    if step > 0 {
        let d = to - from;
        let q = d / step;
        assert(d == q * step + d % step && 0 <= d % step < step) by {
            vstd::arithmetic::div_mod::lemma_fundamental_div_mod(d, step);
        }
        assert(j <= q ==> j * step <= q * step) by (nonlinear_arith)
            requires step > 0;
        assert(j >= q + 1 ==> j * step >= q * step + step) by (nonlinear_arith)
            requires step > 0;
        assert(j <= c ==> 0 <= j * step <= c * step) by (nonlinear_arith)
            requires step > 0, 0 <= j;
    } else {
        let d = from - to;
        let m = -step;
        let q = d / m;
        assert(d == q * m + d % m && 0 <= d % m < m) by {
            vstd::arithmetic::div_mod::lemma_fundamental_div_mod(d, m);
        }
        assert(j <= q ==> j * m <= q * m) by (nonlinear_arith)
            requires m > 0;
        assert(j >= q + 1 ==> j * m >= q * m + m) by (nonlinear_arith)
            requires m > 0;
        assert(j <= c ==> 0 <= j * m <= c * m) by (nonlinear_arith)
            requires m > 0, 0 <= j;
        assert(j * step == -(j * m)) by (nonlinear_arith)
            requires m == -step;
        assert(c * step == -(c * m)) by (nonlinear_arith)
            requires m == -step;
    }
}

/// Runs `for i = from to end step s` (the step 1 when there is none) with `body`, which
/// gets the counter of each run and tells how the run ended; `None` for a step of 0.
/// The body runs with the counter `from`, `from + s`, `from + 2s`, ... while the counter
/// has not passed the end. A normal end or `continue 1` goes on; any other ending leaves
/// the loop (see `exit_of`). When every run goes on, the body runs `for_count` times and
/// the loop completes with the counter one step past the last run; the loop completes
/// exactly when no run left it. The second result records each run: its counter and
/// how it ended.
pub fn run_for<F: Fn(i64) -> BlockEnd>(from: i64, to: i64, step: Option<i64>, body: &F)
    -> (r: Option<(ForRun, Ghost<Seq<(i64, BlockEnd)>>)>)
    requires
        forall|c: i64| body.requires((c,)),
        step != Some(0i64) ==> i64::MIN <= from + for_count(from as int, to as int,
            (match step { Some(s) => s, None => 1i64 }) as int) * (match step { Some(s) => s, None => 1i64 }) <= i64::MAX,
    ensures
        r is None <==> step == Some(0i64),
        r matches Some((run, log)) ==> {
            let s = match step { Some(s) => s, None => 1i64 } as int;
            &&& run.runs == log@.len()
            &&& forall|j: int| 0 <= j < log@.len() ==> (#[trigger] log@[j]).0 == from + j * s
                && body.ensures((log@[j].0,), log@[j].1)
            &&& forall|j: int| 0 <= j < log@.len() - 1 ==> ForLoop::advances((#[trigger] log@[j]).1)
            &&& (run.exit == ForExit::Completed) <==> (forall|j: int| 0 <= j < log@.len() ==> ForLoop::advances((#[trigger] log@[j]).1))
            &&& run.exit == ForExit::Completed ==> run.runs == for_count(from as int, to as int, s)
                && run.counter == from + for_count(from as int, to as int, s) * s
            &&& run.exit != ForExit::Completed ==> log@.len() > 0 && run.exit == exit_of(log@.last().1)
        },
{
    let mut l = match ForLoop::new(from, to, step) {
        Some(l) => l,
        None => return None,
    };
    let ghost s = l.step as int;
    assert(s == (match step { Some(x) => x, None => 1i64 }) as int);
    let ghost c = for_count(from as int, to as int, s);
    let ghost mut log: Seq<(i64, BlockEnd)> = Seq::empty();
    let mut runs: u64 = 0;
    proof {
        if !((s > 0 && from > to) || (s < 0 && from < to)) {
            lemma_steps(from as int, to as int, s, 0);
        }
    }
    while !l.is_done()
        invariant
            l.step == s,
            step != Some(0i64),
            s == (match step { Some(x) => x, None => 1i64 }) as int,
            l.end == to,
            s != 0,
            i64::MIN <= from + c * s <= i64::MAX,
            c == for_count(from as int, to as int, s),
            runs == log.len(),
            runs <= c,
            l.counter == from + runs * s,
            forall|c2: i64| body.requires((c2,)),
            forall|j: int| 0 <= j < log.len() ==> (#[trigger] log[j]).0 == from + j * s
                && body.ensures((log[j].0,), log[j].1),
            forall|j: int| 0 <= j < log.len() ==> ForLoop::advances((#[trigger] log[j]).1),
            (runs < c) == !l.done_spec(),
        decreases c - runs,
    {
        proof {
            lemma_steps(from as int, to as int, s, runs as int);
            lemma_steps(from as int, to as int, s, runs as int + 1);
            assert(from + (runs + 1) * s == from + runs * s + s) by (nonlinear_arith);
        }
        let e = body(l.counter);
        proof {
            log = log.push((l.counter, e));
        }
        if !ForLoop::advances_exec(e) {
            let exit = match e {
                BlockEnd::Continue(n) => ForExit::PassContinue(n - 1),
                BlockEnd::Break(n) => if n > 1 { ForExit::PassBreak(n - 1) } else { ForExit::Broke },
                _ => ForExit::Leave,
            };
            runs = runs + 1;
            return Some((ForRun { exit, runs, counter: l.counter }, Ghost(log)));
        }
        l.after_block(e);
        runs = runs + 1;
        proof {
            if (runs as int) < c {
                lemma_steps(from as int, to as int, s, runs as int);
            }
        }
    }
    proof {
        if (s > 0 && from > to) || (s < 0 && from < to) {
            assert(c == 0);
        }
    }
    Some((ForRun { exit: ForExit::Completed, runs, counter: l.counter }, Ghost(log)))
}


/// What a `while` or `repeat` loop does after a run of its body.
#[derive(PartialEq, Eq, Clone, Copy, Structural)]
pub enum LoopStep {
    /// Evaluate the loop's condition (before the next run for `while`, the `until`
    /// condition for `repeat`).
    Check,
    /// Run the body again at once, without evaluating any condition.
    Again,
    /// Leave the loop as `exit_of` says.
    Exit(ForExit),
}

/// What a `while` loop does after a run of its body: a normal end and `continue 1`
/// evaluate the condition again; any other ending leaves the loop.
pub open spec fn while_step_spec(end: BlockEnd) -> LoopStep {
    if ForLoop::advances(end) { LoopStep::Check } else { LoopStep::Exit(exit_of(end)) }
}

/// What a `while` loop does after a run of its body (see `while_step_spec`).
pub fn while_step(end: BlockEnd) -> (r: LoopStep)
    ensures
        r == while_step_spec(end),
{
    match end {
        BlockEnd::Normal => LoopStep::Check,
        BlockEnd::Continue(n) => if n <= 1 { LoopStep::Check } else { LoopStep::Exit(ForExit::PassContinue(n - 1)) },
        BlockEnd::Break(n) => if n > 1 { LoopStep::Exit(ForExit::PassBreak(n - 1)) } else { LoopStep::Exit(ForExit::Broke) },
        BlockEnd::Leave => LoopStep::Exit(ForExit::Leave),
    }
}

/// What a `repeat ... until` loop does after a run of its body: a normal end evaluates
/// the `until` condition; `continue 1` runs the body again without evaluating it; any
/// other ending leaves the loop.
pub open spec fn repeat_step_spec(end: BlockEnd) -> LoopStep {
    if end == BlockEnd::Normal {
        LoopStep::Check
    } else if ForLoop::advances(end) {
        LoopStep::Again
    } else {
        LoopStep::Exit(exit_of(end))
    }
}

/// What a `repeat ... until` loop does after a run of its body (see `repeat_step_spec`).
pub fn repeat_step(end: BlockEnd) -> (r: LoopStep)
    ensures
        r == repeat_step_spec(end),
{
    match end {
        BlockEnd::Normal => LoopStep::Check,
        BlockEnd::Continue(n) => if n <= 1 { LoopStep::Again } else { LoopStep::Exit(ForExit::PassContinue(n - 1)) },
        BlockEnd::Break(n) => if n > 1 { LoopStep::Exit(ForExit::PassBreak(n - 1)) } else { LoopStep::Exit(ForExit::Broke) },
        BlockEnd::Leave => LoopStep::Exit(ForExit::Leave),
    }
}


/// A `for` loop whose body always goes on runs once for each counter that has not
/// passed the end: the run with index `j` (from 0), at counter `from + j * step`, happens
/// exactly when that counter is at most `to` for a rising loop, at least `to` for a
/// falling one. A loop whose start equals its end runs once.
pub proof fn law_for_count_visits_in_range(from: int, to: int, step: int, j: int)
    requires
        step != 0,
        0 <= j,
    ensures
        for_count(from, to, step) >= 0,
        (j < for_count(from, to, step)) == (if step > 0 { from + j * step <= to } else { from + j * step >= to }),
        for_count(from, from, step) == 1,
{
    if (step > 0 && from > to) || (step < 0 && from < to) {
        assert(step > 0 ==> j * step >= 0) by (nonlinear_arith)
            requires 0 <= j;
        assert(step < 0 ==> j * step <= 0) by (nonlinear_arith)
            requires 0 <= j;
    } else {
        lemma_steps(from, to, step, j);
        lemma_steps(from, to, step, 0);
    }
    assert(0int / step == 0) by (nonlinear_arith)
        requires step != 0;
    assert(0int / (-step) == 0) by (nonlinear_arith)
        requires step != 0;
}


/// `while` and `repeat` react alike to every ending of the body except `continue` (or
/// `continue 1`), after which `while` checks its condition and `repeat` runs again at
/// once; a normal end makes both check. Every ending that leaves one leaves the other in
/// the same way, as a `for` loop is left: `break` (or `break 1`) breaks the loop itself,
/// `break n` and `continue n` for `n > 1` are passed on one level out as `n - 1`.
pub proof fn law_while_and_repeat_agree(end: BlockEnd, n: u32)
    ensures
        !ForLoop::advances(end) ==> while_step_spec(end) == repeat_step_spec(end)
            && while_step_spec(end) == LoopStep::Exit(exit_of(end)),
        while_step_spec(BlockEnd::Normal) == LoopStep::Check && repeat_step_spec(BlockEnd::Normal) == LoopStep::Check,
        n <= 1 ==> while_step_spec(BlockEnd::Continue(n)) == LoopStep::Check
            && repeat_step_spec(BlockEnd::Continue(n)) == LoopStep::Again,
        n <= 1 ==> exit_of(BlockEnd::Break(n)) == ForExit::Broke,
        n > 1 ==> exit_of(BlockEnd::Break(n)) == ForExit::PassBreak((n - 1) as u32)
            && exit_of(BlockEnd::Continue(n)) == ForExit::PassContinue((n - 1) as u32)
            && !ForLoop::advances(BlockEnd::Continue(n)),
{
}
} // verus!
