//! A reference evaluator for the abstract syntax: an environment of bindings,
//! expression evaluation, and statement execution with explicit `Break` /
//! `Continue` signals. Execution is metered by a fuel bound so that a loop
//! that never ends is reported as exhausted rather than run forever; any
//! terminating program behaves identically under every sufficient fuel.
//!
//! Printing is modelled as a sequence of emitted events (a value with its
//! format) and reading as consuming a provided input sequence: realising them
//! against real streams is the surrounding driver's business, not the core's.
//! Resolving an unbound identifier yields `Undefined`, the permissive policy
//! of a weakly-typed language.

use vstd::prelude::*;
use crate::number::ONE_BITS;
use crate::number::ZERO_BITS;
use crate::runtime::Value;
use crate::runtime::ValueModel;
use crate::runtime::Variable;
use crate::runtime::spec_add;
use crate::runtime::spec_subtract;
use crate::runtime::spec_multiply;
use crate::runtime::spec_divide;
use crate::runtime::spec_modulo;
use crate::runtime::spec_equal;
use crate::runtime::spec_strict_equal;
use crate::runtime::spec_greater_than;
use crate::runtime::spec_less_than;
use crate::runtime::spec_to_boolean;
use crate::runtime::spec_negate;
use crate::syntax::Identifier;
use crate::syntax::Literal;
use crate::syntax::Expression;
use crate::syntax::Statement;
use crate::syntax::PrintFormat;

verus! {

/// The mathematical shadow of an environment: the bindings in the order they
/// were made, the latest one for a name in force.
pub type EnvModel = Seq<(Seq<char>, ValueModel)>;

/// The value a name is bound to, the latest binding winning; an unbound name
/// resolves to `Undefined`.
pub open spec fn lookup(env: EnvModel, name: Seq<char>) -> ValueModel
    decreases env.len(),
{
    if env.len() == 0 {
        ValueModel::Undefined
    } else if env.last().0 == name {
        env.last().1
    } else {
        lookup(env.drop_last(), name)
    }
}

/// A new binding is what a lookup of its name then finds — it replaces any
/// prior binding of that name — and it hides nothing else: every other name
/// resolves as before.
pub proof fn lemma_binding_shadows(
    env: EnvModel,
    name: Seq<char>,
    value: ValueModel,
    other: Seq<char>,
)
    ensures
        lookup(env.push((name, value)), name) == value,
        other != name ==> lookup(env.push((name, value)), other) == lookup(env, other),
{
    let extended = env.push((name, value));
    assert(extended.last() == (name, value));
    assert(extended.drop_last() =~= env);
}

/// The mapping from identifiers to values that assignment, increment,
/// decrement and read mutate.
pub struct Env {
    pub vars: Vec<Variable>,
}

impl View for Env {
    type V = EnvModel;

    open spec fn view(&self) -> EnvModel {
        self.vars@.map_values(|v: Variable| (v.ident.name@, v.value@))
    }
}

impl Env {
    pub fn new() -> (r: Env)
        ensures
            r@ == EnvModel::empty(),
    {
        let r = Env { vars: Vec::new() };
        proof {
            assert(r@ =~= EnvModel::empty());
        }
        r
    }

    /// Resolve a name against the bindings, the latest one winning.
    pub fn get(&self, name: &String) -> (r: Value)
        ensures
            r@ == lookup(self@, name@),
    {
        let mut i: usize = self.vars.len();
        proof {
            assert(self@.subrange(0, i as int) =~= self@);
        }
        while i > 0
            invariant
                i <= self.vars.len(),
                lookup(self@, name@) == lookup(self@.subrange(0, i as int), name@),
            decreases i,
        {
            if self.vars[i - 1].ident.name == *name {
                proof {
                    let pre = self@.subrange(0, i as int);
                    assert(pre.last() == self@[i - 1]);
                }
                return self.vars[i - 1].value.clone();
            }
            proof {
                let pre = self@.subrange(0, i as int);
                assert(pre.last() == self@[i - 1]);
                assert(pre.drop_last() =~= self@.subrange(0, i - 1));
            }
            i = i - 1;
        }
        proof {
            assert(self@.subrange(0, 0).len() == 0);
        }
        Value::Undefined
    }

    /// Bind a value to a name, replacing any prior binding.
    pub fn set(&mut self, ident: &Identifier, value: Value)
        ensures
            final(self)@ == old(self)@.push((ident.name@, value@)),
    {
        let cloned = ident.clone();
        self.vars.push(Variable { ident: cloned, value });
        proof {
            assert(self@ =~= old(self)@.push((ident.name@, value@)));
        }
    }
}

/// The value a boolean result takes in the untyped language: one for true,
/// zero for false.
pub open spec fn bool_value(b: bool) -> ValueModel {
    if b {
        ValueModel::Number(ONE_BITS)
    } else {
        ValueModel::Number(ZERO_BITS)
    }
}

/// The value a literal denotes.
pub open spec fn spec_literal_value(l: Literal) -> ValueModel {
    match l {
        Literal::Undefined => ValueModel::Undefined,
        Literal::Number(n) => ValueModel::Number(n),
        Literal::String(s) => ValueModel::Text(s@),
    }
}

/// What an expression evaluates to under an environment. Evaluation reads the
/// environment and nothing else, so it is a pure function of the tree and the
/// bindings. The four complementary comparisons are the exact logical
/// complements of their counterparts; that equivalence is the operators'
/// defined meaning.
pub open spec fn spec_eval(e: Expression, env: EnvModel) -> ValueModel
    decreases e,
{
    match e {
        Expression::Negate(inner) => bool_value(spec_negate(spec_eval(*inner, env))),
        Expression::Add(l, r) => spec_add(spec_eval(*l, env), spec_eval(*r, env)),
        Expression::Subtract(l, r) => spec_subtract(spec_eval(*l, env), spec_eval(*r, env)),
        Expression::Multiply(l, r) => spec_multiply(spec_eval(*l, env), spec_eval(*r, env)),
        Expression::Divide(l, r) => spec_divide(spec_eval(*l, env), spec_eval(*r, env)),
        Expression::Modulo(l, r) => spec_modulo(spec_eval(*l, env), spec_eval(*r, env)),
        Expression::Equal(l, r) => bool_value(spec_equal(spec_eval(*l, env), spec_eval(*r, env))),
        Expression::NotEqual(l, r) => bool_value(
            !spec_equal(spec_eval(*l, env), spec_eval(*r, env)),
        ),
        Expression::StrictEqual(l, r) => bool_value(
            spec_strict_equal(spec_eval(*l, env), spec_eval(*r, env)),
        ),
        Expression::StrictNotEqual(l, r) => bool_value(
            !spec_strict_equal(spec_eval(*l, env), spec_eval(*r, env)),
        ),
        Expression::GreaterThan(l, r) => bool_value(
            spec_greater_than(spec_eval(*l, env), spec_eval(*r, env)),
        ),
        Expression::GreaterOrEqualThan(l, r) => bool_value(
            !spec_less_than(spec_eval(*l, env), spec_eval(*r, env)),
        ),
        Expression::LessThan(l, r) => bool_value(
            spec_less_than(spec_eval(*l, env), spec_eval(*r, env)),
        ),
        Expression::LessOrEqualThan(l, r) => bool_value(
            !spec_greater_than(spec_eval(*l, env), spec_eval(*r, env)),
        ),
        Expression::Object(id) => lookup(env, id.name@),
        Expression::Literal(l) => spec_literal_value(l),
    }
}

/// Evaluating a numeric literal yields that number unchanged, whatever the
/// environment: the literal round-trip.
pub proof fn lemma_literal_round_trip(n: u64, env: EnvModel)
    ensures
        spec_eval(Expression::Literal(Literal::Number(n)), env) == ValueModel::Number(n),
{
}

fn bool_to_value(b: bool) -> (r: Value)
    ensures
        r@ == bool_value(b),
{
    if b {
        Value::Number(ONE_BITS)
    } else {
        Value::Number(ZERO_BITS)
    }
}

/// Evaluate an expression under an environment. The result is pinned to
/// `spec_eval` of the tree and the bindings alone, so evaluating the same
/// immutable expression twice under an unchanged environment yields the same
/// value both times: there is no hidden state.
pub fn eval_expression(e: &Expression, env: &Env) -> (r: Value)
    ensures
        r@ == spec_eval(*e, env@),
    decreases *e,
{
    match e {
        Expression::Negate(inner) => {
            let v = eval_expression(inner, env);
            bool_to_value(v.negate())
        },
        Expression::Add(l, r) => {
            let lv = eval_expression(l, env);
            let rv = eval_expression(r, env);
            lv.add(&rv)
        },
        Expression::Subtract(l, r) => {
            let lv = eval_expression(l, env);
            let rv = eval_expression(r, env);
            lv.subtract(&rv)
        },
        Expression::Multiply(l, r) => {
            let lv = eval_expression(l, env);
            let rv = eval_expression(r, env);
            lv.multiply(&rv)
        },
        Expression::Divide(l, r) => {
            let lv = eval_expression(l, env);
            let rv = eval_expression(r, env);
            lv.divide(&rv)
        },
        Expression::Modulo(l, r) => {
            let lv = eval_expression(l, env);
            let rv = eval_expression(r, env);
            lv.modulo(&rv)
        },
        Expression::Equal(l, r) => {
            let lv = eval_expression(l, env);
            let rv = eval_expression(r, env);
            bool_to_value(lv.equal(&rv))
        },
        Expression::NotEqual(l, r) => {
            let lv = eval_expression(l, env);
            let rv = eval_expression(r, env);
            bool_to_value(!lv.equal(&rv))
        },
        Expression::StrictEqual(l, r) => {
            let lv = eval_expression(l, env);
            let rv = eval_expression(r, env);
            bool_to_value(lv.strict_equal(&rv))
        },
        Expression::StrictNotEqual(l, r) => {
            let lv = eval_expression(l, env);
            let rv = eval_expression(r, env);
            bool_to_value(!lv.strict_equal(&rv))
        },
        Expression::GreaterThan(l, r) => {
            let lv = eval_expression(l, env);
            let rv = eval_expression(r, env);
            bool_to_value(lv.greater_than(&rv))
        },
        Expression::GreaterOrEqualThan(l, r) => {
            let lv = eval_expression(l, env);
            let rv = eval_expression(r, env);
            bool_to_value(!lv.less_than(&rv))
        },
        Expression::LessThan(l, r) => {
            let lv = eval_expression(l, env);
            let rv = eval_expression(r, env);
            bool_to_value(lv.less_than(&rv))
        },
        Expression::LessOrEqualThan(l, r) => {
            let lv = eval_expression(l, env);
            let rv = eval_expression(r, env);
            bool_to_value(!lv.greater_than(&rv))
        },
        Expression::Object(id) => env.get(&id.name),
        Expression::Literal(l) => {
            match l {
                Literal::Undefined => Value::Undefined,
                Literal::Number(n) => Value::Number(*n),
                Literal::String(s) => Value::String(s.clone()),
            }
        },
    }
}

/// One emitted unit of output: the value printed and the framing it was
/// printed under. Realising the event against a real stream is the driver's
/// business.
#[derive(PartialEq, Debug)]
pub struct PrintEvent {
    pub value: Value,
    pub format: PrintFormat,
}

/// The mathematical shadow of a `PrintEvent`.
pub struct PrintEventModel {
    pub value: ValueModel,
    pub format: PrintFormat,
}

impl View for PrintEvent {
    type V = PrintEventModel;

    open spec fn view(&self) -> PrintEventModel {
        PrintEventModel { value: self.value@, format: self.format }
    }
}

/// How the execution of a statement ended: ran through, raised a non-local
/// loop signal, or ran out of fuel.
#[derive(Clone, Copy, PartialEq, Eq, Structural, Debug)]
pub enum Flow {
    Normal,
    Break,
    Continue,
    Exhausted,
}

/// Everything statement execution touches: the bindings, the output emitted
/// so far, and the input not yet consumed.
pub struct State {
    pub env: Env,
    pub output: Vec<PrintEvent>,
    pub input: Vec<Value>,
}

/// The mathematical shadow of a `State`.
pub struct StateModel {
    pub env: EnvModel,
    pub output: Seq<PrintEventModel>,
    pub input: Seq<ValueModel>,
}

impl View for State {
    type V = StateModel;

    open spec fn view(&self) -> StateModel {
        StateModel {
            env: self.env@,
            output: self.output@.map_values(|e: PrintEvent| e@),
            input: self.input@.map_values(|v: Value| v@),
        }
    }
}

/// The state a step of execution left behind, with how it ended.
pub struct StepModel {
    pub state: StateModel,
    pub flow: Flow,
}

/// What executing one statement does to a state, under a fuel bound that
/// shrinks by one at every step. A loop follows the cycle: test the
/// condition; when falsy the loop is done; when truthy run the block, upon
/// which `Break` ends the loop at once, while running through or `Continue`
/// return to the test. Reading from exhausted input binds `Undefined`.
pub open spec fn spec_exec_statement(s: Statement, st: StateModel, fuel: nat) -> StepModel
    decreases fuel,
{
    if fuel == 0 {
        StepModel { state: st, flow: Flow::Exhausted }
    } else {
        let f = (fuel - 1) as nat;
        match s {
            Statement::Assign(a) => StepModel {
                state: StateModel {
                    env: st.env.push((a.variable.name@, spec_eval(a.value, st.env))),
                    output: st.output,
                    input: st.input,
                },
                flow: Flow::Normal,
            },
            Statement::Increase(inc) => StepModel {
                state: StateModel {
                    env: st.env.push(
                        (
                            inc.variable.name@,
                            spec_add(
                                lookup(st.env, inc.variable.name@),
                                ValueModel::Number(ONE_BITS),
                            ),
                        ),
                    ),
                    output: st.output,
                    input: st.input,
                },
                flow: Flow::Normal,
            },
            Statement::Decrease(dec) => StepModel {
                state: StateModel {
                    env: st.env.push(
                        (
                            dec.variable.name@,
                            spec_subtract(
                                lookup(st.env, dec.variable.name@),
                                ValueModel::Number(ONE_BITS),
                            ),
                        ),
                    ),
                    output: st.output,
                    input: st.input,
                },
                flow: Flow::Normal,
            },
            Statement::Print(p) => StepModel {
                state: StateModel {
                    env: st.env,
                    output: st.output.push(
                        PrintEventModel { value: spec_eval(p.value, st.env), format: p.format },
                    ),
                    input: st.input,
                },
                flow: Flow::Normal,
            },
            Statement::Read(rd) => {
                if st.input.len() == 0 {
                    StepModel {
                        state: StateModel {
                            env: st.env.push((rd.variable.name@, ValueModel::Undefined)),
                            output: st.output,
                            input: st.input,
                        },
                        flow: Flow::Normal,
                    }
                } else {
                    StepModel {
                        state: StateModel {
                            env: st.env.push((rd.variable.name@, st.input[0])),
                            output: st.output,
                            input: st.input.drop_first(),
                        },
                        flow: Flow::Normal,
                    }
                }
            },
            Statement::If(c) => {
                if spec_to_boolean(spec_eval(c.condition, st.env)) {
                    spec_exec_block(c.block@, st, f)
                } else {
                    match c.else_block {
                        Option::Some(b) => spec_exec_block(b@, st, f),
                        Option::None => StepModel { state: st, flow: Flow::Normal },
                    }
                }
            },
            Statement::LoopWhile(l) => {
                if !spec_to_boolean(spec_eval(l.condition, st.env)) {
                    StepModel { state: st, flow: Flow::Normal }
                } else {
                    let body = spec_exec_block(l.block@, st, f);
                    match body.flow {
                        Flow::Exhausted => body,
                        Flow::Break => StepModel { state: body.state, flow: Flow::Normal },
                        _ => spec_exec_statement(Statement::LoopWhile(l), body.state, f),
                    }
                }
            },
            Statement::Break => StepModel { state: st, flow: Flow::Break },
            Statement::Continue => StepModel { state: st, flow: Flow::Continue },
        }
    }
}

/// What executing a block does: its statements run in order, and the first
/// flow other than running through stops the block and is handed upward.
pub open spec fn spec_exec_block(stmts: Seq<Statement>, st: StateModel, fuel: nat) -> StepModel
    decreases fuel,
{
    if fuel == 0 {
        StepModel { state: st, flow: Flow::Exhausted }
    } else if stmts.len() == 0 {
        StepModel { state: st, flow: Flow::Normal }
    } else {
        let f = (fuel - 1) as nat;
        let first = spec_exec_statement(stmts[0], st, f);
        if first.flow == Flow::Normal {
            spec_exec_block(stmts.drop_first(), first.state, f)
        } else {
            first
        }
    }
}

/// Fuel only bounds execution, it does not shape it: a statement that runs to
/// an end (any flow but exhaustion) under some fuel runs to the same end,
/// with the same state, under every larger fuel.
pub proof fn lemma_statement_fuel_independent(s: Statement, st: StateModel, f1: nat, f2: nat)
    requires
        f1 <= f2,
        spec_exec_statement(s, st, f1).flow != Flow::Exhausted,
    ensures
        spec_exec_statement(s, st, f2) == spec_exec_statement(s, st, f1),
    decreases f1,
{
    match s {
        Statement::If(c) => {
            if spec_to_boolean(spec_eval(c.condition, st.env)) {
                lemma_block_fuel_independent(c.block@, st, (f1 - 1) as nat, (f2 - 1) as nat);
            } else {
                match c.else_block {
                    Option::Some(b) => {
                        lemma_block_fuel_independent(b@, st, (f1 - 1) as nat, (f2 - 1) as nat);
                    },
                    Option::None => {},
                }
            }
        },
        Statement::LoopWhile(l) => {
            if spec_to_boolean(spec_eval(l.condition, st.env)) {
                let body = spec_exec_block(l.block@, st, (f1 - 1) as nat);
                lemma_block_fuel_independent(l.block@, st, (f1 - 1) as nat, (f2 - 1) as nat);
                match body.flow {
                    Flow::Exhausted => {},
                    Flow::Break => {},
                    _ => {
                        lemma_statement_fuel_independent(
                            Statement::LoopWhile(l),
                            body.state,
                            (f1 - 1) as nat,
                            (f2 - 1) as nat,
                        );
                    },
                }
            }
        },
        _ => {},
    }
}

/// The block-level half of `lemma_statement_fuel_independent`.
pub proof fn lemma_block_fuel_independent(stmts: Seq<Statement>, st: StateModel, f1: nat, f2: nat)
    requires
        f1 <= f2,
        spec_exec_block(stmts, st, f1).flow != Flow::Exhausted,
    ensures
        spec_exec_block(stmts, st, f2) == spec_exec_block(stmts, st, f1),
    decreases f1,
{
    if stmts.len() != 0 {
        let first = spec_exec_statement(stmts[0], st, (f1 - 1) as nat);
        lemma_statement_fuel_independent(stmts[0], st, (f1 - 1) as nat, (f2 - 1) as nat);
        if first.flow == Flow::Normal {
            lemma_block_fuel_independent(
                stmts.drop_first(),
                first.state,
                (f1 - 1) as nat,
                (f2 - 1) as nat,
            );
        }
    }
}

/// Execute one statement, mirroring `spec_exec_statement` exactly.
pub fn exec_statement(s: &Statement, st: &mut State, fuel: u64) -> (flow: Flow)
    ensures
        ({
            let step = spec_exec_statement(*s, old(st)@, fuel as nat);
            final(st)@ == step.state && flow == step.flow
        }),
    decreases fuel,
{
    if fuel == 0 {
        return Flow::Exhausted;
    }
    let f = fuel - 1;
    match s {
        Statement::Assign(a) => {
            let v = eval_expression(&a.value, &st.env);
            st.env.set(&a.variable, v);
            Flow::Normal
        },
        Statement::Increase(inc) => {
            let cur = st.env.get(&inc.variable.name);
            let v = cur.add(&Value::Number(ONE_BITS));
            st.env.set(&inc.variable, v);
            Flow::Normal
        },
        Statement::Decrease(dec) => {
            let cur = st.env.get(&dec.variable.name);
            let v = cur.subtract(&Value::Number(ONE_BITS));
            st.env.set(&dec.variable, v);
            Flow::Normal
        },
        Statement::Print(p) => {
            let v = eval_expression(&p.value, &st.env);
            st.output.push(PrintEvent { value: v, format: p.format });
            proof {
                assert(st@.output =~= old(st)@.output.push(
                    PrintEventModel { value: spec_eval(p.value, old(st)@.env), format: p.format },
                ));
            }
            Flow::Normal
        },
        Statement::Read(rd) => {
            if st.input.len() == 0 {
                st.env.set(&rd.variable, Value::Undefined);
            } else {
                let v = st.input.remove(0);
                st.env.set(&rd.variable, v);
                proof {
                    assert(st@.input =~= old(st)@.input.drop_first());
                }
            }
            Flow::Normal
        },
        Statement::If(c) => {
            let cond = eval_expression(&c.condition, &st.env);
            proof {
                assert(c.block@.skip(0) =~= c.block@);
            }
            if cond.to_boolean() {
                exec_block_from(&c.block, 0, st, f)
            } else {
                match &c.else_block {
                    Option::Some(b) => {
                        proof {
                            assert(b@.skip(0) =~= b@);
                        }
                        exec_block_from(b, 0, st, f)
                    },
                    Option::None => Flow::Normal,
                }
            }
        },
        Statement::LoopWhile(l) => {
            let cond = eval_expression(&l.condition, &st.env);
            if !cond.to_boolean() {
                Flow::Normal
            } else {
                proof {
                    assert(l.block@.skip(0) =~= l.block@);
                }
                let body = exec_block_from(&l.block, 0, st, f);
                match body {
                    Flow::Exhausted => Flow::Exhausted,
                    Flow::Break => Flow::Normal,
                    _ => exec_statement(s, st, f),
                }
            }
        },
        Statement::Break => Flow::Break,
        Statement::Continue => Flow::Continue,
    }
}

/// Execute the tail of a block starting at `from`, mirroring
/// `spec_exec_block` on the remaining statements.
pub fn exec_block_from(stmts: &Vec<Statement>, from: usize, st: &mut State, fuel: u64) -> (flow:
    Flow)
    requires
        from <= stmts@.len(),
    ensures
        ({
            let step = spec_exec_block(stmts@.skip(from as int), old(st)@, fuel as nat);
            final(st)@ == step.state && flow == step.flow
        }),
    decreases fuel,
{
    if fuel == 0 {
        return Flow::Exhausted;
    }
    if from == stmts.len() {
        return Flow::Normal;
    }
    let f = fuel - 1;
    let first = exec_statement(&stmts[from], st, f);
    proof {
        assert(stmts@.skip(from as int)[0] == stmts@[from as int]);
    }
    if first == Flow::Normal {
        proof {
            assert(stmts@.skip(from as int).drop_first() =~= stmts@.skip(from as int + 1));
        }
        exec_block_from(stmts, from + 1, st, f)
    } else {
        first
    }
}

/// Run a whole program from an empty environment against the given input,
/// under the given fuel bound.
pub fn run_program(program: &Vec<Statement>, input: Vec<Value>, fuel: u64) -> (r: (State, Flow))
    ensures
        ({
            let init = StateModel {
                env: EnvModel::empty(),
                output: Seq::empty(),
                input: input@.map_values(|v: Value| v@),
            };
            let step = spec_exec_block(program@, init, fuel as nat);
            r.0@ == step.state && r.1 == step.flow
        }),
{
    let mut st = State { env: Env::new(), output: Vec::new(), input };
    proof {
        assert(st@.output =~= Seq::<PrintEventModel>::empty());
        assert(program@.skip(0) =~= program@);
    }
    let flow = exec_block_from(program, 0, &mut st, fuel);
    (st, flow)
}

} // verus!

