use vstd::prelude::*;

use crate::tape::{initial_model, Tape, TapeModel};
use crate::types::{Machine, MachineModel, Transition, TransitionModel};
use crate::validator::{
    contains_name, description_check, input_check, rule_valid,
};

verus! {

/// How a run ends.
#[derive(Debug, Clone, Copy, PartialEq, Eq, Structural)]
pub enum Outcome {
    /// The machine is in a final state.
    Accept,
    /// No rule applies to the current state and symbol.
    Reject,
}

/// A snapshot of a run: the state and the tape before a rule is applied.
#[derive(Debug, Clone)]
pub struct Configuration {
    pub state: String,
    pub tape: Tape,
}

/// The abstract form of a configuration.
pub open spec fn config_model(c: Configuration) -> (Seq<char>, TapeModel) {
    (c.state@, c.tape@)
}

/// The abstract forms of a list of configurations.
pub open spec fn config_models(v: Seq<Configuration>) -> Seq<(Seq<char>, TapeModel)> {
    v.map_values(|c: Configuration| config_model(c))
}

/// What one step did.
#[derive(Debug, Clone)]
pub enum StepResult {
    /// The run is over, and the machine was left as it was.
    Halted(Outcome),
    /// A rule was applied; this is the configuration it was applied in.
    Applied(Configuration),
}

/// The rules of the first table entry for `state`, looking from entry `i` on.
pub open spec fn rules_from(
    ts: Seq<(Seq<char>, Seq<TransitionModel>)>,
    state: Seq<char>,
    i: int,
) -> Option<Seq<TransitionModel>>
    decreases ts.len() - i,
{
    if i < 0 || i >= ts.len() {
        None
    } else if ts[i].0 == state {
        Some(ts[i].1)
    } else {
        rules_from(ts, state, i + 1)
    }
}

/// The first rule that reads `sym`, looking from rule `i` on.
pub open spec fn rule_from(rs: Seq<TransitionModel>, sym: char, i: int) -> Option<TransitionModel>
    decreases rs.len() - i,
{
    if i < 0 || i >= rs.len() {
        None
    } else if rs[i].read == seq![sym] {
        Some(rs[i])
    } else {
        rule_from(rs, sym, i + 1)
    }
}

/// The rule that fires in `state` on `sym`: the first of the state's rules,
/// in declaration order, that reads `sym`.
pub open spec fn applicable(m: MachineModel, state: Seq<char>, sym: char) -> Option<
    TransitionModel,
> {
    match rules_from(m.transitions, state, 0) {
        None => None,
        Some(rs) => rule_from(rs, sym, 0),
    }
}

/// `state` is a final state of `m`.
pub open spec fn is_final(m: MachineModel, state: Seq<char>) -> bool {
    m.finals.contains(state)
}

/// The configuration after one step from `(state, tape)`, or `None` where
/// the machine halts there.
pub open spec fn successor(m: MachineModel, state: Seq<char>, tape: TapeModel) -> Option<
    (Seq<char>, TapeModel),
> {
    if is_final(m, state) {
        None
    } else {
        match applicable(m, state, tape.current()) {
            None => None,
            Some(t) => Some((t.to_state, tape.written(t.write[0]).moved(t.action))),
        }
    }
}

/// How a run that halts in `state` ends.
pub open spec fn halt_outcome(m: MachineModel, state: Seq<char>) -> Outcome {
    if is_final(m, state) {
        Outcome::Accept
    } else {
        Outcome::Reject
    }
}

/// The configurations of a run from `(state, tape)` for at most `fuel`
/// applied rules, and its outcome if it halted within them.
pub open spec fn run_model(m: MachineModel, state: Seq<char>, tape: TapeModel, fuel: nat) -> (
    Seq<(Seq<char>, TapeModel)>,
    Option<Outcome>,
)
    decreases fuel,
{
    match successor(m, state, tape) {
        None => (Seq::empty(), Some(halt_outcome(m, state))),
        Some(next) => if fuel == 0 {
            (Seq::empty(), None)
        } else {
            let rest = run_model(m, next.0, next.1, (fuel - 1) as nat);
            (seq![(state, tape)] + rest.0, rest.1)
        },
    }
}

/// A run that reaches a final state halts there with `Accept` and applies
/// none of that state's rules, whatever the table holds for it.
pub proof fn lemma_final_state_accepts(
    m: MachineModel,
    state: Seq<char>,
    tape: TapeModel,
    fuel: nat,
)
    requires
        is_final(m, state),
    ensures
        successor(m, state, tape) is None,
        run_model(m, state, tape, fuel) == (
            Seq::<(Seq<char>, TapeModel)>::empty(),
            Some(Outcome::Accept),
        ),
{
}

/// A run in a non-final state with no rule for the symbol under the head
/// halts there with `Reject` and applies no rule.
pub proof fn lemma_blocked_state_rejects(
    m: MachineModel,
    state: Seq<char>,
    tape: TapeModel,
    fuel: nat,
)
    requires
        !is_final(m, state),
        applicable(m, state, tape.current()) is None,
    ensures
        successor(m, state, tape) is None,
        run_model(m, state, tape, fuel) == (
            Seq::<(Seq<char>, TapeModel)>::empty(),
            Some(Outcome::Reject),
        ),
{
}

/// The abstract state of a simulator.
pub ghost struct SimulatorModel {
    pub machine: MachineModel,
    pub state: Seq<char>,
    pub tape: TapeModel,
    pub steps: nat,
}

/// A run in progress: a validated machine, its current state and tape, and
/// the number of rules applied so far.
pub struct Simulator {
    machine: Machine,
    state: String,
    tape: Tape,
    steps: u64,
}

impl View for Simulator {
    type V = SimulatorModel;

    closed spec fn view(&self) -> SimulatorModel {
        SimulatorModel {
            machine: self.machine@,
            state: self.state@,
            tape: self.tape@,
            steps: self.steps as nat,
        }
    }
}

/// The blank of a description as a character.
pub open spec fn blank_symbol(m: MachineModel) -> char {
    m.blank[0]
}

/// A validated description has a one-character blank.
proof fn lemma_blank_single(m: MachineModel)
    requires
        description_check(m) is Ok,
    ensures
        m.blank.len() == 1,
{
    let k = choose|k: int| 0 <= k < m.alphabet.len() && m.alphabet[k] == m.blank;
    assert(m.alphabet[k].len() == 1);
}

impl Simulator {
    /// The simulator's invariant: the description is valid, the tape's blank
    /// is the description's, and the head is no further from 0 than the
    /// number of steps taken.
    pub closed spec fn wf(&self) -> bool {
        &&& description_check(self.machine@) is Ok
        &&& self.tape@.blank == blank_symbol(self.machine@)
        &&& -(self.steps as int) <= self.tape@.head <= self.steps
        &&& self.steps <= i64::MAX
    }

    /// Starts a run of `machine` on `input`: the initial state, the input on
    /// the tape from cell 0, the head on cell 0, no step taken. Both the
    /// description and the input must have passed validation.
    pub fn new(machine: Machine, input: &str) -> (r: Simulator)
        requires
            description_check(machine@) is Ok,
            input_check(machine@, input@) is Ok,
            input@.len() <= i64::MAX,
        ensures
            r.wf(),
            r@.machine == machine@,
            r@.state == machine@.initial,
            r@.tape == initial_model(input@, blank_symbol(machine@)),
            r@.steps == 0,
    {
        proof {
            lemma_blank_single(machine@);
        }
        let blank = machine.blank.as_str().get_char(0);
        let tape = Tape::new(input, blank);
        let state = machine.initial.clone();
        Simulator { machine, state, tape, steps: 0 }
    }

    /// The current state.
    pub fn state(&self) -> (r: &String)
        ensures
            r@ == self@.state,
    {
        &self.state
    }

    /// The current tape.
    pub fn tape(&self) -> (r: &Tape)
        ensures
            r@ == self@.tape,
    {
        &self.tape
    }

    /// The number of rules applied so far.
    pub fn steps(&self) -> (r: u64)
        ensures
            r == self@.steps,
    {
        self.steps
    }

    /// The table entry and rule that fire in the current configuration.
    fn find_rule(&self, sym: char) -> (r: Option<(usize, usize)>)
        ensures
            match r {
                None => applicable(self@.machine, self@.state, sym) is None,
                Some((a, b)) => {
                    &&& a < self@.machine.transitions.len()
                    &&& b < self@.machine.transitions[a as int].1.len()
                    &&& applicable(self@.machine, self@.state, sym) == Some(
                        self@.machine.transitions[a as int].1[b as int],
                    )
                },
            },
    {
        let ghost m = self@.machine;
        let mut a: usize = 0;
        while a < self.machine.transitions.len()
            invariant
                m == self@.machine,
                a <= m.transitions.len(),
                rules_from(m.transitions, self@.state, 0) == rules_from(
                    m.transitions,
                    self@.state,
                    a as int,
                ),
            decreases self.machine.transitions.len() - a,
        {
            if self.machine.transitions[a].0 == self.state {
                let rs: &Vec<Transition> = &self.machine.transitions[a].1;
                assert(m.transitions[a as int].1 == crate::types::rules(rs@));
                let mut b: usize = 0;
                while b < rs.len()
                    invariant
                        m == self@.machine,
                        a < m.transitions.len(),
                        m.transitions[a as int].1 == crate::types::rules(rs@),
                        b <= rs.len(),
                        applicable(m, self@.state, sym) == rule_from(
                            m.transitions[a as int].1,
                            sym,
                            b as int,
                        ),
                    decreases rs.len() - b,
                {
                    let t = rs[b].read.as_str();
                    assert(m.transitions[a as int].1[b as int].read == t@);
                    if t.unicode_len() == 1 && t.get_char(0) == sym {
                        assert(t@ =~= seq![sym]);
                        return Some((a, b));
                    }
                    proof {
                        if t@ == seq![sym] {
                            assert(t@[0] == sym);
                        }
                    }
                    b = b + 1;
                }
                return None;
            }
            a = a + 1;
        }
        None
    }

    /// How the run ends here, or `None` where a rule applies.
    pub fn halted(&self) -> (r: Option<Outcome>)
        ensures
            r == (if successor(self@.machine, self@.state, self@.tape) is None {
                Some(halt_outcome(self@.machine, self@.state))
            } else {
                None
            }),
    {
        if contains_name(&self.machine.finals, &self.state) {
            return Some(Outcome::Accept);
        }
        match self.find_rule(self.tape.read()) {
            None => Some(Outcome::Reject),
            Some(_) => None,
        }
    }

    /// Takes one step. In a final state the run halts with `Accept`; where
    /// no rule reads the symbol under the head it halts with `Reject`; in
    /// both cases nothing changes. Otherwise the first matching rule writes
    /// its symbol, moves the head, sets the state, and the configuration it
    /// was applied in is returned.
    pub fn step(&mut self) -> (r: StepResult)
        requires
            old(self).wf(),
            old(self)@.steps < i64::MAX,
        ensures
            final(self).wf(),
            final(self)@.machine == old(self)@.machine,
            match successor(old(self)@.machine, old(self)@.state, old(self)@.tape) {
                None => {
                    &&& r == StepResult::Halted(
                        halt_outcome(old(self)@.machine, old(self)@.state),
                    )
                    &&& final(self)@ == old(self)@
                },
                Some(next) => {
                    &&& r is Applied
                    &&& config_model(r->Applied_0) == (old(self)@.state, old(self)@.tape)
                    &&& final(self)@.state == next.0
                    &&& final(self)@.tape == next.1
                    &&& final(self)@.steps == old(self)@.steps + 1
                },
            },
    {
        let ghost m = self@.machine;
        if contains_name(&self.machine.finals, &self.state) {
            return StepResult::Halted(Outcome::Accept);
        }
        let sym = self.tape.read();
        match self.find_rule(sym) {
            None => StepResult::Halted(Outcome::Reject),
            Some((a, b)) => {
                let t: &Transition = &self.machine.transitions[a].1[b];
                proof {
                    assert(m.transitions[a as int].1[b as int] == t@);
                    assert(rule_valid(m, m.transitions[a as int].1[b as int]));
                    let k = choose|k: int| 0 <= k < m.alphabet.len() && m.alphabet[k] == t@.write;
                    assert(m.alphabet[k].len() == 1);
                }
                let w = t.write.as_str().get_char(0);
                let mut tape = self.tape.write(w).move_head(t.action);
                let mut state = t.to_state.clone();
                core::mem::swap(&mut self.tape, &mut tape);
                core::mem::swap(&mut self.state, &mut state);
                self.steps = self.steps + 1;
                StepResult::Applied(Configuration { state, tape })
            },
        }
    }
}

/// The result of a bounded run: the configurations in which rules were
/// applied, in order, and the outcome where the run halted.
#[derive(Debug, Clone)]
pub struct RunResult {
    pub configurations: Vec<Configuration>,
    pub outcome: Option<Outcome>,
}

/// Runs `machine` on `input` until it halts or `max_steps` rules have been
/// applied. Both the description and the input must have passed validation.
pub fn run(machine: Machine, input: &str, max_steps: u64) -> (r: RunResult)
    requires
        description_check(machine@) is Ok,
        input_check(machine@, input@) is Ok,
        input@.len() <= i64::MAX,
        max_steps <= i64::MAX,
    ensures
        ({
            let expected = run_model(
                machine@,
                machine@.initial,
                initial_model(input@, blank_symbol(machine@)),
                max_steps as nat,
            );
            &&& config_models(r.configurations@) == expected.0
            &&& r.outcome == expected.1
        }),
{
    let ghost m = machine@;
    let ghost expected = run_model(
        m,
        m.initial,
        initial_model(input@, blank_symbol(m)),
        max_steps as nat,
    );
    let mut sim = Simulator::new(machine, input);
    let mut configurations: Vec<Configuration> = Vec::new();
    loop
        invariant
            sim.wf(),
            sim@.machine == m,
            m == machine@,
            expected == run_model(
                m,
                m.initial,
                initial_model(input@, blank_symbol(m)),
                max_steps as nat,
            ),
            sim@.steps <= max_steps,
            max_steps <= i64::MAX,
            ({
                let rest = run_model(m, sim@.state, sim@.tape, (max_steps - sim@.steps) as nat);
                &&& expected.0 == config_models(configurations@)
                    + rest.0
                &&& expected.1 == rest.1
            }),
        decreases max_steps - sim@.steps,
    {
        let ghost before = sim@;
        let ghost done = config_models(configurations@);
        let ghost rest = run_model(m, sim@.state, sim@.tape, (max_steps - sim@.steps) as nat);
        match sim.halted() {
            Some(o) => {
                assert(rest.0 =~= Seq::<(Seq<char>, TapeModel)>::empty());
                assert(done + rest.0 =~= done);

                return RunResult { configurations, outcome: Some(o) };
            },
            None => {},
        }
        if sim.steps() == max_steps {
            assert(rest.0 =~= Seq::<(Seq<char>, TapeModel)>::empty());
            assert(done + rest.0 =~= done);
            return RunResult { configurations, outcome: None };
        }
        match sim.step() {
            StepResult::Halted(o) => {
                return RunResult { configurations, outcome: Some(o) };
            },
            StepResult::Applied(c) => {
                configurations.push(c);
                proof {
                    let rest = run_model(m, sim@.state, sim@.tape, (max_steps - sim@.steps) as nat);
                    assert(config_models(configurations@) =~= done
                        + seq![(before.state, before.tape)]);
                    assert(expected.0 =~= config_models(configurations@) + rest.0);
                }
            },
        }
    }
}

} // verus!
