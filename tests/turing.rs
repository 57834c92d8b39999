use ft_turing::simulator::{run, Outcome, Simulator, StepResult};
use ft_turing::tape::Tape;
use ft_turing::types::{Direction, Machine, Transition};
use ft_turing::validator::{validate_input, validate_machine, DescriptionError, InputError};

fn names(v: &[&str]) -> Vec<String> {
    v.iter().map(|s| s.to_string()).collect()
}

fn rule(read: &str, to_state: &str, write: &str, action: Direction) -> Transition {
    Transition {
        read: read.to_string(),
        to_state: to_state.to_string(),
        write: write.to_string(),
        action,
    }
}

fn unary_add() -> Machine {
    Machine {
        name: "unary_add".to_string(),
        alphabet: names(&["1", "+", "."]),
        blank: ".".to_string(),
        states: names(&["s0", "s1", "s2", "s3"]),
        initial: "s0".to_string(),
        finals: names(&["s3"]),
        transitions: vec![
            (
                "s0".to_string(),
                vec![
                    rule("1", "s0", "1", Direction::Right),
                    rule("+", "s1", "1", Direction::Right),
                ],
            ),
            (
                "s1".to_string(),
                vec![
                    rule("1", "s1", "1", Direction::Right),
                    rule(".", "s2", ".", Direction::Left),
                ],
            ),
            ("s2".to_string(), vec![rule("1", "s3", ".", Direction::Left)]),
        ],
    }
}

#[test]
fn tape_new_places_input_from_zero() {
    let t = Tape::new("1+1", '.');
    assert_eq!(t.head_position(), 0);
    assert_eq!(t.read(), '1');
    assert_eq!(t.symbol_at(1), '+');
    assert_eq!(t.symbol_at(2), '1');
    assert_eq!(t.symbol_at(3), '.');
    assert_eq!(t.symbol_at(-1), '.');
    assert_eq!(t.stored_at(3), None);
}

#[test]
fn tape_write_does_not_change_receiver() {
    let t = Tape::new("11", '.');
    let u = t.write('x');
    assert_eq!(u.read(), 'x');
    assert_eq!(t.read(), '1');
}

#[test]
fn tape_write_then_read() {
    let t = Tape::new("ab", '.').move_head(Direction::Right);
    assert_eq!(t.write('z').read(), 'z');
    let cleared = t.write('.');
    assert_eq!(cleared.read(), '.');
    assert_eq!(cleared.stored_at(1), None);
    assert_eq!(cleared.stored_at(0), Some('a'));
}

#[test]
fn tape_write_twice_same_as_once() {
    let t = Tape::new("abc", '.');
    let once = t.write('q');
    let twice = once.write('q');
    for pos in -3..6 {
        assert_eq!(once.symbol_at(pos), twice.symbol_at(pos));
    }
    assert_eq!(once.to_string(), twice.to_string());
}

#[test]
fn tape_move_and_back() {
    let t = Tape::new("abc", '.');
    for d in [Direction::Left, Direction::Right] {
        let back = t.move_head(d).move_head(d.opposite());
        assert_eq!(back.head_position(), t.head_position());
    }
    assert_eq!(t.move_head(Direction::Left).head_position(), -1);
    assert_eq!(t.move_head(Direction::Right).head_position(), 1);
}

#[test]
fn tape_render_window() {
    let t = Tape::new("11+111", '.');
    assert_eq!(t.to_string(), "[..<1>1+111.....]");
    let moved = t.move_head(Direction::Right).move_head(Direction::Right);
    assert_eq!(moved.to_string(), "[11<+>111.......]");
}

#[test]
fn tape_render_empty() {
    let t = Tape::new("", '.');
    assert_eq!(t.to_string(), "[<.>]");
}

#[test]
fn validate_machine_accepts_unary_add() {
    assert_eq!(validate_machine(&unary_add()), Ok(()));
}

#[test]
fn validate_machine_blank_not_in_alphabet() {
    let mut m = unary_add();
    m.blank = "_".to_string();
    assert_eq!(validate_machine(&m), Err(DescriptionError::BlankNotInAlphabet));
}

#[test]
fn validate_machine_symbol_too_wide() {
    let mut m = unary_add();
    m.alphabet.push("ab".to_string());
    assert_eq!(validate_machine(&m), Err(DescriptionError::AlphabetSymbolTooWide));
}

#[test]
fn validate_machine_initial_unknown() {
    let mut m = unary_add();
    m.initial = "start".to_string();
    assert_eq!(validate_machine(&m), Err(DescriptionError::InitialStateUnknown));
}

#[test]
fn validate_machine_final_unknown() {
    let mut m = unary_add();
    m.finals.push("HALT".to_string());
    assert_eq!(validate_machine(&m), Err(DescriptionError::FinalStateUnknown));
}

#[test]
fn validate_machine_table_state_unknown() {
    let mut m = unary_add();
    m.transitions.push(("other".to_string(), vec![]));
    assert_eq!(validate_machine(&m), Err(DescriptionError::TransitionStateUnknown));
}

#[test]
fn validate_machine_rule_invalid() {
    let mut m = unary_add();
    m.transitions[2].1.push(rule("1", "nowhere", "1", Direction::Left));
    assert_eq!(
        validate_machine(&m),
        Err(DescriptionError::TransitionSymbolOrTargetInvalid)
    );
    let mut m = unary_add();
    m.transitions[0].1.push(rule("x", "s0", "1", Direction::Left));
    assert_eq!(
        validate_machine(&m),
        Err(DescriptionError::TransitionSymbolOrTargetInvalid)
    );
}

#[test]
fn validate_machine_reports_first_failure() {
    let mut m = unary_add();
    m.blank = "_".to_string();
    m.initial = "start".to_string();
    assert_eq!(validate_machine(&m), Err(DescriptionError::BlankNotInAlphabet));
}

#[test]
fn validate_input_cases() {
    let m = unary_add();
    assert_eq!(validate_input(&m, "11+111"), Ok(()));
    assert_eq!(validate_input(&m, ""), Ok(()));
    assert_eq!(validate_input(&m, "1.1"), Err(InputError::InputContainsBlank));
    assert_eq!(validate_input(&m, "12"), Err(InputError::InputSymbolNotInAlphabet));
}

#[test]
fn validate_input_blank_rejected_though_in_alphabet() {
    let m = unary_add();
    assert!(m.alphabet.contains(&m.blank));
    assert_eq!(validate_input(&m, "."), Err(InputError::InputContainsBlank));
    assert_eq!(validate_input(&m, "+1."), Err(InputError::InputContainsBlank));
}

#[test]
fn run_unary_addition() {
    let m = unary_add();
    let r = run(m, "11+111", 1000);
    assert_eq!(r.outcome, Some(Outcome::Accept));
    let last = r.configurations.last().unwrap();
    assert_eq!(last.state, "s2");
    let mut sim = Simulator::new(unary_add(), "11+111");
    loop {
        match sim.step() {
            StepResult::Halted(o) => {
                assert_eq!(o, Outcome::Accept);
                break;
            }
            StepResult::Applied(_) => {}
        }
    }
    assert_eq!(sim.state(), "s3");
    let t = sim.tape();
    for pos in 0..5 {
        assert_eq!(t.symbol_at(pos), '1');
    }
    assert_eq!(t.symbol_at(5), '.');
    assert_eq!(t.symbol_at(6), '.');
    assert_eq!(sim.steps(), r.configurations.len() as u64);
    assert_eq!(sim.steps(), 8);
}

#[test]
fn run_first_configuration_is_before_the_rule() {
    let r = run(unary_add(), "1+1", 1);
    assert_eq!(r.outcome, None);
    assert_eq!(r.configurations.len(), 1);
    assert_eq!(r.configurations[0].state, "s0");
    assert_eq!(r.configurations[0].tape.to_string(), "[..<1>+1........]");
}

#[test]
fn final_state_with_rules_accepts_at_once() {
    let mut m = unary_add();
    m.finals = names(&["s0"]);
    let r = run(m.clone(), "11+111", 100);
    assert_eq!(r.outcome, Some(Outcome::Accept));
    assert!(r.configurations.is_empty());
    let mut sim = Simulator::new(m, "11+111");
    assert!(matches!(sim.step(), StepResult::Halted(Outcome::Accept)));
    assert_eq!(sim.steps(), 0);
    assert_eq!(sim.tape().to_string(), "[..<1>1+111.....]");
}

#[test]
fn blocked_state_rejects() {
    let mut m = unary_add();
    m.transitions[1].1.pop();
    let r = run(m.clone(), "+", 100);
    // s0 reads '+' and goes to s1, which has no rule for the blank.
    assert_eq!(r.outcome, Some(Outcome::Reject));
    assert_eq!(r.configurations.len(), 1);
    let mut sim = Simulator::new(m, "+");
    sim.step();
    let before = sim.tape().to_string();
    assert!(matches!(sim.step(), StepResult::Halted(Outcome::Reject)));
    assert_eq!(sim.state(), "s1");
    assert_eq!(sim.steps(), 1);
    assert_eq!(sim.tape().to_string(), before);
    let r = run(unary_add(), "", 100);
    assert_eq!(r.outcome, Some(Outcome::Reject));
    assert!(r.configurations.is_empty());
}

#[test]
fn duplicate_rules_first_wins() {
    let mut m = unary_add();
    m.transitions[2].1.insert(0, rule("1", "s1", "1", Direction::Right));
    let mut sim = Simulator::new(m, "1+");
    sim.step();
    sim.step();
    sim.step();
    match sim.step() {
        StepResult::Applied(c) => assert_eq!(c.state, "s2"),
        StepResult::Halted(_) => panic!("expected a rule to fire"),
    }
    assert_eq!(sim.state(), "s1");
}
