use vstd::prelude::*;

use crate::types::{names, rules, Machine, MachineModel, Transition, TransitionModel};

verus! {

/// Why a machine description is not well formed.
#[derive(Debug, Clone, Copy, PartialEq, Eq, Structural)]
pub enum DescriptionError {
    BlankNotInAlphabet,
    AlphabetSymbolTooWide,
    InitialStateUnknown,
    FinalStateUnknown,
    TransitionStateUnknown,
    TransitionSymbolOrTargetInvalid,
}

/// Why an input cannot be placed on a machine's tape.
#[derive(Debug, Clone, Copy, PartialEq, Eq, Structural)]
pub enum InputError {
    InputContainsBlank,
    InputSymbolNotInAlphabet,
}

/// Every alphabet entry is exactly one character.
pub open spec fn symbols_single(m: MachineModel) -> bool {
    forall|i: int| 0 <= i < m.alphabet.len() ==> (#[trigger] m.alphabet[i]).len() == 1
}

/// Every final state is a listed state.
pub open spec fn finals_known(m: MachineModel) -> bool {
    forall|i: int| 0 <= i < m.finals.len() ==> m.states.contains(#[trigger] m.finals[i])
}

/// Every state that has rules is a listed state.
pub open spec fn table_states_known(m: MachineModel) -> bool {
    forall|i: int|
        0 <= i < m.transitions.len() ==> m.states.contains(#[trigger] m.transitions[i].0)
}

/// A rule reads and writes alphabet symbols and goes to a listed state.
pub open spec fn rule_valid(m: MachineModel, t: TransitionModel) -> bool {
    &&& m.alphabet.contains(t.read)
    &&& m.alphabet.contains(t.write)
    &&& m.states.contains(t.to_state)
}

/// Every rule of the table is valid.
pub open spec fn rules_valid(m: MachineModel) -> bool {
    forall|i: int, j: int|
        0 <= i < m.transitions.len() && 0 <= j < m.transitions[i].1.len() ==> rule_valid(
            m,
            #[trigger] m.transitions[i].1[j],
        )
}

/// The outcome of the description checks, run in order, the first failing
/// one reported.
pub open spec fn description_check(m: MachineModel) -> Result<(), DescriptionError> {
    if !m.alphabet.contains(m.blank) {
        Err(DescriptionError::BlankNotInAlphabet)
    } else if !symbols_single(m) {
        Err(DescriptionError::AlphabetSymbolTooWide)
    } else if !m.states.contains(m.initial) {
        Err(DescriptionError::InitialStateUnknown)
    } else if !finals_known(m) {
        Err(DescriptionError::FinalStateUnknown)
    } else if !table_states_known(m) {
        Err(DescriptionError::TransitionStateUnknown)
    } else if !rules_valid(m) {
        Err(DescriptionError::TransitionSymbolOrTargetInvalid)
    } else {
        Ok(())
    }
}

/// `pat` occurs in `s` as a contiguous run of characters.
pub open spec fn occurs_in(pat: Seq<char>, s: Seq<char>) -> bool {
    exists|i: int| 0 <= i <= s.len() - pat.len() && #[trigger] s.subrange(i, i + pat.len()) == pat
}

/// The character `c` is an entry of the alphabet.
pub open spec fn in_alphabet(m: MachineModel, c: char) -> bool {
    m.alphabet.contains(seq![c])
}

/// The outcome of the input checks.
pub open spec fn input_check(m: MachineModel, input: Seq<char>) -> Result<(), InputError> {
    if occurs_in(m.blank, input) {
        Err(InputError::InputContainsBlank)
    } else if exists|i: int| 0 <= i < input.len() && !in_alphabet(m, #[trigger] input[i]) {
        Err(InputError::InputSymbolNotInAlphabet)
    } else {
        Ok(())
    }
}

/// A description whose alphabet lacks the blank fails with
/// `BlankNotInAlphabet`, whatever else it holds.
pub proof fn lemma_blank_missing(m: MachineModel)
    requires
        !m.alphabet.contains(m.blank),
    ensures
        description_check(m) == Err::<(), DescriptionError>(DescriptionError::BlankNotInAlphabet),
{
}

/// An input in which the blank character occurs fails with
/// `InputContainsBlank`, whether or not the blank is an alphabet entry.
pub proof fn lemma_blank_in_input(m: MachineModel, input: Seq<char>, i: int)
    requires
        0 <= i < input.len(),
        m.blank == seq![input[i]],
    ensures
        input_check(m, input) == Err::<(), InputError>(InputError::InputContainsBlank),
{
    assert(input.subrange(i, i + m.blank.len()) =~= m.blank);
}

/// Whether one of `v` has the characters of `s`.
pub(crate) fn contains_name(v: &Vec<String>, s: &String) -> (r: bool)
    ensures
        r == names(v@).contains(s@),
{
    let mut i: usize = 0;
    while i < v.len()
        invariant
            i <= v.len(),
            forall|j: int| 0 <= j < i ==> v@[j]@ != s@,
        decreases v.len() - i,
    {
        if v[i] == *s {
            assert(names(v@)[i as int] == s@);
            return true;
        }
        i = i + 1;
    }
    assert(!names(v@).contains(s@)) by {
        if names(v@).contains(s@) {
            let k = choose|k: int| 0 <= k < names(v@).len() && names(v@)[k] == s@;
            assert(v@[k]@ == s@);
        }
    }
    false
}

/// The characters of `s`, one by one.
pub fn chars_of(s: &str) -> (r: Vec<char>)
    ensures
        r@ == s@,
{
    let n = s.unicode_len();
    let mut r: Vec<char> = Vec::new();
    while r.len() < n
        invariant
            n == s@.len(),
            r.len() <= n,
            r@ == s@.subrange(0, r.len() as int),
        decreases n - r.len(),
    {
        let c = s.get_char(r.len());
        r.push(c);
        assert(r@ =~= s@.subrange(0, r.len() as int));
    }
    assert(r@ =~= s@);
    r
}

/// Checks a description: blank in the alphabet, one character per symbol,
/// initial and final states listed, table states listed, and every rule
/// reading and writing symbols and going to a listed state. The first
/// failing check is reported.
pub fn validate_machine(machine: &Machine) -> (r: Result<(), DescriptionError>)
    ensures
        r == description_check(machine@),
{
    let ghost m = machine@;
    if !contains_name(&machine.alphabet, &machine.blank) {
        return Err(DescriptionError::BlankNotInAlphabet);
    }
    let mut i: usize = 0;
    while i < machine.alphabet.len()
        invariant
            i <= machine.alphabet.len(),
            m == machine@,
            m.alphabet.contains(m.blank),
            forall|j: int| 0 <= j < i ==> (#[trigger] m.alphabet[j]).len() == 1,
        decreases machine.alphabet.len() - i,
    {
        if machine.alphabet[i].as_str().unicode_len() != 1 {
            assert(m.alphabet[i as int] == machine.alphabet@[i as int]@);
            return Err(DescriptionError::AlphabetSymbolTooWide);
        }
        i = i + 1;
    }
    if !contains_name(&machine.states, &machine.initial) {
        return Err(DescriptionError::InitialStateUnknown);
    }
    let mut i: usize = 0;
    while i < machine.finals.len()
        invariant
            i <= machine.finals.len(),
            m == machine@,
            m.alphabet.contains(m.blank),
            symbols_single(m),
            m.states.contains(m.initial),
            forall|j: int| 0 <= j < i ==> m.states.contains(#[trigger] m.finals[j]),
        decreases machine.finals.len() - i,
    {
        if !contains_name(&machine.states, &machine.finals[i]) {
            assert(m.finals[i as int] == machine.finals@[i as int]@);
            return Err(DescriptionError::FinalStateUnknown);
        }
        i = i + 1;
    }
    let mut i: usize = 0;
    while i < machine.transitions.len()
        invariant
            i <= machine.transitions.len(),
            m == machine@,
            m.alphabet.contains(m.blank),
            symbols_single(m),
            m.states.contains(m.initial),
            finals_known(m),
            forall|j: int| 0 <= j < i ==> m.states.contains(#[trigger] m.transitions[j].0),
        decreases machine.transitions.len() - i,
    {
        if !contains_name(&machine.states, &machine.transitions[i].0) {
            assert(m.transitions[i as int].0 == machine.transitions@[i as int].0@);
            return Err(DescriptionError::TransitionStateUnknown);
        }
        i = i + 1;
    }
    let mut i: usize = 0;
    while i < machine.transitions.len()
        invariant
            i <= machine.transitions.len(),
            m == machine@,
            m.alphabet.contains(m.blank),
            symbols_single(m),
            m.states.contains(m.initial),
            finals_known(m),
            table_states_known(m),
            forall|a: int, b: int|
                0 <= a < i && 0 <= b < m.transitions[a].1.len() ==> rule_valid(
                    m,
                    #[trigger] m.transitions[a].1[b],
                ),
        decreases machine.transitions.len() - i,
    {
        let list: &Vec<Transition> = &machine.transitions[i].1;
        assert(m.transitions[i as int].1 == rules(list@));
        let mut k: usize = 0;
        while k < list.len()
            invariant
                i < machine.transitions.len(),
                k <= list.len(),
                m == machine@,
                m.alphabet.contains(m.blank),
                symbols_single(m),
                m.states.contains(m.initial),
                finals_known(m),
                table_states_known(m),
                m.transitions[i as int].1 == rules(list@),
                forall|a: int, b: int|
                    0 <= a < i && 0 <= b < m.transitions[a].1.len() ==> rule_valid(
                        m,
                        #[trigger] m.transitions[a].1[b],
                    ),
                forall|b: int| 0 <= b < k ==> rule_valid(m, #[trigger] m.transitions[i as int].1[b]),
            decreases list.len() - k,
        {
            let t = &list[k];
            assert(m.transitions[i as int].1[k as int] == t@);
            if !(contains_name(&machine.alphabet, &t.read) && contains_name(
                &machine.alphabet,
                &t.write,
            ) && contains_name(&machine.states, &t.to_state)) {
                return Err(DescriptionError::TransitionSymbolOrTargetInvalid);
            }
            k = k + 1;
        }
        assert(forall|b: int| 0 <= b < m.transitions[i as int].1.len() ==> rule_valid(m, #[trigger] m.transitions[i as int].1[b]));
        i = i + 1;
    }
    Ok(())
}

/// Whether `pat` occurs in `s` as a contiguous run.
fn occurs(pat: &Vec<char>, s: &Vec<char>) -> (r: bool)
    ensures
        r == occurs_in(pat@, s@),
{
    let plen = pat.len();
    let slen = s.len();
    if plen > slen {
        return false;
    }
    let mut i: usize = 0;
    while i <= slen - plen
        invariant
            plen == pat@.len(),
            slen == s@.len(),
            plen <= slen,
            i <= slen - plen + 1,
            forall|j: int| 0 <= j < i ==> #[trigger] s@.subrange(j, j + plen) != pat@,
        decreases slen - plen + 1 - i,
    {
        let mut k: usize = 0;
        while k < plen && s[i + k] == pat[k]
            invariant
                plen == pat@.len(),
                slen == s@.len(),
                i + plen <= slen,
                k <= plen,
                forall|q: int| 0 <= q < k ==> s@[i + q] == pat@[q],
            decreases plen - k,
        {
            k = k + 1;
        }
        if k == plen {
            assert(s@.subrange(i as int, i + plen) =~= pat@);
            return true;
        }
        assert(s@.subrange(i as int, i + plen)[k as int] != pat@[k as int]);
        i = i + 1;
    }
    false
}

/// Whether some alphabet entry is the single character `c`.
fn symbol_listed(alphabet: &Vec<String>, c: char) -> (r: bool)
    ensures
        r == names(alphabet@).contains(seq![c]),
{
    let mut i: usize = 0;
    while i < alphabet.len()
        invariant
            i <= alphabet.len(),
            forall|j: int| 0 <= j < i ==> alphabet@[j]@ != seq![c],
        decreases alphabet.len() - i,
    {
        let a = alphabet[i].as_str();
        if a.unicode_len() == 1 && a.get_char(0) == c {
            assert(a@ =~= seq![c]);
            assert(names(alphabet@)[i as int] == seq![c]);
            return true;
        }
        i = i + 1;
    }
    assert(!names(alphabet@).contains(seq![c])) by {
        if names(alphabet@).contains(seq![c]) {
            let k = choose|k: int| 0 <= k < names(alphabet@).len() && names(alphabet@)[k] == seq![c];
            assert(alphabet@[k]@ == seq![c]);
        }
    }
    false
}

/// Checks that `input` can be placed on the machine's tape: the blank does
/// not occur in it, and each of its characters is an alphabet entry. The
/// empty input passes.
pub fn validate_input(machine: &Machine, input: &str) -> (r: Result<(), InputError>)
    ensures
        r == input_check(machine@, input@),
{
    let s = chars_of(input);
    let blank = chars_of(machine.blank.as_str());
    if occurs(&blank, &s) {
        return Err(InputError::InputContainsBlank);
    }
    let mut i: usize = 0;
    while i < s.len()
        invariant
            i <= s.len(),
            s@ == input@,
            !occurs_in(machine@.blank, input@),
            forall|j: int| 0 <= j < i ==> in_alphabet(machine@, #[trigger] s@[j]),
        decreases s.len() - i,
    {
        if !symbol_listed(&machine.alphabet, s[i]) {
            assert(!in_alphabet(machine@, input@[i as int]));
            return Err(InputError::InputSymbolNotInAlphabet);
        }
        i = i + 1;
    }
    Ok(())
}

} // verus!
