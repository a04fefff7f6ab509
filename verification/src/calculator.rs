//! The calculator orchestrator: parsing of the `"<operand> <operator>
//! <operand>"` input line, the operator, and the two-phase circuit protocol.

use vstd::prelude::*;
use vstd::string::StrSliceExecFns;

use crate::errors::{CircuitError, ParserError};
use crate::field::FieldValue;
use crate::synthesis::{
    cell_value, check, cref, field_apply, has_shape, instance_values, satisfies, synthesize,
    trace_wf, Trace, WitnessColumn,
};

verus! {

/// The closed set of operators the circuit supports. Fixed once parsed; it
/// selects exactly one operator gate at synthesis time.
#[derive(Clone, Copy, Debug, PartialEq, Eq, Structural)]
pub enum Operator {
    Add,
    Sub,
    Mul,
}

/// The operator a single token denotes: `+`, `-` or `*`.
pub open spec fn spec_operator_of(s: Seq<char>) -> Result<Operator, ParserError> {
    if s.len() == 1 && s[0] == '+' {
        Ok(Operator::Add)
    } else if s.len() == 1 && s[0] == '-' {
        Ok(Operator::Sub)
    } else if s.len() == 1 && s[0] == '*' {
        Ok(Operator::Mul)
    } else {
        Err(ParserError::InvalidOperator)
    }
}

impl Operator {
    /// Reads an operator from one token.
    pub fn from_token(token: &str) -> (r: Result<Operator, ParserError>)
        ensures
            r == spec_operator_of(token@),
    {
        if token.unicode_len() == 1 {
            let c = token.get_char(0);
            if c == '+' {
                Ok(Operator::Add)
            } else if c == '-' {
                Ok(Operator::Sub)
            } else if c == '*' {
                Ok(Operator::Mul)
            } else {
                Err(ParserError::InvalidOperator)
            }
        } else {
            Err(ParserError::InvalidOperator)
        }
    }
}

/// ASCII whitespace, the token separator.
pub open spec fn is_space(c: char) -> bool {
    c == ' ' || c == '\t' || c == '\n' || c == '\r' || c == '\u{000B}' || c == '\u{000C}'
}

/// A decimal digit.
pub open spec fn is_digit(c: char) -> bool {
    '0' <= c && c <= '9'
}

/// The numeric value of a decimal digit.
pub open spec fn digit_value(c: char) -> nat {
    ((c as nat) - ('0' as nat)) as nat
}

/// The number a string of decimal digits denotes.
pub open spec fn dec_value(s: Seq<char>) -> nat
    decreases s.len(),
{
    if s.len() == 0 {
        0
    } else {
        dec_value(s.drop_last()) * 10 + digit_value(s.last())
    }
}

/// Every character is a decimal digit.
pub open spec fn all_digits(s: Seq<char>) -> bool {
    forall|i: int| 0 <= i < s.len() ==> is_digit(#[trigger] s[i])
}

/// The digits of an operand token: an optional leading `+` sign is dropped.
pub open spec fn operand_digits(s: Seq<char>) -> Seq<char> {
    if s.len() > 0 && s[0] == '+' {
        s.skip(1)
    } else {
        s
    }
}

/// The operand a single token denotes: after an optional leading `+`, one or
/// more decimal digits whose value fits in 64 bits.
pub open spec fn spec_operand_of(s: Seq<char>) -> Result<u64, ParserError> {
    let d = operand_digits(s);
    if d.len() > 0 && all_digits(d) && dec_value(d) <= u64::MAX {
        Ok(dec_value(d) as u64)
    } else {
        Err(ParserError::InvalidOperand)
    }
}

/// The whitespace-separated tokens of a line, defined by recursion on the
/// last character.
pub open spec fn tokens_of(s: Seq<char>) -> Seq<Seq<char>>
    decreases s.len(),
{
    if s.len() == 0 {
        Seq::empty()
    } else {
        let pre = tokens_of(s.drop_last());
        let c = s[s.len() - 1];
        if is_space(c) {
            pre
        } else if s.len() == 1 || is_space(s[s.len() - 2]) {
            pre.push(seq![c])
        } else {
            pre.update(pre.len() - 1, pre.last().push(c))
        }
    }
}

/// The outcome of parsing a whole input line: three tokens — operand,
/// operator, operand — with the error of the leftmost offending token, and
/// `NotEnoughInputs` / `TooManyInputs` for a wrong token count.
pub open spec fn spec_parse(s: Seq<char>) -> Result<(u64, Operator, u64), ParserError> {
    let ts = tokens_of(s);
    if ts.len() == 0 {
        Err(ParserError::NotEnoughInputs)
    } else if spec_operand_of(ts[0]) is Err {
        Err(ParserError::InvalidOperand)
    } else if ts.len() == 1 {
        Err(ParserError::NotEnoughInputs)
    } else if spec_operator_of(ts[1]) is Err {
        Err(ParserError::InvalidOperator)
    } else if ts.len() == 2 {
        Err(ParserError::NotEnoughInputs)
    } else if spec_operand_of(ts[2]) is Err {
        Err(ParserError::InvalidOperand)
    } else if ts.len() > 3 {
        Err(ParserError::TooManyInputs)
    } else {
        Ok(
            (
                spec_operand_of(ts[0])->Ok_0,
                spec_operator_of(ts[1])->Ok_0,
                spec_operand_of(ts[2])->Ok_0,
            ),
        )
    }
}

/// The numeric value of one character, if it is a decimal digit.
fn digit_of(c: char) -> (r: Option<u64>)
    ensures
        r is Some <==> is_digit(c),
        r matches Some(v) ==> v as nat == digit_value(c) && v <= 9,
{
    match c {
        '0' => Some(0),
        '1' => Some(1),
        '2' => Some(2),
        '3' => Some(3),
        '4' => Some(4),
        '5' => Some(5),
        '6' => Some(6),
        '7' => Some(7),
        '8' => Some(8),
        '9' => Some(9),
        _ => None,
    }
}

/// Prefixes denote no more than the whole digit string.
proof fn lemma_dec_value_prefix_le(s: Seq<char>, k: int)
    requires
        0 <= k <= s.len(),
    ensures
        dec_value(s.take(k)) <= dec_value(s),
    decreases s.len() - k,
{
    if k < s.len() {
        assert(s.take(k + 1).drop_last() =~= s.take(k));
        assert(s.take(k + 1).last() == s[k]);
        assert(dec_value(s.take(k)) <= dec_value(s.take(k)) * 10 + digit_value(s[k]));
        lemma_dec_value_prefix_le(s, k + 1);
        assert(s.take(s.len() as int) =~= s);
    } else {
        assert(s.take(k) =~= s);
    }
}

/// Reads an operand from one token.
pub fn parse_operand(token: &str) -> (r: Result<u64, ParserError>)
    ensures
        r == spec_operand_of(token@),
{
    let n = token.unicode_len();
    let start: usize = if n > 0 && token.get_char(0) == '+' {
        1
    } else {
        0
    };
    let ghost d = operand_digits(token@);
    if start >= n {
        return Err(ParserError::InvalidOperand);
    }
    let mut acc: u64 = 0;
    let mut i: usize = start;
    while i < n
        invariant
            start <= i <= n,
            n == token@.len(),
            start == 1 ==> token@.len() > 0 && token@[0] == '+',
            start == 0 ==> !(token@.len() > 0 && token@[0] == '+'),
            d == operand_digits(token@),
            d =~= token@.skip(start as int),
            forall|j: int| 0 <= j < i - start ==> is_digit(#[trigger] d[j]),
            acc as nat == dec_value(d.take(i - start)),
        decreases n - i,
    {
        let c = token.get_char(i);
        let dv = match digit_of(c) {
            Some(v) => v,
            None => {
                proof {
                    assert(d[i - start] == token@[i as int]);
                }
                return Err(ParserError::InvalidOperand);
            },
        };
        proof {
            assert(d.take(i - start + 1).drop_last() =~= d.take(i - start));
            assert(d.take(i - start + 1).last() == d[i - start]);
            assert(d[i - start] == token@[i as int]);
        }
        let next = match acc.checked_mul(10) {
            Some(m) => m.checked_add(dv),
            None => None,
        };
        match next {
            Some(v) => {
                acc = v;
            },
            None => {
                proof {
                    assert(dec_value(d.take(i - start + 1)) > u64::MAX);
                    lemma_dec_value_prefix_le(d, i - start + 1);
                }
                return Err(ParserError::InvalidOperand);
            },
        }
        i += 1;
    }
    proof {
        assert(d.take(n - start) =~= d);
    }
    Ok(acc)
}

/// The token each index range selects from the line.
pub open spec fn range_tokens(s: Seq<char>, ranges: Seq<(usize, usize)>) -> Seq<Seq<char>> {
    ranges.map(|k: int, rg: (usize, usize)| s.subrange(rg.0 as int, rg.1 as int))
}

/// Splits a line into the index ranges of its whitespace-separated tokens.
fn tokenize(input: &str) -> (ranges: Vec<(usize, usize)>)
    ensures
        range_tokens(input@, ranges@) =~~= tokens_of(input@),
        forall|k: int|
            0 <= k < ranges@.len() ==> #[trigger] ranges@[k].0 < ranges@[k].1 <= input@.len(),
{
    let n = input.unicode_len();
    let mut ranges: Vec<(usize, usize)> = Vec::new();
    let mut current: Option<usize> = None;
    let mut i: usize = 0;
    while i < n
        invariant
            i <= n,
            n == input@.len(),
            forall|k: int| 0 <= k < ranges@.len() ==> #[trigger] ranges@[k].0 < ranges@[k].1 <= i,
            match current {
                Some(st) => {
                    &&& st < i
                    &&& i > 0
                    &&& !is_space(input@[i - 1])
                    &&& range_tokens(input@, ranges@).push(input@.subrange(st as int, i as int))
                        =~~= tokens_of(input@.take(i as int))
                },
                None => {
                    &&& (i == 0 || is_space(input@[i - 1]))
                    &&& range_tokens(input@, ranges@) =~~= tokens_of(input@.take(i as int))
                },
            },
        decreases n - i,
    {
        let c = input.get_char(i);
        let space = c == ' ' || c == '\t' || c == '\n' || c == '\r' || c == '\u{000B}' || c
            == '\u{000C}';
        proof {
            assert(input@.take(i + 1).drop_last() =~= input@.take(i as int));
            assert(input@.take(i + 1).last() == input@[i as int]);
        }
        if space {
            match current {
                Some(st) => {
                    let ghost old_ranges = ranges@;
                    ranges.push((st, i));
                    proof {
                        assert(range_tokens(input@, ranges@) =~~= range_tokens(
                            input@,
                            ranges@.drop_last(),
                        ).push(input@.subrange(st as int, i as int)));
                        assert forall|k: int| 0 <= k < ranges@.len() implies #[trigger] ranges@[k].0
                            < ranges@[k].1 <= i by {
                            if k < old_ranges.len() {
                                assert(ranges@[k] == old_ranges[k]);
                            }
                        }
                    }
                    current = None;
                },
                None => {},
            }
        } else {
            match current {
                Some(_) => {
                    proof {
                        let pre = tokens_of(input@.take(i as int));
                        assert(tokens_of(input@.take(i + 1)) =~~= pre.update(
                            pre.len() - 1,
                            pre.last().push(input@[i as int]),
                        ));
                    }
                },
                None => {
                    current = Some(i);
                    proof {
                        assert(input@.subrange(i as int, i + 1) =~= seq![input@[i as int]]);
                    }
                },
            }
        }
        i += 1;
    }
    match current {
        Some(st) => {
            ranges.push((st, n));
            proof {
                assert(range_tokens(input@, ranges@) =~~= range_tokens(
                    input@,
                    ranges@.drop_last(),
                ).push(input@.subrange(st as int, n as int)));
                assert(input@.take(n as int) =~= input@);
            }
        },
        None => {
            proof {
                assert(input@.take(n as int) =~= input@);
            }
        },
    }
    ranges
}

/// One parsed operation: two operands and the chosen operator.
#[derive(Clone, Copy, Debug)]
struct Operation {
    a: u64,
    b: u64,
    operator: Operator,
}

/// Everything one synthesis run produces: the loaded operands as field
/// values, the computed result — the expected public instance — and the
/// synthesized witness trace.
pub struct CircuitRun {
    /// The operator that was dispatched.
    pub operator: Operator,
    /// The first operand, embedded into the field.
    pub lhs: FieldValue,
    /// The second operand, embedded into the field.
    pub rhs: FieldValue,
    /// The computed result; the public input the verifier must be given.
    pub result: FieldValue,
    /// The synthesized witness trace.
    pub trace: Trace,
}

impl CircuitRun {
    /// The verification harness's verdict at the model level: checks the
    /// synthesized trace against a vector of public inputs and reports
    /// pass/fail. A mismatch is a `VerifierError` — the expected outcome for
    /// a tampered public input, distinct from a backend fault.
    pub fn verify(&self, public_inputs: &Vec<FieldValue>) -> (r: Result<(), CircuitError>)
        requires
            trace_wf(self.trace),
        ensures
            r is Ok <==> satisfies(self.trace, instance_values(public_inputs@)),
            r is Err ==> r == Err::<(), CircuitError>(CircuitError::VerifierError),
    {
        if check(&self.trace, public_inputs) {
            Ok(())
        } else {
            Err(CircuitError::VerifierError)
        }
    }
}

/// The top-level orchestrator: holds the parsed operation, if any, and
/// drives the two-phase protocol — parse first, then synthesize.
pub struct ZkCalculator {
    operation: Option<Operation>,
}

impl ZkCalculator {
    /// The operation currently stored, as plain values.
    pub closed spec fn operation_view(self) -> Option<(u64, Operator, u64)> {
        match self.operation {
            Some(o) => Some((o.a, o.operator, o.b)),
            None => None,
        }
    }

    /// A calculator with no operation set.
    pub fn new() -> (r: ZkCalculator)
        ensures
            r.operation_view() is None,
    {
        ZkCalculator { operation: None }
    }

    /// Parses one input line of the form `"<operand> <operator> <operand>"`
    /// and stores the operation. On a malformed line the offending token's
    /// error is returned and the stored operation is left untouched.
    pub fn parse(&mut self, input: String) -> (r: Result<(), ParserError>)
        ensures
            match spec_parse(input@) {
                Ok((a, op, b)) => r is Ok && final(self).operation_view() == Some((a, op, b)),
                Err(e) => r == Err::<(), ParserError>(e) && final(self).operation_view() == old(
                    self,
                ).operation_view(),
            },
    {
        let line = input.as_str();
        let ranges = tokenize(line);
        if ranges.len() == 0 {
            return Err(ParserError::NotEnoughInputs);
        }
        let t0 = line.substring_char(ranges[0].0, ranges[0].1);
        proof {
            assert(t0@ == range_tokens(input@, ranges@)[0]);
        }
        let a = match parse_operand(t0) {
            Ok(v) => v,
            Err(e) => return Err(e),
        };
        if ranges.len() == 1 {
            return Err(ParserError::NotEnoughInputs);
        }
        let t1 = line.substring_char(ranges[1].0, ranges[1].1);
        proof {
            assert(t1@ == range_tokens(input@, ranges@)[1]);
        }
        let operator = match Operator::from_token(t1) {
            Ok(op) => op,
            Err(e) => return Err(e),
        };
        if ranges.len() == 2 {
            return Err(ParserError::NotEnoughInputs);
        }
        let t2 = line.substring_char(ranges[2].0, ranges[2].1);
        proof {
            assert(t2@ == range_tokens(input@, ranges@)[2]);
        }
        let b = match parse_operand(t2) {
            Ok(v) => v,
            Err(e) => return Err(e),
        };
        if ranges.len() > 3 {
            return Err(ParserError::TooManyInputs);
        }
        self.operation = Some(Operation { a, b, operator });
        Ok(())
    }

    /// Synthesizes the circuit for the stored operation: embeds both
    /// operands into the field, dispatches to the chosen operator gate and
    /// computes the expected public instance. Before an operation is set
    /// this fails with `NoOperation` and no synthesis is attempted. The
    /// returned trace satisfies the constraint system exactly for the public
    /// input `[result]`; the backend's synthesize-and-check runs outside the
    /// library on these artifacts.
    pub fn run_circuit(&self) -> (r: Result<CircuitRun, CircuitError>)
        ensures
            match self.operation_view() {
                None => r == Err::<CircuitRun, CircuitError>(CircuitError::NoOperation),
                Some((a, op, b)) => {
                    &&& r is Ok
                    &&& r->Ok_0.operator == op
                    &&& r->Ok_0.lhs.wf() && r->Ok_0.lhs.val() == a as nat
                    &&& r->Ok_0.rhs.wf() && r->Ok_0.rhs.val() == b as nat
                    &&& r->Ok_0.result.wf()
                    &&& r->Ok_0.result.val() == field_apply(op, a as nat, b as nat)
                    &&& trace_wf(r->Ok_0.trace)
                    &&& has_shape(r->Ok_0.trace, op)
                    &&& cell_value(r->Ok_0.trace, cref(WitnessColumn::A, 0)) == Some(r->Ok_0.lhs)
                    &&& cell_value(r->Ok_0.trace, cref(WitnessColumn::A, 1)) == Some(r->Ok_0.rhs)
                    &&& satisfies(r->Ok_0.trace, seq![r->Ok_0.result.val()])
                },
            },
    {
        let operation = match &self.operation {
            Some(o) => o,
            None => {
                return Err(CircuitError::NoOperation);
            },
        };
        let lhs = FieldValue::from_u64(operation.a);
        let rhs = FieldValue::from_u64(operation.b);
        let (trace, result) = synthesize(operation.operator, &lhs, &rhs);
        Ok(CircuitRun { operator: operation.operator, lhs, rhs, result, trace })
    }
}

} // verus!
