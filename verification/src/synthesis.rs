//! The circuit's arithmetization: the shared column layout, the three
//! selector-gated operator gates, copy constraints and the public-instance
//! constraint, together with the witness synthesis that populates them.
//!
//! A [`Trace`] is one synthesized witness assignment over the shared layout:
//! two witness columns (`A`, which doubles as the output column, and `B`),
//! per-row selector flags for the three operator gates, the copy links that
//! wire values between regions, and the links that bind cells to rows of the
//! public instance. [`satisfies`] states when such a trace meets every
//! declared constraint for a given public-input vector; [`synthesize`] builds
//! the trace the circuit produces for two operands and an operator.

use vstd::prelude::*;

use crate::calculator::Operator;
use crate::field::{fadd, fmul, fsub, FieldValue};

verus! {

/// The two shared witness columns. Column `A` doubles as the output column:
/// an operator gate reads its inputs at one row and writes its output into
/// column `A` at the following row.
#[derive(Clone, Copy, Debug, PartialEq, Eq, Structural)]
pub enum WitnessColumn {
    A,
    B,
}

/// A reference to one witness cell: a column and an absolute row.
#[derive(Clone, Copy, Debug, PartialEq, Eq, Structural)]
pub struct CellRef {
    pub column: WitnessColumn,
    pub row: usize,
}

/// Builds a cell reference (spec shorthand).
pub open spec fn cref(column: WitnessColumn, row: usize) -> CellRef {
    CellRef { column, row }
}

/// One row of the witness table: the two witness cells (unassigned cells
/// hold `None`) and the three selector flags.
#[derive(Clone, Copy, Debug)]
pub struct Row {
    pub a: Option<FieldValue>,
    pub b: Option<FieldValue>,
    pub sel_add: bool,
    pub sel_sub: bool,
    pub sel_mul: bool,
}

/// A synthesized witness trace over the shared column layout.
pub struct Trace {
    /// The witness table, row by row.
    pub rows: Vec<Row>,
    /// Copy links: each pair of cells must hold equal values.
    pub copies: Vec<(CellRef, CellRef)>,
    /// Public exposure: each cell must equal the named public-instance row.
    pub instance_links: Vec<(CellRef, usize)>,
}

/// The field operation an operator denotes.
pub open spec fn field_apply(op: Operator, x: nat, y: nat) -> nat {
    match op {
        Operator::Add => fadd(x, y),
        Operator::Sub => fsub(x, y),
        Operator::Mul => fmul(x, y),
    }
}

/// The value a cell reference selects, if the cell exists and is assigned.
pub open spec fn cell_value(t: Trace, c: CellRef) -> Option<FieldValue> {
    if c.row < t.rows@.len() {
        match c.column {
            WitnessColumn::A => t.rows@[c.row as int].a,
            WitnessColumn::B => t.rows@[c.row as int].b,
        }
    } else {
        None
    }
}

/// The relation one operator gate checks at row `r`: both inputs and the
/// output cell on the next row are assigned, and the output is the operator
/// applied to the inputs.
pub open spec fn gate_rel(op: Operator, t: Trace, r: int) -> bool {
    &&& 0 <= r
    &&& r + 1 < t.rows@.len()
    &&& t.rows@[r].a is Some
    &&& t.rows@[r].b is Some
    &&& t.rows@[r + 1].a is Some
    &&& t.rows@[r + 1].a->0.val() == field_apply(op, t.rows@[r].a->0.val(), t.rows@[r].b->0.val())
}

/// Every selector that is asserted on row `r` imposes its gate's relation;
/// a cleared selector imposes nothing.
pub open spec fn row_gates_ok(t: Trace, r: int) -> bool {
    &&& (t.rows@[r].sel_add ==> gate_rel(Operator::Add, t, r))
    &&& (t.rows@[r].sel_sub ==> gate_rel(Operator::Sub, t, r))
    &&& (t.rows@[r].sel_mul ==> gate_rel(Operator::Mul, t, r))
}

/// All gates hold on all rows.
pub open spec fn gates_ok(t: Trace) -> bool {
    forall|r: int| 0 <= r < t.rows@.len() ==> #[trigger] row_gates_ok(t, r)
}

/// One copy link holds: both cells are assigned and hold equal values.
pub open spec fn copy_ok(t: Trace, link: (CellRef, CellRef)) -> bool {
    &&& cell_value(t, link.0) is Some
    &&& cell_value(t, link.1) is Some
    &&& cell_value(t, link.0)->0.val() == cell_value(t, link.1)->0.val()
}

/// All copy links hold.
pub open spec fn copies_ok(t: Trace) -> bool {
    forall|i: int| 0 <= i < t.copies@.len() ==> #[trigger] copy_ok(t, t.copies@[i])
}

/// One instance link holds: the public input has a value at the named row
/// and the cell is assigned and equals it.
pub open spec fn instance_link_ok(t: Trace, link: (CellRef, usize), inst: Seq<nat>) -> bool {
    &&& (link.1 as int) < inst.len()
    &&& cell_value(t, link.0) is Some
    &&& cell_value(t, link.0)->0.val() == inst[link.1 as int]
}

/// All instance links hold.
pub open spec fn instance_ok(t: Trace, inst: Seq<nat>) -> bool {
    forall|i: int| 0 <= i < t.instance_links@.len()
        ==> #[trigger] instance_link_ok(t, t.instance_links@[i], inst)
}

/// The whole constraint system is satisfied for public input `inst`.
pub open spec fn satisfies(t: Trace, inst: Seq<nat>) -> bool {
    &&& gates_ok(t)
    &&& copies_ok(t)
    &&& instance_ok(t, inst)
}

/// Every assigned cell of the trace holds a canonical field value.
pub open spec fn trace_wf(t: Trace) -> bool {
    forall|r: int|
        0 <= r < t.rows@.len() ==> {
            &&& (#[trigger] t.rows@[r].a matches Some(v) ==> v.wf())
            &&& (t.rows@[r].b matches Some(v) ==> v.wf())
        }
}

/// The values a vector of field elements denotes, row by row.
pub open spec fn instance_values(s: Seq<FieldValue>) -> Seq<nat> {
    Seq::new(s.len(), |i: int| s[i].val())
}

impl Trace {
    /// An empty trace: no rows, no links.
    pub fn new() -> (t: Trace)
        ensures
            t.rows@ =~= Seq::<Row>::empty(),
            t.copies@ =~= Seq::<(CellRef, CellRef)>::empty(),
            t.instance_links@ =~= Seq::<(CellRef, usize)>::empty(),
            trace_wf(t),
    {
        Trace { rows: Vec::new(), copies: Vec::new(), instance_links: Vec::new() }
    }

    /// Looks a cell up.
    pub fn cell_at(&self, c: CellRef) -> (r: Option<FieldValue>)
        ensures
            r == cell_value(*self, c),
    {
        if c.row < self.rows.len() {
            let row = self.rows[c.row];
            match c.column {
                WitnessColumn::A => row.a,
                WitnessColumn::B => row.b,
            }
        } else {
            None
        }
    }

    /// Loads one private operand: opens a fresh region holding a single row
    /// and assigns the value into column `A` with no constraint beyond its
    /// existence. Returns the new cell.
    pub fn load_private(&mut self, value: FieldValue) -> (c: CellRef)
        requires
            value.wf(),
            trace_wf(*old(self)),
        ensures
            trace_wf(*final(self)),
            final(self).rows@ =~= old(self).rows@.push(
                Row { a: Some(value), b: None, sel_add: false, sel_sub: false, sel_mul: false },
            ),
            final(self).copies@ == old(self).copies@,
            final(self).instance_links@ == old(self).instance_links@,
            c == cref(WitnessColumn::A, old(self).rows@.len() as usize),
            cell_value(*final(self), c) == Some(value),
    {
        let row_index = self.rows.len();
        self.rows.push(
            Row { a: Some(value), b: None, sel_add: false, sel_sub: false, sel_mul: false },
        );
        CellRef { column: WitnessColumn::A, row: row_index }
    }

    /// Applies the chosen operator gate: opens a region of two rows, asserts
    /// that operator's selector on the first, copy-links the two operand
    /// cells into columns `A` and `B` of the first row, and assigns the field
    /// result into column `A` of the second row. Returns the output cell.
    pub fn apply_operator(&mut self, op: Operator, lhs: CellRef, rhs: CellRef) -> (c: CellRef)
        requires
            trace_wf(*old(self)),
            cell_value(*old(self), lhs) is Some,
            cell_value(*old(self), rhs) is Some,
        ensures
            trace_wf(*final(self)),
            final(self).rows@.len() == old(self).rows@.len() + 2,
            final(self).rows@.subrange(0, old(self).rows@.len() as int) =~= old(self).rows@,
            final(self).rows@[old(self).rows@.len() as int] == (Row {
                a: cell_value(*old(self), lhs),
                b: cell_value(*old(self), rhs),
                sel_add: op == Operator::Add,
                sel_sub: op == Operator::Sub,
                sel_mul: op == Operator::Mul,
            }),
            final(self).rows@[old(self).rows@.len() as int + 1].b is None,
            !final(self).rows@[old(self).rows@.len() as int + 1].sel_add,
            !final(self).rows@[old(self).rows@.len() as int + 1].sel_sub,
            !final(self).rows@[old(self).rows@.len() as int + 1].sel_mul,
            final(self).copies@ =~= old(self).copies@
                .push((lhs, cref(WitnessColumn::A, old(self).rows@.len() as usize)))
                .push((rhs, cref(WitnessColumn::B, old(self).rows@.len() as usize))),
            final(self).instance_links@ == old(self).instance_links@,
            c == cref(WitnessColumn::A, (old(self).rows@.len() + 1) as usize),
            cell_value(*final(self), c) is Some,
            cell_value(*final(self), c)->0.wf(),
            cell_value(*final(self), c)->0.val() == field_apply(
                op,
                cell_value(*old(self), lhs)->0.val(),
                cell_value(*old(self), rhs)->0.val(),
            ),
            final(self).rows@[old(self).rows@.len() as int + 1].a == cell_value(*final(self), c),
    {
        let x = self.cell_at(lhs).unwrap();
        let y = self.cell_at(rhs).unwrap();
        let result = match op {
            Operator::Add => x.add(&y),
            Operator::Sub => x.sub(&y),
            Operator::Mul => x.mul(&y),
        };
        let (sel_add, sel_sub, sel_mul): (bool, bool, bool) = match op {
            Operator::Add => (true, false, false),
            Operator::Sub => (false, true, false),
            Operator::Mul => (false, false, true),
        };
        let gate_row = self.rows.len();
        self.rows.push(Row { a: Some(x), b: Some(y), sel_add, sel_sub, sel_mul });
        self.rows.push(
            Row { a: Some(result), b: None, sel_add: false, sel_sub: false, sel_mul: false },
        );
        self.copies.push((lhs, CellRef { column: WitnessColumn::A, row: gate_row }));
        let out_row = self.rows.len() - 1;
        self.copies.push((rhs, CellRef { column: WitnessColumn::B, row: gate_row }));
        CellRef { column: WitnessColumn::A, row: out_row }
    }

    /// Exposes a cell publicly: binds it to the given row of the public
    /// instance. This is the only place a witness value becomes bound to a
    /// value the verification harness must match.
    pub fn expose_public(&mut self, cell: CellRef, instance_row: usize)
        ensures
            final(self).rows@ == old(self).rows@,
            final(self).copies@ == old(self).copies@,
            final(self).instance_links@ =~= old(self).instance_links@.push((cell, instance_row)),
            trace_wf(*old(self)) ==> trace_wf(*final(self)),
    {
        self.instance_links.push((cell, instance_row));
    }
}

/// The layout of a trace as [`synthesize`] builds it, leaving every stored
/// number unconstrained: four rows in all — one per operand, one where the
/// chosen relation is enforced, and a last one for what it yields. No
/// selector bit is on anywhere except the bit for `op` on row 2; rows 0 and
/// 1 are wired by equality into row 2, and row 3's first cell is pinned to
/// entry 0 of the instance vector.
pub open spec fn has_shape(t: Trace, op: Operator) -> bool {
    &&& t.rows@.len() == 4
    &&& (forall|r: int|
        0 <= r < 4 ==> ((#[trigger] t.rows@[r].sel_add) <==> (r == 2 && op == Operator::Add)))
    &&& (forall|r: int|
        0 <= r < 4 ==> ((#[trigger] t.rows@[r].sel_sub) <==> (r == 2 && op == Operator::Sub)))
    &&& (forall|r: int|
        0 <= r < 4 ==> ((#[trigger] t.rows@[r].sel_mul) <==> (r == 2 && op == Operator::Mul)))
    &&& t.copies@ =~= seq![
        (cref(WitnessColumn::A, 0), cref(WitnessColumn::A, 2)),
        (cref(WitnessColumn::A, 1), cref(WitnessColumn::B, 2)),
    ]
    &&& t.instance_links@ =~= seq![(cref(WitnessColumn::A, 3), 0usize)]
}

/// Synthesizes the circuit for two operands and an operator: loads both
/// operands as private cells, dispatches to the chosen operator gate, and
/// exposes the resulting cell as public-instance row 0. Returns the trace
/// together with the computed result; the trace has the declared shape and
/// satisfies the whole constraint system for the public input holding
/// exactly that result.
pub fn synthesize(op: Operator, a: &FieldValue, b: &FieldValue) -> (r: (Trace, FieldValue))
    requires
        a.wf(),
        b.wf(),
    ensures
        trace_wf(r.0),
        has_shape(r.0, op),
        r.1.wf(),
        r.1.val() == field_apply(op, a.val(), b.val()),
        cell_value(r.0, cref(WitnessColumn::A, 0)) == Some(*a),
        cell_value(r.0, cref(WitnessColumn::A, 1)) == Some(*b),
        satisfies(r.0, seq![r.1.val()]),
{
    let mut t = Trace::new();
    let ca = t.load_private(*a);
    let cb = t.load_private(*b);
    let ghost t2 = t;
    let cout = t.apply_operator(op, ca, cb);
    proof {
        assert(t.rows@.subrange(0, 2) =~= t2.rows@);
        assert(t.rows@[0] == t2.rows@[0]);
        assert(t.rows@[1] == t2.rows@[1]);
    }
    t.expose_public(cout, 0);
    let result = t.cell_at(cout).unwrap();
    proof {
        let inst = seq![result.val()];
        assert forall|r: int| 0 <= r < t.rows@.len() implies #[trigger] row_gates_ok(t, r) by {
            if r == 2 {
                assert(gate_rel(op, t, 2));
            }
        }
        assert(copy_ok(t, t.copies@[0]));
        assert(copy_ok(t, t.copies@[1]));
        assert forall|i: int| 0 <= i < t.copies@.len() implies #[trigger] copy_ok(
            t,
            t.copies@[i],
        ) by {}
        assert(instance_link_ok(t, t.instance_links@[0], inst));
        assert forall|i: int| 0 <= i < t.instance_links@.len() implies #[trigger] instance_link_ok(
            t,
            t.instance_links@[i],
            inst,
        ) by {}
    }
    (t, result)
}

/// Decides one operator gate's relation at row `r`.
fn check_gate(t: &Trace, r: usize, op: Operator) -> (ok: bool)
    requires
        trace_wf(*t),
        r < t.rows@.len(),
    ensures
        ok == gate_rel(op, *t, r as int),
{
    let n = t.rows.len();
    let row = t.rows[r];
    match (row.a, row.b) {
        (Some(x), Some(y)) => {
            if r + 1 < n {
                match t.rows[r + 1].a {
                    Some(z) => {
                        let expected = match op {
                            Operator::Add => x.add(&y),
                            Operator::Sub => x.sub(&y),
                            Operator::Mul => x.mul(&y),
                        };
                        expected.eq_value(&z)
                    },
                    None => false,
                }
            } else {
                false
            }
        },
        _ => false,
    }
}

/// Decides whether every selector asserted on row `r` has its gate's
/// relation hold there.
fn check_row(t: &Trace, r: usize) -> (ok: bool)
    requires
        trace_wf(*t),
        r < t.rows@.len(),
    ensures
        ok == row_gates_ok(*t, r as int),
{
    let row = t.rows[r];
    let add_ok = !row.sel_add || check_gate(t, r, Operator::Add);
    let sub_ok = !row.sel_sub || check_gate(t, r, Operator::Sub);
    let mul_ok = !row.sel_mul || check_gate(t, r, Operator::Mul);
    add_ok && sub_ok && mul_ok
}

/// Decides one copy link.
fn check_copy(t: &Trace, link: (CellRef, CellRef)) -> (ok: bool)
    ensures
        ok == copy_ok(*t, link),
{
    match (t.cell_at(link.0), t.cell_at(link.1)) {
        (Some(x), Some(y)) => x.eq_value(&y),
        _ => false,
    }
}

/// Decides one instance link against the public input.
fn check_instance_link(t: &Trace, link: (CellRef, usize), instance: &Vec<FieldValue>) -> (ok: bool)
    ensures
        ok == instance_link_ok(*t, link, instance_values(instance@)),
{
    if link.1 < instance.len() {
        match t.cell_at(link.0) {
            Some(x) => x.eq_value(&instance[link.1]),
            None => false,
        }
    } else {
        false
    }
}

/// The verification harness's check, at the model level: decides whether a
/// synthesized trace satisfies every declared constraint — all selector-gated
/// gates, all copy links, all public-instance links — for the given vector
/// of public inputs.
pub fn check(t: &Trace, instance: &Vec<FieldValue>) -> (ok: bool)
    requires
        trace_wf(*t),
    ensures
        ok == satisfies(*t, instance_values(instance@)),
{
    let ghost inst = instance_values(instance@);
    let mut r: usize = 0;
    while r < t.rows.len()
        invariant
            trace_wf(*t),
            r <= t.rows@.len(),
            forall|j: int| 0 <= j < r ==> #[trigger] row_gates_ok(*t, j),
        decreases t.rows@.len() - r,
    {
        if !check_row(t, r) {
            return false;
        }
        r += 1;
    }
    let mut i: usize = 0;
    while i < t.copies.len()
        invariant
            i <= t.copies@.len(),
            forall|j: int| 0 <= j < i ==> #[trigger] copy_ok(*t, t.copies@[j]),
        decreases t.copies@.len() - i,
    {
        if !check_copy(t, t.copies[i]) {
            return false;
        }
        i += 1;
    }
    let mut k: usize = 0;
    while k < t.instance_links.len()
        invariant
            k <= t.instance_links@.len(),
            instance_values(instance@) == inst,
            forall|j: int| 0 <= j < k ==> #[trigger] instance_link_ok(*t, t.instance_links@[j], inst),
        decreases t.instance_links@.len() - k,
    {
        if !check_instance_link(t, t.instance_links[k], instance) {
            return false;
        }
        k += 1;
    }
    true
}

/// How many selectors are asserted on row `r`.
pub open spec fn selector_count(t: Trace, r: int) -> int {
    (if t.rows@[r].sel_add {
        1int
    } else {
        0int
    }) + (if t.rows@[r].sel_sub {
        1int
    } else {
        0int
    }) + (if t.rows@[r].sel_mul {
        1int
    } else {
        0int
    })
}

/// Gate exclusivity: on a trace of the synthesized shape, the single gate
/// row asserts exactly one selector — the chosen operator's — and every
/// other row asserts none.
pub proof fn lemma_gate_exclusivity(t: Trace, op: Operator)
    requires
        has_shape(t, op),
    ensures
        selector_count(t, 2) == 1,
        t.rows@[2].sel_add <==> op == Operator::Add,
        t.rows@[2].sel_sub <==> op == Operator::Sub,
        t.rows@[2].sel_mul <==> op == Operator::Mul,
        forall|r: int| 0 <= r < t.rows@.len() && r != 2 ==> #[trigger] selector_count(t, r) == 0,
{
}

/// Soundness: any assignment with this layout that passes every check pins
/// entry 0 of the instance vector to `field_apply(op, x, y)`, with `x` and
/// `y` read from rows 0 and 1. The equality wiring forbids the relation row
/// from working on numbers other than those.
pub proof fn lemma_instance_determined(t: Trace, op: Operator, inst: Seq<nat>)
    requires
        has_shape(t, op),
        satisfies(t, inst),
    ensures
        inst.len() >= 1,
        cell_value(t, cref(WitnessColumn::A, 0)) is Some,
        cell_value(t, cref(WitnessColumn::A, 1)) is Some,
        inst[0] == field_apply(
            op,
            cell_value(t, cref(WitnessColumn::A, 0))->0.val(),
            cell_value(t, cref(WitnessColumn::A, 1))->0.val(),
        ),
{
    assert(row_gates_ok(t, 2));
    assert(gate_rel(op, t, 2));
    assert(copy_ok(t, t.copies@[0]));
    assert(copy_ok(t, t.copies@[1]));
    assert(instance_link_ok(t, t.instance_links@[0], inst));
}

/// A tampered public input is rejected: if a trace of the synthesized shape
/// satisfies the constraints for the public input `[c]`, it cannot also
/// satisfy them for `[v]` with `v != c`.
pub proof fn lemma_tampered_instance_rejected(t: Trace, op: Operator, c: nat, v: nat)
    requires
        has_shape(t, op),
        satisfies(t, seq![c]),
        v != c,
    ensures
        !satisfies(t, seq![v]),
{
    if satisfies(t, seq![v]) {
        lemma_instance_determined(t, op, seq![c]);
        lemma_instance_determined(t, op, seq![v]);
    }
}

} // verus!
