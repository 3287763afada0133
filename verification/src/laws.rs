//! The traversal laws: what whole walks over the cursor are guaranteed to
//! do, proved over the cursor's abstract state, together with verified
//! round-trip readings of single-value documents for every scalar kind.

use vstd::prelude::*;

use crate::element::{Element, Value};
use crate::raw_element_reader::{
    advance_item, advance_post, can_step_in, can_step_out, child_items, fresh_cursor,
    lemma_advance_wf, lemma_step_in_wf, lemma_step_out_wf, step_in_post, step_out_post,
    stream_item_of, CursorV, RawElementReader,
};
use crate::result::{IonError, IonResult, ValueKind};
use crate::types::{Decimal, Int, IonType, RawStreamItem, Symbol, Timestamp};

verus! {

/// The state after `k` advances from `s`.
pub open spec fn iterate_advance(s: CursorV, k: nat) -> CursorV
    decreases k,
{
    if k == 0 {
        s
    } else {
        advance_post(iterate_advance(s, (k - 1) as nat))
    }
}

/// Advancing `k` times inside an open container walks its frontier in order:
/// after the `k`-th advance the cursor sits on the frontier's `k`-th item
/// (value and field name alike), the remaining frontier is the rest, and
/// nothing else of the cursor has moved.
pub proof fn lemma_frontier_traversal(s: CursorV, k: int)
    requires
        s.wf(),
        s.parents.len() > 0,
        0 <= k <= s.frontier.len(),
    ensures
        ({
            let t = iterate_advance(s, k as nat);
            &&& t.wf()
            &&& t.frontier == s.frontier.skip(k)
            &&& t.stack == s.stack
            &&& t.parents == s.parents
            &&& t.root == s.root
            &&& t.eof == s.eof
            &&& (k > 0 ==> t.current == Some(s.frontier[k - 1].value) && t.field
                == s.frontier[k - 1].field_name)
            &&& (k == 0 ==> t == s)
        }),
    decreases k,
{
    if k == 0 {
        assert(iterate_advance(s, 0) == s);
        assert(s.frontier.skip(0) =~= s.frontier);
    } else {
        lemma_frontier_traversal(s, k - 1);
        let t0 = iterate_advance(s, (k - 1) as nat);
        lemma_advance_wf(t0);
        assert(iterate_advance(s, k as nat) == advance_post(t0));
        assert(t0.frontier[0] == s.frontier.skip(k - 1)[0]);
        assert(s.frontier.skip(k - 1)[0] == s.frontier[k - 1]);
        assert(t0.frontier.drop_first() =~= s.frontier.skip(k));
    }
}

/// Exhaustive in-order traversal: step into a container, and the `k`-th
/// advance delivers exactly its `k`-th declared child — for structs in
/// declaration order with duplicate field names preserved — classified as
/// that child's own stream item.
pub proof fn lemma_exhaustive_traversal(s: CursorV, k: int)
    requires
        s.wf(),
        can_step_in(s),
        0 <= k < child_items(s.current->0).len(),
    ensures
        ({
            let children = child_items(s.current->0);
            let t = iterate_advance(step_in_post(s), (k + 1) as nat);
            &&& advance_item(iterate_advance(step_in_post(s), k as nat)) == stream_item_of(
                children[k].value,
            )
            &&& t.current == Some(children[k].value)
            &&& t.field == children[k].field_name
        }),
{
    lemma_step_in_wf(s);
    let t0 = step_in_post(s);
    lemma_frontier_traversal(t0, k);
    lemma_frontier_traversal(t0, k + 1);
    let tk = iterate_advance(t0, k as nat);
    assert(iterate_advance(t0, (k + 1) as nat) == advance_post(tk));
    assert(tk.frontier[0] == t0.frontier.skip(k)[0]);
    assert(t0.frontier.skip(k)[0] == t0.frontier[k]);
}

/// After a container's children are all delivered, one more advance yields
/// `Nothing`: the container is exhausted, and no descendant appears again.
pub proof fn lemma_traversal_exhausts(s: CursorV)
    requires
        s.wf(),
        can_step_in(s),
    ensures
        advance_item(
            iterate_advance(step_in_post(s), child_items(s.current->0).len()),
        ) == RawStreamItem::Nothing,
{
    lemma_step_in_wf(s);
    let t0 = step_in_post(s);
    let n = child_items(s.current->0).len() as int;
    lemma_frontier_traversal(t0, n);
    let tn = iterate_advance(t0, n as nat);
    assert(tn.frontier.len() == 0);
}

/// Skip equivalence: advancing past an unentered container leaves the exact
/// state (and delivers the exact item) that stepping in, stepping out and
/// then advancing does — so ignoring a container still advances correctly
/// past it, and none of its descendants is ever exposed.
pub proof fn lemma_skip_equivalence(s: CursorV)
    requires
        s.wf(),
        can_step_in(s),
    ensures
        advance_post(step_out_post(step_in_post(s))) == advance_post(s),
        advance_item(step_out_post(step_in_post(s))) == advance_item(s),
{
    let entered = step_in_post(s);
    let out = step_out_post(entered);
    assert(entered.stack.drop_last() =~= s.stack);
    assert(entered.parents.drop_last() =~= s.parents);
    assert(out =~= (CursorV { current: None, field: None, ..s }));
    assert(advance_post(out) =~= advance_post(s));
}

/// Early-exit re-entrancy: step into a container, advance over any prefix of
/// its children, and step out — the cursor is exactly where a full skip
/// leaves it, so the next advance at the parent level yields the container's
/// correct next sibling. Draining on step-out is transparent.
pub proof fn lemma_early_exit(s: CursorV, k: int)
    requires
        s.wf(),
        can_step_in(s),
        0 <= k <= child_items(s.current->0).len(),
    ensures
        step_out_post(iterate_advance(step_in_post(s), k as nat)) == step_out_post(
            step_in_post(s),
        ),
        advance_post(step_out_post(iterate_advance(step_in_post(s), k as nat))) == advance_post(s),
        advance_item(step_out_post(iterate_advance(step_in_post(s), k as nat))) == advance_item(s),
{
    lemma_step_in_wf(s);
    let t0 = step_in_post(s);
    lemma_frontier_traversal(t0, k);
    let tk = iterate_advance(t0, k as nat);
    assert(step_out_post(tk) =~= step_out_post(t0));
    lemma_skip_equivalence(s);
}

/// One cursor operation, for stating laws about whole op sequences.
pub ghost enum CursorOp {
    Advance,
    StepIn,
    StepOut,
}

/// The state an operation moves the cursor to.
pub open spec fn apply_op(s: CursorV, op: CursorOp) -> CursorV {
    match op {
        CursorOp::Advance => advance_post(s),
        CursorOp::StepIn => step_in_post(s),
        CursorOp::StepOut => step_out_post(s),
    }
}

/// Whether an operation is legal in state `s` (an illegal one fails and
/// leaves the cursor unchanged).
pub open spec fn op_legal(s: CursorV, op: CursorOp) -> bool {
    match op {
        CursorOp::Advance => true,
        CursorOp::StepIn => can_step_in(s),
        CursorOp::StepOut => can_step_out(s),
    }
}

/// The state after a whole sequence of operations.
pub open spec fn apply_ops(s: CursorV, ops: Seq<CursorOp>) -> CursorV
    decreases ops.len(),
{
    if ops.len() == 0 {
        s
    } else {
        apply_ops(apply_op(s, ops[0]), ops.drop_first())
    }
}

/// Whether every operation of the sequence is legal when its turn comes.
pub open spec fn ops_legal(s: CursorV, ops: Seq<CursorOp>) -> bool
    decreases ops.len(),
{
    ops.len() == 0 || (op_legal(s, ops[0]) && ops_legal(apply_op(s, ops[0]), ops.drop_first()))
}

/// How many of the operations are step-ins.
pub open spec fn count_step_ins(ops: Seq<CursorOp>) -> int
    decreases ops.len(),
{
    if ops.len() == 0 {
        0
    } else {
        (if ops[0] is StepIn {
            1int
        } else {
            0int
        }) + count_step_ins(ops.drop_first())
    }
}

/// How many of the operations are step-outs.
pub open spec fn count_step_outs(ops: Seq<CursorOp>) -> int
    decreases ops.len(),
{
    if ops.len() == 0 {
        0
    } else {
        (if ops[0] is StepOut {
            1int
        } else {
            0int
        }) + count_step_outs(ops.drop_first())
    }
}

/// The depth invariant: across any legal sequence of operations the depth
/// grows by one per step-in and shrinks by one per step-out, and by nothing
/// else. In particular, after `n` unmatched step-ins from the top level the
/// depth is exactly `n`, and each matching step-out decrements it by one.
pub proof fn lemma_depth_invariant(s: CursorV, ops: Seq<CursorOp>)
    requires
        s.wf(),
        ops_legal(s, ops),
    ensures
        apply_ops(s, ops).wf(),
        apply_ops(s, ops).depth() == s.depth() + count_step_ins(ops) - count_step_outs(ops),
    decreases ops.len(),
{
    if ops.len() > 0 {
        let t = apply_op(s, ops[0]);
        match ops[0] {
            CursorOp::Advance => lemma_advance_wf(s),
            CursorOp::StepIn => {
                lemma_step_in_wf(s);
                assert(t.parents.len() == s.parents.len() + 1);
            },
            CursorOp::StepOut => {
                lemma_step_out_wf(s);
                assert(t.parents.len() == s.parents.len() - 1);
            },
        }
        lemma_depth_invariant(t, ops.drop_first());
    }
}

/// A sequence with no step-out has a step-out count of zero.
proof fn lemma_no_step_outs(ops: Seq<CursorOp>)
    requires
        forall|i: int| 0 <= i < ops.len() ==> !((#[trigger] ops[i]) is StepOut),
    ensures
        count_step_outs(ops) == 0,
    decreases ops.len(),
{
    if ops.len() > 0 {
        let rest = ops.drop_first();
        assert forall|i: int| 0 <= i < rest.len() implies !((#[trigger] rest[i]) is StepOut) by {
            assert(rest[i] == ops[i + 1]);
        }
        lemma_no_step_outs(rest);
    }
}

/// From the top level, any legal walk that never steps out leaves the cursor
/// at a depth equal to the number of step-ins it performed.
pub proof fn lemma_unmatched_step_ins(s: CursorV, ops: Seq<CursorOp>)
    requires
        s.wf(),
        s.depth() == 0,
        ops_legal(s, ops),
        forall|i: int| 0 <= i < ops.len() ==> !((#[trigger] ops[i]) is StepOut),
    ensures
        apply_ops(s, ops).depth() == count_step_ins(ops),
{
    lemma_depth_invariant(s, ops);
    lemma_no_step_outs(ops);
}

/// A single-value document that is a typed null, read back through the
/// matching accessor, reports the type it is a null of.
pub fn null_round_trip(t: IonType) -> (r: IonResult<IonType>)
    ensures
        r == Ok::<IonType, IonError>(t),
{
    let mut reader = RawElementReader::new(Element::of(Value::Null(t)));
    let _ = reader.next();
    reader.read_null()
}

/// A single-value boolean document, read back through the matching typed
/// accessor, returns the original payload unchanged.
pub fn bool_round_trip(b: bool) -> (r: IonResult<bool>)
    ensures
        r == Ok::<bool, IonError>(b),
{
    let mut reader = RawElementReader::new(Element::of(Value::Bool(b)));
    let _ = reader.next();
    reader.read_bool()
}

/// A single-value integer document returns the original integer unchanged.
pub fn int_round_trip(i: Int) -> (r: IonResult<Int>)
    ensures
        r is Ok && r->Ok_0@ == i@,
{
    let mut reader = RawElementReader::new(Element::of(Value::Int(i)));
    let _ = reader.next();
    reader.read_integer()
}

/// A single-value machine-word integer document returns the original value
/// through the fixed-width accessor.
pub fn i64_round_trip(i: i64) -> (r: IonResult<i64>)
    ensures
        r == Ok::<i64, IonError>(i),
{
    let mut reader = RawElementReader::new(Element::of(Value::Int(Int::I64(i))));
    let _ = reader.next();
    reader.read_i64()
}

/// A single-value float document returns the original bit pattern unchanged.
pub fn float_round_trip(bits: u64) -> (r: IonResult<u64>)
    ensures
        r == Ok::<u64, IonError>(bits),
{
    let mut reader = RawElementReader::new(Element::of(Value::Float(bits)));
    let _ = reader.next();
    reader.read_float_bits()
}

/// A single-value decimal document returns the original decimal unchanged.
pub fn decimal_round_trip(d: Decimal) -> (r: IonResult<Decimal>)
    ensures
        r is Ok && r->Ok_0@ == d@,
{
    let mut reader = RawElementReader::new(Element::of(Value::Decimal(d)));
    let _ = reader.next();
    reader.read_decimal()
}

/// A single-value timestamp document returns the original timestamp
/// unchanged.
pub fn timestamp_round_trip(t: Timestamp) -> (r: IonResult<Timestamp>)
    ensures
        r == Ok::<Timestamp, IonError>(t),
{
    let mut reader = RawElementReader::new(Element::of(Value::Timestamp(t)));
    let _ = reader.next();
    reader.read_timestamp()
}

/// A single-value string document returns the original text unchanged.
pub fn string_round_trip(s: String) -> (r: IonResult<String>)
    ensures
        r == Ok::<String, IonError>(s),
{
    let mut reader = RawElementReader::new(Element::of(Value::String(s)));
    let _ = reader.next();
    reader.read_string()
}

/// A single-value symbol document returns the original token unchanged.
pub fn symbol_round_trip(s: Symbol) -> (r: IonResult<Symbol>)
    ensures
        r == Ok::<Symbol, IonError>(s),
{
    let mut reader = RawElementReader::new(Element::of(Value::Symbol(s)));
    let _ = reader.next();
    reader.read_symbol()
}

/// A single-value blob document returns the original bytes unchanged.
pub fn blob_round_trip(b: Vec<u8>) -> (r: IonResult<Vec<u8>>)
    ensures
        r is Ok && r->Ok_0@ == b@,
{
    let mut reader = RawElementReader::new(Element::of(Value::Blob(b)));
    let _ = reader.next();
    reader.read_blob()
}

/// A single-value clob document returns the original bytes unchanged.
pub fn clob_round_trip(c: Vec<u8>) -> (r: IonResult<Vec<u8>>)
    ensures
        r is Ok && r->Ok_0@ == c@,
{
    let mut reader = RawElementReader::new(Element::of(Value::Clob(c)));
    let _ = reader.next();
    reader.read_clob()
}

/// Reading a single-value document through a mismatched accessor fails with
/// a `TypeMismatch` naming the expected kind and the actual classification.
pub fn mismatched_read_fails(b: bool) -> (r: IonResult<i64>)
    ensures
        r == Err::<i64, IonError>(
            IonError::TypeMismatch {
                expected: ValueKind::Int,
                actual: RawStreamItem::Value(IonType::Boolean),
            },
        ),
{
    let mut reader = RawElementReader::new(Element::of(Value::Bool(b)));
    let _ = reader.next();
    reader.read_i64()
}

} // verus!
