//! The cursor / traversal core: adapts one materialized document tree into a
//! single-pass pull protocol (advance / step-in / step-out / field-name /
//! typed reads), independent of how the tree was produced.
//!
//! The cursor's abstract state is [`CursorV`]: the undelivered root, the
//! iteration frontier over the innermost open container's remaining children,
//! a stack of suspended frontiers for the ancestor containers, a parallel
//! stack of parent-container descriptors, the current value and field name,
//! and the end-of-top-level flag. Every operation's contract is a functional
//! step over this state ([`advance_post`], [`step_in_post`],
//! [`step_out_post`]), so a caller can reason about whole traversals.

use vstd::prelude::*;

use crate::element::{Element, Field, Sequence, Struct, Value};
use crate::result::{IonError, IonResult, ValueKind};
use crate::types::{Decimal, Int, IonType, RawStreamItem, Symbol, Timestamp};

verus! {

/// One item handed out by a container's iteration frontier: the value, and
/// its field name when the container is a struct.
#[derive(Debug)]
pub struct ElementIteratorItem {
    pub field_name: Option<Symbol>,
    pub value: Element,
}

impl ElementIteratorItem {
    pub fn field_name(&self) -> (r: &Option<Symbol>)
        ensures
            r == &self.field_name,
    {
        &self.field_name
    }

    pub fn value(&self) -> (r: &Element)
        ensures
            r == &self.value,
    {
        &self.value
    }
}

/// The descriptor the cursor keeps for each open container: its type and
/// whether its child iteration has been exhausted.
#[derive(Clone, Copy, Debug, PartialEq, Eq, Structural)]
pub struct ParentContainer {
    pub ion_type: IonType,
    pub is_exhausted: bool,
}

impl ParentContainer {
    pub fn new(ion_type: IonType) -> (r: ParentContainer)
        ensures
            r == (ParentContainer { ion_type, is_exhausted: false }),
    {
        ParentContainer { ion_type, is_exhausted: false }
    }
}

/// The classification of a single node: a typed null or a non-null value of
/// its type.
pub open spec fn stream_item_of(e: Element) -> RawStreamItem {
    RawStreamItem::spec_nullable_value(e.spec_ion_type(), e.spec_is_null())
}

/// The iteration items a container yields when stepped into: lists and
/// expression sequences yield their children without names, in declared
/// order; structs yield their field entries in declaration order, duplicate
/// names preserved.
pub open spec fn child_items(e: Element) -> Seq<ElementIteratorItem> {
    match e.value {
        Value::List(s) => s.elements@.map_values(
            |c: Element| ElementIteratorItem { field_name: None, value: c },
        ),
        Value::SExp(s) => s.elements@.map_values(
            |c: Element| ElementIteratorItem { field_name: None, value: c },
        ),
        Value::Struct(st) => st.fields@.map_values(
            |f: Field| ElementIteratorItem { field_name: Some(f.name), value: f.value },
        ),
        _ => Seq::empty(),
    }
}

/// The abstract state of a cursor.
#[verifier::ext_equal]
pub ghost struct CursorV {
    /// The root node, until it has been delivered at the top level.
    pub root: Option<Element>,
    /// The remaining items of the innermost open container.
    pub frontier: Seq<ElementIteratorItem>,
    /// The suspended frontiers of the ancestor containers, innermost last.
    pub stack: Seq<Seq<ElementIteratorItem>>,
    /// One descriptor per open container, innermost last.
    pub parents: Seq<ParentContainer>,
    /// The value under the cursor, if it is positioned on one.
    pub current: Option<Element>,
    /// The field name of the current value, when inside a struct.
    pub field: Option<Symbol>,
    /// Set once the single top-level element has been delivered.
    pub eof: bool,
}

/// In a non-struct container, no frontier item carries a field name.
pub open spec fn names_fit(items: Seq<ElementIteratorItem>, parent: ParentContainer) -> bool {
    parent.ion_type != IonType::Struct ==> forall|k: int|
        0 <= k < items.len() ==> items[k].field_name is None
}

impl CursorV {
    /// The number of open containers.
    pub open spec fn depth(self) -> int {
        self.parents.len() as int
    }

    /// The well-formedness of a suspended frontier: the bottommost one is the
    /// (empty) top-level frontier; every other belongs to the container one
    /// level out, so its items' names must fit that container's type.
    pub open spec fn frame_wf(self, j: int) -> bool {
        if j == 0 {
            self.stack[j].len() == 0
        } else {
            names_fit(self.stack[j], self.parents[j - 1])
        }
    }

    /// The cursor's internal invariant. Every operation preserves it, and the
    /// constructor establishes it.
    pub open spec fn wf(self) -> bool {
        &&& self.stack.len() == self.parents.len()
        &&& (self.root is Some <==> !self.eof)
        &&& (self.root is Some ==> self.parents.len() == 0 && self.current is None
            && self.field is None)
        &&& (self.field is Some ==> self.current is Some && self.parents.len() > 0
            && self.parents.last().ion_type == IonType::Struct)
        &&& (self.parents.len() == 0 ==> self.frontier.len() == 0)
        &&& (self.parents.len() > 0 ==> names_fit(self.frontier, self.parents.last()))
        &&& (forall|j: int| 0 <= j < self.stack.len() ==> #[trigger] self.frame_wf(j))
    }
}

/// The state of a freshly built cursor over `root`: depth 0, nothing
/// delivered yet.
pub open spec fn fresh_cursor(root: Element) -> CursorV {
    CursorV {
        root: Some(root),
        frontier: Seq::empty(),
        stack: Seq::empty(),
        parents: Seq::empty(),
        current: None,
        field: None,
        eof: false,
    }
}

/// The state after one advance. At the top level the single root element is
/// delivered once and the end-of-top-level flag set; inside a container the
/// frontier's next item (if any) becomes current. Advancing past an unentered
/// container needs no descent over a materialized tree: the enclosing
/// frontier already holds the next sibling, so the skip the protocol asks
/// for is implicit and none of the skipped container's descendants can ever
/// surface.
pub open spec fn advance_post(s: CursorV) -> CursorV {
    if s.parents.len() == 0 {
        CursorV { root: None, current: s.root, field: None, eof: true, ..s }
    } else if s.frontier.len() > 0 {
        CursorV {
            current: Some(s.frontier[0].value),
            field: s.frontier[0].field_name,
            frontier: s.frontier.drop_first(),
            ..s
        }
    } else {
        CursorV { current: None, field: None, ..s }
    }
}

/// The classification of the cursor's position: what `current` reports.
pub open spec fn current_item(s: CursorV) -> RawStreamItem {
    match s.current {
        Some(e) => stream_item_of(e),
        None => RawStreamItem::Nothing,
    }
}

/// What one advance from state `s` delivers.
pub open spec fn advance_item(s: CursorV) -> RawStreamItem {
    current_item(advance_post(s))
}

/// Step-in is legal exactly when the cursor is positioned on a non-null
/// container.
pub open spec fn can_step_in(s: CursorV) -> bool {
    &&& s.current is Some
    &&& !s.current->0.spec_is_null()
    &&& s.current->0.spec_ion_type().spec_is_container()
}

/// The state after stepping into the current container: a descriptor is
/// pushed, the enclosing frontier is suspended, a fresh frontier over the
/// container's children is installed, and the position is cleared.
pub open spec fn step_in_post(s: CursorV) -> CursorV {
    CursorV {
        frontier: child_items(s.current->0),
        stack: s.stack.push(s.frontier),
        parents: s.parents.push(
            ParentContainer { ion_type: s.current->0.spec_ion_type(), is_exhausted: false },
        ),
        current: None,
        field: None,
        ..s
    }
}

/// Step-out is legal exactly when at least one container is open.
pub open spec fn can_step_out(s: CursorV) -> bool {
    s.parents.len() > 0
}

/// The state after stepping out of the innermost open container: whatever
/// remained unvisited in it is drained away with the frontier, the suspended
/// enclosing frontier is restored, and the position is cleared.
pub open spec fn step_out_post(s: CursorV) -> CursorV {
    CursorV {
        frontier: s.stack.last(),
        stack: s.stack.drop_last(),
        parents: s.parents.drop_last(),
        current: None,
        field: None,
        ..s
    }
}

/// The error a typed accessor reports when the cursor is not positioned on
/// what it asked for.
pub open spec fn expected_err(s: CursorV, expected: ValueKind) -> IonError {
    IonError::TypeMismatch { expected, actual: current_item(s) }
}

/// Advancing preserves the cursor invariant.
pub proof fn lemma_advance_wf(s: CursorV)
    requires
        s.wf(),
    ensures
        advance_post(s).wf(),
{
    let t = advance_post(s);
    assert forall|j: int| 0 <= j < t.stack.len() implies #[trigger] t.frame_wf(j) by {
        assert(s.frame_wf(j));
    }
    if s.parents.len() == 0 {
        assert(t.wf());
    } else if s.frontier.len() > 0 {
        assert(names_fit(s.frontier, s.parents.last()));
        if s.parents.last().ion_type != IonType::Struct {
            assert(s.frontier[0].field_name is None);
        }
        assert forall|k: int| 0 <= k < t.frontier.len() implies t.frontier[k].field_name
            == s.frontier[k + 1].field_name by {
            assert(t.frontier[k] == s.frontier[k + 1]);
        }
        assert(t.wf());
    } else {
        assert(t.wf());
    }
}

/// Stepping in preserves the cursor invariant.
pub proof fn lemma_step_in_wf(s: CursorV)
    requires
        s.wf(),
        can_step_in(s),
    ensures
        step_in_post(s).wf(),
{
    let t = step_in_post(s);
    let c = s.current->0;
    assert(names_fit(t.frontier, t.parents.last())) by {
        if c.spec_ion_type() != IonType::Struct {
            assert forall|k: int| 0 <= k < t.frontier.len() implies t.frontier[k].field_name
                is None by {
                match c.value {
                    Value::List(sq) => {
                        assert(t.frontier[k] == (ElementIteratorItem {
                            field_name: None,
                            value: sq.elements@[k],
                        }));
                    },
                    Value::SExp(sq) => {
                        assert(t.frontier[k] == (ElementIteratorItem {
                            field_name: None,
                            value: sq.elements@[k],
                        }));
                    },
                    _ => {},
                }
            }
        }
    }
    assert forall|j: int| 0 <= j < t.stack.len() implies #[trigger] t.frame_wf(j) by {
        if j < s.stack.len() {
            assert(s.frame_wf(j));
            assert(t.stack[j] == s.stack[j]);
            if j > 0 {
                assert(t.parents[j - 1] == s.parents[j - 1]);
            }
        } else {
            assert(t.stack[j] == s.frontier);
            if j > 0 {
                assert(t.parents[j - 1] == s.parents.last());
            }
        }
    }
    assert(t.wf());
}

/// Stepping out preserves the cursor invariant.
pub proof fn lemma_step_out_wf(s: CursorV)
    requires
        s.wf(),
        can_step_out(s),
    ensures
        step_out_post(s).wf(),
{
    let t = step_out_post(s);
    let n = s.stack.len() as int;
    assert(s.frame_wf(n - 1));
    if t.parents.len() == 0 {
        assert(t.frontier.len() == 0);
    } else {
        assert(t.parents.last() == s.parents[n - 2]);
        assert(names_fit(t.frontier, t.parents.last()));
    }
    assert forall|j: int| 0 <= j < t.stack.len() implies #[trigger] t.frame_wf(j) by {
        assert(s.frame_wf(j));
        assert(t.stack[j] == s.stack[j]);
        if j > 0 {
            assert(t.parents[j - 1] == s.parents[j - 1]);
        }
    }
    assert(t.wf());
}

/// A single-pass cursor over one already-built document tree.
pub struct RawElementReader {
    /// The root node, until it is delivered at the top level.
    element: Option<Element>,
    /// The remaining items of the innermost open container.
    current_iter: Vec<ElementIteratorItem>,
    /// The suspended frontiers of the ancestor containers, innermost last.
    iter_stack: Vec<Vec<ElementIteratorItem>>,
    /// The field name of the current value; set only inside a struct.
    current_field_name: Option<Symbol>,
    /// The value the cursor is positioned on, if any.
    current_value: Option<Element>,
    /// Set once the single top-level element has been delivered.
    is_eof: bool,
    /// One descriptor per open container, innermost last.
    parents: Vec<ParentContainer>,
}

impl View for RawElementReader {
    type V = CursorV;

    closed spec fn view(&self) -> CursorV {
        CursorV {
            root: self.element,
            frontier: self.current_iter@,
            stack: self.iter_stack@.map_values(|v: Vec<ElementIteratorItem>| v@),
            parents: self.parents@,
            current: self.current_value,
            field: self.current_field_name,
            eof: self.is_eof,
        }
    }
}

/// Turns the children of a list or expression sequence into frontier items,
/// in declared order.
fn sequence_items(s: Sequence) -> (r: Vec<ElementIteratorItem>)
    ensures
        r@ == s.elements@.map_values(
            |c: Element| ElementIteratorItem { field_name: None, value: c },
        ),
{
    let ghost all = s.elements@;
    let mut rest = s.elements;
    let mut items: Vec<ElementIteratorItem> = Vec::new();
    while rest.len() > 0
        invariant
            all == items@.map_values(|it: ElementIteratorItem| it.value) + rest@,
            forall|k: int| 0 <= k < items@.len() ==> #[trigger] items@[k] == (ElementIteratorItem {
                field_name: None,
                value: all[k],
            }),
        decreases rest@.len(),
    {
        let c = rest.remove(0);
        items.push(ElementIteratorItem { field_name: None, value: c });
        proof {
            assert(all =~= items@.map_values(|it: ElementIteratorItem| it.value) + rest@);
        }
    }
    proof {
        assert(items@.len() == all.len());
        assert(items@ =~= all.map_values(
            |c: Element| ElementIteratorItem { field_name: None, value: c },
        ));
    }
    items
}

/// Turns the field entries of a struct into frontier items, in declaration
/// order, duplicate names preserved.
fn struct_items(s: Struct) -> (r: Vec<ElementIteratorItem>)
    ensures
        r@ == s.fields@.map_values(
            |f: Field| ElementIteratorItem { field_name: Some(f.name), value: f.value },
        ),
{
    let ghost all = s.fields@;
    let mut rest = s.fields;
    let mut items: Vec<ElementIteratorItem> = Vec::new();
    while rest.len() > 0
        invariant
            rest@ == all.skip(items@.len() as int),
            items@.len() <= all.len(),
            forall|k: int| 0 <= k < items@.len() ==> #[trigger] items@[k] == (ElementIteratorItem {
                field_name: Some(all[k].name),
                value: all[k].value,
            }),
        decreases rest@.len(),
    {
        proof {
            assert(rest@[0] == all[items@.len() as int]);
            assert(rest@.subrange(1, rest@.len() as int) =~= all.skip(items@.len() as int + 1));
        }
        let f = rest.remove(0);
        items.push(ElementIteratorItem { field_name: Some(f.name), value: f.value });
    }
    proof {
        assert(items@.len() == all.len());
        assert(items@ =~= all.map_values(
            |f: Field| ElementIteratorItem { field_name: Some(f.name), value: f.value },
        ));
    }
    items
}

impl RawElementReader {
    /// A fresh cursor over one fully built document tree. The cursor is
    /// single-pass; to re-read, build a fresh cursor over the same tree.
    pub fn new(input: Element) -> (r: RawElementReader)
        ensures
            r@ == fresh_cursor(input),
            r@.wf(),
    {
        let r = RawElementReader {
            element: Some(input),
            current_iter: Vec::new(),
            iter_stack: Vec::new(),
            current_field_name: None,
            current_value: None,
            is_eof: false,
            parents: Vec::new(),
        };
        proof {
            assert(r@ =~= fresh_cursor(input));
        }
        r
    }

    /// Moves the cursor to the next position: the single top-level element
    /// if none was delivered yet, otherwise the next remaining item of the
    /// innermost open container. Clears the previous position first. Never
    /// fails; exhaustion is reported by `next` as `Nothing`.
    pub fn load_next_value(&mut self) -> (r: IonResult<()>)
        requires
            old(self)@.wf(),
        ensures
            r == Ok::<(), IonError>(()),
            final(self)@ == advance_post(old(self)@),
            final(self)@.wf(),
    {
        proof {
            lemma_advance_wf(old(self)@);
        }
        self.current_value = None;
        self.current_field_name = None;
        if self.parents.len() == 0 {
            if !self.is_eof {
                self.current_value = self.element.take();
                self.is_eof = true;
            }
            proof {
                assert(self@ =~= advance_post(old(self)@));
            }
            return Ok(());
        }
        if self.current_iter.len() == 0 {
            proof {
                assert(self@ =~= advance_post(old(self)@));
            }
            return Ok(());
        }
        let item = self.current_iter.remove(0);
        self.current_field_name = item.field_name;
        self.current_value = Some(item.value);
        proof {
            assert(self@ =~= advance_post(old(self)@));
        }
        Ok(())
    }

    /// Builds the error a typed accessor reports when the cursor is not
    /// positioned over the kind it asked for: the expected kind and the
    /// classification of the actual position.
    pub fn expected(&self, expected: ValueKind) -> (r: IonError)
        ensures
            r == expected_err(self@, expected),
    {
        IonError::TypeMismatch { expected, actual: self.current() }
    }

    /// Turns a list or expression-sequence element into its frontier items.
    pub fn map_iterator(e: Element) -> (r: Vec<ElementIteratorItem>)
        requires
            e.spec_ion_type() == IonType::List || e.spec_ion_type() == IonType::SExpression,
            !e.spec_is_null(),
        ensures
            r@ == child_items(e),
    {
        match e.value {
            Value::List(s) => sequence_items(s),
            Value::SExp(s) => sequence_items(s),
            _ => {
                proof {
                    assert(false);
                }
                Vec::new()
            },
        }
    }

    /// Advances and reports the classification of the new position:
    /// `Value(type)` or `Null(type)` when a value was reached, `Nothing` when
    /// the current level is exhausted.
    pub fn next(&mut self) -> (r: IonResult<RawStreamItem>)
        requires
            old(self)@.wf(),
        ensures
            r == Ok::<RawStreamItem, IonError>(advance_item(old(self)@)),
            final(self)@ == advance_post(old(self)@),
            final(self)@.wf(),
    {
        let loaded = self.load_next_value();
        match loaded {
            Ok(()) => {},
            Err(e) => {
                return Err(e);
            },
        }
        match &self.current_value {
            Some(value) => Ok(RawStreamItem::nullable_value(value.ion_type(), value.is_null())),
            None => Ok(RawStreamItem::Nothing),
        }
    }

    /// Idempotently reports the classification of the present position,
    /// without advancing.
    pub fn current(&self) -> (r: RawStreamItem)
        ensures
            r == current_item(self@),
    {
        match &self.current_value {
            Some(value) => RawStreamItem::nullable_value(value.ion_type(), value.is_null()),
            None => RawStreamItem::Nothing,
        }
    }

    /// The type of the current value, if the cursor is positioned on one.
    pub fn ion_type(&self) -> (r: Option<IonType>)
        ensures
            match self@.current {
                Some(e) => r == Some(e.spec_ion_type()),
                None => r is None,
            },
    {
        match &self.current_value {
            Some(value) => Some(value.ion_type()),
            None => None,
        }
    }

    /// Whether the current value is a typed null; `false` when the cursor is
    /// not positioned on a value.
    pub fn is_null(&self) -> (r: bool)
        ensures
            r == (self@.current is Some && self@.current->0.spec_is_null()),
    {
        match &self.current_value {
            Some(value) => value.is_null(),
            None => false,
        }
    }

    /// The annotation tokens of the current value, in order; empty when the
    /// cursor is not positioned on a value.
    pub fn annotations(&self) -> (r: Vec<Symbol>)
        ensures
            r@ == current_annotations(self@),
    {
        match &self.current_value {
            Some(value) => {
                let source = &value.annotations;
                let mut out: Vec<Symbol> = Vec::new();
                let mut k: usize = 0;
                while k < source.len()
                    invariant
                        k <= source.len(),
                        out@ == source@.take(k as int),
                    decreases source.len() - k,
                {
                    out.push(source[k].clone());
                    k = k + 1;
                    proof {
                        assert(out@ =~= source@.take(k as int));
                    }
                }
                proof {
                    assert(out@ =~= source@);
                }
                out
            },
            None => Vec::new(),
        }
    }

    /// Whether the current value carries any annotation.
    pub fn has_annotations(&self) -> (r: bool)
        ensures
            r == (current_annotations(self@).len() > 0),
    {
        match &self.current_value {
            Some(value) => value.annotations.len() > 0,
            None => false,
        }
    }

    /// How many annotations the current value carries.
    pub fn number_of_annotations(&self) -> (r: usize)
        ensures
            r == current_annotations(self@).len(),
    {
        match &self.current_value {
            Some(value) => value.annotations.len(),
            None => 0,
        }
    }

    /// The active struct field name. Fails with `IllegalOperation` whenever
    /// the cursor is not positioned on a field of a struct — in particular
    /// at the top level, and inside a list or expression sequence.
    pub fn field_name(&self) -> (r: IonResult<Symbol>)
        ensures
            match self@.field {
                Some(name) => r == Ok::<Symbol, IonError>(name),
                None => r == Err::<Symbol, IonError>(IonError::IllegalOperation),
            },
            self@.wf() && self@.depth() == 0 ==> r == Err::<Symbol, IonError>(
                IonError::IllegalOperation,
            ),
            self@.wf() && self@.depth() > 0 && self@.parents.last().ion_type != IonType::Struct
                ==> r == Err::<Symbol, IonError>(IonError::IllegalOperation),
    {
        match &self.current_field_name {
            Some(name) => Ok(name.clone()),
            None => Err(IonError::IllegalOperation),
        }
    }

    /// Pushes a descriptor for the current container, suspends the enclosing
    /// frontier, installs a fresh frontier over the container's children and
    /// clears the position. Fails with `IllegalOperation` when the cursor is
    /// positioned on a scalar, on a null container, or on nothing.
    pub fn step_in(&mut self) -> (r: IonResult<()>)
        requires
            old(self)@.wf(),
        ensures
            final(self)@.wf(),
            can_step_in(old(self)@) ==> r == Ok::<(), IonError>(()) && final(self)@
                == step_in_post(old(self)@),
            !can_step_in(old(self)@) ==> r == Err::<(), IonError>(IonError::IllegalOperation)
                && *final(self) == *old(self),
    {
        let legal = match &self.current_value {
            Some(value) => value.ion_type().is_container() && !value.is_null(),
            None => false,
        };
        if !legal {
            return Err(IonError::IllegalOperation);
        }
        proof {
            lemma_step_in_wf(old(self)@);
        }
        let e = match self.current_value.take() {
            Some(e) => e,
            None => {
                proof {
                    assert(false);
                }
                return Err(IonError::IllegalOperation);
            },
        };
        self.parents.push(ParentContainer::new(e.ion_type()));
        let mut items: Vec<ElementIteratorItem> = match e.value {
            Value::List(s) => sequence_items(s),
            Value::SExp(s) => sequence_items(s),
            Value::Struct(st) => struct_items(st),
            _ => {
                proof {
                    assert(false);
                }
                Vec::new()
            },
        };
        core::mem::swap(&mut self.current_iter, &mut items);
        self.iter_stack.push(items);
        self.current_field_name = None;
        proof {
            assert(self@.stack =~= step_in_post(old(self)@).stack);
            assert(self@ =~= step_in_post(old(self)@));
        }
        Ok(())
    }

    /// Leaves the innermost open container: whatever of it was not visited
    /// is drained away with its frontier, the suspended enclosing frontier
    /// is restored, and the position is cleared, so none of the container's
    /// values can surface again. Fails with `IllegalOperation` at the top
    /// level.
    pub fn step_out(&mut self) -> (r: IonResult<()>)
        requires
            old(self)@.wf(),
        ensures
            final(self)@.wf(),
            can_step_out(old(self)@) ==> r == Ok::<(), IonError>(()) && final(self)@
                == step_out_post(old(self)@),
            !can_step_out(old(self)@) ==> r == Err::<(), IonError>(IonError::IllegalOperation)
                && *final(self) == *old(self),
    {
        if self.parents.len() == 0 {
            return Err(IonError::IllegalOperation);
        }
        proof {
            lemma_step_out_wf(old(self)@);
        }
        let _ = self.parents.pop();
        self.current_value = None;
        self.current_field_name = None;
        match self.iter_stack.pop() {
            Some(iter) => {
                self.current_iter = iter;
            },
            None => {
                proof {
                    assert(false);
                }
            },
        }
        proof {
            assert(self@.stack =~= step_out_post(old(self)@).stack);
            assert(self@ =~= step_out_post(old(self)@));
        }
        Ok(())
    }

    /// The type of the innermost open container, or `None` at the top level.
    pub fn parent_type(&self) -> (r: Option<IonType>)
        ensures
            self@.depth() == 0 ==> r is None,
            self@.depth() > 0 ==> r == Some(self@.parents.last().ion_type),
    {
        let n = self.parents.len();
        if n == 0 {
            None
        } else {
            Some(self.parents[n - 1].ion_type)
        }
    }

    /// A borrow of the value the cursor is positioned on, if any.
    pub fn current_element(&self) -> (r: Option<&Element>)
        ensures
            match self@.current {
                Some(e) => r is Some && *(r->0) == e,
                None => r is None,
            },
    {
        self.current_value.as_ref()
    }

    /// How many containers are open; 0 at the top level.
    pub fn depth(&self) -> (r: usize)
        ensures
            r == self@.depth(),
    {
        self.parents.len()
    }
}

/// Copies a byte payload out of the tree.
fn copy_bytes(source: &Vec<u8>) -> (r: Vec<u8>)
    ensures
        r@ == source@,
{
    let mut out: Vec<u8> = Vec::new();
    let mut k: usize = 0;
    while k < source.len()
        invariant
            k <= source.len(),
            out@ == source@.take(k as int),
        decreases source.len() - k,
    {
        out.push(source[k]);
        k = k + 1;
        proof {
            assert(out@ =~= source@.take(k as int));
        }
    }
    proof {
        assert(out@ =~= source@);
    }
    out
}

impl RawElementReader {
    /// Reads the current value as a typed null, reporting the type it is a
    /// null of; fails with a `TypeMismatch` on anything else.
    pub fn read_null(&mut self) -> (r: IonResult<IonType>)
        ensures
            *final(self) == *old(self),
            match old(self)@.current {
                Some(e) => if e.spec_is_null() {
                    r == Ok::<IonType, IonError>(e.spec_ion_type())
                } else {
                    r == Err::<IonType, IonError>(expected_err(old(self)@, ValueKind::Null))
                },
                None => r == Err::<IonType, IonError>(expected_err(old(self)@, ValueKind::Null)),
            },
    {
        match &self.current_value {
            Some(element) => {
                if element.is_null() {
                    return Ok(element.ion_type());
                }
            },
            None => {},
        }
        Err(self.expected(ValueKind::Null))
    }

    /// Reads the current value as a boolean.
    pub fn read_bool(&mut self) -> (r: IonResult<bool>)
        ensures
            *final(self) == *old(self),
            match old(self)@.current {
                Some(e) => match e.value {
                    Value::Bool(b) => r == Ok::<bool, IonError>(b),
                    _ => r == Err::<bool, IonError>(expected_err(old(self)@, ValueKind::Bool)),
                },
                None => r == Err::<bool, IonError>(expected_err(old(self)@, ValueKind::Bool)),
            },
    {
        match &self.current_value {
            Some(element) => match element.as_bool() {
                Some(b) => {
                    return Ok(*b);
                },
                None => {},
            },
            None => {},
        }
        Err(self.expected(ValueKind::Bool))
    }

    /// Reads the current value as an integer of arbitrary size.
    pub fn read_integer(&mut self) -> (r: IonResult<Int>)
        ensures
            *final(self) == *old(self),
            match old(self)@.current {
                Some(e) => match e.value {
                    Value::Int(i) => r is Ok && r->Ok_0@ == i@,
                    _ => r == Err::<Int, IonError>(expected_err(old(self)@, ValueKind::Int)),
                },
                None => r == Err::<Int, IonError>(expected_err(old(self)@, ValueKind::Int)),
            },
    {
        match &self.current_value {
            Some(element) => match element.as_integer() {
                Some(i) => {
                    return Ok(i.clone());
                },
                None => {},
            },
            None => {},
        }
        Err(self.expected(ValueKind::Int))
    }

    /// Reads the current value as an `i64`. An integer held in wide form
    /// fails with `NumericRange`; anything that is not an integer fails with
    /// a `TypeMismatch`.
    pub fn read_i64(&mut self) -> (r: IonResult<i64>)
        ensures
            *final(self) == *old(self),
            match old(self)@.current {
                Some(e) => match e.value {
                    Value::Int(i) => match i {
                        Int::I64(v) => r == Ok::<i64, IonError>(v),
                        Int::Big { .. } => r == Err::<i64, IonError>(IonError::NumericRange),
                    },
                    _ => r == Err::<i64, IonError>(expected_err(old(self)@, ValueKind::Int)),
                },
                None => r == Err::<i64, IonError>(expected_err(old(self)@, ValueKind::Int)),
            },
    {
        match &self.current_value {
            Some(element) => match element.as_integer() {
                Some(i) => match i.as_i64() {
                    Some(v) => {
                        return Ok(v);
                    },
                    None => {
                        return Err(IonError::NumericRange);
                    },
                },
                None => {},
            },
            None => {},
        }
        Err(self.expected(ValueKind::Int))
    }

    /// Reads the current value as a float, reported as its IEEE-754 bit
    /// pattern.
    pub fn read_float_bits(&mut self) -> (r: IonResult<u64>)
        ensures
            *final(self) == *old(self),
            match old(self)@.current {
                Some(e) => match e.value {
                    Value::Float(bits) => r == Ok::<u64, IonError>(bits),
                    _ => r == Err::<u64, IonError>(expected_err(old(self)@, ValueKind::Float)),
                },
                None => r == Err::<u64, IonError>(expected_err(old(self)@, ValueKind::Float)),
            },
    {
        match &self.current_value {
            Some(element) => match element.as_float_bits() {
                Some(bits) => {
                    return Ok(*bits);
                },
                None => {},
            },
            None => {},
        }
        Err(self.expected(ValueKind::Float))
    }

    /// Reads the current value as a decimal.
    pub fn read_decimal(&mut self) -> (r: IonResult<Decimal>)
        ensures
            *final(self) == *old(self),
            match old(self)@.current {
                Some(e) => match e.value {
                    Value::Decimal(d) => r is Ok && r->Ok_0@ == d@,
                    _ => r == Err::<Decimal, IonError>(
                        expected_err(old(self)@, ValueKind::Decimal),
                    ),
                },
                None => r == Err::<Decimal, IonError>(
                    expected_err(old(self)@, ValueKind::Decimal),
                ),
            },
    {
        match &self.current_value {
            Some(element) => match element.as_decimal() {
                Some(d) => {
                    return Ok(d.clone());
                },
                None => {},
            },
            None => {},
        }
        Err(self.expected(ValueKind::Decimal))
    }

    /// Reads the text of the current string or symbol value.
    pub fn read_string(&mut self) -> (r: IonResult<String>)
        ensures
            *final(self) == *old(self),
            match old(self)@.current {
                Some(e) => match e.value {
                    Value::String(s) => r == Ok::<String, IonError>(s),
                    Value::Symbol(sym) => r is Ok && r->Ok_0@ == sym@,
                    _ => r == Err::<String, IonError>(
                        expected_err(old(self)@, ValueKind::String),
                    ),
                },
                None => r == Err::<String, IonError>(expected_err(old(self)@, ValueKind::String)),
            },
    {
        match &self.current_value {
            Some(element) => match element.as_str() {
                Some(s) => {
                    return Ok(s.clone());
                },
                None => {},
            },
            None => {},
        }
        Err(self.expected(ValueKind::String))
    }

    /// Reads the current value as a symbol token.
    pub fn read_symbol(&mut self) -> (r: IonResult<Symbol>)
        ensures
            *final(self) == *old(self),
            match old(self)@.current {
                Some(e) => match e.value {
                    Value::Symbol(sym) => r == Ok::<Symbol, IonError>(sym),
                    _ => r == Err::<Symbol, IonError>(
                        expected_err(old(self)@, ValueKind::Symbol),
                    ),
                },
                None => r == Err::<Symbol, IonError>(expected_err(old(self)@, ValueKind::Symbol)),
            },
    {
        match &self.current_value {
            Some(element) => match element.as_sym() {
                Some(sym) => {
                    return Ok(sym.clone());
                },
                None => {},
            },
            None => {},
        }
        Err(self.expected(ValueKind::Symbol))
    }

    /// Reads the byte payload of the current blob value.
    pub fn read_blob(&mut self) -> (r: IonResult<Vec<u8>>)
        ensures
            *final(self) == *old(self),
            match old(self)@.current {
                Some(e) => match e.value {
                    Value::Blob(b) => r is Ok && r->Ok_0@ == b@,
                    _ => r == Err::<Vec<u8>, IonError>(
                        expected_err(old(self)@, ValueKind::Blob),
                    ),
                },
                None => r == Err::<Vec<u8>, IonError>(expected_err(old(self)@, ValueKind::Blob)),
            },
    {
        match &self.current_value {
            Some(element) => match &element.value {
                Value::Blob(b) => {
                    return Ok(copy_bytes(b));
                },
                _ => {},
            },
            None => {},
        }
        Err(self.expected(ValueKind::Blob))
    }

    /// Reads the byte payload of the current clob value.
    pub fn read_clob(&mut self) -> (r: IonResult<Vec<u8>>)
        ensures
            *final(self) == *old(self),
            match old(self)@.current {
                Some(e) => match e.value {
                    Value::Clob(c) => r is Ok && r->Ok_0@ == c@,
                    _ => r == Err::<Vec<u8>, IonError>(
                        expected_err(old(self)@, ValueKind::Clob),
                    ),
                },
                None => r == Err::<Vec<u8>, IonError>(expected_err(old(self)@, ValueKind::Clob)),
            },
    {
        match &self.current_value {
            Some(element) => match &element.value {
                Value::Clob(c) => {
                    return Ok(copy_bytes(c));
                },
                _ => {},
            },
            None => {},
        }
        Err(self.expected(ValueKind::Clob))
    }

    /// Reads the current value as a timestamp.
    pub fn read_timestamp(&mut self) -> (r: IonResult<Timestamp>)
        ensures
            *final(self) == *old(self),
            match old(self)@.current {
                Some(e) => match e.value {
                    Value::Timestamp(t) => r == Ok::<Timestamp, IonError>(t),
                    _ => r == Err::<Timestamp, IonError>(
                        expected_err(old(self)@, ValueKind::Timestamp),
                    ),
                },
                None => r == Err::<Timestamp, IonError>(
                    expected_err(old(self)@, ValueKind::Timestamp),
                ),
            },
    {
        match &self.current_value {
            Some(element) => match element.as_timestamp() {
                Some(t) => {
                    return Ok(*t);
                },
                None => {},
            },
            None => {},
        }
        Err(self.expected(ValueKind::Timestamp))
    }
}

/// The annotation tokens of the value the cursor is positioned on; empty
/// when it is not positioned on a value.
pub open spec fn current_annotations(s: CursorV) -> Seq<Symbol> {
    match s.current {
        Some(e) => e.annotations@,
        None => Seq::empty(),
    }
}

/// Advances the reader once and tells whether the delivered item is a value
/// of type `ion_type` whose null flag is `is_null`.
pub fn next_type(reader: &mut RawElementReader, ion_type: IonType, is_null: bool) -> (r: bool)
    requires
        old(reader)@.wf(),
    ensures
        final(reader)@ == advance_post(old(reader)@),
        final(reader)@.wf(),
        r == (advance_item(old(reader)@) == RawStreamItem::spec_nullable_value(
            ion_type,
            is_null,
        )),
{
    let item = match reader.next() {
        Ok(item) => item,
        Err(_) => {
            proof {
                assert(false);
            }
            return false;
        },
    };
    item == RawStreamItem::nullable_value(ion_type, is_null)
}

} // verus!
