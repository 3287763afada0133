//! The materialized document model: an immutable tree of `Element` nodes.
//! Each node carries a type tag, a null flag (a typed null alternative), an
//! optional scalar payload or ordered children, and an ordered annotation
//! sequence. Ordered positional containers (lists and expression sequences)
//! hold a `Sequence`; field-keyed containers hold a `Struct`, whose duplicate
//! field names are kept in declaration order.

use vstd::prelude::*;

use crate::types::{Decimal, Int, IonType, Symbol, Timestamp};

verus! {

/// The payload of a document node: exactly one of a typed null, a scalar
/// kind, or one of the three container kinds. Float payloads are carried as
/// their IEEE-754 bit pattern, so that the tree itself stays free of
/// floating-point arithmetic.
#[derive(Debug)]
pub enum Value {
    Null(IonType),
    Bool(bool),
    Int(Int),
    Float(u64),
    Decimal(Decimal),
    Timestamp(Timestamp),
    String(String),
    Symbol(Symbol),
    Blob(Vec<u8>),
    Clob(Vec<u8>),
    List(Sequence),
    SExp(Sequence),
    Struct(Struct),
}

/// One node of a document tree, immutable once built: its annotation tokens
/// and its value.
#[derive(Debug)]
pub struct Element {
    pub annotations: Vec<Symbol>,
    pub value: Value,
}

/// The ordered children of a list or expression sequence.
#[derive(Debug)]
pub struct Sequence {
    pub elements: Vec<Element>,
}

/// The ordered field entries of a struct; duplicate field names are allowed
/// and keep their declaration order.
#[derive(Debug)]
pub struct Struct {
    pub fields: Vec<Field>,
}

/// One field entry of a struct: a name token and a value.
#[derive(Debug)]
pub struct Field {
    pub name: Symbol,
    pub value: Element,
}

impl Value {
    /// The type tag of this payload.
    pub open spec fn spec_ion_type(self) -> IonType {
        match self {
            Value::Null(t) => t,
            Value::Bool(_) => IonType::Boolean,
            Value::Int(_) => IonType::Integer,
            Value::Float(_) => IonType::Float,
            Value::Decimal(_) => IonType::Decimal,
            Value::Timestamp(_) => IonType::Timestamp,
            Value::String(_) => IonType::String,
            Value::Symbol(_) => IonType::Symbol,
            Value::Blob(_) => IonType::Blob,
            Value::Clob(_) => IonType::Clob,
            Value::List(_) => IonType::List,
            Value::SExp(_) => IonType::SExpression,
            Value::Struct(_) => IonType::Struct,
        }
    }
}

impl Element {
    /// The type tag of this node (for a typed null, the type it is a null
    /// of).
    pub open spec fn spec_ion_type(&self) -> IonType {
        self.value.spec_ion_type()
    }

    #[verifier::when_used_as_spec(spec_ion_type)]
    pub fn ion_type(&self) -> (t: IonType)
        ensures
            t == self.spec_ion_type(),
    {
        match &self.value {
            Value::Null(t) => *t,
            Value::Bool(_) => IonType::Boolean,
            Value::Int(_) => IonType::Integer,
            Value::Float(_) => IonType::Float,
            Value::Decimal(_) => IonType::Decimal,
            Value::Timestamp(_) => IonType::Timestamp,
            Value::String(_) => IonType::String,
            Value::Symbol(_) => IonType::Symbol,
            Value::Blob(_) => IonType::Blob,
            Value::Clob(_) => IonType::Clob,
            Value::List(_) => IonType::List,
            Value::SExp(_) => IonType::SExpression,
            Value::Struct(_) => IonType::Struct,
        }
    }

    /// Whether this node is a (typed) null.
    pub open spec fn spec_is_null(&self) -> bool {
        self.value is Null
    }

    #[verifier::when_used_as_spec(spec_is_null)]
    pub fn is_null(&self) -> (r: bool)
        ensures
            r == self.spec_is_null(),
    {
        match &self.value {
            Value::Null(_) => true,
            _ => false,
        }
    }

    /// A node with no annotations around the given payload.
    pub fn of(value: Value) -> (r: Element)
        ensures
            r.value == value,
            r.annotations@ == Seq::<Symbol>::empty(),
    {
        let annotations: Vec<Symbol> = Vec::new();
        Element { annotations, value }
    }

    /// A node with the given annotation tokens around the given payload.
    pub fn annotated(annotations: Vec<Symbol>, value: Value) -> (r: Element)
        ensures
            r.value == value,
            r.annotations == annotations,
    {
        Element { annotations, value }
    }

    pub fn as_bool(&self) -> (r: Option<&bool>)
        ensures
            match self.value {
                Value::Bool(b) => r == Some(&b),
                _ => r is None,
            },
    {
        match &self.value {
            Value::Bool(b) => Some(b),
            _ => None,
        }
    }

    pub fn as_integer(&self) -> (r: Option<&Int>)
        ensures
            match self.value {
                Value::Int(i) => r == Some(&i),
                _ => r is None,
            },
    {
        match &self.value {
            Value::Int(i) => Some(i),
            _ => None,
        }
    }

    /// The IEEE-754 bit pattern of a float payload.
    pub fn as_float_bits(&self) -> (r: Option<&u64>)
        ensures
            match self.value {
                Value::Float(f) => r == Some(&f),
                _ => r is None,
            },
    {
        match &self.value {
            Value::Float(f) => Some(f),
            _ => None,
        }
    }

    pub fn as_decimal(&self) -> (r: Option<&Decimal>)
        ensures
            match self.value {
                Value::Decimal(d) => r == Some(&d),
                _ => r is None,
            },
    {
        match &self.value {
            Value::Decimal(d) => Some(d),
            _ => None,
        }
    }

    pub fn as_timestamp(&self) -> (r: Option<&Timestamp>)
        ensures
            match self.value {
                Value::Timestamp(t) => r == Some(&t),
                _ => r is None,
            },
    {
        match &self.value {
            Value::Timestamp(t) => Some(t),
            _ => None,
        }
    }

    /// The text of a string or symbol payload.
    pub fn as_str(&self) -> (r: Option<&String>)
        ensures
            match self.value {
                Value::String(s) => r == Some(&s),
                Value::Symbol(sym) => r is Some && r->0@ == sym@,
                _ => r is None,
            },
    {
        match &self.value {
            Value::String(s) => Some(s),
            Value::Symbol(sym) => Some(sym.text()),
            _ => None,
        }
    }

    pub fn as_sym(&self) -> (r: Option<&Symbol>)
        ensures
            match self.value {
                Value::Symbol(s) => r == Some(&s),
                _ => r is None,
            },
    {
        match &self.value {
            Value::Symbol(s) => Some(s),
            _ => None,
        }
    }

    /// The byte payload of a blob or clob.
    pub fn as_bytes(&self) -> (r: Option<&Vec<u8>>)
        ensures
            match self.value {
                Value::Blob(b) => r == Some(&b),
                Value::Clob(c) => r == Some(&c),
                _ => r is None,
            },
    {
        match &self.value {
            Value::Blob(b) => Some(b),
            Value::Clob(c) => Some(c),
            _ => None,
        }
    }

    pub fn as_sequence(&self) -> (r: Option<&Sequence>)
        ensures
            match self.value {
                Value::List(s) => r == Some(&s),
                Value::SExp(s) => r == Some(&s),
                _ => r is None,
            },
    {
        match &self.value {
            Value::List(s) => Some(s),
            Value::SExp(s) => Some(s),
            _ => None,
        }
    }

    pub fn as_struct(&self) -> (r: Option<&Struct>)
        ensures
            match self.value {
                Value::Struct(s) => r == Some(&s),
                _ => r is None,
            },
    {
        match &self.value {
            Value::Struct(s) => Some(s),
            _ => None,
        }
    }
}

impl Sequence {
    /// A sequence over the given elements, in order.
    pub fn new(elements: Vec<Element>) -> (r: Sequence)
        ensures
            r.elements == elements,
    {
        Sequence { elements }
    }

    pub fn elements(&self) -> (r: &Vec<Element>)
        ensures
            r == &self.elements,
    {
        &self.elements
    }

    pub fn get(&self, index: usize) -> (r: Option<&Element>)
        ensures
            index < self.elements@.len() ==> r == Some(&self.elements@[index as int]),
            index >= self.elements@.len() ==> r is None,
    {
        if index < self.elements.len() {
            Some(&self.elements[index])
        } else {
            None
        }
    }

    pub fn len(&self) -> (r: usize)
        ensures
            r == self.elements@.len(),
    {
        self.elements.len()
    }

    pub fn is_empty(&self) -> (r: bool)
        ensures
            r == (self.elements@.len() == 0),
    {
        self.len() == 0
    }
}

impl Struct {
    /// A struct over the given field entries, in declaration order.
    pub fn new(fields: Vec<Field>) -> (r: Struct)
        ensures
            r.fields == fields,
    {
        Struct { fields }
    }

    pub fn fields(&self) -> (r: &Vec<Field>)
        ensures
            r == &self.fields,
    {
        &self.fields
    }

    /// The value of the first field whose name has the given text, if any.
    pub open spec fn spec_get(self, name: Seq<char>) -> Option<Element> {
        Self::first_match(self.fields@, name)
    }

    /// The value of the first entry in `fields` whose name reads `name`.
    pub open spec fn first_match(fields: Seq<Field>, name: Seq<char>) -> Option<Element>
        decreases fields.len(),
    {
        if fields.len() == 0 {
            None
        } else if fields[0].name@ == name {
            Some(fields[0].value)
        } else {
            Self::first_match(fields.drop_first(), name)
        }
    }

    /// The value of the first field named `name`, if any.
    pub fn get(&self, name: &str) -> (r: Option<&Element>)
        ensures
            match self.spec_get(name@) {
                Some(e) => r is Some && *(r->0) == e,
                None => r is None,
            },
    {
        let name_text: String = name.to_owned();
        let n = self.fields.len();
        let mut i: usize = 0;
        proof {
            assert(self.fields@.skip(0) =~= self.fields@);
        }
        while i < n
            invariant
                i <= n,
                n == self.fields@.len(),
                name_text@ == name@,
                Self::first_match(self.fields@, name@) == Self::first_match(
                    self.fields@.skip(i as int),
                    name@,
                ),
            decreases n - i,
        {
            let ghost rest = self.fields@.skip(i as int);
            proof {
                assert(rest[0] == self.fields@[i as int]);
                assert(rest.drop_first() =~= self.fields@.skip(i as int + 1));
            }
            if *self.fields[i].name.text() == name_text {
                proof {
                    assert(Self::first_match(rest, name@) == Some(rest[0].value));
                }
                return Some(&self.fields[i].value);
            }
            proof {
                assert(Self::first_match(rest, name@) == Self::first_match(
                    rest.drop_first(),
                    name@,
                ));
            }
            i = i + 1;
        }
        proof {
            assert(self.fields@.skip(i as int).len() == 0);
        }
        None
    }

    pub fn len(&self) -> (r: usize)
        ensures
            r == self.fields@.len(),
    {
        self.fields.len()
    }

    pub fn is_empty(&self) -> (r: bool)
        ensures
            r == (self.fields@.len() == 0),
    {
        self.len() == 0
    }
}

impl Field {
    pub fn new(name: Symbol, value: Element) -> (r: Field)
        ensures
            r.name == name,
            r.value == value,
    {
        Field { name, value }
    }
}

/// The mathematical shape of a node's payload: scalar payloads as their
/// mathematical values, containers as sequences of child shapes.
#[verifier::ext_equal]
pub ghost enum ValueV {
    Null(IonType),
    Bool(bool),
    Int(crate::types::IntV),
    Float(u64),
    Decimal(crate::types::DecimalV),
    Timestamp(Timestamp),
    Str(Seq<char>),
    Symbol(Seq<char>),
    Blob(Seq<u8>),
    Clob(Seq<u8>),
    List(Seq<ElementV>),
    SExp(Seq<ElementV>),
    Struct(Seq<FieldV>),
}

/// The mathematical shape of a whole node: its annotation texts and its
/// payload shape.
#[verifier::ext_equal]
pub ghost struct ElementV {
    pub annotations: Seq<Seq<char>>,
    pub value: ValueV,
}

/// The mathematical shape of a struct field entry.
#[verifier::ext_equal]
pub ghost struct FieldV {
    pub name: Seq<char>,
    pub value: ElementV,
}

/// The shape of a node.
pub open spec fn elem_deep(e: Element) -> ElementV
    decreases e,
{
    ElementV {
        annotations: e.annotations@.map_values(|s: Symbol| s@),
        value: value_deep(e.value),
    }
}

/// The shape of a payload.
pub open spec fn value_deep(v: Value) -> ValueV
    decreases v,
{
    match v {
        Value::Null(t) => ValueV::Null(t),
        Value::Bool(b) => ValueV::Bool(b),
        Value::Int(i) => ValueV::Int(i@),
        Value::Float(bits) => ValueV::Float(bits),
        Value::Decimal(d) => ValueV::Decimal(d@),
        Value::Timestamp(t) => ValueV::Timestamp(t),
        Value::String(s) => ValueV::Str(s@),
        Value::Symbol(sym) => ValueV::Symbol(sym@),
        Value::Blob(b) => ValueV::Blob(b@),
        Value::Clob(c) => ValueV::Clob(c@),
        Value::List(s) => ValueV::List(elems_deep(s.elements@)),
        Value::SExp(s) => ValueV::SExp(elems_deep(s.elements@)),
        Value::Struct(st) => ValueV::Struct(fields_deep(st.fields@)),
    }
}

/// The shapes of a run of child nodes, in order.
pub open spec fn elems_deep(elems: Seq<Element>) -> Seq<ElementV>
    decreases elems,
{
    if elems.len() == 0 {
        Seq::empty()
    } else {
        seq![elem_deep(elems.first())] + elems_deep(elems.drop_first())
    }
}

/// The shapes of a run of field entries, in order.
pub open spec fn fields_deep(fields: Seq<Field>) -> Seq<FieldV>
    decreases fields,
{
    if fields.len() == 0 {
        Seq::empty()
    } else {
        seq![FieldV { name: fields.first().name@, value: elem_deep(fields.first().value) }]
            + fields_deep(fields.drop_first())
    }
}

/// The shape sequence of a run of children is its pointwise shapes.
pub proof fn lemma_elems_deep(elems: Seq<Element>)
    ensures
        elems_deep(elems).len() == elems.len(),
        forall|i: int| 0 <= i < elems.len() ==> elems_deep(elems)[i] == elem_deep(
            #[trigger] elems[i],
        ),
    decreases elems.len(),
{
    if elems.len() > 0 {
        lemma_elems_deep(elems.drop_first());
        assert forall|i: int| 0 <= i < elems.len() implies elems_deep(elems)[i] == elem_deep(
            elems[i],
        ) by {
            if i > 0 {
                assert(elems.drop_first()[i - 1] == elems[i]);
            }
        }
    }
}

/// The shape sequence of a run of field entries is its pointwise shapes.
pub proof fn lemma_fields_deep(fields: Seq<Field>)
    ensures
        fields_deep(fields).len() == fields.len(),
        forall|i: int| 0 <= i < fields.len() ==> fields_deep(fields)[i] == (FieldV {
            name: (#[trigger] fields[i]).name@,
            value: elem_deep(fields[i].value),
        }),
    decreases fields.len(),
{
    if fields.len() > 0 {
        lemma_fields_deep(fields.drop_first());
        assert forall|i: int| 0 <= i < fields.len() implies fields_deep(fields)[i] == (FieldV {
            name: fields[i].name@,
            value: elem_deep(fields[i].value),
        }) by {
            if i > 0 {
                assert(fields.drop_first()[i - 1] == fields[i]);
            }
        }
    }
}

impl View for Element {
    type V = ElementV;

    open spec fn view(&self) -> ElementV {
        elem_deep(*self)
    }
}

impl View for Sequence {
    type V = Seq<ElementV>;

    open spec fn view(&self) -> Seq<ElementV> {
        elems_deep(self.elements@)
    }
}

impl View for Struct {
    type V = Seq<FieldV>;

    open spec fn view(&self) -> Seq<FieldV> {
        fields_deep(self.fields@)
    }
}

/// Copies a run of annotation tokens.
fn clone_symbols(source: &Vec<Symbol>) -> (r: Vec<Symbol>)
    ensures
        r@ == source@,
{
    let mut out: Vec<Symbol> = Vec::new();
    let mut k: usize = 0;
    while k < source.len()
        invariant
            k <= source.len(),
            out@ == source@.take(k as int),
        decreases source.len() - k,
    {
        out.push(source[k].clone());
        k = k + 1;
        proof {
            assert(out@ =~= source@.take(k as int));
        }
    }
    proof {
        assert(out@ =~= source@);
    }
    out
}

/// Copies a run of child nodes, preserving each child's shape.
fn clone_elements(source: &Vec<Element>) -> (r: Vec<Element>)
    ensures
        elems_deep(r@) == elems_deep(source@),
    decreases source,
{
    let mut out: Vec<Element> = Vec::new();
    let mut k: usize = 0;
    while k < source.len()
        invariant
            k <= source.len(),
            out@.len() == k,
            forall|i: int| 0 <= i < k ==> elem_deep(#[trigger] out@[i]) == elem_deep(source@[i]),
        decreases source.len() - k,
    {
        proof {
            assert(decreases_to!(source@ => source@[k as int]));
        }
        out.push(source[k].clone());
        k = k + 1;
    }
    proof {
        lemma_elems_deep(out@);
        lemma_elems_deep(source@);
        assert forall|i: int| 0 <= i < out@.len() implies elems_deep(out@)[i] == elems_deep(
            source@,
        )[i] by {
            assert(elem_deep(out@[i]) == elem_deep(source@[i]));
        }
        assert(elems_deep(out@) =~= elems_deep(source@));
    }
    out
}

/// Copies a run of field entries, preserving each entry's shape.
fn clone_fields(source: &Vec<Field>) -> (r: Vec<Field>)
    ensures
        fields_deep(r@) == fields_deep(source@),
    decreases source,
{
    let mut out: Vec<Field> = Vec::new();
    let mut k: usize = 0;
    while k < source.len()
        invariant
            k <= source.len(),
            out@.len() == k,
            forall|i: int| 0 <= i < k ==> (#[trigger] out@[i]).name@ == source@[i].name@
                && elem_deep(out@[i].value) == elem_deep(source@[i].value),
        decreases source.len() - k,
    {
        proof {
            assert(decreases_to!(source@ => source@[k as int]));
        }
        let f = &source[k];
        out.push(Field { name: f.name.clone(), value: f.value.clone() });
        k = k + 1;
    }
    proof {
        lemma_fields_deep(out@);
        lemma_fields_deep(source@);
        assert forall|i: int| 0 <= i < out@.len() implies fields_deep(out@)[i] == fields_deep(
            source@,
        )[i] by {
            assert(out@[i].name@ == source@[i].name@);
            assert(elem_deep(out@[i].value) == elem_deep(source@[i].value));
        }
        assert(fields_deep(out@) =~= fields_deep(source@));
    }
    out
}

impl Clone for Element {
    /// A structurally fresh copy with exactly the same shape.
    fn clone(&self) -> (res: Self)
        ensures
            res@ == self@,
        decreases self,
    {
        let value = match &self.value {
            Value::Null(t) => Value::Null(*t),
            Value::Bool(b) => Value::Bool(*b),
            Value::Int(i) => Value::Int(i.clone()),
            Value::Float(bits) => Value::Float(*bits),
            Value::Decimal(d) => Value::Decimal(d.clone()),
            Value::Timestamp(t) => Value::Timestamp(*t),
            Value::String(s) => Value::String(s.clone()),
            Value::Symbol(sym) => Value::Symbol(sym.clone()),
            Value::Blob(b) => Value::Blob(copy_byte_run(b)),
            Value::Clob(c) => Value::Clob(copy_byte_run(c)),
            Value::List(s) => Value::List(Sequence { elements: clone_elements(&s.elements) }),
            Value::SExp(s) => Value::SExp(Sequence { elements: clone_elements(&s.elements) }),
            Value::Struct(st) => Value::Struct(Struct { fields: clone_fields(&st.fields) }),
        };
        let res = Element { annotations: clone_symbols(&self.annotations), value };
        proof {
            assert(res.annotations@.map_values(|s: Symbol| s@) =~= self.annotations@.map_values(
                |s: Symbol| s@,
            ));
            assert(value_deep(res.value) =~= value_deep(self.value));
            assert(res@ =~= self@);
        }
        res
    }
}

/// Copies a byte payload.
fn copy_byte_run(source: &Vec<u8>) -> (r: Vec<u8>)
    ensures
        r@ == source@,
{
    let mut out: Vec<u8> = Vec::new();
    let mut k: usize = 0;
    while k < source.len()
        invariant
            k <= source.len(),
            out@ == source@.take(k as int),
        decreases source.len() - k,
    {
        out.push(source[k]);
        k = k + 1;
        proof {
            assert(out@ =~= source@.take(k as int));
        }
    }
    proof {
        assert(out@ =~= source@);
    }
    out
}

/// Whether two byte payloads hold the same bytes.
fn bytes_eq(a: &Vec<u8>, b: &Vec<u8>) -> (r: bool)
    ensures
        r == (a@ == b@),
{
    if a.len() != b.len() {
        return false;
    }
    let mut k: usize = 0;
    while k < a.len()
        invariant
            k <= a.len(),
            a@.len() == b@.len(),
            forall|i: int| 0 <= i < k ==> a@[i] == b@[i],
        decreases a.len() - k,
    {
        if a[k] != b[k] {
            return false;
        }
        k = k + 1;
    }
    proof {
        assert(a@ =~= b@);
    }
    true
}

/// Whether two integers hold the same mathematical value representation.
fn int_eq(a: &Int, b: &Int) -> (r: bool)
    ensures
        r == (a@ == b@),
{
    match (a, b) {
        (Int::I64(x), Int::I64(y)) => x == y,
        (
            Int::Big { negative: n1, magnitude: m1 },
            Int::Big { negative: n2, magnitude: m2 },
        ) => *n1 == *n2 && bytes_eq(m1, m2),
        _ => false,
    }
}

/// Whether two runs of annotation tokens read the same.
fn symbols_eq(a: &Vec<Symbol>, b: &Vec<Symbol>) -> (r: bool)
    ensures
        r == (a@.map_values(|s: Symbol| s@) == b@.map_values(|s: Symbol| s@)),
{
    if a.len() != b.len() {
        proof {
            assert(a@.map_values(|s: Symbol| s@).len() != b@.map_values(|s: Symbol| s@).len());
        }
        return false;
    }
    let mut k: usize = 0;
    while k < a.len()
        invariant
            k <= a.len(),
            a@.len() == b@.len(),
            forall|i: int| 0 <= i < k ==> (#[trigger] a@[i])@ == b@[i]@,
        decreases a.len() - k,
    {
        if !(a[k] == b[k]) {
            proof {
                assert(a@.map_values(|s: Symbol| s@)[k as int] != b@.map_values(
                    |s: Symbol| s@,
                )[k as int]);
            }
            return false;
        }
        k = k + 1;
    }
    proof {
        assert(a@.map_values(|s: Symbol| s@) =~= b@.map_values(|s: Symbol| s@));
    }
    true
}

/// Whether two runs of child nodes have the same shapes, pairwise and in
/// order.
fn elements_ion_eq(a: &Vec<Element>, b: &Vec<Element>) -> (r: bool)
    ensures
        r == (elems_deep(a@) == elems_deep(b@)),
    decreases a,
{
    proof {
        lemma_elems_deep(a@);
        lemma_elems_deep(b@);
    }
    if a.len() != b.len() {
        return false;
    }
    let mut k: usize = 0;
    while k < a.len()
        invariant
            k <= a.len(),
            a@.len() == b@.len(),
            elems_deep(a@).len() == a@.len(),
            elems_deep(b@).len() == b@.len(),
            forall|i: int| 0 <= i < a@.len() ==> elems_deep(a@)[i] == elem_deep(
                #[trigger] a@[i],
            ),
            forall|i: int| 0 <= i < b@.len() ==> elems_deep(b@)[i] == elem_deep(
                #[trigger] b@[i],
            ),
            forall|i: int| 0 <= i < k ==> elem_deep(#[trigger] a@[i]) == elem_deep(b@[i]),
        decreases a.len() - k,
    {
        proof {
            assert(decreases_to!(a@ => a@[k as int]));
        }
        if !a[k].ion_eq(&b[k]) {
            proof {
                assert(elems_deep(a@)[k as int] != elems_deep(b@)[k as int]);
            }
            return false;
        }
        k = k + 1;
    }
    proof {
        assert forall|i: int| 0 <= i < a@.len() implies elems_deep(a@)[i] == elems_deep(
            b@,
        )[i] by {
            assert(elem_deep(a@[i]) == elem_deep(b@[i]));
        }
        assert(elems_deep(a@) =~= elems_deep(b@));
    }
    true
}

/// Whether two runs of field entries have the same names and shapes,
/// pairwise and in order.
fn fields_ion_eq(a: &Vec<Field>, b: &Vec<Field>) -> (r: bool)
    ensures
        r == (fields_deep(a@) == fields_deep(b@)),
    decreases a,
{
    proof {
        lemma_fields_deep(a@);
        lemma_fields_deep(b@);
    }
    if a.len() != b.len() {
        return false;
    }
    let mut k: usize = 0;
    while k < a.len()
        invariant
            k <= a.len(),
            a@.len() == b@.len(),
            fields_deep(a@).len() == a@.len(),
            fields_deep(b@).len() == b@.len(),
            forall|i: int| 0 <= i < a@.len() ==> fields_deep(a@)[i] == (FieldV {
                name: (#[trigger] a@[i]).name@,
                value: elem_deep(a@[i].value),
            }),
            forall|i: int| 0 <= i < b@.len() ==> fields_deep(b@)[i] == (FieldV {
                name: (#[trigger] b@[i]).name@,
                value: elem_deep(b@[i].value),
            }),
            forall|i: int| 0 <= i < k ==> fields_deep(a@)[i] == fields_deep(b@)[i],
        decreases a.len() - k,
    {
        proof {
            assert(decreases_to!(a@ => a@[k as int]));
            assert(decreases_to!(a@[k as int] => a@[k as int].value));
        }
        let names_match = a[k].name == b[k].name;
        if !names_match || !a[k].value.ion_eq(&b[k].value) {
            proof {
                assert(fields_deep(a@)[k as int] != fields_deep(b@)[k as int]);
            }
            return false;
        }
        k = k + 1;
    }
    proof {
        assert forall|i: int| 0 <= i < a@.len() implies fields_deep(a@)[i] == fields_deep(
            b@,
        )[i] by {
            assert(a@[i].name@ == b@[i].name@ && elem_deep(a@[i].value) == elem_deep(b@[i].value));
        }
        assert(fields_deep(a@) =~= fields_deep(b@));
    }
    true
}

/// Whether two payloads have the same shape.
#[verifier::rlimit(80)]
fn value_ion_eq(a: &Value, b: &Value) -> (r: bool)
    ensures
        r == (value_deep(*a) == value_deep(*b)),
    decreases a,
{
    match (a, b) {
        (Value::Null(t1), Value::Null(t2)) => {
            let same: bool = *t1 == *t2;
            proof {
                assert(same == (value_deep(*a) == value_deep(*b)));
            }
            same
        },
        (Value::Bool(b1), Value::Bool(b2)) => {
            let same: bool = *b1 == *b2;
            proof {
                assert(same == (value_deep(*a) == value_deep(*b)));
            }
            same
        },
        (Value::Int(i1), Value::Int(i2)) => {
            let same: bool = int_eq(i1, i2);
            proof {
                assert(same == (value_deep(*a) == value_deep(*b)));
            }
            same
        },
        (Value::Float(f1), Value::Float(f2)) => {
            let same: bool = *f1 == *f2;
            proof {
                assert(same == (value_deep(*a) == value_deep(*b)));
            }
            same
        },
        (Value::Decimal(d1), Value::Decimal(d2)) => {
            let same: bool = int_eq(&d1.coefficient, &d2.coefficient) && d1.exponent == d2.exponent;
            proof {
                assert(same == (value_deep(*a) == value_deep(*b)));
            }
            same
        },
        (Value::Timestamp(t1), Value::Timestamp(t2)) => {
            let same: bool = *t1 == *t2;
            proof {
                assert(same == (value_deep(*a) == value_deep(*b)));
            }
            same
        },
        (Value::String(s1), Value::String(s2)) => {
            let same: bool = *s1 == *s2;
            proof {
                assert(same == (value_deep(*a) == value_deep(*b)));
            }
            same
        },
        (Value::Symbol(s1), Value::Symbol(s2)) => {
            let same: bool = *s1 == *s2;
            proof {
                assert(same == (value_deep(*a) == value_deep(*b)));
            }
            same
        },
        (Value::Blob(b1), Value::Blob(b2)) => {
            let same: bool = bytes_eq(b1, b2);
            proof {
                assert(same == (value_deep(*a) == value_deep(*b)));
            }
            same
        },
        (Value::Clob(c1), Value::Clob(c2)) => {
            let same: bool = bytes_eq(c1, c2);
            proof {
                assert(same == (value_deep(*a) == value_deep(*b)));
            }
            same
        },
        (Value::List(s1), Value::List(s2)) => {
            let same: bool = elements_ion_eq(&s1.elements, &s2.elements);
            proof {
                assert(same == (value_deep(*a) == value_deep(*b)));
            }
            same
        },
        (Value::SExp(s1), Value::SExp(s2)) => {
            let same: bool = elements_ion_eq(&s1.elements, &s2.elements);
            proof {
                assert(same == (value_deep(*a) == value_deep(*b)));
            }
            same
        },
        (Value::Struct(st1), Value::Struct(st2)) => {
            let same: bool = fields_ion_eq(&st1.fields, &st2.fields);
            proof {
                assert(same == (value_deep(*a) == value_deep(*b)));
            }
            same
        },
        _ => {
            proof {
                assert(value_deep(*a) != value_deep(*b));
            }
            false
        },
    }
}

impl Element {
    /// Whether this node and `other` are the same document value: same
    /// annotations, same kind, same payload, containers compared child by
    /// child in order.
    pub fn ion_eq(&self, other: &Element) -> (r: bool)
        ensures
            r == (self@ == other@),
        decreases self,
    {
        if !symbols_eq(&self.annotations, &other.annotations) {
            return false;
        }
        if !value_ion_eq(&self.value, &other.value) {
            return false;
        }
        proof {
            assert(self@ =~= other@);
        }
        true
    }
}

impl Sequence {
    /// Whether this sequence and `other` hold the same document values,
    /// pairwise and in order.
    pub fn ion_eq(&self, other: &Sequence) -> (r: bool)
        ensures
            r == (self@ == other@),
    {
        elements_ion_eq(&self.elements, &other.elements)
    }
}

/// Accumulates elements for a [`Sequence`], in order.
#[derive(Debug)]
pub struct SequenceBuilder {
    elements: Vec<Element>,
}

impl View for SequenceBuilder {
    type V = Seq<ElementV>;

    closed spec fn view(&self) -> Seq<ElementV> {
        elems_deep(self.elements@)
    }
}

impl SequenceBuilder {
    /// A builder holding no elements yet.
    pub fn new() -> (r: SequenceBuilder)
        ensures
            r@ == Seq::<ElementV>::empty(),
    {
        let r = SequenceBuilder { elements: Vec::new() };
        r
    }

    /// A builder seeded with copies of the given elements, in order.
    pub fn with_initial_elements(elements: &Vec<Element>) -> (r: SequenceBuilder)
        ensures
            r@ == elems_deep(elements@),
    {
        SequenceBuilder { elements: clone_elements(elements) }
    }

    /// Appends one element.
    pub fn push(&mut self, element: Element)
        ensures
            final(self)@ == old(self)@.push(element@),
    {
        let ghost pre = self.elements@;
        let ghost ev = element@;
        self.elements.push(element);
        proof {
            lemma_elems_deep(pre);
            lemma_elems_deep(self.elements@);
            assert forall|i: int| 0 <= i < self.elements@.len() implies elems_deep(
                self.elements@,
            )[i] == elems_deep(pre).push(ev)[i] by {
                assert(elems_deep(self.elements@)[i] == elem_deep(self.elements@[i]));
                if i < pre.len() {
                    assert(self.elements@[i] == pre[i]);
                    assert(elems_deep(pre)[i] == elem_deep(pre[i]));
                }
            }
            assert(elems_deep(self.elements@) =~= elems_deep(pre).push(ev));
        }
    }

    /// The finished sequence, in insertion order.
    pub fn build(self) -> (r: Sequence)
        ensures
            r@ == self@,
    {
        Sequence { elements: self.elements }
    }
}

impl Sequence {
    /// A builder for a fresh sequence.
    pub fn builder() -> (r: SequenceBuilder)
        ensures
            r@ == Seq::<ElementV>::empty(),
    {
        SequenceBuilder::new()
    }

    /// A builder seeded with copies of this sequence's elements, in order.
    pub fn clone_builder(&self) -> (r: SequenceBuilder)
        ensures
            r@ == self@,
    {
        SequenceBuilder::with_initial_elements(&self.elements)
    }
}

} // verus!
