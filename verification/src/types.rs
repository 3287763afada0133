//! The scalar payload types of the document model: the type tag enumeration,
//! arbitrary-precision integers, decimals, timestamps and symbols, together
//! with the stream-item classification that the cursor reports.

use vstd::prelude::*;

verus! {

/// The closed set of type tags a document node can carry.
#[derive(Clone, Copy, Debug, PartialEq, Eq, Structural)]
pub enum IonType {
    Null,
    Boolean,
    Integer,
    Float,
    Decimal,
    Timestamp,
    Symbol,
    String,
    Clob,
    Blob,
    List,
    SExpression,
    Struct,
}

impl IonType {
    /// Whether values of this type hold an ordered collection of child values.
    pub open spec fn spec_is_container(self) -> bool {
        self == IonType::List || self == IonType::SExpression || self == IonType::Struct
    }

    #[verifier::when_used_as_spec(spec_is_container)]
    pub fn is_container(self) -> (r: bool)
        ensures
            r == self.spec_is_container(),
    {
        match self {
            IonType::List | IonType::SExpression | IonType::Struct => true,
            _ => false,
        }
    }
}

/// An integer of arbitrary size: either one that fits a machine word, or a
/// sign-and-magnitude form for anything wider.
#[derive(Debug)]
pub enum Int {
    I64(i64),
    /// Sign and big-endian magnitude bytes of an integer too wide for `i64`.
    Big { negative: bool, magnitude: Vec<u8> },
}

/// The mathematical shape of an [`Int`], with the magnitude as a byte sequence.
#[verifier::ext_equal]
pub enum IntV {
    I64(int),
    Big { negative: bool, magnitude: Seq<u8> },
}

impl View for Int {
    type V = IntV;

    open spec fn view(&self) -> IntV {
        match self {
            Int::I64(i) => IntV::I64(*i as int),
            Int::Big { negative, magnitude } => IntV::Big {
                negative: *negative,
                magnitude: magnitude@,
            },
        }
    }
}

impl Clone for Int {
    fn clone(&self) -> (res: Self)
        ensures
            res@ == self@,
    {
        match self {
            Int::I64(i) => Int::I64(*i),
            Int::Big { negative, magnitude } => {
                let mut bytes: Vec<u8> = Vec::new();
                let mut k: usize = 0;
                while k < magnitude.len()
                    invariant
                        k <= magnitude.len(),
                        bytes@ == magnitude@.take(k as int),
                    decreases magnitude.len() - k,
                {
                    bytes.push(magnitude[k]);
                    k = k + 1;
                    proof {
                        assert(bytes@ =~= magnitude@.take(k as int));
                    }
                }
                proof {
                    assert(bytes@ =~= magnitude@);
                }
                Int::Big { negative: *negative, magnitude: bytes }
            },
        }
    }
}

impl Int {
    /// The value as an `i64`, when it is held in machine-word form.
    pub fn as_i64(&self) -> (r: Option<i64>)
        ensures
            match *self {
                Int::I64(i) => r == Some(i),
                Int::Big { .. } => r is None,
            },
    {
        match self {
            Int::I64(i) => Some(*i),
            Int::Big { .. } => None,
        }
    }
}

/// An arbitrary-precision decimal: `coefficient * 10 ^ exponent`.
#[derive(Debug)]
pub struct Decimal {
    pub coefficient: Int,
    pub exponent: i64,
}

/// The mathematical shape of a [`Decimal`].
#[verifier::ext_equal]
pub struct DecimalV {
    pub coefficient: IntV,
    pub exponent: int,
}

impl View for Decimal {
    type V = DecimalV;

    open spec fn view(&self) -> DecimalV {
        DecimalV { coefficient: self.coefficient@, exponent: self.exponent as int }
    }
}

impl Clone for Decimal {
    fn clone(&self) -> (res: Self)
        ensures
            res@ == self@,
    {
        Decimal { coefficient: self.coefficient.clone(), exponent: self.exponent }
    }
}

impl Decimal {
    /// A decimal with a machine-word coefficient.
    pub fn new(coefficient: i64, exponent: i64) -> (r: Decimal)
        ensures
            r@ == (DecimalV { coefficient: IntV::I64(coefficient as int), exponent: exponent as int }),
    {
        Decimal { coefficient: Int::I64(coefficient), exponent }
    }
}

/// A calendar timestamp, held as plain field values.
#[derive(Clone, Copy, Debug, PartialEq, Eq, Structural)]
pub struct Timestamp {
    pub year: u32,
    pub month: u8,
    pub day: u8,
}

impl Timestamp {
    pub fn with_ymd(year: u32, month: u8, day: u8) -> (r: Timestamp)
        ensures
            r == (Timestamp { year, month, day }),
    {
        Timestamp { year, month, day }
    }
}

/// A symbol token whose text has already been resolved; the cursor layer
/// never consults a symbol table, so symbols arrive as plain text.
#[derive(Debug)]
pub struct Symbol {
    pub text: String,
}

impl View for Symbol {
    type V = Seq<char>;

    open spec fn view(&self) -> Seq<char> {
        self.text@
    }
}

impl Symbol {
    /// A symbol owning the given text.
    pub fn owned(text: String) -> (r: Symbol)
        ensures
            r@ == text@,
    {
        Symbol { text }
    }

    pub fn text(&self) -> (r: &String)
        ensures
            r@ == self@,
    {
        &self.text
    }
}

impl Clone for Symbol {
    fn clone(&self) -> (res: Self)
        ensures
            res == *self,
    {
        Symbol { text: self.text.clone() }
    }
}

impl PartialEq for Symbol {
    fn eq(&self, other: &Symbol) -> (r: bool) {
        self.text == other.text
    }
}

impl vstd::std_specs::cmp::PartialEqSpecImpl for Symbol {
    open spec fn obeys_eq_spec() -> bool {
        true
    }

    open spec fn eq_spec(&self, other: &Symbol) -> bool {
        self@ == other@
    }
}

/// The classification of the cursor's position: a (non-null) value of some
/// type, a typed null, or nothing (the current level is exhausted).
#[derive(Clone, Copy, Debug, PartialEq, Eq, Structural)]
pub enum RawStreamItem {
    /// A non-null value of the given type.
    Value(IonType),
    /// A null of the given type.
    Null(IonType),
    /// The current level holds no further values.
    Nothing,
}

impl RawStreamItem {
    /// The classification of a value of type `ion_type` whose null flag is
    /// `is_null`.
    pub open spec fn spec_nullable_value(ion_type: IonType, is_null: bool) -> RawStreamItem {
        if is_null {
            RawStreamItem::Null(ion_type)
        } else {
            RawStreamItem::Value(ion_type)
        }
    }

    #[verifier::when_used_as_spec(spec_nullable_value)]
    pub fn nullable_value(ion_type: IonType, is_null: bool) -> (r: RawStreamItem)
        ensures
            r == RawStreamItem::spec_nullable_value(ion_type, is_null),
    {
        if is_null {
            RawStreamItem::Null(ion_type)
        } else {
            RawStreamItem::Value(ion_type)
        }
    }
}

} // verus!
