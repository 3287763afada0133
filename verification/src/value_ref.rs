//! The typed value-reference layer: the value under the cursor, exposed as
//! exactly one alternative of a closed tagged union, plus "expect this kind
//! or fail" accessors. Scalar payloads borrow from the tree where they are
//! not plain copies; the container alternatives only mark the kind — to read
//! deeper, the caller steps the cursor in, which keeps the fact that
//! descending is an ordered, stateful operation visible at the interface.

use vstd::prelude::*;

use crate::element::{Element, Value};
use crate::raw_element_reader::RawElementReader;
use crate::result::{IonError, IonResult, ValueKind};
use crate::types::{Decimal, Int, IonType, RawStreamItem, Symbol, Timestamp};

verus! {

/// A reference to one value: a per-kind null marker, a scalar payload, or a
/// container-kind marker. Symbols arrive with their text already resolved,
/// so one union serves both the unresolved and the resolved reading of a
/// materialized tree.
#[derive(Debug)]
pub enum RawValueRef<'a> {
    Null(IonType),
    Bool(bool),
    Int(&'a Int),
    /// The IEEE-754 bit pattern of a float value.
    Float(u64),
    Decimal(&'a Decimal),
    Timestamp(Timestamp),
    String(&'a String),
    Symbol(&'a Symbol),
    Blob(&'a Vec<u8>),
    Clob(&'a Vec<u8>),
    SExp,
    List,
    Struct,
}

/// The reference alternative that describes the given node.
pub open spec fn raw_ref_of<'a>(e: &'a Element) -> RawValueRef<'a> {
    match &e.value {
        Value::Null(t) => RawValueRef::Null(*t),
        Value::Bool(b) => RawValueRef::Bool(*b),
        Value::Int(i) => RawValueRef::Int(i),
        Value::Float(bits) => RawValueRef::Float(*bits),
        Value::Decimal(d) => RawValueRef::Decimal(d),
        Value::Timestamp(t) => RawValueRef::Timestamp(*t),
        Value::String(s) => RawValueRef::String(s),
        Value::Symbol(sym) => RawValueRef::Symbol(sym),
        Value::Blob(b) => RawValueRef::Blob(b),
        Value::Clob(c) => RawValueRef::Clob(c),
        Value::List(_) => RawValueRef::List,
        Value::SExp(_) => RawValueRef::SExp,
        Value::Struct(_) => RawValueRef::Struct,
    }
}

/// The stream classification of the value a reference describes.
pub open spec fn raw_ref_item(v: RawValueRef) -> RawStreamItem {
    match v {
        RawValueRef::Null(t) => RawStreamItem::Null(t),
        RawValueRef::Bool(_) => RawStreamItem::Value(IonType::Boolean),
        RawValueRef::Int(_) => RawStreamItem::Value(IonType::Integer),
        RawValueRef::Float(_) => RawStreamItem::Value(IonType::Float),
        RawValueRef::Decimal(_) => RawStreamItem::Value(IonType::Decimal),
        RawValueRef::Timestamp(_) => RawStreamItem::Value(IonType::Timestamp),
        RawValueRef::String(_) => RawStreamItem::Value(IonType::String),
        RawValueRef::Symbol(_) => RawStreamItem::Value(IonType::Symbol),
        RawValueRef::Blob(_) => RawStreamItem::Value(IonType::Blob),
        RawValueRef::Clob(_) => RawStreamItem::Value(IonType::Clob),
        RawValueRef::List => RawStreamItem::Value(IonType::List),
        RawValueRef::SExp => RawStreamItem::Value(IonType::SExpression),
        RawValueRef::Struct => RawStreamItem::Value(IonType::Struct),
    }
}

/// The mismatch error an `expect` accessor reports: the kind asked for and
/// the classification of what was there.
pub open spec fn mismatch_err(v: RawValueRef, expected: ValueKind) -> IonError {
    IonError::TypeMismatch { expected, actual: raw_ref_item(v) }
}

impl<'a> RawValueRef<'a> {
    /// The stream classification of the value this reference describes.
    pub fn classify(&self) -> (r: RawStreamItem)
        ensures
            r == raw_ref_item(*self),
    {
        match self {
            RawValueRef::Null(t) => RawStreamItem::Null(*t),
            RawValueRef::Bool(_) => RawStreamItem::Value(IonType::Boolean),
            RawValueRef::Int(_) => RawStreamItem::Value(IonType::Integer),
            RawValueRef::Float(_) => RawStreamItem::Value(IonType::Float),
            RawValueRef::Decimal(_) => RawStreamItem::Value(IonType::Decimal),
            RawValueRef::Timestamp(_) => RawStreamItem::Value(IonType::Timestamp),
            RawValueRef::String(_) => RawStreamItem::Value(IonType::String),
            RawValueRef::Symbol(_) => RawStreamItem::Value(IonType::Symbol),
            RawValueRef::Blob(_) => RawStreamItem::Value(IonType::Blob),
            RawValueRef::Clob(_) => RawStreamItem::Value(IonType::Clob),
            RawValueRef::List => RawStreamItem::Value(IonType::List),
            RawValueRef::SExp => RawStreamItem::Value(IonType::SExpression),
            RawValueRef::Struct => RawStreamItem::Value(IonType::Struct),
        }
    }

    pub fn expect_null(self) -> (r: IonResult<IonType>)
        ensures
            match self {
                RawValueRef::Null(t) => r == Ok::<IonType, IonError>(t),
                _ => r == Err::<IonType, IonError>(mismatch_err(self, ValueKind::Null)),
            },
    {
        if let RawValueRef::Null(ion_type) = self {
            Ok(ion_type)
        } else {
            Err(mismatch(&self, ValueKind::Null))
        }
    }

    pub fn expect_bool(self) -> (r: IonResult<bool>)
        ensures
            match self {
                RawValueRef::Bool(b) => r == Ok::<bool, IonError>(b),
                _ => r == Err::<bool, IonError>(mismatch_err(self, ValueKind::Bool)),
            },
    {
        if let RawValueRef::Bool(b) = self {
            Ok(b)
        } else {
            Err(mismatch(&self, ValueKind::Bool))
        }
    }

    pub fn expect_int(self) -> (r: IonResult<&'a Int>)
        ensures
            match self {
                RawValueRef::Int(i) => r == Ok::<&'a Int, IonError>(i),
                _ => r == Err::<&'a Int, IonError>(mismatch_err(self, ValueKind::Int)),
            },
    {
        if let RawValueRef::Int(i) = self {
            Ok(i)
        } else {
            Err(mismatch(&self, ValueKind::Int))
        }
    }

    /// Expects a float, reported as its IEEE-754 bit pattern.
    pub fn expect_float(self) -> (r: IonResult<u64>)
        ensures
            match self {
                RawValueRef::Float(bits) => r == Ok::<u64, IonError>(bits),
                _ => r == Err::<u64, IonError>(mismatch_err(self, ValueKind::Float)),
            },
    {
        if let RawValueRef::Float(bits) = self {
            Ok(bits)
        } else {
            Err(mismatch(&self, ValueKind::Float))
        }
    }

    pub fn expect_decimal(self) -> (r: IonResult<&'a Decimal>)
        ensures
            match self {
                RawValueRef::Decimal(d) => r == Ok::<&'a Decimal, IonError>(d),
                _ => r == Err::<&'a Decimal, IonError>(mismatch_err(self, ValueKind::Decimal)),
            },
    {
        if let RawValueRef::Decimal(d) = self {
            Ok(d)
        } else {
            Err(mismatch(&self, ValueKind::Decimal))
        }
    }

    pub fn expect_timestamp(self) -> (r: IonResult<Timestamp>)
        ensures
            match self {
                RawValueRef::Timestamp(t) => r == Ok::<Timestamp, IonError>(t),
                _ => r == Err::<Timestamp, IonError>(mismatch_err(self, ValueKind::Timestamp)),
            },
    {
        if let RawValueRef::Timestamp(t) = self {
            Ok(t)
        } else {
            Err(mismatch(&self, ValueKind::Timestamp))
        }
    }

    pub fn expect_string(self) -> (r: IonResult<&'a String>)
        ensures
            match self {
                RawValueRef::String(s) => r == Ok::<&'a String, IonError>(s),
                _ => r == Err::<&'a String, IonError>(mismatch_err(self, ValueKind::String)),
            },
    {
        if let RawValueRef::String(s) = self {
            Ok(s)
        } else {
            Err(mismatch(&self, ValueKind::String))
        }
    }

    pub fn expect_symbol(self) -> (r: IonResult<&'a Symbol>)
        ensures
            match self {
                RawValueRef::Symbol(s) => r == Ok::<&'a Symbol, IonError>(s),
                _ => r == Err::<&'a Symbol, IonError>(mismatch_err(self, ValueKind::Symbol)),
            },
    {
        if let RawValueRef::Symbol(s) = self {
            Ok(s)
        } else {
            Err(mismatch(&self, ValueKind::Symbol))
        }
    }

    pub fn expect_blob(self) -> (r: IonResult<&'a Vec<u8>>)
        ensures
            match self {
                RawValueRef::Blob(b) => r == Ok::<&'a Vec<u8>, IonError>(b),
                _ => r == Err::<&'a Vec<u8>, IonError>(mismatch_err(self, ValueKind::Blob)),
            },
    {
        if let RawValueRef::Blob(b) = self {
            Ok(b)
        } else {
            Err(mismatch(&self, ValueKind::Blob))
        }
    }

    pub fn expect_clob(self) -> (r: IonResult<&'a Vec<u8>>)
        ensures
            match self {
                RawValueRef::Clob(c) => r == Ok::<&'a Vec<u8>, IonError>(c),
                _ => r == Err::<&'a Vec<u8>, IonError>(mismatch_err(self, ValueKind::Clob)),
            },
    {
        if let RawValueRef::Clob(c) = self {
            Ok(c)
        } else {
            Err(mismatch(&self, ValueKind::Clob))
        }
    }

    pub fn expect_list(self) -> (r: IonResult<()>)
        ensures
            match self {
                RawValueRef::List => r == Ok::<(), IonError>(()),
                _ => r == Err::<(), IonError>(mismatch_err(self, ValueKind::List)),
            },
    {
        if let RawValueRef::List = self {
            Ok(())
        } else {
            Err(mismatch(&self, ValueKind::List))
        }
    }

    pub fn expect_sexp(self) -> (r: IonResult<()>)
        ensures
            match self {
                RawValueRef::SExp => r == Ok::<(), IonError>(()),
                _ => r == Err::<(), IonError>(mismatch_err(self, ValueKind::SExp)),
            },
    {
        if let RawValueRef::SExp = self {
            Ok(())
        } else {
            Err(mismatch(&self, ValueKind::SExp))
        }
    }

    pub fn expect_struct(self) -> (r: IonResult<()>)
        ensures
            match self {
                RawValueRef::Struct => r == Ok::<(), IonError>(()),
                _ => r == Err::<(), IonError>(mismatch_err(self, ValueKind::Struct)),
            },
    {
        if let RawValueRef::Struct = self {
            Ok(())
        } else {
            Err(mismatch(&self, ValueKind::Struct))
        }
    }
}

/// Builds the error an `expect` accessor reports.
fn mismatch(v: &RawValueRef, expected: ValueKind) -> (r: IonError)
    ensures
        r == mismatch_err(*v, expected),
{
    IonError::TypeMismatch { expected, actual: v.classify() }
}

impl RawElementReader {
    /// The value the cursor is positioned on, as exactly one alternative of
    /// the closed tagged union. Fails with `IllegalOperation` when the cursor
    /// is not positioned on a value (advance first).
    pub fn read_value(&self) -> (r: IonResult<RawValueRef>)
        ensures
            match self@.current {
                Some(e) => r is Ok && r->Ok_0 == raw_ref_of(&e),
                None => r == Err::<RawValueRef, IonError>(IonError::IllegalOperation),
            },
    {
        match self.current_element() {
            Some(element) => Ok(element.value_ref()),
            None => Err(IonError::IllegalOperation),
        }
    }
}

impl Element {
    /// The reference alternative describing this node.
    pub fn value_ref(&self) -> (r: RawValueRef)
        ensures
            r == raw_ref_of(self),
    {
        match &self.value {
            Value::Null(t) => RawValueRef::Null(*t),
            Value::Bool(b) => RawValueRef::Bool(*b),
            Value::Int(i) => RawValueRef::Int(i),
            Value::Float(bits) => RawValueRef::Float(*bits),
            Value::Decimal(d) => RawValueRef::Decimal(d),
            Value::Timestamp(t) => RawValueRef::Timestamp(*t),
            Value::String(s) => RawValueRef::String(s),
            Value::Symbol(sym) => RawValueRef::Symbol(sym),
            Value::Blob(b) => RawValueRef::Blob(b),
            Value::Clob(c) => RawValueRef::Clob(c),
            Value::List(_) => RawValueRef::List,
            Value::SExp(_) => RawValueRef::SExp,
            Value::Struct(_) => RawValueRef::Struct,
        }
    }
}

} // verus!
