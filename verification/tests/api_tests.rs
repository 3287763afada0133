use ion_cursor::element::{Element, Field, Sequence, SequenceBuilder, Struct, Value};
use ion_cursor::laws;
use ion_cursor::raw_element_reader::RawElementReader;
use ion_cursor::result::{IonError, ValueKind};
use ion_cursor::template::{Cardinality, Encoding, Template};
use ion_cursor::types::{Decimal, Int, IonType, RawStreamItem, Symbol, Timestamp};
use ion_cursor::value_ref::RawValueRef;

fn int_elem(i: i64) -> Element {
    Element::of(Value::Int(Int::I64(i)))
}

fn list_elem(children: Vec<Element>) -> Element {
    Element::of(Value::List(Sequence::new(children)))
}

fn field(name: &str, value: Element) -> Field {
    Field::new(Symbol::owned(name.to_string()), value)
}

fn struct_elem(fields: Vec<Field>) -> Element {
    Element::of(Value::Struct(Struct::new(fields)))
}

fn string_elem(s: &str) -> Element {
    Element::of(Value::String(s.to_string()))
}

fn symbol_elem(s: &str) -> Element {
    Element::of(Value::Symbol(Symbol::owned(s.to_string())))
}

#[test]
fn round_trip_every_scalar_kind() {
    assert_eq!(laws::null_round_trip(IonType::Integer).unwrap(), IonType::Integer);
    assert_eq!(laws::bool_round_trip(true).unwrap(), true);
    assert_eq!(laws::i64_round_trip(-42).unwrap(), -42);
    match laws::int_round_trip(Int::Big { negative: false, magnitude: vec![1, 2, 3] }).unwrap() {
        Int::Big { negative, magnitude } => {
            assert!(!negative);
            assert_eq!(magnitude, vec![1, 2, 3]);
        },
        Int::I64(_) => panic!("expected the wide form back"),
    }
    assert_eq!(laws::float_round_trip(2.5f64.to_bits()).unwrap(), 2.5f64.to_bits());
    let d = laws::decimal_round_trip(Decimal::new(25, -1)).unwrap();
    match d.coefficient {
        Int::I64(c) => assert_eq!(c, 25),
        Int::Big { .. } => panic!("expected a machine-word coefficient"),
    }
    assert_eq!(d.exponent, -1);
    let t = laws::timestamp_round_trip(Timestamp::with_ymd(2007, 7, 12)).unwrap();
    assert_eq!(t, Timestamp::with_ymd(2007, 7, 12));
    assert_eq!(laws::string_round_trip("hi!".to_string()).unwrap(), "hi!".to_string());
    assert_eq!(
        laws::symbol_round_trip(Symbol::owned("foo".to_string())).unwrap(),
        Symbol::owned("foo".to_string())
    );
    assert_eq!(laws::blob_round_trip(vec![0xde, 0xad]).unwrap(), vec![0xde, 0xad]);
    assert_eq!(laws::clob_round_trip(vec![1, 2]).unwrap(), vec![1, 2]);
}

#[test]
fn mismatched_accessors_fail_with_type_mismatch() {
    assert_eq!(
        laws::mismatched_read_fails(true).unwrap_err(),
        IonError::TypeMismatch {
            expected: ValueKind::Int,
            actual: RawStreamItem::Value(IonType::Boolean),
        }
    );
    let mut reader = RawElementReader::new(int_elem(7));
    reader.next().unwrap();
    assert_eq!(
        reader.read_bool().unwrap_err(),
        IonError::TypeMismatch {
            expected: ValueKind::Bool,
            actual: RawStreamItem::Value(IonType::Integer),
        }
    );
    assert_eq!(
        reader.read_string().unwrap_err(),
        IonError::TypeMismatch {
            expected: ValueKind::String,
            actual: RawStreamItem::Value(IonType::Integer),
        }
    );
    assert_eq!(
        reader.read_null().unwrap_err(),
        IonError::TypeMismatch {
            expected: ValueKind::Null,
            actual: RawStreamItem::Value(IonType::Integer),
        }
    );
    // After the single value, reads see Nothing.
    reader.next().unwrap();
    assert_eq!(
        reader.read_timestamp().unwrap_err(),
        IonError::TypeMismatch { expected: ValueKind::Timestamp, actual: RawStreamItem::Nothing }
    );
}

#[test]
fn wide_integer_does_not_fit_a_fixed_width_read() {
    let mut reader = RawElementReader::new(Element::of(Value::Int(Int::Big {
        negative: false,
        magnitude: vec![0xff; 16],
    })));
    reader.next().unwrap();
    assert_eq!(reader.read_i64().unwrap_err(), IonError::NumericRange);
    // The arbitrary-precision read still succeeds.
    assert!(matches!(reader.read_integer().unwrap(), Int::Big { .. }));
}

#[test]
fn protocol_misuse_fails_with_illegal_operation() {
    let mut reader = RawElementReader::new(int_elem(1));
    // step-out at the top level
    assert_eq!(reader.step_out().unwrap_err(), IonError::IllegalOperation);
    // step-in on nothing (no advance yet)
    assert_eq!(reader.step_in().unwrap_err(), IonError::IllegalOperation);
    reader.next().unwrap();
    // step-in on a scalar
    assert_eq!(reader.step_in().unwrap_err(), IonError::IllegalOperation);

    // step-in on a null container is refused too
    let mut null_list = RawElementReader::new(Element::of(Value::Null(IonType::List)));
    null_list.next().unwrap();
    assert_eq!(null_list.step_in().unwrap_err(), IonError::IllegalOperation);
}

#[test]
fn field_name_fails_at_top_level_and_inside_sequences() {
    // At depth 0:
    let mut reader = RawElementReader::new(int_elem(1));
    assert_eq!(reader.field_name().unwrap_err(), IonError::IllegalOperation);
    reader.next().unwrap();
    assert_eq!(reader.field_name().unwrap_err(), IonError::IllegalOperation);

    // Inside a list:
    let mut list_reader = RawElementReader::new(list_elem(vec![int_elem(1)]));
    list_reader.next().unwrap();
    list_reader.step_in().unwrap();
    list_reader.next().unwrap();
    assert_eq!(list_reader.field_name().unwrap_err(), IonError::IllegalOperation);

    // Inside an expression sequence:
    let mut sexp_reader =
        RawElementReader::new(Element::of(Value::SExp(Sequence::new(vec![int_elem(1)]))));
    sexp_reader.next().unwrap();
    sexp_reader.step_in().unwrap();
    sexp_reader.next().unwrap();
    assert_eq!(sexp_reader.field_name().unwrap_err(), IonError::IllegalOperation);
}

#[test]
fn struct_children_arrive_in_declaration_order_with_duplicates() {
    // {a: 1, a: 2, b: 3} — duplicate names keep declaration order.
    let doc = struct_elem(vec![
        field("a", int_elem(1)),
        field("a", int_elem(2)),
        field("b", int_elem(3)),
    ]);
    let mut reader = RawElementReader::new(doc);
    reader.next().unwrap();
    reader.step_in().unwrap();
    reader.next().unwrap();
    assert_eq!(reader.field_name().unwrap(), Symbol::owned("a".to_string()));
    assert_eq!(reader.read_i64().unwrap(), 1);
    reader.next().unwrap();
    assert_eq!(reader.field_name().unwrap(), Symbol::owned("a".to_string()));
    assert_eq!(reader.read_i64().unwrap(), 2);
    reader.next().unwrap();
    assert_eq!(reader.field_name().unwrap(), Symbol::owned("b".to_string()));
    assert_eq!(reader.read_i64().unwrap(), 3);
    assert_eq!(reader.next().unwrap(), RawStreamItem::Nothing);
}

#[test]
fn skipping_equals_stepping_in_and_out() {
    // [[9, 9], 42] — the sibling after the inner list is the same whether the
    // inner list is skipped or entered and left.
    let build = || {
        list_elem(vec![list_elem(vec![int_elem(9), int_elem(9)]), int_elem(42)])
    };

    let mut skipped = RawElementReader::new(build());
    skipped.next().unwrap();
    skipped.step_in().unwrap();
    skipped.next().unwrap();  // positioned on the inner list
    let after_skip = skipped.next().unwrap();  // advances past it, unentered

    let mut entered = RawElementReader::new(build());
    entered.next().unwrap();
    entered.step_in().unwrap();
    entered.next().unwrap();
    entered.step_in().unwrap();
    entered.step_out().unwrap();
    let after_walk = entered.next().unwrap();

    assert_eq!(after_skip, RawStreamItem::Value(IonType::Integer));
    assert_eq!(after_skip, after_walk);
    assert_eq!(skipped.read_i64().unwrap(), 42);
    assert_eq!(entered.read_i64().unwrap(), 42);
    // Neither cursor ever exposed a 9 at this level; both finish together.
    assert_eq!(skipped.next().unwrap(), RawStreamItem::Nothing);
    assert_eq!(entered.next().unwrap(), RawStreamItem::Nothing);
}

#[test]
fn early_exit_from_a_struct_is_transparent() {
    // {foo: {x: 1, y: 2}, bar: 3} — read only the first field of the inner
    // struct, step out, and the next sibling is still "bar".
    let doc = struct_elem(vec![
        field("foo", struct_elem(vec![field("x", int_elem(1)), field("y", int_elem(2))])),
        field("bar", int_elem(3)),
    ]);
    let mut reader = RawElementReader::new(doc);
    reader.next().unwrap();
    reader.step_in().unwrap();
    reader.next().unwrap();
    reader.step_in().unwrap();
    reader.next().unwrap();
    assert_eq!(reader.field_name().unwrap(), Symbol::owned("x".to_string()));
    assert_eq!(reader.read_i64().unwrap(), 1);
    reader.step_out().unwrap();  // "y" is drained silently
    assert_eq!(reader.next().unwrap(), RawStreamItem::Value(IonType::Integer));
    assert_eq!(reader.field_name().unwrap(), Symbol::owned("bar".to_string()));
    assert_eq!(reader.read_i64().unwrap(), 3);
}

#[test]
fn depth_tracks_step_ins_and_outs() {
    // [[[5]]]
    let doc = list_elem(vec![list_elem(vec![list_elem(vec![int_elem(5)])])]);
    let mut reader = RawElementReader::new(doc);
    assert_eq!(reader.depth(), 0);
    assert_eq!(reader.parent_type(), None);
    reader.next().unwrap();
    reader.step_in().unwrap();
    assert_eq!(reader.depth(), 1);
    assert_eq!(reader.parent_type(), Some(IonType::List));
    reader.next().unwrap();
    reader.step_in().unwrap();
    assert_eq!(reader.depth(), 2);
    reader.next().unwrap();
    reader.step_in().unwrap();
    assert_eq!(reader.depth(), 3);
    reader.step_out().unwrap();
    assert_eq!(reader.depth(), 2);
    reader.step_out().unwrap();
    assert_eq!(reader.depth(), 1);
    reader.step_out().unwrap();
    assert_eq!(reader.depth(), 0);
    assert_eq!(reader.parent_type(), None);
}

#[test]
fn current_reports_position_idempotently() {
    let mut reader = RawElementReader::new(int_elem(3));
    assert_eq!(reader.current(), RawStreamItem::Nothing);
    assert_eq!(reader.ion_type(), None);
    assert!(!reader.is_null());
    reader.next().unwrap();
    assert_eq!(reader.current(), RawStreamItem::Value(IonType::Integer));
    assert_eq!(reader.current(), RawStreamItem::Value(IonType::Integer));
    assert_eq!(reader.ion_type(), Some(IonType::Integer));
    reader.next().unwrap();
    assert_eq!(reader.current(), RawStreamItem::Nothing);
}

#[test]
fn typed_null_reports_its_type_and_null_flag() {
    let mut reader = RawElementReader::new(Element::of(Value::Null(IonType::String)));
    assert_eq!(reader.next().unwrap(), RawStreamItem::Null(IonType::String));
    assert!(reader.is_null());
    assert_eq!(reader.ion_type(), Some(IonType::String));
    assert_eq!(reader.read_null().unwrap(), IonType::String);
}

#[test]
fn annotations_reflect_the_current_value() {
    let annotated = Element::annotated(
        vec![Symbol::owned("degrees".to_string()), Symbol::owned("approx".to_string())],
        Value::Int(Int::I64(360)),
    );
    let mut reader = RawElementReader::new(annotated);
    assert!(!reader.has_annotations());
    assert_eq!(reader.number_of_annotations(), 0);
    assert_eq!(reader.annotations(), vec![]);
    reader.next().unwrap();
    assert!(reader.has_annotations());
    assert_eq!(reader.number_of_annotations(), 2);
    assert_eq!(
        reader.annotations(),
        vec![Symbol::owned("degrees".to_string()), Symbol::owned("approx".to_string())]
    );
    reader.next().unwrap();
    assert!(!reader.has_annotations());
}

#[test]
fn read_value_exposes_the_closed_union() {
    let mut reader = RawElementReader::new(string_elem("hello"));
    assert_eq!(reader.read_value().unwrap_err(), IonError::IllegalOperation);
    reader.next().unwrap();
    match reader.read_value().unwrap() {
        RawValueRef::String(s) => assert_eq!(s, "hello"),
        _ => panic!("expected the string alternative"),
    }
    assert_eq!(reader.read_value().unwrap().expect_string().unwrap(), "hello");
    assert_eq!(
        reader.read_value().unwrap().expect_bool().unwrap_err(),
        IonError::TypeMismatch {
            expected: ValueKind::Bool,
            actual: RawStreamItem::Value(IonType::String),
        }
    );
}

#[test]
fn expect_accessors_match_each_kind() {
    let mut list_reader = RawElementReader::new(list_elem(vec![]));
    list_reader.next().unwrap();
    list_reader.read_value().unwrap().expect_list().unwrap();
    assert_eq!(
        list_reader.read_value().unwrap().expect_sexp().unwrap_err(),
        IonError::TypeMismatch {
            expected: ValueKind::SExp,
            actual: RawStreamItem::Value(IonType::List),
        }
    );

    let mut struct_reader = RawElementReader::new(struct_elem(vec![]));
    struct_reader.next().unwrap();
    struct_reader.read_value().unwrap().expect_struct().unwrap();

    let mut null_reader = RawElementReader::new(Element::of(Value::Null(IonType::Null)));
    null_reader.next().unwrap();
    assert_eq!(null_reader.read_value().unwrap().expect_null().unwrap(), IonType::Null);

    let mut sym_reader = RawElementReader::new(symbol_elem("sym"));
    sym_reader.next().unwrap();
    assert_eq!(
        sym_reader.read_value().unwrap().expect_symbol().unwrap(),
        &Symbol::owned("sym".to_string())
    );

    let mut ts_reader = RawElementReader::new(Element::of(Value::Timestamp(Timestamp::with_ymd(
        2007, 7, 12,
    ))));
    ts_reader.next().unwrap();
    assert_eq!(
        ts_reader.read_value().unwrap().expect_timestamp().unwrap(),
        Timestamp::with_ymd(2007, 7, 12)
    );
}

#[test]
fn reading_a_symbol_through_read_string_returns_its_text() {
    let mut reader = RawElementReader::new(symbol_elem("pi"));
    reader.next().unwrap();
    assert_eq!(reader.read_string().unwrap(), "pi".to_string());
}

#[test]
fn sequence_accessors_report_contents() {
    let seq = Sequence::new(vec![int_elem(1), int_elem(2)]);
    assert_eq!(seq.len(), 2);
    assert!(!seq.is_empty());
    assert!(seq.get(0).is_some());
    assert!(seq.get(2).is_none());
    assert_eq!(seq.elements().len(), 2);

    let empty = Sequence::new(vec![]);
    assert!(empty.is_empty());
    assert_eq!(empty.len(), 0);
}

#[test]
fn builders_accumulate_and_copy_sequences() {
    let mut builder = Sequence::builder();
    builder.push(int_elem(1));
    builder.push(string_elem("two"));
    let seq = builder.build();
    assert_eq!(seq.len(), 2);

    let mut copied = seq.clone_builder();
    copied.push(int_elem(3));
    let longer = copied.build();
    assert_eq!(longer.len(), 3);
    // The original sequence is untouched.
    assert_eq!(seq.len(), 2);
    assert_eq!(longer.get(2).unwrap().ion_type(), IonType::Integer);

    let empty = SequenceBuilder::new().build();
    assert!(empty.is_empty());
}

#[test]
fn struct_get_returns_the_first_match() {
    let st = Struct::new(vec![
        field("k", int_elem(1)),
        field("k", int_elem(2)),
        field("other", int_elem(3)),
    ]);
    let found = st.get("k").unwrap();
    let mut reader = RawElementReader::new(found.clone());
    reader.next().unwrap();
    assert_eq!(reader.read_i64().unwrap(), 1);
    assert!(st.get("missing").is_none());
    assert_eq!(st.len(), 3);
    assert!(!st.is_empty());
}

fn template_doc(cardinality: &str) -> Element {
    // {name: "pair", parameters: [{name: x, encoding: any, cardinality: ...}], body: [1]}
    struct_elem(vec![
        field("name", string_elem("pair")),
        field(
            "parameters",
            list_elem(vec![struct_elem(vec![
                field("name", symbol_elem("x")),
                field("encoding", symbol_elem("any")),
                field("cardinality", symbol_elem(cardinality)),
            ])]),
        ),
        field("body", list_elem(vec![int_elem(1)])),
    ])
}

#[test]
fn template_from_ion_reads_a_well_formed_definition() {
    let template = Template::from_ion(template_doc("required")).unwrap();
    assert_eq!(template.name(), "pair");
    assert_eq!(template.parameters().len(), 1);
    let p = template.get_parameter("x").unwrap();
    assert_eq!(p.name(), "x");
    assert_eq!(*p.encoding(), Encoding::Any);
    assert_eq!(*p.cardinality(), Cardinality::Required);
    assert!(template.get_parameter("y").is_none());
    assert_eq!(template.body().ion_type(), IonType::List);
}

#[test]
fn template_from_ion_rejects_malformed_definitions() {
    // Not a struct at all.
    assert_eq!(Template::from_ion(int_elem(1)).unwrap_err(), IonError::DecodingError);
    // Missing the name.
    let missing_name = struct_elem(vec![
        field("parameters", list_elem(vec![])),
        field("body", int_elem(1)),
    ]);
    assert_eq!(Template::from_ion(missing_name).unwrap_err(), IonError::DecodingError);
    // Parameters not a sequence.
    let bad_params = struct_elem(vec![
        field("name", string_elem("t")),
        field("parameters", int_elem(1)),
        field("body", int_elem(1)),
    ]);
    assert_eq!(Template::from_ion(bad_params).unwrap_err(), IonError::DecodingError);
    // A parameter with an unknown cardinality.
    assert_eq!(Template::from_ion(template_doc("sometimes")).unwrap_err(), IonError::DecodingError);
    // Missing the body.
    let missing_body = struct_elem(vec![
        field("name", string_elem("t")),
        field("parameters", list_elem(vec![])),
    ]);
    assert_eq!(Template::from_ion(missing_body).unwrap_err(), IonError::DecodingError);
}

#[test]
fn ion_eq_compares_whole_trees() {
    let build = || {
        Element::annotated(
            vec![Symbol::owned("tag".to_string())],
            Value::Struct(Struct::new(vec![
                field("xs", list_elem(vec![int_elem(1), string_elem("two")])),
                field("b", Element::of(Value::Blob(vec![7, 8]))),
            ])),
        )
    };
    let a = build();
    let b = build();
    assert!(a.ion_eq(&b));
    assert!(a.ion_eq(&a.clone()));

    // A nested payload difference is seen.
    let different = Element::annotated(
        vec![Symbol::owned("tag".to_string())],
        Value::Struct(Struct::new(vec![
            field("xs", list_elem(vec![int_elem(1), string_elem("TWO")])),
            field("b", Element::of(Value::Blob(vec![7, 8]))),
        ])),
    );
    assert!(!a.ion_eq(&different));

    // An annotation difference is seen.
    let unannotated = Element::of(Value::Struct(Struct::new(vec![
        field("xs", list_elem(vec![int_elem(1), string_elem("two")])),
        field("b", Element::of(Value::Blob(vec![7, 8]))),
    ])));
    assert!(!a.ion_eq(&unannotated));

    // A kind difference is seen.
    assert!(!int_elem(1).ion_eq(&string_elem("1")));

    let s1 = Sequence::new(vec![int_elem(1), int_elem(2)]);
    let s2 = Sequence::new(vec![int_elem(1), int_elem(2)]);
    let s3 = Sequence::new(vec![int_elem(2), int_elem(1)]);
    assert!(s1.ion_eq(&s2));
    assert!(!s1.ion_eq(&s3));
}

#[test]
fn implicit_skip_and_explicit_walk_leave_identical_field_state() {
    // {c: [1], d: 2} — whether the list under "c" is skipped or entered and
    // left, the cursor then sits on "d" with the same field name and no
    // leftover annotation state.
    let build = || {
        struct_elem(vec![
            field("c", list_elem(vec![int_elem(1)])),
            field("d", int_elem(2)),
        ])
    };

    let mut skipped = RawElementReader::new(build());
    skipped.next().unwrap();
    skipped.step_in().unwrap();
    skipped.next().unwrap();  // on "c"
    skipped.next().unwrap();  // skips the unentered list

    let mut walked = RawElementReader::new(build());
    walked.next().unwrap();
    walked.step_in().unwrap();
    walked.next().unwrap();
    walked.step_in().unwrap();
    walked.step_out().unwrap();
    walked.next().unwrap();

    assert_eq!(skipped.field_name().unwrap(), Symbol::owned("d".to_string()));
    assert_eq!(walked.field_name().unwrap(), Symbol::owned("d".to_string()));
    assert_eq!(skipped.current(), walked.current());
    assert_eq!(skipped.annotations(), walked.annotations());
    assert_eq!(skipped.read_i64().unwrap(), 2);
    assert_eq!(walked.read_i64().unwrap(), 2);
}

#[test]
fn empty_containers_are_enterable_and_immediately_exhausted() {
    let mut reader = RawElementReader::new(list_elem(vec![]));
    reader.next().unwrap();
    reader.step_in().unwrap();
    assert_eq!(reader.depth(), 1);
    assert_eq!(reader.next().unwrap(), RawStreamItem::Nothing);
    assert_eq!(reader.next().unwrap(), RawStreamItem::Nothing);
    reader.step_out().unwrap();
    assert_eq!(reader.depth(), 0);
    assert_eq!(reader.next().unwrap(), RawStreamItem::Nothing);

    let mut empty_struct = RawElementReader::new(struct_elem(vec![]));
    empty_struct.next().unwrap();
    empty_struct.step_in().unwrap();
    assert_eq!(empty_struct.next().unwrap(), RawStreamItem::Nothing);
    assert_eq!(empty_struct.field_name().unwrap_err(), IonError::IllegalOperation);
    empty_struct.step_out().unwrap();
}

#[test]
fn end_of_top_level_is_permanent() {
    let mut reader = RawElementReader::new(int_elem(1));
    assert_eq!(reader.next().unwrap(), RawStreamItem::Value(IonType::Integer));
    assert_eq!(reader.next().unwrap(), RawStreamItem::Nothing);
    assert_eq!(reader.next().unwrap(), RawStreamItem::Nothing);
    assert_eq!(reader.current(), RawStreamItem::Nothing);
}

#[test]
fn typed_nulls_of_container_kinds_are_values_without_children() {
    let mut reader = RawElementReader::new(list_elem(vec![
        Element::of(Value::Null(IonType::List)),
        int_elem(8),
    ]));
    reader.next().unwrap();
    reader.step_in().unwrap();
    assert_eq!(reader.next().unwrap(), RawStreamItem::Null(IonType::List));
    // A null container cannot be entered; advancing reaches the sibling.
    assert_eq!(reader.step_in().unwrap_err(), IonError::IllegalOperation);
    assert_eq!(reader.next().unwrap(), RawStreamItem::Value(IonType::Integer));
    assert_eq!(reader.read_i64().unwrap(), 8);
}

#[test]
fn encoding_and_cardinality_read_their_symbols() {
    assert_eq!(Encoding::from_ion(&symbol_elem("any")).unwrap(), Encoding::Any);
    assert_eq!(Encoding::from_ion(&symbol_elem("other")).unwrap_err(), IonError::DecodingError);
    assert_eq!(Encoding::from_ion(&int_elem(1)).unwrap_err(), IonError::DecodingError);
    assert_eq!(Cardinality::from_ion(&symbol_elem("required")).unwrap(), Cardinality::Required);
    assert_eq!(Cardinality::from_ion(&symbol_elem("optional")).unwrap(), Cardinality::Optional);
    assert_eq!(Cardinality::from_ion(&symbol_elem("many")).unwrap(), Cardinality::Many);
    assert_eq!(
        Cardinality::from_ion(&symbol_elem("never")).unwrap_err(),
        IonError::DecodingError
    );
}
