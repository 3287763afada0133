use ion_cursor::element::{Element, Field, Sequence, Struct, Value};
use ion_cursor::raw_element_reader::{next_type, RawElementReader};
use ion_cursor::types::{Int, IonType, RawStreamItem, Symbol};

fn int_elem(i: i64) -> Element {
    Element::of(Value::Int(Int::I64(i)))
}

fn bool_elem(b: bool) -> Element {
    Element::of(Value::Bool(b))
}

fn list_elem(children: Vec<Element>) -> Element {
    Element::of(Value::List(Sequence::new(children)))
}

fn sexp_elem(children: Vec<Element>) -> Element {
    Element::of(Value::SExp(Sequence::new(children)))
}

fn field(name: &str, value: Element) -> Field {
    Field::new(Symbol::owned(name.to_string()), value)
}

fn struct_elem(fields: Vec<Field>) -> Element {
    Element::of(Value::Struct(Struct::new(fields)))
}

fn expect_next(reader: &mut RawElementReader, ion_type: IonType, is_null: bool) {
    assert!(next_type(reader, ion_type, is_null));
}

#[test]
fn test_skipping_containers() {
    // [1, 2, 3]
    let ion_data = list_elem(vec![int_elem(1), int_elem(2), int_elem(3)]);
    let reader = &mut RawElementReader::new(ion_data);

    expect_next(reader, IonType::List, false);
    reader.step_in().unwrap();
    expect_next(reader, IonType::Integer, false);
    assert_eq!(reader.read_i64().unwrap(), 1);
    reader.step_out().unwrap();
    // This should skip 2, 3 and reach end of the element.
    // Asking for next here should result in `Nothing`.
    assert_eq!(reader.next().unwrap(), RawStreamItem::Nothing);
}

#[test]
fn test_read_nested_containers() {
    // {
    //     foo: [1, [2, 3], 4],
    //     bar: {a: 5, b: (true true true)}
    // }
    let ion_data = struct_elem(vec![
        field(
            "foo",
            list_elem(vec![
                int_elem(1),
                list_elem(vec![int_elem(2), int_elem(3)]),
                int_elem(4),
            ]),
        ),
        field(
            "bar",
            struct_elem(vec![
                field("a", int_elem(5)),
                field("b", sexp_elem(vec![bool_elem(true), bool_elem(true), bool_elem(true)])),
            ]),
        ),
    ]);
    let reader = &mut RawElementReader::new(ion_data);
    expect_next(reader, IonType::Struct, false);
    reader.step_in().unwrap();
    expect_next(reader, IonType::List, false);
    reader.step_in().unwrap();
    expect_next(reader, IonType::Integer, false);
    expect_next(reader, IonType::List, false);
    reader.step_in().unwrap();
    expect_next(reader, IonType::Integer, false);
    // The reader is now at the '2' nested inside of 'foo'
    reader.step_out().unwrap();
    reader.step_out().unwrap();
    expect_next(reader, IonType::Struct, false);
    reader.step_in().unwrap();
    expect_next(reader, IonType::Integer, false);
    expect_next(reader, IonType::SExpression, false);
    reader.step_in().unwrap();
    expect_next(reader, IonType::Boolean, false);
    expect_next(reader, IonType::Boolean, false);
    // The reader is now at the second 'true' in the s-expression nested in 'bar'/'b'
    reader.step_out().unwrap();
    reader.step_out().unwrap();
    reader.step_out().unwrap();
}

#[test]
fn test_read_container_with_mixed_scalars_and_containers() {
    // {
    //     foo: 4,
    //     bar: {a: 5, b: (true true true)}
    // }
    let ion_data = struct_elem(vec![
        field("foo", int_elem(4)),
        field(
            "bar",
            struct_elem(vec![
                field("a", int_elem(5)),
                field("b", sexp_elem(vec![bool_elem(true), bool_elem(true), bool_elem(true)])),
            ]),
        ),
    ]);

    let reader = &mut RawElementReader::new(ion_data);
    expect_next(reader, IonType::Struct, false);
    reader.step_in().unwrap();
    expect_next(reader, IonType::Integer, false);
    assert_eq!(reader.field_name().unwrap(), Symbol::owned("foo".to_string()));
    expect_next(reader, IonType::Struct, false);
    assert_eq!(reader.field_name().unwrap(), Symbol::owned("bar".to_string()));
    reader.step_in().unwrap();
    expect_next(reader, IonType::Integer, false);
    assert_eq!(reader.read_i64().unwrap(), 5);
    reader.step_out().unwrap();
    assert_eq!(reader.next().unwrap(), RawStreamItem::Nothing);
    reader.step_out().unwrap();
}

#[test]
fn structs_trailing_comma() {
    // (
    //     {a:1, b:2,}     // with trailing comma
    //     {a:1, b:2 }     // without trailing comma
    // )
    let pretty_ion = sexp_elem(vec![
        struct_elem(vec![field("a", int_elem(1)), field("b", int_elem(2))]),
        struct_elem(vec![field("a", int_elem(1)), field("b", int_elem(2))]),
    ]);
    let mut reader = RawElementReader::new(pretty_ion);
    assert_eq!(reader.next().unwrap(), RawStreamItem::Value(IonType::SExpression));
    reader.step_in().unwrap();
    assert_eq!(reader.next().unwrap(), RawStreamItem::Value(IonType::Struct));

    reader.step_in().unwrap();
    assert_eq!(reader.next().unwrap(), RawStreamItem::Value(IonType::Integer));
    assert_eq!(reader.field_name().unwrap(), Symbol::owned("a".to_string()));
    assert_eq!(reader.read_i64().unwrap(), 1);
    assert_eq!(reader.next().unwrap(), RawStreamItem::Value(IonType::Integer));
    assert_eq!(reader.field_name().unwrap(), Symbol::owned("b".to_string()));
    assert_eq!(reader.read_i64().unwrap(), 2);
    reader.step_out().unwrap();

    assert_eq!(reader.next().unwrap(), RawStreamItem::Value(IonType::Struct));
    reader.step_out().unwrap();
}

#[test]
fn scenario_walks_nested_document_with_field_names_and_depths() {
    // {foo: [1, [2, 3], 4], bar: {a: 5, b: (true true true)}}
    let doc = struct_elem(vec![
        field(
            "foo",
            list_elem(vec![
                int_elem(1),
                list_elem(vec![int_elem(2), int_elem(3)]),
                int_elem(4),
            ]),
        ),
        field(
            "bar",
            struct_elem(vec![
                field("a", int_elem(5)),
                field("b", sexp_elem(vec![bool_elem(true), bool_elem(true), bool_elem(true)])),
            ]),
        ),
    ]);
    let reader = &mut RawElementReader::new(doc);
    assert_eq!(reader.depth(), 0);
    assert_eq!(reader.next().unwrap(), RawStreamItem::Value(IonType::Struct));
    reader.step_in().unwrap();
    assert_eq!(reader.depth(), 1);
    assert_eq!(reader.next().unwrap(), RawStreamItem::Value(IonType::List));
    assert_eq!(reader.field_name().unwrap(), Symbol::owned("foo".to_string()));
    reader.step_in().unwrap();
    assert_eq!(reader.depth(), 2);
    assert_eq!(reader.next().unwrap(), RawStreamItem::Value(IonType::Integer));
    assert_eq!(reader.read_i64().unwrap(), 1);
    assert_eq!(reader.next().unwrap(), RawStreamItem::Value(IonType::List));
    reader.step_in().unwrap();
    assert_eq!(reader.depth(), 3);
    assert_eq!(reader.next().unwrap(), RawStreamItem::Value(IonType::Integer));
    assert_eq!(reader.read_i64().unwrap(), 2);
    // Stepping out drains the remaining "3".
    reader.step_out().unwrap();
    assert_eq!(reader.depth(), 2);
    // Returns to the struct level; "foo" is fully consumed.
    reader.step_out().unwrap();
    assert_eq!(reader.depth(), 1);
    assert_eq!(reader.next().unwrap(), RawStreamItem::Value(IonType::Struct));
    assert_eq!(reader.field_name().unwrap(), Symbol::owned("bar".to_string()));
    reader.step_in().unwrap();
    assert_eq!(reader.next().unwrap(), RawStreamItem::Value(IonType::Integer));
    assert_eq!(reader.field_name().unwrap(), Symbol::owned("a".to_string()));
    assert_eq!(reader.next().unwrap(), RawStreamItem::Value(IonType::SExpression));
    assert_eq!(reader.field_name().unwrap(), Symbol::owned("b".to_string()));
    reader.step_in().unwrap();
    assert_eq!(reader.next().unwrap(), RawStreamItem::Value(IonType::Boolean));
    assert!(reader.read_bool().unwrap());
    // Three step-outs reach depth 0.
    reader.step_out().unwrap();
    reader.step_out().unwrap();
    reader.step_out().unwrap();
    assert_eq!(reader.depth(), 0);
    assert_eq!(reader.next().unwrap(), RawStreamItem::Nothing);
}

#[test]
fn next_type_reports_a_mismatch() {
    let mut reader = RawElementReader::new(int_elem(1));
    assert!(!next_type(&mut reader, IonType::Boolean, false));
    let mut reader2 = RawElementReader::new(int_elem(1));
    assert!(!next_type(&mut reader2, IonType::Integer, true));
    let mut reader3 = RawElementReader::new(int_elem(1));
    assert!(next_type(&mut reader3, IonType::Integer, false));
}

#[test]
fn scenario_list_of_three_reads_first_and_autodrains() {
    // [1, 2, 3]
    let doc = list_elem(vec![int_elem(1), int_elem(2), int_elem(3)]);
    let reader = &mut RawElementReader::new(doc);
    assert_eq!(reader.next().unwrap(), RawStreamItem::Value(IonType::List));
    reader.step_in().unwrap();
    assert_eq!(reader.next().unwrap(), RawStreamItem::Value(IonType::Integer));
    assert_eq!(reader.read_i64().unwrap(), 1);
    // Stepping out auto-drains 2 and 3.
    reader.step_out().unwrap();
    assert_eq!(reader.next().unwrap(), RawStreamItem::Nothing);
}
