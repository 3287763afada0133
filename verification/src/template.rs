//! Template definitions read out of documents: a named body with a list of
//! parameters, each parameter carrying an encoding and a cardinality. A
//! definition is one struct-shaped document node; reading it back validates
//! the shape and fails with a `DecodingError` on anything malformed.

use vstd::prelude::*;

use crate::element::{Element, Field, Sequence, Struct, Value};
use crate::result::{IonError, IonResult};

verus! {

/// How a parameter's arguments are encoded.
#[derive(Clone, Copy, Debug, PartialEq, Eq, Structural)]
pub enum Encoding {
    Any,
}

/// How many arguments a parameter accepts.
#[derive(Clone, Copy, Debug, PartialEq, Eq, Structural)]
pub enum Cardinality {
    Required,
    Optional,
    Many,
}

/// One template parameter: a name, an encoding, and a cardinality.
#[derive(Debug)]
pub struct Parameter {
    name: String,
    encoding: Encoding,
    cardinality: Cardinality,
}

/// The abstract shape of a [`Parameter`].
#[verifier::ext_equal]
pub ghost struct ParameterV {
    pub name: Seq<char>,
    pub encoding: Encoding,
    pub cardinality: Cardinality,
}

impl View for Parameter {
    type V = ParameterV;

    closed spec fn view(&self) -> ParameterV {
        ParameterV { name: self.name@, encoding: self.encoding, cardinality: self.cardinality }
    }
}

/// One template definition: its name, its parameters in order, and its body
/// expression.
#[derive(Debug)]
pub struct Template {
    pub(crate) name: String,
    pub(crate) parameters: Vec<Parameter>,
    pub(crate) body: Element,
}

/// The abstract shape of a [`Template`].
#[verifier::ext_equal]
pub ghost struct TemplateV {
    pub name: Seq<char>,
    pub parameters: Seq<ParameterV>,
    pub body: Element,
}

impl View for Template {
    type V = TemplateV;

    closed spec fn view(&self) -> TemplateV {
        TemplateV {
            name: self.name@,
            parameters: self.parameters@.map_values(|p: Parameter| p@),
            body: self.body,
        }
    }
}

/// The text a node carries when it is a string or a symbol.
pub open spec fn element_text(e: Element) -> Option<Seq<char>> {
    match e.value {
        Value::String(s) => Some(s@),
        Value::Symbol(sym) => Some(sym@),
        _ => None,
    }
}

/// The encoding a text names, if any.
pub open spec fn encoding_spec(text: Seq<char>) -> Option<Encoding> {
    if text == "any"@ {
        Some(Encoding::Any)
    } else {
        None
    }
}

/// The cardinality a text names, if any.
pub open spec fn cardinality_spec(text: Seq<char>) -> Option<Cardinality> {
    if text == "required"@ {
        Some(Cardinality::Required)
    } else if text == "optional"@ {
        Some(Cardinality::Optional)
    } else if text == "many"@ {
        Some(Cardinality::Many)
    } else {
        None
    }
}

/// The text of the first field named `name` in a struct-shaped node, when
/// that node is a struct, the field is present and its value is text.
pub open spec fn field_text(st: Struct, name: Seq<char>) -> Option<Seq<char>> {
    match Struct::first_match(st.fields@, name) {
        Some(e) => element_text(e),
        None => None,
    }
}

/// The parameter a node describes: a struct with a text `name`, an
/// `encoding` naming an encoding, and a `cardinality` naming a cardinality.
pub open spec fn parameter_spec(e: Element) -> Option<ParameterV> {
    match e.value {
        Value::Struct(st) => match field_text(st, "name"@) {
            Some(name) => match field_text(st, "encoding"@) {
                Some(enc_text) => match encoding_spec(enc_text) {
                    Some(encoding) => match field_text(st, "cardinality"@) {
                        Some(card_text) => match cardinality_spec(card_text) {
                            Some(cardinality) => Some(
                                ParameterV { name, encoding, cardinality },
                            ),
                            None => None,
                        },
                        None => None,
                    },
                    None => None,
                },
                None => None,
            },
            None => None,
        },
        _ => None,
    }
}

/// The template a node describes: a struct with a text `name`, a
/// `parameters` sequence whose children all describe parameters, and a
/// `body` expression.
pub open spec fn template_spec(e: Element) -> Option<TemplateV> {
    match e.value {
        Value::Struct(st) => match field_text(st, "name"@) {
            Some(name) => match Struct::first_match(st.fields@, "parameters"@) {
                Some(params_elem) => match params_elem.value {
                    Value::List(s) => template_spec_with(st, name, s),
                    Value::SExp(s) => template_spec_with(st, name, s),
                    _ => None,
                },
                None => None,
            },
            None => None,
        },
        _ => None,
    }
}

/// The template described by a struct whose name and parameter children are
/// already in hand.
pub open spec fn template_spec_with(st: Struct, name: Seq<char>, params: Sequence) -> Option<
    TemplateV,
> {
    if forall|i: int|
        0 <= i < params.elements@.len() ==> #[trigger] parameter_spec(params.elements@[i])
            is Some {
        match Struct::first_match(st.fields@, "body"@) {
            Some(body) => Some(
                TemplateV {
                    name,
                    parameters: params.elements@.map_values(
                        |c: Element| parameter_spec(c)->0,
                    ),
                    body,
                },
            ),
            None => None,
        }
    } else {
        None
    }
}

/// Finds the first field with the given name, reporting its position.
fn find_field<'a>(fields: &'a Vec<Field>, name: &String) -> (r: Option<&'a Element>)
    ensures
        match Struct::first_match(fields@, name@) {
            Some(e) => r is Some && *(r->0) == e,
            None => r is None,
        },
{
    let n = fields.len();
    let mut i: usize = 0;
    proof {
        assert(fields@.skip(0) =~= fields@);
    }
    while i < n
        invariant
            i <= n,
            n == fields@.len(),
            Struct::first_match(fields@, name@) == Struct::first_match(
                fields@.skip(i as int),
                name@,
            ),
        decreases n - i,
    {
        let ghost rest = fields@.skip(i as int);
        proof {
            assert(rest[0] == fields@[i as int]);
            assert(rest.drop_first() =~= fields@.skip(i as int + 1));
        }
        if *fields[i].name.text() == *name {
            proof {
                assert(Struct::first_match(rest, name@) == Some(rest[0].value));
            }
            return Some(&fields[i].value);
        }
        proof {
            assert(Struct::first_match(rest, name@) == Struct::first_match(
                rest.drop_first(),
                name@,
            ));
        }
        i = i + 1;
    }
    proof {
        assert(fields@.skip(i as int).len() == 0);
    }
    None
}

impl Encoding {
    /// Reads an encoding out of a text node; anything else fails with a
    /// `DecodingError`.
    pub fn from_ion(element: &Element) -> (r: IonResult<Encoding>)
        ensures
            match element_text(*element) {
                Some(text) => match encoding_spec(text) {
                    Some(enc) => r == Ok::<Encoding, IonError>(enc),
                    None => r == Err::<Encoding, IonError>(IonError::DecodingError),
                },
                None => r == Err::<Encoding, IonError>(IonError::DecodingError),
            },
    {
        let text = match element.as_str() {
            Some(t) => t,
            None => {
                return Err(IonError::DecodingError);
            },
        };
        if *text == "any".to_owned() {
            Ok(Encoding::Any)
        } else {
            Err(IonError::DecodingError)
        }
    }
}

impl Cardinality {
    /// Reads a cardinality out of a text node; anything else fails with a
    /// `DecodingError`.
    pub fn from_ion(element: &Element) -> (r: IonResult<Cardinality>)
        ensures
            match element_text(*element) {
                Some(text) => match cardinality_spec(text) {
                    Some(card) => r == Ok::<Cardinality, IonError>(card),
                    None => r == Err::<Cardinality, IonError>(IonError::DecodingError),
                },
                None => r == Err::<Cardinality, IonError>(IonError::DecodingError),
            },
    {
        let text = match element.as_str() {
            Some(t) => t,
            None => {
                return Err(IonError::DecodingError);
            },
        };
        if *text == "required".to_owned() {
            Ok(Cardinality::Required)
        } else if *text == "optional".to_owned() {
            Ok(Cardinality::Optional)
        } else if *text == "many".to_owned() {
            Ok(Cardinality::Many)
        } else {
            Err(IonError::DecodingError)
        }
    }
}

impl Parameter {
    /// Reads a parameter definition out of a struct-shaped node; a missing
    /// or ill-typed part fails with a `DecodingError`.
    pub fn from_ion(element: &Element) -> (r: IonResult<Parameter>)
        ensures
            match parameter_spec(*element) {
                Some(pv) => r is Ok && r->Ok_0@ == pv,
                None => r == Err::<Parameter, IonError>(IonError::DecodingError),
            },
    {
        let parameter_struct = match element.as_struct() {
            Some(s) => s,
            None => {
                return Err(IonError::DecodingError);
            },
        };
        let name = match find_field(&parameter_struct.fields, &"name".to_owned()) {
            Some(e) => match e.as_str() {
                Some(text) => text.clone(),
                None => {
                    return Err(IonError::DecodingError);
                },
            },
            None => {
                return Err(IonError::DecodingError);
            },
        };
        let encoding_elem = match find_field(&parameter_struct.fields, &"encoding".to_owned()) {
            Some(e) => e,
            None => {
                return Err(IonError::DecodingError);
            },
        };
        let encoding = match Encoding::from_ion(encoding_elem) {
            Ok(enc) => enc,
            Err(e) => {
                return Err(e);
            },
        };
        let cardinality_elem = match find_field(
            &parameter_struct.fields,
            &"cardinality".to_owned(),
        ) {
            Some(e) => e,
            None => {
                return Err(IonError::DecodingError);
            },
        };
        let cardinality = match Cardinality::from_ion(cardinality_elem) {
            Ok(card) => card,
            Err(e) => {
                return Err(e);
            },
        };
        Ok(Parameter { name, encoding, cardinality })
    }

    pub fn name(&self) -> (r: &str)
        ensures
            r@ == self@.name,
    {
        self.name.as_str()
    }

    pub fn encoding(&self) -> (r: &Encoding)
        ensures
            *r == self@.encoding,
    {
        &self.encoding
    }

    pub fn cardinality(&self) -> (r: &Cardinality)
        ensures
            *r == self@.cardinality,
    {
        &self.cardinality
    }
}

impl Template {
    /// Reads a template definition out of a struct-shaped node: its text
    /// `name`, its `parameters` sequence read parameter by parameter, and
    /// its `body` expression, which the template takes over. A missing or
    /// ill-shaped part fails with a `DecodingError`.
    pub fn from_ion(element: Element) -> (r: IonResult<Template>)
        ensures
            match template_spec(element) {
                Some(tv) => r is Ok && r->Ok_0@ == tv,
                None => r == Err::<Template, IonError>(IonError::DecodingError),
            },
    {
        let ghost orig = element;
        let template_struct = match element.value {
            Value::Struct(st) => st,
            _ => {
                return Err(IonError::DecodingError);
            },
        };
        let ghost stv = template_struct;
        let name = match find_field(&template_struct.fields, &"name".to_owned()) {
            Some(e) => match e.as_str() {
                Some(text) => text.clone(),
                None => {
                    return Err(IonError::DecodingError);
                },
            },
            None => {
                return Err(IonError::DecodingError);
            },
        };
        let params_seq = match find_field(&template_struct.fields, &"parameters".to_owned()) {
            Some(e) => match e.as_sequence() {
                Some(s) => s,
                None => {
                    return Err(IonError::DecodingError);
                },
            },
            None => {
                return Err(IonError::DecodingError);
            },
        };
        let mut parameters: Vec<Parameter> = Vec::new();
        let n = params_seq.elements.len();
        let mut i: usize = 0;
        while i < n
            invariant
                i <= n,
                n == params_seq.elements@.len(),
                orig == element,
                orig.value == Value::Struct(stv),
                field_text(stv, "name"@) == Some(name@),
                ({
                    let pm = Struct::first_match(stv.fields@, "parameters"@);
                    pm is Some && (pm->0.value == Value::List(*params_seq) || pm->0.value
                        == Value::SExp(*params_seq))
                }),
                forall|k: int| 0 <= k < i ==> #[trigger] parameter_spec(
                    params_seq.elements@[k],
                ) is Some,
                parameters@.len() == i,
                forall|k: int| 0 <= k < i ==> #[trigger] parameters@[k]@ == parameter_spec(
                    params_seq.elements@[k],
                )->0,
            decreases n - i,
        {
            let p = match Parameter::from_ion(&params_seq.elements[i]) {
                Ok(p) => p,
                Err(e) => {
                    proof {
                        assert(orig.value->Struct_0 == stv);
                        assert(field_text(stv, "name"@) == Some(name@));
                        assert(parameter_spec(params_seq.elements@[i as int]) is None);
                        assert(template_spec_with(stv, name@, *params_seq) is None);
                        assert(template_spec(orig) is None);
                    }
                    return Err(e);
                },
            };
            parameters.push(p);
            i = i + 1;
        }
        let ghost psv = *params_seq;
        let ghost namev = name@;
        let ghost paramsv = parameters@;
        let body = match take_field(template_struct, &"body".to_owned()) {
            Some(b) => b,
            None => {
                proof {
                    assert(orig.value->Struct_0 == stv);
                    assert(field_text(stv, "name"@) == Some(namev));
                    assert(template_spec(orig) == template_spec_with(stv, namev, psv));
                }
                return Err(IonError::DecodingError);
            },
        };
        let result = Template { name, parameters, body };
        proof {
            assert(orig.value->Struct_0 == stv);
            assert(field_text(stv, "name"@) == Some(namev));
            assert(template_spec(orig) == template_spec_with(stv, namev, psv));
            let tv = template_spec(orig)->0;
            assert forall|k: int| 0 <= k < result@.parameters.len() implies result@.parameters[k]
                == tv.parameters[k] by {
                assert(result@.parameters[k] == paramsv[k]@);
                assert(tv.parameters[k] == parameter_spec(psv.elements@[k])->0);
            }
            assert(result@.parameters =~= tv.parameters);
            assert(result@ =~= tv);
        }
        Ok(result)
    }

    pub fn name(&self) -> (r: &str)
        ensures
            r@ == self@.name,
    {
        self.name.as_str()
    }

    pub fn parameters(&self) -> (r: &Vec<Parameter>)
        ensures
            r@.map_values(|p: Parameter| p@) == self@.parameters,
    {
        &self.parameters
    }

    /// The first parameter with the given name, if any.
    pub fn get_parameter(&self, name: &str) -> (r: Option<&Parameter>)
        ensures
            match param_match(self@.parameters, name@) {
                Some(pv) => r is Some && (r->0)@ == pv,
                None => r is None,
            },
    {
        let name_text: String = name.to_owned();
        let n = self.parameters.len();
        let ghost params = self@.parameters;
        let mut i: usize = 0;
        proof {
            assert(params.skip(0) =~= params);
        }
        while i < n
            invariant
                i <= n,
                n == self.parameters@.len(),
                params == self@.parameters,
                name_text@ == name@,
                param_match(params, name@) == param_match(params.skip(i as int), name@),
            decreases n - i,
        {
            let ghost rest = params.skip(i as int);
            proof {
                assert(rest[0] == params[i as int]);
                assert(rest.drop_first() =~= params.skip(i as int + 1));
            }
            if self.parameters[i].name == name_text {
                return Some(&self.parameters[i]);
            }
            i = i + 1;
        }
        proof {
            assert(params.skip(i as int).len() == 0);
        }
        None
    }

    pub fn body(&self) -> (r: &Element)
        ensures
            *r == self@.body,
    {
        &self.body
    }
}

/// The first parameter shape whose name reads `name`.
pub open spec fn param_match(params: Seq<ParameterV>, name: Seq<char>) -> Option<ParameterV>
    decreases params.len(),
{
    if params.len() == 0 {
        None
    } else if params[0].name == name {
        Some(params[0])
    } else {
        param_match(params.drop_first(), name)
    }
}

/// Takes the value of the first field with the given name out of a struct.
fn take_field(st: Struct, name: &String) -> (r: Option<Element>)
    ensures
        r == Struct::first_match(st.fields@, name@),
{
    let ghost all = st.fields@;
    let mut rest = st.fields;
    proof {
        assert(all.skip(0) =~= all);
        vstd::std_specs::vec::axiom_spec_len(&rest);
    }
    let mut i: usize = 0;
    while rest.len() > 0
        invariant
            all == st.fields@,
            rest@ == all.skip(i as int),
            i <= all.len(),
            all.len() <= usize::MAX,
            Struct::first_match(all, name@) == Struct::first_match(rest@, name@),
        decreases rest@.len(),
    {
        let ghost here = all.skip(i as int);
        proof {
            assert(here[0] == all[i as int]);
            assert(here.drop_first() =~= all.skip(i as int + 1));
        }
        let f = rest.remove(0);
        proof {
            assert(f == here[0]);
            assert(rest@ =~= all.skip(i as int + 1));
        }
        if *f.name.text() == *name {
            proof {
                assert(here[0].name@ == name@);
                assert(Struct::first_match(here, name@) == Some(here[0].value));
                assert(Struct::first_match(all, name@) == Some(f.value));
            }
            return Some(f.value);
        }
        proof {
            assert(Struct::first_match(here, name@) == Struct::first_match(
                here.drop_first(),
                name@,
            ));
        }
        i = i + 1;
    }
    proof {
        assert(Struct::first_match(rest@, name@) is None);
    }
    None
}

} // verus!
