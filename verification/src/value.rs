use crate::error::Error;
use vstd::prelude::*;

verus! {

/// A value as the database holds it.
#[derive(Debug, PartialEq, Eq)]
pub enum Value {
    Null,
    Integer(i64),
    /// A real number, carried as its IEEE-754 double-precision bit pattern.
    Real(u64),
    Text(String),
    Blob(Vec<u8>),
}

/// The mathematical value of a [`Value`].
pub enum ValueView {
    Null,
    Integer(int),
    Real(u64),
    Text(Seq<char>),
    Blob(Seq<u8>),
}

impl View for Value {
    type V = ValueView;

    open spec fn view(&self) -> ValueView {
        match *self {
            Value::Null => ValueView::Null,
            Value::Integer(i) => ValueView::Integer(i as int),
            Value::Real(bits) => ValueView::Real(bits),
            Value::Text(s) => ValueView::Text(s@),
            Value::Blob(b) => ValueView::Blob(b@),
        }
    }
}

/// The kind of value a column holds.
#[derive(Clone, Copy, Debug, PartialEq, Eq, Structural)]
pub enum ValueType {
    Integer,
    Real,
    Text,
    Blob,
    Null,
}

/// A value as the embedding script sees it.
#[derive(Debug, PartialEq, Eq)]
pub enum HostValue {
    /// The script's "no value".
    Nil,
    Integer(i64),
    /// A number, carried as its IEEE-754 double-precision bit pattern.
    Number(u64),
    Str(String),
    /// A sequence of bytes, one element each.
    Bytes(Vec<u8>),
}

/// The mathematical value of a [`HostValue`].
pub enum HostView {
    Nil,
    Integer(int),
    Number(u64),
    Str(Seq<char>),
    Bytes(Seq<u8>),
}

impl View for HostValue {
    type V = HostView;

    open spec fn view(&self) -> HostView {
        match *self {
            HostValue::Nil => HostView::Nil,
            HostValue::Integer(i) => HostView::Integer(i as int),
            HostValue::Number(bits) => HostView::Number(bits),
            HostValue::Str(s) => HostView::Str(s@),
            HostValue::Bytes(b) => HostView::Bytes(b@),
        }
    }
}

/// What a database value becomes on the script's side.
pub open spec fn host_of(v: ValueView) -> HostView {
    match v {
        ValueView::Null => HostView::Nil,
        ValueView::Integer(i) => HostView::Integer(i),
        ValueView::Real(bits) => HostView::Number(bits),
        ValueView::Text(s) => HostView::Str(s),
        ValueView::Blob(b) => HostView::Bytes(b),
    }
}

/// The kind of a database value.
pub open spec fn kind_of(v: ValueView) -> ValueType {
    match v {
        ValueView::Null => ValueType::Null,
        ValueView::Integer(_) => ValueType::Integer,
        ValueView::Real(_) => ValueType::Real,
        ValueView::Text(_) => ValueType::Text,
        ValueView::Blob(_) => ValueType::Blob,
    }
}

/// What a script value binds as when it stands at a parameter position:
/// its text if it is a string, nothing otherwise.
pub open spec fn parameter_of(h: HostView) -> Option<Seq<char>> {
    match h {
        HostView::Str(s) => Some(s),
        _ => None,
    }
}

impl Value {
    /// The kind of this value.
    pub fn kind(&self) -> (k: ValueType)
        ensures
            k == kind_of(self@),
    {
        match self {
            Value::Null => ValueType::Null,
            Value::Integer(_) => ValueType::Integer,
            Value::Real(_) => ValueType::Real,
            Value::Text(_) => ValueType::Text,
            Value::Blob(_) => ValueType::Blob,
        }
    }

    /// A copy of this value.
    pub fn duplicate(&self) -> (v: Value)
        ensures
            v@ == self@,
    {
        match self {
            Value::Null => Value::Null,
            Value::Integer(i) => Value::Integer(*i),
            Value::Real(bits) => Value::Real(*bits),
            Value::Text(s) => Value::Text(s.clone()),
            Value::Blob(b) => Value::Blob(b.clone()),
        }
    }
}

/// Converts a database value to the script's form. Every kind has an image,
/// and no two different values share one.
pub fn to_host(v: Value) -> (h: HostValue)
    ensures
        h@ == host_of(v@),
{
    match v {
        Value::Null => HostValue::Nil,
        Value::Integer(i) => HostValue::Integer(i),
        Value::Real(bits) => HostValue::Number(bits),
        Value::Text(s) => HostValue::Str(s),
        Value::Blob(b) => HostValue::Bytes(b),
    }
}

/// Converts a script value at a parameter position to what is bound to the
/// statement. Only strings can be bound; anything else is a type mismatch.
pub fn from_host(h: HostValue) -> (r: Result<String, Error>)
    ensures
        match parameter_of(h@) {
            Some(s) => r is Ok && r->Ok_0@ == s,
            None => r is Err && r->Err_0@ == crate::error::ErrorView::TypeMismatch,
        },
{
    match h {
        HostValue::Str(s) => Ok(s),
        _ => Err(Error::TypeMismatch),
    }
}

/// The name under which a kind of value is known to scripts.
pub open spec fn kind_name(t: ValueType) -> Seq<char> {
    match t {
        ValueType::Integer => "integer"@,
        ValueType::Real => "real"@,
        ValueType::Text => "text"@,
        ValueType::Blob => "blob"@,
        ValueType::Null => "null"@,
    }
}

impl ValueType {
    /// The name under which this kind is known to scripts.
    pub fn name(&self) -> (n: &'static str)
        ensures
            n@ == kind_name(*self),
    {
        match self {
            ValueType::Integer => "integer",
            ValueType::Real => "real",
            ValueType::Text => "text",
            ValueType::Blob => "blob",
            ValueType::Null => "null",
        }
    }
}

/// Whether every one of the script values can be bound as a parameter.
pub open spec fn all_bindable(params: Seq<HostView>) -> bool {
    forall|i: int| 0 <= i < params.len() ==> (#[trigger] parameter_of(params[i])) is Some
}

/// The texts that a list of bindable script values binds as, in order.
pub open spec fn bound_texts(params: Seq<HostView>) -> Seq<Seq<char>> {
    Seq::new(params.len(), |i: int| parameter_of(params[i]).unwrap())
}

/// The views of a list of script values, place for place.
pub open spec fn host_views(params: Seq<HostValue>) -> Seq<HostView> {
    Seq::new(params.len(), |i: int| params[i]@)
}

/// The views of a list of strings, place for place.
pub open spec fn texts(strings: Seq<String>) -> Seq<Seq<char>> {
    Seq::new(strings.len(), |i: int| strings[i]@)
}

/// Converts the positional parameters of a statement. If every one is a
/// string, they are bound in order; if any is not, the whole list is refused
/// as a type mismatch and nothing is bound.
pub fn bind_parameters(params: &Vec<HostValue>) -> (r: Result<Vec<String>, Error>)
    ensures
        all_bindable(host_views(params@)) ==> r is Ok && texts(r->Ok_0@) == bound_texts(
            host_views(params@),
        ),
        !all_bindable(host_views(params@)) ==> r is Err && r->Err_0@
            == crate::error::ErrorView::TypeMismatch,
{
    let mut bound: Vec<String> = Vec::new();
    let mut i: usize = 0;
    while i < params.len()
        invariant
            i <= params.len(),
            bound.len() == i,
            forall|j: int| 0 <= j < i ==> (#[trigger] parameter_of(host_views(params@)[j])) is Some,
            forall|j: int|
                0 <= j < i ==> (#[trigger] bound[j])@ == parameter_of(params[j]@).unwrap(),
        decreases params.len() - i,
    {
        match &params[i] {
            HostValue::Str(s) => {
                bound.push(s.clone());
            },
            _ => {
                proof {
                    assert(parameter_of(host_views(params@)[i as int]) is None);
                }
                return Err(Error::TypeMismatch);
            },
        }
        i = i + 1;
    }
    proof {
        assert(texts(bound@) =~= bound_texts(host_views(params@)));
    }
    Ok(bound)
}

} // verus!
