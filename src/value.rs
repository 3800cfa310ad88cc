use vstd::prelude::*;

verus! {

/// The value held by a dynamic property.
///
/// The set of value types is closed; `Custom` carries a value of any other
/// type as bytes, tagged with the name of that type.
#[derive(Debug)]
pub enum PropertyValue {
    Bool(bool),
    Int(i64),
    UInt(u64),
    Char(char),
    Text(String),
    Custom(String, Vec<u8>),
}

/// The mathematical content of a `PropertyValue`.
pub enum ValueView {
    Bool(bool),
    Int(i64),
    UInt(u64),
    Char(char),
    Text(Seq<char>),
    Custom(Seq<char>, Seq<u8>),
}

/// The type of a value: what must stay the same when a property is set.
pub enum TypeTag {
    Bool,
    Int,
    UInt,
    Char,
    Text,
    Custom(Seq<char>),
}

impl ValueView {
    pub open spec fn type_tag(self) -> TypeTag {
        match self {
            ValueView::Bool(_) => TypeTag::Bool,
            ValueView::Int(_) => TypeTag::Int,
            ValueView::UInt(_) => TypeTag::UInt,
            ValueView::Char(_) => TypeTag::Char,
            ValueView::Text(_) => TypeTag::Text,
            ValueView::Custom(name, _) => TypeTag::Custom(name),
        }
    }
}

impl View for PropertyValue {
    type V = ValueView;

    open spec fn view(&self) -> ValueView {
        match self {
            PropertyValue::Bool(b) => ValueView::Bool(*b),
            PropertyValue::Int(i) => ValueView::Int(*i),
            PropertyValue::UInt(u) => ValueView::UInt(*u),
            PropertyValue::Char(c) => ValueView::Char(*c),
            PropertyValue::Text(s) => ValueView::Text(s@),
            PropertyValue::Custom(name, data) => ValueView::Custom(name@, data@),
        }
    }
}

fn copy_bytes(data: &Vec<u8>) -> (r: Vec<u8>)
    ensures
        r@ == data@,
{
    let mut r: Vec<u8> = Vec::new();
    let mut i: usize = 0;
    while i < data.len()
        invariant
            0 <= i <= data@.len(),
            r@ == data@.subrange(0, i as int),
        decreases data@.len() - i,
    {
        r.push(data[i]);
        i = i + 1;
    }
    assert(data@.subrange(0, data@.len() as int) =~= data@);
    r
}

impl PropertyValue {
    /// Whether `self` and `other` have the same type, so that one may replace
    /// the other in a property.
    pub fn same_type(&self, other: &PropertyValue) -> (r: bool)
        ensures
            r == (self@.type_tag() == other@.type_tag()),
    {
        match self {
            PropertyValue::Bool(_) => match other {
                PropertyValue::Bool(_) => true,
                _ => false,
            },
            PropertyValue::Int(_) => match other {
                PropertyValue::Int(_) => true,
                _ => false,
            },
            PropertyValue::UInt(_) => match other {
                PropertyValue::UInt(_) => true,
                _ => false,
            },
            PropertyValue::Char(_) => match other {
                PropertyValue::Char(_) => true,
                _ => false,
            },
            PropertyValue::Text(_) => match other {
                PropertyValue::Text(_) => true,
                _ => false,
            },
            PropertyValue::Custom(a, _) => match other {
                PropertyValue::Custom(b, _) => *a == *b,
                _ => false,
            },
        }
    }

    /// A copy of the value.
    pub fn duplicate(&self) -> (r: PropertyValue)
        ensures
            r@ == self@,
    {
        match self {
            PropertyValue::Bool(b) => PropertyValue::Bool(*b),
            PropertyValue::Int(i) => PropertyValue::Int(*i),
            PropertyValue::UInt(u) => PropertyValue::UInt(*u),
            PropertyValue::Char(c) => PropertyValue::Char(*c),
            PropertyValue::Text(s) => PropertyValue::Text(s.clone()),
            PropertyValue::Custom(name, data) => PropertyValue::Custom(name.clone(), copy_bytes(data)),
        }
    }
}

} // verus!
