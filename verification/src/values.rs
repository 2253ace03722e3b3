//! Plain values stored on holons: strings, names and the scalar `BaseValue` family.
use vstd::prelude::*;
use vstd::string::*;

verus! {

/// A string payload used for names, keys and textual property values.
#[derive(Clone, Debug, PartialEq, Eq)]
pub struct MapString(pub String);

impl View for MapString {
    type V = Seq<char>;

    open spec fn view(&self) -> Seq<char> {
        self.0@
    }
}

impl DeepView for MapString {
    type V = Seq<char>;

    open spec fn deep_view(&self) -> Seq<char> {
        self.0@
    }
}

impl MapString {
    /// Builds a string value from a literal.
    pub fn from_str(s: &str) -> (r: MapString)
        ensures
            r@ == s@,
    {
        MapString(String::from_str(s))
    }

    /// Returns an independent copy with the same characters.
    pub fn duplicate(&self) -> (r: MapString)
        ensures
            r@ == self@,
    {
        MapString(self.0.clone())
    }

    /// Character-wise equality.
    pub fn equals(&self, other: &MapString) -> (r: bool)
        ensures
            r == (self@ == other@),
    {
        self.0 == other.0
    }

    /// Returns a copy of the underlying `String`.
    pub fn to_owned_string(&self) -> (r: String)
        ensures
            r@ == self@,
    {
        self.0.clone()
    }
}

/// The name of a property slot on a holon.
#[derive(Clone, Debug, PartialEq, Eq)]
pub struct PropertyName(pub MapString);

impl View for PropertyName {
    type V = Seq<char>;

    open spec fn view(&self) -> Seq<char> {
        self.0@
    }
}

impl DeepView for PropertyName {
    type V = Seq<char>;

    open spec fn deep_view(&self) -> Seq<char> {
        self.0@
    }
}

impl PropertyName {
    /// Builds a property name from a literal.
    pub fn from_str(s: &str) -> (r: PropertyName)
        ensures
            r@ == s@,
    {
        PropertyName(MapString::from_str(s))
    }

    /// Character-wise equality.
    pub fn equals(&self, other: &PropertyName) -> (r: bool)
        ensures
            r == (self@ == other@),
    {
        self.0.equals(&other.0)
    }
}

/// The name of a relationship slot on a holon.
#[derive(Clone, Debug, PartialEq, Eq)]
pub struct RelationshipName(pub MapString);

impl View for RelationshipName {
    type V = Seq<char>;

    open spec fn view(&self) -> Seq<char> {
        self.0@
    }
}

impl DeepView for RelationshipName {
    type V = Seq<char>;

    open spec fn deep_view(&self) -> Seq<char> {
        self.0@
    }
}

impl RelationshipName {
    /// Builds a relationship name from a literal.
    pub fn from_str(s: &str) -> (r: RelationshipName)
        ensures
            r@ == s@,
    {
        RelationshipName(MapString::from_str(s))
    }

    /// Character-wise equality.
    pub fn equals(&self, other: &RelationshipName) -> (r: bool)
        ensures
            r == (self@ == other@),
    {
        self.0.equals(&other.0)
    }

    /// Returns an independent copy.
    pub fn duplicate(&self) -> (r: RelationshipName)
        ensures
            r@ == self@,
    {
        RelationshipName(self.0.duplicate())
    }
}

#[derive(Clone, Copy, Debug, PartialEq, Eq, Structural)]
pub struct MapBoolean(pub bool);

#[derive(Clone, Copy, Debug, PartialEq, Eq, Structural)]
pub struct MapInteger(pub i64);

#[derive(Clone, Debug, PartialEq, Eq)]
pub struct MapEnumValue(pub MapString);

#[derive(Clone, Debug, PartialEq, Eq)]
pub struct MapBytes(pub Vec<u8>);

/// A scalar runtime value.
#[derive(Clone, Debug, PartialEq, Eq)]
pub enum BaseValue {
    StringValue(MapString),
    BooleanValue(MapBoolean),
    IntegerValue(MapInteger),
    EnumValue(MapEnumValue),
    BytesValue(MapBytes),
}

/// The mathematical content of a `BaseValue`.
pub enum BaseValueView {
    StringValue(Seq<char>),
    BooleanValue(bool),
    IntegerValue(i64),
    EnumValue(Seq<char>),
    BytesValue(Seq<u8>),
}

/// The five native scalar representations.
#[derive(Clone, Copy, Debug, PartialEq, Eq, Structural)]
pub enum BaseValueKind {
    String,
    Boolean,
    Integer,
    Enum,
    Bytes,
}

impl View for BaseValue {
    type V = BaseValueView;

    open spec fn view(&self) -> BaseValueView {
        match self {
            BaseValue::StringValue(s) => BaseValueView::StringValue(s@),
            BaseValue::BooleanValue(b) => BaseValueView::BooleanValue(b.0),
            BaseValue::IntegerValue(i) => BaseValueView::IntegerValue(i.0),
            BaseValue::EnumValue(e) => BaseValueView::EnumValue(e.0@),
            BaseValue::BytesValue(b) => BaseValueView::BytesValue(b.0@),
        }
    }
}

impl DeepView for BaseValue {
    type V = BaseValueView;

    open spec fn deep_view(&self) -> BaseValueView {
        self@
    }
}

impl BaseValueView {
    /// The native representation of a value.
    pub open spec fn kind(self) -> BaseValueKind {
        match self {
            BaseValueView::StringValue(_) => BaseValueKind::String,
            BaseValueView::BooleanValue(_) => BaseValueKind::Boolean,
            BaseValueView::IntegerValue(_) => BaseValueKind::Integer,
            BaseValueView::EnumValue(_) => BaseValueKind::Enum,
            BaseValueView::BytesValue(_) => BaseValueKind::Bytes,
        }
    }
}

/// The short label of a value kind, as used in diagnostics.
pub open spec fn kind_label(kind: BaseValueKind) -> Seq<char> {
    match kind {
        BaseValueKind::String => "String"@,
        BaseValueKind::Boolean => "Boolean"@,
        BaseValueKind::Integer => "Integer"@,
        BaseValueKind::Enum => "Enum"@,
        BaseValueKind::Bytes => "Bytes"@,
    }
}

impl BaseValueKind {
    /// Returns the diagnostic label of this kind.
    pub fn label(&self) -> (r: String)
        ensures
            r@ == kind_label(*self),
    {
        match self {
            BaseValueKind::String => String::from_str("String"),
            BaseValueKind::Boolean => String::from_str("Boolean"),
            BaseValueKind::Integer => String::from_str("Integer"),
            BaseValueKind::Enum => String::from_str("Enum"),
            BaseValueKind::Bytes => String::from_str("Bytes"),
        }
    }
}

fn copy_bytes(bytes: &Vec<u8>) -> (r: Vec<u8>)
    ensures
        r@ == bytes@,
{
    let mut out: Vec<u8> = Vec::new();
    let mut i: usize = 0;
    while i < bytes.len()
        invariant
            i <= bytes.len(),
            out@ == bytes@.subrange(0, i as int),
        decreases bytes.len() - i,
    {
        out.push(bytes[i]);
        i = i + 1;
        assert(out@ =~= bytes@.subrange(0, i as int));
    }
    assert(out@ =~= bytes@);
    out
}

impl BaseValue {
    /// Returns the native representation of this value.
    pub fn kind(&self) -> (r: BaseValueKind)
        ensures
            r == self@.kind(),
    {
        match self {
            BaseValue::StringValue(_) => BaseValueKind::String,
            BaseValue::BooleanValue(_) => BaseValueKind::Boolean,
            BaseValue::IntegerValue(_) => BaseValueKind::Integer,
            BaseValue::EnumValue(_) => BaseValueKind::Enum,
            BaseValue::BytesValue(_) => BaseValueKind::Bytes,
        }
    }

    /// Returns an independent copy with the same content.
    pub fn duplicate(&self) -> (r: BaseValue)
        ensures
            r@ == self@,
    {
        match self {
            BaseValue::StringValue(s) => BaseValue::StringValue(s.duplicate()),
            BaseValue::BooleanValue(b) => BaseValue::BooleanValue(MapBoolean(b.0)),
            BaseValue::IntegerValue(i) => BaseValue::IntegerValue(MapInteger(i.0)),
            BaseValue::EnumValue(e) => BaseValue::EnumValue(MapEnumValue(e.0.duplicate())),
            BaseValue::BytesValue(b) => BaseValue::BytesValue(MapBytes(copy_bytes(&b.0))),
        }
    }

    /// A string value built from a literal.
    pub fn string(s: &str) -> (r: BaseValue)
        ensures
            r@ == BaseValueView::StringValue(s@),
    {
        BaseValue::StringValue(MapString::from_str(s))
    }

    /// An enum value built from a variant name.
    pub fn enum_value(s: &str) -> (r: BaseValue)
        ensures
            r@ == BaseValueView::EnumValue(s@),
    {
        BaseValue::EnumValue(MapEnumValue(MapString::from_str(s)))
    }

    /// A boolean value.
    pub fn boolean(b: bool) -> (r: BaseValue)
        ensures
            r@ == BaseValueView::BooleanValue(b),
    {
        BaseValue::BooleanValue(MapBoolean(b))
    }

    /// An integer value.
    pub fn integer(i: i64) -> (r: BaseValue)
        ensures
            r@ == BaseValueView::IntegerValue(i),
    {
        BaseValue::IntegerValue(MapInteger(i))
    }
}

} // verus!
