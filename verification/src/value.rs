//! The store's native value representations, and the well-formedness rules
//! the codec enforces on them.

use vstd::prelude::*;
use vstd::string::StrSliceExecFns;
use vstd::string::StringExecFns;

verus! {

/// A wide-character text, as the store holds it: a sequence of characters
/// with no embedded null terminator.
pub open spec fn text_ok(s: Seq<char>) -> bool {
    forall|i: int| 0 <= i < s.len() ==> s[i] != '\0'
}

/// All entries of a text list are well-formed texts.
pub open spec fn texts_ok(ss: Seq<Seq<char>>) -> bool {
    forall|i: int| 0 <= i < ss.len() ==> text_ok(#[trigger] ss[i])
}

/// Reports whether a text is free of embedded null terminators.
pub fn check_text(s: &str) -> (r: bool)
    ensures
        r == text_ok(s@),
{
    let n = s.unicode_len();
    let mut i: usize = 0;
    while i < n
        invariant
            n == s@.len(),
            i <= n,
            forall|j: int| 0 <= j < i ==> s@[j] != '\0',
        decreases n - i,
    {
        if s.get_char(i) == '\0' {
            return false;
        }
        i += 1;
    }
    true
}

/// The native value variants the caller can construct through the write
/// path.  Text payloads are held as plain strings; conversion to the
/// store's wire encoding happens at the store boundary, outside the
/// verified core.
#[derive(Clone, Debug, PartialEq, Eq)]
pub enum Value {
    Empty,
    Text(String),
    TextList(Vec<String>),
    ExpandableText(String),
    UInt32(u32),
    UInt64(u64),
    Bytes(Vec<u8>),
}

/// The mathematical model of a `Value`.
pub enum ValueModel {
    Empty,
    Text(Seq<char>),
    TextList(Seq<Seq<char>>),
    ExpandableText(Seq<char>),
    UInt32(u32),
    UInt64(u64),
    Bytes(Seq<u8>),
}

impl View for Value {
    type V = ValueModel;

    open spec fn view(&self) -> ValueModel {
        match self {
            Value::Empty => ValueModel::Empty,
            Value::Text(s) => ValueModel::Text(s@),
            Value::TextList(v) => ValueModel::TextList(v.deep_view()),
            Value::ExpandableText(s) => ValueModel::ExpandableText(s@),
            Value::UInt32(n) => ValueModel::UInt32(*n),
            Value::UInt64(n) => ValueModel::UInt64(*n),
            Value::Bytes(b) => ValueModel::Bytes(b@),
        }
    }
}

/// The invariant every codec-produced value satisfies: its texts carry no
/// embedded null terminator.
pub open spec fn value_wf(v: ValueModel) -> bool {
    match v {
        ValueModel::Text(s) => text_ok(s),
        ValueModel::TextList(ss) => texts_ok(ss),
        ValueModel::ExpandableText(s) => text_ok(s),
        _ => true,
    }
}

/// The native value kinds that exist in the store but have no caller-facing
/// representation; reading one is surfaced as an explicit error naming the
/// kind, never silently coerced.
#[derive(Clone, Copy, Debug, PartialEq, Eq, Structural)]
pub enum ForeignKind {
    UInt32BigEndian,
    SymbolicLink,
    ResourceList,
    FullResourceDescriptor,
    ResourceRequirementsList,
}

/// A value as fetched from the store: either one of the variants the codec
/// understands, or a foreign kind it must reject.
#[derive(Clone, Debug, PartialEq, Eq)]
pub enum NativeData {
    Known(Value),
    Foreign(ForeignKind),
}

/// The mathematical model of a `NativeData`.
pub enum NativeDataModel {
    Known(ValueModel),
    Foreign(ForeignKind),
}

impl View for NativeData {
    type V = NativeDataModel;

    open spec fn view(&self) -> NativeDataModel {
        match self {
            NativeData::Known(v) => NativeDataModel::Known(v@),
            NativeData::Foreign(k) => NativeDataModel::Foreign(*k),
        }
    }
}

/// Duplicates a string, keeping its characters.
pub fn clone_string(s: &String) -> (r: String)
    ensures
        r@ == s@,
{
    s.clone()
}

/// Duplicates a list of strings, keeping every entry's characters.
pub fn clone_strings(v: &Vec<String>) -> (r: Vec<String>)
    ensures
        r.deep_view() == v.deep_view(),
{
    let r = v.clone();
    proof {
        assert forall|i: int| 0 <= i < v.len() implies r.deep_view()[i] == v.deep_view()[i] by {
            assert(cloned::<String>(v[i], r[i]));
        }
        assert(r.deep_view() =~= v.deep_view());
    }
    r
}

/// Duplicates a byte sequence.
pub fn clone_bytes(b: &Vec<u8>) -> (r: Vec<u8>)
    ensures
        r@ == b@,
{
    let r = b.clone();
    proof {
        assert forall|i: int| 0 <= i < b.len() implies r@[i] == b@[i] by {
            assert(cloned::<u8>(b[i], r[i]));
        }
        assert(r@ =~= b@);
    }
    r
}

impl Value {
    /// Duplicates a value, keeping its model.
    pub fn duplicate(&self) -> (r: Value)
        ensures
            r@ == self@,
    {
        match self {
            Value::Empty => Value::Empty,
            Value::Text(s) => Value::Text(clone_string(s)),
            Value::TextList(v) => Value::TextList(clone_strings(v)),
            Value::ExpandableText(s) => Value::ExpandableText(clone_string(s)),
            Value::UInt32(n) => Value::UInt32(*n),
            Value::UInt64(n) => Value::UInt64(*n),
            Value::Bytes(b) => Value::Bytes(clone_bytes(b)),
        }
    }
}

impl NativeData {
    /// Duplicates a fetched value, keeping its model.
    pub fn duplicate(&self) -> (r: NativeData)
        ensures
            r@ == self@,
    {
        match self {
            NativeData::Known(v) => NativeData::Known(v.duplicate()),
            NativeData::Foreign(k) => NativeData::Foreign(*k),
        }
    }
}

impl ForeignKind {
    /// The name of the native kind, as it appears in the "unsupported
    /// type" rejection.
    pub fn name(&self) -> (r: String)
        ensures
            r@ == self.spec_name(),
    {
        match self {
            ForeignKind::UInt32BigEndian => String::from_str("REG_DWORD_BIG_ENDIAN"),
            ForeignKind::SymbolicLink => String::from_str("REG_LINK"),
            ForeignKind::ResourceList => String::from_str("REG_RESOURCE_LIST"),
            ForeignKind::FullResourceDescriptor => String::from_str("REG_FULL_RESOURCE_DESCRIPTOR"),
            ForeignKind::ResourceRequirementsList => String::from_str(
                "REG_RESOURCE_REQUIREMENTS_LIST",
            ),
        }
    }

    pub open spec fn spec_name(&self) -> Seq<char> {
        match self {
            ForeignKind::UInt32BigEndian => "REG_DWORD_BIG_ENDIAN"@,
            ForeignKind::SymbolicLink => "REG_LINK"@,
            ForeignKind::ResourceList => "REG_RESOURCE_LIST"@,
            ForeignKind::FullResourceDescriptor => "REG_FULL_RESOURCE_DESCRIPTOR"@,
            ForeignKind::ResourceRequirementsList => "REG_RESOURCE_REQUIREMENTS_LIST"@,
        }
    }
}

} // verus!
