//! The value codec: a pure, bidirectional mapping between the caller's
//! dynamically-typed payloads and the store's native value variants.
//!
//! Encoding validates its input (tag/payload shape agreement, no embedded
//! null terminators in texts); decoding is total over the native variants
//! the caller can represent and rejects the foreign ones explicitly.

use vstd::prelude::*;
use vstd::string::StringExecFns;

use crate::value::check_text;
use crate::value::text_ok;
use crate::value::texts_ok;
use crate::value::value_wf;
use crate::value::ForeignKind;
use crate::value::NativeData;
use crate::value::NativeDataModel;
use crate::value::Value;
use crate::value::ValueModel;

verus! {

/// The seven type tags the caller may name on a write.
#[derive(Clone, Copy, Debug, PartialEq, Eq, Structural)]
pub enum TypeTag {
    Empty,
    Text,
    TextList,
    ExpandableText,
    UInt32,
    UInt64,
    Bytes,
}

/// The tag denoted by a tag name string, if the name is one of the seven
/// enumerated tags.
pub open spec fn spec_tag_of_name(name: Seq<char>) -> Option<TypeTag> {
    if name == "REG_NONE"@ {
        Some(TypeTag::Empty)
    } else if name == "REG_SZ"@ {
        Some(TypeTag::Text)
    } else if name == "REG_MULTI_SZ"@ {
        Some(TypeTag::TextList)
    } else if name == "REG_EXPAND_SZ"@ {
        Some(TypeTag::ExpandableText)
    } else if name == "REG_DWORD"@ {
        Some(TypeTag::UInt32)
    } else if name == "REG_QWORD"@ {
        Some(TypeTag::UInt64)
    } else if name == "REG_BINARY"@ {
        Some(TypeTag::Bytes)
    } else {
        None
    }
}

/// Resolves a type tag name.  Any string other than the seven enumerated
/// names yields `None`; the caller treats that as a terminal input error,
/// so such a request never reaches the worker.
pub fn tag_of_name(name: &str) -> (r: Option<TypeTag>)
    ensures
        r == spec_tag_of_name(name@),
{
    let s = String::from_str(name);
    if s == String::from_str("REG_NONE") {
        Some(TypeTag::Empty)
    } else if s == String::from_str("REG_SZ") {
        Some(TypeTag::Text)
    } else if s == String::from_str("REG_MULTI_SZ") {
        Some(TypeTag::TextList)
    } else if s == String::from_str("REG_EXPAND_SZ") {
        Some(TypeTag::ExpandableText)
    } else if s == String::from_str("REG_DWORD") {
        Some(TypeTag::UInt32)
    } else if s == String::from_str("REG_QWORD") {
        Some(TypeTag::UInt64)
    } else if s == String::from_str("REG_BINARY") {
        Some(TypeTag::Bytes)
    } else {
        None
    }
}

/// The caller's dynamically-typed payload, already reduced to plain values
/// by the host layer: a text, an ordered list of texts, an unsigned number,
/// a byte sequence, or nothing.
#[derive(Clone, Debug, PartialEq, Eq)]
pub enum Payload {
    Null,
    Text(String),
    TextList(Vec<String>),
    Number(u64),
    Bytes(Vec<u8>),
}

/// The mathematical model of a `Payload`.
pub enum PayloadModel {
    Null,
    Text(Seq<char>),
    TextList(Seq<Seq<char>>),
    Number(u64),
    Bytes(Seq<u8>),
}

impl View for Payload {
    type V = PayloadModel;

    open spec fn view(&self) -> PayloadModel {
        match self {
            Payload::Null => PayloadModel::Null,
            Payload::Text(s) => PayloadModel::Text(s@),
            Payload::TextList(v) => PayloadModel::TextList(v.deep_view()),
            Payload::Number(n) => PayloadModel::Number(*n),
            Payload::Bytes(b) => PayloadModel::Bytes(b@),
        }
    }
}

/// Why an encode was refused: the payload's shape does not fit the tag, or
/// a text carries an embedded null terminator.
#[derive(Clone, Copy, Debug, PartialEq, Eq, Structural)]
pub enum EncodeError {
    WrongShape,
    EmbeddedNul,
}

/// What `encode` returns, stated over models.  The empty tag ignores the
/// payload entirely; numeric tags convert with the tag's width truncation;
/// text tags demand a null-free text of the matching shape.
pub open spec fn spec_encode(tag: TypeTag, p: PayloadModel) -> Result<ValueModel, EncodeError> {
    match tag {
        TypeTag::Empty => Ok(ValueModel::Empty),
        TypeTag::Text => match p {
            PayloadModel::Text(s) => if text_ok(s) {
                Ok(ValueModel::Text(s))
            } else {
                Err(EncodeError::EmbeddedNul)
            },
            _ => Err(EncodeError::WrongShape),
        },
        TypeTag::TextList => match p {
            PayloadModel::TextList(ss) => if texts_ok(ss) {
                Ok(ValueModel::TextList(ss))
            } else {
                Err(EncodeError::EmbeddedNul)
            },
            _ => Err(EncodeError::WrongShape),
        },
        TypeTag::ExpandableText => match p {
            PayloadModel::Text(s) => if text_ok(s) {
                Ok(ValueModel::ExpandableText(s))
            } else {
                Err(EncodeError::EmbeddedNul)
            },
            _ => Err(EncodeError::WrongShape),
        },
        TypeTag::UInt32 => match p {
            PayloadModel::Number(n) => Ok(ValueModel::UInt32(n as u32)),
            _ => Err(EncodeError::WrongShape),
        },
        TypeTag::UInt64 => match p {
            PayloadModel::Number(n) => Ok(ValueModel::UInt64(n)),
            _ => Err(EncodeError::WrongShape),
        },
        TypeTag::Bytes => match p {
            PayloadModel::Bytes(b) => Ok(ValueModel::Bytes(b)),
            _ => Err(EncodeError::WrongShape),
        },
    }
}

/// Encodes a caller payload under the given tag into a native value, or
/// rejects it.  Every value produced is well-formed.
pub fn encode(tag: TypeTag, p: Payload) -> (r: Result<Value, EncodeError>)
    ensures
        match r {
            Ok(v) => spec_encode(tag, p@) == Ok::<ValueModel, EncodeError>(v@) && value_wf(v@),
            Err(e) => spec_encode(tag, p@) == Err::<ValueModel, EncodeError>(e),
        },
{
    match tag {
        TypeTag::Empty => Ok(Value::Empty),
        TypeTag::Text => match p {
            Payload::Text(s) => if check_text(s.as_str()) {
                Ok(Value::Text(s))
            } else {
                Err(EncodeError::EmbeddedNul)
            },
            _ => Err(EncodeError::WrongShape),
        },
        TypeTag::TextList => match p {
            Payload::TextList(ss) => if check_texts(&ss) {
                Ok(Value::TextList(ss))
            } else {
                Err(EncodeError::EmbeddedNul)
            },
            _ => Err(EncodeError::WrongShape),
        },
        TypeTag::ExpandableText => match p {
            Payload::Text(s) => if check_text(s.as_str()) {
                Ok(Value::ExpandableText(s))
            } else {
                Err(EncodeError::EmbeddedNul)
            },
            _ => Err(EncodeError::WrongShape),
        },
        TypeTag::UInt32 => match p {
            Payload::Number(n) => Ok(Value::UInt32(n as u32)),
            _ => Err(EncodeError::WrongShape),
        },
        TypeTag::UInt64 => match p {
            Payload::Number(n) => Ok(Value::UInt64(n)),
            _ => Err(EncodeError::WrongShape),
        },
        TypeTag::Bytes => match p {
            Payload::Bytes(b) => Ok(Value::Bytes(b)),
            _ => Err(EncodeError::WrongShape),
        },
    }
}

/// Reports whether every entry of a text list is free of embedded null
/// terminators.
pub fn check_texts(ss: &Vec<String>) -> (r: bool)
    ensures
        r == texts_ok(ss.deep_view()),
{
    let n = ss.len();
    let mut i: usize = 0;
    while i < n
        invariant
            n == ss.len(),
            i <= n,
            forall|j: int| 0 <= j < i ==> text_ok(#[trigger] ss.deep_view()[j]),
        decreases n - i,
    {
        assert(ss.deep_view()[i as int] == ss@[i as int]@);
        if !check_text(ss[i].as_str()) {
            return false;
        }
        i += 1;
    }
    true
}

/// What `decode` returns, stated over models.  Known variants map back to
/// the caller's representation (numbers widen to the caller's number type);
/// foreign variants are rejected by kind.
pub open spec fn spec_decode(d: NativeDataModel) -> Result<PayloadModel, ForeignKind> {
    match d {
        NativeDataModel::Known(v) => Ok(
            match v {
                ValueModel::Empty => PayloadModel::Null,
                ValueModel::Text(s) => PayloadModel::Text(s),
                ValueModel::TextList(ss) => PayloadModel::TextList(ss),
                ValueModel::ExpandableText(s) => PayloadModel::Text(s),
                ValueModel::UInt32(n) => PayloadModel::Number(n as u64),
                ValueModel::UInt64(n) => PayloadModel::Number(n),
                ValueModel::Bytes(b) => PayloadModel::Bytes(b),
            },
        ),
        NativeDataModel::Foreign(k) => Err(k),
    }
}

/// Decodes a fetched native value into the caller's representation, or
/// rejects a foreign kind, naming it.
pub fn decode(d: NativeData) -> (r: Result<Payload, ForeignKind>)
    ensures
        match r {
            Ok(p) => spec_decode(d@) == Ok::<PayloadModel, ForeignKind>(p@),
            Err(k) => spec_decode(d@) == Err::<PayloadModel, ForeignKind>(k),
        },
{
    match d {
        NativeData::Known(v) => Ok(
            match v {
                Value::Empty => Payload::Null,
                Value::Text(s) => Payload::Text(s),
                Value::TextList(ss) => Payload::TextList(ss),
                Value::ExpandableText(s) => Payload::Text(s),
                Value::UInt32(n) => Payload::Number(n as u64),
                Value::UInt64(n) => Payload::Number(n),
                Value::Bytes(b) => Payload::Bytes(b),
            },
        ),
        NativeData::Foreign(k) => Err(k),
    }
}

/// The caller-visible image of a payload after a write under `tag` and a
/// read back: texts, lists and bytes return exactly; an expandable text
/// returns as a plain text; a number returns truncated to the tag's width;
/// under the empty tag the payload is discarded and nothing comes back.
pub open spec fn spec_round_trip(tag: TypeTag, p: PayloadModel) -> PayloadModel {
    match tag {
        TypeTag::Empty => PayloadModel::Null,
        TypeTag::UInt32 => match p {
            PayloadModel::Number(n) => PayloadModel::Number((n as u32) as u64),
            _ => p,
        },
        _ => p,
    }
}

/// Round-trip law: any payload that `encode` accepts under a tag is
/// returned by `decode` as its round-trip image — exactly, up to the tag's
/// width truncation for numbers and the discarding empty tag.
pub proof fn lemma_codec_round_trip(tag: TypeTag, p: PayloadModel)
    requires
        spec_encode(tag, p) is Ok,
    ensures
        spec_decode(NativeDataModel::Known(spec_encode(tag, p)->Ok_0)) == Ok::<
            PayloadModel,
            ForeignKind,
        >(spec_round_trip(tag, p)),
{
}

} // verus!
