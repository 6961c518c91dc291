use regbridge::codec::encode;
use regbridge::codec::tag_of_name;
use regbridge::codec::decode;
use regbridge::codec::EncodeError;
use regbridge::codec::Payload;
use regbridge::codec::TypeTag;
use regbridge::root::root_of_name;
use regbridge::root::StoreRoot;
use regbridge::value::check_text;
use regbridge::value::ForeignKind;
use regbridge::value::NativeData;
use regbridge::value::Value;

#[test]
fn root_names_resolve() {
    assert_eq!(root_of_name("HKEY_CLASSES_ROOT"), Some(StoreRoot::ClassesRoot));
    assert_eq!(root_of_name("HKEY_CURRENT_CONFIG"), Some(StoreRoot::CurrentConfig));
    assert_eq!(root_of_name("HKEY_CURRENT_USER"), Some(StoreRoot::CurrentUser));
    assert_eq!(root_of_name("HKEY_LOCAL_MACHINE"), Some(StoreRoot::LocalMachine));
    assert_eq!(root_of_name("HKEY_USERS"), Some(StoreRoot::Users));
}

#[test]
fn unknown_root_name_is_refused() {
    assert_eq!(root_of_name("HKEY_DYN_DATA"), None);
    assert_eq!(root_of_name(""), None);
    assert_eq!(root_of_name("hkey_current_user"), None);
}

#[test]
fn tag_names_resolve() {
    assert_eq!(tag_of_name("REG_NONE"), Some(TypeTag::Empty));
    assert_eq!(tag_of_name("REG_SZ"), Some(TypeTag::Text));
    assert_eq!(tag_of_name("REG_MULTI_SZ"), Some(TypeTag::TextList));
    assert_eq!(tag_of_name("REG_EXPAND_SZ"), Some(TypeTag::ExpandableText));
    assert_eq!(tag_of_name("REG_DWORD"), Some(TypeTag::UInt32));
    assert_eq!(tag_of_name("REG_QWORD"), Some(TypeTag::UInt64));
    assert_eq!(tag_of_name("REG_BINARY"), Some(TypeTag::Bytes));
}

#[test]
fn unknown_tag_name_is_refused() {
    assert_eq!(tag_of_name("REG_DWORD_BIG_ENDIAN"), None);
    assert_eq!(tag_of_name(""), None);
    assert_eq!(tag_of_name("reg_sz"), None);
}

#[test]
fn check_text_rejects_embedded_nul() {
    assert!(check_text("hello"));
    assert!(check_text(""));
    assert!(!check_text("he\0llo"));
    assert!(!check_text("\0"));
}

#[test]
fn encode_each_tag() {
    assert_eq!(encode(TypeTag::Empty, Payload::Null), Ok(Value::Empty));
    assert_eq!(
        encode(TypeTag::Text, Payload::Text(String::from("hi"))),
        Ok(Value::Text(String::from("hi")))
    );
    assert_eq!(
        encode(TypeTag::TextList, Payload::TextList(vec![String::from("a"), String::from("b")])),
        Ok(Value::TextList(vec![String::from("a"), String::from("b")]))
    );
    assert_eq!(
        encode(TypeTag::ExpandableText, Payload::Text(String::from("%PATH%"))),
        Ok(Value::ExpandableText(String::from("%PATH%")))
    );
    assert_eq!(encode(TypeTag::UInt32, Payload::Number(7)), Ok(Value::UInt32(7)));
    assert_eq!(encode(TypeTag::UInt64, Payload::Number(1 << 40)), Ok(Value::UInt64(1 << 40)));
    assert_eq!(
        encode(TypeTag::Bytes, Payload::Bytes(vec![1, 2, 3])),
        Ok(Value::Bytes(vec![1, 2, 3]))
    );
}

#[test]
fn encode_empty_tag_discards_payload() {
    assert_eq!(encode(TypeTag::Empty, Payload::Number(42)), Ok(Value::Empty));
    assert_eq!(encode(TypeTag::Empty, Payload::Text(String::from("x"))), Ok(Value::Empty));
}

#[test]
fn encode_truncates_to_tag_width() {
    let wide: u64 = (1 << 32) + 5;
    assert_eq!(encode(TypeTag::UInt32, Payload::Number(wide)), Ok(Value::UInt32(5)));
    assert_eq!(encode(TypeTag::UInt32, Payload::Number(u64::MAX)), Ok(Value::UInt32(u32::MAX)));
}

#[test]
fn encode_rejects_wrong_shape() {
    assert_eq!(
        encode(TypeTag::UInt32, Payload::Text(String::from("seven"))),
        Err(EncodeError::WrongShape)
    );
    assert_eq!(encode(TypeTag::Text, Payload::Number(1)), Err(EncodeError::WrongShape));
    assert_eq!(encode(TypeTag::TextList, Payload::Text(String::from("a"))), Err(EncodeError::WrongShape));
    assert_eq!(encode(TypeTag::Bytes, Payload::Null), Err(EncodeError::WrongShape));
    assert_eq!(encode(TypeTag::UInt64, Payload::Bytes(vec![1])), Err(EncodeError::WrongShape));
}

#[test]
fn encode_rejects_embedded_nul() {
    assert_eq!(
        encode(TypeTag::Text, Payload::Text(String::from("a\0b"))),
        Err(EncodeError::EmbeddedNul)
    );
    assert_eq!(
        encode(TypeTag::ExpandableText, Payload::Text(String::from("\0"))),
        Err(EncodeError::EmbeddedNul)
    );
    assert_eq!(
        encode(
            TypeTag::TextList,
            Payload::TextList(vec![String::from("ok"), String::from("bad\0")])
        ),
        Err(EncodeError::EmbeddedNul)
    );
}

#[test]
fn encode_accepts_empty_text_list() {
    assert_eq!(encode(TypeTag::TextList, Payload::TextList(vec![])), Ok(Value::TextList(vec![])));
}

#[test]
fn decode_each_known_variant() {
    assert_eq!(decode(NativeData::Known(Value::Empty)), Ok(Payload::Null));
    assert_eq!(
        decode(NativeData::Known(Value::Text(String::from("hi")))),
        Ok(Payload::Text(String::from("hi")))
    );
    assert_eq!(
        decode(NativeData::Known(Value::TextList(vec![String::from("a")]))),
        Ok(Payload::TextList(vec![String::from("a")]))
    );
    assert_eq!(
        decode(NativeData::Known(Value::ExpandableText(String::from("e")))),
        Ok(Payload::Text(String::from("e")))
    );
    assert_eq!(decode(NativeData::Known(Value::UInt32(9))), Ok(Payload::Number(9)));
    assert_eq!(decode(NativeData::Known(Value::UInt64(u64::MAX))), Ok(Payload::Number(u64::MAX)));
    assert_eq!(decode(NativeData::Known(Value::Bytes(vec![0, 255]))), Ok(Payload::Bytes(vec![0, 255])));
}

#[test]
fn decode_rejects_foreign_kinds() {
    assert_eq!(decode(NativeData::Foreign(ForeignKind::SymbolicLink)), Err(ForeignKind::SymbolicLink));
    assert_eq!(
        decode(NativeData::Foreign(ForeignKind::UInt32BigEndian)),
        Err(ForeignKind::UInt32BigEndian)
    );
}

#[test]
fn foreign_kind_names() {
    assert_eq!(ForeignKind::UInt32BigEndian.name(), "REG_DWORD_BIG_ENDIAN");
    assert_eq!(ForeignKind::SymbolicLink.name(), "REG_LINK");
    assert_eq!(ForeignKind::ResourceList.name(), "REG_RESOURCE_LIST");
    assert_eq!(ForeignKind::FullResourceDescriptor.name(), "REG_FULL_RESOURCE_DESCRIPTOR");
    assert_eq!(ForeignKind::ResourceRequirementsList.name(), "REG_RESOURCE_REQUIREMENTS_LIST");
}
