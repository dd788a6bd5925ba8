use bytes::{Buf, IntoBuf};
use classfile::classes::{
    Attribute, Class, ClassFlags, Constant, ConstantIndex, ConstantLookupError,
    ExceptionTableRow, Field, FieldFlags, Method, MethodFlags, MethodHandle, MethodIndex,
    StackMapFrame, VerificationType, CLASS_PUBLIC, CLASS_SUPER, FIELD_PRIVATE, METHOD_PUBLIC,
    METHOD_STATIC,
};
use classfile::classloader::{
    deserialize_multiple, ClassLoaderError, Deserialize, DeserializeWithConstants,
};
use classfile::utf8::{decode_text, Utf8Error};

fn cursor(input: &[u8]) -> std::io::Cursor<bytes::Bytes> {
    bytes::Bytes::from(input).into_buf()
}

fn eof(context: &str) -> ClassLoaderError {
    ClassLoaderError::Eof(format!("Unexpected end of stream while parsing {}", context))
}

fn fixed_width_samples() -> Vec<(Vec<u8>, Constant)> {
    vec![
        (vec![3, 0x12, 0x34, 0x56, 0x78], Constant::Integer(0x12345678)),
        (vec![4, 0xff, 0xc0, 0x00, 0x01], Constant::Float(0xffc00001)),
        (vec![5, 1, 2, 3, 4, 5, 6, 7, 8], Constant::Long(0x0102030405060708)),
        (vec![6, 0x7f, 0xf0, 0, 0, 0, 0, 0, 1], Constant::Double(0x7ff0000000000001)),
        (vec![7, 0xab, 0xcd], Constant::ClassRef(ConstantIndex(0xabcd))),
        (vec![8, 0x00, 0x07], Constant::StringRef(ConstantIndex(7))),
        (
            vec![9, 0, 1, 0, 2],
            Constant::FieldRef { class: ConstantIndex(1), name_and_type: ConstantIndex(2) },
        ),
        (
            vec![10, 0, 3, 0, 4],
            Constant::MethodRef { class: ConstantIndex(3), name_and_type: ConstantIndex(4) },
        ),
        (
            vec![11, 0, 5, 0, 6],
            Constant::InterfaceMethodRef {
                class: ConstantIndex(5),
                name_and_type: ConstantIndex(6),
            },
        ),
        (
            vec![15, 9, 0x12, 0x34],
            Constant::MethodHandleRef(MethodHandle::InvokeInterface(ConstantIndex(0x1234))),
        ),
        (vec![16, 0xff, 0xfe], Constant::MethodType(ConstantIndex(0xfffe))),
        (
            vec![18, 0, 8, 0, 9],
            Constant::InvokeDynamicInfo {
                bootstrap_method_attr: MethodIndex(8),
                name_and_type: ConstantIndex(9),
            },
        ),
    ]
}

#[test]
fn fixed_width_constants_decode_from_exact_buffers() {
    for (input, expected) in fixed_width_samples() {
        let mut data = cursor(&input);
        assert_eq!(Ok(expected), Constant::deserialize(&mut data));
        assert_eq!(0, data.remaining());
    }
}

#[test]
fn fixed_width_constants_cut_short_are_eof() {
    for (input, _) in fixed_width_samples() {
        for kept in 0..input.len() {
            match Constant::deserialize(&mut cursor(&input[..kept])) {
                Err(ClassLoaderError::Eof(_)) => (),
                other => panic!("expected Eof for {:?}, got {:?}", &input[..kept], other),
            }
        }
    }
}

#[test]
fn method_handle_with_kind_zero_is_refused_once_the_index_is_read() {
    assert_eq!(
        Err(ClassLoaderError::InvalidMethodHandleKind(0)),
        Constant::deserialize(&mut cursor(b"\x0f\x00\x00\x01"))
    );
    assert_eq!(Err(eof("constant index")), Constant::deserialize(&mut cursor(b"\x0f\x00\x00")));
}

#[test]
fn eof_messages_name_the_field() {
    assert_eq!(Err(eof("constant tag")), Constant::deserialize(&mut cursor(b"")));
    assert_eq!(
        Err(eof("length field of Utf8 constant")),
        Constant::deserialize(&mut cursor(b"\x01\x00"))
    );
    assert_eq!(Err(eof("Utf8 constant")), Constant::deserialize(&mut cursor(b"\x01\x00\x02a")));
    assert_eq!(Err(eof("Integer constant")), Constant::deserialize(&mut cursor(b"\x03\x00")));
    assert_eq!(Err(eof("Float constant")), Constant::deserialize(&mut cursor(b"\x04\x00")));
    assert_eq!(Err(eof("Long constant")), Constant::deserialize(&mut cursor(b"\x05\x00")));
    assert_eq!(Err(eof("Double constant")), Constant::deserialize(&mut cursor(b"\x06\x00")));
    assert_eq!(Err(eof("method index")), Constant::deserialize(&mut cursor(b"\x12\x00")));
    assert_eq!(
        Err(eof("method handle ref kind")),
        Constant::deserialize(&mut cursor(b"\x0f"))
    );
    assert_eq!(
        Err(eof("exception table row")),
        ExceptionTableRow::deserialize(&mut cursor(b"\x00\x00\x00\x00\x00\x00\x00"))
    );
    assert_eq!(
        Err(eof("verification type identifier")),
        VerificationType::deserialize(&mut cursor(b""))
    );
    assert_eq!(
        Err(eof("uninitialized variable offset")),
        VerificationType::deserialize(&mut cursor(b"\x08\x00"))
    );
    assert_eq!(Err(eof("stack map frame type")), StackMapFrame::deserialize(&mut cursor(b"")));
    assert_eq!(
        Err(eof("extended stack frame offset")),
        StackMapFrame::deserialize(&mut cursor(b"\xf7\x00"))
    );
    assert_eq!(Err(eof("chop frame offset")), StackMapFrame::deserialize(&mut cursor(b"\xf8")));
    assert_eq!(
        Err(eof("extended same-frame stack frame offset")),
        StackMapFrame::deserialize(&mut cursor(b"\xfb\x00"))
    );
    assert_eq!(
        Err(eof("append frame offset")),
        StackMapFrame::deserialize(&mut cursor(b"\xfc\x00"))
    );
    assert_eq!(
        Err(eof("full stack frame offset")),
        StackMapFrame::deserialize(&mut cursor(b"\xff\x00"))
    );
    assert_eq!(
        Err(eof("full stack frame locals count")),
        StackMapFrame::deserialize(&mut cursor(b"\xff\x00\x00\x00"))
    );
    assert_eq!(
        Err(eof("full stack frame stack item count")),
        StackMapFrame::deserialize(&mut cursor(b"\xff\x00\x00\x00\x00\x00"))
    );
}

#[test]
fn attribute_eof_messages_name_the_field() {
    let code = vec![Constant::Utf8("Code".to_string())];
    let table = vec![Constant::Utf8("StackMapTable".to_string())];
    let cases: Vec<(&[u8], &str)> = vec![
        (b"\x00", "constant index"),
        (b"\x00\x01\x00\x00", "attribute length"),
        (b"\x00\x01\x00\x00\x00\x0c\x00", "Code attribute max stack size"),
        (b"\x00\x01\x00\x00\x00\x0c\x00\x00\x00", "Code attribute max locals count"),
        (b"\x00\x01\x00\x00\x00\x0c\x00\x00\x00\x00\x00", "Code attribute inner length"),
        (b"\x00\x01\x00\x00\x00\x0c\x00\x00\x00\x00\x00\x00\x00\x02\xaa", "Code attribute code body"),
        (
            b"\x00\x01\x00\x00\x00\x0c\x00\x00\x00\x00\x00\x00\x00\x00\x00",
            "Code attribute exception table length",
        ),
        (
            b"\x00\x01\x00\x00\x00\x0c\x00\x00\x00\x00\x00\x00\x00\x00\x00\x00\x00",
            "Code attribute subattribute count",
        ),
    ];
    for (input, context) in cases {
        assert_eq!(Err(eof(context)), Attribute::deserialize(&mut cursor(input), &code));
    }
    assert_eq!(
        Err(eof("stack map table entry count")),
        Attribute::deserialize(&mut cursor(b"\x00\x01\x00\x00\x00\x02\x00"), &table)
    );
}

#[test]
fn decoding_leaves_the_cursor_right_behind_the_record() {
    let mut data = cursor(b"\x01\x00\x02hi\x03\x00\x00\x00\x2a\x05");
    assert_eq!(Ok(Constant::Utf8("hi".to_string())), Constant::deserialize(&mut data));
    assert_eq!(6, data.remaining());
    assert_eq!(Ok(Constant::Integer(42)), Constant::deserialize(&mut data));
    assert_eq!(1, data.remaining());
    assert_eq!(Err(eof("Long constant")), Constant::deserialize(&mut data));
    assert_eq!(0, data.remaining());
}

#[test]
fn a_failed_check_for_bytes_reads_nothing_more() {
    let mut data = cursor(b"\x03\x01\x02");
    assert_eq!(Err(eof("Integer constant")), Constant::deserialize(&mut data));
    assert_eq!(2, data.remaining());
    assert_eq!(1, data.get_u8());
}

#[test]
fn invalid_utf8_reports_where_the_text_stops_being_valid() {
    assert_eq!(
        Err(ClassLoaderError::Utf8(Utf8Error { valid_up_to: 0, error_len: Some(1) })),
        Constant::deserialize(&mut cursor(b"\x01\x00\x02\xc3\x28"))
    );
    assert_eq!(
        Err(ClassLoaderError::Utf8(Utf8Error { valid_up_to: 2, error_len: None })),
        Constant::deserialize(&mut cursor(b"\x01\x00\x04ab\xe2\x82"))
    );
    assert_eq!(
        Err(ClassLoaderError::Utf8(Utf8Error { valid_up_to: 3, error_len: Some(1) })),
        Constant::deserialize(&mut cursor(b"\x01\x00\x05abc\xff!"))
    );
}

#[test]
fn text_decodes_to_its_characters() {
    assert_eq!(Ok("Hello".to_string()), decode_text(b"Hello"));
    assert_eq!(Ok("h\u{e9}\u{20ac}\u{1f600}".to_string()), decode_text("h\u{e9}\u{20ac}\u{1f600}".as_bytes()));
    assert_eq!(Ok(String::new()), decode_text(b""));
    assert_eq!(Err(Utf8Error { valid_up_to: 1, error_len: Some(1) }), decode_text(b"a\x80"));
    assert_eq!(
        Ok(Constant::Utf8("\u{e9}".to_string())),
        Constant::deserialize(&mut cursor(b"\x01\x00\x02\xc3\xa9"))
    );
}

#[test]
fn float_and_double_keep_every_bit() {
    match Constant::deserialize(&mut cursor(b"\x04\xff\xc0\x00\x01")) {
        Ok(Constant::Float(bits)) => {
            assert_eq!(0xffc00001, bits);
            assert!(f32::from_bits(bits).is_nan());
        },
        other => panic!("expected a float, got {:?}", other),
    }
    match Constant::deserialize(&mut cursor(b"\x06\x7f\xf0\x00\x00\x00\x00\x00\x01")) {
        Ok(Constant::Double(bits)) => {
            assert_eq!(0x7ff0000000000001, bits);
            assert!(f64::from_bits(bits).is_nan());
        },
        other => panic!("expected a double, got {:?}", other),
    }
    assert_eq!(
        Ok(Constant::Float(1.5f32.to_bits())),
        Constant::deserialize(&mut cursor(b"\x04\x3f\xc0\x00\x00"))
    );
}

#[test]
fn unknown_constant_tags_are_refused() {
    for tag in [0u8, 2, 12, 13, 14, 17, 19, 20, 255] {
        assert_eq!(
            Err(ClassLoaderError::InvalidConstantType(tag)),
            Constant::deserialize(&mut cursor(&[tag, 0, 0, 0, 0]))
        );
    }
}

#[test]
fn index_zero_never_resolves() {
    let pools: Vec<Vec<Constant>> = vec![
        vec![],
        vec![Constant::Integer(1)],
        vec![Constant::Long(1), Constant::Dummy, Constant::Utf8("x".to_string())],
    ];
    for pool in pools {
        assert_eq!(Err(ConstantLookupError::ZeroIndex), ConstantIndex(0).lookup(&pool));
    }
}

#[test]
fn index_past_the_pool_is_out_of_range() {
    let mut pool = vec![];
    for size in 0..5u16 {
        assert_eq!(
            Err(ConstantLookupError::OutOfRange(size + 1)),
            ConstantIndex(size + 1).lookup(&pool)
        );
        pool.push(Constant::Integer(size as u32));
    }
}

#[test]
fn index_behind_a_double_width_constant_is_refused() {
    let pool = vec![
        Constant::Integer(3),
        Constant::Long(4),
        Constant::Dummy,
        Constant::Double(5),
        Constant::Dummy,
    ];
    assert_eq!(Ok(&Constant::Long(4)), ConstantIndex(2).lookup(&pool));
    assert_eq!(
        Err(ConstantLookupError::IndexInsideDoubleWidthConstant(3)),
        ConstantIndex(3).lookup(&pool)
    );
    assert_eq!(Ok(&Constant::Double(5)), ConstantIndex(4).lookup(&pool));
    assert_eq!(
        Err(ConstantLookupError::IndexInsideDoubleWidthConstant(5)),
        ConstantIndex(5).lookup(&pool)
    );
}

#[test]
fn constant_value_must_declare_length_two_whatever_follows() {
    let pool = vec![Constant::Utf8("ConstantValue".to_string())];
    for length in [0u32, 1, 3, 4, 0x100, 0xffff_ffff] {
        let tails: Vec<&[u8]> = vec![b"", b"\x00", b"\x00\x02", b"\x00\x02\x00\x00\x00\x00"];
        for tail in tails {
            let mut input = vec![0, 1];
            input.extend_from_slice(&length.to_be_bytes());
            input.extend_from_slice(tail);
            assert_eq!(
                Err(ClassLoaderError::LengthMismatch {
                    context: "ConstantValue attribute".to_string(),
                    stated_length: length,
                    inferred_length: 2,
                }),
                Attribute::deserialize(&mut cursor(&input), &pool)
            );
        }
    }
}

#[test]
fn trivial_code_body_must_declare_length_twelve() {
    let pool = vec![Constant::Utf8("Code".to_string())];
    let body = b"\x00\x00\x00\x00\x00\x00\x00\x00\x00\x00\x00\x00";
    for declared in [11u32, 12, 13] {
        let mut input = vec![0, 1];
        input.extend_from_slice(&declared.to_be_bytes());
        input.extend_from_slice(body);
        let decoded = Attribute::deserialize(&mut cursor(&input), &pool);
        if declared == 12 {
            assert_eq!(
                Ok(Attribute::Code {
                    attribute_name: ConstantIndex(1),
                    max_stack: 0,
                    max_locals: 0,
                    code: vec![],
                    exception_table: vec![],
                    attributes: vec![],
                }),
                decoded
            );
        } else {
            assert_eq!(
                Err(ClassLoaderError::LengthMismatch {
                    context: "Code attribute".to_string(),
                    stated_length: declared,
                    inferred_length: 12,
                }),
                decoded
            );
        }
    }
}

#[test]
fn stack_map_table_reports_the_length_it_found() {
    let pool = vec![Constant::Utf8("StackMapTable".to_string())];
    assert_eq!(
        Err(ClassLoaderError::LengthMismatch {
            context: "StackMapTable attribute".to_string(),
            stated_length: 9,
            inferred_length: 6,
        }),
        Attribute::deserialize(&mut cursor(b"\x00\x01\x00\x00\x00\x09\x00\x02\x05\xfb\x00\x07"), &pool)
    );
    assert_eq!(
        Ok(Attribute::StackMapTable {
            attribute_name: ConstantIndex(1),
            entries: vec![
                StackMapFrame::SameFrame { offset_delta: 5 },
                StackMapFrame::SameFrameExtended { offset_delta: 7 },
            ],
        }),
        Attribute::deserialize(&mut cursor(b"\x00\x01\x00\x00\x00\x06\x00\x02\x05\xfb\x00\x07"), &pool)
    );
}

#[test]
fn code_holds_nested_attributes() {
    let pool = vec![
        Constant::Utf8("Code".to_string()),
        Constant::Utf8("StackMapTable".to_string()),
        Constant::Utf8("ConstantValue".to_string()),
    ];
    let input = b"\x00\x01\x00\x00\x00\x28\
        \x00\x02\x00\x03\x00\x00\x00\x03\xaa\xbb\xcc\
        \x00\x01\x00\x01\x00\x02\x00\x03\x00\x04\
        \x00\x02\
        \x00\x02\x00\x00\x00\x03\x00\x01\x0a\
        \x00\x03\x00\x00\x00\x02\x00\x09tail";
    let mut data = cursor(input);
    assert_eq!(
        Ok(Attribute::Code {
            attribute_name: ConstantIndex(1),
            max_stack: 2,
            max_locals: 3,
            code: vec![0xaa, 0xbb, 0xcc],
            exception_table: vec![ExceptionTableRow {
                start_pc: 1,
                end_pc: 2,
                handler_pc: 3,
                catch_type: ConstantIndex(4),
            }],
            attributes: vec![
                Attribute::StackMapTable {
                    attribute_name: ConstantIndex(2),
                    entries: vec![StackMapFrame::SameFrame { offset_delta: 10 }],
                },
                Attribute::ConstantValue {
                    attribute_name: ConstantIndex(3),
                    constant_value: ConstantIndex(9),
                },
            ],
        }),
        Attribute::deserialize(&mut data, &pool)
    );
    assert_eq!(4, data.remaining());
}

#[test]
fn a_failing_nested_attribute_fails_the_code() {
    let pool = vec![Constant::Utf8("Code".to_string()), Constant::Utf8("Other".to_string())];
    let input = b"\x00\x01\x00\x00\x00\x12\
        \x00\x00\x00\x00\x00\x00\x00\x00\x00\x00\x00\x01\
        \x00\x02\x00\x00\x00\x00";
    assert_eq!(
        Err(ClassLoaderError::UnknownAttributeType("Other".to_string())),
        Attribute::deserialize(&mut cursor(input), &pool)
    );
}

#[test]
fn attribute_names_are_resolved_through_the_pool() {
    let pool = vec![Constant::Long(1), Constant::Dummy, Constant::Utf8("Signature".to_string())];
    assert_eq!(
        Err(ClassLoaderError::InvalidConstantRef(ConstantLookupError::ZeroIndex)),
        Attribute::deserialize(&mut cursor(b"\x00\x00\x00\x00\x00\x00"), &pool)
    );
    assert_eq!(
        Err(ClassLoaderError::InvalidConstantRef(ConstantLookupError::OutOfRange(4))),
        Attribute::deserialize(&mut cursor(b"\x00\x04\x00\x00\x00\x00"), &pool)
    );
    assert_eq!(
        Err(ClassLoaderError::InvalidConstantRef(
            ConstantLookupError::IndexInsideDoubleWidthConstant(2)
        )),
        Attribute::deserialize(&mut cursor(b"\x00\x02\x00\x00\x00\x00"), &pool)
    );
    assert_eq!(
        Err(ClassLoaderError::InvalidAttributeType(Constant::Long(1))),
        Attribute::deserialize(&mut cursor(b"\x00\x01\x00\x00\x00\x00"), &pool)
    );
    assert_eq!(
        Err(ClassLoaderError::UnknownAttributeType("Signature".to_string())),
        Attribute::deserialize(&mut cursor(b"\x00\x03\x00\x00\x00\x02\x00\x01"), &pool)
    );
}

#[test]
fn every_frame_tag_announces_one_kind_or_none() {
    for tag in 0..=255u8 {
        let input = [tag, 0, 9, 0, 1, 1, 0, 1, 2];
        let decoded = StackMapFrame::deserialize(&mut cursor(&input));
        let expected = match tag {
            0..=63 => Ok(StackMapFrame::SameFrame { offset_delta: tag }),
            64..=127 => Ok(StackMapFrame::SameLocalsOneStackItemFrame {
                offset_delta: tag - 64,
                stack_item: VerificationType::Top,
            }),
            128..=246 => Err(ClassLoaderError::InvalidStackFrameType(tag)),
            247 => Ok(StackMapFrame::SameLocalsOneStackItemFrameExtended {
                offset_delta: 9,
                stack_item: VerificationType::Top,
            }),
            248..=250 => {
                Ok(StackMapFrame::ChopFrame { offset_delta: 9, num_absent_locals: 251 - tag })
            },
            251 => Ok(StackMapFrame::SameFrameExtended { offset_delta: 9 }),
            252 => Ok(StackMapFrame::AppendFrame {
                offset_delta: 9,
                new_locals: vec![VerificationType::Top],
            }),
            253 => Ok(StackMapFrame::AppendFrame {
                offset_delta: 9,
                new_locals: vec![VerificationType::Top, VerificationType::Integer],
            }),
            254 => Ok(StackMapFrame::AppendFrame {
                offset_delta: 9,
                new_locals: vec![
                    VerificationType::Top,
                    VerificationType::Integer,
                    VerificationType::Integer,
                ],
            }),
            255 => Ok(StackMapFrame::FullFrame {
                offset_delta: 9,
                locals: vec![VerificationType::Integer],
                stack_items: vec![VerificationType::Float],
            }),
        };
        assert_eq!(expected, decoded);
    }
}

#[test]
fn verification_types_follow_their_kind_byte() {
    let cases: Vec<(&[u8], VerificationType)> = vec![
        (b"\x00", VerificationType::Top),
        (b"\x01", VerificationType::Integer),
        (b"\x02", VerificationType::Float),
        (b"\x03", VerificationType::Double),
        (b"\x04", VerificationType::Long),
        (b"\x05", VerificationType::Null),
        (b"\x06", VerificationType::UninitializedThis),
        (b"\x07\x01\x02", VerificationType::Object(ConstantIndex(0x0102))),
        (b"\x08\x03\x04", VerificationType::Uninitialized(0x0304)),
    ];
    for (input, expected) in cases {
        assert_eq!(Ok(expected), VerificationType::deserialize(&mut cursor(input)));
    }
    for kind in 9..=255u8 {
        assert_eq!(
            Err(ClassLoaderError::InvalidVerificationType(kind)),
            VerificationType::deserialize(&mut cursor(&[kind, 0, 0]))
        );
    }
}

#[test]
fn decoding_twice_gives_equal_results() {
    let inputs: Vec<&[u8]> = vec![
        b"\x01\x00\x05Hello",
        b"\x01\x00\x02\xc3\x28",
        b"\x04\xff\xc0\x00\x01",
        b"\x0f\x0a\x00\x01",
        b"\x02",
        b"",
    ];
    for input in inputs {
        assert_eq!(
            Constant::deserialize(&mut cursor(input)),
            Constant::deserialize(&mut cursor(input))
        );
    }
    let pool = vec![Constant::Utf8("Code".to_string())];
    let code: &[u8] = b"\x00\x01\x00\x00\x00\x0d\x00\x01\x00\x02\x00\x00\x00\x01\x2a\x00\x00\x00\x00";
    assert_eq!(
        Attribute::deserialize(&mut cursor(code), &pool),
        Attribute::deserialize(&mut cursor(code), &pool)
    );
    assert!(Attribute::deserialize(&mut cursor(code), &pool).is_ok());
}

#[test]
fn records_in_a_row_stop_at_the_first_failure() {
    let mut data = cursor(b"\x01\x07\x00\x05\x00\x09\x02");
    assert_eq!(
        Ok(vec![
            VerificationType::Integer,
            VerificationType::Object(ConstantIndex(5)),
            VerificationType::Top,
        ]),
        deserialize_multiple::<VerificationType>(3, &mut data)
    );
    assert_eq!(2, data.remaining());

    let mut data = cursor(b"\x01\x09\x02\x03");
    assert_eq!(
        Err(ClassLoaderError::InvalidVerificationType(9)),
        deserialize_multiple::<VerificationType>(4, &mut data)
    );
    assert_eq!(2, data.remaining());

    let mut data = cursor(b"\x01");
    assert_eq!(Ok(vec![]), deserialize_multiple::<VerificationType>(0, &mut data));
    assert_eq!(1, data.remaining());
}

#[test]
fn tags_of_constants() {
    assert_eq!(Some(1), Constant::Utf8("a".to_string()).get_tag());
    assert_eq!(Some(3), Constant::Integer(0).get_tag());
    assert_eq!(Some(4), Constant::Float(0).get_tag());
    assert_eq!(Some(5), Constant::Long(0).get_tag());
    assert_eq!(Some(6), Constant::Double(0).get_tag());
    assert_eq!(Some(7), Constant::ClassRef(ConstantIndex(1)).get_tag());
    assert_eq!(Some(8), Constant::StringRef(ConstantIndex(1)).get_tag());
    let class = ConstantIndex(1);
    let name_and_type = ConstantIndex(2);
    assert_eq!(
        Some(9),
        Constant::FieldRef { class: class.clone(), name_and_type: name_and_type.clone() }.get_tag()
    );
    assert_eq!(
        Some(10),
        Constant::MethodRef { class: class.clone(), name_and_type: name_and_type.clone() }
            .get_tag()
    );
    assert_eq!(
        Some(11),
        Constant::InterfaceMethodRef { class: class.clone(), name_and_type: name_and_type.clone() }
            .get_tag()
    );
    assert_eq!(
        Some(12),
        Constant::NameAndTypeRef { name: class.clone(), descriptor: name_and_type.clone() }
            .get_tag()
    );
    assert_eq!(
        Some(15),
        Constant::MethodHandleRef(MethodHandle::GetField(class.clone())).get_tag()
    );
    assert_eq!(Some(16), Constant::MethodType(class.clone()).get_tag());
    assert_eq!(
        Some(18),
        Constant::InvokeDynamicInfo { bootstrap_method_attr: MethodIndex(0), name_and_type }
            .get_tag()
    );
    assert_eq!(None, Constant::Dummy.get_tag());
}

#[test]
fn decoded_constants_carry_the_tag_they_were_read_under() {
    for (input, expected) in fixed_width_samples() {
        assert_eq!(Some(input[0]), expected.get_tag());
    }
}

#[test]
fn copies_equal_what_they_copy() {
    for (_, constant) in fixed_width_samples() {
        assert_eq!(constant, constant.clone());
    }
    let text = Constant::Utf8("text".to_string());
    assert_eq!(text, text.clone());
    assert_eq!(ConstantIndex(7), ConstantIndex(7).clone());
    assert_eq!(MethodIndex(8), MethodIndex(8).clone());
    let handle = MethodHandle::PutStatic(ConstantIndex(3));
    assert_eq!(handle, handle.clone());
}

#[test]
fn errors_describe_themselves() {
    assert_eq!("Constant index out of range", ConstantLookupError::OutOfRange(3).description());
    assert_eq!(
        "Constant index 0 is invalid in this context",
        ConstantLookupError::ZeroIndex.description()
    );
    assert_eq!(
        "Constant index lies inside a double-width value",
        ConstantLookupError::IndexInsideDoubleWidthConstant(3).description()
    );
    let cases = vec![
        (
            ClassLoaderError::Utf8(Utf8Error { valid_up_to: 0, error_len: None }),
            "Failed to decode Utf8 data",
        ),
        (ClassLoaderError::Eof("ran out".to_string()), "ran out"),
        (
            ClassLoaderError::InvalidConstantRef(ConstantLookupError::ZeroIndex),
            "Invalid constant reference",
        ),
        (ClassLoaderError::InvalidConstantType(2), "Unsupported constant type"),
        (ClassLoaderError::InvalidMethodHandleKind(0), "Unsupported method handle kind"),
        (ClassLoaderError::InvalidAttributeType(Constant::Dummy), "Invalid attribute type"),
        (ClassLoaderError::InvalidVerificationType(9), "Invalid verification type"),
        (ClassLoaderError::InvalidStackFrameType(128), "Invalid stack frame type"),
        (
            ClassLoaderError::LengthMismatch {
                context: "Code attribute".to_string(),
                stated_length: 1,
                inferred_length: 2,
            },
            "Stated length of entity disagrees with inferred length",
        ),
        (ClassLoaderError::Misc("other".to_string()), "other"),
        (ClassLoaderError::UnknownAttributeType("X".to_string()), "Unknown attribute type"),
    ];
    for (error, expected) in cases {
        assert_eq!(expected, error.description());
    }
}

#[test]
fn lookup_failures_become_loader_errors() {
    assert_eq!(
        ClassLoaderError::InvalidConstantRef(ConstantLookupError::OutOfRange(9)),
        ClassLoaderError::from(ConstantLookupError::OutOfRange(9))
    );
}

#[test]
fn a_class_is_built_from_its_parts() {
    let class = Class {
        minor_version: 0,
        major_version: 52,
        constants: vec![Constant::Utf8("ConstantValue".to_string()), Constant::Integer(7)],
        flags: ClassFlags { bits: CLASS_PUBLIC | CLASS_SUPER },
        this_class: ConstantIndex(3),
        super_class: ConstantIndex(4),
        interfaces: vec![],
        fields: vec![Field {
            flags: FieldFlags { bits: FIELD_PRIVATE },
            name: ConstantIndex(5),
            descriptor: ConstantIndex(6),
            attributes: vec![Attribute::ConstantValue {
                attribute_name: ConstantIndex(1),
                constant_value: ConstantIndex(2),
            }],
        }],
        methods: vec![Method {
            flags: MethodFlags { bits: METHOD_PUBLIC | METHOD_STATIC },
            name: ConstantIndex(7),
            descriptor: ConstantIndex(8),
            attributes: vec![],
        }],
        attributes: vec![],
    };
    assert_eq!(0x0021, class.flags.bits);
    assert_eq!(0x0009, class.methods[0].flags.bits);
    let decoded =
        Attribute::deserialize(&mut cursor(b"\x00\x01\x00\x00\x00\x02\x00\x02"), &class.constants);
    assert_eq!(Ok(&class.fields[0].attributes[0]), decoded.as_ref());
}
