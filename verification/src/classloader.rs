//! The decoders: one constant-pool entry, or one attribute, read from a
//! byte cursor.
//!
//! Every decoder returns what the grammar makes of the unread bytes and
//! leaves the cursor where the grammar says the rest begins.

use crate::classes::{
    attribute_views, pool_view, views, Attribute, AttributeView, Constant, ConstantIndex,
    ConstantLookupError, ConstantView, ExceptionTableRow, MethodHandle, MethodIndex, StackMapFrame,
    StackMapFrameView, VerificationType,
};
use crate::cursor::{
    be_u16, copy_to_slice, get_u16_be, get_u32_be, get_u64_be, get_u8, remaining, unread,
};
use crate::grammar::{
    done, eof_message, fail, is_rest_of, lemma_code_text_reads_forward,
    lemma_exception_table_reads_forward, lemma_nested_attributes_read_forward,
    lemma_parse_multiple_failure_stays, lemma_parse_multiple_reads_forward,
    lemma_parse_multiple_with_constants_failure_stays, lemma_rest_is_no_longer, lemma_rest_of_rest,
    lemma_skipped_is_rest, lemma_whole_is_rest, length_mismatch, parse_attribute, parse_classref,
    parse_code, parse_code_text, parse_constant, parse_constant_index, parse_constant_value,
    parse_counted_verification_types, parse_double, parse_exception_table,
    parse_exception_table_row, parse_fieldref, parse_float, parse_integer,
    parse_interface_method_ref, parse_invoke_dynamic_info, parse_long, parse_method_handle_ref,
    parse_method_index, parse_method_type, parse_methodref, parse_multiple,
    parse_multiple_with_constants, parse_stack_map_frame, parse_stack_map_table, parse_string,
    parse_utf8, parse_verification_type, Parsed,
};
use crate::utf8::{decode_text, Utf8Error};
use vstd::prelude::*;
use vstd::string::StringExecFns;

verus! {

/// Why decoding failed.
#[derive(Debug, PartialEq)]
pub enum ClassLoaderError {
    /// The text of a Utf8 constant is not valid UTF-8.
    Utf8(Utf8Error),
    /// Fewer bytes were left than the named field needs.
    Eof(String),
    /// A pool index did not lead to an entry.
    InvalidConstantRef(ConstantLookupError),
    InvalidConstantType(u8),
    InvalidMethodHandleKind(u8),
    /// An attribute's name index led to an entry that is no text.
    InvalidAttributeType(Constant),
    InvalidStackFrameType(u8),
    InvalidVerificationType(u8),
    /// The length an attribute declares is not the length of its parts.
    LengthMismatch { context: String, stated_length: u32, inferred_length: u32 },
    Misc(String),
    /// A well-formed attribute under a name that this decoder does not know.
    UnknownAttributeType(String),
}

/// The mathematical value of a [`ClassLoaderError`].
pub enum ClassLoaderErrorView {
    Utf8(Utf8Error),
    Eof(Seq<char>),
    InvalidConstantRef(ConstantLookupError),
    InvalidConstantType(u8),
    InvalidMethodHandleKind(u8),
    InvalidAttributeType(ConstantView),
    InvalidStackFrameType(u8),
    InvalidVerificationType(u8),
    LengthMismatch { context: Seq<char>, stated_length: u32, inferred_length: u32 },
    Misc(Seq<char>),
    UnknownAttributeType(Seq<char>),
}

impl View for ClassLoaderError {
    type V = ClassLoaderErrorView;

    open spec fn view(&self) -> ClassLoaderErrorView {
        match *self {
            ClassLoaderError::Utf8(cause) => ClassLoaderErrorView::Utf8(cause),
            ClassLoaderError::Eof(message) => ClassLoaderErrorView::Eof(message@),
            ClassLoaderError::InvalidConstantRef(cause) => ClassLoaderErrorView::InvalidConstantRef(
                cause,
            ),
            ClassLoaderError::InvalidConstantType(tag) => ClassLoaderErrorView::InvalidConstantType(
                tag,
            ),
            ClassLoaderError::InvalidMethodHandleKind(
                kind,
            ) => ClassLoaderErrorView::InvalidMethodHandleKind(kind),
            ClassLoaderError::InvalidAttributeType(
                constant,
            ) => ClassLoaderErrorView::InvalidAttributeType(constant@),
            ClassLoaderError::InvalidStackFrameType(
                tag,
            ) => ClassLoaderErrorView::InvalidStackFrameType(tag),
            ClassLoaderError::InvalidVerificationType(
                kind,
            ) => ClassLoaderErrorView::InvalidVerificationType(kind),
            ClassLoaderError::LengthMismatch {
                context,
                stated_length,
                inferred_length,
            } => ClassLoaderErrorView::LengthMismatch {
                context: context@,
                stated_length,
                inferred_length,
            },
            ClassLoaderError::Misc(message) => ClassLoaderErrorView::Misc(message@),
            ClassLoaderError::UnknownAttributeType(
                name,
            ) => ClassLoaderErrorView::UnknownAttributeType(name@),
        }
    }
}

impl ClassLoaderErrorView {
    /// A short account of the failure: the message itself where the error
    /// carries one, a fixed phrase for its kind otherwise.
    pub open spec fn description_text(self) -> Seq<char> {
        match self {
            ClassLoaderErrorView::Utf8(_) => "Failed to decode Utf8 data"@,
            ClassLoaderErrorView::Eof(message) => message,
            ClassLoaderErrorView::InvalidConstantRef(_) => "Invalid constant reference"@,
            ClassLoaderErrorView::InvalidConstantType(_) => "Unsupported constant type"@,
            ClassLoaderErrorView::InvalidMethodHandleKind(_) => "Unsupported method handle kind"@,
            ClassLoaderErrorView::InvalidAttributeType(_) => "Invalid attribute type"@,
            ClassLoaderErrorView::InvalidVerificationType(_) => "Invalid verification type"@,
            ClassLoaderErrorView::InvalidStackFrameType(_) => "Invalid stack frame type"@,
            ClassLoaderErrorView::LengthMismatch {
                ..
            } => "Stated length of entity disagrees with inferred length"@,
            ClassLoaderErrorView::Misc(message) => message,
            ClassLoaderErrorView::UnknownAttributeType(_) => "Unknown attribute type"@,
        }
    }
}

impl ClassLoaderError {
    /// A short account of the failure.
    pub fn description(&self) -> (text: &str)
        ensures
            text@ == self@.description_text(),
    {
        match self {
            ClassLoaderError::Utf8(_) => "Failed to decode Utf8 data",
            ClassLoaderError::Eof(msg) => msg.as_str(),
            ClassLoaderError::InvalidConstantRef(_) => "Invalid constant reference",
            ClassLoaderError::InvalidConstantType(_) => "Unsupported constant type",
            ClassLoaderError::InvalidMethodHandleKind(_) => "Unsupported method handle kind",
            ClassLoaderError::InvalidAttributeType(_) => "Invalid attribute type",
            ClassLoaderError::InvalidVerificationType(_) => "Invalid verification type",
            ClassLoaderError::InvalidStackFrameType(_) => "Invalid stack frame type",
            ClassLoaderError::LengthMismatch {
                ..
            } => "Stated length of entity disagrees with inferred length",
            ClassLoaderError::Misc(msg) => msg.as_str(),
            ClassLoaderError::UnknownAttributeType(_) => "Unknown attribute type",
        }
    }
}

impl From<ConstantLookupError> for ClassLoaderError {
    fn from(cause: ConstantLookupError) -> (error: ClassLoaderError) {
        ClassLoaderError::InvalidConstantRef(cause)
    }
}

impl vstd::std_specs::convert::FromSpecImpl<ConstantLookupError> for ClassLoaderError {
    open spec fn obeys_from_spec() -> bool {
        true
    }

    open spec fn from_spec(cause: ConstantLookupError) -> ClassLoaderError {
        ClassLoaderError::InvalidConstantRef(cause)
    }
}

/// What a decoder made of its input: the view of what it returned, and the
/// bytes it left in the cursor.
pub open spec fn outcome<T: View>(
    decoded: Result<T, ClassLoaderError>,
    data: std::io::Cursor<bytes::Bytes>,
) -> Parsed<T::V> {
    Parsed {
        result: match decoded {
            Ok(value) => Ok(value@),
            Err(error) => Err(error@),
        },
        rest: unread(data),
    }
}

/// A record that is decoded from the bytes alone.
pub trait Deserialize: Sized + View {
    /// The layout of the record.
    spec fn grammar(input: Seq<u8>) -> Parsed<Self::V>;

    /// A rule only reads forward: what it leaves is no longer than what it
    /// was given.
    proof fn lemma_grammar_reads_forward(input: Seq<u8>)
        ensures
            is_rest_of(Self::grammar(input).rest, input),
    ;

    /// Decodes one record and leaves the cursor behind it.
    fn deserialize(data: &mut std::io::Cursor<bytes::Bytes>) -> (decoded: Result<
        Self,
        ClassLoaderError,
    >)
        ensures
            outcome(decoded, *final(data)) == Self::grammar(unread(*old(data))),
    ;
}

/// The failure for want of bytes while reading `context`.
fn eof(context: &str) -> (error: ClassLoaderError)
    ensures
        error@ == ClassLoaderErrorView::Eof(eof_message(context@)),
{
    let mut message = String::from_str("Unexpected end of stream while parsing ");
    message.append(context);
    ClassLoaderError::Eof(message)
}

/// Checks that `required` bytes are left before `context` is read.
fn require(data: &std::io::Cursor<bytes::Bytes>, required: usize, context: &str) -> (checked:
    Result<(), ClassLoaderError>)
    ensures
        match checked {
            Ok(_) => unread(*data).len() >= required,
            Err(error) => unread(*data).len() < required && error@ == ClassLoaderErrorView::Eof(
                eof_message(context@),
            ),
        },
{
    if remaining(data) < required {
        Err(eof(context))
    } else {
        Ok(())
    }
}

fn deserialize_constant_index(data: &mut std::io::Cursor<bytes::Bytes>) -> (decoded: Result<
    ConstantIndex,
    ClassLoaderError,
>)
    ensures
        outcome(decoded, *final(data)) == parse_constant_index(unread(*old(data))),
{
    require(data, 2, "constant index")?;
    Ok(ConstantIndex(get_u16_be(data)))
}


fn deserialize_method_index(data: &mut std::io::Cursor<bytes::Bytes>) -> (decoded: Result<
    MethodIndex,
    ClassLoaderError,
>)
    ensures
        outcome(decoded, *final(data)) == parse_method_index(unread(*old(data))),
{
    require(data, 2, "method index")?;
    Ok(MethodIndex(get_u16_be(data)))
}

fn deserialize_utf8(data: &mut std::io::Cursor<bytes::Bytes>) -> (decoded: Result<
    Constant,
    ClassLoaderError,
>)
    ensures
        outcome(decoded, *final(data)) == parse_utf8(unread(*old(data))),
{
    require(data, 2, "length field of Utf8 constant")?;
    let length = get_u16_be(data) as usize;

    require(data, length, "Utf8 constant")?;
    let mut contents: Vec<u8> = vec![0u8; length];
    copy_to_slice(data, contents.as_mut_slice());

    match decode_text(contents.as_slice()) {
        Ok(text) => Ok(Constant::Utf8(text)),
        Err(cause) => Err(ClassLoaderError::Utf8(cause)),
    }
}

fn deserialize_integer(data: &mut std::io::Cursor<bytes::Bytes>) -> (decoded: Result<
    Constant,
    ClassLoaderError,
>)
    ensures
        outcome(decoded, *final(data)) == parse_integer(unread(*old(data))),
{
    require(data, 4, "Integer constant")?;
    Ok(Constant::Integer(get_u32_be(data)))
}

fn deserialize_float(data: &mut std::io::Cursor<bytes::Bytes>) -> (decoded: Result<
    Constant,
    ClassLoaderError,
>)
    ensures
        outcome(decoded, *final(data)) == parse_float(unread(*old(data))),
{
    require(data, 4, "Float constant")?;
    Ok(Constant::Float(get_u32_be(data)))
}

fn deserialize_long(data: &mut std::io::Cursor<bytes::Bytes>) -> (decoded: Result<
    Constant,
    ClassLoaderError,
>)
    ensures
        outcome(decoded, *final(data)) == parse_long(unread(*old(data))),
{
    require(data, 8, "Long constant")?;
    Ok(Constant::Long(get_u64_be(data)))
}

fn deserialize_double(data: &mut std::io::Cursor<bytes::Bytes>) -> (decoded: Result<
    Constant,
    ClassLoaderError,
>)
    ensures
        outcome(decoded, *final(data)) == parse_double(unread(*old(data))),
{
    require(data, 8, "Double constant")?;
    Ok(Constant::Double(get_u64_be(data)))
}

fn deserialize_classref(data: &mut std::io::Cursor<bytes::Bytes>) -> (decoded: Result<
    Constant,
    ClassLoaderError,
>)
    ensures
        outcome(decoded, *final(data)) == parse_classref(unread(*old(data))),
{
    Ok(Constant::ClassRef(deserialize_constant_index(data)?))
}

fn deserialize_string(data: &mut std::io::Cursor<bytes::Bytes>) -> (decoded: Result<
    Constant,
    ClassLoaderError,
>)
    ensures
        outcome(decoded, *final(data)) == parse_string(unread(*old(data))),
{
    Ok(Constant::StringRef(deserialize_constant_index(data)?))
}

fn deserialize_fieldref(data: &mut std::io::Cursor<bytes::Bytes>) -> (decoded: Result<
    Constant,
    ClassLoaderError,
>)
    ensures
        outcome(decoded, *final(data)) == parse_fieldref(unread(*old(data))),
{
    let class = deserialize_constant_index(data)?;
    let name_and_type = deserialize_constant_index(data)?;
    Ok(Constant::FieldRef { class: class, name_and_type: name_and_type })
}

fn deserialize_methodref(data: &mut std::io::Cursor<bytes::Bytes>) -> (decoded: Result<
    Constant,
    ClassLoaderError,
>)
    ensures
        outcome(decoded, *final(data)) == parse_methodref(unread(*old(data))),
{
    let class = deserialize_constant_index(data)?;
    let name_and_type = deserialize_constant_index(data)?;
    Ok(Constant::MethodRef { class: class, name_and_type: name_and_type })
}

fn deserialize_interface_method_ref(data: &mut std::io::Cursor<bytes::Bytes>) -> (decoded: Result<
    Constant,
    ClassLoaderError,
>)
    ensures
        outcome(decoded, *final(data)) == parse_interface_method_ref(unread(*old(data))),
{
    let class = deserialize_constant_index(data)?;
    let name_and_type = deserialize_constant_index(data)?;
    Ok(Constant::InterfaceMethodRef { class: class, name_and_type: name_and_type })
}

fn deserialize_method_handle_ref(data: &mut std::io::Cursor<bytes::Bytes>) -> (decoded: Result<
    Constant,
    ClassLoaderError,
>)
    ensures
        outcome(decoded, *final(data)) == parse_method_handle_ref(unread(*old(data))),
{
    require(data, 1, "method handle ref kind")?;
    let kind = get_u8(data);
    let index = deserialize_constant_index(data)?;
    let handle = match kind {
        1 => Ok(MethodHandle::GetField(index)),
        2 => Ok(MethodHandle::GetStatic(index)),
        3 => Ok(MethodHandle::PutField(index)),
        4 => Ok(MethodHandle::PutStatic(index)),
        5 => Ok(MethodHandle::InvokeVirtual(index)),
        6 => Ok(MethodHandle::InvokeStatic(index)),
        7 => Ok(MethodHandle::InvokeSpecial(index)),
        8 => Ok(MethodHandle::NewInvokeSpecial(index)),
        9 => Ok(MethodHandle::InvokeInterface(index)),
        _ => Err(ClassLoaderError::InvalidMethodHandleKind(kind)),
    };
    match handle {
        Ok(handle) => Ok(Constant::MethodHandleRef(handle)),
        Err(error) => Err(error),
    }
}

fn deserialize_method_type(data: &mut std::io::Cursor<bytes::Bytes>) -> (decoded: Result<
    Constant,
    ClassLoaderError,
>)
    ensures
        outcome(decoded, *final(data)) == parse_method_type(unread(*old(data))),
{
    Ok(Constant::MethodType(deserialize_constant_index(data)?))
}

fn deserialize_invoke_dynamic_info(data: &mut std::io::Cursor<bytes::Bytes>) -> (decoded: Result<
    Constant,
    ClassLoaderError,
>)
    ensures
        outcome(decoded, *final(data)) == parse_invoke_dynamic_info(unread(*old(data))),
{
    Ok(
        Constant::InvokeDynamicInfo {
            bootstrap_method_attr: deserialize_method_index(data)?,
            name_and_type: deserialize_constant_index(data)?,
        },
    )
}

impl Deserialize for Constant {
    open spec fn grammar(input: Seq<u8>) -> Parsed<ConstantView> {
        parse_constant(input)
    }

    proof fn lemma_grammar_reads_forward(input: Seq<u8>) {
        reveal(is_rest_of);
    }

    /// Decodes one constant-pool entry: the tag byte selects one of the
    /// thirteen encodings, and any other tag is refused.
    fn deserialize(data: &mut std::io::Cursor<bytes::Bytes>) -> (decoded: Result<
        Constant,
        ClassLoaderError,
    >) {
        require(data, 1, "constant tag")?;
        let tag = get_u8(data);
        match tag {
            1 => deserialize_utf8(data),
            3 => deserialize_integer(data),
            4 => deserialize_float(data),
            5 => deserialize_long(data),
            6 => deserialize_double(data),
            7 => deserialize_classref(data),
            8 => deserialize_string(data),
            9 => deserialize_fieldref(data),
            10 => deserialize_methodref(data),
            11 => deserialize_interface_method_ref(data),
            15 => deserialize_method_handle_ref(data),
            16 => deserialize_method_type(data),
            18 => deserialize_invoke_dynamic_info(data),
            _ => Err(ClassLoaderError::InvalidConstantType(tag)),
        }
    }
}


/// What a decoder of a run of records made of its input.
pub open spec fn outcome_all<T: View>(
    decoded: Result<Vec<T>, ClassLoaderError>,
    data: std::io::Cursor<bytes::Bytes>,
) -> Parsed<Seq<T::V>> {
    Parsed {
        result: match decoded {
            Ok(items) => Ok(views(items)),
            Err(error) => Err(error@),
        },
        rest: unread(data),
    }
}

/// Decodes `count` records in a row and stops at the first that fails.
pub fn deserialize_multiple<D: Deserialize>(
    count: usize,
    data: &mut std::io::Cursor<bytes::Bytes>,
) -> (decoded: Result<Vec<D>, ClassLoaderError>)
    ensures
        outcome_all(decoded, *final(data)) == parse_multiple::<D>(
            count as nat,
            unread(*old(data)),
        ),
{
    let ghost input = unread(*data);
    let mut res: Vec<D> = Vec::new();
    let mut read: usize = 0;
    assert(views(res) =~= Seq::<D::V>::empty());
    while read < count
        invariant
            read <= count,
            input == unread(*old(data)),
            parse_multiple::<D>(read as nat, input) == done(views(res), unread(*data)),
        decreases count - read,
    {
        let ghost before = views(res);
        match D::deserialize(data) {
            Ok(item) => {
                res.push(item);
                assert(views(res) =~= before.push(item@));
            },
            Err(error) => {
                proof {
                    assert(parse_multiple::<D>((read + 1) as nat, input) == fail::<Seq<D::V>>(
                        error@,
                        unread(*data),
                    ));
                    lemma_parse_multiple_failure_stays::<D>((read + 1) as nat, count as nat, input);
                }
                return Err(error);
            },
        }
        read = read + 1;
    }
    Ok(res)
}

impl Deserialize for ExceptionTableRow {
    open spec fn grammar(input: Seq<u8>) -> Parsed<ExceptionTableRow> {
        parse_exception_table_row(input)
    }

    proof fn lemma_grammar_reads_forward(input: Seq<u8>) {
        reveal(is_rest_of);
    }

    /// Decodes one row of an exception table.
    fn deserialize(data: &mut std::io::Cursor<bytes::Bytes>) -> (decoded: Result<
        ExceptionTableRow,
        ClassLoaderError,
    >) {
        let ghost input = unread(*data);
        require(data, 8, "exception table row")?;
        let start_pc = get_u16_be(data);
        let end_pc = get_u16_be(data);
        let handler_pc = get_u16_be(data);
        let catch_type = deserialize_constant_index(data)?;
        assert(unread(*data) =~= input.skip(8));
        Ok(
            ExceptionTableRow {
                start_pc: start_pc,
                end_pc: end_pc,
                handler_pc: handler_pc,
                catch_type: catch_type,
            },
        )
    }
}

impl Deserialize for VerificationType {
    open spec fn grammar(input: Seq<u8>) -> Parsed<VerificationType> {
        parse_verification_type(input)
    }

    proof fn lemma_grammar_reads_forward(input: Seq<u8>) {
        reveal(is_rest_of);
    }

    /// Decodes one verification type.
    fn deserialize(data: &mut std::io::Cursor<bytes::Bytes>) -> (decoded: Result<
        VerificationType,
        ClassLoaderError,
    >) {
        require(data, 1, "verification type identifier")?;
        let type_id = get_u8(data);
        match type_id {
            0 => Ok(VerificationType::Top),
            1 => Ok(VerificationType::Integer),
            2 => Ok(VerificationType::Float),
            3 => Ok(VerificationType::Double),
            4 => Ok(VerificationType::Long),
            5 => Ok(VerificationType::Null),
            6 => Ok(VerificationType::UninitializedThis),
            7 => Ok(VerificationType::Object(deserialize_constant_index(data)?)),
            8 => {
                require(data, 2, "uninitialized variable offset")?;
                Ok(VerificationType::Uninitialized(get_u16_be(data)))
            },
            _ => Err(ClassLoaderError::InvalidVerificationType(type_id)),
        }
    }
}

/// A counted run of verification types only reads forward.
proof fn lemma_counted_verification_types_read_forward(input: Seq<u8>, context: Seq<char>)
    ensures
        is_rest_of(parse_counted_verification_types(input, context).rest, input),
{
    if input.len() >= 2 {
        lemma_parse_multiple_reads_forward::<VerificationType>(
            be_u16(input, 0) as nat,
            input.skip(2),
        );
        lemma_skipped_is_rest(input, 2);
        lemma_rest_of_rest(
            parse_multiple::<VerificationType>(be_u16(input, 0) as nat, input.skip(2)).rest,
            input.skip(2),
            input,
        );
    } else {
        lemma_whole_is_rest(input);
    }
}

impl Deserialize for StackMapFrame {
    open spec fn grammar(input: Seq<u8>) -> Parsed<StackMapFrameView> {
        parse_stack_map_frame(input)
    }

    proof fn lemma_grammar_reads_forward(input: Seq<u8>) {
        lemma_whole_is_rest(input);
        if input.len() >= 1 {
            let body = input.skip(1);
            lemma_skipped_is_rest(input, 1);
            VerificationType::lemma_grammar_reads_forward(body);
            lemma_rest_of_rest(parse_verification_type(body).rest, body, input);
            if body.len() >= 2 {
                let tail = body.skip(2);
                lemma_skipped_is_rest(body, 2);
                lemma_rest_of_rest(tail, body, input);
                VerificationType::lemma_grammar_reads_forward(tail);
                lemma_rest_of_rest(parse_verification_type(tail).rest, tail, input);
                lemma_parse_multiple_reads_forward::<VerificationType>(
                    (input[0] - 251) as nat,
                    tail,
                );
                lemma_rest_of_rest(
                    parse_multiple::<VerificationType>((input[0] - 251) as nat, tail).rest,
                    tail,
                    input,
                );
                lemma_counted_verification_types_read_forward(
                    tail,
                    "full stack frame locals count"@,
                );
                let locals = parse_counted_verification_types(
                    tail,
                    "full stack frame locals count"@,
                );
                lemma_rest_of_rest(locals.rest, tail, input);
                lemma_counted_verification_types_read_forward(
                    locals.rest,
                    "full stack frame stack item count"@,
                );
                lemma_rest_of_rest(
                    parse_counted_verification_types(
                        locals.rest,
                        "full stack frame stack item count"@,
                    ).rest,
                    locals.rest,
                    input,
                );
            }
        }
    }

    /// Decodes one stack-map frame. The tag byte alone decides the kind of
    /// frame; the tags 128 to 246 announce none and are refused.
    fn deserialize(data: &mut std::io::Cursor<bytes::Bytes>) -> (decoded: Result<
        StackMapFrame,
        ClassLoaderError,
    >) {
        require(data, 1, "stack map frame type")?;
        let frame_type = get_u8(data);
        match frame_type {
            0..=63 => Ok(StackMapFrame::SameFrame { offset_delta: frame_type }),
            64..=127 => Ok(
                StackMapFrame::SameLocalsOneStackItemFrame {
                    offset_delta: frame_type - 64,
                    stack_item: VerificationType::deserialize(data)?,
                },
            ),
            247 => {
                require(data, 2, "extended stack frame offset")?;
                Ok(
                    StackMapFrame::SameLocalsOneStackItemFrameExtended {
                        offset_delta: get_u16_be(data),
                        stack_item: VerificationType::deserialize(data)?,
                    },
                )
            },
            248..=250 => {
                require(data, 2, "chop frame offset")?;
                Ok(
                    StackMapFrame::ChopFrame {
                        offset_delta: get_u16_be(data),
                        num_absent_locals: (251 - frame_type),
                    },
                )
            },
            251 => {
                require(data, 2, "extended same-frame stack frame offset")?;
                Ok(StackMapFrame::SameFrameExtended { offset_delta: get_u16_be(data) })
            },
            252..=254 => {
                require(data, 2, "append frame offset")?;
                let offset_delta = get_u16_be(data);

                let num_locals = (frame_type - 251) as usize;
                let locals = deserialize_multiple(num_locals, data)?;

                Ok(StackMapFrame::AppendFrame { offset_delta: offset_delta, new_locals: locals })
            },
            255 => {
                require(data, 2, "full stack frame offset")?;
                let offset_delta = get_u16_be(data);

                require(data, 2, "full stack frame locals count")?;
                let num_locals = get_u16_be(data) as usize;
                let locals = deserialize_multiple(num_locals, data)?;

                require(data, 2, "full stack frame stack item count")?;
                let num_stack_items = get_u16_be(data) as usize;
                let stack_items = deserialize_multiple(num_stack_items, data)?;

                Ok(
                    StackMapFrame::FullFrame {
                        offset_delta: offset_delta,
                        locals: locals,
                        stack_items: stack_items,
                    },
                )
            },
            _ => Err(ClassLoaderError::InvalidStackFrameType(frame_type)),
        }
    }
}


/// A record whose decoding consults the constant pool.
pub trait DeserializeWithConstants: Sized + View {
    /// The layout of the record, given the values of the pool's entries.
    spec fn grammar(input: Seq<u8>, pool: Seq<ConstantView>) -> Parsed<Self::V>;

    /// Decodes one record against the completed pool and leaves the cursor
    /// behind it.
    fn deserialize(data: &mut std::io::Cursor<bytes::Bytes>, constants: &Vec<Constant>) -> (decoded:
        Result<Self, ClassLoaderError>)
        ensures
            outcome(decoded, *final(data)) == Self::grammar(
                unread(*old(data)),
                pool_view(constants),
            ),
    ;
}

impl DeserializeWithConstants for Attribute {
    open spec fn grammar(input: Seq<u8>, pool: Seq<ConstantView>) -> Parsed<AttributeView> {
        parse_attribute(input, pool)
    }

    /// Decodes one attribute. Its name is looked up in the pool and selects
    /// the body to decode; a name that this decoder does not know is
    /// refused, and so is a body whose length is not the declared one.
    fn deserialize(data: &mut std::io::Cursor<bytes::Bytes>, constants: &Vec<Constant>) -> (decoded:
        Result<Attribute, ClassLoaderError>) {
        deserialize_attribute(data, constants)
    }
}

/// Whether `name` is the text `expected`.
fn is_named(name: &String, expected: &str) -> (same: bool)
    ensures
        same == (name@ == expected@),
{
    let wanted = String::from_str(expected);
    *name == wanted
}

/// The failure of an attribute called `context` whose parts take up
/// `consumed` bytes where it declared `stated_length`.
fn mismatch(context: &str, stated_length: u32, consumed: usize) -> (error: ClassLoaderError)
    ensures
        error@ == length_mismatch(context@, stated_length, consumed as int),
{
    ClassLoaderError::LengthMismatch {
        context: String::from_str(context),
        stated_length: stated_length,
        inferred_length: (consumed as u64 % 0x1_0000_0000u64) as u32,
    }
}

fn deserialize_attribute(data: &mut std::io::Cursor<bytes::Bytes>, constants: &Vec<Constant>)
    -> (decoded: Result<Attribute, ClassLoaderError>)
    ensures
        outcome(decoded, *final(data)) == parse_attribute(
            unread(*old(data)),
            pool_view(constants),
        ),
    decreases unread(*old(data)).len(), 0nat,
{
    let attribute_type_index = deserialize_constant_index(data)?;
    let attribute_type_ref = match attribute_type_index.clone().lookup(constants) {
        Ok(constant) => constant,
        Err(cause) => {
            return Err(ClassLoaderError::from(cause));
        },
    };
    let attribute_type = match attribute_type_ref {
        Constant::Utf8(attr_type) => attr_type,
        _ => {
            return Err(ClassLoaderError::InvalidAttributeType(attribute_type_ref.clone()));
        },
    };

    require(data, 4, "attribute length")?;
    let length = get_u32_be(data);

    if is_named(attribute_type, "ConstantValue") {
        deserialize_constant_value(attribute_type_index, length, data)
    } else if is_named(attribute_type, "Code") {
        deserialize_code(attribute_type_index, constants, length, data)
    } else if is_named(attribute_type, "StackMapTable") {
        deserialize_stack_map_table(attribute_type_index, length, data)
    } else {
        Err(ClassLoaderError::UnknownAttributeType(attribute_type.clone()))
    }
}

fn deserialize_constant_value(
    attribute_name: ConstantIndex,
    length: u32,
    data: &mut std::io::Cursor<bytes::Bytes>,
) -> (decoded: Result<Attribute, ClassLoaderError>)
    ensures
        outcome(decoded, *final(data)) == parse_constant_value(
            attribute_name,
            length,
            unread(*old(data)),
        ),
{
    if length == 2 {
        Ok(
            Attribute::ConstantValue {
                attribute_name: attribute_name,
                constant_value: deserialize_constant_index(data)?,
            },
        )
    } else {
        Err(mismatch("ConstantValue attribute", length, 2))
    }
}

fn deserialize_code(
    attribute_name: ConstantIndex,
    constants: &Vec<Constant>,
    declared_length: u32,
    data: &mut std::io::Cursor<bytes::Bytes>,
) -> (decoded: Result<Attribute, ClassLoaderError>)
    ensures
        outcome(decoded, *final(data)) == parse_code(
            attribute_name,
            pool_view(constants),
            declared_length,
            unread(*old(data)),
        ),
    decreases unread(*old(data)).len(), 0nat,
{
    let ghost input = unread(*data);
    let initial_bytes_remaining = remaining(data);

    require(data, 2, "Code attribute max stack size")?;
    let max_stack = get_u16_be(data);

    require(data, 2, "Code attribute max locals count")?;
    let max_locals = get_u16_be(data);

    require(data, 4, "Code attribute inner length")?;
    let code_length = get_u32_be(data) as usize;

    require(data, code_length, "Code attribute code body")?;
    let ghost body = unread(*data);
    let mut code: Vec<u8> = vec![0u8; code_length];
    let mut idx: usize = 0;
    while idx < code_length
        invariant
            idx <= code_length,
            code_length <= body.len(),
            code@.len() == code_length,
            code@.take(idx as int) == body.take(idx as int),
            unread(*data) == body.skip(idx as int),
        decreases code_length - idx,
    {
        let byte = get_u8(data);
        code.set(idx, byte);
        idx = idx + 1;
        assert(code@.take(idx as int) =~= body.take(idx as int));
        assert(unread(*data) =~= body.skip(idx as int));
    }
    assert(code@ =~= body.take(code_length as int));
    let ghost after_text = unread(*data);

    require(data, 2, "Code attribute exception table length")?;
    let exception_row_count = get_u16_be(data) as usize;
    let exception_table = deserialize_multiple::<ExceptionTableRow>(exception_row_count, data)?;

    require(data, 2, "Code attribute subattribute count")?;
    let attributes_count = get_u16_be(data) as usize;
    proof {
        lemma_code_text_reads_forward(input);
        lemma_exception_table_reads_forward(after_text);
        lemma_nested_attributes_read_forward(
            attributes_count as nat,
            unread(*data),
            pool_view(constants),
        );
        lemma_rest_is_no_longer(after_text, input);
        lemma_rest_is_no_longer(parse_exception_table(after_text).rest, after_text);
        lemma_rest_is_no_longer(
            parse_multiple_with_constants(
                attributes_count as nat,
                unread(*data),
                pool_view(constants),
            ).rest,
            unread(*data),
        );
    }
    let attributes = deserialize_multiple_with_constants(attributes_count, data, constants)?;

    let actual_length = initial_bytes_remaining - remaining(data);
    if actual_length != declared_length as usize {
        return Err(mismatch("Code attribute", declared_length, actual_length));
    }
    Ok(
        Attribute::Code {
            attribute_name: attribute_name,
            max_stack: max_stack,
            max_locals: max_locals,
            code: code,
            exception_table: exception_table,
            attributes: attributes,
        },
    )
}

fn deserialize_stack_map_table(
    attribute_name: ConstantIndex,
    declared_length: u32,
    data: &mut std::io::Cursor<bytes::Bytes>,
) -> (decoded: Result<Attribute, ClassLoaderError>)
    ensures
        outcome(decoded, *final(data)) == parse_stack_map_table(
            attribute_name,
            declared_length,
            unread(*old(data)),
        ),
{
    let initial_bytes_remaining = remaining(data);

    require(data, 2, "stack map table entry count")?;
    let num_entries = get_u16_be(data) as usize;
    proof {
        lemma_parse_multiple_reads_forward::<StackMapFrame>(num_entries as nat, unread(*data));
        lemma_rest_is_no_longer(
            parse_multiple::<StackMapFrame>(num_entries as nat, unread(*data)).rest,
            unread(*data),
        );
    }
    let entries = deserialize_multiple::<StackMapFrame>(num_entries, data)?;

    let actual_length = initial_bytes_remaining - remaining(data);
    if actual_length != declared_length as usize {
        return Err(mismatch("StackMapTable attribute", declared_length, actual_length));
    }
    return Ok(Attribute::StackMapTable { attribute_name: attribute_name, entries: entries });
}

/// Decodes `count` attributes in a row and stops at the first that fails.
fn deserialize_multiple_with_constants(
    count: usize,
    data: &mut std::io::Cursor<bytes::Bytes>,
    constants: &Vec<Constant>,
) -> (decoded: Result<Vec<Attribute>, ClassLoaderError>)
    ensures
        match decoded {
            Ok(items) => parse_multiple_with_constants(
                count as nat,
                unread(*old(data)),
                pool_view(constants),
            ) == done(attribute_views(items), unread(*final(data))),
            Err(error) => parse_multiple_with_constants(
                count as nat,
                unread(*old(data)),
                pool_view(constants),
            ) == fail::<Seq<AttributeView>>(error@, unread(*final(data))),
        },
    decreases unread(*old(data)).len(), count + 1,
{
    let ghost input = unread(*data);
    let ghost pool = pool_view(constants);
    let mut res: Vec<Attribute> = Vec::new();
    let mut read: usize = 0;
    assert(attribute_views(res) =~= Seq::<AttributeView>::empty());
    while read < count
        invariant
            read <= count,
            input == unread(*old(data)),
            pool == pool_view(constants),
            parse_multiple_with_constants(read as nat, input, pool) == done(
                attribute_views(res),
                unread(*data),
            ),
        decreases count - read,
    {
        let ghost before = attribute_views(res);
        proof {
            lemma_nested_attributes_read_forward(read as nat, input, pool);
            lemma_rest_is_no_longer(unread(*data), input);
        }
        match deserialize_attribute(data, constants) {
            Ok(item) => {
                res.push(item);
                assert(attribute_views(res) =~= before.push(item@));
            },
            Err(error) => {
                proof {
                    assert(parse_multiple_with_constants((read + 1) as nat, input, pool) == fail::<
                        Seq<AttributeView>,
                    >(error@, unread(*data)));
                    lemma_parse_multiple_with_constants_failure_stays(
                        (read + 1) as nat,
                        count as nat,
                        input,
                        pool,
                    );
                }
                return Err(error);
            },
        }
        read = read + 1;
    }
    Ok(res)
}

} // verus!
