//! The binary layout of constants and attributes, as functions on byte
//! sequences.
//!
//! Each rule takes the bytes that lie ahead and says what decoding them
//! yields and which bytes are left over afterwards, on success and on
//! failure alike. All multi-byte integers are big-endian.

use crate::classes::{
    resolve, AttributeView, ConstantIndex, ConstantView, ExceptionTableRow, MethodHandle,
    MethodIndex, StackMapFrame, StackMapFrameView, VerificationType,
};
use crate::classloader::{ClassLoaderErrorView, Deserialize};
use crate::cursor::{be_u16, be_u32, be_u64};
use crate::utf8::utf8_failure;
use vstd::prelude::*;
use vstd::utf8::*;

verus! {

/// What a rule makes of its input: the value or the failure, and the bytes
/// that it left unread.
pub struct Parsed<T> {
    pub result: Result<T, ClassLoaderErrorView>,
    pub rest: Seq<u8>,
}

/// A rule that yields `value` and leaves `rest`.
pub open spec fn done<T>(value: T, rest: Seq<u8>) -> Parsed<T> {
    Parsed { result: Ok(value), rest }
}

/// A rule that fails with `error` and leaves `rest`.
pub open spec fn fail<T>(error: ClassLoaderErrorView, rest: Seq<u8>) -> Parsed<T> {
    Parsed { result: Err(error), rest }
}

/// The message of a failure for want of bytes while reading `context`.
pub open spec fn eof_message(context: Seq<char>) -> Seq<char> {
    "Unexpected end of stream while parsing "@ + context
}

/// A rule that found too few bytes for `context` and read none of `rest`.
pub open spec fn out_of_input<T>(context: Seq<char>, rest: Seq<u8>) -> Parsed<T> {
    fail(ClassLoaderErrorView::Eof(eof_message(context)), rest)
}

/// Whether `rest` is what is left of `input` once bytes at its front are
/// gone.
#[verifier::opaque]
pub open spec fn is_rest_of(rest: Seq<u8>, input: Seq<u8>) -> bool {
    rest.len() <= input.len() && rest =~= input.skip(input.len() - rest.len())
}

/// A sequence without its first `count` items is what is left of it.
pub proof fn lemma_skipped_is_rest(input: Seq<u8>, count: int)
    requires
        0 <= count <= input.len(),
    ensures
        is_rest_of(input.skip(count), input),
{
    reveal(is_rest_of);
}

/// A sequence is what is left of itself.
pub proof fn lemma_whole_is_rest(input: Seq<u8>)
    ensures
        is_rest_of(input, input),
{
    reveal(is_rest_of);
}

/// What is left of what is left of a sequence is left of that sequence.
pub proof fn lemma_rest_of_rest(last: Seq<u8>, middle: Seq<u8>, input: Seq<u8>)
    requires
        is_rest_of(last, middle),
        is_rest_of(middle, input),
    ensures
        is_rest_of(last, input),
{
    reveal(is_rest_of);
}

/// What is left of a sequence is no longer than the sequence.
pub proof fn lemma_rest_is_no_longer(rest: Seq<u8>, input: Seq<u8>)
    requires
        is_rest_of(rest, input),
    ensures
        rest.len() <= input.len(),
{
    reveal(is_rest_of);
}

/// One byte.
pub open spec fn take_u8(input: Seq<u8>, context: Seq<char>) -> Parsed<u8> {
    if input.len() < 1 {
        out_of_input(context, input)
    } else {
        done(input[0], input.skip(1))
    }
}

/// A 16-bit integer.
pub open spec fn take_u16(input: Seq<u8>, context: Seq<char>) -> Parsed<u16> {
    if input.len() < 2 {
        out_of_input(context, input)
    } else {
        done(be_u16(input, 0), input.skip(2))
    }
}

/// A 32-bit integer.
pub open spec fn take_u32(input: Seq<u8>, context: Seq<char>) -> Parsed<u32> {
    if input.len() < 4 {
        out_of_input(context, input)
    } else {
        done(be_u32(input, 0), input.skip(4))
    }
}

/// A 64-bit integer.
pub open spec fn take_u64(input: Seq<u8>, context: Seq<char>) -> Parsed<u64> {
    if input.len() < 8 {
        out_of_input(context, input)
    } else {
        done(be_u64(input, 0), input.skip(8))
    }
}

/// A pool index: two bytes.
pub open spec fn parse_constant_index(input: Seq<u8>) -> Parsed<ConstantIndex> {
    let index = take_u16(input, "constant index"@);
    match index.result {
        Ok(value) => done(ConstantIndex(value), index.rest),
        Err(error) => fail(error, index.rest),
    }
}

/// An index into the bootstrap-method table: two bytes.
pub open spec fn parse_method_index(input: Seq<u8>) -> Parsed<MethodIndex> {
    let index = take_u16(input, "method index"@);
    match index.result {
        Ok(value) => done(MethodIndex(value), index.rest),
        Err(error) => fail(error, index.rest),
    }
}

/// Two pool indices in a row.
pub open spec fn parse_index_pair(input: Seq<u8>) -> Parsed<(ConstantIndex, ConstantIndex)> {
    let first = parse_constant_index(input);
    match first.result {
        Err(error) => fail(error, first.rest),
        Ok(class) => {
            let second = parse_constant_index(first.rest);
            match second.result {
                Err(error) => fail(error, second.rest),
                Ok(name_and_type) => done((class, name_and_type), second.rest),
            }
        },
    }
}

/// The body of a Utf8 constant: a 16-bit length, then that many bytes of
/// UTF-8 text.
pub open spec fn parse_utf8(input: Seq<u8>) -> Parsed<ConstantView> {
    let length = take_u16(input, "length field of Utf8 constant"@);
    match length.result {
        Err(error) => fail(error, length.rest),
        Ok(length_value) => if length.rest.len() < length_value {
            out_of_input("Utf8 constant"@, length.rest)
        } else {
            let text = length.rest.take(length_value as int);
            let rest = length.rest.skip(length_value as int);
            if valid_utf8(text) {
                done(ConstantView::Utf8(decode_utf8(text)), rest)
            } else {
                fail(ClassLoaderErrorView::Utf8(utf8_failure(text)), rest)
            }
        },
    }
}

/// The body of an Integer constant: four bytes.
pub open spec fn parse_integer(input: Seq<u8>) -> Parsed<ConstantView> {
    let bits = take_u32(input, "Integer constant"@);
    match bits.result {
        Ok(value) => done(ConstantView::Integer(value), bits.rest),
        Err(error) => fail(error, bits.rest),
    }
}

/// The body of a Float constant: four bytes, kept as they are.
pub open spec fn parse_float(input: Seq<u8>) -> Parsed<ConstantView> {
    let bits = take_u32(input, "Float constant"@);
    match bits.result {
        Ok(value) => done(ConstantView::Float(value), bits.rest),
        Err(error) => fail(error, bits.rest),
    }
}

/// The body of a Long constant: eight bytes.
pub open spec fn parse_long(input: Seq<u8>) -> Parsed<ConstantView> {
    let bits = take_u64(input, "Long constant"@);
    match bits.result {
        Ok(value) => done(ConstantView::Long(value), bits.rest),
        Err(error) => fail(error, bits.rest),
    }
}

/// The body of a Double constant: eight bytes, kept as they are.
pub open spec fn parse_double(input: Seq<u8>) -> Parsed<ConstantView> {
    let bits = take_u64(input, "Double constant"@);
    match bits.result {
        Ok(value) => done(ConstantView::Double(value), bits.rest),
        Err(error) => fail(error, bits.rest),
    }
}

/// The body of a class reference: the index of its name.
pub open spec fn parse_classref(input: Seq<u8>) -> Parsed<ConstantView> {
    let index = parse_constant_index(input);
    match index.result {
        Ok(name) => done(ConstantView::ClassRef(name), index.rest),
        Err(error) => fail(error, index.rest),
    }
}

/// The body of a string reference: the index of its text.
pub open spec fn parse_string(input: Seq<u8>) -> Parsed<ConstantView> {
    let index = parse_constant_index(input);
    match index.result {
        Ok(text) => done(ConstantView::StringRef(text), index.rest),
        Err(error) => fail(error, index.rest),
    }
}

/// The body of a field reference: class index, then name-and-type index.
pub open spec fn parse_fieldref(input: Seq<u8>) -> Parsed<ConstantView> {
    let pair = parse_index_pair(input);
    match pair.result {
        Ok(indices) => done(
            ConstantView::FieldRef { class: indices.0, name_and_type: indices.1 },
            pair.rest,
        ),
        Err(error) => fail(error, pair.rest),
    }
}

/// The body of a method reference: class index, then name-and-type index.
pub open spec fn parse_methodref(input: Seq<u8>) -> Parsed<ConstantView> {
    let pair = parse_index_pair(input);
    match pair.result {
        Ok(indices) => done(
            ConstantView::MethodRef { class: indices.0, name_and_type: indices.1 },
            pair.rest,
        ),
        Err(error) => fail(error, pair.rest),
    }
}

/// The body of an interface-method reference: class index, then
/// name-and-type index.
pub open spec fn parse_interface_method_ref(input: Seq<u8>) -> Parsed<ConstantView> {
    let pair = parse_index_pair(input);
    match pair.result {
        Ok(indices) => done(
            ConstantView::InterfaceMethodRef { class: indices.0, name_and_type: indices.1 },
            pair.rest,
        ),
        Err(error) => fail(error, pair.rest),
    }
}

/// The handle that a kind byte selects, for the kinds 1 to 9.
pub open spec fn method_handle_of(kind: u8, index: ConstantIndex) -> Option<MethodHandle> {
    if kind == 1 {
        Some(MethodHandle::GetField(index))
    } else if kind == 2 {
        Some(MethodHandle::GetStatic(index))
    } else if kind == 3 {
        Some(MethodHandle::PutField(index))
    } else if kind == 4 {
        Some(MethodHandle::PutStatic(index))
    } else if kind == 5 {
        Some(MethodHandle::InvokeVirtual(index))
    } else if kind == 6 {
        Some(MethodHandle::InvokeStatic(index))
    } else if kind == 7 {
        Some(MethodHandle::InvokeSpecial(index))
    } else if kind == 8 {
        Some(MethodHandle::NewInvokeSpecial(index))
    } else if kind == 9 {
        Some(MethodHandle::InvokeInterface(index))
    } else {
        None
    }
}

/// The body of a method handle: a kind byte, then the index it wraps. The
/// kind is judged only once both have been read.
pub open spec fn parse_method_handle_ref(input: Seq<u8>) -> Parsed<ConstantView> {
    let kind = take_u8(input, "method handle ref kind"@);
    match kind.result {
        Err(error) => fail(error, kind.rest),
        Ok(kind_value) => {
            let index = parse_constant_index(kind.rest);
            match index.result {
                Err(error) => fail(error, index.rest),
                Ok(target) => match method_handle_of(kind_value, target) {
                    Some(handle) => done(ConstantView::MethodHandleRef(handle), index.rest),
                    None => fail(
                        ClassLoaderErrorView::InvalidMethodHandleKind(kind_value),
                        index.rest,
                    ),
                },
            }
        },
    }
}

/// The body of a method type: the index of its descriptor.
pub open spec fn parse_method_type(input: Seq<u8>) -> Parsed<ConstantView> {
    let index = parse_constant_index(input);
    match index.result {
        Ok(descriptor) => done(ConstantView::MethodType(descriptor), index.rest),
        Err(error) => fail(error, index.rest),
    }
}

/// The body of an invoke-dynamic descriptor: bootstrap-method index, then
/// name-and-type index.
pub open spec fn parse_invoke_dynamic_info(input: Seq<u8>) -> Parsed<ConstantView> {
    let method = parse_method_index(input);
    match method.result {
        Err(error) => fail(error, method.rest),
        Ok(bootstrap_method_attr) => {
            let index = parse_constant_index(method.rest);
            match index.result {
                Err(error) => fail(error, index.rest),
                Ok(name_and_type) => done(
                    ConstantView::InvokeDynamicInfo { bootstrap_method_attr, name_and_type },
                    index.rest,
                ),
            }
        },
    }
}

/// One constant-pool entry: a tag byte, then the body that the tag selects.
pub open spec fn parse_constant(input: Seq<u8>) -> Parsed<ConstantView> {
    let tag = take_u8(input, "constant tag"@);
    match tag.result {
        Err(error) => fail(error, tag.rest),
        Ok(tag_value) => if tag_value == 1 {
            parse_utf8(tag.rest)
        } else if tag_value == 3 {
            parse_integer(tag.rest)
        } else if tag_value == 4 {
            parse_float(tag.rest)
        } else if tag_value == 5 {
            parse_long(tag.rest)
        } else if tag_value == 6 {
            parse_double(tag.rest)
        } else if tag_value == 7 {
            parse_classref(tag.rest)
        } else if tag_value == 8 {
            parse_string(tag.rest)
        } else if tag_value == 9 {
            parse_fieldref(tag.rest)
        } else if tag_value == 10 {
            parse_methodref(tag.rest)
        } else if tag_value == 11 {
            parse_interface_method_ref(tag.rest)
        } else if tag_value == 15 {
            parse_method_handle_ref(tag.rest)
        } else if tag_value == 16 {
            parse_method_type(tag.rest)
        } else if tag_value == 18 {
            parse_invoke_dynamic_info(tag.rest)
        } else {
            fail(ClassLoaderErrorView::InvalidConstantType(tag_value), tag.rest)
        },
    }
}

/// `count` records in a row, each by the rule of `D`. The first failure
/// ends the run and is the failure of the whole.
pub open spec fn parse_multiple<D: Deserialize>(count: nat, input: Seq<u8>) -> Parsed<Seq<D::V>>
    decreases count,
{
    if count == 0 {
        done(Seq::empty(), input)
    } else {
        let front = parse_multiple::<D>((count - 1) as nat, input);
        match front.result {
            Err(error) => fail(error, front.rest),
            Ok(items) => {
                let last = D::grammar(front.rest);
                match last.result {
                    Err(error) => fail(error, last.rest),
                    Ok(item) => done(items.push(item), last.rest),
                }
            },
        }
    }
}


/// Where one record fails, the run fails the same way however many records
/// were asked for.
pub proof fn lemma_parse_multiple_failure_stays<D: Deserialize>(
    failed: nat,
    count: nat,
    input: Seq<u8>,
)
    requires
        failed <= count,
        parse_multiple::<D>(failed, input).result is Err,
    ensures
        parse_multiple::<D>(count, input) == parse_multiple::<D>(failed, input),
    decreases count,
{
    if failed < count {
        lemma_parse_multiple_failure_stays::<D>(failed, (count - 1) as nat, input);
    }
}

/// A run of records only reads forward.
pub proof fn lemma_parse_multiple_reads_forward<D: Deserialize>(count: nat, input: Seq<u8>)
    ensures
        is_rest_of(parse_multiple::<D>(count, input).rest, input),
    decreases count,
{
    if count > 0 {
        let front = parse_multiple::<D>((count - 1) as nat, input);
        lemma_parse_multiple_reads_forward::<D>((count - 1) as nat, input);
        D::lemma_grammar_reads_forward(front.rest);
        lemma_rest_of_rest(D::grammar(front.rest).rest, front.rest, input);
    } else {
        lemma_whole_is_rest(input);
    }
}

/// One verification type: a kind byte from 0 to 8; kind 7 is followed by a
/// class index, kind 8 by a bytecode offset.
pub open spec fn parse_verification_type(input: Seq<u8>) -> Parsed<VerificationType> {
    let kind = take_u8(input, "verification type identifier"@);
    match kind.result {
        Err(error) => fail(error, kind.rest),
        Ok(kind_value) => if kind_value == 0 {
            done(VerificationType::Top, kind.rest)
        } else if kind_value == 1 {
            done(VerificationType::Integer, kind.rest)
        } else if kind_value == 2 {
            done(VerificationType::Float, kind.rest)
        } else if kind_value == 3 {
            done(VerificationType::Double, kind.rest)
        } else if kind_value == 4 {
            done(VerificationType::Long, kind.rest)
        } else if kind_value == 5 {
            done(VerificationType::Null, kind.rest)
        } else if kind_value == 6 {
            done(VerificationType::UninitializedThis, kind.rest)
        } else if kind_value == 7 {
            let class = parse_constant_index(kind.rest);
            match class.result {
                Ok(index) => done(VerificationType::Object(index), class.rest),
                Err(error) => fail(error, class.rest),
            }
        } else if kind_value == 8 {
            let offset = take_u16(kind.rest, "uninitialized variable offset"@);
            match offset.result {
                Ok(offset_value) => done(VerificationType::Uninitialized(offset_value), offset.rest),
                Err(error) => fail(error, offset.rest),
            }
        } else {
            fail(ClassLoaderErrorView::InvalidVerificationType(kind_value), kind.rest)
        },
    }
}

/// One row of an exception table: eight bytes, wanted all at once, that
/// hold three program counters and a class index.
pub open spec fn parse_exception_table_row(input: Seq<u8>) -> Parsed<ExceptionTableRow> {
    if input.len() < 8 {
        out_of_input("exception table row"@, input)
    } else {
        done(
            ExceptionTableRow {
                start_pc: be_u16(input, 0),
                end_pc: be_u16(input, 2),
                handler_pc: be_u16(input, 4),
                catch_type: ConstantIndex(be_u16(input, 6)),
            },
            input.skip(8),
        )
    }
}

/// The kinds of stack-map frame.
pub enum FrameKind {
    Same,
    SameLocalsOneStackItem,
    SameLocalsOneStackItemExtended,
    Chop,
    SameExtended,
    Append,
    Full,
}

/// The kind of frame that a tag byte announces: each tag announces one kind
/// or, from 128 to 246, none.
pub open spec fn frame_kind(tag: u8) -> Option<FrameKind> {
    if tag <= 63 {
        Some(FrameKind::Same)
    } else if tag <= 127 {
        Some(FrameKind::SameLocalsOneStackItem)
    } else if tag <= 246 {
        None
    } else if tag == 247 {
        Some(FrameKind::SameLocalsOneStackItemExtended)
    } else if tag <= 250 {
        Some(FrameKind::Chop)
    } else if tag == 251 {
        Some(FrameKind::SameExtended)
    } else if tag <= 254 {
        Some(FrameKind::Append)
    } else {
        Some(FrameKind::Full)
    }
}

impl StackMapFrameView {
    /// The kind of this frame.
    pub open spec fn kind(self) -> FrameKind {
        match self {
            StackMapFrameView::SameFrame { .. } => FrameKind::Same,
            StackMapFrameView::SameLocalsOneStackItemFrame {
                ..
            } => FrameKind::SameLocalsOneStackItem,
            StackMapFrameView::SameLocalsOneStackItemFrameExtended {
                ..
            } => FrameKind::SameLocalsOneStackItemExtended,
            StackMapFrameView::ChopFrame { .. } => FrameKind::Chop,
            StackMapFrameView::SameFrameExtended { .. } => FrameKind::SameExtended,
            StackMapFrameView::AppendFrame { .. } => FrameKind::Append,
            StackMapFrameView::FullFrame { .. } => FrameKind::Full,
        }
    }
}

/// After a tag from 64 to 127: one verification type. The offset is the tag
/// less 64.
pub open spec fn parse_same_locals_one_stack_item_frame(tag: u8, input: Seq<u8>) -> Parsed<
    StackMapFrameView,
> {
    let item = parse_verification_type(input);
    match item.result {
        Err(error) => fail(error, item.rest),
        Ok(stack_item) => done(
            StackMapFrameView::SameLocalsOneStackItemFrame {
                offset_delta: (tag - 64) as u8,
                stack_item,
            },
            item.rest,
        ),
    }
}

/// After tag 247: a 16-bit offset, then one verification type.
pub open spec fn parse_same_locals_one_stack_item_frame_extended(input: Seq<u8>) -> Parsed<
    StackMapFrameView,
> {
    let offset = take_u16(input, "extended stack frame offset"@);
    match offset.result {
        Err(error) => fail(error, offset.rest),
        Ok(offset_delta) => {
            let item = parse_verification_type(offset.rest);
            match item.result {
                Err(error) => fail(error, item.rest),
                Ok(stack_item) => done(
                    StackMapFrameView::SameLocalsOneStackItemFrameExtended {
                        offset_delta,
                        stack_item,
                    },
                    item.rest,
                ),
            }
        },
    }
}

/// After a tag from 248 to 250: a 16-bit offset. The number of locals that
/// went away is 251 less the tag.
pub open spec fn parse_chop_frame(tag: u8, input: Seq<u8>) -> Parsed<StackMapFrameView> {
    let offset = take_u16(input, "chop frame offset"@);
    match offset.result {
        Err(error) => fail(error, offset.rest),
        Ok(offset_delta) => done(
            StackMapFrameView::ChopFrame { offset_delta, num_absent_locals: (251 - tag) as u8 },
            offset.rest,
        ),
    }
}

/// After tag 251: a 16-bit offset.
pub open spec fn parse_same_frame_extended(input: Seq<u8>) -> Parsed<StackMapFrameView> {
    let offset = take_u16(input, "extended same-frame stack frame offset"@);
    match offset.result {
        Err(error) => fail(error, offset.rest),
        Ok(offset_delta) => done(StackMapFrameView::SameFrameExtended { offset_delta }, offset.rest),
    }
}

/// After a tag from 252 to 254: a 16-bit offset, then as many verification
/// types as the tag exceeds 251.
pub open spec fn parse_append_frame(tag: u8, input: Seq<u8>) -> Parsed<StackMapFrameView> {
    let offset = take_u16(input, "append frame offset"@);
    match offset.result {
        Err(error) => fail(error, offset.rest),
        Ok(offset_delta) => {
            let locals = parse_multiple::<VerificationType>((tag - 251) as nat, offset.rest);
            match locals.result {
                Err(error) => fail(error, locals.rest),
                Ok(new_locals) => done(
                    StackMapFrameView::AppendFrame { offset_delta, new_locals },
                    locals.rest,
                ),
            }
        },
    }
}

/// A 16-bit count, then that many verification types.
pub open spec fn parse_counted_verification_types(input: Seq<u8>, context: Seq<char>) -> Parsed<
    Seq<VerificationType>,
> {
    let count = take_u16(input, context);
    match count.result {
        Err(error) => fail(error, count.rest),
        Ok(count_value) => parse_multiple::<VerificationType>(count_value as nat, count.rest),
    }
}

/// After tag 255: a 16-bit offset, the counted locals, the counted stack
/// items.
pub open spec fn parse_full_frame(input: Seq<u8>) -> Parsed<StackMapFrameView> {
    let offset = take_u16(input, "full stack frame offset"@);
    match offset.result {
        Err(error) => fail(error, offset.rest),
        Ok(offset_delta) => {
            let locals = parse_counted_verification_types(
                offset.rest,
                "full stack frame locals count"@,
            );
            match locals.result {
                Err(error) => fail(error, locals.rest),
                Ok(locals_value) => {
                    let stack_items = parse_counted_verification_types(
                        locals.rest,
                        "full stack frame stack item count"@,
                    );
                    match stack_items.result {
                        Err(error) => fail(error, stack_items.rest),
                        Ok(stack_items_value) => done(
                            StackMapFrameView::FullFrame {
                                offset_delta,
                                locals: locals_value,
                                stack_items: stack_items_value,
                            },
                            stack_items.rest,
                        ),
                    }
                },
            }
        },
    }
}

/// One stack-map frame: a tag byte, then what the kind of the tag asks for.
pub open spec fn parse_stack_map_frame(input: Seq<u8>) -> Parsed<StackMapFrameView> {
    let tag = take_u8(input, "stack map frame type"@);
    match tag.result {
        Err(error) => fail(error, tag.rest),
        Ok(tag_value) => match frame_kind(tag_value) {
            None => fail(ClassLoaderErrorView::InvalidStackFrameType(tag_value), tag.rest),
            Some(FrameKind::Same) => done(
                StackMapFrameView::SameFrame { offset_delta: tag_value },
                tag.rest,
            ),
            Some(FrameKind::SameLocalsOneStackItem) => parse_same_locals_one_stack_item_frame(
                tag_value,
                tag.rest,
            ),
            Some(
                FrameKind::SameLocalsOneStackItemExtended,
            ) => parse_same_locals_one_stack_item_frame_extended(tag.rest),
            Some(FrameKind::Chop) => parse_chop_frame(tag_value, tag.rest),
            Some(FrameKind::SameExtended) => parse_same_frame_extended(tag.rest),
            Some(FrameKind::Append) => parse_append_frame(tag_value, tag.rest),
            Some(FrameKind::Full) => parse_full_frame(tag.rest),
        },
    }
}


/// The failure of an attribute whose parts take up `consumed` bytes where it
/// declared `stated_length`. The length found is reported in 32 bits.
pub open spec fn length_mismatch(context: Seq<char>, stated_length: u32, consumed: int)
    -> ClassLoaderErrorView {
    ClassLoaderErrorView::LengthMismatch {
        context,
        stated_length,
        inferred_length: (consumed % 0x1_0000_0000) as u32,
    }
}

/// The body of a ConstantValue attribute: one pool index, under a declared
/// length that must be 2. The length is judged before anything is read.
pub open spec fn parse_constant_value(
    attribute_name: ConstantIndex,
    length: u32,
    input: Seq<u8>,
) -> Parsed<AttributeView> {
    if length == 2 {
        let index = parse_constant_index(input);
        match index.result {
            Err(error) => fail(error, index.rest),
            Ok(constant_value) => done(
                AttributeView::ConstantValue { attribute_name, constant_value },
                index.rest,
            ),
        }
    } else {
        fail(length_mismatch("ConstantValue attribute"@, length, 2), input)
    }
}

/// The head of a Code body: the two limits, then the length-prefixed
/// instructions, taken as they are.
pub open spec fn parse_code_text(input: Seq<u8>) -> Parsed<(u16, u16, Seq<u8>)> {
    let max_stack = take_u16(input, "Code attribute max stack size"@);
    match max_stack.result {
        Err(error) => fail(error, max_stack.rest),
        Ok(max_stack_value) => {
            let max_locals = take_u16(max_stack.rest, "Code attribute max locals count"@);
            match max_locals.result {
                Err(error) => fail(error, max_locals.rest),
                Ok(max_locals_value) => {
                    let length = take_u32(max_locals.rest, "Code attribute inner length"@);
                    match length.result {
                        Err(error) => fail(error, length.rest),
                        Ok(code_length) => if length.rest.len() < code_length {
                            out_of_input("Code attribute code body"@, length.rest)
                        } else {
                            done(
                                (
                                    max_stack_value,
                                    max_locals_value,
                                    length.rest.take(code_length as int),
                                ),
                                length.rest.skip(code_length as int),
                            )
                        },
                    }
                },
            }
        },
    }
}

/// A 16-bit count, then that many exception-table rows.
pub open spec fn parse_exception_table(input: Seq<u8>) -> Parsed<Seq<ExceptionTableRow>> {
    let count = take_u16(input, "Code attribute exception table length"@);
    match count.result {
        Err(error) => fail(error, count.rest),
        Ok(count_value) => parse_multiple::<ExceptionTableRow>(count_value as nat, count.rest),
    }
}

/// An exception table only reads forward.
pub proof fn lemma_exception_table_reads_forward(input: Seq<u8>)
    ensures
        is_rest_of(parse_exception_table(input).rest, input),
{
    if input.len() >= 2 {
        let rows = parse_multiple::<ExceptionTableRow>(be_u16(input, 0) as nat, input.skip(2));
        lemma_parse_multiple_reads_forward::<ExceptionTableRow>(
            be_u16(input, 0) as nat,
            input.skip(2),
        );
        lemma_skipped_is_rest(input, 2);
        lemma_rest_of_rest(rows.rest, input.skip(2), input);
    } else {
        lemma_whole_is_rest(input);
    }
}

/// The head of a Code body only reads forward.
pub proof fn lemma_code_text_reads_forward(input: Seq<u8>)
    ensures
        is_rest_of(parse_code_text(input).rest, input),
{
    reveal(is_rest_of);
}

/// A stack-map table only reads forward.
pub proof fn lemma_stack_map_table_reads_forward(
    attribute_name: ConstantIndex,
    declared_length: u32,
    input: Seq<u8>,
)
    ensures
        is_rest_of(parse_stack_map_table(attribute_name, declared_length, input).rest, input),
{
    if input.len() >= 2 {
        let frames = parse_multiple::<StackMapFrame>(be_u16(input, 0) as nat, input.skip(2));
        lemma_parse_multiple_reads_forward::<StackMapFrame>(
            be_u16(input, 0) as nat,
            input.skip(2),
        );
        lemma_skipped_is_rest(input, 2);
        lemma_rest_of_rest(frames.rest, input.skip(2), input);
    } else {
        lemma_whole_is_rest(input);
    }
}

/// The body of a StackMapTable attribute: a 16-bit count and that many
/// frames, which together must take up the declared length.
pub open spec fn parse_stack_map_table(
    attribute_name: ConstantIndex,
    declared_length: u32,
    input: Seq<u8>,
) -> Parsed<AttributeView> {
    let count = take_u16(input, "stack map table entry count"@);
    match count.result {
        Err(error) => fail(error, count.rest),
        Ok(count_value) => {
            let frames = parse_multiple::<StackMapFrame>(count_value as nat, count.rest);
            match frames.result {
                Err(error) => fail(error, frames.rest),
                Ok(entries) => if input.len() - frames.rest.len() != declared_length {
                    fail(
                        length_mismatch(
                            "StackMapTable attribute"@,
                            declared_length,
                            input.len() - frames.rest.len(),
                        ),
                        frames.rest,
                    )
                } else {
                    done(AttributeView::StackMapTable { attribute_name, entries }, frames.rest)
                },
            }
        },
    }
}

/// `rest` where it is no longer than `input`, as the rest of every rule is;
/// `input` otherwise. It makes plain that nested attributes are read from
/// ever shorter sequences.
pub open spec fn within(rest: Seq<u8>, input: Seq<u8>) -> Seq<u8> {
    if rest.len() <= input.len() {
        rest
    } else {
        input
    }
}

/// One attribute: the index of its name, which must lead to text in the
/// pool; a 32-bit declared length; then the body that the name selects.
pub open spec fn parse_attribute(input: Seq<u8>, pool: Seq<ConstantView>) -> Parsed<AttributeView>
    decreases input.len(), 0nat,
{
    let name = parse_constant_index(input);
    match name.result {
        Err(error) => fail(error, name.rest),
        Ok(attribute_name) => match resolve(attribute_name.0, pool) {
            Err(cause) => fail(ClassLoaderErrorView::InvalidConstantRef(cause), name.rest),
            Ok(ConstantView::Utf8(text)) => {
                let length = take_u32(name.rest, "attribute length"@);
                match length.result {
                    Err(error) => fail(error, length.rest),
                    Ok(declared_length) => if text == "ConstantValue"@ {
                        parse_constant_value(attribute_name, declared_length, length.rest)
                    } else if text == "Code"@ {
                        parse_code(attribute_name, pool, declared_length, length.rest)
                    } else if text == "StackMapTable"@ {
                        parse_stack_map_table(attribute_name, declared_length, length.rest)
                    } else {
                        fail(ClassLoaderErrorView::UnknownAttributeType(text), length.rest)
                    },
                }
            },
            Ok(entry) => fail(ClassLoaderErrorView::InvalidAttributeType(entry), name.rest),
        },
    }
}

/// The body of a Code attribute: limits and instructions, the exception
/// table, and the counted attributes of the code itself, which together
/// must take up the declared length.
pub open spec fn parse_code(
    attribute_name: ConstantIndex,
    pool: Seq<ConstantView>,
    declared_length: u32,
    input: Seq<u8>,
) -> Parsed<AttributeView>
    decreases input.len(), 0nat,
{
    let text = parse_code_text(input);
    match text.result {
        Err(error) => fail(error, text.rest),
        Ok(head) => {
            let table = parse_exception_table(text.rest);
            match table.result {
                Err(error) => fail(error, table.rest),
                Ok(exception_table) => {
                    let count = take_u16(table.rest, "Code attribute subattribute count"@);
                    match count.result {
                        Err(error) => fail(error, count.rest),
                        Ok(count_value) => {
                            proof {
                                lemma_code_text_reads_forward(input);
                                lemma_exception_table_reads_forward(text.rest);
                                lemma_rest_is_no_longer(text.rest, input);
                                lemma_rest_is_no_longer(table.rest, text.rest);
                            }
                            let nested = parse_multiple_with_constants(
                                count_value as nat,
                                count.rest,
                                pool,
                            );
                            match nested.result {
                                Err(error) => fail(error, nested.rest),
                                Ok(attributes) => if input.len() - nested.rest.len()
                                    != declared_length {
                                    fail(
                                        length_mismatch(
                                            "Code attribute"@,
                                            declared_length,
                                            input.len() - nested.rest.len(),
                                        ),
                                        nested.rest,
                                    )
                                } else {
                                    done(
                                        AttributeView::Code {
                                            attribute_name,
                                            max_stack: head.0,
                                            max_locals: head.1,
                                            code: head.2,
                                            exception_table,
                                            attributes,
                                        },
                                        nested.rest,
                                    )
                                },
                            }
                        },
                    }
                },
            }
        },
    }
}

/// `count` attributes in a row. The first failure ends the run and is the
/// failure of the whole.
pub open spec fn parse_multiple_with_constants(
    count: nat,
    input: Seq<u8>,
    pool: Seq<ConstantView>,
) -> Parsed<Seq<AttributeView>>
    decreases input.len(), count + 1,
{
    if count == 0 {
        done(Seq::empty(), input)
    } else {
        let front = parse_multiple_with_constants((count - 1) as nat, input, pool);
        match front.result {
            Err(error) => fail(error, front.rest),
            Ok(items) => {
                let last = parse_attribute(within(front.rest, input), pool);
                match last.result {
                    Err(error) => fail(error, last.rest),
                    Ok(item) => done(items.push(item), last.rest),
                }
            },
        }
    }
}


/// One attribute only reads forward.
pub proof fn lemma_single_attribute_reads_forward(input: Seq<u8>, pool: Seq<ConstantView>)
    ensures
        is_rest_of(parse_attribute(input, pool).rest, input),
    decreases input.len(), 0nat,
{
    lemma_whole_is_rest(input);
    if input.len() >= 2 {
        let named = input.skip(2);
        lemma_skipped_is_rest(input, 2);
        if named.len() >= 4 {
            let name = ConstantIndex(be_u16(input, 0));
            let declared_length = be_u32(named, 0);
            let body = named.skip(4);
            lemma_skipped_is_rest(named, 4);
            lemma_rest_of_rest(body, named, input);
            if body.len() >= 2 {
                lemma_skipped_is_rest(body, 2);
                lemma_rest_of_rest(body.skip(2), body, input);
            }
            lemma_code_reads_forward(name, pool, declared_length, body);
            lemma_rest_of_rest(parse_code(name, pool, declared_length, body).rest, body, input);
            lemma_stack_map_table_reads_forward(name, declared_length, body);
            lemma_rest_of_rest(
                parse_stack_map_table(name, declared_length, body).rest,
                body,
                input,
            );
        }
    }
}

/// A Code body only reads forward.
pub proof fn lemma_code_reads_forward(
    attribute_name: ConstantIndex,
    pool: Seq<ConstantView>,
    declared_length: u32,
    input: Seq<u8>,
)
    ensures
        is_rest_of(parse_code(attribute_name, pool, declared_length, input).rest, input),
    decreases input.len(), 1nat,
{
    let text = parse_code_text(input);
    let table = parse_exception_table(text.rest);
    lemma_code_text_reads_forward(input);
    lemma_exception_table_reads_forward(text.rest);
    lemma_rest_of_rest(table.rest, text.rest, input);
    lemma_rest_is_no_longer(text.rest, input);
    lemma_rest_is_no_longer(table.rest, text.rest);
    if text.result is Ok && table.result is Ok && table.rest.len() >= 2 {
        let counted = table.rest.skip(2);
        let nested = parse_multiple_with_constants(be_u16(table.rest, 0) as nat, counted, pool);
        lemma_skipped_is_rest(table.rest, 2);
        lemma_rest_of_rest(counted, table.rest, input);
        lemma_nested_attributes_read_forward(be_u16(table.rest, 0) as nat, counted, pool);
        lemma_rest_of_rest(nested.rest, counted, input);
    }
}

/// A run of attributes only reads forward.
pub proof fn lemma_nested_attributes_read_forward(
    count: nat,
    input: Seq<u8>,
    pool: Seq<ConstantView>,
)
    ensures
        is_rest_of(parse_multiple_with_constants(count, input, pool).rest, input),
    decreases input.len(), count + 2,
{
    if count > 0 {
        let front = parse_multiple_with_constants((count - 1) as nat, input, pool);
        lemma_nested_attributes_read_forward((count - 1) as nat, input, pool);
        lemma_rest_is_no_longer(front.rest, input);
        lemma_single_attribute_reads_forward(front.rest, pool);
        lemma_rest_of_rest(parse_attribute(front.rest, pool).rest, front.rest, input);
    } else {
        lemma_whole_is_rest(input);
    }
}

/// Where one attribute fails, the run fails the same way however many
/// attributes were asked for.
pub proof fn lemma_parse_multiple_with_constants_failure_stays(
    failed: nat,
    count: nat,
    input: Seq<u8>,
    pool: Seq<ConstantView>,
)
    requires
        failed <= count,
        parse_multiple_with_constants(failed, input, pool).result is Err,
    ensures
        parse_multiple_with_constants(count, input, pool) == parse_multiple_with_constants(
            failed,
            input,
            pool,
        ),
    decreases count,
{
    if failed < count {
        lemma_parse_multiple_with_constants_failure_stays(
            failed,
            (count - 1) as nat,
            input,
            pool,
        );
    }
}

} // verus!
