//! Properties that hold of every input, proved from the grammar and from
//! the contracts of the decoders.

use crate::classes::{
    double_width_slots_padded, is_double_width, resolve, Attribute, AttributeView, Constant,
    ConstantIndex, ConstantLookupError, ConstantView, MethodIndex, StackMapFrameView,
    VerificationType,
};
use crate::classloader::{outcome, ClassLoaderError, ClassLoaderErrorView};
use crate::cursor::{be_u16, be_u32, be_u64, unread};
use crate::grammar::{
    frame_kind, lemma_code_reads_forward, lemma_rest_is_no_longer,
    lemma_stack_map_table_reads_forward, length_mismatch, method_handle_of, parse_attribute,
    parse_code, parse_constant, parse_multiple, parse_stack_map_frame, parse_stack_map_table,
};
use vstd::prelude::*;

verus! {

/// The number of bytes that follow the tag of a constant whose encoding has
/// a fixed width. Text has none, nor has a tag that announces no constant.
pub open spec fn fixed_width(tag: u8) -> Option<nat> {
    if tag == 3 || tag == 4 {
        Some(4)
    } else if tag == 5 || tag == 6 {
        Some(8)
    } else if tag == 7 || tag == 8 || tag == 16 {
        Some(2)
    } else if tag == 9 || tag == 10 || tag == 11 || tag == 18 {
        Some(4)
    } else if tag == 15 {
        Some(3)
    } else {
        None
    }
}

/// The constant that a tag and the bytes behind it stand for, read off the
/// layout table, for the tags of fixed width. A method handle has one only
/// where its kind is one of the nine.
pub open spec fn fixed_width_constant(input: Seq<u8>) -> Option<ConstantView> {
    let tag = input[0];
    if tag == 3 {
        Some(ConstantView::Integer(be_u32(input, 1)))
    } else if tag == 4 {
        Some(ConstantView::Float(be_u32(input, 1)))
    } else if tag == 5 {
        Some(ConstantView::Long(be_u64(input, 1)))
    } else if tag == 6 {
        Some(ConstantView::Double(be_u64(input, 1)))
    } else if tag == 7 {
        Some(ConstantView::ClassRef(ConstantIndex(be_u16(input, 1))))
    } else if tag == 8 {
        Some(ConstantView::StringRef(ConstantIndex(be_u16(input, 1))))
    } else if tag == 9 {
        Some(
            ConstantView::FieldRef {
                class: ConstantIndex(be_u16(input, 1)),
                name_and_type: ConstantIndex(be_u16(input, 3)),
            },
        )
    } else if tag == 10 {
        Some(
            ConstantView::MethodRef {
                class: ConstantIndex(be_u16(input, 1)),
                name_and_type: ConstantIndex(be_u16(input, 3)),
            },
        )
    } else if tag == 11 {
        Some(
            ConstantView::InterfaceMethodRef {
                class: ConstantIndex(be_u16(input, 1)),
                name_and_type: ConstantIndex(be_u16(input, 3)),
            },
        )
    } else if tag == 15 {
        match method_handle_of(input[1], ConstantIndex(be_u16(input, 2))) {
            Some(handle) => Some(ConstantView::MethodHandleRef(handle)),
            None => None,
        }
    } else if tag == 16 {
        Some(ConstantView::MethodType(ConstantIndex(be_u16(input, 1))))
    } else if tag == 18 {
        Some(
            ConstantView::InvokeDynamicInfo {
                bootstrap_method_attr: MethodIndex(be_u16(input, 1)),
                name_and_type: ConstantIndex(be_u16(input, 3)),
            },
        )
    } else {
        None
    }
}

/// A buffer that holds the tag of a fixed-width constant and exactly the
/// bytes of its body decodes to the constant of the layout table and is
/// used up.
pub proof fn lemma_fixed_width_constant_decodes(input: Seq<u8>, value: ConstantView)
    requires
        input.len() >= 1,
        fixed_width(input[0]) == Some((input.len() - 1) as nat),
        fixed_width_constant(input) == Some(value),
    ensures
        parse_constant(input).result == Ok::<ConstantView, ClassLoaderErrorView>(value),
        parse_constant(input).rest.len() == 0,
{
}

/// The same buffer cut short, by one byte or by more, fails for want of
/// bytes.
pub proof fn lemma_truncated_fixed_width_constant_is_eof(input: Seq<u8>, kept: int)
    requires
        input.len() >= 1,
        fixed_width(input[0]) == Some((input.len() - 1) as nat),
        0 <= kept < input.len(),
    ensures
        parse_constant(input.take(kept)).result is Err,
        parse_constant(input.take(kept)).result->Err_0 is Eof,
{
}

/// Index 0 resolves in no pool.
pub proof fn lemma_zero_index_never_resolves(pool: Seq<ConstantView>)
    ensures
        resolve(0, pool) == Err::<ConstantView, ConstantLookupError>(
            ConstantLookupError::ZeroIndex,
        ),
{
}

/// The index one past the last slot of a pool is out of range.
pub proof fn lemma_index_past_the_pool_is_out_of_range(pool: Seq<ConstantView>, index: u16)
    requires
        index == pool.len() + 1,
    ensures
        resolve(index, pool) == Err::<ConstantView, ConstantLookupError>(
            ConstantLookupError::OutOfRange(index),
        ),
{
}

/// In a pool whose double-width entries are padded, the index of the slot
/// right behind a `Long` or `Double` lies inside that constant.
pub proof fn lemma_index_behind_double_width_is_refused(
    pool: Seq<ConstantView>,
    index: u16,
)
    requires
        double_width_slots_padded(pool),
        1 <= index <= pool.len(),
        is_double_width(pool[index - 1]),
        index < 0xffff,
    ensures
        resolve((index + 1) as u16, pool) == Err::<ConstantView, ConstantLookupError>(
            ConstantLookupError::IndexInsideDoubleWidthConstant((index + 1) as u16),
        ),
{
}

/// A ConstantValue attribute that declares a length other than 2 fails with
/// that mismatch, whatever bytes follow its head.
pub proof fn lemma_constant_value_length_must_be_two(input: Seq<u8>, pool: Seq<ConstantView>)
    requires
        input.len() >= 6,
        resolve(be_u16(input, 0), pool) == Ok::<ConstantView, ConstantLookupError>(
            ConstantView::Utf8("ConstantValue"@),
        ),
        be_u32(input, 2) != 2,
    ensures
        parse_attribute(input, pool).result == Err::<AttributeView, ClassLoaderErrorView>(
            length_mismatch("ConstantValue attribute"@, be_u32(input, 2), 2),
        ),
{
}

/// An attribute that decodes takes up its six-byte head and exactly as many
/// bytes as it declares.
pub proof fn lemma_decoded_attribute_has_declared_length(input: Seq<u8>, pool: Seq<ConstantView>)
    requires
        parse_attribute(input, pool).result is Ok,
    ensures
        input.len() >= 6,
        input.len() - parse_attribute(input, pool).rest.len() == 6 + be_u32(input, 2),
{
    let body = input.skip(2).skip(4);
    let name = ConstantIndex(be_u16(input, 0));
    lemma_code_reads_forward(name, pool, be_u32(input, 2), body);
    lemma_rest_is_no_longer(parse_code(name, pool, be_u32(input, 2), body).rest, body);
    lemma_stack_map_table_reads_forward(name, be_u32(input, 2), body);
    lemma_rest_is_no_longer(parse_stack_map_table(name, be_u32(input, 2), body).rest, body);
}

/// No run of verification types fails as a frame tag does.
pub proof fn lemma_verification_types_fail_in_their_own_way(count: nat, input: Seq<u8>)
    ensures
        !(parse_multiple::<VerificationType>(count, input).result matches Err(
            ClassLoaderErrorView::InvalidStackFrameType(_),
        )),
    decreases count,
{
    if count > 0 {
        lemma_verification_types_fail_in_their_own_way((count - 1) as nat, input);
    }
}

/// Every tag byte announces exactly one kind of frame or none: the frames
/// that decode are of the kind their tag announces, and the tags from 128
/// to 246, and they alone, are refused as tags.
pub proof fn lemma_frame_tags_are_complete(input: Seq<u8>)
    requires
        input.len() >= 1,
    ensures
        frame_kind(input[0]) is None <==> 128 <= input[0] <= 246,
        128 <= input[0] <= 246 <==> parse_stack_map_frame(input).result == Err::<
            StackMapFrameView,
            ClassLoaderErrorView,
        >(ClassLoaderErrorView::InvalidStackFrameType(input[0])),
        parse_stack_map_frame(input).result matches Ok(frame) ==> frame_kind(input[0]) == Some(
            frame.kind(),
        ),
{
    let body = input.skip(1);
    if body.len() >= 2 {
        lemma_verification_types_fail_in_their_own_way((input[0] - 251) as nat, body.skip(2));
        if body.skip(2).len() >= 2 {
            let counted = body.skip(2);
            lemma_verification_types_fail_in_their_own_way(
                be_u16(counted, 0) as nat,
                counted.skip(2),
            );
            let locals = parse_multiple::<VerificationType>(
                be_u16(counted, 0) as nat,
                counted.skip(2),
            );
            if locals.rest.len() >= 2 {
                lemma_verification_types_fail_in_their_own_way(
                    be_u16(locals.rest, 0) as nat,
                    locals.rest.skip(2),
                );
            }
        }
    }
}

/// Whether two results of decoding have the same value.
pub open spec fn same_outcome<T: View>(
    first: Result<T, ClassLoaderError>,
    second: Result<T, ClassLoaderError>,
) -> bool {
    match (first, second) {
        (Ok(one), Ok(other)) => one@ == other@,
        (Err(one), Err(other)) => one@ == other@,
        _ => false,
    }
}

/// Decoding a constant from the same bytes twice gives the same value and
/// leaves the same bytes: any two results that meet the decoder's contract
/// on one input agree.
pub proof fn lemma_constant_decoding_is_repeatable(
    input: Seq<u8>,
    first: Result<Constant, ClassLoaderError>,
    first_left: std::io::Cursor<bytes::Bytes>,
    second: Result<Constant, ClassLoaderError>,
    second_left: std::io::Cursor<bytes::Bytes>,
)
    requires
        outcome(first, first_left) == parse_constant(input),
        outcome(second, second_left) == parse_constant(input),
    ensures
        same_outcome(first, second),
        unread(first_left) == unread(second_left),
{
}

/// Decoding an attribute from the same bytes against the same pool twice
/// gives the same value and leaves the same bytes.
pub proof fn lemma_attribute_decoding_is_repeatable(
    input: Seq<u8>,
    pool: Seq<ConstantView>,
    first: Result<Attribute, ClassLoaderError>,
    first_left: std::io::Cursor<bytes::Bytes>,
    second: Result<Attribute, ClassLoaderError>,
    second_left: std::io::Cursor<bytes::Bytes>,
)
    requires
        outcome(first, first_left) == parse_attribute(input, pool),
        outcome(second, second_left) == parse_attribute(input, pool),
    ensures
        same_outcome(first, second),
        unread(first_left) == unread(second_left),
{
}

} // verus!
