//! What holds of the decoder as a whole, proved from the grammar and from the
//! contracts of the reader.

use crate::error::DecodeError;
use crate::opcode::{opcode_of, OpCode};
use crate::read::{action_outcome, Reader};
use crate::types::{read_view, Action, ActionView, FunctionParamView};
use crate::wire::{
    action_at, c_string_at, code_at, define_function_2_at, define_function_at, fits,
    function_view, le_16, opcode_and_length_at, param_at, params_at, payload_at, push_at,
    push_value_advances, push_value_at, strings_at, try_at, u16_at, values_at, zero_from,
    zero_from_is_first_zero,
};
use vstd::prelude::*;

verus! {

/// A zero byte is the end of the program: the record is that one byte, and
/// no action comes out of it, whatever follows.
pub proof fn end_record_is_one_byte(bytes: Seq<u8>, pos: int)
    requires
        0 <= pos < bytes.len(),
        bytes[pos] == 0,
    ensures
        action_at(bytes, pos) == Ok::<(Option<ActionView>, int), DecodeError>((None, pos + 1)),
{
}

/// A record whose opcode has a length field and no entry in the table is
/// kept as it stands, whenever the buffer holds the payload that the length
/// announces: the action carries the opcode and exactly the payload bytes,
/// and the record is the opcode, the two bytes of the length and the payload.
pub proof fn unknown_record_is_kept_whole(bytes: Seq<u8>, pos: int)
    requires
        fits(bytes, pos, 3),
        bytes[pos] >= 0x80,
        opcode_of(bytes[pos]) is None,
        fits(bytes, pos, 3 + le_16(bytes[pos + 1], bytes[pos + 2])),
    ensures
        ({
            let length = le_16(bytes[pos + 1], bytes[pos + 2]) as int;
            action_at(bytes, pos) == Ok::<(Option<ActionView>, int), DecodeError>(
                (
                    Some(
                        ActionView::Unknown {
                            opcode: bytes[pos],
                            data: bytes.subrange(pos + 3, pos + 3 + length),
                        },
                    ),
                    pos + 3 + length,
                ),
            )
        }),
{
}

/// A record whose opcode has no length field and no entry in the table is
/// kept too: it is the opcode alone, with an empty payload.
pub proof fn short_unknown_record_is_kept(bytes: Seq<u8>, pos: int)
    requires
        fits(bytes, pos, 1),
        bytes[pos] < 0x80,
        opcode_of(bytes[pos]) is None,
    ensures
        action_at(bytes, pos) == Ok::<(Option<ActionView>, int), DecodeError>(
            (Some(ActionView::Unknown { opcode: bytes[pos], data: Seq::empty() }), pos + 1),
        ),
{
    assert(bytes.subrange(pos + 1, pos + 1) =~= Seq::empty());
}

/// Values that are read to the end of a buffer end exactly there.
pub proof fn values_end_with_the_buffer(bytes: Seq<u8>, pos: int)
    requires
        pos <= bytes.len(),
    ensures
        values_at(bytes, pos) matches Ok((_, next)) ==> next == bytes.len(),
    decreases bytes.len() - pos,
{
    if pos < bytes.len() {
        push_value_advances(bytes, pos);
        if let Ok((_, next)) = push_value_at(bytes, pos) {
            values_end_with_the_buffer(bytes, next);
        }
    }
}

/// A push record never reaches past its payload: where it can be read, the
/// cursor ends exactly `length` bytes behind the start of the payload.
pub proof fn push_ends_with_its_payload(bytes: Seq<u8>, pos: int, length: int)
    ensures
        push_at(bytes, pos, length) matches Ok((_, next)) ==> next == pos + length,
{
    if fits(bytes, pos, length) {
        values_end_with_the_buffer(bytes.subrange(0, pos + length), pos);
    }
}

/// What a push record gives does not depend on the bytes behind its payload:
/// two buffers that agree up to the end of the payload give the same values,
/// or the same failure.
pub proof fn push_ignores_what_follows(first: Seq<u8>, second: Seq<u8>, pos: int, length: int)
    requires
        fits(first, pos, length),
        fits(second, pos, length),
        first.subrange(0, pos + length) == second.subrange(0, pos + length),
    ensures
        push_at(first, pos, length) == push_at(second, pos, length),
{
}

/// Decoding is a function of the bytes and the position alone. Two readers
/// over equal bytes at equal positions, each asked for its next record, give
/// equal results and stand at equal positions afterwards; so they give equal
/// results for every record that follows, too.
pub proof fn reading_is_deterministic<'a>(
    first: Reader<'a>,
    first_after: Reader<'a>,
    first_result: Result<Option<Action<'a>>, DecodeError>,
    second: Reader<'a>,
    second_after: Reader<'a>,
    second_result: Result<Option<Action<'a>>, DecodeError>,
)
    requires
        first.buffer() == second.buffer(),
        first.pos() == second.pos(),
        action_outcome(first, first_after, first_result),
        action_outcome(second, second_after, second_result),
    ensures
        first_result is Ok <==> second_result is Ok,
        first_result matches Ok(read) ==> read_view(read) == read_view(second_result->Ok_0),
        first_result matches Err(e) ==> second_result == Err::<Option<Action>, DecodeError>(e),
        first_after.buffer() == second_after.buffer(),
        first_after.pos() == second_after.pos(),
{
}

/// Asking for the position is no read. The accessor borrows the reader
/// shared and reports its cursor; the read that follows goes by that cursor
/// and the buffer alone, so it gives what the grammar finds at the reported
/// position, however often the position was asked for.
pub proof fn read_starts_at_the_reported_position<'a>(
    reader: Reader<'a>,
    reported: usize,
    after: Reader<'a>,
    result: Result<Option<Action<'a>>, DecodeError>,
)
    requires
        reported == reader.pos(),
        action_outcome(reader, after, result),
    ensures
        match action_at(reader.buffer(), reported as int) {
            Ok((action, next)) => {
                &&& result is Ok
                &&& read_view(result->Ok_0) == action
                &&& after.pos() == next
            },
            Err(e) => result == Err::<Option<Action>, DecodeError>(e) && after.pos() == reported,
        },
{
}

/// Each flag of a function definition is one bit of the flag field, and no
/// two share a bit: flipping bit `bit` of `flags` flips the flag that is
/// named beside that bit below and leaves every other part as it is.
/// Flipping a bit from 9 up flips nothing.
pub proof fn function_flags_are_independent(
    name: Seq<char>,
    params: Seq<FunctionParamView>,
    flags: u16,
    actions: Seq<u8>,
    bit: u16,
)
    requires
        bit < 16,
    ensures
        ({
            let before = function_view(name, params, flags, actions);
            let after = function_view(name, params, flags ^ (1u16 << bit), actions);
            &&& after.name == before.name
            &&& after.params == before.params
            &&& after.actions == before.actions
            &&& (after.preload_this != before.preload_this) == (bit == 0)
            &&& (after.suppress_this != before.suppress_this) == (bit == 1)
            &&& (after.preload_arguments != before.preload_arguments) == (bit == 2)
            &&& (after.suppress_arguments != before.suppress_arguments) == (bit == 3)
            &&& (after.preload_super != before.preload_super) == (bit == 4)
            &&& (after.suppress_super != before.suppress_super) == (bit == 5)
            &&& (after.preload_root != before.preload_root) == (bit == 6)
            &&& (after.preload_parent != before.preload_parent) == (bit == 7)
            &&& (after.preload_global != before.preload_global) == (bit == 8)
        }),
{
    let flipped = flags ^ (1u16 << bit);
    assert(((flipped & 0b1 != 0) != (flags & 0b1 != 0)) == (bit == 0)) by (bit_vector)
        requires
            bit < 16,
            flipped == flags ^ (1u16 << bit),
    ;
    assert(((flipped & 0b10 != 0) != (flags & 0b10 != 0)) == (bit == 1)) by (bit_vector)
        requires
            bit < 16,
            flipped == flags ^ (1u16 << bit),
    ;
    assert(((flipped & 0b100 != 0) != (flags & 0b100 != 0)) == (bit == 2)) by (bit_vector)
        requires
            bit < 16,
            flipped == flags ^ (1u16 << bit),
    ;
    assert(((flipped & 0b1000 != 0) != (flags & 0b1000 != 0)) == (bit == 3)) by (bit_vector)
        requires
            bit < 16,
            flipped == flags ^ (1u16 << bit),
    ;
    assert(((flipped & 0b1_0000 != 0) != (flags & 0b1_0000 != 0)) == (bit == 4)) by (bit_vector)
        requires
            bit < 16,
            flipped == flags ^ (1u16 << bit),
    ;
    assert(((flipped & 0b10_0000 != 0) != (flags & 0b10_0000 != 0)) == (bit == 5))
        by (bit_vector)
        requires
            bit < 16,
            flipped == flags ^ (1u16 << bit),
    ;
    assert(((flipped & 0b100_0000 != 0) != (flags & 0b100_0000 != 0)) == (bit == 6))
        by (bit_vector)
        requires
            bit < 16,
            flipped == flags ^ (1u16 << bit),
    ;
    assert(((flipped & 0b1000_0000 != 0) != (flags & 0b1000_0000 != 0)) == (bit == 7))
        by (bit_vector)
        requires
            bit < 16,
            flipped == flags ^ (1u16 << bit),
    ;
    assert(((flipped & 0b1_0000_0000 != 0) != (flags & 0b1_0000_0000 != 0)) == (bit == 8))
        by (bit_vector)
        requires
            bit < 16,
            flipped == flags ^ (1u16 << bit),
    ;
}

/// A string that was read ends behind the place where it starts, and inside
/// the buffer.
pub proof fn string_advances(bytes: Seq<u8>, pos: int)
    ensures
        c_string_at(bytes, pos) matches Ok((_, next)) ==> pos < next <= bytes.len(),
{
    if 0 <= pos < bytes.len() {
        zero_from_is_first_zero(bytes, pos);
    }
}

/// A list of strings that was read ends inside the buffer, and not in front
/// of the place where it starts.
pub proof fn strings_advance(bytes: Seq<u8>, pos: int, count: nat)
    requires
        0 <= pos <= bytes.len(),
    ensures
        strings_at(bytes, pos, count) matches Ok((_, next)) ==> pos <= next <= bytes.len(),
    decreases count,
{
    if count > 0 {
        string_advances(bytes, pos);
        if let Ok((_, next)) = c_string_at(bytes, pos) {
            strings_advance(bytes, next, (count - 1) as nat);
        }
    }
}

/// A list of parameters that was read ends inside the buffer, and not in
/// front of the place where it starts.
pub proof fn params_advance(bytes: Seq<u8>, pos: int, count: nat)
    requires
        0 <= pos <= bytes.len(),
    ensures
        params_at(bytes, pos, count) matches Ok((_, next)) ==> pos <= next <= bytes.len(),
    decreases count,
{
    if count > 0 && pos < bytes.len() {
        string_advances(bytes, pos + 1);
        if let Ok((_, next)) = c_string_at(bytes, pos + 1) {
            params_advance(bytes, next, (count - 1) as nat);
        }
    }
}

/// A function definition in the simple form that was read ends inside the
/// buffer, behind the place where it starts.
pub proof fn define_function_advances(bytes: Seq<u8>, pos: int)
    ensures
        define_function_at(bytes, pos) matches Ok((_, next)) ==> pos < next <= bytes.len(),
{
    string_advances(bytes, pos);
    if let Ok((_, q1)) = c_string_at(bytes, pos) {
        if let Ok((count, q2)) = u16_at(bytes, q1) {
            strings_advance(bytes, q2, count as nat);
        }
    }
}

/// A function definition in the extended form that was read ends inside the
/// buffer, behind the place where it starts.
pub proof fn define_function_2_advances(bytes: Seq<u8>, pos: int)
    ensures
        define_function_2_at(bytes, pos) matches Ok((_, next)) ==> pos < next <= bytes.len(),
{
    string_advances(bytes, pos);
    if let Ok((_, q1)) = c_string_at(bytes, pos) {
        if let Ok((count, q2)) = u16_at(bytes, q1) {
            if fits(bytes, q2, 3) {
                params_advance(bytes, q2 + 3, count as nat);
            }
        }
    }
}

/// An exception block that was read ends inside the buffer, behind the
/// place where it starts.
pub proof fn try_advances(bytes: Seq<u8>, pos: int)
    ensures
        try_at(bytes, pos) matches Ok((_, next)) ==> pos < next <= bytes.len(),
{
    if fits(bytes, pos, 7) {
        string_advances(bytes, pos + 7);
    }
}

/// The payload of a record that was read ends inside the buffer, and not in
/// front of the place where it starts.
pub proof fn payload_advances(bytes: Seq<u8>, pos: int, op: OpCode, length: int)
    requires
        0 <= pos <= bytes.len(),
    ensures
        payload_at(bytes, pos, op, length) matches Ok((_, next)) ==> pos <= next <= bytes.len(),
{
    match op {
        OpCode::ConstantPool => {
            if let Ok((count, first)) = u16_at(bytes, pos) {
                strings_advance(bytes, first, count as nat);
            }
        },
        OpCode::DefineFunction => define_function_advances(bytes, pos),
        OpCode::DefineFunction2 => define_function_2_advances(bytes, pos),
        OpCode::GetUrl => {
            string_advances(bytes, pos);
            if let Ok((_, q1)) = c_string_at(bytes, pos) {
                string_advances(bytes, q1);
            }
        },
        OpCode::GotoLabel => string_advances(bytes, pos),
        OpCode::SetTarget => string_advances(bytes, pos),
        OpCode::Push => push_ends_with_its_payload(bytes, pos, length),
        OpCode::Try => try_advances(bytes, pos),
        _ => {},
    }
}

/// The cursor only moves forward, and never out of the buffer: a record
/// that was read, the end marker too, ends behind the place where it starts
/// and inside the buffer. So a caller that reads record after record comes
/// to an end.
pub proof fn record_advances(bytes: Seq<u8>, pos: int)
    ensures
        action_at(bytes, pos) matches Ok((_, next)) ==> pos < next <= bytes.len(),
{
    if let Ok(((opcode, length), body)) = opcode_and_length_at(bytes, pos) {
        if let Some(op) = opcode_of(opcode) {
            payload_advances(bytes, body, op, length as int);
        }
    }
}

/// True when `first` and `second` are equally long and hold the same bytes
/// from `lo` up to, not including, `hi`.
pub open spec fn same_between(first: Seq<u8>, second: Seq<u8>, lo: int, hi: int) -> bool {
    &&& first.len() == second.len()
    &&& forall|i: int| lo <= i < hi && 0 <= i < first.len() ==> first[i] == second[i]
}

/// The terminator of a string is found by the bytes up to it alone.
pub proof fn terminator_is_local(first: Seq<u8>, second: Seq<u8>, pos: int, hi: int)
    requires
        same_between(first, second, pos, hi),
        hi == first.len() || zero_from(first, pos) < hi,
    ensures
        zero_from(second, pos) == zero_from(first, pos),
    decreases first.len() - pos,
{
    if 0 <= pos < first.len() && first[pos] != 0 {
        zero_from_is_first_zero(first, pos + 1);
        terminator_is_local(first, second, pos + 1, hi);
    }
}

/// A string is read from its own bytes alone: buffers that agree from its
/// start up to its terminator, or from its start to their end, give the same
/// string or the same failure.
pub proof fn string_is_local(first: Seq<u8>, second: Seq<u8>, pos: int, hi: int)
    requires
        same_between(first, second, pos, hi),
        hi == first.len() || zero_from(first, pos) < hi,
    ensures
        c_string_at(second, pos) == c_string_at(first, pos),
{
    terminator_is_local(first, second, pos, hi);
    if 0 <= pos < first.len() {
        zero_from_is_first_zero(first, pos);
        let end = zero_from(first, pos);
        assert(first.subrange(pos, end) =~= second.subrange(pos, end));
    }
}

/// Parameters are read from the bytes behind their start alone.
pub proof fn params_are_local(first: Seq<u8>, second: Seq<u8>, pos: int, count: nat)
    requires
        same_between(first, second, pos, first.len() as int),
        0 <= pos,
    ensures
        params_at(second, pos, count) == params_at(first, pos, count),
    decreases count,
{
    if count > 0 {
        string_is_local(first, second, pos + 1, first.len() as int);
        string_advances(first, pos + 1);
        if let Ok((_, next)) = param_at(first, pos) {
            params_are_local(first, second, next, (count - 1) as nat);
        }
    }
}

/// A nested program is read from the bytes behind its start alone.
pub proof fn code_is_local(first: Seq<u8>, second: Seq<u8>, pos: int)
    requires
        same_between(first, second, pos, first.len() as int),
        0 <= pos,
    ensures
        code_at(second, pos) == code_at(first, pos),
{
    if let Ok((code, next)) = code_at(first, pos) {
        assert(first.subrange(pos + 2, next) =~= second.subrange(pos + 2, next));
    }
}

/// Where the flag field stands in a function definition of the extended
/// form whose payload starts at `pos`: behind the terminator of the name,
/// the parameter count and the register count.
pub open spec fn flag_field(bytes: Seq<u8>, pos: int) -> int {
    zero_from(bytes, pos) + 4
}

/// The two bytes of the flag field decide the flags and nothing else. Take
/// a function definition that can be read, and change those two bytes in
/// any way: the definition can still be read, it ends at the same place, and
/// it has the same name, parameters and body; its flags are those of the new
/// field. With `function_flags_are_independent`: flipping one bit in the
/// record flips one flag of the definition.
pub proof fn flag_field_decides_only_the_flags(first: Seq<u8>, second: Seq<u8>, pos: int)
    requires
        define_function_2_at(first, pos) is Ok,
        first.len() == second.len(),
        forall|i: int|
            0 <= i < first.len() && i != flag_field(first, pos) && i != flag_field(first, pos) + 1
                ==> first[i] == second[i],
    ensures
        ({
            let at = flag_field(first, pos);
            &&& fits(first, at, 2)
            &&& define_function_2_at(first, pos) matches Ok((ActionView::DefineFunction2(f), next))
            &&& f == function_view(f.name, f.params, le_16(first[at], first[at + 1]), f.actions)
            &&& define_function_2_at(second, pos) == Ok::<(ActionView, int), DecodeError>(
                (
                    ActionView::DefineFunction2(
                        function_view(
                            f.name,
                            f.params,
                            le_16(second[at], second[at + 1]),
                            f.actions,
                        ),
                    ),
                    next,
                ),
            )
        }),
{
    let at = flag_field(first, pos);
    zero_from_is_first_zero(first, pos);
    string_is_local(first, second, pos, at);
    let count = le_16(first[at - 3], first[at - 2]) as nat;
    params_are_local(first, second, at + 2, count);
    params_advance(first, at + 2, count);
    if let Ok((_, body)) = params_at(first, at + 2, count) {
        code_is_local(first, second, body);
    }
}

} // verus!
