//! The byte-level grammar of action records, as spec functions.
//!
//! Every function here reads `bytes` at a position and gives either the value
//! that stands there together with the position just behind it, or the reason
//! why nothing can be read. Integers are little-endian throughout.

use crate::error::DecodeError;
use crate::opcode::{opcode_of, OpCode};
use crate::types::{
    ActionView, CatchVarView, FunctionParamView, FunctionView, SendVarsMethod, TryBlockView,
    ValueView,
};
use vstd::prelude::*;
use vstd::utf8::*;

verus! {

/// A value read from a buffer and the position just behind it, or a failure.
pub type Decoded<T> = Result<(T, int), DecodeError>;

/// True when `n` bytes stand in `bytes` from `pos` on.
pub open spec fn fits(bytes: Seq<u8>, pos: int, n: int) -> bool {
    0 <= pos && 0 <= n && pos + n <= bytes.len()
}

/// The 16-bit number with the low byte `b0` and the high byte `b1`.
pub open spec fn le_16(b0: u8, b1: u8) -> u16 {
    (b0 as int + 0x100 * b1 as int) as u16
}

/// The 32-bit number with the bytes `b0` to `b3`, lowest first.
pub open spec fn le_32(b0: u8, b1: u8, b2: u8, b3: u8) -> u32 {
    (b0 as int + 0x100 * b1 as int + 0x1_0000 * b2 as int + 0x100_0000 * b3 as int) as u32
}

/// The 64-bit number with the low half `lo` and the high half `hi`.
pub open spec fn le_64(lo: u32, hi: u32) -> u64 {
    (lo as int + 0x1_0000_0000 * hi as int) as u64
}

/// The two's-complement reading of a 16-bit pattern.
pub open spec fn signed_16(pattern: u16) -> i16 {
    if pattern < 0x8000 {
        pattern as i16
    } else {
        (pattern - 0x1_0000) as i16
    }
}

/// The two's-complement reading of a 32-bit pattern.
pub open spec fn signed_32(pattern: u32) -> i32 {
    if pattern < 0x8000_0000 {
        pattern as i32
    } else {
        (pattern - 0x1_0000_0000) as i32
    }
}

/// One byte.
pub open spec fn u8_at(bytes: Seq<u8>, pos: int) -> Decoded<u8> {
    if fits(bytes, pos, 1) {
        Ok((bytes[pos], pos + 1))
    } else {
        Err(DecodeError::UnexpectedEof)
    }
}

/// An unsigned 16-bit number.
pub open spec fn u16_at(bytes: Seq<u8>, pos: int) -> Decoded<u16> {
    if fits(bytes, pos, 2) {
        Ok((le_16(bytes[pos], bytes[pos + 1]), pos + 2))
    } else {
        Err(DecodeError::UnexpectedEof)
    }
}

/// A signed 16-bit number.
pub open spec fn i16_at(bytes: Seq<u8>, pos: int) -> Decoded<i16> {
    match u16_at(bytes, pos) {
        Ok((pattern, next)) => Ok((signed_16(pattern), next)),
        Err(e) => Err(e),
    }
}

/// An unsigned 32-bit number, or the bit pattern of a 32-bit float.
pub open spec fn u32_at(bytes: Seq<u8>, pos: int) -> Decoded<u32> {
    if fits(bytes, pos, 4) {
        Ok((le_32(bytes[pos], bytes[pos + 1], bytes[pos + 2], bytes[pos + 3]), pos + 4))
    } else {
        Err(DecodeError::UnexpectedEof)
    }
}

/// A signed 32-bit number.
pub open spec fn i32_at(bytes: Seq<u8>, pos: int) -> Decoded<i32> {
    match u32_at(bytes, pos) {
        Ok((pattern, next)) => Ok((signed_32(pattern), next)),
        Err(e) => Err(e),
    }
}

/// An unsigned 64-bit number, or the bit pattern of a 64-bit float.
pub open spec fn u64_at(bytes: Seq<u8>, pos: int) -> Decoded<u64> {
    if fits(bytes, pos, 8) {
        Ok(
            (
                le_64(
                    le_32(bytes[pos], bytes[pos + 1], bytes[pos + 2], bytes[pos + 3]),
                    le_32(bytes[pos + 4], bytes[pos + 5], bytes[pos + 6], bytes[pos + 7]),
                ),
                pos + 8,
            ),
        )
    } else {
        Err(DecodeError::UnexpectedEof)
    }
}

/// The `n` bytes from `pos` on, as they stand.
pub open spec fn bytes_at(bytes: Seq<u8>, pos: int, n: int) -> Decoded<Seq<u8>> {
    if fits(bytes, pos, n) {
        Ok((bytes.subrange(pos, pos + n), pos + n))
    } else {
        Err(DecodeError::UnexpectedEof)
    }
}

/// The position of the first zero byte at or behind `pos`, or the length of
/// `bytes` where there is none.
pub open spec fn zero_from(bytes: Seq<u8>, pos: int) -> int
    decreases bytes.len() - pos,
{
    if pos < 0 || pos >= bytes.len() {
        bytes.len() as int
    } else if bytes[pos] == 0 {
        pos
    } else {
        zero_from(bytes, pos + 1)
    }
}

/// `zero_from` finds the terminator of the string that starts at `pos`: no
/// byte in front of it is zero, and it is zero itself unless it is the end of
/// the buffer.
pub proof fn zero_from_is_first_zero(bytes: Seq<u8>, pos: int)
    requires
        0 <= pos <= bytes.len(),
    ensures
        pos <= zero_from(bytes, pos) <= bytes.len(),
        forall|i: int| pos <= i < zero_from(bytes, pos) ==> bytes[i] != 0,
        zero_from(bytes, pos) < bytes.len() ==> bytes[zero_from(bytes, pos)] == 0,
    decreases bytes.len() - pos,
{
    if pos < bytes.len() && bytes[pos] != 0 {
        zero_from_is_first_zero(bytes, pos + 1);
    }
}

/// A zero-terminated string: the text in front of the terminator, which must
/// be UTF-8, and the position behind the terminator.
pub open spec fn c_string_at(bytes: Seq<u8>, pos: int) -> Decoded<Seq<char>> {
    let end = zero_from(bytes, pos);
    if !fits(bytes, pos, 1) || end >= bytes.len() {
        Err(DecodeError::UnexpectedEof)
    } else if !valid_utf8(bytes.subrange(pos, end)) {
        Err(DecodeError::InvalidString)
    } else {
        Ok((decode_utf8(bytes.subrange(pos, end)), end + 1))
    }
}

/// The head of a record: the opcode and the length of the payload. The
/// length is written out, in 16 bits, only behind an opcode of `0x80` or
/// more; otherwise it is zero.
pub open spec fn opcode_and_length_at(bytes: Seq<u8>, pos: int) -> Decoded<(u8, usize)> {
    match u8_at(bytes, pos) {
        Err(e) => Err(e),
        Ok((opcode, body)) => if opcode >= 0x80 {
            match u16_at(bytes, body) {
                Err(e) => Err(e),
                Ok((length, next)) => Ok(((opcode, length as usize), next)),
            }
        } else {
            Ok(((opcode, 0usize), body))
        },
    }
}

/// `count` strings, one behind the other.
pub open spec fn strings_at(bytes: Seq<u8>, pos: int, count: nat) -> Decoded<Seq<Seq<char>>>
    decreases count,
{
    if count == 0 {
        Ok((Seq::empty(), pos))
    } else {
        match c_string_at(bytes, pos) {
            Err(e) => Err(e),
            Ok((first, next)) => match strings_at(bytes, next, (count - 1) as nat) {
                Err(e) => Err(e),
                Ok((rest, end)) => Ok((seq![first] + rest, end)),
            },
        }
    }
}

/// The payload of a constant pool: a 16-bit count and that many strings.
pub open spec fn constant_pool_at(bytes: Seq<u8>, pos: int) -> Decoded<ActionView> {
    match u16_at(bytes, pos) {
        Err(e) => Err(e),
        Ok((count, first)) => match strings_at(bytes, first, count as nat) {
            Err(e) => Err(e),
            Ok((constants, next)) => Ok((ActionView::ConstantPool(constants), next)),
        },
    }
}

/// One value of a push record: a type tag from 0 to 9 and what the tag
/// announces.
pub open spec fn push_value_at(bytes: Seq<u8>, pos: int) -> Decoded<ValueView> {
    match u8_at(bytes, pos) {
        Err(e) => Err(e),
        Ok((tag, body)) => if tag == 0 {
            match c_string_at(bytes, body) {
                Err(e) => Err(e),
                Ok((text, next)) => Ok((ValueView::Str(text), next)),
            }
        } else if tag == 1 {
            match u32_at(bytes, body) {
                Err(e) => Err(e),
                Ok((pattern, next)) => Ok((ValueView::Float(pattern), next)),
            }
        } else if tag == 2 {
            Ok((ValueView::Null, body))
        } else if tag == 3 {
            Ok((ValueView::Undefined, body))
        } else if tag == 4 {
            match u8_at(bytes, body) {
                Err(e) => Err(e),
                Ok((register, next)) => Ok((ValueView::Register(register), next)),
            }
        } else if tag == 5 {
            match u8_at(bytes, body) {
                Err(e) => Err(e),
                Ok((flag, next)) => Ok((ValueView::Bool(flag != 0), next)),
            }
        } else if tag == 6 {
            match u64_at(bytes, body) {
                Err(e) => Err(e),
                Ok((pattern, next)) => Ok((ValueView::Double(pattern), next)),
            }
        } else if tag == 7 {
            match i32_at(bytes, body) {
                Err(e) => Err(e),
                Ok((number, next)) => Ok((ValueView::Int(number), next)),
            }
        } else if tag == 8 {
            match u8_at(bytes, body) {
                Err(e) => Err(e),
                Ok((index, next)) => Ok((ValueView::ConstantPool(index as u16), next)),
            }
        } else if tag == 9 {
            match u16_at(bytes, body) {
                Err(e) => Err(e),
                Ok((index, next)) => Ok((ValueView::ConstantPool(index), next)),
            }
        } else {
            Err(DecodeError::InvalidPushType(tag))
        },
    }
}

/// A value that was read ends behind the place where it starts, and inside
/// the buffer.
pub proof fn push_value_advances(bytes: Seq<u8>, pos: int)
    ensures
        push_value_at(bytes, pos) matches Ok((_, next)) ==> pos < next <= bytes.len(),
{
    if 0 <= pos < bytes.len() {
        zero_from_is_first_zero(bytes, pos + 1);
    }
}

/// The values that fill `bytes` from `pos` to its end. A value that does not
/// end inside `bytes` is a failure.
pub open spec fn values_at(bytes: Seq<u8>, pos: int) -> Decoded<Seq<ValueView>>
    decreases bytes.len() - pos,
{
    if pos >= bytes.len() {
        Ok((Seq::empty(), pos))
    } else {
        match push_value_at(bytes, pos) {
            Err(e) => Err(e),
            Ok((first, next)) => {
                proof {
                    push_value_advances(bytes, pos);
                }
                match values_at(bytes, next) {
                    Err(e) => Err(e),
                    Ok((rest, end)) => Ok((seq![first] + rest, end)),
                }
            },
        }
    }
}

/// The payload of a push record of `length` bytes: the values that fill
/// exactly those bytes. Nothing behind them is looked at.
pub open spec fn push_at(bytes: Seq<u8>, pos: int, length: int) -> Decoded<ActionView> {
    if !fits(bytes, pos, length) {
        Err(DecodeError::UnexpectedEof)
    } else {
        match values_at(bytes.subrange(0, pos + length), pos) {
            Err(e) => Err(e),
            Ok((values, next)) => Ok((ActionView::Push(values), next)),
        }
    }
}

/// A nested program: a 16-bit length and that many bytes, kept as they are.
pub open spec fn code_at(bytes: Seq<u8>, pos: int) -> Decoded<Seq<u8>> {
    match u16_at(bytes, pos) {
        Err(e) => Err(e),
        Ok((length, body)) => bytes_at(bytes, body, length as int),
    }
}

/// The payload of a function definition in the simple form: the name, a
/// 16-bit count and that many parameter names, then the body as a nested
/// program.
pub open spec fn define_function_at(bytes: Seq<u8>, pos: int) -> Decoded<ActionView> {
    match c_string_at(bytes, pos) {
        Err(e) => Err(e),
        Ok((name, q1)) => match u16_at(bytes, q1) {
            Err(e) => Err(e),
            Ok((count, q2)) => match strings_at(bytes, q2, count as nat) {
                Err(e) => Err(e),
                Ok((params, q3)) => match code_at(bytes, q3) {
                    Err(e) => Err(e),
                    Ok((actions, next)) => Ok(
                        (ActionView::DefineFunction { name, params, actions }, next),
                    ),
                },
            },
        }
    }
}

/// One parameter of the extended form: a register byte, where zero stands
/// for no register, and the name.
pub open spec fn param_at(bytes: Seq<u8>, pos: int) -> Decoded<FunctionParamView> {
    match u8_at(bytes, pos) {
        Err(e) => Err(e),
        Ok((register, q1)) => match c_string_at(bytes, q1) {
            Err(e) => Err(e),
            Ok((name, next)) => Ok(
                (
                    FunctionParamView {
                        name,
                        register_index: if register == 0 {
                            None
                        } else {
                            Some(register)
                        },
                    },
                    next,
                ),
            ),
        },
    }
}

/// `count` parameters of the extended form, one behind the other.
pub open spec fn params_at(bytes: Seq<u8>, pos: int, count: nat) -> Decoded<
    Seq<FunctionParamView>,
>
    decreases count,
{
    if count == 0 {
        Ok((Seq::empty(), pos))
    } else {
        match param_at(bytes, pos) {
            Err(e) => Err(e),
            Ok((first, next)) => match params_at(bytes, next, (count - 1) as nat) {
                Err(e) => Err(e),
                Ok((rest, end)) => Ok((seq![first] + rest, end)),
            },
        }
    }
}

/// A function of the extended form with the given parts. Each flag is one
/// bit of `flags`; the bits from 9 up stand for nothing.
pub open spec fn function_view(
    name: Seq<char>,
    params: Seq<FunctionParamView>,
    flags: u16,
    actions: Seq<u8>,
) -> FunctionView {
    FunctionView {
        name,
        params,
        preload_parent: flags & 0b1000_0000 != 0,
        preload_root: flags & 0b100_0000 != 0,
        suppress_super: flags & 0b10_0000 != 0,
        preload_super: flags & 0b1_0000 != 0,
        suppress_arguments: flags & 0b1000 != 0,
        preload_arguments: flags & 0b100 != 0,
        suppress_this: flags & 0b10 != 0,
        preload_this: flags & 0b1 != 0,
        preload_global: flags & 0b1_0000_0000 != 0,
        actions,
    }
}

/// What follows the flags of a function definition in the extended form:
/// `count` parameters, then the body as a nested program.
pub open spec fn function_body_at(
    bytes: Seq<u8>,
    pos: int,
    name: Seq<char>,
    count: nat,
    flags: u16,
) -> Decoded<ActionView> {
    match params_at(bytes, pos, count) {
        Err(e) => Err(e),
        Ok((params, q1)) => match code_at(bytes, q1) {
            Err(e) => Err(e),
            Ok((actions, next)) => Ok(
                (ActionView::DefineFunction2(function_view(name, params, flags, actions)), next),
            ),
        },
    }
}

/// The payload of a function definition in the extended form: the name, a
/// 16-bit parameter count, the register count (one byte, read and dropped),
/// the 16-bit flags, the parameters, then the body as a nested program.
pub open spec fn define_function_2_at(bytes: Seq<u8>, pos: int) -> Decoded<ActionView> {
    match c_string_at(bytes, pos) {
        Err(e) => Err(e),
        Ok((name, q1)) => match u16_at(bytes, q1) {
            Err(e) => Err(e),
            Ok((count, q2)) => match u8_at(bytes, q2) {
                Err(e) => Err(e),
                Ok((_, q3)) => match u16_at(bytes, q3) {
                    Err(e) => Err(e),
                    Ok((flags, q4)) => function_body_at(bytes, q4, name, count as nat, flags),
                },
            },
        },
    }
}

/// The variable of a catch clause: a name where `by_name` holds, else a
/// register byte.
pub open spec fn catch_var_at(bytes: Seq<u8>, pos: int, by_name: bool) -> Decoded<CatchVarView> {
    if by_name {
        match c_string_at(bytes, pos) {
            Err(e) => Err(e),
            Ok((name, next)) => Ok((CatchVarView::Var(name), next)),
        }
    } else {
        match u8_at(bytes, pos) {
            Err(e) => Err(e),
            Ok((register, next)) => Ok((CatchVarView::Register(register), next)),
        }
    }
}

/// The payload of an exception block: a flag byte, the three 16-bit lengths
/// of the try, catch and finally bodies, the catch variable, then the three
/// bodies in that order. All three are read whatever the flags say; bit 0
/// keeps the catch clause, bit 1 the finally clause, and bit 2 names the
/// catch variable.
pub open spec fn try_at(bytes: Seq<u8>, pos: int) -> Decoded<ActionView> {
    match u8_at(bytes, pos) {
        Err(e) => Err(e),
        Ok((flags, q1)) => match u16_at(bytes, q1) {
            Err(e) => Err(e),
            Ok((try_length, q2)) => match u16_at(bytes, q2) {
                Err(e) => Err(e),
                Ok((catch_length, q3)) => match u16_at(bytes, q3) {
                    Err(e) => Err(e),
                    Ok((finally_length, q4)) => match catch_var_at(bytes, q4, flags & 0b100 != 0) {
                        Err(e) => Err(e),
                        Ok((catch_var, q5)) => match bytes_at(bytes, q5, try_length as int) {
                            Err(e) => Err(e),
                            Ok((try_actions, q6)) => match bytes_at(
                                bytes,
                                q6,
                                catch_length as int,
                            ) {
                                Err(e) => Err(e),
                                Ok((catch_actions, q7)) => match bytes_at(
                                    bytes,
                                    q7,
                                    finally_length as int,
                                ) {
                                    Err(e) => Err(e),
                                    Ok((finally_actions, next)) => Ok(
                                        (
                                            ActionView::Try(
                                                TryBlockView {
                                                    try_actions,
                                                    catch: if flags & 0b1 != 0 {
                                                        Some((catch_var, catch_actions))
                                                    } else {
                                                        None
                                                    },
                                                    finally: if flags & 0b10 != 0 {
                                                        Some(finally_actions)
                                                    } else {
                                                        None
                                                    },
                                                },
                                            ),
                                            next,
                                        ),
                                    ),
                                },
                            },
                        },
                    },
                },
            },
        },
    }
}

/// The payload of a record whose opcode the table does not hold: `length`
/// bytes, kept as they are beside the opcode.
pub open spec fn unknown_at(bytes: Seq<u8>, pos: int, opcode: u8, length: int) -> Decoded<
    ActionView,
> {
    match bytes_at(bytes, pos, length) {
        Err(e) => Err(e),
        Ok((data, next)) => Ok((ActionView::Unknown { opcode, data }, next)),
    }
}

/// The payload of a `GetUrl` record: the address and the target window.
pub open spec fn get_url_at(bytes: Seq<u8>, pos: int) -> Decoded<ActionView> {
    match c_string_at(bytes, pos) {
        Err(e) => Err(e),
        Ok((url, q1)) => match c_string_at(bytes, q1) {
            Err(e) => Err(e),
            Ok((target, next)) => Ok((ActionView::GetUrl { url, target }, next)),
        },
    }
}

/// The payload of a `GetUrl2` record: one flag byte. Bit 0 asks to load
/// variables, bit 1 says that the target is a sprite, and the two top bits
/// select how variables are sent: 0, 1 and 2 are defined, 3 is not.
pub open spec fn get_url_2_at(bytes: Seq<u8>, pos: int) -> Decoded<ActionView> {
    match u8_at(bytes, pos) {
        Err(e) => Err(e),
        Ok((flags, next)) => {
            let selector = flags >> 6;
            if selector == 3 {
                Err(DecodeError::InvalidSendVarsMethod(selector))
            } else {
                Ok(
                    (
                        ActionView::GetUrl2 {
                            is_target_sprite: flags & 0b10 != 0,
                            is_load_vars: flags & 0b1 != 0,
                            send_vars_method: if selector == 0 {
                                SendVarsMethod::NoMethod
                            } else if selector == 1 {
                                SendVarsMethod::Get
                            } else {
                                SendVarsMethod::Post
                            },
                        },
                        next,
                    ),
                )
            }
        },
    }
}

/// The payload of a `GotoFrame2` record: one flag byte, and behind it a
/// 16-bit scene offset where bit 1 is set; without it the offset is zero.
/// Bit 0 asks to play from the frame.
pub open spec fn goto_frame_2_at(bytes: Seq<u8>, pos: int) -> Decoded<ActionView> {
    match u8_at(bytes, pos) {
        Err(e) => Err(e),
        Ok((flags, q1)) => if flags & 0b10 != 0 {
            match u16_at(bytes, q1) {
                Err(e) => Err(e),
                Ok((scene_offset, next)) => Ok(
                    (ActionView::GotoFrame2 { set_playing: flags & 0b1 != 0, scene_offset }, next),
                ),
            }
        } else {
            Ok((ActionView::GotoFrame2 { set_playing: flags & 0b1 != 0, scene_offset: 0 }, q1))
        },
    }
}

/// The payload of a `WaitForFrame` record: a 16-bit frame and one byte that
/// counts the actions to skip.
pub open spec fn wait_for_frame_at(bytes: Seq<u8>, pos: int) -> Decoded<ActionView> {
    match u16_at(bytes, pos) {
        Err(e) => Err(e),
        Ok((frame, q1)) => match u8_at(bytes, q1) {
            Err(e) => Err(e),
            Ok((num_actions_to_skip, next)) => Ok(
                (ActionView::WaitForFrame { frame, num_actions_to_skip }, next),
            ),
        },
    }
}

/// What stands behind the head of a record of kind `op`, read from `pos`:
/// the action and the position of the next record. `length` is the payload
/// length from the head; only a push record goes by it.
pub open spec fn payload_at(bytes: Seq<u8>, pos: int, op: OpCode, length: int) -> Decoded<
    ActionView,
> {
    match op {
        OpCode::ConstantPool => constant_pool_at(bytes, pos),
        OpCode::DefineFunction => define_function_at(bytes, pos),
        OpCode::DefineFunction2 => define_function_2_at(bytes, pos),
        OpCode::GetUrl => get_url_at(bytes, pos),
        OpCode::GetUrl2 => get_url_2_at(bytes, pos),
        OpCode::GotoFrame => match u16_at(bytes, pos) {
            Err(e) => Err(e),
            Ok((frame, next)) => Ok((ActionView::GotoFrame(frame), next)),
        },
        OpCode::GotoFrame2 => goto_frame_2_at(bytes, pos),
        OpCode::GotoLabel => match c_string_at(bytes, pos) {
            Err(e) => Err(e),
            Ok((label, next)) => Ok((ActionView::GotoLabel(label), next)),
        },
        OpCode::If => match i16_at(bytes, pos) {
            Err(e) => Err(e),
            Ok((offset, next)) => Ok((ActionView::If { offset }, next)),
        },
        OpCode::Jump => match i16_at(bytes, pos) {
            Err(e) => Err(e),
            Ok((offset, next)) => Ok((ActionView::Jump { offset }, next)),
        },
        OpCode::Push => push_at(bytes, pos, length),
        OpCode::SetTarget => match c_string_at(bytes, pos) {
            Err(e) => Err(e),
            Ok((target, next)) => Ok((ActionView::SetTarget(target), next)),
        },
        OpCode::StoreRegister => match u8_at(bytes, pos) {
            Err(e) => Err(e),
            Ok((register, next)) => Ok((ActionView::StoreRegister(register), next)),
        },
        OpCode::Try => try_at(bytes, pos),
        OpCode::WaitForFrame => wait_for_frame_at(bytes, pos),
        OpCode::WaitForFrame2 => match u8_at(bytes, pos) {
            Err(e) => Err(e),
            Ok((num_actions_to_skip, next)) => Ok(
                (ActionView::WaitForFrame2 { num_actions_to_skip }, next),
            ),
        },
        OpCode::With => match code_at(bytes, pos) {
            Err(e) => Err(e),
            Ok((actions, next)) => Ok((ActionView::With { actions }, next)),
        },
        _ => Ok((ActionView::Plain(op), pos)),
    }
}

/// The record at `pos`: `None` for the end of the program, else the action,
/// and in both cases the position behind the record. An opcode that the
/// table does not hold is no failure: the record is kept as it stands.
pub open spec fn action_at(bytes: Seq<u8>, pos: int) -> Decoded<Option<ActionView>> {
    match opcode_and_length_at(bytes, pos) {
        Err(e) => Err(e),
        Ok(((opcode, length), body)) => match opcode_of(opcode) {
            Some(OpCode::End) => Ok((None, body)),
            Some(op) => match payload_at(bytes, body, op, length as int) {
                Err(e) => Err(e),
                Ok((action, next)) => Ok((Some(action), next)),
            },
            None => match unknown_at(bytes, body, opcode, length as int) {
                Err(e) => Err(e),
                Ok((action, next)) => Ok((Some(action), next)),
            },
        },
    }
}

} // verus!
