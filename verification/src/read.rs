use crate::error::DecodeError;
use crate::opcode::OpCode;
use crate::types::{
    params_view, read_view, strs_view, values_view, Action, CatchVar, Function, FunctionParam,
    FunctionParamView, SendVarsMethod, TryBlock, Value, ValueView,
};
use crate::wire::{
    action_at, bytes_at, c_string_at, code_at, constant_pool_at, define_function_2_at,
    define_function_at, function_body_at, get_url_2_at, get_url_at, goto_frame_2_at, i16_at,
    i32_at, opcode_and_length_at, param_at, params_at, push_at, push_value_advances,
    push_value_at, strings_at, try_at, u16_at, u32_at, u64_at, u8_at, unknown_at, values_at,
    wait_for_frame_at, zero_from, Decoded,
};
use vstd::prelude::*;
use vstd::slice::slice_subrange;
use vstd::utf8::*;

verus! {

/// A cursor over a borrowed buffer of action records.
///
/// A call that fails leaves the reader where it was, so a record is read
/// whole or not at all.
pub struct Reader<'a> {
    input: &'a [u8],
    pos: usize,
    version: u8,
}

/// Checks that `bytes` is UTF-8 and hands it back as text, by
/// `std::str::from_utf8`. The contract claims that the call accepts exactly
/// the well-formed UTF-8 sequences, and that the text it returns is encoded
/// by the bytes it was given.
#[verifier::external_body]
fn utf8_text<'a>(bytes: &'a [u8]) -> (text: Option<&'a str>)
    ensures
        text is Some <==> valid_utf8(bytes@),
        text matches Some(s) ==> encode_utf8(s@) == bytes@,
{
    match std::str::from_utf8(bytes) {
        Ok(s) => Some(s),
        Err(_) => None,
    }
}

impl<'a> Reader<'a> {
    /// The buffer that the reader walks.
    pub closed spec fn buffer(&self) -> Seq<u8> {
        self.input@
    }

    /// The position of the next byte to read. It may lie behind the end of
    /// the buffer, after a seek: every read then fails.
    pub closed spec fn spec_pos(&self) -> usize {
        self.pos
    }

    /// The format version that the reader was made with.
    pub closed spec fn spec_version(&self) -> u8 {
        self.version
    }

    /// A reader at the start of `input`.
    pub fn new(input: &'a [u8], version: u8) -> (reader: Self)
        ensures
            reader.buffer() == input@,
            reader.spec_pos() == 0,
            reader.spec_version() == version,
    {
        Self { input, pos: 0, version }
    }

    /// The position of the next byte to read.
    #[verifier::when_used_as_spec(spec_pos)]
    pub fn pos(&self) -> (pos: usize)
        ensures
            pos == self.spec_pos(),
    {
        self.pos
    }

    /// The format version that the reader was made with.
    #[verifier::when_used_as_spec(spec_version)]
    pub fn version(&self) -> (version: u8)
        ensures
            version == self.spec_version(),
    {
        self.version
    }

    /// Moves the cursor by `relative_offset` bytes. The new position wraps
    /// round the range of `usize`; nothing is read, so a position outside the
    /// buffer shows only in the reads that follow.
    pub fn seek(&mut self, relative_offset: isize)
        ensures
            final(self).buffer() == old(self).buffer(),
            final(self).spec_version() == old(self).spec_version(),
            final(self).spec_pos() == wrapped(old(self).spec_pos() + relative_offset),
    {
        self.pos = self.pos.wrapping_add_signed(relative_offset);
    }

    /// True when `self` is `before` with the cursor moved to `pos`.
    pub open spec fn moved_from(&self, before: Reader<'a>, pos: int) -> bool {
        &&& self.buffer() == before.buffer()
        &&& self.spec_version() == before.spec_version()
        &&& self.spec_pos() == pos
    }

    /// How many bytes stand between the cursor and the end of the buffer.
    fn remaining(&self) -> (n: usize)
        ensures
            self.pos <= self.input@.len() ==> n == self.input@.len() - self.pos,
            self.pos > self.input@.len() ==> n == 0,
    {
        if self.pos <= self.input.len() {
            self.input.len() - self.pos
        } else {
            0
        }
    }

    /// Reads one byte.
    pub fn read_u8(&mut self) -> (result: Result<u8, DecodeError>)
        ensures
            outcome(*old(self), *final(self), result, u8_at(old(self).buffer(), old(self).pos() as int)),
    {
        if self.remaining() < 1 {
            return Err(DecodeError::UnexpectedEof);
        }
        let value = self.input[self.pos];
        self.pos = self.pos + 1;
        Ok(value)
    }

    /// Reads an unsigned 16-bit number.
    pub fn read_u16(&mut self) -> (result: Result<u16, DecodeError>)
        ensures
            outcome(*old(self), *final(self), result, u16_at(old(self).buffer(), old(self).pos() as int)),
    {
        if self.remaining() < 2 {
            return Err(DecodeError::UnexpectedEof);
        }
        let b0: u16 = self.input[self.pos] as u16;
        let b1: u16 = self.input[self.pos + 1] as u16;
        self.pos = self.pos + 2;
        Ok(b0 + 0x100 * b1)
    }

    /// Reads a signed 16-bit number.
    pub fn read_i16(&mut self) -> (result: Result<i16, DecodeError>)
        ensures
            outcome(*old(self), *final(self), result, i16_at(old(self).buffer(), old(self).pos() as int)),
    {
        let pattern = self.read_u16()?;
        if pattern < 0x8000 {
            Ok(pattern as i16)
        } else {
            Ok((pattern as i32 - 0x1_0000) as i16)
        }
    }

    /// Reads an unsigned 32-bit number. A 32-bit float is read in this way,
    /// as its bit pattern.
    pub fn read_u32(&mut self) -> (result: Result<u32, DecodeError>)
        ensures
            outcome(*old(self), *final(self), result, u32_at(old(self).buffer(), old(self).pos() as int)),
    {
        if self.remaining() < 4 {
            return Err(DecodeError::UnexpectedEof);
        }
        let b0: u32 = self.input[self.pos] as u32;
        let b1: u32 = self.input[self.pos + 1] as u32;
        let b2: u32 = self.input[self.pos + 2] as u32;
        let b3: u32 = self.input[self.pos + 3] as u32;
        self.pos = self.pos + 4;
        Ok(b0 + 0x100 * b1 + 0x1_0000 * b2 + 0x100_0000 * b3)
    }

    /// Reads a signed 32-bit number.
    pub fn read_i32(&mut self) -> (result: Result<i32, DecodeError>)
        ensures
            outcome(*old(self), *final(self), result, i32_at(old(self).buffer(), old(self).pos() as int)),
    {
        let pattern = self.read_u32()?;
        if pattern < 0x8000_0000 {
            Ok(pattern as i32)
        } else {
            Ok((pattern as i64 - 0x1_0000_0000) as i32)
        }
    }

    /// Reads an unsigned 64-bit number. A 64-bit float is read in this way,
    /// as its bit pattern.
    pub fn read_u64(&mut self) -> (result: Result<u64, DecodeError>)
        ensures
            outcome(*old(self), *final(self), result, u64_at(old(self).buffer(), old(self).pos() as int)),
    {
        if self.remaining() < 8 {
            return Err(DecodeError::UnexpectedEof);
        }
        let lo = self.read_u32()?;
        let hi = self.read_u32()?;
        Ok(lo as u64 + 0x1_0000_0000 * (hi as u64))
    }

    /// Takes the next `len` bytes as they stand, without copying them.
    pub fn read_slice(&mut self, len: usize) -> (result: Result<&'a [u8], DecodeError>)
        ensures
            outcome(
                *old(self),
                *final(self),
                result,
                bytes_at(old(self).buffer(), old(self).pos() as int, len as int),
            ),
    {
        if self.pos > self.input.len() || self.remaining() < len {
            return Err(DecodeError::UnexpectedEof);
        }
        let slice = slice_subrange(self.input, self.pos, self.pos + len);
        self.pos = self.pos + len;
        Ok(slice)
    }

    /// Reads a zero-terminated string. The text borrows from the buffer and
    /// leaves the terminator out; the cursor ends behind the terminator.
    ///
    /// The text is taken as UTF-8 whatever the format version. Programs of
    /// old versions may hold text in a single-byte code page instead; such
    /// text is refused here wherever it is not UTF-8 as well.
    pub fn read_c_string(&mut self) -> (result: Result<&'a str, DecodeError>)
        ensures
            outcome(*old(self), *final(self), result, c_string_at(old(self).buffer(), old(self).pos() as int)),
    {
        broadcast use encode_utf8_decode_utf8;

        let start = self.pos;
        if self.remaining() < 1 {
            return Err(DecodeError::UnexpectedEof);
        }
        let mut end = start;
        while end < self.input.len() && self.input[end] != 0
            invariant
                start <= end <= self.input@.len(),
                zero_from(self.input@, start as int) == zero_from(self.input@, end as int),
            decreases self.input@.len() - end,
        {
            end = end + 1;
        }
        if end >= self.input.len() {
            return Err(DecodeError::UnexpectedEof);
        }
        match utf8_text(slice_subrange(self.input, start, end)) {
            Some(text) => {
                self.pos = end + 1;
                Ok(text)
            },
            None => Err(DecodeError::InvalidString),
        }
    }

    /// Puts the cursor back to `start` and fails with `e`.
    fn rewind<T>(&mut self, start: usize, e: DecodeError) -> (result: Result<T, DecodeError>)
        ensures
            final(self).moved_from(*old(self), start as int),
            result == Err::<T, DecodeError>(e),
    {
        self.pos = start;
        Err(e)
    }

    /// Reads the head of a record: the opcode, and the payload length that
    /// follows an opcode of `0x80` or more. Behind a smaller opcode no
    /// length is written, and it is zero.
    pub fn read_opcode_and_length(&mut self) -> (result: Result<(u8, usize), DecodeError>)
        ensures
            outcome(
                *old(self),
                *final(self),
                result,
                opcode_and_length_at(old(self).buffer(), old(self).pos() as int),
            ),
    {
        let start = self.pos;
        let opcode = self.read_u8()?;
        let length: usize = if opcode >= 0x80 {
            match self.read_u16() {
                Ok(length) => length as usize,
                Err(e) => return self.rewind(start, e),
            }
        } else {
            0
        };
        Ok((opcode, length))
    }

    /// Keeps a record that the opcode table does not hold: its `length`
    /// payload bytes, as they stand, beside the opcode.
    pub fn read_unknown_action(&mut self, opcode: u8, length: usize) -> (result: Result<
        Action<'a>,
        DecodeError,
    >)
        ensures
            outcome(
                *old(self),
                *final(self),
                result,
                unknown_at(old(self).buffer(), old(self).pos() as int, opcode, length as int),
            ),
    {
        let data = self.read_slice(length)?;
        Ok(Action::Unknown { opcode, data })
    }

    /// Reads one value of a push record.
    pub fn read_push_value(&mut self) -> (result: Result<Value<'a>, DecodeError>)
        ensures
            outcome(
                *old(self),
                *final(self),
                result,
                push_value_at(old(self).buffer(), old(self).pos() as int),
            ),
    {
        let start = self.pos;
        let tag = self.read_u8()?;
        let read = match tag {
            0 => match self.read_c_string() {
                Ok(text) => Ok(Value::Str(text)),
                Err(e) => Err(e),
            },
            1 => match self.read_u32() {
                Ok(pattern) => Ok(Value::Float(pattern)),
                Err(e) => Err(e),
            },
            2 => Ok(Value::Null),
            3 => Ok(Value::Undefined),
            4 => match self.read_u8() {
                Ok(register) => Ok(Value::Register(register)),
                Err(e) => Err(e),
            },
            5 => match self.read_u8() {
                Ok(flag) => Ok(Value::Bool(flag != 0)),
                Err(e) => Err(e),
            },
            6 => match self.read_u64() {
                Ok(pattern) => Ok(Value::Double(pattern)),
                Err(e) => Err(e),
            },
            7 => match self.read_i32() {
                Ok(number) => Ok(Value::Int(number)),
                Err(e) => Err(e),
            },
            8 => match self.read_u8() {
                Ok(index) => Ok(Value::ConstantPool(index as u16)),
                Err(e) => Err(e),
            },
            9 => match self.read_u16() {
                Ok(index) => Ok(Value::ConstantPool(index)),
                Err(e) => Err(e),
            },
            _ => Err(DecodeError::InvalidPushType(tag)),
        };
        match read {
            Ok(value) => Ok(value),
            Err(e) => self.rewind(start, e),
        }
    }

    /// Reads the values of a push record whose payload is `length` bytes
    /// long. The values must fill exactly those bytes: the record does not
    /// say how many they are, and nothing behind it is read.
    pub fn read_push(&mut self, length: usize) -> (result: Result<Action<'a>, DecodeError>)
        ensures
            outcome(
                *old(self),
                *final(self),
                result,
                push_at(old(self).buffer(), old(self).pos() as int, length as int),
            ),
    {
        let start = self.pos;
        if start > self.input.len() || self.remaining() < length {
            return Err(DecodeError::UnexpectedEof);
        }
        let end = start + length;
        let mut window = Reader {
            input: slice_subrange(self.input, 0, end),
            pos: start,
            version: self.version,
        };
        let ghost payload = window.input@;
        let mut values: Vec<Value<'a>> = Vec::new();
        proof {
            assert(values_view(values@) + Seq::<ValueView>::empty() =~= Seq::empty());
        }
        while window.pos < end
            invariant
                *self == *old(self),
                start == self.pos,
                end == start + length,
                end <= self.input@.len(),
                payload == self.input@.subrange(0, end as int),
                window.input@ == payload,
                start <= window.pos <= end,
                match values_at(payload, window.pos as int) {
                    Ok((rest, next)) => values_at(payload, start as int) == Ok::<
                        (Seq<ValueView>, int),
                        DecodeError,
                    >((values_view(values@) + rest, next)),
                    Err(e) => values_at(payload, start as int) == Err::<
                        (Seq<ValueView>, int),
                        DecodeError,
                    >(e),
                },
            decreases end - window.pos,
        {
            let ghost at = window.pos as int;
            let ghost before = values_view(values@);
            match window.read_push_value() {
                Ok(value) => {
                    values.push(value);
                    proof {
                        push_value_advances(payload, at);
                        if let Ok((rest, _)) = values_at(payload, window.pos as int) {
                            assert(before + (seq![value@] + rest) =~= values_view(values@) + rest);
                        }
                    }
                },
                Err(e) => {
                    assert(values_at(payload, at) == Err::<(Seq<ValueView>, int), DecodeError>(e));
                    return Err(e);
                },
            }
        }
        proof {
            assert(values_view(values@) + Seq::<ValueView>::empty() =~= values_view(values@));
        }
        self.pos = end;
        Ok(Action::Push(values))
    }

    /// Reads `count` strings, one behind the other.
    fn read_strings(&mut self, count: u16) -> (result: Result<Vec<&'a str>, DecodeError>)
        ensures
            match strings_at(old(self).buffer(), old(self).pos() as int, count as nat) {
                Ok((strings, next)) => {
                    &&& result is Ok
                    &&& strs_view(result->Ok_0@) == strings
                    &&& final(self).moved_from(*old(self), next)
                },
                Err(e) => {
                    &&& result == Err::<Vec<&str>, DecodeError>(e)
                    &&& final(self).moved_from(*old(self), old(self).pos() as int)
                },
            },
    {
        let start = self.pos;
        let ghost bytes = self.input@;
        let mut strings: Vec<&'a str> = Vec::new();
        let mut done: u16 = 0;
        proof {
            assert(strs_view(strings@) + Seq::<Seq<char>>::empty() =~= Seq::empty());
        }
        while done < count
            invariant
                bytes == old(self).input@,
                start == old(self).pos,
                self.input@ == bytes,
                self.version == old(self).version,
                done <= count,
                match strings_at(bytes, self.pos as int, (count - done) as nat) {
                    Ok((rest, next)) => strings_at(bytes, start as int, count as nat) == Ok::<
                        (Seq<Seq<char>>, int),
                        DecodeError,
                    >((strs_view(strings@) + rest, next)),
                    Err(e) => strings_at(bytes, start as int, count as nat) == Err::<
                        (Seq<Seq<char>>, int),
                        DecodeError,
                    >(e),
                },
            decreases count - done,
        {
            let ghost before = strs_view(strings@);
            let ghost at = self.pos as int;
            let ghost left = (count - done) as nat;
            match self.read_c_string() {
                Ok(text) => {
                    strings.push(text);
                    done = done + 1;
                    proof {
                        if let Ok((rest, _)) = strings_at(
                            bytes,
                            self.pos as int,
                            (count - done) as nat,
                        ) {
                            assert(before + (seq![text@] + rest) =~= strs_view(strings@) + rest);
                        }
                    }
                },
                Err(e) => {
                    assert(strings_at(bytes, at, left) == Err::<(Seq<Seq<char>>, int), DecodeError>(
                        e,
                    ));
                    return self.rewind(start, e);
                },
            }
        }
        proof {
            assert(strs_view(strings@) + Seq::<Seq<char>>::empty() =~= strs_view(strings@));
        }
        Ok(strings)
    }

    /// Takes a nested program: a 16-bit length and that many bytes, which
    /// are handed out as they stand.
    fn read_code(&mut self) -> (result: Result<&'a [u8], DecodeError>)
        ensures
            outcome(
                *old(self),
                *final(self),
                result,
                code_at(old(self).buffer(), old(self).pos() as int),
            ),
    {
        let start = self.pos;
        let length = self.read_u16()?;
        match self.read_slice(length as usize) {
            Ok(code) => Ok(code),
            Err(e) => self.rewind(start, e),
        }
    }

    /// Reads the payload of a function definition in the simple form. The
    /// body is not counted in the record's own length: its length stands
    /// behind the parameters, and the body is handed out undecoded.
    pub fn read_define_function(&mut self) -> (result: Result<Action<'a>, DecodeError>)
        ensures
            outcome(
                *old(self),
                *final(self),
                result,
                define_function_at(old(self).buffer(), old(self).pos() as int),
            ),
    {
        let start = self.pos;
        let name = self.read_c_string()?;
        let num_params = match self.read_u16() {
            Ok(count) => count,
            Err(e) => return self.rewind(start, e),
        };
        let params = match self.read_strings(num_params) {
            Ok(params) => params,
            Err(e) => return self.rewind(start, e),
        };
        let actions = match self.read_code() {
            Ok(actions) => actions,
            Err(e) => return self.rewind(start, e),
        };
        Ok(Action::DefineFunction { name, params, actions })
    }

    /// Reads the payload of a function definition in the extended form:
    /// each parameter may name a register, and nine flags, each one bit of a
    /// 16-bit field, say which implicit bindings the body gets. The register
    /// count is read and dropped. The body is handed out undecoded.
    pub fn read_define_function_2(&mut self) -> (result: Result<Action<'a>, DecodeError>)
        ensures
            outcome(
                *old(self),
                *final(self),
                result,
                define_function_2_at(old(self).buffer(), old(self).pos() as int),
            ),
    {
        let start = self.pos;
        let ghost bytes = self.input@;
        let name = self.read_c_string()?;
        let num_params = match self.read_u16() {
            Ok(count) => count,
            Err(e) => return self.rewind(start, e),
        };
        let _num_registers = match self.read_u8() {
            Ok(count) => count,
            Err(e) => return self.rewind(start, e),
        };
        let flags = match self.read_u16() {
            Ok(flags) => flags,
            Err(e) => return self.rewind(start, e),
        };
        let ghost first = self.pos as int;
        let ghost whole = define_function_2_at(bytes, start as int);
        let mut params: Vec<FunctionParam<'a>> = Vec::new();
        let mut done: u16 = 0;
        proof {
            assert(params_view(params@) + Seq::<FunctionParamView>::empty() =~= Seq::empty());
        }
        while done < num_params
            invariant
                bytes == old(self).input@,
                start == old(self).pos,
                self.input@ == bytes,
                self.version == old(self).version,
                done <= num_params,
                whole == define_function_2_at(bytes, start as int),
                whole == function_body_at(bytes, first, name@, num_params as nat, flags),
                match params_at(bytes, self.pos as int, (num_params - done) as nat) {
                    Ok((rest, next)) => params_at(bytes, first, num_params as nat) == Ok::<
                        (Seq<FunctionParamView>, int),
                        DecodeError,
                    >((params_view(params@) + rest, next)),
                    Err(e) => params_at(bytes, first, num_params as nat) == Err::<
                        (Seq<FunctionParamView>, int),
                        DecodeError,
                    >(e),
                },
            decreases num_params - done,
        {
            let ghost before = params_view(params@);
            let ghost at = self.pos as int;
            let ghost left = (num_params - done) as nat;
            let register = match self.read_u8() {
                Ok(register) => register,
                Err(e) => {
                    assert(params_at(bytes, at, left) == Err::<
                        (Seq<FunctionParamView>, int),
                        DecodeError,
                    >(e));
                    return self.rewind(start, e);
                },
            };
            let name = match self.read_c_string() {
                Ok(name) => name,
                Err(e) => {
                    assert(params_at(bytes, at, left) == Err::<
                        (Seq<FunctionParamView>, int),
                        DecodeError,
                    >(e));
                    return self.rewind(start, e);
                },
            };
            let param = FunctionParam {
                name,
                register_index: if register == 0 {
                    None
                } else {
                    Some(register)
                },
            };
            params.push(param);
            done = done + 1;
            proof {
                assert(param_at(bytes, at) == Ok::<(FunctionParamView, int), DecodeError>(
                    (param@, self.pos as int),
                ));
                if let Ok((rest, _)) = params_at(bytes, self.pos as int, (num_params - done) as nat) {
                    assert(before + (seq![param@] + rest) =~= params_view(params@) + rest);
                }
            }
        }
        proof {
            assert(params_view(params@) + Seq::<FunctionParamView>::empty() =~= params_view(
                params@,
            ));
        }
        let actions = match self.read_code() {
            Ok(actions) => actions,
            Err(e) => return self.rewind(start, e),
        };
        Ok(
            Action::DefineFunction2(
                Function {
                    name,
                    params,
                    preload_parent: flags & 0b1000_0000 != 0,
                    preload_root: flags & 0b100_0000 != 0,
                    suppress_super: flags & 0b10_0000 != 0,
                    preload_super: flags & 0b1_0000 != 0,
                    suppress_arguments: flags & 0b1000 != 0,
                    preload_arguments: flags & 0b100 != 0,
                    suppress_this: flags & 0b10 != 0,
                    preload_this: flags & 0b1 != 0,
                    preload_global: flags & 0b1_0000_0000 != 0,
                    actions,
                },
            ),
        )
    }

    /// Reads the payload of an exception block. The three body lengths and
    /// the three bodies are always read, so that the cursor ends behind the
    /// record; the catch and finally clauses are handed out only where their
    /// flag is set. The bodies are handed out undecoded.
    pub fn read_try(&mut self) -> (result: Result<Action<'a>, DecodeError>)
        ensures
            outcome(
                *old(self),
                *final(self),
                result,
                try_at(old(self).buffer(), old(self).pos() as int),
            ),
    {
        let start = self.pos;
        let flags = self.read_u8()?;
        let try_length = match self.read_u16() {
            Ok(length) => length,
            Err(e) => return self.rewind(start, e),
        };
        let catch_length = match self.read_u16() {
            Ok(length) => length,
            Err(e) => return self.rewind(start, e),
        };
        let finally_length = match self.read_u16() {
            Ok(length) => length,
            Err(e) => return self.rewind(start, e),
        };
        let catch_var = if flags & 0b100 != 0 {
            match self.read_c_string() {
                Ok(name) => CatchVar::Var(name),
                Err(e) => return self.rewind(start, e),
            }
        } else {
            match self.read_u8() {
                Ok(register) => CatchVar::Register(register),
                Err(e) => return self.rewind(start, e),
            }
        };
        let try_actions = match self.read_slice(try_length as usize) {
            Ok(actions) => actions,
            Err(e) => return self.rewind(start, e),
        };
        let catch_actions = match self.read_slice(catch_length as usize) {
            Ok(actions) => actions,
            Err(e) => return self.rewind(start, e),
        };
        let finally_actions = match self.read_slice(finally_length as usize) {
            Ok(actions) => actions,
            Err(e) => return self.rewind(start, e),
        };
        Ok(
            Action::Try(
                TryBlock {
                    try_actions,
                    catch: if flags & 0b1 != 0 {
                        Some((catch_var, catch_actions))
                    } else {
                        None
                    },
                    finally: if flags & 0b10 != 0 {
                        Some(finally_actions)
                    } else {
                        None
                    },
                },
            ),
        )
    }

    /// Reads the payload of a constant pool: a 16-bit count and that many
    /// strings. The record's length is not consulted.
    fn read_constant_pool(&mut self) -> (result: Result<Action<'a>, DecodeError>)
        ensures
            outcome(
                *old(self),
                *final(self),
                result,
                constant_pool_at(old(self).buffer(), old(self).pos() as int),
            ),
    {
        let start = self.pos;
        let count = self.read_u16()?;
        match self.read_strings(count) {
            Ok(constants) => Ok(Action::ConstantPool(constants)),
            Err(e) => self.rewind(start, e),
        }
    }

    /// Reads the payload of a `GetUrl` record.
    fn read_get_url(&mut self) -> (result: Result<Action<'a>, DecodeError>)
        ensures
            outcome(
                *old(self),
                *final(self),
                result,
                get_url_at(old(self).buffer(), old(self).pos() as int),
            ),
    {
        let start = self.pos;
        let url = self.read_c_string()?;
        match self.read_c_string() {
            Ok(target) => Ok(Action::GetUrl { url, target }),
            Err(e) => self.rewind(start, e),
        }
    }

    /// Reads the payload of a `GetUrl2` record. A selector that names no
    /// way of sending variables is a failure.
    fn read_get_url_2(&mut self) -> (result: Result<Action<'a>, DecodeError>)
        ensures
            outcome(
                *old(self),
                *final(self),
                result,
                get_url_2_at(old(self).buffer(), old(self).pos() as int),
            ),
    {
        let start = self.pos;
        let flags = self.read_u8()?;
        let selector = flags >> 6;
        let send_vars_method = match selector {
            0 => SendVarsMethod::NoMethod,
            1 => SendVarsMethod::Get,
            2 => SendVarsMethod::Post,
            _ => {
                assert(flags >> 6 <= 3) by (bit_vector);
                return self.rewind(start, DecodeError::InvalidSendVarsMethod(selector));
            },
        };
        Ok(
            Action::GetUrl2 {
                is_target_sprite: flags & 0b10 != 0,
                is_load_vars: flags & 0b1 != 0,
                send_vars_method,
            },
        )
    }

    /// Reads the payload of a `GotoFrame2` record.
    fn read_goto_frame_2(&mut self) -> (result: Result<Action<'a>, DecodeError>)
        ensures
            outcome(
                *old(self),
                *final(self),
                result,
                goto_frame_2_at(old(self).buffer(), old(self).pos() as int),
            ),
    {
        let start = self.pos;
        let flags = self.read_u8()?;
        let scene_offset: u16 = if flags & 0b10 != 0 {
            match self.read_u16() {
                Ok(offset) => offset,
                Err(e) => return self.rewind(start, e),
            }
        } else {
            0
        };
        Ok(Action::GotoFrame2 { set_playing: flags & 0b1 != 0, scene_offset })
    }

    /// Reads the payload of a `WaitForFrame` record.
    fn read_wait_for_frame(&mut self) -> (result: Result<Action<'a>, DecodeError>)
        ensures
            outcome(
                *old(self),
                *final(self),
                result,
                wait_for_frame_at(old(self).buffer(), old(self).pos() as int),
            ),
    {
        let start = self.pos;
        let frame = self.read_u16()?;
        match self.read_u8() {
            Ok(num_actions_to_skip) => Ok(Action::WaitForFrame { frame, num_actions_to_skip }),
            Err(e) => self.rewind(start, e),
        }
    }

    /// Reads the next record. `Ok(None)` is the end of the program. A record
    /// whose opcode the table does not hold is handed out as
    /// [`Action::Unknown`], with its payload untouched. On success the
    /// cursor stands at the next record; on failure it stands where it was.
    pub fn read_action(&mut self) -> (result: Result<Option<Action<'a>>, DecodeError>)
        ensures
            action_outcome(*old(self), *final(self), result),
    {
        let start = self.pos;
        let (opcode, length) = self.read_opcode_and_length()?;
        let read = match OpCode::from_u8(opcode) {
            Some(op) => match op {
                OpCode::Add => Ok(Action::Add),
                OpCode::Add2 => Ok(Action::Add2),
                OpCode::And => Ok(Action::And),
                OpCode::AsciiToChar => Ok(Action::AsciiToChar),
                OpCode::BitAnd => Ok(Action::BitAnd),
                OpCode::BitLShift => Ok(Action::BitLShift),
                OpCode::BitOr => Ok(Action::BitOr),
                OpCode::BitRShift => Ok(Action::BitRShift),
                OpCode::BitURShift => Ok(Action::BitURShift),
                OpCode::BitXor => Ok(Action::BitXor),
                OpCode::Call => Ok(Action::Call),
                OpCode::CallFunction => Ok(Action::CallFunction),
                OpCode::CallMethod => Ok(Action::CallMethod),
                OpCode::CastOp => Ok(Action::CastOp),
                OpCode::CharToAscii => Ok(Action::CharToAscii),
                OpCode::CloneSprite => Ok(Action::CloneSprite),
                OpCode::ConstantPool => self.read_constant_pool(),
                OpCode::Decrement => Ok(Action::Decrement),
                OpCode::DefineFunction => self.read_define_function(),
                OpCode::DefineFunction2 => self.read_define_function_2(),
                OpCode::DefineLocal => Ok(Action::DefineLocal),
                OpCode::DefineLocal2 => Ok(Action::DefineLocal2),
                OpCode::Delete => Ok(Action::Delete),
                OpCode::Delete2 => Ok(Action::Delete2),
                OpCode::Divide => Ok(Action::Divide),
                OpCode::End => return Ok(None),
                OpCode::EndDrag => Ok(Action::EndDrag),
                OpCode::Enumerate => Ok(Action::Enumerate),
                OpCode::Enumerate2 => Ok(Action::Enumerate2),
                OpCode::Equals => Ok(Action::Equals),
                OpCode::Equals2 => Ok(Action::Equals2),
                OpCode::Extends => Ok(Action::Extends),
                OpCode::GetMember => Ok(Action::GetMember),
                OpCode::GetProperty => Ok(Action::GetProperty),
                OpCode::GetTime => Ok(Action::GetTime),
                OpCode::GetUrl => self.read_get_url(),
                OpCode::GetUrl2 => self.read_get_url_2(),
                OpCode::GetVariable => Ok(Action::GetVariable),
                OpCode::GotoFrame => match self.read_u16() {
                    Ok(frame) => Ok(Action::GotoFrame(frame)),
                    Err(e) => Err(e),
                },
                OpCode::GotoFrame2 => self.read_goto_frame_2(),
                OpCode::GotoLabel => match self.read_c_string() {
                    Ok(label) => Ok(Action::GotoLabel(label)),
                    Err(e) => Err(e),
                },
                OpCode::Greater => Ok(Action::Greater),
                OpCode::If => match self.read_i16() {
                    Ok(offset) => Ok(Action::If { offset }),
                    Err(e) => Err(e),
                },
                OpCode::ImplementsOp => Ok(Action::ImplementsOp),
                OpCode::Increment => Ok(Action::Increment),
                OpCode::InitArray => Ok(Action::InitArray),
                OpCode::InitObject => Ok(Action::InitObject),
                OpCode::InstanceOf => Ok(Action::InstanceOf),
                OpCode::Jump => match self.read_i16() {
                    Ok(offset) => Ok(Action::Jump { offset }),
                    Err(e) => Err(e),
                },
                OpCode::Less => Ok(Action::Less),
                OpCode::Less2 => Ok(Action::Less2),
                OpCode::MBAsciiToChar => Ok(Action::MBAsciiToChar),
                OpCode::MBCharToAscii => Ok(Action::MBCharToAscii),
                OpCode::MBStringExtract => Ok(Action::MBStringExtract),
                OpCode::MBStringLength => Ok(Action::MBStringLength),
                OpCode::Modulo => Ok(Action::Modulo),
                OpCode::Multiply => Ok(Action::Multiply),
                OpCode::NewMethod => Ok(Action::NewMethod),
                OpCode::NewObject => Ok(Action::NewObject),
                OpCode::NextFrame => Ok(Action::NextFrame),
                OpCode::Not => Ok(Action::Not),
                OpCode::Or => Ok(Action::Or),
                OpCode::Play => Ok(Action::Play),
                OpCode::Pop => Ok(Action::Pop),
                OpCode::PreviousFrame => Ok(Action::PreviousFrame),
                OpCode::Push => self.read_push(length),
                OpCode::PushDuplicate => Ok(Action::PushDuplicate),
                OpCode::RandomNumber => Ok(Action::RandomNumber),
                OpCode::RemoveSprite => Ok(Action::RemoveSprite),
                OpCode::Return => Ok(Action::Return),
                OpCode::SetMember => Ok(Action::SetMember),
                OpCode::SetProperty => Ok(Action::SetProperty),
                OpCode::SetTarget => match self.read_c_string() {
                    Ok(target) => Ok(Action::SetTarget(target)),
                    Err(e) => Err(e),
                },
                OpCode::SetTarget2 => Ok(Action::SetTarget2),
                OpCode::SetVariable => Ok(Action::SetVariable),
                OpCode::StackSwap => Ok(Action::StackSwap),
                OpCode::StartDrag => Ok(Action::StartDrag),
                OpCode::Stop => Ok(Action::Stop),
                OpCode::StopSounds => Ok(Action::StopSounds),
                OpCode::StoreRegister => match self.read_u8() {
                    Ok(register) => Ok(Action::StoreRegister(register)),
                    Err(e) => Err(e),
                },
                OpCode::StrictEquals => Ok(Action::StrictEquals),
                OpCode::StringAdd => Ok(Action::StringAdd),
                OpCode::StringEquals => Ok(Action::StringEquals),
                OpCode::StringExtract => Ok(Action::StringExtract),
                OpCode::StringGreater => Ok(Action::StringGreater),
                OpCode::StringLength => Ok(Action::StringLength),
                OpCode::StringLess => Ok(Action::StringLess),
                OpCode::Subtract => Ok(Action::Subtract),
                OpCode::TargetPath => Ok(Action::TargetPath),
                OpCode::Throw => Ok(Action::Throw),
                OpCode::ToInteger => Ok(Action::ToInteger),
                OpCode::ToNumber => Ok(Action::ToNumber),
                OpCode::ToString => Ok(Action::ToString),
                OpCode::ToggleQuality => Ok(Action::ToggleQuality),
                OpCode::Trace => Ok(Action::Trace),
                OpCode::Try => self.read_try(),
                OpCode::TypeOf => Ok(Action::TypeOf),
                OpCode::WaitForFrame => self.read_wait_for_frame(),
                OpCode::WaitForFrame2 => match self.read_u8() {
                    Ok(num_actions_to_skip) => Ok(Action::WaitForFrame2 { num_actions_to_skip }),
                    Err(e) => Err(e),
                },
                OpCode::With => match self.read_code() {
                    Ok(actions) => Ok(Action::With { actions }),
                    Err(e) => Err(e),
                },
            },
            None => self.read_unknown_action(opcode, length),
        };
        match read {
            Ok(action) => Ok(Some(action)),
            Err(e) => self.rewind(start, e),
        }
    }
}

/// What a read leaves behind when `expected` is what the grammar finds at the
/// cursor of `before`: on success the value, taken by its view, and the
/// cursor behind it; on failure the error, and the cursor where it was.
pub open spec fn outcome<'a, T: View>(
    before: Reader<'a>,
    after: Reader<'a>,
    result: Result<T, DecodeError>,
    expected: Decoded<T::V>,
) -> bool {
    match expected {
        Ok((value, next)) => {
            &&& result is Ok
            &&& result->Ok_0@ == value
            &&& after.moved_from(before, next)
        },
        Err(e) => result == Err::<T, DecodeError>(e) && after.moved_from(before, before.pos() as int),
    }
}


/// `target` brought into the range of `usize` by adding or taking away the
/// size of that range once.
pub open spec fn wrapped(target: int) -> usize {
    if target < 0 {
        (target + usize::MAX + 1) as usize
    } else if target > usize::MAX {
        (target - usize::MAX - 1) as usize
    } else {
        target as usize
    }
}

/// What reading one record leaves behind: the grammar's reading of the bytes
/// at the cursor of `before` decides the result and the cursor of `after`.
/// The format version is not consulted.
pub open spec fn action_outcome<'a>(
    before: Reader<'a>,
    after: Reader<'a>,
    result: Result<Option<Action<'a>>, DecodeError>,
) -> bool {
    match action_at(before.buffer(), before.pos() as int) {
        Ok((action, next)) => {
            &&& result is Ok
            &&& read_view(result->Ok_0) == action
            &&& after.moved_from(before, next)
        },
        Err(e) => {
            &&& result == Err::<Option<Action>, DecodeError>(e)
            &&& after.moved_from(before, before.pos() as int)
        },
    }
}

} // verus!
