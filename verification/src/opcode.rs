use vstd::prelude::*;

verus! {

/// The kinds of action record, one per entry of the opcode table.
#[derive(Clone, Copy, Debug, PartialEq, Eq, Structural)]
pub enum OpCode {
    End,
    NextFrame,
    PreviousFrame,
    Play,
    Stop,
    ToggleQuality,
    StopSounds,
    Add,
    Subtract,
    Multiply,
    Divide,
    Equals,
    Less,
    And,
    Or,
    Not,
    StringEquals,
    StringLength,
    StringExtract,
    Pop,
    ToInteger,
    GetVariable,
    SetVariable,
    SetTarget2,
    StringAdd,
    GetProperty,
    SetProperty,
    CloneSprite,
    RemoveSprite,
    Trace,
    StartDrag,
    EndDrag,
    StringLess,
    Throw,
    CastOp,
    ImplementsOp,
    RandomNumber,
    MBStringLength,
    CharToAscii,
    AsciiToChar,
    GetTime,
    MBStringExtract,
    MBCharToAscii,
    MBAsciiToChar,
    Delete,
    Delete2,
    DefineLocal,
    CallFunction,
    Return,
    Modulo,
    NewObject,
    DefineLocal2,
    InitArray,
    InitObject,
    TypeOf,
    TargetPath,
    Enumerate,
    Add2,
    Less2,
    Equals2,
    ToNumber,
    ToString,
    PushDuplicate,
    StackSwap,
    GetMember,
    SetMember,
    Increment,
    Decrement,
    CallMethod,
    NewMethod,
    InstanceOf,
    Enumerate2,
    BitAnd,
    BitOr,
    BitXor,
    BitLShift,
    BitRShift,
    BitURShift,
    StrictEquals,
    Greater,
    StringGreater,
    Extends,
    GotoFrame,
    GetUrl,
    StoreRegister,
    ConstantPool,
    WaitForFrame,
    SetTarget,
    GotoLabel,
    WaitForFrame2,
    DefineFunction2,
    Try,
    With,
    Push,
    Jump,
    GetUrl2,
    DefineFunction,
    If,
    Call,
    GotoFrame2,
}

impl OpCode {
    /// The byte that stands for this kind at the head of a record.
    pub open spec fn spec_code(self) -> u8 {
        match self {
            OpCode::End => 0x00,
            OpCode::NextFrame => 0x04,
            OpCode::PreviousFrame => 0x05,
            OpCode::Play => 0x06,
            OpCode::Stop => 0x07,
            OpCode::ToggleQuality => 0x08,
            OpCode::StopSounds => 0x09,
            OpCode::Add => 0x0A,
            OpCode::Subtract => 0x0B,
            OpCode::Multiply => 0x0C,
            OpCode::Divide => 0x0D,
            OpCode::Equals => 0x0E,
            OpCode::Less => 0x0F,
            OpCode::And => 0x10,
            OpCode::Or => 0x11,
            OpCode::Not => 0x12,
            OpCode::StringEquals => 0x13,
            OpCode::StringLength => 0x14,
            OpCode::StringExtract => 0x15,
            OpCode::Pop => 0x17,
            OpCode::ToInteger => 0x18,
            OpCode::GetVariable => 0x1C,
            OpCode::SetVariable => 0x1D,
            OpCode::SetTarget2 => 0x20,
            OpCode::StringAdd => 0x21,
            OpCode::GetProperty => 0x22,
            OpCode::SetProperty => 0x23,
            OpCode::CloneSprite => 0x24,
            OpCode::RemoveSprite => 0x25,
            OpCode::Trace => 0x26,
            OpCode::StartDrag => 0x27,
            OpCode::EndDrag => 0x28,
            OpCode::StringLess => 0x29,
            OpCode::Throw => 0x2A,
            OpCode::CastOp => 0x2B,
            OpCode::ImplementsOp => 0x2C,
            OpCode::RandomNumber => 0x30,
            OpCode::MBStringLength => 0x31,
            OpCode::CharToAscii => 0x32,
            OpCode::AsciiToChar => 0x33,
            OpCode::GetTime => 0x34,
            OpCode::MBStringExtract => 0x35,
            OpCode::MBCharToAscii => 0x36,
            OpCode::MBAsciiToChar => 0x37,
            OpCode::Delete => 0x3A,
            OpCode::Delete2 => 0x3B,
            OpCode::DefineLocal => 0x3C,
            OpCode::CallFunction => 0x3D,
            OpCode::Return => 0x3E,
            OpCode::Modulo => 0x3F,
            OpCode::NewObject => 0x40,
            OpCode::DefineLocal2 => 0x41,
            OpCode::InitArray => 0x42,
            OpCode::InitObject => 0x43,
            OpCode::TypeOf => 0x44,
            OpCode::TargetPath => 0x45,
            OpCode::Enumerate => 0x46,
            OpCode::Add2 => 0x47,
            OpCode::Less2 => 0x48,
            OpCode::Equals2 => 0x49,
            OpCode::ToNumber => 0x4A,
            OpCode::ToString => 0x4B,
            OpCode::PushDuplicate => 0x4C,
            OpCode::StackSwap => 0x4D,
            OpCode::GetMember => 0x4E,
            OpCode::SetMember => 0x4F,
            OpCode::Increment => 0x50,
            OpCode::Decrement => 0x51,
            OpCode::CallMethod => 0x52,
            OpCode::NewMethod => 0x53,
            OpCode::InstanceOf => 0x54,
            OpCode::Enumerate2 => 0x55,
            OpCode::BitAnd => 0x60,
            OpCode::BitOr => 0x61,
            OpCode::BitXor => 0x62,
            OpCode::BitLShift => 0x63,
            OpCode::BitRShift => 0x64,
            OpCode::BitURShift => 0x65,
            OpCode::StrictEquals => 0x66,
            OpCode::Greater => 0x67,
            OpCode::StringGreater => 0x68,
            OpCode::Extends => 0x69,
            OpCode::GotoFrame => 0x81,
            OpCode::GetUrl => 0x83,
            OpCode::StoreRegister => 0x87,
            OpCode::ConstantPool => 0x88,
            OpCode::WaitForFrame => 0x8A,
            OpCode::SetTarget => 0x8B,
            OpCode::GotoLabel => 0x8C,
            OpCode::WaitForFrame2 => 0x8D,
            OpCode::DefineFunction2 => 0x8E,
            OpCode::Try => 0x8F,
            OpCode::With => 0x94,
            OpCode::Push => 0x96,
            OpCode::Jump => 0x99,
            OpCode::GetUrl2 => 0x9A,
            OpCode::DefineFunction => 0x9B,
            OpCode::If => 0x9D,
            OpCode::Call => 0x9E,
            OpCode::GotoFrame2 => 0x9F,
        }
    }

    /// The byte that stands for this kind at the head of a record.
    #[verifier::when_used_as_spec(spec_code)]
    pub fn code(self) -> (byte: u8)
        ensures
            byte == self.spec_code(),
    {
        match self {
            OpCode::End => 0x00,
            OpCode::NextFrame => 0x04,
            OpCode::PreviousFrame => 0x05,
            OpCode::Play => 0x06,
            OpCode::Stop => 0x07,
            OpCode::ToggleQuality => 0x08,
            OpCode::StopSounds => 0x09,
            OpCode::Add => 0x0A,
            OpCode::Subtract => 0x0B,
            OpCode::Multiply => 0x0C,
            OpCode::Divide => 0x0D,
            OpCode::Equals => 0x0E,
            OpCode::Less => 0x0F,
            OpCode::And => 0x10,
            OpCode::Or => 0x11,
            OpCode::Not => 0x12,
            OpCode::StringEquals => 0x13,
            OpCode::StringLength => 0x14,
            OpCode::StringExtract => 0x15,
            OpCode::Pop => 0x17,
            OpCode::ToInteger => 0x18,
            OpCode::GetVariable => 0x1C,
            OpCode::SetVariable => 0x1D,
            OpCode::SetTarget2 => 0x20,
            OpCode::StringAdd => 0x21,
            OpCode::GetProperty => 0x22,
            OpCode::SetProperty => 0x23,
            OpCode::CloneSprite => 0x24,
            OpCode::RemoveSprite => 0x25,
            OpCode::Trace => 0x26,
            OpCode::StartDrag => 0x27,
            OpCode::EndDrag => 0x28,
            OpCode::StringLess => 0x29,
            OpCode::Throw => 0x2A,
            OpCode::CastOp => 0x2B,
            OpCode::ImplementsOp => 0x2C,
            OpCode::RandomNumber => 0x30,
            OpCode::MBStringLength => 0x31,
            OpCode::CharToAscii => 0x32,
            OpCode::AsciiToChar => 0x33,
            OpCode::GetTime => 0x34,
            OpCode::MBStringExtract => 0x35,
            OpCode::MBCharToAscii => 0x36,
            OpCode::MBAsciiToChar => 0x37,
            OpCode::Delete => 0x3A,
            OpCode::Delete2 => 0x3B,
            OpCode::DefineLocal => 0x3C,
            OpCode::CallFunction => 0x3D,
            OpCode::Return => 0x3E,
            OpCode::Modulo => 0x3F,
            OpCode::NewObject => 0x40,
            OpCode::DefineLocal2 => 0x41,
            OpCode::InitArray => 0x42,
            OpCode::InitObject => 0x43,
            OpCode::TypeOf => 0x44,
            OpCode::TargetPath => 0x45,
            OpCode::Enumerate => 0x46,
            OpCode::Add2 => 0x47,
            OpCode::Less2 => 0x48,
            OpCode::Equals2 => 0x49,
            OpCode::ToNumber => 0x4A,
            OpCode::ToString => 0x4B,
            OpCode::PushDuplicate => 0x4C,
            OpCode::StackSwap => 0x4D,
            OpCode::GetMember => 0x4E,
            OpCode::SetMember => 0x4F,
            OpCode::Increment => 0x50,
            OpCode::Decrement => 0x51,
            OpCode::CallMethod => 0x52,
            OpCode::NewMethod => 0x53,
            OpCode::InstanceOf => 0x54,
            OpCode::Enumerate2 => 0x55,
            OpCode::BitAnd => 0x60,
            OpCode::BitOr => 0x61,
            OpCode::BitXor => 0x62,
            OpCode::BitLShift => 0x63,
            OpCode::BitRShift => 0x64,
            OpCode::BitURShift => 0x65,
            OpCode::StrictEquals => 0x66,
            OpCode::Greater => 0x67,
            OpCode::StringGreater => 0x68,
            OpCode::Extends => 0x69,
            OpCode::GotoFrame => 0x81,
            OpCode::GetUrl => 0x83,
            OpCode::StoreRegister => 0x87,
            OpCode::ConstantPool => 0x88,
            OpCode::WaitForFrame => 0x8A,
            OpCode::SetTarget => 0x8B,
            OpCode::GotoLabel => 0x8C,
            OpCode::WaitForFrame2 => 0x8D,
            OpCode::DefineFunction2 => 0x8E,
            OpCode::Try => 0x8F,
            OpCode::With => 0x94,
            OpCode::Push => 0x96,
            OpCode::Jump => 0x99,
            OpCode::GetUrl2 => 0x9A,
            OpCode::DefineFunction => 0x9B,
            OpCode::If => 0x9D,
            OpCode::Call => 0x9E,
            OpCode::GotoFrame2 => 0x9F,
        }
    }

    /// Looks a byte up in the opcode table. Bytes without an entry give
    /// `None`; every kind is found under its own byte and no other.
    pub fn from_u8(byte: u8) -> (kind: Option<OpCode>)
        ensures
            kind == opcode_of(byte),
            kind matches Some(op) ==> op.spec_code() == byte,
            kind is None ==> forall|op: OpCode| op.spec_code() != byte,
    {
        match byte {
            0x00 => Some(OpCode::End),
            0x04 => Some(OpCode::NextFrame),
            0x05 => Some(OpCode::PreviousFrame),
            0x06 => Some(OpCode::Play),
            0x07 => Some(OpCode::Stop),
            0x08 => Some(OpCode::ToggleQuality),
            0x09 => Some(OpCode::StopSounds),
            0x0A => Some(OpCode::Add),
            0x0B => Some(OpCode::Subtract),
            0x0C => Some(OpCode::Multiply),
            0x0D => Some(OpCode::Divide),
            0x0E => Some(OpCode::Equals),
            0x0F => Some(OpCode::Less),
            0x10 => Some(OpCode::And),
            0x11 => Some(OpCode::Or),
            0x12 => Some(OpCode::Not),
            0x13 => Some(OpCode::StringEquals),
            0x14 => Some(OpCode::StringLength),
            0x15 => Some(OpCode::StringExtract),
            0x17 => Some(OpCode::Pop),
            0x18 => Some(OpCode::ToInteger),
            0x1C => Some(OpCode::GetVariable),
            0x1D => Some(OpCode::SetVariable),
            0x20 => Some(OpCode::SetTarget2),
            0x21 => Some(OpCode::StringAdd),
            0x22 => Some(OpCode::GetProperty),
            0x23 => Some(OpCode::SetProperty),
            0x24 => Some(OpCode::CloneSprite),
            0x25 => Some(OpCode::RemoveSprite),
            0x26 => Some(OpCode::Trace),
            0x27 => Some(OpCode::StartDrag),
            0x28 => Some(OpCode::EndDrag),
            0x29 => Some(OpCode::StringLess),
            0x2A => Some(OpCode::Throw),
            0x2B => Some(OpCode::CastOp),
            0x2C => Some(OpCode::ImplementsOp),
            0x30 => Some(OpCode::RandomNumber),
            0x31 => Some(OpCode::MBStringLength),
            0x32 => Some(OpCode::CharToAscii),
            0x33 => Some(OpCode::AsciiToChar),
            0x34 => Some(OpCode::GetTime),
            0x35 => Some(OpCode::MBStringExtract),
            0x36 => Some(OpCode::MBCharToAscii),
            0x37 => Some(OpCode::MBAsciiToChar),
            0x3A => Some(OpCode::Delete),
            0x3B => Some(OpCode::Delete2),
            0x3C => Some(OpCode::DefineLocal),
            0x3D => Some(OpCode::CallFunction),
            0x3E => Some(OpCode::Return),
            0x3F => Some(OpCode::Modulo),
            0x40 => Some(OpCode::NewObject),
            0x41 => Some(OpCode::DefineLocal2),
            0x42 => Some(OpCode::InitArray),
            0x43 => Some(OpCode::InitObject),
            0x44 => Some(OpCode::TypeOf),
            0x45 => Some(OpCode::TargetPath),
            0x46 => Some(OpCode::Enumerate),
            0x47 => Some(OpCode::Add2),
            0x48 => Some(OpCode::Less2),
            0x49 => Some(OpCode::Equals2),
            0x4A => Some(OpCode::ToNumber),
            0x4B => Some(OpCode::ToString),
            0x4C => Some(OpCode::PushDuplicate),
            0x4D => Some(OpCode::StackSwap),
            0x4E => Some(OpCode::GetMember),
            0x4F => Some(OpCode::SetMember),
            0x50 => Some(OpCode::Increment),
            0x51 => Some(OpCode::Decrement),
            0x52 => Some(OpCode::CallMethod),
            0x53 => Some(OpCode::NewMethod),
            0x54 => Some(OpCode::InstanceOf),
            0x55 => Some(OpCode::Enumerate2),
            0x60 => Some(OpCode::BitAnd),
            0x61 => Some(OpCode::BitOr),
            0x62 => Some(OpCode::BitXor),
            0x63 => Some(OpCode::BitLShift),
            0x64 => Some(OpCode::BitRShift),
            0x65 => Some(OpCode::BitURShift),
            0x66 => Some(OpCode::StrictEquals),
            0x67 => Some(OpCode::Greater),
            0x68 => Some(OpCode::StringGreater),
            0x69 => Some(OpCode::Extends),
            0x81 => Some(OpCode::GotoFrame),
            0x83 => Some(OpCode::GetUrl),
            0x87 => Some(OpCode::StoreRegister),
            0x88 => Some(OpCode::ConstantPool),
            0x8A => Some(OpCode::WaitForFrame),
            0x8B => Some(OpCode::SetTarget),
            0x8C => Some(OpCode::GotoLabel),
            0x8D => Some(OpCode::WaitForFrame2),
            0x8E => Some(OpCode::DefineFunction2),
            0x8F => Some(OpCode::Try),
            0x94 => Some(OpCode::With),
            0x96 => Some(OpCode::Push),
            0x99 => Some(OpCode::Jump),
            0x9A => Some(OpCode::GetUrl2),
            0x9B => Some(OpCode::DefineFunction),
            0x9D => Some(OpCode::If),
            0x9E => Some(OpCode::Call),
            0x9F => Some(OpCode::GotoFrame2),
            _ => None,
        }
    }
}

/// The opcode table: the kind of record that `byte` announces, if any.
pub open spec fn opcode_of(byte: u8) -> Option<OpCode> {
    if byte == 0x00 {
        Some(OpCode::End)
    } else if byte == 0x04 {
        Some(OpCode::NextFrame)
    } else if byte == 0x05 {
        Some(OpCode::PreviousFrame)
    } else if byte == 0x06 {
        Some(OpCode::Play)
    } else if byte == 0x07 {
        Some(OpCode::Stop)
    } else if byte == 0x08 {
        Some(OpCode::ToggleQuality)
    } else if byte == 0x09 {
        Some(OpCode::StopSounds)
    } else if byte == 0x0A {
        Some(OpCode::Add)
    } else if byte == 0x0B {
        Some(OpCode::Subtract)
    } else if byte == 0x0C {
        Some(OpCode::Multiply)
    } else if byte == 0x0D {
        Some(OpCode::Divide)
    } else if byte == 0x0E {
        Some(OpCode::Equals)
    } else if byte == 0x0F {
        Some(OpCode::Less)
    } else if byte == 0x10 {
        Some(OpCode::And)
    } else if byte == 0x11 {
        Some(OpCode::Or)
    } else if byte == 0x12 {
        Some(OpCode::Not)
    } else if byte == 0x13 {
        Some(OpCode::StringEquals)
    } else if byte == 0x14 {
        Some(OpCode::StringLength)
    } else if byte == 0x15 {
        Some(OpCode::StringExtract)
    } else if byte == 0x17 {
        Some(OpCode::Pop)
    } else if byte == 0x18 {
        Some(OpCode::ToInteger)
    } else if byte == 0x1C {
        Some(OpCode::GetVariable)
    } else if byte == 0x1D {
        Some(OpCode::SetVariable)
    } else if byte == 0x20 {
        Some(OpCode::SetTarget2)
    } else if byte == 0x21 {
        Some(OpCode::StringAdd)
    } else if byte == 0x22 {
        Some(OpCode::GetProperty)
    } else if byte == 0x23 {
        Some(OpCode::SetProperty)
    } else if byte == 0x24 {
        Some(OpCode::CloneSprite)
    } else if byte == 0x25 {
        Some(OpCode::RemoveSprite)
    } else if byte == 0x26 {
        Some(OpCode::Trace)
    } else if byte == 0x27 {
        Some(OpCode::StartDrag)
    } else if byte == 0x28 {
        Some(OpCode::EndDrag)
    } else if byte == 0x29 {
        Some(OpCode::StringLess)
    } else if byte == 0x2A {
        Some(OpCode::Throw)
    } else if byte == 0x2B {
        Some(OpCode::CastOp)
    } else if byte == 0x2C {
        Some(OpCode::ImplementsOp)
    } else if byte == 0x30 {
        Some(OpCode::RandomNumber)
    } else if byte == 0x31 {
        Some(OpCode::MBStringLength)
    } else if byte == 0x32 {
        Some(OpCode::CharToAscii)
    } else if byte == 0x33 {
        Some(OpCode::AsciiToChar)
    } else if byte == 0x34 {
        Some(OpCode::GetTime)
    } else if byte == 0x35 {
        Some(OpCode::MBStringExtract)
    } else if byte == 0x36 {
        Some(OpCode::MBCharToAscii)
    } else if byte == 0x37 {
        Some(OpCode::MBAsciiToChar)
    } else if byte == 0x3A {
        Some(OpCode::Delete)
    } else if byte == 0x3B {
        Some(OpCode::Delete2)
    } else if byte == 0x3C {
        Some(OpCode::DefineLocal)
    } else if byte == 0x3D {
        Some(OpCode::CallFunction)
    } else if byte == 0x3E {
        Some(OpCode::Return)
    } else if byte == 0x3F {
        Some(OpCode::Modulo)
    } else if byte == 0x40 {
        Some(OpCode::NewObject)
    } else if byte == 0x41 {
        Some(OpCode::DefineLocal2)
    } else if byte == 0x42 {
        Some(OpCode::InitArray)
    } else if byte == 0x43 {
        Some(OpCode::InitObject)
    } else if byte == 0x44 {
        Some(OpCode::TypeOf)
    } else if byte == 0x45 {
        Some(OpCode::TargetPath)
    } else if byte == 0x46 {
        Some(OpCode::Enumerate)
    } else if byte == 0x47 {
        Some(OpCode::Add2)
    } else if byte == 0x48 {
        Some(OpCode::Less2)
    } else if byte == 0x49 {
        Some(OpCode::Equals2)
    } else if byte == 0x4A {
        Some(OpCode::ToNumber)
    } else if byte == 0x4B {
        Some(OpCode::ToString)
    } else if byte == 0x4C {
        Some(OpCode::PushDuplicate)
    } else if byte == 0x4D {
        Some(OpCode::StackSwap)
    } else if byte == 0x4E {
        Some(OpCode::GetMember)
    } else if byte == 0x4F {
        Some(OpCode::SetMember)
    } else if byte == 0x50 {
        Some(OpCode::Increment)
    } else if byte == 0x51 {
        Some(OpCode::Decrement)
    } else if byte == 0x52 {
        Some(OpCode::CallMethod)
    } else if byte == 0x53 {
        Some(OpCode::NewMethod)
    } else if byte == 0x54 {
        Some(OpCode::InstanceOf)
    } else if byte == 0x55 {
        Some(OpCode::Enumerate2)
    } else if byte == 0x60 {
        Some(OpCode::BitAnd)
    } else if byte == 0x61 {
        Some(OpCode::BitOr)
    } else if byte == 0x62 {
        Some(OpCode::BitXor)
    } else if byte == 0x63 {
        Some(OpCode::BitLShift)
    } else if byte == 0x64 {
        Some(OpCode::BitRShift)
    } else if byte == 0x65 {
        Some(OpCode::BitURShift)
    } else if byte == 0x66 {
        Some(OpCode::StrictEquals)
    } else if byte == 0x67 {
        Some(OpCode::Greater)
    } else if byte == 0x68 {
        Some(OpCode::StringGreater)
    } else if byte == 0x69 {
        Some(OpCode::Extends)
    } else if byte == 0x81 {
        Some(OpCode::GotoFrame)
    } else if byte == 0x83 {
        Some(OpCode::GetUrl)
    } else if byte == 0x87 {
        Some(OpCode::StoreRegister)
    } else if byte == 0x88 {
        Some(OpCode::ConstantPool)
    } else if byte == 0x8A {
        Some(OpCode::WaitForFrame)
    } else if byte == 0x8B {
        Some(OpCode::SetTarget)
    } else if byte == 0x8C {
        Some(OpCode::GotoLabel)
    } else if byte == 0x8D {
        Some(OpCode::WaitForFrame2)
    } else if byte == 0x8E {
        Some(OpCode::DefineFunction2)
    } else if byte == 0x8F {
        Some(OpCode::Try)
    } else if byte == 0x94 {
        Some(OpCode::With)
    } else if byte == 0x96 {
        Some(OpCode::Push)
    } else if byte == 0x99 {
        Some(OpCode::Jump)
    } else if byte == 0x9A {
        Some(OpCode::GetUrl2)
    } else if byte == 0x9B {
        Some(OpCode::DefineFunction)
    } else if byte == 0x9D {
        Some(OpCode::If)
    } else if byte == 0x9E {
        Some(OpCode::Call)
    } else if byte == 0x9F {
        Some(OpCode::GotoFrame2)
    } else {
        None
    }
}

/// The table and [`OpCode::spec_code`] are inverse to each other: a byte
/// names a kind exactly when it is that kind's code.
pub proof fn opcode_table_is_inverse_of_code(byte: u8, op: OpCode)
    ensures
        opcode_of(byte) == Some(op) <==> op.spec_code() == byte,
{
}

} // verus!
