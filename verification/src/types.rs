use crate::opcode::OpCode;
use vstd::prelude::*;

verus! {

/// One value of a push record.
///
/// The two floating-point kinds hold the IEEE-754 bit pattern that stood in
/// the record, least significant byte first: `f32::from_bits` and
/// `f64::from_bits` give the number.
#[derive(Clone, Debug, PartialEq)]
pub enum Value<'a> {
    Undefined,
    Null,
    Bool(bool),
    Int(i32),
    Float(u32),
    Double(u64),
    Str(&'a str),
    Register(u8),
    ConstantPool(u16),
}

/// What a [`Value`] holds, with text as a sequence of characters.
pub enum ValueView {
    Undefined,
    Null,
    Bool(bool),
    Int(i32),
    Float(u32),
    Double(u64),
    Str(Seq<char>),
    Register(u8),
    ConstantPool(u16),
}

impl<'a> View for Value<'a> {
    type V = ValueView;

    open spec fn view(&self) -> ValueView {
        match self {
            Value::Undefined => ValueView::Undefined,
            Value::Null => ValueView::Null,
            Value::Bool(b) => ValueView::Bool(*b),
            Value::Int(i) => ValueView::Int(*i),
            Value::Float(bits) => ValueView::Float(*bits),
            Value::Double(bits) => ValueView::Double(*bits),
            Value::Str(s) => ValueView::Str(s@),
            Value::Register(r) => ValueView::Register(*r),
            Value::ConstantPool(index) => ValueView::ConstantPool(*index),
        }
    }
}

/// How a `GetUrl2` record sends the variables of the current clip, if at all.
#[derive(Clone, Copy, Debug, PartialEq, Eq, Structural)]
pub enum SendVarsMethod {
    NoMethod,
    Get,
    Post,
}

/// A parameter of a function definition: its name and, where the parameter is
/// loaded into a register on entry, that register.
#[derive(Clone, Debug, PartialEq)]
pub struct FunctionParam<'a> {
    pub name: &'a str,
    pub register_index: Option<u8>,
}

/// What a [`FunctionParam`] holds, with the name as a sequence of characters.
pub struct FunctionParamView {
    pub name: Seq<char>,
    pub register_index: Option<u8>,
}

impl<'a> View for FunctionParam<'a> {
    type V = FunctionParamView;

    open spec fn view(&self) -> FunctionParamView {
        FunctionParamView { name: self.name@, register_index: self.register_index }
    }
}

/// A function definition in the extended form: the flags say which implicit
/// bindings the body gets, each on its own.
#[derive(Clone, Debug, PartialEq)]
pub struct Function<'a> {
    pub name: &'a str,
    pub params: Vec<FunctionParam<'a>>,
    pub preload_parent: bool,
    pub preload_root: bool,
    pub suppress_super: bool,
    pub preload_super: bool,
    pub suppress_arguments: bool,
    pub preload_arguments: bool,
    pub suppress_this: bool,
    pub preload_this: bool,
    pub preload_global: bool,
    pub actions: &'a [u8],
}

/// What a [`Function`] holds: text as sequences of characters, the body as
/// a sequence of bytes.
pub struct FunctionView {
    pub name: Seq<char>,
    pub params: Seq<FunctionParamView>,
    pub preload_parent: bool,
    pub preload_root: bool,
    pub suppress_super: bool,
    pub preload_super: bool,
    pub suppress_arguments: bool,
    pub preload_arguments: bool,
    pub suppress_this: bool,
    pub preload_this: bool,
    pub preload_global: bool,
    pub actions: Seq<u8>,
}

impl<'a> View for Function<'a> {
    type V = FunctionView;

    open spec fn view(&self) -> FunctionView {
        FunctionView {
            name: self.name@,
            params: params_view(self.params@),
            preload_parent: self.preload_parent,
            preload_root: self.preload_root,
            suppress_super: self.suppress_super,
            preload_super: self.preload_super,
            suppress_arguments: self.suppress_arguments,
            preload_arguments: self.preload_arguments,
            suppress_this: self.suppress_this,
            preload_this: self.preload_this,
            preload_global: self.preload_global,
            actions: self.actions@,
        }
    }
}

/// Where a catch clause puts the value that was thrown.
#[derive(Clone, Debug, PartialEq)]
pub enum CatchVar<'a> {
    Var(&'a str),
    Register(u8),
}

/// What a [`CatchVar`] holds, with the name as a sequence of characters.
pub enum CatchVarView {
    Var(Seq<char>),
    Register(u8),
}

impl<'a> View for CatchVar<'a> {
    type V = CatchVarView;

    open spec fn view(&self) -> CatchVarView {
        match self {
            CatchVar::Var(name) => CatchVarView::Var(name@),
            CatchVar::Register(r) => CatchVarView::Register(*r),
        }
    }
}

/// An exception block: the guarded body, and the catch and finally clauses
/// that the record's flags enable.
#[derive(Clone, Debug, PartialEq)]
pub struct TryBlock<'a> {
    pub try_actions: &'a [u8],
    pub catch: Option<(CatchVar<'a>, &'a [u8])>,
    pub finally: Option<&'a [u8]>,
}

/// What a [`TryBlock`] holds, with each body as a sequence of bytes.
pub struct TryBlockView {
    pub try_actions: Seq<u8>,
    pub catch: Option<(CatchVarView, Seq<u8>)>,
    pub finally: Option<Seq<u8>>,
}

impl<'a> View for TryBlock<'a> {
    type V = TryBlockView;

    open spec fn view(&self) -> TryBlockView {
        TryBlockView {
            try_actions: self.try_actions@,
            catch: match self.catch {
                Some((var, actions)) => Some((var@, actions@)),
                None => None,
            },
            finally: match self.finally {
                Some(actions) => Some(actions@),
                None => None,
            },
        }
    }
}

/// The strings of a list, each by its characters.
pub open spec fn strs_view(strs: Seq<&str>) -> Seq<Seq<char>> {
    Seq::new(strs.len(), |i: int| strs[i]@)
}

/// The values of a push record, each by its view.
pub open spec fn values_view(values: Seq<Value<'_>>) -> Seq<ValueView> {
    Seq::new(values.len(), |i: int| values[i]@)
}

/// The parameters of a function definition, each by its view.
pub open spec fn params_view(params: Seq<FunctionParam<'_>>) -> Seq<FunctionParamView> {
    Seq::new(params.len(), |i: int| params[i]@)
}

/// One decoded action record. Strings and nested programs borrow from the
/// buffer that was decoded; nested programs are kept as raw bytes, to be
/// decoded by a reader of their own.
#[derive(Clone, Debug, PartialEq)]
pub enum Action<'a> {
    Add,
    Add2,
    And,
    AsciiToChar,
    BitAnd,
    BitLShift,
    BitOr,
    BitRShift,
    BitURShift,
    BitXor,
    Call,
    CallFunction,
    CallMethod,
    CastOp,
    CharToAscii,
    CloneSprite,
    ConstantPool(Vec<&'a str>),
    Decrement,
    DefineFunction { name: &'a str, params: Vec<&'a str>, actions: &'a [u8] },
    DefineFunction2(Function<'a>),
    DefineLocal,
    DefineLocal2,
    Delete,
    Delete2,
    Divide,
    EndDrag,
    Enumerate,
    Enumerate2,
    Equals,
    Equals2,
    Extends,
    GetMember,
    GetProperty,
    GetTime,
    GetUrl { url: &'a str, target: &'a str },
    GetUrl2 { is_target_sprite: bool, is_load_vars: bool, send_vars_method: SendVarsMethod },
    GetVariable,
    GotoFrame(u16),
    GotoFrame2 { set_playing: bool, scene_offset: u16 },
    GotoLabel(&'a str),
    Greater,
    If { offset: i16 },
    ImplementsOp,
    Increment,
    InitArray,
    InitObject,
    InstanceOf,
    Jump { offset: i16 },
    Less,
    Less2,
    MBAsciiToChar,
    MBCharToAscii,
    MBStringExtract,
    MBStringLength,
    Modulo,
    Multiply,
    NewMethod,
    NewObject,
    NextFrame,
    Not,
    Or,
    Play,
    Pop,
    PreviousFrame,
    Push(Vec<Value<'a>>),
    PushDuplicate,
    RandomNumber,
    RemoveSprite,
    Return,
    SetMember,
    SetProperty,
    SetTarget(&'a str),
    SetTarget2,
    SetVariable,
    StackSwap,
    StartDrag,
    Stop,
    StopSounds,
    StoreRegister(u8),
    StrictEquals,
    StringAdd,
    StringEquals,
    StringExtract,
    StringGreater,
    StringLength,
    StringLess,
    Subtract,
    TargetPath,
    Throw,
    ToInteger,
    ToNumber,
    ToString,
    ToggleQuality,
    Trace,
    Try(TryBlock<'a>),
    TypeOf,
    WaitForFrame { frame: u16, num_actions_to_skip: u8 },
    WaitForFrame2 { num_actions_to_skip: u8 },
    With { actions: &'a [u8] },
    /// A record whose opcode is not in the table, kept byte for byte.
    Unknown { opcode: u8, data: &'a [u8] },
}

/// What an [`Action`] holds, as mathematical values. Every kind without a
/// payload is `Plain` of its opcode.
pub enum ActionView {
    Plain(OpCode),
    ConstantPool(Seq<Seq<char>>),
    DefineFunction { name: Seq<char>, params: Seq<Seq<char>>, actions: Seq<u8> },
    DefineFunction2(FunctionView),
    GetUrl { url: Seq<char>, target: Seq<char> },
    GetUrl2 { is_target_sprite: bool, is_load_vars: bool, send_vars_method: SendVarsMethod },
    GotoFrame(u16),
    GotoFrame2 { set_playing: bool, scene_offset: u16 },
    GotoLabel(Seq<char>),
    If { offset: i16 },
    Jump { offset: i16 },
    Push(Seq<ValueView>),
    SetTarget(Seq<char>),
    StoreRegister(u8),
    Try(TryBlockView),
    WaitForFrame { frame: u16, num_actions_to_skip: u8 },
    WaitForFrame2 { num_actions_to_skip: u8 },
    With { actions: Seq<u8> },
    Unknown { opcode: u8, data: Seq<u8> },
}

impl<'a> View for Action<'a> {
    type V = ActionView;

    open spec fn view(&self) -> ActionView {
        match self {
            Action::Add => ActionView::Plain(OpCode::Add),
            Action::Add2 => ActionView::Plain(OpCode::Add2),
            Action::And => ActionView::Plain(OpCode::And),
            Action::AsciiToChar => ActionView::Plain(OpCode::AsciiToChar),
            Action::BitAnd => ActionView::Plain(OpCode::BitAnd),
            Action::BitLShift => ActionView::Plain(OpCode::BitLShift),
            Action::BitOr => ActionView::Plain(OpCode::BitOr),
            Action::BitRShift => ActionView::Plain(OpCode::BitRShift),
            Action::BitURShift => ActionView::Plain(OpCode::BitURShift),
            Action::BitXor => ActionView::Plain(OpCode::BitXor),
            Action::Call => ActionView::Plain(OpCode::Call),
            Action::CallFunction => ActionView::Plain(OpCode::CallFunction),
            Action::CallMethod => ActionView::Plain(OpCode::CallMethod),
            Action::CastOp => ActionView::Plain(OpCode::CastOp),
            Action::CharToAscii => ActionView::Plain(OpCode::CharToAscii),
            Action::CloneSprite => ActionView::Plain(OpCode::CloneSprite),
            Action::ConstantPool(constants) => ActionView::ConstantPool(strs_view(constants@)),
            Action::Decrement => ActionView::Plain(OpCode::Decrement),
            Action::DefineFunction { name, params, actions } => ActionView::DefineFunction {
                name: name@,
                params: strs_view(params@),
                actions: actions@,
            },
            Action::DefineFunction2(function) => ActionView::DefineFunction2(function@),
            Action::DefineLocal => ActionView::Plain(OpCode::DefineLocal),
            Action::DefineLocal2 => ActionView::Plain(OpCode::DefineLocal2),
            Action::Delete => ActionView::Plain(OpCode::Delete),
            Action::Delete2 => ActionView::Plain(OpCode::Delete2),
            Action::Divide => ActionView::Plain(OpCode::Divide),
            Action::EndDrag => ActionView::Plain(OpCode::EndDrag),
            Action::Enumerate => ActionView::Plain(OpCode::Enumerate),
            Action::Enumerate2 => ActionView::Plain(OpCode::Enumerate2),
            Action::Equals => ActionView::Plain(OpCode::Equals),
            Action::Equals2 => ActionView::Plain(OpCode::Equals2),
            Action::Extends => ActionView::Plain(OpCode::Extends),
            Action::GetMember => ActionView::Plain(OpCode::GetMember),
            Action::GetProperty => ActionView::Plain(OpCode::GetProperty),
            Action::GetTime => ActionView::Plain(OpCode::GetTime),
            Action::GetUrl { url, target } => ActionView::GetUrl { url: url@, target: target@ },
            Action::GetUrl2 { is_target_sprite, is_load_vars, send_vars_method } => ActionView::GetUrl2 {
                is_target_sprite: *is_target_sprite,
                is_load_vars: *is_load_vars,
                send_vars_method: *send_vars_method,
            },
            Action::GetVariable => ActionView::Plain(OpCode::GetVariable),
            Action::GotoFrame(frame) => ActionView::GotoFrame(*frame),
            Action::GotoFrame2 { set_playing, scene_offset } => ActionView::GotoFrame2 {
                set_playing: *set_playing,
                scene_offset: *scene_offset,
            },
            Action::GotoLabel(label) => ActionView::GotoLabel(label@),
            Action::Greater => ActionView::Plain(OpCode::Greater),
            Action::If { offset } => ActionView::If { offset: *offset },
            Action::ImplementsOp => ActionView::Plain(OpCode::ImplementsOp),
            Action::Increment => ActionView::Plain(OpCode::Increment),
            Action::InitArray => ActionView::Plain(OpCode::InitArray),
            Action::InitObject => ActionView::Plain(OpCode::InitObject),
            Action::InstanceOf => ActionView::Plain(OpCode::InstanceOf),
            Action::Jump { offset } => ActionView::Jump { offset: *offset },
            Action::Less => ActionView::Plain(OpCode::Less),
            Action::Less2 => ActionView::Plain(OpCode::Less2),
            Action::MBAsciiToChar => ActionView::Plain(OpCode::MBAsciiToChar),
            Action::MBCharToAscii => ActionView::Plain(OpCode::MBCharToAscii),
            Action::MBStringExtract => ActionView::Plain(OpCode::MBStringExtract),
            Action::MBStringLength => ActionView::Plain(OpCode::MBStringLength),
            Action::Modulo => ActionView::Plain(OpCode::Modulo),
            Action::Multiply => ActionView::Plain(OpCode::Multiply),
            Action::NewMethod => ActionView::Plain(OpCode::NewMethod),
            Action::NewObject => ActionView::Plain(OpCode::NewObject),
            Action::NextFrame => ActionView::Plain(OpCode::NextFrame),
            Action::Not => ActionView::Plain(OpCode::Not),
            Action::Or => ActionView::Plain(OpCode::Or),
            Action::Play => ActionView::Plain(OpCode::Play),
            Action::Pop => ActionView::Plain(OpCode::Pop),
            Action::PreviousFrame => ActionView::Plain(OpCode::PreviousFrame),
            Action::Push(values) => ActionView::Push(values_view(values@)),
            Action::PushDuplicate => ActionView::Plain(OpCode::PushDuplicate),
            Action::RandomNumber => ActionView::Plain(OpCode::RandomNumber),
            Action::RemoveSprite => ActionView::Plain(OpCode::RemoveSprite),
            Action::Return => ActionView::Plain(OpCode::Return),
            Action::SetMember => ActionView::Plain(OpCode::SetMember),
            Action::SetProperty => ActionView::Plain(OpCode::SetProperty),
            Action::SetTarget(target) => ActionView::SetTarget(target@),
            Action::SetTarget2 => ActionView::Plain(OpCode::SetTarget2),
            Action::SetVariable => ActionView::Plain(OpCode::SetVariable),
            Action::StackSwap => ActionView::Plain(OpCode::StackSwap),
            Action::StartDrag => ActionView::Plain(OpCode::StartDrag),
            Action::Stop => ActionView::Plain(OpCode::Stop),
            Action::StopSounds => ActionView::Plain(OpCode::StopSounds),
            Action::StoreRegister(register) => ActionView::StoreRegister(*register),
            Action::StrictEquals => ActionView::Plain(OpCode::StrictEquals),
            Action::StringAdd => ActionView::Plain(OpCode::StringAdd),
            Action::StringEquals => ActionView::Plain(OpCode::StringEquals),
            Action::StringExtract => ActionView::Plain(OpCode::StringExtract),
            Action::StringGreater => ActionView::Plain(OpCode::StringGreater),
            Action::StringLength => ActionView::Plain(OpCode::StringLength),
            Action::StringLess => ActionView::Plain(OpCode::StringLess),
            Action::Subtract => ActionView::Plain(OpCode::Subtract),
            Action::TargetPath => ActionView::Plain(OpCode::TargetPath),
            Action::Throw => ActionView::Plain(OpCode::Throw),
            Action::ToInteger => ActionView::Plain(OpCode::ToInteger),
            Action::ToNumber => ActionView::Plain(OpCode::ToNumber),
            Action::ToString => ActionView::Plain(OpCode::ToString),
            Action::ToggleQuality => ActionView::Plain(OpCode::ToggleQuality),
            Action::Trace => ActionView::Plain(OpCode::Trace),
            Action::Try(block) => ActionView::Try(block@),
            Action::TypeOf => ActionView::Plain(OpCode::TypeOf),
            Action::WaitForFrame { frame, num_actions_to_skip } => ActionView::WaitForFrame {
                frame: *frame,
                num_actions_to_skip: *num_actions_to_skip,
            },
            Action::WaitForFrame2 { num_actions_to_skip } => ActionView::WaitForFrame2 {
                num_actions_to_skip: *num_actions_to_skip,
            },
            Action::With { actions } => ActionView::With { actions: actions@ },
            Action::Unknown { opcode, data } => ActionView::Unknown { opcode: *opcode, data: data@ },
        }
    }
}
/// What one call for the next record gave: nothing at the end of the
/// program, else the action by its view.
pub open spec fn read_view(read: Option<Action<'_>>) -> Option<ActionView> {
    match read {
        Some(action) => Some(action@),
        None => None,
    }
}

} // verus!
