use avm1::error::DecodeError;
use avm1::read::Reader;
use avm1::types::{Action, CatchVar, Function, FunctionParam, SendVarsMethod, TryBlock, Value};

fn cases() -> Vec<(u8, Action<'static>, Vec<u8>)> {
    vec![
        (1, Action::Add, vec![0x0A]),
        (5, Action::Add2, vec![0x47]),
        (1, Action::And, vec![0x10]),
        (4, Action::AsciiToChar, vec![0x33]),
        (5, Action::BitAnd, vec![0x60]),
        (5, Action::BitLShift, vec![0x63]),
        (5, Action::BitOr, vec![0x61]),
        (5, Action::BitRShift, vec![0x64]),
        (5, Action::BitURShift, vec![0x65]),
        (5, Action::BitXor, vec![0x62]),
        (4, Action::Call, vec![0x9E, 0, 0]),
        (5, Action::CallFunction, vec![0x3D]),
        (5, Action::CallMethod, vec![0x52]),
        (7, Action::CastOp, vec![0x2B]),
        (4, Action::CharToAscii, vec![0x32]),
        (4, Action::CloneSprite, vec![0x24]),
        (
            5,
            Action::ConstantPool(vec!["test", "a"]),
            vec![0x88, 9, 0, 2, 0, b't', b'e', b's', b't', 0, b'a', 0],
        ),
        (5, Action::Decrement, vec![0x51]),
        (
            5,
            Action::DefineFunction {
                name: "cliche",
                params: vec!["greeting", "name"],
                actions: &[0x96, 0x02, 0x00, 0x02, 0x03],
            },
            vec![
                0x9b, 0x19, 0x00, b'c', b'l', b'i', b'c', b'h', b'e', 0, 2, 0, b'g', b'r', b'e',
                b'e', b't', b'i', b'n', b'g', 0, b'n', b'a', b'm', b'e', 0, 5, 0, 0x96, 0x02,
                0x00, 0x02, 0x03,
            ],
        ),
        (5, Action::DefineLocal, vec![0x3C]),
        (5, Action::DefineLocal2, vec![0x41]),
        (5, Action::Delete, vec![0x3A]),
        (5, Action::Delete2, vec![0x3B]),
        (1, Action::Divide, vec![0x0D]),
        (4, Action::EndDrag, vec![0x28]),
        (5, Action::Enumerate, vec![0x46]),
        (6, Action::Enumerate2, vec![0x55]),
        (1, Action::Equals, vec![0x0E]),
        (5, Action::Equals2, vec![0x49]),
        (7, Action::Extends, vec![0x69]),
        (5, Action::GetMember, vec![0x4E]),
        (4, Action::GetProperty, vec![0x22]),
        (4, Action::GetTime, vec![0x34]),
        (
            3,
            Action::GetUrl { url: "a", target: "b" },
            vec![0x83, 4, 0, 97, 0, 98, 0],
        ),
        (
            4,
            Action::GetUrl2 {
                is_target_sprite: false,
                is_load_vars: false,
                send_vars_method: SendVarsMethod::NoMethod,
            },
            vec![0x9A, 1, 0, 0],
        ),
        (
            4,
            Action::GetUrl2 {
                is_target_sprite: true,
                is_load_vars: false,
                send_vars_method: SendVarsMethod::Get,
            },
            vec![0x9A, 1, 0, 0b01_0000_10],
        ),
        (
            4,
            Action::GetUrl2 {
                is_target_sprite: false,
                is_load_vars: true,
                send_vars_method: SendVarsMethod::Post,
            },
            vec![0x9A, 1, 0, 0b10_0000_01],
        ),
        (4, Action::GetVariable, vec![0x1C]),
        (3, Action::GotoFrame(11), vec![0x81, 2, 0, 11, 0]),
        (
            4,
            Action::GotoFrame2 { set_playing: false, scene_offset: 0 },
            vec![0x9F, 1, 0, 0],
        ),
        (
            4,
            Action::GotoFrame2 { set_playing: true, scene_offset: 259 },
            vec![0x9F, 3, 0, 0b11, 3, 1],
        ),
        (
            3,
            Action::GotoLabel("testb"),
            vec![0x8C, 6, 0, 116, 101, 115, 116, 98, 0],
        ),
        (6, Action::Greater, vec![0x67]),
        (4, Action::If { offset: 1 }, vec![0x9D, 2, 0, 1, 0]),
        (4, Action::If { offset: -2 }, vec![0x9D, 2, 0, 0xFE, 0xFF]),
        (7, Action::ImplementsOp, vec![0x2C]),
        (5, Action::Increment, vec![0x50]),
        (5, Action::InitArray, vec![0x42]),
        (5, Action::InitObject, vec![0x43]),
        (6, Action::InstanceOf, vec![0x54]),
        (4, Action::Jump { offset: 1 }, vec![0x99, 2, 0, 1, 0]),
        (4, Action::Jump { offset: -32768 }, vec![0x99, 2, 0, 0x00, 0x80]),
        (1, Action::Less, vec![0x0F]),
        (5, Action::Less2, vec![0x48]),
        (4, Action::MBAsciiToChar, vec![0x37]),
        (4, Action::MBCharToAscii, vec![0x36]),
        (4, Action::MBStringExtract, vec![0x35]),
        (4, Action::MBStringLength, vec![0x31]),
        (5, Action::Modulo, vec![0x3F]),
        (1, Action::Multiply, vec![0x0C]),
        (5, Action::NewMethod, vec![0x53]),
        (5, Action::NewObject, vec![0x40]),
        (3, Action::NextFrame, vec![0x04]),
        (1, Action::Not, vec![0x12]),
        (1, Action::Or, vec![0x11]),
        (3, Action::Play, vec![0x06]),
        (4, Action::Pop, vec![0x17]),
        (3, Action::PreviousFrame, vec![0x05]),
        (
            4,
            Action::Push(vec![Value::Str("test")]),
            vec![0x96, 6, 0, 0, 116, 101, 115, 116, 0],
        ),
        (
            4,
            Action::Push(vec![Value::Float(0.0f32.to_bits())]),
            vec![0x96, 5, 0, 1, 0, 0, 0, 0],
        ),
        (
            4,
            Action::Push(vec![Value::Float(1.5f32.to_bits())]),
            vec![0x96, 5, 0, 1, 0, 0, 0xC0, 0x3F],
        ),
        (
            5,
            Action::Push(vec![Value::Double(1.5f64.to_bits())]),
            vec![0x96, 9, 0, 6, 0, 0, 0, 0, 0, 0, 0xF8, 0x3F],
        ),
        (5, Action::Push(vec![Value::Null]), vec![0x96, 1, 0, 2]),
        (5, Action::Push(vec![Value::Undefined]), vec![0x96, 1, 0, 3]),
        (5, Action::Push(vec![Value::Register(1)]), vec![0x96, 2, 0, 4, 1]),
        (5, Action::Push(vec![Value::Bool(false)]), vec![0x96, 2, 0, 5, 0]),
        (5, Action::Push(vec![Value::Bool(true)]), vec![0x96, 2, 0, 5, 1]),
        (5, Action::Push(vec![Value::Bool(true)]), vec![0x96, 2, 0, 5, 7]),
        (
            5,
            Action::Push(vec![Value::Int(31)]),
            vec![0x96, 5, 0, 7, 31, 0, 0, 0],
        ),
        (
            5,
            Action::Push(vec![Value::Int(-50)]),
            vec![0x96, 5, 0, 7, 0xCE, 0xFF, 0xFF, 0xFF],
        ),
        (
            5,
            Action::Push(vec![Value::ConstantPool(77)]),
            vec![0x96, 2, 0, 8, 77],
        ),
        (
            5,
            Action::Push(vec![Value::ConstantPool(257)]),
            vec![0x96, 3, 0, 9, 1, 1],
        ),
        (5, Action::PushDuplicate, vec![0x4C]),
        (4, Action::RandomNumber, vec![0x30]),
        (4, Action::RemoveSprite, vec![0x25]),
        (5, Action::Return, vec![0x3E]),
        (5, Action::SetMember, vec![0x4F]),
        (4, Action::SetProperty, vec![0x23]),
        (
            3,
            Action::SetTarget("test"),
            vec![0x8B, 5, 0, 116, 101, 115, 116, 0],
        ),
        (4, Action::SetTarget2, vec![0x20]),
        (4, Action::SetVariable, vec![0x1D]),
        (5, Action::StackSwap, vec![0x4D]),
        (4, Action::StartDrag, vec![0x27]),
        (3, Action::Stop, vec![0x07]),
        (3, Action::StopSounds, vec![0x09]),
        (5, Action::StoreRegister(1), vec![0x87, 1, 0, 1]),
        (6, Action::StrictEquals, vec![0x66]),
        (4, Action::StringAdd, vec![0x21]),
        (4, Action::StringEquals, vec![0x13]),
        (4, Action::StringExtract, vec![0x15]),
        (6, Action::StringGreater, vec![0x68]),
        (4, Action::StringLength, vec![0x14]),
        (4, Action::StringLess, vec![0x29]),
        (1, Action::Subtract, vec![0x0B]),
        (5, Action::TargetPath, vec![0x45]),
        (7, Action::Throw, vec![0x2A]),
        (3, Action::ToggleQuality, vec![0x08]),
        (4, Action::ToInteger, vec![0x18]),
        (5, Action::ToNumber, vec![0x4A]),
        (5, Action::ToString, vec![0x4B]),
        (4, Action::Trace, vec![0x26]),
        (5, Action::TypeOf, vec![0x44]),
        (
            3,
            Action::WaitForFrame { frame: 4, num_actions_to_skip: 10 },
            vec![0x8A, 3, 0, 4, 0, 10],
        ),
        (
            4,
            Action::WaitForFrame2 { num_actions_to_skip: 34 },
            vec![0x8D, 1, 0, 34],
        ),
        (
            5,
            Action::With { actions: &[0x26, 0x07] },
            vec![0x94, 2, 0, 2, 0, 0x26, 0x07],
        ),
        (
            1,
            Action::Unknown { opcode: 0x79, data: &[] },
            vec![0x79],
        ),
        (
            1,
            Action::Unknown { opcode: 0xA0, data: &[2, 3] },
            vec![0xA0, 2, 0, 2, 3],
        ),
    ]
}

#[test]
fn read_action() {
    for (swf_version, expected_action, action_bytes) in cases() {
        let mut reader = Reader::new(&action_bytes[..], swf_version);
        let parsed_action = reader.read_action().unwrap().unwrap();
        if parsed_action != expected_action {
            panic!(
                "Incorrectly parsed action.\nRead:\n{:?}\n\nExpected:\n{:?}",
                parsed_action, expected_action
            );
        }
        assert_eq!(reader.pos(), action_bytes.len());
        assert_eq!(reader.version(), swf_version);
    }
}

#[test]
fn read_define_function() {
    // Ensure we read a function properly along with the function data.
    let action_bytes = vec![
        0x9b, 0x08, 0x00, 0x66, 0x6f, 0x6f, 0x00, 0x00, 0x00, 0x0a, 0x00, 0x96, 0x06, 0x00, 0x00,
        0x74, 0x65, 0x73, 0x74, 0x00, 0x26, 0x00,
    ];
    let mut reader = Reader::new(&action_bytes[..], 5);
    let action = reader.read_action().unwrap().unwrap();
    assert_eq!(
        action,
        Action::DefineFunction {
            name: "foo",
            params: vec![],
            actions: &[0x96, 0x06, 0x00, 0x00, 0x74, 0x65, 0x73, 0x74, 0x00, 0x26],
        }
    );

    if let Action::DefineFunction { actions, .. } = action {
        let mut reader = Reader::new(actions, 5);
        let action = reader.read_action().unwrap().unwrap();
        assert_eq!(action, Action::Push(vec![Value::Str("test")]));
    }
}

#[test]
fn read_push_to_end_of_action() {
    // ActionPush doesn't provide an explicit # of values, but instead reads values
    // until the end of the action. Ensure we don't read extra values.
    let action_bytes = [0x96, 2, 0, 2, 3, 3]; // Extra 3 at the end shouldn't be read.
    let mut reader = Reader::new(&action_bytes[..], 5);
    let action = reader.read_action().unwrap().unwrap();
    assert_eq!(action, Action::Push(vec![Value::Null, Value::Undefined]));
    assert_eq!(reader.pos(), 5);
}

#[test]
fn end_opcode_is_the_terminal_marker() {
    let bytes = [0x00, 0x0A, 0x00];
    let mut reader = Reader::new(&bytes[..], 5);
    assert_eq!(reader.read_action(), Ok(None));
    assert_eq!(reader.pos(), 1);
    assert_eq!(reader.read_action(), Ok(Some(Action::Add)));
    assert_eq!(reader.read_action(), Ok(None));
    assert_eq!(reader.pos(), 3);
}

#[test]
fn unknown_opcode_keeps_number_and_payload() {
    let bytes = [0xFE, 3, 0, 9, 8, 7, 0x07];
    let mut reader = Reader::new(&bytes[..], 5);
    assert_eq!(
        reader.read_action(),
        Ok(Some(Action::Unknown { opcode: 0xFE, data: &[9, 8, 7] }))
    );
    assert_eq!(reader.pos(), 6);
    assert_eq!(reader.read_action(), Ok(Some(Action::Stop)));

    let empty = [0x80, 0, 0];
    let mut reader = Reader::new(&empty[..], 5);
    assert_eq!(
        reader.read_action(),
        Ok(Some(Action::Unknown { opcode: 0x80, data: &[] }))
    );
    assert_eq!(reader.pos(), 3);
}

#[test]
fn unknown_opcode_with_short_payload_fails() {
    let bytes = [0xFE, 4, 0, 9, 8, 7];
    let mut reader = Reader::new(&bytes[..], 5);
    assert_eq!(reader.read_action(), Err(DecodeError::UnexpectedEof));
    assert_eq!(reader.pos(), 0);
}

#[test]
fn push_value_that_crosses_the_record_end_fails() {
    // The record is two bytes long, but the integer in it needs five.
    let bytes = [0x96, 2, 0, 7, 1, 0, 0, 0];
    let mut reader = Reader::new(&bytes[..], 5);
    assert_eq!(reader.read_action(), Err(DecodeError::UnexpectedEof));
    assert_eq!(reader.pos(), 0);
}

#[test]
fn push_of_length_zero_is_empty() {
    let bytes = [0x96, 0, 0, 2];
    let mut reader = Reader::new(&bytes[..], 5);
    assert_eq!(reader.read_action(), Ok(Some(Action::Push(vec![]))));
    assert_eq!(reader.pos(), 3);
}

#[test]
fn push_reads_every_kind_of_value() {
    let bytes = [
        0x96, 34, 0, // head
        0, b'h', b'i', 0, // string
        1, 0x00, 0x00, 0x80, 0x3F, // float 1.0
        2, // null
        3, // undefined
        4, 200, // register
        5, 1, // bool
        6, 0x18, 0x2D, 0x44, 0x54, 0xFB, 0x21, 0x09, 0x40, // double pi
        7, 0x00, 0x00, 0x00, 0x80, // int min
        8, 255, // pool index, one byte
        9, 0x34, 0x12, // pool index, two bytes
    ];
    let mut reader = Reader::new(&bytes[..], 6);
    assert_eq!(
        reader.read_action(),
        Ok(Some(Action::Push(vec![
            Value::Str("hi"),
            Value::Float(1.0f32.to_bits()),
            Value::Null,
            Value::Undefined,
            Value::Register(200),
            Value::Bool(true),
            Value::Double(std::f64::consts::PI.to_bits()),
            Value::Int(i32::MIN),
            Value::ConstantPool(255),
            Value::ConstantPool(0x1234),
        ])))
    );
    assert_eq!(reader.pos(), bytes.len());
}

#[test]
fn push_with_an_undefined_tag_fails() {
    let bytes = [0x96, 2, 0, 2, 10];
    let mut reader = Reader::new(&bytes[..], 5);
    assert_eq!(reader.read_action(), Err(DecodeError::InvalidPushType(10)));
    assert_eq!(reader.pos(), 0);
}

#[test]
fn get_url_2_with_an_undefined_method_fails() {
    let bytes = [0x9A, 1, 0, 0b1100_0001];
    let mut reader = Reader::new(&bytes[..], 5);
    assert_eq!(reader.read_action(), Err(DecodeError::InvalidSendVarsMethod(3)));
    assert_eq!(reader.pos(), 0);
}

#[test]
fn string_that_is_not_utf8_fails() {
    let bytes = [0x8B, 3, 0, 0xFF, 0xFE, 0];
    let mut reader = Reader::new(&bytes[..], 5);
    assert_eq!(reader.read_action(), Err(DecodeError::InvalidString));
    assert_eq!(reader.pos(), 0);
}

#[test]
fn string_without_terminator_fails() {
    let bytes = [0x8B, 3, 0, b'a', b'b', b'c'];
    let mut reader = Reader::new(&bytes[..], 5);
    assert_eq!(reader.read_action(), Err(DecodeError::UnexpectedEof));
    assert_eq!(reader.pos(), 0);
}

#[test]
fn string_keeps_text_beyond_ascii() {
    // "é" is C3 A9 in UTF-8.
    let bytes = [0x8C, 4, 0, b'a', 0xC3, 0xA9, 0, 0x07];
    let mut reader = Reader::new(&bytes[..], 6);
    assert_eq!(reader.read_action(), Ok(Some(Action::GotoLabel("a\u{e9}"))));
    assert_eq!(reader.pos(), 7);
}

#[test]
fn empty_input_fails() {
    let bytes: [u8; 0] = [];
    let mut reader = Reader::new(&bytes[..], 5);
    assert_eq!(reader.read_action(), Err(DecodeError::UnexpectedEof));
    assert_eq!(reader.pos(), 0);
}

#[test]
fn truncated_length_field_fails() {
    let bytes = [0x96, 2];
    let mut reader = Reader::new(&bytes[..], 5);
    assert_eq!(reader.read_opcode_and_length(), Err(DecodeError::UnexpectedEof));
    assert_eq!(reader.pos(), 0);
}

#[test]
fn opcode_and_length_of_both_shapes() {
    let bytes = [0x7F, 0x80, 0x34, 0x12];
    let mut reader = Reader::new(&bytes[..], 5);
    assert_eq!(reader.read_opcode_and_length(), Ok((0x7F, 0)));
    assert_eq!(reader.pos(), 1);
    assert_eq!(reader.read_opcode_and_length(), Ok((0x80, 0x1234)));
    assert_eq!(reader.pos(), 4);
}

#[test]
fn primitives_are_little_endian() {
    let bytes = [
        0x01, 0x02, 0x03, 0xFF, 0xFF, 0x04, 0x03, 0x02, 0x01, 0xFE, 0xFF, 0xFF, 0xFF, 0x08, 0x07,
        0x06, 0x05, 0x04, 0x03, 0x02, 0x01,
    ];
    let mut reader = Reader::new(&bytes[..], 5);
    assert_eq!(reader.read_u8(), Ok(0x01));
    assert_eq!(reader.read_u16(), Ok(0x0302));
    assert_eq!(reader.read_i16(), Ok(-1));
    assert_eq!(reader.read_u32(), Ok(0x0102_0304));
    assert_eq!(reader.read_i32(), Ok(-2));
    assert_eq!(reader.read_u64(), Ok(0x0102_0304_0506_0708));
    assert_eq!(reader.pos(), bytes.len());
    assert_eq!(reader.read_u8(), Err(DecodeError::UnexpectedEof));
    assert_eq!(reader.pos(), bytes.len());
}

#[test]
fn short_primitives_fail_and_stay() {
    let bytes = [1, 2, 3];
    let mut reader = Reader::new(&bytes[..], 5);
    assert_eq!(reader.read_u32(), Err(DecodeError::UnexpectedEof));
    assert_eq!(reader.read_i32(), Err(DecodeError::UnexpectedEof));
    assert_eq!(reader.read_u64(), Err(DecodeError::UnexpectedEof));
    assert_eq!(reader.pos(), 0);
    assert_eq!(reader.read_u16(), Ok(0x0201));
    assert_eq!(reader.read_u16(), Err(DecodeError::UnexpectedEof));
    assert_eq!(reader.read_i16(), Err(DecodeError::UnexpectedEof));
    assert_eq!(reader.pos(), 2);
}

#[test]
fn read_slice_borrows_the_exact_range() {
    let bytes = [1, 2, 3, 4, 5];
    let mut reader = Reader::new(&bytes[..], 5);
    reader.seek(1);
    assert_eq!(reader.read_slice(3), Ok(&bytes[1..4]));
    assert_eq!(reader.pos(), 4);
    assert_eq!(reader.read_slice(2), Err(DecodeError::UnexpectedEof));
    assert_eq!(reader.pos(), 4);
    assert_eq!(reader.read_slice(0), Ok(&bytes[4..4]));
    assert_eq!(reader.read_slice(1), Ok(&bytes[4..5]));
    assert_eq!(reader.read_slice(0), Ok(&bytes[5..5]));
}

#[test]
fn read_c_string_stops_at_the_first_zero() {
    let bytes = [b'a', b'b', 0, 0, b'c', 0];
    let mut reader = Reader::new(&bytes[..], 5);
    assert_eq!(reader.read_c_string(), Ok("ab"));
    assert_eq!(reader.pos(), 3);
    assert_eq!(reader.read_c_string(), Ok(""));
    assert_eq!(reader.pos(), 4);
    assert_eq!(reader.read_c_string(), Ok("c"));
    assert_eq!(reader.pos(), 6);
    assert_eq!(reader.read_c_string(), Err(DecodeError::UnexpectedEof));
}

#[test]
fn seek_moves_both_ways_and_wraps() {
    let bytes = [0x0A, 0x0B, 0x0C, 0x0D];
    let mut reader = Reader::new(&bytes[..], 5);
    reader.seek(3);
    assert_eq!(reader.pos(), 3);
    assert_eq!(reader.read_action(), Ok(Some(Action::Divide)));
    reader.seek(-3);
    assert_eq!(reader.pos(), 1);
    assert_eq!(reader.read_action(), Ok(Some(Action::Subtract)));
    reader.seek(-3);
    assert_eq!(reader.pos(), usize::MAX);
    assert_eq!(reader.read_action(), Err(DecodeError::UnexpectedEof));
    assert_eq!(reader.pos(), usize::MAX);
    reader.seek(1);
    assert_eq!(reader.pos(), 0);
    assert_eq!(reader.read_action(), Ok(Some(Action::Add)));
}

#[test]
fn position_accessor_does_not_disturb_decoding() {
    let bytes = [0x96, 2, 0, 2, 3, 0x26, 0x00];
    let mut plain = Reader::new(&bytes[..], 5);
    let mut watched = Reader::new(&bytes[..], 5);
    loop {
        let before = watched.pos();
        assert_eq!(watched.pos(), before);
        let a = plain.read_action();
        let b = watched.read_action();
        assert_eq!(a, b);
        assert_eq!(plain.pos(), watched.pos());
        if a == Ok(None) {
            break;
        }
    }
    assert_eq!(plain.pos(), 7);
}

#[test]
fn two_readers_decode_the_same_program() {
    let bytes = [
        0x88, 6, 0, 1, 0, b'x', b'y', b'z', 0, 0x96, 2, 0, 8, 0, 0x1C, 0x9D, 2, 0, 3, 0, 0xA5, 1,
        0, 9, 0x00,
    ];
    let mut first = Reader::new(&bytes[..], 6);
    let mut second = Reader::new(&bytes[..], 6);
    let mut seen = Vec::new();
    loop {
        let a = first.read_action().unwrap();
        let b = second.read_action().unwrap();
        assert_eq!(a, b);
        assert_eq!(first.pos(), second.pos());
        match a {
            Some(action) => seen.push(action),
            None => break,
        }
    }
    assert_eq!(
        seen,
        vec![
            Action::ConstantPool(vec!["xyz"]),
            Action::Push(vec![Value::ConstantPool(0)]),
            Action::GetVariable,
            Action::If { offset: 3 },
            Action::Unknown { opcode: 0xA5, data: &[9] },
        ]
    );
}

fn function_2_bytes(flags: u16) -> Vec<u8> {
    let mut bytes = vec![0x8E, 0, 0, b'f', 0, 2, 0, 4];
    bytes.push((flags & 0xFF) as u8);
    bytes.push((flags >> 8) as u8);
    bytes.extend_from_slice(&[0, b'a', 0, 3, b'b', 0, 1, 0, 0x07]);
    bytes
}

fn function_2_flags(flags: u16) -> [bool; 9] {
    let bytes = function_2_bytes(flags);
    let mut reader = Reader::new(&bytes[..], 7);
    match reader.read_action() {
        Ok(Some(Action::DefineFunction2(f))) => {
            assert_eq!(f.name, "f");
            assert_eq!(
                f.params,
                vec![
                    FunctionParam { name: "a", register_index: None },
                    FunctionParam { name: "b", register_index: Some(3) },
                ]
            );
            assert_eq!(f.actions, &[0x07]);
            assert_eq!(reader.pos(), bytes.len());
            [
                f.preload_this,
                f.suppress_this,
                f.preload_arguments,
                f.suppress_arguments,
                f.preload_super,
                f.suppress_super,
                f.preload_root,
                f.preload_parent,
                f.preload_global,
            ]
        }
        other => panic!("unexpected result: {:?}", other),
    }
}

#[test]
fn define_function_2_reads_all_parts() {
    let bytes = function_2_bytes(0b1_0010_1010);
    let mut reader = Reader::new(&bytes[..], 7);
    assert_eq!(
        reader.read_action(),
        Ok(Some(Action::DefineFunction2(Function {
            name: "f",
            params: vec![
                FunctionParam { name: "a", register_index: None },
                FunctionParam { name: "b", register_index: Some(3) },
            ],
            preload_parent: false,
            preload_root: false,
            suppress_super: true,
            preload_super: false,
            suppress_arguments: true,
            preload_arguments: false,
            suppress_this: true,
            preload_this: false,
            preload_global: true,
            actions: &[0x07],
        })))
    );
}

#[test]
fn define_function_2_flags_are_independent() {
    for base in [0u16, 0x01FF, 0b1_0101_0101, 0xFE00] {
        let before = function_2_flags(base);
        for bit in 0..16usize {
            let after = function_2_flags(base ^ (1 << bit));
            for field in 0..9usize {
                assert_eq!(before[field] != after[field], field == bit);
            }
        }
    }
    assert_eq!(function_2_flags(0), [false; 9]);
    assert_eq!(function_2_flags(0x01FF), [true; 9]);
}

#[test]
fn define_function_with_short_body_fails() {
    let bytes = [0x9b, 0, 0, b'f', 0, 0, 0, 3, 0, 0x07, 0x07];
    let mut reader = Reader::new(&bytes[..], 5);
    assert_eq!(reader.read_action(), Err(DecodeError::UnexpectedEof));
    assert_eq!(reader.pos(), 0);
}

#[test]
fn try_block_with_named_catch_and_finally() {
    let bytes = [
        0x8F, 0, 0, 0b111, 1, 0, 2, 0, 1, 0, b'e', 0, 0x07, 0x26, 0x17, 0x06, 0x00,
    ];
    let mut reader = Reader::new(&bytes[..], 7);
    assert_eq!(
        reader.read_action(),
        Ok(Some(Action::Try(TryBlock {
            try_actions: &[0x07],
            catch: Some((CatchVar::Var("e"), &[0x26, 0x17])),
            finally: Some(&[0x06]),
        })))
    );
    assert_eq!(reader.pos(), 16);
}

#[test]
fn try_block_reads_disabled_bodies_but_drops_them() {
    let bytes = [0x8F, 0, 0, 0b000, 1, 0, 2, 0, 1, 0, 5, 0x07, 0x26, 0x17, 0x06, 0x00];
    let mut reader = Reader::new(&bytes[..], 7);
    assert_eq!(
        reader.read_action(),
        Ok(Some(Action::Try(TryBlock { try_actions: &[0x07], catch: None, finally: None })))
    );
    assert_eq!(reader.pos(), 15);
    assert_eq!(reader.read_action(), Ok(None));
}

#[test]
fn try_block_with_register_catch() {
    let bytes = [0x8F, 0, 0, 0b001, 0, 0, 1, 0, 0, 0, 5, 0x26];
    let mut reader = Reader::new(&bytes[..], 7);
    assert_eq!(
        reader.read_action(),
        Ok(Some(Action::Try(TryBlock {
            try_actions: &[],
            catch: Some((CatchVar::Register(5), &[0x26])),
            finally: None,
        })))
    );
    assert_eq!(reader.pos(), bytes.len());
}

#[test]
fn try_block_with_short_body_fails() {
    let bytes = [0x8F, 0, 0, 0b010, 1, 0, 0, 0, 2, 0, 5, 0x07, 0x06];
    let mut reader = Reader::new(&bytes[..], 7);
    assert_eq!(reader.read_action(), Err(DecodeError::UnexpectedEof));
    assert_eq!(reader.pos(), 0);
}

#[test]
fn constant_pool_goes_by_its_count() {
    // The length field says nothing; the count decides.
    let bytes = [0x88, 0, 0, 2, 0, b'a', 0, b'b', 0, 0x07];
    let mut reader = Reader::new(&bytes[..], 5);
    assert_eq!(reader.read_action(), Ok(Some(Action::ConstantPool(vec!["a", "b"]))));
    assert_eq!(reader.pos(), 9);
}

#[test]
fn error_messages_name_the_failure() {
    assert_eq!(DecodeError::UnexpectedEof.message(), "unexpected end of input");
    assert_eq!(DecodeError::InvalidString.message(), "Invalid string data");
    assert_eq!(DecodeError::InvalidPushType(12).message(), "Invalid value type in ActionPush");
    assert_eq!(
        DecodeError::InvalidSendVarsMethod(3).message(),
        "Invalid HTTP method in ActionGetUrl2"
    );
}

#[test]
fn sub_decoders_start_behind_the_record_head() {
    let bytes = [2, 3, 0xFF];
    let mut reader = Reader::new(&bytes[..], 5);
    assert_eq!(reader.read_push(2), Ok(Action::Push(vec![Value::Null, Value::Undefined])));
    assert_eq!(reader.pos(), 2);
    assert_eq!(reader.read_push(2), Err(DecodeError::UnexpectedEof));
    assert_eq!(reader.pos(), 2);
    assert_eq!(reader.read_push_value(), Err(DecodeError::InvalidPushType(0xFF)));
    assert_eq!(reader.pos(), 2);
    assert_eq!(
        reader.read_unknown_action(0xEE, 1),
        Ok(Action::Unknown { opcode: 0xEE, data: &[0xFF] })
    );
    assert_eq!(reader.pos(), 3);

    let function = [b'g', 0, 1, 0, b'x', 0, 2, 0, 0x06, 0x07, 0x00];
    let mut reader = Reader::new(&function[..], 5);
    assert_eq!(
        reader.read_define_function(),
        Ok(Action::DefineFunction { name: "g", params: vec!["x"], actions: &[0x06, 0x07] })
    );
    assert_eq!(reader.pos(), 10);

    let block = [0b110, 0, 0, 0, 0, 1, 0, b'v', 0, 0x04];
    let mut reader = Reader::new(&block[..], 7);
    assert_eq!(
        reader.read_try(),
        Ok(Action::Try(TryBlock { try_actions: &[], catch: None, finally: Some(&[0x04]) }))
    );
    assert_eq!(reader.pos(), 10);

    let extended = [0, 0, 0, 0, 0, 1, 0, 0];
    let mut reader = Reader::new(&extended[..], 7);
    match reader.read_define_function_2() {
        Ok(Action::DefineFunction2(f)) => {
            assert_eq!(f.name, "");
            assert!(f.params.is_empty());
            assert!(f.preload_global);
            assert!(!f.preload_this);
            assert!(f.actions.is_empty());
        }
        other => panic!("unexpected result: {:?}", other),
    }
    assert_eq!(reader.pos(), 8);
}

#[test]
fn records_move_the_cursor_forward() {
    let bytes = [0x07, 0x81, 2, 0, 5, 0, 0xC0, 1, 0, 9, 0x00];
    let mut reader = Reader::new(&bytes[..], 5);
    let mut last = reader.pos();
    loop {
        let read = reader.read_action().unwrap();
        assert!(reader.pos() > last);
        assert!(reader.pos() <= bytes.len());
        last = reader.pos();
        if read.is_none() {
            break;
        }
    }
    assert_eq!(last, bytes.len());
}
