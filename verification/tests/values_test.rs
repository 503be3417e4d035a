//! The values that cross the boundary, and the small pieces under them.
use dtvmcore_rust::config::ZenRuntimeConfig;
use dtvmcore_rust::config::ZenRuntimeMode;
use dtvmcore_rust::decimal::i64_to_decimal;
use dtvmcore_rust::decimal::u64_to_decimal;
use dtvmcore_rust::engine::ZenArgExtern;
use dtvmcore_rust::engine::ZenEngineCall;
use dtvmcore_rust::engine::ZenEngineReply;
use dtvmcore_rust::engine::ZenInstanceExtern;
use dtvmcore_rust::engine::ZenRuntimeConfigExtern;
use dtvmcore_rust::engine::ZenValueExtern;
use dtvmcore_rust::engine::ERROR_BUF_SIZE;
use dtvmcore_rust::host_module::c_strings_buffer;
use dtvmcore_rust::host_module::host_funcs_buffer;
use dtvmcore_rust::host_module::type_tags_buffer;
use dtvmcore_rust::host_module::ZenHostFuncDesc;
use dtvmcore_rust::instance::args_buffer;
use dtvmcore_rust::types::ZenValue;
use dtvmcore_rust::types::ZenValueType;
use dtvmcore_rust::utils::at_least;
use dtvmcore_rust::utils::c_str_len;
use dtvmcore_rust::utils::count_of;
use dtvmcore_rust::utils::get_all_hostapis_refs;
use dtvmcore_rust::utils::get_hostapis_names;
use dtvmcore_rust::utils::message_of_buffer;
use dtvmcore_rust::utils::rust_str_to_c_str;
use dtvmcore_rust::utils::text_of_bytes;
use dtvmcore_rust::utils::ScopedMalloc;

#[test]
fn kinds_have_the_tags_of_the_engine() {
    assert_eq!(0, ZenValueType::I32.to_i32());
    assert_eq!(1, ZenValueType::I64.to_i32());
    assert_eq!(2, ZenValueType::F32.to_i32());
    assert_eq!(3, ZenValueType::F64.to_i32());
    for kind in [ZenValueType::I32, ZenValueType::I64, ZenValueType::F32, ZenValueType::F64] {
        assert_eq!(Some(kind), ZenValueType::from_i32(kind.to_i32()));
    }
    for tag in [-1, 4, 5, i32::MIN, i32::MAX] {
        assert_eq!(None, ZenValueType::from_i32(tag));
    }
}

#[test]
fn modes_have_the_numbers_of_the_engine() {
    assert_eq!(0, ZenRuntimeMode::Interp.to_i32());
    assert_eq!(1, ZenRuntimeMode::Singlepass.to_i32());
    assert_eq!(2, ZenRuntimeMode::Multipass.to_i32());
    assert!(matches!(
        ZenRuntimeConfig::new_call(ZenRuntimeMode::Multipass),
        ZenEngineCall::CreateRuntimeConfig { mode: 2 }
    ));
}

#[test]
fn a_configuration_is_released_once() {
    let mut config = ZenRuntimeConfig::new(ZenRuntimeMode::Interp, &ZenEngineReply::Pointer(0x40));
    assert_eq!(ZenRuntimeConfigExtern { addr: 0x40 }, config.ptr());
    assert!(matches!(config.release(), Some(ZenEngineCall::DeleteRuntimeConfig { config }) if config.addr == 0x40));
    assert!(config.ptr().is_null());
    assert!(config.release().is_none());
    let mut null = ZenRuntimeConfig::new(ZenRuntimeMode::Interp, &ZenEngineReply::Pointer(0));
    assert!(null.release().is_none());
}

#[test]
fn integers_have_their_decimal_text() {
    assert_eq!("0", u64_to_decimal(0));
    assert_eq!("7", u64_to_decimal(7));
    assert_eq!("10", u64_to_decimal(10));
    assert_eq!("1000", u64_to_decimal(1000));
    assert_eq!("18446744073709551615", u64_to_decimal(u64::MAX));
    assert_eq!("0", i64_to_decimal(0));
    assert_eq!("-1", i64_to_decimal(-1));
    assert_eq!("-10", i64_to_decimal(-10));
    assert_eq!("9223372036854775807", i64_to_decimal(i64::MAX));
    assert_eq!("-9223372036854775808", i64_to_decimal(i64::MIN));
    for n in [-1234567i64, -99, -9, 1, 9, 99, 100, 101, 4294967296] {
        assert_eq!(n.to_string(), i64_to_decimal(n));
        assert_eq!(n, i64_to_decimal(n).parse::<i64>().unwrap());
    }
}

#[test]
fn values_have_text_unless_they_are_floats() {
    assert_eq!(Some("8".to_string()), ZenValue::ZenI32Value(8).to_string());
    assert_eq!(Some("-2147483648".to_string()), ZenValue::ZenI32Value(i32::MIN).to_string());
    assert_eq!(Some("100102".to_string()), ZenValue::ZenI64Value(100102).to_string());
    assert_eq!(None, ZenValue::ZenF32Value(0).to_string());
    assert_eq!(None, ZenValue::ZenF64Value(0).to_string());
    assert_eq!(Some(b"8\0".to_vec()), ZenValue::ZenI32Value(8).to_c_str_bytes());
    assert_eq!(Some(b"-12\0".to_vec()), ZenValue::ZenI64Value(-12).to_c_str_bytes());
    assert_eq!(None, ZenValue::ZenF32Value(5).to_c_str_bytes());
    assert_eq!(None, ZenValue::ZenF64Value(5).to_c_str_bytes());
    assert!(matches!(ZenValue::ZenI32Value(0).to_arg(), ZenArgExtern::Text(text) if text == b"0\0".to_vec()));
    assert!(matches!(ZenValue::ZenF32Value(17).to_arg(), ZenArgExtern::Float32(17)));
    assert!(matches!(ZenValue::ZenF64Value(u64::MAX).to_arg(), ZenArgExtern::Float64(u64::MAX)));
    assert_eq!(ZenValueType::I32, ZenValue::ZenI32Value(0).value_type());
    assert_eq!(ZenValueType::I64, ZenValue::ZenI64Value(0).value_type());
    assert_eq!(ZenValueType::F32, ZenValue::ZenF32Value(0).value_type());
    assert_eq!(ZenValueType::F64, ZenValue::ZenF64Value(0).value_type());
}

#[test]
fn values_cross_in_records_and_come_back_the_same() {
    let one_and_a_half = 1.5f32.to_bits();
    let pi = std::f64::consts::PI.to_bits();
    let values = [
        ZenValue::ZenI32Value(0),
        ZenValue::ZenI32Value(-1),
        ZenValue::ZenI32Value(i32::MIN),
        ZenValue::ZenI32Value(i32::MAX),
        ZenValue::ZenI64Value(i64::MIN),
        ZenValue::ZenI64Value(i64::MAX),
        ZenValue::ZenF32Value(one_and_a_half),
        ZenValue::ZenF32Value(u32::MAX),
        ZenValue::ZenF32Value(f32::NAN.to_bits()),
        ZenValue::ZenF64Value(pi),
        ZenValue::ZenF64Value(u64::MAX),
        ZenValue::ZenF64Value(f64::NEG_INFINITY.to_bits()),
    ];
    for value in values {
        assert_eq!(Ok(value), ZenValue::from_extern(&value.to_extern()));
    }
    assert_eq!(ZenValueExtern { value_type: 0, value: -1 }, ZenValue::ZenI32Value(-1).to_extern());
    assert_eq!(ZenValueExtern { value_type: 1, value: 5 }, ZenValue::ZenI64Value(5).to_extern());
    assert_eq!(
        ZenValueExtern { value_type: 2, value: 0x3fc0_0000 },
        ZenValue::ZenF32Value(one_and_a_half).to_extern()
    );
    assert_eq!(ZenValueExtern { value_type: 3, value: -1 }, ZenValue::ZenF64Value(u64::MAX).to_extern());
    // the payload is read at the width of the kind
    assert_eq!(
        Ok(ZenValue::ZenI32Value(1)),
        ZenValue::from_extern(&ZenValueExtern { value_type: 0, value: 0x1_0000_0001 })
    );
    assert_eq!(
        Ok(ZenValue::ZenF32Value(one_and_a_half)),
        ZenValue::from_extern(&ZenValueExtern { value_type: 2, value: -0x1_0000_0000 + 0x3fc0_0000 })
    );
    assert_eq!(1.5f32, f32::from_bits(one_and_a_half));
    assert_eq!(
        Err("invalid wasm func return value type".to_string()),
        ZenValue::from_extern(&ZenValueExtern { value_type: 4, value: 0 })
    );
}

#[test]
fn at_least_is_the_larger() {
    assert_eq!(1, at_least(0usize, 1usize));
    assert_eq!(1, at_least(1usize, 1usize));
    assert_eq!(2, at_least(2usize, 1usize));
    assert_eq!(-3, at_least(-5i64, -3i64));
    assert_eq!("b", at_least("a", "b"));
    assert_eq!(usize::MAX, at_least(usize::MAX, 1usize));
}

#[test]
fn c_strings_end_in_one_nul() {
    assert_eq!(vec![0u8], rust_str_to_c_str(""));
    assert_eq!(b"env\0".to_vec(), rust_str_to_c_str("env"));
    assert_eq!(vec![0xc3, 0xa9, 0], rust_str_to_c_str("\u{e9}"));
    assert_eq!(b"a\0b\0".to_vec(), rust_str_to_c_str("a\0b"));
    assert_eq!(0, c_str_len(b""));
    assert_eq!(0, c_str_len(b"\0abc"));
    assert_eq!(3, c_str_len(b"env\0"));
    assert_eq!(3, c_str_len(b"env"));
    assert_eq!(1, c_str_len(b"a\0b\0"));
    assert_eq!(3, c_str_len(&rust_str_to_c_str("env")));
}

#[test]
fn bytes_become_text_only_if_they_are_utf8() {
    assert_eq!(Some("".to_string()), text_of_bytes(b""));
    assert_eq!(Some("env".to_string()), text_of_bytes(b"env"));
    assert_eq!(Some("\u{e9}\u{4e2d}\u{1f600}".to_string()), text_of_bytes("\u{e9}\u{4e2d}\u{1f600}".as_bytes()));
    assert_eq!(None, text_of_bytes(&[0xff]));
    assert_eq!(None, text_of_bytes(&[0xc3]));
    assert_eq!(None, text_of_bytes(&[b'a', 0x80]));
    // an encoded surrogate and an overlong encoding are no UTF-8
    assert_eq!(None, text_of_bytes(&[0xed, 0xa0, 0x80]));
    assert_eq!(None, text_of_bytes(&[0xc0, 0xaf]));
}

#[test]
fn messages_are_read_from_bounded_buffers() {
    assert_eq!(256, ERROR_BUF_SIZE);
    assert_eq!("", message_of_buffer(b"", 256));
    assert_eq!("", message_of_buffer(&[0; 256], 256));
    assert_eq!("boom", message_of_buffer(b"boom\0rest", 256));
    assert_eq!("boom", message_of_buffer(b"boom", 256));
    assert_eq!("bo", message_of_buffer(b"boom", 2));
    assert_eq!("", message_of_buffer(b"boom", 0));
    assert_eq!("engine message is not valid UTF-8", message_of_buffer(&[0xff, 0], 256));
    // a character cut by the bound is no text
    assert_eq!("engine message is not valid UTF-8", message_of_buffer(&[b'a', 0xc3, 0xa9], 2));
    assert_eq!("a\u{e9}", message_of_buffer(&[b'a', 0xc3, 0xa9], 3));
    let reply = ZenEngineReply::Created { ptr: 0, error_buf: b"no such file\0".to_vec() };
    assert_eq!("no such file", reply.error_text());
    assert_eq!("", ZenEngineReply::Pointer(1).error_text());
}

#[test]
fn replies_are_read_by_their_shape() {
    assert_eq!(5, ZenEngineReply::Pointer(5).pointer());
    assert_eq!(6, ZenEngineReply::Created { ptr: 6, error_buf: vec![] }.pointer());
    assert_eq!(0, ZenEngineReply::Word(5).pointer());
    assert_eq!(0, ZenEngineReply::Unit.pointer());
    assert!(ZenEngineReply::Flag(1).flag());
    assert!(ZenEngineReply::Flag(0xffff_ffff).flag());
    assert!(!ZenEngineReply::Flag(0).flag());
    assert!(!ZenEngineReply::Pointer(1).flag());
    assert!(ZenEngineReply::Error { got: 2, error_buf: vec![] }.flag());
    assert!(!ZenEngineReply::Error { got: 0, error_buf: vec![] }.flag());
    assert!(ZenEngineReply::Called { ok: 1, out_results: vec![], out_num_results: 0 }.flag());
    assert_eq!(9, ZenEngineReply::Word(9).word());
    assert_eq!(0, ZenEngineReply::Long(9).word());
    assert_eq!(u64::MAX, ZenEngineReply::Long(u64::MAX).long());
    assert_eq!(0, ZenEngineReply::Word(9).long());
    assert!(ZenInstanceExtern { addr: 0 }.is_null());
    assert!(!ZenInstanceExtern { addr: 1 }.is_null());
}

#[test]
fn a_buffer_always_has_a_cell() {
    let empty: ScopedMalloc<u64> = ScopedMalloc::new(0);
    assert_eq!(0, empty.len());
    assert_eq!(1, empty.capacity());
    assert_eq!(&vec![None], empty.data());
    let one: ScopedMalloc<u64> = ScopedMalloc::new(1);
    assert_eq!(1, one.len());
    assert_eq!(1, one.capacity());
    let mut three: ScopedMalloc<u64> = ScopedMalloc::new(3);
    assert_eq!(3, three.len());
    assert_eq!(3, three.capacity());
    assert_eq!(&vec![None, None, None], three.data());
    assert!(three.write(1, 11));
    assert!(three.write(2, 12));
    assert!(three.write(2, 13));
    assert!(!three.write(3, 14));
    assert!(!three.write(usize::MAX, 14));
    assert_eq!(&vec![None, Some(11), Some(13)], three.data());
    assert_eq!(3, three.len());
    let mut strings: ScopedMalloc<String> = ScopedMalloc::new(0);
    assert!(strings.write(0, "spare".to_string()));
    assert_eq!(&vec![Some("spare".to_string())], strings.data());
    assert_eq!(0, strings.len());
}

#[test]
fn kinds_and_names_are_laid_out_in_buffers() {
    assert_eq!(&vec![None], type_tags_buffer(&vec![]).data());
    assert_eq!(
        &vec![Some(3), Some(2), Some(1), Some(0), Some(0)],
        type_tags_buffer(&vec![
            ZenValueType::F64,
            ZenValueType::F32,
            ZenValueType::I64,
            ZenValueType::I32,
            ZenValueType::I32
        ])
        .data()
    );
    assert_eq!(&vec![None], c_strings_buffer(&[]).data());
    assert_eq!(
        &vec![Some(b"a\0".to_vec()), Some(b"\0".to_vec()), Some(b"bc\0".to_vec())],
        c_strings_buffer(&["a", "", "bc"]).data()
    );
    let args = args_buffer(&[ZenValue::ZenI64Value(12), ZenValue::ZenF32Value(3)]);
    assert_eq!(2, args.len());
    assert!(matches!(&args.data()[0], Some(ZenArgExtern::Text(text)) if *text == b"12\0".to_vec()));
    assert!(matches!(&args.data()[1], Some(ZenArgExtern::Float32(3))));
    assert!(args_buffer(&[]).data()[0].is_none());
}

fn host_func(name: &str, args: usize) -> ZenHostFuncDesc {
    ZenHostFuncDesc {
        name: name.to_string(),
        arg_types: vec![ZenValueType::I64; args],
        ret_types: vec![],
        ptr: args,
    }
}

#[test]
fn host_functions_are_listed_in_order() {
    let funcs = vec![host_func("b", 2), host_func("a", 0), host_func("b", 1)];
    let refs = get_all_hostapis_refs(&funcs);
    assert_eq!(3, refs.len());
    for (at, func) in refs.iter().enumerate() {
        assert!(std::ptr::eq(*func, &funcs[at]));
    }
    assert_eq!(vec!["b", "a", "b"], get_hostapis_names(&funcs));
    assert!(get_all_hostapis_refs(&[]).is_empty());
    assert!(get_hostapis_names(&[]).is_empty());
    let buffer = host_funcs_buffer(&refs).unwrap();
    assert_eq!(3, buffer.len());
    let first = buffer.data()[0].as_ref().unwrap();
    assert_eq!(b"b\0".to_vec(), first.name);
    assert_eq!(2, first.num_args);
    assert_eq!(&vec![Some(1), Some(1)], first.arg_types.data());
    assert_eq!(0, first.num_returns);
    assert_eq!(&vec![None], first.ret_types.data());
    assert_eq!(2, first.ptr);
    let copy = host_func("c", 1).to_extern().unwrap();
    assert_eq!(b"c\0".to_vec(), copy.name);
    let cloned = funcs[0].clone();
    assert_eq!("b", cloned.name);
}

#[test]
fn lengths_are_told_in_32_bits_or_not_at_all() {
    assert_eq!(Some(0), count_of(0));
    assert_eq!(Some(1), count_of(1));
    assert_eq!(Some(u32::MAX), count_of(u32::MAX as usize));
    if usize::BITS > 32 {
        assert_eq!(None, count_of(u32::MAX as usize + 1));
        assert_eq!(None, count_of(u32::MAX as usize + 6));
        assert_eq!(None, count_of(usize::MAX));
    }
}
