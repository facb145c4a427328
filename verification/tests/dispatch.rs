use host_func::trampoline::{dispatch, encode_values, marshal_input, marshal_output};
use host_func::{BoxedFn, HostRegistry, RawValue, ValType, WasmValue};

fn real_add(input: Vec<WasmValue>) -> Result<Vec<WasmValue>, u8> {
    if input.len() != 2 {
        return Err(1);
    }

    let a = if input[0].ty() == ValType::I32 {
        input[0].to_i32()
    } else {
        return Err(2);
    };

    let b = if input[1].ty() == ValType::I32 {
        input[1].to_i32()
    } else {
        return Err(3);
    };

    let c = a + b;

    Ok(vec![WasmValue::from_i32(c)])
}

fn blank_i32() -> RawValue {
    RawValue { value: 0xAAAA, kind: 0x7F }
}

#[test]
fn dispatch_adds_two_numbers() {
    let mut registry: HostRegistry<BoxedFn> = HostRegistry::with_capacity(4);
    let key = registry.register(Box::new(real_add)).unwrap();
    let params = vec![
        RawValue { value: 1, kind: 0x7F },
        RawValue { value: 2, kind: 0x7F },
    ];
    let mut slots = vec![blank_i32()];
    let code = dispatch(&registry, key, &params, &mut slots);
    assert_eq!(code, 0);
    assert_eq!(slots, vec![RawValue { value: 3, kind: 0x7F }]);
}

#[test]
fn dispatch_reports_the_code_of_the_closure() {
    let mut registry: HostRegistry<BoxedFn> = HostRegistry::with_capacity(4);
    let key = registry.register(Box::new(real_add)).unwrap();
    // one argument only
    let params = vec![RawValue { value: 1, kind: 0x7F }];
    let mut slots = vec![blank_i32()];
    let code = dispatch(&registry, key, &params, &mut slots);
    assert_eq!(code, 1);
    assert_eq!(slots, vec![blank_i32()]);
    // a first argument of another kind
    let params = vec![
        RawValue { value: 1, kind: 0x7E },
        RawValue { value: 2, kind: 0x7F },
    ];
    let code = dispatch(&registry, key, &params, &mut slots);
    assert_eq!(code, 2);
    assert_eq!(slots, vec![blank_i32()]);
    // a second argument of another kind
    let params = vec![
        RawValue { value: 1, kind: 0x7F },
        RawValue { value: 2, kind: 0x7C },
    ];
    let code = dispatch(&registry, key, &params, &mut slots);
    assert_eq!(code, 3);
    assert_eq!(slots, vec![blank_i32()]);
}

#[test]
fn dispatch_reaches_the_closure_of_the_token() {
    let mut registry: HostRegistry<BoxedFn> = HostRegistry::with_capacity(4);
    let add = registry.register(Box::new(real_add)).unwrap();
    let negate = registry
        .register(Box::new(|input: Vec<WasmValue>| {
            Ok(vec![WasmValue::from_i64(-input[0].to_i64())])
        }))
        .unwrap();
    let fail = registry.register(Box::new(|_| Err(200))).unwrap();
    assert_ne!(add, negate);
    assert_ne!(add, fail);
    assert_ne!(negate, fail);

    let mut slots = vec![blank_i32()];
    let params = encode_values(&vec![WasmValue::from_i64(5)]);
    assert_eq!(dispatch(&registry, negate, &params, &mut slots), 0);
    assert_eq!(slots, vec![WasmValue::from_i64(-5).as_raw()]);
    assert_eq!(slots[0].value, 0xFFFF_FFFF_FFFF_FFFB);
    assert_eq!(slots[0].kind, 0x7E);

    let before = slots.clone();
    assert_eq!(dispatch(&registry, fail, &params, &mut slots), 200);
    assert_eq!(slots, before);

    let params = encode_values(&vec![WasmValue::from_i32(-4), WasmValue::from_i32(3)]);
    assert_eq!(dispatch(&registry, add, &params, &mut slots), 0);
    assert_eq!(slots, vec![WasmValue::from_i32(-1).as_raw()]);
}

#[test]
fn dispatch_without_arguments_or_results() {
    let mut registry: HostRegistry<BoxedFn> = HostRegistry::with_capacity(1);
    let key = registry
        .register(Box::new(|input: Vec<WasmValue>| {
            if input.is_empty() {
                Ok(Vec::new())
            } else {
                Err(9)
            }
        }))
        .unwrap();
    let mut slots = Vec::new();
    assert_eq!(dispatch(&registry, key, &Vec::new(), &mut slots), 0);
    assert!(slots.is_empty());
}

#[test]
fn input_is_marshalled_slot_by_slot() {
    let params = vec![
        RawValue { value: 7, kind: 0x7F },
        RawValue { value: u128::MAX, kind: 0x7B },
        RawValue { value: 9, kind: 0x6F },
    ];
    let input = marshal_input(&params).unwrap();
    assert_eq!(input.len(), 3);
    assert_eq!(input[0], WasmValue::from_i32(7));
    assert_eq!(input[1], WasmValue::from_v128(-1));
    assert_eq!(input[2], WasmValue::from_extern_ref(9));
    assert_eq!(encode_values(&input), params);
    assert_eq!(marshal_input(&Vec::new()), Some(Vec::new()));
}

#[test]
fn input_with_unknown_code_is_refused() {
    let params = vec![
        RawValue { value: 7, kind: 0x7F },
        RawValue { value: 7, kind: 0x40 },
    ];
    assert_eq!(marshal_input(&params), None);
}

#[test]
fn output_of_success_fills_the_slots() {
    let mut slots = vec![blank_i32(), blank_i32()];
    let outcome = Ok(vec![WasmValue::from_i64(10), WasmValue::from_f32_bits(3)]);
    assert_eq!(marshal_output(outcome, &mut slots), 0);
    assert_eq!(
        slots,
        vec![
            RawValue { value: 10, kind: 0x7E },
            RawValue { value: 3, kind: 0x7D },
        ]
    );
}

#[test]
fn output_of_failure_writes_nothing() {
    let mut slots = vec![blank_i32(), blank_i32()];
    assert_eq!(marshal_output(Err(17), &mut slots), 17);
    assert_eq!(slots, vec![blank_i32(), blank_i32()]);
    assert_eq!(marshal_output(Err(255), &mut slots), 255);
    assert_eq!(marshal_output(Err(0), &mut slots), 0);
    assert_eq!(slots, vec![blank_i32(), blank_i32()]);
}
