use host_func::{
    BoxedFn, FuncError, FuncType, Function, HostExecutor, HostRegistry, ValType, WasmEdgeError,
    WasmValue,
};
use std::sync::{Arc, Mutex};

fn real_add(input: Vec<WasmValue>) -> Result<Vec<WasmValue>, u8> {
    println!("Rust: Entering Rust function real_add");

    if input.len() != 2 {
        return Err(1);
    }

    let a = if input[0].ty() == ValType::I32 {
        input[0].to_i32()
    } else {
        return Err(2);
    };

    let b = if input[1].ty() == ValType::I32 {
        input[1].to_i32()
    } else {
        return Err(3);
    };

    let c = a + b;
    println!("Rust: calcuating in real_add c: {:?}", c);

    println!("Rust: Leaving Rust function real_add");
    Ok(vec![WasmValue::from_i32(c)])
}

#[test]
fn test_func_basic() {
    let mut host_funcs: HostRegistry<BoxedFn> = HostRegistry::with_capacity(500);

    // create a FuncType
    let result = FuncType::create(vec![ValType::I32; 2], vec![ValType::I32]);
    assert!(result.is_ok());
    let func_ty = result.unwrap();
    // create a host function
    let result = Function::create(&mut host_funcs, &func_ty, Box::new(real_add), 0);
    assert!(result.is_ok());
    let host_func = result.unwrap();

    // get func type
    let result = host_func.ty();
    assert!(result.is_ok());
    let ty = result.unwrap();

    // check parameters
    assert_eq!(ty.params_len(), 2);
    let param_tys = ty.params_type_iter().into_iter().collect::<Vec<_>>();
    assert_eq!(param_tys, vec![ValType::I32; 2]);

    // check returns
    assert_eq!(ty.returns_len(), 1);
    let return_tys = ty.returns_type_iter().into_iter().collect::<Vec<_>>();
    assert_eq!(return_tys, vec![ValType::I32]);

    // run this function
    let mut executor = HostExecutor::create(&host_funcs);
    let result = host_func.call(
        &mut executor,
        vec![WasmValue::from_i32(1), WasmValue::from_i32(2)],
    );
    assert!(result.is_ok());
    let returns = result.unwrap();
    assert_eq!(returns[0].to_i32(), 3);
}

#[test]
fn func_moves_to_another_owner() {
    let mut host_funcs: HostRegistry<BoxedFn> = HostRegistry::with_capacity(500);
    let func_ty = FuncType::create(vec![ValType::I32; 2], vec![ValType::I32]).unwrap();
    let host_func = Function::create(&mut host_funcs, &func_ty, Box::new(real_add), 0).unwrap();

    let moved: Box<dyn FnOnce() + Send> = Box::new(move || {
        let ty = host_func.ty().unwrap();
        assert_eq!(ty.params_len(), 2);
        assert_eq!(ty.params_type_iter(), vec![ValType::I32; 2]);
        assert_eq!(ty.returns_len(), 1);
        assert_eq!(ty.returns_type_iter(), vec![ValType::I32]);
    });
    moved();
}

#[test]
fn func_behind_a_lock_reports_its_signature() {
    let mut host_funcs: HostRegistry<BoxedFn> = HostRegistry::with_capacity(500);
    let func_ty = FuncType::create(vec![ValType::I32; 2], vec![ValType::I32]).unwrap();
    let result = Function::create(&mut host_funcs, &func_ty, Box::new(real_add), 0);
    assert!(result.is_ok());
    let host_func = Arc::new(Mutex::new(result.unwrap()));

    for _ in 0..4 {
        let host_func_cloned = Arc::clone(&host_func);
        let result = host_func_cloned.lock();
        assert!(result.is_ok());
        let host_func = result.unwrap();

        let result = host_func.ty();
        assert!(result.is_ok());
        let ty = result.unwrap();

        assert_eq!(ty.params_len(), 2);
        assert_eq!(ty.params_type_iter(), vec![ValType::I32; 2]);
        assert_eq!(ty.returns_len(), 1);
        assert_eq!(ty.returns_type_iter(), vec![ValType::I32]);
    }
}

#[test]
fn created_function_holds_what_it_was_given() {
    let mut host_funcs: HostRegistry<BoxedFn> = HostRegistry::with_capacity(2);
    let func_ty = FuncType::create(vec![ValType::I64], vec![ValType::F64, ValType::V128]).unwrap();
    let host_func = Function::create(&mut host_funcs, &func_ty, Box::new(real_add), 77).unwrap();
    assert_eq!(host_func.cost(), 77);
    assert!(!host_func.registered());
    assert!(host_funcs.contains_key(host_func.key()));
    assert_eq!(host_funcs.len(), 1);
    let ty = host_func.ty().unwrap();
    assert!(ty.registered());
    assert_eq!(ty.params_type_iter(), vec![ValType::I64]);
    assert_eq!(ty.returns_type_iter(), vec![ValType::F64, ValType::V128]);
}

#[test]
fn creation_fails_when_the_registry_is_full() {
    let mut host_funcs: HostRegistry<BoxedFn> = HostRegistry::with_capacity(2);
    let func_ty = FuncType::create(vec![ValType::I32; 2], vec![ValType::I32]).unwrap();
    let first = Function::create(&mut host_funcs, &func_ty, Box::new(real_add), 0).unwrap();
    let second = Function::create(&mut host_funcs, &func_ty, Box::new(real_add), 0).unwrap();
    assert_ne!(first.key(), second.key());
    let third = Function::create(&mut host_funcs, &func_ty, Box::new(real_add), 0);
    assert_eq!(
        third.err(),
        Some(WasmEdgeError::Func(FuncError::CreateBinding(2)))
    );
    assert_eq!(host_funcs.len(), 2);
    assert!(host_funcs.contains_key(first.key()));
    assert!(host_funcs.contains_key(second.key()));
}

#[test]
fn failed_binding_is_rolled_back() {
    let mut host_funcs: HostRegistry<BoxedFn> = HostRegistry::with_capacity(1);
    let func_ty = FuncType::create(vec![ValType::I32; 2], vec![ValType::I32]).unwrap();
    let key = host_funcs.register(Box::new(real_add)).unwrap();
    let result = Function::bind(&mut host_funcs, key, &func_ty, 0, false);
    assert_eq!(result.err(), Some(WasmEdgeError::Func(FuncError::Create)));
    assert!(!host_funcs.contains_key(key));
    assert_eq!(host_funcs.len(), 0);
    // the room is free again
    let key = host_funcs.register(Box::new(real_add)).unwrap();
    let func = Function::bind(&mut host_funcs, key, &func_ty, 3, true).unwrap();
    assert_eq!(func.key(), key);
    assert_eq!(func.cost(), 3);
    assert!(host_funcs.contains_key(key));
}

#[test]
fn call_with_one_argument_fails_with_the_code_of_the_closure() {
    let mut host_funcs: HostRegistry<BoxedFn> = HostRegistry::with_capacity(500);
    let func_ty = FuncType::create(vec![ValType::I32; 2], vec![ValType::I32]).unwrap();
    let host_func = Function::create(&mut host_funcs, &func_ty, Box::new(real_add), 0).unwrap();
    let mut executor = HostExecutor::create(&host_funcs);
    let result = host_func.call(&mut executor, vec![WasmValue::from_i32(1)]);
    assert_eq!(result, Err(WasmEdgeError::User(1)));
    let result = host_func.call(
        &mut executor,
        vec![WasmValue::from_i64(1), WasmValue::from_i32(1)],
    );
    assert_eq!(result, Err(WasmEdgeError::User(2)));
    let result = host_func.call(
        &mut executor,
        vec![WasmValue::from_i32(40), WasmValue::from_i32(2)],
    );
    assert_eq!(result, Ok(vec![WasmValue::from_i32(42)]));
}

#[test]
fn closure_that_fails_with_the_code_of_success() {
    let mut host_funcs: HostRegistry<BoxedFn> = HostRegistry::with_capacity(500);
    let func_ty = FuncType::create(vec![], vec![ValType::I64, ValType::FuncRef]).unwrap();
    let host_func = Function::create(&mut host_funcs, &func_ty, Box::new(|_| Err(0)), 0).unwrap();
    let mut executor = HostExecutor::create(&host_funcs);
    let result = host_func.call(&mut executor, vec![]);
    assert_eq!(
        result,
        Ok(vec![WasmValue::from_i64(0), WasmValue::from_func_ref(0)])
    );
}

#[test]
fn reference_runs_the_same_function() {
    let mut host_funcs: HostRegistry<BoxedFn> = HostRegistry::with_capacity(500);
    let func_ty = FuncType::create(vec![ValType::I32; 2], vec![ValType::I32]).unwrap();
    let host_func = Function::create(&mut host_funcs, &func_ty, Box::new(real_add), 0).unwrap();
    let func_ref = host_func.as_ref();
    assert_eq!(func_ref.key(), host_func.key());
    let ty = func_ref.ty().unwrap();
    assert!(ty.registered());
    assert_eq!(ty.params_type_iter(), vec![ValType::I32; 2]);
    assert_eq!(ty.returns_type_iter(), vec![ValType::I32]);

    let mut executor = HostExecutor::create(&host_funcs);
    let result = func_ref.call(
        &mut executor,
        vec![WasmValue::from_i32(-5), WasmValue::from_i32(2)],
    );
    assert_eq!(result.unwrap()[0].to_i32(), -3);
    let result = func_ref.call(&mut executor, vec![]);
    assert_eq!(result, Err(WasmEdgeError::User(1)));
}

#[test]
fn owning_handle_releases_its_closure() {
    let mut host_funcs: HostRegistry<u8> = HostRegistry::with_capacity(2);
    let func_ty = FuncType::create(vec![], vec![]).unwrap();
    let host_func = Function::create(&mut host_funcs, &func_ty, 11, 0).unwrap();
    let other = Function::create(&mut host_funcs, &func_ty, 22, 0).unwrap();
    let key = host_func.key();
    assert_eq!(host_func.release(&mut host_funcs), Some(11));
    assert!(!host_funcs.contains_key(key));
    assert_eq!(host_funcs.len(), 1);
    assert_eq!(host_funcs.get(other.key()), Some(&22));
}

#[test]
fn handle_of_a_function_owned_elsewhere_releases_nothing() {
    let mut host_funcs: HostRegistry<u8> = HostRegistry::with_capacity(2);
    let func_ty = FuncType::create(vec![], vec![]).unwrap();
    let mut host_func = Function::create(&mut host_funcs, &func_ty, 11, 5).unwrap();
    host_func.set_registered();
    assert!(host_func.registered());
    assert_eq!(host_func.cost(), 5);
    let key = host_func.key();
    assert_eq!(host_func.release(&mut host_funcs), None);
    assert!(host_funcs.contains_key(key));
    assert_eq!(host_funcs.get(key), Some(&11));
    assert_eq!(host_funcs.len(), 1);
}
