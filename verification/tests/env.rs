use inkwell::context::Context;
use llvm_codegen::env::{DataType, Env, Pointer};
use llvm_codegen::llvm::IntSlot;
use llvm_codegen::ret;

/// Makes `count` distinct integer stack slots in a throwaway `main` and hands them to `body`.
fn with_slots(count: usize, body: impl FnOnce(&[IntSlot])) {
    let context = Context::create();
    let mut compiler = ret::Compiler::new(&context);
    compiler.build_main();
    let mut slots: Vec<IntSlot> = Vec::new();
    for i in 0..count {
        let name = format!("s{}", i);
        slots.push(IntSlot::alloca(&compiler.builder, &mut compiler.module, &compiler.i32_type, &name));
    }
    body(&slots);
}

fn number(ptr: IntSlot) -> Pointer {
    Pointer { ptr, data_type: DataType::Number }
}

#[test]
fn empty_scope_binds_nothing() {
    let env = Env::new(None);
    assert!(env.get("a").is_none());
    assert!(env.get("").is_none());
}

#[test]
fn added_name_is_found() {
    with_slots(1, |slots| {
        let mut env = Env::new(None);
        env.add("a", number(slots[0]));
        let found = env.get("a").unwrap();
        assert_eq!(found.ptr.pointer(), slots[0].pointer());
        assert_eq!(found.data_type, DataType::Number);
    });
}

#[test]
fn adding_one_name_leaves_others() {
    with_slots(2, |slots| {
        let mut env = Env::new(None);
        env.add("a", number(slots[0]));
        env.add("b", number(slots[1]));
        assert_eq!(env.get("a").unwrap().ptr.pointer(), slots[0].pointer());
        assert_eq!(env.get("b").unwrap().ptr.pointer(), slots[1].pointer());
        assert!(env.get("c").is_none());
        assert!(env.get("ab").is_none());
    });
}

#[test]
fn adding_again_replaces() {
    with_slots(2, |slots| {
        let mut env = Env::new(None);
        env.add("a", number(slots[0]));
        env.add("a", number(slots[1]));
        assert_eq!(env.get("a").unwrap().ptr.pointer(), slots[1].pointer());
    });
}

#[test]
fn inner_scope_sees_outer_bindings() {
    with_slots(1, |slots| {
        let mut outer = Env::new(None);
        outer.add("a", number(slots[0]));
        let inner = Env::new(Some(Box::new(outer)));
        assert_eq!(inner.get("a").unwrap().ptr.pointer(), slots[0].pointer());
        assert!(inner.get("b").is_none());
    });
}

#[test]
fn inner_binding_shadows_outer() {
    with_slots(3, |slots| {
        let mut outer = Env::new(None);
        outer.add("a", number(slots[0]));
        outer.add("b", number(slots[1]));
        let mut inner = Env::new(Some(Box::new(outer)));
        inner.add("a", number(slots[2]));
        assert_eq!(inner.get("a").unwrap().ptr.pointer(), slots[2].pointer());
        assert_eq!(inner.get("b").unwrap().ptr.pointer(), slots[1].pointer());
    });
}

#[test]
fn lookup_walks_several_scopes() {
    with_slots(2, |slots| {
        let mut outermost = Env::new(None);
        outermost.add("x", number(slots[0]));
        let middle = Env::new(Some(Box::new(outermost)));
        let mut inner = Env::new(Some(Box::new(middle)));
        inner.add("y", number(slots[1]));
        assert_eq!(inner.get("x").unwrap().ptr.pointer(), slots[0].pointer());
        assert_eq!(inner.get("y").unwrap().ptr.pointer(), slots[1].pointer());
        assert!(inner.get("z").is_none());
    });
}
