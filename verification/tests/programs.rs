use inkwell::context::Context;
use inkwell::module::Module;
use inkwell::values::GlobalValue;
use llvm_codegen::llvm::Function;
use llvm_codegen::{call, global_vars, if_else, loops, ret, structs};

// The modules below are printed as LLVM 14 prints them. The tests make the
// format string with the safe `build_global_string_ptr`, so the `printf`
// calls pass a pointer to its first character.

const RET_IR: &str = r#"; ModuleID = 'main'
source_filename = "main"

define i32 @main() {
entry:
  ret i32 108
}
"#;

const GLOBAL_VARS_IR: &str = r#"; ModuleID = 'main'
source_filename = "main"

@a = global i32 10
@b = global i32 20
@int_fmt_str = private unnamed_addr constant [4 x i8] c"%d\0A\00", align 1

define i32 @main() {
entry:
  %printf = call i32 (i32*, ...) @printf(i8* getelementptr inbounds ([4 x i8], [4 x i8]* @int_fmt_str, i32 0, i32 0), i32 30)
  ret i32 0
}

declare i32 @printf(i32*, ...)
"#;

const IF_ELSE_IR: &str = r#"; ModuleID = 'main'
source_filename = "main"

@int_fmt_str = private unnamed_addr constant [4 x i8] c"%d\0A\00", align 1

define i32 @main() {
entry:
  %a = alloca i32, align 4
  store i32 10, i32* %a, align 4
  %b = alloca i32, align 4
  store i32 0, i32* %b, align 4
  %a1 = load i32, i32* %a, align 4
  %"a > 0" = icmp sgt i32 %a1, 0
  br i1 %"a > 0", label %if_true, label %if_false

if_true:                                          ; preds = %entry
  store i32 1, i32* %b, align 4
  br label %merge

if_false:                                         ; preds = %entry
  store i32 2, i32* %b, align 4
  br label %merge

merge:                                            ; preds = %if_false, %if_true
  %phi = phi i32 [ 1, %if_true ], [ 2, %if_false ]
  store i32 %phi, i32* %b, align 4
  %b2 = load i32, i32* %b, align 4
  %printf = call i32 (i32*, ...) @printf(i8* getelementptr inbounds ([4 x i8], [4 x i8]* @int_fmt_str, i32 0, i32 0), i32 %b2)
  ret i32 0
}

declare i32 @printf(i32*, ...)
"#;

const LOOP_IR: &str = r#"; ModuleID = 'main'
source_filename = "main"

@int_fmt_str = private unnamed_addr constant [4 x i8] c"%d\0A\00", align 1

define i32 @main() {
entry:
  %a = alloca i32, align 4
  store i32 10, i32* %a, align 4
  br label %cond

cond:                                             ; preds = %body, %entry
  %a1 = load i32, i32* %a, align 4
  %"a > 0" = icmp sgt i32 %a1, 0
  br i1 %"a > 0", label %body, label %loop_end

body:                                             ; preds = %cond
  %a2 = load i32, i32* %a, align 4
  %"a - 1" = sub i32 %a2, 1
  store i32 %"a - 1", i32* %a, align 4
  %a3 = load i32, i32* %a, align 4
  %printf = call i32 (i32*, ...) @printf(i8* getelementptr inbounds ([4 x i8], [4 x i8]* @int_fmt_str, i32 0, i32 0), i32 %a3)
  br label %cond

loop_end:                                         ; preds = %cond
  ret i32 0
}

declare i32 @printf(i32*, ...)
"#;

const STRUCTS_IR: &str = r#"; ModuleID = 'main'
source_filename = "main"

@int_fmt_str = private unnamed_addr constant [4 x i8] c"%d\0A\00", align 1

define i32 @main() {
entry:
  %p = alloca { i32, i32 }, align 8
  %a = getelementptr inbounds { i32, i32 }, { i32, i32 }* %p, i32 0, i32 0
  store i32 10, i32* %a, align 4
  %b = getelementptr inbounds { i32, i32 }, { i32, i32 }* %p, i32 0, i32 1
  store i32 20, i32* %b, align 4
  %a1 = load i32, i32* %a, align 4
  %b2 = load i32, i32* %b, align 4
  %c = add i32 %a1, %b2
  %printf = call i32 (i32*, ...) @printf(i8* getelementptr inbounds ([4 x i8], [4 x i8]* @int_fmt_str, i32 0, i32 0), i32 %c)
  ret i32 0
}

declare i32 @printf(i32*, ...)
"#;

const CALL_IR: &str = r#"; ModuleID = 'main'
source_filename = "main"

@int_fmt_str = private unnamed_addr constant [4 x i8] c"%d\0A\00", align 1

define i32 @main() {
entry:
  %a = alloca i32, align 4
  store i32 10, i32* %a, align 4
  %b = alloca i32, align 4
  store i32 20, i32* %b, align 4
  %a1 = load i32, i32* %a, align 4
  %b2 = load i32, i32* %b, align 4
  %sum = call i32 @sum(i32 %a1, i32 %b2)
  %printf = call i32 (i32*, ...) @printf(i8* getelementptr inbounds ([4 x i8], [4 x i8]* @int_fmt_str, i32 0, i32 0), i32 %sum)
  ret i32 0
}

declare i32 @printf(i32*, ...)

define i32 @sum(i32 %0, i32 %1) {
entry:
  %a = alloca i32, align 4
  store i32 %0, i32* %a, align 4
  %b = alloca i32, align 4
  store i32 %1, i32* %b, align 4
  %a1 = load i32, i32* %a, align 4
  %b2 = load i32, i32* %b, align 4
  %c = add i32 %a1, %b2
  ret i32 %c
}
"#;

const FORMAT: &str = "%d\n";
const FORMAT_NAME: &str = "int_fmt_str";

/// The global format string `"%d\n"`, made with a builder of its own that
/// stands in `main`, through which the string finds its module.
fn format_string<'ctx>(context: &'ctx Context, main: &Function<'ctx>) -> GlobalValue<'ctx> {
    let builder = context.create_builder();
    builder.position_at_end(main.handle().get_first_basic_block().unwrap());
    builder.build_global_string_ptr(FORMAT, FORMAT_NAME)
}

fn ir_of(module: &Module) -> String {
    module.print_to_string().to_string()
}

#[test]
fn ret_main_returns_108() {
    let context = Context::create();
    let mut compiler = ret::Compiler::new(&context);
    assert!(compiler.module.get_function("main").is_some());
    assert!(compiler.module.get_function("printf").is_none());
    assert!(!compiler.builder.is_positioned());
    compiler.build_main();
    assert!(compiler.builder.is_positioned());
    assert_eq!(ret::HG2G, 108);
    assert_eq!(ir_of(&compiler.module), RET_IR);
}

#[test]
fn compilers_declare_main_and_printf() {
    let context = Context::create();
    let g = global_vars::Compiler::new(&context);
    let i = if_else::Compiler::new(&context);
    let l = loops::Compiler::new(&context);
    let s = structs::Compiler::new(&context);
    let c = call::Compiler::new(&context);
    for module in [&g.module, &i.module, &l.module, &s.module, &c.module] {
        assert!(module.get_function("main").is_some());
        assert!(module.get_function("printf").is_some());
        assert!(module.get_function("sum").is_none());
        assert!(module.get_global("a").is_none());
        assert!(module.get_global("main").is_none());
        let ir = ir_of(module);
        assert!(ir.contains("declare i32 @main()"), "{}", ir);
        assert!(ir.contains("declare i32 @printf(i32*, ...)"), "{}", ir);
    }
    assert!(std::ptr::eq(g.context, &context));
    assert_eq!(s.point_type.handle().count_fields(), 2);
    assert!(!s.point_type.handle().is_packed());
    assert_eq!(g.main_func.handle().count_params(), 0);
    assert!(g.printf_func.handle().get_type().is_var_arg());
    assert_eq!(g.printf_func.handle().count_params(), 1);
    assert_eq!(g.i32_type.handle().get_bit_width(), 32);
    assert_eq!(g.module.get_name().to_str(), Ok("main"));
    assert_eq!(g.module.get_function("main"), Some(g.main_func.handle()));
    assert_eq!(g.module.get_function("printf"), Some(g.printf_func.handle()));
}

#[test]
fn compilers_start_with_declarations_only() {
    let context = Context::create();
    let g = global_vars::Compiler::new(&context);
    let i = if_else::Compiler::new(&context);
    let l = loops::Compiler::new(&context);
    let s = structs::Compiler::new(&context);
    let c = call::Compiler::new(&context);
    let expected = ir_of(&g.module);
    for (module, builder, main_func, printf_func) in [
        (&g.module, &g.builder, &g.main_func, &g.printf_func),
        (&i.module, &i.builder, &i.main_func, &i.printf_func),
        (&l.module, &l.builder, &l.main_func, &l.printf_func),
        (&s.module, &s.builder, &s.main_func, &s.printf_func),
        (&c.module, &c.builder, &c.main_func, &c.printf_func),
    ] {
        assert!(!builder.is_positioned());
        assert_eq!(main_func.handle().count_basic_blocks(), 0);
        assert_eq!(printf_func.handle().count_basic_blocks(), 0);
        assert_eq!(main_func.handle().get_linkage(), inkwell::module::Linkage::External);
        assert_eq!(printf_func.handle().get_linkage(), inkwell::module::Linkage::External);
        let names: Vec<String> =
            module.get_functions().map(|f| f.get_name().to_str().unwrap().to_string()).collect();
        assert_eq!(names, vec!["main".to_string(), "printf".to_string()]);
        assert!(module.get_first_global().is_none());
        assert_eq!(ir_of(module), expected);
    }
    assert!(s.point_type.handle().get_name().is_none());
    assert!(!s.point_type.handle().is_opaque());
    assert_ne!(g.main_func.handle(), i.main_func.handle());
}

#[test]
fn global_vars_adds_and_reads_back_the_globals() {
    let context = Context::create();
    let mut compiler = global_vars::Compiler::new(&context);
    let c = compiler.build_sum();
    assert!(compiler.module.get_global("a").is_some());
    assert!(compiler.module.get_global("b").is_some());
    assert!(compiler.module.get_function("a").is_none());
    assert!(compiler.module.get_function("main").is_some());
    let fmt = format_string(&context, &compiler.main_func);
    compiler.build_print_and_return(fmt, c);
    assert_eq!(ir_of(&compiler.module), GLOBAL_VARS_IR);
}

#[test]
fn if_else_branches_and_merges() {
    let context = Context::create();
    let mut compiler = if_else::Compiler::new(&context);
    let b = compiler.build_branches();
    let fmt = format_string(&context, &compiler.main_func);
    compiler.build_print_and_return(fmt, b);
    assert_eq!(ir_of(&compiler.module), IF_ELSE_IR);
}

#[test]
fn loop_counts_down() {
    let context = Context::create();
    let mut compiler = loops::Compiler::new(&context);
    let body = compiler.build_countdown();
    let fmt = format_string(&context, &compiler.main_func);
    compiler.build_print_and_loop(fmt, body);
    assert_eq!(ir_of(&compiler.module), LOOP_IR);
}

#[test]
fn structs_fill_both_fields() {
    let context = Context::create();
    let mut compiler = structs::Compiler::new(&context);
    let c = compiler.build_sum().unwrap();
    let fmt = format_string(&context, &compiler.main_func);
    compiler.build_print_and_return(fmt, c);
    assert_eq!(ir_of(&compiler.module), STRUCTS_IR);
}

#[test]
fn call_defines_and_calls_sum() {
    let context = Context::create();
    let mut compiler = call::Compiler::new(&context);
    let c = compiler.build_call_sum();
    assert!(compiler.module.get_function("sum").is_some());
    let fmt = format_string(&context, &compiler.main_func);
    compiler.build_print_and_return(fmt, c);
    assert_eq!(ir_of(&compiler.module), CALL_IR);
}
