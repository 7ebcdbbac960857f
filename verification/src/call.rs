//! A program that defines a function and calls it:
//!
//! ```c
//! int sum(int a, int b) {
//!     return a + b;
//! }
//!
//! int main() {
//!     int a = 10;
//!     int b = 20;
//!     int c = sum(a, b);
//!     printf("%d\n", c);
//! }
//! ```
//!
//! The format string is made by the caller between [`Compiler::build_call_sum`]
//! and [`Compiler::build_print_and_return`], with the builder still in `main`.
use crate::common::{
    build_print_and_return_zero, declared, declares_printf, defined, i32_const, is_function_of, lemma_append_two,
    main_and_printf, main_signature, printf_call, printf_signature, printing_module, with_print_and_return,
    MAIN_FUNC_NAME, PRINTF_FUNC_NAME,
};
use crate::llvm::{
    add_function, append_basic_block, build_call, build_int_add, build_int_alloca, build_load, build_return,
    build_store, call_result, const_int, fn_type, function_order, get_function, get_nth_param, module_identity,
    module_name, position_at_end, positioned_in, symbols, with_instr, Arg, Argument, CodeBuilder, Expr, Function,
    Instr, InstrRef, Int, IntTy, Param, ParamType, Position, Signature,
};
use inkwell::context::Context;
use inkwell::module::Module;
use inkwell::values::GlobalValue;
use vstd::prelude::*;

verus! {

/// The LLVM state of the program: its module, with `main` and `printf`
/// declared in it, and a builder to fill it.
pub struct Compiler<'ctx> {
    pub context: &'ctx Context,
    pub builder: CodeBuilder<'ctx>,
    pub module: Module<'ctx>,
    pub i32_type: IntTy<'ctx>,
    pub main_func: Function<'ctx>,
    pub printf_func: Function<'ctx>,
}

/// The name of the function that adds.
pub const SUM_FUNC_NAME: &'static str = "sum";

/// `int sum(int, int)`.
pub open spec fn sum_signature() -> Signature {
    Signature { ret_width: 32, params: seq![ParamType::Int(32), ParamType::Int(32)], var_args: false }
}

/// Instruction `pos` of the entry block of a function.
pub open spec fn at(pos: int) -> InstrRef {
    InstrRef { block: 0, pos }
}

/// The value that instruction `pos` of the entry block produces.
pub open spec fn result_of(pos: int) -> Expr {
    Expr::Result(at(pos))
}

/// The body of `sum`: slots for `a` and `b` (instructions 0 and 2) that take
/// the parameters, their loads, and the return of their sum.
pub open spec fn sum_body() -> Seq<Seq<Instr>> {
    seq![
        seq![
            Instr::Alloca { width: 32 },
            Instr::Store { slot: at(0), value: Expr::Param(0) },
            Instr::Alloca { width: 32 },
            Instr::Store { slot: at(2), value: Expr::Param(1) },
            Instr::Load { slot: at(0) },
            Instr::Load { slot: at(2) },
            Instr::Return { value: Expr::Add(Box::new(result_of(4)), Box::new(result_of(5))) },
        ],
    ]
}

/// The body of `main` up to the print: slots for `a = 10` and `b = 20`, their
/// loads, and the call `sum(a, b)`.
pub open spec fn call_body() -> Seq<Seq<Instr>> {
    seq![
        seq![
            Instr::Alloca { width: 32 },
            Instr::Store { slot: at(0), value: i32_const(10) },
            Instr::Alloca { width: 32 },
            Instr::Store { slot: at(2), value: i32_const(20) },
            Instr::Load { slot: at(0) },
            Instr::Load { slot: at(2) },
            Instr::Call { callee: SUM_FUNC_NAME@, args: seq![Arg::Value(result_of(4)), Arg::Value(result_of(5))] },
        ],
    ]
}

impl<'ctx> Compiler<'ctx> {
    /// Creates the module `main` in `context` and declares `int main()` and
    /// `int printf(int *, ...)` in it; the builder appends nowhere yet.
    pub fn new(context: &'ctx Context) -> (compiler: Self)
        ensures
            compiler.context == context,
            compiler.i32_type.width() == 32,
            compiler.builder.position() is None,
            module_name(compiler.module) == MAIN_FUNC_NAME@,
            symbols(compiler.module) == main_and_printf(),
            function_order(compiler.module) == seq![MAIN_FUNC_NAME@, PRINTF_FUNC_NAME@],
            is_function_of(compiler.module, compiler.main_func, MAIN_FUNC_NAME@, main_signature()),
            declares_printf(compiler.module, compiler.printf_func),
    {
        let (builder, module, i32_type, main_func, printf_func) = printing_module(context);
        Compiler { context, builder, module, i32_type, main_func, printf_func }
    }

    /// Defines `int sum(int a, int b)` with the body [`sum_body`].
    fn build_sum_function(&mut self)
        requires
            old(self).i32_type.width() == 32,
            !symbols(old(self).module).contains_key(SUM_FUNC_NAME@),
        ensures
            symbols(final(self).module) == symbols(old(self).module).insert(
                SUM_FUNC_NAME@,
                defined(sum_signature(), sum_body()),
            ),
            function_order(final(self).module) == function_order(old(self).module).push(SUM_FUNC_NAME@),
            module_identity(final(self).module) == module_identity(old(self).module),
            module_name(final(self).module) == module_name(old(self).module),
            final(self).context == old(self).context,
            final(self).i32_type == old(self).i32_type,
            final(self).main_func == old(self).main_func,
            final(self).printf_func == old(self).printf_func,
    {
        proof {
            reveal_strlit("sum");
        }
        let mut params: Vec<Param<'ctx>> = Vec::new();
        params.push(Param::Int(self.i32_type));
        params.push(Param::Int(self.i32_type));
        let ghost param_models = params@.map_values(|p: Param<'ctx>| p.model());
        let func_type = fn_type(&self.i32_type, params, false);
        assert(param_models =~= seq![ParamType::Int(32), ParamType::Int(32)]);
        let func = add_function(&mut self.module, SUM_FUNC_NAME, &func_type);
        let ghost declared_sum = symbols(self.module);
        let current_bb = append_basic_block(self.context, &mut self.module, &func, "entry");
        position_at_end(&mut self.builder, &current_bb);

        let a_ptr = build_int_alloca(&self.builder, &mut self.module, &self.i32_type, "a");
        let a = get_nth_param(&self.module, &func, 0).unwrap();
        build_store(&self.builder, &mut self.module, &a_ptr, a);
        let b_ptr = build_int_alloca(&self.builder, &mut self.module, &self.i32_type, "b");
        let b = get_nth_param(&self.module, &func, 1).unwrap();
        build_store(&self.builder, &mut self.module, &b_ptr, b);

        let a = build_load(&self.builder, &mut self.module, &a_ptr, "a");
        let b = build_load(&self.builder, &mut self.module, &b_ptr, "b");
        let c = build_int_add(&self.builder, a, b, "c");
        build_return(&self.builder, &mut self.module, c);
        position_at_end(&mut self.builder, &current_bb);
        assert(symbols(self.module)[SUM_FUNC_NAME@]->blocks[0] =~= sum_body()[0]);
        assert(symbols(self.module)[SUM_FUNC_NAME@]->blocks =~= sum_body());
        assert(symbols(self.module) =~= declared_sum.insert(SUM_FUNC_NAME@, defined(sum_signature(), sum_body())));
    }

    /// Defines `sum` with the body [`sum_body`], then gives the declared `main`
    /// the body [`call_body`]: the locals `a = 10` and `b = 20` and the call
    /// `c = sum(a, b)`, with `sum` found again by name in the module. Returns
    /// `c`; the builder is left at the end of `main`'s block. The name `sum`
    /// must be free.
    pub fn build_call_sum(&mut self) -> (c: Int<'ctx>)
        requires
            old(self).i32_type.width() == 32,
            is_function_of(old(self).module, old(self).main_func, MAIN_FUNC_NAME@, main_signature()),
            symbols(old(self).module)[MAIN_FUNC_NAME@] == declared(main_signature()),
            !symbols(old(self).module).contains_key(SUM_FUNC_NAME@),
        ensures
            symbols(final(self).module) == symbols(old(self).module).insert(
                SUM_FUNC_NAME@,
                defined(sum_signature(), sum_body()),
            ).insert(MAIN_FUNC_NAME@, defined(main_signature(), call_body())),
            c.expr() == result_of(6),
            final(self).builder.position() == Some(
                Position { module: module_identity(old(self).module), function: MAIN_FUNC_NAME@, block: 0 },
            ),
            function_order(final(self).module) == function_order(old(self).module).push(SUM_FUNC_NAME@),
            module_identity(final(self).module) == module_identity(old(self).module),
            module_name(final(self).module) == module_name(old(self).module),
            final(self).context == old(self).context,
            final(self).i32_type == old(self).i32_type,
            final(self).main_func == old(self).main_func,
            final(self).printf_func == old(self).printf_func,
    {
        proof {
            reveal_strlit("sum");
            reveal_strlit("main");
            assert(SUM_FUNC_NAME@.len() != MAIN_FUNC_NAME@.len());
        }
        self.build_sum_function();
        let ghost defined_sum = symbols(self.module);

        let main_block = append_basic_block(self.context, &mut self.module, &self.main_func, "entry");
        position_at_end(&mut self.builder, &main_block);

        let a_ptr = build_int_alloca(&self.builder, &mut self.module, &self.i32_type, "a");
        build_store(&self.builder, &mut self.module, &a_ptr, const_int(&self.i32_type, 10, false));

        let b_ptr = build_int_alloca(&self.builder, &mut self.module, &self.i32_type, "b");
        build_store(&self.builder, &mut self.module, &b_ptr, const_int(&self.i32_type, 20, false));

        let a = build_load(&self.builder, &mut self.module, &a_ptr, "a");
        let b = build_load(&self.builder, &mut self.module, &b_ptr, "b");
        let func_args = [Argument::Int(a), Argument::Int(b)];
        let sum_func = get_function(&self.module, SUM_FUNC_NAME).unwrap();
        let call = build_call(&self.builder, &mut self.module, &sum_func, &func_args, "sum");
        proof {
            let models = func_args@.map_values(|x: Argument<'ctx>| x.model());
            assert(models =~= seq![Arg::Value(result_of(4)), Arg::Value(result_of(5))]);
        }
        let c = call_result(&call).unwrap();
        assert(symbols(self.module)[MAIN_FUNC_NAME@]->blocks[0] =~= call_body()[0]);
        assert(symbols(self.module)[MAIN_FUNC_NAME@]->blocks =~= call_body());
        assert(symbols(self.module) =~= defined_sum.insert(MAIN_FUNC_NAME@, defined(main_signature(), call_body())));
        c
    }

    /// Emits `printf(int_fmt_str, c); return 0;` where the builder stands;
    /// `int_fmt_str` is the global format string `fmt`.
    pub fn build_print_and_return(&mut self, fmt: GlobalValue<'ctx>, c: Int<'ctx>)
        requires
            old(self).i32_type.width() == 32,
            positioned_in(old(self).builder, old(self).module),
            declares_printf(old(self).module, old(self).printf_func),
        ensures
            symbols(final(self).module) == with_instr(
                with_instr(symbols(old(self).module), old(self).builder.position()->0, printf_call(c.expr())),
                old(self).builder.position()->0,
                Instr::Return { value: i32_const(0) },
            ),
            function_order(final(self).module) == function_order(old(self).module),
            module_identity(final(self).module) == module_identity(old(self).module),
            module_name(final(self).module) == module_name(old(self).module),
            final(self).builder.position() == old(self).builder.position(),
    {
        build_print_and_return_zero(&self.builder, &mut self.module, &self.printf_func, &self.i32_type, fmt, c);
    }
}


/// The body of `main` once the program is complete: [`call_body`] ending in
/// `printf("%d\n", c); return 0;`, with `c` the result of the call of `sum`.
pub open spec fn program_body() -> Seq<Seq<Instr>> {
    with_print_and_return(call_body(), 0, result_of(6))
}

/// Running the program's two steps on a fresh compiler defines `sum` as
/// [`sum_body`], gives `main` the body of the C program ([`program_body`]) and
/// leaves `printf` declared only.
pub proof fn law_program_body<'ctx>(
    fresh: Compiler<'ctx>,
    called: Compiler<'ctx>,
    c: Int<'ctx>,
    printed: Compiler<'ctx>,
)
    requires
        symbols(fresh.module) == main_and_printf(),
        symbols(called.module) == symbols(fresh.module).insert(
            SUM_FUNC_NAME@,
            defined(sum_signature(), sum_body()),
        ).insert(MAIN_FUNC_NAME@, defined(main_signature(), call_body())),
        c.expr() == result_of(6),
        called.builder.position() == Some(
            Position { module: module_identity(fresh.module), function: MAIN_FUNC_NAME@, block: 0 },
        ),
        symbols(printed.module) == with_instr(
            with_instr(symbols(called.module), called.builder.position()->0, printf_call(c.expr())),
            called.builder.position()->0,
            Instr::Return { value: i32_const(0) },
        ),
    ensures
        symbols(printed.module)[MAIN_FUNC_NAME@] == defined(main_signature(), program_body()),
        symbols(printed.module)[SUM_FUNC_NAME@] == defined(sum_signature(), sum_body()),
        symbols(printed.module)[PRINTF_FUNC_NAME@] == declared(printf_signature()),
{
    reveal_strlit("main");
    reveal_strlit("printf");
    reveal_strlit("sum");
    assert(MAIN_FUNC_NAME@.len() != PRINTF_FUNC_NAME@.len());
    assert(MAIN_FUNC_NAME@.len() != SUM_FUNC_NAME@.len());
    assert(SUM_FUNC_NAME@.len() != PRINTF_FUNC_NAME@.len());
    lemma_append_two(
        symbols(called.module),
        called.builder.position()->0,
        printf_call(c.expr()),
        Instr::Return { value: i32_const(0) },
    );
}

} // verus!
