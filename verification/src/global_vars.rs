//! A program that adds two global variables and prints the sum:
//!
//! ```c
//! int a = 10;
//! int b = 20;
//!
//! int main() {
//!     int c = a + b;
//!     printf("%d\n", c);
//!     return 0;
//! }
//! ```
//!
//! The format string is made by the caller between [`Compiler::build_sum`] and
//! [`Compiler::build_print_and_return`], with the builder still in `main`.
use crate::common::{
    build_print_and_return_zero, declared, declares_printf, defined, i32_const, is_function_of, main_and_printf,
    main_signature, printf_call, printing_module, MAIN_FUNC_NAME, PRINTF_FUNC_NAME,
};
use crate::llvm::{
    add_global, append_basic_block, build_int_add, const_int, function_order, get_global, get_initializer,
    is_global, is_symbol_name, module_identity, module_name, position_at_end, positioned_in, set_initializer,
    symbols, with_instr, body_of, CodeBuilder, Expr, Function, Instr, Int, IntTy, Position, SymbolKind,
};
use inkwell::context::Context;
use inkwell::module::Module;
use inkwell::values::GlobalValue;
use vstd::prelude::*;

verus! {

/// The LLVM state of the program: its module, with `main` and `printf`
/// declared in it, and a builder to fill it.
pub struct Compiler<'ctx> {
    pub context: &'ctx Context,
    pub builder: CodeBuilder<'ctx>,
    pub module: Module<'ctx>,
    pub i32_type: IntTy<'ctx>,
    pub main_func: Function<'ctx>,
    pub printf_func: Function<'ctx>,
}

/// A 32-bit global variable with initial value `number`.
pub open spec fn global_holding(number: u64) -> SymbolKind {
    SymbolKind::GlobalVariable { width: 32, init: Some(number) }
}

/// The value of `c`: the sum of the initial values of `a` and `b`.
pub open spec fn sum_of_globals() -> Expr {
    Expr::Add(Box::new(i32_const(10)), Box::new(i32_const(20)))
}

/// The body of `main` once printed: one block that prints `c` and returns 0.
pub open spec fn main_body() -> Seq<Seq<Instr>> {
    seq![seq![printf_call(sum_of_globals()), Instr::Return { value: i32_const(0) }]]
}

impl<'ctx> Compiler<'ctx> {
    /// Creates the module `main` in `context` and declares `int main()` and
    /// `int printf(int *, ...)` in it; the builder appends nowhere yet.
    pub fn new(context: &'ctx Context) -> (compiler: Self)
        ensures
            compiler.context == context,
            compiler.i32_type.width() == 32,
            compiler.builder.position() is None,
            module_name(compiler.module) == MAIN_FUNC_NAME@,
            symbols(compiler.module) == main_and_printf(),
            function_order(compiler.module) == seq![MAIN_FUNC_NAME@, PRINTF_FUNC_NAME@],
            is_function_of(compiler.module, compiler.main_func, MAIN_FUNC_NAME@, main_signature()),
            declares_printf(compiler.module, compiler.printf_func),
    {
        let (builder, module, i32_type, main_func, printf_func) = printing_module(context);
        Compiler { context, builder, module, i32_type, main_func, printf_func }
    }

    /// Opens the entry block of the declared `main`, defines the 32-bit globals
    /// `a = 10` and `b = 20`, reads their initial values back from the module by
    /// name, and returns their sum `c`. The names `a` and `b` must be free.
    pub fn build_sum(&mut self) -> (c: Int<'ctx>)
        requires
            old(self).i32_type.width() == 32,
            is_function_of(old(self).module, old(self).main_func, MAIN_FUNC_NAME@, main_signature()),
            symbols(old(self).module)[MAIN_FUNC_NAME@] == declared(main_signature()),
            !symbols(old(self).module).contains_key("a"@),
            !symbols(old(self).module).contains_key("b"@),
        ensures
            symbols(final(self).module) == symbols(old(self).module).insert(
                MAIN_FUNC_NAME@,
                defined(main_signature(), seq![Seq::empty()]),
            ).insert("a"@, global_holding(10)).insert("b"@, global_holding(20)),
            c.expr() == sum_of_globals(),
            final(self).builder.position() == Some(
                Position { module: module_identity(old(self).module), function: MAIN_FUNC_NAME@, block: 0 },
            ),
            function_order(final(self).module) == function_order(old(self).module),
            module_identity(final(self).module) == module_identity(old(self).module),
            module_name(final(self).module) == module_name(old(self).module),
            final(self).context == old(self).context,
            final(self).i32_type == old(self).i32_type,
            final(self).main_func == old(self).main_func,
            final(self).printf_func == old(self).printf_func,
    {
        proof {
            reveal_strlit("a");
            reveal_strlit("b");
            reveal_strlit("main");
            assert("a"@[0] != "b"@[0]);
            assert("a"@ != MAIN_FUNC_NAME@ && "b"@ != MAIN_FUNC_NAME@);
        }
        let main_block = append_basic_block(self.context, &mut self.module, &self.main_func, "entry");
        position_at_end(&mut self.builder, &main_block);

        let a = add_global(&mut self.module, &self.i32_type, "a");
        set_initializer(&mut self.module, &a, const_int(&self.i32_type, 10, false));
        let b = add_global(&mut self.module, &self.i32_type, "b");
        set_initializer(&mut self.module, &b, const_int(&self.i32_type, 20, false));

        let lhs = self.initial_int("a");
        let rhs = self.initial_int("b");
        let c = build_int_add(&self.builder, lhs, rhs, "c");
        assert(symbols(self.module) =~= symbols(old(self).module).insert(
            MAIN_FUNC_NAME@,
            defined(main_signature(), seq![Seq::empty()]),
        ).insert("a"@, global_holding(10)).insert("b"@, global_holding(20)));
        c
    }

    /// The initial value of the global variable `name`, which has one.
    fn initial_int(&self, name: &str) -> (value: Int<'ctx>)
        requires
            is_symbol_name(name@),
            is_global(symbols(self.module), name@),
            symbols(self.module)[name@]->init is Some,
        ensures
            value.expr() == (Expr::Const {
                width: symbols(self.module)[name@]->width,
                number: symbols(self.module)[name@]->init->0,
            }),
    {
        let global = get_global(&self.module, name).unwrap();
        get_initializer(&self.module, &global).unwrap()
    }

    /// Emits `printf(int_fmt_str, c); return 0;` where the builder stands;
    /// `int_fmt_str` is the global format string `fmt`.
    pub fn build_print_and_return(&mut self, fmt: GlobalValue<'ctx>, c: Int<'ctx>)
        requires
            old(self).i32_type.width() == 32,
            positioned_in(old(self).builder, old(self).module),
            declares_printf(old(self).module, old(self).printf_func),
        ensures
            symbols(final(self).module) == with_instr(
                with_instr(symbols(old(self).module), old(self).builder.position()->0, printf_call(c.expr())),
                old(self).builder.position()->0,
                Instr::Return { value: i32_const(0) },
            ),
            function_order(final(self).module) == function_order(old(self).module),
            module_identity(final(self).module) == module_identity(old(self).module),
            module_name(final(self).module) == module_name(old(self).module),
            final(self).builder.position() == old(self).builder.position(),
    {
        build_print_and_return_zero(&self.builder, &mut self.module, &self.printf_func, &self.i32_type, fmt, c);
    }
}

/// Running the program's two steps on a fresh compiler gives `main` the body
/// of the C program: it prints `10 + 20` and returns 0.
pub proof fn law_program_body<'ctx>(
    fresh: Compiler<'ctx>,
    summed: Compiler<'ctx>,
    c: Int<'ctx>,
    printed: Compiler<'ctx>,
)
    requires
        symbols(fresh.module) == main_and_printf(),
        module_identity(summed.module) == module_identity(fresh.module),
        symbols(summed.module) == symbols(fresh.module).insert(
            MAIN_FUNC_NAME@,
            defined(main_signature(), seq![Seq::empty()]),
        ).insert("a"@, global_holding(10)).insert("b"@, global_holding(20)),
        c.expr() == sum_of_globals(),
        summed.builder.position() == Some(
            Position { module: module_identity(fresh.module), function: MAIN_FUNC_NAME@, block: 0 },
        ),
        symbols(printed.module) == with_instr(
            with_instr(symbols(summed.module), summed.builder.position()->0, printf_call(c.expr())),
            summed.builder.position()->0,
            Instr::Return { value: i32_const(0) },
        ),
    ensures
        symbols(printed.module)[MAIN_FUNC_NAME@] == defined(main_signature(), main_body()),
        symbols(printed.module)["a"@] == global_holding(10),
        symbols(printed.module)["b"@] == global_holding(20),
{
    reveal_strlit("a");
    reveal_strlit("b");
    reveal_strlit("main");
    assert("a"@.len() != MAIN_FUNC_NAME@.len() && "b"@.len() != MAIN_FUNC_NAME@.len());
    let p = summed.builder.position()->0;
    let s = symbols(summed.module);
    assert(s[MAIN_FUNC_NAME@] == defined(main_signature(), seq![Seq::<Instr>::empty()]));
    let s1 = with_instr(s, p, printf_call(c.expr()));
    assert(s1[MAIN_FUNC_NAME@]->blocks =~= seq![seq![printf_call(sum_of_globals())]]);
    assert("a"@[0] != "b"@[0]);
    let ret = Instr::Return { value: i32_const(0) };
    let b1 = body_of(s1, MAIN_FUNC_NAME@);
    assert(b1 =~= seq![seq![printf_call(sum_of_globals())]]);
    assert(b1[0].push(ret) =~= seq![printf_call(sum_of_globals()), ret]);
    let s2 = with_instr(s1, p, ret);
    assert(s2[MAIN_FUNC_NAME@]->blocks == b1.update(0, b1[0].push(ret)));
    assert(s2[MAIN_FUNC_NAME@]->blocks =~= main_body());
    assert(s2["a"@] == s["a"@]);
    assert(s2["b"@] == s["b"@]);
}

} // verus!
