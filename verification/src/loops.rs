//! A program that counts a local variable down in a loop, printing each value:
//!
//! ```c
//! int main() {
//!   int a = 10;
//!   while (a > 0) {
//!     a = a - 1;
//!     printf("%d\n", a);
//!   }
//!   return 0;
//! }
//! ```
//!
//! The format string is made by the caller between
//! [`Compiler::build_countdown`] and [`Compiler::build_print_and_loop`], with
//! the builder still in the loop body.
use crate::common::{
    build_printf_call, declared, declares_printf, defined, i32_const, is_function_of, lemma_append_two,
    main_and_printf, main_signature, printf_call, printf_signature, printing_module, MAIN_FUNC_NAME,
    PRINTF_FUNC_NAME,
};
use crate::llvm::{
    append_basic_block, build_conditional_branch, build_int_alloca, build_int_compare, build_int_sub, build_load,
    body_of, build_return, build_store, build_unconditional_branch, const_int, function_order, is_block_of,
    module_identity, module_name, position_at_end, positioned_in, symbols, with_instr, Block, CodeBuilder, Expr,
    Function, Instr, InstrRef, Int, IntComparison, IntTy, Position,
};
use inkwell::context::Context;
use inkwell::module::Module;
use inkwell::values::GlobalValue;
use vstd::prelude::*;

verus! {

/// The LLVM state of the program: its module, with `main` and `printf`
/// declared in it, and a builder to fill it.
pub struct Compiler<'ctx> {
    pub context: &'ctx Context,
    pub builder: CodeBuilder<'ctx>,
    pub module: Module<'ctx>,
    pub i32_type: IntTy<'ctx>,
    pub main_func: Function<'ctx>,
    pub printf_func: Function<'ctx>,
}

/// Where the loop body stands when the value to print has been loaded.
pub struct LoopBody<'ctx> {
    /// The counter `a`, loaded after it was decremented.
    pub counter: Int<'ctx>,
    /// The block that tests `a > 0`.
    pub cond_block: Block<'ctx>,
    /// The block after the loop.
    pub loop_end_block: Block<'ctx>,
}

/// Instruction `pos` of block `block` of `main`.
pub open spec fn at(block: int, pos: int) -> InstrRef {
    InstrRef { block, pos }
}

/// The value that instruction `pos` of block `block` of `main` produces.
pub open spec fn result_of(block: int, pos: int) -> Expr {
    Expr::Result(at(block, pos))
}

/// The body of `main` up to the print. Block 0 makes the slot of `a`, stores
/// 10 in it and jumps to block 1, which loads `a` and jumps on `a > 0` to block
/// 2, else to block 3; block 2 loads `a`, stores `a - 1` in it and loads it
/// again; block 3 is still empty.
pub open spec fn countdown_body() -> Seq<Seq<Instr>> {
    seq![
        seq![
            Instr::Alloca { width: 32 },
            Instr::Store { slot: at(0, 0), value: i32_const(10) },
            Instr::Branch { target: 1 },
        ],
        seq![
            Instr::Load { slot: at(0, 0) },
            Instr::CondBranch {
                cond: Expr::Compare(IntComparison::SignedGreater, Box::new(result_of(1, 0)), Box::new(i32_const(0))),
                then_block: 2,
                else_block: 3,
            },
        ],
        seq![
            Instr::Load { slot: at(0, 0) },
            Instr::Store { slot: at(0, 0), value: Expr::Sub(Box::new(result_of(2, 0)), Box::new(i32_const(1))) },
            Instr::Load { slot: at(0, 0) },
        ],
        Seq::empty(),
    ]
}

/// Block `block` of `main` in the module `module`.
pub open spec fn main_block(module: int, block: int) -> Position {
    Position { module, function: MAIN_FUNC_NAME@, block }
}

impl<'ctx> Compiler<'ctx> {
    /// Creates the module `main` in `context` and declares `int main()` and
    /// `int printf(int *, ...)` in it; the builder appends nowhere yet.
    pub fn new(context: &'ctx Context) -> (compiler: Self)
        ensures
            compiler.context == context,
            compiler.i32_type.width() == 32,
            compiler.builder.position() is None,
            module_name(compiler.module) == MAIN_FUNC_NAME@,
            symbols(compiler.module) == main_and_printf(),
            function_order(compiler.module) == seq![MAIN_FUNC_NAME@, PRINTF_FUNC_NAME@],
            is_function_of(compiler.module, compiler.main_func, MAIN_FUNC_NAME@, main_signature()),
            declares_printf(compiler.module, compiler.printf_func),
    {
        let (builder, module, i32_type, main_func, printf_func) = printing_module(context);
        Compiler { context, builder, module, i32_type, main_func, printf_func }
    }

    /// Gives the declared `main` the body [`countdown_body`]: the local
    /// `a = 10`, the condition block that tests `a > 0` and leaves the loop when
    /// it fails, and the start of the loop body, which stores `a - 1` into `a`
    /// and loads `a` again. The builder is left at the end of the loop body.
    pub fn build_countdown(&mut self) -> (body: LoopBody<'ctx>)
        requires
            old(self).i32_type.width() == 32,
            is_function_of(old(self).module, old(self).main_func, MAIN_FUNC_NAME@, main_signature()),
            symbols(old(self).module)[MAIN_FUNC_NAME@] == declared(main_signature()),
        ensures
            symbols(final(self).module) == symbols(old(self).module).insert(
                MAIN_FUNC_NAME@,
                defined(main_signature(), countdown_body()),
            ),
            body.counter.expr() == result_of(2, 2),
            body.cond_block.position() == main_block(module_identity(old(self).module), 1),
            body.loop_end_block.position() == main_block(module_identity(old(self).module), 3),
            final(self).builder.position() == Some(main_block(module_identity(old(self).module), 2)),
            function_order(final(self).module) == function_order(old(self).module),
            module_identity(final(self).module) == module_identity(old(self).module),
            module_name(final(self).module) == module_name(old(self).module),
            final(self).context == old(self).context,
            final(self).i32_type == old(self).i32_type,
            final(self).main_func == old(self).main_func,
            final(self).printf_func == old(self).printf_func,
    {
        let ghost start = symbols(self.module);
        let main_block = append_basic_block(self.context, &mut self.module, &self.main_func, "entry");
        position_at_end(&mut self.builder, &main_block);

        let ptr = build_int_alloca(&self.builder, &mut self.module, &self.i32_type, "a");
        build_store(&self.builder, &mut self.module, &ptr, const_int(&self.i32_type, 10, false));

        let cond_block = append_basic_block(self.context, &mut self.module, &self.main_func, "cond");
        let body_block = append_basic_block(self.context, &mut self.module, &self.main_func, "body");
        let loop_end_block = append_basic_block(self.context, &mut self.module, &self.main_func, "loop_end");

        build_unconditional_branch(&self.builder, &mut self.module, &cond_block);
        assert(symbols(self.module)[MAIN_FUNC_NAME@]->blocks[0] =~= countdown_body()[0]);

        // The loop condition.
        position_at_end(&mut self.builder, &cond_block);
        let lhs = build_load(&self.builder, &mut self.module, &ptr, "a");
        let zero = const_int(&self.i32_type, 0, false);
        let comparison = build_int_compare(&self.builder, IntComparison::SignedGreater, lhs, zero, "a > 0");
        build_conditional_branch(&self.builder, &mut self.module, comparison, &body_block, &loop_end_block);
        assert(symbols(self.module)[MAIN_FUNC_NAME@]->blocks[1] =~= countdown_body()[1]);

        // The loop body.
        position_at_end(&mut self.builder, &body_block);
        let lhs = build_load(&self.builder, &mut self.module, &ptr, "a");
        let one = const_int(&self.i32_type, 1, false);
        let new_val = build_int_sub(&self.builder, lhs, one, "a - 1");
        build_store(&self.builder, &mut self.module, &ptr, new_val);

        let counter = build_load(&self.builder, &mut self.module, &ptr, "a");
        assert(symbols(self.module)[MAIN_FUNC_NAME@]->blocks[2] =~= countdown_body()[2]);
        assert(symbols(self.module)[MAIN_FUNC_NAME@]->blocks =~= countdown_body());
        assert(symbols(self.module) =~= start.insert(MAIN_FUNC_NAME@, defined(main_signature(), countdown_body())));
        LoopBody { counter, cond_block, loop_end_block }
    }

    /// Finishes the loop body with `printf(int_fmt_str, a)`, where
    /// `int_fmt_str` is the global format string `fmt`, and a jump back to the
    /// condition block; then gives the block after the loop its `return 0;`.
    /// The builder is left at the end of the block after the loop.
    pub fn build_print_and_loop(&mut self, fmt: GlobalValue<'ctx>, body: LoopBody<'ctx>)
        requires
            old(self).i32_type.width() == 32,
            positioned_in(old(self).builder, old(self).module),
            declares_printf(old(self).module, old(self).printf_func),
            body.cond_block.position().module == old(self).builder.position()->0.module,
            body.cond_block.position().function == old(self).builder.position()->0.function,
            body.loop_end_block.position().module == old(self).builder.position()->0.module,
            is_block_of(symbols(old(self).module), body.loop_end_block.position()),
        ensures
            symbols(final(self).module) == with_instr(
                with_instr(
                    with_instr(symbols(old(self).module), old(self).builder.position()->0, printf_call(body.counter.expr())),
                    old(self).builder.position()->0,
                    Instr::Branch { target: body.cond_block.position().block },
                ),
                body.loop_end_block.position(),
                Instr::Return { value: i32_const(0) },
            ),
            final(self).builder.position() == Some(body.loop_end_block.position()),
            function_order(final(self).module) == function_order(old(self).module),
            module_identity(final(self).module) == module_identity(old(self).module),
            module_name(final(self).module) == module_name(old(self).module),
    {
        build_printf_call(&self.builder, &mut self.module, &self.printf_func, fmt, body.counter);
        build_unconditional_branch(&self.builder, &mut self.module, &body.cond_block);

        // The block after the loop.
        position_at_end(&mut self.builder, &body.loop_end_block);
        let ret_val = const_int(&self.i32_type, 0, false);
        build_return(&self.builder, &mut self.module, ret_val);
    }
}


/// The body of `main` once the program is complete: [`countdown_body`] with
/// the loop body finished by `printf("%d\n", a)` and a jump back to the
/// condition block, and the block after the loop returning 0.
pub open spec fn program_body() -> Seq<Seq<Instr>> {
    seq![
        seq![
            Instr::Alloca { width: 32 },
            Instr::Store { slot: at(0, 0), value: i32_const(10) },
            Instr::Branch { target: 1 },
        ],
        seq![
            Instr::Load { slot: at(0, 0) },
            Instr::CondBranch {
                cond: Expr::Compare(IntComparison::SignedGreater, Box::new(result_of(1, 0)), Box::new(i32_const(0))),
                then_block: 2,
                else_block: 3,
            },
        ],
        seq![
            Instr::Load { slot: at(0, 0) },
            Instr::Store { slot: at(0, 0), value: Expr::Sub(Box::new(result_of(2, 0)), Box::new(i32_const(1))) },
            Instr::Load { slot: at(0, 0) },
            printf_call(result_of(2, 2)),
            Instr::Branch { target: 1 },
        ],
        seq![Instr::Return { value: i32_const(0) }],
    ]
}

/// Running the program's two steps on a fresh compiler gives `main` the body
/// of the C program ([`program_body`]) and leaves `printf` declared only.
pub proof fn law_program_body<'ctx>(
    fresh: Compiler<'ctx>,
    counted: Compiler<'ctx>,
    body: LoopBody<'ctx>,
    printed: Compiler<'ctx>,
)
    requires
        symbols(fresh.module) == main_and_printf(),
        symbols(counted.module) == symbols(fresh.module).insert(
            MAIN_FUNC_NAME@,
            defined(main_signature(), countdown_body()),
        ),
        body.counter.expr() == result_of(2, 2),
        body.cond_block.position() == main_block(module_identity(fresh.module), 1),
        body.loop_end_block.position() == main_block(module_identity(fresh.module), 3),
        counted.builder.position() == Some(main_block(module_identity(fresh.module), 2)),
        symbols(printed.module) == with_instr(
            with_instr(
                with_instr(symbols(counted.module), counted.builder.position()->0, printf_call(body.counter.expr())),
                counted.builder.position()->0,
                Instr::Branch { target: body.cond_block.position().block },
            ),
            body.loop_end_block.position(),
            Instr::Return { value: i32_const(0) },
        ),
    ensures
        symbols(printed.module)[MAIN_FUNC_NAME@] == defined(main_signature(), program_body()),
        symbols(printed.module)[PRINTF_FUNC_NAME@] == declared(printf_signature()),
{
    reveal_strlit("main");
    reveal_strlit("printf");
    assert(MAIN_FUNC_NAME@.len() != PRINTF_FUNC_NAME@.len());
    let id = module_identity(fresh.module);
    let s = symbols(counted.module);
    lemma_append_two(s, main_block(id, 2), printf_call(result_of(2, 2)), Instr::Branch { target: 1 });
    let s2 = with_instr(
        with_instr(s, main_block(id, 2), printf_call(result_of(2, 2))),
        main_block(id, 2),
        Instr::Branch { target: 1 },
    );
    let b = countdown_body();
    assert(body_of(s2, MAIN_FUNC_NAME@) =~= b.update(2, b[2] + seq![printf_call(result_of(2, 2)), Instr::Branch { target: 1 }]));
    let b2 = body_of(s2, MAIN_FUNC_NAME@);
    let ret = Instr::Return { value: i32_const(0) };
    let s3 = with_instr(s2, main_block(id, 3), ret);
    assert(body_of(s3, MAIN_FUNC_NAME@) == b2.update(3, b2[3].push(ret)));
    assert(b2[3].push(ret) =~= seq![ret]);
    assert(b2[2] =~= program_body()[2]);
    assert(body_of(s3, MAIN_FUNC_NAME@) =~= program_body());
}

} // verus!
