//! A program that branches on a local variable and prints the result:
//!
//! ```c
//! int main() {
//!     int a = 10;
//!     int b = 0;
//!     if (a > 0) {
//!        b = 1;
//!     } else {
//!        b = 2;
//!     }
//!     printf("%d\n", b);
//! }
//! ```
//!
//! The locals live in stack slots that are found again by name through an
//! [`Env`]. The format string is made by the caller between
//! [`Compiler::build_branches`] and [`Compiler::build_print_and_return`], with
//! the builder still in the merge block.
use crate::common::{
    build_print_and_return_zero, declared, declares_printf, defined, i32_const, is_function_of, lemma_append_two,
    main_and_printf, main_signature, printf_call, printf_signature, printing_module, with_print_and_return,
    MAIN_FUNC_NAME, PRINTF_FUNC_NAME,
};
use crate::env::{DataType, Env, Pointer};
use crate::llvm::{
    add_incoming, append_basic_block, build_conditional_branch, build_int_alloca, build_int_compare, build_load,
    build_phi, build_store, build_unconditional_branch, const_int, function_order, get_insert_block,
    module_identity, module_name, phi_value, position_at_end, positioned_in, symbols, with_instr, CodeBuilder,
    Expr, Function, Instr, InstrRef, Int, IntComparison, IntTy, Position,
};
use inkwell::context::Context;
use inkwell::module::Module;
use inkwell::values::GlobalValue;
use vstd::prelude::*;

verus! {

/// The LLVM state of the program: its module, with `main` and `printf`
/// declared in it, and a builder to fill it.
pub struct Compiler<'ctx> {
    pub context: &'ctx Context,
    pub builder: CodeBuilder<'ctx>,
    pub module: Module<'ctx>,
    pub i32_type: IntTy<'ctx>,
    pub main_func: Function<'ctx>,
    pub printf_func: Function<'ctx>,
}

/// Instruction `pos` of block `block` of `main`.
pub open spec fn at(block: int, pos: int) -> InstrRef {
    InstrRef { block, pos }
}

/// The value that instruction `pos` of block `block` of `main` produces.
pub open spec fn result_of(block: int, pos: int) -> Expr {
    Expr::Result(at(block, pos))
}

/// The body of `main` up to the print. Block 0 makes the slots of `a` (its
/// instruction 0) and `b` (instruction 2), stores 10 and 0 in them, and jumps
/// on `a > 0` to block 1, which stores 1 in `b`, or to block 2, which stores 2;
/// both jump to block 3, which stores the phi of 1 and 2 in `b` and loads `b`.
pub open spec fn branches_body() -> Seq<Seq<Instr>> {
    seq![
        seq![
            Instr::Alloca { width: 32 },
            Instr::Store { slot: at(0, 0), value: i32_const(10) },
            Instr::Alloca { width: 32 },
            Instr::Store { slot: at(0, 2), value: i32_const(0) },
            Instr::Load { slot: at(0, 0) },
            Instr::CondBranch {
                cond: Expr::Compare(IntComparison::SignedGreater, Box::new(result_of(0, 4)), Box::new(i32_const(0))),
                then_block: 1,
                else_block: 2,
            },
        ],
        seq![Instr::Store { slot: at(0, 2), value: i32_const(1) }, Instr::Branch { target: 3 }],
        seq![Instr::Store { slot: at(0, 2), value: i32_const(2) }, Instr::Branch { target: 3 }],
        seq![
            Instr::Phi { incoming: seq![(i32_const(1), 1int), (i32_const(2), 2int)] },
            Instr::Store { slot: at(0, 2), value: result_of(3, 0) },
            Instr::Load { slot: at(0, 2) },
        ],
    ]
}

impl<'ctx> Compiler<'ctx> {
    /// Creates the module `main` in `context` and declares `int main()` and
    /// `int printf(int *, ...)` in it; the builder appends nowhere yet.
    pub fn new(context: &'ctx Context) -> (compiler: Self)
        ensures
            compiler.context == context,
            compiler.i32_type.width() == 32,
            compiler.builder.position() is None,
            module_name(compiler.module) == MAIN_FUNC_NAME@,
            symbols(compiler.module) == main_and_printf(),
            function_order(compiler.module) == seq![MAIN_FUNC_NAME@, PRINTF_FUNC_NAME@],
            is_function_of(compiler.module, compiler.main_func, MAIN_FUNC_NAME@, main_signature()),
            declares_printf(compiler.module, compiler.printf_func),
    {
        let (builder, module, i32_type, main_func, printf_func) = printing_module(context);
        Compiler { context, builder, module, i32_type, main_func, printf_func }
    }

    /// Gives the declared `main` the body [`branches_body`]: the locals
    /// `a = 10` and `b = 0`, the test `a > 0`, the two branches that store `1`
    /// or `2` into `b`, and the merge block, which stores the branch's value
    /// into `b` through a phi node and loads `b`. Returns the loaded `b`; the
    /// builder is left at the end of the merge block.
    pub fn build_branches(&mut self) -> (b: Int<'ctx>)
        requires
            old(self).i32_type.width() == 32,
            is_function_of(old(self).module, old(self).main_func, MAIN_FUNC_NAME@, main_signature()),
            symbols(old(self).module)[MAIN_FUNC_NAME@] == declared(main_signature()),
        ensures
            symbols(final(self).module) == symbols(old(self).module).insert(
                MAIN_FUNC_NAME@,
                defined(main_signature(), branches_body()),
            ),
            b.expr() == result_of(3, 2),
            final(self).builder.position() == Some(
                Position { module: module_identity(old(self).module), function: MAIN_FUNC_NAME@, block: 3 },
            ),
            function_order(final(self).module) == function_order(old(self).module),
            module_identity(final(self).module) == module_identity(old(self).module),
            module_name(final(self).module) == module_name(old(self).module),
            final(self).context == old(self).context,
            final(self).i32_type == old(self).i32_type,
            final(self).main_func == old(self).main_func,
            final(self).printf_func == old(self).printf_func,
    {
        proof {
            reveal_strlit("a");
            reveal_strlit("b");
            assert("a"@[0] != "b"@[0]);
        }
        let ghost start = symbols(self.module);
        let main_block = append_basic_block(self.context, &mut self.module, &self.main_func, "entry");
        position_at_end(&mut self.builder, &main_block);
        let mut global_env = Env::new(None);

        let ptr = build_int_alloca(&self.builder, &mut self.module, &self.i32_type, "a");
        build_store(&self.builder, &mut self.module, &ptr, const_int(&self.i32_type, 10, false));
        global_env.add("a", Pointer { ptr, data_type: DataType::Number });

        let ptr = build_int_alloca(&self.builder, &mut self.module, &self.i32_type, "b");
        build_store(&self.builder, &mut self.module, &ptr, const_int(&self.i32_type, 0, false));
        global_env.add("b", Pointer { ptr, data_type: DataType::Number });

        let if_true_block = append_basic_block(self.context, &mut self.module, &self.main_func, "if_true");
        let if_false_block = append_basic_block(self.context, &mut self.module, &self.main_func, "if_false");
        let merge_block = append_basic_block(self.context, &mut self.module, &self.main_func, "merge");

        let a_ptr = global_env.get("a").unwrap().ptr;
        let lhs = build_load(&self.builder, &mut self.module, &a_ptr, "a");
        let zero = const_int(&self.i32_type, 0, false);
        let comparison = build_int_compare(&self.builder, IntComparison::SignedGreater, lhs, zero, "a > 0");
        build_conditional_branch(&self.builder, &mut self.module, comparison, &if_true_block, &if_false_block);
        assert(symbols(self.module)[MAIN_FUNC_NAME@]->blocks[0] =~= branches_body()[0]);

        // The block taken when `a > 0`.
        position_at_end(&mut self.builder, &if_true_block);
        let b_ptr = global_env.get("b").unwrap().ptr;
        build_store(&self.builder, &mut self.module, &b_ptr, const_int(&self.i32_type, 1, false));
        build_unconditional_branch(&self.builder, &mut self.module, &merge_block);
        let then_block = get_insert_block(&self.builder).unwrap();
        assert(symbols(self.module)[MAIN_FUNC_NAME@]->blocks[1] =~= branches_body()[1]);

        // The block taken otherwise.
        position_at_end(&mut self.builder, &if_false_block);
        let b_ptr = global_env.get("b").unwrap().ptr;
        build_store(&self.builder, &mut self.module, &b_ptr, const_int(&self.i32_type, 2, false));
        build_unconditional_branch(&self.builder, &mut self.module, &merge_block);
        let else_block = get_insert_block(&self.builder).unwrap();
        assert(symbols(self.module)[MAIN_FUNC_NAME@]->blocks[2] =~= branches_body()[2]);

        // The merge block.
        position_at_end(&mut self.builder, &merge_block);
        let phi = build_phi(&self.builder, &mut self.module, &self.i32_type, "phi");
        let incoming = [(const_int(&self.i32_type, 1, false), then_block), (const_int(&self.i32_type, 2, false), else_block)];
        add_incoming(&mut self.module, &phi, &incoming);
        proof {
            let pairs = crate::llvm::incoming_model(incoming@);
            assert(pairs =~= seq![(i32_const(1), 1int), (i32_const(2), 2int)]);
            assert(Seq::<(Expr, int)>::empty() + pairs =~= pairs);
        }
        let b_ptr = global_env.get("b").unwrap().ptr;
        build_store(&self.builder, &mut self.module, &b_ptr, phi_value(&phi));

        let b_ptr = global_env.get("b").unwrap().ptr;
        let b = build_load(&self.builder, &mut self.module, &b_ptr, "b");
        assert(symbols(self.module)[MAIN_FUNC_NAME@]->blocks[3] =~= branches_body()[3]);
        assert(symbols(self.module)[MAIN_FUNC_NAME@]->blocks =~= branches_body());
        assert(symbols(self.module) =~= start.insert(MAIN_FUNC_NAME@, defined(main_signature(), branches_body())));
        b
    }

    /// Emits `printf(int_fmt_str, b); return 0;` where the builder stands;
    /// `int_fmt_str` is the global format string `fmt`.
    pub fn build_print_and_return(&mut self, fmt: GlobalValue<'ctx>, b: Int<'ctx>)
        requires
            old(self).i32_type.width() == 32,
            positioned_in(old(self).builder, old(self).module),
            declares_printf(old(self).module, old(self).printf_func),
        ensures
            symbols(final(self).module) == with_instr(
                with_instr(symbols(old(self).module), old(self).builder.position()->0, printf_call(b.expr())),
                old(self).builder.position()->0,
                Instr::Return { value: i32_const(0) },
            ),
            function_order(final(self).module) == function_order(old(self).module),
            module_identity(final(self).module) == module_identity(old(self).module),
            module_name(final(self).module) == module_name(old(self).module),
            final(self).builder.position() == old(self).builder.position(),
    {
        build_print_and_return_zero(&self.builder, &mut self.module, &self.printf_func, &self.i32_type, fmt, b);
    }
}


/// The body of `main` once the program is complete: [`branches_body`] with
/// the merge block ending in `printf("%d\n", b); return 0;`.
pub open spec fn program_body() -> Seq<Seq<Instr>> {
    with_print_and_return(branches_body(), 3, result_of(3, 2))
}

/// Running the program's two steps on a fresh compiler gives `main` the body
/// of the C program ([`program_body`]) and leaves `printf` declared only.
pub proof fn law_program_body<'ctx>(
    fresh: Compiler<'ctx>,
    branched: Compiler<'ctx>,
    b: Int<'ctx>,
    printed: Compiler<'ctx>,
)
    requires
        symbols(fresh.module) == main_and_printf(),
        symbols(branched.module) == symbols(fresh.module).insert(
            MAIN_FUNC_NAME@,
            defined(main_signature(), branches_body()),
        ),
        b.expr() == result_of(3, 2),
        branched.builder.position() == Some(
            Position { module: module_identity(fresh.module), function: MAIN_FUNC_NAME@, block: 3 },
        ),
        symbols(printed.module) == with_instr(
            with_instr(symbols(branched.module), branched.builder.position()->0, printf_call(b.expr())),
            branched.builder.position()->0,
            Instr::Return { value: i32_const(0) },
        ),
    ensures
        symbols(printed.module)[MAIN_FUNC_NAME@] == defined(main_signature(), program_body()),
        symbols(printed.module)[PRINTF_FUNC_NAME@] == declared(printf_signature()),
{
    reveal_strlit("main");
    reveal_strlit("printf");
    assert(MAIN_FUNC_NAME@.len() != PRINTF_FUNC_NAME@.len());
    lemma_append_two(
        symbols(branched.module),
        branched.builder.position()->0,
        printf_call(b.expr()),
        Instr::Return { value: i32_const(0) },
    );
}

} // verus!
