//! A program that fills the fields of a struct and prints their sum:
//!
//! ```c
//! struct Point {
//!    int a;
//!    int b;
//! };
//!
//! int main() {
//!    struct Point p;
//!    p.a = 10;
//!    p.b = 20;
//!    int c = p.a + p.b;
//!    printf("%d\n", c);
//!    return 0;
//! }
//! ```
//!
//! The format string is made by the caller between [`Compiler::build_sum`] and
//! [`Compiler::build_print_and_return`], with the builder still in `main`.
use crate::common::{
    build_print_and_return_zero, declared, declares_printf, defined, i32_const, is_function_of, lemma_append_two,
    main_and_printf, main_signature, printf_call, printf_signature, printing_module, with_print_and_return,
    MAIN_FUNC_NAME, PRINTF_FUNC_NAME,
};
use crate::error::CodegenError;
use crate::llvm::{
    append_basic_block, build_int_add, build_load, build_store, build_struct_alloca, build_struct_gep, const_int,
    function_order, module_identity, module_name, position_at_end, positioned_in, struct_type, symbols,
    with_instr, CodeBuilder, Expr, Function, Instr, InstrRef, Int, IntStructTy, IntTy, Position,
};
use inkwell::context::Context;
use inkwell::module::Module;
use inkwell::values::GlobalValue;
use vstd::prelude::*;

verus! {

/// The LLVM state of the program: its module, with `main` and `printf`
/// declared in it, the type `{ i32, i32 }` of a point, and a builder to fill
/// the module.
pub struct Compiler<'ctx> {
    pub context: &'ctx Context,
    pub builder: CodeBuilder<'ctx>,
    pub module: Module<'ctx>,
    pub i32_type: IntTy<'ctx>,
    pub point_type: IntStructTy<'ctx>,
    pub main_func: Function<'ctx>,
    pub printf_func: Function<'ctx>,
}

/// Instruction `pos` of the entry block of `main`.
pub open spec fn at(pos: int) -> InstrRef {
    InstrRef { block: 0, pos }
}

/// The body of `main` up to the print, for a point type of `fields` fields:
/// one block that makes the point `p` (instruction 0), the addresses of its
/// fields 0 and 1, stores 10 and 20 there and loads both fields.
pub open spec fn sum_body(fields: nat) -> Seq<Seq<Instr>> {
    seq![
        seq![
            Instr::StructAlloca { fields },
            Instr::FieldAddress { base: at(0), index: 0 },
            Instr::Store { slot: at(1), value: i32_const(10) },
            Instr::FieldAddress { base: at(0), index: 1 },
            Instr::Store { slot: at(3), value: i32_const(20) },
            Instr::Load { slot: at(1) },
            Instr::Load { slot: at(3) },
        ],
    ]
}

/// The value of `c`: the sum of the two loaded fields.
pub open spec fn sum_of_fields() -> Expr {
    Expr::Add(Box::new(Expr::Result(at(5))), Box::new(Expr::Result(at(6))))
}

impl<'ctx> Compiler<'ctx> {
    /// Creates the module `main` in `context`, declares `int main()` and
    /// `int printf(int *, ...)` in it, and makes the point type: the literal,
    /// not packed struct `{ i32, i32 }`. The builder appends nowhere yet.
    pub fn new(context: &'ctx Context) -> (compiler: Self)
        ensures
            compiler.context == context,
            compiler.i32_type.width() == 32,
            compiler.point_type.field_widths() == seq![32u32, 32u32],
            !compiler.point_type.is_packed(),
            compiler.point_type.is_literal(),
            compiler.builder.position() is None,
            module_name(compiler.module) == MAIN_FUNC_NAME@,
            symbols(compiler.module) == main_and_printf(),
            function_order(compiler.module) == seq![MAIN_FUNC_NAME@, PRINTF_FUNC_NAME@],
            is_function_of(compiler.module, compiler.main_func, MAIN_FUNC_NAME@, main_signature()),
            declares_printf(compiler.module, compiler.printf_func),
    {
        let (builder, module, i32_type, main_func, printf_func) = printing_module(context);
        let mut fields: Vec<IntTy<'ctx>> = Vec::new();
        fields.push(i32_type);
        fields.push(i32_type);
        let ghost widths = fields@.map_values(|f: IntTy<'ctx>| f.width());
        let point_type = struct_type(context, fields, false);
        assert(widths =~= seq![32u32, 32u32]);
        Compiler { context, builder, module, i32_type, point_type, main_func, printf_func }
    }

    /// Gives the declared `main` the body [`sum_body`]: a point `p` on the
    /// stack, `p.a = 10`, `p.b = 20`, and the loads of both fields, whose sum
    /// `c` it returns. This succeeds exactly when the point type has at least
    /// two fields; otherwise the address of a field cannot be formed. On
    /// success the builder is left at the end of `main`'s block.
    pub fn build_sum(&mut self) -> (c: Result<Int<'ctx>, CodegenError>)
        requires
            old(self).i32_type.width() == 32,
            is_function_of(old(self).module, old(self).main_func, MAIN_FUNC_NAME@, main_signature()),
            symbols(old(self).module)[MAIN_FUNC_NAME@] == declared(main_signature()),
        ensures
            c is Ok <==> old(self).point_type.field_widths().len() >= 2,
            c matches Err(e) ==> e == CodegenError::MissingField,
            c matches Ok(v) ==> v.expr() == sum_of_fields(),
            c is Ok ==> symbols(final(self).module) == symbols(old(self).module).insert(
                MAIN_FUNC_NAME@,
                defined(main_signature(), sum_body(old(self).point_type.field_widths().len())),
            ),
            final(self).builder.position() == Some(
                Position { module: module_identity(old(self).module), function: MAIN_FUNC_NAME@, block: 0 },
            ),
            function_order(final(self).module) == function_order(old(self).module),
            module_identity(final(self).module) == module_identity(old(self).module),
            module_name(final(self).module) == module_name(old(self).module),
            final(self).context == old(self).context,
            final(self).i32_type == old(self).i32_type,
            final(self).main_func == old(self).main_func,
            final(self).printf_func == old(self).printf_func,
    {
        let ghost start = symbols(self.module);
        let main_block = append_basic_block(self.context, &mut self.module, &self.main_func, "entry");
        position_at_end(&mut self.builder, &main_block);

        let point = build_struct_alloca(&self.builder, &mut self.module, &self.point_type, "p");

        let a = match build_struct_gep(&self.builder, &mut self.module, &point, 0, "a") {
            Some(a) => a,
            None => return Err(CodegenError::MissingField),
        };
        build_store(&self.builder, &mut self.module, &a, const_int(&self.i32_type, 10, false));

        let b = match build_struct_gep(&self.builder, &mut self.module, &point, 1, "b") {
            Some(b) => b,
            None => return Err(CodegenError::MissingField),
        };
        build_store(&self.builder, &mut self.module, &b, const_int(&self.i32_type, 20, false));

        let a = build_load(&self.builder, &mut self.module, &a, "a");
        let b = build_load(&self.builder, &mut self.module, &b, "b");
        let c = build_int_add(&self.builder, a, b, "c");
        assert(symbols(self.module)[MAIN_FUNC_NAME@]->blocks[0] =~= sum_body(self.point_type.field_widths().len())[0]);
        assert(symbols(self.module)[MAIN_FUNC_NAME@]->blocks =~= sum_body(self.point_type.field_widths().len()));
        assert(symbols(self.module) =~= start.insert(
            MAIN_FUNC_NAME@,
            defined(main_signature(), sum_body(self.point_type.field_widths().len())),
        ));
        Ok(c)
    }

    /// Emits `printf(int_fmt_str, c); return 0;` where the builder stands;
    /// `int_fmt_str` is the global format string `fmt`.
    pub fn build_print_and_return(&mut self, fmt: GlobalValue<'ctx>, c: Int<'ctx>)
        requires
            old(self).i32_type.width() == 32,
            positioned_in(old(self).builder, old(self).module),
            declares_printf(old(self).module, old(self).printf_func),
        ensures
            symbols(final(self).module) == with_instr(
                with_instr(symbols(old(self).module), old(self).builder.position()->0, printf_call(c.expr())),
                old(self).builder.position()->0,
                Instr::Return { value: i32_const(0) },
            ),
            function_order(final(self).module) == function_order(old(self).module),
            module_identity(final(self).module) == module_identity(old(self).module),
            module_name(final(self).module) == module_name(old(self).module),
            final(self).builder.position() == old(self).builder.position(),
    {
        build_print_and_return_zero(&self.builder, &mut self.module, &self.printf_func, &self.i32_type, fmt, c);
    }
}


/// The body of `main` once the program is complete, for a point type of
/// `fields` fields: [`sum_body`] ending in `printf("%d\n", c); return 0;`.
pub open spec fn program_body(fields: nat) -> Seq<Seq<Instr>> {
    with_print_and_return(sum_body(fields), 0, sum_of_fields())
}

/// Running the program's two steps on a fresh compiler, when the first one
/// succeeds, gives `main` the body of the C program ([`program_body`]) and
/// leaves `printf` declared only.
pub proof fn law_program_body<'ctx>(
    fresh: Compiler<'ctx>,
    summed: Compiler<'ctx>,
    c: Int<'ctx>,
    printed: Compiler<'ctx>,
)
    requires
        symbols(fresh.module) == main_and_printf(),
        symbols(summed.module) == symbols(fresh.module).insert(
            MAIN_FUNC_NAME@,
            defined(main_signature(), sum_body(fresh.point_type.field_widths().len())),
        ),
        c.expr() == sum_of_fields(),
        summed.builder.position() == Some(
            Position { module: module_identity(fresh.module), function: MAIN_FUNC_NAME@, block: 0 },
        ),
        symbols(printed.module) == with_instr(
            with_instr(symbols(summed.module), summed.builder.position()->0, printf_call(c.expr())),
            summed.builder.position()->0,
            Instr::Return { value: i32_const(0) },
        ),
    ensures
        symbols(printed.module)[MAIN_FUNC_NAME@] == defined(
            main_signature(),
            program_body(fresh.point_type.field_widths().len()),
        ),
        symbols(printed.module)[PRINTF_FUNC_NAME@] == declared(printf_signature()),
{
    reveal_strlit("main");
    reveal_strlit("printf");
    assert(MAIN_FUNC_NAME@.len() != PRINTF_FUNC_NAME@.len());
    lemma_append_two(
        symbols(summed.module),
        summed.builder.position()->0,
        printf_call(c.expr()),
        Instr::Return { value: i32_const(0) },
    );
}

} // verus!
