//! A program whose `main` returns a constant:
//!
//! ```c
//! int main() { return 108; }
//! ```
use crate::common::{declare_main, declared, defined, i32_const, is_function_of, main_signature, MAIN_FUNC_NAME};
use crate::llvm::{
    append_basic_block, build_return, const_int, create_builder, create_module, function_order, i32_type,
    module_identity, module_name, position_at_end, symbols, CodeBuilder, Function, Instr, IntTy, Position,
};
use inkwell::context::Context;
use inkwell::module::Module;
use vstd::prelude::*;

verus! {

/// The number that the generated `main` returns.
pub const HG2G: u64 = 108;

/// The LLVM state of the program: its module, with `main` declared in it,
/// and a builder to fill it.
pub struct Compiler<'ctx> {
    pub context: &'ctx Context,
    pub builder: CodeBuilder<'ctx>,
    pub module: Module<'ctx>,
    pub i32_type: IntTy<'ctx>,
    pub main_func: Function<'ctx>,
}

/// The body of `main`: one block, which returns 108.
pub open spec fn main_body() -> Seq<Seq<Instr>> {
    seq![seq![Instr::Return { value: i32_const(HG2G as u64) }]]
}

impl<'ctx> Compiler<'ctx> {
    /// Creates the module `main` in `context` and declares `int main()` in it;
    /// the builder appends nowhere yet.
    pub fn new(context: &'ctx Context) -> (compiler: Self)
        ensures
            compiler.context == context,
            compiler.i32_type.width() == 32,
            compiler.builder.position() is None,
            module_name(compiler.module) == MAIN_FUNC_NAME@,
            symbols(compiler.module) == map![MAIN_FUNC_NAME@ => declared(main_signature())],
            function_order(compiler.module) == seq![MAIN_FUNC_NAME@],
            is_function_of(compiler.module, compiler.main_func, MAIN_FUNC_NAME@, main_signature()),
    {
        proof {
            reveal_strlit("main");
        }
        let builder = create_builder(context);
        let mut module = create_module(context, MAIN_FUNC_NAME);
        let i32_type = i32_type(context);
        let main_func = declare_main(&mut module, &i32_type);
        assert(function_order(module) =~= seq![MAIN_FUNC_NAME@]);
        Compiler { context, builder, module, i32_type, main_func }
    }

    /// Gives the declared `main` its body: an entry block that returns
    /// [`HG2G`]. The builder is left at the end of that block.
    pub fn build_main(&mut self)
        requires
            old(self).i32_type.width() == 32,
            is_function_of(old(self).module, old(self).main_func, MAIN_FUNC_NAME@, main_signature()),
            symbols(old(self).module)[MAIN_FUNC_NAME@] == declared(main_signature()),
        ensures
            symbols(final(self).module) == symbols(old(self).module).insert(
                MAIN_FUNC_NAME@,
                defined(main_signature(), main_body()),
            ),
            function_order(final(self).module) == function_order(old(self).module),
            module_identity(final(self).module) == module_identity(old(self).module),
            module_name(final(self).module) == module_name(old(self).module),
            final(self).builder.position() == Some(
                Position { module: module_identity(old(self).module), function: MAIN_FUNC_NAME@, block: 0 },
            ),
            final(self).context == old(self).context,
            final(self).i32_type == old(self).i32_type,
            final(self).main_func == old(self).main_func,
    {
        let main_block = append_basic_block(self.context, &mut self.module, &self.main_func, "entry");
        position_at_end(&mut self.builder, &main_block);
        let ret_val = const_int(&self.i32_type, HG2G, false);
        build_return(&self.builder, &mut self.module, ret_val);
        assert(body_of_main(&self.module) =~= main_body());
    }
}

/// The blocks of `main` in `module`.
spec fn body_of_main<'ctx>(module: &Module<'ctx>) -> Seq<Seq<Instr>> {
    symbols(*module)[MAIN_FUNC_NAME@]->blocks
}

} // verus!
