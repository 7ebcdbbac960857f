//! What the example programs share: the module they all build, named `main`,
//! the declarations of `main` and `printf` in it, and the call of `printf`.
use crate::llvm::{
    add_function, build_call, build_return, const_int, create_builder, create_module, default_address_space, fn_type, global_as_pointer,
    i32_type, is_block_of, is_function, body_of, module_identity, module_name, function_order, positioned_in, ptr_type, symbols,
    with_instr, Arg, Argument, CodeBuilder, Expr, Function, Instr, Int, IntTy, Param, ParamType, Signature,
    SymbolKind, Position,
};
use inkwell::context::Context;
use inkwell::module::Module;
use inkwell::values::GlobalValue;
use vstd::prelude::*;

verus! {

/// The name of the module and of its entry function.
pub const MAIN_FUNC_NAME: &'static str = "main";

/// The name of the C library's formatted print function.
pub const PRINTF_FUNC_NAME: &'static str = "printf";

/// `int main()`.
pub open spec fn main_signature() -> Signature {
    Signature { ret_width: 32, params: Seq::empty(), var_args: false }
}

/// `int printf(int *, ...)`.
pub open spec fn printf_signature() -> Signature {
    Signature { ret_width: 32, params: seq![ParamType::IntPointer(32)], var_args: true }
}

/// A function with signature `sig` that is declared only: it has no blocks.
pub open spec fn declared(sig: Signature) -> SymbolKind {
    SymbolKind::Function { sig, blocks: Seq::empty() }
}

/// A function with signature `sig` and the blocks `blocks`.
pub open spec fn defined(sig: Signature, blocks: Seq<Seq<Instr>>) -> SymbolKind {
    SymbolKind::Function { sig, blocks }
}

/// The 32-bit constant `n`.
pub open spec fn i32_const(n: u64) -> Expr {
    Expr::Const { width: 32, number: n }
}

/// The module-level values of a module that declares `int main()` and
/// `int printf(int *, ...)` and nothing else.
pub open spec fn main_and_printf() -> Map<Seq<char>, SymbolKind> {
    map![MAIN_FUNC_NAME@ => declared(main_signature()), PRINTF_FUNC_NAME@ => declared(printf_signature())]
}

/// Whether `f` is `module`'s function named `name`, with signature `sig`.
pub open spec fn is_function_of<'ctx>(module: Module<'ctx>, f: Function<'ctx>, name: Seq<char>, sig: Signature) -> bool {
    &&& f.name() == name
    &&& f.module() == module_identity(module)
    &&& is_function(symbols(module), name)
    &&& symbols(module)[name]->sig == sig
}

/// Whether `printf` is `module`'s function `int printf(int *, ...)`.
pub open spec fn declares_printf<'ctx>(module: Module<'ctx>, printf: Function<'ctx>) -> bool {
    is_function_of(module, printf, PRINTF_FUNC_NAME@, printf_signature())
}

/// The call `printf(format, value)`, with the format string as a pointer.
pub open spec fn printf_call(value: Expr) -> Instr {
    Instr::Call { callee: PRINTF_FUNC_NAME@, args: seq![Arg::Pointer, Arg::Value(value)] }
}

/// Declares `int main()` in `module`, where the name `main` is still free.
pub fn declare_main<'ctx>(module: &mut Module<'ctx>, i32_type: &IntTy<'ctx>) -> (main_func: Function<'ctx>)
    requires
        i32_type.width() == 32,
        !symbols(*old(module)).contains_key(MAIN_FUNC_NAME@),
    ensures
        symbols(*final(module)) == symbols(*old(module)).insert(MAIN_FUNC_NAME@, declared(main_signature())),
        function_order(*final(module)) == function_order(*old(module)).push(MAIN_FUNC_NAME@),
        module_identity(*final(module)) == module_identity(*old(module)),
        module_name(*final(module)) == module_name(*old(module)),
        main_func.name() == MAIN_FUNC_NAME@,
        main_func.module() == module_identity(*old(module)),
{
    proof {
        reveal_strlit("main");
    }
    let params: Vec<Param<'ctx>> = Vec::new();
    let ghost param_models = params@.map_values(|p: Param<'ctx>| p.model());
    let main_type = fn_type(i32_type, params, false);
    assert(param_models =~= Seq::<ParamType>::empty());
    add_function(module, MAIN_FUNC_NAME, &main_type)
}

/// Declares `int printf(int *, ...)` in `module`, where the name `printf` is still free.
pub fn declare_printf<'ctx>(module: &mut Module<'ctx>, i32_type: &IntTy<'ctx>) -> (printf_func: Function<'ctx>)
    requires
        i32_type.width() == 32,
        !symbols(*old(module)).contains_key(PRINTF_FUNC_NAME@),
    ensures
        symbols(*final(module)) == symbols(*old(module)).insert(PRINTF_FUNC_NAME@, declared(printf_signature())),
        function_order(*final(module)) == function_order(*old(module)).push(PRINTF_FUNC_NAME@),
        module_identity(*final(module)) == module_identity(*old(module)),
        module_name(*final(module)) == module_name(*old(module)),
        printf_func.name() == PRINTF_FUNC_NAME@,
        printf_func.module() == module_identity(*old(module)),
{
    proof {
        reveal_strlit("printf");
    }
    let format_type = ptr_type(i32_type, default_address_space());
    let mut params: Vec<Param<'ctx>> = Vec::new();
    params.push(Param::Pointer(format_type));
    let ghost param_models = params@.map_values(|p: Param<'ctx>| p.model());
    let printf_type = fn_type(i32_type, params, true);
    assert(param_models =~= seq![ParamType::IntPointer(32)]);
    add_function(module, PRINTF_FUNC_NAME, &printf_type)
}

/// What a program that prints needs: a builder that appends nowhere yet, the
/// 32-bit integer type, and the module `main` of `context` with `int main()`
/// and then `int printf(int *, ...)` declared in it.
pub fn printing_module<'ctx>(context: &'ctx Context) -> (parts: (
    CodeBuilder<'ctx>,
    Module<'ctx>,
    IntTy<'ctx>,
    Function<'ctx>,
    Function<'ctx>,
))
    ensures
        parts.0.position() is None,
        module_name(parts.1) == MAIN_FUNC_NAME@,
        symbols(parts.1) == main_and_printf(),
        function_order(parts.1) == seq![MAIN_FUNC_NAME@, PRINTF_FUNC_NAME@],
        parts.2.width() == 32,
        is_function_of(parts.1, parts.3, MAIN_FUNC_NAME@, main_signature()),
        declares_printf(parts.1, parts.4),
{
    proof {
        reveal_strlit("main");
        reveal_strlit("printf");
        assert(MAIN_FUNC_NAME@[1] != PRINTF_FUNC_NAME@[1]);
    }
    let builder = create_builder(context);
    let mut module = create_module(context, MAIN_FUNC_NAME);
    let i32_type = i32_type(context);
    let main_func = declare_main(&mut module, &i32_type);
    let printf_func = declare_printf(&mut module, &i32_type);
    assert(function_order(module) =~= seq![MAIN_FUNC_NAME@, PRINTF_FUNC_NAME@]);
    (builder, module, i32_type, main_func, printf_func)
}

/// Appends `printf(fmt, value)` where the builder stands; `fmt` is the global
/// format string.
pub fn build_printf_call<'ctx>(
    builder: &CodeBuilder<'ctx>,
    module: &mut Module<'ctx>,
    printf_func: &Function<'ctx>,
    fmt: GlobalValue<'ctx>,
    value: Int<'ctx>,
)
    requires
        positioned_in(*builder, *old(module)),
        declares_printf(*old(module), *printf_func),
    ensures
        symbols(*final(module)) == with_instr(
            symbols(*old(module)),
            builder.position()->0,
            printf_call(value.expr()),
        ),
        module_identity(*final(module)) == module_identity(*old(module)),
        module_name(*final(module)) == module_name(*old(module)),
        function_order(*final(module)) == function_order(*old(module)),
{
    proof {
        reveal_strlit("printf");
    }
    let args = [Argument::Pointer(global_as_pointer(fmt)), Argument::Int(value)];
    build_call(builder, module, printf_func, &args, "printf");
    proof {
        let models = args@.map_values(|a: Argument<'ctx>| a.model());
        assert(models =~= seq![Arg::Pointer, Arg::Value(value.expr())]);
    }
}

/// Appends `printf(fmt, value); return 0;` where the builder stands; `fmt` is
/// the global format string.
pub fn build_print_and_return_zero<'ctx>(
    builder: &CodeBuilder<'ctx>,
    module: &mut Module<'ctx>,
    printf_func: &Function<'ctx>,
    i32_type: &IntTy<'ctx>,
    fmt: GlobalValue<'ctx>,
    value: Int<'ctx>,
)
    requires
        positioned_in(*builder, *old(module)),
        declares_printf(*old(module), *printf_func),
        i32_type.width() == 32,
    ensures
        symbols(*final(module)) == with_instr(
            with_instr(symbols(*old(module)), builder.position()->0, printf_call(value.expr())),
            builder.position()->0,
            Instr::Return { value: i32_const(0) },
        ),
        module_identity(*final(module)) == module_identity(*old(module)),
        module_name(*final(module)) == module_name(*old(module)),
        function_order(*final(module)) == function_order(*old(module)),
{
    build_printf_call(builder, module, printf_func, fmt, value);
    build_return(builder, module, const_int(i32_type, 0, false));
}


/// `blocks` with block `k` ending in `printf(format, value); return 0;`.
pub open spec fn with_print_and_return(blocks: Seq<Seq<Instr>>, k: int, value: Expr) -> Seq<Seq<Instr>> {
    blocks.update(k, blocks[k] + seq![printf_call(value), Instr::Return { value: i32_const(0) }])
}

/// Appending `first` and then `second` at `pos` appends both, in that order,
/// to the block at `pos` and changes nothing else.
pub proof fn lemma_append_two(symbols: Map<Seq<char>, SymbolKind>, pos: Position, first: Instr, second: Instr)
    requires
        is_block_of(symbols, pos),
    ensures
        with_instr(with_instr(symbols, pos, first), pos, second) == symbols.insert(
            pos.function,
            SymbolKind::Function {
                sig: symbols[pos.function]->sig,
                blocks: body_of(symbols, pos.function).update(
                    pos.block,
                    body_of(symbols, pos.function)[pos.block] + seq![first, second],
                ),
            },
        ),
{
    let blocks = body_of(symbols, pos.function);
    let once = with_instr(symbols, pos, first);
    assert(body_of(once, pos.function) == blocks.update(pos.block, blocks[pos.block].push(first)));
    assert(blocks[pos.block].push(first).push(second) =~= blocks[pos.block] + seq![first, second]);
    assert(blocks.update(pos.block, blocks[pos.block].push(first)).update(
        pos.block,
        blocks[pos.block].push(first).push(second),
    ) =~= blocks.update(pos.block, blocks[pos.block] + seq![first, second]));
    assert(with_instr(once, pos, second) =~= symbols.insert(
        pos.function,
        SymbolKind::Function {
            sig: symbols[pos.function]->sig,
            blocks: blocks.update(pos.block, blocks[pos.block] + seq![first, second]),
        },
    ));
}

} // verus!
