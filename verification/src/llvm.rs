//! The LLVM objects that the code generators work with, and the calls into
//! `inkwell` that create and extend them.
//!
//! A module is seen as the collection of its module-level values
//! ([`symbols`]), the order in which it lists its functions
//! ([`function_order`]), its name ([`module_name`]) and which module it is
//! ([`module_identity`]). Each name stands for a function, with its signature
//! and its blocks of instructions ([`Instr`]), for an integer global variable,
//! with its width and initial value, or for something the model does not
//! cover. Integer values are seen as expressions ([`Expr`]) over constants,
//! parameters and the results of instructions; arithmetic and comparisons
//! appear only there, since LLVM may fold them into constants. The calls that
//! add or change values say how the model changes, and the calls that look
//! names up say what they find.
//!
//! Types, functions, globals, values, slots, blocks and the builder are held
//! in types of this library ([`IntTy`], [`IntStructTy`], [`FnTy`],
//! [`Function`], [`Global`], [`Int`], [`IntSlot`], [`StructSlot`], [`Block`],
//! [`CodeBuilder`], [`Phi`], [`IntCall`]). Their fields are private to this
//! file and only the calls below make them, so each keeps what it was made
//! with: the module a function, global, block or instruction belongs to, where
//! a builder appends, and what a value computes. The calls that take two of
//! them require that they belong together; this is what rules out the inputs
//! on which `inkwell` would panic or act on another module than the one named.
//!
//! The model covers what this library does to a module. A module or builder
//! changed behind its back, through other `inkwell` calls on the module or on
//! the handles that [`Function::handle`] and the like hand out (such as a
//! global string added with another builder), no longer matches what a
//! contract last said of it. The builder of a [`CodeBuilder`] is never handed
//! out, so where it appends is always what [`CodeBuilder::position`] says.
//! The names given to values and blocks are not modelled.
use inkwell::basic_block::BasicBlock;
use inkwell::builder::Builder;
use inkwell::context::Context;
use inkwell::module::Module;
use inkwell::types::{BasicMetadataTypeEnum, BasicTypeEnum, FunctionType, IntType, PointerType, StructType};
use inkwell::values::{
    BasicMetadataValueEnum, BasicValueEnum, CallSiteValue, FunctionValue, GlobalValue, IntValue, PhiValue,
    PointerValue,
};
use inkwell::{AddressSpace, IntPredicate};
use vstd::prelude::*;

verus! {

#[verifier::external_type_specification]
#[verifier::external_body]
pub struct ExContext(Context);

#[verifier::external_type_specification]
#[verifier::external_body]
pub struct ExBuilder<'ctx>(Builder<'ctx>);

#[verifier::external_type_specification]
#[verifier::external_body]
pub struct ExModule<'ctx>(Module<'ctx>);

#[verifier::external_type_specification]
#[verifier::external_body]
pub struct ExIntType<'ctx>(IntType<'ctx>);

#[verifier::external_type_specification]
#[verifier::external_body]
pub struct ExStructType<'ctx>(StructType<'ctx>);

#[verifier::external_type_specification]
#[verifier::external_body]
pub struct ExPointerType<'ctx>(PointerType<'ctx>);

#[verifier::external_type_specification]
#[verifier::external_body]
pub struct ExFunctionType<'ctx>(FunctionType<'ctx>);

#[verifier::external_type_specification]
#[verifier::external_body]
pub struct ExBasicTypeEnum<'ctx>(BasicTypeEnum<'ctx>);

#[verifier::external_type_specification]
#[verifier::external_body]
pub struct ExBasicMetadataTypeEnum<'ctx>(BasicMetadataTypeEnum<'ctx>);

#[verifier::external_type_specification]
#[verifier::external_body]
pub struct ExAddressSpace(AddressSpace);

#[verifier::external_type_specification]
#[verifier::external_body]
pub struct ExFunctionValue<'ctx>(FunctionValue<'ctx>);

#[verifier::external_type_specification]
#[verifier::external_body]
pub struct ExBasicBlock<'ctx>(BasicBlock<'ctx>);

#[verifier::external_type_specification]
#[verifier::external_body]
pub struct ExPointerValue<'ctx>(PointerValue<'ctx>);

#[verifier::external_type_specification]
#[verifier::external_body]
pub struct ExIntValue<'ctx>(IntValue<'ctx>);

#[verifier::external_type_specification]
#[verifier::external_body]
pub struct ExGlobalValue<'ctx>(GlobalValue<'ctx>);

#[verifier::external_type_specification]
#[verifier::external_body]
pub struct ExPhiValue<'ctx>(PhiValue<'ctx>);

#[verifier::external_type_specification]
#[verifier::external_body]
pub struct ExBasicValueEnum<'ctx>(BasicValueEnum<'ctx>);

#[verifier::external_type_specification]
#[verifier::external_body]
pub struct ExBasicMetadataValueEnum<'ctx>(BasicMetadataValueEnum<'ctx>);

#[verifier::external_type_specification]
#[verifier::external_body]
pub struct ExCallSiteValue<'ctx>(CallSiteValue<'ctx>);


/// The integer comparisons that `icmp` offers.
#[derive(Debug, Clone, Copy, PartialEq, Eq, Structural)]
pub enum IntComparison {
    Equal,
    NotEqual,
    UnsignedGreater,
    UnsignedGreaterOrEqual,
    UnsignedLess,
    UnsignedLessOrEqual,
    SignedGreater,
    SignedGreaterOrEqual,
    SignedLess,
    SignedLessOrEqual,
}

// ---------------------------------------------------------------------------
// The model of a module.

/// The type of a function parameter: an integer of the given width, or a
/// pointer to one.
pub enum ParamType {
    Int(u32),
    IntPointer(u32),
}

/// A function signature: it returns an integer of width `ret_width` and takes
/// parameters of the types `params`, and more where `var_args` holds.
pub struct Signature {
    pub ret_width: u32,
    pub params: Seq<ParamType>,
    pub var_args: bool,
}

/// An instruction of a function: number `pos` of its block number `block`.
pub struct InstrRef {
    pub block: int,
    pub pos: int,
}

/// An integer value, as an expression over what its function computes.
pub enum Expr {
    /// The constant `number` of width `width`.
    Const { width: u32, number: u64 },
    /// Parameter number `n` of the function.
    Param(int),
    /// The value that an instruction (a load, a phi node or a call) produces.
    Result(InstrRef),
    Add(Box<Expr>, Box<Expr>),
    Sub(Box<Expr>, Box<Expr>),
    Compare(IntComparison, Box<Expr>, Box<Expr>),
}

/// An argument of a call: an integer, or a pointer that the model does not follow.
pub enum Arg {
    Value(Expr),
    Pointer,
}

/// An instruction that a function's body holds. Integer arithmetic and
/// comparisons appear only inside the [`Expr`]s of the instructions that use
/// them, since LLVM may fold them into constants.
pub enum Instr {
    /// A stack slot for an integer of width `width`.
    Alloca { width: u32 },
    /// A stack slot for a struct of `fields` integer fields.
    StructAlloca { fields: nat },
    /// The address of field `index` of the struct at the slot made by `base`.
    FieldAddress { base: InstrRef, index: u32 },
    /// Stores `value` at the slot made by `slot`.
    Store { slot: InstrRef, value: Expr },
    /// Loads the integer at the slot made by `slot`.
    Load { slot: InstrRef },
    /// A phi node: its value is the first of a pair when control comes from
    /// the block numbered by the second.
    Phi { incoming: Seq<(Expr, int)> },
    /// Calls the function named `callee`.
    Call { callee: Seq<char>, args: Seq<Arg> },
    /// Jumps to block number `target`.
    Branch { target: int },
    /// Jumps to block `then_block` if `cond` holds, else to `else_block`.
    CondBranch { cond: Expr, then_block: int, else_block: int },
    /// Returns `value`.
    Return { value: Expr },
}

/// What a module-level name stands for. Functions and global variables share
/// one namespace in a module.
pub enum SymbolKind {
    /// A function with external linkage, this signature and these blocks
    /// (none for a function that is only declared), in order.
    Function { sig: Signature, blocks: Seq<Seq<Instr>> },
    /// A global variable with external linkage holding an integer of width
    /// `width`, with the constant `init` (as given to `const_int`) as its
    /// initial value if it has one.
    GlobalVariable { width: u32, init: Option<u64> },
    /// Any other module-level value, such as an alias, a global of another
    /// type or linkage, or a function whose signature [`Signature`] cannot express.
    Other,
}

/// The module-level values that `module` holds, by name.
pub uninterp spec fn symbols(module: Module) -> Map<Seq<char>, SymbolKind>;

/// The names of the functions of `module`, in the order the module lists them.
pub uninterp spec fn function_order(module: Module) -> Seq<Seq<char>>;

/// The name that `module` was created with.
pub uninterp spec fn module_name(module: Module) -> Seq<char>;

/// Which module `module` is: the same for a module all its life, and told
/// apart from other modules.
pub uninterp spec fn module_identity(module: Module) -> int;

/// A name that LLVM keeps as given: not empty (an empty name leaves the value
/// unnamed) and free of NUL characters (a name is cut at its first NUL).
pub open spec fn is_symbol_name(name: Seq<char>) -> bool {
    name.len() > 0 && !name.contains('\0')
}

/// Whether `name` is a function in `symbols`.
pub open spec fn is_function(symbols: Map<Seq<char>, SymbolKind>, name: Seq<char>) -> bool {
    symbols.contains_key(name) && symbols[name] is Function
}

/// Whether `name` is a global variable in `symbols`.
pub open spec fn is_global(symbols: Map<Seq<char>, SymbolKind>, name: Seq<char>) -> bool {
    symbols.contains_key(name) && symbols[name] is GlobalVariable
}

/// The blocks of the function `name` in `symbols`.
pub open spec fn body_of(symbols: Map<Seq<char>, SymbolKind>, name: Seq<char>) -> Seq<Seq<Instr>> {
    symbols[name]->blocks
}

/// Where a builder appends: to block number `block` of the function `function`
/// of the module `module`.
pub struct Position {
    pub module: int,
    pub function: Seq<char>,
    pub block: int,
}

/// Whether `pos` is a block of a function of `symbols`.
pub open spec fn is_block_of(symbols: Map<Seq<char>, SymbolKind>, pos: Position) -> bool {
    is_function(symbols, pos.function) && 0 <= pos.block < body_of(symbols, pos.function).len()
}

/// `symbols` with `instr` appended to the block at `pos`.
pub open spec fn with_instr(symbols: Map<Seq<char>, SymbolKind>, pos: Position, instr: Instr) -> Map<
    Seq<char>,
    SymbolKind,
> {
    let blocks = body_of(symbols, pos.function);
    symbols.insert(
        pos.function,
        SymbolKind::Function {
            sig: symbols[pos.function]->sig,
            blocks: blocks.update(pos.block, blocks[pos.block].push(instr)),
        },
    )
}

/// The instruction that appending at `pos` in `symbols` makes.
pub open spec fn next_instr(symbols: Map<Seq<char>, SymbolKind>, pos: Position) -> InstrRef {
    InstrRef { block: pos.block, pos: body_of(symbols, pos.function)[pos.block].len() as int }
}

// ---------------------------------------------------------------------------
// This library's handles.

/// An integer type and its width.
#[derive(Debug, Clone, Copy)]
pub struct IntTy<'ctx> {
    handle: IntType<'ctx>,
    width: u32,
}

impl<'ctx> IntTy<'ctx> {
    /// The width of the type, in bits.
    pub closed spec fn width(&self) -> u32 {
        self.width
    }

    /// The `inkwell` type.
    pub fn handle(&self) -> IntType<'ctx> {
        self.handle
    }
}

/// A pointer type to an integer of width `pointee_width`.
#[derive(Debug, Clone, Copy)]
pub struct PtrTy<'ctx> {
    handle: PointerType<'ctx>,
    pointee_width: u32,
}

impl<'ctx> PtrTy<'ctx> {
    /// The width of the integer pointed to.
    pub closed spec fn pointee_width(&self) -> u32 {
        self.pointee_width
    }
}

/// A parameter type, as this library declares functions with.
#[derive(Debug, Clone, Copy)]
pub enum Param<'ctx> {
    Int(IntTy<'ctx>),
    Pointer(PtrTy<'ctx>),
}

impl<'ctx> Param<'ctx> {
    /// What the parameter type is.
    pub open spec fn model(&self) -> ParamType {
        match self {
            Param::Int(t) => ParamType::Int(t.width()),
            Param::Pointer(t) => ParamType::IntPointer(t.pointee_width()),
        }
    }
}

/// A struct type whose fields are all integers.
pub struct IntStructTy<'ctx> {
    handle: StructType<'ctx>,
    fields: Vec<IntTy<'ctx>>,
    packed: bool,
    literal: bool,
}

impl<'ctx> IntStructTy<'ctx> {
    /// The widths of the fields, in order.
    pub closed spec fn field_widths(&self) -> Seq<u32> {
        self.fields@.map_values(|f: IntTy<'ctx>| f.width())
    }

    /// Whether the struct is packed.
    pub closed spec fn is_packed(&self) -> bool {
        self.packed
    }

    /// Whether the struct is a literal (unnamed) struct type.
    pub closed spec fn is_literal(&self) -> bool {
        self.literal
    }

    /// The `inkwell` type.
    pub fn handle(&self) -> StructType<'ctx> {
        self.handle
    }
}

/// A function type returning an integer.
pub struct FnTy<'ctx> {
    handle: FunctionType<'ctx>,
    ret: IntTy<'ctx>,
    params: Vec<Param<'ctx>>,
    var_args: bool,
}

impl<'ctx> FnTy<'ctx> {
    /// The signature this type stands for.
    pub closed spec fn signature(&self) -> Signature {
        Signature {
            ret_width: self.ret.width(),
            params: self.params@.map_values(|p: Param<'ctx>| p.model()),
            var_args: self.var_args,
        }
    }
}

/// A function of a module: the function that its name stands for there.
pub struct Function<'ctx> {
    value: FunctionValue<'ctx>,
    name: String,
    module: Ghost<int>,
}

impl<'ctx> Function<'ctx> {
    /// The function's name in its module.
    pub closed spec fn name(&self) -> Seq<char> {
        self.name@
    }

    /// The module the function belongs to.
    pub closed spec fn module(&self) -> int {
        self.module@
    }

    /// The `inkwell` function.
    pub fn handle(&self) -> FunctionValue<'ctx> {
        self.value
    }
}

/// A global variable of a module: the one that its name stands for there.
pub struct Global<'ctx> {
    value: GlobalValue<'ctx>,
    name: String,
    module: Ghost<int>,
}

impl<'ctx> Global<'ctx> {
    /// The variable's name in its module.
    pub closed spec fn name(&self) -> Seq<char> {
        self.name@
    }

    /// The module the variable belongs to.
    pub closed spec fn module(&self) -> int {
        self.module@
    }
}

/// An integer value and what it computes.
#[derive(Clone, Copy)]
pub struct Int<'ctx> {
    handle: IntValue<'ctx>,
    expr: Ghost<Expr>,
}

impl<'ctx> Int<'ctx> {
    /// What the value computes.
    pub closed spec fn expr(&self) -> Expr {
        self.expr@
    }

    /// The `inkwell` value.
    pub fn value(&self) -> IntValue<'ctx> {
        self.handle
    }
}

/// Where an instruction stands: in which function of which module, and where there.
pub struct Place {
    pub module: int,
    pub function: Seq<char>,
    pub instr: InstrRef,
}

/// A pointer to an integer: a stack slot for one, or a field of a struct of
/// integers, together with the instruction that made it.
#[derive(Clone, Copy)]
pub struct IntSlot<'ctx> {
    ptr: PointerValue<'ctx>,
    place: Ghost<Place>,
}

impl<'ctx> IntSlot<'ctx> {
    /// The instruction that made the slot.
    pub closed spec fn place(&self) -> Place {
        self.place@
    }

    /// A new stack slot for an integer of type `ty`, appended by `builder` to `module`.
    pub fn alloca(builder: &CodeBuilder<'ctx>, module: &mut Module<'ctx>, ty: &IntTy<'ctx>, name: &str) -> (slot:
        IntSlot<'ctx>)
        requires
            positioned_in(*builder, *old(module)),
        ensures
            symbols(*final(module)) == with_instr(
                symbols(*old(module)),
                builder.position()->0,
                Instr::Alloca { width: ty.width() },
            ),
            slot.place() == builder.made_next(symbols(*old(module))),
    {
        build_int_alloca(builder, module, ty, name)
    }

    /// The address.
    pub fn pointer(&self) -> PointerValue<'ctx> {
        self.ptr
    }
}

/// A pointer to a struct of integers, together with the instruction that made it.
pub struct StructSlot<'ctx> {
    ptr: PointerValue<'ctx>,
    field_count: usize,
    place: Ghost<Place>,
}

impl<'ctx> StructSlot<'ctx> {
    /// How many fields the struct pointed to has.
    pub closed spec fn field_count(&self) -> nat {
        self.field_count as nat
    }

    /// The instruction that made the slot.
    pub closed spec fn place(&self) -> Place {
        self.place@
    }
}

/// A basic block, with where it stands.
#[derive(Clone, Copy)]
pub struct Block<'ctx> {
    handle: BasicBlock<'ctx>,
    position: Ghost<Position>,
}

impl<'ctx> Block<'ctx> {
    /// The block's function and number there.
    pub closed spec fn position(&self) -> Position {
        self.position@
    }
}

/// An instruction builder, with where it appends, if anywhere.
pub struct CodeBuilder<'ctx> {
    handle: Builder<'ctx>,
    position: Ghost<Option<Position>>,
}

impl<'ctx> CodeBuilder<'ctx> {
    /// Where the builder appends.
    pub closed spec fn position(&self) -> Option<Position> {
        self.position@
    }

    /// The place of the instruction that appending next to `symbols` makes.
    pub open spec fn made_next(&self, symbols: Map<Seq<char>, SymbolKind>) -> Place {
        let p = self.position()->0;
        Place { module: p.module, function: p.function, instr: next_instr(symbols, p) }
    }

    /// Whether the builder appends anywhere.
    pub fn is_positioned(&self) -> (positioned: bool)
        ensures
            positioned == self.position() is Some,
    {
        get_insert_block(self).is_some()
    }
}

/// Whether `builder` appends to a block of a function of `module`.
pub open spec fn positioned_in<'ctx>(builder: CodeBuilder<'ctx>, module: Module<'ctx>) -> bool {
    &&& builder.position() is Some
    &&& builder.position()->0.module == module_identity(module)
    &&& is_block_of(symbols(module), builder.position()->0)
}

/// Whether the instruction at `place` belongs to the function `builder` appends to.
pub open spec fn same_function<'ctx>(builder: CodeBuilder<'ctx>, place: Place) -> bool {
    place.module == builder.position()->0.module && place.function == builder.position()->0.function
}

/// A phi node, together with its instruction.
pub struct Phi<'ctx> {
    handle: PhiValue<'ctx>,
    place: Ghost<Place>,
}

impl<'ctx> Phi<'ctx> {
    /// The phi node's instruction.
    pub closed spec fn place(&self) -> Place {
        self.place@
    }
}

/// An argument of a call.
#[derive(Clone, Copy)]
pub enum Argument<'ctx> {
    Int(Int<'ctx>),
    Pointer(PointerValue<'ctx>),
}

impl<'ctx> Argument<'ctx> {
    /// What the argument is.
    pub open spec fn model(&self) -> Arg {
        match self {
            Argument::Int(v) => Arg::Value(v.expr()),
            Argument::Pointer(_) => Arg::Pointer,
        }
    }
}

/// A call of a [`Function`], which returns an integer, together with its instruction.
pub struct IntCall<'ctx> {
    site: CallSiteValue<'ctx>,
    place: Ghost<Place>,
}

impl<'ctx> IntCall<'ctx> {
    /// The call's instruction.
    pub closed spec fn place(&self) -> Place {
        self.place@
    }
}

/// `symbols` with the incoming pairs of the phi node at `place` extended by `pairs`.
pub open spec fn with_incoming(
    symbols: Map<Seq<char>, SymbolKind>,
    place: Place,
    pairs: Seq<(Expr, int)>,
) -> Map<Seq<char>, SymbolKind> {
    let blocks = body_of(symbols, place.function);
    let block = blocks[place.instr.block];
    let old_pairs = block[place.instr.pos]->incoming;
    symbols.insert(
        place.function,
        SymbolKind::Function {
            sig: symbols[place.function]->sig,
            blocks: blocks.update(
                place.instr.block,
                block.update(place.instr.pos, Instr::Phi { incoming: old_pairs + pairs }),
            ),
        },
    )
}

/// Whether `place` is a phi node of `symbols`, in the module `identity`.
pub open spec fn is_phi_at(symbols: Map<Seq<char>, SymbolKind>, identity: int, place: Place) -> bool {
    &&& place.module == identity
    &&& is_function(symbols, place.function)
    &&& 0 <= place.instr.block < body_of(symbols, place.function).len()
    &&& 0 <= place.instr.pos < body_of(symbols, place.function)[place.instr.block].len()
    &&& body_of(symbols, place.function)[place.instr.block][place.instr.pos] is Phi
}

/// The `(value, block number)` pairs of `incoming`.
pub open spec fn incoming_model<'ctx>(incoming: Seq<(Int<'ctx>, Block<'ctx>)>) -> Seq<(Expr, int)> {
    incoming.map_values(|pair: (Int<'ctx>, Block<'ctx>)| (pair.0.expr(), pair.1.position().block))
}

/// What the module-changing calls keep: its identity, name and function order.
pub open spec fn keeps_module<'ctx>(before: Module<'ctx>, after: Module<'ctx>) -> bool {
    &&& module_identity(after) == module_identity(before)
    &&& module_name(after) == module_name(before)
    &&& function_order(after) == function_order(before)
}

// ---------------------------------------------------------------------------
// The calls.

/// `Context::create_builder`: a fresh instruction builder of `context`, which
/// appends nowhere yet.
#[verifier::external_body]
pub(crate) fn create_builder<'ctx>(context: &'ctx Context) -> (builder: CodeBuilder<'ctx>)
    ensures
        builder.position() is None,
{
    CodeBuilder { handle: context.create_builder(), position: Ghost(None) }
}

/// `Context::create_module`: a fresh module of `context` named `name`, which
/// holds no module-level values yet.
#[verifier::external_body]
pub(crate) fn create_module<'ctx>(context: &'ctx Context, name: &str) -> (created: Module<'ctx>)
    requires
        !name@.contains('\0'),
    ensures
        symbols(created).dom().is_empty(),
        function_order(created).len() == 0,
        module_name(created) == name@,
{
    context.create_module(name)
}

/// `Context::i32_type`: the 32-bit integer type of `context`.
#[verifier::external_body]
pub(crate) fn i32_type<'ctx>(context: &'ctx Context) -> (ty: IntTy<'ctx>)
    ensures
        ty.width() == 32,
{
    IntTy { handle: context.i32_type(), width: 32 }
}

/// `IntType::ptr_type`: the type of pointers to `pointee`.
#[verifier::external_body]
pub(crate) fn ptr_type<'ctx>(pointee: &IntTy<'ctx>, address_space: AddressSpace) -> (ty: PtrTy<'ctx>)
    ensures
        ty.pointee_width() == pointee.width(),
{
    PtrTy { handle: pointee.handle.ptr_type(address_space), pointee_width: pointee.width }
}

/// `AddressSpace::default`: the default address space.
#[verifier::external_body]
pub(crate) fn default_address_space() -> AddressSpace {
    AddressSpace::default()
}

/// `Context::struct_type`: the literal (unnamed) struct type with integer fields `fields`.
#[verifier::external_body]
pub(crate) fn struct_type<'ctx>(context: &'ctx Context, fields: Vec<IntTy<'ctx>>, packed: bool) -> (ty: IntStructTy<'ctx>)
    ensures
        ty.field_widths() == fields@.map_values(|f: IntTy<'ctx>| f.width()),
        ty.is_packed() == packed,
        ty.is_literal(),
{
    let field_types: Vec<BasicTypeEnum<'ctx>> = fields.iter().map(|f| f.handle.into()).collect();
    IntStructTy { handle: context.struct_type(&field_types, packed), fields, packed, literal: true }
}

/// `IntType::fn_type`: the type of functions returning `ret` with parameters `params`.
#[verifier::external_body]
pub(crate) fn fn_type<'ctx>(ret: &IntTy<'ctx>, params: Vec<Param<'ctx>>, var_args: bool) -> (ty: FnTy<'ctx>)
    ensures
        ty.signature() == (Signature {
            ret_width: ret.width(),
            params: params@.map_values(|p: Param<'ctx>| p.model()),
            var_args,
        }),
{
    let param_types: Vec<BasicMetadataTypeEnum<'ctx>> = params
        .iter()
        .map(|p| match p {
            Param::Int(t) => t.handle.into(),
            Param::Pointer(t) => t.handle.into(),
        })
        .collect();
    FnTy { handle: ret.handle.fn_type(&param_types, var_args), ret: *ret, params, var_args }
}

/// `IntType::const_int`: the constant `number` of type `ty`.
#[verifier::external_body]
pub(crate) fn const_int<'ctx>(ty: &IntTy<'ctx>, number: u64, sign_extend: bool) -> (c: Int<'ctx>)
    ensures
        c.expr() == (Expr::Const { width: ty.width(), number }),
{
    Int { handle: ty.handle.const_int(number, sign_extend), expr: Ghost(Expr::Const { width: ty.width, number }) }
}

/// `Module::add_function`: declares a function named `name` of type `ty` in
/// `module`, where no module-level value has that name yet. The module then
/// holds what it held and, last in its list of functions, the function under
/// `name`, with external linkage, the signature of `ty` and no blocks.
#[verifier::external_body]
pub(crate) fn add_function<'ctx>(module: &mut Module<'ctx>, name: &str, ty: &FnTy<'ctx>) -> (function: Function<'ctx>)
    requires
        is_symbol_name(name@),
        !symbols(*old(module)).contains_key(name@),
    ensures
        symbols(*final(module)) == symbols(*old(module)).insert(
            name@,
            SymbolKind::Function { sig: ty.signature(), blocks: Seq::empty() },
        ),
        function_order(*final(module)) == function_order(*old(module)).push(name@),
        module_identity(*final(module)) == module_identity(*old(module)),
        module_name(*final(module)) == module_name(*old(module)),
        function.name() == name@,
        function.module() == module_identity(*old(module)),
{
    let identity = Ghost(module_identity(*module));
    Function { value: module.add_function(name, ty.handle, None), name: name.to_string(), module: identity }
}

/// `Module::get_function`: the function named `name` in `module`, if there is
/// one. The name must not stand for a value the model does not cover.
#[verifier::external_body]
pub(crate) fn get_function<'ctx>(module: &Module<'ctx>, name: &str) -> (found: Option<Function<'ctx>>)
    requires
        is_symbol_name(name@),
        symbols(*module).contains_key(name@) ==> !(symbols(*module)[name@] is Other),
    ensures
        found is Some <==> is_function(symbols(*module), name@),
        found matches Some(f) ==> f.name() == name@ && f.module() == module_identity(*module),
{
    let identity = Ghost(module_identity(*module));
    module.get_function(name).map(|value| Function { value, name: name.to_string(), module: identity })
}

/// `Module::add_global`: a new global variable of type `ty` named `name` in
/// `module`, where no module-level value has that name yet. The module then
/// holds what it held and, under `name`, the variable, with external linkage
/// and no initial value.
#[verifier::external_body]
pub(crate) fn add_global<'ctx>(module: &mut Module<'ctx>, ty: &IntTy<'ctx>, name: &str) -> (global: Global<'ctx>)
    requires
        is_symbol_name(name@),
        !symbols(*old(module)).contains_key(name@),
    ensures
        symbols(*final(module)) == symbols(*old(module)).insert(
            name@,
            SymbolKind::GlobalVariable { width: ty.width(), init: None },
        ),
        keeps_module(*old(module), *final(module)),
        global.name() == name@,
        global.module() == module_identity(*old(module)),
{
    let identity = Ghost(module_identity(*module));
    Global { value: module.add_global(ty.handle, None, name), name: name.to_string(), module: identity }
}

/// `Module::get_global`: the global variable named `name` in `module`, if there
/// is one. The name must not stand for a value the model does not cover.
#[verifier::external_body]
pub(crate) fn get_global<'ctx>(module: &Module<'ctx>, name: &str) -> (found: Option<Global<'ctx>>)
    requires
        is_symbol_name(name@),
        symbols(*module).contains_key(name@) ==> !(symbols(*module)[name@] is Other),
    ensures
        found is Some <==> is_global(symbols(*module), name@),
        found matches Some(g) ==> g.name() == name@ && g.module() == module_identity(*module),
{
    let identity = Ghost(module_identity(*module));
    module.get_global(name).map(|value| Global { value, name: name.to_string(), module: identity })
}

/// `GlobalValue::set_initializer`: gives `global`, a variable of `module`, the
/// constant `value` of its own width as initial value.
#[verifier::external_body]
pub(crate) fn set_initializer<'ctx>(module: &mut Module<'ctx>, global: &Global<'ctx>, value: Int<'ctx>)
    requires
        global.module() == module_identity(*old(module)),
        is_global(symbols(*old(module)), global.name()),
        value.expr() is Const,
        value.expr()->width == symbols(*old(module))[global.name()]->width,
    ensures
        symbols(*final(module)) == symbols(*old(module)).insert(
            global.name(),
            SymbolKind::GlobalVariable { width: value.expr()->width, init: Some(value.expr()->number) },
        ),
        keeps_module(*old(module), *final(module)),
{
    global.value.set_initializer(&value.handle)
}

/// `GlobalValue::get_initializer`: the initial value of `global`, a variable of
/// `module`, if it has one: the constant it was given.
#[verifier::external_body]
pub(crate) fn get_initializer<'ctx>(module: &Module<'ctx>, global: &Global<'ctx>) -> (init: Option<Int<'ctx>>)
    requires
        global.module() == module_identity(*module),
        is_global(symbols(*module), global.name()),
    ensures
        init is Some <==> symbols(*module)[global.name()]->init is Some,
        init matches Some(v) ==> v.expr() == (Expr::Const {
            width: symbols(*module)[global.name()]->width,
            number: symbols(*module)[global.name()]->init->0,
        }),
{
    let expr = Ghost(Expr::Const {
        width: symbols(*module)[global.name()]->width,
        number: symbols(*module)[global.name()]->init->0,
    });
    global.value.get_initializer().map(|value| Int { handle: value.into_int_value(), expr })
}

/// `GlobalValue::as_pointer_value`: the address of `global`.
#[verifier::external_body]
pub(crate) fn global_as_pointer<'ctx>(global: GlobalValue<'ctx>) -> PointerValue<'ctx> {
    global.as_pointer_value()
}

/// `Context::append_basic_block`: a new, empty basic block named `name` at the
/// end of `function`, a function of `module`.
#[verifier::external_body]
pub(crate) fn append_basic_block<'ctx>(
    context: &'ctx Context,
    module: &mut Module<'ctx>,
    function: &Function<'ctx>,
    name: &str,
) -> (block: Block<'ctx>)
    requires
        function.module() == module_identity(*old(module)),
        is_function(symbols(*old(module)), function.name()),
    ensures
        symbols(*final(module)) == symbols(*old(module)).insert(
            function.name(),
            SymbolKind::Function {
                sig: symbols(*old(module))[function.name()]->sig,
                blocks: body_of(symbols(*old(module)), function.name()).push(Seq::empty()),
            },
        ),
        keeps_module(*old(module), *final(module)),
        block.position() == (Position {
            module: module_identity(*old(module)),
            function: function.name(),
            block: body_of(symbols(*old(module)), function.name()).len() as int,
        }),
{
    let position = Ghost(Position {
        module: module_identity(*module),
        function: function.name(),
        block: body_of(symbols(*module), function.name()).len() as int,
    });
    Block { handle: context.append_basic_block(function.value, name), position }
}

/// `FunctionValue::get_nth_param`: parameter number `nth` of `function`, a
/// function of `module`, which it has exactly when its signature has that
/// many parameters. The parameter must be an integer.
#[verifier::external_body]
pub(crate) fn get_nth_param<'ctx>(module: &Module<'ctx>, function: &Function<'ctx>, nth: u32) -> (param: Option<
    Int<'ctx>,
>)
    requires
        function.module() == module_identity(*module),
        is_function(symbols(*module), function.name()),
        nth < u32::MAX,
        nth < symbols(*module)[function.name()]->sig.params.len() ==> symbols(
            *module,
        )[function.name()]->sig.params[nth as int] is Int,
    ensures
        param is Some <==> nth < symbols(*module)[function.name()]->sig.params.len(),
        param matches Some(v) ==> v.expr() == Expr::Param(nth as int),
{
    let expr = Ghost(Expr::Param(nth as int));
    function.value.get_nth_param(nth).map(|value| Int { handle: value.into_int_value(), expr })
}

/// `Builder::position_at_end`: makes `builder` append to the end of `block`.
#[verifier::external_body]
pub(crate) fn position_at_end<'ctx>(builder: &mut CodeBuilder<'ctx>, block: &Block<'ctx>)
    ensures
        final(builder).position() == Some(block.position()),
{
    builder.handle.position_at_end(block.handle);
    builder.position = Ghost(Some(block.position@));
}

/// `Builder::get_insert_block`: the block `builder` appends to, if any.
#[verifier::external_body]
pub(crate) fn get_insert_block<'ctx>(builder: &CodeBuilder<'ctx>) -> (block: Option<Block<'ctx>>)
    ensures
        block is Some <==> builder.position() is Some,
        block matches Some(b) ==> b.position() == builder.position()->0,
{
    let position = Ghost(builder.position@->0);
    builder.handle.get_insert_block().map(|handle| Block { handle, position })
}

/// `Builder::build_alloca`: appends a stack slot for an integer of type `ty`.
#[verifier::external_body]
pub(crate) fn build_int_alloca<'ctx>(
    builder: &CodeBuilder<'ctx>,
    module: &mut Module<'ctx>,
    ty: &IntTy<'ctx>,
    name: &str,
) -> (slot: IntSlot<'ctx>)
    requires
        positioned_in(*builder, *old(module)),
    ensures
        symbols(*final(module)) == with_instr(
            symbols(*old(module)),
            builder.position()->0,
            Instr::Alloca { width: ty.width() },
        ),
        keeps_module(*old(module), *final(module)),
        slot.place() == builder.made_next(symbols(*old(module))),
{
    let place = Ghost(builder.made_next(symbols(*module)));
    IntSlot { ptr: builder.handle.build_alloca(ty.handle, name), place }
}

/// `Builder::build_alloca`: appends a stack slot for a struct of type `ty`.
#[verifier::external_body]
pub(crate) fn build_struct_alloca<'ctx>(
    builder: &CodeBuilder<'ctx>,
    module: &mut Module<'ctx>,
    ty: &IntStructTy<'ctx>,
    name: &str,
) -> (slot: StructSlot<'ctx>)
    requires
        positioned_in(*builder, *old(module)),
    ensures
        symbols(*final(module)) == with_instr(
            symbols(*old(module)),
            builder.position()->0,
            Instr::StructAlloca { fields: ty.field_widths().len() },
        ),
        keeps_module(*old(module), *final(module)),
        slot.place() == builder.made_next(symbols(*old(module))),
        slot.field_count() == ty.field_widths().len(),
{
    let place = Ghost(builder.made_next(symbols(*module)));
    StructSlot { ptr: builder.handle.build_alloca(ty.handle, name), field_count: ty.fields.len(), place }
}

/// `Builder::build_struct_gep`: appends the address of field `index` of the
/// struct in `slot`, where the struct has such a field; otherwise appends nothing.
#[verifier::external_body]
pub(crate) fn build_struct_gep<'ctx>(
    builder: &CodeBuilder<'ctx>,
    module: &mut Module<'ctx>,
    slot: &StructSlot<'ctx>,
    index: u32,
    name: &str,
) -> (field: Option<IntSlot<'ctx>>)
    requires
        positioned_in(*builder, *old(module)),
        same_function(*builder, slot.place()),
    ensures
        field is Some <==> index < slot.field_count(),
        field is Some ==> symbols(*final(module)) == with_instr(
            symbols(*old(module)),
            builder.position()->0,
            Instr::FieldAddress { base: slot.place().instr, index },
        ),
        field is None ==> symbols(*final(module)) == symbols(*old(module)),
        keeps_module(*old(module), *final(module)),
        field matches Some(f) ==> f.place() == builder.made_next(symbols(*old(module))),
{
    let place = Ghost(builder.made_next(symbols(*module)));
    builder.handle.build_struct_gep(slot.ptr, index, name).ok().map(|ptr| IntSlot { ptr, place })
}

/// `Builder::build_store`: appends a store of `value` in `slot`.
#[verifier::external_body]
pub(crate) fn build_store<'ctx>(builder: &CodeBuilder<'ctx>, module: &mut Module<'ctx>, slot: &IntSlot<'ctx>, value: Int<'ctx>)
    requires
        positioned_in(*builder, *old(module)),
        same_function(*builder, slot.place()),
    ensures
        symbols(*final(module)) == with_instr(
            symbols(*old(module)),
            builder.position()->0,
            Instr::Store { slot: slot.place().instr, value: value.expr() },
        ),
        keeps_module(*old(module), *final(module)),
{
    builder.handle.build_store(slot.ptr, value.handle);
}

/// `Builder::build_load`: appends a load of the integer in `slot`.
#[verifier::external_body]
pub(crate) fn build_load<'ctx>(
    builder: &CodeBuilder<'ctx>,
    module: &mut Module<'ctx>,
    slot: &IntSlot<'ctx>,
    name: &str,
) -> (loaded: Int<'ctx>)
    requires
        positioned_in(*builder, *old(module)),
        same_function(*builder, slot.place()),
    ensures
        symbols(*final(module)) == with_instr(
            symbols(*old(module)),
            builder.position()->0,
            Instr::Load { slot: slot.place().instr },
        ),
        keeps_module(*old(module), *final(module)),
        loaded.expr() == Expr::Result(builder.made_next(symbols(*old(module))).instr),
{
    let expr = Ghost(Expr::Result(builder.made_next(symbols(*module)).instr));
    Int { handle: builder.handle.build_load(slot.ptr, name).into_int_value(), expr }
}

/// `Builder::build_int_add`: the sum `lhs + rhs`.
#[verifier::external_body]
pub(crate) fn build_int_add<'ctx>(builder: &CodeBuilder<'ctx>, lhs: Int<'ctx>, rhs: Int<'ctx>, name: &str) -> (sum: Int<
    'ctx,
>)
    ensures
        sum.expr() == Expr::Add(Box::new(lhs.expr()), Box::new(rhs.expr())),
{
    let expr = Ghost(Expr::Add(Box::new(lhs.expr@), Box::new(rhs.expr@)));
    Int { handle: builder.handle.build_int_add(lhs.handle, rhs.handle, name), expr }
}

/// `Builder::build_int_sub`: the difference `lhs - rhs`.
#[verifier::external_body]
pub(crate) fn build_int_sub<'ctx>(builder: &CodeBuilder<'ctx>, lhs: Int<'ctx>, rhs: Int<'ctx>, name: &str) -> (diff: Int<
    'ctx,
>)
    ensures
        diff.expr() == Expr::Sub(Box::new(lhs.expr()), Box::new(rhs.expr())),
{
    let expr = Ghost(Expr::Sub(Box::new(lhs.expr@), Box::new(rhs.expr@)));
    Int { handle: builder.handle.build_int_sub(lhs.handle, rhs.handle, name), expr }
}

/// `Builder::build_int_compare`: the comparison `op` of `lhs` with `rhs`.
#[verifier::external_body]
pub(crate) fn build_int_compare<'ctx>(
    builder: &CodeBuilder<'ctx>,
    op: IntComparison,
    lhs: Int<'ctx>,
    rhs: Int<'ctx>,
    name: &str,
) -> (cmp: Int<'ctx>)
    ensures
        cmp.expr() == Expr::Compare(op, Box::new(lhs.expr()), Box::new(rhs.expr())),
{
    let expr = Ghost(Expr::Compare(op, Box::new(lhs.expr@), Box::new(rhs.expr@)));
    let predicate = match op {
        IntComparison::Equal => IntPredicate::EQ,
        IntComparison::NotEqual => IntPredicate::NE,
        IntComparison::UnsignedGreater => IntPredicate::UGT,
        IntComparison::UnsignedGreaterOrEqual => IntPredicate::UGE,
        IntComparison::UnsignedLess => IntPredicate::ULT,
        IntComparison::UnsignedLessOrEqual => IntPredicate::ULE,
        IntComparison::SignedGreater => IntPredicate::SGT,
        IntComparison::SignedGreaterOrEqual => IntPredicate::SGE,
        IntComparison::SignedLess => IntPredicate::SLT,
        IntComparison::SignedLessOrEqual => IntPredicate::SLE,
    };
    Int { handle: builder.handle.build_int_compare(predicate, lhs.handle, rhs.handle, name), expr }
}

/// `Builder::build_conditional_branch`: appends a jump to `then_block` if
/// `cond` holds, else to `else_block`, both blocks of the same function.
#[verifier::external_body]
pub(crate) fn build_conditional_branch<'ctx>(
    builder: &CodeBuilder<'ctx>,
    module: &mut Module<'ctx>,
    cond: Int<'ctx>,
    then_block: &Block<'ctx>,
    else_block: &Block<'ctx>,
)
    requires
        positioned_in(*builder, *old(module)),
        then_block.position().module == builder.position()->0.module,
        then_block.position().function == builder.position()->0.function,
        else_block.position().module == builder.position()->0.module,
        else_block.position().function == builder.position()->0.function,
    ensures
        symbols(*final(module)) == with_instr(
            symbols(*old(module)),
            builder.position()->0,
            Instr::CondBranch {
                cond: cond.expr(),
                then_block: then_block.position().block,
                else_block: else_block.position().block,
            },
        ),
        keeps_module(*old(module), *final(module)),
{
    builder.handle.build_conditional_branch(cond.handle, then_block.handle, else_block.handle);
}

/// `Builder::build_unconditional_branch`: appends a jump to `destination`, a
/// block of the same function.
#[verifier::external_body]
pub(crate) fn build_unconditional_branch<'ctx>(
    builder: &CodeBuilder<'ctx>,
    module: &mut Module<'ctx>,
    destination: &Block<'ctx>,
)
    requires
        positioned_in(*builder, *old(module)),
        destination.position().module == builder.position()->0.module,
        destination.position().function == builder.position()->0.function,
    ensures
        symbols(*final(module)) == with_instr(
            symbols(*old(module)),
            builder.position()->0,
            Instr::Branch { target: destination.position().block },
        ),
        keeps_module(*old(module), *final(module)),
{
    builder.handle.build_unconditional_branch(destination.handle);
}

/// `Builder::build_phi`: appends a phi node of integer type `ty`, with no
/// incoming values yet.
#[verifier::external_body]
pub(crate) fn build_phi<'ctx>(builder: &CodeBuilder<'ctx>, module: &mut Module<'ctx>, ty: &IntTy<'ctx>, name: &str) -> (phi:
    Phi<'ctx>)
    requires
        positioned_in(*builder, *old(module)),
    ensures
        symbols(*final(module)) == with_instr(
            symbols(*old(module)),
            builder.position()->0,
            Instr::Phi { incoming: Seq::empty() },
        ),
        keeps_module(*old(module), *final(module)),
        phi.place() == builder.made_next(symbols(*old(module))),
{
    let place = Ghost(builder.made_next(symbols(*module)));
    Phi { handle: builder.handle.build_phi(ty.handle, name), place }
}

/// `PhiValue::add_incoming`: for each pair, the value the phi node `phi` of
/// `module` takes when control comes from the block.
#[verifier::external_body]
pub(crate) fn add_incoming<'ctx>(module: &mut Module<'ctx>, phi: &Phi<'ctx>, incoming: &[(Int<'ctx>, Block<'ctx>)])
    requires
        is_phi_at(symbols(*old(module)), module_identity(*old(module)), phi.place()),
    ensures
        symbols(*final(module)) == with_incoming(symbols(*old(module)), phi.place(), incoming_model(incoming@)),
        keeps_module(*old(module), *final(module)),
{
    let pairs: Vec<(&dyn inkwell::values::BasicValue<'ctx>, BasicBlock<'ctx>)> = incoming
        .iter()
        .map(|(value, block)| (&value.handle as &dyn inkwell::values::BasicValue<'ctx>, block.handle))
        .collect();
    phi.handle.add_incoming(&pairs)
}

/// `PhiValue::as_basic_value`: the integer a phi node produces.
#[verifier::external_body]
pub(crate) fn phi_value<'ctx>(phi: &Phi<'ctx>) -> (value: Int<'ctx>)
    ensures
        value.expr() == Expr::Result(phi.place().instr),
{
    let expr = Ghost(Expr::Result(phi.place@.instr));
    Int { handle: phi.handle.as_basic_value().into_int_value(), expr }
}

/// `Builder::build_call`: appends a call of `callee`, a function of the same
/// module, with `args`, as many as its signature takes (at least as many, for a
/// variadic one).
#[verifier::external_body]
pub(crate) fn build_call<'ctx>(
    builder: &CodeBuilder<'ctx>,
    module: &mut Module<'ctx>,
    callee: &Function<'ctx>,
    args: &[Argument<'ctx>],
    name: &str,
) -> (call: IntCall<'ctx>)
    requires
        positioned_in(*builder, *old(module)),
        callee.module() == module_identity(*old(module)),
        is_function(symbols(*old(module)), callee.name()),
        ({
            let sig = symbols(*old(module))[callee.name()]->sig;
            if sig.var_args {
                args@.len() >= sig.params.len()
            } else {
                args@.len() == sig.params.len()
            }
        }),
    ensures
        symbols(*final(module)) == with_instr(
            symbols(*old(module)),
            builder.position()->0,
            Instr::Call { callee: callee.name(), args: args@.map_values(|a: Argument<'ctx>| a.model()) },
        ),
        keeps_module(*old(module), *final(module)),
        call.place() == builder.made_next(symbols(*old(module))),
{
    let place = Ghost(builder.made_next(symbols(*module)));
    let values: Vec<BasicMetadataValueEnum<'ctx>> = args
        .iter()
        .map(|a| match a {
            Argument::Int(v) => v.handle.into(),
            Argument::Pointer(p) => (*p).into(),
        })
        .collect();
    IntCall { site: builder.handle.build_call(callee.value, &values, name), place }
}

/// `CallSiteValue::try_as_basic_value`: the integer that `call` returns. A
/// [`Function`] returns an integer, so there always is one.
#[verifier::external_body]
pub(crate) fn call_result<'ctx>(call: &IntCall<'ctx>) -> (result: Option<Int<'ctx>>)
    ensures
        result is Some,
        result matches Some(v) ==> v.expr() == Expr::Result(call.place().instr),
{
    let expr = Ghost(Expr::Result(call.place@.instr));
    call.site.try_as_basic_value().left().map(|value| Int { handle: value.into_int_value(), expr })
}

/// `Builder::build_return`: appends a return of `value`.
#[verifier::external_body]
pub(crate) fn build_return<'ctx>(builder: &CodeBuilder<'ctx>, module: &mut Module<'ctx>, value: Int<'ctx>)
    requires
        positioned_in(*builder, *old(module)),
    ensures
        symbols(*final(module)) == with_instr(
            symbols(*old(module)),
            builder.position()->0,
            Instr::Return { value: value.expr() },
        ),
        keeps_module(*old(module), *final(module)),
{
    builder.handle.build_return(Some(&value.handle));
}

} // verus!
