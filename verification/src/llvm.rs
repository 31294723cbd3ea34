//! The LLVM handles the generator works with, and the single calls into
//! `inkwell` that it makes.
//!
//! Every handle is opaque here: what a call builds lives inside LLVM, so the
//! wrappers below promise nothing of the handles they hand back. Each
//! `Builder` method of `inkwell` fails only while the builder has no
//! insertion point; that failure comes back as `None`.

use vstd::prelude::*;
use inkwell::context::Context;
use inkwell::builder::Builder;
use inkwell::module::{Module, Linkage};
use inkwell::basic_block::BasicBlock;
use inkwell::types::{
    IntType, FloatType, PointerType, VoidType, StructType, FunctionType, BasicTypeEnum,
    BasicMetadataTypeEnum, BasicType,
};
use inkwell::values::{
    IntValue, FloatValue, PointerValue, BasicValueEnum, FunctionValue,
    GlobalValue, BasicMetadataValueEnum, BasicValue, StructValue, InstructionValue, AggregateValueEnum,
    PhiValue,
};
use inkwell::AddressSpace;
use crate::ops::{IntPredicate, FloatPredicate};

verus! {

#[verifier::external_type_specification]
#[verifier::external_body]
pub struct ExContext(Context);

#[verifier::external_type_specification]
#[verifier::external_body]
pub struct ExBuilder<'ctx>(Builder<'ctx>);

#[verifier::external_type_specification]
#[verifier::external_body]
pub struct ExModule<'ctx>(Module<'ctx>);

#[verifier::external_type_specification]
#[verifier::external_body]
pub struct ExBasicBlock<'ctx>(BasicBlock<'ctx>);

#[verifier::external_type_specification]
#[verifier::external_body]
pub struct ExIntType<'ctx>(IntType<'ctx>);

#[verifier::external_type_specification]
#[verifier::external_body]
pub struct ExFloatType<'ctx>(FloatType<'ctx>);

#[verifier::external_type_specification]
#[verifier::external_body]
pub struct ExPointerType<'ctx>(PointerType<'ctx>);

#[verifier::external_type_specification]
#[verifier::external_body]
pub struct ExVoidType<'ctx>(VoidType<'ctx>);

#[verifier::external_type_specification]
#[verifier::external_body]
pub struct ExStructType<'ctx>(StructType<'ctx>);

#[verifier::external_type_specification]
#[verifier::external_body]
pub struct ExFunctionType<'ctx>(FunctionType<'ctx>);

#[verifier::external_type_specification]
#[verifier::external_body]
pub struct ExBasicTypeEnum<'ctx>(BasicTypeEnum<'ctx>);

#[verifier::external_type_specification]
#[verifier::external_body]
pub struct ExIntValue<'ctx>(IntValue<'ctx>);

#[verifier::external_type_specification]
#[verifier::external_body]
pub struct ExFloatValue<'ctx>(FloatValue<'ctx>);

#[verifier::external_type_specification]
#[verifier::external_body]
pub struct ExPointerValue<'ctx>(PointerValue<'ctx>);

#[verifier::external_type_specification]
#[verifier::external_body]
pub struct ExBasicValueEnum<'ctx>(BasicValueEnum<'ctx>);

#[verifier::external_type_specification]
#[verifier::external_body]
pub struct ExFunctionValue<'ctx>(FunctionValue<'ctx>);

#[verifier::external_type_specification]
#[verifier::external_body]
pub struct ExGlobalValue<'ctx>(GlobalValue<'ctx>);

#[verifier::external_type_specification]
#[verifier::external_body]
pub struct ExStructValue<'ctx>(StructValue<'ctx>);

#[verifier::external_type_specification]
#[verifier::external_body]
pub struct ExInstructionValue<'ctx>(InstructionValue<'ctx>);

#[verifier::external_type_specification]
#[verifier::external_body]
pub struct ExPhiValue<'ctx>(PhiValue<'ctx>);

/// How a declared function is linked.
#[derive(PartialEq, Eq, Structural, Clone, Copy, Debug)]
pub enum LinkageKind {
    /// `Linkage::External`: a symbol of the runtime library.
    External,
    /// No linkage given (LLVM intrinsics).
    Unspecified,
}

// ---------------------------------------------------------------- types

/// The type `Context::i64_type` gives: LLVM uniques types per context, so
/// it is the same for every call on one context.
pub uninterp spec fn context_i64(ctx: &Context) -> IntType;

/// The type `Context::i8_type` gives on a context.
pub uninterp spec fn context_i8(ctx: &Context) -> IntType;

/// The type `Context::f64_type` gives on a context.
pub uninterp spec fn context_f64(ctx: &Context) -> FloatType;

/// An integer type as a `BasicTypeEnum` (`From<IntType>`).
pub uninterp spec fn int_as_basic(t: IntType) -> BasicTypeEnum;

/// A float type as a `BasicTypeEnum` (`From<FloatType>`).
pub uninterp spec fn float_as_basic(t: FloatType) -> BasicTypeEnum;

/// A pointer type as a `BasicTypeEnum` (`From<PointerType>`).
pub uninterp spec fn pointer_as_basic(t: PointerType) -> BasicTypeEnum;

/// A struct type as a `BasicTypeEnum` (`From<StructType>`).
pub uninterp spec fn struct_as_basic(t: StructType) -> BasicTypeEnum;

/// `Context::i64_type`: `context_i64` of the context.
#[verifier::external_body]
pub(crate) fn i64_type<'ctx>(ctx: &'ctx Context) -> (r: IntType<'ctx>)
    ensures
        r == context_i64(ctx),
{
    ctx.i64_type()
}

/// `Context::i32_type`.
#[verifier::external_body]
pub(crate) fn i32_type<'ctx>(ctx: &'ctx Context) -> IntType<'ctx> {
    ctx.i32_type()
}

/// The type `Context::bool_type` gives on a context.
pub uninterp spec fn context_bool(ctx: &Context) -> IntType;

/// `Context::bool_type`: the one-bit integer type, `context_bool` of the
/// context.
#[verifier::external_body]
pub(crate) fn bool_type<'ctx>(ctx: &'ctx Context) -> (r: IntType<'ctx>)
    ensures
        r == context_bool(ctx),
{
    ctx.bool_type()
}

/// `Context::i8_type`: `context_i8` of the context.
#[verifier::external_body]
pub(crate) fn i8_type<'ctx>(ctx: &'ctx Context) -> (r: IntType<'ctx>)
    ensures
        r == context_i8(ctx),
{
    ctx.i8_type()
}

/// `Context::f64_type`: `context_f64` of the context.
#[verifier::external_body]
pub(crate) fn f64_type<'ctx>(ctx: &'ctx Context) -> (r: FloatType<'ctx>)
    ensures
        r == context_f64(ctx),
{
    ctx.f64_type()
}

/// `Context::void_type`.
#[verifier::external_body]
pub(crate) fn void_type<'ctx>(ctx: &'ctx Context) -> VoidType<'ctx> {
    ctx.void_type()
}

/// `IntType::ptr_type` in the default address space.
#[verifier::external_body]
pub(crate) fn int_ptr_type<'ctx>(t: IntType<'ctx>) -> PointerType<'ctx> {
    t.ptr_type(AddressSpace::default())
}

/// `Context::struct_type`: an anonymous struct of the given fields.
#[verifier::external_body]
pub(crate) fn struct_type<'ctx>(ctx: &'ctx Context, fields: &[BasicTypeEnum<'ctx>], packed: bool) -> StructType<'ctx> {
    ctx.struct_type(fields, packed)
}

/// `Context::opaque_struct_type`: a named struct whose body is set later.
#[verifier::external_body]
pub(crate) fn opaque_struct_type<'ctx>(ctx: &'ctx Context, name: &str) -> StructType<'ctx> {
    ctx.opaque_struct_type(name)
}

/// `StructType::set_body`.
#[verifier::external_body]
pub(crate) fn set_struct_body<'ctx>(t: StructType<'ctx>, fields: &[BasicTypeEnum<'ctx>], packed: bool) {
    t.set_body(fields, packed);
}

/// The `From<IntType>` conversion into `BasicTypeEnum`.
#[verifier::external_body]
pub(crate) fn int_type_basic<'ctx>(t: IntType<'ctx>) -> (r: BasicTypeEnum<'ctx>)
    ensures
        r == int_as_basic(t),
{
    t.into()
}

/// The `From<FloatType>` conversion into `BasicTypeEnum`.
#[verifier::external_body]
pub(crate) fn float_type_basic<'ctx>(t: FloatType<'ctx>) -> (r: BasicTypeEnum<'ctx>)
    ensures
        r == float_as_basic(t),
{
    t.into()
}

/// The `From<PointerType>` conversion into `BasicTypeEnum`.
#[verifier::external_body]
pub(crate) fn pointer_type_basic<'ctx>(t: PointerType<'ctx>) -> (r: BasicTypeEnum<'ctx>)
    ensures
        r == pointer_as_basic(t),
{
    t.into()
}

/// The `From<StructType>` conversion into `BasicTypeEnum`.
#[verifier::external_body]
pub(crate) fn struct_type_basic<'ctx>(t: StructType<'ctx>) -> (r: BasicTypeEnum<'ctx>)
    ensures
        r == struct_as_basic(t),
{
    t.into()
}

/// A function type whose return type is a basic type (an integer, float,
/// pointer, struct, array or vector type) or `void`, and whose parameters
/// have basic types. Only `basic_fn_type`, `void_fn_type` and
/// `define_function` make one.
#[derive(Clone, Copy)]
pub struct Signature<'ctx> {
    t: FunctionType<'ctx>,
}

/// A function, with the signature it is called by and the name it was
/// looked up or declared under. Only `callable` makes one.
#[derive(Clone, Copy)]
pub struct Callable<'ctx> {
    function: FunctionValue<'ctx>,
    signature: Signature<'ctx>,
    name: Ghost<Seq<char>>,
}

impl<'ctx> Callable<'ctx> {
    /// The function called.
    pub closed spec fn callee(&self) -> FunctionValue<'ctx> {
        self.function
    }

    /// The name the function was looked up or declared under.
    pub closed spec fn callee_name(&self) -> Seq<char> {
        self.name@
    }

    /// The function called.
    pub fn function(&self) -> (r: FunctionValue<'ctx>)
        ensures
            r == self.callee(),
    {
        self.function
    }
}

/// The function `function`, looked up or declared under `name`, to be
/// called by `signature`.
pub fn callable<'ctx>(function: FunctionValue<'ctx>, signature: Signature<'ctx>, name: &str) -> (r: Callable<'ctx>)
    ensures
        r.callee() == function,
        r.callee_name() == name@,
{
    Callable { function, signature, name: Ghost(name@) }
}

/// `BasicType::fn_type` of a value-returning function type.
#[verifier::external_body]
pub(crate) fn basic_fn_type<'ctx>(ret: BasicTypeEnum<'ctx>, params: &[BasicTypeEnum<'ctx>], var_args: bool) -> Signature<'ctx> {
    let ps: Vec<BasicMetadataTypeEnum<'ctx>> = params.iter().map(|p| (*p).into()).collect();
    Signature { t: ret.fn_type(&ps, var_args) }
}

/// `VoidType::fn_type`.
#[verifier::external_body]
pub(crate) fn void_fn_type<'ctx>(ret: VoidType<'ctx>, params: &[BasicTypeEnum<'ctx>], var_args: bool) -> Signature<'ctx> {
    let ps: Vec<BasicMetadataTypeEnum<'ctx>> = params.iter().map(|p| (*p).into()).collect();
    Signature { t: ret.fn_type(&ps, var_args) }
}

/// `BasicType::ptr_type` in the default address space: the type of
/// pointers to `t`.
#[verifier::external_body]
pub(crate) fn pointer_to<'ctx>(t: BasicTypeEnum<'ctx>) -> PointerType<'ctx> {
    t.ptr_type(AddressSpace::default())
}

/// `BasicType::size_of`: a constant for the size of a sized type, `None` for
/// an unsized one.
#[verifier::external_body]
pub(crate) fn type_size_of<'ctx>(t: BasicTypeEnum<'ctx>) -> Option<IntValue<'ctx>> {
    t.size_of()
}

/// `IntValue::get_zero_extended_constant`: the value of a folded integer
/// constant of at most 64 bits, else `None`. Whether LLVM folded the
/// constant is not stated.
#[verifier::external_body]
pub(crate) fn zero_extended_constant<'ctx>(v: IntValue<'ctx>) -> Option<u64> {
    v.get_zero_extended_constant()
}

/// `StructType::get_undef`: an undefined value of the struct type.
#[verifier::external_body]
pub(crate) fn struct_undef<'ctx>(t: StructType<'ctx>) -> StructValue<'ctx> {
    t.get_undef()
}

/// The struct type inside a `BasicTypeEnum::StructType`; `None` for the
/// other variants.
#[verifier::external_body]
pub(crate) fn basic_type_as_struct<'ctx>(t: BasicTypeEnum<'ctx>) -> Option<StructType<'ctx>> {
    match t {
        BasicTypeEnum::StructType(s) => Some(s),
        _ => None,
    }
}

/// `PointerType::const_null`.
#[verifier::external_body]
pub(crate) fn pointer_const_null<'ctx>(t: PointerType<'ctx>) -> PointerValue<'ctx> {
    t.const_null()
}

/// The record of a constant `const_int` was asked for: the constant it
/// gave and the value it was asked to hold; only `const_int` makes one.
pub struct ConstRecord<'ctx> {
    constant: IntValue<'ctx>,
    value: u64,
}

impl<'ctx> ConstRecord<'ctx> {
    /// The constant made.
    pub closed spec fn constant(&self) -> IntValue<'ctx> {
        self.constant
    }

    /// The value the constant was asked to hold.
    pub closed spec fn asked(&self) -> u64 {
        self.value
    }
}

/// `IntType::const_int`: a constant of the type; the record pairs it with
/// the value it was asked to hold. Nothing more is stated of the constant:
/// neither inkwell's source nor its documentation says that two calls with
/// the same arguments give the same value.
#[verifier::external_body]
pub(crate) fn const_int<'ctx>(t: IntType<'ctx>, value: u64, sign_extend: bool) -> (res: (IntValue<'ctx>, ConstRecord<'ctx>))
    ensures
        res.1.constant() == res.0,
        res.1.asked() == value,
{
    let c = t.const_int(value, sign_extend);
    (c, ConstRecord { constant: c, value })
}

// ---------------------------------------------------------------- module

/// `Module::get_function`: the function of that name declared in the module.
#[verifier::external_body]
pub(crate) fn get_function<'ctx>(m: &Module<'ctx>, name: &str) -> Option<FunctionValue<'ctx>> {
    m.get_function(name)
}

/// `Module::add_function`.
#[verifier::external_body]
pub(crate) fn add_function<'ctx>(m: &Module<'ctx>, name: &str, sig: Signature<'ctx>, linkage: LinkageKind) -> FunctionValue<'ctx> {
    let l = match linkage {
        LinkageKind::External => Some(Linkage::External),
        LinkageKind::Unspecified => None,
    };
    m.add_function(name, sig.t, l)
}

/// `Context::append_basic_block`.
#[verifier::external_body]
pub(crate) fn append_basic_block<'ctx>(ctx: &'ctx Context, f: FunctionValue<'ctx>, name: &str) -> BasicBlock<'ctx> {
    ctx.append_basic_block(f, name)
}

/// `Context::create_builder`: a new builder with no insertion point.
#[verifier::external_body]
pub(crate) fn create_builder<'ctx>(ctx: &'ctx Context) -> Builder<'ctx> {
    ctx.create_builder()
}

/// `FunctionValue::get_first_basic_block`: the function's entry block.
#[verifier::external_body]
pub(crate) fn first_basic_block<'ctx>(f: FunctionValue<'ctx>) -> Option<BasicBlock<'ctx>> {
    f.get_first_basic_block()
}

/// Whether `BasicBlock::get_terminator` finds a terminator.
#[verifier::external_body]
pub(crate) fn has_terminator<'ctx>(b: BasicBlock<'ctx>) -> bool {
    b.get_terminator().is_some()
}

/// A function this library defined: every parameter has a basic type
/// (an integer, float, pointer, struct, array or vector type) and the
/// return type is basic or `void`. Only `define_function` makes one.
pub struct DefinedFunction<'ctx> {
    f: FunctionValue<'ctx>,
    sig: Signature<'ctx>,
    name: Ghost<Seq<char>>,
}

impl<'ctx> DefinedFunction<'ctx> {
    /// The name the function was added to the module under.
    pub closed spec fn defined_name(&self) -> Seq<char> {
        self.name@
    }

    /// The function's LLVM value, as a spec value.
    pub closed spec fn value(&self) -> FunctionValue<'ctx> {
        self.f
    }

    /// The function's LLVM value.
    pub fn function(&self) -> (r: FunctionValue<'ctx>)
        ensures
            r == self.value(),
    {
        self.f
    }

    /// The signature the function was defined with.
    pub fn signature(&self) -> Signature<'ctx> {
        self.sig
    }
}

/// `Module::add_function` without linkage, of the type
/// `BasicType::fn_type` (or `VoidType::fn_type` when `ret` is `None`) makes
/// of the basic parameter types `params`.
#[verifier::external_body]
pub(crate) fn define_function<'ctx>(
    m: &Module<'ctx>,
    name: &str,
    ret: Option<BasicTypeEnum<'ctx>>,
    void: VoidType<'ctx>,
    params: &[BasicTypeEnum<'ctx>],
) -> (r: DefinedFunction<'ctx>)
    ensures
        r.defined_name() == name@,
{
    let ps: Vec<BasicMetadataTypeEnum<'ctx>> = params.iter().map(|p| (*p).into()).collect();
    let t = match ret {
        Some(r) => r.fn_type(&ps, false),
        None => void.fn_type(&ps, false),
    };
    DefinedFunction { f: m.add_function(name, t, None), sig: Signature { t }, name: Ghost(name@) }
}

/// `FunctionValue::get_nth_param` of a function this library defined,
/// whose parameters all have basic types: the parameter at that position.
#[verifier::external_body]
pub(crate) fn get_nth_param<'ctx>(f: &DefinedFunction<'ctx>, nth: u32) -> Option<BasicValueEnum<'ctx>>
    requires
        nth < u32::MAX,
{
    f.f.get_nth_param(nth)
}

/// `FunctionValue::get_last_basic_block`.
#[verifier::external_body]
pub(crate) fn last_basic_block<'ctx>(f: FunctionValue<'ctx>) -> Option<BasicBlock<'ctx>> {
    f.get_last_basic_block()
}

/// `BasicBlock::get_first_instruction`.
#[verifier::external_body]
pub(crate) fn first_instruction<'ctx>(b: BasicBlock<'ctx>) -> Option<InstructionValue<'ctx>> {
    b.get_first_instruction()
}

/// `BasicBlock::get_parent`: the function the block belongs to.
#[verifier::external_body]
pub(crate) fn block_parent<'ctx>(b: BasicBlock<'ctx>) -> Option<FunctionValue<'ctx>> {
    b.get_parent()
}

// ---------------------------------------------------------------- builder

/// `Builder::get_insert_block`.
#[verifier::external_body]
pub(crate) fn get_insert_block<'ctx>(b: &Builder<'ctx>) -> Option<BasicBlock<'ctx>> {
    b.get_insert_block()
}

/// `Builder::position_at_end`.
#[verifier::external_body]
pub(crate) fn position_at_end<'ctx>(b: &Builder<'ctx>, block: BasicBlock<'ctx>) {
    b.position_at_end(block)
}

/// `Builder::position_before`.
#[verifier::external_body]
pub(crate) fn position_before<'ctx>(b: &Builder<'ctx>, i: &InstructionValue<'ctx>) {
    b.position_before(i)
}

/// `Builder::build_alloca`.
#[verifier::external_body]
pub(crate) fn build_alloca<'ctx>(b: &Builder<'ctx>, t: BasicTypeEnum<'ctx>, name: &str) -> Option<PointerValue<'ctx>> {
    b.build_alloca(t, name).ok()
}

/// `Builder::build_store`; `false` where the builder refuses. The record
/// is the place and the value the store was asked for.
#[verifier::external_body]
pub(crate) fn build_store<'ctx>(b: &Builder<'ctx>, ptr: PointerValue<'ctx>, v: BasicValueEnum<'ctx>) -> (res: (bool, StoreRecord<'ctx>))
    ensures
        res.1.place() == ptr,
        res.1.stored() == v,
{
    (b.build_store(ptr, v).is_ok(), StoreRecord { ptr, value: v })
}

/// `Builder::build_insert_value` into a struct; `None` where the builder
/// refuses (no insertion point, or an index past the last field). The
/// record is the field index and the value asked to be inserted.
#[verifier::external_body]
pub(crate) fn build_insert_value<'ctx>(b: &Builder<'ctx>, agg: StructValue<'ctx>, v: BasicValueEnum<'ctx>, index: u32, name: &str) -> (res: (Option<StructValue<'ctx>>, InsertRecord<'ctx>))
    ensures
        res.1.index() == index,
        res.1.inserted() == v,
{
    let made = match b.build_insert_value(agg, v, index, name) {
        Ok(AggregateValueEnum::StructValue(s)) => Some(s),
        _ => None,
    };
    (made, InsertRecord { index, value: v })
}

/// `Builder::build_extract_value` of a struct field; `None` where the
/// builder refuses (no insertion point, or an index past the last field).
#[verifier::external_body]
pub(crate) fn build_extract_value<'ctx>(b: &Builder<'ctx>, agg: StructValue<'ctx>, index: u32, name: &str) -> Option<BasicValueEnum<'ctx>> {
    b.build_extract_value(agg, index, name).ok()
}

/// `Builder::build_struct_gep` (typed by the pointer, as LLVM 14 does);
/// `None` where the builder refuses (no insertion point, a pointer not to a
/// struct, or an index past the last field).
#[verifier::external_body]
pub(crate) fn build_struct_gep<'ctx>(b: &Builder<'ctx>, ptr: PointerValue<'ctx>, index: u32, name: &str) -> Option<PointerValue<'ctx>> {
    b.build_struct_gep(ptr, index, name).ok()
}

/// `Builder::build_pointer_cast`.
#[verifier::external_body]
pub(crate) fn build_pointer_cast<'ctx>(b: &Builder<'ctx>, p: PointerValue<'ctx>, to: PointerType<'ctx>, name: &str) -> Option<PointerValue<'ctx>> {
    b.build_pointer_cast(p, to, name).ok()
}

/// `Builder::build_ptr_to_int`: the address `p` holds, as an integer of
/// type `t`.
#[verifier::external_body]
pub(crate) fn build_ptr_to_int<'ctx>(b: &Builder<'ctx>, p: PointerValue<'ctx>, t: IntType<'ctx>, name: &str) -> Option<IntValue<'ctx>> {
    b.build_ptr_to_int(p, t, name).ok()
}

/// `Builder::build_int_to_ptr`: the integer `i` as a pointer of type `t`.
#[verifier::external_body]
pub(crate) fn build_int_to_ptr<'ctx>(b: &Builder<'ctx>, i: IntValue<'ctx>, t: PointerType<'ctx>, name: &str) -> Option<PointerValue<'ctx>> {
    b.build_int_to_ptr(i, t, name).ok()
}

/// `Builder::build_array_alloca`: stack room for `size` values of type `t`.
#[verifier::external_body]
pub(crate) fn build_array_alloca<'ctx>(b: &Builder<'ctx>, t: BasicTypeEnum<'ctx>, size: IntValue<'ctx>, name: &str) -> Option<PointerValue<'ctx>> {
    b.build_array_alloca(t, size, name).ok()
}

/// `Builder::build_int_unsigned_rem`.
#[verifier::external_body]
pub(crate) fn build_int_unsigned_rem<'ctx>(b: &Builder<'ctx>, l: IntValue<'ctx>, r: IntValue<'ctx>, name: &str) -> Option<IntValue<'ctx>> {
    b.build_int_unsigned_rem(l, r, name).ok()
}

/// `Builder::build_float_neg`.
#[verifier::external_body]
pub(crate) fn build_float_neg<'ctx>(b: &Builder<'ctx>, v: FloatValue<'ctx>, name: &str) -> Option<FloatValue<'ctx>> {
    b.build_float_neg(v, name).ok()
}

/// `Builder::build_phi`: a phi node of type `t`, with no incoming value yet.
#[verifier::external_body]
pub(crate) fn build_phi<'ctx>(b: &Builder<'ctx>, t: BasicTypeEnum<'ctx>, name: &str) -> Option<PhiValue<'ctx>> {
    b.build_phi(t, name).ok()
}

/// `PhiValue::add_incoming` of one value arriving from `block`; the
/// record is the value and the block it was asked to arrive from.
#[verifier::external_body]
pub(crate) fn phi_add_incoming<'ctx>(phi: PhiValue<'ctx>, v: BasicValueEnum<'ctx>, block: BasicBlock<'ctx>) -> (res: IncomingRecord<'ctx>)
    ensures
        res.incoming_value() == v,
        res.incoming_block() == block,
{
    phi.add_incoming(&[(&v, block)]);
    IncomingRecord { value: v, block }
}

/// The record of an incoming value `phi_add_incoming` was asked to add;
/// only it makes one.
pub struct IncomingRecord<'ctx> {
    value: BasicValueEnum<'ctx>,
    block: BasicBlock<'ctx>,
}

impl<'ctx> IncomingRecord<'ctx> {
    /// The value arriving.
    pub closed spec fn incoming_value(&self) -> BasicValueEnum<'ctx> {
        self.value
    }

    /// The block it arrives from.
    pub closed spec fn incoming_block(&self) -> BasicBlock<'ctx> {
        self.block
    }
}

/// `PhiValue::as_basic_value`.
#[verifier::external_body]
pub(crate) fn phi_value<'ctx>(phi: PhiValue<'ctx>) -> BasicValueEnum<'ctx> {
    phi.as_basic_value()
}

/// `Builder::build_int_neg`.
#[verifier::external_body]
pub(crate) fn build_int_neg<'ctx>(b: &Builder<'ctx>, v: IntValue<'ctx>, name: &str) -> Option<IntValue<'ctx>> {
    b.build_int_neg(v, name).ok()
}

/// `Builder::build_is_not_null`.
#[verifier::external_body]
pub(crate) fn build_is_not_null<'ctx>(b: &Builder<'ctx>, p: PointerValue<'ctx>, name: &str) -> Option<IntValue<'ctx>> {
    b.build_is_not_null(p, name).ok()
}

/// `FloatType::const_zero`: the constant zero of a floating-point type.
#[verifier::external_body]
pub(crate) fn float_zero<'ctx>(t: FloatType<'ctx>) -> FloatValue<'ctx> {
    t.const_zero()
}

/// `IntValue::const_signed_to_float` of the constant `IntType::const_int`
/// makes of `value` (not sign-extended) in the integer type `i`: that
/// constant as a constant of the floating-point type `t`. The operand is a
/// constant by construction, as `LLVMConstSIToFP` needs.
#[verifier::external_body]
pub(crate) fn int_constant_as_float<'ctx>(i: IntType<'ctx>, value: u64, t: FloatType<'ctx>) -> FloatValue<'ctx> {
    i.const_int(value, false).const_signed_to_float(t)
}

/// `StructType::const_named_struct`: a constant of the struct type `t`
/// holding `values`.
#[verifier::external_body]
pub(crate) fn const_named_struct<'ctx>(t: StructType<'ctx>, values: &[BasicValueEnum<'ctx>]) -> StructValue<'ctx> {
    t.const_named_struct(values)
}

/// `Builder::build_int_s_extend`.
#[verifier::external_body]
pub(crate) fn build_int_s_extend<'ctx>(b: &Builder<'ctx>, v: IntValue<'ctx>, t: IntType<'ctx>, name: &str) -> Option<IntValue<'ctx>> {
    b.build_int_s_extend(v, t, name).ok()
}

/// An integer instruction on two operands.
pub enum IntInstr {
    Add,
    Sub,
    Mul,
    SignedDiv,
    SignedRem,
    And,
    Or,
    Xor,
}

/// A floating-point instruction on two operands.
pub enum FloatInstr {
    Add,
    Sub,
    Mul,
    Div,
    Rem,
}

/// The instruction a builder call was asked to emit, with its operands.
pub enum Emitted<'ctx> {
    Int(IntInstr, IntValue<'ctx>, IntValue<'ctx>),
    IntCompare(IntPredicate, IntValue<'ctx>, IntValue<'ctx>),
    Float(FloatInstr, FloatValue<'ctx>, FloatValue<'ctx>),
    FloatCompare(FloatPredicate, FloatValue<'ctx>, FloatValue<'ctx>),
}

/// The record of an arithmetic or comparison instruction a wrapper of this
/// module was asked to emit; only those wrappers make one.
pub struct Record<'ctx> {
    e: Emitted<'ctx>,
}

impl<'ctx> Record<'ctx> {
    /// The instruction recorded.
    pub closed spec fn emitted(&self) -> Emitted<'ctx> {
        self.e
    }
}

/// The instructions a list of records says were asked for, in order.
pub open spec fn emitted_of<'ctx>(v: Seq<Record<'ctx>>) -> Seq<Emitted<'ctx>> {
    Seq::new(v.len(), |i: int| v[i].emitted())
}

/// The record of a call `build_call` was asked to make: the callee's name
/// and the arguments; only `build_call` makes one.
pub struct CallRecord<'ctx> {
    name: Ghost<Seq<char>>,
    args: Vec<BasicValueEnum<'ctx>>,
}

impl<'ctx> CallRecord<'ctx> {
    /// The name of the function called.
    pub closed spec fn callee_name(&self) -> Seq<char> {
        self.name@
    }

    /// The arguments of the call.
    pub closed spec fn arguments(&self) -> Seq<BasicValueEnum<'ctx>> {
        self.args@
    }
}

/// The record of a field insertion `build_insert_value` was asked to make;
/// only it makes one.
pub struct InsertRecord<'ctx> {
    index: u32,
    value: BasicValueEnum<'ctx>,
}

impl<'ctx> InsertRecord<'ctx> {
    /// The field index.
    pub closed spec fn index(&self) -> u32 {
        self.index
    }

    /// The value inserted.
    pub closed spec fn inserted(&self) -> BasicValueEnum<'ctx> {
        self.value
    }
}

/// The record of a store `build_store` was asked to emit; only it makes
/// one.
pub struct StoreRecord<'ctx> {
    ptr: PointerValue<'ctx>,
    value: BasicValueEnum<'ctx>,
}

impl<'ctx> StoreRecord<'ctx> {
    /// The place stored into.
    pub closed spec fn place(&self) -> PointerValue<'ctx> {
        self.ptr
    }

    /// The value stored.
    pub closed spec fn stored(&self) -> BasicValueEnum<'ctx> {
        self.value
    }
}

/// The record of a `ret` `build_return` was asked to emit; only it makes
/// one.
pub struct ReturnRecord<'ctx> {
    value: Option<BasicValueEnum<'ctx>>,
}

impl<'ctx> ReturnRecord<'ctx> {
    /// The value returned, if any.
    pub closed spec fn returned(&self) -> Option<BasicValueEnum<'ctx>> {
        self.value
    }
}

/// The record of the text of a global string `build_global_string_ptr`
/// was asked to make; only it makes one.
pub struct TextRecord {
    text: String,
}

impl TextRecord {
    /// The text.
    pub closed spec fn text(&self) -> Seq<char> {
        self.text@
    }
}

/// `Builder::build_int_add`; the record says an `add` of `l` and `r` was
/// asked for.
#[verifier::external_body]
pub(crate) fn build_int_add<'ctx>(b: &Builder<'ctx>, l: IntValue<'ctx>, r: IntValue<'ctx>, name: &str) -> (res: (Option<IntValue<'ctx>>, Record<'ctx>))
    ensures
        res.1.emitted() == Emitted::Int(IntInstr::Add, l, r),
{
    (b.build_int_add(l, r, name).ok(), Record { e: Emitted::Int(IntInstr::Add, l, r) })
}

/// `Builder::build_int_sub`; the record says a `sub` of `l` and `r` was asked
/// for.
#[verifier::external_body]
pub(crate) fn build_int_sub<'ctx>(b: &Builder<'ctx>, l: IntValue<'ctx>, r: IntValue<'ctx>, name: &str) -> (res: (Option<IntValue<'ctx>>, Record<'ctx>))
    ensures
        res.1.emitted() == Emitted::Int(IntInstr::Sub, l, r),
{
    (b.build_int_sub(l, r, name).ok(), Record { e: Emitted::Int(IntInstr::Sub, l, r) })
}

/// `Builder::build_int_mul`; the record says a `mul` of `l` and `r` was asked
/// for.
#[verifier::external_body]
pub(crate) fn build_int_mul<'ctx>(b: &Builder<'ctx>, l: IntValue<'ctx>, r: IntValue<'ctx>, name: &str) -> (res: (Option<IntValue<'ctx>>, Record<'ctx>))
    ensures
        res.1.emitted() == Emitted::Int(IntInstr::Mul, l, r),
{
    (b.build_int_mul(l, r, name).ok(), Record { e: Emitted::Int(IntInstr::Mul, l, r) })
}

/// `Builder::build_int_signed_div`; the record says an `sdiv` of `l` and `r` was asked
/// for.
#[verifier::external_body]
pub(crate) fn build_int_signed_div<'ctx>(b: &Builder<'ctx>, l: IntValue<'ctx>, r: IntValue<'ctx>, name: &str) -> (res: (Option<IntValue<'ctx>>, Record<'ctx>))
    ensures
        res.1.emitted() == Emitted::Int(IntInstr::SignedDiv, l, r),
{
    (b.build_int_signed_div(l, r, name).ok(), Record { e: Emitted::Int(IntInstr::SignedDiv, l, r) })
}

/// `Builder::build_int_signed_rem`; the record says an `srem` of `l` and `r` was asked
/// for.
#[verifier::external_body]
pub(crate) fn build_int_signed_rem<'ctx>(b: &Builder<'ctx>, l: IntValue<'ctx>, r: IntValue<'ctx>, name: &str) -> (res: (Option<IntValue<'ctx>>, Record<'ctx>))
    ensures
        res.1.emitted() == Emitted::Int(IntInstr::SignedRem, l, r),
{
    (b.build_int_signed_rem(l, r, name).ok(), Record { e: Emitted::Int(IntInstr::SignedRem, l, r) })
}

/// `Builder::build_and`; the record says an `and` of `l` and `r` was asked
/// for.
#[verifier::external_body]
pub(crate) fn build_and<'ctx>(b: &Builder<'ctx>, l: IntValue<'ctx>, r: IntValue<'ctx>, name: &str) -> (res: (Option<IntValue<'ctx>>, Record<'ctx>))
    ensures
        res.1.emitted() == Emitted::Int(IntInstr::And, l, r),
{
    (b.build_and(l, r, name).ok(), Record { e: Emitted::Int(IntInstr::And, l, r) })
}

/// `Builder::build_or`; the record says an `or` of `l` and `r` was asked
/// for.
#[verifier::external_body]
pub(crate) fn build_or<'ctx>(b: &Builder<'ctx>, l: IntValue<'ctx>, r: IntValue<'ctx>, name: &str) -> (res: (Option<IntValue<'ctx>>, Record<'ctx>))
    ensures
        res.1.emitted() == Emitted::Int(IntInstr::Or, l, r),
{
    (b.build_or(l, r, name).ok(), Record { e: Emitted::Int(IntInstr::Or, l, r) })
}

/// `Builder::build_xor`; the record says an `xor` of `l` and `r` was asked
/// for.
#[verifier::external_body]
pub(crate) fn build_xor<'ctx>(b: &Builder<'ctx>, l: IntValue<'ctx>, r: IntValue<'ctx>, name: &str) -> (res: (Option<IntValue<'ctx>>, Record<'ctx>))
    ensures
        res.1.emitted() == Emitted::Int(IntInstr::Xor, l, r),
{
    (b.build_xor(l, r, name).ok(), Record { e: Emitted::Int(IntInstr::Xor, l, r) })
}

/// `Builder::build_int_compare`, with the predicate converted one for one;
/// the record says a comparison of `l` and `r` under `p` was asked for.
#[verifier::external_body]
pub(crate) fn build_int_compare<'ctx>(b: &Builder<'ctx>, p: IntPredicate, l: IntValue<'ctx>, r: IntValue<'ctx>, name: &str) -> (res: (Option<IntValue<'ctx>>, Record<'ctx>))
    ensures
        res.1.emitted() == Emitted::IntCompare(p, l, r),
{
    let pred = match p {
        IntPredicate::EQ => inkwell::IntPredicate::EQ,
        IntPredicate::NE => inkwell::IntPredicate::NE,
        IntPredicate::SGT => inkwell::IntPredicate::SGT,
        IntPredicate::SGE => inkwell::IntPredicate::SGE,
        IntPredicate::SLT => inkwell::IntPredicate::SLT,
        IntPredicate::SLE => inkwell::IntPredicate::SLE,
    };
    (b.build_int_compare(pred, l, r, name).ok(), Record { e: Emitted::IntCompare(p, l, r) })
}

/// `Builder::build_float_compare`, with the predicate converted one for
/// one; the record says a comparison of `l` and `r` under `p` was asked
/// for.
#[verifier::external_body]
pub(crate) fn build_float_compare<'ctx>(b: &Builder<'ctx>, p: FloatPredicate, l: FloatValue<'ctx>, r: FloatValue<'ctx>, name: &str) -> (res: (Option<IntValue<'ctx>>, Record<'ctx>))
    ensures
        res.1.emitted() == Emitted::FloatCompare(p, l, r),
{
    let pred = match p {
        FloatPredicate::OEQ => inkwell::FloatPredicate::OEQ,
        FloatPredicate::ONE => inkwell::FloatPredicate::ONE,
        FloatPredicate::OGT => inkwell::FloatPredicate::OGT,
        FloatPredicate::OGE => inkwell::FloatPredicate::OGE,
        FloatPredicate::OLT => inkwell::FloatPredicate::OLT,
        FloatPredicate::OLE => inkwell::FloatPredicate::OLE,
    };
    (b.build_float_compare(pred, l, r, name).ok(), Record { e: Emitted::FloatCompare(p, l, r) })
}

/// `Builder::build_int_z_extend`.
#[verifier::external_body]
pub(crate) fn build_int_z_extend<'ctx>(b: &Builder<'ctx>, v: IntValue<'ctx>, t: IntType<'ctx>, name: &str) -> Option<IntValue<'ctx>> {
    b.build_int_z_extend(v, t, name).ok()
}

/// `Builder::build_signed_int_to_float`.
#[verifier::external_body]
pub(crate) fn build_signed_int_to_float<'ctx>(b: &Builder<'ctx>, v: IntValue<'ctx>, t: FloatType<'ctx>, name: &str) -> Option<FloatValue<'ctx>> {
    b.build_signed_int_to_float(v, t, name).ok()
}

/// `Builder::build_float_to_signed_int`.
#[verifier::external_body]
pub(crate) fn build_float_to_signed_int<'ctx>(b: &Builder<'ctx>, v: FloatValue<'ctx>, t: IntType<'ctx>, name: &str) -> Option<IntValue<'ctx>> {
    b.build_float_to_signed_int(v, t, name).ok()
}

/// `Builder::build_float_add`; the record says an `fadd` of `l` and `r` was asked
/// for.
#[verifier::external_body]
pub(crate) fn build_float_add<'ctx>(b: &Builder<'ctx>, l: FloatValue<'ctx>, r: FloatValue<'ctx>, name: &str) -> (res: (Option<FloatValue<'ctx>>, Record<'ctx>))
    ensures
        res.1.emitted() == Emitted::Float(FloatInstr::Add, l, r),
{
    (b.build_float_add(l, r, name).ok(), Record { e: Emitted::Float(FloatInstr::Add, l, r) })
}

/// `Builder::build_float_sub`; the record says an `fsub` of `l` and `r` was asked
/// for.
#[verifier::external_body]
pub(crate) fn build_float_sub<'ctx>(b: &Builder<'ctx>, l: FloatValue<'ctx>, r: FloatValue<'ctx>, name: &str) -> (res: (Option<FloatValue<'ctx>>, Record<'ctx>))
    ensures
        res.1.emitted() == Emitted::Float(FloatInstr::Sub, l, r),
{
    (b.build_float_sub(l, r, name).ok(), Record { e: Emitted::Float(FloatInstr::Sub, l, r) })
}

/// `Builder::build_float_mul`; the record says an `fmul` of `l` and `r` was asked
/// for.
#[verifier::external_body]
pub(crate) fn build_float_mul<'ctx>(b: &Builder<'ctx>, l: FloatValue<'ctx>, r: FloatValue<'ctx>, name: &str) -> (res: (Option<FloatValue<'ctx>>, Record<'ctx>))
    ensures
        res.1.emitted() == Emitted::Float(FloatInstr::Mul, l, r),
{
    (b.build_float_mul(l, r, name).ok(), Record { e: Emitted::Float(FloatInstr::Mul, l, r) })
}

/// `Builder::build_float_div`; the record says an `fdiv` of `l` and `r` was asked
/// for.
#[verifier::external_body]
pub(crate) fn build_float_div<'ctx>(b: &Builder<'ctx>, l: FloatValue<'ctx>, r: FloatValue<'ctx>, name: &str) -> (res: (Option<FloatValue<'ctx>>, Record<'ctx>))
    ensures
        res.1.emitted() == Emitted::Float(FloatInstr::Div, l, r),
{
    (b.build_float_div(l, r, name).ok(), Record { e: Emitted::Float(FloatInstr::Div, l, r) })
}

/// `Builder::build_float_rem`; the record says an `frem` of `l` and `r` was asked
/// for.
#[verifier::external_body]
pub(crate) fn build_float_rem<'ctx>(b: &Builder<'ctx>, l: FloatValue<'ctx>, r: FloatValue<'ctx>, name: &str) -> (res: (Option<FloatValue<'ctx>>, Record<'ctx>))
    ensures
        res.1.emitted() == Emitted::Float(FloatInstr::Rem, l, r),
{
    (b.build_float_rem(l, r, name).ok(), Record { e: Emitted::Float(FloatInstr::Rem, l, r) })
}

/// `Builder::build_conditional_branch`; `false` where the builder refuses.
#[verifier::external_body]
pub(crate) fn build_conditional_branch<'ctx>(b: &Builder<'ctx>, cond: IntValue<'ctx>, then_block: BasicBlock<'ctx>, else_block: BasicBlock<'ctx>) -> bool {
    b.build_conditional_branch(cond, then_block, else_block).is_ok()
}

/// `Builder::build_unreachable`; `false` where the builder refuses.
#[verifier::external_body]
pub(crate) fn build_unreachable<'ctx>(b: &Builder<'ctx>) -> bool {
    b.build_unreachable().is_ok()
}

/// `Builder::build_return`, of the value if there is one (else a `ret
/// void`); `false` where the builder refuses. The record is the value
/// asked to be returned.
#[verifier::external_body]
pub(crate) fn build_return<'ctx>(b: &Builder<'ctx>, v: Option<BasicValueEnum<'ctx>>) -> (res: (bool, ReturnRecord<'ctx>))
    ensures
        res.1.returned() == v,
{
    (b.build_return(v.as_ref().map(|x| x as &dyn BasicValue<'ctx>)).is_ok(), ReturnRecord { value: v })
}

/// `Builder::build_unconditional_branch`; `false` where the builder
/// refuses.
#[verifier::external_body]
pub(crate) fn build_unconditional_branch<'ctx>(b: &Builder<'ctx>, target: BasicBlock<'ctx>) -> bool {
    b.build_unconditional_branch(target).is_ok()
}

/// `Builder::build_call` of `callee` as a function of its signature: the
/// function's pointer (`FunctionValue::as_global_value`,
/// `GlobalValue::as_pointer_value`) cast to a pointer to the signature's
/// type with `Builder::build_pointer_cast` (which emits nothing when the
/// function has that type), made a `CallableValue`, and called with the
/// arguments converted to `BasicMetadataValueEnum`; then
/// `CallSiteValue::try_as_basic_value`, its left side: the value returned,
/// `None` inside for a `void` signature.
/// The record is the callee's name and the arguments it was asked to be
/// called with.
#[verifier::external_body]
pub(crate) fn build_call<'ctx>(b: &Builder<'ctx>, callee: Callable<'ctx>, args: &[BasicValueEnum<'ctx>], name: &str) -> (res: (Option<Option<BasicValueEnum<'ctx>>>, CallRecord<'ctx>))
    ensures
        res.1.callee_name() == callee.callee_name(),
        res.1.arguments() == args@,
{
    let ptr = callee.function.as_global_value().as_pointer_value();
    let a: Vec<BasicMetadataValueEnum<'ctx>> = args.iter().map(|v| (*v).into()).collect();
    let value = match b.build_pointer_cast(ptr, callee.signature.t.ptr_type(AddressSpace::default()), "callee") {
        Ok(t) => match inkwell::values::CallableValue::try_from(t) {
            Ok(f) => match b.build_call(f, &a, name) {
                Ok(c) => Some(c.try_as_basic_value().left()),
                Err(_) => None,
            },
            Err(_) => None,
        },
        Err(_) => None,
    };
    (value, CallRecord { name: callee.name, args: args.to_vec() })
}

/// A load of a value of the basic type `pointee` through `ptr`:
/// `Builder::build_pointer_cast` of `ptr` to a pointer to `pointee` (no
/// instruction when it already is one), then `Builder::build_load` through
/// it. The loaded value has the basic type `pointee`. The record is the
/// place loaded from and the value the load gave.
#[verifier::external_body]
pub(crate) fn build_load<'ctx>(b: &Builder<'ctx>, ptr: PointerValue<'ctx>, pointee: BasicTypeEnum<'ctx>, name: &str) -> (res: (Option<BasicValueEnum<'ctx>>, LoadRecord<'ctx>))
    ensures
        res.1.source() == ptr,
        res.1.loaded() == res.0,
{
    let v = match b.build_pointer_cast(ptr, pointee.ptr_type(AddressSpace::default()), "typed_ptr") {
        Ok(typed) => b.build_load(typed, name).ok(),
        Err(_) => None,
    };
    (v, LoadRecord { ptr, value: v })
}

/// The record of a load `build_load` was asked for: the place and the
/// value it gave; only it makes one.
pub struct LoadRecord<'ctx> {
    ptr: PointerValue<'ctx>,
    value: Option<BasicValueEnum<'ctx>>,
}

impl<'ctx> LoadRecord<'ctx> {
    /// The place loaded from.
    pub closed spec fn source(&self) -> PointerValue<'ctx> {
        self.ptr
    }

    /// The value the load gave.
    pub closed spec fn loaded(&self) -> Option<BasicValueEnum<'ctx>> {
        self.value
    }
}

/// `Builder::build_global_string_ptr`; the record is the text the global
/// was asked to hold.
#[verifier::external_body]
pub(crate) fn build_global_string_ptr<'ctx>(b: &Builder<'ctx>, value: &str, name: &str) -> (res: (Option<GlobalValue<'ctx>>, TextRecord))
    ensures
        res.1.text() == value@,
{
    (b.build_global_string_ptr(value, name).ok(), TextRecord { text: value.to_string() })
}

/// `FunctionValue::as_global_value`: the function as a global.
#[verifier::external_body]
pub(crate) fn function_global<'ctx>(f: FunctionValue<'ctx>) -> GlobalValue<'ctx> {
    f.as_global_value()
}

/// `GlobalValue::as_pointer_value`.
#[verifier::external_body]
pub(crate) fn global_pointer<'ctx>(g: GlobalValue<'ctx>) -> PointerValue<'ctx> {
    g.as_pointer_value()
}

// ---------------------------------------------------------------- values

/// An integer value as a `BasicValueEnum` (`BasicValue::as_basic_value_enum`).
pub uninterp spec fn int_value_as_basic(v: IntValue) -> BasicValueEnum;

/// `BasicValue::as_basic_value_enum` of an integer value:
/// `int_value_as_basic` of it.
#[verifier::external_body]
pub(crate) fn int_value_basic<'ctx>(v: IntValue<'ctx>) -> (r: BasicValueEnum<'ctx>)
    ensures
        r == int_value_as_basic(v),
{
    v.as_basic_value_enum()
}

/// `BasicValue::as_basic_value_enum` of a floating-point value.
#[verifier::external_body]
pub(crate) fn float_value_basic<'ctx>(v: FloatValue<'ctx>) -> BasicValueEnum<'ctx> {
    v.as_basic_value_enum()
}

/// `BasicValue::as_basic_value_enum` of a struct value.
#[verifier::external_body]
pub(crate) fn struct_value_basic<'ctx>(v: StructValue<'ctx>) -> BasicValueEnum<'ctx> {
    v.as_basic_value_enum()
}

/// `BasicValue::as_basic_value_enum` of a pointer value.
#[verifier::external_body]
pub(crate) fn pointer_value_basic<'ctx>(v: PointerValue<'ctx>) -> BasicValueEnum<'ctx> {
    v.as_basic_value_enum()
}

/// The pointer inside a `BasicValueEnum::PointerValue`; `None` for the other
/// variants.
#[verifier::external_body]
pub(crate) fn basic_as_pointer<'ctx>(v: BasicValueEnum<'ctx>) -> Option<PointerValue<'ctx>> {
    match v {
        BasicValueEnum::PointerValue(p) => Some(p),
        _ => None,
    }
}

/// The value inside a `BasicValueEnum::IntValue`; `None` for the other
/// variants. The value found is the one `v` wraps, so taking it as a basic
/// value again (`int_value_as_basic`) gives `v` back.
#[verifier::external_body]
pub(crate) fn basic_as_int<'ctx>(v: BasicValueEnum<'ctx>) -> (r: Option<IntValue<'ctx>>)
    ensures
        r matches Some(i) ==> int_value_as_basic(i) == v,
{
    match v {
        BasicValueEnum::IntValue(i) => Some(i),
        _ => None,
    }
}

/// The struct inside a `BasicValueEnum::StructValue`; `None` for the
/// other variants.
#[verifier::external_body]
pub(crate) fn basic_as_struct<'ctx>(v: BasicValueEnum<'ctx>) -> Option<StructValue<'ctx>> {
    match v {
        BasicValueEnum::StructValue(s) => Some(s),
        _ => None,
    }
}

/// `Builder::build_is_null`.
#[verifier::external_body]
pub(crate) fn build_is_null<'ctx>(b: &Builder<'ctx>, p: PointerValue<'ctx>, name: &str) -> Option<IntValue<'ctx>> {
    b.build_is_null(p, name).ok()
}

/// The value inside a `BasicValueEnum::FloatValue`; `None` for the other
/// variants.
#[verifier::external_body]
pub(crate) fn basic_as_float<'ctx>(v: BasicValueEnum<'ctx>) -> Option<FloatValue<'ctx>> {
    match v {
        BasicValueEnum::FloatValue(f) => Some(f),
        _ => None,
    }
}

// ---------------------------------------------------------------- calls

/// The kind of a `BasicValueEnum`: which variant holds the value.
#[derive(PartialEq, Eq, Structural, Clone, Copy, Debug)]
pub enum ValueKind {
    Int,
    Float,
    Pointer,
    Other,
}

/// The variant of a `BasicValueEnum`, told apart by a `match`.
#[verifier::external_body]
pub(crate) fn value_kind<'ctx>(v: BasicValueEnum<'ctx>) -> ValueKind {
    match v {
        BasicValueEnum::IntValue(_) => ValueKind::Int,
        BasicValueEnum::FloatValue(_) => ValueKind::Float,
        BasicValueEnum::PointerValue(_) => ValueKind::Pointer,
        _ => ValueKind::Other,
    }
}

/// `FunctionType::print_to_string` of the function's type
/// (`FunctionValue::get_type`): its text, such as `double (double)`.
#[verifier::external_body]
pub(crate) fn function_type_text<'ctx>(f: FunctionValue<'ctx>) -> String {
    f.get_type().print_to_string().to_string()
}

/// `BasicValueEnum::get_type`: the basic type of a value.
#[verifier::external_body]
pub(crate) fn value_type<'ctx>(v: BasicValueEnum<'ctx>) -> BasicTypeEnum<'ctx> {
    v.get_type()
}

/// `Builder::build_call` through the function pointer `f` as a function
/// of the signature `sig`: `f` cast to a pointer to that type with
/// `Builder::build_pointer_cast`, made a `CallableValue`, and called with the
/// arguments converted to `BasicMetadataValueEnum`; then
/// `CallSiteValue::try_as_basic_value`, its left side: the value returned,
/// `None` inside for a `void` signature.
#[verifier::external_body]
pub(crate) fn build_pointer_call<'ctx>(b: &Builder<'ctx>, f: PointerValue<'ctx>, sig: Signature<'ctx>, args: &[BasicValueEnum<'ctx>], name: &str) -> Option<Option<BasicValueEnum<'ctx>>> {
    let typed = b.build_pointer_cast(f, sig.t.ptr_type(AddressSpace::default()), "fn_ptr_typed").ok()?;
    let callee = inkwell::values::CallableValue::try_from(typed).ok()?;
    let a: Vec<BasicMetadataValueEnum<'ctx>> = args.iter().map(|v| (*v).into()).collect();
    Some(b.build_call(callee, &a, name).ok()?.try_as_basic_value().left())
}

} // verus!
