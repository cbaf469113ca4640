//! The instruction tree that code generation produces: a module of types,
//! imports, globals, functions and exports, with instructions that nest as
//! WebAssembly's text format does.
use crate::types::{PrimitiveType, Type, TypeView};
use vstd::prelude::*;

verus! {

/// The views of the items of a list, in order.
pub open spec fn views<T: View>(items: Vec<T>) -> Seq<T::V> {
    Seq::new(items.len() as nat, |i: int| items[i]@)
}

/// The type of a value at run time.
#[derive(Debug, Clone, Copy, PartialEq, Eq, Structural)]
pub enum ValueType {
    I32,
    F32,
}

/// The run-time type of a value of a source type: `f32` stays a float, and
/// everything else is an `i32` (a number, a truth value or a pointer).
pub open spec fn value_type_of(ty: TypeView) -> ValueType {
    match ty {
        TypeView::Primitive(PrimitiveType::F32) => ValueType::F32,
        _ => ValueType::I32,
    }
}

impl ValueType {
    /// The run-time type of a value of the source type `ty`.
    pub fn from_type(ty: &Type) -> (vt: ValueType)
        ensures
            vt == value_type_of(ty@),
    {
        match ty {
            Type::Primitive(PrimitiveType::F32) => ValueType::F32,
            _ => ValueType::I32,
        }
    }
}

/// One instruction with its operands.
#[derive(Debug, PartialEq)]
pub enum Instruction {
    I32Add(Box<Instruction>, Box<Instruction>),
    I32Sub(Box<Instruction>, Box<Instruction>),
    I32Mul(Box<Instruction>, Box<Instruction>),
    I32Div(Box<Instruction>, Box<Instruction>),
    I32Eq(Box<Instruction>, Box<Instruction>),
    I32Neq(Box<Instruction>, Box<Instruction>),
    I32Gt(Box<Instruction>, Box<Instruction>),
    I32Ge(Box<Instruction>, Box<Instruction>),
    I32Lt(Box<Instruction>, Box<Instruction>),
    I32Le(Box<Instruction>, Box<Instruction>),
    I32And(Box<Instruction>, Box<Instruction>),
    I32Or(Box<Instruction>, Box<Instruction>),
    I32Xor(Box<Instruction>, Box<Instruction>),
    F32Add(Box<Instruction>, Box<Instruction>),
    /// Stores the second operand at the address that the first gives.
    I32Store(Box<Instruction>, Box<Instruction>),
    I32Load(Box<Instruction>),
    LocalGet(String),
    LocalSet(String, Box<Instruction>),
    GlobalGet(String),
    GlobalSet(String, Box<Instruction>),
    /// The condition, the instructions taken when it holds, the others.
    If(Box<Instruction>, Vec<Instruction>, Vec<Instruction>),
    Loop(usize, Vec<Instruction>),
    /// A branch back to the start of the loop with this label.
    BrLoop(usize),
    Block(usize, Vec<Instruction>),
    Return(Box<Instruction>),
    Call(String, Vec<Instruction>),
    I32Const(i32),
    /// A float constant, held as the bits of its IEEE 754 encoding.
    F32Const(u32),
    /// The declaration of a local.
    Local(String, ValueType),
    /// The tail of a function with a result, which every `Return` reaches.
    SynthReturn,
    Noop,
    /// A run of instructions that stands where one is expected.
    Complex(Vec<Instruction>),
    /// Instructions in text form, taken over as they are.
    RawWast(String),
}

/// An instruction as the contracts see it.
pub enum InstructionView {
    I32Add(Box<InstructionView>, Box<InstructionView>),
    I32Sub(Box<InstructionView>, Box<InstructionView>),
    I32Mul(Box<InstructionView>, Box<InstructionView>),
    I32Div(Box<InstructionView>, Box<InstructionView>),
    I32Eq(Box<InstructionView>, Box<InstructionView>),
    I32Neq(Box<InstructionView>, Box<InstructionView>),
    I32Gt(Box<InstructionView>, Box<InstructionView>),
    I32Ge(Box<InstructionView>, Box<InstructionView>),
    I32Lt(Box<InstructionView>, Box<InstructionView>),
    I32Le(Box<InstructionView>, Box<InstructionView>),
    I32And(Box<InstructionView>, Box<InstructionView>),
    I32Or(Box<InstructionView>, Box<InstructionView>),
    I32Xor(Box<InstructionView>, Box<InstructionView>),
    F32Add(Box<InstructionView>, Box<InstructionView>),
    I32Store(Box<InstructionView>, Box<InstructionView>),
    I32Load(Box<InstructionView>),
    LocalGet(Seq<char>),
    LocalSet(Seq<char>, Box<InstructionView>),
    GlobalGet(Seq<char>),
    GlobalSet(Seq<char>, Box<InstructionView>),
    If(Box<InstructionView>, Seq<InstructionView>, Seq<InstructionView>),
    Loop(nat, Seq<InstructionView>),
    BrLoop(nat),
    Block(nat, Seq<InstructionView>),
    Return(Box<InstructionView>),
    Call(Seq<char>, Seq<InstructionView>),
    I32Const(i32),
    F32Const(u32),
    Local(Seq<char>, ValueType),
    SynthReturn,
    Noop,
    Complex(Seq<InstructionView>),
    RawWast(Seq<char>),
}

/// The views of a list of instructions, in order.
pub open spec fn instruction_views(list: Vec<Instruction>) -> Seq<InstructionView>
    decreases list,
{
    Seq::new(
        list.len() as nat,
        |i: int|
            if 0 <= i < list.len() {
                list[i].model()
            } else {
                InstructionView::Noop
            },
    )
}

impl Instruction {
    /// The instruction as the contracts see it.
    pub open spec fn model(self) -> InstructionView
        decreases self,
    {
        match self {
            Instruction::I32Add(l, r) => InstructionView::I32Add(
                Box::new((*l).model()),
                Box::new((*r).model()),
            ),
            Instruction::I32Sub(l, r) => InstructionView::I32Sub(
                Box::new((*l).model()),
                Box::new((*r).model()),
            ),
            Instruction::I32Mul(l, r) => InstructionView::I32Mul(
                Box::new((*l).model()),
                Box::new((*r).model()),
            ),
            Instruction::I32Div(l, r) => InstructionView::I32Div(
                Box::new((*l).model()),
                Box::new((*r).model()),
            ),
            Instruction::I32Eq(l, r) => InstructionView::I32Eq(
                Box::new((*l).model()),
                Box::new((*r).model()),
            ),
            Instruction::I32Neq(l, r) => InstructionView::I32Neq(
                Box::new((*l).model()),
                Box::new((*r).model()),
            ),
            Instruction::I32Gt(l, r) => InstructionView::I32Gt(
                Box::new((*l).model()),
                Box::new((*r).model()),
            ),
            Instruction::I32Ge(l, r) => InstructionView::I32Ge(
                Box::new((*l).model()),
                Box::new((*r).model()),
            ),
            Instruction::I32Lt(l, r) => InstructionView::I32Lt(
                Box::new((*l).model()),
                Box::new((*r).model()),
            ),
            Instruction::I32Le(l, r) => InstructionView::I32Le(
                Box::new((*l).model()),
                Box::new((*r).model()),
            ),
            Instruction::I32And(l, r) => InstructionView::I32And(
                Box::new((*l).model()),
                Box::new((*r).model()),
            ),
            Instruction::I32Or(l, r) => InstructionView::I32Or(
                Box::new((*l).model()),
                Box::new((*r).model()),
            ),
            Instruction::I32Xor(l, r) => InstructionView::I32Xor(
                Box::new((*l).model()),
                Box::new((*r).model()),
            ),
            Instruction::F32Add(l, r) => InstructionView::F32Add(
                Box::new((*l).model()),
                Box::new((*r).model()),
            ),
            Instruction::I32Store(a, v) => InstructionView::I32Store(
                Box::new((*a).model()),
                Box::new((*v).model()),
            ),
            Instruction::I32Load(a) => InstructionView::I32Load(Box::new((*a).model())),
            Instruction::LocalGet(name) => InstructionView::LocalGet(name@),
            Instruction::LocalSet(name, v) => InstructionView::LocalSet(
                name@,
                Box::new((*v).model()),
            ),
            Instruction::GlobalGet(name) => InstructionView::GlobalGet(name@),
            Instruction::GlobalSet(name, v) => InstructionView::GlobalSet(
                name@,
                Box::new((*v).model()),
            ),
            Instruction::If(c, t, e) => InstructionView::If(
                Box::new((*c).model()),
                instruction_views(t),
                instruction_views(e),
            ),
            Instruction::Loop(label, body) => InstructionView::Loop(
                label as nat,
                instruction_views(body),
            ),
            Instruction::BrLoop(label) => InstructionView::BrLoop(label as nat),
            Instruction::Block(label, body) => InstructionView::Block(
                label as nat,
                instruction_views(body),
            ),
            Instruction::Return(v) => InstructionView::Return(Box::new((*v).model())),
            Instruction::Call(name, args) => InstructionView::Call(name@, instruction_views(args)),
            Instruction::I32Const(v) => InstructionView::I32Const(v),
            Instruction::F32Const(bits) => InstructionView::F32Const(bits),
            Instruction::Local(name, ty) => InstructionView::Local(name@, ty),
            Instruction::SynthReturn => InstructionView::SynthReturn,
            Instruction::Noop => InstructionView::Noop,
            Instruction::Complex(list) => InstructionView::Complex(instruction_views(list)),
            Instruction::RawWast(text) => InstructionView::RawWast(text@),
        }
    }
}

impl View for Instruction {
    type V = InstructionView;

    open spec fn view(&self) -> InstructionView {
        self.model()
    }
}

/// The signature of a function: its parameters by name and type, and its
/// result. Two signatures are the same when all of this agrees, the names too.
#[derive(Debug, PartialEq)]
pub struct FunctionType {
    pub params: Vec<(String, ValueType)>,
    pub ret: Option<ValueType>,
}

pub struct FunctionTypeView {
    pub params: Seq<(Seq<char>, ValueType)>,
    pub ret: Option<ValueType>,
}

/// The parameters of a signature as the contracts see them.
pub open spec fn param_views(params: Vec<(String, ValueType)>) -> Seq<(Seq<char>, ValueType)> {
    Seq::new(params.len() as nat, |i: int| (params[i].0@, params[i].1))
}

impl View for FunctionType {
    type V = FunctionTypeView;

    open spec fn view(&self) -> FunctionTypeView {
        FunctionTypeView { params: param_views(self.params), ret: self.ret }
    }
}

impl FunctionType {
    /// Whether two signatures are the same.
    pub fn same(&self, other: &FunctionType) -> (b: bool)
        ensures
            b == (self@ == other@),
    {
        if self.params.len() != other.params.len() {
            assert(self@.params.len() != other@.params.len());
            return false;
        }
        let mut k: usize = 0;
        while k < self.params.len()
            invariant
                k <= self.params.len(),
                self.params.len() == other.params.len(),
                forall|i: int| 0 <= i < k ==> self@.params[i] == other@.params[i],
            decreases self.params.len() - k,
        {
            let same_name = self.params[k].0 == other.params[k].0;
            if !same_name || self.params[k].1 != other.params[k].1 {
                assert(self@.params[k as int] != other@.params[k as int]);
                return false;
            }
            k += 1;
        }
        assert(self@.params =~= other@.params);
        match (self.ret, other.ret) {
            (None, None) => true,
            (Some(a), Some(b)) => a == b,
            _ => false,
        }
    }
}

/// A function of the module: its name, the index of its signature among the
/// module's types, and its instructions.
#[derive(Debug, PartialEq)]
pub struct Function {
    pub name: String,
    pub type_idx: usize,
    pub instructions: Vec<Instruction>,
}

pub struct FunctionView {
    pub name: Seq<char>,
    pub type_idx: nat,
    pub instructions: Seq<InstructionView>,
}

impl View for Function {
    type V = FunctionView;

    open spec fn view(&self) -> FunctionView {
        FunctionView {
            name: self.name@,
            type_idx: self.type_idx as nat,
            instructions: instruction_views(self.instructions),
        }
    }
}

/// A function that the host supplies, under the name `name` of `module`.
#[derive(Debug, PartialEq)]
pub struct FunctionImport {
    pub name: String,
    pub type_idx: usize,
    pub module: String,
}

pub struct FunctionImportView {
    pub name: Seq<char>,
    pub type_idx: nat,
    pub module: Seq<char>,
}

#[derive(Debug, PartialEq)]
pub enum Import {
    Function(FunctionImport),
}

pub enum ImportView {
    Function(FunctionImportView),
}

impl View for Import {
    type V = ImportView;

    open spec fn view(&self) -> ImportView {
        match self {
            Import::Function(f) => ImportView::Function(
                FunctionImportView { name: f.name@, type_idx: f.type_idx as nat, module: f.module@ },
            ),
        }
    }
}

/// The function with index `function_idx`, made visible under `name`.
#[derive(Debug, PartialEq)]
pub struct FunctionExport {
    pub function_idx: usize,
    pub name: String,
}

pub struct FunctionExportView {
    pub function_idx: nat,
    pub name: Seq<char>,
}

#[derive(Debug, PartialEq)]
pub enum Export {
    Function(FunctionExport),
}

pub enum ExportView {
    Function(FunctionExportView),
}

impl View for Export {
    type V = ExportView;

    open spec fn view(&self) -> ExportView {
        match self {
            Export::Function(f) => ExportView::Function(
                FunctionExportView { function_idx: f.function_idx as nat, name: f.name@ },
            ),
        }
    }
}

/// A global variable and the instruction that gives its first value.
#[derive(Debug, PartialEq)]
pub struct GlobalType {
    pub name: String,
    pub ty: ValueType,
    pub mutable: bool,
    pub initializer: Instruction,
}

pub struct GlobalTypeView {
    pub name: Seq<char>,
    pub ty: ValueType,
    pub mutable: bool,
    pub initializer: InstructionView,
}

impl View for GlobalType {
    type V = GlobalTypeView;

    open spec fn view(&self) -> GlobalTypeView {
        GlobalTypeView {
            name: self.name@,
            ty: self.ty,
            mutable: self.mutable,
            initializer: self.initializer@,
        }
    }
}

/// A module under construction or complete: five lists, each in the order
/// in which its entries were added.
#[derive(Debug, PartialEq)]
pub struct Module {
    pub imports: Vec<Import>,
    pub types: Vec<FunctionType>,
    pub functions: Vec<Function>,
    pub globals: Vec<GlobalType>,
    pub exports: Vec<Export>,
}

pub struct ModuleView {
    pub imports: Seq<ImportView>,
    pub types: Seq<FunctionTypeView>,
    pub functions: Seq<FunctionView>,
    pub globals: Seq<GlobalTypeView>,
    pub exports: Seq<ExportView>,
}

impl ModuleView {
    /// The module that holds nothing.
    pub open spec fn empty() -> ModuleView {
        ModuleView {
            imports: Seq::empty(),
            types: Seq::empty(),
            functions: Seq::empty(),
            globals: Seq::empty(),
            exports: Seq::empty(),
        }
    }
}

impl View for Module {
    type V = ModuleView;

    open spec fn view(&self) -> ModuleView {
        ModuleView {
            imports: views(self.imports),
            types: views(self.types),
            functions: views(self.functions),
            globals: views(self.globals),
            exports: views(self.exports),
        }
    }
}

impl Default for Module {
    fn default() -> (module: Module)
        ensures
            module@ == ModuleView::empty(),
    {
        Module::new()
    }
}

impl Module {
    /// The module that holds nothing.
    pub fn new() -> (module: Module)
        ensures
            module@ == ModuleView::empty(),
    {
        let module = Module {
            imports: Vec::new(),
            types: Vec::new(),
            functions: Vec::new(),
            globals: Vec::new(),
            exports: Vec::new(),
        };
        assert(module@.imports =~= Seq::empty());
        assert(module@.types =~= Seq::empty());
        assert(module@.functions =~= Seq::empty());
        assert(module@.globals =~= Seq::empty());
        assert(module@.exports =~= Seq::empty());
        module
    }
}

} // verus!
