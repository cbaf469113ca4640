//! From the instruction tree of a module to its sections.
//!
//! The sections that are written are those of types, functions, exports and
//! code. An export section exports the functions at the front of the
//! module, so the functions that are exported come first here, in the order
//! in which the module defines them, and the others follow.
use crate::wasm::encode::{
    encode_all, frame_views, name_views, write_instructions, EncodeCtx, EncodeError,
};
use crate::wasm::module::Module;
use crate::wasm::section::{CodeSection, FunctionCode, FunctionType, Section};
use crate::wasm::valtype::ValType;
use crate::wast::{
    instruction_views, param_views, Export, ExportView, FunctionView, Instruction, InstructionView,
    ModuleView, ValueType,
};
use vstd::prelude::*;

verus! {

/// The type of a value in the binary format.
pub open spec fn binary_type(ty: ValueType) -> ValType {
    match ty {
        ValueType::I32 => ValType::I32,
        ValueType::F32 => ValType::F32,
    }
}

/// The type of a result in the binary format; `Void` where there is none.
pub open spec fn binary_result(ret: Option<ValueType>) -> ValType {
    match ret {
        Some(ty) => binary_type(ty),
        None => ValType::Void,
    }
}

/// The function that an export makes visible.
pub open spec fn exported_function(export: ExportView) -> nat {
    match export {
        ExportView::Function(f) => f.function_idx,
    }
}

/// The name under which an export makes its function visible.
pub open spec fn exported_name(export: ExportView) -> Seq<char> {
    match export {
        ExportView::Function(f) => f.name,
    }
}

/// The first position at or after `k` of an export of the function `j`.
pub open spec fn export_from(exports: Seq<ExportView>, j: nat, k: int) -> Option<int>
    decreases exports.len() - k,
{
    if k < 0 || k >= exports.len() {
        None
    } else if exported_function(exports[k]) == j {
        Some(k)
    } else {
        export_from(exports, j, k + 1)
    }
}

/// Whether the module exports the function `j`.
pub open spec fn is_exported(m: ModuleView, j: nat) -> bool {
    export_from(m.exports, j, 0) is Some
}

/// The name of the function `j` in the sections: the name of its export
/// where it has one, its own name where it has none.
pub open spec fn section_name(m: ModuleView, j: nat) -> Seq<char> {
    match export_from(m.exports, j, 0) {
        Some(k) => exported_name(m.exports[k]),
        None => m.functions[j as int].name,
    }
}

/// Those of the first `n` functions that are exported, or those that are
/// not, in the order in which the module defines them.
pub open spec fn select(m: ModuleView, exported: bool, n: nat) -> Seq<nat>
    decreases n,
{
    if n == 0 {
        Seq::empty()
    } else if is_exported(m, (n - 1) as nat) == exported {
        select(m, exported, (n - 1) as nat).push((n - 1) as nat)
    } else {
        select(m, exported, (n - 1) as nat)
    }
}

/// The functions of the module in the order of the sections: the exported
/// ones first.
pub open spec fn binary_order(m: ModuleView) -> Seq<nat> {
    select(m, true, m.functions.len()) + select(m, false, m.functions.len())
}

/// The names of the functions in the order of the sections: a call finds
/// its function among these.
pub open spec fn function_names(m: ModuleView, order: Seq<nat>) -> Seq<Seq<char>> {
    order.map_values(|j: nat| m.functions[j as int].name)
}

/// The locals that the first `n` instructions of a function declare.
pub open spec fn declared_locals(instructions: Seq<InstructionView>, n: nat) -> Seq<
    (Seq<char>, ValueType),
>
    decreases n,
{
    if n == 0 || n > instructions.len() {
        Seq::empty()
    } else {
        match instructions[n - 1] {
            InstructionView::Local(name, ty) => declared_locals(instructions, (n - 1) as nat).push(
                (name, ty),
            ),
            _ => declared_locals(instructions, (n - 1) as nat),
        }
    }
}

/// The names of the locals of a function in the order of their indexes:
/// the parameters, then the locals that the function declares.
pub open spec fn local_names(m: ModuleView, f: FunctionView) -> Seq<Seq<char>> {
    (m.types[f.type_idx as int].params + declared_locals(
        f.instructions,
        f.instructions.len(),
    )).map_values(|local: (Seq<char>, ValueType)| local.0)
}

/// The types of the locals that a function declares.
pub open spec fn local_types(f: FunctionView) -> Seq<ValType> {
    declared_locals(f.instructions, f.instructions.len()).map_values(
        |local: (Seq<char>, ValueType)| binary_type(local.1),
    )
}

/// The instructions of a function in the binary format.
pub open spec fn function_code(m: ModuleView, order: Seq<nat>, f: FunctionView) -> Result<
    Seq<u8>,
    EncodeError,
> {
    encode_all(
        EncodeCtx {
            locals: local_names(m, f),
            functions: function_names(m, order),
            frames: Seq::empty(),
        },
        f.instructions,
        0,
        Seq::empty(),
    )
}

/// No two of the first `n` exports are exports of one function, and each
/// is the export of a function that the module has.
pub open spec fn exports_valid(m: ModuleView, n: nat) -> bool {
    &&& forall|k: int| 0 <= k < n ==> exported_function(#[trigger] m.exports[k]) < m.functions.len()
    &&& forall|a: int, b: int|
        0 <= a < b < n ==> exported_function(#[trigger] m.exports[a]) != exported_function(
            #[trigger] m.exports[b],
        )
}

/// The signature of each of the first `n` functions is among the types.
pub open spec fn signatures_valid(m: ModuleView, n: nat) -> bool {
    forall|j: int| 0 <= j < n ==> (#[trigger] m.functions[j]).type_idx < m.types.len()
}

/// Why a module cannot be assembled, if it cannot: it has imports or
/// globals, for which the sections have no place; it exports one function
/// twice; an export or a function names what the module does not have.
pub open spec fn assembly_error(m: ModuleView) -> Option<EncodeError> {
    if m.imports.len() > 0 || m.globals.len() > 0 {
        Some(EncodeError::Unsupported)
    } else if exists|k: int|
        0 <= k < m.exports.len() && exported_function(#[trigger] m.exports[k])
            >= m.functions.len() {
        Some(EncodeError::InvalidIndex)
    } else if !exports_valid(m, m.exports.len()) {
        Some(EncodeError::Unsupported)
    } else if !signatures_valid(m, m.functions.len()) {
        Some(EncodeError::InvalidIndex)
    } else {
        None
    }
}

/// The first of the functions `order[k..]` whose instructions have no
/// encoding gives its error.
pub open spec fn code_error(m: ModuleView, order: Seq<nat>, k: nat) -> Option<EncodeError>
    decreases order.len() - k,
{
    if k >= order.len() {
        None
    } else {
        match function_code(m, order, m.functions[order[k as int] as int]) {
            Err(e) => Some(e),
            Ok(_) => code_error(m, order, k + 1),
        }
    }
}

/// The entry of the sections describes the function `j` of the module.
pub open spec fn describes<'a>(entry: FunctionType<'a>, m: ModuleView, j: nat) -> bool {
    let f = m.functions[j as int];
    let ty = m.types[f.type_idx as int];
    &&& entry.name@ == section_name(m, j)
    &&& entry.export == is_exported(m, j)
    &&& entry.params@ == ty.params.map_values(|p: (Seq<char>, ValueType)| binary_type(p.1))
    &&& entry.ret == binary_result(ty.ret)
}

/// The entries describe the first `n` functions in the order of the
/// sections.
pub open spec fn describe_all<'a>(entries: Seq<FunctionType<'a>>, m: ModuleView, n: nat) -> bool {
    &&& entries.len() == n
    &&& forall|i: int| 0 <= i < n ==> describes(#[trigger] entries[i], m, binary_order(m)[i])
}

/// The body holds the locals and the instructions of the function `j`.
pub open spec fn holds_code(body: FunctionCode, m: ModuleView, j: nat) -> bool {
    let f = m.functions[j as int];
    &&& body.locals@ == local_types(f)
    &&& function_code(m, binary_order(m), f) == Ok::<Seq<u8>, EncodeError>(body.code@)
}

/// The sections are those of the module: the types, the functions and the
/// code of all its functions in the order of the sections, and the exports
/// of those that are exported.
pub open spec fn assembled<'a>(sections: Seq<Section<'a>>, m: ModuleView) -> bool {
    let order = binary_order(m);
    &&& sections.len() == 4
    &&& sections[0] matches Section::Type(types) && describe_all(types.functions@, m, order.len())
    &&& sections[1] matches Section::Function(functions) && describe_all(
        functions.functions@,
        m,
        order.len(),
    )
    &&& sections[2] matches Section::Export(exports) && describe_all(
        exports.functions@,
        m,
        select(m, true, m.functions.len()).len(),
    )
    &&& sections[3] matches Section::Code(code) && code.bodies@.len() == order.len() && forall|
        i: int,
    | 0 <= i < order.len() ==> holds_code(#[trigger] code.bodies@[i], m, order[i])
}

/// The positions of an order as the model counts them.
pub open spec fn order_view(order: Seq<usize>) -> Seq<nat> {
    order.map_values(|j: usize| j as nat)
}

/// The type of a value in the binary format.
pub fn to_binary_type(ty: ValueType) -> (binary: ValType)
    ensures
        binary == binary_type(ty),
{
    match ty {
        ValueType::I32 => ValType::I32,
        ValueType::F32 => ValType::F32,
    }
}

/// Finds the first export of the function `j`.
pub fn find_export(m: &crate::wast::Module, j: usize) -> (found: Option<usize>)
    ensures
        match found {
            Some(k) => k < m.exports.len() && export_from(m@.exports, j as nat, 0) == Some(k as int),
            None => export_from(m@.exports, j as nat, 0) is None,
        },
{
    let mut k: usize = 0;
    while k < m.exports.len()
        invariant
            k <= m.exports.len(),
            export_from(m@.exports, j as nat, 0) == export_from(m@.exports, j as nat, k as int),
        decreases m.exports.len() - k,
    {
        assert(m@.exports[k as int] == m.exports[k as int]@);
        let Export::Function(export) = &m.exports[k];
        if export.function_idx == j {
            return Some(k);
        }
        k += 1;
    }
    None
}

/// The function that the export at `k` makes visible.
fn export_target(m: &crate::wast::Module, k: usize) -> (j: usize)
    requires
        k < m.exports.len(),
    ensures
        j as nat == exported_function(m@.exports[k as int]),
{
    assert(m@.exports[k as int] == m.exports[k as int]@);
    let Export::Function(export) = &m.exports[k];
    export.function_idx
}

/// Why the module cannot be assembled, if it cannot.
pub fn check(m: &crate::wast::Module) -> (error: Option<EncodeError>)
    ensures
        error == assembly_error(m@),
{
    if m.imports.len() > 0 || m.globals.len() > 0 {
        return Some(EncodeError::Unsupported);
    }
    let count = m.exports.len();
    let mut k: usize = 0;
    while k < count
        invariant
            k <= count == m.exports.len(),
            m@.imports.len() == 0 && m@.globals.len() == 0,
            forall|i: int|
                0 <= i < k ==> exported_function(#[trigger] m@.exports[i]) < m@.functions.len(),
        decreases count - k,
    {
        if export_target(m, k) >= m.functions.len() {
            assert(exported_function(m@.exports[k as int]) >= m@.functions.len());
            return Some(EncodeError::InvalidIndex);
        }
        k += 1;
    }
    let mut b: usize = 0;
    while b < count
        invariant
            b <= count == m.exports.len(),
            m@.imports.len() == 0 && m@.globals.len() == 0,
            forall|i: int|
                0 <= i < count ==> exported_function(#[trigger] m@.exports[i]) < m@.functions.len(),
            exports_valid(m@, b as nat),
        decreases count - b,
    {
        let target = export_target(m, b);
        let mut a: usize = 0;
        while a < b
            invariant
                a <= b < count == m.exports.len(),
                m@.imports.len() == 0 && m@.globals.len() == 0,
                target as nat == exported_function(m@.exports[b as int]),
                forall|i: int|
                    0 <= i < count ==> exported_function(#[trigger] m@.exports[i])
                        < m@.functions.len(),
                exports_valid(m@, b as nat),
                forall|i: int|
                    0 <= i < a ==> exported_function(#[trigger] m@.exports[i]) != target as nat,
            decreases b - a,
        {
            if export_target(m, a) == target {
                assert(!exports_valid(m@, m@.exports.len()));
                return Some(EncodeError::Unsupported);
            }
            a += 1;
        }
        b += 1;
    }
    let mut j: usize = 0;
    while j < m.functions.len()
        invariant
            j <= m.functions.len(),
            assembly_error(m@) == if signatures_valid(m@, m@.functions.len()) {
                None
            } else {
                Some(EncodeError::InvalidIndex)
            },
            signatures_valid(m@, j as nat),
        decreases m.functions.len() - j,
    {
        assert(m@.functions[j as int] == m.functions[j as int]@);
        if m.functions[j].type_idx >= m.types.len() {
            return Some(EncodeError::InvalidIndex);
        }
        j += 1;
    }
    None
}

/// The functions of the module in the order of the sections, and how many
/// of them are exported.
pub fn section_order(m: &crate::wast::Module) -> (r: (Vec<usize>, usize))
    ensures
        order_view(r.0@) == binary_order(m@),
        r.1 == select(m@, true, m@.functions.len()).len(),
        r.0@.len() == m.functions.len(),
        forall|i: int| 0 <= i < r.0@.len() ==> #[trigger] r.0@[i] < m.functions.len(),
{
    let count = m.functions.len();
    let mut order: Vec<usize> = Vec::new();
    let mut others: Vec<usize> = Vec::new();
    let mut j: usize = 0;
    assert(order_view(order@) =~= select(m@, true, 0));
    assert(order_view(others@) =~= select(m@, false, 0));
    while j < count
        invariant
            j <= count == m.functions.len(),
            order_view(order@) == select(m@, true, j as nat),
            order_view(others@) == select(m@, false, j as nat),
            order@.len() + others@.len() == j,
            forall|i: int| 0 <= i < order@.len() ==> #[trigger] order@[i] < count,
            forall|i: int| 0 <= i < others@.len() ==> #[trigger] others@[i] < count,
        decreases count - j,
    {
        let ghost chosen = order_view(order@);
        let ghost rest = order_view(others@);
        if find_export(m, j).is_some() {
            order.push(j);
            assert(order_view(order@) =~= chosen.push(j as nat));
        } else {
            others.push(j);
            assert(order_view(others@) =~= rest.push(j as nat));
        }
        j += 1;
    }
    let exported = order.len();
    let ghost first = order@;
    let ghost second = others@;
    order.append(&mut others);
    assert(order_view(order@) =~= order_view(first) + order_view(second));
    (order, exported)
}

/// The names of the functions in the order of the sections.
pub fn section_names(m: &crate::wast::Module, order: &Vec<usize>) -> (names: Vec<String>)
    requires
        forall|i: int| 0 <= i < order@.len() ==> #[trigger] order@[i] < m.functions.len(),
    ensures
        name_views(names) == function_names(m@, order_view(order@)),
{
    let mut names: Vec<String> = Vec::new();
    let mut k: usize = 0;
    while k < order.len()
        invariant
            k <= order.len(),
            forall|i: int| 0 <= i < order@.len() ==> #[trigger] order@[i] < m.functions.len(),
            names.len() == k,
            forall|i: int|
                0 <= i < k ==> (#[trigger] names[i])@ == m@.functions[order@[i] as int].name,
        decreases order.len() - k,
    {
        let j = order[k];
        assert(m@.functions[j as int] == m.functions[j as int]@);
        names.push(m.functions[j].name.clone());
        k += 1;
    }
    assert(name_views(names) =~= function_names(m@, order_view(order@)));
    names
}

/// The entry of the sections for the function `j`.
pub fn describe<'a>(m: &'a crate::wast::Module, j: usize) -> (entry: FunctionType<'a>)
    requires
        j < m.functions.len(),
        m.functions[j as int].type_idx < m.types.len(),
    ensures
        describes(entry, m@, j as nat),
{
    let function = &m.functions[j];
    let ty = &m.types[function.type_idx];
    assert(m@.functions[j as int] == function@);
    assert(m@.types[function.type_idx as int] == ty@);
    let (name, export): (&'a str, bool) = match find_export(m, j) {
        Some(k) => {
            assert(m@.exports[k as int] == m.exports[k as int]@);
            let Export::Function(export) = &m.exports[k];
            (export.name.as_str(), true)
        },
        None => (function.name.as_str(), false),
    };
    let ghost expected = ty@.params.map_values(|p: (Seq<char>, ValueType)| binary_type(p.1));
    let mut params: Vec<ValType> = Vec::new();
    let mut k: usize = 0;
    while k < ty.params.len()
        invariant
            k <= ty.params.len(),
            expected == ty@.params.map_values(|p: (Seq<char>, ValueType)| binary_type(p.1)),
            params@ == expected.take(k as int),
        decreases ty.params.len() - k,
    {
        params.push(to_binary_type(ty.params[k].1));
        k += 1;
        assert(params@ =~= expected.take(k as int));
    }
    assert(expected.take(k as int) =~= expected);
    let ret = match ty.ret {
        Some(ty) => to_binary_type(ty),
        None => ValType::Void,
    };
    FunctionType { name, export, params, ret }
}

/// The entries of the sections for the first `count` functions in the
/// order of the sections.
pub fn describe_first<'a>(m: &'a crate::wast::Module, order: &Vec<usize>, count: usize) -> (entries:
    Vec<FunctionType<'a>>)
    requires
        count <= order@.len(),
        order_view(order@) == binary_order(m@),
        forall|i: int| 0 <= i < order@.len() ==> #[trigger] order@[i] < m.functions.len(),
        signatures_valid(m@, m@.functions.len()),
    ensures
        describe_all(entries@, m@, count as nat),
{
    let mut entries: Vec<FunctionType<'a>> = Vec::new();
    let mut k: usize = 0;
    while k < count
        invariant
            k <= count <= order@.len(),
            order_view(order@) == binary_order(m@),
            forall|i: int| 0 <= i < order@.len() ==> #[trigger] order@[i] < m.functions.len(),
            signatures_valid(m@, m@.functions.len()),
            describe_all(entries@, m@, k as nat),
        decreases count - k,
    {
        let j = order[k];
        assert(order_view(order@)[k as int] == j as nat);
        assert(m@.functions[j as int] == m.functions[j as int]@);
        let entry = describe(m, j);
        entries.push(entry);
        k += 1;
    }
    entries
}

/// The locals of a function: their names in the order of their indexes,
/// parameters first, and the types of those that the function declares.
pub fn locals_of(m: &crate::wast::Module, j: usize) -> (r: (Vec<String>, Vec<ValType>))
    requires
        j < m.functions.len(),
        m.functions[j as int].type_idx < m.types.len(),
    ensures
        name_views(r.0) == local_names(m@, m@.functions[j as int]),
        r.1@ == local_types(m@.functions[j as int]),
{
    let function = &m.functions[j];
    let ty = &m.types[function.type_idx];
    assert(m@.functions[j as int] == function@);
    assert(m@.types[function.type_idx as int] == ty@);
    let ghost params = ty@.params;
    let ghost body = function@.instructions;
    let mut names: Vec<String> = Vec::new();
    let mut k: usize = 0;
    while k < ty.params.len()
        invariant
            k <= ty.params.len(),
            params == param_views(ty.params),
            name_views(names) == params.take(k as int).map_values(
                |local: (Seq<char>, ValueType)| local.0,
            ),
        decreases ty.params.len() - k,
    {
        let ghost before = name_views(names);
        names.push(ty.params[k].0.clone());
        k += 1;
        assert(name_views(names) =~= before.push(params[k - 1].0));
        assert(name_views(names) =~= params.take(k as int).map_values(
            |local: (Seq<char>, ValueType)| local.0,
        ));
    }
    assert(params.take(k as int) =~= params);
    let mut types: Vec<ValType> = Vec::new();
    let mut i: usize = 0;
    assert(declared_locals(body, 0) =~= Seq::empty());
    assert(name_views(names) =~= (params + declared_locals(body, 0)).map_values(
        |local: (Seq<char>, ValueType)| local.0,
    ));
    assert(types@ =~= declared_locals(body, 0).map_values(
        |local: (Seq<char>, ValueType)| binary_type(local.1),
    ));
    while i < function.instructions.len()
        invariant
            i <= function.instructions.len(),
            body == instruction_views(function.instructions),
            name_views(names) == (params + declared_locals(body, i as nat)).map_values(
                |local: (Seq<char>, ValueType)| local.0,
            ),
            types@ == declared_locals(body, i as nat).map_values(
                |local: (Seq<char>, ValueType)| binary_type(local.1),
            ),
        decreases function.instructions.len() - i,
    {
        let ghost before = name_views(names);
        let ghost declared = declared_locals(body, i as nat);
        assert(body[i as int] == function.instructions[i as int]@);
        match &function.instructions[i] {
            Instruction::Local(name, local) => {
                names.push(name.clone());
                types.push(to_binary_type(*local));
                assert(declared_locals(body, (i + 1) as nat) == declared.push((name@, *local)));
                assert(name_views(names) =~= before.push(name@));
                assert(name_views(names) =~= (params + declared.push((name@, *local))).map_values(
                    |local: (Seq<char>, ValueType)| local.0,
                ));
                assert(types@ =~= declared.push((name@, *local)).map_values(
                    |local: (Seq<char>, ValueType)| binary_type(local.1),
                ));
            },
            _ => {
                assert(declared_locals(body, (i + 1) as nat) == declared);
            },
        }
        i += 1;
    }
    (names, types)
}

/// The body of the function `j`: its locals and its instructions in the
/// binary format.
pub fn assemble_function(m: &crate::wast::Module, names: &Vec<String>, j: usize) -> (r: Result<
    FunctionCode,
    EncodeError,
>)
    requires
        j < m.functions.len(),
        m.functions[j as int].type_idx < m.types.len(),
        name_views(*names) == function_names(m@, binary_order(m@)),
    ensures
        match function_code(m@, binary_order(m@), m@.functions[j as int]) {
            Ok(code) => r matches Ok(body) && holds_code(body, m@, j as nat),
            Err(e) => r matches Err(x) && x == e,
        },
{
    let (locals, types) = locals_of(m, j);
    let function = &m.functions[j];
    assert(m@.functions[j as int] == function@);
    let mut frames: Vec<Option<usize>> = Vec::new();
    assert(frame_views(frames@) =~= Seq::empty());
    let mut code: Vec<u8> = Vec::new();
    match write_instructions(&mut code, &locals, names, &mut frames, &function.instructions) {
        Ok(()) => {
            proof {
                let bytes = function_code(m@, binary_order(m@), function@)->Ok_0;
                assert(code@ =~= bytes);
            }
            Ok(FunctionCode { locals: types, code })
        },
        Err(e) => Err(e),
    }
}

/// Assembles the sections of a module from its instruction tree.
///
/// A module with imports or globals, with a function that is exported
/// twice, or with an index that names nothing has no sections; nor has one
/// with a function whose instructions have no encoding. The error is that
/// of `assembly_error`, or else that of the first function, in the order of
/// the sections, that has one.
pub fn assemble<'a>(m: &'a crate::wast::Module) -> (r: Result<Module<'a>, EncodeError>)
    ensures
        match assembly_error(m@) {
            Some(e) => r matches Err(x) && x == e,
            None => match code_error(m@, binary_order(m@), 0) {
                Some(e) => r matches Err(x) && x == e,
                None => r matches Ok(module) && assembled(module.segments@, m@) && module.ordered(),
            },
        },
{
    if let Some(e) = check(m) {
        return Err(e);
    }
    let (order, exported) = section_order(m);
    let names = section_names(m, &order);
    let ghost sequence = binary_order(m@);
    let mut bodies: Vec<FunctionCode> = Vec::new();
    let mut k: usize = 0;
    while k < order.len()
        invariant
            k <= order.len(),
            assembly_error(m@) is None,
            sequence == binary_order(m@),
            order_view(order@) == sequence,
            forall|i: int| 0 <= i < order@.len() ==> #[trigger] order@[i] < m.functions.len(),
            name_views(names) == function_names(m@, sequence),
            code_error(m@, sequence, 0) == code_error(m@, sequence, k as nat),
            bodies@.len() == k,
            forall|i: int| 0 <= i < k ==> holds_code(#[trigger] bodies@[i], m@, sequence[i]),
        decreases order.len() - k,
    {
        let j = order[k];
        assert(sequence[k as int] == j as nat);
        assert(m@.functions[j as int] == m.functions[j as int]@);
        match assemble_function(m, &names, j) {
            Ok(body) => {
                bodies.push(body);
            },
            Err(e) => {
                return Err(e);
            },
        }
        k += 1;
    }
    let mut segments: Vec<Section<'a>> = Vec::new();
    segments.push(Section::type_section(describe_first(m, &order, order.len())));
    segments.push(Section::function_section(describe_first(m, &order, order.len())));
    assert(select(m@, true, m@.functions.len()).len() <= sequence.len());
    segments.push(Section::export_section(describe_first(m, &order, exported)));
    segments.push(Section::Code(CodeSection::with_bodies(bodies)));
    let module = Module { segments };
    assert(module.ordered()) by {
        assert forall|i: int| 0 < i < 4 implies (#[trigger] module.segments@[i - 1]).spec_id()
            < module.segments@[i].spec_id() by {
            if i == 1 {
            } else if i == 2 {
            } else {
            }
        }
    }
    Ok(module)
}

} // verus!
