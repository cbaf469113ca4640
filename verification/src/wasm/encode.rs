//! The instructions of a function body in the binary format.
use crate::wasm::leb128::{leb128, max_u32, sleb128, write_len, write_sleb128};
use crate::wast::{instruction_views, Instruction, InstructionView};
use vstd::prelude::*;
use vstd::string::StringExecFns;

verus! {

/// Why an instruction tree has no encoding.
#[derive(Debug, Clone, Copy, PartialEq, Eq, Structural)]
pub enum EncodeError {
    /// Instructions in text form, a global, or an import: the sections that
    /// are written have no place for them.
    Unsupported,
    /// A local that the function does not declare.
    UnknownLocal,
    /// A call of a function that the module does not define.
    UnknownFunction,
    /// A branch to a loop that does not enclose it.
    UnknownLabel,
    /// A function whose signature is not among the module's types, or an
    /// export of a function that the module does not have.
    InvalidIndex,
    /// An index that is above what 32 bits hold.
    TooLarge,
}

pub const OP_NOP: u8 = 0x01;

pub const OP_BLOCK: u8 = 0x02;

pub const OP_LOOP: u8 = 0x03;

pub const OP_IF: u8 = 0x04;

pub const OP_ELSE: u8 = 0x05;

pub const OP_END: u8 = 0x0b;

pub const OP_BR: u8 = 0x0c;

pub const OP_RETURN: u8 = 0x0f;

pub const OP_CALL: u8 = 0x10;

pub const OP_LOCAL_GET: u8 = 0x20;

pub const OP_LOCAL_SET: u8 = 0x21;

pub const OP_I32_LOAD: u8 = 0x28;

pub const OP_I32_STORE: u8 = 0x36;

pub const OP_I32_CONST: u8 = 0x41;

pub const OP_F32_CONST: u8 = 0x43;

pub const OP_I32_EQ: u8 = 0x46;

pub const OP_I32_NE: u8 = 0x47;

pub const OP_I32_LT_S: u8 = 0x48;

pub const OP_I32_GT_S: u8 = 0x4a;

pub const OP_I32_LE_S: u8 = 0x4c;

pub const OP_I32_GE_S: u8 = 0x4e;

pub const OP_I32_ADD: u8 = 0x6a;

pub const OP_I32_SUB: u8 = 0x6b;

pub const OP_I32_MUL: u8 = 0x6c;

pub const OP_I32_DIV_S: u8 = 0x6d;

pub const OP_I32_AND: u8 = 0x71;

pub const OP_I32_OR: u8 = 0x72;

pub const OP_I32_XOR: u8 = 0x73;

pub const OP_F32_ADD: u8 = 0x92;

/// The type of a block that leaves nothing on the stack.
pub const BLOCK_TYPE_EMPTY: u8 = 0x40;

/// The first position at or after `k` at which `names` holds `name`.
pub open spec fn name_from(names: Seq<Seq<char>>, name: Seq<char>, k: int) -> Option<int>
    decreases names.len() - k,
{
    if k < 0 || k >= names.len() {
        None
    } else if names[k] == name {
        Some(k)
    } else {
        name_from(names, name, k + 1)
    }
}

/// How many structures lie between an instruction and the loop with the
/// label `label` that encloses it, counted from `depth` structures out.
/// `frames` holds the enclosing structures, the innermost last: the label of
/// a loop, nothing for a block or a branch of an `if`.
pub open spec fn depth_from(frames: Seq<Option<nat>>, label: nat, depth: nat) -> Option<nat>
    decreases frames.len() - depth,
{
    if depth >= frames.len() {
        None
    } else if frames[frames.len() - 1 - depth] == Some(label) {
        Some(depth)
    } else {
        depth_from(frames, label, depth + 1)
    }
}

/// What the encoding of an instruction depends on: the locals of the
/// function and the functions of the module, each by name in the order of
/// their indexes, and the structures that enclose the instruction.
pub struct EncodeCtx {
    pub locals: Seq<Seq<char>>,
    pub functions: Seq<Seq<char>>,
    pub frames: Seq<Option<nat>>,
}

impl EncodeCtx {
    /// The context inside one more structure.
    pub open spec fn inside(self, frame: Option<nat>) -> EncodeCtx {
        EncodeCtx { frames: self.frames.push(frame), ..self }
    }
}

/// An opcode with an index behind it, where the index is known and fits.
pub open spec fn indexed(opcode: u8, index: Option<int>, unknown: EncodeError) -> Result<
    Seq<u8>,
    EncodeError,
> {
    match index {
        None => Err(unknown),
        Some(i) => if i > max_u32() {
            Err(EncodeError::TooLarge)
        } else {
            Ok(seq![opcode] + leb128(i as nat))
        },
    }
}

/// The four bytes of a 32-bit pattern, least significant first.
pub open spec fn le_bytes(bits: u32) -> Seq<u8> {
    seq![
        (bits % 256) as u8,
        (bits / 256 % 256) as u8,
        (bits / 65536 % 256) as u8,
        (bits / 16777216) as u8,
    ]
}

/// The alignment and offset of a memory access: four bytes, no offset.
pub open spec fn memarg() -> Seq<u8> {
    seq![0x02u8, 0x00u8]
}

/// A loop or a block around its body.
pub open spec fn structure(opcode: u8, body: Result<Seq<u8>, EncodeError>) -> Result<
    Seq<u8>,
    EncodeError,
> {
    then(then(Ok(seq![opcode, BLOCK_TYPE_EMPTY]), body), Ok(seq![OP_END]))
}

/// Two operands, the left one first, then the opcode.
pub open spec fn operation(
    left: Result<Seq<u8>, EncodeError>,
    right: Result<Seq<u8>, EncodeError>,
    opcode: u8,
) -> Result<Seq<u8>, EncodeError> {
    then(then(left, right), Ok(seq![opcode]))
}

/// Two runs of bytes, one after the other; the first error where there is
/// one.
pub open spec fn then(first: Result<Seq<u8>, EncodeError>, second: Result<Seq<u8>, EncodeError>) -> Result<
    Seq<u8>,
    EncodeError,
> {
    match first {
        Err(e) => Err(e),
        Ok(a) => match second {
            Err(e) => Err(e),
            Ok(b) => Ok(a + b),
        },
    }
}

/// An instruction in the binary format: the operands first, in order, then
/// the opcode with what belongs to it.
///
/// A name becomes its index. A loop, a block and an `if` leave nothing on
/// the stack. A branch names the loop by the number of structures between.
/// `Return` is the return of the value; the synthetic return is the return
/// of the local `return`. The declaration of a local is no code.
pub open spec fn encode(ctx: EncodeCtx, i: InstructionView) -> Result<Seq<u8>, EncodeError>
    decreases i,
{
    match i {
        InstructionView::I32Store(a, v) => then(
            operation(encode(ctx, *a), encode(ctx, *v), OP_I32_STORE),
            Ok(memarg()),
        ),
        InstructionView::I32Load(a) => then(encode(ctx, *a), Ok(seq![OP_I32_LOAD] + memarg())),
        InstructionView::LocalGet(name) => indexed(
            OP_LOCAL_GET,
            name_from(ctx.locals, name, 0),
            EncodeError::UnknownLocal,
        ),
        InstructionView::LocalSet(name, v) => then(
            encode(ctx, *v),
            indexed(OP_LOCAL_SET, name_from(ctx.locals, name, 0), EncodeError::UnknownLocal),
        ),
        InstructionView::GlobalGet(_) => Err(EncodeError::Unsupported),
        InstructionView::GlobalSet(_, _) => Err(EncodeError::Unsupported),
        InstructionView::If(c, t, e) => encode_if(
            encode(ctx, *c),
            encode_all(ctx.inside(None), t, 0, Seq::empty()),
            encode_all(ctx.inside(None), e, 0, Seq::empty()),
            e.len() > 0,
        ),
        InstructionView::Loop(label, body) => structure(
            OP_LOOP,
            encode_all(ctx.inside(Some(label)), body, 0, Seq::empty()),
        ),
        InstructionView::BrLoop(label) => match depth_from(ctx.frames, label, 0) {
            None => Err(EncodeError::UnknownLabel),
            Some(depth) => indexed(OP_BR, Some(depth as int), EncodeError::UnknownLabel),
        },
        InstructionView::Block(_, body) => structure(
            OP_BLOCK,
            encode_all(ctx.inside(None), body, 0, Seq::empty()),
        ),
        InstructionView::Return(v) => then(encode(ctx, *v), Ok(seq![OP_RETURN])),
        InstructionView::Call(name, args) => then(
            encode_all(ctx, args, 0, Seq::empty()),
            indexed(OP_CALL, name_from(ctx.functions, name, 0), EncodeError::UnknownFunction),
        ),
        InstructionView::I32Const(v) => Ok(seq![OP_I32_CONST] + sleb128(v as int)),
        InstructionView::F32Const(bits) => Ok(seq![OP_F32_CONST] + le_bytes(bits)),
        InstructionView::Local(_, _) => Ok(Seq::empty()),
        InstructionView::SynthReturn => then(
            indexed(OP_LOCAL_GET, name_from(ctx.locals, "return"@, 0), EncodeError::UnknownLocal),
            Ok(seq![OP_RETURN]),
        ),
        InstructionView::Noop => Ok(seq![OP_NOP]),
        InstructionView::Complex(list) => encode_all(ctx, list, 0, Seq::empty()),
        InstructionView::RawWast(_) => Err(EncodeError::Unsupported),
        InstructionView::I32Add(l, r) => operation(encode(ctx, *l), encode(ctx, *r), OP_I32_ADD),
        InstructionView::I32Sub(l, r) => operation(encode(ctx, *l), encode(ctx, *r), OP_I32_SUB),
        InstructionView::I32Mul(l, r) => operation(encode(ctx, *l), encode(ctx, *r), OP_I32_MUL),
        InstructionView::I32Div(l, r) => operation(encode(ctx, *l), encode(ctx, *r), OP_I32_DIV_S),
        InstructionView::I32Eq(l, r) => operation(encode(ctx, *l), encode(ctx, *r), OP_I32_EQ),
        InstructionView::I32Neq(l, r) => operation(encode(ctx, *l), encode(ctx, *r), OP_I32_NE),
        InstructionView::I32Gt(l, r) => operation(encode(ctx, *l), encode(ctx, *r), OP_I32_GT_S),
        InstructionView::I32Ge(l, r) => operation(encode(ctx, *l), encode(ctx, *r), OP_I32_GE_S),
        InstructionView::I32Lt(l, r) => operation(encode(ctx, *l), encode(ctx, *r), OP_I32_LT_S),
        InstructionView::I32Le(l, r) => operation(encode(ctx, *l), encode(ctx, *r), OP_I32_LE_S),
        InstructionView::I32And(l, r) => operation(encode(ctx, *l), encode(ctx, *r), OP_I32_AND),
        InstructionView::I32Or(l, r) => operation(encode(ctx, *l), encode(ctx, *r), OP_I32_OR),
        InstructionView::I32Xor(l, r) => operation(encode(ctx, *l), encode(ctx, *r), OP_I32_XOR),
        InstructionView::F32Add(l, r) => operation(encode(ctx, *l), encode(ctx, *r), OP_F32_ADD),
    }
}

/// The instructions `list[k..]` one after the other, appended to `acc`.
pub open spec fn encode_all(ctx: EncodeCtx, list: Seq<InstructionView>, k: nat, acc: Seq<u8>) -> Result<
    Seq<u8>,
    EncodeError,
>
    decreases list, list.len() - k,
{
    if k >= list.len() {
        Ok(acc)
    } else {
        match encode(ctx, list[k as int]) {
            Err(e) => Err(e),
            Ok(bytes) => encode_all(ctx, list, k + 1, acc + bytes),
        }
    }
}

/// The names of a list, in order.
pub open spec fn name_views(names: Vec<String>) -> Seq<Seq<char>> {
    Seq::new(names.len() as nat, |i: int| names[i]@)
}

/// The enclosing structures as the contracts see them.
pub open spec fn frame_views(frames: Seq<Option<usize>>) -> Seq<Option<nat>> {
    frames.map_values(
        |frame: Option<usize>|
            match frame {
                Some(label) => Some(label as nat),
                None => None,
            },
    )
}

/// The context that the names and the enclosing structures make up.
pub open spec fn ctx_of(locals: Vec<String>, functions: Vec<String>, frames: Seq<Option<usize>>) -> EncodeCtx {
    EncodeCtx {
        locals: name_views(locals),
        functions: name_views(functions),
        frames: frame_views(frames),
    }
}

/// The index of a position, as the model counts it.
pub open spec fn index_view(index: Option<usize>) -> Option<int> {
    match index {
        Some(i) => Some(i as int),
        None => None,
    }
}

/// Finds the first position at which `names` holds `name`.
pub fn find_name(names: &Vec<String>, name: &String) -> (found: Option<usize>)
    ensures
        index_view(found) == name_from(name_views(*names), name@, 0),
        found matches Some(i) ==> i < names.len(),
{
    let mut k: usize = 0;
    while k < names.len()
        invariant
            k <= names.len(),
            name_from(name_views(*names), name@, 0) == name_from(name_views(*names), name@, k as int),
        decreases names.len() - k,
    {
        if names[k] == *name {
            return Some(k);
        }
        k += 1;
    }
    None
}

/// Finds the loop with the label `label` among the enclosing structures,
/// from the innermost outward.
pub fn find_depth(frames: &Vec<Option<usize>>, label: usize) -> (found: Option<usize>)
    ensures
        match found {
            Some(depth) => depth_from(frame_views(frames@), label as nat, 0) == Some(depth as nat),
            None => depth_from(frame_views(frames@), label as nat, 0) is None,
        },
{
    let mut depth: usize = 0;
    while depth < frames.len()
        invariant
            depth <= frames.len(),
            depth_from(frame_views(frames@), label as nat, 0) == depth_from(
                frame_views(frames@),
                label as nat,
                depth as nat,
            ),
        decreases frames.len() - depth,
    {
        let is_loop = match frames[frames.len() - 1 - depth] {
            Some(other) => other == label,
            None => false,
        };
        if is_loop {
            return Some(depth);
        }
        depth += 1;
    }
    None
}

/// Appends an opcode with an index behind it.
pub fn write_indexed(buf: &mut Vec<u8>, opcode: u8, index: Option<usize>, unknown: EncodeError) -> (r:
    Result<(), EncodeError>)
    ensures
        match indexed(opcode, index_view(index), unknown) {
            Ok(bytes) => r is Ok && final(buf)@ == old(buf)@ + bytes,
            Err(e) => r matches Err(x) && x == e,
        },
{
    match index {
        None => Err(unknown),
        Some(i) => {
            buf.push(opcode);
            if !write_len(buf, i) {
                return Err(EncodeError::TooLarge);
            }
            assert(buf@ =~= old(buf)@ + (seq![opcode] + leb128(i as nat)));
            Ok(())
        },
    }
}

/// Appends the four bytes of `bits`, least significant first.
pub fn write_le_bytes(buf: &mut Vec<u8>, bits: u32)
    ensures
        final(buf)@ == old(buf)@ + le_bytes(bits),
{
    buf.push((bits % 256) as u8);
    buf.push((bits / 256 % 256) as u8);
    buf.push((bits / 65536 % 256) as u8);
    buf.push((bits / 16777216) as u8);
    assert(buf@ =~= old(buf)@ + le_bytes(bits));
}

/// What an append owes: on success the bytes that the model gives behind
/// what was there, and the enclosing structures as they were; on failure the
/// model's error.
pub open spec fn appended(
    before: Seq<u8>,
    after: Seq<u8>,
    frames_before: Seq<Option<usize>>,
    frames_after: Seq<Option<usize>>,
    expected: Result<Seq<u8>, EncodeError>,
    r: Result<(), EncodeError>,
) -> bool {
    match expected {
        Ok(bytes) => r is Ok && after == before + bytes && frames_after == frames_before,
        Err(e) => r matches Err(x) && x == e,
    }
}

/// Appends both operands and the opcode.
fn write_operation(
    buf: &mut Vec<u8>,
    locals: &Vec<String>,
    functions: &Vec<String>,
    frames: &mut Vec<Option<usize>>,
    left: &Instruction,
    right: &Instruction,
    opcode: u8,
    Ghost(parent): Ghost<Instruction>,
) -> (r: Result<(), EncodeError>)
    requires
        decreases_to!(parent => *left),
        decreases_to!(parent => *right),
    ensures
        appended(
            old(buf)@,
            final(buf)@,
            old(frames)@,
            final(frames)@,
            operation(
                encode(ctx_of(*locals, *functions, old(frames)@), left@),
                encode(ctx_of(*locals, *functions, old(frames)@), right@),
                opcode,
            ),
            r,
        ),
    decreases parent, 0nat,
{
    if let Err(e) = write_instruction(buf, locals, functions, frames, left) {
        return Err(e);
    }
    if let Err(e) = write_instruction(buf, locals, functions, frames, right) {
        return Err(e);
    }
    buf.push(opcode);
    proof {
        let ctx = ctx_of(*locals, *functions, old(frames)@);
        let a = encode(ctx, left@)->Ok_0;
        let b = encode(ctx, right@)->Ok_0;
        assert(buf@ =~= old(buf)@ + ((a + b) + seq![opcode]));
    }
    Ok(())
}

/// Appends the encoding of a list of instructions.
#[verifier::loop_isolation(false)]
pub fn write_instructions(
    buf: &mut Vec<u8>,
    locals: &Vec<String>,
    functions: &Vec<String>,
    frames: &mut Vec<Option<usize>>,
    list: &Vec<Instruction>,
) -> (r: Result<(), EncodeError>)
    ensures
        appended(
            old(buf)@,
            final(buf)@,
            old(frames)@,
            final(frames)@,
            encode_all(
                ctx_of(*locals, *functions, old(frames)@),
                instruction_views(*list),
                0,
                Seq::empty(),
            ),
            r,
        ),
    decreases list, 0nat,
{
    let ghost ctx = ctx_of(*locals, *functions, old(frames)@);
    let ghost all = instruction_views(*list);
    let ghost acc: Seq<u8> = Seq::empty();
    assert(buf@ =~= old(buf)@ + acc);
    let mut k: usize = 0;
    while k < list.len()
        invariant
            k <= list.len(),
            frames@ == old(frames)@,
            encode_all(ctx, all, 0, Seq::empty()) == encode_all(ctx, all, k as nat, acc),
            buf@ == old(buf)@ + acc,
        decreases list.len() - k,
    {
        match write_instruction(buf, locals, functions, frames, &list[k]) {
            Ok(()) => {
                proof {
                    let bytes = encode(ctx, all[k as int])->Ok_0;
                    assert(buf@ =~= old(buf)@ + (acc + bytes));
                    acc = acc + bytes;
                }
            },
            Err(e) => {
                return Err(e);
            },
        }
        k += 1;
    }
    Ok(())
}

/// Appends a loop or a block around its body; `label` is the label of a
/// loop.
fn write_structure(
    buf: &mut Vec<u8>,
    locals: &Vec<String>,
    functions: &Vec<String>,
    frames: &mut Vec<Option<usize>>,
    opcode: u8,
    label: Option<usize>,
    body: &Vec<Instruction>,
) -> (r: Result<(), EncodeError>)
    ensures
        appended(
            old(buf)@,
            final(buf)@,
            old(frames)@,
            final(frames)@,
            structure(
                opcode,
                encode_all(
                    ctx_of(*locals, *functions, old(frames)@).inside(
                        match label {
                            Some(label) => Some(label as nat),
                            None => None,
                        },
                    ),
                    instruction_views(*body),
                    0,
                    Seq::empty(),
                ),
            ),
            r,
        ),
    decreases body, 1nat,
{
    let ghost outside = frames@;
    buf.push(opcode);
    buf.push(BLOCK_TYPE_EMPTY);
    frames.push(label);
    assert(frame_views(frames@) =~= frame_views(outside).push(
        match label {
            Some(label) => Some(label as nat),
            None => None,
        },
    ));
    if let Err(e) = write_instructions(buf, locals, functions, frames, body) {
        return Err(e);
    }
    frames.pop();
    assert(frames@ =~= outside);
    let ghost inner = buf@;
    buf.push(OP_END);
    proof {
        let bytes = encode_all(
            ctx_of(*locals, *functions, old(frames)@).inside(
                match label {
                    Some(label) => Some(label as nat),
                    None => None,
                },
            ),
            instruction_views(*body),
            0,
            Seq::empty(),
        )->Ok_0;
        assert(inner =~= old(buf)@ + seq![opcode, BLOCK_TYPE_EMPTY] + bytes);
        assert(buf@ =~= old(buf)@ + ((seq![opcode, BLOCK_TYPE_EMPTY] + bytes) + seq![OP_END]));
    }
    Ok(())
}

/// Appends the value and the assignment to the local `name`.
fn write_local_set(
    buf: &mut Vec<u8>,
    locals: &Vec<String>,
    functions: &Vec<String>,
    frames: &mut Vec<Option<usize>>,
    name: &String,
    value: &Instruction,
    Ghost(parent): Ghost<Instruction>,
) -> (r: Result<(), EncodeError>)
    requires
        decreases_to!(parent => *value),
    ensures
        appended(
            old(buf)@,
            final(buf)@,
            old(frames)@,
            final(frames)@,
            then(
                encode(ctx_of(*locals, *functions, old(frames)@), value@),
                indexed(
                    OP_LOCAL_SET,
                    name_from(name_views(*locals), name@, 0),
                    EncodeError::UnknownLocal,
                ),
            ),
            r,
        ),
    decreases parent, 0nat,
{
    if let Err(e) = write_instruction(buf, locals, functions, frames, value) {
        return Err(e);
    }
    let ghost first = encode(ctx_of(*locals, *functions, old(frames)@), value@)->Ok_0;
    let r = write_indexed(buf, OP_LOCAL_SET, find_name(locals, name), EncodeError::UnknownLocal);
    proof {
        if r is Ok {
            let set = indexed(
                OP_LOCAL_SET,
                name_from(name_views(*locals), name@, 0),
                EncodeError::UnknownLocal,
            )->Ok_0;
            assert(buf@ =~= old(buf)@ + (first + set));
        }
    }
    r
}

/// Appends the operands and the call of the function `name`.
fn write_call(
    buf: &mut Vec<u8>,
    locals: &Vec<String>,
    functions: &Vec<String>,
    frames: &mut Vec<Option<usize>>,
    name: &String,
    args: &Vec<Instruction>,
    Ghost(parent): Ghost<Instruction>,
) -> (r: Result<(), EncodeError>)
    requires
        decreases_to!(parent => *args),
    ensures
        appended(
            old(buf)@,
            final(buf)@,
            old(frames)@,
            final(frames)@,
            then(
                encode_all(
                    ctx_of(*locals, *functions, old(frames)@),
                    instruction_views(*args),
                    0,
                    Seq::empty(),
                ),
                indexed(
                    OP_CALL,
                    name_from(name_views(*functions), name@, 0),
                    EncodeError::UnknownFunction,
                ),
            ),
            r,
        ),
    decreases parent, 0nat,
{
    if let Err(e) = write_instructions(buf, locals, functions, frames, args) {
        return Err(e);
    }
    let ghost operands = encode_all(
        ctx_of(*locals, *functions, old(frames)@),
        instruction_views(*args),
        0,
        Seq::empty(),
    )->Ok_0;
    let r = write_indexed(buf, OP_CALL, find_name(functions, name), EncodeError::UnknownFunction);
    proof {
        if r is Ok {
            let call = indexed(
                OP_CALL,
                name_from(name_views(*functions), name@, 0),
                EncodeError::UnknownFunction,
            )->Ok_0;
            assert(buf@ =~= old(buf)@ + (operands + call));
        }
    }
    r
}

/// Appends the return of the local `return`.
fn write_synthetic_return(buf: &mut Vec<u8>, locals: &Vec<String>) -> (r: Result<(), EncodeError>)
    ensures
        match then(
            indexed(
                OP_LOCAL_GET,
                name_from(name_views(*locals), "return"@, 0),
                EncodeError::UnknownLocal,
            ),
            Ok(seq![OP_RETURN]),
        ) {
            Ok(bytes) => r is Ok && final(buf)@ == old(buf)@ + bytes,
            Err(e) => r matches Err(x) && x == e,
        },
{
    let name = String::from_str("return");
    if let Err(e) = write_indexed(buf, OP_LOCAL_GET, find_name(locals, &name), EncodeError::UnknownLocal) {
        return Err(e);
    }
    buf.push(OP_RETURN);
    proof {
        let value = indexed(
            OP_LOCAL_GET,
            name_from(name_views(*locals), "return"@, 0),
            EncodeError::UnknownLocal,
        )->Ok_0;
        assert(buf@ =~= old(buf)@ + (value + seq![OP_RETURN]));
    }
    Ok(())
}

/// The encoding of an `if`, as `encode` gives it.
pub open spec fn encode_if(
    condition: Result<Seq<u8>, EncodeError>,
    consequence: Result<Seq<u8>, EncodeError>,
    alternative: Result<Seq<u8>, EncodeError>,
    has_alternative: bool,
) -> Result<Seq<u8>, EncodeError> {
    then(
        then(
            then(then(condition, Ok(seq![OP_IF, BLOCK_TYPE_EMPTY])), consequence),
            if has_alternative {
                then(Ok(seq![OP_ELSE]), alternative)
            } else {
                Ok(Seq::empty())
            },
        ),
        Ok(seq![OP_END]),
    )
}

/// Appends an `if` with its branches.
fn write_if(
    buf: &mut Vec<u8>,
    locals: &Vec<String>,
    functions: &Vec<String>,
    frames: &mut Vec<Option<usize>>,
    c: &Instruction,
    t: &Vec<Instruction>,
    e: &Vec<Instruction>,
    Ghost(parent): Ghost<Instruction>,
) -> (r: Result<(), EncodeError>)
    requires
        decreases_to!(parent => *c),
        decreases_to!(parent => *t),
        decreases_to!(parent => *e),
    ensures
        appended(
            old(buf)@,
            final(buf)@,
            old(frames)@,
            final(frames)@,
            encode_if(
                encode(ctx_of(*locals, *functions, old(frames)@), c@),
                encode_all(
                    ctx_of(*locals, *functions, old(frames)@).inside(None),
                    instruction_views(*t),
                    0,
                    Seq::empty(),
                ),
                encode_all(
                    ctx_of(*locals, *functions, old(frames)@).inside(None),
                    instruction_views(*e),
                    0,
                    Seq::empty(),
                ),
                e.len() > 0,
            ),
            r,
        ),
    decreases parent, 0nat,
{
    let ghost ctx = ctx_of(*locals, *functions, old(frames)@);
    if let Err(e) = write_instruction(buf, locals, functions, frames, c) {
        return Err(e);
    }
    let ghost outside = frames@;
    let ghost condition = encode(ctx, c@)->Ok_0;
    buf.push(OP_IF);
    buf.push(BLOCK_TYPE_EMPTY);
    frames.push(None);
    assert(frame_views(frames@) =~= frame_views(outside).push(None));
    if let Err(e) = write_instructions(buf, locals, functions, frames, t) {
        return Err(e);
    }
    let ghost consequence = encode_all(ctx.inside(None), instruction_views(*t), 0, Seq::empty())->Ok_0;
    let ghost head = (condition + seq![OP_IF, BLOCK_TYPE_EMPTY]) + consequence;
    assert(buf@ =~= old(buf)@ + head);
    let ghost alternative: Seq<u8> = Seq::empty();
    if e.len() > 0 {
        buf.push(OP_ELSE);
        if let Err(e) = write_instructions(buf, locals, functions, frames, e) {
            return Err(e);
        }
        proof {
            alternative = seq![OP_ELSE] + encode_all(
                ctx.inside(None),
                instruction_views(*e),
                0,
                Seq::empty(),
            )->Ok_0;
        }
        assert(buf@ =~= old(buf)@ + (head + alternative));
    }
    assert(buf@ =~= old(buf)@ + (head + alternative));
    frames.pop();
    assert(frames@ =~= outside);
    buf.push(OP_END);
    assert(buf@ =~= old(buf)@ + ((head + alternative) + seq![OP_END]));
    Ok(())
}

/// Appends the encoding of an instruction: see `encode`.
#[verifier::rlimit(80)]
pub fn write_instruction(
    buf: &mut Vec<u8>,
    locals: &Vec<String>,
    functions: &Vec<String>,
    frames: &mut Vec<Option<usize>>,
    inst: &Instruction,
) -> (r: Result<(), EncodeError>)
    ensures
        appended(
            old(buf)@,
            final(buf)@,
            old(frames)@,
            final(frames)@,
            encode(ctx_of(*locals, *functions, old(frames)@), inst@),
            r,
        ),
    decreases inst, 1nat,
{
    let ghost ctx = ctx_of(*locals, *functions, old(frames)@);
    match inst {
        Instruction::I32Add(l, r) => write_operation(
            buf,
            locals,
            functions,
            frames,
            l,
            r,
            OP_I32_ADD,
            Ghost(*inst),
        ),
        Instruction::I32Sub(l, r) => write_operation(
            buf,
            locals,
            functions,
            frames,
            l,
            r,
            OP_I32_SUB,
            Ghost(*inst),
        ),
        Instruction::I32Mul(l, r) => write_operation(
            buf,
            locals,
            functions,
            frames,
            l,
            r,
            OP_I32_MUL,
            Ghost(*inst),
        ),
        Instruction::I32Div(l, r) => write_operation(
            buf,
            locals,
            functions,
            frames,
            l,
            r,
            OP_I32_DIV_S,
            Ghost(*inst),
        ),
        Instruction::I32Eq(l, r) => write_operation(
            buf,
            locals,
            functions,
            frames,
            l,
            r,
            OP_I32_EQ,
            Ghost(*inst),
        ),
        Instruction::I32Neq(l, r) => write_operation(
            buf,
            locals,
            functions,
            frames,
            l,
            r,
            OP_I32_NE,
            Ghost(*inst),
        ),
        Instruction::I32Gt(l, r) => write_operation(
            buf,
            locals,
            functions,
            frames,
            l,
            r,
            OP_I32_GT_S,
            Ghost(*inst),
        ),
        Instruction::I32Ge(l, r) => write_operation(
            buf,
            locals,
            functions,
            frames,
            l,
            r,
            OP_I32_GE_S,
            Ghost(*inst),
        ),
        Instruction::I32Lt(l, r) => write_operation(
            buf,
            locals,
            functions,
            frames,
            l,
            r,
            OP_I32_LT_S,
            Ghost(*inst),
        ),
        Instruction::I32Le(l, r) => write_operation(
            buf,
            locals,
            functions,
            frames,
            l,
            r,
            OP_I32_LE_S,
            Ghost(*inst),
        ),
        Instruction::I32And(l, r) => write_operation(
            buf,
            locals,
            functions,
            frames,
            l,
            r,
            OP_I32_AND,
            Ghost(*inst),
        ),
        Instruction::I32Or(l, r) => write_operation(
            buf,
            locals,
            functions,
            frames,
            l,
            r,
            OP_I32_OR,
            Ghost(*inst),
        ),
        Instruction::I32Xor(l, r) => write_operation(
            buf,
            locals,
            functions,
            frames,
            l,
            r,
            OP_I32_XOR,
            Ghost(*inst),
        ),
        Instruction::F32Add(l, r) => write_operation(
            buf,
            locals,
            functions,
            frames,
            l,
            r,
            OP_F32_ADD,
            Ghost(*inst),
        ),
        Instruction::I32Store(a, v) => {
            if let Err(e) = write_operation(
                buf,
                locals,
                functions,
                frames,
                a,
                v,
                OP_I32_STORE,
                Ghost(*inst),
            ) {
                return Err(e);
            }
            buf.push(0x02);
            buf.push(0x00);
            proof {
                let first = operation(encode(ctx, a@), encode(ctx, v@), OP_I32_STORE)->Ok_0;
                assert(buf@ =~= old(buf)@ + (first + memarg()));
            }
            Ok(())
        },
        Instruction::I32Load(a) => {
            if let Err(e) = write_instruction(buf, locals, functions, frames, a) {
                return Err(e);
            }
            buf.push(OP_I32_LOAD);
            buf.push(0x02);
            buf.push(0x00);
            proof {
                let first = encode(ctx, a@)->Ok_0;
                assert(buf@ =~= old(buf)@ + (first + (seq![OP_I32_LOAD] + memarg())));
            }
            Ok(())
        },
        Instruction::LocalGet(name) => write_indexed(
            buf,
            OP_LOCAL_GET,
            find_name(locals, name),
            EncodeError::UnknownLocal,
        ),
        Instruction::LocalSet(name, v) => write_local_set(
            buf,
            locals,
            functions,
            frames,
            name,
            v,
            Ghost(*inst),
        ),
        Instruction::GlobalGet(_) => Err(EncodeError::Unsupported),
        Instruction::GlobalSet(_, _) => Err(EncodeError::Unsupported),
        Instruction::If(c, t, e) => write_if(buf, locals, functions, frames, c, t, e, Ghost(*inst)),
        Instruction::Loop(label, body) => write_structure(
            buf,
            locals,
            functions,
            frames,
            OP_LOOP,
            Some(*label),
            body,
        ),
        Instruction::BrLoop(label) => match find_depth(frames, *label) {
            None => Err(EncodeError::UnknownLabel),
            Some(depth) => write_indexed(buf, OP_BR, Some(depth), EncodeError::UnknownLabel),
        },
        Instruction::Block(_, body) => write_structure(
            buf,
            locals,
            functions,
            frames,
            OP_BLOCK,
            None,
            body,
        ),
        Instruction::Return(v) => {
            if let Err(e) = write_instruction(buf, locals, functions, frames, v) {
                return Err(e);
            }
            buf.push(OP_RETURN);
            proof {
                let first = encode(ctx, v@)->Ok_0;
                assert(buf@ =~= old(buf)@ + (first + seq![OP_RETURN]));
            }
            Ok(())
        },
        Instruction::Call(name, args) => write_call(
            buf,
            locals,
            functions,
            frames,
            name,
            args,
            Ghost(*inst),
        ),
        Instruction::I32Const(v) => {
            buf.push(OP_I32_CONST);
            write_sleb128(buf, *v);
            assert(buf@ =~= old(buf)@ + (seq![OP_I32_CONST] + sleb128(*v as int)));
            Ok(())
        },
        Instruction::F32Const(bits) => {
            buf.push(OP_F32_CONST);
            write_le_bytes(buf, *bits);
            assert(buf@ =~= old(buf)@ + (seq![OP_F32_CONST] + le_bytes(*bits)));
            Ok(())
        },
        Instruction::Local(_, _) => {
            assert(buf@ =~= old(buf)@ + Seq::<u8>::empty());
            Ok(())
        },
        Instruction::SynthReturn => write_synthetic_return(buf, locals),
        Instruction::Noop => {
            buf.push(OP_NOP);
            assert(buf@ =~= old(buf)@ + seq![OP_NOP]);
            Ok(())
        },
        Instruction::Complex(list) => write_instructions(buf, locals, functions, frames, list),
        Instruction::RawWast(_) => Err(EncodeError::Unsupported),
    }
}

} // verus!
