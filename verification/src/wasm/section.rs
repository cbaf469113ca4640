use crate::wasm::leb128::{leb128, max_u32, write_leb128, write_len};
use crate::wasm::valtype::{val_type_byte, val_type_bytes, ValType};
use vstd::prelude::*;
use vstd::string::StringSliceAdditionalSpecFns;

verus! {

/// Why a value has no encoding.
#[derive(Debug, Clone, Copy, PartialEq, Eq, Structural)]
pub enum SerializeError {
    /// A count, a length or an index is above what 32 bits hold.
    TooLarge,
    /// The sections of a module do not come in strictly ascending id order.
    OutOfOrder,
}

pub const TYPE_SECTION_ID: u8 = 0x01;

pub const FUNCTION_SECTION_ID: u8 = 0x03;

pub const EXPORT_SECTION_ID: u8 = 0x07;

pub const CODE_SECTION_ID: u8 = 0x0a;

/// The byte that opens a function type.
pub const FUNCTION_TYPE_TAG: u8 = 0x60;

/// The byte that marks an export as the export of a function.
pub const FUNCTION_EXPORT_TAG: u8 = 0x00;

/// The byte that ends an expression.
pub const END_OPCODE: u8 = 0x0b;

/// A section: its id, the length of its payload, the payload.
pub open spec fn section_bytes(id: u8, payload: Seq<u8>) -> Seq<u8> {
    seq![id] + leb128(payload.len()) + payload
}

/// The payload of a section that holds a vector: the count, then the items.
pub open spec fn vector_payload(count: nat, items: Seq<u8>) -> Seq<u8> {
    leb128(count) + items
}

/// The result part of a function type: no result for `Void`, else one.
pub open spec fn result_bytes(ret: ValType) -> Seq<u8> {
    if ret == ValType::Void {
        seq![0x00u8]
    } else {
        seq![0x01u8, val_type_byte(ret)]
    }
}

/// Appends `bytes` to `buf`.
pub fn write_bytes(buf: &mut Vec<u8>, bytes: &[u8])
    ensures
        final(buf)@ == old(buf)@ + bytes@,
{
    let mut k: usize = 0;
    while k < bytes.len()
        invariant
            k <= bytes@.len(),
            buf@ == old(buf)@ + bytes@.take(k as int),
        decreases bytes@.len() - k,
    {
        assert(bytes@.take(k + 1) =~= bytes@.take(k as int).push(bytes@[k as int]));
        buf.push(bytes[k]);
        k += 1;
    }
    assert(bytes@.take(k as int) =~= bytes@);
}

/// Frames the items of a vector as a section, where count and size fit.
pub fn frame_section(id: u8, count: usize, items: Vec<u8>) -> (r: Result<Vec<u8>, SerializeError>)
    ensures
        r is Ok <==> count <= max_u32() && vector_payload(count as nat, items@).len() <= max_u32(),
        r matches Ok(bytes) ==> bytes@ == section_bytes(id, vector_payload(count as nat, items@)),
        r matches Err(e) ==> e == SerializeError::TooLarge,
{
    let ghost given = items@;
    let mut items = items;
    let mut payload: Vec<u8> = Vec::new();
    if !write_len(&mut payload, count) {
        return Err(SerializeError::TooLarge);
    }
    payload.append(&mut items);
    assert(payload@ =~= vector_payload(count as nat, given)) by {
        assert(Seq::<u8>::empty() + leb128(count as nat) =~= leb128(count as nat));
    }
    let mut out: Vec<u8> = Vec::new();
    out.push(id);
    if !write_len(&mut out, payload.len()) {
        return Err(SerializeError::TooLarge);
    }
    let ghost framed = payload@;
    out.append(&mut payload);
    assert(out@ =~= section_bytes(id, framed));
    Ok(out)
}

/// A function as the binary sections see it: its name, whether it is
/// exported, and its signature.
#[derive(Debug, PartialEq)]
pub struct FunctionType<'a> {
    pub name: &'a str,
    pub export: bool,
    pub params: Vec<ValType>,
    pub ret: ValType,
}

impl<'a> FunctionType<'a> {
    /// The parameter count fits the format.
    pub open spec fn fits(&self) -> bool {
        self.params@.len() <= max_u32()
    }

    /// The encoding of the signature: the tag, the parameter types as a
    /// vector, then the result types as a vector of at most one.
    pub open spec fn bytes(&self) -> Seq<u8> {
        seq![FUNCTION_TYPE_TAG] + leb128(self.params@.len()) + val_type_bytes(self.params@)
            + result_bytes(self.ret)
    }

    /// Encodes the signature.
    pub fn serialize(&self) -> (r: Result<Vec<u8>, SerializeError>)
        ensures
            r is Ok <==> self.fits(),
            r matches Ok(bytes) ==> bytes@ == self.bytes(),
            r matches Err(e) ==> e == SerializeError::TooLarge,
    {
        let mut res: Vec<u8> = Vec::new();
        res.push(FUNCTION_TYPE_TAG);
        if !write_len(&mut res, self.params.len()) {
            return Err(SerializeError::TooLarge);
        }
        let ghost head = res@;
        let mut k: usize = 0;
        while k < self.params.len()
            invariant
                k <= self.params@.len(),
                res@ == head + val_type_bytes(self.params@.take(k as int)),
            decreases self.params@.len() - k,
        {
            assert(val_type_bytes(self.params@.take(k + 1)) =~= val_type_bytes(
                self.params@.take(k as int),
            ).push(val_type_byte(self.params@[k as int])));
            res.push(self.params[k].byte());
            k += 1;
        }
        assert(self.params@.take(k as int) =~= self.params@);
        match self.ret {
            ValType::Void => {
                res.push(0x00);
            },
            _ => {
                res.push(0x01);
                res.push(self.ret.byte());
            },
        }
        assert(res@ =~= self.bytes());
        Ok(res)
    }
}

/// The encodings of the first `n` function types, one after the other.
pub open spec fn type_entries<'a>(functions: Seq<FunctionType<'a>>, n: nat) -> Seq<u8>
    decreases n,
{
    if n == 0 {
        Seq::empty()
    } else {
        type_entries(functions, (n - 1) as nat) + functions[n - 1].bytes()
    }
}

/// The type section: every function type of the module.
pub struct TypeSection<'a> {
    pub functions: Vec<FunctionType<'a>>,
}

impl<'a> TypeSection<'a> {
    /// The section of these functions.
    pub fn new(functions: Vec<FunctionType<'a>>) -> (section: Self)
        ensures
            section.functions == functions,
    {
        TypeSection { functions }
    }

    /// The bytes of the section behind its id and size.
    pub open spec fn payload(&self) -> Seq<u8> {
        vector_payload(self.functions@.len(), type_entries(self.functions@, self.functions@.len()))
    }

    /// Every count and the size of the payload fit the format.
    pub open spec fn fits(&self) -> bool {
        &&& forall|i: int| 0 <= i < self.functions@.len() ==> (#[trigger] self.functions@[i]).fits()
        &&& self.functions@.len() <= max_u32()
        &&& self.payload().len() <= max_u32()
    }

    /// Section 1: the count of function types, then each of them.
    pub open spec fn bytes(&self) -> Seq<u8> {
        section_bytes(TYPE_SECTION_ID, self.payload())
    }

    /// Encodes the section.
    pub fn serialize(&self) -> (r: Result<Vec<u8>, SerializeError>)
        ensures
            r is Ok <==> self.fits(),
            r matches Ok(bytes) ==> bytes@ == self.bytes(),
            r matches Err(e) ==> e == SerializeError::TooLarge,
    {
        let mut types: Vec<u8> = Vec::new();
        let mut k: usize = 0;
        while k < self.functions.len()
            invariant
                k <= self.functions@.len(),
                types@ == type_entries(self.functions@, k as nat),
                forall|i: int| 0 <= i < k ==> (#[trigger] self.functions@[i]).fits(),
            decreases self.functions@.len() - k,
        {
            match self.functions[k].serialize() {
                Ok(entry) => {
                    let mut entry = entry;
                    types.append(&mut entry);
                },
                Err(e) => {
                    return Err(e);
                },
            }
            k += 1;
        }
        frame_section(TYPE_SECTION_ID, self.functions.len(), types)
    }
}

/// The encodings of the indexes `0..n`, one after the other.
pub open spec fn index_entries(n: nat) -> Seq<u8>
    decreases n,
{
    if n == 0 {
        Seq::empty()
    } else {
        index_entries((n - 1) as nat) + leb128((n - 1) as nat)
    }
}

/// The function section: for each function the index of its type. The
/// function at position `i` has the type at position `i`.
pub struct FunctionSection<'a> {
    pub functions: Vec<FunctionType<'a>>,
}

impl<'a> FunctionSection<'a> {
    /// The section of these functions.
    pub fn new(functions: Vec<FunctionType<'a>>) -> (section: Self)
        ensures
            section.functions == functions,
    {
        FunctionSection { functions }
    }

    /// The bytes of the section behind its id and size.
    pub open spec fn payload(&self) -> Seq<u8> {
        vector_payload(self.functions@.len(), index_entries(self.functions@.len()))
    }

    /// Every count and size in the encoding fits the format.
    pub open spec fn fits(&self) -> bool {
        &&& self.functions@.len() <= max_u32()
        &&& self.payload().len() <= max_u32()
    }

    /// Section 3: the count of functions, then the type index of each.
    pub open spec fn bytes(&self) -> Seq<u8> {
        section_bytes(FUNCTION_SECTION_ID, self.payload())
    }

    /// Encodes the section.
    pub fn serialize(&self) -> (r: Result<Vec<u8>, SerializeError>)
        ensures
            r is Ok <==> self.fits(),
            r matches Ok(bytes) ==> bytes@ == self.bytes(),
            r matches Err(e) ==> e == SerializeError::TooLarge,
    {
        let count = self.functions.len();
        if count > 0xffff_ffff {
            return Err(SerializeError::TooLarge);
        }
        let mut indexes: Vec<u8> = Vec::new();
        let mut k: usize = 0;
        while k < count
            invariant
                k <= count <= max_u32(),
                indexes@ == index_entries(k as nat),
            decreases count - k,
        {
            write_leb128(&mut indexes, k as u32);
            k += 1;
        }
        frame_section(FUNCTION_SECTION_ID, count, indexes)
    }
}

/// One export: the name as a vector of bytes, the tag of a function export,
/// the index of the function.
pub open spec fn export_description_bytes<'a>(index: nat, function: FunctionType<'a>) -> Seq<u8> {
    leb128(function.name.spec_bytes().len()) + function.name.spec_bytes() + seq![
        FUNCTION_EXPORT_TAG,
    ] + leb128(index)
}

/// The name's length and the index of an export fit the format.
pub open spec fn export_fits<'a>(index: nat, function: FunctionType<'a>) -> bool {
    function.name.spec_bytes().len() <= max_u32() && index <= max_u32()
}

/// The descriptions of the first `n` functions as exports.
pub open spec fn export_entries<'a>(functions: Seq<FunctionType<'a>>, n: nat) -> Seq<u8>
    decreases n,
{
    if n == 0 {
        Seq::empty()
    } else {
        export_entries(functions, (n - 1) as nat) + export_description_bytes(
            (n - 1) as nat,
            functions[n - 1],
        )
    }
}

/// The export section. Every function handed to it is exported, under its
/// name and with its position as its index.
pub struct ExportSection<'a> {
    pub functions: Vec<FunctionType<'a>>,
}

impl<'a> ExportSection<'a> {
    /// The section of these functions.
    pub fn new(functions: Vec<FunctionType<'a>>) -> (section: Self)
        ensures
            section.functions == functions,
    {
        ExportSection { functions }
    }

    /// Encodes the export of the function `entry.1`, which has the index
    /// `entry.0`.
    pub fn export_description(entry: (usize, &FunctionType)) -> (r: Result<Vec<u8>, SerializeError>)
        ensures
            r is Ok <==> export_fits(entry.0 as nat, *entry.1),
            r matches Ok(bytes) ==> bytes@ == export_description_bytes(entry.0 as nat, *entry.1),
            r matches Err(e) ==> e == SerializeError::TooLarge,
    {
        let (index, function) = entry;
        let name = function.name.as_bytes();
        let mut desc: Vec<u8> = Vec::new();
        if !write_len(&mut desc, name.len()) {
            return Err(SerializeError::TooLarge);
        }
        write_bytes(&mut desc, name);
        desc.push(FUNCTION_EXPORT_TAG);
        if !write_len(&mut desc, index) {
            return Err(SerializeError::TooLarge);
        }
        assert(desc@ =~= export_description_bytes(index as nat, *function));
        Ok(desc)
    }

    /// The bytes of the section behind its id and size.
    pub open spec fn payload(&self) -> Seq<u8> {
        vector_payload(self.functions@.len(), export_entries(self.functions@, self.functions@.len()))
    }

    /// Every count and size in the encoding fits the format.
    pub open spec fn fits(&self) -> bool {
        &&& forall|i: int|
            0 <= i < self.functions@.len() ==> export_fits(i as nat, #[trigger] self.functions@[i])
        &&& self.functions@.len() <= max_u32()
        &&& self.payload().len() <= max_u32()
    }

    /// Section 7: the count of exports, then each export.
    pub open spec fn bytes(&self) -> Seq<u8> {
        section_bytes(EXPORT_SECTION_ID, self.payload())
    }

    /// Encodes the section.
    pub fn serialize(&self) -> (r: Result<Vec<u8>, SerializeError>)
        ensures
            r is Ok <==> self.fits(),
            r matches Ok(bytes) ==> bytes@ == self.bytes(),
            r matches Err(e) ==> e == SerializeError::TooLarge,
    {
        let mut exports: Vec<u8> = Vec::new();
        let mut k: usize = 0;
        while k < self.functions.len()
            invariant
                k <= self.functions@.len(),
                exports@ == export_entries(self.functions@, k as nat),
                forall|i: int| 0 <= i < k ==> export_fits(i as nat, #[trigger] self.functions@[i]),
            decreases self.functions@.len() - k,
        {
            match Self::export_description((k, &self.functions[k])) {
                Ok(entry) => {
                    let mut entry = entry;
                    exports.append(&mut entry);
                },
                Err(e) => {
                    return Err(e);
                },
            }
            k += 1;
        }
        frame_section(EXPORT_SECTION_ID, self.functions.len(), exports)
    }
}

/// The code of one function: the types of its locals and the bytes of its
/// instructions, without the byte that ends them.
#[derive(Debug, PartialEq)]
pub struct FunctionCode {
    pub locals: Vec<ValType>,
    pub code: Vec<u8>,
}

/// The declarations of the first `n` locals: each a run of one local.
pub open spec fn local_entries(locals: Seq<ValType>, n: nat) -> Seq<u8>
    decreases n,
{
    if n == 0 {
        Seq::empty()
    } else {
        local_entries(locals, (n - 1) as nat) + seq![0x01u8, val_type_byte(locals[n - 1])]
    }
}

impl FunctionCode {
    /// The body before its size: the locals, the instructions, the end.
    pub open spec fn body(&self) -> Seq<u8> {
        vector_payload(self.locals@.len(), local_entries(self.locals@, self.locals@.len()))
            + self.code@ + seq![END_OPCODE]
    }

    /// Every count and size in the encoding fits the format.
    pub open spec fn fits(&self) -> bool {
        self.locals@.len() <= max_u32() && self.body().len() <= max_u32()
    }

    /// The size of the body, then the body.
    pub open spec fn bytes(&self) -> Seq<u8> {
        leb128(self.body().len()) + self.body()
    }

    /// Encodes the body with its size in front.
    pub fn serialize(&self) -> (r: Result<Vec<u8>, SerializeError>)
        ensures
            r is Ok <==> self.fits(),
            r matches Ok(bytes) ==> bytes@ == self.bytes(),
            r matches Err(e) ==> e == SerializeError::TooLarge,
    {
        let mut body: Vec<u8> = Vec::new();
        if !write_len(&mut body, self.locals.len()) {
            return Err(SerializeError::TooLarge);
        }
        let mut k: usize = 0;
        while k < self.locals.len()
            invariant
                k <= self.locals@.len(),
                body@ == vector_payload(self.locals@.len(), local_entries(self.locals@, k as nat)),
            decreases self.locals@.len() - k,
        {
            body.push(0x01);
            body.push(self.locals[k].byte());
            k += 1;
            assert(body@ =~= vector_payload(
                self.locals@.len(),
                local_entries(self.locals@, k as nat),
            ));
        }
        write_bytes(&mut body, self.code.as_slice());
        body.push(END_OPCODE);
        assert(body@ =~= self.body());
        let mut out: Vec<u8> = Vec::new();
        if !write_len(&mut out, body.len()) {
            return Err(SerializeError::TooLarge);
        }
        out.append(&mut body);
        assert(out@ =~= self.bytes());
        Ok(out)
    }
}

/// The encodings of the first `n` bodies, one after the other.
pub open spec fn code_entries(bodies: Seq<FunctionCode>, n: nat) -> Seq<u8>
    decreases n,
{
    if n == 0 {
        Seq::empty()
    } else {
        code_entries(bodies, (n - 1) as nat) + bodies[n - 1].bytes()
    }
}

/// The code section: the body of every function, in the order of the
/// function section.
pub struct CodeSection {
    pub bodies: Vec<FunctionCode>,
}

impl CodeSection {
    /// The code section of a module without functions.
    pub fn new() -> (section: Self)
        ensures
            section.bodies@ == Seq::<FunctionCode>::empty(),
    {
        CodeSection { bodies: Vec::new() }
    }

    /// The code section that holds `bodies`.
    pub fn with_bodies(bodies: Vec<FunctionCode>) -> (section: Self)
        ensures
            section.bodies == bodies,
    {
        CodeSection { bodies }
    }

    /// The bytes of the section behind its id and size.
    pub open spec fn payload(&self) -> Seq<u8> {
        vector_payload(self.bodies@.len(), code_entries(self.bodies@, self.bodies@.len()))
    }

    /// Every count and size in the encoding fits the format.
    pub open spec fn fits(&self) -> bool {
        &&& forall|i: int| 0 <= i < self.bodies@.len() ==> (#[trigger] self.bodies@[i]).fits()
        &&& self.bodies@.len() <= max_u32()
        &&& self.payload().len() <= max_u32()
    }

    /// Section 10: the count of bodies, then each body.
    pub open spec fn bytes(&self) -> Seq<u8> {
        section_bytes(CODE_SECTION_ID, self.payload())
    }

    /// Encodes the section.
    pub fn serialize(&self) -> (r: Result<Vec<u8>, SerializeError>)
        ensures
            r is Ok <==> self.fits(),
            r matches Ok(bytes) ==> bytes@ == self.bytes(),
            r matches Err(e) ==> e == SerializeError::TooLarge,
    {
        let mut code: Vec<u8> = Vec::new();
        let mut k: usize = 0;
        while k < self.bodies.len()
            invariant
                k <= self.bodies@.len(),
                code@ == code_entries(self.bodies@, k as nat),
                forall|i: int| 0 <= i < k ==> (#[trigger] self.bodies@[i]).fits(),
            decreases self.bodies@.len() - k,
        {
            match self.bodies[k].serialize() {
                Ok(entry) => {
                    let mut entry = entry;
                    code.append(&mut entry);
                },
                Err(e) => {
                    return Err(e);
                },
            }
            k += 1;
        }
        frame_section(CODE_SECTION_ID, self.bodies.len(), code)
    }
}

/// One section of a module.
pub enum Section<'a> {
    Type(TypeSection<'a>),
    Function(FunctionSection<'a>),
    Export(ExportSection<'a>),
    Code(CodeSection),
}

impl<'a> Section<'a> {
    /// The type section of these functions.
    pub fn type_section(functions: Vec<FunctionType<'a>>) -> (section: Self)
        ensures
            section matches Section::Type(inner) && inner.functions == functions,
    {
        Section::Type(TypeSection::new(functions))
    }

    /// The function section of these functions.
    pub fn function_section(functions: Vec<FunctionType<'a>>) -> (section: Self)
        ensures
            section matches Section::Function(inner) && inner.functions == functions,
    {
        Section::Function(FunctionSection::new(functions))
    }

    /// The export section of these functions.
    pub fn export_section(functions: Vec<FunctionType<'a>>) -> (section: Self)
        ensures
            section matches Section::Export(inner) && inner.functions == functions,
    {
        Section::Export(ExportSection::new(functions))
    }

    /// The code section of a module without functions.
    pub fn code_section() -> (section: Self)
        ensures
            section matches Section::Code(inner) && inner.bodies@ == Seq::<FunctionCode>::empty(),
    {
        Section::Code(CodeSection::new())
    }

    /// The id that opens the section in the binary format.
    pub open spec fn spec_id(&self) -> u8 {
        match self {
            Section::Type(_) => TYPE_SECTION_ID,
            Section::Function(_) => FUNCTION_SECTION_ID,
            Section::Export(_) => EXPORT_SECTION_ID,
            Section::Code(_) => CODE_SECTION_ID,
        }
    }

    /// Every count and size in the encoding fits the format.
    pub open spec fn fits(&self) -> bool {
        match self {
            Section::Type(inner) => inner.fits(),
            Section::Function(inner) => inner.fits(),
            Section::Export(inner) => inner.fits(),
            Section::Code(inner) => inner.fits(),
        }
    }

    /// The encoding of the section.
    pub open spec fn bytes(&self) -> Seq<u8> {
        match self {
            Section::Type(inner) => inner.bytes(),
            Section::Function(inner) => inner.bytes(),
            Section::Export(inner) => inner.bytes(),
            Section::Code(inner) => inner.bytes(),
        }
    }

    /// The id of the section.
    pub fn id(&self) -> (id: u8)
        ensures
            id == self.spec_id(),
    {
        match self {
            Section::Type(_) => TYPE_SECTION_ID,
            Section::Function(_) => FUNCTION_SECTION_ID,
            Section::Export(_) => EXPORT_SECTION_ID,
            Section::Code(_) => CODE_SECTION_ID,
        }
    }

    /// Encodes the section.
    pub fn serialize(&self) -> (r: Result<Vec<u8>, SerializeError>)
        ensures
            r is Ok <==> self.fits(),
            r matches Ok(bytes) ==> bytes@ == self.bytes(),
            r matches Err(e) ==> e == SerializeError::TooLarge,
    {
        match self {
            Section::Type(inner) => inner.serialize(),
            Section::Function(inner) => inner.serialize(),
            Section::Export(inner) => inner.serialize(),
            Section::Code(inner) => inner.serialize(),
        }
    }
}

} // verus!
