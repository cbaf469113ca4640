use crate::wasm::section::{Section, SerializeError};
use vstd::prelude::*;

verus! {

/// The magic number that opens every module: a zero byte, then `asm`.
pub const MODULE_HEADER: [u8; 4] = [0x00, 0x61, 0x73, 0x6d];

/// Version 1 of the binary format, least significant byte first.
pub const MODULE_VERSION: [u8; 4] = [0x01, 0x00, 0x00, 0x00];

/// The eight bytes in front of the sections.
pub open spec fn preamble() -> Seq<u8> {
    seq![0x00u8, 0x61u8, 0x73u8, 0x6du8, 0x01u8, 0x00u8, 0x00u8, 0x00u8]
}

/// The encodings of the first `n` sections, one after the other.
pub open spec fn section_entries<'a>(segments: Seq<Section<'a>>, n: nat) -> Seq<u8>
    decreases n,
{
    if n == 0 {
        Seq::empty()
    } else {
        section_entries(segments, (n - 1) as nat) + segments[n - 1].bytes()
    }
}

/// Each section has a larger id than the one before it.
pub open spec fn ascending<'a>(segments: Seq<Section<'a>>, n: nat) -> bool {
    forall|i: int| 0 < i < n ==> (#[trigger] segments[i - 1]).spec_id() < segments[i].spec_id()
}

/// Every encoding of a module starts with the same eight bytes: the magic
/// number `00 61 73 6d` and the version `01 00 00 00`.
pub proof fn lemma_module_starts_with_preamble<'a>(module: Module<'a>)
    ensures
        module.bytes().len() >= 8,
        module.bytes().subrange(0, 8) == preamble(),
        module.bytes().subrange(0, 8) == seq![
            0x00u8,
            0x61u8,
            0x73u8,
            0x6du8,
            0x01u8,
            0x00u8,
            0x00u8,
            0x00u8,
        ],
{
    assert(module.bytes().subrange(0, 8) =~= preamble());
}

/// A module in the binary format: its sections in the order in which they
/// are written.
pub struct Module<'a> {
    pub segments: Vec<Section<'a>>,
}

impl<'a> Module<'a> {
    /// The module without types, functions, exports or code: its four
    /// sections are there and empty.
    pub fn new() -> (module: Self)
        ensures
            module.segments@.len() == 4,
            module.segments@[0] matches Section::Type(s) && s.functions@.len() == 0,
            module.segments@[1] matches Section::Function(s) && s.functions@.len() == 0,
            module.segments@[2] matches Section::Export(s) && s.functions@.len() == 0,
            module.segments@[3] matches Section::Code(s) && s.bodies@.len() == 0,
            module.ordered(),
    {
        let mut segments: Vec<Section<'a>> = Vec::new();
        segments.push(Section::type_section(Vec::new()));
        segments.push(Section::function_section(Vec::new()));
        segments.push(Section::export_section(Vec::new()));
        segments.push(Section::code_section());
        let module = Module { segments };
        assert(module.ordered()) by {
            assert forall|i: int| 0 < i < 4 implies (#[trigger] module.segments@[i - 1]).spec_id()
                < module.segments@[i].spec_id() by {
                if i == 1 {
                } else if i == 2 {
                } else {
                }
            }
        }
        module
    }

    /// The sections come in strictly ascending id order, so none comes twice.
    pub open spec fn ordered(&self) -> bool {
        ascending(self.segments@, self.segments@.len())
    }

    /// Every section fits the format.
    pub open spec fn fits(&self) -> bool {
        forall|i: int| 0 <= i < self.segments@.len() ==> (#[trigger] self.segments@[i]).fits()
    }

    /// The preamble, then the sections.
    pub open spec fn bytes(&self) -> Seq<u8> {
        preamble() + section_entries(self.segments@, self.segments@.len())
    }

    /// Whether the sections come in strictly ascending id order.
    pub fn is_ordered(&self) -> (b: bool)
        ensures
            b == self.ordered(),
    {
        let mut k: usize = 1;
        while k < self.segments.len()
            invariant
                1 <= k,
                ascending(self.segments@, k as nat),
            decreases self.segments@.len() - k,
        {
            if self.segments[k - 1].id() >= self.segments[k].id() {
                assert(!((#[trigger] self.segments@[k as int - 1]).spec_id()
                    < self.segments@[k as int].spec_id()));
                return false;
            }
            k += 1;
        }
        true
    }

    /// Encodes the module. A module whose sections are out of order has no
    /// encoding, nor has one with a section that does not fit the format.
    pub fn serialize(&self) -> (r: Result<Vec<u8>, SerializeError>)
        ensures
            r is Ok <==> self.ordered() && self.fits(),
            r matches Ok(bytes) ==> bytes@ == self.bytes() && bytes@.len() >= 8 && bytes@.subrange(0, 8)
                == preamble(),
            r matches Err(e) ==> e == if self.ordered() {
                SerializeError::TooLarge
            } else {
                SerializeError::OutOfOrder
            },
    {
        if !self.is_ordered() {
            return Err(SerializeError::OutOfOrder);
        }
        let mut data: Vec<u8> = Vec::new();
        let mut h: usize = 0;
        while h < 4
            invariant
                h <= 4,
                data@ == preamble().take(h as int),
            decreases 4 - h,
        {
            data.push(MODULE_HEADER[h]);
            h += 1;
            assert(data@ =~= preamble().take(h as int));
        }
        let mut v: usize = 0;
        while v < 4
            invariant
                v <= 4,
                data@ == preamble().take(4 + v),
            decreases 4 - v,
        {
            data.push(MODULE_VERSION[v]);
            v += 1;
            assert(data@ =~= preamble().take(4 + v));
        }
        assert(data@ =~= preamble());
        let mut k: usize = 0;
        while k < self.segments.len()
            invariant
                k <= self.segments@.len(),
                self.ordered(),
                data@ == preamble() + section_entries(self.segments@, k as nat),
                forall|i: int| 0 <= i < k ==> (#[trigger] self.segments@[i]).fits(),
            decreases self.segments@.len() - k,
        {
            match self.segments[k].serialize() {
                Ok(section) => {
                    let mut section = section;
                    data.append(&mut section);
                    assert(data@ =~= preamble() + section_entries(self.segments@, (k + 1) as nat));
                },
                Err(e) => {
                    return Err(e);
                },
            }
            k += 1;
        }
        assert(data@.subrange(0, 8) =~= preamble());
        Ok(data)
    }
}

} // verus!
