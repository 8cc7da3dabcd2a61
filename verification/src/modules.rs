//! Top-level framing: magic, version, and the ordered section list.

use vstd::prelude::*;

pub mod code;
pub mod data;
pub mod element;
pub mod export;
pub mod global;
pub mod import;
pub mod indices;
pub mod memory;
pub mod table;

use crate::instructions::step_pos;
use crate::modules::code::{Code, CodeV};
use crate::modules::data::{Data, DataV};
use crate::modules::element::{Elem, ElemV};
use crate::modules::export::{Export, ExportV};
use crate::modules::global::{Global, GlobalV};
use crate::modules::import::{Import, ImportV};
use crate::modules::indices::{FuncIdx, TypeIdx};
use crate::modules::memory::Memory;
use crate::modules::table::Table;
use crate::types::{FuncType, FuncTypeV};
use crate::values::{
    lemma_bytes_deep_view, prepend_items, spec_take_bytes, take_bytes, DecodeError, ErrorKind,
    Name, Parse,
};

verus! {

/// A custom section's contents: a name, and an opaque raw byte payload
/// that is never decoded further.
#[derive(Debug, Clone, PartialEq, Eq)]
pub struct CustomSection {
    pub name: Name,
    pub data: Vec<u8>,
}

/// The mathematical model of a [`CustomSection`].
pub struct CustomSectionV {
    pub name: Seq<u8>,
    pub data: Seq<u8>,
}

impl DeepView for CustomSection {
    type V = CustomSectionV;

    open spec fn deep_view(&self) -> CustomSectionV {
        CustomSectionV { name: self.name.deep_view(), data: self.data.deep_view() }
    }
}

/// The section holding a length-prefixed sequence of function types.
#[derive(Debug, PartialEq, Eq)]
pub struct TypeSection(pub Vec<FuncType>);

impl DeepView for TypeSection {
    type V = Seq<FuncTypeV>;

    open spec fn deep_view(&self) -> Seq<FuncTypeV> {
        self.0.deep_view()
    }
}

impl Parse for TypeSection {
    open spec fn spec_parse(s: Seq<u8>, pos: int) -> Result<(Seq<FuncTypeV>, int), (ErrorKind, int)> {
        <Vec<FuncType> as Parse>::spec_parse(s, pos)
    }

    fn parse(s: &[u8], pos: usize) -> (r: Result<(TypeSection, usize), DecodeError>) {
        match <Vec<FuncType>>::parse(s, pos) {
            Ok((v, end)) => Ok((TypeSection(v), end)),
            Err(e) => Err(e),
        }
    }
}

/// The section holding a length-prefixed sequence of imports.
#[derive(Debug, PartialEq, Eq)]
pub struct ImportSection(pub Vec<Import>);

impl DeepView for ImportSection {
    type V = Seq<ImportV>;

    open spec fn deep_view(&self) -> Seq<ImportV> {
        self.0.deep_view()
    }
}

impl Parse for ImportSection {
    open spec fn spec_parse(s: Seq<u8>, pos: int) -> Result<(Seq<ImportV>, int), (ErrorKind, int)> {
        <Vec<Import> as Parse>::spec_parse(s, pos)
    }

    fn parse(s: &[u8], pos: usize) -> (r: Result<(ImportSection, usize), DecodeError>) {
        match <Vec<Import>>::parse(s, pos) {
            Ok((v, end)) => Ok((ImportSection(v), end)),
            Err(e) => Err(e),
        }
    }
}

/// The section holding a length-prefixed sequence of type indices.
#[derive(Debug, PartialEq, Eq)]
pub struct FunctionSection(pub Vec<TypeIdx>);

impl DeepView for FunctionSection {
    type V = Seq<TypeIdx>;

    open spec fn deep_view(&self) -> Seq<TypeIdx> {
        self.0.deep_view()
    }
}

impl Parse for FunctionSection {
    open spec fn spec_parse(s: Seq<u8>, pos: int) -> Result<(Seq<TypeIdx>, int), (ErrorKind, int)> {
        <Vec<TypeIdx> as Parse>::spec_parse(s, pos)
    }

    fn parse(s: &[u8], pos: usize) -> (r: Result<(FunctionSection, usize), DecodeError>) {
        match <Vec<TypeIdx>>::parse(s, pos) {
            Ok((v, end)) => Ok((FunctionSection(v), end)),
            Err(e) => Err(e),
        }
    }
}

/// The section holding a length-prefixed sequence of tables.
#[derive(Debug, PartialEq, Eq)]
pub struct TableSection(pub Vec<Table>);

impl DeepView for TableSection {
    type V = Seq<Table>;

    open spec fn deep_view(&self) -> Seq<Table> {
        self.0.deep_view()
    }
}

impl Parse for TableSection {
    open spec fn spec_parse(s: Seq<u8>, pos: int) -> Result<(Seq<Table>, int), (ErrorKind, int)> {
        <Vec<Table> as Parse>::spec_parse(s, pos)
    }

    fn parse(s: &[u8], pos: usize) -> (r: Result<(TableSection, usize), DecodeError>) {
        match <Vec<Table>>::parse(s, pos) {
            Ok((v, end)) => Ok((TableSection(v), end)),
            Err(e) => Err(e),
        }
    }
}

/// The section holding a length-prefixed sequence of memories.
#[derive(Debug, PartialEq, Eq)]
pub struct MemorySection(pub Vec<Memory>);

impl DeepView for MemorySection {
    type V = Seq<Memory>;

    open spec fn deep_view(&self) -> Seq<Memory> {
        self.0.deep_view()
    }
}

impl Parse for MemorySection {
    open spec fn spec_parse(s: Seq<u8>, pos: int) -> Result<(Seq<Memory>, int), (ErrorKind, int)> {
        <Vec<Memory> as Parse>::spec_parse(s, pos)
    }

    fn parse(s: &[u8], pos: usize) -> (r: Result<(MemorySection, usize), DecodeError>) {
        match <Vec<Memory>>::parse(s, pos) {
            Ok((v, end)) => Ok((MemorySection(v), end)),
            Err(e) => Err(e),
        }
    }
}

/// The section holding a length-prefixed sequence of globals.
#[derive(Debug, PartialEq, Eq)]
pub struct GlobalSection(pub Vec<Global>);

impl DeepView for GlobalSection {
    type V = Seq<GlobalV>;

    open spec fn deep_view(&self) -> Seq<GlobalV> {
        self.0.deep_view()
    }
}

impl Parse for GlobalSection {
    open spec fn spec_parse(s: Seq<u8>, pos: int) -> Result<(Seq<GlobalV>, int), (ErrorKind, int)> {
        <Vec<Global> as Parse>::spec_parse(s, pos)
    }

    fn parse(s: &[u8], pos: usize) -> (r: Result<(GlobalSection, usize), DecodeError>) {
        match <Vec<Global>>::parse(s, pos) {
            Ok((v, end)) => Ok((GlobalSection(v), end)),
            Err(e) => Err(e),
        }
    }
}

/// The section holding a length-prefixed sequence of exports.
#[derive(Debug, PartialEq, Eq)]
pub struct ExportSection(pub Vec<Export>);

impl DeepView for ExportSection {
    type V = Seq<ExportV>;

    open spec fn deep_view(&self) -> Seq<ExportV> {
        self.0.deep_view()
    }
}

impl Parse for ExportSection {
    open spec fn spec_parse(s: Seq<u8>, pos: int) -> Result<(Seq<ExportV>, int), (ErrorKind, int)> {
        <Vec<Export> as Parse>::spec_parse(s, pos)
    }

    fn parse(s: &[u8], pos: usize) -> (r: Result<(ExportSection, usize), DecodeError>) {
        match <Vec<Export>>::parse(s, pos) {
            Ok((v, end)) => Ok((ExportSection(v), end)),
            Err(e) => Err(e),
        }
    }
}

/// The section holding an optional start function index.
#[derive(Debug, PartialEq, Eq)]
pub struct StartSection(pub Option<FuncIdx>);

impl DeepView for StartSection {
    type V = Option<FuncIdx>;

    open spec fn deep_view(&self) -> Option<FuncIdx> {
        self.0.deep_view()
    }
}

impl Parse for StartSection {
    open spec fn spec_parse(s: Seq<u8>, pos: int) -> Result<(Option<FuncIdx>, int), (ErrorKind, int)> {
        <Option<FuncIdx> as Parse>::spec_parse(s, pos)
    }

    fn parse(s: &[u8], pos: usize) -> (r: Result<(StartSection, usize), DecodeError>) {
        match <Option<FuncIdx>>::parse(s, pos) {
            Ok((v, end)) => Ok((StartSection(v), end)),
            Err(e) => Err(e),
        }
    }
}

/// The section holding a length-prefixed sequence of element segments.
#[derive(Debug, PartialEq, Eq)]
pub struct ElementSection(pub Vec<Elem>);

impl DeepView for ElementSection {
    type V = Seq<ElemV>;

    open spec fn deep_view(&self) -> Seq<ElemV> {
        self.0.deep_view()
    }
}

impl Parse for ElementSection {
    open spec fn spec_parse(s: Seq<u8>, pos: int) -> Result<(Seq<ElemV>, int), (ErrorKind, int)> {
        <Vec<Elem> as Parse>::spec_parse(s, pos)
    }

    fn parse(s: &[u8], pos: usize) -> (r: Result<(ElementSection, usize), DecodeError>) {
        match <Vec<Elem>>::parse(s, pos) {
            Ok((v, end)) => Ok((ElementSection(v), end)),
            Err(e) => Err(e),
        }
    }
}

/// The section holding a length-prefixed sequence of code entries.
#[derive(Debug, PartialEq, Eq)]
pub struct CodeSection(pub Vec<Code>);

impl DeepView for CodeSection {
    type V = Seq<CodeV>;

    open spec fn deep_view(&self) -> Seq<CodeV> {
        self.0.deep_view()
    }
}

impl Parse for CodeSection {
    open spec fn spec_parse(s: Seq<u8>, pos: int) -> Result<(Seq<CodeV>, int), (ErrorKind, int)> {
        <Vec<Code> as Parse>::spec_parse(s, pos)
    }

    fn parse(s: &[u8], pos: usize) -> (r: Result<(CodeSection, usize), DecodeError>) {
        match <Vec<Code>>::parse(s, pos) {
            Ok((v, end)) => Ok((CodeSection(v), end)),
            Err(e) => Err(e),
        }
    }
}

/// The section holding a length-prefixed sequence of data segments.
#[derive(Debug, PartialEq, Eq)]
pub struct DataSection(pub Vec<Data>);

impl DeepView for DataSection {
    type V = Seq<DataV>;

    open spec fn deep_view(&self) -> Seq<DataV> {
        self.0.deep_view()
    }
}

impl Parse for DataSection {
    open spec fn spec_parse(s: Seq<u8>, pos: int) -> Result<(Seq<DataV>, int), (ErrorKind, int)> {
        <Vec<Data> as Parse>::spec_parse(s, pos)
    }

    fn parse(s: &[u8], pos: usize) -> (r: Result<(DataSection, usize), DecodeError>) {
        match <Vec<Data>>::parse(s, pos) {
            Ok((v, end)) => Ok((DataSection(v), end)),
            Err(e) => Err(e),
        }
    }
}

/// The section holding an optional data count.
#[derive(Debug, PartialEq, Eq)]
pub struct DataCountSection(pub Option<u32>);

impl DeepView for DataCountSection {
    type V = Option<u32>;

    open spec fn deep_view(&self) -> Option<u32> {
        self.0.deep_view()
    }
}

impl Parse for DataCountSection {
    open spec fn spec_parse(s: Seq<u8>, pos: int) -> Result<(Option<u32>, int), (ErrorKind, int)> {
        <Option<u32> as Parse>::spec_parse(s, pos)
    }

    fn parse(s: &[u8], pos: usize) -> (r: Result<(DataCountSection, usize), DecodeError>) {
        match <Option<u32>>::parse(s, pos) {
            Ok((v, end)) => Ok((DataCountSection(v), end)),
            Err(e) => Err(e),
        }
    }
}

/// A top-level section, tagged by its one-byte id.
#[derive(Debug, PartialEq, Eq)]
pub enum Section {
    CustomSection(CustomSection),
    TypeSection(TypeSection),
    ImportSection(ImportSection),
    FunctionSection(FunctionSection),
    TableSection(TableSection),
    MemorySection(MemorySection),
    GlobalSection(GlobalSection),
    ExportSection(ExportSection),
    StartSection(StartSection),
    ElementSection(ElementSection),
    CodeSection(CodeSection),
    DataSection(DataSection),
    DataCountSection(DataCountSection),
}

/// The mathematical model of a [`Section`].
pub enum SectionV {
    CustomSection(CustomSectionV),
    TypeSection(Seq<FuncTypeV>),
    ImportSection(Seq<ImportV>),
    FunctionSection(Seq<TypeIdx>),
    TableSection(Seq<Table>),
    MemorySection(Seq<Memory>),
    GlobalSection(Seq<GlobalV>),
    ExportSection(Seq<ExportV>),
    StartSection(Option<FuncIdx>),
    ElementSection(Seq<ElemV>),
    CodeSection(Seq<CodeV>),
    DataSection(Seq<DataV>),
    DataCountSection(Option<u32>),
}

impl DeepView for Section {
    type V = SectionV;

    open spec fn deep_view(&self) -> SectionV {
        match self {
            Section::CustomSection(x) => SectionV::CustomSection(x.deep_view()),
            Section::TypeSection(x) => SectionV::TypeSection(x.deep_view()),
            Section::ImportSection(x) => SectionV::ImportSection(x.deep_view()),
            Section::FunctionSection(x) => SectionV::FunctionSection(x.deep_view()),
            Section::TableSection(x) => SectionV::TableSection(x.deep_view()),
            Section::MemorySection(x) => SectionV::MemorySection(x.deep_view()),
            Section::GlobalSection(x) => SectionV::GlobalSection(x.deep_view()),
            Section::ExportSection(x) => SectionV::ExportSection(x.deep_view()),
            Section::StartSection(x) => SectionV::StartSection(x.deep_view()),
            Section::ElementSection(x) => SectionV::ElementSection(x.deep_view()),
            Section::CodeSection(x) => SectionV::CodeSection(x.deep_view()),
            Section::DataSection(x) => SectionV::DataSection(x.deep_view()),
            Section::DataCountSection(x) => SectionV::DataCountSection(x.deep_view()),
        }
    }
}

/// Decodes one section: a one-byte id that must be at most 12
/// (`UnexpectedByte` at the id's offset otherwise), a declared byte
/// length, then the id's payload grammar. For a custom section (id 0) the
/// name is decoded and the rest of the declared length is taken verbatim
/// as the payload: a name longer than the declared length is `Malformed`.
/// For ids 1 to 12 the declared length is stored nowhere and not enforced
/// against the bytes the payload grammar actually consumed.
pub open spec fn spec_section(s: Seq<u8>, pos: int) -> Result<(SectionV, int), (ErrorKind, int)> {
    if pos < 0 || pos >= s.len() {
        Err((ErrorKind::Truncated, pos))
    } else {
        let id = s[pos];
        if id > 12 {
            Err((ErrorKind::UnexpectedByte, pos))
        } else {
            match <u32 as Parse>::spec_parse(s, pos + 1) {
                Ok((length, p2)) => {
                    if id == 0 {
                        match <Name as Parse>::spec_parse(s, p2) {
                            Ok((name, p3)) => {
                                if p3 - p2 > length {
                                    Err((ErrorKind::Malformed, p3))
                                } else {
                                    match spec_take_bytes(s, p3, length - (p3 - p2)) {
                                        Ok((data, end)) => Ok(
                                            (
                                                SectionV::CustomSection(
                                                    CustomSectionV { name, data },
                                                ),
                                                end,
                                            ),
                                        ),
                                        Err(e) => Err(e),
                                    }
                                }
                            },
                            Err(e) => Err(e),
                        }
                    } else if id == 1 {
                        match <TypeSection as Parse>::spec_parse(s, p2) {
                            Ok((x, end)) => Ok((SectionV::TypeSection(x), end)),
                            Err(e) => Err(e),
                        }
                    } else if id == 2 {
                        match <ImportSection as Parse>::spec_parse(s, p2) {
                            Ok((x, end)) => Ok((SectionV::ImportSection(x), end)),
                            Err(e) => Err(e),
                        }
                    } else if id == 3 {
                        match <FunctionSection as Parse>::spec_parse(s, p2) {
                            Ok((x, end)) => Ok((SectionV::FunctionSection(x), end)),
                            Err(e) => Err(e),
                        }
                    } else if id == 4 {
                        match <TableSection as Parse>::spec_parse(s, p2) {
                            Ok((x, end)) => Ok((SectionV::TableSection(x), end)),
                            Err(e) => Err(e),
                        }
                    } else if id == 5 {
                        match <MemorySection as Parse>::spec_parse(s, p2) {
                            Ok((x, end)) => Ok((SectionV::MemorySection(x), end)),
                            Err(e) => Err(e),
                        }
                    } else if id == 6 {
                        match <GlobalSection as Parse>::spec_parse(s, p2) {
                            Ok((x, end)) => Ok((SectionV::GlobalSection(x), end)),
                            Err(e) => Err(e),
                        }
                    } else if id == 7 {
                        match <ExportSection as Parse>::spec_parse(s, p2) {
                            Ok((x, end)) => Ok((SectionV::ExportSection(x), end)),
                            Err(e) => Err(e),
                        }
                    } else if id == 8 {
                        match <StartSection as Parse>::spec_parse(s, p2) {
                            Ok((x, end)) => Ok((SectionV::StartSection(x), end)),
                            Err(e) => Err(e),
                        }
                    } else if id == 9 {
                        match <ElementSection as Parse>::spec_parse(s, p2) {
                            Ok((x, end)) => Ok((SectionV::ElementSection(x), end)),
                            Err(e) => Err(e),
                        }
                    } else if id == 10 {
                        match <CodeSection as Parse>::spec_parse(s, p2) {
                            Ok((x, end)) => Ok((SectionV::CodeSection(x), end)),
                            Err(e) => Err(e),
                        }
                    } else if id == 11 {
                        match <DataSection as Parse>::spec_parse(s, p2) {
                            Ok((x, end)) => Ok((SectionV::DataSection(x), end)),
                            Err(e) => Err(e),
                        }
                    } else {
                        match <DataCountSection as Parse>::spec_parse(s, p2) {
                            Ok((x, end)) => Ok((SectionV::DataCountSection(x), end)),
                            Err(e) => Err(e),
                        }
                    }
                },
                Err(e) => Err(e),
            }
        }
    }
}

/// Executable counterpart of [`spec_section`]; a section always consumes
/// at least its id byte.
pub fn parse_section(s: &[u8], pos: usize) -> (r: Result<(Section, usize), DecodeError>)
    ensures
        ({
            let sp = spec_section(s@, pos as int);
            match (r, sp) {
                (Ok((v, end)), Ok((sv, send))) => v.deep_view() == sv && end as int == send && pos
                    < end <= s@.len(),
                (Err(e), Err((k, off))) => e.kind == k && e.offset as int == off,
                _ => false,
            }
        }),
{
    if pos >= s.len() {
        return Err(DecodeError { kind: ErrorKind::Truncated, offset: pos });
    }
    let id = s[pos];
    if id > 12 {
        return Err(DecodeError { kind: ErrorKind::UnexpectedByte, offset: pos });
    }
    let (length, p2) = match u32::parse(s, pos + 1) {
        Ok(p) => p,
        Err(e) => {
            return Err(e);
        },
    };
    if id == 0 {
        let (name, p3) = match Name::parse(s, p2) {
            Ok(p) => p,
            Err(e) => {
                return Err(e);
            },
        };
        let consumed = p3 - p2;
        if consumed as u64 > length as u64 {
            return Err(DecodeError { kind: ErrorKind::Malformed, offset: p3 });
        }
        let need = (length as u64 - consumed as u64) as usize;
        match take_bytes(s, p3, need) {
            Ok((data, end)) => {
                proof {
                    lemma_bytes_deep_view(data);
                }
                Ok((Section::CustomSection(CustomSection { name, data }), end))
            },
            Err(e) => Err(e),
        }
    } else if id == 1 {
        match TypeSection::parse(s, p2) {
            Ok((x, end)) => Ok((Section::TypeSection(x), end)),
            Err(e) => Err(e),
        }
    } else if id == 2 {
        match ImportSection::parse(s, p2) {
            Ok((x, end)) => Ok((Section::ImportSection(x), end)),
            Err(e) => Err(e),
        }
    } else if id == 3 {
        match FunctionSection::parse(s, p2) {
            Ok((x, end)) => Ok((Section::FunctionSection(x), end)),
            Err(e) => Err(e),
        }
    } else if id == 4 {
        match TableSection::parse(s, p2) {
            Ok((x, end)) => Ok((Section::TableSection(x), end)),
            Err(e) => Err(e),
        }
    } else if id == 5 {
        match MemorySection::parse(s, p2) {
            Ok((x, end)) => Ok((Section::MemorySection(x), end)),
            Err(e) => Err(e),
        }
    } else if id == 6 {
        match GlobalSection::parse(s, p2) {
            Ok((x, end)) => Ok((Section::GlobalSection(x), end)),
            Err(e) => Err(e),
        }
    } else if id == 7 {
        match ExportSection::parse(s, p2) {
            Ok((x, end)) => Ok((Section::ExportSection(x), end)),
            Err(e) => Err(e),
        }
    } else if id == 8 {
        match StartSection::parse(s, p2) {
            Ok((x, end)) => Ok((Section::StartSection(x), end)),
            Err(e) => Err(e),
        }
    } else if id == 9 {
        match ElementSection::parse(s, p2) {
            Ok((x, end)) => Ok((Section::ElementSection(x), end)),
            Err(e) => Err(e),
        }
    } else if id == 10 {
        match CodeSection::parse(s, p2) {
            Ok((x, end)) => Ok((Section::CodeSection(x), end)),
            Err(e) => Err(e),
        }
    } else if id == 11 {
        match DataSection::parse(s, p2) {
            Ok((x, end)) => Ok((Section::DataSection(x), end)),
            Err(e) => Err(e),
        }
    } else {
        match DataCountSection::parse(s, p2) {
            Ok((x, end)) => Ok((Section::DataCountSection(x), end)),
            Err(e) => Err(e),
        }
    }
}

impl Parse for Section {
    open spec fn spec_parse(s: Seq<u8>, pos: int) -> Result<(SectionV, int), (ErrorKind, int)> {
        spec_section(s, pos)
    }

    fn parse(s: &[u8], pos: usize) -> (r: Result<(Section, usize), DecodeError>) {
        parse_section(s, pos)
    }
}

/// The fixed 4-byte module magic, `0x00 0x61 0x73 0x6D`.
#[derive(Debug, Clone, Copy, PartialEq, Eq)]
pub struct Magic;

impl DeepView for Magic {
    type V = Magic;

    open spec fn deep_view(&self) -> Magic {
        *self
    }
}

impl Parse for Magic {
    /// Fewer than 4 remaining bytes is `Truncated` at the cursor,
    /// whatever they hold; otherwise the first byte differing from the
    /// magic is `UnexpectedByte` at its own offset.
    open spec fn spec_parse(s: Seq<u8>, pos: int) -> Result<(Magic, int), (ErrorKind, int)> {
        if pos < 0 || pos + 4 > s.len() {
            Err((ErrorKind::Truncated, pos))
        } else if s[pos] != 0x00 {
            Err((ErrorKind::UnexpectedByte, pos))
        } else if s[pos + 1] != 0x61 {
            Err((ErrorKind::UnexpectedByte, pos + 1))
        } else if s[pos + 2] != 0x73 {
            Err((ErrorKind::UnexpectedByte, pos + 2))
        } else if s[pos + 3] != 0x6D {
            Err((ErrorKind::UnexpectedByte, pos + 3))
        } else {
            Ok((Magic, pos + 4))
        }
    }

    fn parse(s: &[u8], pos: usize) -> (r: Result<(Magic, usize), DecodeError>) {
        if pos >= s.len() || s.len() - pos < 4 {
            Err(DecodeError { kind: ErrorKind::Truncated, offset: pos })
        } else if s[pos] != 0x00 {
            Err(DecodeError { kind: ErrorKind::UnexpectedByte, offset: pos })
        } else if s[pos + 1] != 0x61 {
            Err(DecodeError { kind: ErrorKind::UnexpectedByte, offset: pos + 1 })
        } else if s[pos + 2] != 0x73 {
            Err(DecodeError { kind: ErrorKind::UnexpectedByte, offset: pos + 2 })
        } else if s[pos + 3] != 0x6D {
            Err(DecodeError { kind: ErrorKind::UnexpectedByte, offset: pos + 3 })
        } else {
            Ok((Magic, pos + 4))
        }
    }
}

/// The 4-byte version field, stored raw: no version set is enforced, a
/// caller rejects what it does not support.
#[derive(Debug, Clone, Copy, PartialEq, Eq)]
pub struct Version(pub [u8; 4]);

impl DeepView for Version {
    type V = Seq<u8>;

    open spec fn deep_view(&self) -> Seq<u8> {
        self.0@
    }
}

impl Parse for Version {
    open spec fn spec_parse(s: Seq<u8>, pos: int) -> Result<(Seq<u8>, int), (ErrorKind, int)> {
        if pos < 0 || pos + 4 > s.len() {
            Err((ErrorKind::Truncated, pos))
        } else {
            Ok((s.subrange(pos, pos + 4), pos + 4))
        }
    }

    fn parse(s: &[u8], pos: usize) -> (r: Result<(Version, usize), DecodeError>) {
        if pos >= s.len() || s.len() - pos < 4 {
            Err(DecodeError { kind: ErrorKind::Truncated, offset: pos })
        } else {
            let v = Version([s[pos], s[pos + 1], s[pos + 2], s[pos + 3]]);
            proof {
                assert(v.0@ =~= s@.subrange(pos as int, pos + 4));
            }
            Ok((v, pos + 4))
        }
    }
}

/// A decoded module: the magic marker, the raw version field, and the
/// ordered sections.
#[derive(Debug, PartialEq, Eq)]
pub struct Module {
    pub magic: Magic,
    pub version: Version,
    pub sections: Vec<Section>,
}

/// The mathematical model of a [`Module`].
pub struct ModuleV {
    pub magic: Magic,
    pub version: Seq<u8>,
    pub sections: Seq<SectionV>,
}

impl DeepView for Module {
    type V = ModuleV;

    open spec fn deep_view(&self) -> ModuleV {
        ModuleV {
            magic: self.magic,
            version: self.version.deep_view(),
            sections: self.sections.deep_view(),
        }
    }
}

/// Decodes sections until the input is exhausted: the module extends to
/// the end of the stream, so this sequence is unbounded and unterminated.
/// Any section failure propagates and fails the whole decode — there is
/// no recovery, no skipped section, and no tolerated trailing byte.
pub open spec fn spec_sections(s: Seq<u8>, pos: int) -> Result<(Seq<SectionV>, int), (ErrorKind, int)>
    decreases s.len() - pos,
{
    if pos < 0 || pos >= s.len() {
        Ok((Seq::empty(), pos))
    } else {
        match spec_section(s, pos) {
            Ok((sec, mid)) => match spec_sections(s, step_pos(mid, pos, s.len() as int)) {
                Ok((rest, end)) => Ok((seq![sec] + rest, end)),
                Err(e) => Err(e),
            },
            Err(e) => Err(e),
        }
    }
}

/// The section list extends to the end of the stream: a successful
/// section run from any cursor within the input always ends exactly at
/// the input's end, so a successfully decoded module leaves no trailing
/// byte unconsumed.
pub proof fn lemma_sections_reach_end(s: Seq<u8>, pos: int)
    requires
        0 <= pos <= s.len(),
        spec_sections(s, pos) is Ok,
    ensures
        spec_sections(s, pos)->Ok_0.1 == s.len(),
    decreases s.len() - pos,
{
    if pos < s.len() {
        let (_, mid) = spec_section(s, pos)->Ok_0;
        lemma_sections_reach_end(s, step_pos(mid, pos, s.len() as int));
    }
}

/// Decoding a whole module: magic, version, then sections to the end of
/// input.
pub open spec fn spec_module(s: Seq<u8>, pos: int) -> Result<(ModuleV, int), (ErrorKind, int)> {
    match <Magic as Parse>::spec_parse(s, pos) {
        Ok((magic, p1)) => match <Version as Parse>::spec_parse(s, p1) {
            Ok((version, p2)) => match spec_sections(s, p2) {
                Ok((sections, end)) => Ok((ModuleV { magic, version, sections }, end)),
                Err(e) => Err(e),
            },
            Err(e) => Err(e),
        },
        Err(e) => Err(e),
    }
}

impl Parse for Module {
    open spec fn spec_parse(s: Seq<u8>, pos: int) -> Result<(ModuleV, int), (ErrorKind, int)> {
        spec_module(s, pos)
    }

    /// A module runs to the end of the input: its section list is
    /// unterminated, so on success the cursor lands at the input's end.
    #[verifier::rlimit(30)]
    #[verifier::loop_isolation(false)]
    fn parse(s: &[u8], pos: usize) -> (r: Result<(Module, usize), DecodeError>) {
        let (magic, p1) = match Magic::parse(s, pos) {
            Ok(p) => p,
            Err(e) => {
                return Err(e);
            },
        };
        let (version, p2) = match Version::parse(s, p1) {
            Ok(p) => p,
            Err(e) => {
                return Err(e);
            },
        };
        let ghost full = spec_sections(s@, p2 as int);
        let mut sections: Vec<Section> = Vec::new();
        let mut cur: usize = p2;
        while cur < s.len()
            invariant
                p2 <= cur <= s@.len(),
                full == spec_sections(s@, p2 as int),
                full == prepend_items(sections.deep_view(), spec_sections(s@, cur as int)),
            decreases s@.len() - cur,
        {
            match parse_section(s, cur) {
                Ok((sec, end)) => {
                    proof {
                        let rest = spec_sections(s@, end as int);
                        let stepped = prepend_items(
                            sections.deep_view() + seq![sec.deep_view()],
                            rest,
                        );
                        assert(step_pos(end as int, cur as int, s@.len() as int) == end as int);
                        match rest {
                            Ok((r2, _)) => {
                                assert(sections.deep_view() + (seq![sec.deep_view()] + r2) =~= (
                                sections.deep_view() + seq![sec.deep_view()]) + r2);
                            },
                            Err(_) => {},
                        }
                        assert(full == stepped);
                    }
                    let ghost prev = sections.deep_view();
                    sections.push(sec);
                    proof {
                        assert(sections.deep_view() =~= prev + seq![sec.deep_view()]);
                    }
                    cur = end;
                },
                Err(e) => {
                    proof {
                        assert(spec_sections(s@, cur as int) == Err::<
                            (Seq<SectionV>, int),
                            (ErrorKind, int),
                        >((e.kind, e.offset as int)));
                    }
                    return Err(e);
                },
            }
        }
        Ok((Module { magic, version, sections }, cur))
    }
}

/// The entry point: decodes a byte sequence into a module together with
/// the count of unconsumed trailing bytes, or the structured failure at
/// the offset where decoding stopped. Sections run to the end of input,
/// so on success the count is the distance from the final cursor to the
/// input's end.
pub fn decode_module(s: &[u8]) -> (r: Result<(Module, usize), DecodeError>)
    ensures
        ({
            let sp = spec_module(s@, 0);
            match (r, sp) {
                (Ok((m, trailing)), Ok((sm, send))) => m.deep_view() == sm && trailing as int
                    == s@.len() - send && trailing == 0,
                (Err(e), Err((k, off))) => e.kind == k && e.offset as int == off,
                _ => false,
            }
        }),
{
    match Module::parse(s, 0) {
        Ok((m, end)) => {
            proof {
                match <Magic as Parse>::spec_parse(s@, 0) {
                    Ok((_, p1)) => match <Version as Parse>::spec_parse(s@, p1) {
                        Ok((_, p2)) => {
                            lemma_sections_reach_end(s@, p2);
                        },
                        Err(_) => {},
                    },
                    Err(_) => {},
                }
            }
            Ok((m, s.len() - end))
        },
        Err(e) => Err(e),
    }
}

} // verus!
