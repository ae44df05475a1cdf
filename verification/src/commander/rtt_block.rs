//! Where the RTT control block of a target lies: the address of the symbol
//! `_SEGGER_RTT` in the target's ELF image.

use vstd::prelude::*;
use vstd::string::StringExecFns;

use super::Commander;

verus! {

/// One entry of an ELF symbol table: the offset of its name in the string
/// table, the name found there, where the entry has a name and one is
/// found, and its value.
#[derive(Debug)]
pub struct SymbolEntry {
    pub name_offset: u32,
    pub name: Option<String>,
    pub value: u64,
}

/// What the contracts say of a [`SymbolEntry`].
pub struct SymbolEntryView {
    pub name_offset: u32,
    pub name: Option<Seq<char>>,
    pub value: u64,
}

impl DeepView for SymbolEntry {
    type V = SymbolEntryView;

    open spec fn deep_view(&self) -> SymbolEntryView {
        SymbolEntryView {
            name_offset: self.name_offset,
            name: self.name.deep_view(),
            value: self.value,
        }
    }
}

/// The symbol table that the `elf` crate finds in an ELF image: `None`
/// where the image does not parse or holds no symbol table, else for each
/// symbol, in the order of the table, the offset of its name in the string
/// table and its value.
pub uninterp spec fn elf_symbol_table(image: Seq<u8>) -> Option<Seq<(u32, u64)>>;

/// The name that the `elf` crate reads at an offset of the string table
/// that belongs to the symbol table of an ELF image: `None` where there is
/// no such table or no text at that offset.
pub uninterp spec fn elf_symbol_name(image: Seq<u8>, offset: u32) -> Option<Seq<char>>;

/// A symbol table that was read, or could not be read, as a sequence.
pub open spec fn table_view(table: Option<Vec<(u32, u64)>>) -> Option<Seq<(u32, u64)>> {
    match table {
        Some(symbols) => Some(symbols@),
        None => None,
    }
}

/// Reads the symbol table of an ELF image with the `elf` crate:
/// `ElfBytes::minimal_parse` on the image, `symbol_table` on the result, and
/// the name offset and the value of each symbol that iterating the table
/// yields. Claimed of them: what comes out depends on the bytes of the
/// image alone.
#[verifier::external_body]
fn read_symbol_table(image: &Vec<u8>) -> (r: Option<Vec<(u32, u64)>>)
    ensures
        table_view(r) == elf_symbol_table(image@),
{
    let file = elf::ElfBytes::<elf::endian::AnyEndian>::minimal_parse(image.as_slice()).ok()?;
    let (symtab, _) = file.symbol_table().ok()??;
    Some(symtab.iter().map(|symbol| (symbol.st_name, symbol.st_value)).collect())
}

/// Reads one name out of the string table of an ELF image with the `elf`
/// crate: `ElfBytes::minimal_parse` on the image, `symbol_table` on the
/// result, and `StringTable::get` at the offset. Claimed of them: what
/// comes out depends on the bytes of the image and the offset alone.
#[verifier::external_body]
fn read_symbol_name(image: &Vec<u8>, offset: u32) -> (r: Option<String>)
    ensures
        r.deep_view() == elf_symbol_name(image@, offset),
{
    let file = elf::ElfBytes::<elf::endian::AnyEndian>::minimal_parse(image.as_slice()).ok()?;
    let (_, strtab) = file.symbol_table().ok()??;
    strtab.get(offset as usize).ok().map(String::from)
}

/// The entry for one symbol of the table of an image. A symbol whose name
/// offset is zero has no name.
pub open spec fn symbol_entry(image: Seq<u8>, symbol: (u32, u64)) -> SymbolEntryView {
    SymbolEntryView {
        name_offset: symbol.0,
        name: if symbol.0 != 0 {
            elf_symbol_name(image, symbol.0)
        } else {
            None
        },
        value: symbol.1,
    }
}

/// The symbols of an ELF image with their names: `None` where the image
/// does not parse or holds no symbol table.
pub open spec fn elf_symbols(image: Seq<u8>) -> Option<Seq<SymbolEntryView>> {
    match elf_symbol_table(image) {
        None => None,
        Some(table) => Some(table.map_values(|symbol: (u32, u64)| symbol_entry(image, symbol))),
    }
}

/// Reads the symbols of an ELF image and looks up their names.
pub fn read_symbols(image: &Vec<u8>) -> (r: Option<Vec<SymbolEntry>>)
    ensures
        r.deep_view() == elf_symbols(image@),
{
    let table = match read_symbol_table(image) {
        Some(table) => table,
        None => {
            return None;
        },
    };
    let ghost entries = elf_symbols(image@).unwrap();
    let mut out: Vec<SymbolEntry> = Vec::new();
    let mut i: usize = 0;
    assert(out.deep_view() =~= entries.take(0));
    while i < table.len()
        invariant
            i <= table.len(),
            elf_symbol_table(image@) == Some(table@),
            entries == elf_symbols(image@).unwrap(),
            out.deep_view() == entries.take(i as int),
        decreases table.len() - i,
    {
        let (name_offset, value) = table[i];
        let name = if name_offset != 0 {
            read_symbol_name(image, name_offset)
        } else {
            None
        };
        let ghost before = out.deep_view();
        let entry = SymbolEntry { name_offset, name, value };
        out.push(entry);
        assert(out.deep_view() =~= before.push(entry.deep_view()));
        assert(before.push(entry.deep_view()) =~= entries.take(i + 1));
        i += 1;
    }
    assert(entries.take(table.len() as int) =~= entries);
    Some(out)
}

/// The entry names the RTT control block: it has a name, and the name is
/// `_SEGGER_RTT`.
pub open spec fn names_rtt_block(symbol: SymbolEntryView) -> bool {
    symbol.name_offset != 0 && symbol.name == Some("_SEGGER_RTT"@)
}

/// The value of the first symbol that names the RTT control block.
pub open spec fn rtt_block(symbols: Seq<SymbolEntryView>) -> Option<u64>
    decreases symbols.len(),
{
    if symbols.len() == 0 {
        None
    } else {
        match rtt_block(symbols.drop_last()) {
            Some(address) => Some(address),
            None => if names_rtt_block(symbols.last()) {
                Some(symbols.last().value)
            } else {
                None
            },
        }
    }
}

/// `rtt_block` finds the first symbol that names the control block, and
/// finds one whenever there is one.
pub proof fn law_rtt_block_is_the_first(symbols: Seq<SymbolEntryView>)
    ensures
        match rtt_block(symbols) {
            Some(address) => exists|i: int|
                0 <= i < symbols.len() && names_rtt_block(#[trigger] symbols[i])
                    && symbols[i].value == address && forall|j: int|
                    0 <= j < i ==> !names_rtt_block(#[trigger] symbols[j]),
            None => forall|j: int|
                0 <= j < symbols.len() ==> !names_rtt_block(#[trigger] symbols[j]),
        },
    decreases symbols.len(),
{
    if symbols.len() > 0 {
        let earlier = symbols.drop_last();
        law_rtt_block_is_the_first(earlier);
        assert(forall|j: int| 0 <= j < earlier.len() ==> earlier[j] == #[trigger] symbols[j]);
        match rtt_block(earlier) {
            Some(address) => {
                let i = choose|i: int|
                    0 <= i < earlier.len() && names_rtt_block(#[trigger] earlier[i])
                        && earlier[i].value == address && forall|j: int|
                        0 <= j < i ==> !names_rtt_block(#[trigger] earlier[j]);
                assert(names_rtt_block(symbols[i]));
            },
            None => {
                if names_rtt_block(symbols.last()) {
                    assert(names_rtt_block(symbols[symbols.len() - 1]));
                }
            },
        }
    }
}

/// A block found among the first symbols is the block found in the table.
proof fn lemma_rtt_block_prefix(symbols: Seq<SymbolEntryView>, n: int)
    requires
        0 <= n <= symbols.len(),
        rtt_block(symbols.take(n)) is Some,
    ensures
        rtt_block(symbols) == rtt_block(symbols.take(n)),
    decreases symbols.len() - n,
{
    if n < symbols.len() {
        assert(symbols.take(n + 1).drop_last() =~= symbols.take(n));
        lemma_rtt_block_prefix(symbols, n + 1);
    } else {
        assert(symbols.take(n) =~= symbols);
    }
}

/// What the search for the RTT control block in an ELF image comes to.
pub open spec fn rtt_address(symbols: Option<Seq<SymbolEntryView>>) -> Result<u64, Seq<char>> {
    match symbols {
        None => Err("Unable to read the symbol table of the elf file"@),
        Some(symbols) => match rtt_block(symbols) {
            Some(address) => Ok(address),
            None => Err("Unable to find _SEGGER_RTT symbol in elf file"@),
        },
    }
}

/// A result with its error text taken by its view.
pub open spec fn address_view(r: Result<u64, String>) -> Result<u64, Seq<char>> {
    match r {
        Ok(address) => Ok(address),
        Err(text) => Err(text@),
    }
}

/// Looks for the RTT control block in a symbol table.
pub fn find_rtt_block(symbols: &Vec<SymbolEntry>) -> (r: Option<u64>)
    ensures
        r == rtt_block(symbols.deep_view()),
{
    let target = String::from_str("_SEGGER_RTT");
    let mut i: usize = 0;
    let ghost all = symbols.deep_view();
    proof {
        assert(all.take(0) =~= Seq::<SymbolEntryView>::empty());
    }
    while i < symbols.len()
        invariant
            i <= symbols.len(),
            all == symbols.deep_view(),
            target@ == "_SEGGER_RTT"@,
            rtt_block(all.take(i as int)) is None,
        decreases symbols.len() - i,
    {
        let symbol = &symbols[i];
        proof {
            assert(all.take(i + 1).drop_last() =~= all.take(i as int));
            assert(all.take(i + 1).last() == symbol.deep_view());
        }
        if symbol.name_offset != 0 {
            match &symbol.name {
                Some(name) => {
                    if *name == target {
                        proof {
                            lemma_rtt_block_prefix(all, i + 1);
                        }
                        return Some(symbol.value);
                    }
                },
                None => {},
            }
        }
        i += 1;
    }
    assert(all.take(symbols.len() as int) =~= all);
    None
}

/// What a symbol table that was read, or could not be read, says of the
/// RTT control block.
pub fn rtt_block_in(symbols: Option<Vec<SymbolEntry>>) -> (r: Result<u64, String>)
    ensures
        address_view(r) == rtt_address(symbols.deep_view()),
{
    match symbols {
        None => Err(String::from_str("Unable to read the symbol table of the elf file")),
        Some(symbols) => match find_rtt_block(&symbols) {
            Some(address) => Ok(address),
            None => Err(String::from_str("Unable to find _SEGGER_RTT symbol in elf file")),
        },
    }
}

impl Commander {
    /// For RTT targets, parse the elf image and get the RTT address
    pub fn rtt_block_from_elf(image: &Vec<u8>) -> (r: Result<u64, String>)
        ensures
            address_view(r) == rtt_address(elf_symbols(image@)),
    {
        rtt_block_in(read_symbols(image))
    }
}

} // verus!
