//! Loaded ROMs: the parsed cartridge together with the metadata the host
//! shows at startup.  Reading the file is the binary's part; it hands the
//! bytes to [`LoadedRom::from_bytes`].
use vstd::prelude::*;
use crate::cartridge::{header_check, info_matches, Cartridge, CartridgeInfo, CartridgeKind, MapperKind};
use crate::cli::error::CliError;

verus! {

/// Cartridge metadata surfaced by the host, as the header parse gave it.
#[derive(Debug, Clone)]
pub struct RomMetadata {
    pub title: String,
    pub mapper: MapperKind,
    pub rom_size_bytes: usize,
    pub ram_size_bytes: usize,
    pub rom_banks: usize,
    pub ram_banks: usize,
}

/// The label shown for a mapper.
pub open spec fn mapper_name(mapper: MapperKind) -> Seq<char> {
    match mapper {
        MapperKind::RomOnly => "ROM-only"@,
        MapperKind::Mbc1 => "MBC1"@,
        MapperKind::Mbc3 => "MBC3"@,
        MapperKind::Mbc5 => "MBC5"@,
    }
}

/// The title shown: the header title, or `<untitled>` when it is empty.
pub open spec fn title_shown(title: Seq<char>) -> Seq<char> {
    if title.len() == 0 {
        "<untitled>"@
    } else {
        title
    }
}

/// The metadata carries exactly the header information.
pub open spec fn metadata_matches(m: RomMetadata, info: CartridgeInfo) -> bool {
    &&& m.title@ == info.title@
    &&& m.mapper == info.mapper
    &&& m.rom_size_bytes == info.rom_size
    &&& m.ram_size_bytes == info.ram_size
    &&& m.rom_banks == info.rom_banks
    &&& m.ram_banks == info.ram_banks
}

impl RomMetadata {
    pub fn mapper_label(&self) -> (label: &'static str)
        ensures
            label@ == mapper_name(self.mapper),
    {
        mapper_label(self.mapper)
    }

    pub fn display_title(&self) -> (title: &str)
        ensures
            title@ == title_shown(self.title@),
    {
        if self.title.as_str().is_empty() {
            "<untitled>"
        } else {
            self.title.as_str()
        }
    }
}

/// The label shown for a mapper.
pub fn mapper_label(mapper: MapperKind) -> (label: &'static str)
    ensures
        label@ == mapper_name(mapper),
{
    match mapper {
        MapperKind::RomOnly => "ROM-only",
        MapperKind::Mbc1 => "MBC1",
        MapperKind::Mbc3 => "MBC3",
        MapperKind::Mbc5 => "MBC5",
    }
}

fn metadata_from_info(info: &CartridgeInfo) -> (m: RomMetadata)
    ensures
        metadata_matches(m, *info),
{
    RomMetadata {
        title: info.title.clone(),
        mapper: info.mapper,
        rom_size_bytes: info.rom_size,
        ram_size_bytes: info.ram_size,
        rom_banks: info.rom_banks,
        ram_banks: info.ram_banks,
    }
}

/// A parsed ROM with its path and metadata, ready to hand to the `DMG`
/// constructor without parsing again.
pub struct LoadedRom {
    path: String,
    cartridge: CartridgeKind,
    metadata: RomMetadata,
}

impl LoadedRom {
    #[verifier::type_invariant]
    spec fn describes_cartridge(self) -> bool {
        metadata_matches(self.metadata, self.cartridge.header_info())
    }

    pub closed spec fn path_text(&self) -> Seq<char> {
        self.path@
    }

    pub closed spec fn cart(&self) -> CartridgeKind {
        self.cartridge
    }

    pub closed spec fn meta(&self) -> RomMetadata {
        self.metadata
    }

    /// Parses the bytes read from `path`.  Fails, naming the path, exactly
    /// when the header check fails; otherwise the cartridge holds the image
    /// and the metadata is the header's.
    pub fn from_bytes(path: &str, bytes: Vec<u8>) -> (r: Result<LoadedRom, CliError>)
        ensures
            match header_check(bytes@) {
                Err(e) => r matches Err(CliError::RomParse { path: p, source: s }) && p@ == path@
                    && s == e,
                Ok(_) => r matches Ok(l) && l.path_text() == path@ && l.cart().rom_image()
                    == bytes@ && info_matches(l.cart().header_info(), bytes@) && l.cart().is_fresh()
                    && metadata_matches(l.meta(), l.cart().header_info()),
            },
    {
        let cartridge = match CartridgeKind::from_bytes(bytes) {
            Ok(c) => c,
            Err(e) => {
                return Err(CliError::rom_parse(path, e));
            },
        };
        let metadata = metadata_from_info(cartridge.info());
        Ok(LoadedRom { path: String::from_str(path), cartridge, metadata })
    }

    pub fn path(&self) -> (p: &str)
        ensures
            p@ == self.path_text(),
    {
        self.path.as_str()
    }

    pub fn metadata(&self) -> (m: &RomMetadata)
        ensures
            *m == self.meta(),
            metadata_matches(*m, self.cart().header_info()),
    {
        proof {
            use_type_invariant(self);
        }
        &self.metadata
    }

    pub fn cartridge(&self) -> (c: &CartridgeKind)
        ensures
            *c == self.cart(),
    {
        &self.cartridge
    }

    pub fn into_cartridge(self) -> (c: CartridgeKind)
        ensures
            c == self.cart(),
    {
        self.cartridge
    }
}

} // verus!
