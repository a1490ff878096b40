use vstd::prelude::*;

verus! {

pub const PRG_PAGE_SIZE: usize = 16384;

pub const CHR_PAGE_SIZE: usize = 8192;

pub const HEADER_SIZE: usize = 16;

/// `content` starts with an iNES header: the magic `NES\x1A`, six bytes of
/// counts and flags, and five zero bytes.
pub open spec fn has_ines_header(content: Seq<u8>) -> bool {
    &&& content.len() >= HEADER_SIZE
    &&& content[0] == 0x4E && content[1] == 0x45 && content[2] == 0x53 && content[3] == 0x1A
    &&& content[11] == 0 && content[12] == 0 && content[13] == 0 && content[14] == 0
        && content[15] == 0
}

/// The length of an image whose header declares `prg_pages` pages of
/// program ROM and `chr_pages` of character ROM.
pub open spec fn image_size(prg_pages: u8, chr_pages: u8) -> int {
    HEADER_SIZE + prg_pages * PRG_PAGE_SIZE + chr_pages * CHR_PAGE_SIZE
}

/// A cartridge image in the iNES format.
#[derive(Debug, Default)]
pub struct ROM {
    content: Vec<u8>,
    prg_rom_page_count: u8,
    chr_rom_page_count: u8,
    flags_6: u8,
    flags_7: u8,
    prg_ram_page_count: u8,
    flags_9: u8,
    flags_10: u8,
}

impl ROM {
    #[verifier::type_invariant]
    spec fn holds_declared_banks(&self) -> bool {
        self.content@.len() >= image_size(self.prg_rom_page_count, self.chr_rom_page_count)
    }

    /// The whole image.
    pub closed spec fn content(&self) -> Seq<u8> {
        self.content@
    }

    /// The header's count of 16 KiB program ROM pages.
    pub closed spec fn prg_pages(&self) -> u8 {
        self.prg_rom_page_count
    }

    /// The header's count of 8 KiB character ROM pages.
    pub closed spec fn chr_pages(&self) -> u8 {
        self.chr_rom_page_count
    }

    /// Reads an image. It is refused when the header is missing or the
    /// image is shorter than the banks its header declares.
    pub fn with_content(content: Vec<u8>) -> (r: Result<Self, &'static str>)
        ensures
            has_ines_header(content@) && content@.len() >= image_size(content@[4], content@[5])
                ==> (r matches Ok(rom) && rom.content() == content@ && rom.prg_pages() == content@[4]
                && rom.chr_pages() == content@[5]),
            !(has_ines_header(content@) && content@.len() >= image_size(content@[4], content@[5]))
                ==> (r matches Err(e) && e@ == "Input is not a valid iNES file format"@),
    {
        let error = "Input is not a valid iNES file format";
        if content.len() < HEADER_SIZE {
            return Err(error);
        }
        if !(content[0] == 0x4E && content[1] == 0x45 && content[2] == 0x53 && content[3] == 0x1A
            && content[11] == 0x00 && content[12] == 0x00 && content[13] == 0x00 && content[14]
            == 0x00 && content[15] == 0x00) {
            return Err(error);
        }
        let prg_rom_page_count = content[4];
        let chr_rom_page_count = content[5];
        let needed = HEADER_SIZE + prg_rom_page_count as usize * PRG_PAGE_SIZE
            + chr_rom_page_count as usize * CHR_PAGE_SIZE;
        if content.len() < needed {
            return Err(error);
        }
        let flags_6 = content[6];
        let flags_7 = content[7];
        let prg_ram_page_count = content[8];
        let flags_9 = content[9];
        let flags_10 = content[10];
        Ok(
            Self {
                content,
                prg_rom_page_count,
                chr_rom_page_count,
                flags_6,
                flags_7,
                prg_ram_page_count,
                flags_9,
                flags_10,
            },
        )
    }

    /// The program ROM: the bytes after the header.
    pub fn prg_rom(&self) -> (r: &[u8])
        ensures
            r@ == self.content().subrange(
                HEADER_SIZE as int,
                HEADER_SIZE + self.prg_pages() * PRG_PAGE_SIZE,
            ),
    {
        proof {
            use_type_invariant(self);
        }
        let start = HEADER_SIZE;
        let end = HEADER_SIZE + self.prg_rom_size();
        &self.content.as_slice()[start..end]
    }

    /// The character ROM: the bytes after the program ROM.
    pub fn chr_rom(&self) -> (r: &[u8])
        ensures
            r@ == self.content().subrange(
                HEADER_SIZE + self.prg_pages() * PRG_PAGE_SIZE,
                image_size(self.prg_pages(), self.chr_pages()),
            ),
    {
        proof {
            use_type_invariant(self);
        }
        let start = HEADER_SIZE + self.prg_rom_size();
        let end = start + self.chr_rom_size();
        &self.content.as_slice()[start..end]
    }

    fn prg_rom_size(&self) -> (r: usize)
        ensures
            r == self.prg_pages() * PRG_PAGE_SIZE,
    {
        self.prg_rom_page_count as usize * PRG_PAGE_SIZE
    }

    fn chr_rom_size(&self) -> (r: usize)
        ensures
            r == self.chr_pages() * CHR_PAGE_SIZE,
    {
        self.chr_rom_page_count as usize * CHR_PAGE_SIZE
    }
}

} // verus!
