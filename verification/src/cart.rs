use vstd::prelude::*;

verus! {

/// The cartridge's memory mapper.
pub enum Mapper {
    Nrom,
}

/// The sixteen-byte header at the start of an iNES file.
#[derive(Debug)]
pub struct RomHeader {
    pub magic_constant: [u8; 4],
    pub prg_rom_size: u8,
    pub chr_rom_size: u8,
    pub flags_6: u8,
    pub flags_7: u8,
    pub flags_8: u8,
    pub flags_9: u8,
    pub flags_10: u8,
    pub padding: [u8; 5],
}

/// The contents of an iNES file.
#[derive(Debug)]
pub struct RomFile {
    pub header: RomHeader,
    pub trainer: Option<[u8; 512]>,
    pub prg_rom: Vec<u8>,
    pub chr_rom: Vec<u8>,
    pub pc_inst_rom: Option<Vec<u8>>,
    pub pc_prom: Option<Vec<u8>>,
}

/// Why a file's bytes do not make a ROM file.
#[derive(Debug, Clone, Copy, PartialEq, Eq, Structural)]
pub enum RomError {
    /// The file ends before its sixteen-byte header does.
    UnexpectedEof,
}

/// The length of the iNES header in bytes.
pub const HEADER_LEN: usize = 16;

/// The size of one unit of `prg_rom_size`.
pub const PRG_ROM_UNIT: usize = 16384;

/// The size of one unit of `chr_rom_size`.
pub const CHR_ROM_UNIT: usize = 8192;

/// The four bytes that open every iNES file: "NES" and an end-of-file byte.
pub open spec fn ines_magic() -> Seq<u8> {
    seq![0x4Eu8, 0x45u8, 0x53u8, 0x1Au8]
}

/// `bytes` open with the iNES magic constant.
pub open spec fn has_magic(bytes: Seq<u8>) -> bool {
    bytes.len() >= 4 && bytes.take(4) == ines_magic()
}

/// The header announces a 512-byte trainer (bit 3 of flags 6).
pub open spec fn announces_trainer(bytes: Seq<u8>) -> bool {
    bytes[6] & 0b0000_1000 != 0
}

/// The byte at `k` in `data`, or zero past its end.
pub open spec fn padded_byte(data: Seq<u8>, k: int) -> u8 {
    if 0 <= k < data.len() {
        data[k]
    } else {
        0
    }
}

/// The `len` bytes of `data` from `start` on, padded with zeros past its end.
pub open spec fn section(data: Seq<u8>, start: int, len: nat) -> Seq<u8> {
    Seq::new(len, |i: int| padded_byte(data, start + i))
}

/// The sequence of `n` zero bytes.
pub open spec fn zeros(n: nat) -> Seq<u8> {
    Seq::new(n, |_i: int| 0u8)
}

/// The file bytes on which loading succeeds without stopping: either too short
/// to hold a header, or with a valid header that announces no trainer.
pub open spec fn loadable(data: Seq<u8>) -> bool {
    data.len() >= HEADER_LEN ==> has_magic(data) && !announces_trainer(data)
}

impl RomHeader {
    /// This header is the one read from `bytes`: the magic constant, the
    /// seven size and flag bytes at offsets 4 to 10, and zero padding.
    pub open spec fn describes(self, bytes: Seq<u8>) -> bool {
        &&& self.magic_constant@ == ines_magic()
        &&& self.prg_rom_size == bytes[4]
        &&& self.chr_rom_size == bytes[5]
        &&& self.flags_6 == bytes[6]
        &&& self.flags_7 == bytes[7]
        &&& self.flags_8 == bytes[8]
        &&& self.flags_9 == bytes[9]
        &&& self.flags_10 == bytes[10]
        &&& self.padding@ == zeros(5)
    }
}

impl RomFile {
    /// `self` is what the loader makes of the file bytes `data`.
    pub open spec fn parsed_from(self, data: Seq<u8>) -> bool {
        let prg_len = PRG_ROM_UNIT * data[4];
        let chr_len = CHR_ROM_UNIT * data[5];
        &&& self.header.describes(data)
        &&& self.trainer is None
        &&& self.prg_rom@ == section(data, HEADER_LEN as int, prg_len as nat)
        &&& self.chr_rom@ == section(data, HEADER_LEN + prg_len, chr_len as nat)
        &&& self.pc_inst_rom is None
        &&& self.pc_prom is None
    }

    /// Checks the magic constant and reads the header's fields.
    pub fn verify_header(header: [u8; 16]) -> (r: Option<RomHeader>)
        ensures
            r is Some <==> has_magic(header@),
            r matches Some(h) ==> h.describes(header@),
    {
        let magic_constant: [u8; 4] = [0x4E, 0x45, 0x53, 0x1A];
        if header[0] != magic_constant[0] || header[1] != magic_constant[1] || header[2]
            != magic_constant[2] || header[3] != magic_constant[3] {
            assert(header@.take(4)[0] == header@[0]);
            assert(header@.take(4)[1] == header@[1]);
            assert(header@.take(4)[2] == header@[2]);
            assert(header@.take(4)[3] == header@[3]);
            return None;
        }
        assert(header@.take(4) =~= ines_magic());
        let padding: [u8; 5] = [0; 5];
        assert(padding@ =~= zeros(5));
        assert(magic_constant@ =~= ines_magic());
        Some(
            RomHeader {
                magic_constant,
                prg_rom_size: header[4],
                chr_rom_size: header[5],
                flags_6: header[6],
                flags_7: header[7],
                flags_8: header[8],
                flags_9: header[9],
                flags_10: header[10],
                padding,
            },
        )
    }

    /// The header announces a trainer, which the loader does not support.
    pub fn has_trainer(header: [u8; 16]) -> (r: bool)
        ensures
            r == announces_trainer(header@),
    {
        assert((1u8 << 3u8) == 0b0000_1000u8) by (bit_vector);
        header[6] & (1u8 << 3u8) != 0
    }

    /// The `len` bytes of `data` from `start` on, zero past the end of `data`.
    fn read_section(data: &[u8], start: usize, len: usize) -> (r: Vec<u8>)
        requires
            start + len <= usize::MAX,
        ensures
            r@ == section(data@, start as int, len as nat),
    {
        let mut out: Vec<u8> = Vec::new();
        let mut i: usize = 0;
        while i < len
            invariant
                i <= len,
                start + len <= usize::MAX,
                out@ == section(data@, start as int, i as nat),
            decreases len - i,
        {
            let k = start + i;
            let byte = if k < data.len() {
                data[k]
            } else {
                0
            };
            out.push(byte);
            i += 1;
            assert(out@ =~= section(data@, start as int, i as nat));
        }
        out
    }

    /// Reads a ROM file from the bytes of an iNES file: the header, then the
    /// PRG ROM and the CHR ROM that it announces, each padded with zeros where
    /// the file ends early.
    pub fn from_bytes(data: &[u8]) -> (r: Result<RomFile, RomError>)
        requires
            loadable(data@),
        ensures
            r is Ok <==> data@.len() >= HEADER_LEN,
            r matches Ok(f) ==> f.parsed_from(data@),
            r matches Err(e) ==> e == RomError::UnexpectedEof,
    {
        if data.len() < HEADER_LEN {
            return Err(RomError::UnexpectedEof);
        }
        let mut h: [u8; 16] = [0; 16];
        let mut i: usize = 0;
        while i < HEADER_LEN
            invariant
                i <= HEADER_LEN,
                data@.len() >= HEADER_LEN,
                forall|j: int| 0 <= j < i ==> h@[j] == data@[j],
            decreases HEADER_LEN - i,
        {
            h[i] = data[i];
            i += 1;
        }
        assert(h@.take(4) =~= data@.take(4));
        let header = match RomFile::verify_header(h) {
            Some(header) => header,
            None => {
                assert(false);
                return Err(RomError::UnexpectedEof);
            },
        };
        let prg_len = PRG_ROM_UNIT * header.prg_rom_size as usize;
        let chr_len = CHR_ROM_UNIT * header.chr_rom_size as usize;
        let prg_rom = RomFile::read_section(data, HEADER_LEN, prg_len);
        let chr_rom = RomFile::read_section(data, HEADER_LEN + prg_rom.len(), chr_len);
        Ok(
            RomFile {
                header,
                trainer: None,
                prg_rom,
                chr_rom,
                pc_inst_rom: None,
                pc_prom: None,
            },
        )
    }
}

/// The addresses that the cartridge answers: expansion ROM at
/// `0x4020..=0x5FFE`, work RAM at `0x6000..=0x7FFF` and PRG ROM at
/// `0x8000..=0xFFFF`.
pub open spec fn cart_mapped(address: u16) -> bool {
    0x4020 <= address && address != 0x5FFF
}

/// A cartridge: its file, its memories as the CPU and the picture unit see
/// them, and its mapper.
pub struct Cart {
    pub file: Option<RomFile>,
    pub expansion_rom: [u8; 0x1FDF],
    pub ram: [u8; 0x2000],
    pub rom: [u8; 0x8000],
    pub ppu: [u8; 0x2000],
    pub mapper: Mapper,
}

impl Cart {
    /// The byte that the CPU reads at `address`.
    pub open spec fn peek(self, address: u16) -> u8
        recommends
            cart_mapped(address),
    {
        if address <= 0x5FFF {
            self.expansion_rom@[address - 0x4020]
        } else if address <= 0x7FFF {
            self.ram@[address - 0x6000]
        } else {
            self.rom@[address - 0x8000]
        }
    }

    /// The cartridge after the CPU wrote `value` at `address`.
    pub open spec fn poked(self, address: u16, value: u8) -> Cart
        recommends
            cart_mapped(address),
    {
        if address <= 0x5FFF {
            Cart {
                expansion_rom: vstd::array::spec_array_update(
                    self.expansion_rom,
                    address - 0x4020,
                    value,
                ),
                ..self
            }
        } else if address <= 0x7FFF {
            Cart { ram: vstd::array::spec_array_update(self.ram, address - 0x6000, value), ..self }
        } else {
            Cart { rom: vstd::array::spec_array_update(self.rom, address - 0x8000, value), ..self }
        }
    }

    /// No file, every memory zero and the NROM mapper.
    pub open spec fn is_empty(self) -> bool {
        &&& self.file is None
        &&& self.expansion_rom@ == zeros(0x1FDF)
        &&& self.ram@ == zeros(0x2000)
        &&& self.rom@ == zeros(0x8000)
        &&& self.ppu@ == zeros(0x2000)
        &&& self.mapper is Nrom
    }

    /// The cartridge made of `file`: the first 16 KiB of PRG ROM at
    /// `0x8000`, the last 16 KiB at `0xC000` (the same bank twice when there is
    /// only one), the CHR ROM at the start of the picture memory, everything
    /// else zero, and the NROM mapper.
    pub open spec fn loaded_from(self, file: RomFile) -> bool {
        let prg = file.prg_rom@;
        let chr = file.chr_rom@;
        &&& self.file == Some(file)
        &&& self.rom@ == prg.take(0x4000) + prg.skip(prg.len() - 0x4000)
        &&& self.ppu@ == chr + zeros((0x2000 - chr.len()) as nat)
        &&& self.expansion_rom@ == zeros(0x1FDF)
        &&& self.ram@ == zeros(0x2000)
        &&& self.mapper is Nrom
    }

    pub fn empty() -> (r: Self)
        ensures
            r.is_empty(),
    {
        let r = Self {
            file: None,
            expansion_rom: [0; 0x1FDF],
            ram: [0; 0x2000],
            rom: [0; 0x8000],
            ppu: [0; 0x2000],
            mapper: Mapper::Nrom,
        };
        assert(r.expansion_rom@ =~= zeros(0x1FDF));
        assert(r.ram@ =~= zeros(0x2000));
        assert(r.rom@ =~= zeros(0x8000));
        assert(r.ppu@ =~= zeros(0x2000));
        r
    }

    /// Builds the NROM cartridge for a ROM file.
    pub fn from_file(file: RomFile) -> (r: Self)
        requires
            file.prg_rom@.len() >= 0x4000,
            file.chr_rom@.len() <= 0x2000,
        ensures
            r.loaded_from(file),
    {
        let mapper = Mapper::Nrom;
        let prg_len = file.prg_rom.len();
        let hi_rom_start = prg_len.saturating_sub(0x4000);
        let mut rom: [u8; 0x8000] = [0; 0x8000];
        let mut i: usize = 0;
        while i < 0x4000
            invariant
                i <= 0x4000,
                prg_len == file.prg_rom@.len(),
                prg_len >= 0x4000,
                forall|j: int| 0 <= j < i ==> rom@[j] == file.prg_rom@[j],
                forall|j: int| i <= j < 0x8000 ==> rom@[j] == 0,
            decreases 0x4000 - i,
        {
            rom[i] = file.prg_rom[i];
            i += 1;
        }
        let mut i: usize = 0;
        while i < 0x4000
            invariant
                i <= 0x4000,
                prg_len == file.prg_rom@.len(),
                prg_len >= 0x4000,
                hi_rom_start == prg_len - 0x4000,
                forall|j: int| 0 <= j < 0x4000 ==> rom@[j] == file.prg_rom@[j],
                forall|j: int|
                    0x4000 <= j < 0x4000 + i ==> #[trigger] rom@[j] == file.prg_rom@[hi_rom_start
                        + j - 0x4000],
            decreases 0x4000 - i,
        {
            rom[i + 0x4000] = file.prg_rom[hi_rom_start + i];
            i += 1;
        }
        let ram: [u8; 0x2000] = [0; 0x2000];
        let expansion_rom: [u8; 0x1FDF] = [0; 0x1FDF];
        let mut ppu: [u8; 0x2000] = [0; 0x2000];
        let chr_len = file.chr_rom.len();
        let mut i: usize = 0;
        while i < chr_len
            invariant
                i <= chr_len,
                chr_len == file.chr_rom@.len(),
                chr_len <= 0x2000,
                forall|j: int| 0 <= j < i ==> ppu@[j] == file.chr_rom@[j],
                forall|j: int| i <= j < 0x2000 ==> ppu@[j] == 0,
            decreases chr_len - i,
        {
            ppu[i] = file.chr_rom[i];
            i += 1;
        }
        let ghost prg = file.prg_rom@;
        let ghost chr = file.chr_rom@;
        assert(rom@ =~= prg.take(0x4000) + prg.skip(prg.len() - 0x4000));
        assert(ppu@ =~= chr + zeros((0x2000 - chr.len()) as nat));
        assert(ram@ =~= zeros(0x2000));
        assert(expansion_rom@ =~= zeros(0x1FDF));
        Self { file: Some(file), expansion_rom, ram, rom, ppu, mapper }
    }

    /// The byte that `address` selects.
    pub fn map_addr(&mut self, addr: u16) -> (r: &mut u8)
        requires
            cart_mapped(addr),
        ensures
            *r == old(self).peek(addr),
            *final(self) == old(self).poked(addr, *final(r)),
    {
        match addr {
            0x4020..=0x5FFF => &mut self.expansion_rom[(addr - 0x4020) as usize],
            0x6000..=0x7FFF => &mut self.ram[(addr - 0x6000) as usize],
            0x8000..=0xFFFF => &mut self.rom[(addr - 0x8000) as usize],
            _ => {
                assert(false);
                &mut self.rom[0]
            },
        }
    }

    pub fn read(&mut self, address: u16) -> (r: u8)
        requires
            cart_mapped(address),
        ensures
            r == old(self).peek(address),
            *final(self) == *old(self),
    {
        let value = *self.map_addr(address);
        assert(self.expansion_rom =~= old(self).expansion_rom);
        assert(self.ram =~= old(self).ram);
        assert(self.rom =~= old(self).rom);
        value
    }

    pub fn write(&mut self, address: u16, value: u8)
        requires
            cart_mapped(address),
        ensures
            *final(self) == old(self).poked(address, value),
    {
        *self.map_addr(address) = value;
    }
}

/// The iNES magic constant is the bytes `N`, `E`, `S` and `0x1A`.
pub proof fn lemma_magic_bytes(bytes: Seq<u8>)
    ensures
        has_magic(bytes) <==> (bytes.len() >= 4 && bytes[0] == 0x4E && bytes[1] == 0x45
            && bytes[2] == 0x53 && bytes[3] == 0x1A),
{
    if bytes.len() >= 4 && bytes[0] == 0x4E && bytes[1] == 0x45 && bytes[2] == 0x53 && bytes[3]
        == 0x1A {
        assert(bytes.take(4) =~= ines_magic());
    }
    if has_magic(bytes) {
        assert(bytes.take(4)[0] == bytes[0]);
        assert(bytes.take(4)[1] == bytes[1]);
        assert(bytes.take(4)[2] == bytes[2]);
        assert(bytes.take(4)[3] == bytes[3]);
    }
}

/// A parsed file's header carries the file's bytes 4 to 10 as PRG size, CHR
/// size and flags 6 to 10. Its PRG ROM is 16 KiB per unit of byte 4, taken
/// from the file right after the 16-byte header; its CHR ROM is 8 KiB per
/// unit of byte 5, taken right after the PRG ROM; bytes past the end of the
/// file read as zero.
pub proof fn lemma_parsed_layout(f: RomFile, data: Seq<u8>, i: int)
    requires
        f.parsed_from(data),
    ensures
        f.header.prg_rom_size == data[4],
        f.header.chr_rom_size == data[5],
        f.header.flags_6 == data[6],
        f.header.flags_7 == data[7],
        f.header.flags_8 == data[8],
        f.header.flags_9 == data[9],
        f.header.flags_10 == data[10],
        f.header.magic_constant@ == seq![0x4Eu8, 0x45u8, 0x53u8, 0x1Au8],
        f.header.padding@ == seq![0u8, 0u8, 0u8, 0u8, 0u8],
        f.prg_rom@.len() == 16384 * data[4],
        f.chr_rom@.len() == 8192 * data[5],
        0 <= i < f.prg_rom@.len() ==> f.prg_rom@[i] == (if 16 + i < data.len() {
            data[16 + i]
        } else {
            0
        }),
        0 <= i < f.chr_rom@.len() ==> f.chr_rom@[i] == (if 16 + 16384 * data[4] + i
            < data.len() {
            data[16 + 16384 * data[4] + i]
        } else {
            0
        }),
        f.trainer is None,
{
    assert(f.header.padding@ =~= seq![0u8, 0u8, 0u8, 0u8, 0u8]);
}

/// The NROM cartridge shows PRG ROM byte `i` at `0x8000 + i` and the byte
/// `i` of the last 16 KiB at `0xC000 + i`; its picture memory starts with
/// the CHR ROM and is zero after it.
pub proof fn lemma_nrom_layout(cart: Cart, file: RomFile, i: int)
    requires
        cart.loaded_from(file),
        file.prg_rom@.len() >= 0x4000,
        file.chr_rom@.len() <= 0x2000,
        0 <= i < 0x4000,
    ensures
        cart.peek((0x8000 + i) as u16) == file.prg_rom@[i],
        cart.peek((0xC000 + i) as u16) == file.prg_rom@[file.prg_rom@.len() - 0x4000 + i],
        i < 0x2000 ==> cart.ppu@[i] == (if i < file.chr_rom@.len() {
            file.chr_rom@[i]
        } else {
            0
        }),
        cart.peek((0x6000 + (i % 0x2000)) as u16) == 0,
{
}


/// A cartridge loaded from a file with a single 16 KiB PRG bank shows that
/// bank both at `0x8000` and at `0xC000`.
pub proof fn lemma_single_bank_mirrored(cart: Cart, file: RomFile, address: u16)
    requires
        cart.loaded_from(file),
        file.prg_rom@.len() == 0x4000,
        0x8000 <= address < 0xC000,
    ensures
        cart.peek(address) == cart.peek((address + 0x4000) as u16),
        cart.peek(address) == file.prg_rom@[address - 0x8000],
{
}

/// A write to the cartridge is read back at its address and leaves every
/// other address, the file, the picture memory and the mapper as they were.
pub proof fn lemma_cart_read_after_write(cart: Cart, address: u16, value: u8, other: u16)
    requires
        cart_mapped(address),
        cart_mapped(other),
    ensures
        cart.poked(address, value).peek(other) == (if other == address {
            value
        } else {
            cart.peek(other)
        }),
        cart.poked(address, value).file == cart.file,
        cart.poked(address, value).ppu == cart.ppu,
        cart.poked(address, value).mapper == cart.mapper,
{
}

} // verus!
