//! The cartridge: the ROM image, its header, the cartridge RAM and the
//! bank-switching logic of the mappers.
use vstd::prelude::*;
use vstd::utf8::decode_utf8;
use vstd::utf8::valid_utf8;

verus! {

/// The kinds of cartridge that a header can declare.
#[derive(PartialEq, Eq, Structural, Debug, Clone, Copy)]
pub enum CartridgeType {
    RomOnly,
    RomMbc1,
    RomMbc1Ram,
    RomMbc1RamBatt,
    RomMbc2,
    RomMbc2Batt,
    RomRam,
    RomRamBatt,
    RomMMMD1,
    RomMMMD1Sram,
    RomMMMD1SramBatt,
    RomMbc3TimerBatt,
    RomMbc3TimerRamBatt,
    RomMbc3,
    RomMbc3Ram,
    RomMbc3RamBatt,
    RomMbc5,
    RomMbc5Ram,
    RomMbc5RamBatt,
    RomMbc5Rumble,
    RomMbc5RumbleSram,
    RomMbc5RumbleSramBatt,
    PocketCamera,
    BandaiTAMA5,
    HudsonHuC3,
    HudsonHuC1,
}

/// The bank-switching schemes that are implemented.
#[derive(PartialEq, Eq, Structural, Debug, Clone, Copy)]
pub enum Mapper {
    RomOnly,
    Mbc1,
    Mbc2,
    Mbc3,
}

impl Mapper {
    /// The bits of a written value that the mapper's bank register keeps.
    pub open spec fn bank_mask(self) -> u8 {
        match self {
            Mapper::RomOnly => 0,
            Mapper::Mbc1 => 0x1F,
            Mapper::Mbc2 => 0x0F,
            Mapper::Mbc3 => 0x7F,
        }
    }

    /// Whether a write to `ptr` reaches the mapper's bank register.
    pub open spec fn selects_bank(self, ptr: u16) -> bool {
        match self {
            Mapper::RomOnly => false,
            Mapper::Mbc1 | Mapper::Mbc3 => 0x2000 <= ptr <= 0x3FFF,
            Mapper::Mbc2 => 0x2000 <= ptr <= 0x3FFF && (ptr >> 8) & 0x1 == 1,
        }
    }
}

impl CartridgeType {
    /// The header byte that declares this kind.
    pub open spec fn code(self) -> u8 {
        match self {
            CartridgeType::RomOnly => 0x00,
            CartridgeType::RomMbc1 => 0x01,
            CartridgeType::RomMbc1Ram => 0x02,
            CartridgeType::RomMbc1RamBatt => 0x03,
            CartridgeType::RomMbc2 => 0x05,
            CartridgeType::RomMbc2Batt => 0x06,
            CartridgeType::RomRam => 0x08,
            CartridgeType::RomRamBatt => 0x09,
            CartridgeType::RomMMMD1 => 0x0B,
            CartridgeType::RomMMMD1Sram => 0x0C,
            CartridgeType::RomMMMD1SramBatt => 0x0D,
            CartridgeType::RomMbc3TimerBatt => 0x0F,
            CartridgeType::RomMbc3TimerRamBatt => 0x10,
            CartridgeType::RomMbc3 => 0x11,
            CartridgeType::RomMbc3Ram => 0x12,
            CartridgeType::RomMbc3RamBatt => 0x13,
            CartridgeType::RomMbc5 => 0x19,
            CartridgeType::RomMbc5Ram => 0x1A,
            CartridgeType::RomMbc5RamBatt => 0x1B,
            CartridgeType::RomMbc5Rumble => 0x1C,
            CartridgeType::RomMbc5RumbleSram => 0x1D,
            CartridgeType::RomMbc5RumbleSramBatt => 0x1E,
            CartridgeType::PocketCamera => 0xFC,
            CartridgeType::BandaiTAMA5 => 0xFD,
            CartridgeType::HudsonHuC3 => 0xFE,
            CartridgeType::HudsonHuC1 => 0xFF,
        }
    }

    /// The kind that a header byte declares, if the byte is a known one.
    pub open spec fn from_code(code: u8) -> Option<CartridgeType> {
        if code == 0x00 {
            Some(CartridgeType::RomOnly)
        }         else if code == 0x01 {
            Some(CartridgeType::RomMbc1)
        }         else if code == 0x02 {
            Some(CartridgeType::RomMbc1Ram)
        }         else if code == 0x03 {
            Some(CartridgeType::RomMbc1RamBatt)
        }         else if code == 0x05 {
            Some(CartridgeType::RomMbc2)
        }         else if code == 0x06 {
            Some(CartridgeType::RomMbc2Batt)
        }         else if code == 0x08 {
            Some(CartridgeType::RomRam)
        }         else if code == 0x09 {
            Some(CartridgeType::RomRamBatt)
        }         else if code == 0x0B {
            Some(CartridgeType::RomMMMD1)
        }         else if code == 0x0C {
            Some(CartridgeType::RomMMMD1Sram)
        }         else if code == 0x0D {
            Some(CartridgeType::RomMMMD1SramBatt)
        }         else if code == 0x0F {
            Some(CartridgeType::RomMbc3TimerBatt)
        }         else if code == 0x10 {
            Some(CartridgeType::RomMbc3TimerRamBatt)
        }         else if code == 0x11 {
            Some(CartridgeType::RomMbc3)
        }         else if code == 0x12 {
            Some(CartridgeType::RomMbc3Ram)
        }         else if code == 0x13 {
            Some(CartridgeType::RomMbc3RamBatt)
        }         else if code == 0x19 {
            Some(CartridgeType::RomMbc5)
        }         else if code == 0x1A {
            Some(CartridgeType::RomMbc5Ram)
        }         else if code == 0x1B {
            Some(CartridgeType::RomMbc5RamBatt)
        }         else if code == 0x1C {
            Some(CartridgeType::RomMbc5Rumble)
        }         else if code == 0x1D {
            Some(CartridgeType::RomMbc5RumbleSram)
        }         else if code == 0x1E {
            Some(CartridgeType::RomMbc5RumbleSramBatt)
        }         else if code == 0xFC {
            Some(CartridgeType::PocketCamera)
        }         else if code == 0xFD {
            Some(CartridgeType::BandaiTAMA5)
        }         else if code == 0xFE {
            Some(CartridgeType::HudsonHuC3)
        }         else if code == 0xFF {
            Some(CartridgeType::HudsonHuC1)
        } else {
            None
        }
    }

    /// The bank-switching scheme of this kind, if it is an implemented one.
    pub open spec fn mapper(self) -> Option<Mapper> {
        match self {
            CartridgeType::RomOnly => Some(Mapper::RomOnly),
            CartridgeType::RomMbc1 => Some(Mapper::Mbc1),
            CartridgeType::RomMbc1Ram => Some(Mapper::Mbc1),
            CartridgeType::RomMbc1RamBatt => Some(Mapper::Mbc1),
            CartridgeType::RomMbc2 => Some(Mapper::Mbc2),
            CartridgeType::RomMbc2Batt => Some(Mapper::Mbc2),
            CartridgeType::RomRam => None,
            CartridgeType::RomRamBatt => None,
            CartridgeType::RomMMMD1 => None,
            CartridgeType::RomMMMD1Sram => None,
            CartridgeType::RomMMMD1SramBatt => None,
            CartridgeType::RomMbc3TimerBatt => Some(Mapper::Mbc3),
            CartridgeType::RomMbc3TimerRamBatt => Some(Mapper::Mbc3),
            CartridgeType::RomMbc3 => Some(Mapper::Mbc3),
            CartridgeType::RomMbc3Ram => Some(Mapper::Mbc3),
            CartridgeType::RomMbc3RamBatt => Some(Mapper::Mbc3),
            CartridgeType::RomMbc5 => None,
            CartridgeType::RomMbc5Ram => None,
            CartridgeType::RomMbc5RamBatt => None,
            CartridgeType::RomMbc5Rumble => None,
            CartridgeType::RomMbc5RumbleSram => None,
            CartridgeType::RomMbc5RumbleSramBatt => None,
            CartridgeType::PocketCamera => None,
            CartridgeType::BandaiTAMA5 => None,
            CartridgeType::HudsonHuC3 => None,
            CartridgeType::HudsonHuC1 => None,
        }
    }

    pub fn decode(code: u8) -> (kind: Option<CartridgeType>)
        ensures
            kind == Self::from_code(code),
            kind is Some ==> kind->0.code() == code,
    {
        match code {
            0x00 => Some(CartridgeType::RomOnly),
            0x01 => Some(CartridgeType::RomMbc1),
            0x02 => Some(CartridgeType::RomMbc1Ram),
            0x03 => Some(CartridgeType::RomMbc1RamBatt),
            0x05 => Some(CartridgeType::RomMbc2),
            0x06 => Some(CartridgeType::RomMbc2Batt),
            0x08 => Some(CartridgeType::RomRam),
            0x09 => Some(CartridgeType::RomRamBatt),
            0x0B => Some(CartridgeType::RomMMMD1),
            0x0C => Some(CartridgeType::RomMMMD1Sram),
            0x0D => Some(CartridgeType::RomMMMD1SramBatt),
            0x0F => Some(CartridgeType::RomMbc3TimerBatt),
            0x10 => Some(CartridgeType::RomMbc3TimerRamBatt),
            0x11 => Some(CartridgeType::RomMbc3),
            0x12 => Some(CartridgeType::RomMbc3Ram),
            0x13 => Some(CartridgeType::RomMbc3RamBatt),
            0x19 => Some(CartridgeType::RomMbc5),
            0x1A => Some(CartridgeType::RomMbc5Ram),
            0x1B => Some(CartridgeType::RomMbc5RamBatt),
            0x1C => Some(CartridgeType::RomMbc5Rumble),
            0x1D => Some(CartridgeType::RomMbc5RumbleSram),
            0x1E => Some(CartridgeType::RomMbc5RumbleSramBatt),
            0xFC => Some(CartridgeType::PocketCamera),
            0xFD => Some(CartridgeType::BandaiTAMA5),
            0xFE => Some(CartridgeType::HudsonHuC3),
            0xFF => Some(CartridgeType::HudsonHuC1),
            _ => None,
        }
    }

    pub fn get_mapper(&self) -> (mapper: Option<Mapper>)
        ensures
            mapper == self.mapper(),
    {
        match self {
            CartridgeType::RomOnly => Some(Mapper::RomOnly),
            CartridgeType::RomMbc1
            | CartridgeType::RomMbc1Ram
            | CartridgeType::RomMbc1RamBatt => Some(Mapper::Mbc1),
            CartridgeType::RomMbc2
            | CartridgeType::RomMbc2Batt => Some(Mapper::Mbc2),
            CartridgeType::RomRam
            | CartridgeType::RomRamBatt
            | CartridgeType::RomMMMD1
            | CartridgeType::RomMMMD1Sram
            | CartridgeType::RomMMMD1SramBatt
            | CartridgeType::RomMbc5
            | CartridgeType::RomMbc5Ram
            | CartridgeType::RomMbc5RamBatt
            | CartridgeType::RomMbc5Rumble
            | CartridgeType::RomMbc5RumbleSram
            | CartridgeType::RomMbc5RumbleSramBatt
            | CartridgeType::PocketCamera
            | CartridgeType::BandaiTAMA5
            | CartridgeType::HudsonHuC3
            | CartridgeType::HudsonHuC1 => None,
            CartridgeType::RomMbc3TimerBatt
            | CartridgeType::RomMbc3TimerRamBatt
            | CartridgeType::RomMbc3
            | CartridgeType::RomMbc3Ram
            | CartridgeType::RomMbc3RamBatt => Some(Mapper::Mbc3),
        }
    }
}

/// The size in bytes that a ROM size byte of the header declares, if the
/// byte is a known one.
pub open spec fn rom_size_of(id: u8) -> Option<usize> {
    if id <= 6 {
        Some((32 * 1024 * vstd::arithmetic::power2::pow2(id as nat)) as usize)
    } else if id == 0x52 {
        Some((1152 * 1024) as usize)
    } else if id == 0x53 {
        Some((1280 * 1024) as usize)
    } else if id == 0x54 {
        Some((1536 * 1024) as usize)
    } else {
        None
    }
}

/// The size in bytes that a RAM size byte of the header declares, if the
/// byte is a known one.
pub open spec fn ram_size_of(id: u8) -> Option<usize> {
    if id == 0 {
        Some(0usize)
    } else if id == 1 {
        Some((2 * 1024) as usize)
    } else if id == 2 {
        Some((8 * 1024) as usize)
    } else if id == 3 {
        Some((32 * 1024) as usize)
    } else if id == 4 {
        Some((128 * 1024) as usize)
    } else {
        None
    }
}

/// The ROM sizes that the header bytes 0 to 6 declare, written out.
pub proof fn lemma_rom_sizes()
    ensures
        rom_size_of(0) == Some(0x8000usize),
        rom_size_of(1) == Some(0x1_0000usize),
        rom_size_of(2) == Some(0x2_0000usize),
        rom_size_of(3) == Some(0x4_0000usize),
        rom_size_of(4) == Some(0x8_0000usize),
        rom_size_of(5) == Some(0x10_0000usize),
        rom_size_of(6) == Some(0x20_0000usize),
{
    vstd::arithmetic::power2::lemma2_to64();
}

/// Whether `id` is a ROM size byte that is known.
pub fn is_rom_size(id: u8) -> (known: bool)
    ensures
        known == rom_size_of(id) is Some,
{
    id <= 6 || id == 0x52 || id == 0x53 || id == 0x54
}

/// Whether `id` is a RAM size byte that is known.
pub fn is_ram_size(id: u8) -> (known: bool)
    ensures
        known == ram_size_of(id) is Some,
{
    id <= 4
}

/// Returns the ROM size for a ROM size byte, which has to be a known one.
pub fn get_rom_size(id: u8) -> (size: usize)
    requires
        rom_size_of(id) is Some,
    ensures
        rom_size_of(id) == Some(size),
{
    proof {
        lemma_rom_sizes();
    }
    match id {
        0 => 32 * 1024,
        1 => 64 * 1024,
        2 => 128 * 1024,
        3 => 256 * 1024,
        4 => 512 * 1024,
        5 => 1024 * 1024,
        6 => 2048 * 1024,
        0x52 => 1152 * 1024,
        0x53 => 1280 * 1024,
        _ => 1536 * 1024,
    }
}

/// Returns the RAM size for a RAM size byte, which has to be a known one.
pub fn get_ram_size(id: u8) -> (size: usize)
    requires
        ram_size_of(id) is Some,
    ensures
        ram_size_of(id) == Some(size),
{
    match id {
        0 => 0,
        1 => 2 * 1024,
        2 => 8 * 1024,
        3 => 32 * 1024,
        _ => 128 * 1024,
    }
}

/// Why an image cannot be loaded.
#[derive(PartialEq, Eq, Structural, Debug, Clone, Copy)]
pub enum RomError {
    /// The image ends before the last byte that is read of its header.
    TruncatedHeader,
    /// The ROM size byte is not a known one.
    UnknownRomSize(u8),
    /// The cartridge type byte is not a known one.
    UnknownCartridgeType(u8),
    /// The RAM size byte is not a known one.
    UnknownRamSize(u8),
}

/// The bytes of an image up to the last one that is read of its header: the
/// RAM size byte at 0x149.
pub const HEADER_END: usize = 0x14A;

/// The size of one ROM bank.
pub const BANK_SIZE: usize = 0x4000;

/// The first reason, in the order in which the header is read, for which an
/// image cannot be loaded: it ends before its header does, or its header
/// holds a size byte or a cartridge type byte that is not known. `None` for
/// an image that loads. That the image is not as long as its header says is
/// no such reason.
pub open spec fn load_error(data: Seq<u8>) -> Option<RomError> {
    if data.len() < HEADER_END {
        Some(RomError::TruncatedHeader)
    } else if rom_size_of(data[0x148]) is None {
        Some(RomError::UnknownRomSize(data[0x148]))
    } else if CartridgeType::from_code(data[0x147]) is None {
        Some(RomError::UnknownCartridgeType(data[0x147]))
    } else if ram_size_of(data[0x149]) is None {
        Some(RomError::UnknownRamSize(data[0x149]))
    } else {
        None
    }
}

/// Whether the cartridge type that the header of `data` declares is one whose
/// bank switching is implemented, so that the cartridge's ROM can be read
/// and written.
pub open spec fn mapper_implemented(data: Seq<u8>) -> bool {
    &&& data.len() > 0x147
    &&& CartridgeType::from_code(data[0x147]) is Some
    &&& CartridgeType::from_code(data[0x147])->0.mapper() is Some
}

/// Tells why the image `data` cannot be loaded, if it cannot.
pub fn check_image(data: &[u8]) -> (error: Option<RomError>)
    ensures
        error == load_error(data@),
{
    if data.len() < HEADER_END {
        return Some(RomError::TruncatedHeader);
    }
    if !is_rom_size(data[0x148]) {
        return Some(RomError::UnknownRomSize(data[0x148]));
    }
    if CartridgeType::decode(data[0x147]).is_none() {
        return Some(RomError::UnknownCartridgeType(data[0x147]));
    }
    if !is_ram_size(data[0x149]) {
        return Some(RomError::UnknownRamSize(data[0x149]));
    }
    None
}

/// Whether the bank switching of the cartridge type that the header of
/// `data` declares is implemented.
pub fn has_mapper(data: &[u8]) -> (implemented: bool)
    ensures
        implemented == mapper_implemented(data@),
{
    if data.len() <= 0x147 {
        return false;
    }
    match CartridgeType::decode(data[0x147]) {
        Some(kind) => kind.get_mapper().is_some(),
        None => false,
    }
}

/// A cartridge as the contracts see it.
pub struct RomView {
    /// The ROM image.
    pub data: Seq<u8>,
    /// The bank that is mapped at 0x4000 to 0x7FFF.
    pub current_bank: u8,
    /// The cartridge RAM.
    pub cart_ram: Seq<u8>,
    pub cart_type: CartridgeType,
}

impl RomView {
    /// What holds of every cartridge that was loaded: it holds a whole
    /// header, and its bank register holds a bank that its bank-switching
    /// scheme can select: bank 1 where there is no such scheme.
    pub open spec fn loaded(self) -> bool {
        &&& self.data.len() >= HEADER_END
        &&& self.cart_ram.len() <= 128 * 1024
        &&& 1 <= self.current_bank <= 0x7F
        &&& self.cart_type.mapper() is None || self.cart_type.mapper() == Some(Mapper::RomOnly)
            ==> self.current_bank == 1
    }

    /// What holds of every cartridge whose ROM can be read and written: it
    /// was loaded, and its bank-switching scheme is implemented.
    pub open spec fn wf(self) -> bool {
        &&& self.loaded()
        &&& self.cart_type.mapper() is Some
    }

    /// The cartridge as it is right after `data` was loaded.
    pub open spec fn fresh(data: Seq<u8>) -> RomView {
        RomView {
            data,
            current_bank: 1,
            cart_ram: Seq::new(ram_size_of(data[0x149])->0 as nat, |i: int| 0xFFu8),
            cart_type: CartridgeType::from_code(data[0x147])->0,
        }
    }

    /// The number of banks that the image holds in full.
    pub open spec fn bank_count(self) -> int {
        self.data.len() as int / BANK_SIZE as int
    }

    /// The place in the image that the address `ptr` is mapped to.
    pub open spec fn offset(self, ptr: u16) -> int {
        if ptr < 0x4000 {
            ptr as int
        } else {
            ptr + (self.current_bank - 1) * BANK_SIZE
        }
    }

    /// The byte read at `ptr`: 0xFF where the image ends before that place.
    pub open spec fn read(self, ptr: u16) -> u8 {
        if self.offset(ptr) < self.data.len() {
            self.data[self.offset(ptr)]
        } else {
            0xFF
        }
    }

    /// The bank that a written value selects: the bits that the mapper
    /// keeps, and bank 1 where these are all zero.
    pub open spec fn selected_bank(self, val: u8) -> u8 {
        if val & self.cart_type.mapper()->0.bank_mask() == 0 {
            1
        } else {
            val & self.cart_type.mapper()->0.bank_mask()
        }
    }

    /// The cartridge after `val` was written to the ROM address `ptr`.
    pub open spec fn write(self, ptr: u16, val: u8) -> RomView {
        if self.cart_type.mapper()->0.selects_bank(ptr) {
            RomView { current_bank: self.selected_bank(val), ..self }
        } else {
            self
        }
    }

    /// The byte of cartridge RAM at the offset `ptr`: 0xFF where the
    /// cartridge has no RAM there.
    pub open spec fn read_ram(self, ptr: u16) -> u8 {
        if ptr < self.cart_ram.len() {
            self.cart_ram[ptr as int]
        } else {
            0xFF
        }
    }

    /// The cartridge after `val` was written to its RAM at the offset `ptr`.
    pub open spec fn write_ram(self, ptr: u16, val: u8) -> RomView {
        if ptr < self.cart_ram.len() {
            RomView { cart_ram: self.cart_ram.update(ptr as int, val), ..self }
        } else {
            self
        }
    }

    /// The bytes of the header that hold the title.
    pub open spec fn title(self) -> Seq<u8> {
        self.data.subrange(0x134, 0x142)
    }
}

/// Holds a game's ROM and cartridge RAM, and maps addresses through the
/// cartridge's bank register.
pub struct GameROM {
    pub backing_data: Vec<u8>,
    pub current_bank: u8,
    pub cart_ram: Vec<u8>,
    pub ram_size: usize,
    pub cart_type: CartridgeType,
}

impl View for GameROM {
    type V = RomView;

    open spec fn view(&self) -> RomView {
        RomView {
            data: self.backing_data@,
            current_bank: self.current_bank,
            cart_ram: self.cart_ram@,
            cart_type: self.cart_type,
        }
    }
}

/// Decodes `bytes` as UTF-8 with `std::str::from_utf8`: a string comes back
/// exactly when the bytes are valid UTF-8, and it is the text they encode.
#[verifier::external_body]
fn utf8_text(bytes: &[u8]) -> (text: Option<String>)
    ensures
        text is Some <==> valid_utf8(bytes@),
        text is Some ==> text->0@ == decode_utf8(bytes@),
{
    match std::str::from_utf8(bytes) {
        Ok(text) => Some(String::from(text)),
        Err(_) => None,
    }
}

impl GameROM {
    /// What holds of every cartridge that was loaded.
    pub open spec fn loaded(&self) -> bool {
        &&& self@.loaded()
        &&& self.ram_size == self.cart_ram@.len()
    }

    /// What holds of every cartridge whose ROM can be read and written: it
    /// was loaded, and its bank-switching scheme is implemented.
    pub open spec fn wf(&self) -> bool {
        &&& self.loaded()
        &&& self@.cart_type.mapper() is Some
    }

    pub fn read(&self, ptr: u16) -> (val: u8)
        requires
            self.wf(),
        ensures
            val == self@.read(ptr),
    {
        if ptr < 0x4000 {
            if (ptr as usize) < self.backing_data.len() {
                self.backing_data[ptr as usize]
            } else {
                0xFF
            }
        } else {
            let target: usize = ptr as usize + (self.current_bank as usize - 1) * BANK_SIZE;
            if target >= self.backing_data.len() {
                0xFF
            } else {
                self.backing_data[target]
            }
        }
    }

    pub fn read_ram(&self, ptr: u16) -> (val: u8)
        requires
            self.loaded(),
        ensures
            val == self@.read_ram(ptr),
    {
        if ptr as usize >= self.cart_ram.len() {
            return 0xFF;
        }
        self.cart_ram[ptr as usize]
    }

    pub fn write(&mut self, ptr: u16, val: u8)
        requires
            old(self).wf(),
        ensures
            final(self).wf(),
            final(self)@ == old(self)@.write(ptr, val),
    {
        proof {
            lemma_bank_bits(val);
        }
        match self.cart_type.get_mapper() {
            Some(Mapper::Mbc1) => {
                match ptr {
                    0x2000..=0x3FFF => {
                        self.current_bank = val & 0b11111;
                        if self.current_bank < 1 {
                            self.current_bank = 1;
                        }
                    },
                    _ => {},
                }
            },
            Some(Mapper::Mbc2) => {
                match ptr {
                    0x2000..=0x3FFF => {
                        if (ptr >> 8) & 0x1 == 1 {
                            self.current_bank = val & 0b1111;
                            if self.current_bank < 1 {
                                self.current_bank = 1;
                            }
                        }
                    },
                    _ => {},
                }
            },
            Some(Mapper::Mbc3) => {
                match ptr {
                    0x2000..=0x3FFF => {
                        self.current_bank = val & 0b1111111;
                        if self.current_bank < 1 {
                            self.current_bank = 1;
                        }
                    },
                    _ => {},
                }
            },
            _ => {},
        }
    }

    pub fn write_ram(&mut self, ptr: u16, val: u8)
        requires
            old(self).loaded(),
        ensures
            final(self).loaded(),
            final(self).wf() == old(self).wf(),
            final(self)@ == old(self)@.write_ram(ptr, val),
    {
        if ptr as usize >= self.cart_ram.len() {
            return ;
        }
        self.cart_ram[ptr as usize] = val;
    }

    /// The title in the header, if it is valid UTF-8.
    pub fn get_cart_name(&self) -> (name: Option<String>)
        requires
            self.loaded(),
        ensures
            name is Some <==> valid_utf8(self@.title()),
            name is Some ==> name->0@ == decode_utf8(self@.title()),
    {
        let title = vstd::slice::slice_subrange(self.backing_data.as_slice(), 0x134, 0x142);
        utf8_text(title)
    }

    /// Builds a cartridge from a ROM image that can be loaded. Every
    /// known cartridge type is built; the ROM of the cartridge can be read and
    /// written where the type's bank switching is implemented.
    pub fn build(data: Vec<u8>) -> (rom: GameROM)
        requires
            load_error(data@) is None,
        ensures
            rom.loaded(),
            rom@ == RomView::fresh(data@),
            rom.wf() == mapper_implemented(data@),
    {
        let cart_type = match CartridgeType::decode(data[0x147]) {
            Some(kind) => kind,
            None => CartridgeType::RomOnly,
        };
        let ram_size: usize = get_ram_size(data[0x149]);
        let ram: Vec<u8> = vec![0xFFu8; ram_size];
        proof {
            assert(ram@ =~= Seq::new(ram_size as nat, |i: int| 0xFFu8));
        }
        GameROM { backing_data: data, cart_type, current_bank: 1, cart_ram: ram, ram_size }
    }

    /// Whether the cartridge was loaded and its ROM can be read and
    /// written: it holds a whole header, its RAM is as large as it says, its
    /// bank-switching scheme is implemented and its bank register holds a
    /// bank that the scheme can select.
    pub fn is_valid(&self) -> (valid: bool)
        ensures
            valid == self.wf(),
    {
        self.is_loaded() && self.cart_type.get_mapper().is_some()
    }

    /// Whether the cartridge is as one that was loaded: it holds a whole
    /// header, its RAM is as large as it says, and its bank register holds a
    /// bank that its bank-switching scheme can select.
    pub fn is_loaded(&self) -> (valid: bool)
        ensures
            valid == self.loaded(),
    {
        let scheme = self.cart_type.get_mapper();
        self.backing_data.len() >= HEADER_END && self.cart_ram.len() <= 128 * 1024
            && self.ram_size == self.cart_ram.len() && 1 <= self.current_bank
            && self.current_bank <= 0x7F && match scheme {
            Some(Mapper::RomOnly) => self.current_bank == 1,
            Some(_) => true,
            None => self.current_bank == 1,
        }
    }

    /// A copy of the cartridge RAM, for a host that keeps it between runs.
    pub fn save_ram(&self) -> (ram: Vec<u8>)
        ensures
            ram@ == self@.cart_ram,
    {
        self.cart_ram.clone()
    }

    /// Puts `bytes` in the place of the cartridge RAM, if they are as many
    /// as the cartridge has RAM; else the RAM stays as it is. Returns whether
    /// the bytes were taken.
    pub fn load_ram(&mut self, bytes: &[u8]) -> (taken: bool)
        requires
            old(self).loaded(),
        ensures
            final(self).loaded(),
            final(self).wf() == old(self).wf(),
            taken == (bytes@.len() == old(self)@.cart_ram.len()),
            final(self)@ == (RomView {
                cart_ram: if taken {
                    bytes@
                } else {
                    old(self)@.cart_ram
                },
                ..old(self)@
            }),
    {
        if bytes.len() != self.cart_ram.len() {
            return false;
        }
        let mut i: usize = 0;
        while i < bytes.len()
            invariant
                i <= bytes.len(),
                bytes.len() == self.cart_ram.len(),
                self.loaded(),
                self@ == (RomView { cart_ram: self@.cart_ram, ..old(self)@ }),
                forall|j: int| 0 <= j < i ==> self@.cart_ram[j] == bytes@[j],
            decreases bytes.len() - i,
        {
            self.cart_ram[i] = bytes[i];
            i += 1;
        }
        assert(self@.cart_ram =~= bytes@);
        true
    }

    /// Whether the image is as long as its header says.
    pub fn has_declared_size(&self) -> (matches: bool)
        requires
            self.loaded(),
        ensures
            matches == (rom_size_of(self@.data[0x148]) == Some(self@.data.len() as usize)),
    {
        is_rom_size(self.backing_data[0x148]) && get_rom_size(self.backing_data[0x148])
            == self.backing_data.len()
    }
}

proof fn lemma_bank_bits(val: u8)
    by (bit_vector)
    ensures
        val & 0b11111 <= 0x1F,
        val & 0b1111 <= 0x0F,
        val & 0b1111111 <= 0x7F,
{
}

/// After the bank `bank` was written to a mapper's bank register, the
/// addresses 0x4000 to 0x7FFF read that bank of the image. This holds of
/// every bank that lies within the image and that the bank register, which
/// keeps only the low bits of what is written, can hold.
pub proof fn lemma_bank_switch_reads_bank(rom: RomView, select: u16, bank: u8, ptr: u16)
    requires
        rom.wf(),
        rom.cart_type.mapper()->0.selects_bank(select),
        0 < bank < rom.bank_count(),
        bank <= rom.cart_type.mapper()->0.bank_mask(),
        0x4000 <= ptr <= 0x7FFF,
    ensures
        rom.write(select, bank).read(ptr) == rom.data[bank * BANK_SIZE + (ptr - 0x4000)],
        rom.write(select, bank).wf(),
{
    let mask = rom.cart_type.mapper()->0.bank_mask();
    assert(bank & mask == bank) by (bit_vector)
        requires
            bank <= mask,
            mask == 0x1F || mask == 0x0F || mask == 0x7F,
    ;
}

/// A bank register that is written zero holds bank 1.
pub proof fn lemma_bank_zero_is_bank_one(rom: RomView, select: u16)
    requires
        rom.cart_type.mapper() is Some,
        rom.cart_type.mapper()->0.selects_bank(select),
    ensures
        rom.write(select, 0).current_bank == 1,
{
    let mask = rom.cart_type.mapper()->0.bank_mask();
    assert(0u8 & mask == 0) by (bit_vector);
}

/// A cartridge without bank switching reads the image as it lies: the
/// addresses 0x4000 to 0x7FFF read its second bank, whatever was written.
pub proof fn lemma_rom_only_reads_image(rom: RomView, select: u16, val: u8, ptr: u16)
    requires
        rom.wf(),
        rom.cart_type.mapper() == Some(Mapper::RomOnly),
        ptr < rom.data.len(),
        ptr <= 0x7FFF,
    ensures
        rom.write(select, val).read(ptr) == rom.data[ptr as int],
{
}

} // verus!
