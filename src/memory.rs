//! The memory bus: a 16-bit address space decoded into fixed regions.
//!
//! | range           | region                          |
//! |-----------------|---------------------------------|
//! | `0x0000-0x3FFF` | program ROM (read-only)         |
//! | `0x4000-0x43FF` | tile codes (video RAM)          |
//! | `0x4400-0x47FF` | tile attributes (color RAM)     |
//! | `0x4800-0x4FEF` | general-purpose RAM             |
//! | `0x4FF0-0x4FFF` | sprite table                    |
//! | `0x5000-0x50FF` | I/O window                      |
//!
//! Every other address reads as zero and ignores writes. Writes to the I/O
//! window are latched for the devices behind it; reads of it return the input
//! port that the address falls in, each port answering in 64 bytes.
use vstd::prelude::*;

verus! {

pub const ROM_START: u16 = 0x0000;
pub const VRAM_START: u16 = 0x4000;
pub const COLOR_RAM_START: u16 = 0x4400;
pub const RAM_START: u16 = 0x4800;
pub const SPRITE_START: u16 = 0x4FF0;
pub const IO_START: u16 = 0x5000;
/// First address past the I/O window.
pub const IO_END: u16 = 0x5100;

pub const ROM_SIZE: usize = 0x4000;
pub const VRAM_SIZE: usize = 0x0400;
pub const COLOR_RAM_SIZE: usize = 0x0400;
pub const RAM_SIZE: usize = 0x07F0;
pub const SPRITE_SIZE: usize = 0x0010;
pub const IO_SIZE: usize = 0x0100;
/// The I/O window is read as four input ports, each mirrored over 64 bytes.
pub const INPUT_PORTS: usize = 4;
/// Bytes each input port is mirrored over.
pub const PORT_SPAN: u16 = 0x40;
/// What an input port reads with nothing pressed: every line is active low.
pub const PORT_IDLE: u8 = 0xff;

/// Which backing store an address decodes to.
#[derive(Clone, Copy, Debug, PartialEq, Eq, Structural)]
pub enum Region {
    Rom,
    Vram,
    ColorRam,
    Ram,
    Sprites,
    Io,
    Unmapped,
}

/// First matching range wins.
pub open spec fn region_of(a: u16) -> Region {
    if a < VRAM_START {
        Region::Rom
    } else if a < COLOR_RAM_START {
        Region::Vram
    } else if a < RAM_START {
        Region::ColorRam
    } else if a < SPRITE_START {
        Region::Ram
    } else if a < IO_START {
        Region::Sprites
    } else if a < IO_END {
        Region::Io
    } else {
        Region::Unmapped
    }
}

/// Regions whose bytes can be written and read back.
pub open spec fn is_storage(a: u16) -> bool {
    match region_of(a) {
        Region::Vram | Region::ColorRam | Region::Ram | Region::Sprites => true,
        _ => false,
    }
}

/// Decodes an address to its region.
pub fn decode_address(a: u16) -> (r: Region)
    ensures
        r == region_of(a),
{
    if a < VRAM_START {
        Region::Rom
    } else if a < COLOR_RAM_START {
        Region::Vram
    } else if a < RAM_START {
        Region::ColorRam
    } else if a < SPRITE_START {
        Region::Ram
    } else if a < IO_START {
        Region::Sprites
    } else if a < IO_END {
        Region::Io
    } else {
        Region::Unmapped
    }
}

/// The contents of every region of a bus.
pub struct BusModel {
    pub rom: Seq<u8>,
    pub vram: Seq<u8>,
    pub color_ram: Seq<u8>,
    pub ram: Seq<u8>,
    pub sprites: Seq<u8>,
    /// The last value written to each address of the I/O window.
    pub io_latch: Seq<u8>,
    /// The values the input ports present.
    pub ports: Seq<u8>,
}

impl BusModel {
    pub open spec fn wf(self) -> bool {
        &&& self.rom.len() == ROM_SIZE
        &&& self.vram.len() == VRAM_SIZE
        &&& self.color_ram.len() == COLOR_RAM_SIZE
        &&& self.ram.len() == RAM_SIZE
        &&& self.sprites.len() == SPRITE_SIZE
        &&& self.io_latch.len() == IO_SIZE
        &&& self.ports.len() == INPUT_PORTS
    }

    /// What a read of `a` returns.
    pub open spec fn read(self, a: u16) -> u8 {
        match region_of(a) {
            Region::Rom => self.rom[a - ROM_START],
            Region::Vram => self.vram[a - VRAM_START],
            Region::ColorRam => self.color_ram[a - COLOR_RAM_START],
            Region::Ram => self.ram[a - RAM_START],
            Region::Sprites => self.sprites[a - SPRITE_START],
            Region::Io => self.ports[(a - IO_START) / PORT_SPAN as int],
            Region::Unmapped => 0,
        }
    }

    /// The bus after a write of `v` to `a`. The ROM and unmapped addresses
    /// discard the write; the I/O window latches it.
    pub open spec fn write(self, a: u16, v: u8) -> BusModel {
        match region_of(a) {
            Region::Rom => self,
            Region::Vram => BusModel { vram: self.vram.update(a - VRAM_START, v), ..self },
            Region::ColorRam => BusModel {
                color_ram: self.color_ram.update(a - COLOR_RAM_START, v),
                ..self
            },
            Region::Ram => BusModel { ram: self.ram.update(a - RAM_START, v), ..self },
            Region::Sprites => BusModel {
                sprites: self.sprites.update(a - SPRITE_START, v),
                ..self
            },
            Region::Io => BusModel { io_latch: self.io_latch.update(a - IO_START, v), ..self },
            Region::Unmapped => self,
        }
    }

    /// Every writable region zeroed; the ROM and the input ports kept.
    pub open spec fn cleared(self) -> BusModel {
        BusModel {
            rom: self.rom,
            vram: Seq::new(VRAM_SIZE as nat, |i: int| 0u8),
            color_ram: Seq::new(COLOR_RAM_SIZE as nat, |i: int| 0u8),
            ram: Seq::new(RAM_SIZE as nat, |i: int| 0u8),
            sprites: Seq::new(SPRITE_SIZE as nat, |i: int| 0u8),
            io_latch: Seq::new(IO_SIZE as nat, |i: int| 0u8),
            ports: self.ports,
        }
    }
}

/// A write to a writable region is read back; a write to the program region
/// changes nothing, so a read there gives what it gave before.
pub proof fn lemma_read_after_write(m: BusModel, a: u16, v: u8)
    requires
        m.wf(),
    ensures
        is_storage(a) ==> m.write(a, v).read(a) == v,
        region_of(a) == Region::Rom ==> m.write(a, v) == m && m.write(a, v).read(a) == m.read(a),
        m.write(a, v).wf(),
{
}

/// An address outside every region reads as zero and ignores writes.
pub proof fn lemma_unmapped(m: BusModel, a: u16, v: u8)
    requires
        m.wf(),
        region_of(a) == Region::Unmapped,
    ensures
        m.read(a) == 0,
        m.write(a, v) == m,
{
}

/// A write leaves every other address as it was.
pub proof fn lemma_write_other(m: BusModel, a: u16, b: u16, v: u8)
    requires
        m.wf(),
        a != b,
    ensures
        m.write(a, v).read(b) == m.read(b),
{
}

/// Clearing the bus twice is clearing it once, and leaves every writable
/// address reading zero.
pub proof fn lemma_clear_idempotent(m: BusModel)
    requires
        m.wf(),
    ensures
        m.cleared().cleared() == m.cleared(),
        m.cleared().wf(),
        forall|a: u16| is_storage(a) ==> #[trigger] m.cleared().read(a) == 0,
{
}

/// The bus of a machine: one vector per region.
pub struct MemoryBus {
    rom: Vec<u8>,
    vram: Vec<u8>,
    color_ram: Vec<u8>,
    ram: Vec<u8>,
    sprite_data: Vec<u8>,
    io_latch: Vec<u8>,
    ports: Vec<u8>,
}

impl View for MemoryBus {
    type V = BusModel;

    closed spec fn view(&self) -> BusModel {
        BusModel {
            rom: self.rom@,
            vram: self.vram@,
            color_ram: self.color_ram@,
            ram: self.ram@,
            sprites: self.sprite_data@,
            io_latch: self.io_latch@,
            ports: self.ports@,
        }
    }
}

/// Errors of loading a program image.
#[derive(Clone, Copy, Debug, PartialEq, Eq, Structural)]
pub enum LoadError {
    /// The image holds more bytes than the program region.
    ImageTooLarge { len: usize },
}

fn zeroed(n: usize) -> (r: Vec<u8>)
    ensures
        r@ == Seq::new(n as nat, |i: int| 0u8),
{
    let mut v: Vec<u8> = Vec::with_capacity(n);
    while v.len() < n
        invariant
            v.len() <= n,
            forall|i: int| 0 <= i < v.len() ==> v@[i] == 0u8,
        decreases n - v.len(),
    {
        v.push(0);
    }
    assert(v@ =~= Seq::new(n as nat, |i: int| 0u8));
    v
}

fn fill_zero(v: &mut Vec<u8>)
    ensures
        final(v)@ == Seq::new(old(v)@.len(), |i: int| 0u8),
{
    let n = v.len();
    let mut i: usize = 0;
    while i < n
        invariant
            i <= n,
            v.len() == n,
            forall|j: int| 0 <= j < i ==> v@[j] == 0u8,
        decreases n - i,
    {
        v.set(i, 0);
        i = i + 1;
    }
    assert(v@ =~= Seq::new(n as nat, |i: int| 0u8));
}

impl MemoryBus {
    pub open spec fn wf(&self) -> bool {
        self@.wf()
    }

    /// A bus with every region zeroed and every input port idle.
    pub fn new() -> (r: MemoryBus)
        ensures
            r.wf(),
            forall|a: u16| region_of(a) != Region::Io ==> #[trigger] r@.read(a) == 0,
            r@.io_latch == Seq::new(IO_SIZE as nat, |i: int| 0u8),
            r@.ports == Seq::new(INPUT_PORTS as nat, |i: int| PORT_IDLE),
    {
        let mut ports: Vec<u8> = Vec::new();
        while ports.len() < INPUT_PORTS
            invariant
                ports.len() <= INPUT_PORTS,
                forall|i: int| 0 <= i < ports.len() ==> ports@[i] == PORT_IDLE,
            decreases INPUT_PORTS - ports.len(),
        {
            ports.push(PORT_IDLE);
        }
        assert(ports@ =~= Seq::new(INPUT_PORTS as nat, |i: int| PORT_IDLE));
        MemoryBus {
            rom: zeroed(ROM_SIZE),
            vram: zeroed(VRAM_SIZE),
            color_ram: zeroed(COLOR_RAM_SIZE),
            ram: zeroed(RAM_SIZE),
            sprite_data: zeroed(SPRITE_SIZE),
            io_latch: zeroed(IO_SIZE),
            ports,
        }
    }

    /// Copies a flat program image to the start of the program region.
    /// Bytes of the region past the image are kept.
    pub fn load_image(&mut self, image: &[u8]) -> (r: Result<(), LoadError>)
        requires
            old(self).wf(),
        ensures
            final(self).wf(),
            image@.len() > ROM_SIZE ==> r == Err::<(), LoadError>(
                LoadError::ImageTooLarge { len: image@.len() as usize },
            ) && final(self)@ == old(self)@,
            image@.len() <= ROM_SIZE ==> r is Ok && final(self)@ == (BusModel {
                rom: image@ + old(self)@.rom.subrange(image@.len() as int, ROM_SIZE as int),
                ..old(self)@
            }),
    {
        let n = image.len();
        if n > ROM_SIZE {
            return Err(LoadError::ImageTooLarge { len: n });
        }
        let mut i: usize = 0;
        while i < n
            invariant
                i <= n,
                n == image@.len(),
                n <= ROM_SIZE,
                self.rom@.len() == ROM_SIZE,
                self.vram@ == old(self).vram@,
                self.color_ram@ == old(self).color_ram@,
                self.ram@ == old(self).ram@,
                self.sprite_data@ == old(self).sprite_data@,
                self.io_latch@ == old(self).io_latch@,
                self.ports@ == old(self).ports@,
                forall|j: int| 0 <= j < i ==> self.rom@[j] == image@[j],
                forall|j: int| i <= j < ROM_SIZE ==> self.rom@[j] == old(self).rom@[j],
            decreases n - i,
        {
            self.rom.set(i, image[i]);
            i = i + 1;
        }
        assert(self.rom@ =~= image@ + old(self)@.rom.subrange(n as int, ROM_SIZE as int));
        Ok(())
    }

    /// Reads the byte at `address`.
    pub fn read(&self, address: u16) -> (r: u8)
        requires
            self.wf(),
        ensures
            r == self@.read(address),
    {
        match decode_address(address) {
            Region::Rom => self.rom[(address - ROM_START) as usize],
            Region::Vram => self.vram[(address - VRAM_START) as usize],
            Region::ColorRam => self.color_ram[(address - COLOR_RAM_START) as usize],
            Region::Ram => self.ram[(address - RAM_START) as usize],
            Region::Sprites => self.sprite_data[(address - SPRITE_START) as usize],
            Region::Io => self.ports[((address - IO_START) / PORT_SPAN) as usize],
            Region::Unmapped => 0,
        }
    }

    /// Sets the value input port `port` presents.
    pub fn set_port(&mut self, port: usize, value: u8)
        requires
            old(self).wf(),
            port < INPUT_PORTS,
        ensures
            final(self).wf(),
            final(self)@ == (BusModel { ports: old(self)@.ports.update(port as int, value), ..old(self)@ }),
    {
        self.ports.set(port, value);
    }

    /// Writes `value` to `address`.
    pub fn write(&mut self, address: u16, value: u8)
        requires
            old(self).wf(),
        ensures
            final(self).wf(),
            final(self)@ == old(self)@.write(address, value),
    {
        match decode_address(address) {
            Region::Rom => {},
            Region::Vram => self.vram.set((address - VRAM_START) as usize, value),
            Region::ColorRam => self.color_ram.set((address - COLOR_RAM_START) as usize, value),
            Region::Ram => self.ram.set((address - RAM_START) as usize, value),
            Region::Sprites => self.sprite_data.set((address - SPRITE_START) as usize, value),
            Region::Io => self.io_latch.set((address - IO_START) as usize, value),
            Region::Unmapped => {},
        }
    }

    /// Zeroes every writable region; the program region is kept.
    pub fn reset(&mut self)
        requires
            old(self).wf(),
        ensures
            final(self).wf(),
            final(self)@ == old(self)@.cleared(),
    {
        fill_zero(&mut self.vram);
        fill_zero(&mut self.color_ram);
        fill_zero(&mut self.ram);
        fill_zero(&mut self.sprite_data);
        fill_zero(&mut self.io_latch);
    }

    /// The tile-code region.
    pub fn vram(&self) -> (r: &[u8])
        ensures
            r@ == self@.vram,
    {
        self.vram.as_slice()
    }

    /// The tile-attribute region.
    pub fn color_ram(&self) -> (r: &[u8])
        ensures
            r@ == self@.color_ram,
    {
        self.color_ram.as_slice()
    }

    /// The sprite table.
    pub fn sprite_data(&self) -> (r: &[u8])
        ensures
            r@ == self@.sprites,
    {
        self.sprite_data.as_slice()
    }

    /// The values last written to the I/O window.
    pub fn io_latch(&self) -> (r: &[u8])
        ensures
            r@ == self@.io_latch,
    {
        self.io_latch.as_slice()
    }
}

impl Default for MemoryBus {
    fn default() -> (r: MemoryBus)
        ensures
            r.wf(),
            forall|a: u16| region_of(a) != Region::Io ==> #[trigger] r@.read(a) == 0,
    {
        MemoryBus::new()
    }
}

} // verus!
