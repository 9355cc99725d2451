//! An emulator core for the Pac-Man arcade board: a Z80 processor, its
//! memory-mapped bus and the frame timing that ties them together.
use vstd::prelude::*;

pub mod alu;
pub mod cpu;
pub mod input;
pub mod memory;
pub mod rom;
pub mod video;

use crate::cpu::{initial_state, run_slice, DecodeError, Z80};
use crate::input::{port0_of, port1_of, released, InputState, InputSystem};
use crate::memory::{
    is_storage, lemma_clear_idempotent, region_of, BusModel, MemoryBus, Region, INPUT_PORTS,
    IO_SIZE, PORT_IDLE,
};
use crate::rom::{rom_image, RomError};
use crate::video::{VideoSystem, BLACK, FRAMEBUFFER_SIZE, PALETTE_SIZE};

verus! {

/// Processor cycles in one frame: a 3.072 MHz clock at 60 frames a second.
pub const CYCLES_PER_FRAME: u64 = 51200;

/// The bus with the input ports showing `state`.
pub open spec fn with_controls(m: BusModel, state: InputState) -> BusModel {
    BusModel { ports: m.ports.update(0, port0_of(state)).update(1, port1_of(state)), ..m }
}

/// The processor, bus and framebuffer after a reset of the board: writable
/// regions zeroed, every control released, the display cleared.
pub open spec fn reset_state(s: Z80, m: BusModel, pixels: Seq<u8>) -> (Z80, BusModel, Seq<u8>) {
    (
        initial_state(),
        with_controls(m.cleared(), released()),
        Seq::new(pixels.len(), |i: int| 0u8),
    )
}

/// Resetting twice gives the state that resetting once gives: the processor
/// at its initial values with the cycle counter at zero, every writable
/// address reading zero, the program region kept, and the display cleared.
pub proof fn lemma_reset_idempotent(s: Z80, m: BusModel, pixels: Seq<u8>)
    requires
        m.wf(),
    ensures
        ({
            let once = reset_state(s, m, pixels);
            reset_state(once.0, once.1, once.2) == once
        }),
        reset_state(s, m, pixels).0.cycles == 0,
        reset_state(s, m, pixels).1.rom == m.rom,
        forall|a: u16| is_storage(a) ==> #[trigger] reset_state(s, m, pixels).1.read(a) == 0,
        forall|i: int|
            0 <= i < pixels.len() ==> #[trigger] reset_state(s, m, pixels).2[i] == 0u8,
{
    lemma_clear_idempotent(m);
    let once = reset_state(s, m, pixels);
    assert(once.1.cleared().ports == once.1.ports);
    assert(with_controls(once.1.cleared(), released()).ports =~= once.1.ports);
    assert(reset_state(once.0, once.1, once.2).2 =~= once.2);
}

/// The whole board: processor, bus, display and controls.
pub struct PacmanEmulator {
    pub cpu: Z80,
    pub memory: MemoryBus,
    pub video: VideoSystem,
    pub input: InputSystem,
}

impl PacmanEmulator {
    pub open spec fn wf(&self) -> bool {
        self.memory.wf()
    }

    /// A board in its reset state with an empty program region.
    pub fn new() -> (r: PacmanEmulator)
        ensures
            r.wf(),
            r.cpu == initial_state(),
            forall|a: u16| region_of(a) != Region::Io ==> #[trigger] r.memory@.read(a) == 0,
            r.memory@.io_latch == Seq::new(IO_SIZE as nat, |i: int| 0u8),
            r.memory@.ports == Seq::new(INPUT_PORTS as nat, |i: int| PORT_IDLE),
            r.video.pixels() == Seq::new(FRAMEBUFFER_SIZE as nat, |i: int| 0u8),
            r.video.colors() == Seq::new(PALETTE_SIZE as nat, |i: int| BLACK),
            r.input.current() == released(),
            r.input.previous() == released(),
    {
        PacmanEmulator {
            cpu: Z80::new(),
            memory: MemoryBus::new(),
            video: VideoSystem::new(),
            input: InputSystem::new(),
        }
    }

    /// Loads the program ROM from the bytes of a ZIP archive.
    pub fn load_rom(&mut self, archive: &[u8]) -> (r: Result<(), RomError>)
        requires
            old(self).wf(),
        ensures
            final(self).wf(),
            final(self).cpu == old(self).cpu,
            final(self).video.pixels() == old(self).video.pixels(),
            final(self).video.colors() == old(self).video.colors(),
            final(self).input.current() == old(self).input.current(),
            final(self).input.previous() == old(self).input.previous(),
            match rom_image(archive@) {
                Ok(img) => r is Ok && final(self).memory@ == (BusModel {
                    rom: img,
                    ..old(self).memory@
                }),
                Err(e) => r == Err::<(), RomError>(e) && final(self).memory@ == old(
                    self,
                ).memory@,
            },
    {
        self.memory.load_rom(archive)
    }

    /// Runs one frame: a slice of [`CYCLES_PER_FRAME`] cycles, ending with
    /// the vertical-blank interrupt, then the display reads the bus.
    pub fn run_frame(&mut self) -> (r: Result<u64, DecodeError>)
        requires
            old(self).wf(),
            old(self).cpu.cycles + CYCLES_PER_FRAME + 23 <= u64::MAX,
        ensures
            final(self).wf(),
            (final(self).cpu, final(self).memory@, r) == run_slice(
                old(self).cpu,
                old(self).memory@,
                CYCLES_PER_FRAME,
            ),
            final(self).video.pixels() == old(self).video.pixels(),
            final(self).video.colors() == old(self).video.colors(),
            final(self).input.current() == old(self).input.current(),
            final(self).input.previous() == old(self).input.previous(),
    {
        let r = self.cpu.run_cycles(&mut self.memory, CYCLES_PER_FRAME);
        self.video.render_frame(&self.memory);
        r
    }

    /// Takes a new snapshot of the controls and presents it on the input
    /// ports.
    pub fn update_input(&mut self, state: InputState)
        requires
            old(self).wf(),
        ensures
            final(self).wf(),
            final(self).cpu == old(self).cpu,
            final(self).memory@ == with_controls(old(self).memory@, state),
            final(self).video.pixels() == old(self).video.pixels(),
            final(self).video.colors() == old(self).video.colors(),
            final(self).input.current() == state,
            final(self).input.previous() == old(self).input.current(),
    {
        self.input.update(state);
        self.memory.set_port(0, state.port0());
        self.memory.set_port(1, state.port1());
    }

    /// Resets the processor, zeroes the writable regions of the bus, clears
    /// the display and releases the controls, on the input ports too. The
    /// program ROM is kept.
    pub fn reset(&mut self)
        requires
            old(self).wf(),
        ensures
            final(self).wf(),
            (final(self).cpu, final(self).memory@, final(self).video.pixels()) == reset_state(
                old(self).cpu,
                old(self).memory@,
                old(self).video.pixels(),
            ),
            final(self).video.colors() == old(self).video.colors(),
            final(self).input.current() == released(),
            final(self).input.previous() == released(),
    {
        self.cpu.reset();
        self.memory.reset();
        self.video.reset();
        self.input.reset();
        let idle = InputState::new();
        self.memory.set_port(0, idle.port0());
        self.memory.set_port(1, idle.port1());
    }
}

impl Default for PacmanEmulator {
    fn default() -> (r: PacmanEmulator)
        ensures
            r.wf(),
            r.cpu == initial_state(),
            forall|a: u16| region_of(a) != Region::Io ==> #[trigger] r.memory@.read(a) == 0,
            r.memory@.io_latch == Seq::new(IO_SIZE as nat, |i: int| 0u8),
            r.memory@.ports == Seq::new(INPUT_PORTS as nat, |i: int| PORT_IDLE),
            r.video.pixels() == Seq::new(FRAMEBUFFER_SIZE as nat, |i: int| 0u8),
            r.video.colors() == Seq::new(PALETTE_SIZE as nat, |i: int| BLACK),
            r.input.current() == released(),
            r.input.previous() == released(),
    {
        PacmanEmulator::new()
    }
}

} // verus!
