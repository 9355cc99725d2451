//! The display: a 224x288 RGBA framebuffer fed from the tile-code,
//! tile-attribute and sprite regions of the bus once per frame. Drawing the
//! tiles and sprites needs the character ROMs, which the core does not hold:
//! a frame walks the regions the picture is made from and leaves the
//! framebuffer as it was.
use vstd::prelude::*;
use crate::memory::MemoryBus;

verus! {

pub const SCREEN_WIDTH: usize = 224;
pub const SCREEN_HEIGHT: usize = 288;
pub const TILES_X: usize = 28;
pub const TILES_Y: usize = 36;
pub const MAX_SPRITES: usize = 6;
/// Bytes of an RGBA framebuffer.
pub const FRAMEBUFFER_SIZE: usize = 258048;
pub const PALETTE_SIZE: usize = 256;
/// Opaque black.
pub const BLACK: u32 = 0xff000000;

/// Framebuffer and palette.
pub struct VideoSystem {
    framebuffer: Vec<u8>,
    palette: Vec<u32>,
}

impl VideoSystem {
    pub closed spec fn pixels(&self) -> Seq<u8> {
        self.framebuffer@
    }

    pub closed spec fn colors(&self) -> Seq<u32> {
        self.palette@
    }

    /// A black framebuffer and an all-black palette.
    pub fn new() -> (r: VideoSystem)
        ensures
            r.pixels() == Seq::new(FRAMEBUFFER_SIZE as nat, |i: int| 0u8),
            r.colors() == Seq::new(PALETTE_SIZE as nat, |i: int| BLACK),
    {
        let mut framebuffer: Vec<u8> = Vec::with_capacity(FRAMEBUFFER_SIZE);
        while framebuffer.len() < FRAMEBUFFER_SIZE
            invariant
                framebuffer.len() <= FRAMEBUFFER_SIZE,
                forall|i: int| 0 <= i < framebuffer.len() ==> framebuffer@[i] == 0u8,
            decreases FRAMEBUFFER_SIZE - framebuffer.len(),
        {
            framebuffer.push(0);
        }
        assert(framebuffer@ =~= Seq::new(FRAMEBUFFER_SIZE as nat, |i: int| 0u8));
        VideoSystem { framebuffer, palette: Self::init_palette() }
    }

    fn init_palette() -> (r: Vec<u32>)
        ensures
            r@ == Seq::new(PALETTE_SIZE as nat, |i: int| BLACK),
    {
        let mut p: Vec<u32> = Vec::with_capacity(PALETTE_SIZE);
        while p.len() < PALETTE_SIZE
            invariant
                p.len() <= PALETTE_SIZE,
                forall|i: int| 0 <= i < p.len() ==> p@[i] == BLACK,
            decreases PALETTE_SIZE - p.len(),
        {
            p.push(BLACK);
        }
        assert(p@ =~= Seq::new(PALETTE_SIZE as nat, |i: int| BLACK));
        p
    }

    /// Renders one frame from the bus.
    pub fn render_frame(&mut self, memory: &MemoryBus)
        requires
            memory.wf(),
        ensures
            final(self).pixels() == old(self).pixels(),
            final(self).colors() == old(self).colors(),
    {
        self.render_background(memory);
        self.render_sprites(memory);
    }

    /// Walks the 28x36 tiles: each has a code and an attribute byte.
    fn render_background(&mut self, memory: &MemoryBus)
        requires
            memory.wf(),
        ensures
            *final(self) == *old(self),
    {
        let vram = memory.vram();
        let color_ram = memory.color_ram();
        let mut tile_y: usize = 0;
        while tile_y < TILES_Y
            invariant
                tile_y <= TILES_Y,
                vram@.len() == 0x400,
                color_ram@.len() == 0x400,
            decreases TILES_Y - tile_y,
        {
            let mut tile_x: usize = 0;
            while tile_x < TILES_X
                invariant
                    tile_x <= TILES_X,
                    tile_y < TILES_Y,
                    vram@.len() == 0x400,
                    color_ram@.len() == 0x400,
                decreases TILES_X - tile_x,
            {
                let tile_index = tile_y * TILES_X + tile_x;
                let _tile_code = vram[tile_index];
                let _tile_color = color_ram[tile_index];
                tile_x = tile_x + 1;
            }
            tile_y = tile_y + 1;
        }
    }

    /// Walks the sprite table: two bytes per sprite.
    fn render_sprites(&mut self, memory: &MemoryBus)
        requires
            memory.wf(),
        ensures
            *final(self) == *old(self),
    {
        let sprite_data = memory.sprite_data();
        let mut sprite_idx: usize = 0;
        while sprite_idx < MAX_SPRITES
            invariant
                sprite_idx <= MAX_SPRITES,
            decreases MAX_SPRITES - sprite_idx,
        {
            let offset = sprite_idx * 2;
            if offset + 1 < sprite_data.len() {
                let _sprite_x = sprite_data[offset];
                let _sprite_y = sprite_data[offset + 1];
            }
            sprite_idx = sprite_idx + 1;
        }
    }

    /// Clears the framebuffer to zero.
    pub fn reset(&mut self)
        ensures
            final(self).pixels() == Seq::new(old(self).pixels().len(), |i: int| 0u8),
            final(self).colors() == old(self).colors(),
    {
        let n = self.framebuffer.len();
        let mut i: usize = 0;
        while i < n
            invariant
                i <= n,
                self.framebuffer.len() == n,
                self.palette@ == old(self).palette@,
                forall|j: int| 0 <= j < i ==> self.framebuffer@[j] == 0u8,
            decreases n - i,
        {
            self.framebuffer.set(i, 0);
            i = i + 1;
        }
        assert(self.framebuffer@ =~= Seq::new(n as nat, |i: int| 0u8));
    }

    /// The RGBA framebuffer.
    pub fn framebuffer(&self) -> (r: &[u8])
        ensures
            r@ == self.pixels(),
    {
        self.framebuffer.as_slice()
    }
}

impl Default for VideoSystem {
    fn default() -> (r: VideoSystem)
        ensures
            r.pixels() == Seq::new(FRAMEBUFFER_SIZE as nat, |i: int| 0u8),
            r.colors() == Seq::new(PALETTE_SIZE as nat, |i: int| BLACK),
    {
        VideoSystem::new()
    }
}

} // verus!
