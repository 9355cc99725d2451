//! Loading the program ROM from a ZIP archive held in memory.
//!
//! The archive holds four 4 KiB parts, concatenated in a fixed order to form
//! the 16 KiB program region.
use vstd::prelude::*;
use crate::memory::{BusModel, LoadError, MemoryBus, ROM_SIZE};

verus! {

/// Number of parts in a program ROM.
pub const ROM_PARTS: usize = 4;

/// Size of each part.
pub const PART_SIZE: usize = 0x1000;

/// Why an entry could not be taken from an archive.
#[derive(Clone, Copy, Debug, PartialEq, Eq, Structural)]
pub enum ArchiveError {
    /// The bytes are not a readable ZIP archive.
    Unreadable,
    /// The archive has no entry of that name.
    Missing,
    /// The entry exists but could not be decompressed.
    Corrupt,
}

/// Why a program ROM could not be loaded.
#[derive(Clone, Copy, Debug, PartialEq, Eq, Structural)]
pub enum RomError {
    ArchiveUnreadable,
    PartMissing { part: usize },
    PartCorrupt { part: usize },
    PartWrongSize { part: usize, len: usize },
    TooLarge { len: usize },
}

/// The contents of entry `name` of the ZIP archive `archive`, as the `zip`
/// crate extracts it.
pub uninterp spec fn zip_entry(archive: Seq<u8>, name: Seq<char>) -> Result<Seq<u8>, ArchiveError>;

/// Relies on `zip::ZipArchive::new`, `ZipArchive::by_name` and reading the
/// entry to its end: the result is the entry's decompressed contents, or
/// which of the three steps failed.
#[verifier::external_body]
fn read_zip_entry(archive: &[u8], name: &str) -> (r: Result<Vec<u8>, ArchiveError>)
    ensures
        match r {
            Ok(v) => zip_entry(archive@, name@) == Ok::<Seq<u8>, ArchiveError>(v@),
            Err(e) => zip_entry(archive@, name@) == Err::<Seq<u8>, ArchiveError>(e),
        },
{
    let mut zip = match zip::ZipArchive::new(std::io::Cursor::new(archive)) {
        Ok(z) => z,
        Err(_) => return Err(ArchiveError::Unreadable),
    };
    let mut file = match zip.by_name(name) {
        Ok(f) => f,
        Err(zip::result::ZipError::FileNotFound) => return Err(ArchiveError::Missing),
        Err(_) => return Err(ArchiveError::Corrupt),
    };
    let mut buf: Vec<u8> = Vec::new();
    match std::io::Read::read_to_end(&mut file, &mut buf) {
        Ok(_) => Ok(buf),
        Err(_) => Err(ArchiveError::Corrupt),
    }
}

/// The entry name of each part, in load order.
pub open spec fn part_name(i: int) -> Seq<char> {
    if i == 0 {
        "pacman.6e"@
    } else if i == 1 {
        "pacman.6f"@
    } else if i == 2 {
        "pacman.6h"@
    } else {
        "pacman.6j"@
    }
}

/// The entry name of part `i`.
pub fn rom_part_name(i: usize) -> (r: &'static str)
    requires
        i < ROM_PARTS,
    ensures
        r@ == part_name(i as int),
{
    if i == 0 {
        "pacman.6e"
    } else if i == 1 {
        "pacman.6f"
    } else if i == 2 {
        "pacman.6h"
    } else {
        "pacman.6j"
    }
}

/// What part `i` contributes, given what the archive gave for it.
pub open spec fn part_result(i: usize, part: Result<Seq<u8>, ArchiveError>) -> Result<Seq<u8>, RomError> {
    match part {
        Ok(v) => if v.len() == PART_SIZE {
            Ok(v)
        } else {
            Err(RomError::PartWrongSize { part: i, len: v.len() as usize })
        },
        Err(ArchiveError::Unreadable) => Err(RomError::ArchiveUnreadable),
        Err(ArchiveError::Missing) => Err(RomError::PartMissing { part: i }),
        Err(ArchiveError::Corrupt) => Err(RomError::PartCorrupt { part: i }),
    }
}

/// The image made of the first `n` parts of `archive`, or the error of the
/// first part that fails.
pub open spec fn image_prefix(archive: Seq<u8>, n: nat) -> Result<Seq<u8>, RomError>
    decreases n,
{
    if n == 0 {
        Ok(Seq::empty())
    } else {
        match image_prefix(archive, (n - 1) as nat) {
            Ok(img) => match part_result(
                (n - 1) as usize,
                zip_entry(archive, part_name(n - 1)),
            ) {
                Ok(v) => Ok(img + v),
                Err(e) => Err(e),
            },
            Err(e) => Err(e),
        }
    }
}

/// The program image that `archive` holds.
pub open spec fn rom_image(archive: Seq<u8>) -> Result<Seq<u8>, RomError> {
    image_prefix(archive, ROM_PARTS as nat)
}

/// Checks part `i` as the archive gave it, and appends it to `image` when it
/// is whole.
pub fn append_rom_part(i: usize, part: Result<Vec<u8>, ArchiveError>, image: &mut Vec<u8>) -> (r:
    Result<(), RomError>)
    ensures
        match part {
            Ok(v) => match part_result(i, Ok(v@)) {
                Ok(b) => r is Ok && final(image)@ == old(image)@ + b,
                Err(e) => r == Err::<(), RomError>(e) && final(image)@ == old(image)@,
            },
            Err(e) => match part_result(i, Err(e)) {
                Ok(_) => false,
                Err(e2) => r == Err::<(), RomError>(e2) && final(image)@ == old(image)@,
            },
        },
{
    match part {
        Ok(v) => {
            if v.len() != PART_SIZE {
                return Err(RomError::PartWrongSize { part: i, len: v.len() });
            }
            let mut j: usize = 0;
            let ghost start = image@;
            while j < v.len()
                invariant
                    j <= v@.len(),
                    image@ == start + v@.subrange(0, j as int),
                decreases v@.len() - j,
            {
                image.push(v[j]);
                j = j + 1;
                assert(image@ =~= start + v@.subrange(0, j as int));
            }
            assert(v@.subrange(0, v@.len() as int) =~= v@);
            Ok(())
        },
        Err(ArchiveError::Unreadable) => Err(RomError::ArchiveUnreadable),
        Err(ArchiveError::Missing) => Err(RomError::PartMissing { part: i }),
        Err(ArchiveError::Corrupt) => Err(RomError::PartCorrupt { part: i }),
    }
}

impl MemoryBus {
    /// Loads the program region from the ROM parts of a ZIP archive. On any
    /// error the bus is left as it was.
    pub fn load_rom(&mut self, archive: &[u8]) -> (r: Result<(), RomError>)
        requires
            old(self).wf(),
        ensures
            final(self).wf(),
            match rom_image(archive@) {
                Ok(img) => r is Ok && final(self)@ == (BusModel { rom: img, ..old(self)@ }),
                Err(e) => r == Err::<(), RomError>(e) && final(self)@ == old(self)@,
            },
    {
        let mut image: Vec<u8> = Vec::new();
        let mut i: usize = 0;
        while i < ROM_PARTS
            invariant
                i <= ROM_PARTS,
                self.wf(),
                self@ == old(self)@,
                image_prefix(archive@, i as nat) == Ok::<Seq<u8>, RomError>(image@),
                image@.len() == i * PART_SIZE,
            decreases ROM_PARTS - i,
        {
            let part = read_zip_entry(archive, rom_part_name(i));
            match append_rom_part(i, part, &mut image) {
                Ok(()) => {},
                Err(e) => {
                    proof {
                        assert(image_prefix(archive@, (i + 1) as nat) == Err::<Seq<u8>, RomError>(e));
                        lemma_prefix_error_sticks(archive@, (i + 1) as nat, ROM_PARTS as nat);
                    }
                    return Err(e);
                },
            }
            i = i + 1;
        }
        match self.load_image(image.as_slice()) {
            Ok(()) => {
                assert(image@ + old(self)@.rom.subrange(ROM_SIZE as int, ROM_SIZE as int) =~= image@);
                Ok(())
            },
            Err(LoadError::ImageTooLarge { len }) => Err(RomError::TooLarge { len }),
        }
    }
}

/// Once a prefix fails, every longer prefix fails with the same error.
proof fn lemma_prefix_error_sticks(archive: Seq<u8>, i: nat, n: nat)
    requires
        i <= n,
        image_prefix(archive, i) is Err,
    ensures
        image_prefix(archive, n) == image_prefix(archive, i),
    decreases n - i,
{
    if i < n {
        lemma_prefix_error_sticks(archive, i, (n - 1) as nat);
    }
}

} // verus!
