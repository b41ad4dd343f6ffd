//! The bootloader's decisions: whether a pending OTA image is installed, how its
//! last partial word is padded, what happens after each CRC check, how the OTA
//! flag is cleared, and whether the application may be started.
//!
//! Flash access stays with the caller, which reads the OTA flag and the image
//! header from flash, computes CRC32s over flash regions (see
//! [`crate::ota::crc32`]), erases and programs sectors, and jumps.
use vstd::prelude::*;
use crate::bytes::le32;
use crate::ota::{
    APP_MAX_SIZE, APP_START_ADDR, OTA_IMAGE_FORMAT_VERSION, OTA_IMAGE_MAGIC, OTA_TARGET_MCU_F411,
};

verus! {

/// OTA flag word: an image waits in the OTA Temp area.
pub const OTA_PENDING: u32 = 0x5441_4F54;
/// OTA flag word: the last image was installed.
pub const OTA_DONE: u32 = 0x444F_4E45;
/// Lowest valid initial stack pointer (start of SRAM).
pub const SRAM_START: u32 = 0x2000_0000;
/// Highest valid initial stack pointer (end of the 128 KB SRAM).
pub const SRAM_END: u32 = 0x2002_0000;

/// An image the bootloader is to install: its size and expected CRC32.
#[derive(Debug, Clone, Copy, PartialEq, Eq, Structural)]
pub struct PendingImage {
    pub size: u32,
    pub crc32: u32,
}

/// What the bootloader does next.
#[derive(Debug, Clone, Copy, PartialEq, Eq, Structural)]
pub enum BootAction {
    /// Mark the flag done (keeping the rest of its sector) and start the current app.
    ClearFlag,
    /// Erase the app sectors (1..=5) and copy the image into them.
    CopyImage,
    /// The copy does not check out: erase the app sectors so it cannot boot.
    EraseApp,
}

/// The image the flag and header words announce: the flag is pending, and the
/// header (magic, then format version and target MCU in the low bytes of the
/// second word, then size and CRC) is well formed for this board with a size in
/// 1..=APP_MAX_SIZE. Otherwise the bootloader starts the app as it is.
pub open spec fn pending_image_of(ota_flag: u32, header: [u32; 4]) -> Option<PendingImage> {
    if ota_flag == OTA_PENDING && header[0] == OTA_IMAGE_MAGIC && header[1] % 256
        == OTA_IMAGE_FORMAT_VERSION && (header[1] / 256) % 256 == OTA_TARGET_MCU_F411 && 0
        < header[2] <= APP_MAX_SIZE {
        Some(PendingImage { size: header[2], crc32: header[3] })
    } else {
        None
    }
}

/// The image to install, if the OTA flag is pending and the image header in the
/// OTA Temp area (four words) is acceptable.
pub fn pending_image(ota_flag: u32, header: [u32; 4]) -> (r: Option<PendingImage>)
    ensures
        r == pending_image_of(ota_flag, header),
{
    let format_version = header[1] % 256;
    let target_mcu = (header[1] / 256) % 256;
    if ota_flag == OTA_PENDING && header[0] == OTA_IMAGE_MAGIC && format_version
        == OTA_IMAGE_FORMAT_VERSION as u32 && target_mcu == OTA_TARGET_MCU_F411 as u32 && header[2]
        > 0 && header[2] <= APP_MAX_SIZE {
        Some(PendingImage { size: header[2], crc32: header[3] })
    } else {
        None
    }
}

/// After checking the image in the OTA Temp area: copy it when its CRC32 matches,
/// else leave the app alone and only clear the flag.
pub fn after_source_check(image: PendingImage, source_crc: u32) -> (r: BootAction)
    ensures
        r == if source_crc == image.crc32 {
            BootAction::CopyImage
        } else {
            BootAction::ClearFlag
        },
{
    if source_crc != image.crc32 {
        BootAction::ClearFlag
    } else {
        BootAction::CopyImage
    }
}

/// After a successful copy, checking the app area: clear the flag when its CRC32
/// matches, else erase the app.
pub fn after_copy_check(image: PendingImage, copied_crc: u32) -> (r: BootAction)
    ensures
        r == if copied_crc == image.crc32 {
            BootAction::ClearFlag
        } else {
            BootAction::EraseApp
        },
{
    if copied_crc == image.crc32 {
        BootAction::ClearFlag
    } else {
        BootAction::EraseApp
    }
}

/// The image size rounded down to whole words: the part copied word by word.
pub fn aligned_size(size: u32) -> (r: u32)
    ensures
        r == size - size % 4,
{
    size - size % 4
}

/// Byte `k` (0 = lowest) of a word.
pub open spec fn byte_of(w: u32, k: u32) -> u32 {
    (w >> (8 * k)) & 0xFF
}

/// The last, partial word of an image with `tail_bytes` bytes left (1..=3): those
/// low bytes are kept, the bytes above them are set to 0xFF, the erased state.
pub fn pad_tail_word(word: u32, tail_bytes: u32) -> (r: u32)
    requires
        1 <= tail_bytes <= 3,
    ensures
        forall|k: u32| k < 4 ==> #[trigger] byte_of(r, k) == if k < tail_bytes {
            byte_of(word, k)
        } else {
            0xFF
        },
{
    let shifted = 1u32 << (tail_bytes * 8);
    proof {
        lemma_pad_tail(word, tail_bytes, shifted);
    }
    let padding_mask = !(shifted - 1);
    word | padding_mask
}

/// Padding keeps the low `t` bytes and fills the rest with 0xFF.
proof fn lemma_pad_tail(word: u32, t: u32, shifted: u32)
    by (bit_vector)
    requires
        1 <= t <= 3,
        shifted == 1u32 << (t * 8),
    ensures
        shifted >= 1,
        forall|k: u32|
            k < 4 ==> #[trigger] ((word | !((shifted - 1) as u32)) >> (8 * k)) & 0xFF == if k < t {
                (word >> (8 * k)) & 0xFF
            } else {
                0xFF
            },
{
}

/// The 64 words of the OTA-flag sector with the flag set to done and every other
/// word kept, to be programmed back after the sector is erased.
pub fn clear_ota_flag_words(current: &[u32; 64]) -> (r: [u32; 64])
    ensures
        r[0] == OTA_DONE,
        forall|i: int| 1 <= i < 64 ==> #[trigger] r[i] == current[i],
{
    let mut words = *current;
    words[0] = OTA_DONE;
    words
}

/// Whether the app's vector table allows a jump: an initial stack pointer inside
/// SRAM and a Thumb (odd) reset vector inside the app area.
pub open spec fn app_vector_ok(sp: u32, reset_vector: u32) -> bool {
    &&& SRAM_START <= sp <= SRAM_END
    &&& APP_START_ADDR <= reset_vector <= APP_START_ADDR + APP_MAX_SIZE
    &&& reset_vector % 2 == 1
}

/// Whether the bootloader may start the app with this stack pointer and reset
/// vector; otherwise it halts.
pub fn app_vector_valid(sp: u32, reset_vector: u32) -> (r: bool)
    ensures
        r == app_vector_ok(sp, reset_vector),
{
    !(sp < SRAM_START || sp > SRAM_END) && !(reset_vector < APP_START_ADDR || reset_vector
        > APP_START_ADDR + APP_MAX_SIZE || reset_vector % 2 == 0)
}

/// The image header the application writes (see [`crate::ota::ota_header_bytes`])
/// announces a pending image to the bootloader, with the size and CRC32 it was
/// written with, whenever the size is one the app area holds.
pub proof fn lemma_written_header_accepted(r: [u8; 16], size: u32, crc: u32)
    requires
        le32(r[0], r[1], r[2], r[3]) == OTA_IMAGE_MAGIC,
        r[4] == OTA_IMAGE_FORMAT_VERSION,
        r[5] == OTA_TARGET_MCU_F411,
        r[6] == 0,
        r[7] == 0,
        le32(r[8], r[9], r[10], r[11]) == size,
        le32(r[12], r[13], r[14], r[15]) == crc,
        0 < size <= APP_MAX_SIZE,
    ensures
        pending_image_of(
            OTA_PENDING,
            [
                le32(r[0], r[1], r[2], r[3]) as u32,
                le32(r[4], r[5], r[6], r[7]) as u32,
                le32(r[8], r[9], r[10], r[11]) as u32,
                le32(r[12], r[13], r[14], r[15]) as u32,
            ],
        ) == Some(PendingImage { size, crc32: crc }),
{
    let w1 = le32(r[4], r[5], r[6], r[7]);
    assert(w1 == 1 + 256 * 0x41);
}

} // verus!
