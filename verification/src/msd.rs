//! The virtual FAT12 disk that the USB mass-storage interface exposes, and the
//! receiver that streams a firmware file written to it into the OTA Temp area.
//!
//! The disk has 64 sectors of 512 bytes: boot sector (LBA 0), one FAT (LBA 1), the
//! root directory (LBA 2) and data from LBA 3. The file `FIRMWARE.BIN` starts at
//! cluster 2 (LBA 3); its bytes live in flash after the 16-byte OTA image header.
//!
//! Storage layout, chosen so that a dropped file is an image the bootloader accepts:
//! the file is the image followed by its CRC32 (4 bytes), as on the protocol OTA
//! path. It is programmed at OTA Temp + 16, behind an OTA image header (not behind
//! a bare 4-byte size word, which the bootloader's header check would never
//! accept). A directory entry starts a file only when its size exceeds the header
//! plus the CRC32 (20 bytes), since nothing smaller can hold an image. Starting a
//! file programs a placeholder header (size 0, CRC 0); the last data sector
//! completes it with the image size and the CRC32 read from the file's last 4
//! bytes, so the header carries the CRC that the bootloader checks.
use vstd::prelude::*;
use crate::bytes::{le32, u32_from_le, u32_to_le};
use crate::ota::{OTA_IMAGE_HEADER_SIZE, OTA_TEMP_ADDR};

verus! {

/// Virtual disk sector size
pub const SECTOR_SIZE: usize = 512;
/// Total sectors
pub const TOTAL_SECTORS: u32 = 64;
/// First data sector (boot sector + FAT + root directory)
pub const DATA_START_SECTOR: u32 = 3;
/// Entries in the single FAT sector (341 entries of 12 bits fill its 512 bytes).
pub const FAT_ENTRIES: usize = 341;
/// Largest file whose cluster chain fits in the FAT sector (339 clusters).
pub const MAX_FILE_SIZE: u32 = 173568;

/// Bytes 0..62 of the boot sector: jump, OEM name, BPB and extended BPB.
pub open spec fn boot_prefix() -> Seq<u8> {
    seq![
        0xEBu8, 0x3C, 0x90,
        0x53, 0x45, 0x52, 0x56, 0x4F, 0x20, 0x20, 0x20,
        0x00, 0x02,
        0x01,
        0x01, 0x00,
        0x01,
        0x10, 0x00,
        0x40, 0x00,
        0xF8,
        0x01, 0x00,
        0x01, 0x00,
        0x01, 0x00,
        0x00, 0x00, 0x00, 0x00, 0x00, 0x00, 0x00, 0x00,
        0x80, 0x00, 0x29,
        0x78, 0x56, 0x34, 0x12,
        0x53, 0x45, 0x52, 0x56, 0x4F, 0x5F, 0x52, 0x4F, 0x42, 0x4F, 0x54,
        0x46, 0x41, 0x54, 0x31, 0x32, 0x20, 0x20, 0x20
    ]
}

/// The boot sector: 512 bytes/sector, 1 sector/cluster, 1 reserved sector, 1 FAT,
/// 16 root entries, 64 sectors, media 0xF8, 1 sector/FAT, label "SERVO_ROBOT", "FAT12".
pub open spec fn boot_sector() -> Seq<u8> {
    boot_prefix() + Seq::new(448, |i: int| 0u8) + seq![0x55u8, 0xAA]
}

/// The 12-bit FAT entry `idx` of a FAT sector.
pub open spec fn fat12_entry(b: Seq<u8>, idx: int) -> int {
    let off = (3 * idx) / 2;
    if idx % 2 == 0 {
        b[off] + (b[off + 1] % 16) * 256
    } else {
        b[off] / 16 + b[off + 1] * 16
    }
}

/// Number of clusters a file of `size` bytes takes.
pub open spec fn clusters_of(size: int) -> int {
    (size + 511) / 512
}

/// FAT entry `idx` for a firmware file of `size` bytes: media and end markers in
/// entries 0 and 1, the chain 2 -> 3 -> ... starting at cluster 2, end-of-chain
/// (0xFFF) on its last cluster, free (0) elsewhere.
pub open spec fn fat_expected(size: int, idx: int) -> int {
    let clusters = clusters_of(size);
    if idx == 0 {
        0xFF8
    } else if idx == 1 {
        0xFFF
    } else if 2 <= idx < 1 + clusters {
        idx + 1
    } else if clusters >= 1 && idx == 1 + clusters {
        0xFFF
    } else {
        0
    }
}

/// The root directory: volume label "SERVO_ROBOT" and, for a nonempty firmware,
/// the entry `FIRMWARE.BIN` (archive, first cluster 2, the file size).
pub open spec fn root_dir_byte(size: u32, i: int) -> u8 {
    if 0 <= i < 11 {
        seq![0x53u8, 0x45, 0x52, 0x56, 0x4F, 0x5F, 0x52, 0x4F, 0x42, 0x4F, 0x54][i]
    } else if i == 11 {
        0x08
    } else if size > 0 && 32 <= i < 43 {
        seq![0x46u8, 0x49, 0x52, 0x4D, 0x57, 0x41, 0x52, 0x45, 0x42, 0x49, 0x4E][i - 32]
    } else if size > 0 && i == 43 {
        0x20
    } else if size > 0 && i == 58 {
        0x02
    } else if size > 0 && i == 60 {
        (size % 256) as u8
    } else if size > 0 && i == 61 {
        ((size / 256) % 256) as u8
    } else if size > 0 && i == 62 {
        ((size / 65536) % 256) as u8
    } else if size > 0 && i == 63 {
        (size / 16777216) as u8
    } else {
        0
    }
}

/// The root directory announces the firmware file: for a file of `size > 0` bytes
/// the entry at byte 32 is named `FIRMWARE.BIN` (8.3, bytes 32..43), is an archive
/// (byte 43 = 0x20), starts at cluster 2 (bytes 58..60) and records the size
/// little-endian in bytes 60..64; with no file the entry is empty. The volume
/// label "SERVO_ROBOT" (attribute 0x08) comes first either way.
pub proof fn lemma_root_dir_entry(size: u32)
    ensures
        size > 0 ==> le32(
            root_dir_byte(size, 60),
            root_dir_byte(size, 61),
            root_dir_byte(size, 62),
            root_dir_byte(size, 63),
        ) == size,
        size > 0 ==> forall|i: int| 0 <= i < 11 ==> root_dir_byte(size, 32 + i) == firmware_name()[i],
        size > 0 ==> root_dir_byte(size, 43) == 0x20 && root_dir_byte(size, 58) == 2
            && root_dir_byte(size, 59) == 0,
        size == 0 ==> forall|i: int| 32 <= i < 512 ==> root_dir_byte(size, i) == 0,
        forall|i: int| 0 <= i < 11 ==> root_dir_byte(size, i) == seq![0x53u8, 0x45, 0x52, 0x56, 0x4F, 0x5F, 0x52, 0x4F, 0x42, 0x4F, 0x54][i],
        root_dir_byte(size, 11) == 0x08,
{
    assert((size % 256) as u8 + 256 * ((size / 256) % 256) as u8 + 65536 * ((size / 65536) % 256) as u8
        + 16777216 * (size / 16777216) as u8 == size) by (bit_vector);
}

/// Set every byte of `buf` to zero.
fn zero_fill(buf: &mut [u8; 512])
    ensures
        forall|i: int| 0 <= i < 512 ==> final(buf)[i] == 0,
{
    let mut i: usize = 0;
    while i < 512
        invariant
            i <= 512,
            forall|k: int| 0 <= k < i ==> buf[k] == 0,
        decreases 512 - i,
    {
        buf[i] = 0;
        i = i + 1;
    }
}

/// Write the boot sector into `buf`.
fn make_boot_sector(buf: &mut [u8; 512])
    ensures
        final(buf)@ == boot_sector(),
{
    zero_fill(buf);
    let prefix: [u8; 62] = [
        0xEB, 0x3C, 0x90,
        0x53, 0x45, 0x52, 0x56, 0x4F, 0x20, 0x20, 0x20,
        0x00, 0x02,
        0x01,
        0x01, 0x00,
        0x01,
        0x10, 0x00,
        0x40, 0x00,
        0xF8,
        0x01, 0x00,
        0x01, 0x00,
        0x01, 0x00,
        0x00, 0x00, 0x00, 0x00, 0x00, 0x00, 0x00, 0x00,
        0x80, 0x00, 0x29,
        0x78, 0x56, 0x34, 0x12,
        0x53, 0x45, 0x52, 0x56, 0x4F, 0x5F, 0x52, 0x4F, 0x42, 0x4F, 0x54,
        0x46, 0x41, 0x54, 0x31, 0x32, 0x20, 0x20, 0x20,
    ];
    assert(prefix@ =~= boot_prefix());
    let mut i: usize = 0;
    while i < 62
        invariant
            i <= 62,
            prefix@ == boot_prefix(),
            forall|k: int| 0 <= k < i ==> buf[k] == prefix@[k],
            forall|k: int| i <= k < 512 ==> buf[k] == 0,
        decreases 62 - i,
    {
        buf[i] = prefix[i];
        i = i + 1;
    }
    buf[510] = 0x55;
    buf[511] = 0xAA;
    assert(buf@ =~= boot_sector());
}

/// Store `value` in 12-bit FAT entry `index`, leaving every other entry as it was.
fn write_fat12_entry(buf: &mut [u8; 512], index: u16, value: u16)
    requires
        (index as int) < FAT_ENTRIES,
        value < 4096,
    ensures
        fat12_entry(final(buf)@, index as int) == value,
        forall|j: int|
            0 <= j < FAT_ENTRIES && j != index ==> fat12_entry(final(buf)@, j) == fat12_entry(
                old(buf)@,
                j,
            ),
        final(buf)@[511] / 16 == old(buf)@[511] / 16,
{
    let byte_offset = (index as usize * 3) / 2;
    let ghost old_buf = buf@;
    if index % 2 == 0 {
        buf[byte_offset] = (value % 256) as u8;
        buf[byte_offset + 1] = (buf[byte_offset + 1] / 16) * 16 + ((value / 256) % 16) as u8;
        assert forall|j: int| 0 <= j < FAT_ENTRIES && j != index implies fat12_entry(buf@, j)
            == fat12_entry(old_buf, j) by {
            if j == index + 1 {
                assert(buf@[byte_offset + 1] / 16 == old_buf[byte_offset + 1] / 16);
            }
        }
    } else {
        buf[byte_offset] = buf[byte_offset] % 16 + ((value % 16) * 16) as u8;
        buf[byte_offset + 1] = (value / 16) as u8;
        assert forall|j: int| 0 <= j < FAT_ENTRIES && j != index implies fat12_entry(buf@, j)
            == fat12_entry(old_buf, j) by {
            if j == index - 1 {
                assert(buf@[byte_offset as int] % 16 == old_buf[byte_offset as int] % 16);
            }
        }
    }
}

/// Write the FAT sector for a firmware file of `firmware_size` bytes into `buf`.
fn make_fat(buf: &mut [u8; 512], firmware_size: u32)
    requires
        firmware_size <= MAX_FILE_SIZE,
    ensures
        forall|j: int|
            0 <= j < FAT_ENTRIES ==> fat12_entry(final(buf)@, j) == fat_expected(
                firmware_size as int,
                j,
            ),
        final(buf)@[511] / 16 == 0,
{
    zero_fill(buf);
    buf[0] = 0xF8;
    buf[1] = 0xFF;
    buf[2] = 0xFF;
    let clusters: u16 = ((firmware_size + 511) / 512) as u16;
    assert(clusters == clusters_of(firmware_size as int));
    assert forall|j: int| 2 <= j < FAT_ENTRIES implies fat12_entry(buf@, j) == 0 by {
        assert(buf@[(3 * j) / 2] == 0 && buf@[(3 * j) / 2 + 1] == 0);
    }
    if clusters >= 1 {
        let mut i: u16 = 2;
        while i < 1 + clusters
            invariant
                clusters == clusters_of(firmware_size as int),
                1 <= clusters <= 339,
                2 <= i <= 1 + clusters,
                fat12_entry(buf@, 0) == 0xFF8,
                fat12_entry(buf@, 1) == 0xFFF,
                forall|j: int| 2 <= j < i ==> fat12_entry(buf@, j) == j + 1,
                forall|j: int| i <= j < FAT_ENTRIES ==> fat12_entry(buf@, j) == 0,
                buf@[511] / 16 == 0,
            decreases 1 + clusters - i,
        {
            write_fat12_entry(buf, i, i + 1);
            i = i + 1;
        }
        write_fat12_entry(buf, 1 + clusters, 0xFFF);
    }
}

/// Write the root directory sector for a firmware file of `firmware_size` bytes into `buf`.
fn make_root_dir(buf: &mut [u8; 512], firmware_size: u32)
    ensures
        forall|i: int| 0 <= i < 512 ==> final(buf)[i] == root_dir_byte(firmware_size, i),
{
    zero_fill(buf);
    let label: [u8; 11] = [0x53, 0x45, 0x52, 0x56, 0x4F, 0x5F, 0x52, 0x4F, 0x42, 0x4F, 0x54];
    let mut i: usize = 0;
    while i < 11
        invariant
            i <= 11,
            label@ == seq![0x53u8, 0x45, 0x52, 0x56, 0x4F, 0x5F, 0x52, 0x4F, 0x42, 0x4F, 0x54],
            forall|k: int| 0 <= k < i ==> buf[k] == label@[k],
            forall|k: int| i <= k < 512 ==> buf[k] == 0,
        decreases 11 - i,
    {
        buf[i] = label[i];
        i = i + 1;
    }
    buf[11] = 0x08;
    if firmware_size > 0 {
        let name: [u8; 11] = [0x46, 0x49, 0x52, 0x4D, 0x57, 0x41, 0x52, 0x45, 0x42, 0x49, 0x4E];
        let mut k: usize = 0;
        while k < 11
            invariant
                k <= 11,
                label@ == seq![0x53u8, 0x45, 0x52, 0x56, 0x4F, 0x5F, 0x52, 0x4F, 0x42, 0x4F, 0x54],
                name@ == seq![0x46u8, 0x49, 0x52, 0x4D, 0x57, 0x41, 0x52, 0x45, 0x42, 0x49, 0x4E],
                forall|j: int| 0 <= j < 11 ==> buf[j] == label@[j],
                buf[11] == 0x08,
                forall|j: int| 0 <= j < k ==> buf[32 + j] == name@[j],
                forall|j: int| 12 <= j < 32 ==> buf[j] == 0,
                forall|j: int| 32 + k <= j < 512 ==> buf[j] == 0,
            decreases 11 - k,
        {
            buf[32 + k] = name[k];
            k = k + 1;
        }
        buf[43] = 0x20;
        buf[58] = 2;
        buf[59] = 0;
        let size = u32_to_le(firmware_size);
        buf[60] = size[0];
        buf[61] = size[1];
        buf[62] = size[2];
        buf[63] = size[3];
    }
}

/// Where the bytes of a sector read come from.
#[derive(Debug, Clone, Copy, PartialEq, Eq, Structural)]
pub enum SectorSource {
    /// The whole sector is in the buffer.
    Ready,
    /// The first `len` bytes of the buffer are to be read from flash at `addr`;
    /// the rest of the buffer is already zero.
    Flash { addr: u32, len: usize },
}

/// What the flash must do after a sector write.
#[derive(Debug, Clone, Copy, PartialEq, Eq, Structural)]
pub enum WriteAction {
    /// Nothing.
    Ignore,
    /// A new firmware file begins: erase the OTA Temp area and program a placeholder
    /// image header (size 0, CRC 0) at its start.
    StartImage,
    /// Program the sector's 512 bytes at `addr`.
    Program { addr: u32 },
    /// Program the sector's 512 bytes at `addr`; the file is complete: read the
    /// CRC32 stored at `crc_addr` and program the image header for `image_size`
    /// bytes with that CRC at the start of the OTA Temp area.
    ProgramLast { addr: u32, crc_addr: u32, image_size: u32 },
}

/// The SCSI commands of the mass-storage interface that are answered with fixed
/// data (READ(10) and WRITE(10) go sector by sector through the receiver; every
/// other command fails).
#[derive(Debug, Clone, Copy, PartialEq, Eq, Structural)]
pub enum ScsiQuery {
    TestUnitReady,
    Inquiry,
    ReadCapacity10,
    ReadCapacity16,
    RequestSense,
    ModeSense6,
    ModeSense10,
    ReadFormatCapacities,
}

/// The data answering `q`; the command then passes with its length.
///
/// INQUIRY: a removable SPC-2 direct-access device, vendor "SERVO", product
/// "Robot Board FW", revision "1.00". READ CAPACITY: last LBA 63 and 512-byte
/// blocks, big-endian. REQUEST SENSE: fixed format, no sense. MODE SENSE: no block
/// descriptors, not write-protected. READ FORMAT CAPACITIES: one formatted
/// descriptor of 64 blocks of 512 bytes.
pub open spec fn scsi_data(q: ScsiQuery) -> Seq<u8> {
    match q {
        ScsiQuery::TestUnitReady => Seq::empty(),
        ScsiQuery::Inquiry => seq![
            0x00u8, 0x80, 0x04, 0x02, 31, 0, 0, 0,
            0x53, 0x45, 0x52, 0x56, 0x4F, 0x20, 0x20, 0x20,
            0x52, 0x6F, 0x62, 0x6F, 0x74, 0x20, 0x42, 0x6F,
            0x61, 0x72, 0x64, 0x20, 0x46, 0x57, 0x20, 0x20,
            0x31, 0x2E, 0x30, 0x30,
        ],
        ScsiQuery::ReadCapacity10 => seq![0u8, 0, 0, 63, 0, 0, 2, 0],
        ScsiQuery::ReadCapacity16 => seq![0u8, 0, 0, 63, 0, 0, 2, 0, 0, 0, 0, 0],
        ScsiQuery::RequestSense => seq![
            0x70u8, 0, 0, 0, 0, 0, 0, 10, 0, 0, 0, 0, 0, 0, 0, 0, 0, 0,
        ],
        ScsiQuery::ModeSense6 => seq![0x03u8, 0x00, 0x00, 0x00],
        ScsiQuery::ModeSense10 => seq![0x00u8, 0x06, 0x00, 0x00, 0x00, 0x00, 0x00, 0x00],
        ScsiQuery::ReadFormatCapacities => seq![0u8, 0, 0, 8, 0, 0, 0, 64, 0x02, 0x02, 0x00, 0],
    }
}

/// Copy `text` into `buf` at `at`.
fn put_bytes(buf: &mut Vec<u8>, at: usize, text: &[u8])
    requires
        at + text@.len() <= old(buf)@.len() <= 512,
    ensures
        final(buf)@.len() == old(buf)@.len(),
        forall|k: int|
            0 <= k < old(buf)@.len() ==> #[trigger] final(buf)@[k] == if at <= k < at + text@.len() {
                text@[k - at]
            } else {
                old(buf)@[k]
            },
{
    let mut i: usize = 0;
    while i < text.len()
        invariant
            at + text@.len() <= buf@.len() <= 512,
            buf@.len() == old(buf)@.len(),
            i <= text@.len(),
            forall|k: int|
                0 <= k < old(buf)@.len() ==> #[trigger] buf@[k] == if at <= k < at + i {
                    text@[k - at]
                } else {
                    old(buf)@[k]
                },
        decreases text@.len() - i,
    {
        buf.set(at + i, text[i]);
        i = i + 1;
    }
}

/// The data answering a fixed-data SCSI command.
pub fn scsi_response(q: ScsiQuery) -> (r: Vec<u8>)
    ensures
        r@ == scsi_data(q),
{
    match q {
        ScsiQuery::TestUnitReady => Vec::new(),
        ScsiQuery::Inquiry => {
            let mut resp: Vec<u8> = vec![0u8; 36];
            resp.set(1, 0x80);
            resp.set(2, 0x04);
            resp.set(3, 0x02);
            resp.set(4, 31);
            let vendor: [u8; 8] = [0x53, 0x45, 0x52, 0x56, 0x4F, 0x20, 0x20, 0x20]; // "SERVO   "
            put_bytes(&mut resp, 8, &vendor);
            let product: [u8; 16] = [
                0x52, 0x6F, 0x62, 0x6F, 0x74, 0x20, 0x42, 0x6F, 0x61, 0x72, 0x64, 0x20, 0x46, 0x57, 0x20, 0x20,
            ]; // "Robot Board FW  "
            put_bytes(&mut resp, 16, &product);
            let revision: [u8; 4] = [0x31, 0x2E, 0x30, 0x30]; // "1.00"
            put_bytes(&mut resp, 32, &revision);
            assert(resp@ =~= scsi_data(q));
            resp
        },
        ScsiQuery::ReadCapacity10 => {
            let last_lba = TOTAL_SECTORS - 1;
            let mut resp: Vec<u8> = vec![0u8; 8];
            resp.set(3, last_lba as u8);
            resp.set(6, (SECTOR_SIZE / 256) as u8);
            assert(resp@ =~= scsi_data(q));
            resp
        },
        ScsiQuery::ReadCapacity16 => {
            let last_lba = TOTAL_SECTORS - 1;
            let mut resp: Vec<u8> = vec![0u8; 12];
            resp.set(3, last_lba as u8);
            resp.set(6, (SECTOR_SIZE / 256) as u8);
            assert(resp@ =~= scsi_data(q));
            resp
        },
        ScsiQuery::RequestSense => {
            let mut resp: Vec<u8> = vec![0u8; 18];
            resp.set(0, 0x70);
            resp.set(7, 10);
            assert(resp@ =~= scsi_data(q));
            resp
        },
        ScsiQuery::ModeSense6 => {
            let mut resp: Vec<u8> = vec![0u8; 4];
            resp.set(0, 0x03);
            assert(resp@ =~= scsi_data(q));
            resp
        },
        ScsiQuery::ModeSense10 => {
            let mut resp: Vec<u8> = vec![0u8; 8];
            resp.set(1, 0x06);
            assert(resp@ =~= scsi_data(q));
            resp
        },
        ScsiQuery::ReadFormatCapacities => {
            let mut resp: Vec<u8> = vec![0u8; 12];
            resp.set(3, 8);
            resp.set(7, TOTAL_SECTORS as u8);
            resp.set(8, 0x02);
            resp.set(9, (SECTOR_SIZE / 256) as u8);
            assert(resp@ =~= scsi_data(q));
            resp
        },
    }
}

/// A SCSI command as the mass-storage interface receives it.
#[derive(Debug, Clone, Copy, PartialEq, Eq, Structural)]
pub enum ScsiCommand {
    /// A command answered with fixed data.
    Query(ScsiQuery),
    /// READ(10): `len` blocks from `lba`.
    Read { lba: u32, len: u16 },
    /// WRITE(10): `len` blocks to `lba`.
    Write { lba: u32, len: u16 },
    /// Any other command.
    Unsupported,
}

/// What answering a SCSI command takes.
#[derive(Debug, Clone, PartialEq, Eq)]
pub enum ScsiAction {
    /// Send the data, then pass with its length.
    Reply(Vec<u8>),
    /// Send `count` sectors read with `read_sector`, the i-th being sector `lba + i`,
    /// then pass with the bytes sent (see `BlockTransfer::next_read`).
    ReadSectors { lba: u32, count: u16 },
    /// Receive up to `count` sectors, each handed to `write_sector` with the
    /// command's `lba`, stopping at the first short one; then pass with the bytes
    /// received (see `BlockTransfer::next_write`).
    WriteSectors { lba: u32, count: u16 },
    /// Fail the command with no data.
    Fail,
}

/// How the mass-storage interface answers `cmd`.
pub fn scsi_dispatch(cmd: ScsiCommand) -> (r: ScsiAction)
    ensures
        cmd matches ScsiCommand::Query(q) ==> (r matches ScsiAction::Reply(d) && d@ == scsi_data(q)),
        cmd matches ScsiCommand::Read { lba, len } ==> r == (ScsiAction::ReadSectors {
            lba,
            count: len,
        }),
        cmd matches ScsiCommand::Write { lba, len } ==> r == (ScsiAction::WriteSectors {
            lba,
            count: len,
        }),
        cmd is Unsupported ==> r == ScsiAction::Fail,
{
    match cmd {
        ScsiCommand::Query(q) => ScsiAction::Reply(scsi_response(q)),
        ScsiCommand::Read { lba, len } => ScsiAction::ReadSectors { lba, count: len },
        ScsiCommand::Write { lba, len } => ScsiAction::WriteSectors { lba, count: len },
        ScsiCommand::Unsupported => ScsiAction::Fail,
    }
}

/// The progress of a multi-block READ(10) or WRITE(10): the blocks transferred so
/// far, and whether a short block ended a write early.
pub struct BlockTransfer {
    lba: u32,
    count: u16,
    done: u16,
    stopped: bool,
}

impl BlockTransfer {
    #[verifier::type_invariant]
    spec fn inv(self) -> bool {
        self.done <= self.count
    }

    /// The command's first sector.
    pub closed spec fn first(self) -> u32 {
        self.lba
    }

    /// The command's block count.
    pub closed spec fn blocks(self) -> u16 {
        self.count
    }

    /// Blocks transferred so far.
    pub closed spec fn transferred(self) -> u16 {
        self.done
    }

    /// Whether a short block ended the transfer.
    pub closed spec fn is_stopped(self) -> bool {
        self.stopped
    }

    /// A transfer of `count` blocks starting at sector `lba`, nothing moved yet.
    pub fn new(lba: u32, count: u16) -> (r: Self)
        ensures
            r.first() == lba,
            r.blocks() == count,
            r.transferred() == 0,
            !r.is_stopped(),
    {
        BlockTransfer { lba, count, done: 0, stopped: false }
    }

    /// READ(10): the sector to send next, `lba + i` for the i-th block, while blocks
    /// remain; `None` when all `count` have been sent.
    pub fn next_read(&mut self) -> (r: Option<u32>)
        requires
            old(self).transferred() < old(self).blocks() ==> old(self).first()
                + old(self).transferred() <= u32::MAX,
        ensures
            final(self).first() == old(self).first(),
            final(self).blocks() == old(self).blocks(),
            final(self).is_stopped() == old(self).is_stopped(),
            old(self).transferred() < old(self).blocks() ==> {
                &&& r == Some((old(self).first() + old(self).transferred()) as u32)
                &&& final(self).transferred() == old(self).transferred() + 1
            },
            old(self).transferred() >= old(self).blocks() ==> r is None
                && final(self).transferred() == old(self).transferred(),
    {
        proof {
            use_type_invariant(&*self);
        }
        if self.done < self.count {
            let sector = self.lba + self.done as u32;
            self.done = self.done + 1;
            Some(sector)
        } else {
            None
        }
    }

    /// WRITE(10): a block of `received` bytes has arrived. While the transfer runs,
    /// a full sector (at least 512 bytes) goes to `write_sector` with the command's
    /// `lba`; a short one ends the transfer. `None`: nothing to write.
    pub fn next_write(&mut self, received: usize) -> (r: Option<u32>)
        ensures
            final(self).first() == old(self).first(),
            final(self).blocks() == old(self).blocks(),
            !old(self).is_stopped() && old(self).transferred() < old(self).blocks() && received
                >= 512 ==> {
                &&& r == Some(old(self).first())
                &&& final(self).transferred() == old(self).transferred() + 1
                &&& !final(self).is_stopped()
            },
            !old(self).is_stopped() && old(self).transferred() < old(self).blocks() && received
                < 512 ==> r is None && final(self).is_stopped() && final(self).transferred()
                == old(self).transferred(),
            old(self).is_stopped() || old(self).transferred() >= old(self).blocks() ==> r is None
                && final(self).transferred() == old(self).transferred()
                && final(self).is_stopped() == old(self).is_stopped(),
    {
        proof {
            use_type_invariant(&*self);
        }
        if self.stopped || self.done >= self.count {
            None
        } else if received >= 512 {
            self.done = self.done + 1;
            Some(self.lba)
        } else {
            self.stopped = true;
            None
        }
    }

    /// Whether the transfer is over: every block moved, or a short block ended it.
    pub fn is_finished(&self) -> (r: bool)
        ensures
            r == (self.is_stopped() || self.transferred() >= self.blocks()),
    {
        self.stopped || self.done >= self.count
    }

    /// The length the command passes with: 512 bytes per block transferred.
    pub fn pass_length(&self) -> (r: u32)
        ensures
            r == 512 * self.transferred(),
    {
        512 * (self.done as u32)
    }
}

/// Firmware receiver state.
///
/// The file written through the disk has the same layout as the protocol OTA path:
/// the image, then its CRC32 in the last 4 bytes. It is stored after the 16-byte
/// OTA image header, whose size and CRC are filled in when the file is complete
/// (see the storage layout in the module documentation).
pub struct FirmwareReceiver {
    /// Total firmware file size (from the FAT directory entry, including the CRC32)
    pub firmware_size: u32,
    /// Whether the transfer has completed
    pub firmware_ready: bool,
    /// Bytes of the file written so far
    write_offset: u32,
}

/// The 8.3 directory name of the firmware file, "FIRMWARE.BIN".
pub open spec fn firmware_name() -> Seq<u8> {
    seq![0x46u8, 0x49, 0x52, 0x4D, 0x57, 0x41, 0x52, 0x45, 0x42, 0x49, 0x4E]
}

impl FirmwareReceiver {
    /// The size of the file being received (0: none).
    pub closed spec fn size(&self) -> u32 {
        self.firmware_size
    }

    /// Whether the file has been received completely.
    pub closed spec fn ready(&self) -> bool {
        self.firmware_ready
    }

    /// Bytes of the file written so far.
    pub closed spec fn written(&self) -> u32 {
        self.write_offset
    }

    /// Whether a data-sector write can compute its flash addresses: the next write
    /// position and the CRC position of the file stay within the 32-bit address space.
    pub closed spec fn can_program(&self) -> bool {
        &&& self.written() <= 0xF7FB_FDEF
        &&& 4 <= self.firmware_size <= 0xF7FB_FFF3
    }

    /// The size of the file being received (0: none).
    pub fn file_size(&self) -> (r: u32)
        ensures
            r == self.size(),
    {
        self.firmware_size
    }

    /// Whether the file has been received completely.
    pub fn has_new_firmware(&self) -> (r: bool)
        ensures
            r == self.ready(),
    {
        self.firmware_ready
    }

    /// Bytes of the file written so far.
    pub fn bytes_written(&self) -> (r: u32)
        ensures
            r == self.written(),
    {
        self.write_offset
    }

    /// Whether the next data-sector write can be made (see `can_program`).
    pub fn can_program_next(&self) -> (r: bool)
        ensures
            r == self.can_program(),
    {
        self.write_offset <= 0xF7FB_FDEF && 4 <= self.firmware_size && self.firmware_size
            <= 0xF7FB_FFF3
    }

    /// A receiver with no file.
    pub fn new() -> (r: Self)
        ensures
            r.size() == 0,
            !r.ready(),
            r.written() == 0,
    {
        Self { firmware_size: 0, firmware_ready: false, write_offset: 0 }
    }

    /// Forget the file being received.
    pub fn reset(&mut self)
        ensures
            final(self).size() == 0,
            !final(self).ready(),
            final(self).written() == 0,
    {
        self.firmware_size = 0;
        self.firmware_ready = false;
        self.write_offset = 0;
    }

    /// Fill `buf` for a SCSI READ of sector `lba` of the virtual disk.
    pub fn read_sector(&self, lba: u32, buf: &mut [u8; 512]) -> (r: SectorSource)
        requires
            lba == 1 ==> self.size() <= MAX_FILE_SIZE,
        ensures
            lba == 0 ==> r == SectorSource::Ready && final(buf)@ == boot_sector(),
            lba == 1 ==> r == SectorSource::Ready && (forall|j: int|
                0 <= j < FAT_ENTRIES ==> fat12_entry(final(buf)@, j) == fat_expected(
                    self.size() as int,
                    j,
                )) && final(buf)@[511] / 16 == 0,
            lba == 2 ==> r == SectorSource::Ready && forall|i: int|
                0 <= i < 512 ==> final(buf)[i] == root_dir_byte(self.size(), i),
            3 <= lba < TOTAL_SECTORS ==> ({
                let offset = (lba - 3) * 512;
                if offset < self.size() {
                    let len = if self.size() - offset < 512 {
                        self.size() - offset
                    } else {
                        512
                    };
                    &&& r == SectorSource::Flash {
                        addr: (OTA_TEMP_ADDR + OTA_IMAGE_HEADER_SIZE + offset) as u32,
                        len: len as usize,
                    }
                    &&& forall|i: int| len <= i < 512 ==> final(buf)[i] == 0
                } else {
                    r == SectorSource::Ready && forall|i: int| 0 <= i < 512 ==> final(buf)[i] == 0
                }
            }),
            lba >= TOTAL_SECTORS ==> r == SectorSource::Ready && forall|i: int|
                0 <= i < 512 ==> final(buf)[i] == 0,
    {
        if lba == 0 {
            make_boot_sector(buf);
            SectorSource::Ready
        } else if lba == 1 {
            make_fat(buf, self.firmware_size);
            SectorSource::Ready
        } else if lba == 2 {
            make_root_dir(buf, self.firmware_size);
            SectorSource::Ready
        } else if lba < TOTAL_SECTORS {
            let flash_offset = (lba - DATA_START_SECTOR) * 512;
            if flash_offset < self.firmware_size {
                let addr = OTA_TEMP_ADDR + OTA_IMAGE_HEADER_SIZE + flash_offset;
                let len: usize = if self.firmware_size - flash_offset < 512 {
                    (self.firmware_size - flash_offset) as usize
                } else {
                    512
                };
                let mut i: usize = len;
                while i < 512
                    invariant
                        len <= i <= 512,
                        forall|k: int| len <= k < i ==> buf[k] == 0,
                    decreases 512 - i,
                {
                    buf[i] = 0;
                    i = i + 1;
                }
                SectorSource::Flash { addr, len }
            } else {
                zero_fill(buf);
                SectorSource::Ready
            }
        } else {
            zero_fill(buf);
            SectorSource::Ready
        }
    }

    /// Handle a SCSI WRITE of sector `lba`; returns what the flash must do.
    ///
    /// LBA 2: a directory entry `FIRMWARE.BIN` larger than the image header plus its
    /// CRC32 starts a new file. LBA 3 and up: while a file is being received, each
    /// sector is programmed at the next position; once the written bytes reach the
    /// file size the file is complete.
    pub fn write_sector(&mut self, lba: u32, data: &[u8; 512]) -> (r: WriteAction)
        requires
            3 <= lba < TOTAL_SECTORS && old(self).size() > 0 ==> old(self).can_program(),
        ensures
            lba == 2 && data@.subrange(32, 43) == firmware_name() && le32(
                data[60],
                data[61],
                data[62],
                data[63],
            ) > 20 ==> {
                &&& r == WriteAction::StartImage
                &&& final(self).size() == le32(data[60], data[61], data[62], data[63])
                &&& final(self).written() == 0
                &&& !final(self).ready()
            },
            (lba == 2 && !(data@.subrange(32, 43) == firmware_name() && le32(
                data[60],
                data[61],
                data[62],
                data[63],
            ) > 20)) || lba < 2 || lba >= TOTAL_SECTORS || (3 <= lba < TOTAL_SECTORS
                && old(self).size() == 0) ==> r == WriteAction::Ignore && *final(self)
                == *old(self),
            3 <= lba < TOTAL_SECTORS && old(self).size() > 0 ==> {
                let addr = (OTA_TEMP_ADDR + OTA_IMAGE_HEADER_SIZE + old(self).written()) as u32;
                let written = old(self).written() + 512;
                &&& final(self).written() == written
                &&& final(self).size() == old(self).size()
                &&& if written >= old(self).size() {
                    let image_size = (old(self).size() - 4) as u32;
                    &&& r == WriteAction::ProgramLast {
                        addr,
                        crc_addr: (OTA_TEMP_ADDR + OTA_IMAGE_HEADER_SIZE + image_size) as u32,
                        image_size,
                    }
                    &&& final(self).ready()
                } else {
                    &&& r == WriteAction::Program { addr }
                    &&& final(self).ready() == old(self).ready()
                }
            },
    {
        if lba == 2 {
            let mut is_firmware = true;
            let mut i: usize = 0;
            let name: [u8; 11] = [0x46, 0x49, 0x52, 0x4D, 0x57, 0x41, 0x52, 0x45, 0x42, 0x49, 0x4E];
            while i < 11
                invariant
                    i <= 11,
                    name@ == firmware_name(),
                    is_firmware == (forall|k: int| 0 <= k < i ==> data[32 + k] == name@[k]),
                decreases 11 - i,
            {
                if data[32 + i] != name[i] {
                    is_firmware = false;
                }
                i = i + 1;
            }
            assert(is_firmware == (data@.subrange(32, 43) == firmware_name())) by {
                if is_firmware {
                    assert(data@.subrange(32, 43) =~= firmware_name());
                } else {
                    if data@.subrange(32, 43) == firmware_name() {
                        assert(forall|k: int| 0 <= k < 11 ==> data[32 + k] == data@.subrange(
                            32,
                            43,
                        )[k]);
                    }
                }
            }
            if is_firmware {
                let file_size = u32_from_le(data[60], data[61], data[62], data[63]);
                if file_size > OTA_IMAGE_HEADER_SIZE + 4 {
                    self.firmware_size = file_size;
                    self.write_offset = 0;
                    self.firmware_ready = false;
                    return WriteAction::StartImage;
                }
            }
            WriteAction::Ignore
        } else if 3 <= lba && lba < TOTAL_SECTORS {
            if self.firmware_size > 0 {
                let addr = OTA_TEMP_ADDR + OTA_IMAGE_HEADER_SIZE + self.write_offset;
                self.write_offset = self.write_offset + 512;
                if self.write_offset >= self.firmware_size {
                    let image_size = self.firmware_size - 4;
                    let crc_addr = OTA_TEMP_ADDR + OTA_IMAGE_HEADER_SIZE + image_size;
                    self.firmware_ready = true;
                    WriteAction::ProgramLast { addr, crc_addr, image_size }
                } else {
                    WriteAction::Program { addr }
                }
            } else {
                WriteAction::Ignore
            }
        } else {
            WriteAction::Ignore
        }
    }
}

/// The FAT of a firmware file is a single chain: starting at cluster 2, each entry
/// names the next cluster until the file's last cluster, which holds end-of-chain,
/// so the chain visits exactly the file's clusters in order.
pub proof fn lemma_fat_chain(size: int, j: int)
    requires
        1 <= size <= MAX_FILE_SIZE,
        2 <= j < 2 + clusters_of(size),
    ensures
        j < 1 + clusters_of(size) ==> fat_expected(size, j) == j + 1,
        j == 1 + clusters_of(size) ==> fat_expected(size, j) == 0xFFF,
        clusters_of(size) * 512 >= size,
        (clusters_of(size) - 1) * 512 < size,
{
}

} // verus!
