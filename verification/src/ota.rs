//! Firmware-update images, their CRC32, and the user-data sector layout.
//!
//! Flash layout:
//!   0x0800_0000 - 0x0800_3FFF: Bootloader (16KB, Sector 0)
//!   0x0800_4000 - 0x0803_FFFF: App Firmware (240KB, Sectors 1-5)
//!   0x0804_0000 - 0x0805_FFFF: OTA Temp (128KB, Sector 6)
//!   0x0806_0000 - 0x0807_FFFF: User Data (128KB, Sector 7)
//!
//! User-data sector: OTA flag in the first 4 bytes, configuration block at offset 16
//! (`"CONF"` magic, version, XOR checksum, reserved, then the configuration bytes).
use vstd::prelude::*;
use crate::bytes::{le32, u32_from_le, u32_to_le};

verus! {

/// OTA image header magic "OTAI"
pub const OTA_IMAGE_MAGIC: u32 = 0x4F54_4149;
/// OTA image header format version
pub const OTA_IMAGE_FORMAT_VERSION: u8 = 1;
/// Target MCU id: STM32F411
pub const OTA_TARGET_MCU_F411: u8 = 0x41;
/// OTA image header size
pub const OTA_IMAGE_HEADER_SIZE: u32 = 16;
/// OTA flag address (start of the user-data sector)
pub const OTA_FLAG_ADDR: u32 = 0x0806_0000;
/// App firmware start address
pub const APP_START_ADDR: u32 = 0x0800_4000;
/// OTA Temp area start address
pub const OTA_TEMP_ADDR: u32 = 0x0804_0000;
/// App firmware maximum size (240KB, Sectors 1-5)
pub const APP_MAX_SIZE: u32 = 245760;
/// OTA Temp maximum size (128KB, Sector 6)
pub const OTA_TEMP_MAX_SIZE: u32 = 131072;
/// Sector numbers
pub const SECTOR_BOOTLOADER: u8 = 0;
pub const SECTOR_APP_START: u8 = 1;
pub const SECTOR_APP_END: u8 = 5;
pub const SECTOR_OTA_START: u8 = 6;
pub const SECTOR_OTA_END: u8 = 6;
pub const SECTOR_USER_DATA: u8 = 7;
/// Configuration block magic "CONF"
pub const CONFIG_MAGIC: u32 = 0x434F_4E46;
/// Configuration block version
pub const CONFIG_VERSION: u8 = 0x01;
/// Configuration payload size
pub const CONFIG_PAYLOAD_SIZE: usize = 24;

/// Flash error
#[derive(Debug, Clone, Copy, PartialEq, Eq, Structural)]
pub enum FlashError {
    /// Erase failed
    EraseError,
    /// Programming failed
    ProgramError,
    /// Address not aligned
    NotAligned,
    /// Address out of range
    OutOfRange,
    /// Busy
    Busy,
}

/// OTA flag stored at the start of the user-data sector
#[derive(Debug, Clone, Copy, PartialEq, Eq, Structural)]
pub enum OtaFlag {
    /// No update
    NoUpdate,
    /// Update pending (copy OTA Temp to App)
    Pending,
    /// Update done
    Done,
}

impl OtaFlag {
    /// The stored word of this flag.
    pub open spec fn word(self) -> u32 {
        match self {
            OtaFlag::NoUpdate => 0x0000_0000,
            OtaFlag::Pending => 0x5441_4F54,
            OtaFlag::Done => 0x444F_4E45,
        }
    }

    /// The stored word of this flag: 0, "TOAT" or "ENOD" read little-endian.
    pub fn as_u32(self) -> (r: u32)
        ensures
            r == self.word(),
    {
        match self {
            OtaFlag::NoUpdate => 0x0000_0000,
            OtaFlag::Pending => 0x5441_4F54,
            OtaFlag::Done => 0x444F_4E45,
        }
    }
}

/// Decode the OTA flag word; any word but the two markers reads as `NoUpdate`.
pub fn read_ota_flag(word: u32) -> (r: OtaFlag)
    ensures
        word == 0x5441_4F54 ==> r == OtaFlag::Pending,
        word == 0x444F_4E45 ==> r == OtaFlag::Done,
        word != 0x5441_4F54 && word != 0x444F_4E45 ==> r == OtaFlag::NoUpdate,
{
    if word == 0x5441_4F54 {
        OtaFlag::Pending
    } else if word == 0x444F_4E45 {
        OtaFlag::Done
    } else {
        OtaFlag::NoUpdate
    }
}

/// OTA image header (at the start of the OTA Temp area), 16 bytes, little-endian:
///   [0..4] magic, [4] format_version, [5] target_mcu, [6..8] reserved,
///   [8..12] image_size (without header), [12..16] image_crc32
#[derive(Debug, Clone, Copy, PartialEq, Eq, Structural)]
pub struct OtaImageHeader {
    pub magic: u32,
    pub format_version: u8,
    pub target_mcu: u8,
    pub _reserved: u16,
    pub image_size: u32,
    pub image_crc32: u32,
}

impl OtaImageHeader {
    /// Parse a header from its first 16 bytes; `None` when fewer are given.
    pub fn from_bytes(data: &[u8]) -> (r: Option<Self>)
        ensures
            data@.len() < 16 <==> r is None,
            r matches Some(h) ==> {
                &&& h.magic == le32(data@[0], data@[1], data@[2], data@[3])
                &&& h.format_version == data@[4]
                &&& h.target_mcu == data@[5]
                &&& h._reserved == data@[6] + 256 * data@[7]
                &&& h.image_size == le32(data@[8], data@[9], data@[10], data@[11])
                &&& h.image_crc32 == le32(data@[12], data@[13], data@[14], data@[15])
            },
    {
        if data.len() < 16 {
            return None;
        }
        Some(
            Self {
                magic: u32_from_le(data[0], data[1], data[2], data[3]),
                format_version: data[4],
                target_mcu: data[5],
                _reserved: (data[6] as u16) + (data[7] as u16) * 256,
                image_size: u32_from_le(data[8], data[9], data[10], data[11]),
                image_crc32: u32_from_le(data[12], data[13], data[14], data[15]),
            },
        )
    }
}

/// The 16 header bytes of an image of `image_size` bytes with CRC32 `image_crc32`.
pub fn ota_header_bytes(image_size: u32, image_crc32: u32) -> (r: [u8; 16])
    ensures
        le32(r[0], r[1], r[2], r[3]) == OTA_IMAGE_MAGIC,
        r[4] == OTA_IMAGE_FORMAT_VERSION,
        r[5] == OTA_TARGET_MCU_F411,
        r[6] == 0,
        r[7] == 0,
        le32(r[8], r[9], r[10], r[11]) == image_size,
        le32(r[12], r[13], r[14], r[15]) == image_crc32,
{
    let m = u32_to_le(OTA_IMAGE_MAGIC);
    let s = u32_to_le(image_size);
    let c = u32_to_le(image_crc32);
    [
        m[0],
        m[1],
        m[2],
        m[3],
        OTA_IMAGE_FORMAT_VERSION,
        OTA_TARGET_MCU_F411,
        0,
        0,
        s[0],
        s[1],
        s[2],
        s[3],
        c[0],
        c[1],
        c[2],
        c[3],
    ]
}

/// OTA image validation error
#[derive(Debug, Clone, Copy, PartialEq, Eq, Structural)]
pub enum OtaValidationError {
    /// Header could not be read
    ReadError,
    /// Magic mismatch
    InvalidMagic,
    /// Unsupported format version
    UnsupportedVersion,
    /// Wrong target MCU
    WrongTargetMcu,
    /// Image larger than the app area
    ImageTooLarge,
    /// CRC32 check failed
    CrcMismatch,
}

/// One bit step of the reflected CRC-32 (IEEE 802.3 / zlib polynomial 0xEDB88320).
pub open spec fn crc32_shift(crc: u32) -> u32 {
    if crc & 1 != 0 {
        (crc >> 1u32) ^ 0xEDB8_8320u32
    } else {
        crc >> 1u32
    }
}

/// `k` bit steps of CRC-32.
pub open spec fn crc32_shifts(crc: u32, k: nat) -> u32
    decreases k,
{
    if k == 0 {
        crc
    } else {
        crc32_shifts(crc32_shift(crc), (k - 1) as nat)
    }
}

/// The CRC-32 register after taking in one more byte.
pub open spec fn crc32_byte(crc: u32, b: u8) -> u32 {
    crc32_shifts(crc ^ (b as u32), 8)
}

/// The CRC-32 register after taking in `s`, starting from `crc`.
pub open spec fn crc32_update(crc: u32, s: Seq<u8>) -> u32
    decreases s.len(),
{
    if s.len() == 0 {
        crc
    } else {
        crc32_byte(crc32_update(crc, s.drop_last()), s.last())
    }
}

/// CRC-32 (IEEE 802.3 / zlib) of `s`: register starts at 0xFFFFFFFF, result inverted.
pub open spec fn crc32_of(s: Seq<u8>) -> u32 {
    !crc32_update(0xFFFF_FFFF, s)
}

/// Feed `data` into a CRC-32 register.
fn crc32_feed(crc: u32, data: &[u8]) -> (r: u32)
    ensures
        r == crc32_update(crc, data@),
{
    let mut c = crc;
    let mut i: usize = 0;
    while i < data.len()
        invariant
            i <= data@.len(),
            c == crc32_update(crc, data@.take(i as int)),
        decreases data@.len() - i,
    {
        let ghost before = c;
        c = c ^ (data[i] as u32);
        let mut k: usize = 0;
        while k < 8
            invariant
                k <= 8,
                crc32_shifts(c, (8 - k) as nat) == crc32_byte(before, data@[i as int]),
            decreases 8 - k,
        {
            if c & 1 != 0 {
                c = (c >> 1u32) ^ 0xEDB8_8320u32;
            } else {
                c = c >> 1u32;
            }
            k = k + 1;
        }
        assert(data@.take(i + 1).drop_last() =~= data@.take(i as int));
        i = i + 1;
    }
    assert(data@.take(data@.len() as int) =~= data@);
    c
}

/// Compute CRC32 (IEEE 802.3 / zlib).
pub fn crc32(data: &[u8]) -> (r: u32)
    ensures
        r == crc32_of(data@),
{
    !crc32_feed(0xFFFF_FFFF, data)
}

/// CRC-32 computed over data that arrives in pieces.
pub struct Crc32 {
    crc: u32,
}

impl Crc32 {
    /// The register after the bytes fed so far.
    pub closed spec fn register(&self) -> u32 {
        self.crc
    }

    /// A computation over no bytes yet.
    pub fn new() -> (r: Self)
        ensures
            r.register() == 0xFFFF_FFFF,
    {
        Self { crc: 0xFFFF_FFFF }
    }

    /// Take in the next piece.
    pub fn update(&mut self, data: &[u8])
        ensures
            final(self).register() == crc32_update(old(self).register(), data@),
    {
        self.crc = crc32_feed(self.crc, data);
    }

    /// The CRC-32 of everything fed so far.
    pub fn finish(&self) -> (r: u32)
        ensures
            r == !self.register(),
    {
        !self.crc
    }
}

/// Feeding two pieces one after the other gives the register of feeding them joined.
pub proof fn lemma_crc32_update_concat(crc: u32, a: Seq<u8>, b: Seq<u8>)
    ensures
        crc32_update(crc32_update(crc, a), b) == crc32_update(crc, a + b),
    decreases b.len(),
{
    if b.len() == 0 {
        assert(a + b =~= a);
    } else {
        lemma_crc32_update_concat(crc, a, b.drop_last());
        assert((a + b).drop_last() =~= a + b.drop_last());
    }
}

/// Whether a firmware image carries its own CRC32: at least 8 bytes, the last 4 being
/// the little-endian CRC32 of the ones before.
pub open spec fn firmware_crc_ok(image: Seq<u8>) -> bool {
    image.len() >= 8 && crc32_of(image.take(image.len() - 4)) == le32(
        image[image.len() - 4],
        image[image.len() - 3],
        image[image.len() - 2],
        image[image.len() - 1],
    )
}

/// Verify a firmware image whose last 4 bytes store the CRC32 of the rest.
pub fn verify_firmware_crc(image: &[u8]) -> (r: bool)
    ensures
        r == firmware_crc_ok(image@),
{
    if image.len() < 8 {
        return false;
    }
    let data_size = image.len() - 4;
    let computed = crc32(&image[0..data_size]);
    assert(image@.subrange(0, data_size as int) =~= image@.take(data_size as int));
    let stored = u32_from_le(
        image[data_size],
        image[data_size + 1],
        image[data_size + 2],
        image[data_size + 3],
    );
    computed == stored
}

/// The header checks of an OTA image, in order: magic, format version, target MCU, size.
pub open spec fn header_check(h: OtaImageHeader) -> Result<(), OtaValidationError> {
    if h.magic != OTA_IMAGE_MAGIC {
        Err(OtaValidationError::InvalidMagic)
    } else if h.format_version != OTA_IMAGE_FORMAT_VERSION {
        Err(OtaValidationError::UnsupportedVersion)
    } else if h.target_mcu != OTA_TARGET_MCU_F411 {
        Err(OtaValidationError::WrongTargetMcu)
    } else if h.image_size > APP_MAX_SIZE {
        Err(OtaValidationError::ImageTooLarge)
    } else {
        Ok(())
    }
}

/// The words a flash program operation writes: word `i` goes to `addr + 4 i` and
/// holds bytes `4 i .. 4 i + 4` of `data`, little-endian.
pub open spec fn program_words(addr: u32, data: Seq<u8>) -> Seq<(u32, u32)> {
    Seq::new(
        (data.len() / 4) as nat,
        |i: int|
            (
                (addr + 4 * i) as u32,
                le32(data[4 * i], data[4 * i + 1], data[4 * i + 2], data[4 * i + 3]) as u32,
            ),
    )
}

/// The word writes that program `data` at `addr`: both must be 4-byte aligned
/// (address and length), else `NotAligned` and nothing is written.
pub fn program_flash(addr: u32, data: &[u8]) -> (r: Result<Vec<(u32, u32)>, FlashError>)
    requires
        addr % 4 == 0 && data@.len() % 4 == 0 && data@.len() > 0 ==> addr + data@.len() - 4
            <= u32::MAX,
    ensures
        r is Err <==> (addr % 4 != 0 || data@.len() % 4 != 0),
        r matches Err(e) ==> e == FlashError::NotAligned,
        r matches Ok(w) ==> w@ == program_words(addr, data@),
{
    if addr % 4 != 0 {
        return Err(FlashError::NotAligned);
    }
    if data.len() % 4 != 0 {
        return Err(FlashError::NotAligned);
    }
    let words = data.len() / 4;
    let mut out: Vec<(u32, u32)> = Vec::new();
    let mut i: usize = 0;
    while i < words
        invariant
            words == data@.len() / 4,
            data@.len() % 4 == 0,
            data@.len() > 0 ==> addr + data@.len() - 4 <= u32::MAX,
            i <= words,
            out@ == program_words(addr, data@).take(i as int),
        decreases words - i,
    {
        let offset = 4 * i;
        let word = u32_from_le(data[offset], data[offset + 1], data[offset + 2], data[offset + 3]);
        out.push(((addr as usize + offset) as u32, word));
        assert(out@ =~= program_words(addr, data@).take(i + 1));
        i = i + 1;
    }
    assert(out@ =~= program_words(addr, data@));
    Ok(out)
}

/// The first address and the size of each flash sector of the STM32F411:
/// four of 16KB, one of 64KB, three of 128KB.
pub open spec fn sector_span(sector: u8) -> (int, int) {
    match sector {
        0u8 => (0x0800_0000, 0x4000),
        1u8 => (0x0800_4000, 0x4000),
        2u8 => (0x0800_8000, 0x4000),
        3u8 => (0x0800_C000, 0x4000),
        4u8 => (0x0801_0000, 0x1_0000),
        5u8 => (0x0802_0000, 0x2_0000),
        6u8 => (0x0804_0000, 0x2_0000),
        _ => (0x0806_0000, 0x2_0000),
    }
}

/// Check a sector number before an erase: sectors 0 to 7 exist and give their
/// first address; any other is `OutOfRange`.
pub fn erase_sector_start(sector: u8) -> (r: Result<u32, FlashError>)
    ensures
        r is Err <==> sector > 7,
        r matches Err(e) ==> e == FlashError::OutOfRange,
        r matches Ok(a) ==> a == sector_span(sector).0,
{
    match sector {
        0 => Ok(0x0800_0000),
        1 => Ok(0x0800_4000),
        2 => Ok(0x0800_8000),
        3 => Ok(0x0800_C000),
        4 => Ok(0x0801_0000),
        5 => Ok(0x0802_0000),
        6 => Ok(0x0804_0000),
        7 => Ok(0x0806_0000),
        _ => Err(FlashError::OutOfRange),
    }
}

/// The sectors erased to clear the OTA Temp area: sector 6 alone, which spans
/// exactly the OTA Temp area (128KB at 0x0804_0000).
pub fn ota_temp_sectors() -> (r: Vec<u8>)
    ensures
        r@ == seq![SECTOR_OTA_START],
        forall|i: int|
            0 <= i < r@.len() ==> sector_span(r@[i]) == (OTA_TEMP_ADDR as int, OTA_TEMP_MAX_SIZE as int),
{
    let mut r: Vec<u8> = Vec::new();
    r.push(SECTOR_OTA_START);
    r
}

/// Erasing the OTA Temp area touches neither the bootloader and App sectors
/// (0 to 5, which hold the whole App area) nor the user-data sector: the sectors
/// do not overlap, and the App area lies within sectors 1 to 5.
pub proof fn lemma_ota_temp_erase_spares_app(s: u8)
    requires
        s <= 7,
        s != SECTOR_OTA_START,
    ensures
        sector_span(s).0 + sector_span(s).1 <= OTA_TEMP_ADDR || sector_span(s).0 >= OTA_TEMP_ADDR
            + OTA_TEMP_MAX_SIZE,
        sector_span(SECTOR_APP_START).0 == APP_START_ADDR,
        sector_span(SECTOR_APP_END).0 + sector_span(SECTOR_APP_END).1 == APP_START_ADDR
            + APP_MAX_SIZE,
{
}

/// An OTA image header is accepted exactly when its magic is "OTAI"
/// (0x4F54_4149), its format version is 1, its target MCU is the STM32F411 (0x41)
/// and its image fits the 240KB App area; otherwise the first failing check, in
/// that order, names the error.
pub proof fn lemma_header_check_law(h: OtaImageHeader)
    ensures
        header_check(h) is Ok <==> (h.magic == 0x4F54_4149 && h.format_version == 1
            && h.target_mcu == 0x41 && h.image_size <= 245760),
        h.magic != 0x4F54_4149 ==> header_check(h) == Err::<(), OtaValidationError>(
            OtaValidationError::InvalidMagic,
        ),
        h.magic == 0x4F54_4149 && h.format_version != 1 ==> header_check(h) == Err::<
            (),
            OtaValidationError,
        >(OtaValidationError::UnsupportedVersion),
        h.magic == 0x4F54_4149 && h.format_version == 1 && h.target_mcu != 0x41
            ==> header_check(h) == Err::<(), OtaValidationError>(
            OtaValidationError::WrongTargetMcu,
        ),
        h.magic == 0x4F54_4149 && h.format_version == 1 && h.target_mcu == 0x41 && h.image_size
            > 245760 ==> header_check(h) == Err::<(), OtaValidationError>(
            OtaValidationError::ImageTooLarge,
        ),
{
}

/// Check an OTA image header: magic, format version, target MCU and size.
pub fn validate_ota_header(h: &OtaImageHeader) -> (r: Result<(), OtaValidationError>)
    ensures
        r == header_check(*h),
{
    if h.magic != OTA_IMAGE_MAGIC {
        return Err(OtaValidationError::InvalidMagic);
    }
    if h.format_version != OTA_IMAGE_FORMAT_VERSION {
        return Err(OtaValidationError::UnsupportedVersion);
    }
    if h.target_mcu != OTA_TARGET_MCU_F411 {
        return Err(OtaValidationError::WrongTargetMcu);
    }
    if h.image_size > APP_MAX_SIZE {
        return Err(OtaValidationError::ImageTooLarge);
    }
    Ok(())
}

/// Validate an OTA image from the bytes of the OTA Temp area: `header_buf` holds the
/// bytes at its start, `image` the bytes that follow the 16-byte header.
///
/// 1. parse the header, 2. magic, 3. format version, 4. target MCU, 5. size,
/// 6. the image CRC32: the CRC32 of the first `image_size` bytes of `image` must
/// equal the header's `image_crc32`. Fewer than 16 header bytes, or fewer than
/// `image_size` image bytes, is a `ReadError`.
pub fn validate_ota_image(header_buf: &[u8], image: &[u8]) -> (r: Result<
    OtaImageHeader,
    OtaValidationError,
>)
    ensures
        header_buf@.len() < 16 ==> r == Err::<OtaImageHeader, OtaValidationError>(
            OtaValidationError::ReadError,
        ),
        header_buf@.len() >= 16 ==> ({
            let h = OtaImageHeader {
                magic: le32(header_buf@[0], header_buf@[1], header_buf@[2], header_buf@[3]) as u32,
                format_version: header_buf@[4],
                target_mcu: header_buf@[5],
                _reserved: (header_buf@[6] + 256 * header_buf@[7]) as u16,
                image_size: le32(header_buf@[8], header_buf@[9], header_buf@[10], header_buf@[11])
                    as u32,
                image_crc32: le32(
                    header_buf@[12],
                    header_buf@[13],
                    header_buf@[14],
                    header_buf@[15],
                ) as u32,
            };
            match header_check(h) {
                Err(e) => r == Err::<OtaImageHeader, OtaValidationError>(e),
                Ok(_) => if image@.len() < h.image_size {
                    r == Err::<OtaImageHeader, OtaValidationError>(OtaValidationError::ReadError)
                } else if crc32_of(image@.take(h.image_size as int)) == h.image_crc32 {
                    r == Ok::<OtaImageHeader, OtaValidationError>(h)
                } else {
                    r == Err::<OtaImageHeader, OtaValidationError>(
                        OtaValidationError::CrcMismatch,
                    )
                },
            }
        }),
{
    let header = match OtaImageHeader::from_bytes(header_buf) {
        Some(h) => h,
        None => {
            return Err(OtaValidationError::ReadError);
        },
    };
    match validate_ota_header(&header) {
        Err(e) => {
            return Err(e);
        },
        Ok(()) => {},
    }
    if image.len() < header.image_size as usize {
        return Err(OtaValidationError::ReadError);
    }
    let data_size = header.image_size as usize;
    let computed = crc32(&image[0..data_size]);
    assert(image@.subrange(0, data_size as int) =~= image@.take(data_size as int));
    if computed != header.image_crc32 {
        return Err(OtaValidationError::CrcMismatch);
    }
    Ok(header)
}

/// XOR of all bytes of `s`.
pub open spec fn xor_all(s: Seq<u8>) -> u8
    decreases s.len(),
{
    if s.len() == 0 {
        0
    } else {
        xor_all(s.drop_last()) ^ s.last()
    }
}

/// Checksum of a configuration payload: XOR of its bytes.
pub fn calc_checksum(data: &[u8]) -> (r: u8)
    ensures
        r == xor_all(data@),
{
    let mut sum: u8 = 0;
    let mut i: usize = 0;
    while i < data.len()
        invariant
            i <= data@.len(),
            sum == xor_all(data@.take(i as int)),
        decreases data@.len() - i,
    {
        sum = sum ^ data[i];
        assert(data@.take(i + 1).drop_last() =~= data@.take(i as int));
        i = i + 1;
    }
    assert(data@.take(data@.len() as int) =~= data@);
    sum
}

/// The first 48 bytes of the user-data sector after storing `flag` and, when given,
/// a configuration payload; `current` holds the bytes there now.
///
/// Bytes 0..4 get the flag word; with a configuration, bytes 16..24 get the header
/// (magic, version, checksum of the whole payload, reserved 0) and bytes 24.. get the
/// payload, cut to the 24 bytes that fit. All other bytes keep their value.
pub fn metadata_block(current: &[u8; 48], ota_flag: OtaFlag, config: Option<&[u8]>) -> (r: [u8; 48])
    ensures
        le32(r[0], r[1], r[2], r[3]) == ota_flag.word(),
        forall|i: int| 4 <= i < 16 ==> r[i] == current[i],
        config is None ==> forall|i: int| 16 <= i < 48 ==> r[i] == current[i],
        config matches Some(c) ==> {
            &&& le32(r[16], r[17], r[18], r[19]) == CONFIG_MAGIC
            &&& r[20] == CONFIG_VERSION
            &&& r[21] == xor_all(c@)
            &&& r[22] == 0 && r[23] == 0
            &&& forall|i: int| 0 <= i < 24 ==> r[24 + i] == if i < c@.len() {
                c@[i]
            } else {
                current[24 + i]
            }
        },
{
    let mut block = *current;
    let flag = u32_to_le(ota_flag.as_u32());
    block[0] = flag[0];
    block[1] = flag[1];
    block[2] = flag[2];
    block[3] = flag[3];
    match config {
        Some(cfg) => {
            let checksum = calc_checksum(cfg);
            let magic = u32_to_le(CONFIG_MAGIC);
            block[16] = magic[0];
            block[17] = magic[1];
            block[18] = magic[2];
            block[19] = magic[3];
            block[20] = CONFIG_VERSION;
            block[21] = checksum;
            block[22] = 0;
            block[23] = 0;
            let copy_len = if cfg.len() < 24 {
                cfg.len()
            } else {
                24
            };
            let mut i: usize = 0;
            while i < copy_len
                invariant
                    copy_len <= 24,
                    copy_len <= cfg@.len(),
                    i <= copy_len,
                    le32(block[0], block[1], block[2], block[3]) == ota_flag.word(),
                    forall|k: int| 4 <= k < 16 ==> block[k] == current[k],
                    le32(block[16], block[17], block[18], block[19]) == CONFIG_MAGIC,
                    block[20] == CONFIG_VERSION,
                    block[21] == xor_all(cfg@),
                    block[22] == 0 && block[23] == 0,
                    forall|k: int| 0 <= k < i ==> #[trigger] block[24 + k] == cfg@[k],
                    forall|k: int| i <= k < 24 ==> #[trigger] block[24 + k] == current[24 + k],
                decreases copy_len - i,
            {
                block[24 + i] = cfg[i];
                i = i + 1;
            }
        },
        None => {},
    }
    block
}

/// Read a configuration payload back from the 8 header bytes and 24 payload bytes
/// stored at the configuration block: the payload when the magic, version and
/// checksum all match, `None` otherwise.
pub fn load_config(header: &[u8; 8], payload: &[u8; 24]) -> (r: Option<[u8; 24]>)
    ensures
        r is Some <==> (le32(header[0], header[1], header[2], header[3]) == CONFIG_MAGIC
            && header[4] == CONFIG_VERSION && header[5] == xor_all(payload@)),
        r matches Some(p) ==> p == *payload,
{
    let magic = u32_from_le(header[0], header[1], header[2], header[3]);
    if magic != CONFIG_MAGIC || header[4] != CONFIG_VERSION {
        return None;
    }
    if calc_checksum(payload) != header[5] {
        return None;
    }
    Some(*payload)
}

/// Storing a configuration block and loading it back gives the payload that was
/// stored, for a payload of exactly the 24 bytes that fit.
pub proof fn lemma_config_store_load(block: [u8; 48], c: Seq<u8>)
    requires
        c.len() == 24,
        le32(block[16], block[17], block[18], block[19]) == CONFIG_MAGIC,
        block[20] == CONFIG_VERSION,
        block[21] == xor_all(c),
        forall|i: int| 0 <= i < 24 ==> block[24 + i] == c[i],
    ensures
        block@.subrange(24, 48) == c,
        xor_all(block@.subrange(24, 48)) == block[21],
{
    assert(block@.subrange(24, 48) =~= c);
}

} // verus!
