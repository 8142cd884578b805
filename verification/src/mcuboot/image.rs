//! Reading the version and the identity hash out of an MCUboot image.
//!
//! An image starts with a 32-byte header. Behind the header, the protected
//! TLV area and the image body stands the TLV area: a four-byte info block
//! (magic, total size) followed by entries of type, padding, length and value.

use vstd::prelude::*;
use vstd::string::StringExecFns;
use crate::text::{decimal, push_decimal};

verus! {

/// The magic number that opens an MCUboot image.
pub const IMAGE_MAGIC: u32 = 0x96f3b83d;

/// The magic number that opens the TLV area.
pub const IMAGE_TLV_INFO_MAGIC: u16 = 0x6907;

/// The TLV type of the SHA-256 identity hash.
pub const IMAGE_TLV_SHA256: u8 = 0x10;

/// Length of a SHA-256 hash in bytes.
pub const SHA256_LEN: usize = 32;

/// Length of the image header in bytes.
pub const IMAGE_HEADER_SIZE: u64 = 32;

/// Length of the TLV info block in bytes.
pub const TLV_INFO_HEADER_SIZE: u32 = 4;

/// Length of the header of one TLV entry in bytes.
pub const TLV_ELEMENT_HEADER_SIZE: u32 = 4;

/// The firmware version.
#[derive(Debug, Clone, Copy, PartialEq, Eq, Structural)]
pub struct ImageVersion {
    /// Major version
    pub major: u8,
    /// Minor version
    pub minor: u8,
    /// Revision
    pub revision: u16,
    /// Build number
    pub build_num: u32,
}

impl ImageVersion {
    /// `major.minor.revision`, followed by `.build_num` unless that is zero.
    pub open spec fn text(self) -> Seq<char> {
        let base = decimal(self.major as nat) + seq!['.'] + decimal(self.minor as nat) + seq!['.']
            + decimal(self.revision as nat);
        if self.build_num != 0 {
            base + seq!['.'] + decimal(self.build_num as nat)
        } else {
            base
        }
    }

    /// The version as text.
    pub fn to_string(&self) -> (s: String)
        ensures
            s@ == self.text(),
    {
        proof {
            reveal_strlit(".");
        }
        let mut s = String::new();
        push_decimal(&mut s, self.major as u64);
        s.append(".");
        push_decimal(&mut s, self.minor as u64);
        s.append(".");
        push_decimal(&mut s, self.revision as u64);
        if self.build_num != 0 {
            s.append(".");
            push_decimal(&mut s, self.build_num as u64);
        }
        assert(s@ =~= self.text());
        s
    }
}

/// Information about an MCUboot firmware image.
#[derive(Debug, Clone, Copy, PartialEq, Eq)]
pub struct ImageInfo {
    /// Firmware version
    pub version: ImageVersion,
    /// The identifying hash of the firmware.
    ///
    /// This is not the SHA-256 of the whole file: it is the entry of the TLV
    /// area that holds the hash over header and body, the one that the
    /// signature is made over.
    pub hash: [u8; 32],
}

/// Why an image could not be read.
#[derive(Debug, Clone, Copy, PartialEq, Eq, Structural)]
pub enum ImageParseError {
    /// The data does not start with the MCUboot magic number.
    UnknownImageType,
    /// The image has no TLV area where its header says it is.
    TlvMissing,
    /// The TLV area holds no SHA-256 identity hash.
    IdHashMissing,
    /// The data ends before a field that had to be read, or the TLV area
    /// does not end with its last entry.
    ReadFailed,
}

impl ImageParseError {
    /// The identifier of the error.
    pub fn code(&self) -> (s: &'static str)
        ensures
            s@ == match *self {
                ImageParseError::UnknownImageType => "zephyr_mcumgr::mcuboot::image::unknown_type"@,
                ImageParseError::TlvMissing => "zephyr_mcumgr::mcuboot::image::tlv_missing"@,
                ImageParseError::IdHashMissing => "zephyr_mcumgr::mcuboot::image::id_hash_missing"@,
                ImageParseError::ReadFailed => "zephyr_mcumgr::mcuboot::image::read"@,
            },
    {
        match self {
            ImageParseError::UnknownImageType => "zephyr_mcumgr::mcuboot::image::unknown_type",
            ImageParseError::TlvMissing => "zephyr_mcumgr::mcuboot::image::tlv_missing",
            ImageParseError::IdHashMissing => "zephyr_mcumgr::mcuboot::image::id_hash_missing",
            ImageParseError::ReadFailed => "zephyr_mcumgr::mcuboot::image::read",
        }
    }

    /// The error in words.
    pub fn message(&self) -> (s: &'static str)
        ensures
            s@ == match *self {
                ImageParseError::UnknownImageType => "Image is not an MCUboot image"@,
                ImageParseError::TlvMissing => "Image does not contain TLV entries"@,
                ImageParseError::IdHashMissing => "Image does not contain an SHA256 id hash"@,
                ImageParseError::ReadFailed => "Image read failed"@,
            },
    {
        match self {
            ImageParseError::UnknownImageType => "Image is not an MCUboot image",
            ImageParseError::TlvMissing => "Image does not contain TLV entries",
            ImageParseError::IdHashMissing => "Image does not contain an SHA256 id hash",
            ImageParseError::ReadFailed => "Image read failed",
        }
    }
}

/// The byte at `at`, as a number.
pub open spec fn byte_at(data: Seq<u8>, at: int) -> int {
    data[at] as int
}

/// The little-endian 16-bit number at `at`.
pub open spec fn le_u16_at(data: Seq<u8>, at: int) -> int {
    byte_at(data, at) + 256 * byte_at(data, at + 1)
}

/// The little-endian 32-bit number at `at`.
pub open spec fn le_u32_at(data: Seq<u8>, at: int) -> int {
    byte_at(data, at) + 256 * byte_at(data, at + 1) + 65536 * byte_at(data, at + 2) + 16777216
        * byte_at(data, at + 3)
}

/// The version field of the image header.
pub open spec fn header_version(data: Seq<u8>) -> ImageVersion {
    ImageVersion {
        major: data[20],
        minor: data[21],
        revision: le_u16_at(data, 22) as u16,
        build_num: le_u32_at(data, 24) as u32,
    }
}

/// Where the TLV info block stands: behind header, protected TLVs and body.
pub open spec fn tlv_info_offset(data: Seq<u8>) -> int {
    le_u16_at(data, 8) + le_u16_at(data, 10) + le_u32_at(data, 12)
}

/// How much of the declared size of the TLV area the walk has not yet passed.
pub open spec fn tlv_left(tlv_total: int, tlv_read: int) -> nat {
    if tlv_read < tlv_total {
        (tlv_total - tlv_read) as nat
    } else {
        0
    }
}

/// The walk over the TLV entries.
///
/// `pos` is where the next entry starts, `tlv_read` the bytes of entries
/// passed so far, `tlv_total` the size that the info block gives, `found` the
/// last identity hash seen. The walk goes on while the header of one more
/// entry fits into the declared size. An entry of the SHA-256 type with
/// length 32 is read; every other entry is stepped over, whether or not its
/// value lies inside the data.
///
/// Where the walk stops, the entries passed and the info block have to make
/// up the declared size exactly. Bytes that are left over behind the last
/// entry, and an entry that runs past the declared size, make the area
/// unreadable.
pub open spec fn walk_tlv_entries(
    data: Seq<u8>,
    pos: int,
    tlv_read: int,
    tlv_total: int,
    found: Option<Seq<u8>>,
) -> Result<Option<Seq<u8>>, ImageParseError>
    decreases tlv_left(tlv_total, tlv_read),
{
    if tlv_read < 0 || pos < 0 || tlv_read + 8 > tlv_total {
        if tlv_read + TLV_INFO_HEADER_SIZE == tlv_total {
            Ok(found)
        } else {
            Err(ImageParseError::ReadFailed)
        }
    } else if pos + 4 > data.len() {
        Err(ImageParseError::ReadFailed)
    } else {
        let entry_type = data[pos];
        let entry_len = le_u16_at(data, pos + 2);
        if entry_type == IMAGE_TLV_SHA256 && entry_len == 32 {
            if pos + 36 > data.len() {
                Err(ImageParseError::ReadFailed)
            } else {
                walk_tlv_entries(
                    data,
                    pos + 36,
                    tlv_read + 36,
                    tlv_total,
                    Some(data.subrange(pos + 4, pos + 36)),
                )
            }
        } else {
            walk_tlv_entries(data, pos + 4 + entry_len, tlv_read + 4 + entry_len, tlv_total, found)
        }
    }
}

/// What an image holds: its version and identity hash, or why it has none.
pub open spec fn image_info(data: Seq<u8>) -> Result<(ImageVersion, Seq<u8>), ImageParseError> {
    if data.len() < 4 {
        Err(ImageParseError::ReadFailed)
    } else if le_u32_at(data, 0) != IMAGE_MAGIC {
        Err(ImageParseError::UnknownImageType)
    } else if data.len() < 32 {
        Err(ImageParseError::ReadFailed)
    } else {
        let info = tlv_info_offset(data);
        if info + 2 > data.len() {
            Err(ImageParseError::ReadFailed)
        } else if le_u16_at(data, info) != IMAGE_TLV_INFO_MAGIC {
            Err(ImageParseError::TlvMissing)
        } else if info + 4 > data.len() {
            Err(ImageParseError::ReadFailed)
        } else {
            conclude_walk(
                header_version(data),
                walk_tlv_entries(data, info + 4, 0, le_u16_at(data, info + 2), None),
            )
        }
    }
}

/// The result of the whole parse, given the version and how the walk ended.
pub open spec fn conclude_walk(
    version: ImageVersion,
    walk: Result<Option<Seq<u8>>, ImageParseError>,
) -> Result<(ImageVersion, Seq<u8>), ImageParseError> {
    match walk {
        Ok(Some(hash)) => Ok((version, hash)),
        Ok(None) => Err(ImageParseError::IdHashMissing),
        Err(e) => Err(e),
    }
}

/// Reads one byte at `*pos` and steps over it.
pub fn read_u8(data: &[u8], pos: &mut u64) -> (r: Result<u8, ImageParseError>)
    requires
        *old(pos) < u64::MAX,
    ensures
        *old(pos) + 1 <= data@.len() ==> r == Ok::<u8, ImageParseError>(data@[*old(pos) as int])
            && *final(pos) == *old(pos) + 1,
        *old(pos) + 1 > data@.len() ==> r == Err::<u8, ImageParseError>(
            ImageParseError::ReadFailed,
        ) && *final(pos) == *old(pos),
{
    if *pos >= data.len() as u64 {
        return Err(ImageParseError::ReadFailed);
    }
    let b: u8 = data[*pos as usize];
    *pos = *pos + 1;
    Ok(b)
}

/// Reads a little-endian 16-bit number at `*pos` and steps over it.
pub fn read_u16(data: &[u8], pos: &mut u64) -> (r: Result<u16, ImageParseError>)
    requires
        *old(pos) + 2 <= u64::MAX,
    ensures
        *old(pos) + 2 <= data@.len() ==> r == Ok::<u16, ImageParseError>(
            le_u16_at(data@, *old(pos) as int) as u16,
        ) && *final(pos) == *old(pos) + 2,
        *old(pos) + 2 > data@.len() ==> r == Err::<u16, ImageParseError>(
            ImageParseError::ReadFailed,
        ) && *final(pos) == *old(pos),
{
    if *pos + 2 > data.len() as u64 {
        return Err(ImageParseError::ReadFailed);
    }
    let at: usize = *pos as usize;
    let v: u16 = data[at] as u16 + 256 * (data[at + 1] as u16);
    *pos = *pos + 2;
    Ok(v)
}

/// Reads a little-endian 32-bit number at `*pos` and steps over it.
pub fn read_u32(data: &[u8], pos: &mut u64) -> (r: Result<u32, ImageParseError>)
    requires
        *old(pos) + 4 <= u64::MAX,
    ensures
        *old(pos) + 4 <= data@.len() ==> r == Ok::<u32, ImageParseError>(
            le_u32_at(data@, *old(pos) as int) as u32,
        ) && *final(pos) == *old(pos) + 4,
        *old(pos) + 4 > data@.len() ==> r == Err::<u32, ImageParseError>(
            ImageParseError::ReadFailed,
        ) && *final(pos) == *old(pos),
{
    if *pos + 4 > data.len() as u64 {
        return Err(ImageParseError::ReadFailed);
    }
    let at: usize = *pos as usize;
    let v: u32 = data[at] as u32 + 256 * (data[at + 1] as u32) + 65536 * (data[at + 2] as u32)
        + 16777216 * (data[at + 3] as u32);
    *pos = *pos + 4;
    Ok(v)
}

/// Extracts version and identity hash from an MCUboot image.
///
/// Succeeds exactly on the data for which [`image_info`] gives a version and
/// a hash, and fails with the error that [`image_info`] gives otherwise. An
/// image whose TLV area holds anything behind its last entry is refused.
pub fn get_image_info(image_data: &[u8]) -> (r: Result<ImageInfo, ImageParseError>)
    ensures
        match r {
            Ok(info) => image_info(image_data@) == Ok::<(ImageVersion, Seq<u8>), ImageParseError>(
                (info.version, info.hash@),
            ),
            Err(e) => image_info(image_data@) == Err::<(ImageVersion, Seq<u8>), ImageParseError>(e),
        },
{
    let mut pos: u64 = 0;
    let ih_magic: u32 = read_u32(image_data, &mut pos)?;
    if ih_magic != IMAGE_MAGIC {
        return Err(ImageParseError::UnknownImageType);
    }
    if (image_data.len() as u64) < IMAGE_HEADER_SIZE {
        return Err(ImageParseError::ReadFailed);
    }
    let _ih_load_addr: u32 = read_u32(image_data, &mut pos)?;
    let ih_hdr_size: u16 = read_u16(image_data, &mut pos)?;
    let ih_protect_tlv_size: u16 = read_u16(image_data, &mut pos)?;
    let ih_img_size: u32 = read_u32(image_data, &mut pos)?;
    let _ih_flags: u32 = read_u32(image_data, &mut pos)?;
    let major: u8 = read_u8(image_data, &mut pos)?;
    let minor: u8 = read_u8(image_data, &mut pos)?;
    let revision: u16 = read_u16(image_data, &mut pos)?;
    let build_num: u32 = read_u32(image_data, &mut pos)?;
    let ih_ver = ImageVersion { major, minor, revision, build_num };

    pos = ih_hdr_size as u64 + ih_protect_tlv_size as u64 + ih_img_size as u64;
    let ghost info = pos as int;

    let it_magic: u16 = read_u16(image_data, &mut pos)?;
    if it_magic != IMAGE_TLV_INFO_MAGIC {
        return Err(ImageParseError::TlvMissing);
    }
    let it_tlv_tot: u16 = read_u16(image_data, &mut pos)?;
    let ghost whole = walk_tlv_entries(image_data@, info + 4, 0, it_tlv_tot as int, None);

    let mut id_hash: Option<[u8; 32]> = None;
    let mut tlv_read: u32 = 0;
    while tlv_read + TLV_INFO_HEADER_SIZE + TLV_ELEMENT_HEADER_SIZE <= it_tlv_tot as u32
        invariant
            pos == info + 4 + tlv_read,
            info <= 0x1_0001_FFFD,
            tlv_read <= 0x1_0000 + 0xFFFF,
            image_info(image_data@) == conclude_walk(ih_ver, whole),
            whole == walk_tlv_entries(
                image_data@,
                pos as int,
                tlv_read as int,
                it_tlv_tot as int,
                match id_hash {
                    Some(h) => Some(h@),
                    None => None,
                },
            ),
        decreases tlv_left(it_tlv_tot as int, tlv_read as int),
    {
        let it_type: u8 = read_u8(image_data, &mut pos)?;
        let _pad: u8 = read_u8(image_data, &mut pos)?;
        let it_len: u16 = read_u16(image_data, &mut pos)?;

        if it_type == IMAGE_TLV_SHA256 && it_len as usize == SHA256_LEN {
            if pos + 32 > image_data.len() as u64 {
                return Err(ImageParseError::ReadFailed);
            }
            let start: usize = pos as usize;
            let mut sha256_hash: [u8; 32] = [0u8; 32];
            let mut i: usize = 0;
            while i < 32
                invariant
                    i <= 32,
                    start + 32 <= image_data@.len() <= usize::MAX,
                    forall|j: int| 0 <= j < i ==> sha256_hash@[j] == image_data@[start + j],
                decreases 32 - i,
            {
                sha256_hash[i] = image_data[start + i];
                i += 1;
            }
            assert(sha256_hash@ =~= image_data@.subrange(start as int, start + 32));
            id_hash = Some(sha256_hash);
        }
        pos = pos + it_len as u64;
        tlv_read = tlv_read + it_len as u32 + 4;
    }

    if tlv_read + TLV_INFO_HEADER_SIZE != it_tlv_tot as u32 {
        return Err(ImageParseError::ReadFailed);
    }
    match id_hash {
        Some(hash) => Ok(ImageInfo { version: ih_ver, hash }),
        None => Err(ImageParseError::IdHashMissing),
    }
}

} // verus!
