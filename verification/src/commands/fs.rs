use std::collections::HashMap;

use vstd::prelude::*;

verus! {

/// [File Download](https://docs.zephyrproject.org/latest/services/device_mgmt/smp_groups/smp_group_8.html#file-download) command
#[derive(Debug)]
pub struct FileDownload<'a> {
    /// offset to start download at
    pub off: u64,
    /// absolute path to a file
    pub name: &'a str,
}

/// Response for [`FileDownload`] command
#[derive(Debug)]
pub struct FileDownloadResponse {
    /// offset the response is for
    pub off: u64,
    /// chunk of data read from file
    pub data: Vec<u8>,
    /// length of file, this field is only mandatory when “off” is 0
    pub len: Option<u64>,
}

/// Size of the SMP header in bytes.
pub const MGMT_HDR_SIZE: usize = 8;

/// Bytes that the encoding of a file offset or length can take.
pub const MCUMGR_GRP_FS_MAX_OFFSET_LEN: usize = 8;

/// What a file upload request takes beside its data: the SMP header, the
/// key and length of the data field, the offset field, the length field, the
/// length byte of the file name, and the offset once more.
pub const CBOR_AND_OTHER_HDR: usize = MGMT_HDR_SIZE + (9 + 1) + (1 + 3 + MCUMGR_GRP_FS_MAX_OFFSET_LEN)
    + (1 + 4 + MCUMGR_GRP_FS_MAX_OFFSET_LEN) + (1 + 2 + 1) + (1 + 3 + MCUMGR_GRP_FS_MAX_OFFSET_LEN);

/// Computes how large [`FileUpload::data`] is allowed to be.
///
/// Taken from Zephyr's [MCUMGR_GRP_FS_DL_CHUNK_SIZE](https://github.com/zephyrproject-rtos/zephyr/blob/v4.2.1/subsys/mgmt/mcumgr/grp/fs_mgmt/include/mgmt/mcumgr/grp/fs_mgmt/fs_mgmt_config.h#L45).
///
/// # Arguments
///
/// * `smp_frame_size` - The max allowed size of an SMP frame.
pub fn file_upload_max_data_chunk_size(smp_frame_size: usize) -> (n: usize)
    requires
        smp_frame_size >= CBOR_AND_OTHER_HDR,
    ensures
        n == smp_frame_size - 59,
{
    smp_frame_size - CBOR_AND_OTHER_HDR
}

/// [File Upload](https://docs.zephyrproject.org/latest/services/device_mgmt/smp_groups/smp_group_8.html#file-upload) command
#[derive(Debug)]
pub struct FileUpload<'a, 'b> {
    /// offset to start/continue upload at
    pub off: u64,
    /// chunk of data to write to the file
    pub data: &'a [u8],
    /// absolute path to a file
    pub name: &'b str,
    /// length of file, this field is only mandatory when “off” is 0
    pub len: Option<u64>,
}

/// Response for [`FileUpload`] command
#[derive(Debug)]
pub struct FileUploadResponse {
    /// offset of last successfully written data
    pub off: u64,
}

/// [File Status](https://docs.zephyrproject.org/latest/services/device_mgmt/smp_groups/smp_group_8.html#file-status) command
#[derive(Debug)]
pub struct FileStatus<'a> {
    /// absolute path to a file
    pub name: &'a str,
}

/// Response for [`FileStatus`] command
#[derive(Debug)]
pub struct FileStatusResponse {
    /// length of file (in bytes)
    pub len: u64,
}

/// [File Hash/Checksum](https://docs.zephyrproject.org/latest/services/device_mgmt/smp_groups/smp_group_8.html#file-hash-checksum) command
#[derive(Debug)]
pub struct FileHashChecksum<'a, 'b> {
    /// absolute path to a file
    pub name: &'a str,
    /// type of hash/checksum to perform or None to use default
    pub hash_type: Option<&'b str>,
    /// offset to start hash/checksum calculation at
    pub off: u64,
    /// maximum length of data to read from file to generate hash/checksum with (optional, full file size if None)
    pub len: Option<u64>,
}

/// Response for [`FileHashChecksum`] command
#[derive(Debug)]
pub struct FileHashChecksumResponse {
    /// type of hash/checksum that was performed
    pub hash_type: String,
    /// offset that hash/checksum calculation started at
    pub off: u64,
    /// length of input data used for hash/checksum generation (in bytes)
    pub len: u64,
    /// output hash/checksum
    pub output: FileHashChecksumData,
}

/// Hash data of [`FileHashChecksumResponse`]
#[derive(Debug)]
pub enum FileHashChecksumData {
    /// hash bytes
    Hash(Vec<u8>),
    /// checksum integer
    Checksum(u32),
}

/// [Supported file hash/checksum types](https://docs.zephyrproject.org/latest/services/device_mgmt/smp_groups/smp_group_8.html#supported-file-hash-checksum-types) command
#[derive(Debug)]
pub struct SupportedFileHashChecksumTypes;

/// Response for [`SupportedFileHashChecksumTypes`] command
#[derive(Debug)]
pub struct SupportedFileHashChecksumTypesResponse {
    /// names and properties of the hash/checksum types
    pub types: HashMap<String, SupportedFileHashChecksumTypesEntry>,
}

/// Data format of the hash/checksum type
#[derive(Debug, Copy, Clone, PartialEq, Eq, Structural)]
pub enum SupportedFileHashChecksumDataFormat {
    /// Data is a number
    Numerical,
    /// Data is a bytes array
    ByteArray,
}

impl SupportedFileHashChecksumDataFormat {
    /// The format that the number `repr` stands for on the wire.
    pub fn from_repr(repr: u8) -> (f: Option<SupportedFileHashChecksumDataFormat>)
        ensures
            f == if repr == 0 {
                Some(SupportedFileHashChecksumDataFormat::Numerical)
            } else if repr == 1 {
                Some(SupportedFileHashChecksumDataFormat::ByteArray)
            } else {
                None
            },
    {
        match repr {
            0 => Some(SupportedFileHashChecksumDataFormat::Numerical),
            1 => Some(SupportedFileHashChecksumDataFormat::ByteArray),
            _ => None,
        }
    }

    /// The name of the format.
    pub fn as_str(self) -> (s: &'static str)
        ensures
            s@ == match self {
                SupportedFileHashChecksumDataFormat::Numerical => "Numerical"@,
                SupportedFileHashChecksumDataFormat::ByteArray => "ByteArray"@,
            },
    {
        match self {
            SupportedFileHashChecksumDataFormat::Numerical => "Numerical",
            SupportedFileHashChecksumDataFormat::ByteArray => "ByteArray",
        }
    }
}

/// Properties of a hash/checksum algorithm
#[derive(Debug)]
pub struct SupportedFileHashChecksumTypesEntry {
    /// format that the hash/checksum returns
    pub format: SupportedFileHashChecksumDataFormat,
    /// size (in bytes) of output hash/checksum response
    pub size: u32,
}

/// [File Close](https://docs.zephyrproject.org/latest/services/device_mgmt/smp_groups/smp_group_8.html#file-close) command
#[derive(Debug)]
pub struct FileClose;

/// Response for [`FileClose`] command
#[derive(Debug, Default)]
pub struct FileCloseResponse;

} // verus!
