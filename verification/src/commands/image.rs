use vstd::prelude::*;

verus! {

/// The state of an image slot
#[derive(Debug, Eq, PartialEq)]
pub struct ImageStateEntry {
    /// image number
    pub image: u64,
    /// slot number within “image”
    pub slot: u64,
    /// string representing image version, as set with `imgtool`
    pub version: String,
    /// SHA256 hash of the image header and body
    ///
    /// Note that this will not be the same as the SHA256 of the whole file, it is the field in the
    /// MCUboot TLV section that contains a hash of the data which is used for signature
    /// verification purposes.
    pub hash: Option<[u8; 32]>,
    /// true if image has bootable flag set
    pub bootable: bool,
    /// true if image is set for next swap
    pub pending: bool,
    /// true if image has been confirmed
    pub confirmed: bool,
    /// true if image is currently active application
    pub active: bool,
    /// true if image is to stay in primary slot after the next boot
    pub permanent: bool,
}

/// [Get Image State](https://docs.zephyrproject.org/latest/services/device_mgmt/smp_groups/smp_group_1.html#get-state-of-images-request) command
#[derive(Debug, Eq, PartialEq)]
pub struct GetImageState;

/// Response for [`GetImageState`] command
#[derive(Debug, Eq, PartialEq)]
pub struct GetImageStateResponse {
    /// the image slots of the device
    pub images: Vec<ImageStateEntry>,
}

/// [Set Image State](https://docs.zephyrproject.org/latest/services/device_mgmt/smp_groups/smp_group_1.html#set-state-of-image-request) command
#[derive(Debug, Eq, PartialEq)]
pub struct SetImageState<'a> {
    /// SHA256 hash of the image header and body; the image to act on
    pub hash: Option<&'a [u8; 32]>,
    /// confirm the image at once instead of marking it for a test boot
    pub confirm: bool,
}

/// [Image Upload](https://docs.zephyrproject.org/latest/services/device_mgmt/smp_groups/smp_group_1.html#image-upload) command
#[derive(Debug, Eq, PartialEq)]
pub struct ImageUpload<'a, 'b> {
    /// image number; the first image if not given
    pub image: Option<u32>,
    /// offset of this chunk within the image
    pub off: u64,
    /// chunk of image data
    pub data: &'a [u8],
    /// length of the whole image, only present in the first chunk
    pub len: Option<u64>,
    /// SHA256 of the whole image, only present in the first chunk
    pub sha: Option<&'b [u8; 32]>,
    /// refuse an image that is not newer than the installed one; only
    /// present in the first chunk
    pub upgrade: Option<bool>,
}

/// Response for [`ImageUpload`] command
#[derive(Debug, Eq, PartialEq)]
pub struct ImageUploadResponse {
    /// offset of the last successfully written byte
    pub off: u64,
    /// the device holds an image whose hash is the one sent with the first
    /// chunk
    pub matched: Option<bool>,
}

} // verus!
