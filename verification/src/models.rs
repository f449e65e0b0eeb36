//! Configuration and result types shared by the write pipeline.

use vstd::prelude::*;

verus! {

/// A target disk as the front end selects it.
#[derive(Debug, Clone)]
pub struct Disk {
    pub id: String,
    pub name: String,
    pub size: u64,
    pub removable: bool,
    pub device: String,
    /// Disk number as text, e.g. "1".
    pub index: String,
    /// Drive letter of the disk's first volume, e.g. "E".
    pub volume: String,
    /// "Removable" or "Fixed (<bus>)".
    pub drive_type: String,
}

#[derive(Debug, Clone)]
pub struct PartitionConfig {
    pub boot_size: u32,
    pub partition_layout: PartitionLayout,
    /// Sizes (MB) of extra data partitions; zero entries are ignored.
    pub extra_partition_sizes: Vec<u32>,
}

#[derive(Debug, Clone, Copy, PartialEq, Eq, Structural)]
pub enum PartitionLayout {
    MBR,
    GPT,
}

#[derive(Debug, Clone)]
pub struct WriteConfig {
    pub image_path: String,
    pub target_disk: String,
    pub partition_config: PartitionConfig,
    pub fast_write: bool,
}

/// Which firmware the boot files are written for.
#[derive(Debug, Clone, Copy, PartialEq, Eq, Structural)]
pub enum FirmwareType {
    ALL,
    BIOS,
    UEFI,
}

#[derive(Debug, Clone, Copy, PartialEq, Eq, Structural)]
pub enum BootMode {
    UefiGpt,
    UefiMbr,
    NonUefi,
}

#[derive(Debug, Clone, Copy, PartialEq, Eq, Structural)]
pub enum ApplyMode {
    Legacy,
    VHD,
    VHDX,
}

#[derive(Debug, Clone, Copy, PartialEq, Eq, Structural)]
pub enum ImageType {
    Wim,
    Esd,
    Iso,
    Vhd,
    Vhdx,
}

#[derive(Debug, Clone, Copy, PartialEq, Eq, Structural)]
pub enum VhdType {
    Fixed,
    Dynamic,
}

#[derive(Debug, Clone)]
pub struct VhdConfig {
    pub filename: String,
    pub extension: String,
    pub vhd_type: VhdType,
    pub size_mb: u32,
    /// 1 for a GPT partition table inside the virtual disk.
    pub partition_type: u8,
}

#[derive(Debug, Clone)]
pub struct ExtraFeatures {
    pub no_default_drive_letter: bool,
    pub repartition: bool,
    pub do_not_format: bool,
    pub enable_bitlocker: bool,
    pub wimboot: bool,
    pub compact_os: bool,
    pub install_dotnet35: bool,
    pub block_local_disk: bool,
    pub disable_winre: bool,
    pub skip_oobe: bool,
    pub disable_uasp: bool,
    pub driver_path: Option<String>,
    pub ntfs_uefi_support: bool,
    pub fix_letter: bool,
}

/// Everything one write needs.
#[derive(Debug, Clone)]
pub struct WtgConfig {
    pub image_path: String,
    pub target_disk: Disk,
    pub partition_config: PartitionConfig,
    pub boot_mode: BootMode,
    pub apply_mode: ApplyMode,
    pub efi_partition_size: String,
    pub efi_partition_path: Option<String>,
    pub wim_index: String,
    pub image_type: ImageType,
    pub vhd_config: Option<VhdConfig>,
    pub extra_features: ExtraFeatures,
}

/// One image inside a WIM/ESD file.
#[derive(Debug, Clone)]
pub struct ImageInfo {
    pub index: u32,
    pub name: String,
    pub description: String,
    pub size: u64,
}

/// Stage of a write as the progress events report it.
#[derive(Debug, Clone, Copy, PartialEq, Eq, Structural)]
pub enum WriteStatus {
    Idle,
    Preparing,
    Partitioning,
    ApplyingImage,
    WritingBootFiles,
    FixingBcd,
    CopyingVhd,
    ApplyingExtras,
    Verifying,
    Completed,
    Failed,
    Cancelled,
}

} // verus!
