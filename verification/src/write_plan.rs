//! The write pipeline: which steps a Windows To Go write takes, in which
//! order, for each boot mode and apply mode.
//!
//! `write_plan` lists the steps; `step_action` turns a step into the exact
//! scripts, programs and paths; `WriteRun` walks the plan as the outcomes
//! of the steps come back, and `write_report` says how the write ended.

use crate::boot::{
    bcdboot_write_boot_file, bcdedit_fix_boot_file_typical, bcdedit_fix_boot_file_vhd,
    bootice_write_mbr_pbr_and_act, is_bcdboot_plan, is_bcdedit_typical_plan,
    is_bcdedit_vhd_plan, is_bootice_calls, BcdbootPlan, BcdeditPlan,
    ToolCall,
};
use crate::diskpart::{
    diskpart_gpt_uefi, diskpart_mbr_uefi, diskpart_repartition, format_ntfs, has_ascii_head,
    remove_drive_letter, set_no_default_drive_letter, spec_gpt_uefi_script,
    spec_mbr_uefi_script, spec_repartition_script,
};
use crate::error::{spec_message, AppError};
use crate::image::{
    auto_choose_wim_index, dism_apply_image, fix_letter, has_extension, image_apply, image_extra,
    is_image_apply_calls, is_image_extra_plan, opt_str, spec_dism_apply_args, sxs_source_ok,
    verify_system_files, ImageExtraPlan, WimIndexChoice,
};
use crate::models::{ApplyMode, BootMode, FirmwareType, ImageType, VhdType, WtgConfig};
use crate::text::{contains, decimal, push_str, string_of};
use crate::util::first_char;
use crate::vhd::{
    create_vhd, default_vhd_size, detach_vhd, dynamic_size_instruction, select_vdisk,
    spec_create_vhd_script, spec_need_copy, spec_vhd_filename, twice_attach_and_write_boot,
    FileText, TwiceAttachPlan, VhdOperation,
};
use vstd::prelude::*;

verus! {

/// A location that a step works on.
#[derive(Debug, Clone, Copy, PartialEq, Eq, Structural)]
pub enum Place {
    /// The target drive, `<volume letter>:\`.
    Target,
    /// The EFI system partition, `<ESP letter>:\`.
    Esp,
    /// The mounted virtual disk, `V:\`.
    VDrive,
    /// The mounted virtual disk as a bare letter, `V:`.
    VLetter,
    /// The boot partition the user named for a legacy install.
    EfiPart,
}

/// One step of a write.
#[derive(Debug, Clone, Copy, PartialEq, Eq, Structural)]
pub enum WriteStep {
    /// diskpart: GPT with an EFI system partition.
    PartitionGptUefi,
    /// diskpart: MBR with a FAT32 boot partition.
    PartitionMbrUefi,
    /// diskpart: repartition the target volume.
    Repartition,
    /// Quick NTFS format of the target volume.
    FormatNtfs,
    /// Wait for the target drive to appear.
    WaitForTarget,
    /// BitLocker setup tool on a drive.
    EnableBitlocker(Place),
    /// Settle the image index to apply.
    ChooseWimIndex,
    /// DISM apply onto the target drive.
    DismApply,
    /// Apply the image (WIMBoot, DISM or ImageX) onto a drive.
    ApplyImage(Place),
    /// The kernel must be on the target drive; the flag picks the message
    /// (`true`: the one of the GPT typical mode).
    CheckSystemFiles(bool),
    /// Drivers, UASP, .NET 3.5, SAN policy and unattend settings.
    ImageExtra(Place),
    /// bcdboot from the first place's Windows to the second place.
    Bcdboot(Place, Place, FirmwareType),
    /// BCD fix for a directly applied system (store on the first place,
    /// system on the second).
    BcdeditTypical(Place, Place, FirmwareType),
    /// BCD fix for a system in a virtual disk.
    BcdeditVhd(Place, Place, FirmwareType),
    /// BOOTICE: MBR, PBR and active flag on a drive.
    Bootice(Place),
    /// Take the letter away from the EFI system partition (result ignored).
    RemoveEspLetter,
    /// `bootmgr` must be on the target drive.
    CheckBootmgr,
    /// When the user's boot partition does not exist, skip the next steps.
    SkipUnlessEfiPartExists(u8),
    /// The virtual disk must be on the target drive; the flag picks the
    /// message (`true`: the one of the GPT mode).
    CheckVhdOnDisk(bool),
    /// A virtual-disk mode without a virtual-disk configuration.
    MissingVhdConfig,
    /// Release `V:` and remove the files of earlier runs.
    CleanVhdTemp,
    /// Copy the image (itself a virtual disk) to the target drive.
    CopyImageVhd,
    /// Attach the virtual disk on the target drive, write its boot files,
    /// detach it.
    TwiceAttach,
    /// Create (or attach) the virtual disk as `V:`.
    CreateVhd,
    /// Drive-letter fix inside the virtual disk (result ignored).
    FixLetter,
    /// Detach the virtual disk.
    DetachVhd,
    /// Copy the virtual disk built in the temporary directory to the drive.
    CopyBuiltVhd,
    /// Let the copy settle.
    Pause,
    /// Leave the note about a dynamically sized virtual disk (result ignored).
    WriteSizeInstruction,
}

/// The virtual-disk flavour of the image, as `VhdOperation::new` takes it.
pub open spec fn image_is_vhd(c: WtgConfig) -> bool {
    c.image_type == ImageType::Vhd || c.image_type == ImageType::Vhdx
}

/// Whether the new virtual disk is built in the temporary directory.
pub open spec fn plan_need_copy(c: WtgConfig) -> bool {
    c.boot_mode == BootMode::NonUefi && !c.extra_features.wimboot
}

#[verifier::opaque]
pub open spec fn bitlocker_on(c: WtgConfig, p: Place) -> Seq<WriteStep> {
    if c.extra_features.enable_bitlocker {
        seq![WriteStep::EnableBitlocker(p)]
    } else {
        Seq::empty()
    }
}

/// Boot files of a virtual disk written straight onto the drive.
#[verifier::opaque]
pub open spec fn vhd_boot_files(c: WtgConfig, has_esp: bool) -> Seq<WriteStep> {
    match c.boot_mode {
        BootMode::UefiGpt => if has_esp {
            seq![
                WriteStep::Bcdboot(Place::VDrive, Place::Esp, FirmwareType::UEFI),
                WriteStep::BcdeditVhd(Place::Esp, Place::Target, FirmwareType::UEFI),
            ]
        } else {
            Seq::empty()
        },
        BootMode::UefiMbr => if has_esp {
            seq![
                WriteStep::Bcdboot(Place::VDrive, Place::Esp, FirmwareType::ALL),
                WriteStep::Bootice(Place::Esp),
                WriteStep::BcdeditVhd(Place::Esp, Place::Target, FirmwareType::UEFI),
                WriteStep::BcdeditVhd(Place::Esp, Place::Target, FirmwareType::BIOS),
            ]
        } else {
            Seq::empty()
        },
        BootMode::NonUefi => if c.efi_partition_path is Some {
            seq![
                WriteStep::SkipUnlessEfiPartExists(3),
                WriteStep::Bcdboot(Place::VDrive, Place::EfiPart, FirmwareType::ALL),
                WriteStep::BcdeditVhd(Place::Target, Place::EfiPart, FirmwareType::BIOS),
                WriteStep::BcdeditVhd(Place::Target, Place::EfiPart, FirmwareType::UEFI),
            ]
        } else if c.extra_features.ntfs_uefi_support {
            seq![
                WriteStep::Bcdboot(Place::VDrive, Place::Target, FirmwareType::ALL),
                WriteStep::BcdeditVhd(Place::Target, Place::Target, FirmwareType::BIOS),
                WriteStep::BcdeditVhd(Place::Target, Place::Target, FirmwareType::UEFI),
            ]
        } else {
            seq![
                WriteStep::Bcdboot(Place::VDrive, Place::Target, FirmwareType::BIOS),
                WriteStep::BcdeditVhd(Place::Target, Place::Target, FirmwareType::BIOS),
            ]
        },
    }
}

/// The BCD fixes that point the boot entries at the virtual disk.
#[verifier::opaque]
pub open spec fn vhd_bcd_fix(c: WtgConfig, has_esp: bool) -> Seq<WriteStep> {
    match c.boot_mode {
        BootMode::UefiGpt => if has_esp {
            seq![WriteStep::BcdeditVhd(Place::Esp, Place::Target, FirmwareType::UEFI)]
        } else {
            Seq::empty()
        },
        BootMode::UefiMbr => if has_esp {
            seq![
                WriteStep::BcdeditVhd(Place::Esp, Place::Target, FirmwareType::UEFI),
                WriteStep::BcdeditVhd(Place::Esp, Place::Target, FirmwareType::BIOS),
            ]
        } else {
            Seq::empty()
        },
        BootMode::NonUefi => if c.extra_features.ntfs_uefi_support {
            seq![
                WriteStep::BcdeditVhd(Place::Target, Place::Target, FirmwareType::BIOS),
                WriteStep::BcdeditVhd(Place::Target, Place::Target, FirmwareType::UEFI),
            ]
        } else {
            seq![WriteStep::BcdeditVhd(Place::Target, Place::Target, FirmwareType::BIOS)]
        },
    }
}

/// Building a new virtual disk: create it, apply the image into it, write
/// or defer its boot files, detach it, copy it when it was built elsewhere,
/// and fix the BCD.
pub open spec fn new_vhd_steps(c: WtgConfig, has_esp: bool) -> Seq<WriteStep> {
    seq![WriteStep::CreateVhd] + bitlocker_on(c, Place::VLetter) + seq![
        WriteStep::ChooseWimIndex,
        WriteStep::ApplyImage(Place::VDrive),
        WriteStep::ImageExtra(Place::VDrive),
    ] + (if c.extra_features.fix_letter {
        seq![WriteStep::FixLetter]
    } else {
        Seq::empty()
    }) + (if !plan_need_copy(c) {
        vhd_boot_files(c, has_esp)
    } else {
        Seq::empty()
    }) + seq![WriteStep::DetachVhd] + (if plan_need_copy(c) {
        seq![WriteStep::CopyBuiltVhd, WriteStep::Pause, WriteStep::TwiceAttach]
    } else {
        Seq::empty()
    }) + (if c.vhd_config.unwrap().vhd_type != VhdType::Fixed {
        seq![WriteStep::WriteSizeInstruction]
    } else {
        Seq::empty()
    }) + vhd_bcd_fix(c, has_esp)
}

/// The shared virtual-disk workflow.
pub open spec fn vhd_workflow(c: WtgConfig, has_esp: bool) -> Seq<WriteStep> {
    seq![WriteStep::CleanVhdTemp] + if image_is_vhd(c) {
        seq![WriteStep::CopyImageVhd, WriteStep::TwiceAttach]
    } else {
        new_vhd_steps(c, has_esp)
    }
}

/// A virtual-disk mode: the workflow and what follows it, or a failure when
/// the configuration has no virtual disk.
pub open spec fn vhd_mode(c: WtgConfig, has_esp: bool, tail: Seq<WriteStep>) -> Seq<WriteStep> {
    if c.vhd_config is Some {
        vhd_workflow(c, has_esp) + tail
    } else {
        seq![WriteStep::MissingVhdConfig]
    }
}

/// UEFI + GPT, image applied directly.
pub open spec fn uefi_gpt_typical(c: WtgConfig) -> Seq<WriteStep> {
    bitlocker_on(c, Place::Target) + seq![
        WriteStep::ChooseWimIndex,
        WriteStep::DismApply,
        WriteStep::CheckSystemFiles(true),
        WriteStep::ImageExtra(Place::Target),
        WriteStep::Bcdboot(Place::Target, Place::Esp, FirmwareType::UEFI),
        WriteStep::BcdeditTypical(Place::Esp, Place::Target, FirmwareType::UEFI),
        WriteStep::RemoveEspLetter,
    ]
}

/// UEFI + MBR, image applied directly.
pub open spec fn uefi_mbr_typical(c: WtgConfig) -> Seq<WriteStep> {
    seq![WriteStep::ChooseWimIndex] + bitlocker_on(c, Place::Target) + seq![
        WriteStep::ApplyImage(Place::Target),
        WriteStep::CheckSystemFiles(false),
        WriteStep::ImageExtra(Place::Target),
        WriteStep::Bcdboot(Place::Target, Place::Esp, FirmwareType::ALL),
        WriteStep::BcdeditTypical(Place::Esp, Place::Target, FirmwareType::UEFI),
        WriteStep::RemoveEspLetter,
    ]
}

/// Legacy BIOS, image applied directly.
pub open spec fn non_uefi_typical(c: WtgConfig) -> Seq<WriteStep> {
    bitlocker_on(c, Place::Target) + seq![
        WriteStep::ChooseWimIndex,
        WriteStep::ApplyImage(Place::Target),
        WriteStep::ImageExtra(Place::Target),
    ] + (if c.efi_partition_path is Some {
        seq![
            WriteStep::SkipUnlessEfiPartExists(3),
            WriteStep::Bcdboot(Place::Target, Place::EfiPart, FirmwareType::ALL),
            WriteStep::BcdeditTypical(Place::Target, Place::EfiPart, FirmwareType::BIOS),
            WriteStep::BcdeditTypical(Place::Target, Place::EfiPart, FirmwareType::UEFI),
            WriteStep::Bootice(Place::EfiPart),
        ]
    } else if c.extra_features.ntfs_uefi_support {
        seq![
            WriteStep::Bcdboot(Place::Target, Place::Target, FirmwareType::ALL),
            WriteStep::BcdeditTypical(Place::Target, Place::Target, FirmwareType::BIOS),
            WriteStep::BcdeditTypical(Place::Target, Place::Target, FirmwareType::UEFI),
            WriteStep::Bootice(Place::Target),
        ]
    } else {
        seq![
            WriteStep::Bcdboot(Place::Target, Place::Target, FirmwareType::BIOS),
            WriteStep::BcdeditTypical(Place::Target, Place::Target, FirmwareType::BIOS),
            WriteStep::Bootice(Place::Target),
        ]
    }) + seq![WriteStep::CheckBootmgr]
}

/// The steps of a write, in order.
pub open spec fn spec_write_plan(c: WtgConfig) -> Seq<WriteStep> {
    match c.boot_mode {
        BootMode::UefiGpt => seq![WriteStep::PartitionGptUefi, WriteStep::WaitForTarget]
            + match c.apply_mode {
            ApplyMode::Legacy => uefi_gpt_typical(c),
            _ => vhd_mode(c, true, seq![WriteStep::RemoveEspLetter, WriteStep::CheckVhdOnDisk(true)]),
        },
        BootMode::UefiMbr => seq![WriteStep::PartitionMbrUefi, WriteStep::WaitForTarget]
            + match c.apply_mode {
            ApplyMode::Legacy => uefi_mbr_typical(c),
            _ => vhd_mode(
                c,
                true,
                seq![WriteStep::RemoveEspLetter, WriteStep::CheckVhdOnDisk(false)],
            ),
        },
        BootMode::NonUefi => (if c.extra_features.repartition {
            seq![WriteStep::Repartition]
        } else if !c.extra_features.do_not_format {
            seq![WriteStep::FormatNtfs]
        } else {
            Seq::empty()
        }) + match c.apply_mode {
            ApplyMode::Legacy => non_uefi_typical(c),
            _ => vhd_mode(c, false, seq![WriteStep::Bootice(Place::Target), WriteStep::CheckVhdOnDisk(false)]),
        },
    }
}

fn push_all(v: &mut Vec<WriteStep>, s: &[WriteStep])
    ensures
        final(v)@ == old(v)@ + s@,
{
    let ghost start = v@;
    let mut i: usize = 0;
    while i < s.len()
        invariant
            i <= s@.len(),
            v@ == start + s@.take(i as int),
        decreases s@.len() - i,
    {
        v.push(s[i]);
        i = i + 1;
        assert(s@.take(i as int) =~= s@.take(i - 1) + seq![s@[i - 1]]);
    }
    assert(s@.take(i as int) =~= s@);
}

fn push_bitlocker(v: &mut Vec<WriteStep>, c: &WtgConfig, p: Place)
    ensures
        final(v)@ == old(v)@ + bitlocker_on(*c, p),
{
    reveal(bitlocker_on);
    if c.extra_features.enable_bitlocker {
        v.push(WriteStep::EnableBitlocker(p));
    } else {
        assert(old(v)@ + bitlocker_on(*c, p) =~= old(v)@);
    }
}

fn push_vhd_boot_files(v: &mut Vec<WriteStep>, c: &WtgConfig, has_esp: bool)
    ensures
        final(v)@ == old(v)@ + vhd_boot_files(*c, has_esp),
{
    reveal(vhd_boot_files);
    let ghost start = v@;
    match c.boot_mode {
        BootMode::UefiGpt => if has_esp {
            push_all(
                v,
                &[
                    WriteStep::Bcdboot(Place::VDrive, Place::Esp, FirmwareType::UEFI),
                    WriteStep::BcdeditVhd(Place::Esp, Place::Target, FirmwareType::UEFI),
                ],
            );
        },
        BootMode::UefiMbr => if has_esp {
            push_all(
                v,
                &[
                    WriteStep::Bcdboot(Place::VDrive, Place::Esp, FirmwareType::ALL),
                    WriteStep::Bootice(Place::Esp),
                    WriteStep::BcdeditVhd(Place::Esp, Place::Target, FirmwareType::UEFI),
                    WriteStep::BcdeditVhd(Place::Esp, Place::Target, FirmwareType::BIOS),
                ],
            );
        },
        BootMode::NonUefi => if c.efi_partition_path.is_some() {
            push_all(
                v,
                &[
                    WriteStep::SkipUnlessEfiPartExists(3),
                    WriteStep::Bcdboot(Place::VDrive, Place::EfiPart, FirmwareType::ALL),
                    WriteStep::BcdeditVhd(Place::Target, Place::EfiPart, FirmwareType::BIOS),
                    WriteStep::BcdeditVhd(Place::Target, Place::EfiPart, FirmwareType::UEFI),
                ],
            );
        } else if c.extra_features.ntfs_uefi_support {
            push_all(
                v,
                &[
                    WriteStep::Bcdboot(Place::VDrive, Place::Target, FirmwareType::ALL),
                    WriteStep::BcdeditVhd(Place::Target, Place::Target, FirmwareType::BIOS),
                    WriteStep::BcdeditVhd(Place::Target, Place::Target, FirmwareType::UEFI),
                ],
            );
        } else {
            push_all(
                v,
                &[
                    WriteStep::Bcdboot(Place::VDrive, Place::Target, FirmwareType::BIOS),
                    WriteStep::BcdeditVhd(Place::Target, Place::Target, FirmwareType::BIOS),
                ],
            );
        },
    }
    assert(v@ =~= start + vhd_boot_files(*c, has_esp));
}

fn push_vhd_bcd_fix(v: &mut Vec<WriteStep>, c: &WtgConfig, has_esp: bool)
    ensures
        final(v)@ == old(v)@ + vhd_bcd_fix(*c, has_esp),
{
    reveal(vhd_bcd_fix);
    let ghost start = v@;
    match c.boot_mode {
        BootMode::UefiGpt => if has_esp {
            v.push(WriteStep::BcdeditVhd(Place::Esp, Place::Target, FirmwareType::UEFI));
        },
        BootMode::UefiMbr => if has_esp {
            v.push(WriteStep::BcdeditVhd(Place::Esp, Place::Target, FirmwareType::UEFI));
            v.push(WriteStep::BcdeditVhd(Place::Esp, Place::Target, FirmwareType::BIOS));
        },
        BootMode::NonUefi => if c.extra_features.ntfs_uefi_support {
            v.push(WriteStep::BcdeditVhd(Place::Target, Place::Target, FirmwareType::BIOS));
            v.push(WriteStep::BcdeditVhd(Place::Target, Place::Target, FirmwareType::UEFI));
        } else {
            v.push(WriteStep::BcdeditVhd(Place::Target, Place::Target, FirmwareType::BIOS));
        },
    }
    assert(v@ =~= start + vhd_bcd_fix(*c, has_esp));
}

fn push_opt(v: &mut Vec<WriteStep>, b: bool, s: &[WriteStep])
    ensures
        final(v)@ == old(v)@ + (if b {
            s@
        } else {
            Seq::<WriteStep>::empty()
        }),
{
    if b {
        push_all(v, s);
    } else {
        assert(old(v)@ + Seq::<WriteStep>::empty() =~= old(v)@);
    }
}

#[verifier::rlimit(40)]
fn push_new_vhd_steps(v: &mut Vec<WriteStep>, c: &WtgConfig, has_esp: bool)
    requires
        c.vhd_config is Some,
    ensures
        final(v)@ == old(v)@ + new_vhd_steps(*c, has_esp),
{
    let ghost s0 = v@;
    v.push(WriteStep::CreateVhd);
    push_bitlocker(v, c, Place::VLetter);
    push_all(
        v,
        &[WriteStep::ChooseWimIndex, WriteStep::ApplyImage(Place::VDrive), WriteStep::ImageExtra(Place::VDrive)],
    );
    let ghost s1 = v@;
    push_opt(v, c.extra_features.fix_letter, &[WriteStep::FixLetter]);
    let ghost s2 = v@;
    let need_copy = match c.boot_mode {
        BootMode::NonUefi => !c.extra_features.wimboot,
        _ => false,
    };
    assert(need_copy == plan_need_copy(*c));
    if !need_copy {
        push_vhd_boot_files(v, c, has_esp);
    } else {
        assert(v@ + Seq::<WriteStep>::empty() =~= v@);
    }
    let ghost s3 = v@;
    v.push(WriteStep::DetachVhd);
    let ghost s4 = v@;
    push_opt(v, need_copy, &[WriteStep::CopyBuiltVhd, WriteStep::Pause, WriteStep::TwiceAttach]);
    let ghost s5 = v@;
    let fixed = match &c.vhd_config {
        Some(vc) => match vc.vhd_type {
            VhdType::Fixed => true,
            VhdType::Dynamic => false,
        },
        None => true,
    };
    push_opt(v, !fixed, &[WriteStep::WriteSizeInstruction]);
    let ghost s6 = v@;
    push_vhd_bcd_fix(v, c, has_esp);
    proof {
        assert(s1 =~= s0 + seq![WriteStep::CreateVhd] + bitlocker_on(*c, Place::VLetter) + seq![
            WriteStep::ChooseWimIndex,
            WriteStep::ApplyImage(Place::VDrive),
            WriteStep::ImageExtra(Place::VDrive),
        ]);
        assert(s3 =~= s2 + (if !plan_need_copy(*c) {
            vhd_boot_files(*c, has_esp)
        } else {
            Seq::empty()
        }));
        assert(v@ =~= s0 + new_vhd_steps(*c, has_esp));
    }
}

fn push_vhd_mode(v: &mut Vec<WriteStep>, c: &WtgConfig, has_esp: bool, tail: &[WriteStep])
    ensures
        final(v)@ == old(v)@ + vhd_mode(*c, has_esp, tail@),
{
    let ghost start = v@;
    if c.vhd_config.is_none() {
        v.push(WriteStep::MissingVhdConfig);
        assert(v@ =~= start + vhd_mode(*c, has_esp, tail@));
        return;
    }
    v.push(WriteStep::CleanVhdTemp);
    let is_vhd = match c.image_type {
        ImageType::Vhd => true,
        ImageType::Vhdx => true,
        _ => false,
    };
    if is_vhd {
        v.push(WriteStep::CopyImageVhd);
        v.push(WriteStep::TwiceAttach);
    } else {
        push_new_vhd_steps(v, c, has_esp);
    }
    assert(v@ =~= start + vhd_workflow(*c, has_esp));
    push_all(v, tail);
    assert(v@ =~= start + vhd_mode(*c, has_esp, tail@));
}

/// The steps of a write with this configuration, in order.
pub fn write_plan(config: &WtgConfig) -> (r: Vec<WriteStep>)
    ensures
        r@ == spec_write_plan(*config),
{
    let c = config;
    let mut v: Vec<WriteStep> = Vec::new();
    match c.boot_mode {
        BootMode::UefiGpt => {
            v.push(WriteStep::PartitionGptUefi);
            v.push(WriteStep::WaitForTarget);
            let ghost s0 = v@;
            match c.apply_mode {
                ApplyMode::Legacy => {
                    push_bitlocker(&mut v, c, Place::Target);
                    push_all(
                        &mut v,
                        &[
                            WriteStep::ChooseWimIndex,
                            WriteStep::DismApply,
                            WriteStep::CheckSystemFiles(true),
                            WriteStep::ImageExtra(Place::Target),
                            WriteStep::Bcdboot(Place::Target, Place::Esp, FirmwareType::UEFI),
                            WriteStep::BcdeditTypical(Place::Esp, Place::Target, FirmwareType::UEFI),
                            WriteStep::RemoveEspLetter,
                        ],
                    );
                    assert(v@ =~= s0 + uefi_gpt_typical(*c));
                },
                _ => {
                    push_vhd_mode(
                        &mut v,
                        c,
                        true,
                        &[WriteStep::RemoveEspLetter, WriteStep::CheckVhdOnDisk(true)],
                    );
                },
            }
        },
        BootMode::UefiMbr => {
            v.push(WriteStep::PartitionMbrUefi);
            v.push(WriteStep::WaitForTarget);
            let ghost s0 = v@;
            match c.apply_mode {
                ApplyMode::Legacy => {
                    v.push(WriteStep::ChooseWimIndex);
                    push_bitlocker(&mut v, c, Place::Target);
                    push_all(
                        &mut v,
                        &[
                            WriteStep::ApplyImage(Place::Target),
                            WriteStep::CheckSystemFiles(false),
                            WriteStep::ImageExtra(Place::Target),
                            WriteStep::Bcdboot(Place::Target, Place::Esp, FirmwareType::ALL),
                            WriteStep::BcdeditTypical(Place::Esp, Place::Target, FirmwareType::UEFI),
                            WriteStep::RemoveEspLetter,
                        ],
                    );
                    assert(v@ =~= s0 + uefi_mbr_typical(*c));
                },
                _ => {
                    push_vhd_mode(
                        &mut v,
                        c,
                        true,
                        &[WriteStep::RemoveEspLetter, WriteStep::CheckVhdOnDisk(false)],
                    );
                },
            }
        },
        BootMode::NonUefi => {
            if c.extra_features.repartition {
                v.push(WriteStep::Repartition);
            } else if !c.extra_features.do_not_format {
                v.push(WriteStep::FormatNtfs);
            }
            let ghost s0 = v@;
            match c.apply_mode {
                ApplyMode::Legacy => {
                    push_bitlocker(&mut v, c, Place::Target);
                    push_all(
                        &mut v,
                        &[
                            WriteStep::ChooseWimIndex,
                            WriteStep::ApplyImage(Place::Target),
                            WriteStep::ImageExtra(Place::Target),
                        ],
                    );
                    if c.efi_partition_path.is_some() {
                        push_all(
                            &mut v,
                            &[
                                WriteStep::SkipUnlessEfiPartExists(3),
                                WriteStep::Bcdboot(Place::Target, Place::EfiPart, FirmwareType::ALL),
                                WriteStep::BcdeditTypical(
                                    Place::Target,
                                    Place::EfiPart,
                                    FirmwareType::BIOS,
                                ),
                                WriteStep::BcdeditTypical(
                                    Place::Target,
                                    Place::EfiPart,
                                    FirmwareType::UEFI,
                                ),
                                WriteStep::Bootice(Place::EfiPart),
                            ],
                        );
                    } else if c.extra_features.ntfs_uefi_support {
                        push_all(
                            &mut v,
                            &[
                                WriteStep::Bcdboot(Place::Target, Place::Target, FirmwareType::ALL),
                                WriteStep::BcdeditTypical(
                                    Place::Target,
                                    Place::Target,
                                    FirmwareType::BIOS,
                                ),
                                WriteStep::BcdeditTypical(
                                    Place::Target,
                                    Place::Target,
                                    FirmwareType::UEFI,
                                ),
                                WriteStep::Bootice(Place::Target),
                            ],
                        );
                    } else {
                        push_all(
                            &mut v,
                            &[
                                WriteStep::Bcdboot(Place::Target, Place::Target, FirmwareType::BIOS),
                                WriteStep::BcdeditTypical(
                                    Place::Target,
                                    Place::Target,
                                    FirmwareType::BIOS,
                                ),
                                WriteStep::Bootice(Place::Target),
                            ],
                        );
                    }
                    v.push(WriteStep::CheckBootmgr);
                    assert(v@ =~= s0 + non_uefi_typical(*c));
                },
                _ => {
                    push_vhd_mode(
                        &mut v,
                        c,
                        false,
                        &[WriteStep::Bootice(Place::Target), WriteStep::CheckVhdOnDisk(false)],
                    );
                },
            }
        },
    }
    assert(v@ =~= spec_write_plan(*c));
    v
}


// ---------------------------------------------------------------------------
// The concrete paths of a write
// ---------------------------------------------------------------------------

/// `first_char`: the first character of a text, or the empty text.
pub open spec fn first1(s: Seq<char>) -> Seq<char> {
    if s.len() == 0 {
        s
    } else {
        s.subrange(0, 1)
    }
}

/// The root of a drive given by its letter: `<first char>:\`.
pub open spec fn drive_root(letter: Seq<char>) -> Seq<char> {
    first1(letter) + ":\\"@
}

/// The ESP's letter: the configured EFI partition path, else `X:`.
pub open spec fn spec_esp_letter(c: WtgConfig) -> Seq<char> {
    match c.efi_partition_path {
        Some(p) => p@,
        None => "X:"@,
    }
}

/// The image type as the virtual-disk helpers take it.
pub open spec fn spec_image_type_name(c: WtgConfig) -> Seq<char> {
    match c.image_type {
        ImageType::Vhd => "vhd"@,
        ImageType::Vhdx => "vhdx"@,
        _ => Seq::empty(),
    }
}

/// The concrete paths and names the steps of a write use.
pub struct WriteContext {
    /// `<volume letter>:\`.
    pub ud: String,
    /// The ESP's letter (configured, else `X:`).
    pub esp_letter: String,
    /// `<ESP letter>:\`.
    pub esp: String,
    /// The configured EFI partition path (empty when none).
    pub efi_part: String,
    /// `<name>.<ext>` of the virtual disk (empty without one).
    pub vhd_filename: String,
    /// The virtual disk's plan, when the configuration has one.
    pub vhd: Option<VhdOperation>,
    /// `fixed` or `expandable`.
    pub vhd_type: String,
    /// Where the registry tools log.
    pub log_dir: String,
}

/// `ctx` holds the paths of a write of `c`, with the temporary directory
/// `temp_dir` and the log directory `log_dir`.
pub open spec fn is_write_context(ctx: WriteContext, c: WtgConfig, temp_dir: Seq<char>, log_dir: Seq<char>) -> bool {
    &&& ctx.ud@ == drive_root(c.target_disk.volume@)
    &&& ctx.esp_letter@ == spec_esp_letter(c)
    &&& ctx.esp@ == drive_root(spec_esp_letter(c))
    &&& ctx.efi_part@ == (match c.efi_partition_path {
        Some(p) => p@,
        None => Seq::<char>::empty(),
    })
    &&& ctx.log_dir@ == log_dir
    &&& match c.vhd_config {
        Some(vc) => {
            &&& ctx.vhd_filename@ == spec_vhd_filename(vc.filename@, vc.extension@)
            &&& ctx.vhd_type@ == (if vc.vhd_type == VhdType::Fixed {
                "fixed"@
            } else {
                "expandable"@
            })
            &&& ctx.vhd matches Some(op) && (image_is_vhd(c) ==> op.vhd_path@ == c.image_path@) && (
            !image_is_vhd(c) ==> {
                &&& op.need_copy == plan_need_copy(c)
                &&& op.vhd_size@ == decimal(
                    (if vc.size_mb != 0 {
                        vc.size_mb
                    } else {
                        default_vhd_size()
                    }) as nat,
                )
                &&& op.vhd_path@ == (if plan_need_copy(c) {
                    temp_dir + "\\"@ + spec_vhd_filename(vc.filename@, vc.extension@)
                } else {
                    drive_root(c.target_disk.volume@) + spec_vhd_filename(
                        vc.filename@,
                        vc.extension@,
                    )
                })
            })
        },
        None => ctx.vhd is None,
    }
}

fn drive_root_of(letter: &str) -> (r: String)
    ensures
        r@ == drive_root(letter@),
{
    let mut r = string_of(first_char(letter));
    push_str(&mut r, ":\\");
    r
}

proof fn lemma_image_type_name(c: WtgConfig)
    ensures
        crate::vhd::is_vhd_image_type(spec_image_type_name(c)) == image_is_vhd(c),
{
    reveal_strlit("vhd");
    reveal_strlit("vhdx");
    let a = crate::text::ascii_lower("vhd"@);
    let b = crate::text::ascii_lower("vhdx"@);
    assert(a.len() == 3);
    assert(b.len() == 4);
    if c.image_type == ImageType::Vhd {
        assert(crate::text::eq_ignore_case("vhd"@, "vhd"@));
    } else if c.image_type == ImageType::Vhdx {
        assert(crate::text::eq_ignore_case("vhdx"@, "vhdx"@));
    } else {
        assert(crate::text::ascii_lower(Seq::<char>::empty()).len() == 0);
    }
}

fn image_type_name(c: &WtgConfig) -> (r: &'static str)
    ensures
        r@ == spec_image_type_name(*c),
{
    proof {
        reveal_strlit("");
    }
    match c.image_type {
        ImageType::Vhd => "vhd",
        ImageType::Vhdx => "vhdx",
        _ => "",
    }
}

/// The paths of a write of `config`; `temp_dir` is the system's temporary
/// directory and `log_dir` the directory the registry tools log into.
pub fn write_context(config: &WtgConfig, temp_dir: &str, log_dir: &str) -> (r: WriteContext)
    ensures
        is_write_context(r, *config, temp_dir@, log_dir@),
{
    let c = config;
    let ud = drive_root_of(c.target_disk.volume.as_str());
    let esp_letter = match &c.efi_partition_path {
        Some(p) => p.clone(),
        None => string_of("X:"),
    };
    let esp = drive_root_of(esp_letter.as_str());
    let efi_part = match &c.efi_partition_path {
        Some(p) => p.clone(),
        None => String::new(),
    };
    let (vhd_filename, vhd, vhd_type) = match &c.vhd_config {
        Some(vc) => {
            let mut f = vc.filename.clone();
            push_str(&mut f, ".");
            push_str(&mut f, vc.extension.as_str());
            let fixed = match vc.vhd_type {
                VhdType::Fixed => true,
                VhdType::Dynamic => false,
            };
            proof {
                lemma_image_type_name(*c);
            }
            let op = VhdOperation::new(
                image_type_name(c),
                c.image_path.as_str(),
                fixed,
                vc.size_mb,
                ud.as_str(),
                temp_dir,
                vc.filename.as_str(),
                vc.extension.as_str(),
                &c.boot_mode,
                c.extra_features.wimboot,
                false,
                c.extra_features.ntfs_uefi_support,
            );
            let t = if fixed {
                string_of("fixed")
            } else {
                string_of("expandable")
            };
            (f, Some(op), t)
        },
        None => (String::new(), None, String::new()),
    };
    let r = WriteContext {
        ud,
        esp_letter,
        esp,
        efi_part,
        vhd_filename,
        vhd,
        vhd_type,
        log_dir: string_of(log_dir),
    };
    assert(r.ud@ == drive_root(c.target_disk.volume@));
    assert(r.esp_letter@ == spec_esp_letter(*c));
    assert(r.esp@ == drive_root(spec_esp_letter(*c)));
    assert(r.log_dir@ == log_dir@);
    r
}


// ---------------------------------------------------------------------------
// What each step does
// ---------------------------------------------------------------------------

/// What the caller does for one step.
pub enum WriteAction {
    /// Run a diskpart script; a failure ends the write.
    Diskpart(String),
    /// Run a diskpart script and ignore how it went.
    DiskpartIgnoringFailure(String),
    /// Run a `cmd.exe` line; a failure ends the write.
    CommandLine(String),
    /// Run `cmd.exe` lines and ignore how they went.
    CommandsIgnoringFailure(Vec<String>),
    /// Wait (up to 100 tries, 100 ms apart) for a path to appear.
    WaitForPath(String),
    /// Run the BitLocker setup tool on a drive, when the tool is there.
    EnableBitlocker(String),
    /// Settle the image index; report it back.
    ChooseIndex(WimIndexChoice),
    /// Run programs in order; a failure ends the write.
    Tools(Vec<ToolCall>),
    /// Run, in order, each program that exists (see `runs_if_present`),
    /// ignoring how it went; this never fails.
    ToolsIfPresent(Vec<ToolCall>),
    /// The path must exist, else the write ends with the error.
    RequirePath(String, AppError),
    /// Carry out the extra configuration (never fails).
    ImageExtra(ImageExtraPlan),
    /// Run bcdboot as planned.
    Bcdboot(BcdbootPlan),
    /// Run the bcdedit fixes as planned.
    Bcdedit(BcdeditPlan),
    /// Report whether the path exists; when it does not, the given number of
    /// following steps is skipped.
    SkipUnlessExists(String, u8),
    /// End the write with the error.
    Fail(AppError),
    /// Release `V:` from virtual disks named like this one and remove old
    /// script files.
    CleanVhdTemp(String),
    /// Copy a file into a directory; a failure ends the write.
    CopyFile(String, String),
    /// Attach, write boot files, detach, as planned.
    TwiceAttach(TwiceAttachPlan),
    /// Run the creation script; then `V:` must exist.
    CreateVhd(String),
    /// Wait this many milliseconds.
    Pause(u64),
    /// Write a text file and ignore how it went.
    WriteFileIgnoringFailure(FileText),
}

/// The path a place stands for.
pub open spec fn place_path(ctx: WriteContext, p: Place) -> Seq<char> {
    match p {
        Place::Target => ctx.ud@,
        Place::Esp => ctx.esp@,
        Place::VDrive => "V:\\"@,
        Place::VLetter => "V:"@,
        Place::EfiPart => ctx.efi_part@,
    }
}

fn place_str(ctx: &WriteContext, p: Place) -> (r: String)
    ensures
        r@ == place_path(*ctx, p),
{
    match p {
        Place::Target => ctx.ud.clone(),
        Place::Esp => ctx.esp.clone(),
        Place::VDrive => string_of("V:\\"),
        Place::VLetter => string_of("V:"),
        Place::EfiPart => ctx.efi_part.clone(),
    }
}

/// What a step needs of the configuration so that it does not panic.
pub open spec fn step_ready(c: WtgConfig, ctx: WriteContext, step: WriteStep) -> bool {
    match step {
        WriteStep::PartitionGptUefi => has_ascii_head(c.target_disk.volume@)
            && c.partition_config.extra_partition_sizes@.len() <= usize::MAX - 4,
        WriteStep::PartitionMbrUefi => c.partition_config.extra_partition_sizes@.len() <= usize::MAX
            - 4,
        WriteStep::Repartition => has_ascii_head(c.target_disk.volume@)
            && c.partition_config.extra_partition_sizes@.len() <= usize::MAX - 4,
        WriteStep::FormatNtfs => has_ascii_head(c.target_disk.volume@),
        WriteStep::ImageExtra(_) => sxs_source_ok(
            c.extra_features.install_dotnet35,
            c.image_path@,
        ),
        WriteStep::RemoveEspLetter => has_ascii_head(ctx.esp_letter@),
        _ => true,
    }
}

/// The message of a missing kernel file.
pub open spec fn system_files_message(gpt: bool) -> Seq<char> {
    if gpt {
        "System files not found after image apply"@
    } else {
        "System files verification failed"@
    }
}

/// The message of a missing virtual disk.
pub open spec fn vhd_missing_message(gpt: bool) -> Seq<char> {
    if gpt {
        "VHD file not found on target disk"@
    } else {
        "VHD file not found"@
    }
}

/// `a` is the action of `step` in a write of `c` with the paths `ctx`, the
/// tools under `app`, and the image index `idx`.
pub open spec fn is_step_action(
    a: WriteAction,
    c: WtgConfig,
    ctx: WriteContext,
    app: Seq<char>,
    step: WriteStep,
    idx: Seq<char>,
) -> bool {
    let sizes = c.partition_config.extra_partition_sizes@;
    let vol = c.target_disk.volume@;
    match step {
        WriteStep::PartitionGptUefi => a matches WriteAction::Diskpart(s) && s@
            == spec_gpt_uefi_script(
            c.efi_partition_size@,
            c.target_disk.index@,
            vol[0],
            contains(c.target_disk.drive_type@, "Removable"@),
            sizes,
        ),
        WriteStep::PartitionMbrUefi => a matches WriteAction::Diskpart(s) && s@
            == spec_mbr_uefi_script(
            c.efi_partition_size@,
            c.target_disk.index@,
            vol,
            sizes,
            false,
        ),
        WriteStep::Repartition => a matches WriteAction::Diskpart(s) && s@
            == spec_repartition_script(vol[0], sizes),
        WriteStep::FormatNtfs => a matches WriteAction::CommandLine(s) && s@ == "format "@
            + seq![vol[0]] + ":/FS:ntfs /q /V: /Y"@,
        WriteStep::WaitForTarget => a matches WriteAction::WaitForPath(s) && s@ == ctx.ud@,
        WriteStep::EnableBitlocker(p) => a matches WriteAction::EnableBitlocker(s) && s@
            == place_path(ctx, p),
        WriteStep::ChooseWimIndex => a matches WriteAction::ChooseIndex(ch) && (c.wim_index@
            != "0"@ ==> (ch matches WimIndexChoice::Chosen(x) && x@ == c.wim_index@)) && (
        c.wim_index@ == "0"@ ==> (if has_extension(c.image_path@, "esd"@) {
            ch is CountEsdIndexes
        } else {
            ch is CountImages
        })),
        WriteStep::DismApply => a matches WriteAction::Tools(v) && v@.len() == 1
            && v@[0].program@ == "Dism.exe"@ && crate::boot::strs(v@[0].args@)
            == spec_dism_apply_args(c.image_path@, ctx.ud@, idx, c.extra_features.compact_os),
        WriteStep::ApplyImage(p) => a matches WriteAction::Tools(v) && is_image_apply_calls(
            v@,
            c.extra_features.wimboot,
            c.image_type == ImageType::Esd,
            true,
            "imagex_x86.exe"@,
            c.image_path@,
            idx,
            place_path(ctx, p),
            ctx.ud@,
            c.extra_features.compact_os,
        ),
        WriteStep::CheckSystemFiles(gpt) => a matches WriteAction::RequirePath(path, e) && path@
            == ctx.ud@ + "\\Windows\\system32\\ntoskrnl.exe"@ && (e matches AppError::ImageError(
            m,
        ) && m@ == system_files_message(gpt)),
        WriteStep::ImageExtra(p) => a matches WriteAction::ImageExtra(x) && is_image_extra_plan(
            x,
            c.extra_features.install_dotnet35,
            c.extra_features.block_local_disk,
            c.extra_features.disable_winre,
            c.extra_features.skip_oobe,
            c.extra_features.disable_uasp,
            place_path(ctx, p),
            c.image_path@,
            app,
            match c.extra_features.driver_path {
                Some(d) => Some(d@),
                None => None,
            },
        ),
        WriteStep::Bcdboot(src, dst, fw) => a matches WriteAction::Bcdboot(b) && is_bcdboot_plan(
            b,
            place_path(ctx, src),
            place_path(ctx, dst),
            fw,
        ),
        WriteStep::BcdeditTypical(bcd, os, fw) => a matches WriteAction::Bcdedit(b)
            && is_bcdedit_typical_plan(b, place_path(ctx, bcd), place_path(ctx, os), fw),
        WriteStep::BcdeditVhd(bcd, os, fw) => a matches WriteAction::Bcdedit(b)
            && is_bcdedit_vhd_plan(
            b,
            place_path(ctx, bcd),
            place_path(ctx, os),
            ctx.vhd_filename@,
            fw,
        ),
        WriteStep::Bootice(p) => a matches WriteAction::ToolsIfPresent(v) && is_bootice_calls(
            v@,
            place_path(ctx, p),
            app,
        ),
        WriteStep::RemoveEspLetter => a matches WriteAction::DiskpartIgnoringFailure(s) && s@
            == "select volume "@ + seq![ctx.esp_letter@[0]] + "\nremove\nexit\n"@,
        WriteStep::CheckBootmgr => a matches WriteAction::RequirePath(path, e) && path@ == ctx.ud@
            + "bootmgr"@ && (e matches AppError::ImageError(m) && m@
            == "bootmgr not found - boot file write may have failed"@),
        WriteStep::SkipUnlessEfiPartExists(n) => a matches WriteAction::SkipUnlessExists(path, k)
            && path@ == ctx.efi_part@ && k == n,
        WriteStep::CheckVhdOnDisk(gpt) => a matches WriteAction::RequirePath(path, e) && path@
            == ctx.ud@ + ctx.vhd_filename@ && (e matches AppError::DiskError(m) && m@
            == vhd_missing_message(gpt)),
        WriteStep::MissingVhdConfig => a matches WriteAction::Fail(e) && (e matches AppError::InvalidParameter(
            m,
        ) && m@ == "VHD config required for VHD mode"@),
        _ => vhd_step_action(a, c, ctx, step),
    }
}

/// The action of a step of the virtual-disk workflow.
pub open spec fn vhd_step_action(a: WriteAction, c: WtgConfig, ctx: WriteContext, step: WriteStep) -> bool {
    match (c.vhd_config, ctx.vhd) {
        (Some(vc), Some(op)) => match step {
            WriteStep::CleanVhdTemp => a matches WriteAction::CleanVhdTemp(n) && n@ == vc.filename@,
            WriteStep::CopyImageVhd => a matches WriteAction::CopyFile(from, to) && from@
                == c.image_path@ && to@ == ctx.ud@,
            WriteStep::TwiceAttach => a matches WriteAction::TwiceAttach(t)
                && crate::vhd::is_twice_attach_plan(
                t,
                ctx.ud@,
                ctx.vhd_filename@,
                c.extra_features.ntfs_uefi_support,
            ),
            WriteStep::CreateVhd => a matches WriteAction::CreateVhd(s) && s@
                == spec_create_vhd_script(
                op.vhd_path@,
                ctx.vhd_type@,
                op.vhd_size@,
                spec_image_type_name(c),
                vc.partition_type,
            ),
            WriteStep::FixLetter => a matches WriteAction::CommandsIgnoringFailure(v)
                && crate::boot::strs(v@) == seq![
                "reg.exe load HKU\\TEMP "@ + "V:"@ + "\\Windows\\System32\\Config\\SYSTEM > \""@
                    + ctx.log_dir@ + "\\loadreg.log\""@,
                "reg.exe unload HKU\\TEMP > \""@ + ctx.log_dir@ + "\\unloadreg.log\""@,
            ],
            WriteStep::DetachVhd => a matches WriteAction::Diskpart(s) && s@ == select_vdisk(
                op.vhd_path@,
            ) + "detach vdisk\n"@,
            WriteStep::CopyBuiltVhd => a matches WriteAction::CopyFile(from, to) && from@
                == op.vhd_path@ && to@ == ctx.ud@,
            WriteStep::Pause => a matches WriteAction::Pause(ms) && ms == 1500,
            WriteStep::WriteSizeInstruction => a matches WriteAction::WriteFileIgnoringFailure(f)
                && f.path@ == ctx.ud@ + "VHD_Info.txt"@ && f.contents@ == "VHD Dynamic Size: "@
                + op.vhd_size@
                + "MB\nThe VHD will expand to this size after the system boots.\nPlease ensure sufficient space on the USB drive.\n"@,
            _ => true,
        },
        _ => a matches WriteAction::Fail(e) && (e matches AppError::InvalidParameter(m) && m@
            == "VHD config required for VHD mode"@),
    }
}

fn missing_vhd_config() -> (e: AppError)
    ensures
        e matches AppError::InvalidParameter(m) && m@ == "VHD config required for VHD mode"@,
{
    AppError::InvalidParameter(string_of("VHD config required for VHD mode"))
}

fn vhd_action(c: &WtgConfig, ctx: &WriteContext, step: WriteStep) -> (r: WriteAction)
    ensures
        vhd_step_action(r, *c, *ctx, step),
{
    let (vc, op) = match (&c.vhd_config, &ctx.vhd) {
        (Some(vc), Some(op)) => (vc, op),
        _ => {
            return WriteAction::Fail(missing_vhd_config());
        },
    };
    match step {
        WriteStep::CleanVhdTemp => WriteAction::CleanVhdTemp(vc.filename.clone()),
        WriteStep::CopyImageVhd => WriteAction::CopyFile(c.image_path.clone(), ctx.ud.clone()),
        WriteStep::TwiceAttach => WriteAction::TwiceAttach(
            twice_attach_and_write_boot(
                ctx.ud.as_str(),
                ctx.vhd_filename.as_str(),
                c.extra_features.ntfs_uefi_support,
            ),
        ),
        WriteStep::CreateVhd => WriteAction::CreateVhd(
            create_vhd(
                op.vhd_path.as_str(),
                ctx.vhd_type.as_str(),
                op.vhd_size.as_str(),
                image_type_name(c),
                vc.partition_type,
            ),
        ),
        WriteStep::FixLetter => WriteAction::CommandsIgnoringFailure(
            fix_letter("C:", "V:", ctx.log_dir.as_str()),
        ),
        WriteStep::DetachVhd => WriteAction::Diskpart(detach_vhd(op.vhd_path.as_str())),
        WriteStep::CopyBuiltVhd => WriteAction::CopyFile(op.vhd_path.clone(), ctx.ud.clone()),
        WriteStep::Pause => WriteAction::Pause(1500),
        WriteStep::WriteSizeInstruction => WriteAction::WriteFileIgnoringFailure(
            dynamic_size_instruction(ctx.ud.as_str(), op.vhd_size.as_str()),
        ),
        _ => WriteAction::Pause(0),
    }
}

fn image_error(m: &str) -> (e: AppError)
    ensures
        e matches AppError::ImageError(x) && x@ == m@,
{
    AppError::ImageError(string_of(m))
}

/// The action of one step of a write of `config`, with the paths `ctx`,
/// the tools under `app_files_path`, and the image index chosen so far.
pub fn step_action(
    config: &WtgConfig,
    ctx: &WriteContext,
    app_files_path: &str,
    step: WriteStep,
    wim_index: &str,
) -> (r: WriteAction)
    requires
        step_ready(*config, *ctx, step),
    ensures
        is_step_action(r, *config, *ctx, app_files_path@, step, wim_index@),
{
    let c = config;
    let sizes = c.partition_config.extra_partition_sizes.as_slice();
    let vol = c.target_disk.volume.as_str();
    match step {
        WriteStep::PartitionGptUefi => WriteAction::Diskpart(
            diskpart_gpt_uefi(
                c.efi_partition_size.as_str(),
                c.target_disk.index.as_str(),
                vol,
                c.target_disk.drive_type.as_str(),
                sizes,
            ),
        ),
        WriteStep::PartitionMbrUefi => WriteAction::Diskpart(
            diskpart_mbr_uefi(
                c.efi_partition_size.as_str(),
                c.target_disk.index.as_str(),
                vol,
                sizes,
                false,
            ),
        ),
        WriteStep::Repartition => WriteAction::Diskpart(diskpart_repartition(vol, sizes)),
        WriteStep::FormatNtfs => WriteAction::CommandLine(format_ntfs(vol)),
        WriteStep::WaitForTarget => WriteAction::WaitForPath(ctx.ud.clone()),
        WriteStep::EnableBitlocker(p) => WriteAction::EnableBitlocker(place_str(ctx, p)),
        WriteStep::ChooseWimIndex => WriteAction::ChooseIndex(
            auto_choose_wim_index(c.image_path.as_str(), c.wim_index.as_str()),
        ),
        WriteStep::DismApply => {
            let mut v: Vec<ToolCall> = Vec::new();
            v.push(
                dism_apply_image(
                    c.image_path.as_str(),
                    ctx.ud.as_str(),
                    wim_index,
                    c.extra_features.compact_os,
                ),
            );
            WriteAction::Tools(v)
        },
        WriteStep::ApplyImage(p) => {
            let target = place_str(ctx, p);
            WriteAction::Tools(
                image_apply(
                    c.extra_features.wimboot,
                    match c.image_type {
                        ImageType::Esd => true,
                        _ => false,
                    },
                    true,
                    "imagex_x86.exe",
                    c.image_path.as_str(),
                    wim_index,
                    target.as_str(),
                    ctx.ud.as_str(),
                    c.extra_features.compact_os,
                ),
            )
        },
        WriteStep::CheckSystemFiles(gpt) => {
            let e = if gpt {
                image_error("System files not found after image apply")
            } else {
                image_error("System files verification failed")
            };
            WriteAction::RequirePath(verify_system_files(ctx.ud.as_str()), e)
        },
        WriteStep::ImageExtra(p) => {
            let target = place_str(ctx, p);
            let driver: Option<&str> = match &c.extra_features.driver_path {
                Some(d) => Some(d.as_str()),
                None => None,
            };
            WriteAction::ImageExtra(
                image_extra(
                    c.extra_features.install_dotnet35,
                    c.extra_features.block_local_disk,
                    c.extra_features.disable_winre,
                    c.extra_features.skip_oobe,
                    c.extra_features.disable_uasp,
                    target.as_str(),
                    c.image_path.as_str(),
                    app_files_path,
                    driver,
                ),
            )
        },
        WriteStep::Bcdboot(src, dst, fw) => {
            let a = place_str(ctx, src);
            let b = place_str(ctx, dst);
            WriteAction::Bcdboot(bcdboot_write_boot_file(a.as_str(), b.as_str(), fw))
        },
        WriteStep::BcdeditTypical(bcd, os, fw) => {
            let a = place_str(ctx, bcd);
            let b = place_str(ctx, os);
            WriteAction::Bcdedit(bcdedit_fix_boot_file_typical(a.as_str(), b.as_str(), fw))
        },
        WriteStep::BcdeditVhd(bcd, os, fw) => {
            let a = place_str(ctx, bcd);
            let b = place_str(ctx, os);
            WriteAction::Bcdedit(
                bcdedit_fix_boot_file_vhd(a.as_str(), b.as_str(), ctx.vhd_filename.as_str(), fw),
            )
        },
        WriteStep::Bootice(p) => {
            let a = place_str(ctx, p);
            WriteAction::ToolsIfPresent(bootice_write_mbr_pbr_and_act(a.as_str(), app_files_path))
        },
        WriteStep::RemoveEspLetter => WriteAction::DiskpartIgnoringFailure(
            remove_drive_letter(ctx.esp_letter.as_str()),
        ),
        WriteStep::CheckBootmgr => {
            let mut path = ctx.ud.clone();
            push_str(&mut path, "bootmgr");
            WriteAction::RequirePath(
                path,
                image_error("bootmgr not found - boot file write may have failed"),
            )
        },
        WriteStep::SkipUnlessEfiPartExists(n) => WriteAction::SkipUnlessExists(
            ctx.efi_part.clone(),
            n,
        ),
        WriteStep::CheckVhdOnDisk(gpt) => {
            let mut path = ctx.ud.clone();
            push_str(&mut path, ctx.vhd_filename.as_str());
            let m = if gpt {
                string_of("VHD file not found on target disk")
            } else {
                string_of("VHD file not found")
            };
            WriteAction::RequirePath(path, AppError::DiskError(m))
        },
        WriteStep::MissingVhdConfig => WriteAction::Fail(missing_vhd_config()),
        _ => vhd_action(c, ctx, step),
    }
}


// ---------------------------------------------------------------------------
// Readiness of a whole write
// ---------------------------------------------------------------------------

/// Whether the plan partitions or formats by the target's volume letter.
pub open spec fn uses_volume_letter(c: WtgConfig) -> bool {
    c.boot_mode == BootMode::UefiGpt || (c.boot_mode == BootMode::NonUefi && (
    c.extra_features.repartition || !c.extra_features.do_not_format))
}

/// Whether the plan takes the ESP's letter away.
pub open spec fn removes_esp_letter(c: WtgConfig) -> bool {
    c.boot_mode != BootMode::NonUefi && (c.apply_mode == ApplyMode::Legacy || c.vhd_config is Some)
}

/// Whether the plan configures an applied image.
pub open spec fn configures_image(c: WtgConfig) -> bool {
    c.apply_mode == ApplyMode::Legacy || (c.vhd_config is Some && !image_is_vhd(c))
}

/// What a write of `c` needs so that none of its steps panics.
pub open spec fn write_ready(c: WtgConfig, ctx: WriteContext) -> bool {
    &&& c.partition_config.extra_partition_sizes@.len() <= usize::MAX - 4
    &&& (uses_volume_letter(c) ==> has_ascii_head(c.target_disk.volume@))
    &&& (removes_esp_letter(c) ==> has_ascii_head(ctx.esp_letter@))
    &&& (configures_image(c) ==> sxs_source_ok(
        c.extra_features.install_dotnet35,
        c.image_path@,
    ))
}

/// Every step of `s` is ready.
pub open spec fn all_ready(c: WtgConfig, ctx: WriteContext, s: Seq<WriteStep>) -> bool {
    forall|i: int| 0 <= i < s.len() ==> step_ready(c, ctx, #[trigger] s[i])
}

proof fn lemma_all_ready_add(c: WtgConfig, ctx: WriteContext, a: Seq<WriteStep>, b: Seq<WriteStep>)
    requires
        all_ready(c, ctx, a),
        all_ready(c, ctx, b),
    ensures
        all_ready(c, ctx, a + b),
{
    assert forall|i: int| 0 <= i < (a + b).len() implies step_ready(c, ctx, #[trigger] (a + b)[i]) by {
        if i >= a.len() {
            assert((a + b)[i] == b[i - a.len()]);
        }
    }
}

proof fn lemma_vhd_workflow_ready(c: WtgConfig, ctx: WriteContext, has_esp: bool)
    requires
        c.vhd_config is Some,
        write_ready(c, ctx),
    ensures
        all_ready(c, ctx, vhd_workflow(c, has_esp)),
{
    reveal(bitlocker_on);
    reveal(vhd_boot_files);
    reveal(vhd_bcd_fix);
    if !image_is_vhd(c) {
        let fix = if c.extra_features.fix_letter {
            seq![WriteStep::FixLetter]
        } else {
            Seq::empty()
        };
        let boot = if !plan_need_copy(c) {
            vhd_boot_files(c, has_esp)
        } else {
            Seq::empty()
        };
        let copy = if plan_need_copy(c) {
            seq![WriteStep::CopyBuiltVhd, WriteStep::Pause, WriteStep::TwiceAttach]
        } else {
            Seq::empty()
        };
        let size = if c.vhd_config.unwrap().vhd_type != VhdType::Fixed {
            seq![WriteStep::WriteSizeInstruction]
        } else {
            Seq::empty()
        };
        let head = seq![WriteStep::CreateVhd] + bitlocker_on(c, Place::VLetter) + seq![
            WriteStep::ChooseWimIndex,
            WriteStep::ApplyImage(Place::VDrive),
            WriteStep::ImageExtra(Place::VDrive),
        ];
        assert(all_ready(c, ctx, head));
        assert(all_ready(c, ctx, fix));
        assert(all_ready(c, ctx, boot));
        assert(all_ready(c, ctx, seq![WriteStep::DetachVhd]));
        assert(all_ready(c, ctx, copy));
        assert(all_ready(c, ctx, size));
        assert(all_ready(c, ctx, vhd_bcd_fix(c, has_esp)));
        lemma_all_ready_add(c, ctx, head, fix);
        lemma_all_ready_add(c, ctx, head + fix, boot);
        lemma_all_ready_add(c, ctx, head + fix + boot, seq![WriteStep::DetachVhd]);
        lemma_all_ready_add(c, ctx, head + fix + boot + seq![WriteStep::DetachVhd], copy);
        lemma_all_ready_add(c, ctx, head + fix + boot + seq![WriteStep::DetachVhd] + copy, size);
        lemma_all_ready_add(
            c,
            ctx,
            head + fix + boot + seq![WriteStep::DetachVhd] + copy + size,
            vhd_bcd_fix(c, has_esp),
        );
        lemma_all_ready_add(c, ctx, seq![WriteStep::CleanVhdTemp], new_vhd_steps(c, has_esp));
    } else {
        assert(all_ready(c, ctx, vhd_workflow(c, has_esp)));
    }
}

/// Under `write_ready`, every step of the plan meets `step_ready`, so the
/// plan can be carried out step by step with `step_action`.
pub proof fn lemma_plan_steps_ready(c: WtgConfig, ctx: WriteContext)
    requires
        write_ready(c, ctx),
    ensures
        forall|i: int|
            0 <= i < spec_write_plan(c).len() ==> step_ready(c, ctx, #[trigger] spec_write_plan(c)[i]),
{
    reveal(bitlocker_on);
    let p = spec_write_plan(c);
    let body = match c.boot_mode {
        BootMode::UefiGpt => match c.apply_mode {
            ApplyMode::Legacy => uefi_gpt_typical(c),
            _ => vhd_mode(c, true, seq![WriteStep::RemoveEspLetter, WriteStep::CheckVhdOnDisk(true)]),
        },
        BootMode::UefiMbr => match c.apply_mode {
            ApplyMode::Legacy => uefi_mbr_typical(c),
            _ => vhd_mode(c, true, seq![WriteStep::RemoveEspLetter, WriteStep::CheckVhdOnDisk(false)]),
        },
        BootMode::NonUefi => match c.apply_mode {
            ApplyMode::Legacy => non_uefi_typical(c),
            _ => vhd_mode(c, false, seq![WriteStep::Bootice(Place::Target), WriteStep::CheckVhdOnDisk(false)]),
        },
    };
    let head = match c.boot_mode {
        BootMode::UefiGpt => seq![WriteStep::PartitionGptUefi, WriteStep::WaitForTarget],
        BootMode::UefiMbr => seq![WriteStep::PartitionMbrUefi, WriteStep::WaitForTarget],
        BootMode::NonUefi => if c.extra_features.repartition {
            seq![WriteStep::Repartition]
        } else if !c.extra_features.do_not_format {
            seq![WriteStep::FormatNtfs]
        } else {
            Seq::empty()
        },
    };
    assert(p =~= head + body);
    assert(all_ready(c, ctx, head));
    if c.apply_mode == ApplyMode::Legacy {
        let b = bitlocker_on(c, Place::Target);
        assert(all_ready(c, ctx, b));
        assert(all_ready(c, ctx, body)) by {
            match c.boot_mode {
                BootMode::UefiGpt => {
                    let rest = seq![
                        WriteStep::ChooseWimIndex,
                        WriteStep::DismApply,
                        WriteStep::CheckSystemFiles(true),
                        WriteStep::ImageExtra(Place::Target),
                        WriteStep::Bcdboot(Place::Target, Place::Esp, FirmwareType::UEFI),
                        WriteStep::BcdeditTypical(Place::Esp, Place::Target, FirmwareType::UEFI),
                        WriteStep::RemoveEspLetter,
                    ];
                    assert(all_ready(c, ctx, rest));
                    lemma_all_ready_add(c, ctx, b, rest);
                },
                BootMode::UefiMbr => {
                    let rest = seq![
                        WriteStep::ApplyImage(Place::Target),
                        WriteStep::CheckSystemFiles(false),
                        WriteStep::ImageExtra(Place::Target),
                        WriteStep::Bcdboot(Place::Target, Place::Esp, FirmwareType::ALL),
                        WriteStep::BcdeditTypical(Place::Esp, Place::Target, FirmwareType::UEFI),
                        WriteStep::RemoveEspLetter,
                    ];
                    assert(all_ready(c, ctx, rest));
                    assert(all_ready(c, ctx, seq![WriteStep::ChooseWimIndex]));
                    lemma_all_ready_add(c, ctx, seq![WriteStep::ChooseWimIndex], b);
                    lemma_all_ready_add(c, ctx, seq![WriteStep::ChooseWimIndex] + b, rest);
                },
                BootMode::NonUefi => {
                    let mid = seq![
                        WriteStep::ChooseWimIndex,
                        WriteStep::ApplyImage(Place::Target),
                        WriteStep::ImageExtra(Place::Target),
                    ];
                    let boot = if c.efi_partition_path is Some {
                        seq![
                            WriteStep::SkipUnlessEfiPartExists(3),
                            WriteStep::Bcdboot(Place::Target, Place::EfiPart, FirmwareType::ALL),
                            WriteStep::BcdeditTypical(Place::Target, Place::EfiPart, FirmwareType::BIOS),
                            WriteStep::BcdeditTypical(Place::Target, Place::EfiPart, FirmwareType::UEFI),
                            WriteStep::Bootice(Place::EfiPart),
                        ]
                    } else if c.extra_features.ntfs_uefi_support {
                        seq![
                            WriteStep::Bcdboot(Place::Target, Place::Target, FirmwareType::ALL),
                            WriteStep::BcdeditTypical(Place::Target, Place::Target, FirmwareType::BIOS),
                            WriteStep::BcdeditTypical(Place::Target, Place::Target, FirmwareType::UEFI),
                            WriteStep::Bootice(Place::Target),
                        ]
                    } else {
                        seq![
                            WriteStep::Bcdboot(Place::Target, Place::Target, FirmwareType::BIOS),
                            WriteStep::BcdeditTypical(Place::Target, Place::Target, FirmwareType::BIOS),
                            WriteStep::Bootice(Place::Target),
                        ]
                    };
                    assert(all_ready(c, ctx, mid));
                    assert(all_ready(c, ctx, boot));
                    assert(all_ready(c, ctx, seq![WriteStep::CheckBootmgr]));
                    lemma_all_ready_add(c, ctx, b, mid);
                    lemma_all_ready_add(c, ctx, b + mid, boot);
                    lemma_all_ready_add(c, ctx, b + mid + boot, seq![WriteStep::CheckBootmgr]);
                },
            }
        }
    } else {
        assert(all_ready(c, ctx, body)) by {
            let tail = match c.boot_mode {
                BootMode::UefiGpt => seq![WriteStep::RemoveEspLetter, WriteStep::CheckVhdOnDisk(true)],
                BootMode::UefiMbr => seq![WriteStep::RemoveEspLetter, WriteStep::CheckVhdOnDisk(false)],
                BootMode::NonUefi => seq![WriteStep::Bootice(Place::Target), WriteStep::CheckVhdOnDisk(false)],
            };
            if c.vhd_config is Some {
                let has_esp = c.boot_mode != BootMode::NonUefi;
                lemma_vhd_workflow_ready(c, ctx, has_esp);
                assert(all_ready(c, ctx, tail));
                lemma_all_ready_add(c, ctx, vhd_workflow(c, has_esp), tail);
            }
        }
    }
    lemma_all_ready_add(c, ctx, head, body);
}

/// Whether `write_ready` holds.
pub fn write_ready_check(config: &WtgConfig, ctx: &WriteContext) -> (r: bool)
    ensures
        r == write_ready(*config, *ctx),
{
    let c = config;
    if c.partition_config.extra_partition_sizes.len() > usize::MAX - 4 {
        return false;
    }
    let uses_letter = match c.boot_mode {
        BootMode::UefiGpt => true,
        BootMode::UefiMbr => false,
        BootMode::NonUefi => c.extra_features.repartition || !c.extra_features.do_not_format,
    };
    if uses_letter && !ascii_head(c.target_disk.volume.as_str()) {
        return false;
    }
    let removes = match c.boot_mode {
        BootMode::NonUefi => false,
        _ => match c.apply_mode {
            ApplyMode::Legacy => true,
            _ => c.vhd_config.is_some(),
        },
    };
    if removes && !ascii_head(ctx.esp_letter.as_str()) {
        return false;
    }
    let is_vhd = match c.image_type {
        ImageType::Vhd => true,
        ImageType::Vhdx => true,
        _ => false,
    };
    let configures = match c.apply_mode {
        ApplyMode::Legacy => true,
        _ => c.vhd_config.is_some() && !is_vhd,
    };
    if configures && !crate::image::sxs_source_available(
        c.extra_features.install_dotnet35,
        c.image_path.as_str(),
    ) {
        return false;
    }
    true
}

fn ascii_head(s: &str) -> (r: bool)
    ensures
        r == has_ascii_head(s@),
{
    if s.unicode_len() == 0 {
        false
    } else {
        let c = s.get_char(0);
        (c as u32) < 128
    }
}

// ---------------------------------------------------------------------------
// Walking the plan
// ---------------------------------------------------------------------------

/// What came of a step.
pub enum StepOutcome {
    /// It went through.
    Done,
    /// It failed; the write ends with this error.
    Failed(AppError),
    /// Answer to `SkipUnlessExists`.
    PathExists(bool),
    /// Answer to `ChooseIndex`: the index to apply.
    WimIndex(String),
}

/// A write in progress: the plan, the next step, the image index chosen so
/// far, and the error that ended it, if one did.
pub struct WriteRun {
    pub steps: Vec<WriteStep>,
    pub pos: usize,
    pub wim_index: String,
    pub error: Option<AppError>,
}

/// Whether the run has ended (by failing or by running out of steps).
pub open spec fn run_finished(r: WriteRun) -> bool {
    r.error is Some || r.pos >= r.steps@.len()
}

/// Where the run goes after `o`, from position `pos` in `steps`.
pub open spec fn next_pos(steps: Seq<WriteStep>, pos: int, o: StepOutcome) -> int {
    match o {
        StepOutcome::Failed(_) => pos,
        StepOutcome::PathExists(false) => match steps[pos] {
            WriteStep::SkipUnlessEfiPartExists(n) => if pos + 1 + n <= steps.len() {
                pos + 1 + n
            } else {
                steps.len() as int
            },
            _ => pos + 1,
        },
        _ => pos + 1,
    }
}

impl WriteRun {
    /// A run at the start of the plan for `config`.
    pub fn new(config: &WtgConfig) -> (r: Self)
        ensures
            r.steps@ == spec_write_plan(*config),
            r.pos == 0,
            r.wim_index@ == Seq::<char>::empty(),
            r.error is None,
    {
        WriteRun { steps: write_plan(config), pos: 0, wim_index: String::new(), error: None }
    }

    /// The step to carry out next; none once the run has ended.
    pub fn current(&self) -> (r: Option<WriteStep>)
        ensures
            run_finished(*self) ==> r is None,
            !run_finished(*self) ==> r == Some(self.steps@[self.pos as int]),
    {
        if self.error.is_some() || self.pos >= self.steps.len() {
            None
        } else {
            Some(self.steps[self.pos])
        }
    }

    /// Takes in what came of the current step: an error ends the run, an
    /// index is kept for the steps that apply the image, a missing boot
    /// partition skips the steps that need it, anything else moves on.
    pub fn record(&mut self, outcome: StepOutcome)
        requires
            old(self).pos <= old(self).steps@.len(),
        ensures
            final(self).steps@ == old(self).steps@,
            final(self).pos <= final(self).steps@.len(),
            run_finished(*old(self)) ==> *final(self) == *old(self),
            !run_finished(*old(self)) ==> {
                &&& final(self).pos == next_pos(old(self).steps@, old(self).pos as int, outcome)
                &&& final(self).error == (match outcome {
                    StepOutcome::Failed(e) => Some(e),
                    _ => None,
                })
                &&& final(self).wim_index@ == (match outcome {
                    StepOutcome::WimIndex(s) => s@,
                    _ => old(self).wim_index@,
                })
            },
    {
        if self.error.is_some() || self.pos >= self.steps.len() {
            return;
        }
        let step = self.steps[self.pos];
        match outcome {
            StepOutcome::Failed(e) => {
                self.error = Some(e);
            },
            StepOutcome::PathExists(exists) => {
                let mut next = self.pos + 1;
                if !exists {
                    if let WriteStep::SkipUnlessEfiPartExists(n) = step {
                        let len = self.steps.len();
                        if n as usize <= len - next {
                            next = next + n as usize;
                        } else {
                            next = len;
                        }
                    }
                }
                self.pos = next;
            },
            StepOutcome::WimIndex(s) => {
                self.wim_index = s;
                self.pos = self.pos + 1;
            },
            StepOutcome::Done => {
                self.pos = self.pos + 1;
            },
        }
    }
}

// ---------------------------------------------------------------------------
// How a write ended
// ---------------------------------------------------------------------------

/// The end of a write as the front end is told.
pub struct WriteReport {
    pub status: crate::models::WriteStatus,
    pub message: String,
    /// The diskpart script that keeps Windows from giving the target a
    /// letter by default, run (result ignored) after a successful write
    /// when asked for.
    pub no_default_letter_script: Option<String>,
}

/// How a write ended, from the error that ended it (if any): completed or
/// failed, with its message.
pub fn write_outcome(config: &WtgConfig, error: Option<AppError>) -> (r: WriteReport)
    requires
        error is None && config.extra_features.no_default_drive_letter
            && config.target_disk.volume@.len() > 0 ==> has_ascii_head(config.target_disk.volume@),
    ensures
        match error {
            None => {
                &&& r.status == crate::models::WriteStatus::Completed
                &&& r.message@ == "Write completed successfully"@
                &&& (config.extra_features.no_default_drive_letter && config.target_disk.volume@.len()
                    > 0) == r.no_default_letter_script is Some
                &&& r.no_default_letter_script matches Some(s) ==> s@ == "select volume "@ + seq![
                    config.target_disk.volume@[0],
                ] + "\nattributes volume set nodefaultdriveletter\n"@
            },
            Some(e) => {
                &&& r.status == crate::models::WriteStatus::Failed
                &&& r.message@ == "Write failed: "@ + spec_message(e)
                &&& r.no_default_letter_script is None
            },
        },
{
    match error {
        None => {
            let vol = config.target_disk.volume.as_str();
            let script = if config.extra_features.no_default_drive_letter && vol.unicode_len() > 0 {
                Some(set_no_default_drive_letter(vol))
            } else {
                None
            };
            WriteReport {
                status: crate::models::WriteStatus::Completed,
                message: string_of("Write completed successfully"),
                no_default_letter_script: script,
            }
        },
        Some(e) => {
            let mut m = string_of("Write failed: ");
            let t = e.message();
            push_str(&mut m, t.as_str());
            WriteReport {
                status: crate::models::WriteStatus::Failed,
                message: m,
                no_default_letter_script: None,
            }
        },
    }
}


/// No step of `s` formats the target volume.
pub open spec fn no_format_step(s: Seq<WriteStep>) -> bool {
    forall|i: int| 0 <= i < s.len() ==> !(s[i] is FormatNtfs)
}

proof fn lemma_no_format_add(a: Seq<WriteStep>, b: Seq<WriteStep>)
    requires
        no_format_step(a),
        no_format_step(b),
    ensures
        no_format_step(a + b),
{
    assert forall|i: int| 0 <= i < (a + b).len() implies !((a + b)[i] is FormatNtfs) by {
        if i < a.len() {
            assert((a + b)[i] == a[i]);
        } else {
            assert((a + b)[i] == b[i - a.len()]);
        }
    }
}

proof fn lemma_vhd_mode_no_format(c: WtgConfig, has_esp: bool, tail: Seq<WriteStep>)
    requires
        no_format_step(tail),
    ensures
        no_format_step(vhd_mode(c, has_esp, tail)),
{
    reveal(bitlocker_on);
    reveal(vhd_boot_files);
    reveal(vhd_bcd_fix);
    if c.vhd_config is Some {
        let bl = bitlocker_on(c, Place::VLetter);
        let fl: Seq<WriteStep> = if c.extra_features.fix_letter {
            seq![WriteStep::FixLetter]
        } else {
            Seq::empty()
        };
        let bf: Seq<WriteStep> = if !plan_need_copy(c) {
            vhd_boot_files(c, has_esp)
        } else {
            Seq::empty()
        };
        let cp: Seq<WriteStep> = if plan_need_copy(c) {
            seq![WriteStep::CopyBuiltVhd, WriteStep::Pause, WriteStep::TwiceAttach]
        } else {
            Seq::empty()
        };
        let sz: Seq<WriteStep> = if c.vhd_config.unwrap().vhd_type != VhdType::Fixed {
            seq![WriteStep::WriteSizeInstruction]
        } else {
            Seq::empty()
        };
        let fx = vhd_bcd_fix(c, has_esp);
        let a = seq![WriteStep::CreateVhd];
        let m = seq![
            WriteStep::ChooseWimIndex,
            WriteStep::ApplyImage(Place::VDrive),
            WriteStep::ImageExtra(Place::VDrive),
        ];
        let d = seq![WriteStep::DetachVhd];
        assert(no_format_step(a));
        assert(no_format_step(bl));
        assert(no_format_step(m));
        assert(no_format_step(fl));
        assert(no_format_step(bf));
        assert(no_format_step(d));
        assert(no_format_step(cp));
        assert(no_format_step(sz));
        assert(no_format_step(fx));
        lemma_no_format_add(a, bl);
        lemma_no_format_add(a + bl, m);
        lemma_no_format_add(a + bl + m, fl);
        lemma_no_format_add(a + bl + m + fl, bf);
        lemma_no_format_add(a + bl + m + fl + bf, d);
        lemma_no_format_add(a + bl + m + fl + bf + d, cp);
        lemma_no_format_add(a + bl + m + fl + bf + d + cp, sz);
        lemma_no_format_add(a + bl + m + fl + bf + d + cp + sz, fx);
        assert(new_vhd_steps(c, has_esp) == a + bl + m + fl + bf + d + cp + sz + fx);
        let head = seq![WriteStep::CleanVhdTemp];
        let body = if image_is_vhd(c) {
            seq![WriteStep::CopyImageVhd, WriteStep::TwiceAttach]
        } else {
            new_vhd_steps(c, has_esp)
        };
        assert(no_format_step(head));
        assert(no_format_step(body));
        lemma_no_format_add(head, body);
        lemma_no_format_add(vhd_workflow(c, has_esp), tail);
    }
}

/// A legacy BIOS write formats the target volume as NTFS first, unless the
/// disk is repartitioned or formatting is turned off; no other write
/// formats it, and the format never comes after another step.
pub proof fn law_plan_formats_target(c: WtgConfig)
    ensures
        (c.boot_mode == BootMode::NonUefi && !c.extra_features.repartition
            && !c.extra_features.do_not_format) ==> spec_write_plan(c).len() > 0
            && spec_write_plan(c)[0] == WriteStep::FormatNtfs,
        (exists|i: int| 0 <= i < spec_write_plan(c).len() && (#[trigger] spec_write_plan(c)[i]) is FormatNtfs)
            <==> (c.boot_mode == BootMode::NonUefi && !c.extra_features.repartition
            && !c.extra_features.do_not_format),
        forall|i: int| 0 < i < spec_write_plan(c).len() ==> !((#[trigger] spec_write_plan(c)[i]) is FormatNtfs),
{
    reveal(bitlocker_on);
    let p = spec_write_plan(c);
    let tail: Seq<WriteStep> = match c.boot_mode {
        BootMode::UefiGpt => match c.apply_mode {
            ApplyMode::Legacy => uefi_gpt_typical(c),
            _ => vhd_mode(c, true, seq![WriteStep::RemoveEspLetter, WriteStep::CheckVhdOnDisk(true)]),
        },
        BootMode::UefiMbr => match c.apply_mode {
            ApplyMode::Legacy => uefi_mbr_typical(c),
            _ => vhd_mode(c, true, seq![WriteStep::RemoveEspLetter, WriteStep::CheckVhdOnDisk(false)]),
        },
        BootMode::NonUefi => match c.apply_mode {
            ApplyMode::Legacy => non_uefi_typical(c),
            _ => vhd_mode(c, false, seq![WriteStep::Bootice(Place::Target), WriteStep::CheckVhdOnDisk(false)]),
        },
    };
    let head: Seq<WriteStep> = match c.boot_mode {
        BootMode::UefiGpt => seq![WriteStep::PartitionGptUefi, WriteStep::WaitForTarget],
        BootMode::UefiMbr => seq![WriteStep::PartitionMbrUefi, WriteStep::WaitForTarget],
        BootMode::NonUefi => if c.extra_features.repartition {
            seq![WriteStep::Repartition]
        } else if !c.extra_features.do_not_format {
            seq![WriteStep::FormatNtfs]
        } else {
            Seq::empty()
        },
    };
    assert(p == head + tail);
    match c.apply_mode {
        ApplyMode::Legacy => {
            let bl = bitlocker_on(c, Place::Target);
            assert(no_format_step(bl));
            assert(no_format_step(tail)) by {
                match c.boot_mode {
                    BootMode::UefiGpt => {
                        lemma_no_format_add(bl, seq![
                            WriteStep::ChooseWimIndex,
                            WriteStep::DismApply,
                            WriteStep::CheckSystemFiles(true),
                            WriteStep::ImageExtra(Place::Target),
                            WriteStep::Bcdboot(Place::Target, Place::Esp, FirmwareType::UEFI),
                            WriteStep::BcdeditTypical(Place::Esp, Place::Target, FirmwareType::UEFI),
                            WriteStep::RemoveEspLetter,
                        ]);
                    },
                    BootMode::UefiMbr => {
                        let a = seq![WriteStep::ChooseWimIndex];
                        let b = seq![
                            WriteStep::ApplyImage(Place::Target),
                            WriteStep::CheckSystemFiles(false),
                            WriteStep::ImageExtra(Place::Target),
                            WriteStep::Bcdboot(Place::Target, Place::Esp, FirmwareType::ALL),
                            WriteStep::BcdeditTypical(Place::Esp, Place::Target, FirmwareType::UEFI),
                            WriteStep::RemoveEspLetter,
                        ];
                        assert(no_format_step(a));
                        assert(no_format_step(b));
                        lemma_no_format_add(a, bl);
                        lemma_no_format_add(a + bl, b);
                    },
                    BootMode::NonUefi => {
                        let a = seq![
                            WriteStep::ChooseWimIndex,
                            WriteStep::ApplyImage(Place::Target),
                            WriteStep::ImageExtra(Place::Target),
                        ];
                        let b: Seq<WriteStep> = if c.efi_partition_path is Some {
                            seq![
                                WriteStep::SkipUnlessEfiPartExists(3),
                                WriteStep::Bcdboot(Place::Target, Place::EfiPart, FirmwareType::ALL),
                                WriteStep::BcdeditTypical(Place::Target, Place::EfiPart, FirmwareType::BIOS),
                                WriteStep::BcdeditTypical(Place::Target, Place::EfiPart, FirmwareType::UEFI),
                                WriteStep::Bootice(Place::EfiPart),
                            ]
                        } else if c.extra_features.ntfs_uefi_support {
                            seq![
                                WriteStep::Bcdboot(Place::Target, Place::Target, FirmwareType::ALL),
                                WriteStep::BcdeditTypical(Place::Target, Place::Target, FirmwareType::BIOS),
                                WriteStep::BcdeditTypical(Place::Target, Place::Target, FirmwareType::UEFI),
                                WriteStep::Bootice(Place::Target),
                            ]
                        } else {
                            seq![
                                WriteStep::Bcdboot(Place::Target, Place::Target, FirmwareType::BIOS),
                                WriteStep::BcdeditTypical(Place::Target, Place::Target, FirmwareType::BIOS),
                                WriteStep::Bootice(Place::Target),
                            ]
                        };
                        let e = seq![WriteStep::CheckBootmgr];
                        assert(no_format_step(a));
                        assert(no_format_step(b));
                        assert(no_format_step(e));
                        lemma_no_format_add(bl, a);
                        lemma_no_format_add(bl + a, b);
                        lemma_no_format_add(bl + a + b, e);
                    },
                }
            }
        },
        _ => {
            match c.boot_mode {
                BootMode::UefiGpt => lemma_vhd_mode_no_format(c, true, seq![WriteStep::RemoveEspLetter, WriteStep::CheckVhdOnDisk(true)]),
                BootMode::UefiMbr => lemma_vhd_mode_no_format(c, true, seq![WriteStep::RemoveEspLetter, WriteStep::CheckVhdOnDisk(false)]),
                BootMode::NonUefi => lemma_vhd_mode_no_format(c, false, seq![WriteStep::Bootice(Place::Target), WriteStep::CheckVhdOnDisk(false)]),
            }
        },
    }
    assert forall|i: int| head.len() <= i < p.len() implies !(p[i] is FormatNtfs) by {
        assert(p[i] == tail[i - head.len()]);
    }
    if (c.boot_mode == BootMode::NonUefi && !c.extra_features.repartition && !c.extra_features.do_not_format) {
        assert(p[0] == WriteStep::FormatNtfs);
    } else {
        assert(no_format_step(head));
        assert forall|i: int| 0 <= i < p.len() implies !(p[i] is FormatNtfs) by {
            if i < head.len() {
                assert(p[i] == head[i]);
            }
        }
    }
}

} // verus!
