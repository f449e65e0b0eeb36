use wtga::error::AppError;
use wtga::models::{
    ApplyMode, BootMode, Disk, ExtraFeatures, FirmwareType, ImageType, PartitionConfig,
    PartitionLayout, WriteStatus, WtgConfig,
};
use wtga::write_plan::{write_outcome, write_plan, Place, StepOutcome, WriteRun, WriteStep};

fn features() -> ExtraFeatures {
    ExtraFeatures {
        no_default_drive_letter: false,
        repartition: false,
        do_not_format: false,
        enable_bitlocker: false,
        wimboot: false,
        compact_os: false,
        install_dotnet35: false,
        block_local_disk: false,
        disable_winre: false,
        skip_oobe: false,
        disable_uasp: false,
        driver_path: None,
        ntfs_uefi_support: false,
        fix_letter: false,
    }
}

fn config(boot_mode: BootMode) -> WtgConfig {
    WtgConfig {
        image_path: "D:\\sources\\install.wim".to_string(),
        target_disk: Disk {
            id: "1".to_string(),
            name: "USB".to_string(),
            size: 64_000_000_000,
            removable: true,
            device: "\\\\.\\PhysicalDrive1".to_string(),
            index: "1".to_string(),
            volume: "E".to_string(),
            drive_type: "Removable".to_string(),
        },
        partition_config: PartitionConfig {
            boot_size: 300,
            partition_layout: PartitionLayout::GPT,
            extra_partition_sizes: vec![],
        },
        boot_mode,
        apply_mode: ApplyMode::Legacy,
        efi_partition_size: "300".to_string(),
        efi_partition_path: None,
        wim_index: "0".to_string(),
        image_type: ImageType::Wim,
        vhd_config: None,
        extra_features: features(),
    }
}

#[test]
fn gpt_direct_apply_plan() {
    let plan = write_plan(&config(BootMode::UefiGpt));
    assert_eq!(
        plan,
        vec![
            WriteStep::PartitionGptUefi,
            WriteStep::WaitForTarget,
            WriteStep::ChooseWimIndex,
            WriteStep::DismApply,
            WriteStep::CheckSystemFiles(true),
            WriteStep::ImageExtra(Place::Target),
            WriteStep::Bcdboot(Place::Target, Place::Esp, FirmwareType::UEFI),
            WriteStep::BcdeditTypical(Place::Esp, Place::Target, FirmwareType::UEFI),
            WriteStep::RemoveEspLetter,
        ]
    );
}

#[test]
fn bitlocker_adds_a_step() {
    let mut c = config(BootMode::UefiGpt);
    c.extra_features.enable_bitlocker = true;
    let plan = write_plan(&c);
    assert_eq!(plan[2], WriteStep::EnableBitlocker(Place::Target));
    assert_eq!(plan.len(), 10);
}

#[test]
fn vhd_mode_without_configuration() {
    let mut c = config(BootMode::UefiGpt);
    c.apply_mode = ApplyMode::VHDX;
    let plan = write_plan(&c);
    assert_eq!(plan[2], WriteStep::MissingVhdConfig);
}

#[test]
fn run_walks_the_plan_and_stops_at_an_error() {
    let mut run = WriteRun::new(&config(BootMode::UefiGpt));
    assert_eq!(run.current(), Some(WriteStep::PartitionGptUefi));
    run.record(StepOutcome::Done);
    run.record(StepOutcome::Done);
    assert_eq!(run.current(), Some(WriteStep::ChooseWimIndex));
    run.record(StepOutcome::WimIndex("6".to_string()));
    assert_eq!(run.wim_index, "6");
    run.record(StepOutcome::Failed(AppError::CommandFailed("dism".to_string())));
    assert_eq!(run.current(), None);
    let pos = run.pos;
    run.record(StepOutcome::Done);
    assert_eq!(run.pos, pos);
}

#[test]
fn outcome_messages() {
    let mut c = config(BootMode::UefiGpt);
    c.extra_features.no_default_drive_letter = true;
    let ok = write_outcome(&c, None);
    assert_eq!(ok.status, WriteStatus::Completed);
    assert_eq!(ok.message, "Write completed successfully");
    assert_eq!(ok.no_default_letter_script.as_deref(), Some("select volume E\nattributes volume set nodefaultdriveletter\n"));
    let bad = write_outcome(&c, Some(AppError::DiskError("x".to_string())));
    assert_eq!(bad.status, WriteStatus::Failed);
    assert_eq!(bad.message, "Write failed: Disk operation failed: x");
}
