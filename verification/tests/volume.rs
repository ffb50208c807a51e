use storage_usage::elevation_commands::check_elevation;
use storage_usage::elevation_commands::create_elevation_check_cli;
use storage_usage::elevation_commands::ensure_elevated;
use storage_usage::elevation_commands::propagated_exit_code;
use storage_usage::elevation_commands::relaunch_outcome;
use storage_usage::elevation_commands::test_elevation;
use storage_usage::elevation_commands::ElevationStep;
use storage_usage::elevation_commands::RelaunchError;
use storage_usage::mft_dump::dump_mft_to_file;
use storage_usage::mft_dump::get_drive_handle;
use storage_usage::mft_dump::get_ntfs_extended_volume_data;
use storage_usage::mft_dump::mft_record_size;
use storage_usage::mft_dump::read_mft_data;
use storage_usage::mft_dump::read_mft_from_volume;
use storage_usage::mft_dump::read_stage;
use storage_usage::mft_dump::write_mft_to_file;
use storage_usage::mft_dump::ChunkedRead;
use storage_usage::mft_dump::DumpError;
use storage_usage::mft_dump::DumpStep;
use storage_usage::mft_dump::NtfsVolumeInfo;
use storage_usage::mft_dump::ReadStage;
use storage_usage::mft_dump::VolumeDataError;
use storage_usage::mft_dump::VolumeDataExtent;
use storage_usage::mft_dump::VolumeRead;
use storage_usage::mft_dump::WriteMode;
use storage_usage::to_args::ToArgs;
use storage_usage::total_space::gauge_color;
use storage_usage::total_space::get_all_drives;
use storage_usage::total_space::volume_label;
use storage_usage::total_space::GaugeColor;
use storage_usage::win_paged_mft_reader::PagedMftReader;
use storage_usage::win_paged_mft_reader::SeekError;
use storage_usage::win_paged_mft_reader::SeekTarget;

fn info(lcn: u64, cluster: u32, valid: u64) -> NtfsVolumeInfo {
    NtfsVolumeInfo {
        bytes_per_sector: 512,
        bytes_per_cluster: cluster,
        bytes_per_record: 1024,
        mft_start_lcn: lcn,
        mft_valid_data_length: valid,
        total_clusters: 1000,
        free_clusters: 10,
    }
}

#[test]
fn existing_output_is_not_overwritten_unasked() {
    assert_eq!(dump_mft_to_file(true, false, true, 'c'), Err(DumpError::OutputExists));
    assert_eq!(dump_mft_to_file(true, false, false, 'c'), Err(DumpError::OutputExists));
    assert_eq!(dump_mft_to_file(true, true, false, 'c'), Ok(DumpStep::Relaunch));
    assert_eq!(dump_mft_to_file(false, false, false, 'c'), Ok(DumpStep::Relaunch));
    assert_eq!(dump_mft_to_file(true, true, true, 'c'), Ok(DumpStep::Proceed { drive_letter: 'C' }));
    assert_eq!(dump_mft_to_file(false, false, true, 'D'), Ok(DumpStep::Proceed { drive_letter: 'D' }));
    assert_eq!(write_mft_to_file(true), WriteMode::Truncate);
    assert_eq!(write_mft_to_file(false), WriteMode::Create);
}

#[test]
fn paths_of_volume_and_mft() {
    assert_eq!(get_drive_handle('C'), "\\\\.\\C:");
    assert_eq!(read_mft_data('D'), "\\\\.\\D:\\$MFT");
    assert_eq!(read_stage(true), ReadStage::SpecialFile);
    assert_eq!(read_stage(false), ReadStage::VolumeFallback);
}

#[test]
fn fallback_reads_at_most_sixteen_mebibytes() {
    let limit = 16 * 1024 * 1024;
    assert_eq!(
        read_mft_from_volume(&info(786_432, 4096, 3_000_000_000)),
        Ok(VolumeRead { offset: 786_432 * 4096, length: limit, partial: true })
    );
    assert_eq!(
        read_mft_from_volume(&info(2, 512, 5000)),
        Ok(VolumeRead { offset: 1024, length: 5000, partial: false })
    );
    assert_eq!(
        read_mft_from_volume(&info(0, 4096, limit)),
        Ok(VolumeRead { offset: 0, length: limit, partial: false })
    );
    assert_eq!(
        read_mft_from_volume(&info(u64::MAX, 2, 5000)),
        Err(DumpError::OffsetOverflow)
    );
}

#[test]
fn file_is_read_in_chunks_of_a_mebibyte() {
    let mib = 1024 * 1024;
    let mut read = ChunkedRead::new(2 * mib + 100);
    assert_eq!(read.next_chunk(), mib);
    read.advance(mib);
    assert_eq!(read.next_chunk(), mib);
    read.advance(1000); // a short read
    assert_eq!(read.next_chunk(), mib - 1000 + 100);
    read.advance(mib - 1000 + 100);
    assert_eq!(read.next_chunk(), 0);
    assert_eq!(read.total_read(), 2 * mib + 100);
    let mut early = ChunkedRead::new(5000);
    early.advance(3000);
    early.advance(0);
    assert_eq!(early.next_chunk(), 0);
    assert_eq!(early.total_read(), 3000);
    assert_eq!(ChunkedRead::new(0).next_chunk(), 0);
}

#[test]
fn extent_of_the_volume_data() {
    assert_eq!(get_ntfs_extended_volume_data(96 + 32 + 16, 96, 32, 16), Ok(VolumeDataExtent::Full));
    assert_eq!(get_ntfs_extended_volume_data(96 + 32, 96, 32, 16), Ok(VolumeDataExtent::Extended));
    assert_eq!(get_ntfs_extended_volume_data(96, 96, 32, 16), Ok(VolumeDataExtent::Basic));
    assert_eq!(
        get_ntfs_extended_volume_data(95, 96, 32, 16),
        Err(VolumeDataError::TooShort { returned: 95, needed: 96 })
    );
}

#[test]
fn record_size_may_be_stated_as_a_power_of_two() {
    assert_eq!(mft_record_size(1024), Some(1024));
    assert_eq!(mft_record_size(0), Some(0));
    assert_eq!(mft_record_size(-10), Some(1024));
    assert_eq!(mft_record_size(-12), Some(4096));
    assert_eq!(mft_record_size(-63), Some(1 << 63));
    assert_eq!(mft_record_size(-64), None);
    assert_eq!(mft_record_size(i32::MIN), None);
}

#[test]
fn elevated_process_passes_the_test_without_spawning() {
    assert!(matches!(test_elevation(true), ElevationStep::AlreadyElevated));
    match test_elevation(false) {
        ElevationStep::Relaunch(args) => assert_eq!(args, vec!["elevation", "check"]),
        other => panic!("no relaunch: {:?}", other),
    }
    assert_eq!(create_elevation_check_cli().to_args(), vec!["elevation", "check"]);
    assert_eq!(check_elevation(true), "Elevated");
    assert_eq!(check_elevation(false), "Not Elevated");
}

#[test]
fn command_is_relaunched_with_its_own_arguments() {
    let args = vec!["mft".to_string(), "sync".to_string()];
    assert!(matches!(ensure_elevated(true, args.clone()), ElevationStep::AlreadyElevated));
    match ensure_elevated(false, args.clone()) {
        ElevationStep::Relaunch(again) => assert_eq!(again, args),
        other => panic!("no relaunch: {:?}", other),
    }
}

#[test]
fn relaunch_values_up_to_32_are_failures() {
    assert_eq!(relaunch_outcome(33), Ok(()));
    assert_eq!(relaunch_outcome(usize::MAX), Ok(()));
    assert_eq!(relaunch_outcome(32), Err(RelaunchError::Refused(32)));
    assert_eq!(relaunch_outcome(5), Err(RelaunchError::Refused(5)));
    assert_eq!(relaunch_outcome(0), Err(RelaunchError::Refused(0)));
}

#[test]
fn exit_code_of_the_child_is_passed_on() {
    assert_eq!(propagated_exit_code(0), 0);
    assert_eq!(propagated_exit_code(3), 3);
    assert_eq!(propagated_exit_code(0x7fff_ffff), i32::MAX);
    assert_eq!(propagated_exit_code(0x8000_0000), i32::MIN);
    assert_eq!(propagated_exit_code(0xffff_ffff), -1);
    assert_eq!(propagated_exit_code(0xc000_0005), 0xc000_0005u32 as i32);
}

#[test]
fn test_gauge_color() {
    let terabyte = 1.0e12_f64;
    let gigabyte = 1.0e9_f64;
    let total = (1.0 * terabyte) as u64;
    let free = (200.0 * gigabyte) as u64;
    assert_eq!(gauge_color(free, total), GaugeColor::Blue);
    let free = (50.0 * gigabyte) as u64;
    assert_eq!(gauge_color(free, total), GaugeColor::Red);
    let free = (100.0 * gigabyte) as u64;
    assert_eq!(gauge_color(free, total), GaugeColor::Red);
    let free = (150.0 * gigabyte) as u64;
    assert_eq!(gauge_color(free, total), GaugeColor::Blue);
    let free = (90.0 * gigabyte) as u64;
    assert_eq!(gauge_color(free, total), GaugeColor::Red);
}

#[test]
fn gauge_is_red_below_a_tenth_or_a_hundred_gibibytes() {
    let gib = 1024 * 1024 * 1024;
    assert_eq!(gauge_color(100 * gib, 200 * gib), GaugeColor::Blue);
    assert_eq!(gauge_color(100 * gib - 1, 200 * gib), GaugeColor::Red);
    assert_eq!(gauge_color(200 * gib, 2000 * gib), GaugeColor::Blue);
    assert_eq!(gauge_color(200 * gib, 2000 * gib + 10), GaugeColor::Red);
    assert_eq!(gauge_color(0, 0), GaugeColor::Red);
    assert_eq!(gauge_color(u64::MAX, u64::MAX), GaugeColor::Blue);
}

#[test]
fn labels_and_letters_of_the_drives() {
    assert_eq!(volume_label("Data".to_string()), "Data");
    assert_eq!(volume_label("  ".to_string()), "Local Disk");
    assert_eq!(volume_label(String::new()), "Local Disk");
    assert_eq!(get_all_drives(), vec!['C', 'D', 'E', 'F', 'G', 'H', 'I']);
}

#[test]
fn paged_reader_reads_within_its_page() {
    let mut r = PagedMftReader::new(8, 100);
    assert_eq!(r.position(), 100);
    assert_eq!(r.capacity(), 8);
    assert!(r.needs_fill());
    assert!(r.read(4).is_empty());
    r.fill_buffer(vec![10, 11, 12, 13, 14, 15, 16, 17]);
    assert!(!r.needs_fill());
    assert_eq!(r.read(3), vec![10, 11, 12]);
    assert_eq!(r.position(), 103);
    assert_eq!(r.read(100), vec![13, 14, 15, 16, 17]);
    assert_eq!(r.position(), 108);
    assert!(r.needs_fill());
    assert!(r.read(1).is_empty());
    // an empty page is the end of the data
    r.fill_buffer(Vec::new());
    assert!(r.needs_fill());
    assert!(r.read(1).is_empty());
    assert_eq!(r.position(), 108);
}

#[test]
fn paged_reader_seeks() {
    let mut r = PagedMftReader::new(4, 0);
    r.fill_buffer(vec![1, 2, 3, 4]);
    assert_eq!(r.seek(SeekTarget::Start(2)), Ok(2));
    assert_eq!(r.read(10), vec![3, 4]);
    assert_eq!(r.seek(SeekTarget::Current(-3)), Ok(1));
    assert_eq!(r.read(1), vec![2]);
    assert_eq!(r.seek(SeekTarget::Current(5)), Ok(7));
    assert!(r.needs_fill());
    assert_eq!(r.seek(SeekTarget::Current(-8)), Err(SeekError::Underflow));
    assert_eq!(r.position(), 7);
    assert_eq!(r.seek(SeekTarget::End(0)), Err(SeekError::Unsupported));
    assert_eq!(r.seek(SeekTarget::Start(u64::MAX)), Ok(u64::MAX));
    assert_eq!(r.seek(SeekTarget::Current(1)), Err(SeekError::Overflow));
    assert_eq!(r.seek(SeekTarget::Current(i64::MIN)), Ok(u64::MAX - (1u64 << 63)));
    assert_eq!(r.seek(SeekTarget::Current(0)), Ok(u64::MAX - (1u64 << 63)));
}
