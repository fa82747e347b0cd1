use pksm_transport::game_fs::{Archive, File};

fn sample() -> File {
    File::new_sd_file("/sample.bin\0", Some(vec![10, 11, 12, 13, 14, 15, 16, 17]))
}

#[test]
fn sd_file_records_where_it_lies() {
    let file = sample();
    assert!(file.open_success());
    assert_eq!(file.archive(), Archive::Sdmc);
    assert_eq!(file.path(), "/sample.bin\0");
    assert_eq!(file.bytes(), &[10, 11, 12, 13, 14, 15, 16, 17]);
}

#[test]
fn extdata_file_records_where_it_lies() {
    let file = File::new_extdata_file(0xEC100, "/banks/transport.bnk\0", Some(vec![1, 2, 3]));
    assert!(file.open_success());
    assert_eq!(file.archive(), Archive::ExtData { unique_id: 0xEC100 });
    assert_ne!(file.archive(), Archive::ExtData { unique_id: 0xEC101 });
    assert_ne!(file.archive(), Archive::Sdmc);
    assert_eq!(file.path(), "/banks/transport.bnk\0");
    assert_eq!(file.bytes(), &[1, 2, 3]);
}

#[test]
fn file_that_could_not_be_opened_is_not_open() {
    let mut sd = File::new_sd_file("/missing\0", None);
    assert!(!sd.open_success());
    assert_eq!(sd.get_size(), 0);
    assert_eq!(sd.bytes().len(), 0);
    assert_eq!(sd.archive(), Archive::Sdmc);

    let mut ext = File::new_extdata_file(7, "/missing\0", None);
    assert!(!ext.open_success());
    assert_eq!(ext.get_size(), 0);
    assert_eq!(ext.archive(), Archive::ExtData { unique_id: 7 });
}

#[test]
fn empty_file_is_open_and_has_size_zero() {
    let mut file = File::new_sd_file("/empty\0", Some(Vec::new()));
    assert!(file.open_success());
    assert_eq!(file.get_size(), 0);
    let mut nothing: [u8; 0] = [];
    assert!(file.read(0, &mut nothing));
    assert!(file.write(0, &nothing));
    assert!(!file.read(1, &mut nothing));
}

#[test]
fn get_size_is_the_number_of_bytes() {
    let mut file = sample();
    assert_eq!(file.get_size(), 8);
}

#[test]
fn read_copies_the_range() {
    let mut file = sample();
    let mut buffer = [0u8; 3];
    assert!(file.read(2, &mut buffer));
    assert_eq!(buffer, [12, 13, 14]);
    assert!(file.read(0, &mut buffer));
    assert_eq!(buffer, [10, 11, 12]);
    assert!(file.read(5, &mut buffer));
    assert_eq!(buffer, [15, 16, 17]);
    assert_eq!(file.bytes(), &[10, 11, 12, 13, 14, 15, 16, 17]);
}

#[test]
fn read_of_the_whole_file() {
    let mut file = sample();
    let mut buffer = [0u8; 8];
    assert!(file.read(0, &mut buffer));
    assert_eq!(buffer, [10, 11, 12, 13, 14, 15, 16, 17]);
}

#[test]
fn read_past_the_end_fails_and_keeps_the_buffer() {
    let mut file = sample();
    let mut buffer = [1u8, 2, 3];
    assert!(!file.read(6, &mut buffer));
    assert_eq!(buffer, [1, 2, 3]);
    assert!(!file.read(8, &mut buffer));
    assert_eq!(buffer, [1, 2, 3]);
    assert!(!file.read(9, &mut buffer));
    assert_eq!(buffer, [1, 2, 3]);
    assert!(!file.read(u64::MAX, &mut buffer));
    assert_eq!(buffer, [1, 2, 3]);
    let mut large = [9u8; 9];
    assert!(!file.read(0, &mut large));
    assert_eq!(large, [9u8; 9]);
}

#[test]
fn read_of_nothing_at_the_end_succeeds() {
    let mut file = sample();
    let mut nothing: [u8; 0] = [];
    assert!(file.read(8, &mut nothing));
    assert!(!file.read(9, &mut nothing));
}

#[test]
fn read_from_a_file_that_is_not_open_fails() {
    let mut file = File::new_sd_file("/missing\0", None);
    let mut buffer = [4u8; 2];
    assert!(!file.read(0, &mut buffer));
    assert_eq!(buffer, [4, 4]);
    let mut nothing: [u8; 0] = [];
    assert!(!file.read(0, &mut nothing));
}

#[test]
fn write_replaces_the_range() {
    let mut file = sample();
    assert!(file.write(3, &[1, 2]));
    assert_eq!(file.bytes(), &[10, 11, 12, 1, 2, 15, 16, 17]);
    assert!(file.write(0, &[7]));
    assert_eq!(file.bytes(), &[7, 11, 12, 1, 2, 15, 16, 17]);
    assert!(file.write(6, &[8, 9]));
    assert_eq!(file.bytes(), &[7, 11, 12, 1, 2, 15, 8, 9]);
    assert_eq!(file.get_size(), 8);
}

#[test]
fn write_handing_back_its_argument_would_show() {
    let mut file = sample();
    let patch = [0xAAu8, 0xBB];
    assert!(file.write(1, &patch));
    let mut buffer = [0u8; 2];
    assert!(file.read(1, &mut buffer));
    assert_eq!(buffer, patch);
    assert_eq!(file.bytes()[0], 10);
    assert_eq!(file.bytes()[3], 13);
}

#[test]
fn write_past_the_end_fails_and_changes_nothing() {
    let mut file = sample();
    assert!(!file.write(7, &[1, 2]));
    assert!(!file.write(8, &[1]));
    assert!(!file.write(100, &[1]));
    assert!(!file.write(u64::MAX, &[1]));
    assert!(!file.write(0, &[0; 9]));
    assert_eq!(file.bytes(), &[10, 11, 12, 13, 14, 15, 16, 17]);
    assert_eq!(file.get_size(), 8);
}

#[test]
fn write_to_a_file_that_is_not_open_fails() {
    let mut file = File::new_extdata_file(1, "/missing\0", None);
    assert!(!file.write(0, &[1]));
    assert!(!file.write(0, &[]));
    assert_eq!(file.bytes().len(), 0);
}

#[test]
fn close_succeeds_once() {
    let mut file = sample();
    assert!(file.close());
    assert!(!file.open_success());
    assert!(!file.close());
}

#[test]
fn close_of_a_file_that_is_not_open_fails() {
    let mut file = File::new_sd_file("/missing\0", None);
    assert!(!file.close());
    assert!(!file.open_success());
}

#[test]
fn closed_file_keeps_its_bytes_and_refuses_access() {
    let mut file = sample();
    assert!(file.write(0, &[1]));
    assert!(file.close());
    assert_eq!(file.bytes(), &[1, 11, 12, 13, 14, 15, 16, 17]);
    assert_eq!(file.archive(), Archive::Sdmc);
    assert_eq!(file.path(), "/sample.bin\0");
    assert_eq!(file.get_size(), 0);
    let mut buffer = [0u8; 1];
    assert!(!file.read(0, &mut buffer));
    assert_eq!(buffer, [0]);
    assert!(!file.write(0, &[2]));
    assert_eq!(file.bytes(), &[1, 11, 12, 13, 14, 15, 16, 17]);
}
