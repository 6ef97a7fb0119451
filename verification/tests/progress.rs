use gmf::object_id::ObjectId;
use gmf::progress::{
    ref_update_line, sideband_line, summary_line, transfer_progress_line, FetchStatistics,
};

fn stats() -> FetchStatistics {
    FetchStatistics {
        total_objects: 0,
        indexed_objects: 0,
        received_objects: 0,
        local_objects: 0,
        total_deltas: 0,
        indexed_deltas: 0,
        received_bytes: 0,
    }
}

fn id(fill: u8) -> ObjectId {
    ObjectId::from_bytes(&[fill; 20]).unwrap()
}

#[test]
fn sideband_text_follows_the_prefix() {
    assert_eq!(
        sideband_line(b"Counting objects: 3, done.\n"),
        Some(String::from("remote: Counting objects: 3, done.\n"))
    );
}

#[test]
fn sideband_adds_no_line_end() {
    assert_eq!(sideband_line(b"Compressing"), Some(String::from("remote: Compressing")));
    assert_eq!(sideband_line(b""), Some(String::from("remote: ")));
}

#[test]
fn sideband_decodes_utf8() {
    assert_eq!(sideband_line("größe".as_bytes()), Some(String::from("remote: größe")));
}

#[test]
fn sideband_that_is_not_utf8_has_no_text() {
    assert_eq!(sideband_line(&[0x66, 0xff, 0x6f]), None);
    assert_eq!(sideband_line(&[0xc3]), None);
}

#[test]
fn new_reference_is_tagged_new() {
    let line = ref_update_line("refs/remotes/origin/main", &ObjectId::zero(), &id(0xab));
    assert_eq!(
        line,
        "[new]     abababababababababababababababababababab refs/remotes/origin/main\n"
    );
}

#[test]
fn moved_reference_is_tagged_updated_with_both_ids() {
    let line = ref_update_line("refs/remotes/origin/main", &id(0x12), &id(0xef));
    assert_eq!(
        line,
        "[updated] 1212121212121212121212121212121212121212..efefefefefefefefefefefefefefefefefefefef refs/remotes/origin/main\n"
    );
}

#[test]
fn reference_deleted_on_the_remote_is_an_update() {
    let line = ref_update_line("refs/remotes/origin/gone", &id(0x01), &ObjectId::zero());
    assert_eq!(
        line,
        "[updated] 0101010101010101010101010101010101010101..0000000000000000000000000000000000000000 refs/remotes/origin/gone\n"
    );
}

#[test]
fn transfer_in_flight_counts_objects_and_bytes() {
    let mut s = stats();
    s.total_objects = 10;
    s.received_objects = 4;
    s.indexed_objects = 3;
    s.received_bytes = 2048;
    assert_eq!(
        transfer_progress_line(&s),
        Some(String::from("Received 4/10 objects (3) in 2048 bytes\r"))
    );
}

#[test]
fn transfer_complete_counts_deltas() {
    let mut s = stats();
    s.total_objects = 10;
    s.received_objects = 10;
    s.indexed_objects = 10;
    s.total_deltas = 6;
    s.indexed_deltas = 2;
    s.received_bytes = 4096;
    assert_eq!(transfer_progress_line(&s), Some(String::from("Resolving deltas 2/6\r")));
}

#[test]
fn transfer_with_nothing_announced_and_nothing_received_counts_deltas() {
    assert_eq!(transfer_progress_line(&stats()), Some(String::from("Resolving deltas 0/0\r")));
}

#[test]
fn transfer_with_nothing_announced_shows_nothing() {
    let mut s = stats();
    s.received_objects = 1;
    assert_eq!(transfer_progress_line(&s), None);
}

#[test]
fn summary_without_local_objects_omits_them() {
    let mut s = stats();
    s.total_objects = 7;
    s.indexed_objects = 5;
    s.received_objects = 6;
    s.received_bytes = 1024;
    assert_eq!(summary_line(&s), "\rReceived 5/7 objects in 1024 bytes\n");
    assert!(!summary_line(&s).contains("local"));
}

#[test]
fn summary_with_local_objects_names_their_number() {
    let mut s = stats();
    s.total_objects = 7;
    s.indexed_objects = 7;
    s.received_bytes = 1024;
    s.local_objects = 3;
    assert_eq!(summary_line(&s), "\rReceived 7/7 objects in 1024 bytes (used 3 local objects)\n");
    s.local_objects = 1;
    assert_eq!(summary_line(&s), "\rReceived 7/7 objects in 1024 bytes (used 1 local objects)\n");
}

#[test]
fn summary_of_an_empty_transfer() {
    assert_eq!(summary_line(&stats()), "\rReceived 0/0 objects in 0 bytes\n");
}
