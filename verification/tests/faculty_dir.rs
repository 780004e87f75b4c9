use vtop::faculty::collect_faculty;
use vtop::faculty::Slot;

fn slot(faculty: &str, room: &str) -> Slot {
    Slot { faculty: faculty.to_string(), room_no: room.to_string() }
}

#[test]
fn one_entry_per_cabin() {
    let slots = vec![
        slot("Dr. A", "AB1-101"),
        slot("Dr. A", "AB1-101"),
        slot("Dr. B", "AB1-202"),
    ];
    let dir = collect_faculty(&slots);
    assert_eq!(dir.len(), 2);
    assert_eq!(dir[0].cabin_id, "AB1-101");
    assert_eq!(dir[0].name, "Dr. A");
    assert_eq!(dir[1].cabin_id, "AB1-202");
    assert_eq!(dir[1].name, "Dr. B");
}

#[test]
fn blank_faculty_is_skipped() {
    let slots = vec![slot("   ", "AB1-101"), slot("", "AB1-202"), slot("\t\n", "AB1-303")];
    let dir = collect_faculty(&slots);
    assert!(dir.is_empty());
}

#[test]
fn blank_room_gets_a_placeholder_cabin() {
    let slots = vec![slot("Jane Q Doe", "  ")];
    let dir = collect_faculty(&slots);
    assert_eq!(dir.len(), 1);
    assert_eq!(dir[0].cabin_id, "UNKNOWN-Jane-Q-Doe");
    assert_eq!(dir[0].name, "Jane Q Doe");
}

#[test]
fn first_slot_names_the_cabin() {
    let slots = vec![slot("Dr. First", "AB2-5"), slot("Dr. Second", "AB2-5")];
    let dir = collect_faculty(&slots);
    assert_eq!(dir.len(), 1);
    assert_eq!(dir[0].name, "Dr. First");
}
