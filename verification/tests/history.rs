use rserve::{StateBuffer, MAX_ENTRIES};

#[test]
fn state_buffer_test() {
    println!("state buffer test");
    let mut buf = StateBuffer::new();

    let mut i: usize;
    for i in 0..MAX_ENTRIES {
        buf.add(format!("sb.{i}"));
    }

    i = 0;
    for entry in buf.get_all() {
        let sbs = format!("sb.{i}");
        assert_eq!(entry, &sbs);
        i += 1;
    }
}

#[test]
fn new_buffer_is_empty_with_the_default_capacity() {
    let buf = StateBuffer::new();
    assert_eq!(buf.len(), 0);
    assert_eq!(buf.capacity(), 288);
    assert!(buf.get_all().is_empty());
    let buf = StateBuffer::default();
    assert_eq!(buf.capacity(), MAX_ENTRIES);
}

#[test]
fn with_capacity_needs_room_for_one_record() {
    assert!(StateBuffer::with_capacity(0).is_none());
    let buf = StateBuffer::with_capacity(1).unwrap();
    assert_eq!(buf.capacity(), 1);
    assert_eq!(buf.len(), 0);
}

#[test]
fn length_is_the_smaller_of_adds_and_capacity() {
    let mut buf = StateBuffer::with_capacity(7).unwrap();
    for total in 1..=30usize {
        buf.add(format!("r{total}"));
        assert_eq!(buf.len(), total.min(7));
        assert_eq!(buf.get_all().len(), total.min(7));
    }
}

#[test]
fn ring_of_100_keeps_the_last_100_of_150() {
    let mut buf = StateBuffer::with_capacity(100).unwrap();
    for i in 0..150 {
        buf.add(format!("entry-{i}"));
    }
    let all = buf.get_all();
    assert_eq!(all.len(), 100);
    for i in 0..50 {
        assert!(!all.contains(&format!("entry-{i}")));
    }
    for i in 50..150 {
        assert!(all.contains(&format!("entry-{i}")));
    }
}

#[test]
fn each_add_past_capacity_takes_the_oldest_slot() {
    let mut buf = StateBuffer::with_capacity(3).unwrap();
    buf.add(String::from("a"));
    buf.add(String::from("b"));
    buf.add(String::from("c"));
    assert_eq!(buf.get_all().to_vec(), vec!["a", "b", "c"]);
    buf.add(String::from("d"));
    assert_eq!(buf.get_all().to_vec(), vec!["d", "b", "c"]);
    buf.add(String::from("e"));
    assert_eq!(buf.get_all().to_vec(), vec!["d", "e", "c"]);
    buf.add(String::from("f"));
    assert_eq!(buf.get_all().to_vec(), vec!["d", "e", "f"]);
    buf.add(String::from("g"));
    assert_eq!(buf.get_all().to_vec(), vec!["g", "e", "f"]);
}

#[test]
fn reading_is_in_slot_order_not_in_order_of_arrival() {
    let mut buf = StateBuffer::with_capacity(100).unwrap();
    for i in 0..150 {
        buf.add(format!("{i}"));
    }
    let all = buf.get_all();
    for slot in 0..50 {
        assert_eq!(all[slot], format!("{}", 100 + slot));
    }
    for slot in 50..100 {
        assert_eq!(all[slot], format!("{slot}"));
    }
}

#[test]
fn a_buffer_of_one_holds_the_latest_record() {
    let mut buf = StateBuffer::with_capacity(1).unwrap();
    for i in 0..5 {
        buf.add(format!("{i}"));
        assert_eq!(buf.get_all().to_vec(), vec![format!("{i}")]);
    }
}

#[test]
fn equal_records_are_kept_as_separate_entries() {
    let mut buf = StateBuffer::with_capacity(4).unwrap();
    buf.add(String::from("same"));
    buf.add(String::from("same"));
    assert_eq!(buf.len(), 2);
}

#[test]
fn chronological_reading_starts_at_the_oldest_record() {
    let mut buf = StateBuffer::with_capacity(100).unwrap();
    for i in 0..150 {
        buf.add(format!("{i}"));
    }
    let in_order = buf.chronological();
    let expected: Vec<String> = (50..150).map(|i| format!("{i}")).collect();
    assert_eq!(in_order, expected);
    assert_eq!(buf.next_index(), 50);
}

#[test]
fn chronological_reading_of_a_buffer_that_never_wrapped_is_the_buffer() {
    let mut buf = StateBuffer::with_capacity(5).unwrap();
    assert!(buf.chronological().is_empty());
    for i in 0..5 {
        buf.add(format!("{i}"));
        assert_eq!(buf.chronological(), buf.get_all().to_vec());
    }
    assert_eq!(buf.next_index(), 0);
    buf.add(String::from("5"));
    assert_eq!(buf.chronological(), vec!["1", "2", "3", "4", "5"]);
    assert_eq!(buf.get_all().to_vec(), vec!["5", "1", "2", "3", "4"]);
}

#[test]
fn next_index_counts_adds_modulo_the_capacity() {
    let mut buf = StateBuffer::with_capacity(3).unwrap();
    for total in 1..=10usize {
        buf.add(String::from("x"));
        assert_eq!(buf.next_index(), total % 3);
    }
}
