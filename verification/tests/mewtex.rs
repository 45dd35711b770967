use mewtex::worker::append_entries;
use mewtex::worker::append_entry;
use mewtex::Mewtex;

#[test]
fn new_then_lock_hands_out_value() {
    let mut cell = Mewtex::new(5u64);
    let token = cell.lock();
    assert_eq!(*token.deref(), 5);
    token.release(&mut cell);
}

#[test]
fn write_under_token_seen_by_next_token() {
    let mut cell = Mewtex::new(0u64);
    let mut token = cell.lock();
    *token.deref_mut() = 42;
    token.release(&mut cell);
    let token = cell.lock();
    assert_eq!(*token.deref(), 42);
    token.release(&mut cell);
}

#[test]
fn visibility_full_multi_field_value() {
    // A multi-field value written under one token is visible, in full, to
    // the next token: never a partially-updated state.
    let mut cell = Mewtex::new((0u64, 0u64, 0u64));
    let mut token = cell.lock();
    *token.deref_mut() = (11, 22, 33);
    token.release(&mut cell);
    let token = cell.lock();
    let seen = *token.deref();
    assert_eq!(seen, (11, 22, 33));
    token.release(&mut cell);
}

#[test]
fn reusable_over_many_cycles() {
    // The cell supports an unbounded number of sequential acquire/release
    // cycles; the word is open again after every release.
    let mut cell = Mewtex::new(0u64);
    for i in 0..1000u64 {
        let mut token = cell.lock();
        assert_eq!(*token.deref(), i);
        *token.deref_mut() = i + 1;
        token.release(&mut cell);
    }
    let token = cell.lock();
    assert_eq!(*token.deref(), 1000);
    token.release(&mut cell);
}

#[test]
fn token_count_never_exceeds_one() {
    // The observable counter of P-style mutual exclusion: incremented at
    // each acquisition, decremented at each release, never above one.
    let mut cell = Mewtex::new(());
    let mut live: u32 = 0;
    let mut max_live: u32 = 0;
    for _ in 0..100 {
        let token = cell.lock();
        live += 1;
        if live > max_live {
            max_live = live;
        }
        live -= 1;
        token.release(&mut cell);
    }
    assert_eq!(max_live, 1);
}

#[test]
fn get_mut_gives_token_equivalent_access() {
    // `get_mut` bypasses the word entirely: the cell is still open
    // afterwards, and the next token sees the write in full.
    let mut cell = Mewtex::new(7u64);
    let value = cell.get_mut();
    assert_eq!(*value, 7);
    *value = 9;
    let token = cell.lock();
    assert_eq!(*token.deref(), 9);
    token.release(&mut cell);
}

#[test]
fn guard_new_wraps_value() {
    let mut cell = Mewtex::new(1u64);
    let token = cell.lock();
    assert_eq!(*token.deref(), 1);
    // A token wraps exactly the value it was given.
    let other = mewtex::MewtexGuard::new(8u64);
    assert_eq!(*other.deref(), 8);
    token.release(&mut cell);
    let mut empty = Mewtex::new(0u64);
    let _ = empty.lock();
    other.release(&mut empty);
    assert_eq!(*empty.get_mut(), 8);
}

#[test]
fn scenario_nine_entries_each_tag_once() {
    // One cell over an empty ordered collection; eight worker entries plus
    // one main entry, the main one somewhere in the middle of the
    // scheduling. Afterwards: exactly nine entries, each tag exactly once.
    let mut cell = Mewtex::new(Vec::<String>::new());
    for i in 0..3 {
        append_entry(&mut cell, format!("thread {}", i));
    }
    append_entry(&mut cell, "main".to_string());
    for i in 3..8 {
        append_entry(&mut cell, format!("thread {}", i));
    }
    let token = cell.lock();
    let entries = token.deref();
    assert_eq!(entries.len(), 9);
    for i in 0..8 {
        let tag = format!("thread {}", i);
        assert_eq!(entries.iter().filter(|e| **e == tag).count(), 1);
    }
    assert_eq!(entries.iter().filter(|e| **e == "main").count(), 1);
    token.release(&mut cell);
}

#[test]
fn scenario_order_of_workers_unconstrained() {
    // A different scheduling of the same nine cycles leaves the same set of
    // entries: none lost, none duplicated.
    let mut cell = Mewtex::new(Vec::<String>::new());
    append_entry(&mut cell, "main".to_string());
    for i in (0..8).rev() {
        append_entry(&mut cell, format!("thread {}", i));
    }
    let entries = cell.get_mut().clone();
    assert_eq!(entries.len(), 9);
    let mut sorted = entries.clone();
    sorted.sort();
    sorted.dedup();
    assert_eq!(sorted.len(), 9);
    assert!(entries.contains(&"main".to_string()));
    for i in 0..8 {
        assert!(entries.contains(&format!("thread {}", i)));
    }
}

#[test]
fn append_entries_appends_all_in_order() {
    let mut cell = Mewtex::new(vec!["start".to_string()]);
    let tags = vec!["a".to_string(), "b".to_string(), "c".to_string()];
    append_entries(&mut cell, tags);
    let token = cell.lock();
    assert_eq!(*token.deref(), vec!["start", "a", "b", "c"]);
    token.release(&mut cell);
}
