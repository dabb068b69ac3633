use std::collections::HashMap;
use tool::memory::{Memory, RegionInfo, WalkStep};

fn region(state: u32, protect: u32) -> Option<RegionInfo> {
    Some(RegionInfo { state, protect })
}

#[test]
fn readable_regions() {
    assert!(Memory::is_readable(0x1000, region(0x1000, 0x02)));
    assert!(Memory::is_readable(0x1000, region(0x1000, 0x04)));
    assert!(Memory::is_readable(0x1000, region(0x1000, 0x08)));
    assert!(Memory::is_readable(0x1000, region(0x1000, 0x20)));
    assert!(Memory::is_readable(0x1000, region(0x1000, 0x40)));
    assert!(Memory::is_readable(0x1000, region(0x1000, 0x80)));
    // no-cache and write-combine modifiers do not affect access
    assert!(Memory::is_readable(0x1000, region(0x1000, 0x204)));
    assert!(Memory::is_readable(0x1000, region(0x1000, 0x402)));
}

#[test]
fn unreadable_regions() {
    assert!(!Memory::is_readable(0, region(0x1000, 0x04)));
    assert!(!Memory::is_readable(0x1000, None));
    // reserved, free
    assert!(!Memory::is_readable(0x1000, region(0x2000, 0x04)));
    assert!(!Memory::is_readable(0x1000, region(0x10000, 0x04)));
    // no access, execute only
    assert!(!Memory::is_readable(0x1000, region(0x1000, 0x01)));
    assert!(!Memory::is_readable(0x1000, region(0x1000, 0x10)));
    // guard pages fault on first access
    assert!(!Memory::is_readable(0x1000, region(0x1000, 0x104)));
    assert!(!Memory::is_readable(0x1000, region(0x1000, 0x102)));
}

#[test]
fn writable_regions() {
    assert!(Memory::is_writable(0x1000, region(0x1000, 0x04)));
    assert!(Memory::is_writable(0x1000, region(0x1000, 0x08)));
    assert!(Memory::is_writable(0x1000, region(0x1000, 0x40)));
    assert!(Memory::is_writable(0x1000, region(0x1000, 0x80)));
    assert!(!Memory::is_writable(0x1000, region(0x1000, 0x02)));
    assert!(!Memory::is_writable(0x1000, region(0x1000, 0x20)));
    assert!(!Memory::is_writable(0x1000, region(0x1000, 0x104)));
    assert!(!Memory::is_writable(0x1000, region(0x1000, 0x01)));
    assert!(!Memory::is_writable(0x1000, region(0x2000, 0x04)));
    assert!(!Memory::is_writable(0, region(0x1000, 0x04)));
    assert!(!Memory::is_writable(0x1000, None));
}

fn run(mem: &HashMap<usize, usize>, base: usize, base_offset: usize, offsets: Vec<usize>) -> (Option<usize>, usize) {
    let (mut walk, mut at) = Memory::get_pointer_address(base, base_offset, offsets);
    let mut reads = 1;
    loop {
        match walk.step(mem.get(&at).copied()) {
            WalkStep::Read(w, a) => {
                walk = w;
                at = a;
                reads += 1;
            }
            WalkStep::Done(r) => return (r, reads),
        }
    }
}

#[test]
fn chain_resolves() {
    let mut mem = HashMap::new();
    mem.insert(0x1000 + 0x10, 0x5000);
    mem.insert(0x5000 + 0xB8, 0x6000);
    mem.insert(0x6000 + 0x18, 0x7000);
    assert_eq!(run(&mem, 0x1000, 0x10, vec![0xB8, 0x18, 0x1C0]), (Some(0x7000 + 0x1C0), 3));
}

#[test]
fn chain_without_offsets_is_the_root_pointer() {
    let mut mem = HashMap::new();
    mem.insert(0x1010, 0x5000);
    assert_eq!(run(&mem, 0x1000, 0x10, vec![]), (Some(0x5000), 1));
}

#[test]
fn chain_with_one_offset_adds_it() {
    let mut mem = HashMap::new();
    mem.insert(0x1010, 0x5000);
    assert_eq!(run(&mem, 0x1000, 0x10, vec![0x8]), (Some(0x5008), 1));
}

#[test]
fn chain_stops_at_unreadable_or_null() {
    let mut mem = HashMap::new();
    assert_eq!(run(&mem, 0x1000, 0x10, vec![0x8, 0x10]), (None, 1));
    mem.insert(0x1010, 0);
    assert_eq!(run(&mem, 0x1000, 0x10, vec![0x8, 0x10]), (None, 1));
    mem.insert(0x1010, 0x5000);
    assert_eq!(run(&mem, 0x1000, 0x10, vec![0x8, 0x10]), (None, 2));
    mem.insert(0x5008, 0);
    assert_eq!(run(&mem, 0x1000, 0x10, vec![0x8, 0x10]), (None, 2));
    mem.insert(0x5008, 0x9000);
    assert_eq!(run(&mem, 0x1000, 0x10, vec![0x8, 0x10]), (Some(0x9010), 2));
}

#[test]
fn chain_addition_wraps() {
    let mut mem = HashMap::new();
    mem.insert(usize::MAX, 0x5000);
    let (walk, at) = Memory::get_pointer_address(usize::MAX, 0, vec![]);
    assert_eq!(at, usize::MAX);
    drop(walk);
    let (_, at) = Memory::get_pointer_address(usize::MAX, 2, vec![]);
    assert_eq!(at, 1);
    mem.insert(1, usize::MAX);
    assert_eq!(run(&mem, usize::MAX, 2, vec![3]), (Some(2), 1));
}
