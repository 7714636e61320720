use std::cell::Cell;
use std::cell::RefCell;
use std::collections::hash_map::DefaultHasher;
use std::hash::{Hash, Hasher};
use std::rc::Rc;

use once_self_cell::eager::SelfCell;

/// Where a reference points, as a number.
fn address(r: &Vec<u8>) -> usize {
    let text = format!("{:p}", r);
    usize::from_str_radix(text.trim_start_matches("0x"), 16).unwrap()
}

/// A view of part of a byte buffer, kept as the two ends of the part.
#[derive(Debug, PartialEq)]
struct Slice {
    start: usize,
    end: usize,
}

impl From<&Vec<u8>> for Slice {
    fn from(buffer: &Vec<u8>) -> Slice {
        Slice { start: 2.min(buffer.len()), end: 5.min(buffer.len()) }
    }
}

/// A dependent that remembers where it saw its owner.
#[derive(Debug)]
struct SeenAt {
    place: usize,
    len: usize,
}

impl From<&Vec<u8>> for SeenAt {
    fn from(buffer: &Vec<u8>) -> SeenAt {
        SeenAt { place: address(buffer), len: buffer.len() }
    }
}

/// An owner that poisons itself when it is destroyed and says so to whoever
/// kept a handle on the flag.
struct Buffer {
    bytes: Vec<u8>,
    poisoned: Rc<Cell<bool>>,
    log: Rc<RefCell<Vec<&'static str>>>,
}

impl Drop for Buffer {
    fn drop(&mut self) {
        for byte in self.bytes.iter_mut() {
            *byte = 0xDD;
        }
        self.poisoned.set(true);
        self.log.borrow_mut().push("owner");
    }
}

/// A view of bytes 2 to 5 of a `Buffer`. When it is destroyed it notes whether
/// its owner was still whole.
struct Window {
    start: usize,
    end: usize,
    poisoned: Rc<Cell<bool>>,
    owner_was_whole: Rc<Cell<Option<bool>>>,
    log: Rc<RefCell<Vec<&'static str>>>,
}

impl From<&Buffer> for Window {
    fn from(buffer: &Buffer) -> Window {
        Window {
            start: 2,
            end: 5,
            poisoned: buffer.poisoned.clone(),
            owner_was_whole: Rc::new(Cell::new(None)),
            log: buffer.log.clone(),
        }
    }
}

impl Drop for Window {
    fn drop(&mut self) {
        self.owner_was_whole.set(Some(!self.poisoned.get()));
        self.log.borrow_mut().push("dependent");
    }
}

fn ten_bytes() -> Vec<u8> {
    vec![10, 11, 12, 13, 14, 15, 16, 17, 18, 19]
}

#[test]
fn eager_view_of_a_ten_byte_buffer() {
    let source = ten_bytes();
    let poisoned = Rc::new(Cell::new(false));
    let log = Rc::new(RefCell::new(Vec::new()));
    let owner = Buffer { bytes: source.clone(), poisoned: poisoned.clone(), log: log.clone() };
    let cell: SelfCell<Buffer, Window> = SelfCell::new(owner);

    let mut observed = Vec::new();
    cell.with_dependent(|window| {
        observed = cell.borrow_owner().bytes[window.start..window.end].to_vec();
    });
    assert_eq!(observed, source[2..5].to_vec());
    assert_eq!(observed, vec![12, 13, 14]);

    let owner_was_whole = cell.borrow_dependent().owner_was_whole.clone();
    assert!(!poisoned.get());
    assert_eq!(owner_was_whole.get(), None);
    drop(cell);
    assert_eq!(owner_was_whole.get(), Some(true));
    assert!(poisoned.get());
    assert_eq!(*log.borrow(), vec!["dependent", "owner"]);
}

#[test]
fn eager_scope_exit_destroys_dependent_before_owner() {
    let poisoned = Rc::new(Cell::new(false));
    let log = Rc::new(RefCell::new(Vec::new()));
    {
        let owner = Buffer { bytes: ten_bytes(), poisoned: poisoned.clone(), log: log.clone() };
        let cell: SelfCell<Buffer, Window> = SelfCell::new(owner);
        assert_eq!(cell.borrow_owner().bytes.len(), 10);
        assert!(log.borrow().is_empty());
    }
    assert_eq!(*log.borrow(), vec!["dependent", "owner"]);
}

#[test]
fn eager_moved_container_destroys_dependent_before_owner() {
    let poisoned = Rc::new(Cell::new(false));
    let log = Rc::new(RefCell::new(Vec::new()));
    let owner = Buffer { bytes: ten_bytes(), poisoned: poisoned.clone(), log: log.clone() };
    let cell: SelfCell<Buffer, Window> = SelfCell::new(owner);
    let boxed = Box::new(cell);
    let holder = vec![boxed];
    assert!(log.borrow().is_empty());
    drop(holder);
    assert_eq!(*log.borrow(), vec!["dependent", "owner"]);
}

#[test]
fn eager_into_owner_destroys_the_dependent_and_keeps_the_owner() {
    let poisoned = Rc::new(Cell::new(false));
    let log = Rc::new(RefCell::new(Vec::new()));
    let owner = Buffer { bytes: ten_bytes(), poisoned: poisoned.clone(), log: log.clone() };
    let cell: SelfCell<Buffer, Window> = SelfCell::new(owner);
    let owner_was_whole = cell.borrow_dependent().owner_was_whole.clone();
    let owner = cell.into_owner();
    assert_eq!(*log.borrow(), vec!["dependent"]);
    assert_eq!(owner_was_whole.get(), Some(true));
    assert!(!poisoned.get());
    assert_eq!(owner.bytes, ten_bytes());
    drop(owner);
    assert_eq!(*log.borrow(), vec!["dependent", "owner"]);
    assert!(poisoned.get());
}

#[test]
fn eager_dependent_is_made_from_the_owner() {
    let cell: SelfCell<Vec<u8>, Slice> = SelfCell::new(ten_bytes());
    assert_eq!(cell.borrow_dependent(), &Slice { start: 2, end: 5 });
    let short: SelfCell<Vec<u8>, Slice> = SelfCell::new(vec![1, 2, 3]);
    assert_eq!(short.borrow_dependent(), &Slice { start: 2, end: 3 });
    let empty: SelfCell<Vec<u8>, Slice> = SelfCell::new(Vec::new());
    assert_eq!(empty.borrow_dependent(), &Slice { start: 0, end: 0 });
    assert_eq!(empty.borrow_owner(), &Vec::<u8>::new());
}

#[test]
fn eager_with_dependent_calls_back_once() {
    let cell: SelfCell<Vec<u8>, Slice> = SelfCell::new(ten_bytes());
    let calls = Cell::new(0u32);
    cell.with_dependent(|slice| {
        calls.set(calls.get() + 1);
        assert_eq!(slice, &Slice { start: 2, end: 5 });
    });
    assert_eq!(calls.get(), 1);
}

#[test]
fn eager_owner_stays_where_the_dependent_saw_it() {
    let mut seed: u64 = 0x9E37_79B9_7F4A_7C15;
    let mut kept = Vec::new();
    for _ in 0..1000 {
        seed = seed.wrapping_mul(6364136223846793005).wrapping_add(1442695040888963407);
        let size = (seed >> 33) as usize % 4096;
        let cell: SelfCell<Vec<u8>, SeenAt> = SelfCell::new(vec![0x5A; size]);
        assert_eq!(address(cell.borrow_owner()), cell.borrow_dependent().place);
        assert_eq!(cell.borrow_dependent().len, size);
        kept.push(cell);
    }
    for cell in kept.iter() {
        assert_eq!(address(cell.borrow_owner()), cell.borrow_dependent().place);
        assert_eq!(cell.borrow_owner().len(), cell.borrow_dependent().len);
    }
    let boxed: Vec<Box<SelfCell<Vec<u8>, SeenAt>>> = kept.into_iter().map(Box::new).collect();
    for cell in boxed.iter() {
        assert_eq!(address(cell.borrow_owner()), cell.borrow_dependent().place);
        assert_eq!(cell.borrow_owner().len(), cell.borrow_dependent().len);
    }
}

#[test]
fn eager_equality_goes_by_owner() {
    let a: SelfCell<Vec<u8>, SeenAt> = SelfCell::new(ten_bytes());
    let b: SelfCell<Vec<u8>, SeenAt> = SelfCell::new(ten_bytes());
    let c: SelfCell<Vec<u8>, SeenAt> = SelfCell::new(vec![1, 2, 3]);
    assert_ne!(a.borrow_dependent().place, b.borrow_dependent().place);
    assert!(a == b);
    assert!(b == a);
    assert!(a == a);
    assert!(a != c);
    assert!(c != b);
}

fn hash_of<T: Hash>(value: &T) -> u64 {
    let mut hasher = DefaultHasher::new();
    value.hash(&mut hasher);
    hasher.finish()
}

#[test]
fn eager_equal_containers_hash_alike() {
    let a: SelfCell<Vec<u8>, SeenAt> = SelfCell::new(ten_bytes());
    let b: SelfCell<Vec<u8>, SeenAt> = SelfCell::new(ten_bytes());
    let c: SelfCell<Vec<u8>, SeenAt> = SelfCell::new(vec![1, 2, 3]);
    assert_ne!(a.borrow_dependent().place, b.borrow_dependent().place);
    assert!(a == b);
    assert_eq!(hash_of(&a), hash_of(&b));
    assert_eq!(hash_of(&a), hash_of(&ten_bytes()));
    assert_ne!(hash_of(&a), hash_of(&c));
}

#[test]
fn eager_clone_makes_its_dependent_anew() {
    let first: SelfCell<Vec<u8>, SeenAt> = SelfCell::new(ten_bytes());
    let copy = first.clone();
    assert!(copy == first);
    assert_eq!(copy.borrow_owner(), &ten_bytes());
    assert_ne!(address(copy.borrow_owner()), address(first.borrow_owner()));
    assert_eq!(copy.borrow_dependent().place, address(copy.borrow_owner()));
    assert_eq!(first.borrow_dependent().place, address(first.borrow_owner()));
    assert_eq!(copy.borrow_dependent().len, 10);
    drop(first);
    assert_eq!(copy.borrow_owner(), &ten_bytes());
}

#[test]
fn eager_container_formats_for_debugging() {
    let cell: SelfCell<Vec<u8>, Slice> = SelfCell::new(vec![1, 2, 3]);
    let text = format!("{:?}", cell);
    assert!(text.contains("[1, 2, 3]"));
    assert!(text.contains("Slice"));
}
