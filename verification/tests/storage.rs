use struct_table::data_storage::{
    append_row_in, find_row_index, get_vec_range_clamped, remove_row_in, set_row_in,
    MemoryStorage, StorageError, TableDataEntry, TableDataStorage,
};

#[derive(Clone, Debug, PartialEq)]
struct Person {
    id: u64,
    name: String,
}

impl Person {
    fn new(id: u64, name: &str) -> Person {
        Person { id, name: name.to_string() }
    }
}

impl TableDataEntry<u64> for Person {
    fn spec_key(&self) -> u64 {
        self.id
    }

    fn key(&self) -> u64 {
        self.id
    }
}

#[test]
fn clamp_ordinary_window() {
    let v: Vec<u64> = vec![10, 20, 30, 40, 50];
    assert_eq!(get_vec_range_clamped(&v, 1..3), vec![20, 30]);
    assert_eq!(get_vec_range_clamped(&v, 0..5), vec![10, 20, 30, 40, 50]);
}

#[test]
fn clamp_end_past_length() {
    let v: Vec<u64> = vec![10, 20, 30];
    assert_eq!(get_vec_range_clamped(&v, 1..100), vec![20, 30]);
    assert_eq!(get_vec_range_clamped(&v, 0..usize::MAX), vec![10, 20, 30]);
}

#[test]
fn clamp_start_past_length_keeps_last_index() {
    let v: Vec<u64> = vec![10, 20, 30];
    // the start clamps to the last valid index, not to the length
    assert_eq!(get_vec_range_clamped(&v, 7..9), vec![30]);
    assert_eq!(get_vec_range_clamped(&v, 3..4), vec![30]);
}

#[test]
fn clamp_crossed_bounds_yield_empty() {
    let v: Vec<u64> = vec![10, 20, 30];
    assert_eq!(get_vec_range_clamped(&v, 2..1), Vec::<u64>::new());
    assert_eq!(get_vec_range_clamped(&v, 2..2), Vec::<u64>::new());
}

#[test]
fn clamp_empty_vec_always_empty() {
    let v: Vec<u64> = Vec::new();
    assert_eq!(get_vec_range_clamped(&v, 0..0), Vec::<u64>::new());
    assert_eq!(get_vec_range_clamped(&v, 5..10), Vec::<u64>::new());
    assert_eq!(get_vec_range_clamped(&v, 0..usize::MAX), Vec::<u64>::new());
}

#[test]
fn clamp_length_formula() {
    // result length is max(0, min(e, n) - min(s, max(n - 1, 0)))
    for n in 0usize..5 {
        let v: Vec<usize> = (0..n).collect();
        for s in 0usize..8 {
            for e in 0usize..8 {
                let expected = if n == 0 {
                    0
                } else {
                    let s2 = s.min(n - 1);
                    let e2 = e.min(n);
                    e2.saturating_sub(s2)
                };
                assert_eq!(get_vec_range_clamped(&v, s..e).len(), expected, "n={n} s={s} e={e}");
            }
        }
    }
}

#[test]
fn find_set_remove_by_key() {
    let mut rows = vec![Person::new(1, "ada"), Person::new(2, "bob"), Person::new(2, "kim")];
    assert_eq!(find_row_index(&rows, &2), Some(1));
    assert_eq!(find_row_index(&rows, &9), None);

    // replaces only the first match
    assert!(set_row_in(&mut rows, &2, Person::new(2, "eve")));
    assert_eq!(rows[1], Person::new(2, "eve"));
    assert_eq!(rows[2], Person::new(2, "kim"));

    // removes only the first match
    assert!(remove_row_in(&mut rows, &2));
    assert_eq!(rows, vec![Person::new(1, "ada"), Person::new(2, "kim")]);
}

#[test]
fn absent_key_is_a_no_op() {
    let mut rows = vec![Person::new(1, "ada"), Person::new(2, "bob")];
    let before = rows.clone();
    assert!(!set_row_in(&mut rows, &7, Person::new(7, "eve")));
    assert_eq!(rows, before);
    assert!(!remove_row_in(&mut rows, &7));
    assert_eq!(rows, before);
}

#[test]
fn append_in_pushes_at_the_end() {
    let mut rows = vec![Person::new(1, "ada")];
    append_row_in(&mut rows, Person::new(2, "bob"));
    assert_eq!(rows, vec![Person::new(1, "ada"), Person::new(2, "bob")]);
}

#[test]
fn reporting_operations_surface_the_found_flag() {
    let mut storage = MemoryStorage::new(vec![Person::new(1, "ada")]);
    assert_eq!(storage.set_row_reporting(1, Person::new(1, "adele")), Ok(true));
    assert_eq!(storage.set_row_reporting(9, Person::new(9, "eve")), Ok(false));
    assert_eq!(storage.remove_row_reporting(9), Ok(false));
    assert_eq!(storage.remove_row_reporting(1), Ok(true));
    assert_eq!(storage.get_rows(0..10), Ok(Vec::new()));
}

#[test]
fn read_rows_matches_the_trait_read() {
    let storage = MemoryStorage::new(vec![Person::new(1, "ada"), Person::new(2, "bob")]);
    assert_eq!(storage.read_rows(1..5), Ok(vec![Person::new(2, "bob")]));
    assert_eq!(storage.read_rows(1..5), storage.get_rows(1..5));
}

#[test]
fn storage_set_remove_absent_key_reports_success() {
    let mut storage = MemoryStorage::new(vec![Person::new(1, "ada"), Person::new(2, "bob")]);
    assert_eq!(storage.set_row(9, Person::new(9, "eve")), Ok(()));
    assert_eq!(storage.remove_row(9), Ok(()));
    let rows = storage.get_rows(0..10).unwrap();
    assert_eq!(rows, vec![Person::new(1, "ada"), Person::new(2, "bob")]);
}

#[test]
fn storage_append_grows_by_one_and_is_retrievable() {
    let mut storage = MemoryStorage::new(vec![Person::new(1, "ada")]);
    assert_eq!(storage.append_row(Person::new(2, "bob")), Ok(()));
    assert_eq!(storage.get_rows(0..100).unwrap().len(), 2);
    assert_eq!(storage.get_rows(1..2).unwrap(), vec![Person::new(2, "bob")]);
}

#[test]
fn storage_empty_returns_empty_for_any_range() {
    let storage: MemoryStorage<Person> = MemoryStorage::new(Vec::new());
    let empty: Vec<Person> = Vec::new();
    assert_eq!(storage.get_rows(0..0).unwrap(), empty);
    assert_eq!(storage.get_rows(5..10).unwrap(), empty);
    assert_eq!(storage.get_rows(0..usize::MAX).unwrap(), empty);
}

#[test]
fn storage_end_to_end() {
    let mut storage = MemoryStorage::new(vec![Person::new(1, "ada"), Person::new(2, "bob")]);
    assert_eq!(
        storage.get_rows(0..10).unwrap(),
        vec![Person::new(1, "ada"), Person::new(2, "bob")]
    );
    assert_eq!(storage.remove_row(1), Ok(()));
    assert_eq!(storage.get_rows(0..10).unwrap(), vec![Person::new(2, "bob")]);
    assert_eq!(storage.set_row(2, Person::new(2, "robert")), Ok(()));
    assert_eq!(storage.get_rows(0..10).unwrap(), vec![Person::new(2, "robert")]);
}

#[test]
fn storage_clones_share_one_row_set() {
    let storage = MemoryStorage::new(vec![Person::new(1, "ada")]);
    let mut other = storage.clone();
    assert_eq!(other.append_row(Person::new(2, "bob")), Ok(()));
    assert_eq!(storage.get_rows(0..10).unwrap().len(), 2);
    assert_eq!(other.set_row(1, Person::new(1, "adele")), Ok(()));
    assert_eq!(storage.get_rows(0..1).unwrap(), vec![Person::new(1, "adele")]);
}

#[test]
fn error_messages() {
    assert_eq!(StorageError::LockContention.message(), "lock is held by another operation");
    assert_eq!(StorageError::Backend.message(), "backend failure");
    assert_ne!(StorageError::LockContention, StorageError::Backend);
}
