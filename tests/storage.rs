use std::cell::RefCell;
use std::collections::BTreeMap;
use std::rc::Rc;
use taple_sdk::error::SQLiteError;
use taple_sdk::storage::{
    map_get_result, map_scan_item, map_write_result, DatabaseManagerInterface, DbCollectionInterface,
    DbCollectionIteratorInterface, DbError, Tuple, WrapperCollection, WrapperManager,
};

type Store = Rc<RefCell<BTreeMap<String, BTreeMap<String, Vec<u8>>>>>;

struct MemManager {
    store: Store,
}

struct MemCollection {
    store: Store,
    name: String,
    fail_writes: bool,
}

struct MemIter {
    items: RefCell<Vec<Tuple>>,
    fail_after: Option<usize>,
}

impl DbCollectionIteratorInterface for MemIter {
    fn next(&self) -> Result<Option<Tuple>, SQLiteError> {
        let mut items = self.items.borrow_mut();
        if self.fail_after.map_or(false, |n| items.len() <= n) {
            return Err(SQLiteError::InternalSQLiteError);
        }
        if items.is_empty() {
            Ok(None)
        } else {
            Ok(Some(items.remove(0)))
        }
    }
}

impl DbCollectionInterface for MemCollection {
    type Iter = MemIter;

    fn get(&self, key: String) -> Result<Option<Vec<u8>>, SQLiteError> {
        Ok(self.store.borrow().get(&self.name).and_then(|c| c.get(&key).cloned()))
    }

    fn put(&self, key: String, value: Vec<u8>) -> Result<(), SQLiteError> {
        if self.fail_writes {
            return Err(SQLiteError::InternalSQLiteError);
        }
        self.store.borrow_mut().entry(self.name.clone()).or_default().insert(key, value);
        Ok(())
    }

    fn del(&self, key: String) -> Result<(), SQLiteError> {
        if self.fail_writes {
            return Err(SQLiteError::KeyElementsError);
        }
        if let Some(c) = self.store.borrow_mut().get_mut(&self.name) {
            c.remove(&key);
        }
        Ok(())
    }

    fn iter(&self, reverse: bool, prefix: String) -> MemIter {
        let store = self.store.borrow();
        let mut items: Vec<Tuple> = store
            .get(&self.name)
            .map(|c| {
                c.iter()
                    .filter(|(k, _)| k.starts_with(&prefix))
                    .map(|(k, v)| Tuple { key: k.clone(), value: v.clone() })
                    .collect()
            })
            .unwrap_or_default();
        if reverse {
            items.reverse();
        }
        let fail_after = if self.fail_writes { Some(items.len().saturating_sub(1)) } else { None };
        MemIter { items: RefCell::new(items), fail_after }
    }
}

impl DatabaseManagerInterface for MemManager {
    type Collection = MemCollection;

    fn create_collection(&self, identifier: String) -> MemCollection {
        MemCollection { store: self.store.clone(), name: identifier, fail_writes: false }
    }
}

fn manager() -> WrapperManager<MemManager> {
    WrapperManager::new(MemManager { store: Rc::new(RefCell::new(BTreeMap::new())) })
}

fn keys_of(coll: &WrapperCollection<MemCollection>, reverse: bool, prefix: &str) -> Vec<String> {
    let mut it = coll.iter(reverse, prefix.to_string());
    let mut keys = Vec::new();
    while let Some(item) = it.next() {
        keys.push(item.unwrap().0);
    }
    keys
}

#[test]
fn scan_by_prefix_in_both_orders() {
    let m = manager();
    let c = m.create_collection("events");
    for k in ["a1", "a2", "b1"] {
        c.put(k, k.as_bytes().to_vec()).unwrap();
    }
    assert_eq!(keys_of(&c, false, "a"), vec!["a1", "a2"]);
    assert_eq!(keys_of(&c, true, "a"), vec!["a2", "a1"]);
    assert_eq!(keys_of(&c, false, ""), vec!["a1", "a2", "b1"]);
    assert!(keys_of(&c, false, "z").is_empty());
}

#[test]
fn scan_is_not_restartable() {
    let m = manager();
    let c = m.create_collection("events");
    c.put("a1", vec![1]).unwrap();
    let it = c.iter(false, "a".to_string());
    assert_eq!(it.next(), Some(Ok(("a1".to_string(), vec![1]))));
    assert_eq!(it.next(), None);
    assert_eq!(it.next(), None);
}

#[test]
fn absent_key_is_entry_not_found() {
    let m = manager();
    let c = m.create_collection("subjects");
    assert_eq!(c.get("missing"), Err(DbError::EntryNotFound));
    c.put("k", vec![9, 8]).unwrap();
    assert_eq!(c.get("k"), Ok(vec![9, 8]));
    c.del("k").unwrap();
    assert_eq!(c.get("k"), Err(DbError::EntryNotFound));
}

#[test]
fn backend_failure_on_put_is_a_custom_error_with_its_text() {
    let store: Store = Rc::new(RefCell::new(BTreeMap::new()));
    let c = WrapperCollection::new(MemCollection {
        store,
        name: "x".to_string(),
        fail_writes: true,
    });
    assert_eq!(c.put("k", vec![1]), Err(DbError::CustomError("Internal error".to_string())));
    assert_eq!(c.del("k"), Err(DbError::CustomError("General error".to_string())));
}

#[test]
fn same_name_reaches_the_same_data() {
    let m = manager();
    let first = m.create_collection("x");
    let second = m.create_collection("x");
    first.put("key", vec![1, 2, 3]).unwrap();
    assert_eq!(second.get("key"), Ok(vec![1, 2, 3]));
    let other = m.create_collection("y");
    assert_eq!(other.get("key"), Err(DbError::EntryNotFound));
}

#[test]
fn outcome_mappings() {
    assert_eq!(map_get_result(Ok(Some(vec![1]))), Ok(vec![1]));
    assert_eq!(map_get_result(Ok(None)), Err(DbError::EntryNotFound));
    assert_eq!(
        map_get_result(Err(SQLiteError::KeyElementsError)),
        Err(DbError::CustomError("General error".to_string()))
    );
    assert_eq!(map_write_result(Ok(())), Ok(()));
    assert_eq!(
        map_write_result(Err(SQLiteError::InternalSQLiteError)),
        Err(DbError::CustomError("Internal error".to_string()))
    );
    let t = Tuple { key: "k".to_string(), value: vec![3] };
    assert_eq!(map_scan_item(Ok(Some(t))), Some(Ok(("k".to_string(), vec![3]))));
    assert_eq!(map_scan_item(Ok(None)), None);
    assert_eq!(
        map_scan_item(Err(SQLiteError::InternalSQLiteError)),
        Some(Err(DbError::CustomError("Internal error".to_string())))
    );
}

#[test]
fn backend_failure_during_a_scan_is_surfaced() {
    let m = manager();
    let c = m.create_collection("events");
    for k in ["a1", "a2"] {
        c.put(k, vec![0]).unwrap();
    }
    let store = m.inner_manager.store.clone();
    let failing = WrapperCollection::new(MemCollection {
        store,
        name: "events".to_string(),
        fail_writes: true,
    });
    let it = failing.iter(false, "a".to_string());
    assert_eq!(it.next(), Some(Ok(("a1".to_string(), vec![0]))));
    assert_eq!(it.next(), Some(Err(DbError::CustomError("Internal error".to_string()))));
}
