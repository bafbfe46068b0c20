use std::collections::HashMap;

use cid::Cid;
use fvm_bridge::blockstore::{
    classify_delete, classify_get, classify_has, classify_put, Blockstore, BridgeError, Error,
    Fatal, StoreRuntime,
};
use multihash::Multihash;

/// An in-memory stand-in for the foreign store runtime, answering the
/// status-code protocol over a registry of handle-keyed maps.
struct MemRuntime {
    stores: HashMap<i32, HashMap<Vec<u8>, Vec<u8>>>,
}

impl MemRuntime {
    fn with_handle(handle: i32) -> MemRuntime {
        let mut stores = HashMap::new();
        stores.insert(handle, HashMap::new());
        MemRuntime { stores }
    }
}

impl StoreRuntime for MemRuntime {
    // The ghost call log is never consulted at runtime; an unverified
    // implementation only has to name it.
    fn log(&self) -> vstd::seq::Seq<fvm_bridge::blockstore::StoreCall> {
        unreachable!()
    }

    fn call_has(&mut self, handle: i32, key: &[u8]) -> i32 {
        match self.stores.get(&handle) {
            None => -1,
            Some(m) => {
                if m.contains_key(key) {
                    1
                } else {
                    0
                }
            }
        }
    }

    fn call_get(&mut self, handle: i32, key: &[u8]) -> (i32, Vec<u8>) {
        match self.stores.get(&handle) {
            None => (-1, Vec::new()),
            Some(m) => match m.get(key) {
                Some(v) => (0, v.clone()),
                None => (-2, Vec::new()),
            },
        }
    }

    fn call_put(&mut self, handle: i32, key: &[u8], value: &[u8]) -> i32 {
        match self.stores.get_mut(&handle) {
            None => -1,
            Some(m) => {
                m.insert(key.to_vec(), value.to_vec());
                0
            }
        }
    }

    fn call_delete(&mut self, handle: i32, key: &[u8]) -> i32 {
        match self.stores.get_mut(&handle) {
            None => -1,
            Some(m) => {
                if m.remove(key).is_some() {
                    0
                } else {
                    -2
                }
            }
        }
    }
}

/// A runtime that answers every call with one fixed status.
struct FixedStatus(i32);

impl StoreRuntime for FixedStatus {
    fn log(&self) -> vstd::seq::Seq<fvm_bridge::blockstore::StoreCall> {
        unreachable!()
    }

    fn call_has(&mut self, _handle: i32, _key: &[u8]) -> i32 {
        self.0
    }
    fn call_get(&mut self, _handle: i32, _key: &[u8]) -> (i32, Vec<u8>) {
        (self.0, Vec::new())
    }
    fn call_put(&mut self, _handle: i32, _key: &[u8], _value: &[u8]) -> i32 {
        self.0
    }
    fn call_delete(&mut self, _handle: i32, _key: &[u8]) -> i32 {
        self.0
    }
}

fn test_cid(seed: u8) -> Cid {
    let digest = [seed; 32];
    let mh = Multihash::<64>::wrap(0x12, &digest).unwrap();
    Cid::new_v1(0x55, mh)
}

#[test]
fn round_trip_put_get_has_delete() {
    let mut rt = MemRuntime::with_handle(3);
    let bs = Blockstore::new(3);
    let k = test_cid(7);
    let value = vec![10u8, 20, 30, 40];

    bs.put(&mut rt, &k, &value).unwrap();
    let mut reader = bs.get(&mut rt, &k).unwrap().unwrap();
    assert_eq!(reader.size(), 4);
    assert_eq!(reader.cid(), &k);
    assert_eq!(reader.read(100), value);
    assert!(bs.has(&mut rt, &k).unwrap());

    bs.delete(&mut rt, &k).unwrap();
    assert!(!bs.has(&mut rt, &k).unwrap());
    assert!(matches!(
        bs.get(&mut rt, &k),
        Err(BridgeError::Store(Error::NotFound))
    ));
}

#[test]
fn reader_reads_incrementally() {
    let mut rt = MemRuntime::with_handle(1);
    let bs = Blockstore::new(1);
    let k = test_cid(9);
    bs.put(&mut rt, &k, &[1, 2, 3, 4, 5]).unwrap();
    let mut reader = bs.get(&mut rt, &k).unwrap().unwrap();
    assert_eq!(reader.read(2), vec![1, 2]);
    assert_eq!(reader.read(2), vec![3, 4]);
    assert_eq!(reader.read(2), vec![5]);
    assert_eq!(reader.read(2), Vec::<u8>::new());
    assert_eq!(reader.size(), 5);
}

#[test]
fn delete_missing_key_succeeds() {
    let mut rt = MemRuntime::with_handle(2);
    let bs = Blockstore::new(2);
    let k = test_cid(1);
    assert!(bs.delete(&mut rt, &k).is_ok());
    assert!(bs.delete(&mut rt, &k).is_ok());
}

#[test]
fn unregistered_handle_is_fatal_never_recoverable() {
    let mut rt = MemRuntime::with_handle(3);
    let bs = Blockstore::new(99);
    let k = test_cid(4);
    assert!(matches!(
        bs.has(&mut rt, &k),
        Err(BridgeError::Fatal(Fatal::StoreNotRegistered))
    ));
    assert!(matches!(
        bs.get(&mut rt, &k),
        Err(BridgeError::Fatal(Fatal::StoreNotRegistered))
    ));
    assert!(matches!(
        bs.put(&mut rt, &k, &[1]),
        Err(BridgeError::Fatal(Fatal::StoreNotRegistered))
    ));
    assert!(matches!(
        bs.delete(&mut rt, &k),
        Err(BridgeError::Fatal(Fatal::StoreNotRegistered))
    ));
}

#[test]
fn out_of_protocol_status_is_fatal() {
    let mut rt = FixedStatus(7);
    let bs = Blockstore::new(0);
    let k = test_cid(5);
    assert!(matches!(
        bs.has(&mut rt, &k),
        Err(BridgeError::Fatal(Fatal::UnexpectedStatus(7)))
    ));
    assert!(matches!(
        bs.get(&mut rt, &k),
        Err(BridgeError::Fatal(Fatal::UnexpectedStatus(7)))
    ));
    assert!(matches!(
        bs.put(&mut rt, &k, &[1]),
        Err(BridgeError::Fatal(Fatal::UnexpectedStatus(7)))
    ));
    assert!(matches!(
        bs.delete(&mut rt, &k),
        Err(BridgeError::Fatal(Fatal::UnexpectedStatus(7)))
    ));
}

#[test]
fn unknown_negative_status_is_recoverable_other() {
    let mut rt = FixedStatus(-5);
    let bs = Blockstore::new(0);
    let k = test_cid(6);
    assert!(matches!(
        bs.has(&mut rt, &k),
        Err(BridgeError::Store(Error::Other))
    ));
    assert!(matches!(
        bs.delete(&mut rt, &k),
        Err(BridgeError::Store(Error::Other))
    ));
}

#[test]
fn has_outcome_table() {
    assert_eq!(classify_has(0).unwrap(), false);
    assert_eq!(classify_has(1).unwrap(), true);
    // "Not found" from a has is tolerated as absent.
    assert_eq!(classify_has(-2).unwrap(), false);
    assert!(matches!(
        classify_has(-1),
        Err(BridgeError::Fatal(Fatal::StoreNotRegistered))
    ));
    assert!(matches!(
        classify_has(2),
        Err(BridgeError::Fatal(Fatal::UnexpectedStatus(2)))
    ));
    assert!(matches!(
        classify_has(-9),
        Err(BridgeError::Store(Error::Other))
    ));
}

#[test]
fn get_outcome_table() {
    assert!(classify_get(0).is_ok());
    assert!(matches!(
        classify_get(-2),
        Err(BridgeError::Store(Error::NotFound))
    ));
    assert!(matches!(
        classify_get(-1),
        Err(BridgeError::Fatal(Fatal::StoreNotRegistered))
    ));
    assert!(matches!(
        classify_get(1),
        Err(BridgeError::Fatal(Fatal::UnexpectedStatus(1)))
    ));
    assert!(matches!(
        classify_get(-3),
        Err(BridgeError::Store(Error::Other))
    ));
}

#[test]
fn put_outcome_table() {
    assert!(classify_put(0).is_ok());
    // "Not found" answered to a put breaks the protocol.
    assert!(matches!(
        classify_put(-2),
        Err(BridgeError::Fatal(Fatal::NotFoundOnPut))
    ));
    assert!(matches!(
        classify_put(-1),
        Err(BridgeError::Fatal(Fatal::StoreNotRegistered))
    ));
    assert!(matches!(
        classify_put(3),
        Err(BridgeError::Fatal(Fatal::UnexpectedStatus(3)))
    ));
    assert!(matches!(
        classify_put(-4),
        Err(BridgeError::Store(Error::Other))
    ));
}

#[test]
fn delete_outcome_table() {
    assert!(classify_delete(0).is_ok());
    assert!(classify_delete(-2).is_ok());
    assert!(matches!(
        classify_delete(-1),
        Err(BridgeError::Fatal(Fatal::StoreNotRegistered))
    ));
    assert!(matches!(
        classify_delete(1),
        Err(BridgeError::Fatal(Fatal::UnexpectedStatus(1)))
    ));
    assert!(matches!(
        classify_delete(-7),
        Err(BridgeError::Store(Error::Other))
    ));
}

#[test]
fn error_messages() {
    assert_eq!(Error::NotFound.message(), "not found");
    assert_eq!(Error::Other.message(), "other");
}
