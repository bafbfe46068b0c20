//! The block-store bridge.
//!
//! A second boundary, independent of the syscall surface: the store lives in
//! a foreign runtime reachable only through an integer status-code call
//! protocol, keyed by a store handle and the serialized content identifier.
//! The protocol's outcome table stands here as verified classification
//! functions, one per operation; the bridge methods issue one foreign call
//! each and apply the table to whatever status came back.
//!
//! The abort/error split: a "no-store" status or a status outside the
//! protocol means the host's own bookkeeping is inconsistent — fatal, never
//! recoverable.  "Not found" and the generic negative statuses are expected
//! outcomes of normal operation and never abort.

use vstd::prelude::*;

use cid::Cid;
use vstd::math::min;

use crate::cids::{cid_key_bytes, cid_to_bytes};

verus! {

/// Status code of the foreign call protocol: the named store handle is not
/// registered.
pub const ERR_NO_STORE: i32 = -1;

/// Status code of the foreign call protocol: no block under the given key.
pub const ERR_NOT_FOUND: i32 = -2;

/// A recoverable store error, surfaced to the calling message.
#[derive(Clone, Copy, Debug)]
#[non_exhaustive]
pub enum Error {
    NotFound,
    Other,
}

impl Error {
    /// A short description of the error.
    pub fn message(&self) -> (r: &'static str)
        ensures
            self is NotFound ==> r@ == "not found"@,
            self is Other ==> r@ == "other"@,
    {
        match self {
            Error::NotFound => "not found",
            Error::Other => "other",
        }
    }
}

/// An unrecoverable invariant violation: the host registry or the foreign
/// callee broke the bridge's contract, and further execution cannot be
/// trusted.  The embedding aborts the process on it, loudly.
#[derive(Clone, Copy, Debug)]
pub enum Fatal {
    /// The handle names no registered store.
    StoreNotRegistered,
    /// The callee answered with a status outside its protocol.
    UnexpectedStatus(i32),
    /// The callee claimed "not found" on a put, which the protocol rules out.
    NotFoundOnPut,
}

/// Outcome class of one bridge call: recoverable store error, or fatal
/// invariant violation.
#[derive(Clone, Copy, Debug)]
pub enum BridgeError {
    Fatal(Fatal),
    Store(Error),
}

/// The outcome table of `has`: `0` and "not found" mean absent, `1` means
/// present, "no store" and anything at or above `2` are fatal, any other
/// negative status is a recoverable other error.
pub open spec fn has_outcome(status: i32) -> Result<bool, BridgeError> {
    if status == 0i32 || status == ERR_NOT_FOUND {
        Ok(false)
    } else if status == 1i32 {
        Ok(true)
    } else if status >= 2i32 {
        Err(BridgeError::Fatal(Fatal::UnexpectedStatus(status)))
    } else if status == ERR_NO_STORE {
        Err(BridgeError::Fatal(Fatal::StoreNotRegistered))
    } else {
        Err(BridgeError::Store(Error::Other))
    }
}

/// The outcome table of `get`: `0` means the callee handed over a buffer,
/// "not found" is a recoverable error, "no store" and anything at or above
/// `1` are fatal, any other negative status is a recoverable other error.
pub open spec fn get_outcome(status: i32) -> Result<(), BridgeError> {
    if status == 0i32 {
        Ok(())
    } else if status >= 1i32 {
        Err(BridgeError::Fatal(Fatal::UnexpectedStatus(status)))
    } else if status == ERR_NO_STORE {
        Err(BridgeError::Fatal(Fatal::StoreNotRegistered))
    } else if status == ERR_NOT_FOUND {
        Err(BridgeError::Store(Error::NotFound))
    } else {
        Err(BridgeError::Store(Error::Other))
    }
}

/// The outcome table of `put`: `0` means stored; "not found" is impossible
/// on a put and therefore fatal, as are "no store" and anything at or above
/// `1`; any other negative status is a recoverable other error.
pub open spec fn put_outcome(status: i32) -> Result<(), BridgeError> {
    if status == 0i32 {
        Ok(())
    } else if status >= 1i32 {
        Err(BridgeError::Fatal(Fatal::UnexpectedStatus(status)))
    } else if status == ERR_NO_STORE {
        Err(BridgeError::Fatal(Fatal::StoreNotRegistered))
    } else if status == ERR_NOT_FOUND {
        Err(BridgeError::Fatal(Fatal::NotFoundOnPut))
    } else {
        Err(BridgeError::Store(Error::Other))
    }
}

/// The outcome table of `delete`: `0` means deleted and "not found" is the
/// same success — delete is idempotent; "no store" and anything at or above
/// `1` are fatal; any other negative status is a recoverable other error.
pub open spec fn delete_outcome(status: i32) -> Result<(), BridgeError> {
    if status == 0i32 || status == ERR_NOT_FOUND {
        Ok(())
    } else if status >= 1i32 {
        Err(BridgeError::Fatal(Fatal::UnexpectedStatus(status)))
    } else if status == ERR_NO_STORE {
        Err(BridgeError::Fatal(Fatal::StoreNotRegistered))
    } else {
        Err(BridgeError::Store(Error::Other))
    }
}

/// Classify a `has` status.
pub fn classify_has(status: i32) -> (r: Result<bool, BridgeError>)
    ensures
        r == has_outcome(status),
{
    if status == 0 || status == ERR_NOT_FOUND {
        Ok(false)
    } else if status == 1 {
        Ok(true)
    } else if status >= 2 {
        Err(BridgeError::Fatal(Fatal::UnexpectedStatus(status)))
    } else if status == ERR_NO_STORE {
        Err(BridgeError::Fatal(Fatal::StoreNotRegistered))
    } else {
        Err(BridgeError::Store(Error::Other))
    }
}

/// Classify a `get` status.
pub fn classify_get(status: i32) -> (r: Result<(), BridgeError>)
    ensures
        r == get_outcome(status),
{
    if status == 0 {
        Ok(())
    } else if status >= 1 {
        Err(BridgeError::Fatal(Fatal::UnexpectedStatus(status)))
    } else if status == ERR_NO_STORE {
        Err(BridgeError::Fatal(Fatal::StoreNotRegistered))
    } else if status == ERR_NOT_FOUND {
        Err(BridgeError::Store(Error::NotFound))
    } else {
        Err(BridgeError::Store(Error::Other))
    }
}

/// Classify a `put` status.
pub fn classify_put(status: i32) -> (r: Result<(), BridgeError>)
    ensures
        r == put_outcome(status),
{
    if status == 0 {
        Ok(())
    } else if status >= 1 {
        Err(BridgeError::Fatal(Fatal::UnexpectedStatus(status)))
    } else if status == ERR_NO_STORE {
        Err(BridgeError::Fatal(Fatal::StoreNotRegistered))
    } else if status == ERR_NOT_FOUND {
        Err(BridgeError::Fatal(Fatal::NotFoundOnPut))
    } else {
        Err(BridgeError::Store(Error::Other))
    }
}

/// Classify a `delete` status.
pub fn classify_delete(status: i32) -> (r: Result<(), BridgeError>)
    ensures
        r == delete_outcome(status),
{
    if status == 0 || status == ERR_NOT_FOUND {
        Ok(())
    } else if status >= 1 {
        Err(BridgeError::Fatal(Fatal::UnexpectedStatus(status)))
    } else if status == ERR_NO_STORE {
        Err(BridgeError::Fatal(Fatal::StoreNotRegistered))
    } else {
        Err(BridgeError::Store(Error::Other))
    }
}

/// An unregistered store is always fatal, on every operation: the "no
/// store" status never classifies as a recoverable error.
pub proof fn lemma_no_store_is_fatal()
    ensures
        has_outcome(ERR_NO_STORE) == Err::<bool, BridgeError>(
            BridgeError::Fatal(Fatal::StoreNotRegistered),
        ),
        get_outcome(ERR_NO_STORE) == Err::<(), BridgeError>(
            BridgeError::Fatal(Fatal::StoreNotRegistered),
        ),
        put_outcome(ERR_NO_STORE) == Err::<(), BridgeError>(
            BridgeError::Fatal(Fatal::StoreNotRegistered),
        ),
        delete_outcome(ERR_NO_STORE) == Err::<(), BridgeError>(
            BridgeError::Fatal(Fatal::StoreNotRegistered),
        ),
{
}

/// Delete is idempotent at the protocol level: a delete succeeds exactly on
/// "deleted" and on "there was nothing to delete".
pub proof fn lemma_delete_missing_succeeds()
    ensures
        delete_outcome(ERR_NOT_FOUND) == Ok::<(), BridgeError>(()),
        forall|status: i32| delete_outcome(status) is Ok <==> (status == 0i32 || status
            == ERR_NOT_FOUND),
{
}

/// One cross-boundary call as issued and answered: which operation, with
/// which handle, key and value bytes, and the status (and, for a fetch, the
/// buffer) that came back.
pub enum StoreCall {
    Has { handle: i32, key: Seq<u8>, status: i32 },
    Get { handle: i32, key: Seq<u8>, status: i32, buf: Seq<u8> },
    Put { handle: i32, key: Seq<u8>, value: Seq<u8>, status: i32 },
    Delete { handle: i32, key: Seq<u8>, status: i32 },
}

/// The foreign runtime behind the store registry, reached through the flat
/// status-code protocol: each call takes the handle and the serialized key
/// (and, for a put, the block bytes) and answers a status; a `get` also
/// hands over an owned buffer.  No behaviour of the callee is assumed —
/// any status may come back, and the bridge classifies it.  The call log
/// only records what was asked and answered, so the bridge's contracts can
/// say which calls it made.
pub trait StoreRuntime {
    /// The cross-boundary calls issued so far, oldest first.
    spec fn log(&self) -> Seq<StoreCall>;

    /// Ask whether a block is present.
    fn call_has(&mut self, handle: i32, key: &[u8]) -> (status: i32)
        ensures
            final(self).log() == old(self).log().push(
                StoreCall::Has { handle, key: key@, status },
            ),
    ;

    /// Fetch a block; on status `0` the returned buffer is the block's bytes
    /// and is owned by the caller from here on.
    fn call_get(&mut self, handle: i32, key: &[u8]) -> (r: (i32, Vec<u8>))
        ensures
            final(self).log() == old(self).log().push(
                StoreCall::Get { handle, key: key@, status: r.0, buf: r.1@ },
            ),
    ;

    /// Store a block under the key.
    fn call_put(&mut self, handle: i32, key: &[u8], value: &[u8]) -> (status: i32)
        ensures
            final(self).log() == old(self).log().push(
                StoreCall::Put { handle, key: key@, value: value@, status },
            ),
    ;

    /// Delete the block under the key.
    fn call_delete(&mut self, handle: i32, key: &[u8]) -> (status: i32)
        ensures
            final(self).log() == old(self).log().push(
                StoreCall::Delete { handle, key: key@, status },
            ),
    ;
}

/// One registered block store, named by its handle in the host's registry.
pub struct Blockstore {
    handle: i32,
}

/// An owned block fetched from the store: the identifier it was requested
/// under, its bytes, and a cursor for incremental reads.
pub struct BlockReader {
    cid: Cid,
    data: Vec<u8>,
    pos: usize,
}

impl Blockstore {
    /// The handle this store was constructed from.
    pub closed spec fn handle_spec(&self) -> i32 {
        self.handle
    }

    /// Construct a blockstore bridge from a registry handle.  The handle
    /// must already be registered by the host; the bridge only looks it up.
    pub fn new(handle: i32) -> (r: Blockstore)
        ensures
            r.handle_spec() == handle,
    {
        Blockstore { handle }
    }

    /// The handle this store addresses.
    pub fn handle(&self) -> (r: i32)
        ensures
            r == self.handle_spec(),
    {
        self.handle
    }

    /// Whether a block with identifier `k` is present: exactly one foreign
    /// call, keyed by the handle and the identifier's canonical encoding,
    /// and the `has` outcome table applied to the status it answered.
    pub fn has<R: StoreRuntime>(&self, rt: &mut R, k: &Cid) -> (r: Result<bool, BridgeError>)
        ensures
            exists|status: i32|
                final(rt).log() == old(rt).log().push(
                    StoreCall::Has {
                        handle: self.handle_spec(),
                        key: cid_key_bytes(*k),
                        status,
                    },
                ) && r == has_outcome(status),
    {
        let key = cid_to_bytes(k);
        let status = rt.call_has(self.handle, key.as_slice());
        classify_has(status)
    }

    /// Fetch the block with identifier `k`: exactly one foreign call, keyed
    /// by the handle and the identifier's canonical encoding.  On success
    /// the callee's buffer is handed over whole: the reader starts at
    /// position zero over exactly the transferred bytes.  A missing block is
    /// the recoverable `NotFound`.
    pub fn get<R: StoreRuntime>(&self, rt: &mut R, k: &Cid) -> (r: Result<
        Option<BlockReader>,
        BridgeError,
    >)
        ensures
            exists|status: i32, buf: Seq<u8>|
                final(rt).log() == old(rt).log().push(
                    StoreCall::Get {
                        handle: self.handle_spec(),
                        key: cid_key_bytes(*k),
                        status,
                        buf,
                    },
                ) && match r {
                    Ok(b) => get_outcome(status) is Ok && (b matches Some(reader) && reader.wf()
                        && reader.position() == 0 && reader.cid_spec() == *k
                        && reader.contents() == buf),
                    Err(e) => get_outcome(status) == Err::<(), BridgeError>(e),
                },
    {
        let key = cid_to_bytes(k);
        let (status, buf) = rt.call_get(self.handle, key.as_slice());
        proof {
            assert(rt.log() == old(rt).log().push(
                StoreCall::Get {
                    handle: self.handle_spec(),
                    key: cid_key_bytes(*k),
                    status,
                    buf: buf@,
                },
            ));
        }
        match classify_get(status) {
            Ok(()) => Ok(Some(BlockReader::new(*k, buf))),
            Err(e) => Err(e),
        }
    }

    /// Store `block` under identifier `k`: exactly one foreign call carrying
    /// the handle, the identifier's canonical encoding and the block's
    /// bytes, and the `put` outcome table applied to the status it answered.
    pub fn put<R: StoreRuntime>(&self, rt: &mut R, k: &Cid, block: &[u8]) -> (r: Result<
        (),
        BridgeError,
    >)
        ensures
            exists|status: i32|
                final(rt).log() == old(rt).log().push(
                    StoreCall::Put {
                        handle: self.handle_spec(),
                        key: cid_key_bytes(*k),
                        value: block@,
                        status,
                    },
                ) && r == put_outcome(status),
    {
        let key = cid_to_bytes(k);
        let status = rt.call_put(self.handle, key.as_slice(), block);
        classify_put(status)
    }

    /// Delete the block under identifier `k`: exactly one foreign call,
    /// keyed by the handle and the identifier's canonical encoding; deleting
    /// an absent block is success.
    pub fn delete<R: StoreRuntime>(&self, rt: &mut R, k: &Cid) -> (r: Result<(), BridgeError>)
        ensures
            exists|status: i32|
                final(rt).log() == old(rt).log().push(
                    StoreCall::Delete {
                        handle: self.handle_spec(),
                        key: cid_key_bytes(*k),
                        status,
                    },
                ) && r == delete_outcome(status),
    {
        let key = cid_to_bytes(k);
        let status = rt.call_delete(self.handle, key.as_slice());
        classify_delete(status)
    }
}

impl BlockReader {
    /// The cursor never passes the end of the block.
    pub closed spec fn wf(&self) -> bool {
        self.pos <= self.data@.len()
    }

    /// The block's bytes.
    pub closed spec fn contents(&self) -> Seq<u8> {
        self.data@
    }

    /// The cursor's position.
    pub closed spec fn position(&self) -> int {
        self.pos as int
    }

    /// The identifier the block was requested under.
    pub closed spec fn cid_spec(&self) -> Cid {
        self.cid
    }

    /// Wrap an owned block in a reader positioned at its start.
    pub fn new(cid: Cid, data: Vec<u8>) -> (r: BlockReader)
        ensures
            r.wf(),
            r.contents() == data@,
            r.position() == 0,
            r.cid_spec() == cid,
    {
        BlockReader { cid, data, pos: 0 }
    }

    /// The block's total size in bytes.
    pub fn size(&self) -> (r: usize)
        ensures
            r == self.contents().len(),
    {
        self.data.len()
    }

    /// The identifier the block was requested under.
    pub fn cid(&self) -> (r: &Cid)
        ensures
            *r == self.cid_spec(),
    {
        &self.cid
    }

    /// Read up to `count` bytes at the cursor, advancing it: exactly the
    /// next `min(count, remaining)` bytes of the block.
    pub fn read(&mut self, count: usize) -> (r: Vec<u8>)
        requires
            old(self).wf(),
        ensures
            final(self).wf(),
            final(self).contents() == old(self).contents(),
            final(self).cid_spec() == old(self).cid_spec(),
            r@ == old(self).contents().subrange(
                old(self).position(),
                min(old(self).position() + count, old(self).contents().len() as int),
            ),
            final(self).position() == old(self).position() + r@.len(),
    {
        let remaining: usize = self.data.len() - self.pos;
        let n: usize = if count < remaining {
            count
        } else {
            remaining
        };
        let dlen: usize = self.data.len();
        let mut out: Vec<u8> = Vec::new();
        let mut i: usize = 0;
        while i < n
            invariant
                i <= n,
                self.data@.len() == dlen,
                self.pos + n <= dlen,
                out@.len() == i,
                forall|j: int| 0 <= j < i ==> out@[j] == self.data@[self.pos + j],
            decreases n - i,
        {
            let idx: usize = self.pos + i;
            let b: u8 = self.data[idx];
            out.push(b);
            i += 1;
        }
        self.pos = self.pos + n;
        proof {
            assert(out@ =~= old(self).contents().subrange(
                old(self).position(),
                min(old(self).position() + count, old(self).contents().len() as int),
            ));
        }
        out
    }
}

} // verus!
