//! The functions that the OpenSSL core offers a provider (its "upcalls"):
//! finding them in the core's dispatch table, and the decisions around
//! calling them — when a failed or repeated call ends an operation, and what
//! a sequence of reads or writes adds up to.
use vstd::prelude::*;
use std::collections::HashMap;
use crate::bindings::{GenericFnPtr, OSSL_DISPATCH};
use crate::{CoreUpcall, OurError};

verus! {

/// A handle that the core gives a provider to identify it in upcalls,
/// carried as the address OpenSSL passed.
#[allow(non_camel_case_types)]
#[derive(Debug, Clone, Copy, PartialEq, Eq, Structural)]
pub struct OSSL_CORE_HANDLE(pub usize);

/// The index of the last entry that a dispatch table scan may read before
/// it gives up: tables longer than this are refused.
pub const MAX_DISPATCH_SIZE: usize = 512;

/// How many times an upcall may be repeated within one read or write.
pub const MAX_ITERATIONS: usize = 10;

/// Whether a scan of `t` for its end entry, which gives up after index
/// [`MAX_DISPATCH_SIZE`], stays within `t`.
pub open spec fn dispatch_scan_in_bounds(t: Seq<OSSL_DISPATCH>) -> bool {
    t.len() > MAX_DISPATCH_SIZE || exists|i: int| 0 <= i < t.len() && #[trigger] t[i].function_id == 0
}

/// Whether the entries of `t` before index `n` all are function entries
/// (none is the end entry).
pub open spec fn no_end_before(t: Seq<OSSL_DISPATCH>, n: int) -> bool {
    forall|i: int| 0 <= i < n ==> #[trigger] t[i].function_id != 0
}

/// The function entries of a dispatch table: those before its end entry,
/// when that stands at an index up to [`MAX_DISPATCH_SIZE`].
pub open spec fn dispatch_entries(t: Seq<OSSL_DISPATCH>) -> Option<Seq<OSSL_DISPATCH>> {
    if exists|n: int| 0 <= n <= MAX_DISPATCH_SIZE && n < t.len() && t[n].function_id == 0
        && no_end_before(t, n) {
        let n = choose|n: int|
            0 <= n <= MAX_DISPATCH_SIZE && n < t.len() && t[n].function_id == 0 && no_end_before(t, n);
        Some(t.subrange(0, n))
    } else {
        None
    }
}

/// The table's entries by function id (as an unsigned number); where an id
/// occurs more than once, the last entry wins.
pub open spec fn dispatch_map(s: Seq<OSSL_DISPATCH>) -> Map<u32, OSSL_DISPATCH>
    decreases s.len(),
{
    if s.len() == 0 {
        Map::empty()
    } else {
        dispatch_map(s.drop_last()).insert(entry_id(s.last()), s.last())
    }
}

/// The function that the entries offer under `id`: that of the last entry
/// with the id, when it is not `NULL`.
pub open spec fn dispatch_lookup(s: Seq<OSSL_DISPATCH>, id: u32) -> Option<GenericFnPtr> {
    if dispatch_map(s).dom().contains(id) {
        dispatch_map(s)[id].function
    } else {
        None
    }
}

/// The id under which an entry is found: its function id as an unsigned number.
pub open spec fn entry_id(e: OSSL_DISPATCH) -> u32 {
    #[verifier::truncate] (e.function_id as u32)
}

/// Looking up an id finds the function of the last entry with that id.
pub proof fn lemma_dispatch_lookup_last(s: Seq<OSSL_DISPATCH>, id: u32, i: int)
    requires
        0 <= i < s.len(),
        entry_id(s[i]) == id,
        forall|j: int| i < j < s.len() ==> entry_id(#[trigger] s[j]) != id,
    ensures
        dispatch_map(s).dom().contains(id),
        dispatch_map(s)[id] == s[i],
        dispatch_lookup(s, id) == s[i].function,
    decreases s.len(),
{
    if i < s.len() - 1 {
        let t = s.drop_last();
        assert(entry_id(s[s.len() - 1]) != id);
        assert forall|j: int| i < j < t.len() implies entry_id(#[trigger] t[j]) != id by {
            assert(t[j] == s[j]);
        }
        lemma_dispatch_lookup_last(t, id, i);
    }
}

/// Looking up an id that no entry has finds nothing.
pub proof fn lemma_dispatch_lookup_absent(s: Seq<OSSL_DISPATCH>, id: u32)
    requires
        forall|j: int| 0 <= j < s.len() ==> entry_id(#[trigger] s[j]) != id,
    ensures
        !dispatch_map(s).dom().contains(id),
        dispatch_lookup(s, id) is None,
    decreases s.len(),
{
    if s.len() > 0 {
        let t = s.drop_last();
        assert(entry_id(s[s.len() - 1]) != id);
        assert forall|j: int| 0 <= j < t.len() implies entry_id(#[trigger] t[j]) != id by {
            assert(t[j] == s[j]);
        }
        lemma_dispatch_lookup_absent(t, id);
    }
}

/// The function entries of a table are exactly those before its first end
/// entry (function id 0) when that stands at index 512 or below, and the
/// table is refused as too long when it stands further on.
pub proof fn lemma_dispatch_entries_meaning(t: Seq<OSSL_DISPATCH>, n: int)
    requires
        0 <= n < t.len(),
        t[n].function_id == 0,
        forall|i: int| 0 <= i < n ==> #[trigger] t[i].function_id != 0,
    ensures
        n <= 512 ==> dispatch_entries(t) == Some(t.subrange(0, n)),
        n > 512 ==> dispatch_entries(t) is None,
{
    assert(no_end_before(t, n));
    if n <= MAX_DISPATCH_SIZE {
        let m = choose|m: int|
            0 <= m <= MAX_DISPATCH_SIZE && m < t.len() && t[m].function_id == 0 && no_end_before(t, m);
        if m < n {
            assert(t[m].function_id != 0);
        } else if m > n {
            assert(t[n].function_id != 0);
        }
    } else {
        assert forall|m: int| 0 <= m <= MAX_DISPATCH_SIZE && m < t.len() && t[m].function_id == 0
            implies !no_end_before(t, m) by {
            assert(m < n);
            assert(t[m].function_id != 0);
        }
    }
}

/// The core's dispatch table, indexed by function id.
#[derive(Debug)]
pub struct CoreDispatch {
    core_dispatch_slice: Vec<OSSL_DISPATCH>,
    core_dispatch_map: HashMap<u32, OSSL_DISPATCH>,
}

impl CoreDispatch {
    /// The function entries of the table.
    pub closed spec fn entries(&self) -> Seq<OSSL_DISPATCH> {
        self.core_dispatch_slice@
    }

    #[verifier::type_invariant]
    spec fn indexed(&self) -> bool {
        self.core_dispatch_map@ == dispatch_map(self.core_dispatch_slice@)
    }

    /// Reads the core's dispatch table: its entries up to the end entry.
    /// An error when the table is `NULL` or when no end entry stands at an
    /// index up to [`MAX_DISPATCH_SIZE`].
    pub fn try_from(table: Option<&[OSSL_DISPATCH]>) -> (r: Result<CoreDispatch, OurError>)
        requires
            table matches Some(t) ==> dispatch_scan_in_bounds(t@),
        ensures
            match table {
                None => r == Err::<CoreDispatch, OurError>(OurError::NullDispatchTable),
                Some(t) => match dispatch_entries(t@) {
                    Some(e) => r matches Ok(d) && d.entries() == e,
                    None => r == Err::<CoreDispatch, OurError>(OurError::DispatchTableTooLong),
                },
            },
    {
        let t = match table {
            Some(t) => t,
            None => return Err(OurError::NullDispatchTable),
        };
        let mut i: usize = 0;
        loop
            invariant
                i <= MAX_DISPATCH_SIZE,
                table == Some(t),
                dispatch_scan_in_bounds(t@),
                no_end_before(t@, i as int),
            ensures
                i <= MAX_DISPATCH_SIZE,
                i < t@.len(),
                t@[i as int].function_id == 0,
                no_end_before(t@, i as int),
            decreases MAX_DISPATCH_SIZE - i,
        {
            proof {
                if t@.len() <= MAX_DISPATCH_SIZE {
                    let k = choose|k: int| 0 <= k < t@.len() && #[trigger] t@[k].function_id == 0;
                    assert(k >= i);
                }
            }
            if t[i].function_id == 0 {
                break;
            }
            assert(no_end_before(t@, i + 1));
            if i >= MAX_DISPATCH_SIZE {
                proof {
                    assert(no_end_before(t@, MAX_DISPATCH_SIZE + 1));
                    assert forall|n: int|
                        0 <= n <= MAX_DISPATCH_SIZE && n < t@.len() && t@[n].function_id == 0
                            && no_end_before(t@, n) implies false by {
                        assert(t@[n].function_id != 0);
                    }
                }
                return Err(OurError::DispatchTableTooLong);
            }
            i = i + 1;
        }
        proof {
            assert forall|n: int|
                0 <= n <= MAX_DISPATCH_SIZE && n < t@.len() && t@[n].function_id == 0
                    && no_end_before(t@, n) implies n == i by {
                if n < i {
                    assert(t@[n].function_id != 0);
                }
                if n > i {
                    assert(t@[i as int].function_id != 0);
                }
            }
        }
        let mut slice: Vec<OSSL_DISPATCH> = Vec::new();
        let mut map: HashMap<u32, OSSL_DISPATCH> = HashMap::new();
        let mut j: usize = 0;
        while j < i
            invariant
                j <= i < t@.len(),
                slice@ == t@.subrange(0, j as int),
                map@ == dispatch_map(slice@),
            decreases i - j,
        {
            let entry = t[j];
            let ghost old_slice = slice@;
            slice.push(entry);
            map.insert(#[verifier::truncate] (entry.function_id as u32), entry);
            j = j + 1;
            assert(slice@ =~= t@.subrange(0, j as int));
            assert(slice@.drop_last() =~= old_slice);
        }
        Ok(CoreDispatch { core_dispatch_slice: slice, core_dispatch_map: map })
    }

    /// A dispatch table with no entries, for tests.
    pub fn new_mock_for_testing() -> (r: CoreDispatch)
        ensures
            r.entries() == Seq::<OSSL_DISPATCH>::empty(),
    {
        let r = CoreDispatch { core_dispatch_slice: Vec::new(), core_dispatch_map: HashMap::new() };
        assert(r.core_dispatch_map@ =~= dispatch_map(r.core_dispatch_slice@));
        r
    }

    /// The function that the table offers under `id`, if it offers one that
    /// is not `NULL`: see [`dispatch_lookup`].
    pub fn fn_from_core_dispatch(&self, id: u32) -> (r: Option<GenericFnPtr>)
        ensures
            r == dispatch_lookup(self.entries(), id),
    {
        proof {
            use_type_invariant(self);
        }
        match self.core_dispatch_map.get(&id) {
            Some(entry) => entry.function,
            None => None,
        }
    }
}

/// Finds the functions that the core offers.
pub trait CoreUpcaller {
    /// The function that the core offers under `id`, if any.
    fn fn_from_core_dispatch(&self, id: u32) -> Option<GenericFnPtr>;
}

/// Finds the functions that the core offers and knows the provider's handle.
pub trait CoreUpcallerWithCoreHandle: CoreUpcaller {
    /// The handle that identifies the provider to the core.
    fn get_core_handle(&self) -> OSSL_CORE_HANDLE;
}

impl CoreUpcaller for CoreDispatch {
    fn fn_from_core_dispatch(&self, id: u32) -> (r: Option<GenericFnPtr>)
        ensures
            r == dispatch_lookup(self.entries(), id),
    {
        CoreDispatch::fn_from_core_dispatch(self, id)
    }
}

/// The core's dispatch table together with the provider's handle.
#[derive(Debug)]
pub struct CoreDispatchWithCoreHandle {
    core_dispatch: CoreDispatch,
    core_handle: OSSL_CORE_HANDLE,
}

impl CoreDispatchWithCoreHandle {
    /// The dispatch table.
    pub closed spec fn dispatch(&self) -> CoreDispatch {
        self.core_dispatch
    }

    /// The handle.
    pub closed spec fn handle(&self) -> OSSL_CORE_HANDLE {
        self.core_handle
    }

    /// Joins a dispatch table and a handle.
    pub fn from(value: (CoreDispatch, OSSL_CORE_HANDLE)) -> (r: CoreDispatchWithCoreHandle)
        ensures
            r.dispatch() == value.0,
            r.handle() == value.1,
    {
        let (core_dispatch, core_handle) = value;
        CoreDispatchWithCoreHandle { core_dispatch, core_handle }
    }

    /// Separates the dispatch table and the handle.
    pub fn into_parts(self) -> (r: (CoreDispatch, OSSL_CORE_HANDLE))
        ensures
            r.0 == self.dispatch(),
            r.1 == self.handle(),
    {
        (self.core_dispatch, self.core_handle)
    }

    /// The dispatch table, without the handle.
    pub fn into_core_dispatch(self) -> (r: CoreDispatch)
        ensures
            r == self.dispatch(),
    {
        self.core_dispatch
    }

    /// The handle that identifies the provider to the core.
    pub fn get_core_handle(&self) -> (r: OSSL_CORE_HANDLE)
        ensures
            r == self.handle(),
    {
        self.core_handle
    }

    /// The function that the core offers under `id`, if any.
    pub fn fn_from_core_dispatch(&self, id: u32) -> (r: Option<GenericFnPtr>)
        ensures
            r == dispatch_lookup(self.dispatch().entries(), id),
    {
        self.core_dispatch.fn_from_core_dispatch(id)
    }
}

impl CoreUpcaller for CoreDispatchWithCoreHandle {
    fn fn_from_core_dispatch(&self, id: u32) -> (r: Option<GenericFnPtr>)
        ensures
            r == dispatch_lookup(self.dispatch().entries(), id),
    {
        self.core_dispatch.fn_from_core_dispatch(id)
    }
}

impl CoreUpcallerWithCoreHandle for CoreDispatchWithCoreHandle {
    fn get_core_handle(&self) -> (r: OSSL_CORE_HANDLE)
        ensures
            r == self.handle(),
    {
        self.core_handle
    }
}

/// What a core upcall's return code means: 1 is success, 0 is failure (the
/// core functions return nothing else).
pub fn upcall_status(which: CoreUpcall, ret: i32) -> (r: Result<(), OurError>)
    requires
        ret == 0 || ret == 1,
    ensures
        ret == 1 ==> r is Ok,
        ret == 0 ==> r == Err::<(), OurError>(OurError::UpcallFailed(which)),
{
    if ret == 1 {
        Ok(())
    } else {
        Err(OurError::UpcallFailed(which))
    }
}

/// The function of an upcall, or the error that the core offers none.
pub fn require_upcall(which: CoreUpcall, f: Option<GenericFnPtr>) -> (r: Result<GenericFnPtr, OurError>)
    ensures
        match f {
            Some(g) => r == Ok::<GenericFnPtr, OurError>(g),
            None => r == Err::<GenericFnPtr, OurError>(OurError::NoUpcallPointer(which)),
        },
{
    match f {
        Some(g) => Ok(g),
        None => Err(OurError::NoUpcallPointer(which)),
    }
}

/// Calls `zeroize::Zeroize::zeroize` on a byte vector, which overwrites its
/// bytes (and its spare capacity) with zeros and then clears it.
#[verifier::external_body]
fn zeroize_bytes(v: &mut Vec<u8>)
    ensures
        final(v)@ == Seq::<u8>::empty(),
{
    zeroize::Zeroize::zeroize(v)
}

/// What to do after one `BIO_read_ex` upcall.
#[derive(Debug, Clone, Copy, PartialEq, Eq, Structural)]
pub enum BioReadStep {
    /// Read more: call again.
    Continue,
    /// The input ended: the data read so far is the result.
    Finished,
    /// The upcall was made too many times: the read fails.
    TooManyCalls,
}

/// Whether an upcall outcome marks the end of the input: a return of 0 with
/// no bytes.
pub open spec fn is_end_of_input(ret: i32, chunk: Seq<u8>) -> bool {
    ret == 0 && chunk.len() == 0
}

/// One step of a read: the end of input finishes it with the data so far;
/// any other outcome is the upcall number `calls + 1`, which fails the read
/// and wipes its data when it exceeds [`MAX_ITERATIONS`], and otherwise adds
/// its bytes to the data.
pub open spec fn bio_read_step(calls: nat, collected: Seq<u8>, ret: i32, chunk: Seq<u8>) -> (
    nat,
    Seq<u8>,
    BioReadStep,
) {
    if is_end_of_input(ret, chunk) {
        (calls + 1, collected, BioReadStep::Finished)
    } else if calls + 1 > MAX_ITERATIONS {
        (calls + 1, Seq::empty(), BioReadStep::TooManyCalls)
    } else {
        (calls + 1, collected + chunk, BioReadStep::Continue)
    }
}

/// A whole read over the upcall outcomes `events`, from `calls` upcalls
/// made and `collected` data: the data and the step at which it stopped
/// (`Continue` when the outcomes ran out first).
pub open spec fn bio_read_run(calls: nat, collected: Seq<u8>, events: Seq<(i32, Seq<u8>)>) -> (
    Seq<u8>,
    BioReadStep,
)
    decreases events.len(),
{
    if events.len() == 0 {
        (collected, BioReadStep::Continue)
    } else {
        let (c, d, step) = bio_read_step(calls, collected, events[0].0, events[0].1);
        if step == BioReadStep::Continue {
            bio_read_run(c, d, events.drop_first())
        } else {
            (d, step)
        }
    }
}

/// The bytes of all the outcomes, in order.
pub open spec fn concat_chunks(events: Seq<(i32, Seq<u8>)>) -> Seq<u8>
    decreases events.len(),
{
    if events.len() == 0 {
        Seq::empty()
    } else {
        events[0].1 + concat_chunks(events.drop_first())
    }
}

/// A read whose input ends after `k` outcomes, with `k` within the allowed
/// number of upcalls, returns the bytes of those `k` outcomes in order.
pub proof fn lemma_bio_read_collects_until_end(
    calls: nat,
    collected: Seq<u8>,
    events: Seq<(i32, Seq<u8>)>,
    k: int,
)
    requires
        0 <= k < events.len(),
        calls + k <= MAX_ITERATIONS,
        forall|i: int| 0 <= i < k ==> !is_end_of_input(#[trigger] events[i].0, events[i].1),
        is_end_of_input(events[k].0, events[k].1),
    ensures
        bio_read_run(calls, collected, events) == (
            collected + concat_chunks(events.take(k)),
            BioReadStep::Finished,
        ),
    decreases k,
{
    if k == 0 {
        assert(events.take(0) =~= Seq::<(i32, Seq<u8>)>::empty());
        assert(collected + Seq::<u8>::empty() =~= collected);
    } else {
        let rest = events.drop_first();
        assert forall|i: int| 0 <= i < k - 1 implies !is_end_of_input(#[trigger] rest[i].0, rest[i].1) by {
            assert(rest[i] == events[i + 1]);
        }
        assert(!is_end_of_input(events[0].0, events[0].1));
        lemma_bio_read_collects_until_end(calls + 1, collected + events[0].1, rest, k - 1);
        assert(events.take(k).drop_first() =~= rest.take(k - 1));
        assert(events.take(k)[0] == events[0]);
        assert(collected + events[0].1 + concat_chunks(rest.take(k - 1)) =~= collected + (events[0].1
            + concat_chunks(rest.take(k - 1))));
    }
}

/// A read whose input does not end within the allowed number of upcalls
/// fails at the next one and keeps no data.
pub proof fn lemma_bio_read_fails_after_limit(calls: nat, collected: Seq<u8>, events: Seq<(i32, Seq<u8>)>)
    requires
        calls <= MAX_ITERATIONS,
        events.len() > MAX_ITERATIONS - calls,
        forall|i: int| 0 <= i <= MAX_ITERATIONS - calls ==> !is_end_of_input(#[trigger] events[i].0, events[i].1),
    ensures
        bio_read_run(calls, collected, events) == (Seq::<u8>::empty(), BioReadStep::TooManyCalls),
    decreases MAX_ITERATIONS - calls,
{
    assert(!is_end_of_input(events[0].0, events[0].1));
    if calls < MAX_ITERATIONS {
        let rest = events.drop_first();
        assert forall|i: int| 0 <= i <= MAX_ITERATIONS - (calls + 1) implies !is_end_of_input(#[trigger] rest[i].0, rest[i].1) by {
            assert(rest[i] == events[i + 1]);
        }
        lemma_bio_read_fails_after_limit(calls + 1, collected + events[0].1, rest);
    }
}

/// Every upcall of a read counts once. One that answers 0 with no bytes
/// ends the input and keeps the data as it was; any other adds its bytes,
/// in order, after the data so far, unless it is the eleventh or a later
/// upcall, which fails the read and leaves no data.
pub proof fn lemma_bio_read_step_meaning(calls: nat, collected: Seq<u8>, ret: i32, chunk: Seq<u8>)
    ensures
        bio_read_step(calls, collected, ret, chunk).0 == calls + 1,
        ret == 0 && chunk.len() == 0 ==> bio_read_step(calls, collected, ret, chunk).1 == collected
            && bio_read_step(calls, collected, ret, chunk).2 == BioReadStep::Finished,
        !(ret == 0 && chunk.len() == 0) && calls + 1 <= 10 ==> bio_read_step(
            calls,
            collected,
            ret,
            chunk,
        ).1 == collected + chunk && bio_read_step(calls, collected, ret, chunk).2
            == BioReadStep::Continue,
        !(ret == 0 && chunk.len() == 0) && calls + 1 > 10 ==> bio_read_step(
            calls,
            collected,
            ret,
            chunk,
        ).1.len() == 0 && bio_read_step(calls, collected, ret, chunk).2
            == BioReadStep::TooManyCalls,
{
}

/// The bookkeeping of a read through repeated `BIO_read_ex` upcalls: how
/// many were made, and the data they delivered.
pub struct BioReadSession {
    calls: usize,
    collected: Vec<u8>,
}

impl BioReadSession {
    /// How many upcalls were made.
    pub closed spec fn calls(&self) -> nat {
        self.calls as nat
    }

    /// The data delivered so far.
    pub closed spec fn collected(&self) -> Seq<u8> {
        self.collected@
    }

    /// A read that has made no upcall yet.
    pub fn new() -> (r: BioReadSession)
        ensures
            r.calls() == 0,
            r.collected() == Seq::<u8>::empty(),
    {
        BioReadSession { calls: 0, collected: Vec::new() }
    }

    /// Takes in the outcome of one upcall: its return code and the bytes it
    /// read. A return of 0 with no bytes ends the input. Otherwise the bytes
    /// are kept, unless this was the upcall after the [`MAX_ITERATIONS`]-th:
    /// then the data read so far is wiped and the read fails.
    pub fn on_upcall(&mut self, ret: i32, chunk: &[u8]) -> (r: BioReadStep)
        requires
            old(self).calls() <= MAX_ITERATIONS,
        ensures
            (final(self).calls(), final(self).collected(), r) == bio_read_step(
                old(self).calls(),
                old(self).collected(),
                ret,
                chunk@,
            ),
    {
        self.calls = self.calls + 1;
        if ret == 0 && chunk.len() == 0 {
            return BioReadStep::Finished;
        }
        if self.calls > MAX_ITERATIONS {
            zeroize_bytes(&mut self.collected);
            return BioReadStep::TooManyCalls;
        }
        let mut i: usize = 0;
        let ghost start = self.collected@;
        let ghost calls = self.calls;
        while i < chunk.len()
            invariant
                i <= chunk@.len(),
                self.collected@ == start + chunk@.subrange(0, i as int),
                self.calls == calls,
            decreases chunk@.len() - i,
        {
            self.collected.push(chunk[i]);
            i = i + 1;
            assert(self.collected@ =~= start + chunk@.subrange(0, i as int));
        }
        assert(chunk@.subrange(0, chunk@.len() as int) =~= chunk@);
        BioReadStep::Continue
    }

    /// The data read.
    pub fn into_data(self) -> (r: Vec<u8>)
        ensures
            r@ == self.collected(),
    {
        self.collected
    }
}

/// What to do after one `BIO_write_ex` upcall.
#[derive(Debug, Clone, Copy, PartialEq, Eq, Structural)]
pub enum BioWriteStep {
    /// Go on writing while data remains.
    Continue,
    /// The output ended: the bytes written so far are the result.
    Finished,
    /// The upcall was made too many times: the write fails.
    TooManyCalls,
}

/// One step of a write: a return of 0 with no bytes ends the output;
/// otherwise the bytes count, whatever the return code, and the upcall
/// number `calls + 1` fails the write when it exceeds [`MAX_ITERATIONS`].
pub open spec fn bio_write_step(calls: nat, written: nat, ret: i32, n: nat) -> (nat, nat, BioWriteStep) {
    if ret == 0 && n == 0 {
        (calls + 1, written, BioWriteStep::Finished)
    } else if calls + 1 > MAX_ITERATIONS {
        (calls + 1, written + n, BioWriteStep::TooManyCalls)
    } else {
        (calls + 1, written + n, BioWriteStep::Continue)
    }
}

/// A whole write of `total` bytes over the upcall outcomes `events` (return
/// code and bytes written), from `calls` upcalls made and `written` bytes:
/// the number of bytes it reports, or `None` when it fails (or the outcomes
/// run out while data remains).
pub open spec fn bio_write_run(calls: nat, written: nat, total: nat, events: Seq<(i32, nat)>) -> Option<nat>
    decreases events.len(),
{
    if written >= total {
        Some(written)
    } else if events.len() == 0 {
        None
    } else {
        let (c, w, step) = bio_write_step(calls, written, events[0].0, events[0].1);
        match step {
            BioWriteStep::Finished => Some(w),
            BioWriteStep::TooManyCalls => None,
            BioWriteStep::Continue => bio_write_run(c, w, total, events.drop_first()),
        }
    }
}

/// The bytes written by the first `k` outcomes.
pub open spec fn written_by(events: Seq<(i32, nat)>, k: int) -> nat
    decreases k,
{
    if k <= 0 {
        0
    } else {
        written_by(events, k - 1) + events[k - 1].1
    }
}

/// A write whose remaining bytes the core takes in `k` upcalls, each
/// writing something, with `k` within the allowed number, reports all
/// `total` bytes written.
pub proof fn lemma_bio_write_completes(calls: nat, written: nat, total: nat, events: Seq<(i32, nat)>, k: int)
    requires
        0 <= k <= events.len(),
        calls + k <= MAX_ITERATIONS,
        written + written_by(events, k) == total,
        forall|i: int| 0 <= i < k ==> #[trigger] events[i].1 > 0,
    ensures
        bio_write_run(calls, written, total, events) == Some(total),
    decreases k,
{
    if k > 0 {
        let rest = events.drop_first();
        lemma_written_by_shift(events, k);
        assert forall|i: int| 0 <= i < k - 1 implies #[trigger] rest[i].1 > 0 by {
            assert(rest[i] == events[i + 1]);
        }
        assert(events[0].1 > 0);
        lemma_written_by_positive(events, k);
        lemma_bio_write_completes(calls + 1, written + events[0].1, total, rest, k - 1);
    }
}

/// The bytes of the first `k` outcomes are those of the first one and of
/// the `k - 1` after it.
pub proof fn lemma_written_by_shift(events: Seq<(i32, nat)>, k: int)
    requires
        0 < k <= events.len(),
    ensures
        written_by(events, k) == events[0].1 + written_by(events.drop_first(), k - 1),
    decreases k,
{
    if k > 1 {
        lemma_written_by_shift(events, k - 1);
        assert(events.drop_first()[k - 2] == events[k - 1]);
    } else {
        assert(written_by(events, 0) == 0);
        assert(written_by(events.drop_first(), 0) == 0);
    }
}

/// The first `k` outcomes write at least as much as the first one alone.
pub proof fn lemma_written_by_positive(events: Seq<(i32, nat)>, k: int)
    requires
        0 < k <= events.len(),
    ensures
        written_by(events, k) >= events[0].1,
    decreases k,
{
    if k > 1 {
        lemma_written_by_positive(events, k - 1);
    }
}

/// Every upcall of a write counts once and adds exactly the bytes it
/// wrote to the count, whatever it answered; an upcall that ends the output
/// (0, with no bytes) leaves the count as it was, and any other fails the
/// write exactly when it is the eleventh or a later upcall.
pub proof fn lemma_bio_write_step_counts(calls: nat, written: nat, ret: i32, n: nat)
    ensures
        bio_write_step(calls, written, ret, n).0 == calls + 1,
        bio_write_step(calls, written, ret, n).1 == written + n,
        ret == 0 && n == 0 ==> bio_write_step(calls, written, ret, n).1 == written
            && bio_write_step(calls, written, ret, n).2 == BioWriteStep::Finished,
        !(ret == 0 && n == 0) ==> (bio_write_step(calls, written, ret, n).2
            == BioWriteStep::TooManyCalls <==> calls + 1 > 10),
        !(ret == 0 && n == 0) && calls + 1 <= 10 ==> bio_write_step(calls, written, ret, n).2
            == BioWriteStep::Continue,
{
}

/// A write whose output ends (an upcall answers 0 with no bytes) after `k`
/// upcalls that each wrote something, within the allowed number and before
/// all the data was written, reports the bytes of those `k` upcalls.
pub proof fn lemma_bio_write_stops_early(
    calls: nat,
    written: nat,
    total: nat,
    events: Seq<(i32, nat)>,
    k: int,
)
    requires
        0 <= k < events.len(),
        calls + k <= MAX_ITERATIONS,
        written + written_by(events, k) < total,
        forall|i: int| 0 <= i < k ==> #[trigger] events[i].1 > 0,
        events[k] == (0i32, 0nat),
    ensures
        bio_write_run(calls, written, total, events) == Some(written + written_by(events, k)),
    decreases k,
{
    if k > 0 {
        let rest = events.drop_first();
        lemma_written_by_shift(events, k);
        assert forall|i: int| 0 <= i < k - 1 implies #[trigger] rest[i].1 > 0 by {
            assert(rest[i] == events[i + 1]);
        }
        assert(events[0].1 > 0);
        assert(rest[k - 1] == events[k]);
        lemma_bio_write_stops_early(calls + 1, written + events[0].1, total, rest, k - 1);
    } else {
        assert(written_by(events, 0) == 0);
    }
}

/// The bookkeeping of a write through repeated `BIO_write_ex` upcalls: how
/// many were made and how many bytes of the data they wrote.
pub struct BioWriteSession {
    calls: usize,
    written: usize,
    total: usize,
}

impl BioWriteSession {
    /// How many upcalls were made.
    pub closed spec fn calls(&self) -> nat {
        self.calls as nat
    }

    /// How many bytes were written.
    pub closed spec fn written(&self) -> nat {
        self.written as nat
    }

    /// How many bytes there are to write.
    pub closed spec fn total(&self) -> nat {
        self.total as nat
    }

    /// A write of `total` bytes that has made no upcall yet.
    pub fn new(total: usize) -> (r: BioWriteSession)
        ensures
            r.calls() == 0,
            r.written() == 0,
            r.total() == total,
    {
        BioWriteSession { calls: 0, written: 0, total }
    }

    /// Whether all the data has been written.
    pub fn is_complete(&self) -> (r: bool)
        ensures
            r == (self.written() == self.total()),
    {
        self.written == self.total
    }

    /// How many bytes were written; the data from there on remains.
    pub fn written_bytes(&self) -> (r: usize)
        ensures
            r == self.written(),
    {
        self.written
    }

    /// Takes in the outcome of one upcall while data remains: its return
    /// code and how many bytes it wrote. A return of 0 with no bytes ends the
    /// output. Otherwise the written bytes count, whatever the code, and the
    /// write fails if this was the upcall after the [`MAX_ITERATIONS`]-th.
    pub fn on_upcall(&mut self, ret: i32, n: usize) -> (r: BioWriteStep)
        requires
            old(self).calls() <= MAX_ITERATIONS,
            old(self).written() < old(self).total(),
            n <= old(self).total() - old(self).written(),
        ensures
            final(self).total() == old(self).total(),
            (final(self).calls(), final(self).written(), r) == bio_write_step(
                old(self).calls(),
                old(self).written(),
                ret,
                n as nat,
            ),
    {
        self.calls = self.calls + 1;
        if ret == 0 && n == 0 {
            return BioWriteStep::Finished;
        }
        self.written = self.written + n;
        if self.calls > MAX_ITERATIONS {
            return BioWriteStep::TooManyCalls;
        }
        BioWriteStep::Continue
    }
}

} // verus!
