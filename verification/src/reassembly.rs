//! The chunk reassembly engine: a table of upload sessions that accepts the
//! fragments of a file in any order and hands the file out once every slot
//! of its session is filled.

use vstd::prelude::*;
use crate::error::CoreError;
use crate::types::Chunk;
use crate::types::ChunkMetadata;
use crate::types::MetadataView;
use crate::types::UploadFilePayload;

verus! {

/// The largest number of fragments that one upload may announce.
pub const MAX_CHUNKS: usize = 100_000;

/// The slots of a session: each is empty or holds the bytes of one fragment.
pub type Slots = Seq<Option<Seq<u8>>>;

/// A session as mathematical values.
pub struct SessionView {
    pub filename: Seq<char>,
    pub mime_type: Seq<char>,
    pub slots: Slots,
}

/// The table of sessions as a map from upload id to session.
pub type TableView = Map<Seq<char>, SessionView>;

/// What became of a fragment, as mathematical values.
pub enum OutcomeView {
    /// The fragment was refused and the table left as it was.
    Rejected(CoreError),
    /// The fragment was stored; its session still waits for others.
    Stored { chunk_index: nat },
    /// The fragment was the last one missing: the file is assembled and its
    /// session is gone.
    Completed { chunk_index: nat, name: Seq<char>, mime_type: Seq<char>, data: Seq<u8> },
}

/// The bytes of an optional buffer.
pub open spec fn bytes_view(o: Option<Vec<u8>>) -> Option<Seq<u8>> {
    match o {
        Some(v) => Some(v@),
        None => None,
    }
}

/// The slots held by a vector of optional buffers.
pub open spec fn slots_view(v: Seq<Option<Vec<u8>>>) -> Slots {
    Seq::new(v.len(), |i: int| bytes_view(v[i]))
}

/// Every slot holds a fragment.
pub open spec fn all_filled(slots: Slots) -> bool {
    forall|k: int| 0 <= k < slots.len() ==> (#[trigger] slots[k]) is Some
}

/// The bytes that a slot adds to the assembled file.
pub open spec fn slot_bytes(slot: Option<Seq<u8>>) -> Seq<u8> {
    match slot {
        Some(b) => b,
        None => Seq::empty(),
    }
}

/// The contents of the slots, one after the other in index order.
pub open spec fn assembled(slots: Slots) -> Seq<u8>
    decreases slots.len(),
{
    if slots.len() == 0 {
        Seq::empty()
    } else {
        assembled(slots.drop_last()) + slot_bytes(slots.last())
    }
}

/// A session that the table may hold: between one and `MAX_CHUNKS` slots,
/// at least one of them still empty.
pub open spec fn session_ok(s: SessionView) -> bool {
    &&& 1 <= s.slots.len() <= MAX_CHUNKS
    &&& !all_filled(s.slots)
}

/// Every session of the table is one that it may hold.
pub open spec fn table_ok(t: TableView) -> bool {
    forall|id: Seq<char>| t.contains_key(id) ==> session_ok(#[trigger] t[id])
}

/// The fragment announces between one and `MAX_CHUNKS` fragments and its
/// index is one of them.
pub open spec fn metadata_ok(m: MetadataView) -> bool {
    1 <= m.total_chunks <= MAX_CHUNKS && m.chunk_index < m.total_chunks
}

/// The session that the first fragment of an upload creates.
pub open spec fn fresh_session(m: MetadataView) -> SessionView {
    SessionView {
        filename: m.filename,
        mime_type: m.mime_type,
        slots: Seq::new(m.total_chunks, |i: int| None),
    }
}

/// The engine's rule for one fragment: the table and the outcome that follow
/// from the table before it, the fragment's metadata, its decoded payload
/// (`None` where decoding failed) and whether the slots of a new session
/// could be allocated.
///
/// A fragment that fails to decode, whose metadata is out of range, or whose
/// index lies outside the slots that its session was created with, is
/// rejected and changes nothing. Otherwise its bytes replace whatever its slot
/// held. When that fills the last empty slot the session leaves the table and
/// the file is the slots' contents in index order.
pub open spec fn spec_accept(
    t: TableView,
    m: MetadataView,
    decoded: Option<Seq<u8>>,
    allocated: bool,
) -> (TableView, OutcomeView) {
    if decoded is None {
        (t, OutcomeView::Rejected(CoreError::DecodeFailed))
    } else if !metadata_ok(m) {
        (t, OutcomeView::Rejected(CoreError::InvalidChunkMetadata))
    } else if !t.contains_key(m.upload_id) && !allocated {
        (t, OutcomeView::Rejected(CoreError::AllocationFailed))
    } else {
        let s = if t.contains_key(m.upload_id) {
            t[m.upload_id]
        } else {
            fresh_session(m)
        };
        if m.chunk_index >= s.slots.len() {
            (t, OutcomeView::Rejected(CoreError::InvalidChunkMetadata))
        } else {
            let slots = s.slots.update(m.chunk_index as int, decoded);
            if all_filled(slots) {
                (
                    t.remove(m.upload_id),
                    OutcomeView::Completed {
                        chunk_index: m.chunk_index,
                        name: s.filename,
                        mime_type: s.mime_type,
                        data: assembled(slots),
                    },
                )
            } else {
                (
                    t.insert(m.upload_id, SessionView { slots, ..s }),
                    OutcomeView::Stored { chunk_index: m.chunk_index },
                )
            }
        }
    }
}

/// What `text` decodes to as base64 in the standard alphabet with
/// canonical padding; `None` where it is not such a text.
pub uninterp spec fn base64_decoded(text: Seq<char>) -> Option<Seq<u8>>;

/// Calls `base64::decode`, which decodes with the standard engine. The
/// contract claims only that the outcome is a function of the text: the bytes
/// on success, `None` on any decoding error.
#[allow(deprecated)]
#[verifier::external_body]
fn decode_base64(text: &str) -> (r: Option<Vec<u8>>)
    ensures
        bytes_view(r) == base64_decoded(text@),
{
    match base64::decode(text) {
        Ok(bytes) => Some(bytes),
        Err(_) => None,
    }
}

/// One upload in progress.
#[derive(Clone, Debug, PartialEq, Eq)]
pub struct UploadSession {
    pub upload_id: String,
    pub filename: String,
    pub mime_type: String,
    pub slots: Vec<Option<Vec<u8>>>,
}

impl View for UploadSession {
    type V = SessionView;

    open spec fn view(&self) -> SessionView {
        SessionView {
            filename: self.filename@,
            mime_type: self.mime_type@,
            slots: slots_view(self.slots@),
        }
    }
}

/// What became of a fragment.
#[derive(Clone, Debug, PartialEq, Eq)]
pub enum FragmentOutcome {
    /// The fragment was refused and the table left as it was.
    Rejected(CoreError),
    /// The fragment was stored and is to be acknowledged.
    Stored { chunk_index: usize },
    /// The fragment is to be acknowledged and completed its upload: the
    /// payload goes to the upload backend.
    Completed { chunk_index: usize, payload: UploadFilePayload },
}

impl View for FragmentOutcome {
    type V = OutcomeView;

    open spec fn view(&self) -> OutcomeView {
        match *self {
            FragmentOutcome::Rejected(e) => OutcomeView::Rejected(e),
            FragmentOutcome::Stored { chunk_index } => OutcomeView::Stored {
                chunk_index: chunk_index as nat,
            },
            FragmentOutcome::Completed { chunk_index, payload } => OutcomeView::Completed {
                chunk_index: chunk_index as nat,
                name: payload.name@,
                mime_type: payload.mime_type@,
                data: payload.data@,
            },
        }
    }
}

/// Whether every slot holds a fragment.
pub fn is_complete(slots: &Vec<Option<Vec<u8>>>) -> (r: bool)
    ensures
        r == all_filled(slots_view(slots@)),
{
    let mut i: usize = 0;
    while i < slots.len()
        invariant
            i <= slots.len(),
            forall|k: int| 0 <= k < i ==> (#[trigger] slots_view(slots@)[k]) is Some,
        decreases slots.len() - i,
    {
        if slots[i].is_none() {
            assert(slots_view(slots@)[i as int] is None);
            return false;
        }
        i += 1;
    }
    true
}

/// The slots' contents, one after the other in index order.
pub fn assemble(slots: &Vec<Option<Vec<u8>>>) -> (data: Vec<u8>)
    ensures
        data@ == assembled(slots_view(slots@)),
{
    let mut data: Vec<u8> = Vec::new();
    let mut i: usize = 0;
    while i < slots.len()
        invariant
            i <= slots.len(),
            data@ == assembled(slots_view(slots@).take(i as int)),
        decreases slots.len() - i,
    {
        let ghost before = data@;
        match &slots[i] {
            Some(part) => {
                let mut j: usize = 0;
                while j < part.len()
                    invariant
                        j <= part.len(),
                        data@ == before + part@.take(j as int),
                    decreases part.len() - j,
                {
                    data.push(part[j]);
                    j += 1;
                    assert(data@ =~= before + part@.take(j as int));
                }
                assert(part@.take(j as int) =~= part@);
            },
            None => {
                assert(data@ =~= before + Seq::<u8>::empty());
            },
        }
        proof {
            let all = slots_view(slots@);
            assert(all.take(i as int + 1).drop_last() =~= all.take(i as int));
            assert(all.take(i as int + 1).last() == all[i as int]);
        }
        i += 1;
    }
    assert(slots_view(slots@).take(i as int) =~= slots_view(slots@));
    data
}

/// An empty vector with room reserved for `total` slots; `None` where the
/// memory for them cannot be had. Room for no slots needs no memory and is
/// always had; for any other number the allocator decides.
pub fn reserve_slots(total: usize) -> (r: Option<Vec<Option<Vec<u8>>>>)
    ensures
        total == 0 ==> r is Some,
        r matches Some(v) ==> v@.len() == 0,
{
    let mut slots: Vec<Option<Vec<u8>>> = Vec::new();
    if total == 0 {
        return Some(slots);
    }
    if slots.try_reserve(total).is_err() {
        return None;
    }
    Some(slots)
}

/// Turns a vector into `total` empty slots, whatever it held.
pub fn fill_empty(slots: Vec<Option<Vec<u8>>>, total: usize) -> (r: Vec<Option<Vec<u8>>>)
    ensures
        slots_view(r@) == Seq::new(total as nat, |i: int| None::<Seq<u8>>),
{
    let mut slots = slots;
    slots.clear();
    let mut i: usize = 0;
    while i < total
        invariant
            i <= total,
            slots@.len() == i,
            forall|k: int| 0 <= k < i ==> (#[trigger] slots@[k]) is None,
        decreases total - i,
    {
        slots.push(None);
        i += 1;
    }
    assert(slots_view(slots@) =~= Seq::new(total as nat, |i: int| None::<Seq<u8>>));
    slots
}

/// The sessions in progress, at most one for each upload id. A table is
/// made empty and changed only by the functions of this module, which keep it
/// well-formed.
#[derive(Clone, Debug, PartialEq, Eq)]
pub struct SessionTable {
    sessions: Vec<UploadSession>,
}

impl View for SessionTable {
    type V = TableView;

    closed spec fn view(&self) -> TableView {
        Map::new(|id: Seq<char>| self.has(id), |id: Seq<char>| self.sessions[self.index_of(id)]@)
    }
}

impl SessionTable {
    /// A session of the table has the id `id`.
    spec fn has(&self, id: Seq<char>) -> bool {
        exists|i: int| 0 <= i < self.sessions.len() && (#[trigger] self.sessions[i]).upload_id@ == id
    }

    /// Where the session with the id `id` stands.
    spec fn index_of(&self, id: Seq<char>) -> int {
        choose|i: int| 0 <= i < self.sessions.len() && (#[trigger] self.sessions[i]).upload_id@ == id
    }

    /// No two sessions share an id, and each is one that the table may hold.
    pub closed spec fn wf(&self) -> bool {
        &&& forall|i: int, j: int|
            0 <= i < j < self.sessions.len() ==> (#[trigger] self.sessions[i]).upload_id@ != (
            #[trigger] self.sessions[j]).upload_id@
        &&& forall|i: int|
            0 <= i < self.sessions.len() ==> session_ok((#[trigger] self.sessions[i])@)
    }

    /// In a well-formed table an id leads back to the session that bears it.
    proof fn lemma_index_of(&self, i: int)
        requires
            self.wf(),
            0 <= i < self.sessions.len(),
        ensures
            self.has(self.sessions[i].upload_id@),
            self.index_of(self.sessions[i].upload_id@) == i,
            self@.contains_key(self.sessions[i].upload_id@),
            self@[self.sessions[i].upload_id@] == self.sessions[i]@,
    {
        let id = self.sessions[i].upload_id@;
        let j = self.index_of(id);
        assert(0 <= j < self.sessions.len() && self.sessions[j].upload_id@ == id);
        if j < i {
            assert(self.sessions[j].upload_id@ != self.sessions[i].upload_id@);
        } else if i < j {
            assert(self.sessions[i].upload_id@ != self.sessions[j].upload_id@);
        }
    }

    /// The model of a well-formed table holds only sessions that it may hold.
    pub proof fn lemma_view_ok(&self)
        requires
            self.wf(),
        ensures
            table_ok(self@),
    {
        assert forall|id: Seq<char>| self@.contains_key(id) implies session_ok(
            #[trigger] self@[id],
        ) by {
            let j = self.index_of(id);
            assert(0 <= j < self.sessions.len() && self.sessions[j].upload_id@ == id);
        }
    }

    /// A table without sessions.
    pub fn new() -> (t: SessionTable)
        ensures
            t.wf(),
            t@ == Map::<Seq<char>, SessionView>::empty(),
    {
        let t = SessionTable { sessions: Vec::new() };
        assert(t@ =~= Map::<Seq<char>, SessionView>::empty());
        t
    }

    /// The number of sessions in progress.
    pub fn len(&self) -> (n: usize)
        requires
            self.wf(),
        ensures
            n == self@.dom().len(),
            self@.dom().finite(),
    {
        proof {
            self.lemma_domain(self.sessions.len() as int);
            assert(self.ids(self.sessions.len() as int) =~= self@.dom());
        }
        self.sessions.len()
    }

    /// The ids of the first `k` sessions.
    spec fn ids(&self, k: int) -> Set<Seq<char>> {
        Set::new(|id: Seq<char>| exists|i: int| 0 <= i < k && (#[trigger] self.sessions[i]).upload_id@ == id)
    }

    /// The first `k` sessions bear `k` different ids.
    proof fn lemma_domain(&self, k: int)
        requires
            self.wf(),
            0 <= k <= self.sessions.len(),
        ensures
            self.ids(k).finite(),
            self.ids(k).len() == k,
        decreases k,
    {
        if k == 0 {
            assert(self.ids(0) =~= Set::<Seq<char>>::empty());
        } else {
            self.lemma_domain(k - 1);
            let id = self.sessions[k - 1].upload_id@;
            assert(!self.ids(k - 1).contains(id)) by {
                if self.ids(k - 1).contains(id) {
                    let i = choose|i: int| 0 <= i < k - 1 && (#[trigger] self.sessions[i]).upload_id@ == id;
                    assert(self.sessions[i].upload_id@ != self.sessions[k - 1].upload_id@);
                }
            }
            assert(self.ids(k) =~= self.ids(k - 1).insert(id)) by {
                assert forall|x: Seq<char>| self.ids(k - 1).insert(id).contains(x) implies self.ids(k).contains(x) by {
                    if x == id {
                        assert(self.sessions[k - 1].upload_id@ == x);
                    } else {
                        let i = choose|i: int| 0 <= i < k - 1 && (#[trigger] self.sessions[i]).upload_id@ == x;
                        assert(0 <= i < k && self.sessions[i].upload_id@ == x);
                    }
                }
            }
        }
    }

    /// The session of `upload_id`, if the table has one.
    pub fn session(&self, upload_id: &String) -> (r: Option<&UploadSession>)
        requires
            self.wf(),
        ensures
            r is Some == self@.contains_key(upload_id@),
            r matches Some(s) ==> s@ == self@[upload_id@] && s.upload_id@ == upload_id@,
    {
        match self.find(upload_id) {
            Some(i) => {
                proof {
                    self.lemma_index_of(i as int);
                }
                Some(&self.sessions[i])
            },
            None => None,
        }
    }

    /// Where the session of `upload_id` stands, if the table has one.
    fn find(&self, upload_id: &String) -> (r: Option<usize>)
        ensures
            match r {
                Some(i) => i < self.sessions.len() && self.sessions[i as int].upload_id@
                    == upload_id@,
                None => !self.has(upload_id@),
            },
    {
        let mut i: usize = 0;
        while i < self.sessions.len()
            invariant
                i <= self.sessions.len(),
                forall|j: int| 0 <= j < i ==> (#[trigger] self.sessions[j]).upload_id@ != upload_id@,
            decreases self.sessions.len() - i,
        {
            if self.sessions[i].upload_id == *upload_id {
                return Some(i);
            }
            i += 1;
        }
        None
    }

    /// Whether an upload with this id is in progress.
    pub fn contains(&self, upload_id: &String) -> (r: bool)
        ensures
            r == self@.contains_key(upload_id@),
    {
        self.find(upload_id).is_some()
    }

    /// Takes the session at `i` out of the table.
    fn take_session(&mut self, i: usize) -> (s: UploadSession)
        requires
            old(self).wf(),
            i < old(self).sessions.len(),
        ensures
            final(self).wf(),
            s == old(self).sessions[i as int],
            session_ok(s@),
            old(self)@.contains_key(s.upload_id@),
            old(self)@[s.upload_id@] == s@,
            final(self)@ == old(self)@.remove(s.upload_id@),
    {
        let ghost before = *self;
        let s = self.sessions.remove(i);
        proof {
            before.lemma_index_of(i as int);
            let id = s.upload_id@;
            assert forall|k: int| 0 <= k < self.sessions.len() implies #[trigger] self.sessions[k]
                == before.sessions[if k < i { k } else { k + 1 }] by {}
            assert forall|x: Seq<char>| #[trigger] self.has(x) == (before.has(x) && x != id) by {
                if self.has(x) {
                    let k = self.index_of(x);
                    let k0 = if k < i { k } else { k + 1 };
                    assert(before.sessions[k0].upload_id@ == x);
                    before.lemma_index_of(k0);
                }
                if before.has(x) && x != id {
                    let k0 = before.index_of(x);
                    let k = if k0 < i { k0 } else { k0 - 1 };
                    assert(self.sessions[k].upload_id@ == x);
                }
            }
            assert forall|x: Seq<char>| self.has(x) implies #[trigger] self@[x] == before@[x] by {
                let k = self.index_of(x);
                let k0 = if k < i { k } else { k + 1 };
                assert(self.sessions[k] == before.sessions[k0]);
                before.lemma_index_of(k0);
            }
            assert(self@ =~= before@.remove(id));
        }
        s
    }

    /// Puts a session into a table that has none with its id.
    fn put_session(&mut self, s: UploadSession)
        requires
            old(self).wf(),
            session_ok(s@),
            !old(self)@.contains_key(s.upload_id@),
        ensures
            final(self).wf(),
            final(self)@ == old(self)@.insert(s.upload_id@, s@),
    {
        let ghost before = *self;
        let ghost id = s.upload_id@;
        let ghost sv = s@;
        self.sessions.push(s);
        proof {
            let n = before.sessions.len() as int;
            assert forall|k: int| 0 <= k < n implies #[trigger] self.sessions[k]
                == before.sessions[k] by {}
            assert forall|k: int| 0 <= k < n implies (#[trigger] self.sessions[k]).upload_id@
                != id by {
                assert(before.sessions[k].upload_id@ == self.sessions[k].upload_id@);
                assert(before.has(before.sessions[k].upload_id@));
            }
            assert(self.wf());
            assert forall|x: Seq<char>| #[trigger] self.has(x) == (before.has(x) || x == id) by {
                if self.has(x) {
                    let k = self.index_of(x);
                    if k < n {
                        assert(before.sessions[k].upload_id@ == x);
                    }
                }
                if before.has(x) {
                    let k = before.index_of(x);
                    assert(self.sessions[k].upload_id@ == x);
                }
                if x == id {
                    assert(self.sessions[n].upload_id@ == x);
                }
            }
            assert forall|x: Seq<char>| self.has(x) implies #[trigger] self@[x]
                == before@.insert(id, sv)[x] by {
                let k = self.index_of(x);
                self.lemma_index_of(k);
                if k < n {
                    assert(before.sessions[k].upload_id@ == x);
                    before.lemma_index_of(k);
                }
            }
            assert(self@ =~= before@.insert(id, sv));
        }
    }

    /// Applies the engine's rule to one fragment whose payload has been
    /// decoded (`None` where decoding failed). `fresh` is the memory for the
    /// slots of a session that this fragment may create (`None` where it could
    /// not be had): whatever it holds is discarded, and it is not looked at
    /// where the session exists.
    pub fn accept_with(
        &mut self,
        metadata: &ChunkMetadata,
        decoded: Option<Vec<u8>>,
        fresh: Option<Vec<Option<Vec<u8>>>>,
    ) -> (out: FragmentOutcome)
        requires
            old(self).wf(),
        ensures
            final(self).wf(),
            (final(self)@, out@) == spec_accept(
                old(self)@,
                metadata@,
                bytes_view(decoded),
                fresh is Some,
            ),
    {
        let bytes = match decoded {
            Some(bytes) => bytes,
            None => {
                return FragmentOutcome::Rejected(CoreError::DecodeFailed);
            },
        };
        if metadata.total_chunks == 0 || metadata.total_chunks > MAX_CHUNKS
            || metadata.chunk_index >= metadata.total_chunks {
            return FragmentOutcome::Rejected(CoreError::InvalidChunkMetadata);
        }
        let ghost before = self@;
        let ghost id = metadata.upload_id@;
        let mut session = match self.find(&metadata.upload_id) {
            Some(i) => {
                if metadata.chunk_index >= self.sessions[i].slots.len() {
                    proof {
                        self.lemma_index_of(i as int);
                    }
                    return FragmentOutcome::Rejected(CoreError::InvalidChunkMetadata);
                }
                self.take_session(i)
            },
            None => {
                match fresh {
                    Some(room) => UploadSession {
                        upload_id: metadata.upload_id.clone(),
                        filename: metadata.filename.clone(),
                        mime_type: metadata.mime_type.clone(),
                        slots: fill_empty(room, metadata.total_chunks),
                    },
                    None => {
                        return FragmentOutcome::Rejected(CoreError::AllocationFailed);
                    },
                }
            },
        };
        let ghost s = if before.contains_key(id) {
            before[id]
        } else {
            fresh_session(metadata@)
        };
        assert(session@ == s);
        assert(self@ =~= before.remove(id));
        let ghost bytes_seq = bytes@;
        session.slots.set(metadata.chunk_index, Some(bytes));
        assert(slots_view(session.slots@) =~= s.slots.update(
            metadata.chunk_index as int,
            Some(bytes_seq),
        ));
        if is_complete(&session.slots) {
            let data = assemble(&session.slots);
            FragmentOutcome::Completed {
                chunk_index: metadata.chunk_index,
                payload: UploadFilePayload {
                    name: session.filename,
                    mime_type: session.mime_type,
                    data,
                },
            }
        } else {
            self.put_session(session);
            assert(self@ =~= before.insert(id, SessionView { slots: s.slots.update(
                metadata.chunk_index as int,
                Some(bytes_seq),
            ), ..s }));
            FragmentOutcome::Stored { chunk_index: metadata.chunk_index }
        }
    }

    /// Takes one fragment message: decodes its payload, checks its metadata,
    /// stores it, and hands the file out if that was the last fragment
    /// missing.
    ///
    /// The outcome is the engine's rule applied to what the payload decodes
    /// to; only whether the slots of a new session could be allocated is left
    /// to the machine.
    pub fn accept_fragment(&mut self, chunk: &Chunk) -> (out: FragmentOutcome)
        requires
            old(self).wf(),
        ensures
            final(self).wf(),
            exists|allocated: bool|
                (final(self)@, out@) == #[trigger] spec_accept(
                    old(self)@,
                    chunk.metadata@,
                    base64_decoded(chunk.data@),
                    allocated,
                ),
            out@ is Rejected ==> final(self)@ == old(self)@,
            base64_decoded(chunk.data@) is None ==> out@ == OutcomeView::Rejected(
                CoreError::DecodeFailed,
            ),
            !metadata_ok(chunk.metadata@) ==> out@ is Rejected,
            out@ is Completed ==> !final(self)@.contains_key(chunk.metadata.upload_id@),
    {
        let decoded = decode_base64(chunk.data.as_str());
        let total: usize = chunk.metadata.total_chunks;
        let creates = decoded.is_some() && 1 <= total && total <= MAX_CHUNKS
            && chunk.metadata.chunk_index < total && !self.contains(&chunk.metadata.upload_id);
        let fresh = if creates {
            reserve_slots(total)
        } else {
            None
        };
        let ghost allocated = fresh is Some;
        let ghost before = self@;
        let out = self.accept_with(&chunk.metadata, decoded, fresh);
        assert((self@, out@) == spec_accept(
            before,
            chunk.metadata@,
            base64_decoded(chunk.data@),
            allocated,
        ));
        out
    }
}

} // verus!
