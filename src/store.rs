use crate::filter::{FilterModel, LogFilter};
use crate::schema::{fresh_object_id, Log, LogId, LogModel};
use vstd::prelude::*;

verus! {

/// Whether some log of `s` has the identifier `id`.
pub open spec fn has_id(s: Seq<LogModel>, id: Seq<u8>) -> bool {
    exists|k: int| 0 <= k < s.len() && s[k].id == Some(id)
}

/// A well-formed collection: every log has an identifier, and no two logs
/// share one.
pub open spec fn collection_wf(s: Seq<LogModel>) -> bool {
    &&& forall|k: int| 0 <= k < s.len() ==> (#[trigger] s[k]).id is Some
    &&& forall|j: int, k: int|
        0 <= j < s.len() && 0 <= k < s.len() && j != k ==> (#[trigger] s[j]).id != (#[trigger] s[k]).id
}

/// The position of the first log at or after `i` that `f` reaches, or the
/// length of `s` where there is none.
pub open spec fn first_match_from(s: Seq<LogModel>, f: FilterModel, i: int) -> int
    decreases s.len() - i,
{
    if i < 0 || i >= s.len() {
        s.len() as int
    } else if f.admits(s[i]) {
        i
    } else {
        first_match_from(s, f, i + 1)
    }
}

/// The position of the first log of `s` that `f` reaches, or the length of
/// `s` where there is none.
pub open spec fn first_match(s: Seq<LogModel>, f: FilterModel) -> int {
    first_match_from(s, f, 0)
}

/// Whether `f` reaches some log of `s`.
pub open spec fn reaches_any(s: Seq<LogModel>, f: FilterModel) -> bool {
    first_match(s, f) < s.len()
}

/// The log that a single-document read returns: the first one reached.
pub open spec fn find_one_model(s: Seq<LogModel>, f: FilterModel) -> Option<LogModel> {
    if reaches_any(s, f) {
        Some(s[first_match(s, f)])
    } else {
        None
    }
}

/// The collection after a single-document deletion.
pub open spec fn delete_one_model(s: Seq<LogModel>, f: FilterModel) -> Seq<LogModel> {
    if reaches_any(s, f) {
        s.remove(first_match(s, f))
    } else {
        s
    }
}

/// `l` with the identifier `id`.
pub open spec fn with_id(l: LogModel, id: Option<Seq<u8>>) -> LogModel {
    LogModel { id, ..l }
}

/// The collection after a replacement: the first log reached becomes `l`
/// under its own identifier; where none is reached, nothing changes and
/// nothing is added.
pub open spec fn replace_one_model(s: Seq<LogModel>, f: FilterModel, l: LogModel) -> Seq<LogModel> {
    if reaches_any(s, f) {
        s.update(first_match(s, f), with_id(l, s[first_match(s, f)].id))
    } else {
        s
    }
}

/// Whether a replacement changes the log it reaches: it reaches one, and that
/// log differs from `l` under its own identifier.
pub open spec fn replace_modifies(s: Seq<LogModel>, f: FilterModel, l: LogModel) -> bool {
    reaches_any(s, f) && s[first_match(s, f)] != with_id(l, s[first_match(s, f)].id)
}

/// The logs of `s` that `f` reaches, in the order of `s`.
pub open spec fn matching(s: Seq<LogModel>, f: FilterModel) -> Seq<LogModel>
    decreases s.len(),
{
    if s.len() == 0 {
        Seq::empty()
    } else if f.admits(s.last()) {
        matching(s.drop_last(), f).push(s.last())
    } else {
        matching(s.drop_last(), f)
    }
}

/// The models of a sequence of logs.
pub open spec fn models(v: Seq<Log>) -> Seq<LogModel> {
    v.map_values(|l: Log| l@)
}

proof fn lemma_first_match_from(s: Seq<LogModel>, f: FilterModel, i: int)
    requires
        0 <= i <= s.len(),
    ensures
        i <= first_match_from(s, f, i) <= s.len(),
        first_match_from(s, f, i) < s.len() ==> f.admits(s[first_match_from(s, f, i)]),
        forall|j: int| i <= j < first_match_from(s, f, i) ==> !f.admits(#[trigger] s[j]),
    decreases s.len() - i,
{
    if i < s.len() && !f.admits(s[i]) {
        lemma_first_match_from(s, f, i + 1);
    }
}

/// The first match is a log that the filter reaches, and no log before it
/// is reached.
pub proof fn lemma_first_match(s: Seq<LogModel>, f: FilterModel)
    ensures
        0 <= first_match(s, f) <= s.len(),
        reaches_any(s, f) ==> f.admits(s[first_match(s, f)]),
        forall|j: int| 0 <= j < first_match(s, f) ==> !f.admits(#[trigger] s[j]),
{
    lemma_first_match_from(s, f, 0);
}

/// Errors of the collection.
#[derive(Debug, PartialEq, Eq, Structural)]
pub enum StoreError {
    /// A log with the same identifier is stored already.
    DuplicateKey,
}

/// The counts of a replacement.
#[derive(Debug, PartialEq, Eq, Structural)]
pub struct UpdateResult {
    pub matched_count: u64,
    pub modified_count: u64,
}

/// The count of a deletion.
#[derive(Debug, PartialEq, Eq, Structural)]
pub struct DeleteResult {
    pub deleted_count: u64,
}

/// A collection of logs held in this process, with the semantics of the
/// document collection: the store assigns an identifier to a log that comes
/// without one, identifiers are unique, and reads, replacements and
/// deletions reach the first log that a filter admits.
pub struct LogStore {
    logs: Vec<Log>,
}

impl View for LogStore {
    type V = Seq<LogModel>;

    closed spec fn view(&self) -> Seq<LogModel> {
        models(self.logs@)
    }
}

impl LogStore {
    pub open spec fn wf(&self) -> bool {
        collection_wf(self@)
    }

    /// An empty collection.
    pub fn new() -> (r: LogStore)
        ensures
            r@ == Seq::<LogModel>::empty(),
            r.wf(),
    {
        let r = LogStore { logs: Vec::new() };
        assert(r@ =~= Seq::<LogModel>::empty());
        r
    }

    /// The number of stored logs.
    pub fn len(&self) -> (r: usize)
        ensures
            r == self@.len(),
    {
        self.logs.len()
    }

    /// The position of the first stored log that `f` admits, or the number
    /// of logs where there is none.
    fn position(&self, f: &LogFilter) -> (r: usize)
        ensures
            r == first_match(self@, f@),
    {
        let mut i: usize = 0;
        while i < self.logs.len()
            invariant
                i <= self.logs@.len(),
                self@.len() == self.logs@.len(),
                first_match(self@, f@) == first_match_from(self@, f@, i as int),
            decreases self.logs@.len() - i,
        {
            if f.admits_log(&self.logs[i]) {
                return i;
            }
            i = i + 1;
        }
        i
    }

    /// Whether a stored log has the identifier `id`.
    fn contains_id(&self, id: &LogId) -> (r: bool)
        ensures
            r == has_id(self@, id@),
    {
        let mut i: usize = 0;
        while i < self.logs.len()
            invariant
                i <= self.logs@.len(),
                self@.len() == self.logs@.len(),
                forall|k: int| 0 <= k < i ==> self@[k].id != Some(id@),
            decreases self.logs@.len() - i,
        {
            match &self.logs[i]._id {
                Some(x) => {
                    if x.same_as(id) {
                        assert(self@[i as int].id == Some(id@));
                        return true;
                    }
                },
                None => {},
            }
            i = i + 1;
        }
        false
    }

    /// Stores a copy of `log`. A log without an identifier gets a fresh one.
    /// Returns the identifier of the stored log, or `DuplicateKey` where a
    /// stored log has it already; the collection then stays as it was.
    pub fn insert_one(&mut self, log: &Log) -> (r: Result<LogId, StoreError>)
        requires
            old(self).wf(),
        ensures
            final(self).wf(),
            log._id matches Some(i) ==> (r is Ok <==> !has_id(old(self)@, i@)) && (r is Ok
                ==> r->Ok_0 == i),
            r matches Ok(i) ==> !has_id(old(self)@, i@) && final(self)@ == old(self)@.push(
                with_id(log@, Some(i@)),
            ),
            r is Err ==> final(self)@ == old(self)@,
    {
        let id = match log._id {
            Some(i) => i,
            None => fresh_object_id(),
        };
        if self.contains_id(&id) {
            return Err(StoreError::DuplicateKey);
        }
        let mut stored = log.duplicate();
        stored._id = Some(id);
        let ghost before = self@;
        self.logs.push(stored);
        assert(self@ =~= before.push(with_id(log@, Some(id@))));
        Ok(id)
    }

    /// A copy of the first stored log that `f` admits.
    pub fn find_one(&self, f: &LogFilter) -> (r: Option<Log>)
        ensures
            match r {
                Some(l) => find_one_model(self@, f@) == Some(l@),
                None => find_one_model(self@, f@) is None,
            },
    {
        let k = self.position(f);
        if k < self.logs.len() {
            Some(self.logs[k].duplicate())
        } else {
            None
        }
    }

    /// Copies of the stored logs that `f` admits, in stored order.
    pub fn find(&self, f: &LogFilter) -> (r: Vec<Log>)
        ensures
            models(r@) == matching(self@, f@),
    {
        let mut out: Vec<Log> = Vec::new();
        let mut i: usize = 0;
        while i < self.logs.len()
            invariant
                i <= self.logs@.len(),
                self@.len() == self.logs@.len(),
                models(out@) == matching(self@.take(i as int), f@),
            decreases self.logs@.len() - i,
        {
            assert(self@.take(i + 1).drop_last() =~= self@.take(i as int));
            if f.admits_log(&self.logs[i]) {
                let ghost before = out@;
                out.push(self.logs[i].duplicate());
                assert(models(out@) =~= models(before).push(self@[i as int]));
            }
            i = i + 1;
        }
        assert(self@.take(i as int) =~= self@);
        out
    }

    /// Replaces the first stored log that `f` admits with a copy of `log`,
    /// which keeps the identifier of the log it replaces. Never adds a log.
    /// The modified count is 0 where the stored log already equals the new one.
    pub fn replace_one(&mut self, f: &LogFilter, log: &Log) -> (r: UpdateResult)
        requires
            old(self).wf(),
        ensures
            final(self).wf(),
            final(self)@ == replace_one_model(old(self)@, f@, log@),
            r.matched_count == (if reaches_any(old(self)@, f@) { 1int } else { 0int }),
            r.modified_count == (if replace_modifies(old(self)@, f@, log@) { 1int } else { 0int }),
    {
        proof {
            lemma_first_match(self@, f@);
        }
        let k = self.position(f);
        if k == self.logs.len() {
            return UpdateResult { matched_count: 0, modified_count: 0 };
        }
        let mut stored = log.duplicate();
        stored._id = self.logs[k]._id;
        let unchanged = self.logs[k].same_as(&stored);
        let ghost before = self@;
        self.logs[k] = stored;
        assert(self@ =~= before.update(k as int, with_id(log@, before[k as int].id)));
        UpdateResult { matched_count: 1, modified_count: if unchanged { 0 } else { 1 } }
    }

    /// Deletes the first stored log that `f` admits.
    pub fn delete_one(&mut self, f: &LogFilter) -> (r: DeleteResult)
        requires
            old(self).wf(),
        ensures
            final(self).wf(),
            final(self)@ == delete_one_model(old(self)@, f@),
            r.deleted_count == (if reaches_any(old(self)@, f@) { 1int } else { 0int }),
    {
        proof {
            lemma_first_match(self@, f@);
        }
        let k = self.position(f);
        if k == self.logs.len() {
            return DeleteResult { deleted_count: 0 };
        }
        let ghost before = self@;
        self.logs.remove(k);
        assert(self@ =~= before.remove(k as int));
        DeleteResult { deleted_count: 1 }
    }
}

} // verus!
