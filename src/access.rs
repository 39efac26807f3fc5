use crate::filter::{
    deletion_filter, listing_filter, replacement_filter, retrieval_filter, FilterModel,
};
use crate::schema::{DeleteLogRequest, GetListRequest, GetLogRequest, Log, LogId, LogModel};
use crate::store::{
    collection_wf, delete_one_model, find_one_model, first_match, has_id, lemma_first_match,
    matching, models, reaches_any, replace_modifies, replace_one_model, with_id, DeleteResult, LogStore, StoreError,
    UpdateResult,
};
use vstd::multiset::Multiset;
use vstd::prelude::*;

verus! {

// The five operations below work on `LogStore`, the collection held in this
// process, and the laws after them are proved of that collection. The
// deployed service sends the same filters (from `crate::filter`) to the
// document database through its own database-backed functions of the same
// names; those calls are network I/O, outside what is verified here.

/// The filter model of an identifier and an owner together.
pub open spec fn by_id_and_owner(id: Seq<u8>, owner: Seq<char>) -> FilterModel {
    FilterModel::IdAndOwner(Some(id), owner)
}

/// Stores `log` and returns its identifier.
/// Works on the in-process `store`; the service's database-backed
/// `log_insertion` sends the same request to the document database.
pub fn log_insertion(log: &Log, store: &mut LogStore) -> (r: Result<Option<LogId>, StoreError>)
    requires
        old(store).wf(),
    ensures
        final(store).wf(),
        log._id matches Some(i) ==> (r is Ok <==> !has_id(old(store)@, i@)) && (r is Ok ==> r
            == Ok::<Option<LogId>, StoreError>(Some(i))),
        r matches Ok(Some(i)) ==> !has_id(old(store)@, i@) && final(store)@ == old(store)@.push(
            with_id(log@, Some(i@)),
        ),
        r is Ok ==> r->Ok_0 is Some,
        r is Err ==> final(store)@ == old(store)@,
{
    match store.insert_one(log) {
        Ok(id) => Ok(Some(id)),
        Err(e) => Err(e),
    }
}

/// The log with the requested identifier and owner, if one is stored.
/// Works on the in-process `store`; the service's database-backed
/// `log_retrieval` sends the same request to the document database.
pub fn log_retrieval(store: &LogStore, log_req: &GetLogRequest) -> (r: Option<Log>)
    ensures
        match r {
            Some(l) => find_one_model(store@, by_id_and_owner(log_req.log_id@, log_req.user_id@))
                == Some(l@),
            None => find_one_model(
                store@,
                by_id_and_owner(log_req.log_id@, log_req.user_id@),
            ) is None,
        },
{
    let filter = retrieval_filter(log_req);
    store.find_one(&filter)
}

/// Replaces the stored log that has the identifier and owner of `log`.
/// Works on the in-process `store`; the service's database-backed
/// `log_replacement` sends the same request to the document database.
pub fn log_replacement(log: &Log, store: &mut LogStore) -> (r: UpdateResult)
    requires
        old(store).wf(),
    ensures
        final(store).wf(),
        final(store)@ == replace_one_model(
            old(store)@,
            FilterModel::IdAndOwner(log@.id, log@.user_id),
            log@,
        ),
        r.matched_count == (if reaches_any(
            old(store)@,
            FilterModel::IdAndOwner(log@.id, log@.user_id),
        ) {
            1int
        } else {
            0int
        }),
        r.modified_count == (if replace_modifies(
            old(store)@,
            FilterModel::IdAndOwner(log@.id, log@.user_id),
            log@,
        ) {
            1int
        } else {
            0int
        }),
{
    let filter = replacement_filter(log);
    store.replace_one(&filter, log)
}

/// The logs of the requested owner, in stored order.
/// Works on the in-process `store`; the service's database-backed
/// `log_listing` sends the same request to the document database.
pub fn log_listing(store: &LogStore, list_req: &GetListRequest) -> (r: Vec<Log>)
    ensures
        models(r@) == matching(store@, FilterModel::Owner(list_req.user_id@)),
        forall|x: LogModel|
            models(r@).contains(x) <==> store@.contains(x) && x.user_id == list_req.user_id@,
{
    let filter = listing_filter(list_req);
    let r = store.find(&filter);
    proof {
        lemma_listing_exact(store@, list_req.user_id@);
    }
    r
}

/// Deletes the log with the requested identifier and owner, if one is stored.
/// Works on the in-process `store`; the service's database-backed
/// `log_deletion` sends the same request to the document database.
pub fn log_deletion(store: &mut LogStore, log_req: &DeleteLogRequest) -> (r: DeleteResult)
    requires
        old(store).wf(),
    ensures
        final(store).wf(),
        final(store)@ == delete_one_model(
            old(store)@,
            by_id_and_owner(log_req.log_id@, log_req.user_id@),
        ),
        r.deleted_count == (if reaches_any(
            old(store)@,
            by_id_and_owner(log_req.log_id@, log_req.user_id@),
        ) {
            1int
        } else {
            0int
        }),
{
    let filter = deletion_filter(log_req);
    store.delete_one(&filter)
}

/// A listing by owner holds exactly the stored logs of that owner, and no
/// other log.
pub proof fn lemma_listing_exact(s: Seq<LogModel>, owner: Seq<char>)
    ensures
        forall|x: LogModel|
            #[trigger] matching(s, FilterModel::Owner(owner)).contains(x) <==> s.contains(x)
                && x.user_id == owner,
    decreases s.len(),
{
    if s.len() > 0 {
        lemma_listing_exact(s.drop_last(), owner);
        assert forall|x: LogModel| s.contains(x) <==> s.drop_last().contains(x) || x == s.last() by {
            if s.contains(x) {
                let k = choose|k: int| 0 <= k < s.len() && s[k] == x;
                if k < s.len() - 1 {
                    assert(s.drop_last()[k] == x);
                }
            }
            if s.drop_last().contains(x) {
                let k = choose|k: int| 0 <= k < s.len() - 1 && s.drop_last()[k] == x;
                assert(s[k] == x);
            }
            if x == s.last() {
                assert(s[s.len() - 1] == x);
            }
        }
        let f = FilterModel::Owner(owner);
        let m = matching(s.drop_last(), f);
        assert forall|x: LogModel| #[trigger] m.push(s.last()).contains(x) <==> m.contains(x) || x
            == s.last() by {
            if m.push(s.last()).contains(x) {
                let k = choose|k: int| 0 <= k < m.len() + 1 && m.push(s.last())[k] == x;
                if k < m.len() {
                    assert(m[k] == x);
                }
            }
            if m.contains(x) {
                let k = choose|k: int| 0 <= k < m.len() && m[k] == x;
                assert(m.push(s.last())[k] == x);
            }
            if x == s.last() {
                assert(m.push(s.last())[m.len() as int] == x);
            }
        }
    } else {
        assert(matching(s, FilterModel::Owner(owner)) =~= Seq::<LogModel>::empty());
    }
}

proof fn lemma_matching_count(s: Seq<LogModel>, f: FilterModel, x: LogModel)
    ensures
        matching(s, f).to_multiset().count(x) == if f.admits(x) {
            s.to_multiset().count(x)
        } else {
            0
        },
    decreases s.len(),
{
    broadcast use vstd::multiset::group_multiset_axioms;

    if s.len() == 0 {
        s.to_multiset_ensures();
        assert(s.to_multiset() =~= Multiset::<LogModel>::empty());
        matching(s, f).to_multiset_ensures();
        assert(matching(s, f).to_multiset() =~= Multiset::<LogModel>::empty());
    } else {
        let p = s.drop_last();
        lemma_matching_count(p, f, x);
        p.to_multiset_ensures();
        assert(p.push(s.last()) =~= s);
        matching(p, f).to_multiset_ensures();
    }
}

/// A listing by owner does not depend on the order in which the logs were
/// stored: two collections that hold the same logs, in any order, list the
/// same logs, as many times each.
pub proof fn lemma_listing_order_independent(s1: Seq<LogModel>, s2: Seq<LogModel>, owner: Seq<char>)
    requires
        s1.to_multiset() == s2.to_multiset(),
    ensures
        matching(s1, FilterModel::Owner(owner)).to_multiset() == matching(
            s2,
            FilterModel::Owner(owner),
        ).to_multiset(),
{
    let f = FilterModel::Owner(owner);
    assert forall|x: LogModel|
        #[trigger] matching(s1, f).to_multiset().count(x) == matching(s2, f).to_multiset().count(
            x,
        ) by {
        lemma_matching_count(s1, f, x);
        lemma_matching_count(s2, f, x);
    }
    assert(matching(s1, f).to_multiset() =~= matching(s2, f).to_multiset());
}

/// A log that was just stored is read back, whole, by its identifier and
/// its owner.
pub proof fn lemma_insert_then_retrieve(s: Seq<LogModel>, l: LogModel, id: Seq<u8>)
    requires
        collection_wf(s),
        !has_id(s, id),
    ensures
        find_one_model(s.push(with_id(l, Some(id))), by_id_and_owner(id, l.user_id)) == Some(
            with_id(l, Some(id)),
        ),
{
    let t = s.push(with_id(l, Some(id)));
    let f = by_id_and_owner(id, l.user_id);
    lemma_first_match(t, f);
    assert(f.admits(t[s.len() as int]));
    if first_match(t, f) < s.len() {
        assert(t[first_match(t, f)] == s[first_match(t, f)]);
    }
}

/// The filter of an identifier and an owner reaches nothing where no stored
/// log has both: the read finds nothing, and a deletion or a replacement
/// leaves the collection as it was.
pub proof fn lemma_unreached(s: Seq<LogModel>, id: Seq<u8>, owner: Seq<char>)
    requires
        forall|k: int| 0 <= k < s.len() && s[k].id == Some(id) ==> s[k].user_id != owner,
    ensures
        !reaches_any(s, by_id_and_owner(id, owner)),
        find_one_model(s, by_id_and_owner(id, owner)) is None,
        delete_one_model(s, by_id_and_owner(id, owner)) == s,
        forall|l: LogModel| replace_one_model(s, #[trigger] by_id_and_owner(id, owner), l) == s,
{
    lemma_first_match(s, by_id_and_owner(id, owner));
}

/// Another owner cannot reach a stored log, even with its identifier: to
/// that owner it is as if the log did not exist.
pub proof fn lemma_owner_isolation(s: Seq<LogModel>, id: Seq<u8>, owner: Seq<char>, other: Seq<char>)
    requires
        collection_wf(s),
        exists|k: int| 0 <= k < s.len() && s[k].id == Some(id) && s[k].user_id == owner,
        other != owner,
    ensures
        !reaches_any(s, by_id_and_owner(id, other)),
        find_one_model(s, by_id_and_owner(id, other)) is None,
        delete_one_model(s, by_id_and_owner(id, other)) == s,
        forall|l: LogModel| replace_one_model(s, #[trigger] by_id_and_owner(id, other), l) == s,
{
    let k0 = choose|k: int| 0 <= k < s.len() && s[k].id == Some(id) && s[k].user_id == owner;
    assert forall|k: int| 0 <= k < s.len() && s[k].id == Some(id) implies s[k].user_id != other by {
        if k != k0 {
            assert(s[k].id != s[k0].id);
        }
    }
    lemma_unreached(s, id, other);
}

/// An identifier that no stored log has reaches nothing: its deletion counts
/// zero and changes nothing.
pub proof fn lemma_delete_missing(s: Seq<LogModel>, id: Seq<u8>, owner: Seq<char>)
    requires
        !has_id(s, id),
    ensures
        !reaches_any(s, by_id_and_owner(id, owner)),
        delete_one_model(s, by_id_and_owner(id, owner)) == s,
{
    lemma_unreached(s, id, owner);
}

/// After a deletion by identifier and owner, a second deletion with the same
/// identifier and owner reaches nothing and changes nothing.
pub proof fn lemma_delete_twice(s: Seq<LogModel>, id: Seq<u8>, owner: Seq<char>)
    requires
        collection_wf(s),
    ensures
        !reaches_any(delete_one_model(s, by_id_and_owner(id, owner)), by_id_and_owner(id, owner)),
        delete_one_model(delete_one_model(s, by_id_and_owner(id, owner)), by_id_and_owner(id, owner))
            == delete_one_model(s, by_id_and_owner(id, owner)),
{
    let f = by_id_and_owner(id, owner);
    lemma_first_match(s, f);
    let t = delete_one_model(s, f);
    if reaches_any(s, f) {
        let k = first_match(s, f);
        assert forall|j: int| 0 <= j < t.len() && t[j].id == Some(id) implies t[j].user_id
            != owner by {
            let src = if j < k { j } else { j + 1 };
            assert(t[j] == s[src]);
            assert(s[src].id != s[k].id);
        }
        lemma_unreached(t, id, owner);
    } else {
        assert forall|j: int| 0 <= j < t.len() && t[j].id == Some(id) implies t[j].user_id
            != owner by {
            if t[j].user_id == owner {
                assert(f.admits(s[j]));
            }
        }
        lemma_unreached(t, id, owner);
    }
}

/// A replacement never adds a log: the collection keeps its length, and
/// where the filter reaches nothing, it stays as it was.
pub proof fn lemma_replace_never_inserts(s: Seq<LogModel>, f: FilterModel, l: LogModel)
    ensures
        replace_one_model(s, f, l).len() == s.len(),
        !reaches_any(s, f) ==> replace_one_model(s, f, l) == s,
{
    lemma_first_match(s, f);
}

} // verus!
