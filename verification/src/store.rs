//! An in-memory credential store with the get/upsert-by-key contract that
//! the rest of the core is written against. It is a key-value map from
//! service name to credential row; at most one row exists per service, and
//! an upsert fully replaces the mutable fields of a prior row. A durable
//! backend with the same contract can stand in for it at the process edge.

use vstd::prelude::*;

use crate::credentials::CredView;
use crate::credentials::UserCredentials;
use crate::credentials::str_eq;

verus! {

/// The service name stored at index `i`.
pub open spec fn service_at(rows: Seq<UserCredentials>, i: int) -> Seq<char> {
    rows[i]@.service
}

/// Whether some row is keyed by `k`.
pub open spec fn has_service(rows: Seq<UserCredentials>, k: Seq<char>) -> bool {
    exists|i: int| 0 <= i < rows.len() && service_at(rows, i) == k
}

/// Pairwise-distinct service names.
pub open spec fn distinct_services(rows: Seq<UserCredentials>) -> bool {
    forall|i: int, j: int|
        0 <= i < j < rows.len() ==> service_at(rows, i) != service_at(rows, j)
}

/// The map from service name to row value that a row sequence denotes.
pub open spec fn map_of(rows: Seq<UserCredentials>) -> Map<Seq<char>, CredView>
    decreases rows.len(),
{
    if rows.len() == 0 {
        Map::empty()
    } else {
        map_of(rows.drop_last()).insert(rows.last()@.service, rows.last()@)
    }
}

/// Dropping the last row keeps the service names pairwise distinct.
pub proof fn lemma_drop_last_distinct(rows: Seq<UserCredentials>)
    requires
        distinct_services(rows),
        rows.len() > 0,
    ensures
        distinct_services(rows.drop_last()),
{
    let d = rows.drop_last();
    assert forall|a: int, b: int| 0 <= a < b < d.len() implies service_at(d, a) != service_at(
        d,
        b,
    ) by {
        assert(d[a] == rows[a]);
        assert(d[b] == rows[b]);
        assert(service_at(rows, a) != service_at(rows, b));
    }
}

/// A key is in the map exactly when some row carries it.
pub proof fn lemma_map_of_contains(rows: Seq<UserCredentials>, k: Seq<char>)
    ensures
        map_of(rows).contains_key(k) <==> has_service(rows, k),
    decreases rows.len(),
{
    if rows.len() == 0 {
    } else {
        let n = rows.len() as int;
        lemma_map_of_contains(rows.drop_last(), k);
        if service_at(rows, n - 1) == k {
            assert(has_service(rows, k));
        } else {
            if has_service(rows, k) {
                let i = choose|i: int| 0 <= i < rows.len() && service_at(rows, i) == k;
                assert(service_at(rows.drop_last(), i) == k);
                assert(has_service(rows.drop_last(), k));
            }
            if has_service(rows.drop_last(), k) {
                let i = choose|i: int|
                    0 <= i < rows.drop_last().len() && service_at(rows.drop_last(), i) == k;
                assert(service_at(rows, i) == k);
                assert(has_service(rows, k));
            }
        }
    }
}

/// Under distinctness, the map sends each row's service to that row's value.
pub proof fn lemma_map_of_value(rows: Seq<UserCredentials>, i: int)
    requires
        distinct_services(rows),
        0 <= i < rows.len(),
    ensures
        map_of(rows).contains_key(service_at(rows, i)),
        map_of(rows)[service_at(rows, i)] == rows[i]@,
    decreases rows.len(),
{
    let n = rows.len() as int;
    if i == n - 1 {
    } else {
        lemma_drop_last_distinct(rows);
        lemma_map_of_value(rows.drop_last(), i);
        assert(service_at(rows.drop_last(), i) == service_at(rows, i));
        assert(service_at(rows, i) != service_at(rows, n - 1));
    }
}

/// Removing a row removes exactly its key from the map.
pub proof fn lemma_map_of_remove(rows: Seq<UserCredentials>, i: int)
    requires
        distinct_services(rows),
        0 <= i < rows.len(),
    ensures
        map_of(rows.remove(i)) == map_of(rows).remove(service_at(rows, i)),
    decreases rows.len(),
{
    let n = rows.len() as int;
    let k = service_at(rows, i);
    if i == n - 1 {
        assert(rows.remove(i) =~= rows.drop_last());
        lemma_map_of_contains(rows.drop_last(), k);
        assert(!has_service(rows.drop_last(), k)) by {
            if has_service(rows.drop_last(), k) {
                let j = choose|j: int|
                    0 <= j < rows.drop_last().len() && service_at(rows.drop_last(), j) == k;
                assert(service_at(rows, j) == k);
            }
        }
        assert(map_of(rows).remove(k) =~= map_of(rows.drop_last()));
    } else {
        lemma_drop_last_distinct(rows);
        lemma_map_of_remove(rows.drop_last(), i);
        assert(rows.remove(i).drop_last() =~= rows.drop_last().remove(i));
        assert(rows.remove(i).last() == rows.last());
        assert(service_at(rows, n - 1) != k);
        assert(map_of(rows.drop_last()).remove(k).insert(rows.last()@.service, rows.last()@)
            =~= map_of(rows.drop_last()).insert(rows.last()@.service, rows.last()@).remove(k));
    }
}

/// Removing a row keeps the remaining service names distinct, and removes
/// every row keyed by the removed row's service.
pub proof fn lemma_remove_distinct(rows: Seq<UserCredentials>, i: int)
    requires
        distinct_services(rows),
        0 <= i < rows.len(),
    ensures
        distinct_services(rows.remove(i)),
        !has_service(rows.remove(i), service_at(rows, i)),
{
    let r = rows.remove(i);
    let n = rows.len() as int;
    assert(r =~= rows.subrange(0, i) + rows.subrange(i + 1, n));
    assert forall|a: int, b: int| 0 <= a < b < r.len() implies service_at(r, a) != service_at(
        r,
        b,
    ) by {
        let a0 = if a < i { a } else { a + 1 };
        let b0 = if b < i { b } else { b + 1 };
        assert(r[a] == rows[a0]);
        assert(r[b] == rows[b0]);
        assert(service_at(rows, a0) != service_at(rows, b0));
    }
    if has_service(r, service_at(rows, i)) {
        let j = choose|j: int| 0 <= j < r.len() && service_at(r, j) == service_at(rows, i);
        let j0 = if j < i { j } else { j + 1 };
        assert(r[j] == rows[j0]);
        if j0 < i {
            assert(service_at(rows, j0) != service_at(rows, i));
        } else {
            assert(service_at(rows, i) != service_at(rows, j0));
        }
    }
}

/// The in-memory credential store: a map from service name to the one row
/// stored under it.
pub struct CredStore {
    rows: Vec<UserCredentials>,
}

impl View for CredStore {
    type V = Map<Seq<char>, CredView>;

    closed spec fn view(&self) -> Map<Seq<char>, CredView> {
        map_of(self.rows@)
    }
}

impl CredStore {
    /// The store's internal shape: one row per service name.
    pub closed spec fn wf(&self) -> bool {
        distinct_services(self.rows@)
    }

    /// An empty store.
    pub fn new() -> (r: CredStore)
        ensures
            r.wf(),
            r@ == Map::<Seq<char>, CredView>::empty(),
    {
        CredStore { rows: Vec::new() }
    }

    /// Point lookup: the row stored under `service`, if one exists.
    pub fn get(&self, service: &str) -> (r: Option<UserCredentials>)
        requires
            self.wf(),
        ensures
            match r {
                Some(row) => self@.contains_key(service@) && row@ == self@[service@]
                    && row@.service == service@,
                None => !self@.contains_key(service@),
            },
    {
        let n = self.rows.len();
        for i in 0..n
            invariant
                n == self.rows@.len(),
                self.wf(),
                forall|j: int| 0 <= j < i ==> service_at(self.rows@, j) != service@,
        {
            if str_eq(self.rows[i].service.as_str(), service) {
                proof {
                    lemma_map_of_value(self.rows@, i as int);
                }
                return Some(self.rows[i].duplicate());
            }
        }
        proof {
            lemma_map_of_contains(self.rows@, service@);
            if has_service(self.rows@, service@) {
                let j = choose|j: int|
                    0 <= j < self.rows@.len() && service_at(self.rows@, j) == service@;
                assert(service_at(self.rows@, j) != service@);
            }
        }
        None
    }

    /// Whether a row exists under `service`.
    pub fn contains(&self, service: &str) -> (r: bool)
        requires
            self.wf(),
        ensures
            r == self@.contains_key(service@),
    {
        self.get(service).is_some()
    }

    /// Stores `creds` under its service name, fully replacing any prior row
    /// with that name.
    pub fn upsert(&mut self, creds: UserCredentials)
        requires
            old(self).wf(),
        ensures
            final(self).wf(),
            final(self)@ == old(self)@.insert(creds@.service, creds@),
    {
        let ghost k = creds@.service;
        let n = self.rows.len();
        let mut found: Option<usize> = None;
        for i in 0..n
            invariant
                n == self.rows@.len(),
                self.wf(),
                self.rows@ == old(self).rows@,
                k == creds@.service,
                match found {
                    Some(fi) => fi < n && service_at(self.rows@, fi as int) == k,
                    None => forall|j: int| 0 <= j < i ==> service_at(self.rows@, j) != k,
                },
        {
            let mut hit = false;
            if found.is_none() {
                hit = str_eq(self.rows[i].service.as_str(), creds.service.as_str());
            }
            if hit {
                found = Some(i);
                proof {
                    assert(service_at(self.rows@, i as int) == k);
                }
            } else {
                proof {
                    if found is None {
                        assert(service_at(self.rows@, i as int) != k);
                    }
                }
            }
        }
        if let Some(i) = found {
            proof {
                lemma_map_of_remove(self.rows@, i as int);
                lemma_remove_distinct(self.rows@, i as int);
            }
            self.rows.remove(i);
        } else {
            proof {
                lemma_map_of_contains(self.rows@, k);
            }
        }
        let ghost trimmed = self.rows@;
        proof {
            assert(!has_service(trimmed, k));
            assert(map_of(trimmed) == map_of(old(self).rows@).remove(k)
                || map_of(trimmed) == map_of(old(self).rows@)) by {
                if found is None {
                    assert(!has_service(old(self).rows@, k));
                }
            }
        }
        self.rows.push(creds);
        proof {
            assert(self.rows@.drop_last() =~= trimmed);
            assert(self.rows@.last() == creds);
            assert(map_of(self.rows@) == map_of(trimmed).insert(k, creds@));
            assert(map_of(trimmed).insert(k, creds@) =~= map_of(old(self).rows@).insert(
                k,
                creds@,
            ));
            assert forall|a: int, b: int|
                0 <= a < b < self.rows@.len() implies service_at(self.rows@, a) != service_at(
                self.rows@,
                b,
            ) by {
                if b == self.rows@.len() - 1 {
                    assert(self.rows@[a] == trimmed[a]);
                    assert(service_at(self.rows@, b) == k);
                    if service_at(self.rows@, a) == k {
                        assert(service_at(trimmed, a) == k);
                        assert(has_service(trimmed, k));
                    }
                } else {
                    assert(self.rows@[a] == trimmed[a]);
                    assert(self.rows@[b] == trimmed[b]);
                    assert(service_at(trimmed, a) != service_at(trimmed, b));
                }
            }
        }
    }
}

} // verus!
