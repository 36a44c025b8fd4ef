//! The revocation list: revoked tokens, each kept until its own expiry.

use vstd::prelude::*;

verus! {

/// One revoked token and the instant after which the record is dead.
#[derive(Clone, Debug)]
pub struct RevocationRecord {
    pub token: String,
    pub expires_at: u64,
}

/// Whether the records hold a live revocation of `token` at the instant `now`:
/// one for that exact token whose expiry is later than `now`.
pub open spec fn revoked_in(records: Seq<(Seq<char>, u64)>, token: Seq<char>, now: u64) -> bool {
    exists|i: int| 0 <= i < records.len() && #[trigger] records[i].0 == token && records[i].1 > now
}

/// Whether the records hold any record of `token`, live or dead.
pub open spec fn listed_in(records: Seq<(Seq<char>, u64)>, token: Seq<char>) -> bool {
    exists|i: int| 0 <= i < records.len() && #[trigger] records[i].0 == token
}

/// What recording `token` until `exp` makes of the records `before`: where
/// the token is not listed, one record more at the end; where it is, the same
/// records with that one's expiry raised to `exp` if `exp` is later.
pub open spec fn recorded(
    before: Seq<(Seq<char>, u64)>,
    after: Seq<(Seq<char>, u64)>,
    token: Seq<char>,
    exp: u64,
) -> bool {
    if listed_in(before, token) {
        exists|i: int|
            0 <= i < before.len() && #[trigger] before[i].0 == token && after == before.update(
                i,
                (token, if before[i].1 >= exp { before[i].1 } else { exp }),
            )
    } else {
        after == before.push((token, exp))
    }
}

/// Whether a record outlives the instant `now`.
pub open spec fn alive_at(now: u64) -> spec_fn((Seq<char>, u64)) -> bool {
    |r: (Seq<char>, u64)| r.1 > now
}

/// A revocation list held in memory, keyed by the exact token text, with at
/// most one record per token.
pub struct RevocationStore {
    records: Vec<RevocationRecord>,
}

impl View for RevocationStore {
    type V = Seq<(Seq<char>, u64)>;

    closed spec fn view(&self) -> Seq<(Seq<char>, u64)> {
        self.records@.map_values(|r: RevocationRecord| (r.token@, r.expires_at))
    }
}

impl RevocationStore {
    /// No two records name the same token.
    pub open spec fn wf(&self) -> bool {
        forall|i: int, j: int|
            0 <= i < j < self@.len() ==> #[trigger] self@[i].0 != #[trigger] self@[j].0
    }

    /// An empty list.
    pub fn new() -> (r: RevocationStore)
        ensures
            r.wf(),
            r@ == Seq::<(Seq<char>, u64)>::empty(),
    {
        RevocationStore { records: Vec::new() }
    }

    /// The number of records kept, live or dead.
    pub fn len(&self) -> (r: usize)
        ensures
            r == self@.len(),
    {
        self.records.len()
    }

    /// The position of the record of `token`, if there is one.
    fn position(&self, token: &String) -> (r: Option<usize>)
        ensures
            match r {
                Some(i) => i < self@.len() && self@[i as int].0 == token@,
                None => !listed_in(self@, token@),
            },
    {
        let mut i: usize = 0;
        while i < self.records.len()
            invariant
                i <= self.records@.len(),
                forall|k: int| 0 <= k < i ==> self@[k].0 != token@,
            decreases self.records@.len() - i,
        {
            if self.records[i].token == *token {
                return Some(i);
            }
            i = i + 1;
        }
        None
    }

    /// Records that `token` is revoked until `expires_at`. Recording a token
    /// that is already listed keeps one record, with the later expiry.
    pub fn record(&mut self, token: &str, expires_at: u64)
        requires
            old(self).wf(),
        ensures
            final(self).wf(),
            recorded(old(self)@, final(self)@, token@, expires_at),
            forall|t: Seq<char>, now: u64|
                revoked_in(final(self)@, t, now) == (revoked_in(old(self)@, t, now) || (t == token@
                    && expires_at > now)),
            listed_in(old(self)@, token@) ==> final(self)@.len() == old(self)@.len(),
            !listed_in(old(self)@, token@) ==> final(self)@.len() == old(self)@.len() + 1,
    {
        let t = token.to_owned();
        match self.position(&t) {
            Some(i) => {
                let kept = self.records[i].expires_at;
                let later = if kept >= expires_at { kept } else { expires_at };
                let rec = RevocationRecord { token: t, expires_at: later };
                self.records.set(i, rec);
                assert forall|k: int| 0 <= k < self@.len() implies #[trigger] self@[k].0 == old(self)@[k].0 by {}
                assert(self@ =~= old(self)@.update(i as int, (token@, later)));
                assert(old(self)@[i as int].0 == token@);
                assert forall|a: Seq<char>, now: u64|
                    revoked_in(self@, a, now) == (revoked_in(old(self)@, a, now) || (a == token@
                        && expires_at > now)) by {
                    if revoked_in(old(self)@, a, now) {
                        let k = choose|k: int| 0 <= k < old(self)@.len() && #[trigger] old(self)@[k].0 == a
                            && old(self)@[k].1 > now;
                        assert(self@[k].0 == a && self@[k].1 > now);
                    }
                    if a == token@ && expires_at > now {
                        assert(self@[i as int].0 == a && self@[i as int].1 > now);
                    }
                    if revoked_in(self@, a, now) {
                        let k = choose|k: int| 0 <= k < self@.len() && #[trigger] self@[k].0 == a
                            && self@[k].1 > now;
                        if k != i {
                            assert(old(self)@[k].0 == a && old(self)@[k].1 > now);
                        }
                    }
                }
            },
            None => {
                let rec = RevocationRecord { token: t, expires_at };
                self.records.push(rec);
                assert(self@ =~= old(self)@.push((token@, expires_at)));
                assert forall|k: int| 0 <= k < old(self)@.len() implies #[trigger] old(self)@[k].0 != token@ by {}
                let ghost n = old(self)@.len() as int;
                assert forall|a: Seq<char>, now: u64|
                    revoked_in(self@, a, now) == (revoked_in(old(self)@, a, now) || (a == token@
                        && expires_at > now)) by {
                    if revoked_in(old(self)@, a, now) {
                        let k = choose|k: int| 0 <= k < old(self)@.len() && #[trigger] old(self)@[k].0 == a
                            && old(self)@[k].1 > now;
                        assert(self@[k].0 == a && self@[k].1 > now);
                    }
                    if a == token@ && expires_at > now {
                        assert(self@[n].0 == a && self@[n].1 > now);
                    }
                    if revoked_in(self@, a, now) {
                        let k = choose|k: int| 0 <= k < self@.len() && #[trigger] self@[k].0 == a
                            && self@[k].1 > now;
                        if k != n {
                            assert(old(self)@[k].0 == a && old(self)@[k].1 > now);
                        }
                    }
                }
            },
        }
    }

    /// Whether `token` is revoked at the instant `now`: a record of it exists
    /// whose expiry is later than `now`.
    pub fn is_revoked(&self, token: &str, now: u64) -> (r: bool)
        requires
            self.wf(),
        ensures
            r == revoked_in(self@, token@, now),
    {
        let t = token.to_owned();
        match self.position(&t) {
            Some(i) => {
                let live = self.records[i].expires_at > now;
                if !live {
                    assert forall|k: int| 0 <= k < self@.len() && #[trigger] self@[k].0 == token@
                        implies !(self@[k].1 > now) by {
                        if k != i {
                            assert(self@[k].0 != self@[i as int].0);
                        }
                    }
                }
                live
            },
            None => false,
        }
    }

    /// Deletes the records that are dead at the instant `now` (expiry not
    /// later than `now`) and returns how many went. What `is_revoked` answers
    /// at `now` or later is unchanged.
    pub fn purge_expired(&mut self, now: u64) -> (r: usize)
        requires
            old(self).wf(),
        ensures
            final(self).wf(),
            final(self)@ == old(self)@.filter(alive_at(now)),
            r == old(self)@.len() - final(self)@.len(),
            forall|t: Seq<char>, later: u64|
                later >= now ==> revoked_in(final(self)@, t, later) == revoked_in(old(self)@, t, later),
    {
        let ghost before = self@;
        let mut kept: Vec<RevocationRecord> = Vec::new();
        let mut i: usize = 0;
        let n = self.records.len();
        while i < n
            invariant
                n == self.records@.len(),
                self@ == before,
                i <= n,
                kept@.map_values(|r: RevocationRecord| (r.token@, r.expires_at))
                    == before.subrange(0, i as int).filter(alive_at(now)),
            decreases n - i,
        {
            proof {
                assert(before.subrange(0, i as int + 1).drop_last() =~= before.subrange(0, i as int));
                reveal(Seq::filter);
            }
            if self.records[i].expires_at > now {
                let rec = RevocationRecord {
                    token: self.records[i].token.clone(),
                    expires_at: self.records[i].expires_at,
                };
                kept.push(rec);
                assert(kept@.map_values(|r: RevocationRecord| (r.token@, r.expires_at))
                    =~= before.subrange(0, i as int + 1).filter(alive_at(now)));
            } else {
                assert(kept@.map_values(|r: RevocationRecord| (r.token@, r.expires_at))
                    =~= before.subrange(0, i as int + 1).filter(alive_at(now)));
            }
            i = i + 1;
        }
        assert(before.subrange(0, n as int) =~= before);
        let gone = n - kept.len();
        self.records = kept;
        proof {
            broadcast use vstd::seq_lib::group_filter_ensures;

            lemma_filter_keeps_distinct(before, alive_at(now));
            assert forall|t: Seq<char>, later: u64|
                later >= now implies revoked_in(self@, t, later) == revoked_in(before, t, later) by {
                if revoked_in(before, t, later) {
                    let k = choose|k: int| 0 <= k < before.len() && #[trigger] before[k].0 == t
                        && before[k].1 > later;
                    assert(self@.contains(before[k]));
                    let j = choose|j: int| 0 <= j < self@.len() && self@[j] == before[k];
                    assert(self@[j].0 == t);
                }
                if revoked_in(self@, t, later) {
                    let k = choose|k: int| 0 <= k < self@.len() && #[trigger] self@[k].0 == t
                        && self@[k].1 > later;
                    assert(before.filter(alive_at(now)).contains(self@[k]));
                    before.lemma_filter_contains_rev(alive_at(now), self@[k]);
                    let j = choose|j: int| 0 <= j < before.len() && before[j] == self@[k];
                    assert(before[j].0 == t);
                }
            }
        }
        gone
    }
}

/// Filtering a sequence whose first components are distinct keeps them distinct.
proof fn lemma_filter_keeps_distinct(s: Seq<(Seq<char>, u64)>, p: spec_fn((Seq<char>, u64)) -> bool)
    requires
        forall|i: int, j: int| 0 <= i < j < s.len() ==> #[trigger] s[i].0 != #[trigger] s[j].0,
    ensures
        forall|i: int, j: int|
            0 <= i < j < s.filter(p).len() ==> #[trigger] s.filter(p)[i].0 != #[trigger] s.filter(p)[j].0,
    decreases s.len(),
{
    broadcast use vstd::seq_lib::group_filter_ensures;

    reveal(Seq::filter);
    if s.len() > 0 {
        let init = s.drop_last();
        lemma_filter_keeps_distinct(init, p);
        let f = s.filter(p);
        if p(s.last()) {
            assert forall|i: int, j: int| 0 <= i < j < f.len() implies #[trigger] f[i].0 != #[trigger] f[j].0 by {
                if j == f.len() - 1 {
                    assert(f[i] == init.filter(p)[i]);
                    assert(init.filter(p).contains(f[i]));
                    init.lemma_filter_contains_rev(p, f[i]);
                    let k = choose|k: int| 0 <= k < init.len() && init[k] == f[i];
                    assert(s[k] == init[k]);
                    assert(s[s.len() - 1] == s.last());
                } else {
                    assert(f[i] == init.filter(p)[i] && f[j] == init.filter(p)[j]);
                }
            }
        }
    }
}

} // verus!
