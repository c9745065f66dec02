use vstd::prelude::*;
use vstd::string::StringExecFns;

use crate::cookie::same_text;
use crate::error::Error;

verus! {

/// The fingerprint of a token: its BLAKE3 digest as lower-case hex digits.
pub uninterp spec fn blake3_hex(token: Seq<char>) -> Seq<char>;

/// Relies on `blake3::hash` over the token's UTF-8 bytes and `Hash::to_hex`,
/// which writes the 32-byte digest as 64 hex digits.
#[verifier::external_body]
fn blake3_fingerprint(token: &str) -> (r: String)
    ensures
        r@ == blake3_hex(token@),
        r@.len() == 64,
{
    blake3::hash(token.as_bytes()).to_hex().to_string()
}

/// The one-way fingerprint under which a token is kept in the ledger.
pub fn fingerprint(token: &str) -> (r: String)
    ensures
        r@ == blake3_hex(token@),
{
    blake3_fingerprint(token)
}

/// The revocation record of one issued token.
#[derive(Debug, Clone)]
pub struct SessionRecord {
    pub id: i32,
    pub user_id: i32,
    pub hash: String,
    pub created_at: i64,
    pub invalidated_at: Option<i64>,
}

impl SessionRecord {
    pub open spec fn active(&self) -> bool {
        self.invalidated_at is None
    }
}

/// `r` is an active record of the fingerprint `fp`.
pub open spec fn active_for(r: SessionRecord, fp: Seq<char>) -> bool {
    r.active() && r.hash@ == fp
}

/// Whether `s` holds an active record of the fingerprint `fp`.
pub open spec fn active_in(s: Seq<SessionRecord>, fp: Seq<char>) -> bool {
    exists|i: int| 0 <= i < s.len() && #[trigger] active_for(s[i], fp)
}

/// `r` once the active record of `fp`, if it is one, is invalidated at `now`.
pub open spec fn revoked(r: SessionRecord, fp: Seq<char>, now: i64) -> SessionRecord {
    if active_for(r, fp) {
        SessionRecord { invalidated_at: Some(now), ..r }
    } else {
        r
    }
}

/// At most one active record per fingerprint.
pub open spec fn one_active_each(s: Seq<SessionRecord>) -> bool {
    forall|i: int, j: int| 0 <= i < j < s.len() && s[i].active() && s[j].active() ==> s[i].hash@ != s[j].hash@
}

/// The fingerprints of issued tokens and whether each was invalidated.
/// Records are never removed.
#[derive(Debug)]
pub struct RevocationLedger {
    sessions: Vec<SessionRecord>,
    next_id: i32,
}

impl View for RevocationLedger {
    type V = Seq<SessionRecord>;

    closed spec fn view(&self) -> Seq<SessionRecord> {
        self.sessions@
    }
}

impl RevocationLedger {
    pub closed spec fn next_id(&self) -> int {
        self.next_id as int
    }

    pub open spec fn wf(&self) -> bool {
        &&& 1 <= self.next_id()
        &&& forall|i: int| 0 <= i < self@.len() ==> 1 <= #[trigger] self@[i].id < self.next_id()
        &&& forall|i: int, j: int| 0 <= i < j < self@.len() ==> self@[i].id != self@[j].id
        &&& one_active_each(self@)
    }

    pub fn new() -> (r: Self)
        ensures
            r.wf(),
            r@.len() == 0,
            r.next_id() == 1,
    {
        RevocationLedger { sessions: Vec::new(), next_id: 1 }
    }

    /// The index of the active record of `fp`, if there is one.
    fn find_active(&self, fp: &str) -> (r: Option<usize>)
        requires
            self.wf(),
        ensures
            r.is_none() <==> !active_in(self@, fp@),
            r.is_some() ==> r.unwrap() < self@.len() && active_for(self@[r.unwrap() as int], fp@),
    {
        let mut i: usize = 0;
        while i < self.sessions.len()
            invariant
                i <= self@.len(),
                forall|j: int| 0 <= j < i ==> !#[trigger] active_for(self@[j], fp@),
            decreases self@.len() - i,
        {
            if self.sessions[i].invalidated_at.is_none() && same_text(self.sessions[i].hash.as_str(), fp) {
                assert(active_for(self@[i as int], fp@));
                return Some(i);
            }
            i += 1;
        }
        None
    }

    /// Records the fingerprint of a newly issued token for `user_id`. A token
    /// that already has an active record keeps it. Fails with `InternalError`
    /// when record ids are exhausted.
    pub fn record(&mut self, user_id: i32, token: &str, now: i64) -> (r: Result<i32, Error>)
        requires
            old(self).wf(),
        ensures
            final(self).wf(),
            r is Ok ==> active_in(final(self)@, blake3_hex(token@)),
            active_in(old(self)@, blake3_hex(token@)) ==> r is Ok && final(self)@ == old(self)@,
            active_in(old(self)@, blake3_hex(token@)) ==> final(self).next_id() == old(self).next_id(),
            !active_in(old(self)@, blake3_hex(token@)) && r is Ok ==> final(self)@.len() == old(self)@.len() + 1
                && final(self)@.drop_last() == old(self)@
                && final(self)@.last().id == r->Ok_0
                && final(self)@.last().user_id == user_id
                && final(self)@.last().hash@ == blake3_hex(token@)
                && final(self)@.last().created_at == now
                && final(self)@.last().invalidated_at is None
                && r->Ok_0 == old(self).next_id()
                && final(self).next_id() == old(self).next_id() + 1,
            !active_in(old(self)@, blake3_hex(token@)) && old(self).next_id() < i32::MAX ==> r is Ok,
            r is Err ==> final(self)@ == old(self)@ && r->Err_0 is InternalError
                && final(self).next_id() == old(self).next_id(),
    {
        let fp = fingerprint(token);
        match self.find_active(fp.as_str()) {
            Some(k) => {
                return Ok(self.sessions[k].id);
            },
            None => {},
        }
        if self.next_id == i32::MAX {
            return Err(Error::InternalError(String::from_str("Oturum kaydı oluşturulamadı.")));
        }
        let id = self.next_id;
        let ghost before = self@;
        self.sessions.push(SessionRecord { id, user_id, hash: fp, created_at: now, invalidated_at: None });
        self.next_id = id + 1;
        proof {
            assert(self@.drop_last() =~= before);
            assert(active_for(self@[before.len() as int], blake3_hex(token@)));
            assert forall|a: int, b: int| 0 <= a < b < self@.len() && self@[a].active() && self@[b].active()
                implies self@[a].hash@ != self@[b].hash@ by {
                if b == before.len() {
                    assert(!active_for(before[a], blake3_hex(token@)));
                }
            }
        }
        Ok(id)
    }

    /// Invalidates the active record of `token` at `now`. Fails with
    /// `InvalidToken`, changing nothing, when the token has no active record:
    /// it was never issued here, or it was already revoked.
    pub fn invalidate(&mut self, token: &str, now: i64) -> (r: Result<(), Error>)
        requires
            old(self).wf(),
        ensures
            final(self).wf(),
            r is Ok <==> active_in(old(self)@, blake3_hex(token@)),
            r is Ok ==> final(self)@ == old(self)@.map_values(|s: SessionRecord| revoked(s, blake3_hex(token@), now)),
            r is Err ==> final(self)@ == old(self)@ && r->Err_0 is InvalidToken,
    {
        let fp = fingerprint(token);
        match self.find_active(fp.as_str()) {
            Some(k) => {
                let ghost before = self@;
                let ghost f = fp@;
                let mut rec = self.sessions.remove(k);
                rec.invalidated_at = Some(now);
                self.sessions.insert(k, rec);
                proof {
                    assert forall|j: int| 0 <= j < before.len() && j != k implies revoked(before[j], f, now) == before[j] by {
                        if active_for(before[j], f) {
                            let (a, b) = if j < k { (j, k as int) } else { (k as int, j) };
                            assert(before[a].hash@ != before[b].hash@);
                        }
                    }
                    assert(self@ =~= before.map_values(|s: SessionRecord| revoked(s, f, now)));
                }
                Ok(())
            },
            None => Err(Error::InvalidToken),
        }
    }

    /// The user that the token was issued to, from its first record, revoked
    /// or not.
    pub fn owner_of(&self, token: &str) -> (r: Option<i32>)
        ensures
            match first_issued(self@, blake3_hex(token@)) {
                Some(i) => r == Some(self@[i].user_id),
                None => r.is_none(),
            },
    {
        let fp = fingerprint(token);
        let mut i: usize = 0;
        while i < self.sessions.len()
            invariant
                i <= self@.len(),
                fp@ == blake3_hex(token@),
                forall|j: int| 0 <= j < i ==> self@[j].hash@ != fp@,
            decreases self@.len() - i,
        {
            if same_text(self.sessions[i].hash.as_str(), fp.as_str()) {
                proof {
                    let c = choose|x: int| 0 <= x < self@.len() && self@[x].hash@ == fp@
                        && forall|j: int| 0 <= j < x ==> self@[j].hash@ != fp@;
                    assert(c == i);
                }
                return Some(self.sessions[i].user_id);
            }
            i += 1;
        }
        None
    }

    /// Whether `token` has an active record.
    pub fn is_active(&self, token: &str) -> (r: bool)
        requires
            self.wf(),
        ensures
            r == active_in(self@, blake3_hex(token@)),
    {
        let fp = fingerprint(token);
        self.find_active(fp.as_str()).is_some()
    }
}

/// The index of the first record of the fingerprint `fp`, active or not.
pub open spec fn first_issued(s: Seq<SessionRecord>, fp: Seq<char>) -> Option<int> {
    if exists|i: int| 0 <= i < s.len() && s[i].hash@ == fp {
        Some(choose|i: int| 0 <= i < s.len() && s[i].hash@ == fp
            && forall|j: int| 0 <= j < i ==> s[j].hash@ != fp)
    } else {
        None
    }
}

} // verus!
