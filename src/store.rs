use vstd::prelude::*;
use vstd::string::StringExecFns;

use crate::cookie::same_text;
use crate::error::Error;

verus! {

/// A user identity record. `deleted_at` marks a soft-deleted user.
#[derive(Debug, Clone)]
pub struct UserRecord {
    pub id: i32,
    pub nickname: String,
    pub email: String,
    pub password_hash: String,
    pub is_admin: bool,
    pub is_moderator: bool,
    pub is_faded: bool,
    pub deleted_at: Option<i64>,
}

impl UserRecord {
    pub open spec fn live(&self) -> bool {
        self.deleted_at is None
    }
}

/// Two records clash when both are live and share a nickname or an e-mail.
pub open spec fn clash(a: UserRecord, b: UserRecord) -> bool {
    a.live() && b.live() && (a.nickname@ == b.nickname@ || a.email@ == b.email@)
}

/// The index of the first live user of `s` with the given nickname.
pub open spec fn live_named(s: Seq<UserRecord>, nickname: Seq<char>) -> Option<int> {
    if exists|i: int| 0 <= i < s.len() && s[i].live() && s[i].nickname@ == nickname {
        Some(choose|i: int| 0 <= i < s.len() && s[i].live() && s[i].nickname@ == nickname)
    } else {
        None
    }
}

/// The index of the first user of `s` with the given id.
pub open spec fn first_with_id(s: Seq<UserRecord>, id: i32) -> Option<int> {
    if exists|i: int| 0 <= i < s.len() && s[i].id == id {
        Some(choose|i: int| 0 <= i < s.len() && s[i].id == id
            && forall|j: int| 0 <= j < i ==> s[j].id != id)
    } else {
        None
    }
}

/// Whether `u` is live and uses the nickname or the e-mail.
pub open spec fn uses(u: UserRecord, nickname: Seq<char>, email: Seq<char>) -> bool {
    u.live() && (u.nickname@ == nickname || u.email@ == email)
}

/// Whether a live user of `s` already uses the nickname or the e-mail.
pub open spec fn taken(s: Seq<UserRecord>, nickname: Seq<char>, email: Seq<char>) -> bool {
    exists|i: int| 0 <= i < s.len() && #[trigger] uses(s[i], nickname, email)
}

/// `u` once the user with the given id is soft-deleted at `now`.
pub open spec fn deleted_at_time(u: UserRecord, id: i32, now: i64) -> UserRecord {
    if u.id == id && u.live() {
        UserRecord { deleted_at: Some(now), ..u }
    } else {
        u
    }
}

/// The user records, with nicknames and e-mails unique among live users and
/// ids unique and below `next_id`.
#[derive(Debug)]
pub struct CredentialStore {
    users: Vec<UserRecord>,
    next_id: i32,
}

impl View for CredentialStore {
    type V = Seq<UserRecord>;

    closed spec fn view(&self) -> Seq<UserRecord> {
        self.users@
    }
}

impl CredentialStore {
    pub closed spec fn next_id(&self) -> int {
        self.next_id as int
    }

    pub open spec fn wf(&self) -> bool {
        &&& 1 <= self.next_id()
        &&& forall|i: int| 0 <= i < self@.len() ==> 1 <= #[trigger] self@[i].id < self.next_id()
        &&& forall|i: int, j: int| 0 <= i < j < self@.len() ==> self@[i].id != self@[j].id
        &&& forall|i: int, j: int| 0 <= i < j < self@.len() ==> !clash(self@[i], self@[j])
    }

    pub fn new() -> (r: Self)
        ensures
            r.wf(),
            r@.len() == 0,
            r.next_id() == 1,
    {
        CredentialStore { users: Vec::new(), next_id: 1 }
    }

    /// Whether a live user already uses the nickname or the e-mail.
    pub fn is_taken(&self, nickname: &str, email: &str) -> (r: bool)
        ensures
            r == taken(self@, nickname@, email@),
    {
        let mut i: usize = 0;
        while i < self.users.len()
            invariant
                i <= self@.len(),
                forall|j: int| 0 <= j < i ==> !#[trigger] uses(self@[j], nickname@, email@),
            decreases self@.len() - i,
        {
            let u = &self.users[i];
            if u.deleted_at.is_none() && (same_text(u.nickname.as_str(), nickname) || same_text(u.email.as_str(), email)) {
                assert(uses(self@[i as int], nickname@, email@));
                return true;
            }
            i += 1;
        }
        false
    }

    /// The live user with the given nickname.
    pub fn find_user_by_nickname(&self, nickname: &str) -> (r: Option<&UserRecord>)
        requires
            self.wf(),
        ensures
            match live_named(self@, nickname@) {
                Some(i) => r.is_some() && *r.unwrap() == self@[i],
                None => r.is_none(),
            },
    {
        let mut i: usize = 0;
        while i < self.users.len()
            invariant
                self.wf(),
                i <= self@.len(),
                forall|j: int| 0 <= j < i ==> !(self@[j].live() && self@[j].nickname@ == nickname@),
            decreases self@.len() - i,
        {
            let u = &self.users[i];
            if u.deleted_at.is_none() && same_text(u.nickname.as_str(), nickname) {
                proof {
                    let k = choose|k: int| 0 <= k < self@.len() && self@[k].live() && self@[k].nickname@ == nickname@;
                    if k != i {
                        let (a, b) = if k < i { (k, i as int) } else { (i as int, k) };
                        assert(clash(self@[a], self@[b]));
                    }
                }
                return Some(u);
            }
            i += 1;
        }
        None
    }

    /// The first user with the given id, live or not.
    pub fn find_user_by_id(&self, id: i32) -> (r: Option<&UserRecord>)
        ensures
            match first_with_id(self@, id) {
                Some(i) => r.is_some() && *r.unwrap() == self@[i],
                None => r.is_none(),
            },
    {
        let mut i: usize = 0;
        while i < self.users.len()
            invariant
                i <= self@.len(),
                forall|j: int| 0 <= j < i ==> self@[j].id != id,
            decreases self@.len() - i,
        {
            if self.users[i].id == id {
                proof {
                    let c = choose|x: int| 0 <= x < self@.len() && self@[x].id == id
                        && forall|j: int| 0 <= j < x ==> self@[j].id != id;
                    assert(c == i);
                }
                return Some(&self.users[i]);
            }
            i += 1;
        }
        None
    }

    /// Adds a live user with no elevated role, marked faded as every new user
    /// is. Fails with `InvalidRequest` when a live user already has the
    /// nickname or the e-mail, and with `InternalError` when ids are exhausted.
    pub fn insert_user(&mut self, nickname: String, email: String, password_hash: String) -> (r: Result<i32, Error>)
        requires
            old(self).wf(),
        ensures
            final(self).wf(),
            taken(old(self)@, nickname@, email@) ==> r is Err && r->Err_0 is InvalidRequest
                && r->Err_0->InvalidRequest_0@ == duplicate_message(),
            r is Err ==> final(self)@ == old(self)@ && final(self).next_id() == old(self).next_id(),
            r is Ok ==> r->Ok_0 == old(self).next_id() && final(self).next_id() == old(self).next_id() + 1,
            r is Err && !taken(old(self)@, nickname@, email@) ==> r->Err_0 is InternalError,
            !taken(old(self)@, nickname@, email@) && old(self).next_id() < i32::MAX ==> r is Ok,
            r is Ok ==> final(self)@ == old(self)@.push(UserRecord {
                id: r->Ok_0,
                nickname: nickname,
                email: email,
                password_hash: password_hash,
                is_admin: false,
                is_moderator: false,
                is_faded: true,
                deleted_at: None,
            }),
    {
        let mut i: usize = 0;
        while i < self.users.len()
            invariant
                self.wf(),
                self == old(self),
                i <= self@.len(),
                forall|j: int| 0 <= j < i ==> !#[trigger] uses(self@[j], nickname@, email@),
            decreases self@.len() - i,
        {
            let u = &self.users[i];
            if u.deleted_at.is_none() && (same_text(u.nickname.as_str(), nickname.as_str()) || same_text(u.email.as_str(), email.as_str())) {
                assert(uses(self@[i as int], nickname@, email@));
                return Err(Error::InvalidRequest(String::from_str(
                    "Bu e-posta adresi veya kullanıcı adı zaten kullanımda.",
                )));
            }
            i += 1;
        }
        if self.next_id == i32::MAX {
            return Err(Error::InternalError(String::from_str("Kullanıcı numarası kalmadı.")));
        }
        let id = self.next_id;
        let ghost before = self@;
        self.users.push(UserRecord {
            id,
            nickname,
            email,
            password_hash,
            is_admin: false,
            is_moderator: false,
            is_faded: true,
            deleted_at: None,
        });
        self.next_id = id + 1;
        proof {
            assert forall|a: int, b: int| 0 <= a < b < self@.len() implies !clash(self@[a], self@[b]) by {
                if b == before.len() {
                    assert(!uses(before[a], nickname@, email@));
                }
            }
        }
        Ok(id)
    }

    /// Marks the user with the given id as deleted at `now`; a deleted user can
    /// no longer log in. False when no live user has that id.
    pub fn soft_delete(&mut self, id: i32, now: i64) -> (r: bool)
        requires
            old(self).wf(),
        ensures
            final(self).wf(),
            r <==> exists|i: int| 0 <= i < old(self)@.len() && old(self)@[i].id == id && old(self)@[i].live(),
            final(self)@ == old(self)@.map_values(|u: UserRecord| deleted_at_time(u, id, now)),
    {
        let mut i: usize = 0;
        while i < self.users.len()
            invariant
                self.wf(),
                self == old(self),
                i <= self@.len(),
                forall|j: int| 0 <= j < i ==> !(self@[j].id == id && self@[j].live()),
            decreases self@.len() - i,
        {
            if self.users[i].id == id && self.users[i].deleted_at.is_none() {
                let ghost before = self@;
                let mut u = self.users.remove(i);
                u.deleted_at = Some(now);
                self.users.insert(i, u);
                proof {
                    assert(self@ =~= before.update(i as int, UserRecord { deleted_at: Some(now), ..before[i as int] }));
                    assert forall|a: int, b: int| 0 <= a < b < self@.len() implies !clash(self@[a], self@[b]) by {
                        if a != i && b != i {
                            assert(!clash(before[a], before[b]));
                        }
                    }
                    assert forall|k: int| 0 <= k < before.len() && k != i implies deleted_at_time(before[k], id, now) == before[k] by {
                        let (a, b) = if k < i { (k, i as int) } else { (i as int, k) };
                        assert(before[a].id != before[b].id);
                    }
                    assert(self@ =~= before.map_values(|u: UserRecord| deleted_at_time(u, id, now)));
                }
                return true;
            }
            i += 1;
        }
        assert(self@ =~= self@.map_values(|u: UserRecord| deleted_at_time(u, id, now)));
        false
    }
}

pub open spec fn duplicate_message() -> Seq<char> {
    "Bu e-posta adresi veya kullanıcı adı zaten kullanımda."@
}

} // verus!
