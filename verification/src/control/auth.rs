//! Access control for bot users: an optional whitelist and a set of
//! admins.

use std::collections::HashSet;

use vstd::prelude::*;

use crate::control::error::{Error, Result};

verus! {

broadcast use vstd::std_specs::hash::group_hash_axioms;

/// The abstract state of an access control: who may use the bot, and
/// who administers it.
pub ghost struct AccessControlView {
    /// The whitelisted user IDs; `None` means open access.
    pub whitelist: Option<Set<i64>>,
    /// The admin user IDs.
    pub admins: Set<i64>,
}

impl AccessControlView {
    /// Whether a user may use the bot.
    pub open spec fn authorized(self, user_id: i64) -> bool {
        match self.whitelist {
            Some(whitelist) => whitelist.contains(user_id),
            None => true,
        }
    }
}

/// Access control for bot users.
#[derive(Debug)]
pub struct AccessControl {
    whitelist: Option<HashSet<i64>>,
    admins: HashSet<i64>,
}

impl View for AccessControl {
    type V = AccessControlView;

    closed spec fn view(&self) -> AccessControlView {
        AccessControlView {
            whitelist: match self.whitelist {
                Some(ref whitelist) => Some(whitelist@),
                None => None,
            },
            admins: self.admins@,
        }
    }
}

proof fn lemma_take_one_more(s: Seq<i64>, i: int)
    requires
        0 <= i < s.len(),
    ensures
        forall|y: i64| #[trigger]
            s.take(i + 1).contains(y) <==> s.take(i).contains(y) || s[i] == y,
{
    assert forall|y: i64| #[trigger]
        s.take(i + 1).contains(y) implies s.take(i).contains(y) || s[i] == y by {
        let j = choose|j: int| #![trigger s.take(i + 1)[j]] 0 <= j < s.take(i + 1).len() && s.take(i + 1)[j] == y;
        if j < i {
            assert(s.take(i)[j] == y);
        }
    }
    assert forall|y: i64| s.take(i).contains(y) || s[i] == y implies #[trigger] s.take(i + 1).contains(
        y,
    ) by {
        if s.take(i).contains(y) {
            let j = choose|j: int| #![trigger s.take(i)[j]] 0 <= j < s.take(i).len() && s.take(i)[j] == y;
            assert(s.take(i + 1)[j] == y);
        } else {
            assert(s.take(i + 1)[i] == y);
        }
    }
}

/// Collect user IDs into a hash set holding exactly those IDs.
fn collect_ids(ids: Vec<i64>) -> (r: HashSet<i64>)
    ensures
        r@ == ids@.to_set(),
{
    let mut set: HashSet<i64> = HashSet::new();
    let n = ids.len();
    let mut i: usize = 0;
    while i < n
        invariant
            0 <= i <= n,
            n == ids@.len(),
            forall|y: i64| #[trigger] set@.contains(y) <==> ids@.take(i as int).contains(y),
        decreases n - i,
    {
        proof {
            lemma_take_one_more(ids@, i as int);
        }
        set.insert(ids[i]);
        i = i + 1;
    }
    proof {
        assert(ids@.take(n as int) =~= ids@);
        assert(set@ =~= ids@.to_set());
    }
    set
}

impl AccessControl {
    /// Create an open access control: everyone authorized, no admins.
    pub fn new() -> (r: Self)
        ensures
            r@.whitelist is None,
            r@.admins == Set::<i64>::empty(),
    {
        let r = AccessControl { whitelist: None, admins: HashSet::new() };
        proof {
            assert(r@.admins =~= Set::<i64>::empty());
        }
        r
    }

    /// Restrict access to specific user IDs.
    pub fn with_whitelist(self, ids: Vec<i64>) -> (r: Self)
        ensures
            r@.whitelist matches Some(whitelist) && whitelist == ids@.to_set(),
            r@.admins == self@.admins,
    {
        let mut s = self;
        s.whitelist = Some(collect_ids(ids));
        s
    }

    /// Set the admin users.
    pub fn with_admins(self, ids: Vec<i64>) -> (r: Self)
        ensures
            r@.admins == ids@.to_set(),
            r@.whitelist == self@.whitelist,
    {
        let mut s = self;
        s.admins = collect_ids(ids);
        s
    }

    /// Check if a user is authorized: on the whitelist, or anybody
    /// when none is set.
    pub fn is_authorized(&self, user_id: i64) -> (r: bool)
        ensures
            r == self@.authorized(user_id),
    {
        match &self.whitelist {
            Some(whitelist) => whitelist.contains(&user_id),
            None => true,
        }
    }

    /// Check if a user is an admin.
    pub fn is_admin(&self, user_id: i64) -> (r: bool)
        ensures
            r == self@.admins.contains(user_id),
    {
        self.admins.contains(&user_id)
    }

    /// Authorize a user, with the user named in the error when not
    /// authorized.
    pub fn authorize(&self, user_id: i64) -> (r: Result<()>)
        ensures
            r is Ok <==> self@.authorized(user_id),
            !self@.authorized(user_id) ==> (r matches Err(Error::Unauthorized(id)) && id
                == user_id),
    {
        if self.is_authorized(user_id) {
            Ok(())
        } else {
            Err(Error::Unauthorized(user_id))
        }
    }
}

impl Default for AccessControl {
    fn default() -> (r: Self)
        ensures
            r@.whitelist is None,
            r@.admins == Set::<i64>::empty(),
    {
        Self::new()
    }
}

} // verus!
