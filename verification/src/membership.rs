//! The read-only lookup of current organization member logins.
//!
//! The index is built once per run from the paginated member listing and is
//! only consulted through [`MembershipIndex::contains`]; comparison of
//! logins is case-sensitive and exact. Inserting a login a second time
//! changes nothing a caller can observe.

use vstd::prelude::*;

verus! {

/// The set of member logins of the audited organization.
#[derive(Debug)]
pub struct MembershipIndex {
    logins: Vec<String>,
}

impl View for MembershipIndex {
    type V = Set<Seq<char>>;

    /// The index abstracts to the set of logins it holds.
    closed spec fn view(&self) -> Set<Seq<char>> {
        Set::new(
            |l: Seq<char>|
                exists|i: int| 0 <= i < self.logins@.len() && #[trigger] self.logins@[i]@ == l,
        )
    }
}

impl MembershipIndex {
    /// An index with no members.
    pub fn new() -> (r: MembershipIndex)
        ensures
            r@ == Set::<Seq<char>>::empty(),
    {
        let r = MembershipIndex { logins: Vec::new() };
        proof {
            assert(r@ =~= Set::<Seq<char>>::empty());
        }
        r
    }

    /// Record one member login.
    pub fn insert(&mut self, login: String)
        ensures
            final(self)@ == old(self)@.insert(login@),
    {
        self.logins.push(login);
        proof {
            let n = self.logins@.len() - 1;
            assert(self.logins@[n]@ == login@);
            assert forall|l: Seq<char>| old(self)@.insert(login@).contains(l) implies self@.contains(
                l,
            ) by {
                if l == login@ {
                    assert(self.logins@[n]@ == l);
                } else {
                    let i = choose|i: int|
                        0 <= i < old(self).logins@.len() && #[trigger] old(self).logins@[i]@ == l;
                    assert(self.logins@[i]@ == l);
                }
            }
            assert(self@ =~= old(self)@.insert(login@));
        }
    }

    /// Is the given login that of a current organization member? The match
    /// is case-sensitive and exact.
    pub fn contains(&self, login: &String) -> (r: bool)
        ensures
            r == self@.contains(login@),
    {
        let n = self.logins.len();
        let mut i: usize = 0;
        while i < n
            invariant
                n == self.logins@.len(),
                0 <= i <= n,
                forall|j: int| 0 <= j < i ==> #[trigger] self.logins@[j]@ != login@,
            decreases n - i,
        {
            if self.logins[i] == *login {
                return true;
            }
            i += 1;
        }
        false
    }
}

} // verus!
