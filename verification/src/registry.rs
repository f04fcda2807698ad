//! The registry of identifier records: one record per purchased identifier,
//! created on first purchase, mutated on every resale, never deleted.

use crate::accounts::Pubkey;
use vstd::prelude::*;

verus! {

/// One purchasable identifier: its immutable string key, its current owner
/// and its current asking price in smallest token units. Before the first
/// sale `owner` and `price` are both `None`; afterwards both are set.
#[derive(Debug, PartialEq, Eq)]
pub struct Tweet {
    pub tweet_id: String,
    pub owner: Option<Pubkey>,
    pub price: Option<u64>,
}

impl Tweet {
    /// `owner` and `price` are both absent or both present, never one
    /// without the other.
    pub open spec fn wf(self) -> bool {
        self.owner is Some <==> self.price is Some
    }
}

/// The record at index `i` carries identifier `id`.
pub open spec fn id_at(s: Seq<Tweet>, id: Seq<char>, i: int) -> bool {
    0 <= i < s.len() && s[i].tweet_id@ == id
}

/// Some record carries identifier `id`.
pub open spec fn has_id(s: Seq<Tweet>, id: Seq<char>) -> bool {
    exists|i: int| id_at(s, id, i)
}

/// The index of the record carrying `id`; meaningful only when `has_id`
/// holds and identifiers are unique.
pub open spec fn index_of_id(s: Seq<Tweet>, id: Seq<char>) -> int {
    choose|i: int| id_at(s, id, i)
}

/// No identifier occurs in two records.
pub open spec fn unique_ids(s: Seq<Tweet>) -> bool {
    forall|a: int, b: int|
        0 <= a < b < s.len() ==> (#[trigger] s[a]).tweet_id@ != (#[trigger] s[b]).tweet_id@
}

/// Every record is well formed.
pub open spec fn all_wf(s: Seq<Tweet>) -> bool {
    forall|i: int| 0 <= i < s.len() ==> (#[trigger] s[i]).wf()
}

/// The owner recorded for `id`: `None` when no record carries `id` or the
/// record is still unowned.
pub open spec fn recorded_owner(s: Seq<Tweet>, id: Seq<char>) -> Option<Pubkey> {
    if has_id(s, id) {
        s[index_of_id(s, id)].owner
    } else {
        None
    }
}

/// When identifiers are unique, any index carrying `id` is the one that
/// `index_of_id` names.
pub proof fn lemma_id_index_unique(s: Seq<Tweet>, id: Seq<char>, i: int)
    requires
        unique_ids(s),
        id_at(s, id, i),
    ensures
        has_id(s, id),
        index_of_id(s, id) == i,
{
    assert(has_id(s, id));
    let j = index_of_id(s, id);
    assert(id_at(s, id, j));
    if i < j {
        assert(s[i].tweet_id@ != s[j].tweet_id@);
    } else if j < i {
        assert(s[j].tweet_id@ != s[i].tweet_id@);
    }
}

/// The persisted mapping from identifier to (owner, price).
pub struct Registry {
    pub tweets: Vec<Tweet>,
}

impl Registry {
    /// Records are well formed and identifiers unique.
    pub open spec fn wf(self) -> bool {
        all_wf(self.tweets@) && unique_ids(self.tweets@)
    }

    /// What the registry records for `id`.
    pub open spec fn spec_lookup(self, id: Seq<char>) -> Option<Tweet> {
        if has_id(self.tweets@, id) {
            Some(self.tweets@[index_of_id(self.tweets@, id)])
        } else {
            None
        }
    }

    /// An empty registry.
    pub fn new() -> (r: Registry)
        ensures
            r.wf(),
            r.tweets@.len() == 0,
    {
        Registry { tweets: Vec::new() }
    }

    /// The index of the record carrying `tweet_id`, if any record does.
    pub fn find_index(&self, tweet_id: &String) -> (r: Option<usize>)
        ensures
            match r {
                Some(i) => id_at(self.tweets@, tweet_id@, i as int),
                None => !has_id(self.tweets@, tweet_id@),
            },
    {
        let n = self.tweets.len();
        let mut j: usize = 0;
        while j < n
            invariant
                n == self.tweets@.len(),
                j <= n,
                forall|k: int| 0 <= k < j ==> !id_at(self.tweets@, tweet_id@, k),
            decreases n - j,
        {
            if self.tweets[j].tweet_id.eq(tweet_id) {
                return Some(j);
            }
            j = j + 1;
        }
        None
    }

    /// The record carrying `tweet_id`, if any.
    pub fn lookup(&self, tweet_id: &String) -> (r: Option<&Tweet>)
        requires
            self.wf(),
        ensures
            match r {
                Some(t) => self.spec_lookup(tweet_id@) == Some(*t),
                None => self.spec_lookup(tweet_id@) is None,
            },
    {
        match self.find_index(tweet_id) {
            Some(i) => {
                proof {
                    lemma_id_index_unique(self.tweets@, tweet_id@, i as int);
                }
                Some(&self.tweets[i])
            }
            None => None,
        }
    }
}

} // verus!
