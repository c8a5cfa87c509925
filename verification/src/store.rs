use vstd::prelude::*;
use crate::outcome::StoreFailure;
use crate::outcome::StoreOperation;

verus! {

/// The lifecycle state of a subscriber's `status` attribute. Everything
/// the store may hold that is not `confirmed` counts as pending, since
/// the workflow only ever asks whether a subscriber is confirmed.
#[derive(Clone, Copy, Debug, PartialEq, Eq, Structural)]
pub enum SubscriberStatus {
    PendingConfirmation,
    Confirmed,
}

/// An in-memory relational store holding the two tables the
/// confirmation workflow touches: a token table mapping each
/// confirmation token to a subscriber identifier, and a subscriber
/// table mapping each identifier to its status.
///
/// The store keeps the invariants the workflow relies on: tokens are
/// unique per issuance, and at most one subscriber row matches a given
/// identifier.
pub struct InMemoryStore {
    tokens: Vec<(String, u128)>,
    subscribers: Vec<(u128, SubscriberStatus)>,
}

impl InMemoryStore {
    /// Well-formedness: token strings are distinct, and subscriber
    /// identifiers are distinct.
    pub closed spec fn wf(self) -> bool {
        &&& forall|i: int, j: int|
            0 <= i < j < self.tokens@.len() ==> self.tokens@[i].0@ != self.tokens@[j].0@
        &&& forall|i: int, j: int|
            0 <= i < j < self.subscribers@.len() ==> self.subscribers@[i].0
                != self.subscribers@[j].0
    }

    /// The token table as a map from token characters to the associated
    /// subscriber identifier.
    pub closed spec fn tokens_view(self) -> Map<Seq<char>, u128> {
        Map::new(
            |t: Seq<char>| exists|i: int| 0 <= i < self.tokens@.len() && self.tokens@[i].0@ == t,
            |t: Seq<char>|
                {
                    let i = choose|i: int|
                        0 <= i < self.tokens@.len() && self.tokens@[i].0@ == t;
                    self.tokens@[i].1
                },
        )
    }

    /// The subscriber table as a map from identifier to status.
    pub closed spec fn subscribers_view(self) -> Map<u128, SubscriberStatus> {
        Map::new(
            |id: u128| exists|i: int|
                0 <= i < self.subscribers@.len() && self.subscribers@[i].0 == id,
            |id: u128|
                {
                    let i = choose|i: int|
                        0 <= i < self.subscribers@.len() && self.subscribers@[i].0 == id;
                    self.subscribers@[i].1
                },
        )
    }

    proof fn lemma_tokens_view_at(self, i: int)
        requires
            self.wf(),
            0 <= i < self.tokens@.len(),
        ensures
            self.tokens_view().contains_key(self.tokens@[i].0@),
            self.tokens_view()[self.tokens@[i].0@] == self.tokens@[i].1,
    {
        let t = self.tokens@[i].0@;
        assert(self.tokens_view().contains_key(t));
        let j = choose|j: int| 0 <= j < self.tokens@.len() && self.tokens@[j].0@ == t;
        if j < i {
            assert(self.tokens@[j].0@ != self.tokens@[i].0@);
        } else if i < j {
            assert(self.tokens@[i].0@ != self.tokens@[j].0@);
        }
    }

    proof fn lemma_subscribers_view_at(self, i: int)
        requires
            self.wf(),
            0 <= i < self.subscribers@.len(),
        ensures
            self.subscribers_view().contains_key(self.subscribers@[i].0),
            self.subscribers_view()[self.subscribers@[i].0] == self.subscribers@[i].1,
    {
        let id = self.subscribers@[i].0;
        assert(self.subscribers_view().contains_key(id));
        let j = choose|j: int|
            0 <= j < self.subscribers@.len() && self.subscribers@[j].0 == id;
        if j < i {
            assert(self.subscribers@[j].0 != self.subscribers@[i].0);
        } else if i < j {
            assert(self.subscribers@[i].0 != self.subscribers@[j].0);
        }
    }

    /// An empty store: no tokens, no subscribers.
    pub fn new() -> (store: InMemoryStore)
        ensures
            store.wf(),
            store.tokens_view() == Map::<Seq<char>, u128>::empty(),
            store.subscribers_view() == Map::<u128, SubscriberStatus>::empty(),
    {
        let store = InMemoryStore { tokens: Vec::new(), subscribers: Vec::new() };
        proof {
            assert(store.tokens_view() =~= Map::<Seq<char>, u128>::empty());
            assert(store.subscribers_view() =~= Map::<u128, SubscriberStatus>::empty());
        }
        store
    }

    /// Issue a confirmation token for a subscriber. Tokens are unique
    /// per issuance, so the token must not already be present.
    pub fn add_token(&mut self, token: String, subscriber_id: u128)
        requires
            old(self).wf(),
            !old(self).tokens_view().contains_key(token@),
        ensures
            final(self).wf(),
            final(self).tokens_view() == old(self).tokens_view().insert(token@, subscriber_id),
            final(self).subscribers_view() == old(self).subscribers_view(),
    {
        let ghost prior = *self;
        self.tokens.push((token, subscriber_id));
        proof {
            let n = self.tokens@.len() - 1;
            assert forall|i: int, j: int|
                0 <= i < j < self.tokens@.len() implies self.tokens@[i].0@
                != self.tokens@[j].0@ by {
                if j == n {
                    if self.tokens@[i].0@ == self.tokens@[n].0@ {
                        prior.lemma_tokens_view_at(i);
                    }
                } else {
                    assert(prior.tokens@[i].0@ != prior.tokens@[j].0@);
                }
            };
            let target = prior.tokens_view().insert(self.tokens@[n].0@, subscriber_id);
            assert forall|k: Seq<char>| #[trigger]
                self.tokens_view().contains_key(k) implies target.contains_key(k)
                && self.tokens_view()[k] == target[k] by {
                let i = choose|i: int| 0 <= i < self.tokens@.len() && self.tokens@[i].0@ == k;
                self.lemma_tokens_view_at(i);
                if i < n {
                    prior.lemma_tokens_view_at(i);
                }
            };
            assert forall|k: Seq<char>| #[trigger]
                target.contains_key(k) implies self.tokens_view().contains_key(k) by {
                if k == self.tokens@[n].0@ {
                    self.lemma_tokens_view_at(n);
                } else {
                    let i = choose|i: int|
                        0 <= i < prior.tokens@.len() && prior.tokens@[i].0@ == k;
                    self.lemma_tokens_view_at(i);
                }
            };
            assert(self.tokens_view() =~= target);
            assert(self.subscribers_view() =~= prior.subscribers_view());
        }
    }

    /// Create a subscriber row. At most one row may match an
    /// identifier, so the identifier must not already be present.
    pub fn add_subscriber(&mut self, subscriber_id: u128, status: SubscriberStatus)
        requires
            old(self).wf(),
            !old(self).subscribers_view().contains_key(subscriber_id),
        ensures
            final(self).wf(),
            final(self).tokens_view() == old(self).tokens_view(),
            final(self).subscribers_view() == old(self).subscribers_view().insert(
                subscriber_id,
                status,
            ),
    {
        let ghost prior = *self;
        self.subscribers.push((subscriber_id, status));
        proof {
            let n = self.subscribers@.len() - 1;
            assert forall|i: int, j: int|
                0 <= i < j < self.subscribers@.len() implies self.subscribers@[i].0
                != self.subscribers@[j].0 by {
                if j == n {
                    if self.subscribers@[i].0 == self.subscribers@[n].0 {
                        prior.lemma_subscribers_view_at(i);
                    }
                } else {
                    assert(prior.subscribers@[i].0 != prior.subscribers@[j].0);
                }
            };
            let target = prior.subscribers_view().insert(subscriber_id, status);
            assert forall|k: u128| #[trigger]
                self.subscribers_view().contains_key(k) implies target.contains_key(k)
                && self.subscribers_view()[k] == target[k] by {
                let i = choose|i: int|
                    0 <= i < self.subscribers@.len() && self.subscribers@[i].0 == k;
                self.lemma_subscribers_view_at(i);
                if i < n {
                    prior.lemma_subscribers_view_at(i);
                }
            };
            assert forall|k: u128| #[trigger]
                target.contains_key(k) implies self.subscribers_view().contains_key(k) by {
                if k == subscriber_id {
                    self.lemma_subscribers_view_at(n);
                } else {
                    let i = choose|i: int|
                        0 <= i < prior.subscribers@.len() && prior.subscribers@[i].0 == k;
                    self.lemma_subscribers_view_at(i);
                }
            };
            assert(self.subscribers_view() =~= target);
            assert(self.tokens_view() =~= prior.tokens_view());
        }
    }

    /// Fetch the subscriber identifier associated with a token: zero or
    /// one row.
    pub fn get_subscriber_id_from_token(&self, token: &str) -> (found: Option<u128>)
        requires
            self.wf(),
        ensures
            match found {
                Some(id) => self.tokens_view().contains_key(token@) && id
                    == self.tokens_view()[token@],
                None => !self.tokens_view().contains_key(token@),
            },
    {
        let n = self.tokens.len();
        let mut i: usize = 0;
        while i < n
            invariant
                self.wf(),
                n == self.tokens@.len(),
                i <= n,
                forall|j: int| 0 <= j < i ==> (#[trigger] self.tokens@[j].0)@ != token@,
            decreases n - i,
        {
            if str_eq(self.tokens[i].0.as_str(), token) {
                proof {
                    self.lemma_tokens_view_at(i as int);
                }
                return Some(self.tokens[i].1);
            }
            i += 1;
        }
        None
    }

    /// Read the status of the subscriber with the given identifier. The
    /// call fails when the store does not hold exactly one matching
    /// row, as a relational single-row fetch would.
    pub fn check_subscriber_already_confirmed(&self, subscriber_id: u128) -> (r: Result<
        SubscriberStatus,
        StoreFailure,
    >)
        requires
            self.wf(),
        ensures
            match r {
                Ok(status) => self.subscribers_view().contains_key(subscriber_id) && status
                    == self.subscribers_view()[subscriber_id],
                Err(failure) => !self.subscribers_view().contains_key(subscriber_id) && failure
                    == (StoreFailure { operation: StoreOperation::FetchStatus }),
            },
    {
        let n = self.subscribers.len();
        let mut i: usize = 0;
        while i < n
            invariant
                self.wf(),
                n == self.subscribers@.len(),
                i <= n,
                forall|j: int| 0 <= j < i ==> (#[trigger] self.subscribers@[j]).0 != subscriber_id,
            decreases n - i,
        {
            if self.subscribers[i].0 == subscriber_id {
                proof {
                    self.lemma_subscribers_view_at(i as int);
                }
                return Ok(self.subscribers[i].1);
            }
            i += 1;
        }
        Err(StoreFailure { operation: StoreOperation::FetchStatus })
    }

    /// Set the status of the subscriber with the given identifier to
    /// confirmed. Mirrors a relational update: touching no row is not
    /// an error, and every matching row is updated.
    pub fn confirm_subscriber(&mut self, subscriber_id: u128) -> (r: Result<(), StoreFailure>)
        requires
            old(self).wf(),
        ensures
            final(self).wf(),
            final(self).tokens_view() == old(self).tokens_view(),
            r is Ok,
            final(self).subscribers_view() == if old(self).subscribers_view().contains_key(
                subscriber_id,
            ) {
                old(self).subscribers_view().insert(subscriber_id, SubscriberStatus::Confirmed)
            } else {
                old(self).subscribers_view()
            },
    {
        let ghost prior = *self;
        let n = self.subscribers.len();
        let mut i: usize = 0;
        while i < n
            invariant
                *self == prior,
                prior == *old(self),
                prior.wf(),
                n == self.subscribers@.len(),
                i <= n,
                forall|j: int| 0 <= j < i ==> (#[trigger] self.subscribers@[j]).0 != subscriber_id,
            decreases n - i,
        {
            if self.subscribers[i].0 == subscriber_id {
                self.subscribers.set(i, (subscriber_id, SubscriberStatus::Confirmed));
                proof {
                    self.lemma_confirm_update(prior, i as int, subscriber_id);
                }
                return Ok(());
            }
            i += 1;
        }
        proof {
            assert(!self.subscribers_view().contains_key(subscriber_id));
        }
        Ok(())
    }

    proof fn lemma_confirm_update(self, prior: InMemoryStore, at: int, subscriber_id: u128)
        requires
            prior.wf(),
            0 <= at < prior.subscribers@.len(),
            prior.subscribers@[at].0 == subscriber_id,
            self.tokens@ == prior.tokens@,
            self.subscribers@ == prior.subscribers@.update(
                at,
                (subscriber_id, SubscriberStatus::Confirmed),
            ),
        ensures
            self.wf(),
            self.tokens_view() == prior.tokens_view(),
            prior.subscribers_view().contains_key(subscriber_id),
            self.subscribers_view() == prior.subscribers_view().insert(
                subscriber_id,
                SubscriberStatus::Confirmed,
            ),
    {
        assert forall|i: int, j: int|
            0 <= i < j < self.subscribers@.len() implies self.subscribers@[i].0
            != self.subscribers@[j].0 by {
            assert(prior.subscribers@[i].0 != prior.subscribers@[j].0);
        };
        assert(self.tokens_view() =~= prior.tokens_view());
        prior.lemma_subscribers_view_at(at);
        let target = prior.subscribers_view().insert(subscriber_id, SubscriberStatus::Confirmed);
        assert forall|k: u128| #[trigger]
            self.subscribers_view().contains_key(k) implies target.contains_key(k)
            && self.subscribers_view()[k] == target[k] by {
            let i = choose|i: int|
                0 <= i < self.subscribers@.len() && self.subscribers@[i].0 == k;
            self.lemma_subscribers_view_at(i);
            if i != at {
                prior.lemma_subscribers_view_at(i);
            }
        };
        assert forall|k: u128| #[trigger]
            target.contains_key(k) implies self.subscribers_view().contains_key(k) by {
            if k == subscriber_id {
                self.lemma_subscribers_view_at(at);
            } else {
                let i = choose|i: int|
                    0 <= i < prior.subscribers@.len() && prior.subscribers@[i].0 == k;
                self.lemma_subscribers_view_at(i);
            }
        };
        assert(self.subscribers_view() =~= target);
    }
}

/// Character-by-character string equality, proved against the string
/// views.
fn str_eq(a: &str, b: &str) -> (r: bool)
    ensures
        r == (a@ == b@),
{
    let la = a.unicode_len();
    let lb = b.unicode_len();
    if la != lb {
        return false;
    }
    let mut i: usize = 0;
    while i < la
        invariant
            la == a@.len(),
            la == b@.len(),
            i <= la,
            forall|j: int| 0 <= j < i ==> a@[j] == b@[j],
        decreases la - i,
    {
        if a.get_char(i) != b.get_char(i) {
            return false;
        }
        i += 1;
    }
    proof {
        assert(a@ =~= b@);
    }
    true
}

} // verus!
