//! Who owns the ledger, and who guards it.
use crate::account_id::AccountId;
use crate::errors::Fault;
use crate::registry::Registry;
use crate::{done, Context, ContextView, Contract, ContractView};
use vstd::prelude::*;

verus! {

/// The identifiers of `list` as a sequence of texts.
pub open spec fn names(list: Seq<AccountId>) -> Seq<Seq<char>> {
    list.map_values(|a: AccountId| a@)
}

/// The guardians of the ledger: a list of accounts, in the order in which
/// they were added, in which no account stands twice. Its view is the list
/// of their names.
#[derive(Debug)]
pub struct Guardians {
    ids: Registry<AccountId>,
}

impl View for Guardians {
    type V = Seq<Seq<char>>;

    closed spec fn view(&self) -> Seq<Seq<char>> {
        self.ids@.keys
    }
}

impl Guardians {
    /// Each guardian stands under its own name.
    #[verifier::type_invariant]
    spec fn named(&self) -> bool {
        forall|k: Seq<char>| #[trigger] self.ids@.contains_key(k) ==> self.ids@[k]@ == k
    }

    /// No guardians.
    pub fn new() -> (r: Self)
        ensures
            r@ == Seq::<Seq<char>>::empty(),
    {
        Guardians { ids: Registry::new() }
    }

    /// The number of guardians.
    pub fn len(&self) -> (n: usize)
        ensures
            n == self@.len(),
            self@.no_duplicates(),
    {
        proof {
            use_type_invariant(&self.ids);
            self.ids.lemma_listing();
        }
        self.ids.len()
    }

    /// Whether `id` is a guardian.
    pub fn contains(&self, id: &AccountId) -> (b: bool)
        ensures
            b == self@.contains(id@),
    {
        proof {
            use_type_invariant(&self.ids);
            self.ids.lemma_listing();
            assert(self.ids@.keys.to_set().contains(id@) == self@.contains(id@));
        }
        self.ids.contains_key(id.as_string())
    }

    /// Adds `id` at the end of the list, unless it is a guardian already,
    /// and says whether it did.
    pub fn insert(&mut self, id: AccountId) -> (added: bool)
        ensures
            added == !old(self)@.contains(id@),
            added ==> final(self)@ == old(self)@.push(id@),
            !added ==> final(self)@ == old(self)@,
    {
        proof {
            use_type_invariant(&*self);
        }
        if self.contains(&id) {
            return false;
        }
        proof {
            use_type_invariant(&self.ids);
            self.ids.lemma_listing();
            assert(self.ids@.keys.to_set().contains(id@) == self@.contains(id@));
        }
        let ghost before = self.ids@;
        let ghost name = id@;
        let mut ids = Registry::new();
        std::mem::swap(&mut ids, &mut self.ids);
        ids.insert(id.to_string(), id);
        proof {
            assert forall|k: Seq<char>| #[trigger] ids@.contains_key(k) implies ids@[k]@ == k by {
                if k != name {
                    assert(before.contains_key(k));
                }
            }
        }
        self.ids = ids;
        true
    }

    /// Takes `id` off the list, if it is a guardian, and says whether it
    /// did. Those that remain keep their order.
    pub fn remove(&mut self, id: &AccountId) -> (removed: bool)
        ensures
            removed == old(self)@.contains(id@),
            removed ==> final(self)@ == old(self)@.remove(old(self)@.index_of(id@)),
            !removed ==> final(self)@ == old(self)@,
    {
        proof {
            use_type_invariant(&*self);
            use_type_invariant(&self.ids);
            self.ids.lemma_listing();
            assert(self.ids@.keys.to_set().contains(id@) == self@.contains(id@));
        }
        let ghost before = self.ids@;
        let mut ids = Registry::new();
        std::mem::swap(&mut ids, &mut self.ids);
        let gone = ids.remove(id.as_string());
        proof {
            assert forall|k: Seq<char>| #[trigger] ids@.contains_key(k) implies ids@[k]@ == k by {
                assert(before.contains_key(k));
            }
        }
        self.ids = ids;
        gone.is_some()
    }

    /// The guardians, in the order in which they were added.
    pub fn list(&self) -> (r: Vec<AccountId>)
        ensures
            names(r@) == self@,
            self@.no_duplicates(),
    {
        proof {
            use_type_invariant(&*self);
            use_type_invariant(&self.ids);
            self.ids.lemma_listing();
        }
        let mut out: Vec<AccountId> = Vec::new();
        let n = self.ids.len();
        let mut i: usize = 0;
        while i < n
            invariant
                i <= n,
                n == self.ids@.len(),
                self.ids@.wf(),
                self.named(),
                out.len() == i,
                forall|j: int| 0 <= j < i ==> out[j]@ == self.ids@.keys[j],
            decreases n - i,
        {
            let id = self.ids.value_at(i);
            proof {
                let k = self.ids@.keys[i as int];
                assert(self.ids@.keys.to_set().contains(k));
                assert(self.ids@.contains_key(k));
            }
            out.push(id.clone());
            i += 1;
        }
        assert(names(out@) =~= self@);
        out
    }
}

/// The names of `list` without those of `removed`, in the order of `list`.
pub open spec fn without(list: Seq<Seq<char>>, removed: Seq<Seq<char>>) -> Seq<Seq<char>>
    decreases removed.len(),
{
    if removed.len() == 0 {
        list
    } else {
        let rest = without(list, removed.drop_last());
        if rest.contains(removed.last()) {
            rest.remove(rest.index_of(removed.last()))
        } else {
            rest
        }
    }
}

impl ContractView {
    /// The owner proposes the account that is to own the ledger next.
    pub open spec fn propose_new_owner(self, ctx: ContextView, proposed: Seq<char>) -> Result<
        ContractView,
        Fault,
    > {
        if ctx.predecessor_account_id != self.owner_id {
            Err(Fault::NotOwner)
        } else {
            Ok(ContractView { proposed_owner_id: proposed, ..self })
        }
    }

    /// The account that was proposed takes the ledger over.
    pub open spec fn accept_ownership(self, ctx: ContextView) -> Result<ContractView, Fault> {
        if self.owner_id == self.proposed_owner_id || ctx.predecessor_account_id
            != self.proposed_owner_id {
            Err(Fault::OwnershipNotProposed)
        } else {
            Ok(ContractView { owner_id: self.proposed_owner_id, ..self })
        }
    }

    /// The owner adds guardians, which go to the end of the list in the
    /// order given. None of them may be a guardian already, and none may
    /// be named twice.
    pub open spec fn extend_guardians(self, ctx: ContextView, added: Seq<Seq<char>>) -> Result<
        ContractView,
        Fault,
    > {
        if ctx.predecessor_account_id != self.owner_id {
            Err(Fault::NotOwner)
        } else if !added.no_duplicates() || exists|i: int|
            0 <= i < added.len() && self.guardians.contains(added[i]) {
            Err(Fault::GuardianExists)
        } else {
            Ok(ContractView { guardians: self.guardians + added, ..self })
        }
    }

    /// The owner removes guardians; those that remain keep their order.
    /// Each of those removed must be a guardian, and none may be named
    /// twice.
    pub open spec fn remove_guardians(self, ctx: ContextView, removed: Seq<Seq<char>>) -> Result<
        ContractView,
        Fault,
    > {
        if ctx.predecessor_account_id != self.owner_id {
            Err(Fault::NotOwner)
        } else if !removed.no_duplicates() || exists|i: int|
            0 <= i < removed.len() && !self.guardians.contains(removed[i]) {
            Err(Fault::GuardianNotFound)
        } else {
            Ok(ContractView { guardians: without(self.guardians, removed), ..self })
        }
    }
}

/// Whether the identifier at `i` is named again before `i`.
fn named_before(list: &Vec<AccountId>, i: usize) -> (b: bool)
    requires
        i < list.len(),
    ensures
        b == exists|j: int| 0 <= j < i && list[j]@ == list[i as int]@,
{
    let mut j: usize = 0;
    while j < i
        invariant
            j <= i,
            i < list.len(),
            forall|k: int| 0 <= k < j ==> list[k]@ != list[i as int]@,
        decreases i - j,
    {
        if list[j] == list[i] {
            return true;
        }
        j += 1;
    }
    false
}

impl Contract {
    /// Succeeds where the caller owns the ledger.
    pub fn assert_owner(&self, ctx: &Context) -> (r: Result<(), Fault>)
        ensures
            match r {
                Ok(_) => ctx@.predecessor_account_id == self@.owner_id,
                Err(e) => ctx@.predecessor_account_id != self@.owner_id && e == Fault::NotOwner,
            },
    {
        if ctx.predecessor_account_id != self.owner_id {
            Err(Fault::NotOwner)
        } else {
            Ok(())
        }
    }

    /// The owner proposes the account that is to own the ledger next.
    pub fn propose_new_owner(&mut self, ctx: &Context, proposed_owner_id: AccountId) -> (r: Result<
        (),
        Fault,
    >)
        ensures
            done(
                r,
                *old(self),
                *final(self),
                old(self)@.propose_new_owner(ctx@, proposed_owner_id@),
            ),
    {
        self.assert_owner(ctx)?;
        self.proposed_owner_id = proposed_owner_id;
        Ok(())
    }

    /// The account that was proposed takes the ledger over.
    pub fn accept_ownership(&mut self, ctx: &Context) -> (r: Result<(), Fault>)
        ensures
            done(r, *old(self), *final(self), old(self)@.accept_ownership(ctx@)),
    {
        if self.owner_id == self.proposed_owner_id {
            return Err(Fault::OwnershipNotProposed);
        }
        if ctx.predecessor_account_id != self.proposed_owner_id {
            return Err(Fault::OwnershipNotProposed);
        }
        self.owner_id = self.proposed_owner_id.clone();
        Ok(())
    }

    /// The account that owns the ledger.
    pub fn owner(&self) -> (r: AccountId)
        ensures
            r@ == self@.owner_id,
    {
        self.owner_id.clone()
    }

    /// Adds guardians. Only the owner may do so.
    pub fn extend_guardians(&mut self, ctx: &Context, guardians: Vec<AccountId>) -> (r: Result<
        (),
        Fault,
    >)
        ensures
            done(
                r,
                *old(self),
                *final(self),
                old(self)@.extend_guardians(ctx@, names(guardians@)),
            ),
    {
        self.assert_owner(ctx)?;
        let ghost added = names(guardians@);
        let mut i: usize = 0;
        while i < guardians.len()
            invariant
                i <= guardians.len(),
                added == names(guardians@),
                *self == *old(self),
                ctx@.predecessor_account_id == old(self)@.owner_id,
                forall|a: int, b: int| 0 <= a < b < i ==> added[a] != added[b],
                forall|a: int| 0 <= a < i ==> !self@.guardians.contains(added[a]),
            decreases guardians.len() - i,
        {
            if self.guardians.contains(&guardians[i]) {
                proof {
                    let at = i as int;
                    assert(0 <= at < added.len() && old(self)@.guardians.contains(added[at]));
                }
                return Err(Fault::GuardianExists);
            }
            if named_before(&guardians, i) {
                let ghost j = choose|j: int| 0 <= j < i && guardians[j]@ == guardians[i as int]@;
                assert(added[j] == added[i as int]);
                assert(!added.no_duplicates());
                return Err(Fault::GuardianExists);
            }
            i += 1;
        }
        proof {
            assert(added.no_duplicates());
            assert(old(self)@.guardians + added.take(0) =~= old(self)@.guardians);
        }
        let mut k: usize = 0;
        while k < guardians.len()
            invariant
                k <= guardians.len(),
                added == names(guardians@),
                added.no_duplicates(),
                forall|a: int| 0 <= a < added.len() ==> !old(self)@.guardians.contains(added[a]),
                self@ == (ContractView {
                    guardians: old(self)@.guardians + added.take(k as int),
                    ..old(self)@
                }),
            decreases guardians.len() - k,
        {
            proof {
                let name = added[k as int];
                assert(added.take(k + 1) =~= added.take(k as int).push(name));
                assert(!self@.guardians.contains(name)) by {
                    if self@.guardians.contains(name) {
                        let at = choose|at: int|
                            0 <= at < self@.guardians.len() && self@.guardians[at] == name;
                        if at >= old(self)@.guardians.len() {
                            let b = at - old(self)@.guardians.len();
                            assert(added[b] == added[k as int]);
                        } else {
                            assert(old(self)@.guardians[at] == name);
                        }
                    }
                }
            }
            let _ = self.guardians.insert(guardians[k].clone());
            assert(self@.guardians =~= old(self)@.guardians + added.take(k + 1));
            k += 1;
        }
        assert(added.take(guardians.len() as int) =~= added);
        Ok(())
    }

    /// Removes guardians. Only the owner may do so.
    pub fn remove_guardians(&mut self, ctx: &Context, guardians: Vec<AccountId>) -> (r: Result<
        (),
        Fault,
    >)
        ensures
            done(
                r,
                *old(self),
                *final(self),
                old(self)@.remove_guardians(ctx@, names(guardians@)),
            ),
    {
        self.assert_owner(ctx)?;
        let ghost removed = names(guardians@);
        let mut i: usize = 0;
        while i < guardians.len()
            invariant
                i <= guardians.len(),
                removed == names(guardians@),
                *self == *old(self),
                ctx@.predecessor_account_id == old(self)@.owner_id,
                forall|a: int, b: int| 0 <= a < b < i ==> removed[a] != removed[b],
                forall|a: int| 0 <= a < i ==> self@.guardians.contains(removed[a]),
            decreases guardians.len() - i,
        {
            if !self.guardians.contains(&guardians[i]) {
                proof {
                    let at = i as int;
                    assert(0 <= at < removed.len() && !old(self)@.guardians.contains(removed[at]));
                }
                return Err(Fault::GuardianNotFound);
            }
            if named_before(&guardians, i) {
                let ghost j = choose|j: int| 0 <= j < i && guardians[j]@ == guardians[i as int]@;
                assert(removed[j] == removed[i as int]);
                assert(!removed.no_duplicates());
                return Err(Fault::GuardianNotFound);
            }
            i += 1;
        }
        proof {
            assert(removed.no_duplicates());
            assert(removed.take(0) =~= Seq::<Seq<char>>::empty());
        }
        let mut k: usize = 0;
        while k < guardians.len()
            invariant
                k <= guardians.len(),
                removed == names(guardians@),
                self@ == (ContractView {
                    guardians: without(old(self)@.guardians, removed.take(k as int)),
                    ..old(self)@
                }),
            decreases guardians.len() - k,
        {
            proof {
                assert(removed.take(k + 1).drop_last() =~= removed.take(k as int));
                assert(removed.take(k + 1).last() == removed[k as int]);
            }
            let _ = self.guardians.remove(&guardians[k]);
            k += 1;
        }
        assert(removed.take(guardians.len() as int) =~= removed);
        Ok(())
    }

    /// The guardians, in the order in which they were added.
    pub fn guardians(&self) -> (r: Vec<AccountId>)
        ensures
            names(r@) == self@.guardians,
    {
        self.guardians.list()
    }
}

} // verus!
