//! Symbolic names for the destinations of branches, jumps and subroutine calls.
//!
//! Each role keeps its own numbering: the first address named in a role is
//! number 0, the next new one number 1, and so on. Asking again for an address
//! that already has a name in that role returns the same name.

use std::collections::HashMap;
use vstd::prelude::*;
use crate::text::{decimal, push_decimal};

verus! {

broadcast use vstd::std_specs::hash::group_hash_axioms;

/// The three kinds of control-flow destination that receive labels.
#[derive(Clone, Copy, Debug, PartialEq, Eq, Structural)]
pub enum Role {
    BranchTarget,
    JumpTarget,
    Subroutine,
}

/// The fixed name prefix of a role.
pub open spec fn role_prefix(role: Role) -> Seq<char> {
    match role {
        Role::BranchTarget => "branch_target"@,
        Role::JumpTarget => "jump_target"@,
        Role::Subroutine => "subroutine"@,
    }
}

/// The label with sequence number `id` in `role`: `{prefix}_{id}`.
pub open spec fn label_text(role: Role, id: nat) -> Seq<char> {
    role_prefix(role) + "_"@ + decimal(id)
}

/// The allocation order after `address` has been asked for: a new address is
/// appended, a known one changes nothing.
pub open spec fn with_address(order: Seq<usize>, address: usize) -> Seq<usize> {
    if order.contains(address) {
        order
    } else {
        order.push(address)
    }
}

/// The label held by `address`, given the allocation order of its role.
pub open spec fn label_in(role: Role, order: Seq<usize>, address: usize) -> Seq<char> {
    label_text(role, order.index_of(address) as nat)
}

/// The prefix of a role, as text.
fn prefix_str(role: Role) -> (r: &'static str)
    ensures
        r@ == role_prefix(role),
{
    match role {
        Role::BranchTarget => "branch_target",
        Role::JumpTarget => "jump_target",
        Role::Subroutine => "subroutine",
    }
}

/// The labels of one role, numbered in the order their addresses were first
/// asked for.
pub struct LabelTable {
    role: Role,
    labels: HashMap<usize, String>,
    order: Ghost<Seq<usize>>,
}

impl LabelTable {
    /// The role whose labels this table holds.
    pub closed spec fn role(&self) -> Role {
        self.role
    }

    /// The labelled addresses, in the order in which they were first asked for.
    pub closed spec fn order(&self) -> Seq<usize> {
        self.order@
    }

    /// Each labelled address appears once in the order and holds the label
    /// numbered by its position.
    pub closed spec fn wf(&self) -> bool {
        &&& self.order@.no_duplicates()
        &&& self.labels@.dom() == self.order@.to_set()
        &&& forall|i: int|
            0 <= i < self.order@.len() ==> #[trigger] self.labels@[self.order@[i]]@ == label_text(
                self.role,
                i as nat,
            )
    }

    /// An empty table for `role`.
    pub fn new(role: Role) -> (r: Self)
        ensures
            r.wf(),
            r.role() == role,
            r.order() == Seq::<usize>::empty(),
    {
        let r = LabelTable { role, labels: HashMap::new(), order: Ghost(Seq::empty()) };
        assert(r.labels@.dom() =~= r.order@.to_set());
        r
    }

    /// A labelled address holds the label of its position in the order.
    proof fn lemma_label_of_member(&self, address: usize)
        requires
            self.wf(),
            self.order@.contains(address),
        ensures
            self.labels@.contains_key(address),
            self.labels@[address]@ == label_in(self.role, self.order@, address),
    {
        let i = self.order@.index_of(address);
        assert(self.order@[i] == address);
        assert(self.order@.to_set().contains(address));
    }

    /// The label of `address`, allocating the next sequence number of the role
    /// if the address has none yet.
    pub fn request(&mut self, address: usize) -> (label: String)
        requires
            old(self).wf(),
        ensures
            final(self).wf(),
            final(self).role() == old(self).role(),
            final(self).order() == with_address(old(self).order(), address),
            label@ == label_in(final(self).role(), final(self).order(), address),
    {
        if let Some(existing) = self.labels.get(&address) {
            proof {
                assert(self.order@.to_set().contains(address));
                self.lemma_label_of_member(address);
            }
            return existing.clone();
        }
        proof {
            if self.order@.contains(address) {
                assert(self.order@.to_set().contains(address));
            }
            self.order@.unique_seq_to_set();
        }
        // Labels are never removed, so the number already given out is the
        // next sequence number.
        let id = self.labels.len();
        let mut label = String::new();
        label.append(prefix_str(self.role));
        label.append("_");
        push_decimal(&mut label, id);
        assert(label@ == label_text(self.role, id as nat));
        let ghost old_order = self.order@;
        self.labels.insert(address, label.clone());
        self.order = Ghost(self.order@.push(address));
        proof {
            let order = self.order@;
            assert(order.no_duplicates());
            assert forall|a: usize| #[trigger] order.contains(a) <==> old_order.contains(a) || a
                == address by {
                if old_order.contains(a) {
                    let j = old_order.index_of(a);
                    assert(order[j] == a);
                }
                if a == address {
                    assert(order[old_order.len() as int] == a);
                }
            }
            assert(self.labels@.dom() =~= order.to_set());
            assert forall|i: int| 0 <= i < order.len() implies #[trigger] self.labels@[order[i]]@
                == label_text(self.role, i as nat) by {
                if i < old_order.len() {
                    assert(old_order[i] != address);
                }
            }
            assert(order[old_order.len() as int] == address);
            self.lemma_label_of_member(address);
        }
        label
    }

    /// The label of `address`, if it has one; allocates nothing.
    pub fn lookup(&self, address: usize) -> (r: Option<&String>)
        requires
            self.wf(),
        ensures
            r is Some <==> self.order().contains(address),
            r matches Some(l) ==> l@ == label_in(self.role(), self.order(), address),
    {
        let r = self.labels.get(&address);
        proof {
            if self.order@.contains(address) {
                self.lemma_label_of_member(address);
            } else {
                assert(!self.order@.to_set().contains(address));
            }
        }
        r
    }
}

/// The three label namespaces of a disassembly session.
pub struct Labeller {
    branch_targets: LabelTable,
    jump_targets: LabelTable,
    subroutines: LabelTable,
}

impl Labeller {
    /// The addresses labelled in `role`, in the order of their first request.
    pub closed spec fn order(&self, role: Role) -> Seq<usize> {
        match role {
            Role::BranchTarget => self.branch_targets.order(),
            Role::JumpTarget => self.jump_targets.order(),
            Role::Subroutine => self.subroutines.order(),
        }
    }

    /// Each table is well formed and holds the role it is named for.
    pub closed spec fn wf(&self) -> bool {
        &&& self.branch_targets.wf()
        &&& self.jump_targets.wf()
        &&& self.subroutines.wf()
        &&& self.branch_targets.role() == Role::BranchTarget
        &&& self.jump_targets.role() == Role::JumpTarget
        &&& self.subroutines.role() == Role::Subroutine
    }

    /// Each role's allocation order lists every address once.
    pub proof fn lemma_orders_unique(&self)
        requires
            self.wf(),
        ensures
            forall|role: Role| #[trigger] self.order(role).no_duplicates(),
    {
    }

    /// A labeller with no labels in any role.
    pub fn new() -> (r: Self)
        ensures
            r.wf(),
            forall|role: Role| #[trigger] r.order(role) == Seq::<usize>::empty(),
    {
        Labeller {
            branch_targets: LabelTable::new(Role::BranchTarget),
            jump_targets: LabelTable::new(Role::JumpTarget),
            subroutines: LabelTable::new(Role::Subroutine),
        }
    }

    /// The label of `address` in `role`, allocating the role's next sequence
    /// number on the first request for that address. Other roles are untouched.
    pub fn request_label(&mut self, role: Role, address: usize) -> (label: String)
        requires
            old(self).wf(),
        ensures
            final(self).wf(),
            final(self).order(role) == with_address(old(self).order(role), address),
            forall|other: Role|
                other != role ==> #[trigger] final(self).order(other) == old(self).order(other),
            label@ == label_in(role, final(self).order(role), address),
    {
        match role {
            Role::BranchTarget => self.branch_targets.request(address),
            Role::JumpTarget => self.jump_targets.request(address),
            Role::Subroutine => self.subroutines.request(address),
        }
    }

    /// The label of `address` in `role`, if one was allocated; allocates nothing.
    pub fn lookup(&self, role: Role, address: usize) -> (r: Option<&String>)
        requires
            self.wf(),
        ensures
            r is Some <==> self.order(role).contains(address),
            r matches Some(l) ==> l@ == label_in(role, self.order(role), address),
    {
        match role {
            Role::BranchTarget => self.branch_targets.lookup(address),
            Role::JumpTarget => self.jump_targets.lookup(address),
            Role::Subroutine => self.subroutines.lookup(address),
        }
    }

    /// The branch-target label of `address`, allocated on first request.
    pub fn request_label_for_branch_target(&mut self, address: usize) -> (label: String)
        requires
            old(self).wf(),
        ensures
            final(self).wf(),
            final(self).order(Role::BranchTarget) == with_address(
                old(self).order(Role::BranchTarget),
                address,
            ),
            forall|other: Role|
                other != Role::BranchTarget ==> #[trigger] final(self).order(other) == old(
                    self,
                ).order(other),
            label@ == label_in(Role::BranchTarget, final(self).order(Role::BranchTarget), address),
    {
        self.request_label(Role::BranchTarget, address)
    }

    /// The jump-target label of `address`, allocated on first request.
    pub fn request_label_for_jump_target(&mut self, address: usize) -> (label: String)
        requires
            old(self).wf(),
        ensures
            final(self).wf(),
            final(self).order(Role::JumpTarget) == with_address(
                old(self).order(Role::JumpTarget),
                address,
            ),
            forall|other: Role|
                other != Role::JumpTarget ==> #[trigger] final(self).order(other) == old(
                    self,
                ).order(other),
            label@ == label_in(Role::JumpTarget, final(self).order(Role::JumpTarget), address),
    {
        self.request_label(Role::JumpTarget, address)
    }

    /// The subroutine label of `address`, allocated on first request.
    pub fn request_label_for_subroutine(&mut self, address: usize) -> (label: String)
        requires
            old(self).wf(),
        ensures
            final(self).wf(),
            final(self).order(Role::Subroutine) == with_address(
                old(self).order(Role::Subroutine),
                address,
            ),
            forall|other: Role|
                other != Role::Subroutine ==> #[trigger] final(self).order(other) == old(
                    self,
                ).order(other),
            label@ == label_in(Role::Subroutine, final(self).order(Role::Subroutine), address),
    {
        self.request_label(Role::Subroutine, address)
    }

    /// The branch-target label of `address`, if any.
    pub fn get_branch_target_label(&self, address: usize) -> (r: Option<&String>)
        requires
            self.wf(),
        ensures
            r is Some <==> self.order(Role::BranchTarget).contains(address),
            r matches Some(l) ==> l@ == label_in(
                Role::BranchTarget,
                self.order(Role::BranchTarget),
                address,
            ),
    {
        self.lookup(Role::BranchTarget, address)
    }

    /// The jump-target label of `address`, if any.
    pub fn get_jump_target_label(&self, address: usize) -> (r: Option<&String>)
        requires
            self.wf(),
        ensures
            r is Some <==> self.order(Role::JumpTarget).contains(address),
            r matches Some(l) ==> l@ == label_in(
                Role::JumpTarget,
                self.order(Role::JumpTarget),
                address,
            ),
    {
        self.lookup(Role::JumpTarget, address)
    }

    /// The subroutine label of `address`, if any.
    pub fn get_subroutine_label(&self, address: usize) -> (r: Option<&String>)
        requires
            self.wf(),
        ensures
            r is Some <==> self.order(Role::Subroutine).contains(address),
            r matches Some(l) ==> l@ == label_in(
                Role::Subroutine,
                self.order(Role::Subroutine),
                address,
            ),
    {
        self.lookup(Role::Subroutine, address)
    }
}

/// Asking twice for the same address in the same role gives the same label
/// both times, and the second request allocates nothing.
pub proof fn lemma_request_idempotent(role: Role, order: Seq<usize>, address: usize)
    ensures
        with_address(with_address(order, address), address) == with_address(order, address),
        label_in(role, with_address(with_address(order, address), address), address)
            == label_in(role, with_address(order, address), address),
{
    if !order.contains(address) {
        assert(order.push(address)[order.len() as int] == address);
    }
}

/// Allocating more labels in a role leaves the labels already given unchanged.
pub proof fn lemma_label_stable(role: Role, order: Seq<usize>, grown: Seq<usize>, address: usize)
    requires
        order.is_prefix_of(grown),
        grown.no_duplicates(),
        order.contains(address),
    ensures
        label_in(role, order, address) == label_in(role, grown, address),
{
    let i = order.index_of(address);
    let j = grown.index_of(address);
    assert(order[i] == address);
    assert(grown[i] == order[i]);
    assert(grown[j] == address);
}

/// After a request the address has a label in that role.
pub proof fn lemma_with_address_contains(order: Seq<usize>, address: usize)
    ensures
        with_address(order, address).contains(address),
{
    if !order.contains(address) {
        assert(order.push(address)[order.len() as int] == address);
    }
}

/// Labels of different roles never coincide, whatever their sequence numbers.
pub proof fn lemma_roles_have_distinct_labels(r1: Role, r2: Role, id1: nat, id2: nat)
    requires
        r1 != r2,
    ensures
        label_text(r1, id1) != label_text(r2, id2),
{
    reveal_strlit("branch_target");
    reveal_strlit("jump_target");
    reveal_strlit("subroutine");
    assert(label_text(r1, id1)[0] == role_prefix(r1)[0]);
    assert(label_text(r2, id2)[0] == role_prefix(r2)[0]);
}

/// The n-th distinct address asked for in a role (counting from zero) gets
/// sequence number n; an address asked for before keeps its number.
pub proof fn lemma_sequential_numbering(role: Role, order: Seq<usize>, address: usize)
    requires
        order.no_duplicates(),
    ensures
        !order.contains(address) ==> label_in(role, with_address(order, address), address)
            == label_text(role, order.len()),
        forall|i: int|
            0 <= i < order.len() && #[trigger] order[i] == address ==> with_address(order, address)
                == order && label_in(role, order, address) == label_text(role, i as nat),
{
    if !order.contains(address) {
        let o = order.push(address);
        assert(o[order.len() as int] == address);
        let j = o.index_of(address);
        if j < order.len() {
            assert(order[j] == address);
        }
    } else {
        let j = order.index_of(address);
        assert(order[j] == address);
    }
}

/// The allocation order of `role` after the requests `requests`, made in turn
/// on a labeller with no labels.
pub open spec fn order_of_requests(requests: Seq<(Role, usize)>, role: Role) -> Seq<usize>
    decreases requests.len(),
{
    if requests.len() == 0 {
        Seq::empty()
    } else {
        let earlier = order_of_requests(requests.drop_last(), role);
        if requests.last().0 == role {
            with_address(earlier, requests.last().1)
        } else {
            earlier
        }
    }
}

/// The numbering of a role depends only on the requests made in that role:
/// however requests in other roles are interleaved with them, they leave it
/// as it is.
pub proof fn lemma_numbering_ignores_other_roles(requests: Seq<(Role, usize)>, role: Role)
    ensures
        order_of_requests(requests, role) == order_of_requests(
            requests.filter(|q: (Role, usize)| q.0 == role),
            role,
        ),
    decreases requests.len(),
{
    reveal(Seq::filter);
    if requests.len() > 0 {
        let pred = |q: (Role, usize)| q.0 == role;
        lemma_numbering_ignores_other_roles(requests.drop_last(), role);
        let kept = requests.filter(pred);
        if requests.last().0 == role {
            assert(kept.drop_last() == requests.drop_last().filter(pred));
            assert(kept.last() == requests.last());
        } else {
            assert(kept == requests.drop_last().filter(pred));
        }
    }
}

} // verus!
