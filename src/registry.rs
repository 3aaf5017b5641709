//! The set of accepted listings and offers: immutable, signed, unique per
//! offerer and salt.
use vstd::prelude::*;
use crate::address::{bytes_equal, WalletAddress};
use crate::chain::OrderStatus;
use crate::order::{order_kind, signed_by_offerer, validation, Order, OrderError, OrderKind, OrderView};

verus! {

/// Why an order was not registered.
#[derive(Debug, Clone, Copy, PartialEq, Eq, Structural)]
pub enum RegistryError {
    /// The caller is not the order's offerer.
    Unauthorized,
    /// The order failed validation.
    ValidationFailed(OrderError),
    /// The order is neither a listing nor an offer.
    Unrecognized,
    /// An order with the same offerer and salt is already registered.
    Duplicate,
}

/// One registered order: its identifier, its kind and its content.
pub type Entry = (u64, OrderKind, OrderView);

/// Whether some registered order has the offerer and salt of `o`.
pub open spec fn has_duplicate(s: Seq<Entry>, o: OrderView) -> bool {
    exists|k: int| 0 <= k < s.len() && #[trigger] s[k].2.offerer == o.offerer && s[k].2.salt == o.salt
}

/// What registering `o` for `caller` at time `now` yields: the checks in
/// order, then the next identifier.
pub open spec fn create_outcome(s: Seq<Entry>, o: OrderView, caller: Seq<u8>, now: u64) -> Result<u64, RegistryError> {
    if o.offerer != caller {
        Err(RegistryError::Unauthorized)
    } else if validation(o, now) is Err {
        Err(RegistryError::ValidationFailed(validation(o, now)->Err_0))
    } else if order_kind(o) == OrderKind::Unrecognized {
        Err(RegistryError::Unrecognized)
    } else if has_duplicate(s, o) {
        Err(RegistryError::Duplicate)
    } else {
        Ok((s.len() + 1) as u64)
    }
}

/// The registered orders of kind `kind`, newest first.
pub open spec fn newest_of_kind(s: Seq<Entry>, kind: OrderKind) -> Seq<OrderView>
    decreases s.len(),
{
    if s.len() == 0 {
        Seq::empty()
    } else if s.last().1 == kind {
        seq![s.last().2] + newest_of_kind(s.drop_last(), kind)
    } else {
        newest_of_kind(s.drop_last(), kind)
    }
}

pub open spec fn orders_view(v: Seq<Order>) -> Seq<OrderView> {
    v.map_values(|o: Order| o@)
}

/// A registered order with its identifier and kind.
pub struct StoredOrder {
    pub id: u64,
    pub kind: OrderKind,
    pub order: Order,
}

/// The accepted orders, oldest first, each with its last known status.
pub struct OrderRegistry {
    entries: Vec<StoredOrder>,
    statuses: Vec<OrderStatus>,
}

impl View for OrderRegistry {
    type V = Seq<Entry>;

    closed spec fn view(&self) -> Seq<Entry> {
        self.entries@.map_values(|e: StoredOrder| (e.id, e.kind, e.order@))
    }
}

/// Every registered order carries the identifier of its position, is a
/// listing or an offer, is signed by its offerer, and is the only one with
/// its offerer and salt.
pub open spec fn registry_invariant(s: Seq<Entry>) -> bool {
    &&& forall|k: int| 0 <= k < s.len() ==> (#[trigger] s[k]).0 == k + 1
    &&& forall|k: int| 0 <= k < s.len() ==> (#[trigger] s[k]).1 == order_kind(s[k].2)
    &&& forall|k: int| 0 <= k < s.len() ==> (#[trigger] s[k]).1 != OrderKind::Unrecognized
    &&& forall|k: int| 0 <= k < s.len() ==> signed_by_offerer((#[trigger] s[k]).2)
    &&& forall|j: int, k: int|
        0 <= j < k < s.len() ==> !((#[trigger] s[j]).2.offerer == (#[trigger] s[k]).2.offerer && s[j].2.salt
            == s[k].2.salt)
}

impl OrderRegistry {
    /// The status recorded for each order, by position.
    pub closed spec fn statuses(&self) -> Seq<OrderStatus> {
        self.statuses@
    }

    pub open spec fn wf(&self) -> bool {
        &&& registry_invariant(self@)
        &&& self.statuses().len() == self@.len()
    }

    /// An empty registry.
    pub fn new() -> (r: OrderRegistry)
        ensures
            r.wf(),
            r@ == Seq::<Entry>::empty(),
            r.statuses() == Seq::<OrderStatus>::empty(),
    {
        let r = OrderRegistry { entries: Vec::new(), statuses: Vec::new() };
        assert(r@ =~= Seq::<Entry>::empty());
        r
    }

    /// Number of registered orders.
    pub fn len(&self) -> (r: usize)
        ensures
            r == self@.len(),
    {
        self.entries.len()
    }

    fn find_duplicate(&self, o: &Order) -> (r: bool)
        ensures
            r == has_duplicate(self@, o@),
    {
        let mut i: usize = 0;
        while i < self.entries.len()
            invariant
                0 <= i <= self@.len(),
                self@.len() == self.entries@.len(),
                forall|k: int| 0 <= k < i ==> !(#[trigger] self@[k].2.offerer == o@.offerer && self@[k].2.salt == o@.salt),
            decreases self@.len() - i,
        {
            let e = &self.entries[i];
            if e.order.offerer.equals(&o.offerer) && bytes_equal(&e.order.salt, &o.salt) {
                assert(self@[i as int].2.offerer == o@.offerer && self@[i as int].2.salt == o@.salt);
                return true;
            }
            i = i + 1;
        }
        false
    }

    /// Registers `order` on behalf of the authenticated `caller` at time
    /// `now`. The caller must be the offerer, the order must validate and
    /// be a listing or an offer, and no registered order may share its
    /// offerer and salt; the new identifier is returned.
    pub fn create(&mut self, order: Order, caller: &WalletAddress, now: u64) -> (r: Result<u64, RegistryError>)
        requires
            old(self).wf(),
            old(self)@.len() + 1 < u64::MAX,
        ensures
            final(self).wf(),
            r == create_outcome(old(self)@, order@, caller@, now),
            final(self)@ == (if r is Ok {
                old(self)@.push(((old(self)@.len() + 1) as u64, order_kind(order@), order@))
            } else {
                old(self)@
            }),
            final(self).statuses() == (if r is Ok {
                old(self).statuses().push(OrderStatus::Open)
            } else {
                old(self).statuses()
            }),
    {
        if !order.offerer.equals(caller) {
            return Err(RegistryError::Unauthorized);
        }
        match order.validate(now) {
            Err(e) => {
                return Err(RegistryError::ValidationFailed(e));
            },
            Ok(()) => {},
        }
        let kind = order.classify();
        if kind == OrderKind::Unrecognized {
            return Err(RegistryError::Unrecognized);
        }
        if self.find_duplicate(&order) {
            return Err(RegistryError::Duplicate);
        }
        let id: u64 = self.entries.len() as u64 + 1;
        let ghost before = self@;
        self.entries.push(StoredOrder { id, kind, order });
        self.statuses.push(OrderStatus::Open);
        assert(self@ =~= before.push((id, kind, order@)));
        Ok(id)
    }

    /// The status recorded for the order with identifier `id`, if there is one.
    pub fn status_of(&self, id: u64) -> (r: Option<OrderStatus>)
        requires
            self.wf(),
        ensures
            r == (if 1 <= id <= self@.len() {
                Some(self.statuses()[id - 1])
            } else {
                None
            }),
    {
        if 1 <= id && id <= self.statuses.len() as u64 {
            Some(self.statuses[(id - 1) as usize])
        } else {
            None
        }
    }

    /// Records a new status (a fill or a cancellation seen on chain) for the
    /// order with identifier `id`. Order content is never changed, so a
    /// registered order's signature keeps verifying against it.
    pub fn record_status(&mut self, id: u64, status: OrderStatus) -> (r: bool)
        requires
            old(self).wf(),
        ensures
            final(self).wf(),
            r == (1 <= id <= old(self)@.len()),
            final(self)@ == old(self)@,
            final(self).statuses() == (if r {
                old(self).statuses().update(id - 1, status)
            } else {
                old(self).statuses()
            }),
    {
        if 1 <= id && id <= self.statuses.len() as u64 {
            self.statuses.set((id - 1) as usize, status);
            true
        } else {
            false
        }
    }

    fn collect(&self, kind: OrderKind) -> (r: Vec<Order>)
        ensures
            orders_view(r@) == newest_of_kind(self@, kind),
    {
        let mut r: Vec<Order> = Vec::new();
        let mut i: usize = 0;
        while i < self.entries.len()
            invariant
                0 <= i <= self@.len(),
                self@.len() == self.entries@.len(),
                orders_view(r@) == newest_of_kind(self@.subrange(0, i as int), kind),
            decreases self@.len() - i,
        {
            let e = &self.entries[i];
            let ghost pre = r@;
            assert(self@.subrange(0, i + 1).drop_last() == self@.subrange(0, i as int));
            if e.kind == kind {
                r.insert(0, e.order.duplicate());
                assert(orders_view(r@) =~= seq![e.order@] + orders_view(pre));
            }
            i = i + 1;
        }
        assert(self@.subrange(0, self@.len() as int) == self@);
        r
    }

    /// The registered listings, newest first.
    pub fn list_listings(&self) -> (r: Vec<Order>)
        ensures
            orders_view(r@) == newest_of_kind(self@, OrderKind::Listing),
    {
        self.collect(OrderKind::Listing)
    }

    /// The registered offers, newest first.
    pub fn list_offers(&self) -> (r: Vec<Order>)
        ensures
            orders_view(r@) == newest_of_kind(self@, OrderKind::Offer),
    {
        self.collect(OrderKind::Offer)
    }
}

proof fn newest_of_kind_signed(s: Seq<Entry>, kind: OrderKind)
    requires
        forall|k: int| 0 <= k < s.len() ==> signed_by_offerer((#[trigger] s[k]).2),
    ensures
        forall|k: int| 0 <= k < newest_of_kind(s, kind).len() ==> signed_by_offerer(#[trigger] newest_of_kind(s, kind)[k]),
    decreases s.len(),
{
    if s.len() > 0 {
        let t = s.drop_last();
        assert forall|k: int| 0 <= k < t.len() implies signed_by_offerer((#[trigger] t[k]).2) by {
            assert(t[k] == s[k]);
        }
        newest_of_kind_signed(t, kind);
        assert(signed_by_offerer(s[s.len() - 1].2));
        if s.last().1 == kind {
            let n = newest_of_kind(s, kind);
            assert forall|k: int| 0 <= k < n.len() implies signed_by_offerer(#[trigger] n[k]) by {
                if k > 0 {
                    assert(n[k] == newest_of_kind(t, kind)[k - 1]);
                }
            }
        }
    }
}

/// An order registered as a listing or offer reads back first among the
/// orders of its kind, with its content unchanged, and every order read back
/// still carries its offerer's valid signature.
pub proof fn registered_order_reads_back(s: Seq<Entry>, o: OrderView, caller: Seq<u8>, now: u64)
    requires
        registry_invariant(s),
        s.len() + 1 < u64::MAX,
        create_outcome(s, o, caller, now) is Ok,
    ensures
        ({
            let s2 = s.push(((s.len() + 1) as u64, order_kind(o), o));
            &&& newest_of_kind(s2, order_kind(o)).len() > 0
            &&& newest_of_kind(s2, order_kind(o))[0] == o
            &&& forall|k: int| 0 <= k < newest_of_kind(s2, order_kind(o)).len() ==> signed_by_offerer(
                #[trigger] newest_of_kind(s2, order_kind(o))[k],
            )
        }),
{
    let s2 = s.push(((s.len() + 1) as u64, order_kind(o), o));
    assert(s2.drop_last() == s);
    assert forall|k: int| 0 <= k < s2.len() implies signed_by_offerer((#[trigger] s2[k]).2) by {
        if k < s.len() {
            assert(s2[k] == s[k]);
        }
    }
    newest_of_kind_signed(s2, order_kind(o));
}

/// A registered order is never registered a second time: a later order with
/// the same offerer and salt is refused and leaves the registry unchanged.
pub proof fn duplicate_is_refused(s: Seq<Entry>, o: OrderView, p: OrderView, now: u64)
    requires
        s.len() + 2 < u64::MAX,
        create_outcome(s, o, o.offerer, now) is Ok,
        p.offerer == o.offerer,
        p.salt == o.salt,
    ensures
        create_outcome(s.push(((s.len() + 1) as u64, order_kind(o), o)), p, p.offerer, now) is Err,
{
    let s2 = s.push(((s.len() + 1) as u64, order_kind(o), o));
    assert(s2[s.len() as int].2 == o);
    if validation(p, now) is Ok && order_kind(p) != OrderKind::Unrecognized {
        assert(has_duplicate(s2, p));
    }
}

} // verus!
