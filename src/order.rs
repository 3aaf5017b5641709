//! Exchange orders: items, structural validation, canonical encoding,
//! signature check and classification into listings and offers.
use vstd::prelude::*;
use crate::address::{copy_bytes, WalletAddress, ADDRESS_LEN};
use crate::signature::{recover_signer, recovery, signer_matches, SignatureError};

verus! {

/// Number of bytes in an order's salt.
pub const SALT_LEN: usize = 32;

/// How long before `now` an order may start and still be accepted, in seconds.
pub const MAX_START_AGE: u64 = 86400;

/// What an order item transfers.
#[derive(Debug, Clone, Copy, PartialEq, Eq, Structural)]
pub enum ItemType {
    NativeCurrency,
    Erc20,
    Erc721,
    Erc1155,
}

/// Whether an order may be partly filled, and whether a zone restricts it.
#[derive(Debug, Clone, Copy, PartialEq, Eq, Structural)]
pub enum OrderType {
    FullOpen,
    PartialOpen,
    FullRestricted,
    PartialRestricted,
}

/// One line of an order: what is given (offer) or must be received
/// (consideration).
#[derive(Debug, Clone, PartialEq, Eq)]
pub struct OrderItem {
    pub item_type: ItemType,
    pub token_address: Option<WalletAddress>,
    pub identifier: Option<u128>,
    pub amount_start: u128,
    pub amount_end: u128,
    pub recipient: WalletAddress,
}

/// The value of an order item.
pub struct ItemView {
    pub item_type: ItemType,
    pub token_address: Option<Seq<u8>>,
    pub identifier: Option<u128>,
    pub amount_start: u128,
    pub amount_end: u128,
    pub recipient: Seq<u8>,
}

pub open spec fn opt_address_view(a: Option<WalletAddress>) -> Option<Seq<u8>> {
    match a {
        Some(x) => Some(x@),
        None => None,
    }
}

impl View for OrderItem {
    type V = ItemView;

    open spec fn view(&self) -> ItemView {
        ItemView {
            item_type: self.item_type,
            token_address: opt_address_view(self.token_address),
            identifier: self.identifier,
            amount_start: self.amount_start,
            amount_end: self.amount_end,
            recipient: self.recipient@,
        }
    }
}

/// A signed exchange order.
#[derive(Debug, Clone, PartialEq, Eq)]
pub struct Order {
    pub offerer: WalletAddress,
    pub zone: Option<WalletAddress>,
    pub offer_items: Vec<OrderItem>,
    pub consideration_items: Vec<OrderItem>,
    pub order_type: OrderType,
    pub start_time: u64,
    pub end_time: u64,
    pub salt: Vec<u8>,
    pub signature: Vec<u8>,
}

/// The value of an order.
pub struct OrderView {
    pub offerer: Seq<u8>,
    pub zone: Option<Seq<u8>>,
    pub offer_items: Seq<ItemView>,
    pub consideration_items: Seq<ItemView>,
    pub order_type: OrderType,
    pub start_time: u64,
    pub end_time: u64,
    pub salt: Seq<u8>,
    pub signature: Seq<u8>,
}

pub open spec fn items_view(items: Seq<OrderItem>) -> Seq<ItemView> {
    items.map_values(|i: OrderItem| i@)
}

impl View for Order {
    type V = OrderView;

    open spec fn view(&self) -> OrderView {
        OrderView {
            offerer: self.offerer@,
            zone: opt_address_view(self.zone),
            offer_items: items_view(self.offer_items@),
            consideration_items: items_view(self.consideration_items@),
            order_type: self.order_type,
            start_time: self.start_time,
            end_time: self.end_time,
            salt: self.salt@,
            signature: self.signature@,
        }
    }
}

/// Why an order was refused.
#[derive(Debug, Clone, Copy, PartialEq, Eq, Structural)]
pub enum OrderError {
    MalformedOrder,
    SignatureMismatch,
}

/// The two sides of the marketplace, and what fits neither.
#[derive(Debug, Clone, Copy, PartialEq, Eq, Structural)]
pub enum OrderKind {
    Listing,
    Offer,
    Unrecognized,
}

pub open spec fn is_asset(t: ItemType) -> bool {
    t == ItemType::Erc721 || t == ItemType::Erc1155
}

pub open spec fn opt_address_ok(a: Option<Seq<u8>>) -> bool {
    a matches Some(x) ==> x.len() == ADDRESS_LEN
}

/// A well-typed item: currency carries no token id, ERC-20 and the token
/// standards name their contract, tokens carry an id, an ERC-721 item moves
/// exactly one token, and other amounts are positive.
pub open spec fn item_well_formed(i: ItemView) -> bool {
    &&& i.recipient.len() == ADDRESS_LEN
    &&& opt_address_ok(i.token_address)
    &&& match i.item_type {
        ItemType::NativeCurrency => i.token_address is None && i.identifier is None && i.amount_start > 0
            && i.amount_end > 0,
        ItemType::Erc20 => i.token_address is Some && i.identifier is None && i.amount_start > 0 && i.amount_end
            > 0,
        ItemType::Erc721 => i.token_address is Some && i.identifier is Some && i.amount_start == 1 && i.amount_end
            == 1,
        ItemType::Erc1155 => i.token_address is Some && i.identifier is Some && i.amount_start > 0
            && i.amount_end > 0,
    }
}

pub open spec fn items_well_formed(s: Seq<ItemView>) -> bool {
    forall|k: int| 0 <= k < s.len() ==> #[trigger] item_well_formed(s[k])
}

pub open spec fn is_restricted(t: OrderType) -> bool {
    t == OrderType::FullRestricted || t == OrderType::PartialRestricted
}

/// The structural rules of an order, checked at time `now`.
pub open spec fn order_well_formed(o: OrderView, now: u64) -> bool {
    &&& o.offerer.len() == ADDRESS_LEN
    &&& opt_address_ok(o.zone)
    &&& (is_restricted(o.order_type) ==> o.zone is Some)
    &&& o.offer_items.len() > 0
    &&& o.consideration_items.len() > 0
    &&& items_well_formed(o.offer_items)
    &&& items_well_formed(o.consideration_items)
    &&& o.end_time > o.start_time
    &&& o.start_time + MAX_START_AGE >= now
    &&& o.salt.len() == SALT_LEN
}

/// Big-endian encoding of `v` in `n` bytes (its `n` lowest bytes).
pub open spec fn be_bytes(v: nat, n: nat) -> Seq<u8>
    decreases n,
{
    if n == 0 {
        Seq::empty()
    } else {
        be_bytes(v / 256, (n - 1) as nat).push((v % 256) as u8)
    }
}

pub open spec fn enc_opt_address(a: Option<Seq<u8>>) -> Seq<u8> {
    match a {
        Some(x) => seq![1u8] + x,
        None => seq![0u8],
    }
}

pub open spec fn enc_opt_u128(v: Option<u128>) -> Seq<u8> {
    match v {
        Some(x) => seq![1u8] + be_bytes(x as nat, 16),
        None => seq![0u8],
    }
}

pub open spec fn item_type_tag(t: ItemType) -> u8 {
    match t {
        ItemType::NativeCurrency => 0,
        ItemType::Erc20 => 1,
        ItemType::Erc721 => 2,
        ItemType::Erc1155 => 3,
    }
}

pub open spec fn order_type_tag(t: OrderType) -> u8 {
    match t {
        OrderType::FullOpen => 0,
        OrderType::PartialOpen => 1,
        OrderType::FullRestricted => 2,
        OrderType::PartialRestricted => 3,
    }
}

/// Canonical encoding of one item.
pub open spec fn enc_item(i: ItemView) -> Seq<u8> {
    seq![item_type_tag(i.item_type)] + enc_opt_address(i.token_address) + enc_opt_u128(i.identifier)
        + be_bytes(i.amount_start as nat, 16) + be_bytes(i.amount_end as nat, 16) + i.recipient
}

/// Canonical encoding of a list of items, in order.
pub open spec fn enc_items(s: Seq<ItemView>) -> Seq<u8>
    decreases s.len(),
{
    if s.len() == 0 {
        Seq::empty()
    } else {
        enc_items(s.drop_last()) + enc_item(s.last())
    }
}

/// The canonical encoding of every field of an order but its signature:
/// the bytes the offerer signs.
pub open spec fn order_message(o: OrderView) -> Seq<u8> {
    o.offerer + enc_opt_address(o.zone) + be_bytes(o.offer_items.len(), 8) + enc_items(o.offer_items)
        + be_bytes(o.consideration_items.len(), 8) + enc_items(o.consideration_items) + seq![
        order_type_tag(o.order_type),
    ] + be_bytes(o.start_time as nat, 8) + be_bytes(o.end_time as nat, 8) + o.salt
}

/// The order's signature is the offerer's signature of its canonical encoding.
pub open spec fn signed_by_offerer(o: OrderView) -> bool {
    recovery(order_message(o), o.signature) == Ok::<Seq<u8>, SignatureError>(o.offerer)
}

/// What validating `o` at time `now` yields.
pub open spec fn validation(o: OrderView, now: u64) -> Result<(), OrderError> {
    if !order_well_formed(o, now) {
        Err(OrderError::MalformedOrder)
    } else if !signed_by_offerer(o) {
        Err(OrderError::SignatureMismatch)
    } else {
        Ok(())
    }
}

/// All items from index `from` on are assets (`asset`) or all are currency.
pub open spec fn all_of_class(s: Seq<ItemView>, from: int, asset: bool) -> bool {
    forall|k: int| from <= k < s.len() ==> is_asset(#[trigger] s[k].item_type) == asset
}

/// A listing gives assets for currency paid first to the offerer (fee
/// items follow); an offer gives currency for an asset delivered first to
/// the offerer, fees again in currency.
pub open spec fn order_kind(o: OrderView) -> OrderKind {
    if o.offer_items.len() > 0 && o.consideration_items.len() > 0 && o.consideration_items[0].recipient
        == o.offerer {
        if all_of_class(o.offer_items, 0, true) && all_of_class(o.consideration_items, 0, false) {
            OrderKind::Listing
        } else if all_of_class(o.offer_items, 0, false) && is_asset(o.consideration_items[0].item_type)
            && all_of_class(o.consideration_items, 1, false) {
            OrderKind::Offer
        } else {
            OrderKind::Unrecognized
        }
    } else {
        OrderKind::Unrecognized
    }
}

fn opt_address_is_ok(a: &Option<WalletAddress>) -> (r: bool)
    ensures
        r == opt_address_ok(opt_address_view(*a)),
{
    match a {
        Some(x) => x.bytes.len() == ADDRESS_LEN,
        None => true,
    }
}

fn copy_opt_address(a: &Option<WalletAddress>) -> (r: Option<WalletAddress>)
    ensures
        opt_address_view(r) == opt_address_view(*a),
{
    match a {
        Some(x) => Some(x.duplicate()),
        None => None,
    }
}

impl OrderItem {
    /// Whether the item is well-typed.
    pub fn is_well_formed(&self) -> (r: bool)
        ensures
            r == item_well_formed(self@),
    {
        if self.recipient.bytes.len() != ADDRESS_LEN || !opt_address_is_ok(&self.token_address) {
            return false;
        }
        match self.item_type {
            ItemType::NativeCurrency => self.token_address.is_none() && self.identifier.is_none()
                && self.amount_start > 0 && self.amount_end > 0,
            ItemType::Erc20 => self.token_address.is_some() && self.identifier.is_none() && self.amount_start
                > 0 && self.amount_end > 0,
            ItemType::Erc721 => self.token_address.is_some() && self.identifier.is_some() && self.amount_start
                == 1 && self.amount_end == 1,
            ItemType::Erc1155 => self.token_address.is_some() && self.identifier.is_some()
                && self.amount_start > 0 && self.amount_end > 0,
        }
    }

    /// Whether the item is an ERC-721 or ERC-1155 token.
    pub fn is_asset(&self) -> (r: bool)
        ensures
            r == is_asset(self.item_type),
    {
        match self.item_type {
            ItemType::Erc721 | ItemType::Erc1155 => true,
            _ => false,
        }
    }

    /// A copy of the item.
    pub fn duplicate(&self) -> (r: OrderItem)
        ensures
            r@ == self@,
    {
        OrderItem {
            item_type: self.item_type,
            token_address: copy_opt_address(&self.token_address),
            identifier: self.identifier,
            amount_start: self.amount_start,
            amount_end: self.amount_end,
            recipient: self.recipient.duplicate(),
        }
    }
}

fn copy_items(items: &Vec<OrderItem>) -> (r: Vec<OrderItem>)
    ensures
        items_view(r@) == items_view(items@),
{
    let mut r: Vec<OrderItem> = Vec::new();
    let mut i: usize = 0;
    while i < items.len()
        invariant
            0 <= i <= items@.len(),
            r@.len() == i,
            forall|k: int| 0 <= k < i ==> #[trigger] r@[k]@ == items@[k]@,
        decreases items@.len() - i,
    {
        r.push(items[i].duplicate());
        i = i + 1;
    }
    assert(items_view(r@) =~= items_view(items@));
    r
}

fn items_are_well_formed(items: &Vec<OrderItem>) -> (r: bool)
    ensures
        r == items_well_formed(items_view(items@)),
{
    let mut i: usize = 0;
    while i < items.len()
        invariant
            0 <= i <= items@.len(),
            forall|k: int| 0 <= k < i ==> #[trigger] item_well_formed(items_view(items@)[k]),
        decreases items@.len() - i,
    {
        if !items[i].is_well_formed() {
            assert(!item_well_formed(items_view(items@)[i as int]));
            return false;
        }
        i = i + 1;
    }
    true
}

fn items_of_class(items: &Vec<OrderItem>, from: usize, asset: bool) -> (r: bool)
    ensures
        r == all_of_class(items_view(items@), from as int, asset),
{
    let mut i: usize = from;
    while i < items.len()
        invariant
            from <= i,
            forall|k: int| from <= k < i && k < items@.len() ==> is_asset(#[trigger] items_view(items@)[k].item_type) == asset,
        decreases items@.len() - i,
    {
        if items[i].is_asset() != asset {
            assert(is_asset(items_view(items@)[i as int].item_type) != asset);
            return false;
        }
        i = i + 1;
    }
    true
}

fn push_all(out: &mut Vec<u8>, b: &Vec<u8>)
    ensures
        final(out)@ == old(out)@ + b@,
{
    let mut c = copy_bytes(b);
    out.append(&mut c);
}

fn push_be(out: &mut Vec<u8>, v: u128, n: usize)
    ensures
        final(out)@ == old(out)@ + be_bytes(v as nat, n as nat),
    decreases n,
{
    if n > 0 {
        push_be(out, v / 256, n - 1);
        out.push((v % 256) as u8);
        assert(be_bytes(v as nat, n as nat) == be_bytes((v / 256) as nat, (n - 1) as nat).push((v % 256) as u8));
    }
}

fn push_opt_address(out: &mut Vec<u8>, a: &Option<WalletAddress>)
    ensures
        final(out)@ == old(out)@ + enc_opt_address(opt_address_view(*a)),
{
    match a {
        Some(x) => {
            out.push(1u8);
            push_all(out, &x.bytes);
        },
        None => {
            out.push(0u8);
        },
    }
    assert(final(out)@ =~= old(out)@ + enc_opt_address(opt_address_view(*a)));
}

fn push_item(out: &mut Vec<u8>, i: &OrderItem)
    ensures
        final(out)@ == old(out)@ + enc_item(i@),
{
    let tag: u8 = match i.item_type {
        ItemType::NativeCurrency => 0,
        ItemType::Erc20 => 1,
        ItemType::Erc721 => 2,
        ItemType::Erc1155 => 3,
    };
    out.push(tag);
    push_opt_address(out, &i.token_address);
    match i.identifier {
        Some(x) => {
            out.push(1u8);
            push_be(out, x, 16);
        },
        None => {
            out.push(0u8);
        },
    }
    push_be(out, i.amount_start, 16);
    push_be(out, i.amount_end, 16);
    push_all(out, &i.recipient.bytes);
    assert(final(out)@ =~= old(out)@ + enc_item(i@));
}

fn push_items(out: &mut Vec<u8>, items: &Vec<OrderItem>)
    ensures
        final(out)@ == old(out)@ + enc_items(items_view(items@)),
{
    let ghost start = out@;
    let ghost v = items_view(items@);
    let mut i: usize = 0;
    while i < items.len()
        invariant
            v == items_view(items@),
            0 <= i <= items@.len(),
            out@ == start + enc_items(v.subrange(0, i as int)),
        decreases items@.len() - i,
    {
        push_item(out, &items[i]);
        assert(v.subrange(0, i + 1).drop_last() == v.subrange(0, i as int));
        assert(out@ =~= start + enc_items(v.subrange(0, i + 1)));
        i = i + 1;
    }
    assert(v.subrange(0, items@.len() as int) == v);
}

impl Order {
    /// A copy of the order.
    pub fn duplicate(&self) -> (r: Order)
        ensures
            r@ == self@,
    {
        Order {
            offerer: self.offerer.duplicate(),
            zone: copy_opt_address(&self.zone),
            offer_items: copy_items(&self.offer_items),
            consideration_items: copy_items(&self.consideration_items),
            order_type: self.order_type,
            start_time: self.start_time,
            end_time: self.end_time,
            salt: copy_bytes(&self.salt),
            signature: copy_bytes(&self.signature),
        }
    }

    /// The canonical bytes the offerer signs: every field but the signature.
    pub fn message(&self) -> (r: Vec<u8>)
        ensures
            r@ == order_message(self@),
    {
        let mut out: Vec<u8> = Vec::new();
        push_all(&mut out, &self.offerer.bytes);
        push_opt_address(&mut out, &self.zone);
        push_be(&mut out, self.offer_items.len() as u128, 8);
        push_items(&mut out, &self.offer_items);
        push_be(&mut out, self.consideration_items.len() as u128, 8);
        push_items(&mut out, &self.consideration_items);
        let tag: u8 = match self.order_type {
            OrderType::FullOpen => 0,
            OrderType::PartialOpen => 1,
            OrderType::FullRestricted => 2,
            OrderType::PartialRestricted => 3,
        };
        out.push(tag);
        push_be(&mut out, self.start_time as u128, 8);
        push_be(&mut out, self.end_time as u128, 8);
        push_all(&mut out, &self.salt);
        assert(out@ =~= order_message(self@));
        out
    }

    /// Whether the order meets the structural rules at time `now`.
    pub fn is_well_formed(&self, now: u64) -> (r: bool)
        ensures
            r == order_well_formed(self@, now),
    {
        self.offerer.bytes.len() == ADDRESS_LEN && opt_address_is_ok(&self.zone) && (match self.order_type {
            OrderType::FullRestricted | OrderType::PartialRestricted => self.zone.is_some(),
            _ => true,
        }) && self.offer_items.len() > 0 && self.consideration_items.len() > 0 && items_are_well_formed(
            &self.offer_items,
        ) && items_are_well_formed(&self.consideration_items) && self.end_time > self.start_time
            && self.start_time as u128 + MAX_START_AGE as u128 >= now as u128 && self.salt.len() == SALT_LEN
    }

    /// Validates the order at time `now`: the structural rules first, then
    /// that the offerer signed its canonical encoding.
    pub fn validate(&self, now: u64) -> (r: Result<(), OrderError>)
        ensures
            r == validation(self@, now),
    {
        if !self.is_well_formed(now) {
            return Err(OrderError::MalformedOrder);
        }
        let message = self.message();
        let recovered = recover_signer(&message, &self.signature);
        if signer_matches(&recovered, &self.offerer) {
            Ok(())
        } else {
            Err(OrderError::SignatureMismatch)
        }
    }

    /// Classifies the order as a listing, an offer, or neither.
    pub fn classify(&self) -> (r: OrderKind)
        ensures
            r == order_kind(self@),
    {
        if self.offer_items.len() > 0 && self.consideration_items.len() > 0
            && self.consideration_items[0].recipient.equals(&self.offerer) {
            if items_of_class(&self.offer_items, 0, true) && items_of_class(&self.consideration_items, 0, false) {
                OrderKind::Listing
            } else if items_of_class(&self.offer_items, 0, false) && self.consideration_items[0].is_asset()
                && items_of_class(&self.consideration_items, 1, false) {
                OrderKind::Offer
            } else {
                OrderKind::Unrecognized
            }
        } else {
            OrderKind::Unrecognized
        }
    }
}

/// Validation accepts exactly the well-formed orders that their offerer
/// signed: an order signed by any other address is refused.
pub proof fn validation_accepts_exactly_offerer_signed(o: OrderView, now: u64)
    ensures
        validation(o, now) is Ok <==> (order_well_formed(o, now) && signed_by_offerer(o)),
        order_well_formed(o, now) && !signed_by_offerer(o) ==> validation(o, now) == Err::<(), OrderError>(
            OrderError::SignatureMismatch,
        ),
{
}

} // verus!
