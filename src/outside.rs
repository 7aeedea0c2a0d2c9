//! Everything this library takes from other crates, each with the contract
//! it is relied on for: the concurrent maps of dashmap, tokio's bounded
//! channels, random identifiers from uuid, and JSON reading by serde_json.

use crate::model::{CreateShopArgs, NewPrintArgs, PrintResponse};
use crate::registry::Shop;
use dashmap::DashMap;
use tokio::sync::mpsc::{Receiver, Sender};
use vstd::prelude::*;

verus! {

#[verifier::external_type_specification]
#[verifier::external_body]
#[verifier::reject_recursive_types(K)]
#[verifier::reject_recursive_types(V)]
#[verifier::reject_recursive_types(S)]
pub struct ExDashMap<K, V, S>(DashMap<K, V, S>);

#[verifier::external_type_specification]
#[verifier::external_body]
#[verifier::reject_recursive_types(T)]
pub struct ExSender<T>(Sender<T>);

#[verifier::external_type_specification]
#[verifier::external_body]
#[verifier::reject_recursive_types(T)]
pub struct ExReceiver<T>(Receiver<T>);

/// A job on its way to a terminal, with the channel its results go back on.
pub type Job = (NewPrintArgs, Sender<PrintResponse>);

/// The sending end of a shop's job queue.
pub type JobSender = Sender<Job>;

/// The receiving end of a shop's job queue.
pub type JobReceiver = Receiver<Job>;

/// The shops that a shop table holds, by id.
pub uninterp spec fn shop_entries(m: DashMap<u128, Shop>) -> Map<u128, Shop>;

/// The result streams that a pending-job table holds, by job id.
pub uninterp spec fn pending_entries(
    m: DashMap<u128, Receiver<PrintResponse>>,
) -> Map<u128, Receiver<PrintResponse>>;

/// What `serde_json` reads as the unsigned integer member `key` of the JSON
/// object in `s`, if `s` is such an object with such a member.
pub uninterp spec fn json_u64_member_of(s: Seq<char>, key: Seq<char>) -> Option<u64>;

/// Relies on DashMap::new: a new map is empty.
#[verifier::external_body]
pub(crate) fn new_shop_table() -> (table: DashMap<u128, Shop>)
    ensures
        shop_entries(table).dom().is_empty(),
{
    DashMap::new()
}

/// Relies on DashMap::new: a new map is empty.
#[verifier::external_body]
pub(crate) fn new_pending_table() -> (table: DashMap<u128, Receiver<PrintResponse>>)
    ensures
        pending_entries(table).dom().is_empty(),
{
    DashMap::new()
}

/// Relies on DashMap::contains_key: whether the key has an entry.
#[verifier::external_body]
pub(crate) fn shop_table_has(m: &DashMap<u128, Shop>, k: u128) -> (r: bool)
    ensures
        r == shop_entries(*m).contains_key(k),
{
    m.contains_key(&k)
}

/// Relies on DashMap::insert: the key maps to the value afterwards, and no
/// other entry changes.
#[verifier::external_body]
pub(crate) fn shop_table_insert(m: &mut DashMap<u128, Shop>, k: u128, v: Shop)
    ensures
        shop_entries(*final(m)) == shop_entries(*old(m)).insert(k, v),
{
    m.insert(k, v);
}

/// Relies on DashMap::get_mut: where the key has an entry, it is changed in
/// place by `Shop::attach`; the map is otherwise left as it was.
#[verifier::external_body]
pub(crate) fn shop_table_attach(m: &mut DashMap<u128, Shop>, k: u128, tx: JobSender) -> (r: bool)
    ensures
        r == shop_entries(*old(m)).contains_key(k),
        r ==> shop_entries(*final(m)) == shop_entries(*old(m)).insert(
            k,
            shop_entries(*old(m))[k].attached(tx),
        ),
        !r ==> shop_entries(*final(m)) == shop_entries(*old(m)),
{
    m.get_mut(&k).map(|mut s| s.attach(tx)).is_some()
}

/// Relies on DashMap::get: looks the key up and hands out a clone of the
/// entry's job queue sender, if it has one. A clone of a tokio `Sender` is a
/// handle on the same queue, so it stands for the stored sender.
#[verifier::external_body]
pub(crate) fn shop_table_outbound(m: &DashMap<u128, Shop>, k: u128) -> (r: Option<Option<JobSender>>)
    ensures
        r.is_some() == shop_entries(*m).contains_key(k),
        r matches Some(o) ==> o == shop_entries(*m)[k].tx,
{
    m.get(&k).map(|s| s.tx.clone())
}

/// Relies on DashMap::get: looks the key up and hands out copies of the
/// entry's capability sets, made by HashSet::clone, which holds the same
/// members.
#[verifier::external_body]
pub(crate) fn shop_table_capabilities(m: &DashMap<u128, Shop>, k: u128) -> (r: Option<CreateShopArgs>)
    ensures
        r.is_some() == shop_entries(*m).contains_key(k),
        r matches Some(c) ==> c.page_capabilities@ == shop_entries(*m)[k].page_capabilities@
            && c.print_capabilities@ == shop_entries(*m)[k].print_capabilities@,
{
    m.get(&k).map(
        |s|
            CreateShopArgs {
                page_capabilities: s.page_capabilities.clone(),
                print_capabilities: s.print_capabilities.clone(),
            },
    )
}

/// Relies on DashMap::insert: the key maps to the value afterwards, and no
/// other entry changes.
#[verifier::external_body]
pub(crate) fn pending_table_insert(
    m: &mut DashMap<u128, Receiver<PrintResponse>>,
    k: u128,
    v: Receiver<PrintResponse>,
)
    ensures
        pending_entries(*final(m)) == pending_entries(*old(m)).insert(k, v),
{
    m.insert(k, v);
}

/// Relies on DashMap::remove: takes the key's entry out and returns its
/// value, if there was one; no other entry changes.
#[verifier::external_body]
pub(crate) fn pending_table_remove(m: &mut DashMap<u128, Receiver<PrintResponse>>, k: u128) -> (r:
    Option<Receiver<PrintResponse>>)
    ensures
        r == (if pending_entries(*old(m)).contains_key(k) {
            Some(pending_entries(*old(m))[k])
        } else {
            None
        }),
        pending_entries(*final(m)) == pending_entries(*old(m)).remove(k),
{
    m.remove(&k).map(|(_, v)| v)
}

/// Relies on tokio::sync::mpsc::channel: a new bounded queue holding up to
/// `capacity` items, as a connected sender and receiver. It panics on a
/// capacity of zero, and on one above the semaphore's largest number of
/// permits, `usize::MAX >> 3` (the smaller bound is the 32-bit one).
#[verifier::external_body]
pub(crate) fn bounded_channel<T>(capacity: usize) -> (r: (Sender<T>, Receiver<T>))
    requires
        0 < capacity <= 0x1fff_ffff,
{
    tokio::sync::mpsc::channel(capacity)
}

/// Relies on uuid::Uuid::new_v4: a random identifier, as its 128-bit value.
/// Nothing is known of which one comes out.
#[verifier::external_body]
pub(crate) fn random_id() -> (r: u128) {
    uuid::Uuid::new_v4().as_u128()
}

/// Relies on serde_json::from_str reading `text` as a JSON value, on the
/// value's index by `key` (which gives null for a missing member), and on
/// Value::as_u64 for that member. Text that is no JSON (the empty text among
/// it) reads as nothing.
#[verifier::external_body]
pub(crate) fn json_u64_member(text: &str, key: &str) -> (r: Option<u64>)
    ensures
        r == json_u64_member_of(text@, key@),
        text@.len() == 0 ==> r.is_none(),
{
    serde_json::from_str::<serde_json::Value>(text).ok().and_then(|v| v[key].as_u64())
}

} // verus!
