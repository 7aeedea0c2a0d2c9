use crate::model::{BrokerError, CreateShopArgs, NewPrintArgs, PrintResponse, PrintType, PageType};
use crate::outside::{
    bounded_channel, new_pending_table, new_shop_table, pending_entries,
    pending_table_insert, pending_table_remove, random_id, shop_entries, shop_table_attach,
    shop_table_capabilities, shop_table_has, shop_table_insert, shop_table_outbound, Job, JobReceiver, JobSender,
};
use dashmap::DashMap;
use std::collections::HashSet;
use tokio::sync::mpsc::Receiver;
use vstd::prelude::*;

verus! {

/// Capacity of a shop's queue of jobs waiting for its terminal.
pub const SHOP_QUEUE_CAPACITY: usize = 100;

/// Capacity of a job's queue of negotiation results.
pub const RESULT_QUEUE_CAPACITY: usize = 10;

/// A registered shop: what it can print, and the queue to its connected
/// terminal, if one is connected.
#[derive(Debug)]
pub struct Shop {
    pub page_capabilities: HashSet<PageType>,
    pub print_capabilities: HashSet<PrintType>,
    pub tx: Option<JobSender>,
}

impl Shop {
    /// A shop with the given capabilities and no terminal.
    pub open spec fn of_args(args: CreateShopArgs) -> Shop {
        Shop {
            page_capabilities: args.page_capabilities,
            print_capabilities: args.print_capabilities,
            tx: None,
        }
    }

    /// This shop with `tx` as the queue to its terminal.
    pub open spec fn attached(self, tx: JobSender) -> Shop {
        Shop { tx: Some(tx), ..self }
    }

    /// Installs `tx` as the queue to this shop's terminal, replacing any
    /// earlier one.
    pub fn attach(&mut self, tx: JobSender)
        ensures
            *final(self) == old(self).attached(tx),
    {
        self.tx = Some(tx);
    }
}

/// What a successful submission hands back: the job's id, and the job to be
/// sent on the shop's queue.
pub struct Submission {
    pub job_id: u128,
    pub outbound: JobSender,
    pub job: Job,
}

/// The registry: every shop by id, the result stream of every job that no
/// relay holds at the moment, by job id, and every job id ever handed out,
/// so that none is handed out twice. Shops are never removed, so the shop
/// table itself keeps shop ids from being handed out twice; shop ids are
/// even and job ids odd, so the two kinds never meet.
///
/// Every operation takes the registry exclusively (`&mut self`), which is
/// what lets its contracts say how the tables change. A server that shares
/// it between connections therefore serialises these short operations
/// behind one lock; the per-key locking of the tables goes unused.
#[derive(Debug)]
pub struct AppState {
    print_jobs: DashMap<u128, Receiver<PrintResponse>>,
    shops: DashMap<u128, Shop>,
    issued_jobs: HashSet<u128>,
}

/// Whether `id` is of the kind handed out to shops.
pub open spec fn is_shop_id(id: u128) -> bool {
    id % 2 == 0
}

/// Whether `id` is of the kind handed out to jobs.
pub open spec fn is_job_id(id: u128) -> bool {
    id % 2 == 1
}

/// How a submission to shop `id` goes, as far as the shops decide it.
pub open spec fn submit_check(shops: Map<u128, Shop>, id: u128) -> Result<(), BrokerError> {
    if !shops.contains_key(id) {
        Err(BrokerError::ShopNotFound)
    } else if shops[id].tx.is_none() {
        Err(BrokerError::ShopNotConnected)
    } else {
        Ok(())
    }
}

/// The shop registered under `id`, if any.
pub open spec fn lookup(shops: Map<u128, Shop>, id: u128) -> Option<Shop> {
    if shops.contains_key(id) {
        Some(shops[id])
    } else {
        None
    }
}

/// What claiming the result stream of job `id` gives.
pub open spec fn claim_outcome(pending: Map<u128, Receiver<PrintResponse>>, id: u128) -> Result<
    Receiver<PrintResponse>,
    BrokerError,
> {
    if pending.contains_key(id) {
        Ok(pending[id])
    } else {
        Err(BrokerError::JobNotFound)
    }
}

/// A shop just registered with `args` is found under its id with exactly
/// the capabilities of `args`, and with no terminal.
pub proof fn lemma_created_shop_found(shops: Map<u128, Shop>, id: u128, args: CreateShopArgs)
    ensures
        lookup(shops.insert(id, Shop::of_args(args)), id) matches Some(s) && s.page_capabilities
            == args.page_capabilities && s.print_capabilities == args.print_capabilities
            && s.tx is None,
{
}

/// A submission to a shop id that was never registered fails with
/// `ShopNotFound`; one to a shop just registered, before any terminal
/// connects, fails with `ShopNotConnected`.
pub proof fn lemma_submit_needs_connected_shop(
    shops: Map<u128, Shop>,
    id: u128,
    args: CreateShopArgs,
)
    ensures
        !shops.contains_key(id) ==> submit_check(shops, id) == Err::<(), BrokerError>(
            BrokerError::ShopNotFound,
        ),
        submit_check(shops.insert(id, Shop::of_args(args)), id) == Err::<(), BrokerError>(
            BrokerError::ShopNotConnected,
        ),
{
}

/// Once the result stream of job `id` is claimed, claiming it again fails
/// with `JobNotFound`; once the claimant puts it back, the next claim gets
/// that same stream.
pub proof fn lemma_claim_once(
    pending: Map<u128, Receiver<PrintResponse>>,
    id: u128,
    rx: Receiver<PrintResponse>,
)
    requires
        claim_outcome(pending, id) == Ok::<Receiver<PrintResponse>, BrokerError>(rx),
    ensures
        claim_outcome(pending.remove(id), id) == Err::<Receiver<PrintResponse>, BrokerError>(
            BrokerError::JobNotFound,
        ),
        claim_outcome(pending.remove(id).insert(id, rx), id) == Ok::<
            Receiver<PrintResponse>,
            BrokerError,
        >(rx),
{
}

impl AppState {
    /// The shops, by id.
    pub closed spec fn shops(&self) -> Map<u128, Shop> {
        shop_entries(self.shops)
    }

    /// The result streams waiting to be claimed, by job id.
    pub closed spec fn pending(&self) -> Map<u128, Receiver<PrintResponse>> {
        pending_entries(self.print_jobs)
    }

    /// Every job id handed out so far.
    pub closed spec fn issued_jobs(&self) -> Set<u128> {
        self.issued_jobs@
    }

    /// The registry is well formed: shops are held under shop ids, only job
    /// ids are handed out to jobs, and every pending stream is held under a
    /// job id that was handed out.
    pub open spec fn wf(&self) -> bool {
        &&& forall|k: u128| #[trigger] self.shops().contains_key(k) ==> is_shop_id(k)
        &&& forall|k: u128| #[trigger] self.issued_jobs().contains(k) ==> is_job_id(k)
        &&& forall|k: u128| #[trigger] self.pending().contains_key(k) ==> self.issued_jobs().contains(k)
    }

    /// An empty registry.
    pub fn new() -> (r: AppState)
        ensures
            r.wf(),
            r.shops() == Map::<u128, Shop>::empty(),
            r.pending() == Map::<u128, Receiver<PrintResponse>>::empty(),
            r.issued_jobs() == Set::<u128>::empty(),
    {
        let r = AppState {
            print_jobs: new_pending_table(),
            shops: new_shop_table(),
            issued_jobs: HashSet::new(),
        };
        assert(r.shops() =~= Map::<u128, Shop>::empty());
        assert(r.pending() =~= Map::<u128, Receiver<PrintResponse>>::empty());
        r
    }

    /// Registers a shop with the given capabilities under `id`, with no
    /// terminal. Fails, changing nothing, where `id` is taken or is not of
    /// the shop kind.
    pub fn insert_shop(&mut self, id: u128, args: CreateShopArgs) -> (r: bool)
        requires
            old(self).wf(),
        ensures
            final(self).wf(),
            r == (is_shop_id(id) && !old(self).shops().contains_key(id)),
            r ==> final(self).shops() == old(self).shops().insert(id, Shop::of_args(args)),
            !r ==> final(self).shops() == old(self).shops(),
            final(self).pending() == old(self).pending(),
            final(self).issued_jobs() == old(self).issued_jobs(),
    {
        if id % 2 != 0 || shop_table_has(&self.shops, id) {
            return false;
        }
        let shop = Shop {
            page_capabilities: args.page_capabilities,
            print_capabilities: args.print_capabilities,
            tx: None,
        };
        shop_table_insert(&mut self.shops, id, shop);
        proof {
            assert forall|k: u128| #[trigger] self.shops().contains_key(k) implies is_shop_id(k) by {
                if k != id {
                    assert(old(self).shops().contains_key(k));
                }
            }
            assert forall|k: u128| #[trigger] self.issued_jobs().contains(k) implies is_job_id(k) by {
                assert(old(self).issued_jobs().contains(k));
            }
            assert forall|k: u128| #[trigger] self.pending().contains_key(k) implies self.issued_jobs().contains(k) by {
                assert(old(self).pending().contains_key(k));
            }
        }
        true
    }

    /// Registers a shop under a freshly drawn random shop id and returns the
    /// id. `None` only where the drawn id is already taken; nothing then
    /// changes.
    pub fn create_shop(&mut self, args: CreateShopArgs) -> (r: Option<u128>)
        requires
            old(self).wf(),
        ensures
            final(self).wf(),
            r matches Some(id) ==> is_shop_id(id) && !old(self).shops().contains_key(id)
                && !old(self).issued_jobs().contains(id) && final(self).shops() == old(
                self,
            ).shops().insert(id, Shop::of_args(args)),
            r matches Some(id) ==> lookup(final(self).shops(), id) matches Some(s)
                && s.page_capabilities == args.page_capabilities && s.print_capabilities
                == args.print_capabilities && s.tx is None,
            r is None ==> final(self).shops() == old(self).shops(),
            old(self).shops().dom().is_empty() ==> r is Some,
            final(self).pending() == old(self).pending(),
            final(self).issued_jobs() == old(self).issued_jobs(),
    {
        let drawn = random_id();
        let id = drawn - drawn % 2;
        let ghost a = args;
        if self.insert_shop(id, args) {
            proof {
                lemma_created_shop_found(old(self).shops(), id, a);
            }
            Some(id)
        } else {
            None
        }
    }

    /// The capabilities shop `id` registered with, or `ShopNotFound`.
    pub fn capabilities(&self, id: u128) -> (r: Result<CreateShopArgs, BrokerError>)
        ensures
            r is Err <==> lookup(self.shops(), id) is None,
            r is Err ==> r == Err::<CreateShopArgs, BrokerError>(BrokerError::ShopNotFound),
            r matches Ok(c) ==> c.page_capabilities@ == self.shops()[id].page_capabilities@
                && c.print_capabilities@ == self.shops()[id].print_capabilities@,
    {
        match shop_table_capabilities(&self.shops, id) {
            Some(c) => Ok(c),
            None => Err(BrokerError::ShopNotFound),
        }
    }

    /// Connects a terminal to shop `id`: installs `tx`, the sending end of the
    /// terminal's job queue, in the shop, superseding any earlier terminal,
    /// so that every later submission to the shop goes to that queue. Fails
    /// with `ShopNotFound`, changing nothing, where no such shop exists.
    pub fn connect_shop(&mut self, id: u128, tx: JobSender) -> (r: Result<(), BrokerError>)
        requires
            old(self).wf(),
        ensures
            final(self).wf(),
            old(self).shops().contains_key(id) <==> r is Ok,
            r is Err ==> r == Err::<(), BrokerError>(BrokerError::ShopNotFound)
                && final(self).shops() == old(self).shops(),
            r is Ok ==> final(self).shops() == old(self).shops().insert(
                id,
                old(self).shops()[id].attached(tx),
            ),
            final(self).pending() == old(self).pending(),
            final(self).issued_jobs() == old(self).issued_jobs(),
    {
        let attached = shop_table_attach(&mut self.shops, id, tx);
        proof {
            assert forall|k: u128| #[trigger] self.shops().contains_key(k) implies is_shop_id(k) by {
                assert(old(self).shops().contains_key(k));
            }
            assert forall|k: u128| #[trigger] self.issued_jobs().contains(k) implies is_job_id(k) by {
                assert(old(self).issued_jobs().contains(k));
            }
            assert forall|k: u128| #[trigger] self.pending().contains_key(k) implies self.issued_jobs().contains(k) by {
                assert(old(self).pending().contains_key(k));
            }
        }
        if attached {
            Ok(())
        } else {
            Err(BrokerError::ShopNotFound)
        }
    }

    /// Submits `args` to shop `id` under `job_id`. Fails with `ShopNotFound`
    /// where no such shop exists, with `ShopNotConnected` where it has no
    /// terminal, and with `IdCollision` where `job_id` is not of the job kind
    /// or was handed out before; nothing changes then. Otherwise the job's
    /// result queue is made, its receiving end is held pending under
    /// `job_id`, and the job is handed back with the shop's queue to be sent
    /// on.
    pub fn submit_with_id(&mut self, id: u128, job_id: u128, args: NewPrintArgs) -> (r: Result<
        Submission,
        BrokerError,
    >)
        requires
            old(self).wf(),
        ensures
            final(self).wf(),
            final(self).shops() == old(self).shops(),
            submit_check(old(self).shops(), id) matches Err(e) ==> r == Err::<Submission, BrokerError>(e),
            submit_check(old(self).shops(), id) is Ok && (!is_job_id(job_id) || old(
                self,
            ).issued_jobs().contains(job_id)) ==> r == Err::<Submission, BrokerError>(
                BrokerError::IdCollision,
            ),
            r is Err ==> final(self).pending() == old(self).pending() && final(self).issued_jobs()
                == old(self).issued_jobs(),
            submit_check(old(self).shops(), id) is Ok && is_job_id(job_id) && !old(
                self,
            ).issued_jobs().contains(job_id) ==> r is Ok,
            r is Ok ==> final(self).issued_jobs() == old(self).issued_jobs().insert(job_id),
            r matches Ok(s) ==> s.job_id == job_id && s.job.0 == args && Some(s.outbound) == old(
                self,
            ).shops()[id].tx && !old(self).pending().contains_key(job_id)
                && final(self).pending().dom() == old(self).pending().dom().insert(job_id)
                && forall|k: u128| k != job_id && #[trigger] old(self).pending().contains_key(k)
                    ==> final(self).pending()[k] == old(self).pending()[k],
    {
        let outbound = match shop_table_outbound(&self.shops, id) {
            None => {
                return Err(BrokerError::ShopNotFound);
            },
            Some(None) => {
                return Err(BrokerError::ShopNotConnected);
            },
            Some(Some(tx)) => tx,
        };
        if job_id % 2 != 1 || self.issued_jobs.contains(&job_id) {
            return Err(BrokerError::IdCollision);
        }
        self.issued_jobs.insert(job_id);
        let (resp_tx, resp_rx) = bounded_channel(RESULT_QUEUE_CAPACITY);
        pending_table_insert(&mut self.print_jobs, job_id, resp_rx);
        proof {
            assert forall|k: u128| #[trigger] self.issued_jobs().contains(k) implies is_job_id(k) by {
                if k != job_id {
                    assert(old(self).issued_jobs().contains(k));
                }
            }
            assert forall|k: u128| #[trigger] self.pending().contains_key(k) implies self.issued_jobs().contains(k) by {
                if k != job_id {
                    assert(old(self).pending().contains_key(k));
                }
            }
        }
        Ok(Submission { job_id, outbound, job: (args, resp_tx) })
    }

    /// Submits `args` to shop `id` under a freshly drawn random job id, as
    /// `submit_with_id` does.
    pub fn submit(&mut self, id: u128, args: NewPrintArgs) -> (r: Result<Submission, BrokerError>)
        requires
            old(self).wf(),
        ensures
            final(self).wf(),
            final(self).shops() == old(self).shops(),
            submit_check(old(self).shops(), id) matches Err(e) ==> r == Err::<Submission, BrokerError>(e),
            submit_check(old(self).shops(), id) is Ok && r is Err ==> r == Err::<
                Submission,
                BrokerError,
            >(BrokerError::IdCollision),
            submit_check(old(self).shops(), id) is Ok && old(self).issued_jobs().is_empty() ==> r is Ok,
            r is Err ==> final(self).pending() == old(self).pending() && final(self).issued_jobs()
                == old(self).issued_jobs(),
            r matches Ok(s) ==> is_job_id(s.job_id) && !old(self).shops().contains_key(s.job_id)
                && !old(self).issued_jobs().contains(s.job_id) && final(self).issued_jobs()
                == old(self).issued_jobs().insert(s.job_id) && s.job.0 == args && Some(s.outbound)
                == old(self).shops()[id].tx && !old(self).pending().contains_key(s.job_id)
                && final(self).pending().dom() == old(self).pending().dom().insert(s.job_id)
                && forall|k: u128| k != s.job_id && #[trigger] old(self).pending().contains_key(k)
                    ==> final(self).pending()[k] == old(self).pending()[k],
    {
        let drawn = random_id();
        let job_id = drawn - drawn % 2 + 1;
        self.submit_with_id(id, job_id, args)
    }

    /// Takes the result stream of job `id` out of the registry, so that one
    /// relay alone reads it. Fails with `JobNotFound` where none is held.
    pub fn claim_job(&mut self, id: u128) -> (r: Result<Receiver<PrintResponse>, BrokerError>)
        requires
            old(self).wf(),
        ensures
            final(self).wf(),
            r == claim_outcome(old(self).pending(), id),
            final(self).pending() == old(self).pending().remove(id),
            final(self).shops() == old(self).shops(),
            final(self).issued_jobs() == old(self).issued_jobs(),
    {
        let removed = pending_table_remove(&mut self.print_jobs, id);
        proof {
            assert forall|k: u128| #[trigger] self.pending().contains_key(k) implies self.issued_jobs().contains(k) by {
                assert(old(self).pending().contains_key(k));
            }
            assert forall|k: u128| #[trigger] self.issued_jobs().contains(k) implies is_job_id(k) by {
                assert(old(self).issued_jobs().contains(k));
            }
            assert forall|k: u128| #[trigger] self.shops().contains_key(k) implies is_shop_id(k) by {
                assert(old(self).shops().contains_key(k));
            }
        }
        match removed {
            Some(rx) => Ok(rx),
            None => Err(BrokerError::JobNotFound),
        }
    }

    /// Puts the result stream of job `id` back, for a later relay to resume.
    /// Only a job id that was handed out is taken; for any other, nothing
    /// changes and the stream is dropped.
    pub fn restore_job(&mut self, id: u128, rx: Receiver<PrintResponse>) -> (r: bool)
        requires
            old(self).wf(),
        ensures
            final(self).wf(),
            r == old(self).issued_jobs().contains(id),
            r ==> final(self).pending() == old(self).pending().insert(id, rx),
            !r ==> final(self).pending() == old(self).pending(),
            final(self).shops() == old(self).shops(),
            final(self).issued_jobs() == old(self).issued_jobs(),
    {
        if self.issued_jobs.contains(&id) {
            pending_table_insert(&mut self.print_jobs, id, rx);
            proof {
                assert forall|k: u128| #[trigger] self.pending().contains_key(k) implies self.issued_jobs().contains(k) by {
                    if k != id {
                        assert(old(self).pending().contains_key(k));
                    }
                }
                assert forall|k: u128| #[trigger] self.issued_jobs().contains(k) implies is_job_id(k) by {
                    assert(old(self).issued_jobs().contains(k));
                }
                assert forall|k: u128| #[trigger] self.shops().contains_key(k) implies is_shop_id(k) by {
                    assert(old(self).shops().contains_key(k));
                }
            }
            true
        } else {
            false
        }
    }
}

/// Makes the job queue for a terminal that connects, holding up to
/// `SHOP_QUEUE_CAPACITY` jobs: its sending end goes to `connect_shop`, its
/// receiving end to the terminal's session.
pub fn shop_queue() -> (r: (JobSender, JobReceiver)) {
    bounded_channel(SHOP_QUEUE_CAPACITY)
}

} // verus!
