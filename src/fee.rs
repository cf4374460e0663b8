//! The fee pool: its roster, its rate, its donation log, and how its balance
//! is shared between the founder and the maintainers.
use crate::constraints::{CURRENCY_TAG_LENGTH, MAX_MAINTAINERS, RECORD_VERSION};
use crate::errors::GluXError;
use crate::state::{fixed_bytes, string_to_fixed, DonationEntry, FeePool, Pubkey};
use vstd::prelude::*;
use vstd::string::StringSliceAdditionalSpecFns;

verus! {

/// A new pool: no maintainers, no donations, a rate of 1/1000.
pub fn create_fee_pool(founder: Pubkey, bump: u8) -> (r: FeePool)
    ensures
        r.wf(),
        r.founder == founder,
        r.maintainers@ == Seq::<Pubkey>::empty(),
        r.protocol_fee_numerator == 1,
        r.protocol_fee_denominator == 1000,
        r.donations@ == Seq::<DonationEntry>::empty(),
        r.version == RECORD_VERSION,
        r.bump == bump,
{
    FeePool {
        founder,
        maintainers: Vec::new(),
        protocol_fee_numerator: 1,
        protocol_fee_denominator: 1000,
        donations: Vec::new(),
        version: RECORD_VERSION,
        bump,
    }
}

/// The error `add_maintainer` reports, if any.
pub open spec fn add_maintainer_error(pool: FeePool, caller: Pubkey) -> Option<GluXError> {
    if caller != pool.founder {
        Some(GluXError::UnauthorizedSigner)
    } else if pool.maintainers@.len() >= MAX_MAINTAINERS {
        Some(GluXError::MaxMaintainersReached)
    } else {
        None
    }
}

/// The founder appends a maintainer to the roster; one already there is
/// left where it is.
pub fn add_maintainer(pool: &mut FeePool, caller: &Pubkey, maintainer: Pubkey) -> (r: Result<
    (),
    GluXError,
>)
    ensures
        old(pool).wf() ==> final(pool).wf(),
        match add_maintainer_error(*old(pool), *caller) {
            Some(e) => r == Err::<(), GluXError>(e) && *final(pool) == *old(pool),
            None => {
                &&& r is Ok
                &&& final(pool).maintainers@ == (if old(pool).maintainers@.contains(maintainer) {
                    old(pool).maintainers@
                } else {
                    old(pool).maintainers@.push(maintainer)
                })
                &&& final(pool).founder == old(pool).founder
                &&& final(pool).protocol_fee_numerator == old(pool).protocol_fee_numerator
                &&& final(pool).protocol_fee_denominator == old(pool).protocol_fee_denominator
                &&& final(pool).donations == old(pool).donations
                &&& final(pool).version == old(pool).version
                &&& final(pool).bump == old(pool).bump
            },
        },
{
    if !caller.same(&pool.founder) {
        return Err(GluXError::UnauthorizedSigner);
    }
    if pool.maintainers.len() >= MAX_MAINTAINERS {
        return Err(GluXError::MaxMaintainersReached);
    }
    let mut i: usize = 0;
    while i < pool.maintainers.len()
        invariant
            *pool == *old(pool),
            *caller == pool.founder,
            pool.maintainers@.len() < MAX_MAINTAINERS,
            i <= pool.maintainers@.len(),
            forall|j: int| 0 <= j < i ==> pool.maintainers@[j] != maintainer,
        decreases pool.maintainers@.len() - i,
    {
        if pool.maintainers[i].same(&maintainer) {
            assert(pool.maintainers@.contains(maintainer));
            return Ok(());
        }
        i = i + 1;
    }
    assert(!pool.maintainers@.contains(maintainer));
    pool.maintainers.push(maintainer);
    Ok(())
}

/// The error `set_fee_params` reports, if any.
pub open spec fn set_fee_params_error(pool: FeePool, caller: Pubkey, denominator: u64) -> Option<
    GluXError,
> {
    if caller != pool.founder {
        Some(GluXError::UnauthorizedSigner)
    } else if denominator == 0 {
        Some(GluXError::HabitConfigInvalid)
    } else {
        None
    }
}

/// The founder sets the fee rate to `numerator / denominator`.
pub fn set_fee_params(pool: &mut FeePool, caller: &Pubkey, numerator: u64, denominator: u64) -> (r:
    Result<(), GluXError>)
    ensures
        old(pool).wf() ==> final(pool).wf(),
        match set_fee_params_error(*old(pool), *caller, denominator) {
            Some(e) => r == Err::<(), GluXError>(e) && *final(pool) == *old(pool),
            None => r is Ok && *final(pool) == (FeePool {
                protocol_fee_numerator: numerator,
                protocol_fee_denominator: denominator,
                ..*old(pool)
            }),
        },
{
    if !caller.same(&pool.founder) {
        return Err(GluXError::UnauthorizedSigner);
    }
    if denominator == 0 {
        return Err(GluXError::HabitConfigInvalid);
    }
    pool.protocol_fee_numerator = numerator;
    pool.protocol_fee_denominator = denominator;
    Ok(())
}

/// Appends a gift to the pool's log, its currency tag cut or padded to
/// eight bytes. No balance moves here.
pub fn add_donation(pool: &mut FeePool, donor: Pubkey, amount: u64, ts: i64, currency: &str)
    ensures
        old(pool).wf() ==> final(pool).wf(),
        final(pool).donations@.len() == old(pool).donations@.len() + 1,
        final(pool).donations@.drop_last() == old(pool).donations@,
        final(pool).donations@.last().donor == donor,
        final(pool).donations@.last().amount == amount,
        final(pool).donations@.last().ts == ts,
        final(pool).donations@.last().currency@ == fixed_bytes(
            currency.spec_bytes(),
            CURRENCY_TAG_LENGTH as nat,
        ),
        final(pool).founder == old(pool).founder,
        final(pool).maintainers == old(pool).maintainers,
        final(pool).protocol_fee_numerator == old(pool).protocol_fee_numerator,
        final(pool).protocol_fee_denominator == old(pool).protocol_fee_denominator,
        final(pool).version == old(pool).version,
        final(pool).bump == old(pool).bump,
{
    let tag = string_to_fixed::<CURRENCY_TAG_LENGTH>(currency);
    let entry = DonationEntry::from_parts(donor, amount, ts, tag);
    pool.donations.push(entry);
    assert(pool.donations@.drop_last() =~= old(pool).donations@);
}

/// What the founder receives out of `total` when there are `n` maintainers:
/// everything when there are none, else half rounded down plus what an even
/// split of the other half leaves over.
pub open spec fn founder_share(total: int, n: int) -> int {
    if n == 0 {
        total
    } else {
        total / 2 + (total - total / 2) % n
    }
}

/// What each of `n` maintainers receives out of `total`.
pub open spec fn maintainer_share(total: int, n: int) -> int {
    if n == 0 {
        0
    } else {
        (total - total / 2) / n
    }
}

/// The founder's share and each maintainer's share of `total`.
pub fn split_fees(total: u64, n: usize) -> (r: (u64, u64))
    ensures
        r.0 == founder_share(total as int, n as int),
        r.1 == maintainer_share(total as int, n as int),
        r.0 + n * r.1 == total,
{
    if n == 0 {
        return (total, 0);
    }
    let founder_half: u64 = total / 2;
    let contributor_pool: u64 = total - founder_half;
    let per: u64 = contributor_pool / (n as u64);
    let remainder: u64 = contributor_pool % (n as u64);
    proof {
        lemma_split_exact(total as int, n as int);
    }
    (founder_half + remainder, per)
}

/// Sum of a list of balances.
pub open spec fn sum_balances(s: Seq<u64>) -> int
    decreases s.len(),
{
    if s.len() == 0 {
        0
    } else {
        sum_balances(s.drop_last()) + s.last()
    }
}

/// The error `distribute_fees` reports on a pool holding `total`, if any:
/// nothing to share, or a destination that would overflow.
pub open spec fn distribute_fees_error(total: u64, founder_dest: u64, maintainer_dests: Seq<u64>) -> Option<
    GluXError,
> {
    let n = maintainer_dests.len() as int;
    if total == 0 {
        Some(GluXError::NoFundsAvailable)
    } else if founder_dest + founder_share(total as int, n) > u64::MAX {
        Some(GluXError::NoFundsAvailable)
    } else if exists|i: int|
        0 <= i < n && #[trigger] maintainer_dests[i] + maintainer_share(total as int, n) > u64::MAX {
        Some(GluXError::NoFundsAvailable)
    } else {
        None
    }
}

/// Empties the pool's balance into the founder's destination and the
/// maintainers' destinations, given in roster order.
pub fn distribute_fees(
    pool: &FeePool,
    pool_balance: &mut u64,
    founder_dest: &mut u64,
    maintainer_dests: &mut Vec<u64>,
) -> (r: Result<(), GluXError>)
    requires
        old(maintainer_dests)@.len() == pool.maintainers@.len(),
    ensures
        match distribute_fees_error(*old(pool_balance), *old(founder_dest), old(maintainer_dests)@) {
            Some(e) => {
                &&& r == Err::<(), GluXError>(e)
                &&& *final(pool_balance) == *old(pool_balance)
                &&& *final(founder_dest) == *old(founder_dest)
                &&& final(maintainer_dests)@ == old(maintainer_dests)@
            },
            None => {
                let total = *old(pool_balance) as int;
                let n = pool.maintainers@.len() as int;
                &&& r is Ok
                &&& *final(pool_balance) == 0
                &&& *final(founder_dest) == *old(founder_dest) + founder_share(total, n)
                &&& final(maintainer_dests)@.len() == n
                &&& forall|i: int|
                    0 <= i < n ==> #[trigger] final(maintainer_dests)@[i] == old(maintainer_dests)@[i]
                        + maintainer_share(total, n)
                &&& (*final(founder_dest) - *old(founder_dest)) + (sum_balances(
                    final(maintainer_dests)@,
                ) - sum_balances(old(maintainer_dests)@)) == total
            },
        },
{
    let total = *pool_balance;
    if total == 0 {
        return Err(GluXError::NoFundsAvailable);
    }
    let n = pool.maintainers.len();
    let (founder_part, per) = split_fees(total, n);
    if *founder_dest > u64::MAX - founder_part {
        return Err(GluXError::NoFundsAvailable);
    }
    let mut i: usize = 0;
    while i < n
        invariant
            i <= n,
            maintainer_dests@ == old(maintainer_dests)@,
            *pool_balance == *old(pool_balance),
            *founder_dest == *old(founder_dest),
            total == *old(pool_balance),
            total > 0,
            founder_part == founder_share(total as int, n as int),
            *founder_dest + founder_part <= u64::MAX,
            n == maintainer_dests@.len(),
            per == maintainer_share(total as int, n as int),
            forall|j: int| 0 <= j < i ==> maintainer_dests@[j] + per <= u64::MAX,
        decreases n - i,
    {
        if maintainer_dests[i] > u64::MAX - per {
            assert(old(maintainer_dests)@[i as int] + maintainer_share(total as int, n as int)
                > u64::MAX);
            return Err(GluXError::NoFundsAvailable);
        }
        i = i + 1;
    }
    *pool_balance = 0;
    *founder_dest = *founder_dest + founder_part;
    let ghost before = maintainer_dests@;
    let mut k: usize = 0;
    while k < n
        invariant
            k <= n,
            n == maintainer_dests@.len(),
            n == before.len(),
            forall|j: int| 0 <= j < n ==> before[j] + per <= u64::MAX,
            forall|j: int| 0 <= j < k ==> maintainer_dests@[j] == before[j] + per,
            forall|j: int| k <= j < n ==> maintainer_dests@[j] == before[j],
        decreases n - k,
    {
        assert(before[k as int] + per <= u64::MAX);
        let v = maintainer_dests[k] + per;
        maintainer_dests.set(k, v);
        k = k + 1;
    }
    proof {
        lemma_sum_shifted(before, maintainer_dests@, per as int);
    }
    Ok(())
}

/// The founder's share and the maintainers' shares add up to the whole.
pub proof fn lemma_split_exact(total: int, n: int)
    requires
        0 <= total,
        0 <= n,
    ensures
        founder_share(total, n) + n * maintainer_share(total, n) == total,
        0 <= maintainer_share(total, n),
        0 <= founder_share(total, n) <= total,
{
    if n > 0 {
        let c = total - total / 2;
        assert(c == n * (c / n) + c % n) by (nonlinear_arith)
            requires
                n > 0,
        ;
        assert(0 <= c / n) by (nonlinear_arith)
            requires
                n > 0,
                c >= 0,
        ;
    }
}

/// Adding `d` to each of a list's entries adds `len * d` to its sum.
pub proof fn lemma_sum_shifted(a: Seq<u64>, b: Seq<u64>, d: int)
    requires
        a.len() == b.len(),
        forall|j: int| 0 <= j < a.len() ==> b[j] == a[j] + d,
    ensures
        sum_balances(b) == sum_balances(a) + a.len() * d,
    decreases a.len(),
{
    if a.len() > 0 {
        lemma_sum_shifted(a.drop_last(), b.drop_last(), d);
        assert(sum_balances(b) == sum_balances(b.drop_last()) + b.last());
        assert((a.len() - 1) * d + d == a.len() * d) by (nonlinear_arith);
    }
}

} // verus!
