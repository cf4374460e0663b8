//! Bringing an old record to the current layout: the record must be the one
//! that its seeds name and must belong to this program; it is then
//! overwritten with a fresh record and its leftover bytes are zeroed.
//!
//! Encoding a fresh record into bytes is left to the caller; this module
//! frames those bytes behind the record's discriminator.
use crate::constraints::{MAX_SUBGOALS, RECORD_VERSION};
use crate::errors::GluXError;
use crate::state::{
    blank_sub_goals, fee_pool_seed, EventType, FeePool, Pubkey, Relations, Roomspace, SubGoal,
    TotalGoal,
};
use vstd::prelude::*;
use vstd::slice::slice_to_vec;

verus! {

/// The SHA-256 digest of some bytes.
pub uninterp spec fn sha256_of(data: Seq<u8>) -> Seq<u8>;

/// Relies on `solana_program::hash::hash`: the SHA-256 digest of `data`.
#[verifier::external_body]
fn sha256(data: &[u8]) -> (r: [u8; 32])
    ensures
        r@ == sha256_of(data@),
{
    solana_program::hash::hash(data).to_bytes()
}

/// The program-derived address of `program_id` for `seeds`; none when the
/// seeds are too many or too long, or when the digest lies on the curve.
pub uninterp spec fn program_address_of(seeds: Seq<Seq<u8>>, program_id: Seq<u8>) -> Option<
    Seq<u8>,
>;

/// Relies on `solana_program::pubkey::Pubkey::create_program_address`: the
/// address derived from the seeds and the program, or an error.
#[verifier::external_body]
fn create_program_address(seeds: &Vec<Vec<u8>>, program_id: &Pubkey) -> (r: Option<Pubkey>)
    ensures
        r is None <==> program_address_of(seeds.deep_view(), program_id.bytes@) is None,
        r matches Some(k) ==> program_address_of(seeds.deep_view(), program_id.bytes@) == Some(
            k.bytes@,
        ),
{
    let refs: Vec<&[u8]> = seeds.iter().map(|s| s.as_slice()).collect();
    let program = solana_program::pubkey::Pubkey::new_from_array(program_id.bytes);
    solana_program::pubkey::Pubkey::create_program_address(&refs, &program).ok().map(
        |k| Pubkey::new_from_array(k.to_bytes()),
    )
}

/// The bytes of the text "gluex-goals".
pub open spec fn goal_seed() -> Seq<u8> {
    seq![103u8, 108, 117, 101, 120, 45, 103, 111, 97, 108, 115]
}

/// The bytes of the text "account:".
pub open spec fn account_prefix() -> Seq<u8> {
    seq![97u8, 99, 99, 111, 117, 110, 116, 58]
}

/// The bytes of the text "TotalGoal".
pub open spec fn goal_record_name() -> Seq<u8> {
    seq![84u8, 111, 116, 97, 108, 71, 111, 97, 108]
}

/// The bytes of the text "FeePool".
pub open spec fn pool_record_name() -> Seq<u8> {
    seq![70u8, 101, 101, 80, 111, 111, 108]
}

/// The unsigned value with the same 64 bits as `v`.
pub open spec fn id_bits(v: i64) -> int {
    if v >= 0 {
        v as int
    } else {
        v + 0x1_0000_0000_0000_0000
    }
}

/// The `n` low bytes of `v`, least significant first.
pub open spec fn le_bytes(v: int, n: nat) -> Seq<u8>
    decreases n,
{
    if n == 0 {
        Seq::empty()
    } else {
        seq![(v % 256) as u8] + le_bytes(v / 256, (n - 1) as nat)
    }
}

/// The eight little-endian bytes of `v`.
pub fn id_to_le_bytes(v: i64) -> (r: Vec<u8>)
    ensures
        r@ == le_bytes(id_bits(v), 8),
{
    let mut x: u64 = if v >= 0 {
        v as u64
    } else {
        u64::MAX - ((-(v + 1)) as u64)
    };
    let mut out: Vec<u8> = Vec::new();
    let mut i: usize = 0;
    while i < 8
        invariant
            i <= 8,
            out@ + le_bytes(x as int, (8 - i) as nat) == le_bytes(id_bits(v), 8),
        decreases 8 - i,
    {
        let ghost prev = out@;
        assert(le_bytes(x as int, (8 - i) as nat) == seq![(x % 256) as u8] + le_bytes(
            (x / 256) as int,
            (8 - i - 1) as nat,
        ));
        out.push((x % 256) as u8);
        assert(out@ + le_bytes((x / 256) as int, (8 - i - 1) as nat) =~= prev + le_bytes(
            x as int,
            (8 - i) as nat,
        ));
        x = x / 256;
        i = i + 1;
    }
    assert(out@ + le_bytes(x as int, 0) =~= out@);
    out
}

/// The seeds of a goal record's address.
pub open spec fn goal_seeds_of(issuer: Pubkey, taker: Pubkey, goal_id: i64, bump: u8) -> Seq<
    Seq<u8>,
> {
    seq![goal_seed(), issuer.bytes@, taker.bytes@, le_bytes(id_bits(goal_id), 8), seq![bump]]
}

/// The seeds of a goal record's address: a tag, both parties, the goal's
/// id in little-endian bytes, and the bump.
pub fn goal_seeds(issuer: &Pubkey, taker: &Pubkey, goal_id: i64, bump: u8) -> (r: Vec<Vec<u8>>)
    ensures
        r.deep_view() == goal_seeds_of(*issuer, *taker, goal_id, bump),
{
    let tag: Vec<u8> = vec![103u8, 108, 117, 101, 120, 45, 103, 111, 97, 108, 115];
    let issuer_bytes: Vec<u8> = slice_to_vec(issuer.bytes.as_slice());
    let taker_bytes: Vec<u8> = slice_to_vec(taker.bytes.as_slice());
    let id_bytes = id_to_le_bytes(goal_id);
    let bump_bytes: Vec<u8> = vec![bump];
    assert(tag@ =~= goal_seed());
    assert(bump_bytes@ =~= seq![bump]);
    let mut r: Vec<Vec<u8>> = Vec::new();
    r.push(tag);
    r.push(issuer_bytes);
    r.push(taker_bytes);
    r.push(id_bytes);
    r.push(bump_bytes);
    let ghost d = r.deep_view();
    assert(d[0] =~= goal_seed());
    assert(d[1] =~= issuer.bytes@);
    assert(d[2] =~= taker.bytes@);
    assert(d[3] =~= le_bytes(id_bits(goal_id), 8));
    assert(d[4] =~= seq![bump]);
    assert(d =~= goal_seeds_of(*issuer, *taker, goal_id, bump));
    r
}

/// The seeds of the fee pool's address: its tag and the bump.
pub open spec fn pool_seeds_of(bump: u8) -> Seq<Seq<u8>> {
    seq![fee_pool_seed(), seq![bump]]
}

/// The seeds of the fee pool's address.
pub fn pool_seeds(bump: u8) -> (r: Vec<Vec<u8>>)
    ensures
        r.deep_view() == pool_seeds_of(bump),
{
    let tag = FeePool::seeds();
    let bump_bytes: Vec<u8> = vec![bump];
    let mut r: Vec<Vec<u8>> = Vec::new();
    r.push(tag);
    r.push(bump_bytes);
    let ghost d = r.deep_view();
    assert(d[0] =~= fee_pool_seed());
    assert(d[1] =~= seq![bump]);
    assert(d =~= pool_seeds_of(bump));
    r
}

/// The bytes of an optional identity.
pub open spec fn key_bytes(k: Option<Pubkey>) -> Option<Seq<u8>> {
    match k {
        Some(key) => Some(key.bytes@),
        None => None,
    }
}

/// Why a record cannot be migrated: it does not belong to the program, or
/// its seeds derive no address or another one.
pub open spec fn migration_error(
    owner: Pubkey,
    program_id: Pubkey,
    target: Pubkey,
    derived: Option<Seq<u8>>,
) -> Option<GluXError> {
    if owner != program_id {
        Some(GluXError::UnauthorizedSigner)
    } else if derived is None {
        Some(GluXError::ParsePubkeyError)
    } else if derived->0 != target.bytes@ {
        Some(GluXError::ParsePubkeyError)
    } else {
        None
    }
}

/// Checks a record's owner, and its address against the one derived from
/// its seeds.
pub fn check_migration_target(
    owner: &Pubkey,
    program_id: &Pubkey,
    target: &Pubkey,
    derived: Option<Pubkey>,
) -> (r: Result<(), GluXError>)
    ensures
        match migration_error(*owner, *program_id, *target, key_bytes(derived)) {
            Some(e) => r == Err::<(), GluXError>(e),
            None => r is Ok,
        },
{
    if !owner.same(program_id) {
        return Err(GluXError::UnauthorizedSigner);
    }
    match derived {
        None => Err(GluXError::ParsePubkeyError),
        Some(k) => {
            if !k.same(target) {
                assert(k.bytes@ != target.bytes@) by {
                    if k.bytes@ == target.bytes@ {
                        assert(k.bytes =~= target.bytes);
                    }
                }
                Err(GluXError::ParsePubkeyError)
            } else {
                Ok(())
            }
        },
    }
}

/// A record's storage after a rewrite: the discriminator, the body, then
/// zeros up to the old length; none when the two do not fit.
pub open spec fn framed_record(old: Seq<u8>, discriminator: Seq<u8>, body: Seq<u8>) -> Option<
    Seq<u8>,
> {
    if discriminator.len() + body.len() > old.len() {
        None
    } else {
        Some(
            discriminator + body + Seq::new(
                (old.len() - discriminator.len() - body.len()) as nat,
                |i: int| 0u8,
            ),
        )
    }
}

/// Overwrites a record's storage with a discriminator and a body and zeroes
/// what is left, or fails with a size error and writes nothing.
pub fn write_record(data: &mut Vec<u8>, discriminator: &[u8], body: &[u8]) -> (r: Result<
    (),
    GluXError,
>)
    ensures
        match framed_record(old(data)@, discriminator@, body@) {
            None => r == Err::<(), GluXError>(GluXError::RecordTooSmall) && final(data)@ == old(
                data,
            )@,
            Some(bytes) => r is Ok && final(data)@ == bytes,
        },
{
    let d = discriminator.len();
    let b = body.len();
    if d > data.len() || b > data.len() - d {
        return Err(GluXError::RecordTooSmall);
    }
    let ghost expected = framed_record(old(data)@, discriminator@, body@)->0;
    let n = data.len();
    let mut i: usize = 0;
    while i < n
        invariant
            i <= n,
            n == data@.len(),
            n == old(data)@.len(),
            d == discriminator@.len(),
            b == body@.len(),
            d + b <= n,
            expected == framed_record(old(data)@, discriminator@, body@)->0,
            expected.len() == n,
            forall|j: int| 0 <= j < i ==> data@[j] == expected[j],
        decreases n - i,
    {
        let v: u8 = if i < d {
            discriminator[i]
        } else if i < d + b {
            body[i - d]
        } else {
            0
        };
        data.set(i, v);
        i = i + 1;
    }
    assert(data@ =~= expected);
    Ok(())
}

/// The discriminator of a record type: the first eight bytes of the digest
/// of "account:" and the type's name.
pub open spec fn discriminator_of(name: Seq<u8>) -> Seq<u8> {
    sha256_of(account_prefix() + name).take(8)
}

/// The discriminator of the record type with the given name.
pub fn account_discriminator(name: &[u8]) -> (r: Vec<u8>)
    ensures
        r@ == discriminator_of(name@),
{
    let mut text: Vec<u8> = vec![97u8, 99, 99, 111, 117, 110, 116, 58];
    let mut i: usize = 0;
    while i < name.len()
        invariant
            i <= name@.len(),
            text@ == account_prefix() + name@.take(i as int),
        decreases name@.len() - i,
    {
        text.push(name[i]);
        i = i + 1;
        assert(text@ =~= account_prefix() + name@.take(i as int));
    }
    assert(name@.take(i as int) =~= name@);
    let digest = sha256(text.as_slice());
    let mut r: Vec<u8> = Vec::new();
    let mut k: usize = 0;
    while k < 8
        invariant
            k <= 8,
            digest@.len() == 32,
            r@ == digest@.take(k as int),
        decreases 8 - k,
    {
        r.push(digest[k]);
        k = k + 1;
        assert(r@ =~= digest@.take(k as int));
    }
    r
}

/// A fresh goal record that keeps only its identity: issuer, taker, id and
/// bump; everything else is the default, at the current version.
pub fn migrated_goal(issuer: Pubkey, taker: Pubkey, goal_id: i64, bump: u8) -> (r: TotalGoal)
    ensures
        r.wf(),
        r.issuer == issuer,
        r.taker == taker,
        r.id == goal_id,
        r.description@ == Seq::<char>::empty(),
        r.room == Roomspace::LoveGame,
        r.relations == Relations::Parents,
        r.eventype == EventType::HabitTraining,
        forall|i: int| 0 <= i < MAX_SUBGOALS ==> r.sub_goals[i] == SubGoal::spec_blank(),
        r.active_sub_goals == 0,
        r.total_incentive_amount == 0,
        r.deposited_amount == 0,
        r.released_amount == 0,
        r.completion_time == 0,
        r.locked_amount == 0,
        r.unlock_time == 0,
        r.start_time == 0,
        r.surprise_trigger_ts == 0,
        r.checkpoint_interval == 0,
        r.completed_count == 0,
        !r.failed,
        r.version == RECORD_VERSION,
        r.bump == bump,
{
    TotalGoal {
        issuer,
        taker,
        id: goal_id,
        description: String::new(),
        room: Roomspace::LoveGame,
        relations: Relations::Parents,
        eventype: EventType::HabitTraining,
        sub_goals: blank_sub_goals(),
        active_sub_goals: 0,
        total_incentive_amount: 0,
        deposited_amount: 0,
        released_amount: 0,
        completion_time: 0,
        locked_amount: 0,
        unlock_time: 0,
        start_time: 0,
        surprise_trigger_ts: 0,
        checkpoint_interval: 0,
        completed_count: 0,
        failed: false,
        version: RECORD_VERSION,
        bump,
    }
}

/// Overwrites the goal record at `target` with `encoded_goal`, the encoding
/// of `migrated_goal(issuer, taker, goal_id, bump)`, behind the goal
/// discriminator; the rest of its storage is zeroed. The record must belong
/// to `program_id` and its address must be the one derived from the goal's
/// seeds.
pub fn migrate_total_goal(
    owner: &Pubkey,
    program_id: &Pubkey,
    target: &Pubkey,
    data: &mut Vec<u8>,
    issuer: &Pubkey,
    taker: &Pubkey,
    goal_id: i64,
    bump: u8,
    encoded_goal: &[u8],
) -> (r: Result<(), GluXError>)
    ensures
        match migration_error(
            *owner,
            *program_id,
            *target,
            program_address_of(goal_seeds_of(*issuer, *taker, goal_id, bump), program_id.bytes@),
        ) {
            Some(e) => r == Err::<(), GluXError>(e) && final(data)@ == old(data)@,
            None => match framed_record(
                old(data)@,
                discriminator_of(goal_record_name()),
                encoded_goal@,
            ) {
                None => r == Err::<(), GluXError>(GluXError::RecordTooSmall) && final(data)@ == old(
                    data,
                )@,
                Some(bytes) => r is Ok && final(data)@ == bytes,
            },
        },
{
    let seeds = goal_seeds(issuer, taker, goal_id, bump);
    let derived = create_program_address(&seeds, program_id);
    match check_migration_target(owner, program_id, target, derived) {
        Ok(()) => {},
        Err(e) => {
            return Err(e);
        },
    }
    let name: Vec<u8> = vec![84u8, 111, 116, 97, 108, 71, 111, 97, 108];
    assert(name@ =~= goal_record_name());
    let discriminator = account_discriminator(name.as_slice());
    write_record(data, discriminator.as_slice(), encoded_goal)
}

/// Overwrites the fee pool's record at `target` with `encoded_pool`, the
/// encoding of `create_fee_pool(founder, bump)`, behind the pool
/// discriminator; the rest of its storage is zeroed. The record must belong
/// to `program_id` and its address must be the one derived from the pool's
/// seeds.
pub fn migrate_fee_pool(
    owner: &Pubkey,
    program_id: &Pubkey,
    target: &Pubkey,
    data: &mut Vec<u8>,
    bump: u8,
    encoded_pool: &[u8],
) -> (r: Result<(), GluXError>)
    ensures
        match migration_error(
            *owner,
            *program_id,
            *target,
            program_address_of(pool_seeds_of(bump), program_id.bytes@),
        ) {
            Some(e) => r == Err::<(), GluXError>(e) && final(data)@ == old(data)@,
            None => match framed_record(
                old(data)@,
                discriminator_of(pool_record_name()),
                encoded_pool@,
            ) {
                None => r == Err::<(), GluXError>(GluXError::RecordTooSmall) && final(data)@ == old(
                    data,
                )@,
                Some(bytes) => r is Ok && final(data)@ == bytes,
            },
        },
{
    let seeds = pool_seeds(bump);
    let derived = create_program_address(&seeds, program_id);
    match check_migration_target(owner, program_id, target, derived) {
        Ok(()) => {},
        Err(e) => {
            return Err(e);
        },
    }
    let name: Vec<u8> = vec![70u8, 101, 101, 80, 111, 111, 108];
    assert(name@ =~= pool_record_name());
    let discriminator = account_discriminator(name.as_slice());
    write_record(data, discriminator.as_slice(), encoded_pool)
}

} // verus!
