//! The persisted shapes: identities, goals with their sub-goals, fee pools.
use crate::constraints::{
    CURRENCY_TAG_LENGTH, MAX_DESCRIPTION_BYTES, MAX_PROOF_URI_LENGTH, MAX_SUBGOALS,
    MAX_SUBGOAL_TITLE_LENGTH,
};
use vstd::array::spec_array_fill_for_copy_type;
use vstd::prelude::*;
use vstd::string::StringSliceAdditionalSpecFns;
use vstd::utf8::encode_utf8;

verus! {

/// A 32-byte ledger identity.
#[derive(Clone, Copy, Debug)]
pub struct Pubkey {
    pub bytes: [u8; 32],
}

impl Pubkey {
    pub fn new_from_array(bytes: [u8; 32]) -> (r: Pubkey)
        ensures
            r.bytes == bytes,
    {
        Pubkey { bytes }
    }

    /// Compares two identities byte by byte.
    pub fn same(&self, other: &Pubkey) -> (r: bool)
        ensures
            r == (*self == *other),
    {
        let mut i: usize = 0;
        while i < 32
            invariant
                i <= 32,
                forall|j: int| 0 <= j < i ==> self.bytes[j] == other.bytes[j],
            decreases 32 - i,
        {
            if self.bytes[i] != other.bytes[i] {
                return false;
            }
            i = i + 1;
        }
        assert(self.bytes =~= other.bytes);
        true
    }
}

impl PartialEq for Pubkey {
    fn eq(&self, other: &Pubkey) -> (r: bool)
        ensures
            r == (*self == *other),
    {
        self.same(other)
    }
}

impl Eq for Pubkey {}

impl vstd::std_specs::cmp::PartialEqSpecImpl for Pubkey {
    open spec fn obeys_eq_spec() -> bool {
        true
    }

    open spec fn eq_spec(&self, other: &Pubkey) -> bool {
        *self == *other
    }
}

impl Default for Pubkey {
    fn default() -> (r: Pubkey)
        ensures
            r == Pubkey::spec_zero(),
    {
        Pubkey { bytes: [0u8; 32] }
    }
}

impl Pubkey {
    pub open spec fn spec_zero() -> Pubkey {
        Pubkey { bytes: spec_array_fill_for_copy_type::<u8, 32>(0u8) }
    }
}

/// Where a goal is played out.
#[derive(Clone, Copy, Debug, PartialEq, Eq, Structural)]
pub enum Roomspace {
    LoveGame,
    GroupGame,
}

impl Default for Roomspace {
    fn default() -> (r: Roomspace)
        ensures
            r == Roomspace::LoveGame,
    {
        Roomspace::LoveGame
    }
}

/// How issuer and taker are related.
#[derive(Clone, Copy, Debug, PartialEq, Eq, Structural)]
pub enum Relations {
    Parents,
    Lover,
    Bosstaff,
    /// Friends included.
    Partner,
    /// Strangers.
    Dao,
}

impl Default for Relations {
    fn default() -> (r: Relations)
        ensures
            r == Relations::Parents,
    {
        Relations::Parents
    }
}

/// The shape of a goal, which decides how its sub-goals are laid out.
#[derive(Clone, Copy, Debug, PartialEq, Eq, Structural)]
pub enum EventType {
    /// Three weighted checkpoints at a fixed interval.
    HabitTraining,
    /// An explicit list of milestones.
    TargetAchieve,
    /// One payout at a scheduled moment.
    SurpriseTime,
}

impl Default for EventType {
    fn default() -> (r: EventType)
        ensures
            r == EventType::HabitTraining,
    {
        EventType::HabitTraining
    }
}

/// Lifecycle of one milestone.
#[derive(Clone, Copy, Debug, PartialEq, Eq, Structural)]
pub enum SubGoalStatus {
    Pending,
    ProofSubmitted,
    Approved,
    Rejected,
    Paid,
}

impl Default for SubGoalStatus {
    fn default() -> (r: SubGoalStatus)
        ensures
            r == SubGoalStatus::Pending,
    {
        SubGoalStatus::Pending
    }
}

/// A milestone as the issuer describes it when creating a goal.
#[derive(Clone, Debug)]
pub struct SubGoalInput {
    pub title: String,
    pub deadline: i64,
    pub incentive_amount: u64,
    /// Zero or less: release at the deadline.
    pub auto_release_at: i64,
}

/// Shape-specific settings of a new goal.
#[derive(Clone, Copy, Debug)]
pub struct GoalConfigInput {
    pub start_time: i64,
    pub surprise_time: i64,
    pub checkpoint_interval: i64,
}

/// One milestone slot of a goal.
#[derive(Clone, Copy, Debug)]
pub struct SubGoal {
    pub title: [u8; MAX_SUBGOAL_TITLE_LENGTH],
    pub deadline: i64,
    pub incentive_amount: u64,
    pub status: SubGoalStatus,
    pub proof_uri: [u8; MAX_PROOF_URI_LENGTH],
    pub submitted_at: i64,
    pub verifier: Pubkey,
    pub auto_release_at: i64,
    pub is_active: bool,
}

impl SubGoal {
    /// The slot that `from_input` makes of a milestone whose title has the
    /// given UTF-8 bytes.
    pub open spec fn spec_from_input(
        title: Seq<u8>,
        deadline: i64,
        incentive_amount: u64,
        auto_release_at: i64,
    ) -> SubGoal {
        SubGoal {
            title: spec_fixed_array::<MAX_SUBGOAL_TITLE_LENGTH>(title),
            deadline,
            incentive_amount,
            auto_release_at: if auto_release_at > 0 {
                auto_release_at
            } else {
                deadline
            },
            is_active: true,
            ..SubGoal::spec_blank()
        }
    }

    /// An active slot made from a milestone input; its release time falls back
    /// to the deadline.
    pub fn from_input(input: &SubGoalInput) -> (r: SubGoal)
        ensures
            r == SubGoal::spec_from_input(
                encode_utf8(input.title@),
                input.deadline,
                input.incentive_amount,
                input.auto_release_at,
            ),
    {
        let mut goal = SubGoal::default();
        goal.title = string_to_fixed::<MAX_SUBGOAL_TITLE_LENGTH>(input.title.as_str());
        proof {
            lemma_fixed_array_unique::<MAX_SUBGOAL_TITLE_LENGTH>(
                goal.title,
                encode_utf8(input.title@),
            );
        }
        goal.deadline = input.deadline;
        goal.incentive_amount = input.incentive_amount;
        goal.auto_release_at = if input.auto_release_at > 0 {
            input.auto_release_at
        } else {
            input.deadline
        };
        goal.is_active = true;
        goal
    }

    /// An unused slot: inactive, pending, every text and number zero.
    pub open spec fn spec_blank() -> SubGoal {
        SubGoal {
            title: spec_array_fill_for_copy_type::<u8, MAX_SUBGOAL_TITLE_LENGTH>(0u8),
            deadline: 0,
            incentive_amount: 0,
            status: SubGoalStatus::Pending,
            proof_uri: spec_array_fill_for_copy_type::<u8, MAX_PROOF_URI_LENGTH>(0u8),
            submitted_at: 0,
            verifier: Pubkey::spec_zero(),
            auto_release_at: 0,
            is_active: false,
        }
    }

    /// A blank slot that carries the given title.
    pub fn from_title(title: [u8; MAX_SUBGOAL_TITLE_LENGTH]) -> (r: SubGoal)
        ensures
            r == (SubGoal { title, ..SubGoal::spec_blank() }),
    {
        let mut goal = SubGoal::default();
        goal.title = title;
        goal
    }
}

impl Default for SubGoal {
    fn default() -> (r: SubGoal)
        ensures
            r == SubGoal::spec_blank(),
    {
        SubGoal {
            title: [0u8; MAX_SUBGOAL_TITLE_LENGTH],
            deadline: 0,
            incentive_amount: 0,
            status: SubGoalStatus::Pending,
            proof_uri: [0u8; MAX_PROOF_URI_LENGTH],
            submitted_at: 0,
            verifier: Pubkey::default(),
            auto_release_at: 0,
            is_active: false,
        }
    }
}

/// Every slot of a new goal before normalisation: all blank.
pub fn blank_sub_goals() -> (r: [SubGoal; MAX_SUBGOALS])
    ensures
        forall|i: int| 0 <= i < MAX_SUBGOALS ==> r[i] == SubGoal::spec_blank(),
{
    [SubGoal::default(); MAX_SUBGOALS]
}

/// An escrow commitment from an issuer to a taker.
#[derive(Clone, Debug)]
pub struct TotalGoal {
    pub issuer: Pubkey,
    pub taker: Pubkey,
    pub id: i64,
    pub description: String,
    pub room: Roomspace,
    pub relations: Relations,
    pub eventype: EventType,
    pub sub_goals: [SubGoal; MAX_SUBGOALS],
    pub active_sub_goals: u8,
    pub total_incentive_amount: u64,
    /// What reached the goal's record after the protocol fee.
    pub deposited_amount: u64,
    /// What has left the goal's record so far.
    pub released_amount: u64,
    pub completion_time: i64,
    pub locked_amount: u64,
    pub unlock_time: i64,
    pub start_time: i64,
    /// Moment of the surprise payout; -1 for the other shapes.
    pub surprise_trigger_ts: i64,
    pub checkpoint_interval: i64,
    pub completed_count: u8,
    pub failed: bool,
    pub version: u8,
    pub bump: u8,
}

impl TotalGoal {
    /// The record's invariant: a slot count within capacity, and never more
    /// released than deposited, nor deposited than committed.
    pub open spec fn wf(&self) -> bool {
        &&& self.active_sub_goals <= MAX_SUBGOALS
        &&& self.released_amount <= self.deposited_amount
        &&& self.deposited_amount <= self.total_incentive_amount
    }

    /// Tests the record's invariant.
    pub fn is_well_formed(&self) -> (r: bool)
        ensures
            r == self.wf(),
    {
        (self.active_sub_goals as usize) <= MAX_SUBGOALS && self.released_amount
            <= self.deposited_amount && self.deposited_amount <= self.total_incentive_amount
    }

    /// Sum of the incentive amounts of the first `n` slots.
    pub open spec fn slot_amounts(&self, n: int) -> int
        decreases n,
    {
        if n <= 0 {
            0
        } else {
            self.slot_amounts(n - 1) + self.sub_goals[n - 1].incentive_amount
        }
    }

    /// Longest description that a goal accepts, in bytes.
    pub fn description_capacity() -> (r: usize)
        ensures
            r == MAX_DESCRIPTION_BYTES,
    {
        MAX_DESCRIPTION_BYTES
    }
}

/// One gift recorded in a fee pool's log.
#[derive(Clone, Copy, Debug)]
pub struct DonationEntry {
    pub donor: Pubkey,
    pub amount: u64,
    pub ts: i64,
    pub currency: [u8; CURRENCY_TAG_LENGTH],
}

impl DonationEntry {
    pub fn from_parts(donor: Pubkey, amount: u64, ts: i64, currency: [u8; CURRENCY_TAG_LENGTH]) -> (r:
        DonationEntry)
        ensures
            r == (DonationEntry { donor, amount, ts, currency }),
    {
        DonationEntry { donor, amount, ts, currency }
    }
}

/// The shared record that collects protocol fees for a founder and its
/// maintainers.
#[derive(Clone, Debug)]
pub struct FeePool {
    pub founder: Pubkey,
    pub maintainers: Vec<Pubkey>,
    pub protocol_fee_numerator: u64,
    pub protocol_fee_denominator: u64,
    pub donations: Vec<DonationEntry>,
    pub version: u8,
    pub bump: u8,
}

impl FeePool {
    /// The pool's invariant: a bounded roster without repeats, and a fee
    /// rate with a non-zero denominator.
    pub open spec fn wf(&self) -> bool {
        &&& self.maintainers@.len() <= crate::constraints::MAX_MAINTAINERS
        &&& self.maintainers@.no_duplicates()
        &&& self.protocol_fee_denominator > 0
    }

    /// The seed from which the pool's address is derived.
    pub fn seeds() -> (r: Vec<u8>)
        ensures
            r@ == fee_pool_seed(),
    {
        let r: Vec<u8> = vec![103u8, 108, 117, 101, 120, 45, 102, 101, 101, 45, 112, 111, 111, 108];
        r
    }
}

/// The bytes of the text "gluex-fee-pool".
pub open spec fn fee_pool_seed() -> Seq<u8> {
    seq![103u8, 108, 117, 101, 120, 45, 102, 101, 101, 45, 112, 111, 111, 108]
}

/// `n` bytes: those of `s` first, then zeros; `s` is cut at `n`.
pub open spec fn fixed_bytes(s: Seq<u8>, n: nat) -> Seq<u8> {
    Seq::new(n, |i: int| if i < s.len() { s[i] } else { 0u8 })
}

/// The array of `N` bytes whose contents are `fixed_bytes(s, N)`.
pub open spec fn spec_fixed_array<const N: usize>(s: Seq<u8>) -> [u8; N] {
    choose|a: [u8; N]| a@ == fixed_bytes(s, N as nat)
}

/// An array holds `fixed_bytes(s, N)` exactly when it is `spec_fixed_array(s)`.
pub proof fn lemma_fixed_array_unique<const N: usize>(a: [u8; N], s: Seq<u8>)
    requires
        a@ == fixed_bytes(s, N as nat),
    ensures
        a == spec_fixed_array::<N>(s),
{
    let b = spec_fixed_array::<N>(s);
    assert(b@ == fixed_bytes(s, N as nat));
    assert(a =~= b);
}

/// The bytes in a buffer of `N`, cut or padded with zeros.
pub fn bytes_to_fixed<const N: usize>(bytes: &[u8]) -> (r: [u8; N])
    ensures
        r@ == fixed_bytes(bytes@, N as nat),
{
    let mut buffer = [0u8; N];
    let len: usize = if bytes.len() < N {
        bytes.len()
    } else {
        N
    };
    let mut i: usize = 0;
    while i < len
        invariant
            i <= len,
            len <= N,
            len <= bytes@.len(),
            len == N || len == bytes@.len(),
            buffer@.len() == N,
            forall|j: int| 0 <= j < i ==> buffer@[j] == bytes@[j],
            forall|j: int| i <= j < N ==> buffer@[j] == 0u8,
        decreases len - i,
    {
        buffer[i] = bytes[i];
        i = i + 1;
    }
    assert(buffer@ =~= fixed_bytes(bytes@, N as nat));
    buffer
}

/// The text's UTF-8 bytes in a buffer of `N`, cut or padded with zeros.
pub fn string_to_fixed<const N: usize>(value: &str) -> (r: [u8; N])
    ensures
        r@ == fixed_bytes(value.spec_bytes(), N as nat),
{
    bytes_to_fixed::<N>(value.as_bytes())
}

/// Length of the text at the start of a fixed buffer: the bytes before the
/// first zero, or all of them.
pub open spec fn text_len(b: Seq<u8>) -> nat
    decreases b.len(),
{
    if b.len() == 0 {
        0
    } else if b[0] == 0 {
        0
    } else {
        1 + text_len(b.drop_first())
    }
}

/// `i` is the text length of `b` when no zero comes before it and a zero or
/// the end comes at it.
proof fn lemma_text_len(b: Seq<u8>, i: int)
    requires
        0 <= i <= b.len(),
        forall|j: int| 0 <= j < i ==> b[j] != 0,
        i == b.len() || b[i] == 0,
    ensures
        text_len(b) == i,
    decreases i,
{
    if i > 0 {
        let rest = b.drop_first();
        assert forall|j: int| 0 <= j < i - 1 implies rest[j] != 0 by {
            assert(rest[j] == b[j + 1]);
        }
        if i < b.len() {
            assert(rest[i - 1] == b[i]);
        }
        lemma_text_len(rest, i - 1);
    }
}

/// UTF-8 decoding in which each invalid sequence becomes U+FFFD.
pub uninterp spec fn utf8_lossy_of(bytes: Seq<u8>) -> Seq<char>;

/// Relies on `String::from_utf8_lossy`: the bytes decoded as UTF-8, each
/// invalid sequence replaced by U+FFFD.
#[verifier::external_body]
fn decode_lossy(bytes: &[u8]) -> (r: String)
    ensures
        r@ == utf8_lossy_of(bytes@),
{
    String::from_utf8_lossy(bytes).into_owned()
}

/// The text held at the start of a fixed buffer, up to its first zero byte.
pub fn trim_fixed_string(bytes: &[u8]) -> (r: String)
    ensures
        r@ == utf8_lossy_of(bytes@.take(text_len(bytes@) as int)),
{
    let mut len: usize = 0;
    while len < bytes.len() && bytes[len] != 0
        invariant
            len <= bytes@.len(),
            forall|j: int| 0 <= j < len ==> bytes@[j] != 0,
        decreases bytes@.len() - len,
    {
        len = len + 1;
    }
    proof {
        lemma_text_len(bytes@, len as int);
    }
    let mut text: Vec<u8> = Vec::new();
    let mut i: usize = 0;
    while i < len
        invariant
            i <= len,
            len <= bytes@.len(),
            text@ == bytes@.take(i as int),
        decreases len - i,
    {
        text.push(bytes[i]);
        i = i + 1;
        assert(text@ =~= bytes@.take(i as int));
    }
    decode_lossy(text.as_slice())
}

} // verus!
