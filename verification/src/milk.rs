//! The milk counter: a bucket of tokens that drains with each withdrawal and
//! fills again as time passes.

use leaky_bucket::RateLimiter;
use std::time::Duration;
use vstd::prelude::*;

verus! {

/// `leaky_bucket::RateLimiter`, a bucket of tokens.
#[verifier::external_type_specification]
#[verifier::external_body]
pub struct ExRateLimiter(RateLimiter);

/// The settings of a bucket.
#[derive(Clone, Copy, Debug, PartialEq, Eq, Structural)]
pub struct BucketPlan {
    /// The tokens added at the end of each interval.
    pub refill: usize,
    /// The most tokens that the bucket holds.
    pub max: usize,
    /// The length of an interval, in seconds.
    pub interval_secs: u64,
}

/// Why a withdrawal was turned down.
#[derive(Clone, Copy, Debug, PartialEq, Eq, Structural)]
pub enum MilkError {
    /// The bucket holds no token.
    Exhausted,
}

/// The most tokens that the milk bucket holds, and the number it starts
/// with.
pub const CAPACITY: usize = 5;

/// The settings that a bucket was built with.
pub uninterp spec fn limiter_plan(limiter: RateLimiter) -> BucketPlan;

/// The balance of a bucket: the tokens it was left with when it was last
/// asked, before any that the clock has earned it since.
pub uninterp spec fn limiter_tokens(limiter: RateLimiter) -> nat;

/// No task is waiting to acquire tokens of the bucket.
pub uninterp spec fn limiter_idle(limiter: RateLimiter) -> bool;

/// The settings of the milk bucket: five tokens at most, and one more each
/// second.
pub open spec fn milk_plan() -> BucketPlan {
    BucketPlan { refill: 1, max: CAPACITY, interval_secs: 1 }
}

/// What one withdrawal of one token may do to a bucket that held `before`
/// tokens, whatever the clock says. The clock may first have added tokens,
/// up to the capacity. Then one token leaves, or, where there is none even
/// then, the withdrawal is turned down and the bucket stays empty.
pub open spec fn withdrawn(before: nat, answer: Result<(), MilkError>, after: nat) -> bool {
    match answer {
        Ok(_) => before <= after + 1 <= CAPACITY,
        Err(_) => before == 0 && after == 0,
    }
}

/// `RateLimiter::builder`, the builder's `initial`, `interval`, `refill` and
/// `max`, and `build`: the bucket has the settings that the builder was
/// given and holds the initial tokens, and nothing waits on it. The builder
/// panics on a refill of zero and on an interval of zero or of more
/// milliseconds than 64 bits hold, and `build` adds the interval to the
/// present instant; it lowers each count to `isize::MAX` and the initial
/// count to the maximum. The bounds below keep clear of all of these.
#[verifier::external_body]
fn build_limiter(initial: usize, plan: BucketPlan) -> (limiter: RateLimiter)
    requires
        0 < plan.refill <= isize::MAX,
        initial <= plan.max <= isize::MAX,
        0 < plan.interval_secs <= 86_400,
    ensures
        limiter_plan(limiter) == plan,
        limiter_tokens(limiter) == initial,
        limiter_idle(limiter),
{
    RateLimiter::builder()
        .initial(initial)
        .interval(Duration::from_secs(plan.interval_secs))
        .refill(plan.refill)
        .max(plan.max)
        .build()
}

/// `RateLimiter::try_acquire`, on a bucket that no task is waiting on (with
/// tasks waiting it returns `false` whatever the balance). The method asks
/// for a shared reference only; the exclusive one here keeps every other
/// caller away meanwhile. Where the refill deadline has passed it first adds
/// the tokens due to the balance, up to the maximum: whether and how many
/// depends on the clock. Then, if the balance is at least `permits`, it takes
/// them off and returns `true`; else it leaves the balance and returns
/// `false`. The settings stay as they were, and it does not panic.
#[verifier::external_body]
fn try_acquire(limiter: &mut RateLimiter, permits: usize) -> (acquired: bool)
    requires
        limiter_idle(*old(limiter)),
        limiter_tokens(*old(limiter)) <= limiter_plan(*old(limiter)).max,
        limiter_plan(*old(limiter)).interval_secs <= 86_400,
    ensures
        limiter_plan(*final(limiter)) == limiter_plan(*old(limiter)),
        limiter_idle(*final(limiter)),
        limiter_tokens(*old(limiter)) <= limiter_tokens(*final(limiter)) + if acquired {
            permits as nat
        } else {
            0nat
        } <= limiter_plan(*old(limiter)).max,
        !acquired ==> limiter_tokens(*final(limiter)) < permits,
    no_unwind
{
    limiter.try_acquire(permits)
}

/// The milk bucket: at most `CAPACITY` tokens, one of which each withdrawal
/// takes and one of which each second gives back.
#[derive(Debug)]
pub struct MilkBucket {
    limiter: RateLimiter,
}

impl View for MilkBucket {
    type V = nat;

    /// The tokens that the bucket has in store, before any that the clock
    /// has earned it since it was last asked.
    closed spec fn view(&self) -> nat {
        limiter_tokens(self.limiter)
    }
}

impl MilkBucket {
    #[verifier::type_invariant]
    spec fn well_formed(self) -> bool {
        &&& limiter_plan(self.limiter) == milk_plan()
        &&& limiter_idle(self.limiter)
        &&& limiter_tokens(self.limiter) <= CAPACITY
    }
}

/// A full milk bucket, whose first second starts now.
pub fn create_bucket() -> (bucket: MilkBucket)
    ensures
        bucket@ == CAPACITY,
{
    MilkBucket {
        limiter: build_limiter(CAPACITY, BucketPlan { refill: 1, max: CAPACITY, interval_secs: 1 }),
    }
}

/// What a caller is told once the bucket has answered: success where the
/// token was taken, `Exhausted` where it was not.
pub fn withdrawal(acquired: bool) -> (r: Result<(), MilkError>)
    ensures
        r == if acquired {
            Ok::<(), MilkError>(())
        } else {
            Err::<(), MilkError>(MilkError::Exhausted)
        },
{
    if !acquired {
        return Err(MilkError::Exhausted);
    }
    Ok(())
}

/// Tries to take one token out of the bucket. It succeeds whenever the
/// bucket has a token in store, and also when it has none but the clock has
/// earned it one since; it is turned down with `Exhausted` only where there
/// is none even then, and the bucket is then left as it was.
pub fn withdraw_milk(bucket: &mut MilkBucket) -> (r: Result<(), MilkError>)
    ensures
        withdrawn(old(bucket)@, r, final(bucket)@),
{
    proof {
        use_type_invariant(&*bucket);
    }
    let acquired = try_acquire(&mut bucket.limiter, 1);
    withdrawal(acquired)
}

/// Puts a new, full bucket in the place of the old one, so that the next
/// token is due one second from now.
pub fn refill_milk(bucket: &mut MilkBucket)
    ensures
        final(bucket)@ == CAPACITY,
{
    *bucket = create_bucket();
}

} // verus!
