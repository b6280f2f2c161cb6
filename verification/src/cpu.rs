//! The CPU budget: a fixed number of worker slots that background tasks take
//! permits from, so that they leave room for the work in the foreground.

use std::sync::Arc;
use tokio::sync::{OwnedSemaphorePermit, Semaphore, TryAcquireError};
use vstd::prelude::*;

verus! {

/// The first delay between two looks at the budget, in microseconds.
pub const BACKOFF_START_MICROS: u64 = 100;

/// The longest delay between two looks at the budget, in microseconds.
pub const BACKOFF_LIMIT_MICROS: u64 = 10_000_000;

/// `c` is one of the ten decimal digits.
pub open spec fn is_decimal_digit(c: char) -> bool {
    '0' <= c <= '9'
}

/// The number that a sequence of decimal digits writes.
pub open spec fn digits_value(digits: Seq<char>) -> nat
    decreases digits.len(),
{
    if digits.len() == 0 {
        0
    } else {
        digits_value(digits.drop_last()) * 10 + (digits.last() as nat - '0' as nat) as nat
    }
}

/// The number that `text` writes in decimal: digits alone, or a `+` and
/// digits. Any other text, the empty one too, writes none.
pub open spec fn decimal_value(text: Seq<char>) -> Option<nat> {
    let digits = if text.len() > 0 && text[0] == '+' {
        text.skip(1)
    } else {
        text
    };
    if digits.len() > 0 && forall|i: int| 0 <= i < digits.len() ==> is_decimal_digit(digits[i]) {
        Some(digits_value(digits))
    } else {
        None
    }
}

/// The `usize` that `text` writes in decimal, if it writes one that fits.
pub open spec fn parsed_usize(text: Seq<char>) -> Option<usize> {
    match decimal_value(text) {
        Some(value) => if value <= usize::MAX {
            Some(value as usize)
        } else {
            None
        },
        None => None,
    }
}

/// Reads a `usize` with `str::parse`, which takes decimal digits after an
/// optional `+` and nothing else, and fails on the empty text, on any other
/// character and on a number that `usize` cannot hold.
#[verifier::external_body]
fn parse_usize(text: &str) -> (r: Option<usize>)
    ensures
        r == parsed_usize(text@),
{
    text.parse::<usize>().ok()
}

/// `num_cpus::get` counts the logical cores that this process may use. The
/// count depends on the machine; it is never zero.
pub assume_specification[ num_cpus::get ]() -> (r: usize)
    ensures
        r >= 1,
;

/// The number of CPUs that a configured override asks for: the positive
/// number that the override writes, if it writes one.
pub open spec fn cpus_override(value: Option<&str>) -> Option<usize> {
    match value {
        Some(text) => match parsed_usize(text@) {
            Some(n) => if n > 0 {
                Some(n)
            } else {
                None
            },
            None => None,
        },
        None => None,
    }
}

/// The number of CPUs to plan with on a machine that counts `detected`
/// CPUs: the positive number that the override writes, where it writes
/// one, and else what the machine counts.
pub fn num_cpus_with(override_value: Option<&str>, detected: usize) -> (r: usize)
    ensures
        r == match cpus_override(override_value) {
            Some(n) => n,
            None => detected,
        },
{
    match override_value {
        Some(val) => {
            let num_cpus: usize = match parse_usize(val) {
                Some(n) => n,
                None => 0,
            };
            if num_cpus > 0 {
                num_cpus
            } else {
                detected
            }
        },
        None => detected,
    }
}

/// The number of CPUs to plan with. `override_value` is what the environment
/// holds under `QDRANT_NUM_CPUS`, if anything: a positive number there is
/// taken as it is, in place of the CPUs that this machine counts.
pub fn get_num_cpus(override_value: Option<&str>) -> (r: usize)
    ensures
        r >= 1,
        cpus_override(override_value) matches Some(n) ==> r == n,
{
    num_cpus_with(override_value, num_cpus::get())
}

/// How many of `num_cpu` CPUs are left to the foreground where the budget
/// is chosen automatically.
pub open spec fn reserved_cpus(num_cpu: nat) -> nat {
    if num_cpu <= 32 {
        1
    } else if num_cpu <= 48 {
        2
    } else if num_cpu <= 64 {
        3
    } else if num_cpu <= 96 {
        4
    } else if num_cpu <= 128 {
        6
    } else {
        num_cpu / 16
    }
}

/// `n`, or 1 where `n` is less.
pub open spec fn at_least_one(n: int) -> int {
    if n >= 1 {
        n
    } else {
        1
    }
}

/// The CPU budget for a configured parameter on a machine with `num_cpus`
/// CPUs: a positive parameter is the budget; a negative one is taken off the
/// CPUs; zero takes off what is reserved for the foreground. The budget is
/// never less than 1.
pub open spec fn cpu_budget_of(cpu_budget_param: int, num_cpus: nat) -> int {
    if cpu_budget_param > 0 {
        cpu_budget_param
    } else if cpu_budget_param < 0 {
        at_least_one(num_cpus + cpu_budget_param)
    } else {
        at_least_one(num_cpus - reserved_cpus(num_cpus))
    }
}

/// The budget parameter that stands for the automatic choice on a machine
/// with `num_cpu` CPUs: the CPUs to leave to the foreground, negated. Few
/// are left on a small machine, more on a large one.
pub fn default_cpu_budget(num_cpu: usize) -> (r: isize)
    ensures
        r == -reserved_cpus(num_cpu as nat),
        r <= -1,
{
    if num_cpu <= 32 {
        -1
    } else if num_cpu <= 48 {
        -2
    } else if num_cpu <= 64 {
        -3
    } else if num_cpu <= 96 {
        -4
    } else if num_cpu <= 128 {
        -6
    } else {
        -((num_cpu / 16) as isize)
    }
}

/// The CPU budget for a configured parameter on a machine with `num_cpus` CPUs.
pub fn cpu_budget_with(cpu_budget_param: isize, num_cpus: usize) -> (r: usize)
    ensures
        r == cpu_budget_of(cpu_budget_param as int, num_cpus as nat),
        r >= 1,
    decreases
            if cpu_budget_param == 0 {
                1nat
            } else {
                0nat
            },
{
    if cpu_budget_param < 0 {
        let taken_off: usize = if cpu_budget_param == isize::MIN {
            (isize::MAX as usize) + 1
        } else {
            (-cpu_budget_param) as usize
        };
        if num_cpus > taken_off {
            num_cpus - taken_off
        } else {
            1
        }
    } else if cpu_budget_param == 0 {
        cpu_budget_with(default_cpu_budget(num_cpus), num_cpus)
    } else {
        cpu_budget_param as usize
    }
}

/// The CPU budget for a configured parameter. The CPUs are counted only
/// where the parameter is not positive; `override_value` is what the
/// environment holds under `QDRANT_NUM_CPUS`, if anything.
pub fn get_cpu_budget(cpu_budget_param: isize, override_value: Option<&str>) -> (r: usize)
    ensures
        r >= 1,
        cpu_budget_param > 0 ==> r == cpu_budget_param,
        cpus_override(override_value) matches Some(n) ==> r == cpu_budget_of(
            cpu_budget_param as int,
            n as nat,
        ),
        exists|n: nat| n >= 1 && r == cpu_budget_of(cpu_budget_param as int, n),
{
    if cpu_budget_param > 0 {
        assert(cpu_budget_param == cpu_budget_of(cpu_budget_param as int, 1));
        cpu_budget_param as usize
    } else {
        let num_cpus = get_num_cpus(override_value);
        let budget = cpu_budget_with(cpu_budget_param, num_cpus);
        assert(budget == cpu_budget_of(cpu_budget_param as int, num_cpus as nat));
        budget
    }
}

/// `tokio::sync::Semaphore`: a counter of permits that many threads share.
#[verifier::external_type_specification]
#[verifier::external_body]
pub struct ExSemaphore(Semaphore);

/// `tokio::sync::OwnedSemaphorePermit`: permits taken from a semaphore, which
/// go back to it when the value is dropped.
#[verifier::external_type_specification]
#[verifier::external_body]
pub struct ExOwnedSemaphorePermit(OwnedSemaphorePermit);

/// `tokio::sync::TryAcquireError`: why permits could not be taken at once.
#[verifier::external_type_specification]
pub struct ExTryAcquireError(TryAcquireError);

/// The most permits that a semaphore holds: `Semaphore::MAX_PERMITS`, the
/// largest `usize` without its three highest bits.
pub open spec fn max_permits() -> nat {
    (usize::MAX / 8) as nat
}

/// The number of permits that a semaphore was made with. The number that
/// is free at a given moment is another matter: it changes as permits are
/// taken and given back, and has no name here.
pub uninterp spec fn initial_permits(semaphore: Semaphore) -> nat;

/// `Semaphore::new` makes a semaphore with the given number of permits. It
/// panics on more than `Semaphore::MAX_PERMITS`, which `requires` rules out.
pub assume_specification[ Semaphore::new ](permits: usize) -> (r: Semaphore)
    requires
        permits <= max_permits(),
    ensures
        initial_permits(r) == permits,
;

/// `Semaphore::available_permits` reads how many permits are free at this
/// moment. Other threads change the count, so nothing is said of it but the
/// limit: `Semaphore::MAX_PERMITS` is documented as the most permits that a
/// semaphore can hold, and `new` and each call that adds permits panic
/// rather than pass it.
pub assume_specification[ Semaphore::available_permits ](semaphore: &Semaphore) -> (r: usize)
    ensures
        r <= max_permits(),
;

/// Takes `n` permits at once with `Semaphore::try_acquire_many_owned`, or
/// fails where fewer are free or the semaphore is closed. It panics on more
/// than `Semaphore::MAX_PERMITS`, which `requires` rules out. Whether it
/// succeeds depends on what other threads hold.
#[verifier::external_body]
fn try_acquire_many_owned(semaphore: &Arc<Semaphore>, n: u32) -> (r: Result<
    OwnedSemaphorePermit,
    TryAcquireError,
>)
    requires
        n <= max_permits(),
{
    Semaphore::try_acquire_many_owned(semaphore.clone(), n)
}

/// The global CPU budget for background tasks. It hands out permits and so
/// keeps the CPUs in use within the budget.
pub struct CpuBudget {
    semaphore: Arc<Semaphore>,
}

/// CPUs taken from a budget for one task. They go back to the budget when
/// the permit is released or dropped.
pub struct CpuPermit {
    /// Number of CPUs acquired in this permit.
    pub num_cpus: u32,
    /// What holds the slots in the budget, until released.
    permit: Option<OwnedSemaphorePermit>,
}

impl CpuPermit {
    /// The number of CPUs that the permit counts: its field `num_cpus`.
    pub closed spec fn count(&self) -> u32 {
        self.num_cpus
    }

    /// Whether the permit holds slots of a budget.
    pub closed spec fn holds_slots(&self) -> bool {
        self.permit is Some
    }

    /// The number of CPUs that the permit counts.
    pub fn cpus(&self) -> (r: u32)
        ensures
            r == self.count(),
    {
        self.num_cpus
    }

    /// A permit for `count` CPUs that holds the given slots.
    pub fn new(count: u32, permit: OwnedSemaphorePermit) -> (r: Self)
        ensures
            r.count() == count,
            r.holds_slots(),
    {
        CpuPermit { num_cpus: count, permit: Some(permit) }
    }

    /// A permit for `count` CPUs that holds no slots: for work that has no
    /// shared budget to draw on.
    pub fn dummy(count: u32) -> (r: Self)
        ensures
            r.count() == count,
            !r.holds_slots(),
    {
        CpuPermit { num_cpus: count, permit: None }
    }

    /// Whether the permit holds slots of a budget.
    pub fn is_held(&self) -> (r: bool)
        ensures
            r == self.holds_slots(),
    {
        self.permit.is_some()
    }

    /// Gives the slots back to the budget. The count stays as it was.
    pub fn release(&mut self)
        ensures
            final(self).count() == old(self).count(),
            !final(self).holds_slots(),
        opens_invariants none
        no_unwind
    {
        self.permit = None;
    }
}

impl Drop for CpuPermit {
    /// Gives the slots back to the budget.
    fn drop(&mut self)
        opens_invariants none
        no_unwind
    {
        self.release();
    }
}

/// The number of CPUs that a budget with `available` slots free is asked
/// for where `desired_cpus` are wanted: the smaller of the two, and no more
/// than a permit can count.
pub open spec fn cpus_to_take(available: nat, desired_cpus: nat) -> nat {
    let fewer = if available <= desired_cpus {
        available
    } else {
        desired_cpus
    };
    if fewer <= u32::MAX {
        fewer
    } else {
        u32::MAX as nat
    }
}

/// The number of CPUs to ask a budget for: as many as are wanted, or as
/// many as are free where those are fewer. None are asked for only where
/// none is wanted or none is free.
pub fn cpus_to_acquire(available: usize, desired_cpus: usize) -> (r: u32)
    ensures
        r == cpus_to_take(available as nat, desired_cpus as nat),
        r == 0 <==> (available == 0 || desired_cpus == 0),
{
    let fewer: usize = if available <= desired_cpus {
        available
    } else {
        desired_cpus
    };
    if fewer > u32::MAX as usize {
        u32::MAX
    } else {
        fewer as u32
    }
}

/// The permit that comes of an attempt to take `num_cpus` slots: one that
/// holds the slots where they were taken, none where they were not free. A
/// budget never closes its semaphore; of a closed one no permit comes.
pub fn permit_from(num_cpus: u32, taken: Result<OwnedSemaphorePermit, TryAcquireError>) -> (r:
    Option<CpuPermit>)
    ensures
        match taken {
            Ok(_) => r matches Some(permit) && permit.count() == num_cpus && permit.holds_slots(),
            Err(_) => r is None,
        },
{
    match taken {
        Ok(permit) => Some(CpuPermit::new(num_cpus, permit)),
        Err(TryAcquireError::NoPermits) => None,
        Err(TryAcquireError::Closed) => None,
    }
}

/// Whether a budget with `available` slots free has a CPU to give.
pub fn any_cpu_free(available: usize) -> (r: bool)
    ensures
        r == (available > 0),
{
    available > 0
}

impl CpuBudget {
    /// The number of CPUs that the budget was made to ration: the permits
    /// that its semaphore was made with.
    pub closed spec fn budget(&self) -> nat {
        initial_permits(*self.semaphore)
    }

    /// The largest budget there can be.
    pub fn max_budget() -> (r: usize)
        ensures
            r == max_permits(),
    {
        usize::MAX / 8
    }

    /// A budget of `cpu_budget` CPUs.
    pub fn new(cpu_budget: usize) -> (r: Self)
        requires
            cpu_budget <= max_permits(),
        ensures
            r.budget() == cpu_budget,
    {
        CpuBudget { semaphore: Arc::new(Semaphore::new(cpu_budget)) }
    }

    /// Takes a permit from a budget that was seen to have `available` slots
    /// free, for `desired_cpus` CPUs or for as many as were free. No permit
    /// is asked for where none is wanted or none was free. A permit that
    /// comes back holds its slots and counts exactly the CPUs asked for;
    /// none comes back where the slots have gone to another task since.
    pub fn acquire_of(&self, available: usize, desired_cpus: usize) -> (r: Option<CpuPermit>)
        requires
            available <= max_permits(),
        ensures
            cpus_to_take(available as nat, desired_cpus as nat) == 0 ==> r is None,
            r matches Some(permit) ==> permit.holds_slots() && permit.count() == cpus_to_take(
                available as nat,
                desired_cpus as nat,
            ),
    {
        let num_cpus = cpus_to_acquire(available, desired_cpus);
        if num_cpus == 0 {
            return None;
        }
        let result = try_acquire_many_owned(&self.semaphore, num_cpus);
        permit_from(num_cpus, result)
    }

    /// Takes a permit for up to `desired_cpus` CPUs without waiting: for
    /// fewer where fewer are free, for none where none is. A permit that
    /// comes back holds its slots and counts at least one CPU.
    pub fn try_acquire(&self, desired_cpus: usize) -> (r: Option<CpuPermit>)
        ensures
            desired_cpus == 0 ==> r is None,
            r matches Some(permit) ==> permit.holds_slots() && 1 <= permit.count()
                <= desired_cpus,
    {
        self.acquire_of(self.semaphore.available_permits(), desired_cpus)
    }

    /// Whether any CPU of the budget is free at this moment.
    pub fn has_budget(&self) -> bool {
        any_cpu_free(self.semaphore.available_permits())
    }

    /// One look at the budget for a task that waits for a free CPU. `None`
    /// where a CPU is free: the wait is over. Else the time to sleep before
    /// the next look, which `backoff` then doubles up to its limit.
    pub fn block_until_budget(&self, backoff: &mut BudgetBackoff) -> (r: Option<u64>)
        ensures
            match r {
                Some(delay) => delay == old(backoff).delay() && final(backoff).delay()
                    == next_delay(delay),
                None => *final(backoff) == *old(backoff),
            },
    {
        backoff.next_wait(self.has_budget())
    }
}

/// The delay that follows `delay_micros`: twice as long, up to the limit.
pub open spec fn next_delay(delay_micros: u64) -> u64 {
    if delay_micros * 2 <= BACKOFF_LIMIT_MICROS {
        (delay_micros * 2) as u64
    } else {
        BACKOFF_LIMIT_MICROS
    }
}

/// The growing delay between two looks at a budget that has no CPU free.
pub struct BudgetBackoff {
    delay_micros: u64,
}

impl BudgetBackoff {
    /// The delay before the next look, in microseconds.
    pub closed spec fn delay(&self) -> u64 {
        self.delay_micros
    }

    /// The backoff of a wait that begins.
    pub fn new() -> (r: Self)
        ensures
            r.delay() == BACKOFF_START_MICROS,
    {
        BudgetBackoff { delay_micros: BACKOFF_START_MICROS }
    }

    /// The delay before the next look, in microseconds.
    pub fn delay_micros(&self) -> (r: u64)
        ensures
            r == self.delay(),
    {
        self.delay_micros
    }

    /// What a waiting task does after one look at the budget. With a CPU
    /// free the wait is over: `None`, and the backoff stays as it is. Without
    /// one the task sleeps for the present delay, which is then doubled up
    /// to the limit.
    pub fn next_wait(&mut self, has_budget: bool) -> (r: Option<u64>)
        ensures
            has_budget ==> r is None && *final(self) == *old(self),
            !has_budget ==> r == Some(old(self).delay()) && final(self).delay() == next_delay(
                old(self).delay(),
            ),
    {
        if has_budget {
            None
        } else {
            let delay = self.delay_micros();
            self.advance();
            Some(delay)
        }
    }

    /// Doubles the delay, up to the limit.
    pub fn advance(&mut self)
        ensures
            final(self).delay() == next_delay(old(self).delay()),
    {
        self.delay_micros = if self.delay_micros <= BACKOFF_LIMIT_MICROS / 2 {
            self.delay_micros * 2
        } else {
            BACKOFF_LIMIT_MICROS
        };
    }
}

} // verus!
