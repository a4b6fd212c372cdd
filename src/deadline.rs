use vstd::prelude::*;

verus! {

/// Default number of attempts allowed to a message with an expiration header.
pub const DEFAULT_RETRY_LIMIT: u64 = 3;

/// Default expiration timeout of the first attempt, in milliseconds.
pub const DEFAULT_EXPIRATION_TIMEOUT_MS: u64 = 40000;

/// Default growth factor of the expiration timeout, as the fraction
/// `DEFAULT_GROWTH_NUM / DEFAULT_GROWTH_DEN` (that is, 1.5).
pub const DEFAULT_GROWTH_NUM: u64 = 3;

pub const DEFAULT_GROWTH_DEN: u64 = 2;

/// `a + b`, held at `u64::MAX` when the sum does not fit.
pub open spec fn sat_add(a: int, b: int) -> int {
    if a + b > u64::MAX {
        u64::MAX as int
    } else {
        a + b
    }
}

/// Adds two millisecond quantities, saturating at `u64::MAX`.
pub fn add_ms(a: u64, b: u64) -> (r: u64)
    ensures
        r == sat_add(a as int, b as int),
{
    a.saturating_add(b)
}

/// Settings of one processing run.
pub struct ProcessingConfig {
    /// How many attempts a message with an expiration header gets before
    /// the run ends with `MessageExpired`.
    pub retry_limit: u64,
    /// Expiration timeout of the first attempt, in milliseconds.
    pub expiration_timeout_ms: u64,
    /// Numerator of the timeout growth factor.
    pub growth_num: u64,
    /// Denominator of the timeout growth factor (never zero).
    pub growth_den: u64,
    /// How long to wait for the transaction, in milliseconds.
    pub wait_timeout_ms: u64,
}

impl ProcessingConfig {
    pub open spec fn wf(&self) -> bool {
        self.growth_den > 0
    }

    /// The default settings: 3 attempts, 40000 ms, growth factor 1.5,
    /// the given wait timeout.
    pub fn with_wait_timeout(wait_timeout_ms: u64) -> (r: ProcessingConfig)
        ensures
            r.wf(),
            r.retry_limit == DEFAULT_RETRY_LIMIT,
            r.expiration_timeout_ms == DEFAULT_EXPIRATION_TIMEOUT_MS,
            r.growth_num == DEFAULT_GROWTH_NUM,
            r.growth_den == DEFAULT_GROWTH_DEN,
            r.wait_timeout_ms == wait_timeout_ms,
    {
        ProcessingConfig {
            retry_limit: DEFAULT_RETRY_LIMIT,
            expiration_timeout_ms: DEFAULT_EXPIRATION_TIMEOUT_MS,
            growth_num: DEFAULT_GROWTH_NUM,
            growth_den: DEFAULT_GROWTH_DEN,
            wait_timeout_ms,
        }
    }

    /// The timeout that follows `t`: `t * num / den`, rounded down and held
    /// at `u64::MAX`.
    pub open spec fn grow(&self, t: int) -> int {
        let g = t * self.growth_num / self.growth_den as int;
        if g > u64::MAX {
            u64::MAX as int
        } else {
            g
        }
    }

    /// The expiration timeout of attempt `k` (the first attempt is 0).
    pub open spec fn attempt_timeout(&self, k: nat) -> int
        decreases k,
    {
        if k == 0 {
            self.expiration_timeout_ms as int
        } else {
            self.grow(self.attempt_timeout((k - 1) as nat))
        }
    }

    /// Computes the timeout of the attempt after one whose timeout was `t`.
    pub fn next_timeout(&self, t: u64) -> (r: u64)
        requires
            self.wf(),
        ensures
            r == self.grow(t as int),
    {
        assert(t as int * self.growth_num as int <= u64::MAX as int * u64::MAX as int)
            by (nonlinear_arith)
            requires t <= u64::MAX, self.growth_num <= u64::MAX;
        let p: u128 = (t as u128) * (self.growth_num as u128);
        let g: u128 = p / (self.growth_den as u128);
        if g > u64::MAX as u128 {
            u64::MAX
        } else {
            g as u64
        }
    }
}

/// How long a run waits for its transaction, chosen once per message.
pub enum DeadlineStrategy {
    /// The message carries an expiration header: it becomes invalid at
    /// `expire_at`, so it may be rebuilt and sent again.
    ExpirationBased { expire_at: u64 },
    /// The message cannot expire: wait until `deadline` and give up.
    WaitOnly { deadline: u64 },
}

impl DeadlineStrategy {
    /// Picks the strategy: expiration-based when the message has an
    /// expiration time, else waiting until `now + wait_timeout`.
    pub fn new(expiration_time: Option<u64>, now: u64, wait_timeout: u64) -> (r: DeadlineStrategy)
        ensures
            r == Self::spec_new(expiration_time, now, wait_timeout),
    {
        match expiration_time {
            Some(e) => DeadlineStrategy::ExpirationBased { expire_at: e },
            None => DeadlineStrategy::WaitOnly { deadline: add_ms(now, wait_timeout) },
        }
    }

    pub open spec fn spec_new(expiration_time: Option<u64>, now: u64, wait_timeout: u64) -> DeadlineStrategy {
        match expiration_time {
            Some(e) => DeadlineStrategy::ExpirationBased { expire_at: e },
            None => DeadlineStrategy::WaitOnly {
                deadline: sat_add(now as int, wait_timeout as int) as u64,
            },
        }
    }

    pub open spec fn max_block_time(&self, wait_timeout: u64) -> int {
        match self {
            DeadlineStrategy::ExpirationBased { expire_at } => sat_add(*expire_at as int, wait_timeout as int),
            DeadlineStrategy::WaitOnly { deadline } => *deadline as int,
        }
    }

    pub fn is_expiration_based(&self) -> (r: bool)
        ensures
            r == (self is ExpirationBased),
    {
        match self {
            DeadlineStrategy::ExpirationBased { .. } => true,
            DeadlineStrategy::WaitOnly { .. } => false,
        }
    }
}

/// The maximum block generation time of an attempt: the message's
/// expiration time plus the wait timeout, or the fixed waiting deadline.
pub fn compute_deadline(strategy: &DeadlineStrategy, wait_timeout: u64) -> (r: u64)
    ensures
        r == strategy.max_block_time(wait_timeout),
{
    match strategy {
        DeadlineStrategy::ExpirationBased { expire_at } => add_ms(*expire_at, wait_timeout),
        DeadlineStrategy::WaitOnly { deadline } => *deadline,
    }
}

/// A timeout of at least `den` grows strictly under a factor above one,
/// unless it reaches `u64::MAX`.
pub proof fn lemma_grow_strict(cfg: ProcessingConfig, t: int)
    requires
        cfg.wf(),
        cfg.growth_num > cfg.growth_den,
        t >= cfg.growth_den,
        t * cfg.growth_num / cfg.growth_den as int <= u64::MAX,
    ensures
        cfg.grow(t) > t,
        cfg.grow(t) == t * cfg.growth_num / cfg.growth_den as int,
{
    let n = cfg.growth_num as int;
    let d = cfg.growth_den as int;
    assert(t * n >= t * d + t) by (nonlinear_arith)
        requires n >= d + 1, t >= 0;
    assert(t * n >= (t + 1) * d) by (nonlinear_arith)
        requires t * n >= t * d + t, t >= d;
    assert((t * n) / d >= ((t + 1) * d) / d) by (nonlinear_arith)
        requires t * n >= (t + 1) * d, d > 0;
    assert(((t + 1) * d) / d == t + 1) by (nonlinear_arith)
        requires d > 0;
}

/// Each retry's expiration time is later than the one before it: the
/// timeout of attempt `k + 1` is that of attempt `k` scaled by the growth
/// factor, and it is counted from a clock reading no earlier than before.
/// This holds for a growth factor above one, a first timeout of at least the
/// factor's denominator, and while the timeouts stay below `u64::MAX`.
pub proof fn lemma_expiration_strictly_grows(cfg: ProcessingConfig, k: nat, now_k: u64, now_next: u64)
    requires
        cfg.wf(),
        cfg.growth_num > cfg.growth_den,
        cfg.expiration_timeout_ms >= cfg.growth_den,
        forall|i: nat| i <= k ==> #[trigger] cfg.attempt_timeout(i) * cfg.growth_num / cfg.growth_den as int <= u64::MAX,
        now_k <= now_next,
        now_next as int + cfg.attempt_timeout(k + 1) <= u64::MAX,
    ensures
        cfg.attempt_timeout(k + 1) == cfg.attempt_timeout(k) * cfg.growth_num / cfg.growth_den as int,
        sat_add(now_next as int, cfg.attempt_timeout(k + 1)) > sat_add(now_k as int, cfg.attempt_timeout(k)),
{
    lemma_timeout_at_least_den(cfg, k);
    lemma_grow_strict(cfg, cfg.attempt_timeout(k));
    assert(cfg.attempt_timeout(k + 1) == cfg.grow(cfg.attempt_timeout(k)));
}

/// Under the conditions above every attempt's timeout is at least the
/// growth factor's denominator.
proof fn lemma_timeout_at_least_den(cfg: ProcessingConfig, k: nat)
    requires
        cfg.wf(),
        cfg.growth_num > cfg.growth_den,
        cfg.expiration_timeout_ms >= cfg.growth_den,
        forall|i: nat| i <= k ==> #[trigger] cfg.attempt_timeout(i) * cfg.growth_num / cfg.growth_den as int <= u64::MAX,
    ensures
        cfg.attempt_timeout(k) >= cfg.growth_den,
    decreases k,
{
    if k > 0 {
        let j = (k - 1) as nat;
        lemma_timeout_at_least_den(cfg, j);
        assert(cfg.attempt_timeout(j) * cfg.growth_num / cfg.growth_den as int <= u64::MAX);
        lemma_grow_strict(cfg, cfg.attempt_timeout(j));
    }
}

} // verus!
