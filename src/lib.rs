//! A fixed-window rate limiter keyed by client identity, backed by the
//! process-wide TTL cache of `cache_ro`.
mod cache_calls;
mod throttle;

pub use throttle::{
    count_after_hits, count_of, lemma_absent_entry_starts_over, lemma_blocked_iff_limit_reached,
    lemma_fresh_identity_may_go, lemma_hits_are_counted, next_count_spec, ThrottleError,
    ThrottlesService,
};
