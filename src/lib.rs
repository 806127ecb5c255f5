//! Transaction dispatch and confirmation tracking for a relay in front of
//! ledger RPC endpoints: slot alignment, latency compensation, batch send
//! checks, confirmation polling and result aggregation, plus the
//! prioritization-fee statistics, stake summary, stored slot ranges and
//! configuration of the relay. Network and timing stay with the caller,
//! which feeds observations in and performs the steps that come out.

mod aligner;
mod comparison;
mod config;
mod dispatch;
mod fee_stats;
mod latency;
mod outcome;
mod poller;
mod schedule;
mod slot_ranges;
mod stakes;

pub use aligner::{AlignStep, SlotAligner, SlotDetectionTimeout, MAX_OBSERVATIONS, OBSERVATION_STEP_MS};
pub use comparison::{single_poll_step, ConfirmationSlotResult, SingleStep, SIGNATURE_LEN};
pub use config::{
    Args, Config, ConfigError, EnvOverrides, DEFAULT_FANOUT_SIZE, DEFAULT_GRPC_ADDR,
    DEFAULT_RETRY_TIMEOUT, DEFAULT_RPC_ADDR, DEFAULT_WS_ADDR, MAX_RETRIES,
};
pub use dispatch::{check_batch, slots_passed, BatchSendError};
pub use fee_stats::{calculate_supp_stats, PrioFeesStats};
pub use latency::compensation_delays;
pub use outcome::{
    ConfirmationLevel, ConfirmationRecord, SendErrorKind, SendOutcome, SignatureStatus, TxState,
};
pub use poller::{
    aggregate, lemma_conservation, lemma_resolution_is_final, lemma_round_pointwise,
    ConfirmationPoller, RoundStep, MAX_ROUNDS, ROUND_INTERVAL_MS,
};
pub use schedule::LinearSchedule;
pub use slot_ranges::{
    get_slot_range, is_block_in_range, slot_ranges_by_epoch, DuplicateEpoch, EpochSlotRange,
};
pub use stakes::{IdentityStakes, PeerType, SolanaUtils, VoteAccount};
