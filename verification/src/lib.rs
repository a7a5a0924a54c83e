//! Tip splitting between a creator and the platform treasury.
//!
//! A tip is a transfer from a payer to a creator from which the platform
//! keeps a fixed share of 3%. The library decides; a host moves the value,
//! reads the clock and appends the audit records.
//!
//! A call starts with `send_tip` or `send_tip_with_memo`. Each answers with
//! a step: either the call is over, or the host is asked for one thing, a
//! transfer or the time, and hands the outcome to the flow that came with
//! the step. The host runs a call as one transaction and undoes every
//! transfer of a call that fails.

pub mod error;
pub mod event;
pub mod fee;
pub mod guard;
pub mod identity;
pub mod memo;
pub mod tip;
pub mod transfer;

pub use error::{Failure, TipError};
pub use event::{TipSent, TipWithMemo};
pub use fee::{split_fee, FeeSplit, BPS_DENOMINATOR, MAX_TIP, PLATFORM_FEE_BPS};
pub use guard::{check_memo, check_platform_wallet, validate, SendTip, MAX_MEMO_LEN};
pub use identity::{Identity, Signer};
pub use memo::{send_tip_with_memo, MemoStamping, MemoStep, MemoTransferring};
pub use tip::{send_tip, LegKind, Stamping, TipStep, Transferring};
pub use transfer::{creator_leg, platform_leg, Leg};
