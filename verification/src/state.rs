pub mod activity;
pub mod distributor;
pub mod history;
pub mod lifecycle;
pub mod payout;
pub mod reward_board;
pub mod stream;

pub use activity::Activity;
pub use distributor::Distributor;
pub use distributor::Status;
pub use reward_board::RewardBoard;
pub use reward_board::Rewarder;
pub use stream::CancelTransferParams;
pub use stream::Permission;
pub use stream::Stream;
pub use stream::StreamState;
pub use stream::DEPOSIT_AMOUNT_PERIOD_IN_SECS;
