//! Ticket options: the right, bought with a premium, to claim tickets at a
//! fixed price until an expiry time.

pub mod account;
pub mod context;
pub mod error;
pub mod events;
pub mod identity;
pub mod instructions;
pub mod ledger;
pub mod lifecycle;
pub mod status;
pub mod terms;

pub use account::OptionContract;
pub use context::{CreateOption, ExerciseOption, ExpireOption};
pub use error::{QuorumError, Rejection};
pub use events::{Creation, EscrowDeposit, OptionCreated, OptionExercised, OptionExpired};
pub use identity::Identity;
pub use instructions::{
    create_option, create_option_at, exercise_option, exercise_option_at, expire_option,
    expire_option_at,
};
pub use status::OptionStatus;
