//! A counter kept in a ledger account.
//!
//! A call carries the identity of the program, the accounts that the host
//! made available and the bytes of one instruction. [`process_instruction`]
//! reads the command, makes sure that the program owns the first account,
//! reads the counter stored there, applies the command and stores the result.
//! A call either goes through and changes the four bytes of the counter, or is
//! rejected with a typed error and changes nothing.
//!
//! The parts are usable on their own: [`CounterInstruction::decode`] for the
//! instruction bytes, [`CounterAccount::decode`] and
//! [`CounterAccount::encode`] for the account buffer, and [`apply`] for the
//! transition between states.

pub mod error;
pub mod handler;
pub mod instruction;
pub mod state;
pub mod transition;
pub mod wire;

pub use error::{DecodeError, EncodeError, HandlerError, TransitionError};
pub use handler::{process_instruction, same_identity, Account, Receipt};
pub use instruction::CounterInstruction;
pub use state::CounterAccount;
pub use transition::apply;
