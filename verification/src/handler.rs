//! The entry handler: one call, one account, one committed transition.

use vstd::prelude::*;
use crate::error::{DecodeError, HandlerError};
use crate::instruction::CounterInstruction;
use crate::state::{lemma_decode_inverts_encode, lemma_encode_inverts_decode, CounterAccount};
use crate::transition::{apply, spec_apply};
use crate::wire::STATE_WIDTH;

verus! {

/// Number of bytes in the identity of a program.
pub const IDENTITY_WIDTH: usize = 32;

/// An account as the host hands it to a call: the identity of the program
/// that owns it, and its byte buffer.
#[derive(Debug, PartialEq, Eq)]
pub struct Account {
    pub owner: [u8; 32],
    pub data: Vec<u8>,
}

/// What an account is to the contracts: its owner and its bytes.
pub ghost struct AccountView {
    pub owner: Seq<u8>,
    pub data: Seq<u8>,
}

impl View for Account {
    type V = AccountView;

    open spec fn view(&self) -> AccountView {
        AccountView { owner: self.owner@, data: self.data@ }
    }
}

impl Clone for Account {
    /// A second account with the same owner and the same bytes.
    fn clone(&self) -> (copy: Self)
        ensures
            copy@ == self@,
    {
        Account { owner: self.owner, data: self.data.clone() }
    }
}

/// The record of a call that went through: the command that ran and the
/// count that it left in the account.
#[derive(Clone, Copy, Debug, PartialEq, Eq, Structural)]
pub struct Receipt {
    pub command: CounterInstruction,
    pub count: u32,
}

/// Tells whether two identities are the same.
pub fn same_identity(a: &[u8; 32], b: &[u8; 32]) -> (same: bool)
    ensures
        same == (a@ == b@),
{
    let mut i: usize = 0;
    while i < IDENTITY_WIDTH
        invariant
            i <= IDENTITY_WIDTH,
            forall|k: int| 0 <= k < i ==> a@[k] == b@[k],
        decreases IDENTITY_WIDTH - i,
    {
        if a[i] != b[i] {
            return false;
        }
        i = i + 1;
    }
    assert(a@ =~= b@);
    true
}

/// The views of a list of accounts, in order.
pub open spec fn account_views(accounts: Seq<Account>) -> Seq<AccountView> {
    accounts.map_values(|account: Account| account@)
}

/// What a call returns. The instruction is read first, then the first account
/// is looked up, then its owner is held against the program, then its state is
/// read and the command applied: the first of these to fail names the error.
pub open spec fn spec_result(
    program_id: Seq<u8>,
    accounts: Seq<AccountView>,
    instruction_data: Seq<u8>,
) -> Result<Receipt, HandlerError> {
    match CounterInstruction::spec_decode(instruction_data) {
        Err(_) => Err(HandlerError::InvalidInstruction),
        Ok(command) => if accounts.len() == 0 {
            Err(HandlerError::MissingAccount)
        } else if accounts[0].owner != program_id {
            Err(HandlerError::IncorrectOwner)
        } else {
            match CounterAccount::spec_decode(accounts[0].data) {
                Err(e) => Err(HandlerError::Decode(e)),
                Ok(current) => match spec_apply(command, current) {
                    Err(e) => Err(HandlerError::Transition(e)),
                    Ok(next) => Ok(Receipt { command, count: next.count }),
                },
            }
        },
    }
}

/// What a call leaves behind. A call that goes through stores the new count
/// at the start of the first account's buffer and touches nothing else. A
/// call that is rejected touches nothing at all.
pub open spec fn spec_accounts(
    program_id: Seq<u8>,
    accounts: Seq<AccountView>,
    instruction_data: Seq<u8>,
) -> Seq<AccountView> {
    match spec_result(program_id, accounts, instruction_data) {
        Ok(receipt) => accounts.update(
            0,
            AccountView {
                owner: accounts[0].owner,
                data: CounterAccount { count: receipt.count }.spec_encode(accounts[0].data)->Ok_0,
            },
        ),
        Err(_) => accounts,
    }
}

/// Handles one call to the program `program_id`: reads the command from
/// `instruction_data`, applies it to the counter in the first of `accounts`
/// and stores the result there. The buffer is written last, when nothing can
/// fail any more, so a rejected call leaves no trace. The receipt is what the
/// host may log of the call.
pub fn process_instruction(
    program_id: &[u8; 32],
    accounts: &mut Vec<Account>,
    instruction_data: &[u8],
) -> (r: Result<Receipt, HandlerError>)
    ensures
        r == spec_result(program_id@, account_views(old(accounts)@), instruction_data@),
        account_views(final(accounts)@) == spec_accounts(
            program_id@,
            account_views(old(accounts)@),
            instruction_data@,
        ),
        final(accounts)@.len() == old(accounts)@.len(),
        r is Err ==> account_views(final(accounts)@) == account_views(old(accounts)@),
        !(r matches Err(HandlerError::Encode(_))),
        CounterInstruction::spec_decode(instruction_data@) is Ok && old(accounts)@.len() > 0
            && old(accounts)@[0].owner@ != program_id@ ==> r == Err::<Receipt, HandlerError>(
            HandlerError::IncorrectOwner,
        ),
{
    let command = match CounterInstruction::decode(instruction_data) {
        Ok(command) => command,
        Err(_) => {
            return Err(HandlerError::InvalidInstruction);
        },
    };
    if accounts.len() == 0 {
        return Err(HandlerError::MissingAccount);
    }
    let account = &mut accounts[0];
    if !same_identity(&account.owner, program_id) {
        return Err(HandlerError::IncorrectOwner);
    }
    let current = match CounterAccount::decode(account.data.as_slice()) {
        Ok(current) => current,
        Err(e) => {
            return Err(HandlerError::Decode(e));
        },
    };
    let next = match apply(command, current) {
        Ok(next) => next,
        Err(e) => {
            return Err(HandlerError::Transition(e));
        },
    };
    match next.encode(account.data.as_mut_slice()) {
        Ok(()) => Ok(Receipt { command, count: next.count }),
        Err(e) => Err(HandlerError::Encode(e)),
    }
}

/// A call that is rejected leaves every account as it was, whatever the
/// reason for the rejection.
pub proof fn lemma_rejected_call_changes_nothing(
    program_id: Seq<u8>,
    accounts: Seq<AccountView>,
    instruction_data: Seq<u8>,
)
    requires
        spec_result(program_id, accounts, instruction_data) is Err,
    ensures
        spec_accounts(program_id, accounts, instruction_data) == accounts,
{
}

/// An account that another program owns is never touched: whichever command
/// the call carries, Initialize included, it is rejected as having the wrong
/// owner, and every buffer stays as it was.
pub proof fn lemma_foreign_owner_is_refused(
    program_id: Seq<u8>,
    accounts: Seq<AccountView>,
    command: CounterInstruction,
)
    requires
        accounts.len() > 0,
        accounts[0].owner != program_id,
    ensures
        spec_result(program_id, accounts, command.spec_encode()) == Err::<Receipt, HandlerError>(
            HandlerError::IncorrectOwner,
        ),
        spec_accounts(program_id, accounts, command.spec_encode()) == accounts,
{
}

/// Instruction bytes that spell no command are rejected before any account
/// is looked at.
pub proof fn lemma_malformed_instruction_is_refused(
    program_id: Seq<u8>,
    accounts: Seq<AccountView>,
    instruction_data: Seq<u8>,
)
    requires
        CounterInstruction::spec_decode(instruction_data) is Err,
    ensures
        spec_result(program_id, accounts, instruction_data) == Err::<Receipt, HandlerError>(
            HandlerError::InvalidInstruction,
        ),
        spec_accounts(program_id, accounts, instruction_data) == accounts,
{
}

/// A call that goes through leaves the count of its receipt in the first
/// account, where the next call reads it. It changes nothing but the four
/// bytes of the counter: the owner, the length of the buffer, the bytes after
/// the counter and all other accounts stay as they were.
pub proof fn lemma_accepted_call_stores_the_count(
    program_id: Seq<u8>,
    accounts: Seq<AccountView>,
    instruction_data: Seq<u8>,
)
    requires
        spec_result(program_id, accounts, instruction_data) is Ok,
    ensures
        ({
            let receipt = spec_result(program_id, accounts, instruction_data)->Ok_0;
            let after = spec_accounts(program_id, accounts, instruction_data);
            &&& accounts.len() > 0
            &&& accounts[0].owner == program_id
            &&& after.len() == accounts.len()
            &&& CounterAccount::spec_decode(after[0].data) == Ok::<CounterAccount, DecodeError>(
                CounterAccount { count: receipt.count },
            )
            &&& after[0].owner == accounts[0].owner
            &&& after[0].data.len() == accounts[0].data.len()
            &&& forall|k: int|
                STATE_WIDTH <= k < accounts[0].data.len() ==> after[0].data[k]
                    == accounts[0].data[k]
            &&& forall|i: int| 1 <= i < accounts.len() ==> after[i] == accounts[i]
        }),
{
    let receipt = spec_result(program_id, accounts, instruction_data)->Ok_0;
    lemma_decode_inverts_encode(CounterAccount { count: receipt.count }, accounts[0].data);
}

/// A call that increments, followed by a call that decrements, leaves every
/// account as it was before the two: the second call goes through and
/// restores the bytes that the first one changed.
pub proof fn lemma_increment_call_then_decrement_call(
    program_id: Seq<u8>,
    accounts: Seq<AccountView>,
)
    requires
        spec_result(program_id, accounts, CounterInstruction::Increment.spec_encode()) is Ok,
    ensures
        ({
            let up = spec_accounts(
                program_id,
                accounts,
                CounterInstruction::Increment.spec_encode(),
            );
            &&& spec_result(program_id, up, CounterInstruction::Decrement.spec_encode()) is Ok
            &&& spec_accounts(program_id, up, CounterInstruction::Decrement.spec_encode())
                == accounts
        }),
{
    let increment = CounterInstruction::Increment.spec_encode();
    let decrement = CounterInstruction::Decrement.spec_encode();
    let before = CounterAccount::spec_decode(accounts[0].data)->Ok_0;
    let risen = CounterAccount { count: (before.count + 1) as u32 };
    let up = spec_accounts(program_id, accounts, increment);
    lemma_decode_inverts_encode(risen, accounts[0].data);
    lemma_encode_inverts_decode(accounts[0].data);
    let down = spec_accounts(program_id, up, decrement);
    assert(down[0].data =~= accounts[0].data);
}

} // verus!
