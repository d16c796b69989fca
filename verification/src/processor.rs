use vstd::prelude::*;
use crate::account::{with_balance, Account};
use crate::error::Failure;
use crate::instruction::{spec_unpack, SolanaInstruction};

verus! {

/// Move `amount` lamports from slot 0 to slot 1, leaving every other slot as
/// it was. Meaningful only when slot 0 can cover the amount and slot 1 can
/// receive it without overflowing.
pub open spec fn spec_move(pre: Seq<Account>, amount: u64) -> Seq<Account>
    recommends
        pre.len() >= 2,
        pre[0].balance >= amount,
        pre[1].balance + amount <= u64::MAX,
{
    pre.update(0, with_balance(pre[0], (pre[0].balance - amount) as u64)).update(
        1,
        with_balance(pre[1], (pre[1].balance + amount) as u64),
    )
}

/// The transition a `Deposit { amount }` demands: slots are [depositor,
/// target, value-transfer-service]. A zero amount is refused before any
/// account is touched; a depositor that cannot cover the amount is refused
/// by the host for lack of funds; a target that cannot receive it is a
/// host-level rejection.
pub open spec fn spec_deposit(pre: Seq<Account>, amount: u64) -> Result<Seq<Account>, Failure> {
    if amount == 0 {
        Err(Failure::InvalidAmount)
    } else if pre.len() < 3 {
        Err(Failure::MissingAccount)
    } else if pre[0].balance < amount {
        Err(Failure::InsufficientFunds)
    } else if pre[1].balance + amount > u64::MAX {
        Err(Failure::TransferRejected)
    } else {
        Ok(spec_move(pre, amount))
    }
}

/// The transition a `WithdrawTenPercent` demands: slots are [source,
/// destination, value-transfer-service]. The amount is a tenth of the
/// source's balance, rounded down; when that comes to nothing the
/// instruction is refused before any account is touched.
pub open spec fn spec_withdraw(pre: Seq<Account>) -> Result<Seq<Account>, Failure> {
    if pre.len() < 3 {
        Err(Failure::MissingAccount)
    } else if pre[0].balance / 10 == 0 {
        Err(Failure::InsufficientFunds)
    } else if pre[1].balance + pre[0].balance / 10 > u64::MAX {
        Err(Failure::TransferRejected)
    } else {
        Ok(spec_move(pre, pre[0].balance / 10))
    }
}

/// The transition an `InitializeAccount` demands: slots are [initializer,
/// new account, value-transfer-service]. The host creates the new account
/// only where it does not exist yet (no lamports) and the initializer can
/// fund it at `minimum`; any refusal is opaque and surfaced as-is.
pub open spec fn spec_initialize(pre: Seq<Account>, minimum: u64) -> Result<Seq<Account>, Failure> {
    if pre.len() < 3 {
        Err(Failure::MissingAccount)
    } else if pre[1].balance != 0 {
        Err(Failure::TransferRejected)
    } else if pre[0].balance < minimum {
        Err(Failure::TransferRejected)
    } else {
        Ok(spec_move(pre, minimum))
    }
}

/// The three-way dispatch: which transition each decoded instruction
/// demands of the supplied accounts. `minimum` is the host's rent-exempt
/// minimum balance for a zero-length account; only `InitializeAccount`
/// reads it.
pub open spec fn spec_execute(
    instruction: SolanaInstruction,
    pre: Seq<Account>,
    minimum: u64,
) -> Result<Seq<Account>, Failure> {
    match instruction {
        SolanaInstruction::InitializeAccount => spec_initialize(pre, minimum),
        SolanaInstruction::Deposit { amount } => spec_deposit(pre, amount),
        SolanaInstruction::WithdrawTenPercent => spec_withdraw(pre),
    }
}

/// The amount a withdrawal moves for a given source balance: a tenth,
/// rounded down, refused when it comes to nothing.
pub fn withdraw_amount(balance: u64) -> (r: Result<u64, Failure>)
    ensures
        balance < 10 ==> r == Err::<u64, Failure>(Failure::InsufficientFunds),
        balance >= 10 ==> r == Ok::<u64, Failure>(balance / 10),
{
    let amount = balance / 10;
    if amount == 0 {
        Err(Failure::InsufficientFunds)
    } else {
        Ok(amount)
    }
}

/// Execute one decoded instruction against the supplied accounts: perform
/// exactly the transition `spec_execute` demands, or refuse it and leave
/// every account as it was.
pub fn execute(
    instruction: &SolanaInstruction,
    accounts: &mut Vec<Account>,
    rent_minimum: u64,
) -> (r: Result<(), Failure>)
    ensures
        ({
            match spec_execute(*instruction, old(accounts)@, rent_minimum) {
                Ok(post) => r is Ok && final(accounts)@ == post,
                Err(e) => r == Err::<(), Failure>(e) && final(accounts)@ == old(accounts)@,
            }
        }),
{
    match instruction {
        SolanaInstruction::InitializeAccount => {
            if accounts.len() < 3 {
                return Err(Failure::MissingAccount);
            }
            let payer: Account = accounts[0];
            let fresh: Account = accounts[1];
            if fresh.balance != 0 {
                return Err(Failure::TransferRejected);
            }
            if payer.balance < rent_minimum {
                return Err(Failure::TransferRejected);
            }
            accounts[0] = with_balance_exec(payer, payer.balance - rent_minimum);
            accounts[1] = with_balance_exec(fresh, rent_minimum);
            Ok(())
        },
        SolanaInstruction::Deposit { amount } => {
            let amount = *amount;
            if amount == 0 {
                return Err(Failure::InvalidAmount);
            }
            if accounts.len() < 3 {
                return Err(Failure::MissingAccount);
            }
            let from: Account = accounts[0];
            let to: Account = accounts[1];
            if from.balance < amount {
                return Err(Failure::InsufficientFunds);
            }
            if to.balance > u64::MAX - amount {
                return Err(Failure::TransferRejected);
            }
            accounts[0] = with_balance_exec(from, from.balance - amount);
            accounts[1] = with_balance_exec(to, to.balance + amount);
            Ok(())
        },
        SolanaInstruction::WithdrawTenPercent => {
            if accounts.len() < 3 {
                return Err(Failure::MissingAccount);
            }
            let source: Account = accounts[0];
            let amount = match withdraw_amount(source.balance) {
                Ok(amount) => amount,
                Err(e) => {
                    return Err(e);
                },
            };
            let dest: Account = accounts[1];
            if dest.balance > u64::MAX - amount {
                return Err(Failure::TransferRejected);
            }
            accounts[0] = with_balance_exec(source, source.balance - amount);
            accounts[1] = with_balance_exec(dest, dest.balance + amount);
            Ok(())
        },
    }
}

/// The one entry point: decode the instruction bytes, dispatch, validate,
/// and perform the demanded transition on the supplied accounts. For
/// `InitializeAccount` the funding figure is the host's rent-exempt minimum
/// for a zero-length account, read from the environment here; the outcome
/// is pinned exactly for every other path, and for that one up to whatever
/// figure the environment returned.
///
/// The program identity is part of the entry point's interface; the host
/// alone enforces ownership, which this core does not model, so nothing
/// here reads it.
pub fn process(
    _program_id: u64,
    accounts: &mut Vec<Account>,
    instruction_data: &[u8],
) -> (r: Result<(), Failure>)
    ensures
        ({
            match spec_unpack(instruction_data@) {
                Err(e) => r == Err::<(), Failure>(e) && final(accounts)@ == old(accounts)@,
                Ok(SolanaInstruction::Deposit { amount }) => (match spec_deposit(
                    old(accounts)@,
                    amount,
                ) {
                    Ok(post) => r is Ok && final(accounts)@ == post,
                    Err(e) => r == Err::<(), Failure>(e) && final(accounts)@ == old(accounts)@,
                }),
                Ok(SolanaInstruction::WithdrawTenPercent) => (match spec_withdraw(
                    old(accounts)@,
                ) {
                    Ok(post) => r is Ok && final(accounts)@ == post,
                    Err(e) => r == Err::<(), Failure>(e) && final(accounts)@ == old(accounts)@,
                }),
                Ok(SolanaInstruction::InitializeAccount) => ({
                    if old(accounts)@.len() < 3 {
                        r == Err::<(), Failure>(Failure::MissingAccount) && final(accounts)@
                            == old(accounts)@
                    } else {
                        &&& (r is Ok ==> exists|m: u64|
                            #[trigger] spec_initialize(old(accounts)@, m) == Ok::<
                                Seq<Account>,
                                Failure,
                            >(final(accounts)@))
                        &&& (r is Err ==> r == Err::<(), Failure>(Failure::TransferRejected)
                            && final(accounts)@ == old(accounts)@)
                    }
                }),
            }
        }),
{
    let instruction = match SolanaInstruction::unpack(instruction_data) {
        Ok(instruction) => instruction,
        Err(e) => {
            return Err(e);
        },
    };
    match instruction {
        SolanaInstruction::InitializeAccount => {
            if accounts.len() < 3 {
                return Err(Failure::MissingAccount);
            }
            let rent = match crate::host::rent_from_host() {
                Ok(rent) => rent,
                Err(_) => {
                    return Err(Failure::TransferRejected);
                },
            };
            let minimum = crate::host::rent_minimum_balance(&rent, 0);
            let r = execute(&SolanaInstruction::InitializeAccount, accounts, minimum);
            proof {
                if r is Ok {
                    assert(spec_initialize(old(accounts)@, minimum) == Ok::<Seq<Account>, Failure>(
                        accounts@,
                    ));
                }
            }
            r
        },
        SolanaInstruction::Deposit { amount } => execute(
            &SolanaInstruction::Deposit { amount },
            accounts,
            0,
        ),
        SolanaInstruction::WithdrawTenPercent => execute(
            &SolanaInstruction::WithdrawTenPercent,
            accounts,
            0,
        ),
    }
}

/// Law: a deposit of a nonzero amount that the depositor can cover and the
/// target can receive moves exactly that amount from depositor to target;
/// every other account, and every identifier and signer flag, is left
/// unchanged.
pub proof fn lemma_deposit_moves_exact_amount(pre: Seq<Account>, amount: u64)
    requires
        amount != 0,
        pre.len() >= 3,
        pre[0].balance >= amount,
        pre[1].balance + amount <= u64::MAX,
    ensures
        spec_deposit(pre, amount) is Ok,
        ({
            let post = spec_deposit(pre, amount)->Ok_0;
            &&& post.len() == pre.len()
            &&& post[0].balance == pre[0].balance - amount
            &&& post[1].balance == pre[1].balance + amount
            &&& with_balance(post[0], pre[0].balance) == pre[0]
            &&& with_balance(post[1], pre[1].balance) == pre[1]
            &&& forall|i: int| 2 <= i < pre.len() ==> post[i] == pre[i]
        }),
{
}

/// Law: a deposit of zero is refused as an invalid amount, whatever the
/// accounts hold; the executor then leaves every balance unchanged (see
/// `execute`'s contract).
pub proof fn lemma_zero_deposit_rejected(pre: Seq<Account>)
    ensures
        spec_deposit(pre, 0) == Err::<Seq<Account>, Failure>(Failure::InvalidAmount),
{
}

/// Law: where the source holds at least ten lamports and the destination
/// can receive a tenth of them, a withdrawal moves exactly a tenth of the
/// source's balance, rounded down; every other account is left unchanged.
pub proof fn lemma_withdraw_moves_exact_tenth(pre: Seq<Account>)
    requires
        pre.len() >= 3,
        pre[0].balance >= 10,
        pre[1].balance + pre[0].balance / 10 <= u64::MAX,
    ensures
        spec_withdraw(pre) is Ok,
        ({
            let post = spec_withdraw(pre)->Ok_0;
            &&& post.len() == pre.len()
            &&& post[0].balance == pre[0].balance - pre[0].balance / 10
            &&& post[1].balance == pre[1].balance + pre[0].balance / 10
            &&& with_balance(post[0], pre[0].balance) == pre[0]
            &&& with_balance(post[1], pre[1].balance) == pre[1]
            &&& forall|i: int| 2 <= i < pre.len() ==> post[i] == pre[i]
        }),
{
}

/// Law: a source holding fewer than ten lamports yields a zero withdrawal,
/// which is refused for insufficient funds before any account is touched.
pub proof fn lemma_small_withdraw_rejected(pre: Seq<Account>)
    requires
        pre.len() >= 3,
        pre[0].balance < 10,
    ensures
        spec_withdraw(pre) == Err::<Seq<Account>, Failure>(Failure::InsufficientFunds),
{
}

/// Law: where the new account does not exist yet (it holds no lamports) and
/// the initializer can cover the funding figure, initialization brings
/// exactly that one account to the figure and the initializer's balance
/// down by exactly the same figure; every other account is left unchanged.
pub proof fn lemma_initialize_funds_new_account(pre: Seq<Account>, minimum: u64)
    requires
        pre.len() >= 3,
        pre[1].balance == 0,
        pre[0].balance >= minimum,
    ensures
        spec_initialize(pre, minimum) is Ok,
        ({
            let post = spec_initialize(pre, minimum)->Ok_0;
            &&& post.len() == pre.len()
            &&& post[0].balance == pre[0].balance - minimum
            &&& post[1].balance == minimum
            &&& with_balance(post[0], pre[0].balance) == pre[0]
            &&& with_balance(post[1], pre[1].balance) == pre[1]
            &&& forall|i: int| 2 <= i < pre.len() ==> post[i] == pre[i]
        }),
{
}

/// The executable twin of `with_balance`: the same account with its balance
/// replaced.
fn with_balance_exec(account: Account, balance: u64) -> (r: Account)
    ensures
        r == with_balance(account, balance),
{
    Account { id: account.id, balance, is_signer: account.is_signer }
}

} // verus!
