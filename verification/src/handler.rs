use vstd::prelude::*;
use crate::account::AccountRecord;
use crate::error::Failure;
use crate::identity::Identity;
use crate::state::{
    decode_state, encode_state, le_bytes_of, lemma_value_round_trip, word_of_le_bytes, wrap_inc,
    GreetingAccount, STATE_SIZE,
};

verus! {

/// The data region a successful invocation leaves behind, given the data
/// region it found: the stored word advanced by one, wrapping at the top of
/// the 32-bit range, re-encoded in place.
pub open spec fn next_data(d: Seq<u8>) -> Seq<u8> {
    le_bytes_of(wrap_inc(word_of_le_bytes(d)))
}

/// Exclusive mutable access to the data region of the first account.
fn first_data_mut(accounts: &mut Vec<AccountRecord>) -> (d: &mut Vec<u8>)
    requires
        old(accounts)@.len() > 0,
    ensures
        *d == old(accounts)@[0].data,
        final(accounts)@.len() == old(accounts)@.len(),
        final(accounts)@[0].owner == old(accounts)@[0].owner,
        final(accounts)@[0].data == *final(d),
        forall|i: int| 1 <= i < old(accounts)@.len() ==> final(accounts)@[i] == old(accounts)@[i],
{
    &mut accounts[0].data
}

/// The data region left behind by `n` sequential successful invocations that
/// started from the buffer encoding a zero counter.
pub open spec fn data_after(n: nat) -> Seq<u8>
    decreases n,
{
    if n == 0 {
        le_bytes_of(0)
    } else {
        next_data(data_after((n - 1) as nat))
    }
}

/// The starting buffer of the invocation sequence is the zero-valued
/// four-byte buffer.
pub proof fn lemma_initial_data()
    ensures
        data_after(0) == seq![0u8, 0u8, 0u8, 0u8],
{
    assert(le_bytes_of(0) =~= seq![0u8, 0u8, 0u8, 0u8]);
}

/// Counter monotonicity: starting from a zero-valued buffer, `n` sequential
/// successful invocations leave the account storing exactly the count `n`,
/// for every `n` up to the top of the 32-bit range; one further invocation,
/// from the maximum stored value, wraps the stored count back to zero.
pub proof fn lemma_counter_monotonic(n: nat)
    requires
        n <= 0x1_0000_0000,
    ensures
        n < 0x1_0000_0000 ==> word_of_le_bytes(data_after(n)) == n,
        n == 0x1_0000_0000 ==> word_of_le_bytes(data_after(n)) == 0,
    decreases n,
{
    if n == 0 {
        lemma_value_round_trip(0);
    } else {
        lemma_counter_monotonic((n - 1) as nat);
        lemma_value_round_trip(wrap_inc(word_of_le_bytes(data_after((n - 1) as nat))));
    }
}

/// Whether the target account of an invocation passes the authorization
/// check: its recorded owner is byte-exactly the executing identity.
pub open spec fn authorized(rec: AccountRecord, program_id: Identity) -> bool {
    rec.owner@ == program_id@
}

/// Handle one invocation dispatched by the host: take the first account of
/// `accounts` as the target, check that it is owned by the executing
/// `program_id`, and advance the greeting counter persisted in its data
/// region. The instruction payload carries no information for this program
/// and is ignored. On any failure the account list is left exactly as found.
pub fn process_instruction(
    program_id: &Identity,
    accounts: &mut Vec<AccountRecord>,
    _instruction_data: &[u8],
) -> (r: Result<(), Failure>)
    ensures
        old(accounts)@.len() == 0 ==> ({
            &&& r == Err::<(), Failure>(Failure::MissingAccount)
            &&& final(accounts)@ == old(accounts)@
        }),
        old(accounts)@.len() > 0 && !authorized(old(accounts)@[0], *program_id) ==> ({
            &&& r == Err::<(), Failure>(Failure::IncorrectOwner)
            &&& final(accounts)@ == old(accounts)@
        }),
        old(accounts)@.len() > 0 && authorized(old(accounts)@[0], *program_id) && old(
            accounts,
        )@[0].data@.len() != STATE_SIZE ==> ({
            &&& r == Err::<(), Failure>(Failure::CorruptState)
            &&& final(accounts)@ == old(accounts)@
        }),
        old(accounts)@.len() > 0 && authorized(old(accounts)@[0], *program_id) && old(
            accounts,
        )@[0].data@.len() == STATE_SIZE ==> ({
            &&& r == Ok::<(), Failure>(())
            &&& final(accounts)@.len() == old(accounts)@.len()
            &&& final(accounts)@[0].owner == old(accounts)@[0].owner
            &&& final(accounts)@[0].data@ == next_data(old(accounts)@[0].data@)
            &&& forall|i: int|
                1 <= i < old(accounts)@.len() ==> final(accounts)@[i] == old(accounts)@[i]
        }),
{
    if accounts.len() == 0 {
        return Err(Failure::MissingAccount);
    }
    if !accounts[0].owner.equals(program_id) {
        return Err(Failure::IncorrectOwner);
    }
    let mut state = match decode_state(&accounts[0].data) {
        Ok(s) => s,
        Err(e) => {
            return Err(e);
        },
    };
    state.increment();
    let ghost old_data: Seq<u8> = accounts@[0].data@;
    let data = first_data_mut(accounts);
    let enc = encode_state(&state, data);
    proof {
        assert(data@.subrange(0, STATE_SIZE as int) =~= data@);
        assert(data@ =~= next_data(old_data));
    }
    match enc {
        Ok(u) => Ok(u),
        Err(e) => Err(e),
    }
}

} // verus!
