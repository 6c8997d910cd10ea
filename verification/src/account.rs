use vstd::prelude::*;

verus! {

/// The slice of host-ledger state one request sees for a single account:
/// its address, whether its key signed the request, its balance, and the
/// bytes stored in it. An empty byte string is an unoccupied slot.
#[derive(Clone, Debug, PartialEq, Eq)]
pub struct AccountData {
    pub address: [u8; 32],
    pub is_signer: bool,
    pub lamports: u64,
    pub data: Vec<u8>,
}

/// Mathematical model of one account.
#[verifier::ext_equal]
pub ghost struct AccountV {
    pub address: Seq<u8>,
    pub is_signer: bool,
    pub lamports: u64,
    pub data: Seq<u8>,
}

impl View for AccountData {
    type V = AccountV;

    open spec fn view(&self) -> AccountV {
        AccountV {
            address: self.address@,
            is_signer: self.is_signer,
            lamports: self.lamports,
            data: self.data@,
        }
    }
}

pub fn clone_bytes(v: &Vec<u8>) -> (r: Vec<u8>)
    ensures
        r@ == v@,
{
    let mut out: Vec<u8> = Vec::new();
    let mut i: usize = 0;
    while i < v.len()
        invariant
            i <= v@.len(),
            out@ == v@.subrange(0, i as int),
        decreases v@.len() - i,
    {
        out.push(v[i]);
        assert(out@ =~= v@.subrange(0, i + 1));
        i = i + 1;
    }
    assert(out@ =~= v@);
    out
}

pub fn dup_account(a: &AccountData) -> (r: AccountData)
    ensures
        r@ == a@,
{
    let r = AccountData {
        address: a.address,
        is_signer: a.is_signer,
        lamports: a.lamports,
        data: clone_bytes(&a.data),
    };
    assert(r@ =~= a@);
    r
}

/// One side effect the processor asks the host runtime or the token
/// sub-ledger to perform, in the order the effects must be applied.
#[derive(Clone, Copy, Debug, PartialEq, Eq)]
pub enum Action {
    /// Allocate `space` zeroed bytes at `address`, funded by `payer`; the
    /// bump proves the address was derived, so the program may sign for it.
    CreateAccount { payer: [u8; 32], address: [u8; 32], space: u64, bump: u8 },
    /// Move balance between two accounts.
    TransferLamports { from: [u8; 32], to: [u8; 32], amount: u64 },
    /// Move token units between two token accounts.
    TransferToken { from: [u8; 32], to: [u8; 32], authority: [u8; 32], amount: u64 },
    /// Destroy token units held in a token account.
    BurnToken { account: [u8; 32], mint: [u8; 32], authority: [u8; 32], amount: u64 },
}

/// Mathematical model of one requested side effect.
#[verifier::ext_equal]
pub ghost enum ActionV {
    CreateAccount { payer: Seq<u8>, address: Seq<u8>, space: u64, bump: u8 },
    TransferLamports { from: Seq<u8>, to: Seq<u8>, amount: u64 },
    TransferToken { from: Seq<u8>, to: Seq<u8>, authority: Seq<u8>, amount: u64 },
    BurnToken { account: Seq<u8>, mint: Seq<u8>, authority: Seq<u8>, amount: u64 },
}

impl View for Action {
    type V = ActionV;

    open spec fn view(&self) -> ActionV {
        match self {
            Action::CreateAccount { payer, address, space, bump } => ActionV::CreateAccount {
                payer: payer@,
                address: address@,
                space: *space,
                bump: *bump,
            },
            Action::TransferLamports { from, to, amount } => ActionV::TransferLamports {
                from: from@,
                to: to@,
                amount: *amount,
            },
            Action::TransferToken { from, to, authority, amount } => ActionV::TransferToken {
                from: from@,
                to: to@,
                authority: authority@,
                amount: *amount,
            },
            Action::BurnToken { account, mint, authority, amount } => ActionV::BurnToken {
                account: account@,
                mint: mint@,
                authority: authority@,
                amount: *amount,
            },
        }
    }
}

/// Views of a requested effect list.
pub open spec fn acts_v(s: Seq<Action>) -> Seq<ActionV> {
    s.map_values(|a: Action| a@)
}

} // verus!
