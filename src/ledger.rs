//! The ledger's state and its transitions, as spec functions over [`LedgerView`].
use vstd::prelude::*;
use crate::crypto::{blake2_256_of, key_usable, signed_under, trusted_by};
use crate::types::{
    AccountView, Authentication, EventView, SignedData, TxCreateAccount, TxError, TxMint, TxSend,
    TxVote, TxWrite, Tx,
};

verus! {

/// The number of blocks in a voting term.
pub const DISTRIBUTION_TERM: u64 = 10;

/// The most that the votes accumulated for one term may add up to.
pub const MAX_VOTE_BALANCE_PER_TERM: u64 = 10000;

/// The mathematical state of the ledger.
pub struct LedgerView {
    /// The trusted root certificates.
    pub roots: Seq<Seq<u8>>,
    /// The accounts, in order of registration.
    pub accounts: Seq<AccountView>,
    /// The raw balance of each account, at the account's index.
    pub balances: Seq<u64>,
    /// The cumulative votes of each term; a missing term counts as zero.
    pub votes: Map<u64, u64>,
    /// The current block height.
    pub block_number: u64,
    /// The events emitted so far.
    pub events: Seq<EventView>,
}

/// The result of a transition and the state after it.
pub type Outcome = (Result<(), TxError>, LedgerView);

impl LedgerView {
    /// The ledger's invariant.
    pub open spec fn wf(self) -> bool {
        &&& self.balances.len() == self.accounts.len()
        &&& forall|i: int, j: int|
            0 <= i < self.accounts.len() && 0 <= j < self.accounts.len() && i != j
                ==> #[trigger] self.accounts[i].id != #[trigger] self.accounts[j].id
        &&& forall|i: int|
            0 <= i < self.accounts.len() ==> #[trigger] self.accounts[i].id == blake2_256_of(
                self.accounts[i].cert,
            )
        &&& forall|t: u64| #[trigger] self.votes.contains_key(t) ==> self.votes[t]
            <= MAX_VOTE_BALANCE_PER_TERM
    }

    pub open spec fn has_account(self, id: Seq<u8>) -> bool {
        exists|i: int| 0 <= i < self.accounts.len() && #[trigger] self.accounts[i].id == id
    }

    /// The index of a registered account.
    pub open spec fn index_of(self, id: Seq<u8>) -> int {
        choose|i: int| 0 <= i < self.accounts.len() && #[trigger] self.accounts[i].id == id
    }

    /// The raw balance of an account; zero for an unregistered one.
    pub open spec fn raw_balance(self, id: Seq<u8>) -> u64 {
        if self.has_account(id) {
            self.balances[self.index_of(id)]
        } else {
            0
        }
    }

    pub open spec fn votes_at(self, term: u64) -> u64 {
        if self.votes.contains_key(term) {
            self.votes[term]
        } else {
            0
        }
    }

    pub open spec fn term(self) -> u64 {
        self.block_number / DISTRIBUTION_TERM
    }

    pub proof fn lemma_index_of(self, id: Seq<u8>, i: int)
        requires
            self.wf(),
            0 <= i < self.accounts.len(),
            self.accounts[i].id == id,
        ensures
            self.has_account(id),
            self.index_of(id) == i,
    {
        assert(self.has_account(id));
    }
}

/// An empty ledger that trusts `roots`.
pub open spec fn initial(roots: Seq<Seq<u8>>) -> LedgerView {
    LedgerView {
        roots,
        accounts: seq![],
        balances: seq![],
        votes: Map::empty(),
        block_number: 0,
        events: seq![],
    }
}

pub open spec fn spec_insert_account(s: LedgerView, cert: Seq<u8>) -> Outcome {
    let id = blake2_256_of(cert);
    if s.has_account(id) {
        (Err(TxError::AccountAlreadyExists), s)
    } else {
        (
            Ok(()),
            LedgerView {
                accounts: s.accounts.push(AccountView { cert, id, nonce: 0, data: seq![] }),
                balances: s.balances.push(0),
                events: s.events.push(EventView::AccountAdd(id)),
                ..s
            },
        )
    }
}

/// Moves `amount` of raw balance; the debit is written first, so a transfer to
/// oneself leaves the balance as it was.
pub open spec fn spec_transfer(s: LedgerView, from: Seq<u8>, to: Seq<u8>, amount: u64) -> Outcome {
    if !s.has_account(from) || !s.has_account(to) {
        (Err(TxError::AccountNotFound), s)
    } else if s.raw_balance(from) < amount {
        (Err(TxError::Underflow), s)
    } else if s.raw_balance(to) + amount > u64::MAX {
        (Err(TxError::Overflow), s)
    } else {
        let debited = s.balances.update(s.index_of(from), (s.raw_balance(from) - amount) as u64);
        let credited = debited.update(s.index_of(to), (debited[s.index_of(to)] + amount) as u64);
        (
            Ok(()),
            LedgerView {
                balances: credited,
                events: s.events.push(EventView::Transferred(from, to, amount)),
                ..s
            },
        )
    }
}

pub open spec fn with_nonce_bumped(s: LedgerView, i: int) -> LedgerView {
    LedgerView {
        accounts: s.accounts.update(
            i,
            AccountView { nonce: (s.accounts[i].nonce + 1) as u64, ..s.accounts[i] },
        ),
        ..s
    }
}

pub open spec fn spec_increment_nonce(s: LedgerView, id: Seq<u8>) -> Outcome {
    if !s.has_account(id) {
        (Err(TxError::AccountNotFound), s)
    } else if s.accounts[s.index_of(id)].nonce == u64::MAX {
        (Err(TxError::Overflow), s)
    } else {
        (Ok(()), with_nonce_bumped(s, s.index_of(id)))
    }
}

/// The signer of a transaction of a registered account is who it claims to be.
pub open spec fn spec_signer(s: LedgerView, tx: SignedData, auth: Authentication) -> Result<
    (),
    TxError,
> {
    if !s.has_account(tx.id@) {
        Err(TxError::AccountNotFound)
    } else if !auth.key_readable {
        Err(TxError::MalformedCertificate)
    } else if !auth.signature_valid {
        Err(TxError::BadSignature)
    } else {
        Ok(())
    }
}

/// The signer, and the nonce: the account's current one, with room to advance.
pub open spec fn spec_accepts_signer(s: LedgerView, tx: SignedData, nonce: u64, auth: Authentication) -> Result<
    (),
    TxError,
> {
    match spec_signer(s, tx, auth) {
        Err(e) => Err(e),
        Ok(_) => {
            let stored = s.accounts[s.index_of(tx.id@)].nonce;
            if nonce != stored {
                Err(TxError::StaleOrFutureNonce)
            } else if stored == u64::MAX {
                Err(TxError::Overflow)
            } else {
                Ok(())
            }
        },
    }
}

pub open spec fn spec_create_account(
    s: LedgerView,
    tbs: TxCreateAccount,
    auth: Authentication,
) -> Outcome {
    if tbs.nonce != 0 {
        (Err(TxError::NonceMustBeZero), s)
    } else if !auth.trusted {
        (Err(TxError::InvalidCertificate), s)
    } else if !auth.key_readable {
        (Err(TxError::MalformedCertificate), s)
    } else if !auth.signature_valid {
        (Err(TxError::BadSignature), s)
    } else {
        spec_insert_account(s, tbs.cert@)
    }
}

pub open spec fn spec_send(s: LedgerView, tx: SignedData, tbs: TxSend, auth: Authentication) -> Outcome {
    match spec_accepts_signer(s, tx, tbs.nonce, auth) {
        Err(e) => (Err(e), s),
        Ok(_) => {
            let moved = spec_transfer(s, tx.id@, tbs.to@, tbs.amount);
            match moved.0 {
                Err(e) => (Err(e), s),
                Ok(_) => (Ok(()), with_nonce_bumped(moved.1, s.index_of(tx.id@))),
            }
        },
    }
}

pub open spec fn spec_mint(s: LedgerView, tx: SignedData, tbs: TxMint, auth: Authentication) -> Outcome {
    match spec_accepts_signer(s, tx, tbs.nonce, auth) {
        Err(e) => (Err(e), s),
        Ok(_) => {
            let i = s.index_of(tx.id@);
            if s.balances[i] + tbs.amount > u64::MAX {
                (Err(TxError::Overflow), s)
            } else {
                (
                    Ok(()),
                    with_nonce_bumped(
                        LedgerView {
                            balances: s.balances.update(i, (s.balances[i] + tbs.amount) as u64),
                            events: s.events.push(EventView::Minted(tx.id@, tbs.amount)),
                            ..s
                        },
                        i,
                    ),
                )
            }
        },
    }
}

pub open spec fn spec_vote(s: LedgerView, tx: SignedData, tbs: TxVote, auth: Authentication) -> Outcome {
    match spec_accepts_signer(s, tx, tbs.nonce, auth) {
        Err(e) => (Err(e), s),
        Ok(_) => {
            let term = (s.term() + 1) as u64;
            let total = s.votes_at(term) + tbs.amount;
            if total > u64::MAX {
                (Err(TxError::Overflow), s)
            } else if total > MAX_VOTE_BALANCE_PER_TERM {
                (Err(TxError::VoteCapExceeded), s)
            } else {
                (
                    Ok(()),
                    with_nonce_bumped(
                        LedgerView {
                            votes: s.votes.insert(term, total as u64),
                            events: s.events.push(EventView::Voted(tx.id@, tbs.amount)),
                            ..s
                        },
                        s.index_of(tx.id@),
                    ),
                )
            }
        },
    }
}

pub open spec fn spec_write(s: LedgerView, tx: SignedData, tbs: TxWrite, auth: Authentication) -> Outcome {
    match spec_accepts_signer(s, tx, tbs.nonce, auth) {
        Err(e) => (Err(e), s),
        Ok(_) => {
            let i = s.index_of(tx.id@);
            (
                Ok(()),
                with_nonce_bumped(
                    LedgerView {
                        accounts: s.accounts.update(i, AccountView { data: tbs.data@, ..s.accounts[i] }),
                        events: s.events.push(EventView::Written(tx.id@)),
                        ..s
                    },
                    i,
                ),
            )
        },
    }
}

/// Applies a transaction, given what the cryptographic checks found.
pub open spec fn step(s: LedgerView, tx: SignedData, auth: Authentication) -> Outcome {
    match tx.tbs {
        Tx::CreateAccount(t) => spec_create_account(s, t, auth),
        Tx::Send(t) => spec_send(s, tx, t, auth),
        Tx::Mint(t) => spec_mint(s, tx, t, auth),
        Tx::Vote(t) => spec_vote(s, tx, t, auth),
        Tx::Write(t) => spec_write(s, tx, t, auth),
        Tx::Other => (Ok(()), s),
    }
}

pub open spec fn no_authentication() -> Authentication {
    Authentication { trusted: false, key_readable: false, signature_valid: false }
}

/// What the cryptographic checks find for a transaction: account creation is checked
/// against the embedded certificate, the rest against the signer's stored one.
pub open spec fn authentication_of(s: LedgerView, tx: SignedData) -> Authentication {
    match tx.tbs {
        Tx::CreateAccount(t) => Authentication {
            trusted: trusted_by(s.roots, t.cert@),
            key_readable: key_usable(t.cert@),
            signature_valid: signed_under(t.cert@, tx),
        },
        Tx::Other => no_authentication(),
        _ => if s.has_account(tx.id@) {
            let cert = s.accounts[s.index_of(tx.id@)].cert;
            Authentication {
                trusted: false,
                key_readable: key_usable(cert),
                signature_valid: signed_under(cert, tx),
            }
        } else {
            no_authentication()
        },
    }
}

/// The hook run at the start of each block: it records the height and, on a term
/// boundary, carries the term's cumulative votes forward into the next term.
pub open spec fn spec_on_initialize(s: LedgerView, block_number: u64) -> LedgerView {
    let moved = LedgerView { block_number, ..s };
    if block_number % DISTRIBUTION_TERM == 0 {
        let term = block_number / DISTRIBUTION_TERM;
        LedgerView { votes: s.votes.insert((term + 1) as u64, s.votes_at(term)), ..moved }
    } else {
        moved
    }
}

} // verus!
