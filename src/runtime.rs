//! The ledger module: storage, the transaction handlers and the block hook.
use vstd::prelude::*;
use vstd::std_specs::hash::*;
use std::collections::HashMap;
use crate::crypto::{blake2_256, blake2_256_of, extract_public_key, key_usable, signed_under};
use crate::ledger::{
    authentication_of, initial, spec_accepts_signer, spec_create_account,
    spec_increment_nonce, spec_insert_account, spec_mint, spec_on_initialize, spec_send,
    spec_signer, spec_transfer, spec_vote, spec_write, step, with_nonce_bumped, LedgerView,
    DISTRIBUTION_TERM, MAX_VOTE_BALANCE_PER_TERM,
};
use crate::types::{
    Account, AccountId, Authentication, Event, SignedData, Tx, TxCreateAccount, TxError, TxMint,
    TxSend, TxVote, TxWrite,
};

verus! {

broadcast use vstd::std_specs::hash::group_hash_axioms;

/// The ledger: accounts, balances, cumulative votes and the block height.
pub struct Module {
    roots: Vec<Vec<u8>>,
    /// The accounts in order of registration; the position is the enumeration key.
    accounts: Vec<Account>,
    /// The raw balance of the account at the same position.
    balances: Vec<u64>,
    votes: HashMap<u64, u64>,
    block_number: u64,
    events: Vec<Event>,
}

impl View for Module {
    type V = LedgerView;

    closed spec fn view(&self) -> LedgerView {
        LedgerView {
            roots: self.roots@.map_values(|c: Vec<u8>| c@),
            accounts: self.accounts@.map_values(|a: Account| a@),
            balances: self.balances@,
            votes: self.votes@,
            block_number: self.block_number,
            events: self.events@.map_values(|e: Event| e@),
        }
    }
}

/// A copy of a byte string.
fn copy_bytes(v: &Vec<u8>) -> (r: Vec<u8>)
    ensures
        r@ == v@,
{
    let mut r: Vec<u8> = Vec::new();
    let mut i: usize = 0;
    while i < v.len()
        invariant
            i <= v@.len(),
            r@ == v@.subrange(0, i as int),
        decreases v@.len() - i,
    {
        r.push(v[i]);
        i += 1;
        assert(r@ =~= v@.subrange(0, i as int));
    }
    assert(r@ =~= v@);
    r
}

/// The result of `compute_balance`: the raw balance plus the current term's cumulative
/// votes, which every account shares.
pub open spec fn spec_compute_balance(s: LedgerView, id: Seq<u8>) -> Result<u64, TxError> {
    if !s.has_account(id) {
        Err(TxError::AccountNotFound)
    } else if s.raw_balance(id) + s.votes_at(s.term()) > u64::MAX {
        Err(TxError::Overflow)
    } else {
        Ok((s.raw_balance(id) + s.votes_at(s.term())) as u64)
    }
}

/// Whether two account identifiers are equal.
pub fn same_id(a: &AccountId, b: &AccountId) -> (r: bool)
    ensures
        r == (a@ == b@),
{
    let mut i: usize = 0;
    while i < 32
        invariant
            i <= 32,
            a@.len() == 32,
            b@.len() == 32,
            forall|j: int| 0 <= j < i ==> a@[j] == b@[j],
        decreases 32 - i,
    {
        if a[i] != b[i] {
            return false;
        }
        i += 1;
    }
    assert(a@ =~= b@);
    true
}

impl Module {
    /// An empty ledger that trusts the given root certificates.
    pub fn new(roots: Vec<Vec<u8>>) -> (r: Module)
        ensures
            r@ == initial(roots@.map_values(|c: Vec<u8>| c@)),
            r@.wf(),
    {
        let r = Module {
            roots,
            accounts: Vec::new(),
            balances: Vec::new(),
            votes: HashMap::new(),
            block_number: 0,
            events: Vec::new(),
        };
        assert(r@.accounts =~= seq![]);
        assert(r@.events =~= seq![]);
        assert(r@.votes =~= Map::empty());
        r
    }

    /// The position of an account.
    fn find_account(&self, id: &AccountId) -> (r: Option<usize>)
        requires
            self@.wf(),
        ensures
            match r {
                Some(i) => i < self@.accounts.len() && self@.has_account(id@) && i
                    == self@.index_of(id@),
                None => !self@.has_account(id@),
            },
    {
        let mut i: usize = 0;
        while i < self.accounts.len()
            invariant
                i <= self.accounts@.len(),
                self@.wf(),
                forall|j: int| 0 <= j < i ==> #[trigger] self@.accounts[j].id != id@,
            decreases self.accounts@.len() - i,
        {
            if same_id(&self.accounts[i].id, id) {
                proof {
                    self@.lemma_index_of(id@, i as int);
                }
                return Some(i);
            }
            i += 1;
        }
        None
    }

    /// Registers the certificate as a new account, identified by its digest.
    pub fn insert_account(&mut self, cert: Vec<u8>) -> (r: Result<(), TxError>)
        requires
            old(self)@.wf(),
        ensures
            (r, final(self)@) == spec_insert_account(old(self)@, cert@),
            final(self)@.wf(),
    {
        let id = blake2_256(cert.as_slice());
        if self.find_account(&id).is_some() {
            return Err(TxError::AccountAlreadyExists);
        }
        let ghost before = self@;
        let ghost cert_view = cert@;
        self.accounts.push(Account { cert, id, nonce: 0, data: Vec::new() });
        self.balances.push(0);
        self.events.push(Event::AccountAdd(id));
        let ghost expected = spec_insert_account(before, cert_view).1;
        assert(self@.accounts =~= expected.accounts);
        assert(self@.events =~= expected.events);
        Ok(())
    }

    /// Moves `amount` of raw balance from one account to another.
    pub fn transfer(&mut self, from: AccountId, to: AccountId, amount: u64) -> (r: Result<
        (),
        TxError,
    >)
        requires
            old(self)@.wf(),
        ensures
            (r, final(self)@) == spec_transfer(old(self)@, from@, to@, amount),
            final(self)@.wf(),
    {
        let fi = match self.find_account(&from) {
            Some(i) => i,
            None => return Err(TxError::AccountNotFound),
        };
        let ti = match self.find_account(&to) {
            Some(i) => i,
            None => return Err(TxError::AccountNotFound),
        };
        if self.balances[fi] < amount {
            return Err(TxError::Underflow);
        }
        if self.balances[ti] > u64::MAX - amount {
            return Err(TxError::Overflow);
        }
        let ghost before = self@;
        let debited = self.balances[fi] - amount;
        self.balances.set(fi, debited);
        let credited = self.balances[ti] + amount;
        self.balances.set(ti, credited);
        self.events.push(Event::Transferred(from, to, amount));
        let ghost expected = spec_transfer(before, from@, to@, amount).1;
        assert(self@.balances =~= expected.balances);
        assert(self@.events =~= expected.events);
        assert(self@.accounts =~= expected.accounts);
        Ok(())
    }

    /// Advances an account's nonce by one.
    pub fn increment_nonce(&mut self, id: AccountId) -> (r: Result<(), TxError>)
        requires
            old(self)@.wf(),
        ensures
            (r, final(self)@) == spec_increment_nonce(old(self)@, id@),
            final(self)@.wf(),
    {
        let i = match self.find_account(&id) {
            Some(i) => i,
            None => return Err(TxError::AccountNotFound),
        };
        if self.accounts[i].nonce == u64::MAX {
            return Err(TxError::Overflow);
        }
        self.bump_nonce(i);
        Ok(())
    }

    fn bump_nonce(&mut self, i: usize)
        requires
            old(self)@.wf(),
            i < old(self)@.accounts.len(),
            old(self)@.accounts[i as int].nonce < u64::MAX,
        ensures
            final(self)@ == with_nonce_bumped(old(self)@, i as int),
            final(self)@.wf(),
    {
        let ghost before = self@;
        let n = self.accounts[i].nonce;
        self.accounts[i].nonce = n + 1;
        let ghost expected = with_nonce_bumped(before, i as int);
        assert(self@.accounts =~= expected.accounts);
        assert(self@.events =~= expected.events);
        assert forall|j: int| 0 <= j < self@.accounts.len() implies #[trigger] self@.accounts[j].id
            == before.accounts[j].id && self@.accounts[j].cert == before.accounts[j].cert by {}
    }

    /// The cumulative votes of a term; zero where none were cast.
    pub fn votes_cum(&self, term: u64) -> (r: u64)
        ensures
            r == self@.votes_at(term),
    {
        match self.votes.get(&term) {
            Some(v) => *v,
            None => 0,
        }
    }

    /// The current voting term.
    pub fn term_number(&self) -> (r: u64)
        ensures
            r == self@.term(),
    {
        self.block_number / DISTRIBUTION_TERM
    }

    /// An account's effective balance: its raw balance plus the distributed pool.
    pub fn compute_balance(&self, id: AccountId) -> (r: Result<u64, TxError>)
        requires
            self@.wf(),
        ensures
            r == spec_compute_balance(self@, id@),
    {
        let i = match self.find_account(&id) {
            Some(i) => i,
            None => return Err(TxError::AccountNotFound),
        };
        let raw = self.balances[i];
        let pool = self.votes_cum(self.term_number());
        if raw > u64::MAX - pool {
            return Err(TxError::Overflow);
        }
        Ok(raw + pool)
    }

    /// Checks that the transaction comes from the registered account it names.
    pub fn ensure_rsa_signed(&self, tx: &SignedData, auth: &Authentication) -> (r: Result<
        AccountId,
        TxError,
    >)
        requires
            self@.wf(),
        ensures
            match r {
                Ok(id) => spec_signer(self@, *tx, *auth) is Ok && id == tx.id,
                Err(e) => spec_signer(self@, *tx, *auth) == Err::<(), TxError>(e),
            },
    {
        if self.find_account(&tx.id).is_none() {
            return Err(TxError::AccountNotFound);
        }
        if !auth.key_readable {
            return Err(TxError::MalformedCertificate);
        }
        if !auth.signature_valid {
            return Err(TxError::BadSignature);
        }
        Ok(tx.id)
    }

    /// The signer and nonce checks; the signer's position on success.
    fn accept_signer(&self, tx: &SignedData, nonce: u64, auth: &Authentication) -> (r: Result<
        usize,
        TxError,
    >)
        requires
            self@.wf(),
        ensures
            match r {
                Ok(i) => spec_accepts_signer(self@, *tx, nonce, *auth) is Ok && self@.has_account(tx.id@)
                    && i == self@.index_of(tx.id@) && i < self@.accounts.len(),
                Err(e) => spec_accepts_signer(self@, *tx, nonce, *auth) == Err::<(), TxError>(e),
            },
    {
        match self.ensure_rsa_signed(tx, auth) {
            Err(e) => return Err(e),
            Ok(_) => {},
        }
        let i = match self.find_account(&tx.id) {
            Some(i) => i,
            None => return Err(TxError::AccountNotFound),
        };
        let stored = self.accounts[i].nonce;
        if nonce != stored {
            return Err(TxError::StaleOrFutureNonce);
        }
        if stored == u64::MAX {
            return Err(TxError::Overflow);
        }
        Ok(i)
    }

    /// Registers the account of a certificate that a trusted root validates and whose
    /// key signed the request.
    pub fn create_account(&mut self, tbs: &TxCreateAccount, auth: &Authentication) -> (r: Result<
        (),
        TxError,
    >)
        requires
            old(self)@.wf(),
        ensures
            (r, final(self)@) == spec_create_account(old(self)@, *tbs, *auth),
            final(self)@.wf(),
    {
        if tbs.nonce != 0 {
            return Err(TxError::NonceMustBeZero);
        }
        if !auth.trusted {
            return Err(TxError::InvalidCertificate);
        }
        if !auth.key_readable {
            return Err(TxError::MalformedCertificate);
        }
        if !auth.signature_valid {
            return Err(TxError::BadSignature);
        }
        self.insert_account(copy_bytes(&tbs.cert))
    }

    /// Transfers raw balance from the signer to another account.
    pub fn send(&mut self, tx: &SignedData, tbs: &TxSend, auth: &Authentication) -> (r: Result<
        (),
        TxError,
    >)
        requires
            old(self)@.wf(),
        ensures
            (r, final(self)@) == spec_send(old(self)@, *tx, *tbs, *auth),
            final(self)@.wf(),
    {
        let i = match self.accept_signer(tx, tbs.nonce, auth) {
            Ok(i) => i,
            Err(e) => return Err(e),
        };
        match self.transfer(tx.id, tbs.to, tbs.amount) {
            Ok(()) => {},
            Err(e) => return Err(e),
        }
        self.bump_nonce(i);
        Ok(())
    }

    /// Adds to the signer's raw balance.
    pub fn mint(&mut self, tx: &SignedData, tbs: &TxMint, auth: &Authentication) -> (r: Result<
        (),
        TxError,
    >)
        requires
            old(self)@.wf(),
        ensures
            (r, final(self)@) == spec_mint(old(self)@, *tx, *tbs, *auth),
            final(self)@.wf(),
    {
        let i = match self.accept_signer(tx, tbs.nonce, auth) {
            Ok(i) => i,
            Err(e) => return Err(e),
        };
        if self.balances[i] > u64::MAX - tbs.amount {
            return Err(TxError::Overflow);
        }
        let ghost before = self@;
        let minted = self.balances[i] + tbs.amount;
        self.balances.set(i, minted);
        self.events.push(Event::Minted(tx.id, tbs.amount));
        assert(self@.balances =~= before.balances.update(i as int, minted));
        assert(self@.events =~= before.events.push(crate::types::EventView::Minted(tx.id@, tbs.amount)));
        self.bump_nonce(i);
        Ok(())
    }

    /// Adds the signer's vote to the next term's cumulative votes, within the cap.
    pub fn vote(&mut self, tx: &SignedData, tbs: &TxVote, auth: &Authentication) -> (r: Result<
        (),
        TxError,
    >)
        requires
            old(self)@.wf(),
        ensures
            (r, final(self)@) == spec_vote(old(self)@, *tx, *tbs, *auth),
            final(self)@.wf(),
    {
        let i = match self.accept_signer(tx, tbs.nonce, auth) {
            Ok(i) => i,
            Err(e) => return Err(e),
        };
        let term = self.term_number() + 1;
        let current = self.votes_cum(term);
        if current > u64::MAX - tbs.amount {
            return Err(TxError::Overflow);
        }
        let total = current + tbs.amount;
        if total > MAX_VOTE_BALANCE_PER_TERM {
            return Err(TxError::VoteCapExceeded);
        }
        let ghost before = self@;
        self.votes.insert(term, total);
        self.events.push(Event::Voted(tx.id, tbs.amount));
        assert(self@.votes =~= before.votes.insert(term, total));
        assert(self@.events =~= before.events.push(crate::types::EventView::Voted(tx.id@, tbs.amount)));
        self.bump_nonce(i);
        Ok(())
    }

    /// Overwrites the signer's data.
    pub fn write(&mut self, tx: &SignedData, tbs: &TxWrite, auth: &Authentication) -> (r: Result<
        (),
        TxError,
    >)
        requires
            old(self)@.wf(),
        ensures
            (r, final(self)@) == spec_write(old(self)@, *tx, *tbs, *auth),
            final(self)@.wf(),
    {
        let i = match self.accept_signer(tx, tbs.nonce, auth) {
            Ok(i) => i,
            Err(e) => return Err(e),
        };
        let ghost before = self@;
        let data = copy_bytes(&tbs.data);
        self.accounts[i].data = data;
        self.events.push(Event::Written(tx.id));
        let ghost updated = before.accounts.update(
            i as int,
            crate::types::AccountView { data: tbs.data@, ..before.accounts[i as int] },
        );
        assert(self@.accounts =~= updated);
        assert(self@.events =~= before.events.push(crate::types::EventView::Written(tx.id@)));
        assert forall|j: int| 0 <= j < self@.accounts.len() implies #[trigger] self@.accounts[j].id
            == before.accounts[j].id && self@.accounts[j].cert == before.accounts[j].cert by {}
        assert forall|a: int, b: int|
            0 <= a < self@.accounts.len() && 0 <= b < self@.accounts.len() && a != b
                implies #[trigger] self@.accounts[a].id != #[trigger] self@.accounts[b].id by {
            assert(self@.accounts[a].id == before.accounts[a].id);
            assert(self@.accounts[b].id == before.accounts[b].id);
        }
        assert forall|j: int| 0 <= j < self@.accounts.len() implies #[trigger] self@.accounts[j].id
            == blake2_256_of(self@.accounts[j].cert) by {
            assert(self@.accounts[j].id == before.accounts[j].id);
        }
        assert(self@.votes == before.votes);
        assert(self@.wf());
        self.bump_nonce(i);
        Ok(())
    }

    /// Applies a transaction, given what the cryptographic checks found for it.
    pub fn dispatch(&mut self, tx: &SignedData, auth: &Authentication) -> (r: Result<
        (),
        TxError,
    >)
        requires
            old(self)@.wf(),
        ensures
            (r, final(self)@) == step(old(self)@, *tx, *auth),
            final(self)@.wf(),
    {
        match &tx.tbs {
            Tx::CreateAccount(t) => self.create_account(t, auth),
            Tx::Send(t) => self.send(tx, t, auth),
            Tx::Mint(t) => self.mint(tx, t, auth),
            Tx::Vote(t) => self.vote(tx, t, auth),
            Tx::Write(t) => self.write(tx, t, auth),
            Tx::Other => Ok(()),
        }
    }

    /// Runs the key extraction and signature check of a transaction against a certificate.
    fn check_signature(cert: &[u8], tx: &SignedData, trusted: bool) -> (r: Authentication)
        ensures
            r == (Authentication {
                trusted,
                key_readable: key_usable(cert@),
                signature_valid: signed_under(cert@, *tx),
            }),
    {
        match extract_public_key(cert) {
            Err(_) => Authentication { trusted, key_readable: false, signature_valid: false },
            Ok(key) => {
                let valid = tx.verify(key).is_ok();
                Authentication { trusted, key_readable: true, signature_valid: valid }
            },
        }
    }

    /// Runs the cryptographic checks of a transaction: account creation against its
    /// embedded certificate and the trusted roots, the rest against the signer's stored
    /// certificate.
    pub fn authenticate(&self, tx: &SignedData) -> (r: Authentication)
        requires
            self@.wf(),
        ensures
            r == authentication_of(self@, *tx),
    {
        match &tx.tbs {
            Tx::CreateAccount(t) => {
                let trusted = t.check_ca(&self.roots).is_ok();
                Self::check_signature(t.cert.as_slice(), tx, trusted)
            },
            Tx::Other => Authentication {
                trusted: false,
                key_readable: false,
                signature_valid: false,
            },
            _ => match self.find_account(&tx.id) {
                Some(i) => {
                    assert(self@.accounts[i as int].cert == self.accounts@[i as int].cert@);
                    Self::check_signature(self.accounts[i].cert.as_slice(), tx, false)
                },
                None => Authentication { trusted: false, key_readable: false, signature_valid: false },
            },
        }
    }

    /// Authenticates and applies a transaction.
    pub fn go(&mut self, tx: &SignedData) -> (r: Result<(), TxError>)
        requires
            old(self)@.wf(),
        ensures
            (r, final(self)@) == step(old(self)@, *tx, authentication_of(old(self)@, *tx)),
            final(self)@.wf(),
    {
        let auth = self.authenticate(tx);
        self.dispatch(tx, &auth)
    }

    /// The hook run at the start of each block.
    pub fn on_initialize(&mut self, block_number: u64)
        requires
            old(self)@.wf(),
        ensures
            final(self)@ == spec_on_initialize(old(self)@, block_number),
            final(self)@.wf(),
    {
        let ghost before = self@;
        self.block_number = block_number;
        if block_number % DISTRIBUTION_TERM == 0 {
            let term = block_number / DISTRIBUTION_TERM;
            let carried = self.votes_cum(term);
            self.votes.insert(term + 1, carried);
        }
    }

    /// The account registered under `id`.
    pub fn account(&self, id: AccountId) -> (r: Option<&Account>)
        requires
            self@.wf(),
        ensures
            match r {
                Some(a) => self@.has_account(id@) && a@ == self@.accounts[self@.index_of(id@)],
                None => !self@.has_account(id@),
            },
    {
        match self.find_account(&id) {
            Some(i) => Some(&self.accounts[i]),
            None => None,
        }
    }

    /// The raw balance of `id`; zero for an unregistered identifier.
    pub fn balance(&self, id: AccountId) -> (r: u64)
        requires
            self@.wf(),
        ensures
            r == self@.raw_balance(id@),
    {
        match self.find_account(&id) {
            Some(i) => self.balances[i],
            None => 0,
        }
    }

    /// The number of registered accounts.
    pub fn account_count(&self) -> (r: usize)
        ensures
            r == self@.accounts.len(),
    {
        self.accounts.len()
    }

    /// The identifier of the account registered in position `n`.
    pub fn account_enum(&self, n: usize) -> (r: Option<AccountId>)
        ensures
            match r {
                Some(id) => n < self@.accounts.len() && id@ == self@.accounts[n as int].id,
                None => n >= self@.accounts.len(),
            },
    {
        if n < self.accounts.len() {
            Some(self.accounts[n].id)
        } else {
            None
        }
    }

    /// The events emitted so far, oldest first.
    pub fn events(&self) -> (r: &Vec<Event>)
        ensures
            r@.map_values(|e: Event| e@) == self@.events,
    {
        &self.events
    }

    /// The current block height.
    pub fn block_number(&self) -> (r: u64)
        ensures
            r == self@.block_number,
    {
        self.block_number
    }
}

} // verus!
