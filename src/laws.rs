//! What holds of every run of the ledger.
use vstd::prelude::*;
use crate::crypto::{blake2_256_of, key_usable, signed_under};
use crate::ledger::{
    authentication_of, spec_accepts_signer, spec_on_initialize,
    spec_transfer, step, with_nonce_bumped, LedgerView, MAX_VOTE_BALANCE_PER_TERM,
};
use crate::types::{Authentication, SignedData, Tx, TxError};

verus! {

/// The sum of a sequence of balances.
pub open spec fn total(balances: Seq<u64>) -> int
    decreases balances.len(),
{
    if balances.len() == 0 {
        0
    } else {
        total(balances.drop_last()) + balances.last()
    }
}

/// Applies the transactions in order, each with its authentication.
pub open spec fn run(s: LedgerView, txs: Seq<SignedData>, auths: Seq<Authentication>) -> LedgerView
    decreases txs.len(),
{
    if txs.len() == 0 || auths.len() == 0 {
        s
    } else {
        run(step(s, txs[0], auths[0]).1, txs.drop_first(), auths.drop_first())
    }
}

proof fn lemma_total_update(b: Seq<u64>, i: int, v: u64)
    requires
        0 <= i < b.len(),
    ensures
        total(b.update(i, v)) == total(b) - b[i] + v,
    decreases b.len(),
{
    let u = b.update(i, v);
    if i == b.len() - 1 {
        assert(u.drop_last() =~= b.drop_last());
    } else {
        assert(u.drop_last() =~= b.drop_last().update(i, v));
        lemma_total_update(b.drop_last(), i, v);
    }
}

proof fn lemma_index_in_range(s: LedgerView, id: Seq<u8>)
    requires
        s.has_account(id),
    ensures
        0 <= s.index_of(id) < s.accounts.len(),
        s.accounts[s.index_of(id)].id == id,
{
}

/// The ids, and so the positions, of the accounts stay where they were.
proof fn lemma_same_ids(s: LedgerView, t: LedgerView)
    requires
        s.wf(),
        t.accounts.len() == s.accounts.len(),
        forall|i: int| 0 <= i < s.accounts.len() ==> #[trigger] t.accounts[i].id == s.accounts[i].id,
        forall|i: int| 0 <= i < s.accounts.len() ==> #[trigger] t.accounts[i].cert == s.accounts[i].cert,
        t.balances.len() == s.balances.len(),
        forall|k: u64| #[trigger] t.votes.contains_key(k) ==> t.votes[k] <= MAX_VOTE_BALANCE_PER_TERM,
    ensures
        t.wf(),
        forall|id: Seq<u8>| t.has_account(id) == s.has_account(id),
        forall|id: Seq<u8>| s.has_account(id) ==> t.index_of(id) == s.index_of(id),
{
    assert forall|a: int, b: int|
        0 <= a < t.accounts.len() && 0 <= b < t.accounts.len() && a != b
            implies #[trigger] t.accounts[a].id != #[trigger] t.accounts[b].id by {
        assert(t.accounts[a].id == s.accounts[a].id);
        assert(t.accounts[b].id == s.accounts[b].id);
    }
    assert forall|i: int| 0 <= i < t.accounts.len() implies #[trigger] t.accounts[i].id
        == blake2_256_of(t.accounts[i].cert) by {
        assert(t.accounts[i].id == s.accounts[i].id);
    }
    assert forall|id: Seq<u8>| t.has_account(id) == s.has_account(id) by {
        if t.has_account(id) {
            let i = t.index_of(id);
            assert(s.accounts[i].id == id);
        }
        if s.has_account(id) {
            let i = s.index_of(id);
            assert(t.accounts[i].id == id);
        }
    }
    assert forall|id: Seq<u8>| s.has_account(id) implies t.index_of(id) == s.index_of(id) by {
        let i = s.index_of(id);
        assert(t.accounts[i].id == id);
        t.lemma_index_of(id, i);
    }
}

proof fn lemma_bump_keeps_ids(s: LedgerView, i: int)
    requires
        s.wf(),
        0 <= i < s.accounts.len(),
    ensures
        with_nonce_bumped(s, i).wf(),
        with_nonce_bumped(s, i).balances == s.balances,
        forall|id: Seq<u8>| with_nonce_bumped(s, i).has_account(id) == s.has_account(id),
        forall|id: Seq<u8>| s.has_account(id) ==> with_nonce_bumped(s, i).index_of(id)
            == s.index_of(id),
{
    let t = with_nonce_bumped(s, i);
    assert forall|j: int| 0 <= j < s.accounts.len() implies #[trigger] t.accounts[j].id
        == s.accounts[j].id && t.accounts[j].cert == s.accounts[j].cert by {}
    lemma_same_ids(s, t);
}

/// Each transition keeps the ledger's invariant.
pub proof fn lemma_step_wf(s: LedgerView, tx: SignedData, auth: Authentication)
    requires
        s.wf(),
    ensures
        step(s, tx, auth).1.wf(),
{
    let r = step(s, tx, auth);
    if r.0 is Ok {
        match tx.tbs {
            Tx::CreateAccount(t) => {
                let id = blake2_256_of(t.cert@);
                let n = r.1;
                assert forall|a: int, b: int|
                    0 <= a < n.accounts.len() && 0 <= b < n.accounts.len() && a != b
                        implies #[trigger] n.accounts[a].id != #[trigger] n.accounts[b].id by {
                    if a < s.accounts.len() && b < s.accounts.len() {
                        assert(n.accounts[a] == s.accounts[a]);
                        assert(n.accounts[b] == s.accounts[b]);
                    } else if a < s.accounts.len() {
                        assert(n.accounts[a] == s.accounts[a]);
                    } else {
                        assert(n.accounts[b] == s.accounts[b]);
                    }
                }
                assert forall|i: int| 0 <= i < n.accounts.len() implies #[trigger] n.accounts[i].id
                    == blake2_256_of(n.accounts[i].cert) by {
                    if i < s.accounts.len() {
                        assert(n.accounts[i] == s.accounts[i]);
                    }
                }
            },
            Tx::Send(t) => {
                let i = s.index_of(tx.id@);
                lemma_index_in_range(s, tx.id@);
                let moved = spec_transfer(s, tx.id@, t.to@, t.amount).1;
                lemma_index_in_range(s, t.to@);
                assert(moved.accounts == s.accounts);
                lemma_same_ids(s, moved);
                lemma_bump_keeps_ids(moved, i);
            },
            Tx::Mint(t) => {
                let i = s.index_of(tx.id@);
                lemma_index_in_range(s, tx.id@);
                let minted = LedgerView {
                    balances: s.balances.update(i, (s.balances[i] + t.amount) as u64),
                    events: s.events.push(crate::types::EventView::Minted(tx.id@, t.amount)),
                    ..s
                };
                lemma_same_ids(s, minted);
                lemma_bump_keeps_ids(minted, i);
            },
            Tx::Vote(t) => {
                let i = s.index_of(tx.id@);
                lemma_index_in_range(s, tx.id@);
                let term = (s.term() + 1) as u64;
                let total = s.votes_at(term) + t.amount;
                let voted = LedgerView {
                    votes: s.votes.insert(term, total as u64),
                    events: s.events.push(crate::types::EventView::Voted(tx.id@, t.amount)),
                    ..s
                };
                lemma_same_ids(s, voted);
                lemma_bump_keeps_ids(voted, i);
            },
            Tx::Write(t) => {
                let i = s.index_of(tx.id@);
                lemma_index_in_range(s, tx.id@);
                let written = LedgerView {
                    accounts: s.accounts.update(
                        i,
                        crate::types::AccountView { data: t.data@, ..s.accounts[i] },
                    ),
                    events: s.events.push(crate::types::EventView::Written(tx.id@)),
                    ..s
                };
                assert forall|j: int| 0 <= j < s.accounts.len() implies #[trigger] written.accounts[j].id
                    == s.accounts[j].id && written.accounts[j].cert == s.accounts[j].cert by {}
                lemma_same_ids(s, written);
                lemma_bump_keeps_ids(written, i);
            },
            Tx::Other => {},
        }
    }
}

/// The block hook keeps the ledger's invariant, and with it the vote cap.
pub proof fn lemma_on_initialize_wf(s: LedgerView, block_number: u64)
    requires
        s.wf(),
    ensures
        spec_on_initialize(s, block_number).wf(),
{
}

/// A rejected transaction leaves the ledger exactly as it was.
pub proof fn lemma_rejection_changes_nothing(s: LedgerView, tx: SignedData, auth: Authentication)
    requires
        s.wf(),
        step(s, tx, auth).0 is Err,
    ensures
        step(s, tx, auth).1 == s,
{
}

/// A Send leaves the sum of the raw balances as it was.
pub proof fn lemma_send_conserves(s: LedgerView, tx: SignedData, auth: Authentication)
    requires
        s.wf(),
        tx.tbs is Send,
    ensures
        total(step(s, tx, auth).1.balances) == total(s.balances),
{
    let t = tx.tbs->Send_0;
    let r = step(s, tx, auth);
    if r.0 is Ok {
        let from = tx.id@;
        let to = t.to@;
        lemma_index_in_range(s, from);
        lemma_index_in_range(s, to);
        let fi = s.index_of(from);
        let ti = s.index_of(to);
        let debited = s.balances.update(fi, (s.raw_balance(from) - t.amount) as u64);
        let credited = debited.update(ti, (debited[ti] + t.amount) as u64);
        lemma_total_update(s.balances, fi, (s.raw_balance(from) - t.amount) as u64);
        lemma_total_update(debited, ti, (debited[ti] + t.amount) as u64);
        assert(r.1.balances == credited);
    }
}

/// Conservation: any sequence of Send transactions, accepted or not, leaves the sum of
/// all raw balances unchanged.
pub proof fn lemma_sends_conserve(s: LedgerView, txs: Seq<SignedData>, auths: Seq<Authentication>)
    requires
        s.wf(),
        forall|i: int| 0 <= i < txs.len() ==> (#[trigger] txs[i]).tbs is Send,
    ensures
        total(run(s, txs, auths).balances) == total(s.balances),
    decreases txs.len(),
{
    if txs.len() > 0 && auths.len() > 0 {
        let next = step(s, txs[0], auths[0]).1;
        lemma_send_conserves(s, txs[0], auths[0]);
        lemma_step_wf(s, txs[0], auths[0]);
        assert forall|i: int| 0 <= i < txs.drop_first().len() implies (
        #[trigger] txs.drop_first()[i]).tbs is Send by {
            assert(txs.drop_first()[i] == txs[i + 1]);
        }
        lemma_sends_conserve(next, txs.drop_first(), auths.drop_first());
    }
}

/// Checked arithmetic: an accepted Mint adds exactly its amount to the signer's raw
/// balance, an accepted Send between two accounts moves exactly its amount, and an
/// accepted Vote adds exactly its amount to the next term's votes; no value wraps.
pub proof fn lemma_checked_arithmetic(s: LedgerView, tx: SignedData, auth: Authentication)
    requires
        s.wf(),
    ensures
        ({
            let r = step(s, tx, auth);
            r.0 is Ok ==> match tx.tbs {
                Tx::Mint(t) => r.1.raw_balance(tx.id@) == s.raw_balance(tx.id@) + t.amount,
                Tx::Send(t) => tx.id@ != t.to@ ==> r.1.raw_balance(tx.id@) == s.raw_balance(
                    tx.id@,
                ) - t.amount && r.1.raw_balance(t.to@) == s.raw_balance(t.to@) + t.amount,
                Tx::Vote(t) => r.1.votes_at((s.term() + 1) as u64) == s.votes_at(
                    (s.term() + 1) as u64,
                ) + t.amount,
                _ => true,
            }
        }),
{
    let r = step(s, tx, auth);
    if r.0 is Ok {
        match tx.tbs {
            Tx::Mint(t) => {
                let i = s.index_of(tx.id@);
                lemma_index_in_range(s, tx.id@);
                let minted = LedgerView {
                    balances: s.balances.update(i, (s.balances[i] + t.amount) as u64),
                    events: s.events.push(crate::types::EventView::Minted(tx.id@, t.amount)),
                    ..s
                };
                lemma_same_ids(s, minted);
                lemma_bump_keeps_ids(minted, i);
            },
            Tx::Send(t) => {
                let i = s.index_of(tx.id@);
                lemma_index_in_range(s, tx.id@);
                lemma_index_in_range(s, t.to@);
                let moved = spec_transfer(s, tx.id@, t.to@, t.amount).1;
                lemma_same_ids(s, moved);
                lemma_bump_keeps_ids(moved, i);
                if tx.id@ != t.to@ {
                    assert(s.index_of(tx.id@) != s.index_of(t.to@));
                }
            },
            _ => {},
        }
    }
}

/// Identity uniqueness: once a certificate's account creation is accepted, submitting
/// it again fails with AccountAlreadyExists; and it is accepted on a ledger that does
/// not hold the certificate yet, wherever every check passes.
pub proof fn lemma_register_once(s: LedgerView, tx: SignedData)
    requires
        s.wf(),
        tx.tbs is CreateAccount,
    ensures
        ({
            let cert = tx.tbs->CreateAccount_0.cert@;
            let auth = authentication_of(s, tx);
            let first = step(s, tx, auth);
            &&& (tx.tbs->CreateAccount_0.nonce == 0 && auth.trusted && auth.key_readable
                && auth.signature_valid && !s.has_account(blake2_256_of(cert))) ==> first.0 is Ok
            &&& first.0 is Ok ==> step(first.1, tx, authentication_of(first.1, tx)).0 == Err::<
                (),
                TxError,
            >(TxError::AccountAlreadyExists)
        }),
{
    let t = tx.tbs->CreateAccount_0;
    let auth = authentication_of(s, tx);
    let first = step(s, tx, auth);
    if first.0 is Ok {
        let n = first.1;
        let id = blake2_256_of(t.cert@);
        assert(n.accounts[s.accounts.len() as int].id == id);
        assert(n.has_account(id));
        assert(authentication_of(n, tx) == auth);
    }
}

/// Unauthorized mutation: a Send, Mint, Vote or Write that names a registered account,
/// whose stored certificate yields a key under which the signature does not verify,
/// fails with BadSignature and changes nothing.
pub proof fn lemma_forged_signature_rejected(s: LedgerView, tx: SignedData)
    requires
        s.wf(),
        tx.tbs is Send || tx.tbs is Mint || tx.tbs is Vote || tx.tbs is Write,
        s.has_account(tx.id@),
        key_usable(s.accounts[s.index_of(tx.id@)].cert),
        !signed_under(s.accounts[s.index_of(tx.id@)].cert, tx),
    ensures
        step(s, tx, authentication_of(s, tx)) == (Err::<(), TxError>(TxError::BadSignature), s),
{
}

/// Cap enforcement: a Vote by an accepted signer that would take the next term's votes
/// past the cap is rejected with VoteCapExceeded, and after any Vote every term's votes
/// are within the cap.
pub proof fn lemma_vote_cap(s: LedgerView, tx: SignedData, auth: Authentication)
    requires
        s.wf(),
        tx.tbs is Vote,
    ensures
        ({
            let t = tx.tbs->Vote_0;
            let term = (s.term() + 1) as u64;
            spec_accepts_signer(s, tx, t.nonce, auth) is Ok && s.votes_at(term) + t.amount
                > MAX_VOTE_BALANCE_PER_TERM ==> step(s, tx, auth).0 == Err::<(), TxError>(
                if s.votes_at(term) + t.amount > u64::MAX {
                    TxError::Overflow
                } else {
                    TxError::VoteCapExceeded
                },
            )
        }),
        forall|k: u64| step(s, tx, auth).1.votes_at(k) <= MAX_VOTE_BALANCE_PER_TERM,
{
    lemma_step_wf(s, tx, auth);
}

} // verus!
