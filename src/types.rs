//! The ledger's data: accounts, transactions, the signed envelope, events and errors.
use vstd::prelude::*;

verus! {

/// An account identifier: the BLAKE2b-256 digest of the account's certificate.
pub type AccountId = [u8; 32];

pub type Signature = Vec<u8>;

pub type Nonce = u64;

pub type Balance = u64;

/// One registered identity.
#[derive(Clone, Debug, PartialEq, Eq)]
pub struct Account {
    /// The DER certificate that authorizes every later transaction of the account.
    pub cert: Vec<u8>,
    pub id: AccountId,
    /// The number of transactions the account has had accepted.
    pub nonce: Nonce,
    /// A payload that the owner may overwrite.
    pub data: Vec<u8>,
}

/// The mathematical value of an [`Account`].
pub struct AccountView {
    pub cert: Seq<u8>,
    pub id: Seq<u8>,
    pub nonce: u64,
    pub data: Seq<u8>,
}

impl View for Account {
    type V = AccountView;

    open spec fn view(&self) -> AccountView {
        AccountView { cert: self.cert@, id: self.id@, nonce: self.nonce, data: self.data@ }
    }
}

#[derive(Clone, Debug, PartialEq, Eq)]
pub struct TxCreateAccount {
    pub cert: Vec<u8>,
    pub nonce: Nonce,
}

#[derive(Clone, Debug, PartialEq, Eq)]
pub struct TxSend {
    pub to: AccountId,
    pub amount: Balance,
    pub nonce: Nonce,
}

#[derive(Clone, Debug, PartialEq, Eq)]
pub struct TxMint {
    pub amount: Balance,
    pub nonce: Nonce,
}

#[derive(Clone, Debug, PartialEq, Eq)]
pub struct TxVote {
    pub amount: Balance,
    pub nonce: Nonce,
}

#[derive(Clone, Debug, PartialEq, Eq)]
pub struct TxWrite {
    pub data: Vec<u8>,
    pub nonce: Nonce,
}

/// The body of a transaction, the part that is signed.
#[derive(Clone, Debug, PartialEq, Eq)]
pub enum Tx {
    CreateAccount(TxCreateAccount),
    Send(TxSend),
    Mint(TxMint),
    Vote(TxVote),
    Write(TxWrite),
    /// Accepted and ignored.
    Other,
}

impl Default for Tx {
    fn default() -> (r: Tx)
        ensures
            r == Tx::Other,
    {
        Tx::Other
    }
}

/// A transaction body with a detached signature and the claimed signer.
#[derive(Clone, Debug, PartialEq, Eq)]
pub struct SignedData {
    pub tbs: Tx,
    pub signature: Signature,
    /// The signer; ignored for account creation, whose signer is not registered yet.
    pub id: AccountId,
}

/// What the ledger reports of an accepted transaction.
#[derive(Clone, Debug, PartialEq, Eq)]
pub enum Event {
    AccountAdd(AccountId),
    Transferred(AccountId, AccountId, Balance),
    Minted(AccountId, Balance),
    Voted(AccountId, Balance),
    Written(AccountId),
}

pub enum EventView {
    AccountAdd(Seq<u8>),
    Transferred(Seq<u8>, Seq<u8>, u64),
    Minted(Seq<u8>, u64),
    Voted(Seq<u8>, u64),
    Written(Seq<u8>),
}

impl View for Event {
    type V = EventView;

    open spec fn view(&self) -> EventView {
        match *self {
            Event::AccountAdd(id) => EventView::AccountAdd(id@),
            Event::Transferred(from, to, amount) => EventView::Transferred(from@, to@, amount),
            Event::Minted(id, amount) => EventView::Minted(id@, amount),
            Event::Voted(id, amount) => EventView::Voted(id@, amount),
            Event::Written(id) => EventView::Written(id@),
        }
    }
}

/// Why a transaction was rejected. A rejected transaction changes nothing.
#[derive(Clone, Copy, Debug, PartialEq, Eq, Structural)]
pub enum TxError {
    /// No trusted root validates the certificate.
    InvalidCertificate,
    /// No public key can be read from the certificate.
    MalformedCertificate,
    /// The signature does not verify under the certificate's key.
    BadSignature,
    AccountNotFound,
    AccountAlreadyExists,
    NonceMustBeZero,
    /// The transaction's nonce is not the account's current nonce.
    StaleOrFutureNonce,
    Overflow,
    Underflow,
    VoteCapExceeded,
}

/// What the cryptographic checks found for a transaction; see `Module::authenticate`.
#[derive(Clone, Copy, Debug, PartialEq, Eq, Structural)]
pub struct Authentication {
    /// For account creation: a trusted root validates the embedded certificate.
    pub trusted: bool,
    /// A public key can be read from the certificate that authorizes the transaction.
    pub key_readable: bool,
    /// The envelope's signature verifies under that key.
    pub signature_valid: bool,
}

} // verus!
