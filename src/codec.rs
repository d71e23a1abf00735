//! The canonical (SCALE) encoding of a transaction body: what a signature covers.
use vstd::prelude::*;
use parity_scale_codec::Encode;
use crate::types::{AccountId, Tx};

verus! {

/// `x` written in `n` bytes, least significant first.
pub open spec fn le_bytes(x: nat, n: nat) -> Seq<u8>
    decreases n,
{
    if n == 0 {
        seq![]
    } else {
        seq![(x % 256) as u8] + le_bytes(x / 256, (n - 1) as nat)
    }
}

/// The compact length prefix of a byte string of `n` bytes.
pub open spec fn compact_prefix(n: nat) -> Seq<u8> {
    if n < 0x40 {
        le_bytes(n * 4, 1)
    } else if n < 0x4000 {
        le_bytes(n * 4 + 1, 2)
    } else if n < 0x4000_0000 {
        le_bytes(n * 4 + 2, 4)
    } else {
        seq![3u8] + le_bytes(n, 4)
    }
}

/// A byte string: its compact length, then its bytes.
pub open spec fn byte_string(b: Seq<u8>) -> Seq<u8> {
    compact_prefix(b.len()) + b
}

pub open spec fn word(x: u64) -> Seq<u8> {
    le_bytes(x as nat, 8)
}

/// The encoding of a transaction body: the variant's index, then its fields in order.
pub open spec fn tx_encoding(tx: Tx) -> Seq<u8> {
    match tx {
        Tx::CreateAccount(t) => seq![0u8] + byte_string(t.cert@) + word(t.nonce),
        Tx::Send(t) => seq![1u8] + t.to@ + word(t.amount) + word(t.nonce),
        Tx::Mint(t) => seq![2u8] + word(t.amount) + word(t.nonce),
        Tx::Vote(t) => seq![3u8] + word(t.amount) + word(t.nonce),
        Tx::Write(t) => seq![4u8] + byte_string(t.data@) + word(t.nonce),
        Tx::Other => seq![5u8],
    }
}

/// The byte strings of the body are short enough for a compact length.
pub open spec fn encodable(tx: Tx) -> bool {
    match tx {
        Tx::CreateAccount(t) => t.cert@.len() <= u32::MAX,
        Tx::Write(t) => t.data@.len() <= u32::MAX,
        _ => true,
    }
}

/// Relies on parity-scale-codec's `Encode` for `u64`: eight bytes, least significant first.
#[verifier::external_body]
fn encode_word(x: u64) -> (r: Vec<u8>)
    ensures
        r@ == word(x),
{
    x.encode()
}

/// Relies on parity-scale-codec's `Encode` for `[u8]`: the compact length, then the bytes.
/// It panics on more than `u32::MAX` bytes.
#[verifier::external_body]
fn encode_byte_string(b: &[u8]) -> (r: Vec<u8>)
    requires
        b@.len() <= u32::MAX,
    ensures
        r@ == byte_string(b@),
{
    b.encode()
}

/// Relies on parity-scale-codec's `Encode` for `[u8; 32]`: the bytes, with no length.
#[verifier::external_body]
fn encode_id(id: &AccountId) -> (r: Vec<u8>)
    ensures
        r@ == id@,
{
    id.encode()
}

/// Encodes a transaction body.
pub fn encode_tx(tx: &Tx) -> (r: Vec<u8>)
    requires
        encodable(*tx),
    ensures
        r@ == tx_encoding(*tx),
{
    let mut out: Vec<u8> = Vec::new();
    match tx {
        Tx::CreateAccount(t) => {
            out.push(0u8);
            let mut cert = encode_byte_string(t.cert.as_slice());
            out.append(&mut cert);
            let mut nonce = encode_word(t.nonce);
            out.append(&mut nonce);
        },
        Tx::Send(t) => {
            out.push(1u8);
            let mut to = encode_id(&t.to);
            out.append(&mut to);
            let mut amount = encode_word(t.amount);
            out.append(&mut amount);
            let mut nonce = encode_word(t.nonce);
            out.append(&mut nonce);
        },
        Tx::Mint(t) => {
            out.push(2u8);
            let mut amount = encode_word(t.amount);
            out.append(&mut amount);
            let mut nonce = encode_word(t.nonce);
            out.append(&mut nonce);
        },
        Tx::Vote(t) => {
            out.push(3u8);
            let mut amount = encode_word(t.amount);
            out.append(&mut amount);
            let mut nonce = encode_word(t.nonce);
            out.append(&mut nonce);
        },
        Tx::Write(t) => {
            out.push(4u8);
            let mut data = encode_byte_string(t.data.as_slice());
            out.append(&mut data);
            let mut nonce = encode_word(t.nonce);
            out.append(&mut nonce);
        },
        Tx::Other => {
            out.push(5u8);
        },
    }
    out
}

} // verus!
