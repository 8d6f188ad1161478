//! Candidates: an address to test, and the secret that goes with it.
//!
//! A run draws its candidates from a generator, a function that hands out
//! one candidate per call, or `None` when it has no more. [`fresh`] is the
//! generator of real runs: every call makes a new random key pair.

use solana_sdk::signature::{Keypair, Signer};
use vstd::prelude::*;

verus! {

/// `solana_sdk`'s key pair. Nothing inside it is visible here.
#[verifier::external_type_specification]
#[verifier::external_body]
pub struct ExKeypair(solana_sdk::signature::Keypair);

/// `Keypair::new`: a key pair from fresh random bytes. Nothing is claimed of
/// it.
#[verifier::external_body]
fn fresh_keypair() -> (pair: Keypair) {
    Keypair::new()
}

/// `Signer::pubkey`, shown as text: the pair's public address in base 58.
/// Nothing is claimed of the text.
#[verifier::external_body]
fn address_text(pair: &Keypair) -> (address: String) {
    pair.pubkey().to_string()
}

/// `Keypair::to_base58_string`: the pair's secret and public bytes in base
/// 58. Nothing is claimed of the text.
#[verifier::external_body]
fn secret_text(pair: &Keypair) -> (secret: String) {
    pair.to_base58_string()
}

/// Where a candidate's secret comes from.
enum Secret {
    /// A key pair, exported only if the candidate is found.
    Pair(Keypair),
    /// A text that was given with the address.
    Text(String),
}

/// An address together with its secret.
pub struct Candidate {
    address: String,
    secret: Secret,
}

impl Candidate {
    /// The candidate's address, as text.
    pub closed spec fn spec_address(&self) -> Seq<char> {
        self.address@
    }

    /// The secret that the candidate was given as text, if it was given one.
    pub closed spec fn spec_given_secret(&self) -> Option<Seq<char>> {
        match self.secret {
            Secret::Pair(_) => None,
            Secret::Text(text) => Some(text@),
        }
    }

    /// Generates a key pair and derives its address.
    pub fn generate() -> (candidate: Self)
        ensures
            candidate.spec_given_secret() is None,
    {
        let pair = fresh_keypair();
        let address = address_text(&pair);
        Candidate { address, secret: Secret::Pair(pair) }
    }

    /// A candidate with a given address and a given secret.
    pub fn given(address: String, private_key: String) -> (candidate: Self)
        ensures
            candidate.spec_address() == address@,
            candidate.spec_given_secret() == Some(private_key@),
    {
        Candidate { address, secret: Secret::Text(private_key) }
    }

    /// The candidate's address.
    pub fn address(&self) -> (address: &str)
        ensures
            address@ == self.spec_address(),
    {
        self.address.as_str()
    }

    /// Gives up the candidate for its address and its secret: the text that
    /// was given, or else the export of its key pair.
    pub fn export(self) -> (texts: (String, String))
        ensures
            texts.0@ == self.spec_address(),
            self.spec_given_secret() matches Some(secret) ==> texts.1@ == secret,
    {
        let secret = match self.secret {
            Secret::Pair(pair) => secret_text(&pair),
            Secret::Text(text) => text,
        };
        (self.address, secret)
    }
}

/// The generator of real runs: a new random key pair at every call, and never
/// `None`.
pub fn fresh() -> (candidate: Option<Candidate>)
    ensures
        candidate matches Some(c) && c.spec_given_secret() is None,
{
    Some(Candidate::generate())
}

} // verus!
