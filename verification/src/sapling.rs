//! The parameter store: deserializes Groth16 parameter blobs and derives
//! prepared verifying keys, one pair per circuit kind.

use vstd::prelude::*;
use blstrs::Bls12;
use ironfish_bellperson::groth16;

verus! {

/// The three zk-SNARK circuits whose trusted-setup parameters this crate
/// manages. Their parameters are never interchangeable.
#[derive(Clone, Copy, Debug, PartialEq, Eq, Structural)]
pub enum CircuitKind {
    Spend,
    Output,
    Mint,
}

/// How loading parameters can fail. A missing or unreadable file surfaces as
/// `IoError` (raised by the caller that reads the file); bytes that do not
/// deserialize into valid key material surface as `FormatError`.
#[derive(Clone, Debug, PartialEq, Eq)]
pub enum SaplingError {
    IoError(String),
    FormatError,
}

/// One circuit's proving parameters, with the raw verifying key embedded in
/// them. Opaque to verification: the curve points inside belong to the proof
/// system. Holds `ironfish_bellperson::groth16::Parameters<Bls12>`.
#[verifier::external_body]
pub struct SaplingParams {
    pub inner: groth16::Parameters<Bls12>,
}

/// One circuit's raw (unprepared) verifying key, as embedded in its proving
/// parameters. Holds `ironfish_bellperson::groth16::VerifyingKey<Bls12>`.
#[verifier::external_body]
pub struct SaplingVerifyingKey {
    pub inner: groth16::VerifyingKey<Bls12>,
}

/// One circuit's prepared verifying key: the raw key with its pairing terms
/// precomputed for fast repeated verification. Holds
/// `ironfish_bellperson::groth16::PreparedVerifyingKey<Bls12>`.
#[verifier::external_body]
pub struct SaplingPreparedKey {
    pub inner: groth16::PreparedVerifyingKey<Bls12>,
}

/// The proving parameters that a given byte stream deserializes to, or `None`
/// where the stream is not a well-formed encoding. Deserialization is a pure
/// function of the bytes, so naming its result lets contracts state that
/// loading is deterministic.
pub uninterp spec fn params_of(bytes: Seq<u8>) -> Option<SaplingParams>;

/// The raw verifying key embedded in a set of proving parameters.
pub uninterp spec fn vk_of(params: SaplingParams) -> SaplingVerifyingKey;

/// The prepared form of a raw verifying key: the pairing precomputation is a
/// pure function of the key alone.
pub uninterp spec fn prepared_of(vk: SaplingVerifyingKey) -> SaplingPreparedKey;

/// Relies on `ironfish_bellperson::groth16::Parameters::read` (group checks
/// skipped): deserializing a byte stream is a pure function of the bytes,
/// and fails exactly on streams that are not a well-formed encoding.
#[verifier::external_body]
fn read_params(bytes: &[u8]) -> (r: Option<SaplingParams>)
    ensures
        r == params_of(bytes@),
{
    match groth16::Parameters::read(bytes, false) {
        Ok(inner) => Some(SaplingParams { inner }),
        Err(_) => None,
    }
}

/// Relies on the `vk` field of `ironfish_bellperson::groth16::Parameters`
/// and its `Clone`: the raw verifying key deserialized together with the
/// proving key.
#[verifier::external_body]
fn params_vk(params: &SaplingParams) -> (r: SaplingVerifyingKey)
    ensures
        r == vk_of(*params),
{
    SaplingVerifyingKey { inner: params.inner.vk.clone() }
}

/// Relies on `ironfish_bellperson::groth16::prepare_verifying_key`: the
/// pairing precomputation is deterministic and total on its input.
#[verifier::external_body]
fn prepare_verifying_key(vk: &SaplingVerifyingKey) -> (r: SaplingPreparedKey)
    ensures
        r == prepared_of(*vk),
{
    SaplingPreparedKey { inner: groth16::prepare_verifying_key(&vk.inner) }
}

/// The (proving parameters, prepared verifying key) pair that loading a byte
/// stream yields, or `None` where the stream is rejected.
pub open spec fn loaded_pair_of(bytes: Seq<u8>) -> Option<(SaplingParams, SaplingPreparedKey)> {
    match params_of(bytes) {
        Some(params) => Some((params, prepared_of(vk_of(params)))),
        None => None,
    }
}

/// Deserialize one circuit's proving parameters from raw bytes.
pub fn load_params(bytes: &[u8]) -> (r: Result<SaplingParams, SaplingError>)
    ensures
        r is Ok <==> params_of(bytes@) is Some,
        r is Ok ==> r->Ok_0 == params_of(bytes@)->0,
        r is Err ==> r->Err_0 == SaplingError::FormatError,
{
    match read_params(bytes) {
        Some(params) => Ok(params),
        None => Err(SaplingError::FormatError),
    }
}

/// Deserialize one circuit's proving parameters and derive its prepared
/// verifying key. The two halves of the pair always come from the same byte
/// stream, so a bundle built from this function never mismatches a proving
/// key with another circuit's verifying key. The circuit kind names which
/// circuit the bytes belong to; every kind is decoded the same way.
pub fn load_for_circuit(kind: CircuitKind, bytes: &[u8]) -> (r: Result<(SaplingParams, SaplingPreparedKey), SaplingError>)
    ensures
        r is Ok <==> loaded_pair_of(bytes@) is Some,
        r is Ok ==> r->Ok_0 == loaded_pair_of(bytes@)->0,
        r is Err ==> r->Err_0 == SaplingError::FormatError,
{
    let params = match load_params(bytes) {
        Ok(params) => params,
        Err(e) => {
            return Err(e);
        },
    };
    let prepared = prepare_verifying_key(&params_vk(&params));
    Ok((params, prepared))
}

/// Loading parameters is deterministic: two loads of the same bytes yield
/// the same proving parameters and the same prepared verifying key, for any
/// circuit kind.
pub proof fn lemma_load_for_circuit_deterministic(
    bytes1: Seq<u8>,
    bytes2: Seq<u8>,
    r1: (SaplingParams, SaplingPreparedKey),
    r2: (SaplingParams, SaplingPreparedKey),
)
    requires
        bytes1 == bytes2,
        loaded_pair_of(bytes1) == Some(r1),
        loaded_pair_of(bytes2) == Some(r2),
    ensures
        r1 == r2,
{
}

/// The parameter bundle: a proving key and a prepared verifying key for each
/// of the three circuits. Immutable once built; the registry publishes one
/// instance per process.
pub struct Sapling {
    pub spend_params: SaplingParams,
    pub output_params: SaplingParams,
    pub mint_params: SaplingParams,
    pub spend_verifying_key: SaplingPreparedKey,
    pub output_verifying_key: SaplingPreparedKey,
    pub mint_verifying_key: SaplingPreparedKey,
}

/// Whether all three byte streams deserialize into valid key material.
pub open spec fn all_params_ok(mint: Seq<u8>, spend: Seq<u8>, output: Seq<u8>) -> bool {
    &&& params_of(mint) is Some
    &&& params_of(spend) is Some
    &&& params_of(output) is Some
}

/// The bundle that loading three valid byte streams yields.
pub open spec fn bundle_of(mint: Seq<u8>, spend: Seq<u8>, output: Seq<u8>) -> Sapling
    recommends
        all_params_ok(mint, spend, output),
{
    Sapling {
        spend_params: (loaded_pair_of(spend)->0).0,
        output_params: (loaded_pair_of(output)->0).0,
        mint_params: (loaded_pair_of(mint)->0).0,
        spend_verifying_key: (loaded_pair_of(spend)->0).1,
        output_verifying_key: (loaded_pair_of(output)->0).1,
        mint_verifying_key: (loaded_pair_of(mint)->0).1,
    }
}

impl Sapling {
    /// Spec-level view of `params_for`: which proving parameters belong to a
    /// circuit kind.
    pub open spec fn params_spec(&self, kind: CircuitKind) -> SaplingParams {
        match kind {
            CircuitKind::Spend => self.spend_params,
            CircuitKind::Output => self.output_params,
            CircuitKind::Mint => self.mint_params,
        }
    }

    /// Spec-level view of `verifying_key_for`: which prepared verifying key
    /// belongs to a circuit kind.
    pub open spec fn verifying_key_spec(&self, kind: CircuitKind) -> SaplingPreparedKey {
        match kind {
            CircuitKind::Spend => self.spend_verifying_key,
            CircuitKind::Output => self.output_verifying_key,
            CircuitKind::Mint => self.mint_verifying_key,
        }
    }

    /// Build the whole bundle from three parameter blobs, one per circuit.
    /// Succeeds exactly when all three blobs deserialize; on any failure no
    /// partial bundle is returned.
    pub fn load(mint_bytes: Vec<u8>, spend_bytes: Vec<u8>, output_bytes: Vec<u8>) -> (r: Result<Sapling, SaplingError>)
        ensures
            r is Ok <==> all_params_ok(mint_bytes@, spend_bytes@, output_bytes@),
            r is Ok ==> r->Ok_0 == bundle_of(mint_bytes@, spend_bytes@, output_bytes@),
            r is Err ==> r->Err_0 == SaplingError::FormatError,
    {
        let spend = match load_for_circuit(CircuitKind::Spend, spend_bytes.as_slice()) {
            Ok(pair) => pair,
            Err(e) => {
                return Err(e);
            },
        };
        let output = match load_for_circuit(CircuitKind::Output, output_bytes.as_slice()) {
            Ok(pair) => pair,
            Err(e) => {
                return Err(e);
            },
        };
        let mint = match load_for_circuit(CircuitKind::Mint, mint_bytes.as_slice()) {
            Ok(pair) => pair,
            Err(e) => {
                return Err(e);
            },
        };
        Ok(Sapling {
            spend_params: spend.0,
            output_params: output.0,
            mint_params: mint.0,
            spend_verifying_key: spend.1,
            output_verifying_key: output.1,
            mint_verifying_key: mint.1,
        })
    }

    /// The proving parameters for one circuit kind.
    pub fn params_for(&self, kind: CircuitKind) -> (r: &SaplingParams)
        ensures
            *r == self.params_spec(kind),
    {
        match kind {
            CircuitKind::Spend => &self.spend_params,
            CircuitKind::Output => &self.output_params,
            CircuitKind::Mint => &self.mint_params,
        }
    }

    /// The prepared verifying key for one circuit kind.
    pub fn verifying_key_for(&self, kind: CircuitKind) -> (r: &SaplingPreparedKey)
        ensures
            *r == self.verifying_key_spec(kind),
    {
        match kind {
            CircuitKind::Spend => &self.spend_verifying_key,
            CircuitKind::Output => &self.output_verifying_key,
            CircuitKind::Mint => &self.mint_verifying_key,
        }
    }
}

/// In a bundle built from three valid blobs, the key pair looked up by any
/// circuit kind is matched: the prepared verifying key is the one derived
/// from the raw verifying key embedded in that same circuit's proving
/// parameters, never another circuit's.
pub proof fn lemma_bundle_keys_matched(mint: Seq<u8>, spend: Seq<u8>, output: Seq<u8>, kind: CircuitKind)
    requires
        all_params_ok(mint, spend, output),
    ensures
        bundle_of(mint, spend, output).verifying_key_spec(kind)
            == prepared_of(vk_of(bundle_of(mint, spend, output).params_spec(kind))),
{
}

} // verus!
