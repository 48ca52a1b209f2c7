//! The payload that is signed for an unchecked extrinsic.
//!
//! A signer signs, and a verifier rebuilds, the bytes that
//! [`SignedPayload::using_encoded`] hands out: the canonical encoding of the
//! call, the signed extension and its additional signed data, or the 256-bit
//! digest of that encoding where it is longer than [`HASH_THRESHOLD`] bytes.

use crate::hashing::{blake2_256, blake2_256_spec, DIGEST_LEN};
use sp_runtime::transaction_validity::TransactionValidityError;
use vstd::prelude::*;
use vstd::slice::slice_to_vec;

verus! {

/// The error with which a signed extension refuses to produce its additional
/// signed data. Its contents are not inspected here: it is only passed on.
#[verifier::external_type_specification]
#[verifier::external_body]
pub struct ExTransactionValidityError(TransactionValidityError);

/// Encodings longer than this many bytes are replaced by their digest.
pub const HASH_THRESHOLD: usize = 256;

/// A value with a canonical byte encoding: equal values encode to equal bytes,
/// wherever and whenever they are encoded.
pub trait Encode {
    /// The canonical encoding of the value. An implementation that is to be
    /// reasoned about defines it; by default it is left unspecified.
    open spec fn encoding(&self) -> Seq<u8> {
        arbitrary()
    }

    /// Convert self to an owned vector.
    fn encode(&self) -> (bytes: Vec<u8>)
        ensures
            bytes@ == self.encoding(),
    ;

    /// Convert self to a slice and then invoke the given closure with it.
    fn using_encoded<R, F: FnOnce(&[u8]) -> R>(&self, f: F) -> (r: R)
        requires
            forall|b: &[u8]| b@ == self.encoding() ==> call_requires(f, (b,)),
        ensures
            exists|b: &[u8]| b@ == self.encoding() && call_ensures(f, (b,), r),
    {
        let bytes = self.encode();
        f(bytes.as_slice())
    }
}

/// Means by which a transaction is extended: data that is signed along with
/// the call, and from which further signed data is derived.
pub trait SignedExtension: Encode {
    /// Any additional data that will go into the signed payload.
    type AdditionalSigned: Encode;

    /// Whether `additional_signed` may return `outcome` for this value. By
    /// default nothing is said of what it returns.
    open spec fn may_yield(
        &self,
        outcome: Result<Self::AdditionalSigned, TransactionValidityError>,
    ) -> bool {
        true
    }

    /// Construct any additional data that should be in the signed payload of
    /// the transaction, or say why it cannot be had.
    fn additional_signed(&self) -> (outcome: Result<
        Self::AdditionalSigned,
        TransactionValidityError,
    >)
        ensures
            self.may_yield(outcome),
    ;
}

/// The bytes to sign for a payload whose canonical encoding is `encoded`:
/// the encoding itself up to the threshold, its digest beyond.
pub open spec fn signing_bytes(encoded: Seq<u8>) -> Seq<u8> {
    if encoded.len() > HASH_THRESHOLD {
        blake2_256_spec(encoded)
    } else {
        encoded
    }
}

/// The number of bytes to sign for a payload whose canonical encoding has
/// `encoded_len` bytes.
pub open spec fn signing_len(encoded_len: nat) -> nat {
    if encoded_len > HASH_THRESHOLD {
        DIGEST_LEN as nat
    } else {
        encoded_len
    }
}

/// Invokes `f` with the bytes to sign for the encoded payload `payload`:
/// with its digest where it is longer than [`HASH_THRESHOLD`] bytes, with
/// `payload` itself otherwise.
pub fn using_signing_bytes<R, F: FnOnce(&[u8]) -> R>(payload: &[u8], f: F) -> (r: R)
    requires
        forall|b: &[u8]| b@ == signing_bytes(payload@) ==> call_requires(f, (b,)),
    ensures
        exists|b: &[u8]|
            {
                &&& b@ == signing_bytes(payload@)
                &&& b@.len() == signing_len(payload@.len())
                &&& call_ensures(f, (b,), r)
            },
{
    if payload.len() > HASH_THRESHOLD {
        let digest = blake2_256(payload);
        f(digest.as_slice())
    } else {
        f(payload)
    }
}

/// A payload that has been signed for an unchecked extrinsics.
///
/// Note that the payload that we sign to produce unchecked extrinsic signature
/// is going to be different than the `SignaturePayload` - so the thing the extrinsic
/// actually contains.
#[derive(Clone, Eq, PartialEq, Debug)]
pub struct SignedPayload<Call: Encode, Extra: SignedExtension> {
    call: Call,
    extra: Extra,
    additional_signed: Extra::AdditionalSigned,
}

impl<Call: Encode, Extra: SignedExtension> View for SignedPayload<Call, Extra> {
    type V = (Call, Extra, Extra::AdditionalSigned);

    /// The stored triple: the call, the extension, its additional signed data.
    closed spec fn view(&self) -> Self::V {
        (self.call, self.extra, self.additional_signed)
    }
}

impl<Call: Encode, Extra: SignedExtension> SignedPayload<Call, Extra> {
    /// The canonical encoding of the stored triple: the encodings of its three
    /// parts, one after the other.
    pub open spec fn raw_encoding(&self) -> Seq<u8> {
        self@.0.encoding() + self@.1.encoding() + self@.2.encoding()
    }

    /// Whether `r` is what `new` may return for `call` and `extra`: a payload
    /// of the two with additional signed data that `extra` may yield, or an
    /// error that `extra` may yield.
    pub open spec fn built_from(
        call: Call,
        extra: Extra,
        r: Result<Self, TransactionValidityError>,
    ) -> bool {
        match r {
            Ok(payload) => {
                &&& payload@.0 == call
                &&& payload@.1 == extra
                &&& extra.may_yield(Ok(payload@.2))
            },
            Err(e) => extra.may_yield(Err(e)),
        }
    }

    /// Create new `SignedPayload`.
    ///
    /// This function may fail if `additional_signed` of `Extra` is not available.
    pub fn new(call: Call, extra: Extra) -> (r: Result<Self, TransactionValidityError>)
        ensures
            Self::built_from(call, extra, r),
    {
        let outcome = extra.additional_signed();
        Self::with_additional_signed(call, extra, outcome)
    }

    /// Create a `SignedPayload` from what `additional_signed` of `extra`
    /// returned: the payload of the three parts where it gave a value, its
    /// error as it is where it gave none.
    pub fn with_additional_signed(
        call: Call,
        extra: Extra,
        outcome: Result<Extra::AdditionalSigned, TransactionValidityError>,
    ) -> (r: Result<Self, TransactionValidityError>)
        ensures
            match outcome {
                Ok(additional_signed) => r matches Ok(payload) && payload@ == (
                    call,
                    extra,
                    additional_signed,
                ),
                Err(e) => r == Err::<Self, TransactionValidityError>(e),
            },
    {
        match outcome {
            Ok(additional_signed) => Ok(Self::from_raw(call, extra, additional_signed)),
            Err(e) => Err(e),
        }
    }

    /// Create new `SignedPayload` from raw components.
    pub fn from_raw(call: Call, extra: Extra, additional_signed: Extra::AdditionalSigned) -> (r:
        Self)
        ensures
            r@ == (call, extra, additional_signed),
    {
        SignedPayload { call, extra, additional_signed }
    }

    /// Encodes the stored triple, part after part.
    fn encode_raw(&self) -> (bytes: Vec<u8>)
        ensures
            bytes@ == self.raw_encoding(),
    {
        let mut bytes = self.call.encode();
        let mut extra = self.extra.encode();
        let mut additional_signed = self.additional_signed.encode();
        bytes.append(&mut extra);
        bytes.append(&mut additional_signed);
        bytes
    }

    /// A payload is its stored triple: two payloads that store the same call,
    /// extension and additional signed data are the same payload.
    pub proof fn lemma_triple_determines_payload(self, other: Self)
        requires
            self@ == other@,
        ensures
            self == other,
    {
    }

    /// Where `extra` can only yield the value `additional_signed`, `new`
    /// succeeds, and the payload that it builds is the one that `from_raw`
    /// builds of the same call, extension and additional signed data.
    pub proof fn lemma_new_agrees_with_from_raw(
        call: Call,
        extra: Extra,
        additional_signed: Extra::AdditionalSigned,
        built: Result<Self, TransactionValidityError>,
        raw: Self,
    )
        requires
            forall|outcome: Result<Extra::AdditionalSigned, TransactionValidityError>|
                #[trigger] extra.may_yield(outcome) ==> outcome == Ok::<
                    Extra::AdditionalSigned,
                    TransactionValidityError,
                >(additional_signed),
            Self::built_from(call, extra, built),
            raw@ == (call, extra, additional_signed),
        ensures
            built == Ok::<Self, TransactionValidityError>(raw),
    {
        match built {
            Ok(payload) => {
                assert(extra.may_yield(Ok(payload@.2)));
                payload.lemma_triple_determines_payload(raw);
            },
            Err(e) => {
                assert(extra.may_yield(Err(e)));
            },
        }
    }

    /// Where `extra` can only yield the error `e`, `new` fails with `e`
    /// itself.
    pub proof fn lemma_new_propagates_error(
        call: Call,
        extra: Extra,
        e: TransactionValidityError,
        built: Result<Self, TransactionValidityError>,
    )
        requires
            forall|outcome: Result<Extra::AdditionalSigned, TransactionValidityError>|
                #[trigger] extra.may_yield(outcome) ==> outcome == Err::<
                    Extra::AdditionalSigned,
                    TransactionValidityError,
                >(e),
            Self::built_from(call, extra, built),
        ensures
            built == Err::<Self, TransactionValidityError>(e),
    {
        match built {
            Ok(payload) => {
                assert(extra.may_yield(Ok(payload@.2)));
            },
            Err(other) => {
                assert(extra.may_yield(Err(other)));
            },
        }
    }

    /// A payload whose stored triple encodes to at most [`HASH_THRESHOLD`]
    /// bytes is signed as that encoding, byte for byte; one of exactly
    /// [`HASH_THRESHOLD`] bytes is among them.
    pub proof fn lemma_short_payload_is_kept(self)
        requires
            self.raw_encoding().len() <= HASH_THRESHOLD,
        ensures
            self.encoding() == self.raw_encoding(),
            self.encoding().len() == self.raw_encoding().len(),
    {
    }

    /// A payload whose stored triple encodes to more than [`HASH_THRESHOLD`]
    /// bytes is signed as the 256-bit digest of that encoding.
    pub proof fn lemma_long_payload_is_hashed(self)
        requires
            self.raw_encoding().len() > HASH_THRESHOLD,
        ensures
            self.encoding() == blake2_256_spec(self.raw_encoding()),
    {
    }

    /// Encoding a payload again gives the same bytes: whatever two encodings
    /// of one payload hand out is equal.
    pub proof fn lemma_encoding_is_idempotent(self, first: Seq<u8>, second: Seq<u8>)
        requires
            first == self.encoding(),
            second == self.encoding(),
        ensures
            first == second,
    {
    }
}

impl<Call: Encode, Extra: SignedExtension> Encode for SignedPayload<Call, Extra> {
    /// The bytes to sign: the encoding of the stored triple, or its digest
    /// where that encoding is longer than [`HASH_THRESHOLD`] bytes.
    open spec fn encoding(&self) -> Seq<u8> {
        signing_bytes(self.raw_encoding())
    }

    fn encode(&self) -> (bytes: Vec<u8>)
        ensures
            bytes@.len() == signing_len(self.raw_encoding().len()),
    {
        let payload = self.encode_raw();
        let to_owned = |b: &[u8]| -> (owned: Vec<u8>)
            ensures
                owned@ == b@,
            { slice_to_vec(b) };
        using_signing_bytes(payload.as_slice(), to_owned)
    }

    /// Get an encoded version of this payload.
    ///
    /// Payloads longer than 256 bytes are going to be `blake2_256`-hashed.
    fn using_encoded<R, F: FnOnce(&[u8]) -> R>(&self, f: F) -> (r: R)
        ensures
            exists|b: &[u8]|
                {
                    &&& b@ == self.encoding()
                    &&& b@.len() == signing_len(self.raw_encoding().len())
                    &&& call_ensures(f, (b,), r)
                },
    {
        let payload = self.encode_raw();
        using_signing_bytes(payload.as_slice(), f)
    }
}

} // verus!
