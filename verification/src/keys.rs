use vstd::prelude::*;
use solana_keypair::Keypair;

verus! {

/// The ed25519 public key that a 32-byte secret seed derives, as
/// ed25519_dalek::SigningKey::verifying_key computes it: a function of the
/// seed alone.
pub uninterp spec fn derived_pubkey(seed: Seq<u8>) -> Seq<u8>;

/// The JSON array text that serde_json::to_string writes for a byte vector.
pub uninterp spec fn json_of(bytes: Seq<u8>) -> Seq<char>;

/// What serde_json::from_str reads from a text as a byte vector, if anything.
pub uninterp spec fn json_parse(text: Seq<char>) -> Option<Seq<u8>>;

/// The public key a loaded keypair signs under.
pub uninterp spec fn keypair_pubkey(k: Keypair) -> Seq<u8>;

/// 64 serialized keypair bytes: the secret seed followed by the public key
/// the seed derives.
pub open spec fn valid_keypair_bytes(b: Seq<u8>) -> bool {
    b.len() == 64 && b.subrange(32, 64) == derived_pubkey(b.subrange(0, 32))
}

#[verifier::external_type_specification]
#[verifier::external_body]
pub struct ExKeypair(Keypair);

/// Relies on solana_keypair::Keypair::new and Keypair::to_bytes: a fresh
/// random keypair serializes as its 32 secret bytes followed by the 32
/// public-key bytes that ed25519 derives from them.
#[verifier::external_body]
fn new_keypair_bytes() -> (r: Vec<u8>)
    ensures
        r@.len() == 64,
        r@.subrange(32, 64) == derived_pubkey(r@.subrange(0, 32)),
{
    Keypair::new().to_bytes().to_vec()
}

/// Relies on TryFrom<&[u8]> for solana_keypair::Keypair: accepted exactly
/// when the input is 64 bytes whose upper half is the public key derived
/// from the lower half; any other input is refused, never panicked on.  The
/// loaded keypair signs under that public key.
#[verifier::external_body]
pub(crate) fn keypair_from_bytes(b: &Vec<u8>) -> (r: Result<Keypair, ()>)
    ensures
        r is Ok <==> (b@.len() == 64 && b@.subrange(32, 64) == derived_pubkey(b@.subrange(0, 32))),
        r matches Ok(kp) ==> keypair_pubkey(kp) == b@.subrange(32, 64),
{
    Keypair::try_from(b.as_slice()).map_err(|_| ())
}

/// Relies on serde_json::to_string: serializing a byte vector cannot fail and
/// yields its JSON array text, which serde_json::from_str parses back to
/// exactly the same bytes.
#[verifier::external_body]
fn bytes_to_json(b: &Vec<u8>) -> (r: String)
    ensures
        r@ == json_of(b@),
        json_parse(r@) == Some(b@),
{
    serde_json::to_string(b).unwrap()
}

/// Relies on serde_json::from_str::<Vec<u8>>: parsing is a function of the
/// text alone; it succeeds exactly on the texts that are the JSON of some
/// byte vector, and then yields those bytes.
#[verifier::external_body]
fn bytes_from_json(s: &str) -> (r: Result<Vec<u8>, ()>)
    ensures
        r is Ok <==> json_parse(s@) is Some,
        r matches Ok(b) ==> json_parse(s@) == Some(b@),
{
    serde_json::from_str::<Vec<u8>>(s).map_err(|_| ())
}

/// Why loading serialized private material was refused.
#[derive(Clone, Copy, PartialEq, Eq, Structural, Debug)]
pub enum KeyError {
    /// The text is not the JSON of a byte vector.
    Malformed,
    /// The bytes are not a 64-byte keypair whose halves belong together.
    Inconsistent,
}

/// A signing identity: 64 serialized keypair bytes, the secret seed followed
/// by the public key it derives.
pub struct Identity {
    pub bytes: Vec<u8>,
}

impl View for Identity {
    type V = Seq<u8>;

    open spec fn view(&self) -> Seq<u8> {
        self.bytes@
    }
}

impl Identity {
    /// The serialized bytes are a seed and the public key it derives.
    pub open spec fn wf(self) -> bool {
        valid_keypair_bytes(self.bytes@)
    }

    /// The public key half of the serialized bytes.
    pub open spec fn spec_pubkey(self) -> Seq<u8> {
        self.bytes@.subrange(32, 64)
    }

    /// A fresh random identity.
    pub fn generate() -> (r: Identity)
        ensures
            r.wf(),
    {
        Identity { bytes: new_keypair_bytes() }
    }

    /// The 32 public-key bytes of this identity.
    pub fn pubkey_bytes(&self) -> (r: Vec<u8>)
        requires
            self.wf(),
        ensures
            r@ == self.spec_pubkey(),
            r@.len() == 32,
    {
        let mut out: Vec<u8> = Vec::new();
        let mut i: usize = 32;
        while i < 64
            invariant
                self.wf(),
                32 <= i <= 64,
                out@ == self.bytes@.subrange(32, i as int),
            decreases 64 - i,
        {
            out.push(self.bytes[i]);
            proof {
                assert(self.bytes@.subrange(32, i + 1) =~= self.bytes@.subrange(32, i as int).push(
                    self.bytes@[i as int]));
            }
            i = i + 1;
        }
        out
    }
}

/// A fresh random signing identity.
pub fn generate_keypair() -> (r: Identity)
    ensures
        r.wf(),
{
    Identity::generate()
}

/// The JSON array text of an identity's serialized private material, fit for
/// the line-oriented configuration store.
pub fn keypair_to_json(id: &Identity) -> (r: String)
    ensures
        r@ == json_of(id@),
        json_parse(r@) == Some(id@),
{
    bytes_to_json(&id.bytes)
}

/// Loads an identity back from its JSON array text.  Refused exactly when the
/// text is not the JSON of a byte vector, or the bytes are not a well-formed
/// serialized keypair.
pub fn keypair_from_json(s: &str) -> (r: Result<Identity, KeyError>)
    ensures
        r is Ok <==> (json_parse(s@) matches Some(b) && valid_keypair_bytes(b)),
        r matches Ok(id) ==> json_parse(s@) == Some(id@) && id.wf(),
        r == Err::<Identity, KeyError>(KeyError::Malformed) <==> json_parse(s@) is None,
        r == Err::<Identity, KeyError>(KeyError::Inconsistent) <==> (json_parse(s@) matches Some(b)
            && !valid_keypair_bytes(b)),
{
    match bytes_from_json(s) {
        Err(_) => Err(KeyError::Malformed),
        Ok(bytes) => match keypair_from_bytes(&bytes) {
            Ok(_) => Ok(Identity { bytes }),
            Err(_) => Err(KeyError::Inconsistent),
        },
    }
}

/// Law: serializing an identity's private material and reloading it yields
/// the identity again; in particular the public key is identical.
pub fn identity_round_trip(id: &Identity) -> (r: Identity)
    requires
        id.wf(),
    ensures
        r@ == id@,
        r.spec_pubkey() == id.spec_pubkey(),
        r.wf(),
{
    let text = keypair_to_json(id);
    match keypair_from_json(text.as_str()) {
        Ok(reloaded) => reloaded,
        Err(_) => vstd::pervasive::unreached(),
    }
}

} // verus!
