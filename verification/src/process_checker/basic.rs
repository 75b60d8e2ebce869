//! The decisions of the sample credential checkers: which binaries count as
//! the same application, and which short identifier an application gets.

use crate::errorcode::ErrorCode;
use crate::process::ShortId;
use crate::process_checker::CheckResult;
use vstd::prelude::*;

verus! {

/// The format of a credential.
#[derive(Clone, Copy, PartialEq, Eq, Structural, Debug)]
pub enum CredentialsType {
    /// A reserved format, which no checker supports.
    Reserved,
    /// An RSA 2048 signature.
    Rsa2048,
    /// An RSA 3072 public key.
    Rsa3072Key,
    /// An RSA 4096 public key.
    Rsa4096Key,
    /// A SHA-256 hash of the binary.
    SHA256,
    /// A SHA-384 hash of the binary.
    SHA384,
    /// A SHA-512 hash of the binary.
    SHA512,
    /// An identifier in clear text.
    CleartextID,
}

/// A credential in the footer of a binary: its format and its data.
#[derive(Clone, Debug)]
pub struct Credentials {
    /// The format of the credential.
    pub format: CredentialsType,
    /// The data of the credential: a hash, a key or a signature.
    pub data: Vec<u8>,
}

/// The short identifier built from the first four bytes of credential data:
/// those bytes as a big-endian number, with bit 27 set so that it is never
/// zero.
pub open spec fn short_id_bits(d0: u8, d1: u8, d2: u8, d3: u8) -> u32 {
    0x8000000u32 | ((d0 as u32) << 24u32) | ((d1 as u32) << 16u32) | ((d2 as u32) << 8u32) | (d3 as u32)
}

fn short_id_from_bytes(d0: u8, d1: u8, d2: u8, d3: u8) -> (r: ShortId)
    ensures
        r == ShortId::Fixed(short_id_bits(d0, d1, d2, d3)),
{
    let id: u32 = 0x8000000u32 | (d0 as u32) << 24u32 | (d1 as u32) << 16u32 | (d2 as u32) << 8u32
        | (d3 as u32);
    assert(id != 0) by (bit_vector)
        requires
            id == 0x8000000u32 | (d0 as u32) << 24u32 | (d1 as u32) << 16u32 | (d2 as u32) << 8u32
                | (d3 as u32),
    ;
    if id == 0 {
        ShortId::LocallyUnique
    } else {
        ShortId::Fixed(id)
    }
}

/// Whether two processes run different applications when applications are
/// told apart by name: the names differ.
pub fn names_differ(name_a: &[u8], name_b: &[u8]) -> (r: bool)
    ensures
        r == (name_a@ != name_b@),
{
    if name_a.len() != name_b.len() {
        return true;
    }
    let mut i: usize = 0;
    while i < name_a.len()
        invariant
            i <= name_a@.len(),
            name_a@.len() == name_b@.len(),
            forall|k: int| 0 <= k < i ==> name_a@[k] == name_b@[k],
        decreases name_a@.len() - i,
    {
        if name_a[i] != name_b[i] {
            return true;
        }
        i = i + 1;
    }
    assert(name_a@ =~= name_b@);
    false
}

/// Whether the data of two credentials differ in a position both have.
pub open spec fn differ_in_common_prefix(a: Seq<u8>, b: Seq<u8>) -> bool {
    exists|k: int| 0 <= k < a.len() && k < b.len() && a[k] != b[k]
}

fn common_prefix_differs(a: &[u8], b: &[u8]) -> (r: bool)
    ensures
        r == differ_in_common_prefix(a@, b@),
{
    let mut i: usize = 0;
    while i < a.len() && i < b.len()
        invariant
            i <= a@.len(),
            i <= b@.len(),
            forall|k: int| 0 <= k < i ==> a@[k] == b@[k],
        decreases a@.len() - i,
    {
        if a[i] != b[i] {
            return true;
        }
        i = i + 1;
    }
    false
}

/// Whether two processes run different applications when applications are
/// told apart by their hash credential: a process without a credential
/// differs from every process; two credentials differ in format or in a
/// byte that both have.
pub fn hash_credentials_differ(a: Option<&Credentials>, b: Option<&Credentials>) -> (r: bool)
    ensures
        r == match (a, b) {
            (Some(a), Some(b)) => a.format != b.format || differ_in_common_prefix(a.data@, b.data@),
            _ => true,
        },
{
    match (a, b) {
        (Some(a), Some(b)) => {
            if a.format != b.format {
                true
            } else {
                common_prefix_differs(a.data.as_slice(), b.data.as_slice())
            }
        },
        _ => true,
    }
}

/// Whether two processes run different applications when applications are
/// told apart by their key credential: a process without a credential
/// differs from every process; two credentials differ in format, in length
/// or in some byte.
pub fn key_credentials_differ(a: Option<&Credentials>, b: Option<&Credentials>) -> (r: bool)
    ensures
        r == match (a, b) {
            (Some(a), Some(b)) => a.format != b.format || a.data@ != b.data@,
            _ => true,
        },
{
    match (a, b) {
        (Some(a), Some(b)) => {
            if a.format != b.format {
                true
            } else {
                names_differ(a.data.as_slice(), b.data.as_slice())
            }
        },
        _ => true,
    }
}

/// The short identifier of an application identified by a hash credential,
/// from the first four bytes of the hash.
pub fn hash_short_id(data: &[u8]) -> (r: ShortId)
    requires
        data@.len() >= 4,
    ensures
        r == ShortId::Fixed(short_id_bits(data@[0], data@[1], data@[2], data@[3])),
{
    short_id_from_bytes(data[0], data[1], data[2], data[3])
}

/// The short identifier of an application identified by a key credential,
/// from the first four bytes of the key; `LocallyUnique` for data shorter
/// than that.
pub fn key_short_id(data: &[u8]) -> (r: ShortId)
    ensures
        data@.len() < 4 ==> r == ShortId::LocallyUnique,
        data@.len() >= 4 ==> r == ShortId::Fixed(short_id_bits(data@[0], data@[1], data@[2], data@[3])),
{
    if data.len() < 4 {
        return ShortId::LocallyUnique;
    }
    short_id_from_bytes(data[0], data[1], data[2], data[3])
}

/// The short identifier of an application identified by a hash of its name:
/// the hash, unless it is zero.
pub fn name_hash_short_id(sum: u32) -> (r: ShortId)
    ensures
        r == if sum == 0 {
            ShortId::LocallyUnique
        } else {
            ShortId::Fixed(sum)
        },
{
    if sum == 0 {
        ShortId::LocallyUnique
    } else {
        ShortId::Fixed(sum)
    }
}

/// The sample checkers that decide a credential later, one credential at a
/// time.
#[derive(Clone, Copy, PartialEq, Eq, Structural, Debug)]
pub enum DeferredPolicy {
    /// Passes every credential; none is required.
    Simulated,
    /// Accepts every credential; none is required.
    Names,
    /// Accepts RSA 3072 and RSA 4096 keys, without checking any signature,
    /// and passes the other credentials; a credential is required.
    RsaSimulated,
}

/// What a deferred checker decides of a credential.
pub open spec fn deferred_verdict(policy: DeferredPolicy, credentials: Credentials) -> CheckResult {
    match policy {
        DeferredPolicy::Simulated => CheckResult::Pass,
        DeferredPolicy::Names => CheckResult::Accept(None),
        DeferredPolicy::RsaSimulated => if credentials.format == CredentialsType::Rsa3072Key
            || credentials.format == CredentialsType::Rsa4096Key {
            CheckResult::Accept(None)
        } else {
            CheckResult::Pass
        },
    }
}

/// A sample checker that takes one credential, and decides it when its
/// deferred call runs, reporting the decision to its client.
pub struct DeferredChecker {
    policy: DeferredPolicy,
    has_client: bool,
    credentials: Option<Credentials>,
}

impl DeferredChecker {
    /// The policy of the checker.
    pub closed spec fn spec_policy(self) -> DeferredPolicy {
        self.policy
    }

    /// Whether a client is set.
    pub closed spec fn spec_has_client(self) -> bool {
        self.has_client
    }

    /// The credential being checked, if any.
    pub closed spec fn spec_pending(self) -> Option<Credentials> {
        self.credentials
    }

    /// A checker with the given policy, no client and nothing to check.
    pub fn new(policy: DeferredPolicy) -> (r: Self)
        ensures
            r.spec_policy() == policy,
            !r.spec_has_client(),
            r.spec_pending() is None,
    {
        DeferredChecker { policy, has_client: false, credentials: None }
    }

    /// Sets the client the decisions are reported to.
    pub fn set_client(&mut self)
        ensures
            final(self).spec_has_client(),
            final(self).spec_policy() == old(self).spec_policy(),
            final(self).spec_pending() == old(self).spec_pending(),
    {
        self.has_client = true;
    }

    /// Whether a binary needs an accepted credential to run.
    pub fn require_credentials(&self) -> (r: bool)
        ensures
            r == (self.spec_policy() == DeferredPolicy::RsaSimulated),
    {
        match self.policy {
            DeferredPolicy::RsaSimulated => true,
            _ => false,
        }
    }

    /// Takes a credential to check: fails with `BUSY`, giving it back, while
    /// another one is being checked.
    pub fn check_credentials(&mut self, credentials: Credentials) -> (r: Result<
        (),
        (ErrorCode, Credentials),
    >)
        ensures
            final(self).spec_policy() == old(self).spec_policy(),
            final(self).spec_has_client() == old(self).spec_has_client(),
            old(self).spec_pending() is None ==> r is Ok && final(self).spec_pending() == Some(
                credentials,
            ),
            old(self).spec_pending() is Some ==> r == Err::<(), (ErrorCode, Credentials)>(
                (ErrorCode::BUSY, credentials),
            ) && final(self).spec_pending() == old(self).spec_pending(),
    {
        if self.credentials.is_none() {
            self.credentials = Some(credentials);
            Ok(())
        } else {
            Err((ErrorCode::BUSY, credentials))
        }
    }

    /// Runs the deferred call: with a client, decides the credential being
    /// checked and gives the decision with the credential, after which the
    /// checker is free; without a client nothing happens and the credential
    /// stays.
    pub fn handle_deferred_call(&mut self) -> (r: Option<(CheckResult, Credentials)>)
        requires
            old(self).spec_has_client() ==> old(self).spec_pending() is Some,
        ensures
            final(self).spec_policy() == old(self).spec_policy(),
            final(self).spec_has_client() == old(self).spec_has_client(),
            old(self).spec_has_client() ==> {
                let c = old(self).spec_pending()->0;
                &&& r == Some((deferred_verdict(old(self).spec_policy(), c), c))
                &&& final(self).spec_pending() is None
            },
            !old(self).spec_has_client() ==> r is None && final(self).spec_pending() == old(
                self,
            ).spec_pending(),
    {
        if !self.has_client {
            return None;
        }
        let credentials: Credentials = match self.credentials.take() {
            Some(c) => c,
            None => {
                return None;
            },
        };
        let result: CheckResult = match self.policy {
            DeferredPolicy::Simulated => CheckResult::Pass,
            DeferredPolicy::Names => CheckResult::Accept(None),
            DeferredPolicy::RsaSimulated => {
                if credentials.format == CredentialsType::Rsa3072Key || credentials.format
                    == CredentialsType::Rsa4096Key {
                    CheckResult::Accept(None)
                } else {
                    CheckResult::Pass
                }
            },
        };
        Some((result, credentials))
    }
}

/// Starts the check of a credential by the SHA-256 checker: a SHA-256
/// credential gives the 32 bytes of the hash that the binary is compared
/// with; any other format is not supported.
pub fn sha256_check_start(credentials: &Credentials) -> (r: Result<[u8; 32], ErrorCode>)
    requires
        credentials.format == CredentialsType::SHA256 ==> credentials.data@.len() >= 32,
    ensures
        credentials.format == CredentialsType::SHA256 ==> r is Ok && r->Ok_0@
            == credentials.data@.subrange(0, 32),
        credentials.format != CredentialsType::SHA256 ==> r == Err::<[u8; 32], ErrorCode>(
            ErrorCode::NOSUPPORT,
        ),
{
    if credentials.format != CredentialsType::SHA256 {
        return Err(ErrorCode::NOSUPPORT);
    }
    let mut hash: [u8; 32] = [0u8; 32];
    let mut i: usize = 0;
    while i < 32
        invariant
            i <= 32,
            credentials.data@.len() >= 32,
            forall|k: int| 0 <= k < i ==> hash@[k] == credentials.data@[k],
        decreases 32 - i,
    {
        hash.set(i, credentials.data[i]);
        i = i + 1;
    }
    assert(hash@ =~= credentials.data@.subrange(0, 32));
    Ok(hash)
}

/// Starts the check of a credential by the RSA 2048 checker: an RSA 2048
/// credential gives the 256 bytes of the signature that the hash of the
/// binary is verified against; any other format is not supported.
pub fn rsa2048_check_start(credentials: &Credentials) -> (r: Result<[u8; 256], ErrorCode>)
    requires
        credentials.format == CredentialsType::Rsa2048 ==> credentials.data@.len() >= 256,
    ensures
        credentials.format == CredentialsType::Rsa2048 ==> r is Ok && r->Ok_0@
            == credentials.data@.subrange(0, 256),
        credentials.format != CredentialsType::Rsa2048 ==> r == Err::<[u8; 256], ErrorCode>(
            ErrorCode::NOSUPPORT,
        ),
{
    if credentials.format != CredentialsType::Rsa2048 {
        return Err(ErrorCode::NOSUPPORT);
    }
    let mut signature: [u8; 256] = [0u8; 256];
    let mut i: usize = 0;
    while i < 256
        invariant
            i <= 256,
            credentials.data@.len() >= 256,
            forall|k: int| 0 <= k < i ==> signature@[k] == credentials.data@[k],
        decreases 256 - i,
    {
        signature.set(i, credentials.data[i]);
        i = i + 1;
    }
    assert(signature@ =~= credentials.data@.subrange(0, 256));
    Ok(signature)
}

/// What the SHA-256 checker decides when the hash of the binary has been
/// compared with the credential: accept it when they match, reject it
/// otherwise.
pub fn sha256_verdict(matched: bool) -> (r: CheckResult)
    ensures
        r == if matched {
            CheckResult::Accept(None)
        } else {
            CheckResult::Reject
        },
{
    if matched {
        CheckResult::Accept(None)
    } else {
        CheckResult::Reject
    }
}

/// What the RSA 2048 checker decides when the signature has been verified:
/// accept the credential when the verification succeeded and found it
/// valid, pass it otherwise.
pub fn rsa_verdict(result: Result<bool, ErrorCode>) -> (r: CheckResult)
    ensures
        r == if result == Ok::<bool, ErrorCode>(true) {
            CheckResult::Accept(None)
        } else {
            CheckResult::Pass
        },
{
    match result {
        Ok(true) => CheckResult::Accept(None),
        _ => CheckResult::Pass,
    }
}

} // verus!
