//! Integrity verification: source and destination files are streamed in
//! lock-step, fixed-size chunk by chunk, each chunk feeding a running
//! 256-bit digest per file. A chunk pair of unequal length is a size
//! mismatch at once — this catches a short destination before any digest is
//! compared — and once the source is exhausted the two digests are compared
//! byte for byte. Streaming keeps the memory bound independent of file size.

use vstd::prelude::*;

use sha2::Digest;

verus! {

use crate::features::{BackupFeature, EntryInfo, HookContext, PostAction};
use crate::BackupError;

/// The 256-bit digest of `data`, as the hashing crate computes it: a
/// function of the bytes alone.
pub uninterp spec fn sha256_of(data: Seq<u8>) -> Seq<u8>;

#[verifier::external_type_specification]
#[verifier::external_body]
pub struct ExSha256(sha2::Sha256);

/// The bytes a hasher has absorbed so far.
pub uninterp spec fn absorbed(h: sha2::Sha256) -> Seq<u8>;

/// Relies on sha2::Sha256::new (through digest::Digest): a fresh hasher has
/// absorbed nothing.
#[verifier::external_body]
fn sha256_new() -> (h: sha2::Sha256)
    ensures
        absorbed(h) == Seq::<u8>::empty(),
{
    <sha2::Sha256 as Digest>::new()
}

/// Relies on sha2::Sha256::update (through digest::Digest): the chunk is
/// absorbed after everything fed before it.
#[verifier::external_body]
fn sha256_update(h: &mut sha2::Sha256, chunk: &[u8])
    ensures
        absorbed(*final(h)) == absorbed(*old(h)) + chunk@,
{
    Digest::update(h, chunk);
}

/// Relies on sha2::Sha256::finalize (through digest::Digest): the digest is
/// 32 bytes and a function of the absorbed bytes alone.
#[verifier::external_body]
fn sha256_finalize(h: sha2::Sha256) -> (r: Vec<u8>)
    ensures
        r@ == sha256_of(absorbed(h)),
        r@.len() == 32,
{
    Digest::finalize(h).to_vec()
}

fn bytes_equal(a: &Vec<u8>, b: &Vec<u8>) -> (r: bool)
    ensures
        r == (a@ == b@),
{
    if a.len() != b.len() {
        return false;
    }
    let mut i: usize = 0;
    while i < a.len()
        invariant
            0 <= i <= a@.len(),
            a@.len() == b@.len(),
            forall|j: int| 0 <= j < i ==> a@[j] == b@[j],
        decreases a@.len() - i,
    {
        if a[i] != b[i] {
            return false;
        }
        i += 1;
    }
    proof {
        assert(a@ =~= b@);
    }
    true
}

/// Streams two files in lock-step: each `feed` takes the next chunk read
/// from the source paired with the next chunk read from the destination,
/// and `finish` compares the two running digests once the source is
/// exhausted.
pub struct StreamVerifier {
    src_hasher: sha2::Sha256,
    dest_hasher: sha2::Sha256,
}

impl StreamVerifier {
    /// The source bytes fed so far.
    pub closed spec fn src_bytes(&self) -> Seq<u8> {
        absorbed(self.src_hasher)
    }

    /// The destination bytes fed so far.
    pub closed spec fn dest_bytes(&self) -> Seq<u8> {
        absorbed(self.dest_hasher)
    }

    /// A verifier that has seen nothing yet.
    pub fn new() -> (v: Self)
        ensures
            v.src_bytes() == Seq::<u8>::empty(),
            v.dest_bytes() == Seq::<u8>::empty(),
    {
        StreamVerifier { src_hasher: sha256_new(), dest_hasher: sha256_new() }
    }

    /// Takes one lock-step chunk pair. Chunks of unequal length are a size
    /// mismatch: the pair is rejected, nothing is absorbed, and no digest
    /// will ever be compared.
    pub fn feed(&mut self, src_chunk: &[u8], dest_chunk: &[u8]) -> (r: Result<(), BackupError>)
        ensures
            r is Ok <==> src_chunk@.len() == dest_chunk@.len(),
            r is Ok ==> final(self).src_bytes() == old(self).src_bytes() + src_chunk@
                && final(self).dest_bytes() == old(self).dest_bytes() + dest_chunk@,
            r is Err ==> r->Err_0 is SizeMismatch && *final(self) == *old(self),
    {
        if src_chunk.len() != dest_chunk.len() {
            return Err(BackupError::SizeMismatch);
        }
        sha256_update(&mut self.src_hasher, src_chunk);
        sha256_update(&mut self.dest_hasher, dest_chunk);
        Ok(())
    }

    /// Finalizes both digests and compares them byte for byte; any
    /// difference is a hash mismatch.
    pub fn finish(self) -> (r: Result<(), BackupError>)
        ensures
            r is Ok <==> sha256_of(self.src_bytes()) == sha256_of(self.dest_bytes()),
            r is Err ==> r->Err_0 is HashMismatch,
    {
        let src_digest = sha256_finalize(self.src_hasher);
        let dest_digest = sha256_finalize(self.dest_hasher);
        if bytes_equal(&src_digest, &dest_digest) {
            Ok(())
        } else {
            Err(BackupError::HashMismatch)
        }
    }
}

/// A file copied without corruption verifies successfully: when the two
/// streams hold the same bytes, their digests agree, so `finish` reports
/// success.
pub proof fn lemma_equal_streams_verify(v: StreamVerifier)
    requires
        v.src_bytes() == v.dest_bytes(),
    ensures
        sha256_of(v.src_bytes()) == sha256_of(v.dest_bytes()),
{
}

/// Verifies the integrity of files after they have been copied, comparing
/// source and destination by streamed digest; directories are not hashed.
pub struct IntegrityFeature {
    /// Whether integrity verification is active.
    pub enabled: bool,
}

impl BackupFeature for IntegrityFeature {
    open spec fn allows(&self, e: &EntryInfo) -> bool {
        true
    }

    open spec fn post_action(&self, ctx: &HookContext) -> PostAction {
        if self.enabled && !ctx.src_is_dir {
            PostAction::VerifyDigest
        } else {
            PostAction::Nothing
        }
    }

    fn initialize(&mut self) {
    }

    fn pre_process(&self, ctx: &HookContext) -> (r: Result<(), BackupError>) {
        Ok(())
    }

    fn process_file(&self, e: &EntryInfo) -> (r: Result<bool, BackupError>) {
        Ok(true)
    }

    fn post_process(&self, ctx: &HookContext) -> (r: Result<PostAction, BackupError>) {
        if self.enabled && !ctx.src_is_dir {
            Ok(PostAction::VerifyDigest)
        } else {
            Ok(PostAction::Nothing)
        }
    }
}

} // verus!
