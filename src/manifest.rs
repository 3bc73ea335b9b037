//! Integrity manifest: lengths and SHA-512 digests of a guest binary and its
//! metadata, with the public key that signs them.
//!
//! Wire layout, little-endian, no padding, 204 bytes in all: version (2),
//! flags (2), app_len (4), app_csum (64), meta_len (4), meta_csum (64),
//! key (32), sig (32).

use vstd::prelude::*;

use sha2::Digest;

verus! {

/// The only manifest version there is.
pub const MANIFEST_VERSION: u16 = 1;

/// Length in bytes of an encoded manifest.
pub const MANIFEST_LEN: usize = 204;

/// The SHA-512 digest of a byte sequence.
pub uninterp spec fn sha512_of(data: Seq<u8>) -> Seq<u8>;

/// Relies on `sha2::Sha512` through `digest::Digest::digest`: the 64-byte
/// SHA-512 digest of `data`, a function of the bytes alone.
#[verifier::external_body]
fn sha512(data: &[u8]) -> (r: [u8; 64])
    ensures
        r@ == sha512_of(data@),
{
    sha2::Sha512::digest(data).into()
}

/// Integrity record binding an application binary and its metadata.
///
/// `sig` is carried but never computed here: a manifest straight from the
/// builder holds an all-zero, unverified signature.
#[derive(Clone, Copy, Debug)]
pub struct Manifest {
    pub version: u16,
    pub flags: u16,
    pub app_len: u32,
    pub app_csum: [u8; 64],
    pub meta_len: u32,
    pub meta_csum: [u8; 64],
    pub key: [u8; 32],
    pub sig: [u8; 32],
}

/// Two bytes of `x`, least significant first.
pub open spec fn le_u16(x: u16) -> Seq<u8> {
    seq![(x & 0xff) as u8, (x >> 8) as u8]
}

/// Four bytes of `x`, least significant first.
pub open spec fn le_u32(x: u32) -> Seq<u8> {
    seq![(x & 0xff) as u8, ((x >> 8) & 0xff) as u8, ((x >> 16) & 0xff) as u8, (x >> 24) as u8]
}

/// The wire form of a manifest.
pub open spec fn encoding(m: Manifest) -> Seq<u8> {
    le_u16(m.version) + le_u16(m.flags) + le_u32(m.app_len) + m.app_csum@ + le_u32(m.meta_len)
        + m.meta_csum@ + m.key@ + m.sig@
}

/// Every manifest encodes to the same number of bytes.
pub proof fn lemma_encoding_len(m: Manifest)
    ensures
        encoding(m).len() == MANIFEST_LEN,
{
    assert(le_u16(m.version).len() == 2);
    assert(le_u16(m.flags).len() == 2);
    assert(le_u32(m.app_len).len() == 4);
    assert(le_u32(m.meta_len).len() == 4);
    assert(m.app_csum@.len() == 64);
    assert(m.meta_csum@.len() == 64);
    assert(m.key@.len() == 32);
    assert(m.sig@.len() == 32);
}

/// Appends every byte of `src` to `out`.
fn append_bytes(out: &mut Vec<u8>, src: &[u8])
    ensures
        final(out)@ == old(out)@ + src@,
{
    let mut i: usize = 0;
    while i < src.len()
        invariant
            i <= src@.len(),
            out@ == old(out)@ + src@.subrange(0, i as int),
        decreases src@.len() - i,
    {
        out.push(src[i]);
        i += 1;
        assert(out@ =~= old(out)@ + src@.subrange(0, i as int));
    }
    assert(src@.subrange(0, src@.len() as int) =~= src@);
}

impl Manifest {
    /// Encodes the manifest in its fixed wire layout.
    pub fn to_bytes(&self) -> (r: Vec<u8>)
        ensures
            r@ == encoding(*self),
            r@.len() == MANIFEST_LEN,
    {
        let mut out: Vec<u8> = Vec::with_capacity(MANIFEST_LEN);
        out.push((self.version & 0xff) as u8);
        out.push((self.version >> 8) as u8);
        out.push((self.flags & 0xff) as u8);
        out.push((self.flags >> 8) as u8);
        out.push((self.app_len & 0xff) as u8);
        out.push(((self.app_len >> 8) & 0xff) as u8);
        out.push(((self.app_len >> 16) & 0xff) as u8);
        out.push((self.app_len >> 24) as u8);
        append_bytes(&mut out, self.app_csum.as_slice());
        out.push((self.meta_len & 0xff) as u8);
        out.push(((self.meta_len >> 8) & 0xff) as u8);
        out.push(((self.meta_len >> 16) & 0xff) as u8);
        out.push((self.meta_len >> 24) as u8);
        append_bytes(&mut out, self.meta_csum.as_slice());
        append_bytes(&mut out, self.key.as_slice());
        append_bytes(&mut out, self.sig.as_slice());
        assert(out@ =~= encoding(*self));
        proof {
            lemma_encoding_len(*self);
        }
        out
    }
}

/// Accumulates a manifest; `build` freezes it.
pub struct ManifestBuilder {
    m: Manifest,
}

impl ManifestBuilder {
    /// The manifest built so far.
    pub closed spec fn current(self) -> Manifest {
        self.m
    }

    /// Starts a manifest signed with `key`: version 1, no flags, empty
    /// binaries with all-zero digests, all-zero signature.
    pub fn new(key: [u8; 32]) -> (r: ManifestBuilder)
        ensures
            r.current().version == MANIFEST_VERSION,
            r.current().flags == 0,
            r.current().app_len == 0,
            r.current().app_csum@ == Seq::new(64, |i: int| 0u8),
            r.current().meta_len == 0,
            r.current().meta_csum@ == Seq::new(64, |i: int| 0u8),
            r.current().key == key,
            r.current().sig@ == Seq::new(32, |i: int| 0u8),
    {
        let app_csum = [0u8; 64];
        let meta_csum = [0u8; 64];
        let sig = [0u8; 32];
        assert(app_csum@ =~= Seq::new(64, |i: int| 0u8));
        assert(meta_csum@ =~= Seq::new(64, |i: int| 0u8));
        assert(sig@ =~= Seq::new(32, |i: int| 0u8));
        ManifestBuilder {
            m: Manifest { version: MANIFEST_VERSION, flags: 0, app_len: 0, app_csum, meta_len: 0, meta_csum, key, sig },
        }
    }

    /// Records the application binary: its length and its SHA-512 digest.
    pub fn app_bin(&mut self, data: &[u8])
        requires
            data@.len() <= u32::MAX,
        ensures
            final(self).current() == (Manifest {
                app_len: data@.len() as u32,
                app_csum: final(self).current().app_csum,
                ..old(self).current()
            }),
            final(self).current().app_csum@ == sha512_of(data@),
    {
        self.m.app_len = data.len() as u32;
        self.m.app_csum = sha512(data);
    }

    /// Records the metadata binary: its length and its SHA-512 digest.
    pub fn meta_bin(&mut self, data: &[u8])
        requires
            data@.len() <= u32::MAX,
        ensures
            final(self).current() == (Manifest {
                meta_len: data@.len() as u32,
                meta_csum: final(self).current().meta_csum,
                ..old(self).current()
            }),
            final(self).current().meta_csum@ == sha512_of(data@),
    {
        self.m.meta_len = data.len() as u32;
        self.m.meta_csum = sha512(data);
    }

    /// Sets the caller-defined flag bits.
    pub fn flags(&mut self, flags: u16)
        ensures
            final(self).current() == (Manifest { flags, ..old(self).current() }),
    {
        self.m.flags = flags;
    }

    /// Freezes the manifest as built so far.
    pub fn build(self) -> (r: Manifest)
        ensures
            r == self.current(),
    {
        self.m
    }
}

} // verus!
