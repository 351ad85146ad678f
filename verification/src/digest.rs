//! Single-pass computation of the four digests of a byte stream.
//!
//! The digest algorithms themselves are those of the `md-5`, `sha1` and `sha2`
//! crates and the hexadecimal rendering is that of `hex`. Their behaviour is
//! stated here and taken on trust; everything built on them is proved.

use md5::Digest;
use vstd::prelude::*;
use vstd::slice::slice_subrange;

verus! {

/// Size of the pieces in which `Hashes::from_path_ref` feeds a file's content
/// to the digest contexts.
pub const CHUNK_SIZE: usize = 4096;

/// `md5::Md5`, the MD5 context. Nothing of its inside is known here; what it
/// has absorbed is spoken of through the name below.
#[verifier::external_type_specification]
#[verifier::external_body]
pub struct ExMd5(md5::Md5);

/// The bytes that a MD5 context has absorbed so far, in the order in which
/// they were fed.
pub uninterp spec fn md5_input(h: md5::Md5) -> Seq<u8>;

/// The MD5 digest of a byte string.
pub uninterp spec fn md5_digest(data: Seq<u8>) -> Seq<u8>;

/// `md5::Md5::new`. Trusted: a fresh context has absorbed nothing.
#[verifier::external_body]
fn md5_new() -> (h: md5::Md5)
    ensures
        md5_input(h) == Seq::<u8>::empty(),
{
    md5::Md5::new()
}

/// `md5::Md5::update`. Trusted: the context absorbs `data` behind what it holds
/// already, so that feeding a stream piecewise is feeding it whole.
#[verifier::external_body]
fn md5_update(h: &mut md5::Md5, data: &[u8])
    ensures
        md5_input(*final(h)) == md5_input(*old(h)) + data@,
{
    h.update(data)
}

/// `md5::Md5::finalize`. Trusted: the result is the MD5 digest of everything
/// the context absorbed, 16 bytes long.
#[verifier::external_body]
fn md5_finalize(h: md5::Md5) -> (d: Vec<u8>)
    ensures
        d@ == md5_digest(md5_input(h)),
        d@.len() == 16,
{
    h.finalize().to_vec()
}

/// `sha1::Sha1`, the SHA-1 context. Nothing of its inside is known here; what it
/// has absorbed is spoken of through the name below.
#[verifier::external_type_specification]
#[verifier::external_body]
pub struct ExSha1(sha1::Sha1);

/// The bytes that a SHA-1 context has absorbed so far, in the order in which
/// they were fed.
pub uninterp spec fn sha1_input(h: sha1::Sha1) -> Seq<u8>;

/// The SHA-1 digest of a byte string.
pub uninterp spec fn sha1_digest(data: Seq<u8>) -> Seq<u8>;

/// `sha1::Sha1::new`. Trusted: a fresh context has absorbed nothing.
#[verifier::external_body]
fn sha1_new() -> (h: sha1::Sha1)
    ensures
        sha1_input(h) == Seq::<u8>::empty(),
{
    sha1::Sha1::new()
}

/// `sha1::Sha1::update`. Trusted: the context absorbs `data` behind what it holds
/// already, so that feeding a stream piecewise is feeding it whole.
#[verifier::external_body]
fn sha1_update(h: &mut sha1::Sha1, data: &[u8])
    ensures
        sha1_input(*final(h)) == sha1_input(*old(h)) + data@,
{
    h.update(data)
}

/// `sha1::Sha1::finalize`. Trusted: the result is the SHA-1 digest of everything
/// the context absorbed, 20 bytes long.
#[verifier::external_body]
fn sha1_finalize(h: sha1::Sha1) -> (d: Vec<u8>)
    ensures
        d@ == sha1_digest(sha1_input(h)),
        d@.len() == 20,
{
    h.finalize().to_vec()
}

/// `sha2::Sha256`, the SHA-256 context. Nothing of its inside is known here; what it
/// has absorbed is spoken of through the name below.
#[verifier::external_type_specification]
#[verifier::external_body]
pub struct ExSha256(sha2::Sha256);

/// The bytes that a SHA-256 context has absorbed so far, in the order in which
/// they were fed.
pub uninterp spec fn sha256_input(h: sha2::Sha256) -> Seq<u8>;

/// The SHA-256 digest of a byte string.
pub uninterp spec fn sha256_digest(data: Seq<u8>) -> Seq<u8>;

/// `sha2::Sha256::new`. Trusted: a fresh context has absorbed nothing.
#[verifier::external_body]
fn sha256_new() -> (h: sha2::Sha256)
    ensures
        sha256_input(h) == Seq::<u8>::empty(),
{
    sha2::Sha256::new()
}

/// `sha2::Sha256::update`. Trusted: the context absorbs `data` behind what it holds
/// already, so that feeding a stream piecewise is feeding it whole.
#[verifier::external_body]
fn sha256_update(h: &mut sha2::Sha256, data: &[u8])
    ensures
        sha256_input(*final(h)) == sha256_input(*old(h)) + data@,
{
    h.update(data)
}

/// `sha2::Sha256::finalize`. Trusted: the result is the SHA-256 digest of everything
/// the context absorbed, 32 bytes long.
#[verifier::external_body]
fn sha256_finalize(h: sha2::Sha256) -> (d: Vec<u8>)
    ensures
        d@ == sha256_digest(sha256_input(h)),
        d@.len() == 32,
{
    h.finalize().to_vec()
}

/// `sha2::Sha512`, the SHA-512 context. Nothing of its inside is known here; what it
/// has absorbed is spoken of through the name below.
#[verifier::external_type_specification]
#[verifier::external_body]
pub struct ExSha512(sha2::Sha512);

/// The bytes that a SHA-512 context has absorbed so far, in the order in which
/// they were fed.
pub uninterp spec fn sha512_input(h: sha2::Sha512) -> Seq<u8>;

/// The SHA-512 digest of a byte string.
pub uninterp spec fn sha512_digest(data: Seq<u8>) -> Seq<u8>;

/// `sha2::Sha512::new`. Trusted: a fresh context has absorbed nothing.
#[verifier::external_body]
fn sha512_new() -> (h: sha2::Sha512)
    ensures
        sha512_input(h) == Seq::<u8>::empty(),
{
    sha2::Sha512::new()
}

/// `sha2::Sha512::update`. Trusted: the context absorbs `data` behind what it holds
/// already, so that feeding a stream piecewise is feeding it whole.
#[verifier::external_body]
fn sha512_update(h: &mut sha2::Sha512, data: &[u8])
    ensures
        sha512_input(*final(h)) == sha512_input(*old(h)) + data@,
{
    h.update(data)
}

/// `sha2::Sha512::finalize`. Trusted: the result is the SHA-512 digest of everything
/// the context absorbed, 64 bytes long.
#[verifier::external_body]
fn sha512_finalize(h: sha2::Sha512) -> (d: Vec<u8>)
    ensures
        d@ == sha512_digest(sha512_input(h)),
        d@.len() == 64,
{
    h.finalize().to_vec()
}

/// The lower-case hexadecimal digit for a value below sixteen.
pub open spec fn hex_digit(nibble: int) -> char {
    seq!['0', '1', '2', '3', '4', '5', '6', '7', '8', '9', 'a', 'b', 'c', 'd', 'e', 'f'][nibble]
}

/// Lower-case hexadecimal rendering of a byte string: two digits per byte,
/// the high half first.
pub open spec fn hex_lower(bytes: Seq<u8>) -> Seq<char> {
    Seq::new(
        2 * bytes.len(),
        |i: int|
            if i % 2 == 0 {
                hex_digit(bytes[i / 2] as int / 16)
            } else {
                hex_digit(bytes[i / 2] as int % 16)
            },
    )
}

/// `hex::encode`. Trusted: the result is `hex_lower` of the input.
#[verifier::external_body]
fn hex_encode(bytes: &Vec<u8>) -> (s: String)
    ensures
        s@ == hex_lower(bytes@),
{
    hex::encode(bytes)
}

/// Every character of a hexadecimal rendering is one of `0` to `9` and `a`
/// to `f`, and there are two of them for each byte.
pub proof fn lemma_hex_lower(bytes: Seq<u8>)
    ensures
        hex_lower(bytes).len() == 2 * bytes.len(),
        forall|i: int|
            0 <= i < hex_lower(bytes).len() ==> {
                let c = #[trigger] hex_lower(bytes)[i];
                ('0' <= c && c <= '9') || ('a' <= c && c <= 'f')
            },
{
    assert forall|i: int| 0 <= i < hex_lower(bytes).len() implies {
        let c = #[trigger] hex_lower(bytes)[i];
        ('0' <= c && c <= '9') || ('a' <= c && c <= 'f')
    } by {
        let b = bytes[i / 2] as int;
        let n = if i % 2 == 0 {
            b / 16
        } else {
            b % 16
        };
        assert(0 <= n < 16);
        assert(hex_lower(bytes)[i] == hex_digit(n));
    }
}

/// Why a file has no digests.
#[derive(Debug, PartialEq, Eq)]
pub enum ReadError {
    /// The file could not be opened.
    Open,
    /// The file was opened, but reading it failed before its end; the text
    /// is the operating system's description of the failure.
    Read(String),
}

/// The digests of one file, as cached and handed to callers.
#[derive(Debug, PartialEq, Eq)]
pub struct Hashes {
    /// Path of the file inside the namespace it was read in.
    pub file: String,
    pub md5: String,
    pub sha1: String,
    pub sha256: String,
    pub sha512: String,
    /// Number of bytes that went into the digests.
    pub size: usize,
    /// Set where the record is not to be relied on.
    pub error: Option<String>,
}

impl Hashes {
    /// The record holds the digests and the length of exactly `data`: each
    /// digest in full, as 32, 40, 64 and 128 hexadecimal digits.
    pub open spec fn is_reading_of(&self, data: Seq<u8>) -> bool {
        &&& self.md5@ == hex_lower(md5_digest(data))
        &&& self.sha1@ == hex_lower(sha1_digest(data))
        &&& self.sha256@ == hex_lower(sha256_digest(data))
        &&& self.sha512@ == hex_lower(sha512_digest(data))
        &&& self.md5@.len() == 32
        &&& self.sha1@.len() == 40
        &&& self.sha256@.len() == 64
        &&& self.sha512@.len() == 128
        &&& self.size == data.len()
        &&& self.error is None
    }

    /// The record holds no digest and counts no byte.
    pub open spec fn is_empty(&self) -> bool {
        &&& self.md5@.len() == 0
        &&& self.sha1@.len() == 0
        &&& self.sha256@.len() == 0
        &&& self.sha512@.len() == 0
        &&& self.size == 0
    }

    /// The record of a file whose reading failed for the reason `why`. It
    /// holds no digest, whatever was read before the failure: a record with
    /// digests always covers a whole file. A failure to read is noted in
    /// `error`; a file that could not even be opened has the bare record.
    pub open spec fn is_failure(&self, why: ReadError) -> bool {
        &&& self.is_empty()
        &&& match why {
            ReadError::Open => self.error is None,
            ReadError::Read(text) => self.error matches Some(e) && e@ == text@,
        }
    }

    /// The record of a file that could not be opened: no digests, no bytes.
    pub open spec fn is_unread(&self) -> bool {
        &&& self.md5@.len() == 0
        &&& self.sha1@.len() == 0
        &&& self.sha256@.len() == 0
        &&& self.sha512@.len() == 0
        &&& self.size == 0
        &&& self.error is None
    }

    /// The record for `path` when the file could not be opened. It is a
    /// record like any other: it is cached and marks the file as unreadable
    /// at the time it was observed.
    pub fn unread(path: &str) -> (h: Hashes)
        ensures
            h.file@ == path@,
            h.is_unread(),
    {
        Hashes {
            file: path.to_owned(),
            md5: String::new(),
            sha1: String::new(),
            sha256: String::new(),
            sha512: String::new(),
            size: 0,
            error: None,
        }
    }

    /// The record for `path` when the file gave no content, for the reason
    /// `why`. It is a record like any other and is cached.
    pub fn failed(path: &str, why: ReadError) -> (h: Hashes)
        ensures
            h.file@ == path@,
            h.is_failure(why),
    {
        match why {
            ReadError::Open => Hashes::unread(path),
            ReadError::Read(text) => Hashes {
                file: path.to_owned(),
                md5: String::new(),
                sha1: String::new(),
                sha256: String::new(),
                sha512: String::new(),
                size: 0,
                error: Some(text),
            },
        }
    }

    /// The record for the file at `path`, given what reading it gave: its
    /// whole content, or the reason why there is none. The content goes
    /// through the four digest contexts once, in pieces of `CHUNK_SIZE`
    /// bytes. A file that could not be opened, or not be read to its end,
    /// gets the record without digests.
    pub fn from_path_ref(path: &str, content: Result<&[u8], ReadError>) -> (h: Hashes)
        ensures
            h.file@ == path@,
            match content {
                Ok(data) => h.is_reading_of(data@),
                Err(why) => h.is_failure(why),
            },
    {
        match content {
            Err(why) => Hashes::failed(path, why),
            Ok(data) => {
                let mut digester = Digester::new();
                let mut done: usize = 0;
                while done < data.len()
                    invariant
                        done <= data.len(),
                        digester.wf(),
                        digester@ == data@.subrange(0, done as int),
                    decreases data.len() - done,
                {
                    let left: usize = data.len() - done;
                    let n: usize = if left < CHUNK_SIZE {
                        left
                    } else {
                        CHUNK_SIZE
                    };
                    let chunk = slice_subrange(data, done, done + n);
                    digester.update(chunk);
                    assert(data@.subrange(0, done as int) + data@.subrange(
                        done as int,
                        done + n,
                    ) == data@.subrange(0, done + n));
                    done = done + n;
                }
                assert(data@.subrange(0, done as int) == data@);
                digester.finish(path)
            },
        }
    }

    /// The strings by which the file can be recognised elsewhere: its path
    /// and its four digests, in that order.
    pub fn iocs(&self) -> (v: Vec<String>)
        ensures
            v@.len() == 5,
            v@[0]@ == self.file@,
            v@[1]@ == self.md5@,
            v@[2]@ == self.sha1@,
            v@[3]@ == self.sha256@,
            v@[4]@ == self.sha512@,
    {
        let mut v: Vec<String> = Vec::new();
        v.push(self.file.clone());
        v.push(self.md5.clone());
        v.push(self.sha1.clone());
        v.push(self.sha256.clone());
        v.push(self.sha512.clone());
        v
    }
}

impl Clone for Hashes {
    fn clone(&self) -> (h: Hashes)
        ensures
            h == *self,
    {
        Hashes {
            file: self.file.clone(),
            md5: self.md5.clone(),
            sha1: self.sha1.clone(),
            sha256: self.sha256.clone(),
            sha512: self.sha512.clone(),
            size: self.size,
            error: match &self.error {
                Some(e) => Some(e.clone()),
                None => None,
            },
        }
    }
}

impl Default for Hashes {
    fn default() -> (h: Hashes)
        ensures
            h.file@.len() == 0,
            h.is_unread(),
    {
        Hashes {
            file: String::new(),
            md5: String::new(),
            sha1: String::new(),
            sha256: String::new(),
            sha512: String::new(),
            size: 0,
            error: None,
        }
    }
}

/// Four digest contexts that are fed the same bytes, and the count of those
/// bytes. Its view is the byte string fed so far.
pub struct Digester {
    md5: md5::Md5,
    sha1: sha1::Sha1,
    sha256: sha2::Sha256,
    sha512: sha2::Sha512,
    size: usize,
}

impl View for Digester {
    type V = Seq<u8>;

    closed spec fn view(&self) -> Seq<u8> {
        md5_input(self.md5)
    }
}

impl Digester {
    /// All four contexts have absorbed the same bytes, and `size` counts them.
    pub closed spec fn wf(&self) -> bool {
        &&& sha1_input(self.sha1) == md5_input(self.md5)
        &&& sha256_input(self.sha256) == md5_input(self.md5)
        &&& sha512_input(self.sha512) == md5_input(self.md5)
        &&& self.size == md5_input(self.md5).len()
    }

    pub fn new() -> (d: Digester)
        ensures
            d.wf(),
            d@ == Seq::<u8>::empty(),
    {
        Digester {
            md5: md5_new(),
            sha1: sha1_new(),
            sha256: sha256_new(),
            sha512: sha512_new(),
            size: 0,
        }
    }

    /// Number of bytes fed so far.
    pub fn size(&self) -> (n: usize)
        requires
            self.wf(),
        ensures
            n == self@.len(),
    {
        self.size
    }

    /// Feeds `chunk` to all four contexts. The total must stay countable in
    /// a `usize`.
    pub fn update(&mut self, chunk: &[u8])
        requires
            old(self).wf(),
            old(self)@.len() + chunk@.len() <= usize::MAX,
        ensures
            final(self).wf(),
            final(self)@ == old(self)@ + chunk@,
    {
        md5_update(&mut self.md5, chunk);
        sha1_update(&mut self.sha1, chunk);
        sha256_update(&mut self.sha256, chunk);
        sha512_update(&mut self.sha512, chunk);
        self.size = self.size + chunk.len();
    }

    /// Closes the four contexts and renders the record for the file at
    /// `path`.
    pub fn finish(self, path: &str) -> (h: Hashes)
        requires
            self.wf(),
        ensures
            h.file@ == path@,
            h.is_reading_of(self@),
    {
        let md5 = md5_finalize(self.md5);
        let sha1 = sha1_finalize(self.sha1);
        let sha256 = sha256_finalize(self.sha256);
        let sha512 = sha512_finalize(self.sha512);
        Hashes {
            file: path.to_owned(),
            md5: hex_encode(&md5),
            sha1: hex_encode(&sha1),
            sha256: hex_encode(&sha256),
            sha512: hex_encode(&sha512),
            size: self.size,
            error: None,
        }
    }
}

} // verus!
