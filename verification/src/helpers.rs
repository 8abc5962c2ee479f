//! Derived identifiers: the content identifier of a string and the merkle
//! position of a path.

use vstd::prelude::*;
use vstd::slice::slice_subrange;
use vstd::utf8::encode_utf8;
use sha2::Digest;

verus! {

/// The SHA-256 digest of `data`.
pub uninterp spec fn sha256(data: Seq<u8>) -> Seq<u8>;

/// Length of a SHA-256 digest in bytes.
pub const DIGEST_LEN: usize = 32;

/// Calls `sha2::Sha256::digest`. Trusted: the result is the SHA-256 digest
/// of `data`, a function of the bytes alone, and it is 32 bytes long.
#[verifier::external_body]
fn sha256_digest(data: &[u8]) -> (out: Vec<u8>)
    ensures
        out@ == sha256(data@),
        out@.len() == DIGEST_LEN,
{
    sha2::Sha256::digest(data).to_vec()
}

/// Gives `String::push` its contract. Trusted: the call appends `c` and
/// changes nothing else.
pub assume_specification[ String::push ](s: &mut String, c: char)
    ensures
        final(s)@ == old(s)@.push(c),
;

/// The lower-case hexadecimal digit of a number below 16.
pub open spec fn hex_digit(nibble: u8) -> char {
    if nibble < 10 {
        (nibble + 48) as char
    } else {
        (nibble + 87) as char
    }
}

/// The lower-case hexadecimal text of `data`: two digits per byte, the high
/// half first.
pub open spec fn hex(data: Seq<u8>) -> Seq<char> {
    Seq::new(
        2 * data.len(),
        |i: int|
            if i % 2 == 0 {
                hex_digit(data[i / 2] / 16)
            } else {
                hex_digit(data[i / 2] % 16)
            },
    )
}

/// The content identifier of a text: the hexadecimal SHA-256 digest of its
/// UTF-8 bytes.
pub open spec fn content_id(input: Seq<char>) -> Seq<char> {
    hex(sha256(encode_utf8(input)))
}

/// The hexadecimal digit of `nibble`.
fn digit(nibble: u8) -> (c: char)
    requires
        nibble < 16,
    ensures
        c == hex_digit(nibble),
{
    if nibble < 10 {
        (nibble + 48) as char
    } else {
        (nibble + 87) as char
    }
}

/// Writes `data` as lower-case hexadecimal text.
pub fn hex_encode(data: &[u8]) -> (out: String)
    ensures
        out@ == hex(data@),
{
    let mut out = String::new();
    let mut i: usize = 0;
    while i < data.len()
        invariant
            i <= data.len(),
            out@ == hex(data@.take(i as int)),
        decreases data.len() - i,
    {
        let byte = data[i];
        proof {
            let before = data@.take(i as int);
            let after = data@.take(i + 1);
            assert(after.len() == i + 1);
            assert(hex(after) =~= hex(before).push(hex_digit(byte / 16)).push(
                hex_digit(byte % 16),
            ));
        }
        out.push(digit(byte / 16));
        out.push(digit(byte % 16));
        i += 1;
    }
    assert(data@.take(i as int) =~= data@);
    out
}

/// Computes the content identifier of `input`: a text of 64 hexadecimal
/// digits that depends on the input's bytes alone.
pub fn hash_and_hex(input: &str) -> (out: String)
    ensures
        out@ == content_id(input@),
        out@.len() == 2 * DIGEST_LEN,
{
    let digest = sha256_digest(input.as_bytes());
    hex_encode(digest.as_slice())
}

/// The byte that separates the folders of a path.
pub const SLASH: u8 = 47;

/// A path without the one slash that may end it.
pub open spec fn trim_slash(path: Seq<u8>) -> Seq<u8> {
    if path.len() > 0 && path.last() == SLASH {
        path.drop_last()
    } else {
        path
    }
}

/// `end` is where the first folder of `path` ends: at the first slash, or
/// at the end of a path without one.
pub open spec fn ends_first_chunk(path: Seq<u8>, end: int) -> bool {
    &&& 0 <= end <= path.len()
    &&& end < path.len() ==> path[end] == SLASH
    &&& forall|i: int| 0 <= i < end ==> path[i] != SLASH
}

/// Where the first folder of `path` ends.
pub open spec fn first_chunk_end(path: Seq<u8>) -> int {
    choose|end: int| ends_first_chunk(path, end)
}

/// `at` is where the last slash of `path` stands; -1 in a path without one.
pub open spec fn is_last_slash(path: Seq<u8>, at: int) -> bool {
    &&& -1 <= at < path.len()
    &&& 0 <= at ==> path[at] == SLASH
    &&& forall|i: int| at < i < path.len() ==> path[i] != SLASH
}

/// Where the last slash of `path` stands.
pub open spec fn last_slash(path: Seq<u8>) -> int {
    choose|at: int| is_last_slash(path, at)
}

/// One step of the merkle fold: the hash so far, followed by the digest of
/// the next folder's name, hashed again; each digest as hexadecimal text.
pub open spec fn merkle_step(total: Seq<char>, chunk: Seq<u8>) -> Seq<char> {
    hex(sha256(encode_utf8(total) + encode_utf8(hex(sha256(chunk)))))
}

/// The merkle fold of `path`, folder by folder from the left, starting from
/// `total`. A path without a slash is one folder, the empty path too.
pub open spec fn merkle_fold(total: Seq<char>, path: Seq<u8>) -> Seq<char>
    decreases path.len(),
{
    let end = first_chunk_end(path);
    let next = merkle_step(total, path.take(end));
    if 0 <= end < path.len() {
        merkle_fold(next, path.skip(end + 1))
    } else {
        next
    }
}

/// The merkle position of `path`: the fold of its folders, a slash at its
/// end not counted.
pub open spec fn merkle_position(path: Seq<u8>) -> Seq<char> {
    merkle_fold(Seq::<char>::empty(), trim_slash(path))
}

/// The folder that holds the last entry of a trimmed path: what stands
/// before the last slash, nothing in a path without one.
pub open spec fn parent_of(path: Seq<u8>) -> Seq<u8> {
    let at = last_slash(path);
    if 0 <= at < path.len() {
        path.take(at)
    } else {
        Seq::<u8>::empty()
    }
}

/// The last entry of a trimmed path: what stands behind the last slash, the
/// whole of a path without one.
pub open spec fn child_of(path: Seq<u8>) -> Seq<u8> {
    let at = last_slash(path);
    if 0 <= at < path.len() {
        path.skip(at + 1)
    } else {
        path
    }
}

/// A path's first folder ends in one place only.
proof fn lemma_first_chunk_end(path: Seq<u8>, end: int)
    requires
        ends_first_chunk(path, end),
    ensures
        first_chunk_end(path) == end,
{
    let chosen = first_chunk_end(path);
    assert(ends_first_chunk(path, chosen));
    if chosen < end {
        assert(path[chosen] != SLASH);
    }
    if end < chosen {
        assert(path[end] != SLASH);
    }
}

/// A path's last slash stands in one place only.
proof fn lemma_last_slash(path: Seq<u8>, at: int)
    requires
        is_last_slash(path, at),
    ensures
        last_slash(path) == at,
{
    let chosen = last_slash(path);
    assert(is_last_slash(path, chosen));
    if chosen < at {
        assert(path[at] != SLASH);
    }
    if at < chosen {
        assert(path[chosen] != SLASH);
    }
}

/// Drops the one slash that may end `path`.
fn trimmed(path: &[u8]) -> (out: &[u8])
    ensures
        out@ == trim_slash(path@),
{
    let n = path.len();
    if n > 0 && path[n - 1] == SLASH {
        slice_subrange(path, 0, n - 1)
    } else {
        path
    }
}

/// Hashes the text so far together with the digest of the next folder.
fn step(total: &String, chunk: &[u8]) -> (next: String)
    ensures
        next@ == merkle_step(total@, chunk@),
{
    let digest = hash_bytes(chunk);
    let mut joined: Vec<u8> = Vec::new();
    joined.extend_from_slice(total.as_str().as_bytes());
    joined.extend_from_slice(digest.as_str().as_bytes());
    assert(joined@ =~= encode_utf8(total@) + encode_utf8(digest@));
    hash_bytes(joined.as_slice())
}

/// The hexadecimal SHA-256 digest of `data`.
fn hash_bytes(data: &[u8]) -> (out: String)
    ensures
        out@ == hex(sha256(data@)),
{
    let digest = sha256_digest(data);
    hex_encode(digest.as_slice())
}

/// Folds an already trimmed path.
fn fold(path: &[u8]) -> (out: String)
    ensures
        out@ == merkle_fold(Seq::<char>::empty(), path@),
{
    let n = path.len();
    let mut total = String::new();
    let mut start: usize = 0;
    assert(path@.skip(0) =~= path@);
    loop
        invariant
            n == path@.len(),
            start <= n,
            merkle_fold(total@, path@.skip(start as int)) == merkle_fold(
                Seq::<char>::empty(),
                path@,
            ),
        decreases n - start,
    {
        let mut end: usize = start;
        while end < n && path[end] != SLASH
            invariant
                n == path@.len(),
                start <= end <= n,
                forall|i: int| start <= i < end ==> path@[i] != SLASH,
            decreases n - end,
        {
            end += 1;
        }
        let ghost rest = path@.skip(start as int);
        proof {
            assert(ends_first_chunk(rest, end - start));
            lemma_first_chunk_end(rest, end - start);
            assert(rest.take(end - start) =~= path@.subrange(start as int, end as int));
            if end < n {
                assert(rest.skip(end - start + 1) =~= path@.skip(end + 1));
            }
        }
        total = step(&total, slice_subrange(path, start, end));
        if end >= n {
            return total;
        }
        start = end + 1;
    }
}

/// Computes the merkle position of a path of folders separated by slashes:
/// folder after folder, the hash so far and the digest of the folder's name
/// are hashed together. One slash at the path's end is not counted.
pub fn merkle_path(path: &str) -> (out: String)
    ensures
        out@ == merkle_position(encode_utf8(path@)),
{
    fold(trimmed(path.as_bytes()))
}

/// Splits a path into the position of its parent folder and the identifier
/// of its last entry: the merkle position of what stands before the last
/// slash, and the hexadecimal digest of what stands behind it. One slash at
/// the path's end is not counted; a path without a slash has the empty
/// parent.
pub fn merkle_helper(argpath: &str) -> (out: (String, String))
    ensures
        out.0@ == merkle_position(parent_of(trim_slash(encode_utf8(argpath@)))),
        out.1@ == hex(sha256(child_of(trim_slash(encode_utf8(argpath@))))),
{
    let path = trimmed(argpath.as_bytes());
    let n = path.len();
    let mut at: usize = n;
    while at > 0 && path[at - 1] != SLASH
        invariant
            n == path@.len(),
            at <= n,
            forall|i: int| at <= i < n ==> path@[i] != SLASH,
        decreases at,
    {
        at -= 1;
    }
    proof {
        assert(is_last_slash(path@, at - 1));
        lemma_last_slash(path@, at - 1);
    }
    if at > 0 {
        let parent = slice_subrange(path, 0, at - 1);
        let child = slice_subrange(path, at, n);
        assert(parent@ =~= path@.take(at - 1));
        assert(child@ =~= path@.skip(at as int));
        (fold(trimmed(parent)), hash_bytes(child))
    } else {
        let parent = slice_subrange(path, 0, 0);
        assert(parent@ =~= Seq::<u8>::empty());
        (fold(trimmed(parent)), hash_bytes(path))
    }
}

} // verus!
