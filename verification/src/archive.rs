//! The archive builder: packages a textual build descriptor into a
//! gzip-compressed, tar-compatible single-entry archive, the form the
//! engine's build endpoint accepts as a build context.
//!
//! The tar serialization is done and verified here, byte for byte, against
//! [`tar_archive_bytes`]; only the final gzip compression is delegated to an
//! outside compressor.

use vstd::prelude::*;
use vstd::string::StrSliceExecFns;
use vstd::string::StringSliceAdditionalSpecFns;

verus! {

/// The entry size a tar header can carry in its plain octal form:
/// eleven octal digits, so anything below 8^11.
pub const TAR_MAX_SIZE: u64 = 8589934592;

/// A sequence of `n` NUL bytes.
pub open spec fn zeros(n: nat) -> Seq<u8> {
    Seq::new(n, |i| 0u8)
}

/// The ASCII digit for one octal digit value.
pub open spec fn octal_digit(d: nat) -> u8 {
    (48 + (d % 8)) as u8
}

/// `n` big-endian ASCII octal digits of `val`, zero-padded on the left.
pub open spec fn octal_digits(val: nat, n: nat) -> Seq<u8>
    decreases n,
{
    if n == 0 {
        Seq::empty()
    } else {
        octal_digits(val / 8, (n - 1) as nat) + seq![octal_digit(val)]
    }
}

/// A numeric tar header field of `width` bytes: the value in zero-padded
/// octal followed by one NUL terminator.
pub open spec fn octal_field(val: nat, width: nat) -> Seq<u8>
    recommends
        width >= 1,
{
    octal_digits(val, (width - 1) as nat) + seq![0u8]
}

/// The octal digit sequence is exactly as long as asked for.
pub proof fn lemma_octal_digits_len(val: nat, n: nat)
    ensures
        octal_digits(val, n).len() == n,
    decreases n,
{
    if n > 0 {
        lemma_octal_digits_len(val / 8, (n - 1) as nat);
    }
}

/// The sum of a byte sequence, as the tar checksum rule adds header bytes.
pub open spec fn byte_sum(s: Seq<u8>) -> nat
    decreases s.len(),
{
    if s.len() == 0 {
        0
    } else {
        (byte_sum(s.drop_last()) + s.last()) as nat
    }
}

/// The fixed, well-known name of the build descriptor entry: `Dockerfile`
/// in ASCII, padded with NULs to the 100-byte name field.
pub open spec fn name_field() -> Seq<u8> {
    seq![68u8, 111u8, 99u8, 107u8, 101u8, 114u8, 102u8, 105u8, 108u8, 101u8] + zeros(90)
}

/// Header bytes before the checksum field: name, mode 0644, empty uid and
/// gid, the payload size, and a zero modification time.
pub open spec fn header_prefix(size: nat) -> Seq<u8> {
    name_field() + octal_field(0o644 as nat, 8) + zeros(16) + octal_field(size, 12)
        + octal_field(0, 12)
}

/// Header bytes after the checksum field: a regular-file type flag, an empty
/// link name, the GNU magic `ustar  ` with its version, and NULs out to the
/// end of the block.
pub open spec fn header_suffix() -> Seq<u8> {
    seq![0u8] + zeros(100) + seq![117u8, 115u8, 116u8, 97u8, 114u8, 32u8, 32u8, 0u8]
        + zeros(247)
}

/// The checksum value of the header for a payload of `size` bytes: every
/// header byte summed with the checksum field itself read as eight spaces.
pub open spec fn header_checksum(size: nat) -> nat {
    byte_sum(header_prefix(size)) + 8 * 32 + byte_sum(header_suffix())
}

/// The complete 512-byte header for a payload of `size` bytes.
pub open spec fn tar_header_bytes(size: nat) -> Seq<u8> {
    header_prefix(size) + octal_field(header_checksum(size), 8) + header_suffix()
}

/// NUL padding that brings `size` payload bytes up to a block multiple.
pub open spec fn content_padding(size: nat) -> Seq<u8> {
    if size % 512 == 0 {
        Seq::empty()
    } else {
        zeros((512 - size % 512) as nat)
    }
}

/// The whole uncompressed archive: header block, payload padded to a block
/// multiple, and the two NUL blocks that end a tar stream.
pub open spec fn tar_archive_bytes(content: Seq<u8>) -> Seq<u8> {
    tar_header_bytes(content.len()) + content + content_padding(content.len()) + zeros(1024)
}

/// Appends `n` NUL bytes.
fn push_zeros(v: &mut Vec<u8>, n: usize)
    ensures
        final(v)@ == old(v)@ + zeros(n as nat),
{
    let mut i: usize = 0;
    while i < n
        invariant
            i <= n,
            v@ == old(v)@ + zeros(i as nat),
        decreases n - i,
    {
        v.push(0);
        proof {
            assert(zeros(i as nat).push(0u8) =~= zeros((i + 1) as nat));
            assert(v@ =~= old(v)@ + zeros((i + 1) as nat));
        }
        i = i + 1;
    }
    proof {
        assert(v@ =~= old(v)@ + zeros(n as nat));
    }
}

/// Appends the `n` big-endian octal digits of `val`.
fn push_octal_digits(v: &mut Vec<u8>, val: u64, n: usize)
    ensures
        final(v)@ == old(v)@ + octal_digits(val as nat, n as nat),
    decreases n,
{
    if n == 0 {
        proof {
            assert(v@ =~= old(v)@ + octal_digits(val as nat, 0));
        }
    } else {
        push_octal_digits(v, val / 8, n - 1);
        v.push(48 + (val % 8) as u8);
        proof {
            assert(v@ =~= old(v)@ + octal_digits(val as nat, n as nat));
        }
    }
}

/// Appends a numeric header field: `width - 1` octal digits and a NUL.
fn push_octal_field(v: &mut Vec<u8>, val: u64, width: usize)
    requires
        width >= 1,
    ensures
        final(v)@ == old(v)@ + octal_field(val as nat, width as nat),
{
    push_octal_digits(v, val, width - 1);
    v.push(0);
    proof {
        assert(v@ =~= old(v)@ + octal_field(val as nat, width as nat));
    }
}

/// The byte sum of a whole vector, as the tar checksum rule counts it.
fn sum_bytes(v: &Vec<u8>) -> (s: u64)
    requires
        v@.len() <= 4096,
    ensures
        s == byte_sum(v@),
        s <= 255 * v@.len(),
{
    let mut s: u64 = 0;
    let mut i: usize = 0;
    while i < v.len()
        invariant
            i <= v@.len(),
            v@.len() <= 4096,
            s == byte_sum(v@.take(i as int)),
            s <= 255 * i,
        decreases v@.len() - i,
    {
        proof {
            assert(v@.take((i + 1) as int).drop_last() =~= v@.take(i as int));
            assert(v@.take((i + 1) as int).last() == v@[i as int]);
        }
        s = s + v[i] as u64;
        i = i + 1;
    }
    proof {
        assert(v@.take(v@.len() as int) =~= v@);
    }
    s
}

/// Appends every byte of a slice, in order.
fn push_slice(v: &mut Vec<u8>, s: &[u8])
    ensures
        final(v)@ == old(v)@ + s@,
{
    let mut i: usize = 0;
    while i < s.len()
        invariant
            i <= s@.len(),
            v@ == old(v)@ + s@.take(i as int),
        decreases s@.len() - i,
    {
        let b = s[i];
        v.push(b);
        proof {
            assert(s@.take((i + 1) as int) =~= s@.take(i as int).push(s@[i as int]));
            assert(v@ =~= old(v)@ + s@.take((i + 1) as int));
        }
        i = i + 1;
    }
    proof {
        assert(s@.take(s@.len() as int) =~= s@);
    }
}

/// Serializes `content` as the single `Dockerfile` entry of an uncompressed
/// tar archive, exactly the bytes of [`tar_archive_bytes`]: header block
/// with mode 0644, a size field matching the payload length, the checksum
/// per the tar rule, then the padded payload and the two closing NUL blocks.
pub fn tar_archive(content: &[u8]) -> (r: Vec<u8>)
    requires
        content@.len() < TAR_MAX_SIZE as nat,
    ensures
        r@ == tar_archive_bytes(content@),
{
    let ghost size: nat = content@.len();

    let mut pre: Vec<u8> = Vec::new();
    // the entry name, `Dockerfile` in ASCII
    pre.push(68);
    pre.push(111);
    pre.push(99);
    pre.push(107);
    pre.push(101);
    pre.push(114);
    pre.push(102);
    pre.push(105);
    pre.push(108);
    pre.push(101);
    push_zeros(&mut pre, 90);
    proof {
        assert(pre@ =~= name_field());
    }
    push_octal_field(&mut pre, 0o644, 8);
    push_zeros(&mut pre, 16);
    push_octal_field(&mut pre, content.len() as u64, 12);
    push_octal_field(&mut pre, 0, 12);
    proof {
        assert(pre@ =~= header_prefix(size));
    }

    let mut suf: Vec<u8> = Vec::new();
    push_zeros(&mut suf, 101);
    // the GNU magic `ustar ` and its version ` \0`
    suf.push(117);
    suf.push(115);
    suf.push(116);
    suf.push(97);
    suf.push(114);
    suf.push(32);
    suf.push(32);
    suf.push(0);
    push_zeros(&mut suf, 247);
    proof {
        assert(suf@ =~= header_suffix());
    }

    proof {
        lemma_octal_digits_len(0o644 as nat, 7);
        lemma_octal_digits_len(size, 11);
        lemma_octal_digits_len(0, 11);
        assert(pre@.len() == 148);
        assert(suf@.len() == 356);
    }
    let pre_sum = sum_bytes(&pre);
    let suf_sum = sum_bytes(&suf);
    let cksum: u64 = pre_sum + 256 + suf_sum;
    proof {
        assert(cksum == header_checksum(size));
    }

    let mut v: Vec<u8> = Vec::new();
    v.append(&mut pre);
    push_octal_field(&mut v, cksum, 8);
    v.append(&mut suf);
    proof {
        assert(v@ =~= tar_header_bytes(size));
    }
    push_slice(&mut v, content);

    let rem = content.len() % 512;
    if rem != 0 {
        push_zeros(&mut v, 512 - rem);
    }
    proof {
        assert(v@ =~= tar_header_bytes(size) + content@ + content_padding(size));
    }
    push_zeros(&mut v, 1024);
    proof {
        assert(v@ =~= tar_archive_bytes(content@));
    }
    v
}

/// What the outside compressor returns for a byte sequence: gzip at the
/// default level with the default stream header.
pub uninterp spec fn gzip_of(bytes: Seq<u8>) -> Seq<u8>;

/// Relies on flate2's `write::GzEncoder` at `Compression::default()`: its
/// default header has a zero timestamp and a fixed operating-system byte,
/// so the compressed stream depends on the input bytes alone.
#[verifier::external_body]
fn gzip_compress(bytes: &Vec<u8>) -> (r: Vec<u8>)
    ensures
        r@ == gzip_of(bytes@),
{
    let mut enc = flate2::write::GzEncoder::new(Vec::new(), flate2::Compression::default());
    std::io::Write::write_all(&mut enc, bytes.as_slice()).expect("in-memory gzip write");
    enc.finish().expect("in-memory gzip finish")
}

/// Packages `content` as a build context: the single-entry tar archive of
/// [`tar_archive`], compressed with gzip at the default level.
pub fn build_context(content: &[u8]) -> (r: Vec<u8>)
    requires
        content@.len() < TAR_MAX_SIZE as nat,
    ensures
        r@ == gzip_of(tar_archive_bytes(content@)),
{
    let t = tar_archive(content);
    gzip_compress(&t)
}

/// The UTF-8 bytes of the fixed build descriptor.
pub open spec fn dockerfile_bytes() -> Seq<u8> {
    "FROM alpine:3.15\nRUN touch build-test.txt".spec_bytes()
}

/// The build context the build orchestrator sends to the engine: the fixed
/// descriptor, packaged by [`build_context`].
pub fn generate_dockerfile() -> (r: Vec<u8>)
    ensures
        r@ == gzip_of(tar_archive_bytes(dockerfile_bytes())),
{
    let text = "FROM alpine:3.15\nRUN touch build-test.txt";
    proof {
        reveal_strlit("FROM alpine:3.15\nRUN touch build-test.txt");
        assert(vstd::string::is_ascii(text));
        vstd::string::is_ascii_spec_bytes(text);
        assert(text.spec_bytes().len() == 41);
    }
    let content = text.as_bytes_vec();
    build_context(content.as_slice())
}

} // verus!

