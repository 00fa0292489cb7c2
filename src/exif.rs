//! Builds an Exif block (big-endian TIFF with one IFD of ASCII entries)
//! from the text chunks of a PNG file.

use vstd::prelude::*;
use vstd::string::{StringExecFns, StringSliceAdditionalSpecFns};
use vstd::utf8::encode_utf8;

use crate::error::Error;

verus! {

/// A `tEXt` chunk: keyword and text.
#[derive(Debug, Clone)]
pub struct TextChunk {
    pub keyword: String,
    pub text: String,
}

/// Relies on kamadak-exif's `Tag::Make`, whose tag number is 0x010f.
#[verifier::external_body]
fn tag_make() -> (t: u16)
    ensures
        t == 0x010f,
{
    exif::Tag::Make.1
}

/// Relies on kamadak-exif's `Tag::ImageDescription`, whose tag number is
/// 0x010e.
#[verifier::external_body]
fn tag_image_description() -> (t: u16)
    ensures
        t == 0x010e,
{
    exif::Tag::ImageDescription.1
}

/// Relies on kamadak-exif's `Tag::UserComment`, whose tag number is 0x9286.
#[verifier::external_body]
fn tag_user_comment() -> (t: u16)
    ensures
        t == 0x9286,
{
    exif::Tag::UserComment.1
}

pub open spec fn be16(v: int) -> Seq<u8> {
    seq![((v / 256) % 256) as u8, (v % 256) as u8]
}

pub open spec fn be32(v: int) -> Seq<u8> {
    seq![
        ((v / 16777216) % 256) as u8,
        ((v / 65536) % 256) as u8,
        ((v / 256) % 256) as u8,
        (v % 256) as u8,
    ]
}

/// The tag and UTF-8 value a chunk becomes: `prompt` goes to Make as
/// `Prompt: <text>`, `workflow` to ImageDescription as `Workflow: <text>`,
/// any other to UserComment as `<keyword>: <text>`.
pub open spec fn chunk_entry(c: TextChunk) -> (u16, Seq<u8>) {
    if c.keyword@ == "prompt"@ {
        (0x010fu16, encode_utf8("Prompt: "@ + c.text@))
    } else if c.keyword@ == "workflow"@ {
        (0x010eu16, encode_utf8("Workflow: "@ + c.text@))
    } else {
        (0x9286u16, encode_utf8(c.keyword@ + ": "@ + c.text@))
    }
}

pub open spec fn entries_of(chunks: Seq<TextChunk>) -> Seq<(u16, Seq<u8>)> {
    chunks.map_values(|c: TextChunk| chunk_entry(c))
}

/// Bytes the values take: each with its NUL terminator.
pub open spec fn values_len(es: Seq<(u16, Seq<u8>)>) -> int
    decreases es.len(),
{
    if es.len() == 0 {
        0
    } else {
        values_len(es.drop_last()) + es.last().1.len() + 1
    }
}

/// One IFD entry: tag, type ASCII, count (with the NUL), value offset.
pub open spec fn ifd_entry(e: (u16, Seq<u8>), offset: int) -> Seq<u8> {
    be16(e.0 as int) + seq![0u8, 2u8] + be32(e.1.len() as int + 1) + be32(offset)
}

/// The IFD entries, values laid out from `base` in order.
pub open spec fn ifd_entries(es: Seq<(u16, Seq<u8>)>, base: int) -> Seq<u8>
    decreases es.len(),
{
    if es.len() == 0 {
        Seq::empty()
    } else {
        ifd_entries(es.drop_last(), base) + ifd_entry(
            es.last(),
            base + values_len(es.drop_last()),
        )
    }
}

/// The values, each followed by a NUL.
pub open spec fn ifd_values(es: Seq<(u16, Seq<u8>)>) -> Seq<u8>
    decreases es.len(),
{
    if es.len() == 0 {
        Seq::empty()
    } else {
        ifd_values(es.drop_last()) + es.last().1.push(0u8)
    }
}

/// Offset of the first value from the TIFF header: header (8), entry
/// count (2), entries (12 each), next-IFD offset (4).
pub open spec fn value_base(n: int) -> int {
    8 + 2 + 12 * n + 4
}

/// The block: its length prefix (6), `Exif\0\0`, the big-endian TIFF
/// header, the IFD and the values.
pub open spec fn exif_block(es: Seq<(u16, Seq<u8>)>) -> Seq<u8> {
    be32(6) + seq![0x45u8, 0x78u8, 0x69u8, 0x66u8, 0u8, 0u8] + seq![
        0x4Du8,
        0x4Du8,
        0u8,
        0x2Au8,
        0u8,
        0u8,
        0u8,
        8u8,
    ] + be16(es.len() as int) + ifd_entries(es, value_base(es.len() as int)) + seq![
        0u8,
        0u8,
        0u8,
        0u8,
    ] + ifd_values(es)
}

/// Offsets of the block fit its 32-bit fields and the entry count its
/// 16-bit one.
pub open spec fn exif_fits(chunks: Seq<TextChunk>) -> bool {
    chunks.len() <= 65535 && value_base(chunks.len() as int) + values_len(entries_of(chunks))
        <= 0xffff_ffff
}

fn push_be16(out: &mut Vec<u8>, v: u16)
    ensures
        final(out)@ == old(out)@ + be16(v as int),
{
    out.push((v / 256) as u8);
    out.push((v % 256) as u8);
    assert(final(out)@ =~= old(out)@ + be16(v as int));
}

fn push_be32(out: &mut Vec<u8>, v: u32)
    ensures
        final(out)@ == old(out)@ + be32(v as int),
{
    out.push((v / 16777216) as u8);
    out.push(((v / 65536) % 256) as u8);
    out.push(((v / 256) % 256) as u8);
    out.push((v % 256) as u8);
    assert(final(out)@ =~= old(out)@ + be32(v as int));
}

fn push_bytes(out: &mut Vec<u8>, b: &[u8])
    ensures
        final(out)@ == old(out)@ + b@,
{
    let mut i: usize = 0;
    while i < b.len()
        invariant
            i <= b.len(),
            out@ == old(out)@ + b@.subrange(0, i as int),
        decreases b.len() - i,
    {
        out.push(b[i]);
        i = i + 1;
        assert(out@ =~= old(out)@ + b@.subrange(0, i as int));
    }
    assert(b@.subrange(0, i as int) =~= b@);
}

/// The tag and value bytes of one chunk.
fn chunk_to_entry(c: &TextChunk) -> (r: (u16, Vec<u8>))
    ensures
        r.0 == chunk_entry(*c).0,
        r.1@ == chunk_entry(*c).1,
{
    let prompt = String::from_str("prompt");
    let workflow = String::from_str("workflow");
    let (tag, mut s) = if c.keyword == prompt {
        (tag_make(), String::from_str("Prompt: "))
    } else if c.keyword == workflow {
        (tag_image_description(), String::from_str("Workflow: "))
    } else {
        let mut s = c.keyword.clone();
        s.append(": ");
        (tag_user_comment(), s)
    };
    s.append(c.text.as_str());
    let mut v: Vec<u8> = Vec::new();
    push_bytes(&mut v, s.as_str().as_bytes());
    (tag, v)
}

/// The Exif block for the text chunks of a PNG file, or `None` when there
/// are none. Fails with `ExifTooLarge` when the block's offsets would not
/// fit its 32-bit fields.
pub fn create_exif_from_png_chunks(text_chunks: &Vec<TextChunk>) -> (r: Result<
    Option<Vec<u8>>,
    Error,
>)
    ensures
        text_chunks@.len() == 0 ==> r == Ok::<Option<Vec<u8>>, Error>(None),
        text_chunks@.len() > 0 && !exif_fits(text_chunks@) ==> r == Err::<Option<Vec<u8>>, Error>(
            Error::ExifTooLarge,
        ),
        text_chunks@.len() > 0 && exif_fits(text_chunks@) ==> (r matches Ok(Some(b)) && b@
            == exif_block(entries_of(text_chunks@))),
{
    let n = text_chunks.len();
    if n == 0 {
        return Ok(None);
    }
    if n > 65535 {
        return Err(Error::ExifTooLarge);
    }
    let ghost es = entries_of(text_chunks@);
    let mut entries: Vec<(u16, Vec<u8>)> = Vec::new();
    let mut i: usize = 0;
    while i < n
        invariant
            n == text_chunks@.len(),
            es == entries_of(text_chunks@),
            i <= n,
            entries@.len() == i,
            forall|j: int| 0 <= j < i ==> (#[trigger] entries@[j]).0 == es[j].0 && entries@[j].1@ == es[j].1,
        decreases n - i,
    {
        let e = chunk_to_entry(&text_chunks[i]);
        entries.push(e);
        i = i + 1;
    }
    // Total size of the TIFF part, checked against the 32-bit offsets.
    let base: usize = 8 + 2 + 12 * n + 4;
    let mut total: u64 = base as u64;
    let mut k: usize = 0;
    while k < n
        invariant
            n == text_chunks@.len(),
            es == entries_of(text_chunks@),
            es.len() == n,
            entries@.len() == n,
            forall|j: int| 0 <= j < n ==> (#[trigger] entries@[j]).0 == es[j].0 && entries@[j].1@ == es[j].1,
            base == value_base(n as int),
            k <= n,
            total == base + values_len(es.take(k as int)),
            total <= 0xffff_ffff,
        decreases n - k,
    {
        proof {
            assert(es.take(k as int + 1).drop_last() =~= es.take(k as int));
            lemma_values_len_prefix(es, k as int + 1);
        }
        let len = entries[k].1.len() as u64;
        if len >= 0xffff_ffff || total + len + 1 > 0xffff_ffff {
            proof {
                lemma_values_len_prefix(es, k as int + 1);
                assert(es.take(n as int) =~= es);
                lemma_values_len_prefix(es, n as int);
            }
            return Err(Error::ExifTooLarge);
        }
        total = total + len + 1;
        k = k + 1;
    }
    assert(es.take(n as int) =~= es);
    let mut out: Vec<u8> = vec![0u8, 0u8, 0u8, 6u8, 0x45u8, 0x78u8, 0x69u8, 0x66u8, 0u8, 0u8];
    push_bytes(&mut out, &[0x4Du8, 0x4Du8, 0u8, 0x2Au8, 0u8, 0u8, 0u8, 8u8]);
    push_be16(&mut out, n as u16);
    let ghost head = out@;
    let mut offset: usize = base;
    let mut k: usize = 0;
    while k < n
        invariant
            n == text_chunks@.len(),
            n <= 65535,
            es == entries_of(text_chunks@),
            es.len() == n,
            entries@.len() == n,
            forall|j: int| 0 <= j < n ==> (#[trigger] entries@[j]).0 == es[j].0 && entries@[j].1@ == es[j].1,
            base == value_base(n as int),
            base + values_len(es) <= 0xffff_ffff,
            k <= n,
            offset == base + values_len(es.take(k as int)),
            out@ == head + ifd_entries(es.take(k as int), base as int),
        decreases n - k,
    {
        proof {
            lemma_values_len_prefix(es, k as int + 1);
            assert(es.take(k as int + 1).drop_last() =~= es.take(k as int));
        }
        let len = entries[k].1.len();
        push_be16(&mut out, entries[k].0);
        push_bytes(&mut out, &[0u8, 2u8]);
        push_be32(&mut out, (len + 1) as u32);
        push_be32(&mut out, offset as u32);
        offset = offset + len + 1;
        k = k + 1;
        assert(out@ =~= head + ifd_entries(es.take(k as int), base as int));
    }
    assert(es.take(n as int) =~= es);
    push_bytes(&mut out, &[0u8, 0u8, 0u8, 0u8]);
    let ghost mid = out@;
    let mut k: usize = 0;
    while k < n
        invariant
            n == text_chunks@.len(),
            es == entries_of(text_chunks@),
            es.len() == n,
            entries@.len() == n,
            forall|j: int| 0 <= j < n ==> (#[trigger] entries@[j]).0 == es[j].0 && entries@[j].1@ == es[j].1,
            k <= n,
            out@ == mid + ifd_values(es.take(k as int)),
        decreases n - k,
    {
        proof {
            assert(es.take(k as int + 1).drop_last() =~= es.take(k as int));
            assert(es.take(k as int + 1).last() == es[k as int]);
            assert(entries@[k as int].1@ == es[k as int].1);
        }
        let ghost before = out@;
        push_bytes(&mut out, entries[k].1.as_slice());
        out.push(0u8);
        assert(out@ =~= before + es[k as int].1.push(0u8));
        k = k + 1;
        assert(out@ =~= mid + ifd_values(es.take(k as int)));
    }
    assert(es.take(n as int) =~= es);
    assert(out@ =~= exif_block(es));
    Ok(Some(out))
}

/// The values of a prefix take no more room than those of the whole.
proof fn lemma_values_len_prefix(es: Seq<(u16, Seq<u8>)>, k: int)
    requires
        0 <= k <= es.len(),
    ensures
        0 <= values_len(es.take(k)) <= values_len(es),
    decreases es.len() - k,
{
    if k < es.len() {
        lemma_values_len_prefix(es, k + 1);
        assert(es.take(k + 1).drop_last() =~= es.take(k));
    } else {
        assert(es.take(k) =~= es);
    }
    lemma_values_len_nonneg(es.take(k));
}

proof fn lemma_values_len_nonneg(es: Seq<(u16, Seq<u8>)>)
    ensures
        values_len(es) >= 0,
    decreases es.len(),
{
    if es.len() > 0 {
        lemma_values_len_nonneg(es.drop_last());
    }
}

} // verus!
