//! The content fingerprinter: a 64-bit digest of a snapshot that is the sole
//! equality notion used for deduplication.  Plain text that itself looks like
//! a raw HTML fragment is canonicalized, and an HTML field equal to the
//! canonical text is not fed twice, so that two representations of the same
//! value collapse to one fingerprint.

use vstd::prelude::*;

use crate::chars::{chars_eq, spec_trim, str_chars, subvec, trim_range};
use crate::snapshot::{ClipboardData, SnapView};

verus! {

/// Seed of the hash accumulator.
pub const HASH_SEED: u64 = 0xcbf2_9ce4_8422_2325;

/// Multiplier of the hash accumulator.
pub const HASH_PRIME: u64 = 0x0000_0100_0000_01b3;

/// Fed between components; no character has this code point, so component
/// boundaries cannot be confused with content.
pub const FIELD_SEP: u32 = 0xFFFF_FFFF;

/// One accumulator step: fold the value `x` into the running hash `h`.
pub open spec fn hash_step(h: u64, x: u32) -> u64 {
    (h ^ (x as u64)).wrapping_mul(HASH_PRIME)
}

/// Runtime accumulator step, equal to [`hash_step`].
pub fn hash_step_exec(h: u64, x: u32) -> (r: u64)
    ensures
        r == hash_step(h, x),
{
    (h ^ (x as u64)).wrapping_mul(HASH_PRIME)
}

/// Folds every character of `s`, in order, into the running hash `h`.
pub open spec fn hash_feed(h: u64, s: Seq<char>) -> u64
    decreases s.len(),
{
    if s.len() == 0 {
        h
    } else {
        hash_feed(hash_step(h, s[0] as u32), s.drop_first())
    }
}

proof fn lemma_hash_feed_push(h: u64, s: Seq<char>, c: char)
    ensures
        hash_feed(h, s.push(c)) == hash_step(hash_feed(h, s), c as u32),
    decreases s.len(),
{
    let sp = s.push(c);
    if s.len() == 0 {
        assert(sp[0] == c);
        assert(sp.drop_first() =~= Seq::<char>::empty());
        assert(hash_feed(h, sp) == hash_feed(hash_step(h, c as u32), sp.drop_first()));
        assert(hash_feed(hash_step(h, c as u32), sp.drop_first()) == hash_step(h, c as u32));
    } else {
        assert(sp[0] == s[0]);
        assert(sp.drop_first() =~= s.drop_first().push(c));
        lemma_hash_feed_push(hash_step(h, s[0] as u32), s.drop_first(), c);
        assert(hash_feed(h, sp) == hash_feed(hash_step(h, s[0] as u32), sp.drop_first()));
        assert(hash_feed(h, s) == hash_feed(hash_step(h, s[0] as u32), s.drop_first()));
    }
}

/// Folds a whole character vector into the running hash.
pub fn hash_vec(h0: u64, v: &Vec<char>) -> (r: u64)
    ensures
        r == hash_feed(h0, v@),
{
    let n = v.len();
    let mut h = h0;
    let mut i: usize = 0;
    while i < n
        invariant
            n == v@.len(),
            i <= n,
            h == hash_feed(h0, v@.subrange(0, i as int)),
        decreases n - i,
    {
        proof {
            assert(v@.subrange(0, i as int + 1) =~= v@.subrange(0, i as int).push(v@[i as int]));
            lemma_hash_feed_push(h0, v@.subrange(0, i as int), v@[i as int]);
        }
        h = hash_step_exec(h, v[i] as u32);
        i += 1;
    }
    proof {
        assert(v@.subrange(0, n as int) =~= v@);
    }
    h
}

/// The canonical text component of a snapshot's plain text: the trimmed value
/// when it both starts with `<` and ends with `>` (it looks like a raw HTML
/// fragment typed into plain text), the text unmodified otherwise.
pub open spec fn canonical_text(content: Seq<char>) -> Seq<char> {
    let t = spec_trim(content);
    if t.len() > 0 && t[0] == '<' && t.last() == '>' {
        t
    } else {
        content
    }
}

/// The fingerprint of a snapshot view: the canonical text, then — each behind
/// a separator, in this fixed order — the HTML field when its trimmed value
/// differs from the canonical text, the RTF field when present, and the image
/// payload when present.  The content type and the timestamp do not
/// participate.
pub open spec fn spec_fingerprint(v: SnapView) -> u64 {
    let h0 = hash_feed(HASH_SEED, canonical_text(v.content));
    let h1 = if v.html is Some && spec_trim(v.html->0) != canonical_text(v.content) {
        hash_feed(hash_step(h0, FIELD_SEP), v.html->0)
    } else {
        h0
    };
    let h2 = if v.rtf is Some {
        hash_feed(hash_step(h1, FIELD_SEP), v.rtf->0)
    } else {
        h1
    };
    if v.image is Some {
        hash_feed(hash_step(h2, FIELD_SEP), v.image->0)
    } else {
        h2
    }
}

/// Computes the fingerprint of a snapshot.
pub fn fingerprint_of(data: &ClipboardData) -> (h: u64)
    ensures
        h == spec_fingerprint(data@),
{
    let cv = str_chars(data.content.as_str());
    let (lo, hi) = trim_range(&cv);
    let html_like = hi > lo && cv[lo] == '<' && cv[hi - 1] == '>';
    let canon: Vec<char> = if html_like {
        subvec(&cv, lo, hi)
    } else {
        cv
    };
    proof {
        assert(canon@ == canonical_text(data@.content));
    }
    let mut h = hash_vec(HASH_SEED, &canon);
    if let Some(html) = &data.html {
        let hv = str_chars(html.as_str());
        let (hlo, hhi) = trim_range(&hv);
        let htrim = subvec(&hv, hlo, hhi);
        if !chars_eq(&htrim, &canon) {
            h = hash_vec(hash_step_exec(h, FIELD_SEP), &hv);
        }
    }
    if let Some(rtf) = &data.rtf {
        let rv = str_chars(rtf.as_str());
        h = hash_vec(hash_step_exec(h, FIELD_SEP), &rv);
    }
    if let Some(image) = &data.image {
        let iv = str_chars(image.as_str());
        h = hash_vec(hash_step_exec(h, FIELD_SEP), &iv);
    }
    h
}

/// Law: the fingerprint depends only on the canonical text and the optional
/// fields.  Two snapshots with identical canonical text and no HTML, RTF or
/// image difference have the same fingerprint, whatever representation noise
/// distinguishes their raw text.
pub proof fn lemma_fingerprint_canonical(a: SnapView, b: SnapView)
    requires
        canonical_text(a.content) == canonical_text(b.content),
        a.html == b.html,
        a.rtf == b.rtf,
        a.image == b.image,
    ensures
        spec_fingerprint(a) == spec_fingerprint(b),
{
}

} // verus!
