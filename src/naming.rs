use vstd::prelude::*;
use crate::timestamp::{Timestamp, timestamp_text, lemma_timestamp_text_len, lemma_timestamp_text_injective};

verus! {

/// The 128-bit xxh3 digest of a byte string.
pub uninterp spec fn xxh3_128_of(b: Seq<u8>) -> u128;

/// What the content sniffer makes of a byte string: `None` where it recognises
/// no kind, `Some(true)` for an image, `Some(false)` for any other kind.
pub uninterp spec fn image_sniff_of(b: Seq<u8>) -> Option<bool>;

/// Relies on xxhash_rust's `xxh3::xxh3_128`: a digest of the bytes alone.
#[verifier::external_body]
fn xxh3_128(b: &[u8]) -> (r: u128)
    ensures
        r == xxh3_128_of(b@),
{
    xxhash_rust::xxh3::xxh3_128(b)
}

/// Relies on infer's `get`: the first known kind whose signature matches the
/// bytes, told apart here only as image or not.
#[verifier::external_body]
fn sniff_image(b: &[u8]) -> (r: Option<bool>)
    ensures
        r == image_sniff_of(b@),
{
    match infer::get(b) {
        Some(t) => Some(matches!(t.matcher_type(), infer::MatcherType::Image)),
        None => None,
    }
}

/// The content fingerprint of a photo's bytes.
pub fn fingerprint(content: &[u8]) -> (r: u128)
    ensures
        r == xxh3_128_of(content@),
{
    xxh3_128(content)
}

/// Whether the content sniffer classifies the bytes as an image: `None` where
/// it recognises no kind at all.
pub fn sniff(content: &[u8]) -> (r: Option<bool>)
    ensures
        r == image_sniff_of(content@),
{
    sniff_image(content)
}

/// The height of every thumbnail, in pixels.
pub const THUMBNAIL_HEIGHT: u32 = 325;

/// The size of the thumbnail of a `width` by `height` image: the fixed height,
/// and the width that keeps the proportions, rounded down. `None` for an image
/// without height, or one so wide that the thumbnail's width would not fit.
pub fn thumbnail_size(width: u32, height: u32) -> (r: Option<(u32, u32)>)
    ensures
        height == 0 ==> r is None,
        height > 0 && (width as int * 325) / (height as int) > u32::MAX ==> r is None,
        height > 0 && (width as int * 325) / (height as int) <= u32::MAX ==> r == Some(
            (((width as int * 325) / (height as int)) as u32, 325u32),
        ),
{
    if height == 0 {
        return None;
    }
    let w: u64 = width as u64;
    let h: u64 = THUMBNAIL_HEIGHT as u64;
    assert(w * h <= 4294967295u64 * 325) by (nonlinear_arith)
        requires
            w <= 4294967295u64,
            h == 325,
    ;
    let scaled: u64 = w * h / (height as u64);
    if scaled > u32::MAX as u64 {
        return None;
    }
    Some((scaled as u32, THUMBNAIL_HEIGHT))
}

/// Whether the last character of `s` is one that a path's final component
/// does not count: a separator, or the `.` of a trailing `/.` component.
pub open spec fn ends_in_skipped(s: Seq<char>) -> bool {
    s.len() > 0 && (s.last() == '/' || (s.len() >= 2 && s.last() == '.' && s[s.len() - 2] == '/'))
}

/// `s` without its trailing separators and trailing `.` components, which a
/// path's components leave out.
pub open spec fn trim_tail(s: Seq<char>) -> Seq<char>
    decreases s.len(),
{
    if ends_in_skipped(s) {
        trim_tail(s.drop_last())
    } else {
        s
    }
}

/// The characters after the last slash of `s`.
pub open spec fn last_component(s: Seq<char>) -> Seq<char>
    decreases s.len(),
{
    if s.len() == 0 {
        s
    } else if s.last() == '/' {
        Seq::empty()
    } else {
        last_component(s.drop_last()).push(s.last())
    }
}

/// The final component of a path, where it names a file or directory: none
/// for an empty path, the root, `.` or `..`. Repeated separators and `.`
/// components at the end do not count, so `foo.txt/.` names `foo.txt`.
pub open spec fn file_name_of(p: Seq<char>) -> Option<Seq<char>> {
    let c = last_component(trim_tail(p));
    if c.len() == 0 || c == seq!['.'] || c == seq!['.', '.'] {
        None
    } else {
        Some(c)
    }
}

/// The name a photo is stored under: its import time, an underscore, and the
/// name of the file it was imported from.
pub open spec fn display_name(t: Timestamp, basename: Seq<char>) -> Seq<char> {
    timestamp_text(t) + seq!['_'] + basename
}

/// Returns only the final component of a path, or `None` where the path ends
/// in no file name.
pub fn get_filename_from(path: &str) -> (r: Option<String>)
    ensures
        r matches Some(n) ==> file_name_of(path@) == Some(n@),
        r is None ==> file_name_of(path@) is None,
{
    let len = path.unicode_len();
    let mut end: usize = len;
    assert(path@.subrange(0, len as int) =~= path@);
    while end > 0 && (path.get_char(end - 1) == '/' || (end >= 2 && path.get_char(end - 1) == '.'
        && path.get_char(end - 2) == '/'))
        invariant
            end <= len,
            len == path@.len(),
            trim_tail(path@) == trim_tail(path@.subrange(0, end as int)),
        decreases end,
    {
        let ghost pre = path@.subrange(0, end as int);
        assert(ends_in_skipped(pre));
        assert(pre.drop_last() =~= path@.subrange(0, end - 1));
        end = end - 1;
    }
    let ghost tail = path@.subrange(0, end as int);
    assert(!ends_in_skipped(tail));
    assert(trim_tail(tail) == tail);
    let mut start: usize = end;
    while start > 0 && path.get_char(start - 1) != '/'
        invariant
            start <= end <= len,
            len == path@.len(),
            last_component(path@.subrange(0, end as int)) =~= last_component(
                path@.subrange(0, start as int),
            ) + path@.subrange(start as int, end as int),
        decreases start,
    {
        let ghost pre = path@.subrange(0, start as int);
        assert(pre.drop_last() =~= path@.subrange(0, start - 1));
        assert(last_component(pre) =~= last_component(pre.drop_last()).push(pre.last()));
        assert(path@.subrange(start - 1, end as int) =~= seq![pre.last()] + path@.subrange(
            start as int,
            end as int,
        ));
        start = start - 1;
    }
    assert(last_component(path@.subrange(0, start as int)) =~= Seq::<char>::empty());
    let name = path.substring_char(start, end);
    let ghost c = trim_tail(path@);
    assert(name@ =~= last_component(c));
    let n = end - start;
    if n == 0 {
        return None;
    }
    if n == 1 && name.get_char(0) == '.' {
        assert(name@ =~= seq!['.']);
        return None;
    }
    if n == 2 && name.get_char(0) == '.' && name.get_char(1) == '.' {
        assert(name@ =~= seq!['.', '.']);
        return None;
    }
    assert(name@ != seq!['.']) by {
        if n == 1 {
            assert(name@[0] != seq!['.'][0]);
        }
    }
    assert(name@ != seq!['.', '.']) by {
        if n == 2 {
            assert(name@[0] != '.' || name@[1] != '.');
        }
    }
    Some(String::from_str(name))
}

/// The stored name of a photo imported at `t` from a file called `basename`.
pub fn derive_display_name(t: &Timestamp, basename: &str) -> (r: String)
    ensures
        r@ == display_name(*t, basename@),
{
    let mut out = t.format();
    proof {
        reveal_strlit("_");
    }
    out.append("_");
    out.append(basename);
    assert(out@ =~= display_name(*t, basename@));
    out
}

/// Display names are collision-free: two imports with different times, or
/// imported from files with different names, are stored under different names.
pub proof fn display_names_distinct(t1: Timestamp, b1: Seq<char>, t2: Timestamp, b2: Seq<char>)
    requires
        t1.wf(),
        t2.wf(),
        t1 != t2 || b1 != b2,
    ensures
        display_name(t1, b1) != display_name(t2, b2),
{
    if display_name(t1, b1) == display_name(t2, b2) {
        lemma_timestamp_text_len(t1);
        lemma_timestamp_text_len(t2);
        let d1 = display_name(t1, b1);
        let d2 = display_name(t2, b2);
        assert(d1.subrange(0, 26) =~= timestamp_text(t1));
        assert(d2.subrange(0, 26) =~= timestamp_text(t2));
        lemma_timestamp_text_injective(t1, t2);
        assert(d1.subrange(27, d1.len() as int) =~= b1);
        assert(d2.subrange(27, d2.len() as int) =~= b2);
    }
}

} // verus!
