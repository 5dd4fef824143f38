use vstd::prelude::*;

verus! {

/// The Unicode lowercasing of a text.
pub uninterp spec fn lower_of(s: Seq<char>) -> Seq<char>;

/// Relies on str::to_lowercase: the result depends on the characters alone.
#[verifier::external_body]
pub(crate) fn lowercase(s: &str) -> (r: String)
    ensures
        r@ == lower_of(s@),
{
    s.to_lowercase()
}

/// Relies on str::chars: yields exactly the text's characters in order.
#[verifier::external_body]
pub(crate) fn str_chars(s: &str) -> (r: Vec<char>)
    ensures
        r@ == s@,
{
    s.chars().collect()
}

/// Relies on String's from-iterator: the string holding exactly these
/// characters in order.
#[verifier::external_body]
pub(crate) fn chars_to_string(v: &Vec<char>) -> (r: String)
    ensures
        r@ == v@,
{
    v.iter().copied().collect()
}

/// Printable, non-whitespace ASCII: the only characters a slug keeps.
pub open spec fn is_graphic(c: char) -> bool {
    0x21 <= c as u32 && c as u32 <= 0x7e
}

pub open spec fn hyphen_char(c: char) -> char {
    if c == ' ' {
        '-'
    } else {
        c
    }
}

/// Every space replaced with a hyphen.
pub open spec fn hyphenate(s: Seq<char>) -> Seq<char> {
    s.map_values(|c: char| hyphen_char(c))
}

/// Only the printable, non-whitespace ASCII characters, in order: anything
/// else is removed, not replaced, so adjacent kept characters close up.
pub open spec fn keep_graphic(s: Seq<char>) -> Seq<char>
    decreases s.len(),
{
    if s.len() == 0 {
        Seq::empty()
    } else if is_graphic(s.last()) {
        keep_graphic(s.drop_last()).push(s.last())
    } else {
        keep_graphic(s.drop_last())
    }
}

/// The slug of a title: spaces become hyphens first, then the whole text is
/// lowercased, then every character that is not printable non-whitespace
/// ASCII is removed. The same title always yields the same slug.
pub open spec fn slug_of(title: Seq<char>) -> Seq<char> {
    keep_graphic(lower_of(hyphenate(title)))
}

fn exec_is_graphic(c: char) -> (r: bool)
    ensures
        r == is_graphic(c),
{
    let u = c as u32;
    0x21 <= u && u <= 0x7e
}

/// Derives the slug of a title.
pub fn slug(title: &str) -> (r: String)
    ensures
        r@ == slug_of(title@),
{
    let cs = str_chars(title);
    let mut hy: Vec<char> = Vec::new();
    let mut i: usize = 0;
    while i < cs.len()
        invariant
            i <= cs@.len(),
            cs@ == title@,
            hy@ == hyphenate(cs@.take(i as int)),
        decreases cs@.len() - i,
    {
        let c = cs[i];
        hy.push(if c == ' ' { '-' } else { c });
        proof {
            assert(hyphenate(cs@.take(i as int + 1)) =~= hyphenate(cs@.take(i as int)).push(
                hyphen_char(cs@[i as int]),
            ));
        }
        i = i + 1;
    }
    proof {
        assert(cs@.take(cs@.len() as int) =~= cs@);
    }
    let hys = chars_to_string(&hy);
    let low = lowercase(hys.as_str());
    let lcs = str_chars(low.as_str());
    let mut out: Vec<char> = Vec::new();
    let mut j: usize = 0;
    while j < lcs.len()
        invariant
            j <= lcs@.len(),
            lcs@ == lower_of(hyphenate(title@)),
            out@ == keep_graphic(lcs@.take(j as int)),
        decreases lcs@.len() - j,
    {
        let c = lcs[j];
        if exec_is_graphic(c) {
            out.push(c);
        }
        proof {
            assert(lcs@.take(j as int + 1).drop_last() =~= lcs@.take(j as int));
        }
        j = j + 1;
    }
    proof {
        assert(lcs@.take(lcs@.len() as int) =~= lcs@);
    }
    chars_to_string(&out)
}

} // verus!
