//! Title derivation: the first heading's text is stripped of control
//! whitespace, split on the single `|` separator, and recombined with
//! the two parts swapped around a ` - ` joiner. Anything other than
//! exactly one separator is a failure, never a silently malformed
//! title.

use vstd::prelude::*;

use crate::errors::SheetError;
use crate::text::{
    chars_of, count_char, lemma_count_char_push, lemma_count_char_unique, string_of,
    strip_controls, strip_ws, sub_vec,
};

verus! {

/// A raw heading derives a title exactly when its stripped form holds
/// exactly one `|` separator.
pub open spec fn title_derivable(raw: Seq<char>) -> bool {
    count_char(strip_ws(raw), '|') == 1
}

/// The position of the `|` separator in a stripped heading (the
/// position is unique whenever the heading is derivable).
pub open spec fn separator_pos(t: Seq<char>) -> int {
    choose|k: int| 0 <= k < t.len() && t[k] == '|'
}

/// The derived title: the part after the separator, then ` - `, then
/// the part before it. Meaningful when `title_derivable(raw)` holds.
pub open spec fn spec_title(raw: Seq<char>) -> Seq<char> {
    let t = strip_ws(raw);
    let k = separator_pos(t);
    t.subrange(k + 1, t.len() as int) + " - "@ + t.subrange(0, k)
}

/// Derives the record title from the first heading's raw text.
///
/// Succeeds exactly when the stripped heading holds exactly one `|`
/// separator; the result swaps the two parts around ` - `. With zero
/// or two-plus separators this fails with the missing-title error and
/// never yields a malformed title.
pub fn parse_title(raw: &str) -> (r: Result<String, SheetError>)
    ensures
        r is Ok <==> title_derivable(raw@),
        r matches Ok(t) ==> t@ == spec_title(raw@),
        r matches Err(e) ==> e matches SheetError::GetFailed(f) && f@ == "sheet title"@,
{
    let v = chars_of(raw);
    let t = strip_controls(&v);
    let n = t.len();
    let mut count: usize = 0;
    let mut pos: usize = 0;
    let mut i: usize = 0;
    while i < n
        invariant
            i <= n,
            n == t@.len(),
            count <= i,
            count == count_char(t@.take(i as int), '|'),
            count == 0 ==> forall|j: int| 0 <= j < i ==> t@[j] != '|',
            count > 0 ==> pos < i && t@[pos as int] == '|',
            count > 0 ==> forall|j: int| 0 <= j < pos ==> t@[j] != '|',
        decreases n - i,
    {
        let c = t[i];
        proof {
            assert(t@.take(i as int).push(c) =~= t@.take(i + 1 as int));
            lemma_count_char_push(t@.take(i as int), '|', c);
        }
        if c == '|' {
            if count == 0 {
                pos = i;
            }
            count = count + 1;
        }
        i = i + 1;
    }
    proof {
        assert(t@.take(n as int) =~= t@);
    }
    if count != 1 {
        return Err(SheetError::GetFailed(String::from_str("sheet title")));
    }
    let before = sub_vec(&t, 0, pos);
    let after = sub_vec(&t, pos + 1, n);
    let title = string_of(&after).concat(" - ").concat(string_of(&before).as_str());
    proof {
        let k = separator_pos(t@);
        assert(0 <= k < t@.len() && t@[k] == '|');
        lemma_count_char_unique(t@, '|', k, pos as int);
        assert(title@ =~= spec_title(raw@));
    }
    Ok(title)
}

/// A stripped heading of the shape `A|B`, with no separator inside
/// either part, derives exactly the title `B - A`.
pub proof fn lemma_title_recombine(raw: Seq<char>, a: Seq<char>, b: Seq<char>)
    requires
        strip_ws(raw) == a + seq!['|'] + b,
        forall|i: int| 0 <= i < a.len() ==> a[i] != '|',
        forall|i: int| 0 <= i < b.len() ==> b[i] != '|',
    ensures
        title_derivable(raw),
        spec_title(raw) == b + " - "@ + a,
{
    let t = strip_ws(raw);
    let k0 = a.len() as int;
    assert(t[k0] == '|');
    assert forall|j: int| 0 <= j < t.len() && j != k0 implies t[j] != '|' by {
        if j < k0 {
            assert(t[j] == a[j]);
        } else {
            assert(t[j] == b[j - k0 - 1]);
        }
    }
    crate::text::lemma_count_char_concat(a + seq!['|'], b, '|');
    crate::text::lemma_count_char_concat(a, seq!['|'], '|');
    assert((a + seq!['|'] + b) =~= (a + seq!['|']) + b);
    let bar = seq!['|'];
    assert(count_char(bar, '|') == 1) by {
        assert(bar.len() == 1);
        assert(bar.last() == '|');
        assert(bar.drop_last() =~= Seq::<char>::empty());
        assert(count_char(bar.drop_last(), '|') == 0);
    }
    assert(count_char(a, '|') == 0) by {
        lemma_count_char_none(a, '|');
    }
    assert(count_char(b, '|') == 0) by {
        lemma_count_char_none(b, '|');
    }
    let k = separator_pos(t);
    assert(0 <= k < t.len() && t[k] == '|');
    assert(k == k0);
    assert(t.subrange(k + 1, t.len() as int) =~= b);
    assert(t.subrange(0, k) =~= a);
}

/// A sequence without any occurrence of `c` counts zero.
proof fn lemma_count_char_none(s: Seq<char>, c: char)
    requires
        forall|i: int| 0 <= i < s.len() ==> s[i] != c,
    ensures
        count_char(s, c) == 0,
    decreases s.len(),
{
    if s.len() > 0 {
        lemma_count_char_none(s.drop_last(), c);
    }
}

} // verus!
