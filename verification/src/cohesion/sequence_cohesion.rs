//! Sequential cohesion: the output of each element is the input of the next.
//! The pipeline here trims a string, lowercases it, and replaces its spaces
//! with hyphens, in that order.

use vstd::prelude::*;

verus! {

/// Whether `c` has the Unicode `White_Space` property, the set of characters
/// that trimming removes.
pub open spec fn is_whitespace_char(c: char) -> bool {
    let u = c as u32;
    (9 <= u && u <= 13)  // tab, line feed, vertical tab, form feed, carriage return
    || u == 32  // space
    || u == 133  // next line
    || u == 160  // no-break space
    || u == 5760  // ogham space mark
    || (8192 <= u && u <= 8202)  // en quad .. hair space
    || u == 8232  // line separator
    || u == 8233  // paragraph separator
    || u == 8239  // narrow no-break space
    || u == 8287  // medium mathematical space
    || u == 12288  // ideographic space

}

/// `s` with its leading whitespace removed.
pub open spec fn drop_leading_whitespace(s: Seq<char>) -> Seq<char>
    decreases s.len(),
{
    if s.len() > 0 && is_whitespace_char(s[0]) {
        drop_leading_whitespace(s.drop_first())
    } else {
        s
    }
}

/// `s` with its trailing whitespace removed.
pub open spec fn drop_trailing_whitespace(s: Seq<char>) -> Seq<char>
    decreases s.len(),
{
    if s.len() > 0 && is_whitespace_char(s.last()) {
        drop_trailing_whitespace(s.drop_last())
    } else {
        s
    }
}

/// `s` with leading and trailing whitespace removed.
pub open spec fn trimmed(s: Seq<char>) -> Seq<char> {
    drop_trailing_whitespace(drop_leading_whitespace(s))
}

/// `s` with every space replaced by a hyphen.
pub open spec fn spaces_to_hyphens(s: Seq<char>) -> Seq<char> {
    s.map_values(|c: char| if c == ' ' { '-' } else { c })
}

/// A name for what `str::to_lowercase` returns for a given character
/// sequence: the result depends on the characters alone.
pub uninterp spec fn lower_of(s: Seq<char>) -> Seq<char>;

/// Exec test for the Unicode `White_Space` property.
fn is_whitespace(c: char) -> (r: bool)
    ensures
        r == is_whitespace_char(c),
{
    let u = c as u32;
    (9 <= u && u <= 13) || u == 32 || u == 133 || u == 160 || u == 5760 || (8192 <= u && u
        <= 8202) || u == 8232 || u == 8233 || u == 8239 || u == 8287 || u == 12288
}

/// Dropping leading whitespace skips exactly the whitespace prefix.
proof fn lemma_drop_leading(s: Seq<char>, i: int)
    requires
        0 <= i <= s.len(),
        forall|k: int| 0 <= k < i ==> is_whitespace_char(#[trigger] s[k]),
        i == s.len() || !is_whitespace_char(s[i]),
    ensures
        drop_leading_whitespace(s) == s.subrange(i, s.len() as int),
    decreases i,
{
    if i == 0 {
        if s.len() > 0 && is_whitespace_char(s[0]) {
            assert(false);
        }
        assert(s.subrange(0, s.len() as int) =~= s);
    } else {
        let t = s.drop_first();
        assert(forall|k: int| 0 <= k < i - 1 ==> is_whitespace_char(#[trigger] t[k]));
        lemma_drop_leading(t, i - 1);
        assert(t.subrange(i - 1, t.len() as int) =~= s.subrange(i, s.len() as int));
    }
}

/// Dropping trailing whitespace cuts exactly at the last non-whitespace
/// character.
proof fn lemma_drop_trailing(s: Seq<char>, j: int)
    requires
        0 <= j <= s.len(),
        forall|k: int| j <= k < s.len() ==> is_whitespace_char(#[trigger] s[k]),
        j == 0 || !is_whitespace_char(s[j - 1]),
    ensures
        drop_trailing_whitespace(s) == s.subrange(0, j),
    decreases s.len() - j,
{
    if j == s.len() {
        if s.len() > 0 && is_whitespace_char(s.last()) {
            assert(false);
        }
        assert(s.subrange(0, s.len() as int) =~= s);
    } else {
        let t = s.drop_last();
        assert(forall|k: int| j <= k < t.len() ==> is_whitespace_char(#[trigger] t[k]));
        lemma_drop_trailing(t, j);
        assert(t.subrange(0, j) =~= s.subrange(0, j));
    }
}

/// First pipeline step: removes leading and trailing whitespace.
fn trim_whitespace(text: &str) -> (r: String)
    ensures
        r@ == trimmed(text@),
{
    let n = text.unicode_len();
    let mut i: usize = 0;
    while i < n && is_whitespace(text.get_char(i))
        invariant
            0 <= i <= n,
            n == text@.len(),
            forall|k: int| 0 <= k < i ==> is_whitespace_char(#[trigger] text@[k]),
        decreases n - i,
    {
        i = i + 1;
    }
    proof {
        lemma_drop_leading(text@, i as int);
    }
    if i == n {
        proof {
            assert(text@.subrange(n as int, n as int) =~= Seq::<char>::empty());
        }
        return String::new();
    }
    let mut j: usize = n;
    while j > i && is_whitespace(text.get_char(j - 1))
        invariant
            i <= j <= n,
            n == text@.len(),
            forall|k: int| j <= k < n ==> is_whitespace_char(#[trigger] text@[k]),
        decreases j,
    {
        j = j - 1;
    }
    // The first loop stopped on a non-whitespace character at `i`, so the
    // second one cannot pass it.
    proof {
        let lead = text@.subrange(i as int, n as int);
        assert(forall|k: int| j - i <= k < lead.len() ==> is_whitespace_char(#[trigger] lead[k]));
        if j > i {
            assert(lead[j - 1 - i] == text@[j - 1]);
        }
        lemma_drop_trailing(lead, j - i);
        assert(lead.subrange(0, j - i) =~= text@.subrange(i as int, j as int));
    }
    text.substring_char(i, j).to_owned()
}

/// Second pipeline step.  Relies on `str::to_lowercase`: the result depends
/// on the characters alone, and an empty input gives an empty result.
#[verifier::external_body]
fn to_lowercase(text: String) -> (r: String)
    ensures
        r@ == lower_of(text@),
        text@.len() == 0 ==> r@.len() == 0,
{
    text.to_lowercase()
}

/// Third pipeline step: replaces every space with a hyphen.
fn replace_spaces_with_hyphens(text: String) -> (r: String)
    ensures
        r@ == spaces_to_hyphens(text@),
{
    let s = text.as_str();
    let n = s.unicode_len();
    let mut r = String::new();
    let mut i: usize = 0;
    while i < n
        invariant
            0 <= i <= n,
            n == s@.len(),
            r@ == spaces_to_hyphens(s@.subrange(0, i as int)),
        decreases n - i,
    {
        let c = s.get_char(i);
        if c == ' ' {
            r.append("-");
        } else {
            r.append(s.substring_char(i, i + 1));
        }
        proof {
            let prefix = s@.subrange(0, i as int);
            let extended = s@.subrange(0, i as int + 1);
            assert(extended =~= prefix.push(s@[i as int]));
            if c == ' ' {
                reveal_strlit("-");
                assert(r@ =~= spaces_to_hyphens(extended));
            } else {
                assert(s@.subrange(i as int, i as int + 1) =~= seq![s@[i as int]]);
                assert(r@ =~= spaces_to_hyphens(extended));
            }
        }
        i = i + 1;
    }
    proof {
        assert(s@.subrange(0, n as int) =~= s@);
    }
    r
}

/// The whole pipeline: trim, then lowercase, then hyphenate, each step
/// feeding the next.
pub fn process_text(input: &str) -> (r: String)
    ensures
        r@ == spaces_to_hyphens(lower_of(trimmed(input@))),
{
    let trimmed_text = trim_whitespace(input);
    let lowercased = to_lowercase(trimmed_text);
    replace_spaces_with_hyphens(lowercased)
}

} // verus!
