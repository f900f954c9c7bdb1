//! Deterministic case conversions for identifiers.
//!
//! Each conversion is a total function on arbitrary text. Only ASCII letters
//! and digits are kept; hyphens, underscores and spaces separate words;
//! every other character is dropped.

use crate::chars::{
    ascii_lower_of, ascii_upper_of, is_ascii_alnum, is_ascii_digit, is_ascii_lower, is_ascii_upper,
    lowered, raised,
};
use crate::text::{
    chars_extend, chars_skip, chars_trim_end_char, chars_trim_start_char, from_chars, to_chars,
    trim_end_char, trim_start_char,
};
use vstd::prelude::*;

verus! {

/// The characters that separate words: hyphen, underscore and space.
pub open spec fn is_separator(c: char) -> bool {
    c == '-' || c == '_' || c == ' '
}

/// The state of the first pass of the snake-case conversion: what was written
/// so far, and whether the last character taken was a lowercase one.
pub struct SnakeScan {
    pub out: Seq<char>,
    pub prev_lower: bool,
}

/// One character of the first pass.
///
/// An ASCII capital is written in lowercase, after an underscore when the
/// character just before it was a lowercase letter. An ASCII lowercase
/// letter or digit is written as it is. A separator becomes one underscore,
/// unless nothing was written yet or an underscore was written last.
/// Anything else is dropped; after it, as after a separator, no lowercase
/// letter counts as standing just before.
pub open spec fn snake_step(st: SnakeScan, c: char) -> SnakeScan {
    if is_ascii_upper(c) {
        let base = if st.prev_lower {
            st.out.push('_')
        } else {
            st.out
        };
        SnakeScan { out: base.push(ascii_lower_of(c)), prev_lower: false }
    } else if is_ascii_lower(c) || is_ascii_digit(c) {
        SnakeScan { out: st.out.push(c), prev_lower: is_ascii_lower(c) }
    } else if is_separator(c) {
        if st.out.len() > 0 && st.out.last() != '_' {
            SnakeScan { out: st.out.push('_'), prev_lower: false }
        } else {
            SnakeScan { out: st.out, prev_lower: false }
        }
    } else {
        SnakeScan { out: st.out, prev_lower: false }
    }
}

/// The first pass over all of `s`.
pub open spec fn snake_scan(s: Seq<char>) -> SnakeScan
    decreases s.len(),
{
    if s.len() == 0 {
        SnakeScan { out: Seq::empty(), prev_lower: false }
    } else {
        snake_step(snake_scan(s.drop_last()), s.last())
    }
}

/// `s` without leading underscores and with each run of underscores reduced
/// to one.
pub open spec fn collapse_underscores(s: Seq<char>) -> Seq<char>
    decreases s.len(),
{
    if s.len() == 0 {
        Seq::empty()
    } else {
        let head = collapse_underscores(s.drop_last());
        if s.last() != '_' {
            head.push(s.last())
        } else if head.len() > 0 && s.len() >= 2 && s[s.len() - 2] != '_' {
            head.push('_')
        } else {
            head
        }
    }
}

/// `s` without leading and trailing underscores.
pub open spec fn trim_underscores(s: Seq<char>) -> Seq<char> {
    trim_end_char(trim_start_char(s, '_'), '_')
}

/// The snake-case form of `s`.
pub open spec fn snake_case(s: Seq<char>) -> Seq<char> {
    trim_underscores(collapse_underscores(snake_scan(s).out))
}

/// The state of the camel-case pass: what was written so far, and whether the
/// next character starts a word.
pub struct CamelScan {
    pub out: Seq<char>,
    pub at_start: bool,
}

/// One character of the camel-case pass: an underscore ends the word, the
/// first character of a word is written in uppercase, any other as it is.
pub open spec fn camel_step(st: CamelScan, c: char) -> CamelScan {
    if c == '_' {
        CamelScan { out: st.out, at_start: true }
    } else if st.at_start {
        CamelScan { out: st.out.push(raised(c)), at_start: false }
    } else {
        CamelScan { out: st.out.push(c), at_start: false }
    }
}

/// The camel-case pass over all of `s`.
pub open spec fn camel_scan(s: Seq<char>) -> CamelScan
    decreases s.len(),
{
    if s.len() == 0 {
        CamelScan { out: Seq::empty(), at_start: true }
    } else {
        camel_step(camel_scan(s.drop_last()), s.last())
    }
}

/// The words of a snake-case text, each with its first character in
/// uppercase, written without separators.
pub open spec fn capitalize_words(s: Seq<char>) -> Seq<char> {
    camel_scan(s).out
}

/// The UpperCamelCase form of `s`.
pub open spec fn upper_camel_case(s: Seq<char>) -> Seq<char> {
    capitalize_words(snake_case(s))
}

/// `s` with its first character in lowercase.
pub open spec fn lower_first_char(s: Seq<char>) -> Seq<char> {
    if s.len() == 0 {
        s
    } else {
        seq![lowered(s[0])] + s.skip(1)
    }
}

/// The lowerCamelCase form of `s`.
pub open spec fn lower_camel_case(s: Seq<char>) -> Seq<char> {
    lower_first_char(upper_camel_case(s))
}

fn lower_char(c: char) -> (r: char)
    ensures
        r == lowered(c),
{
    if 'A' <= c && c <= 'Z' {
        ((c as u8) + 32) as char
    } else {
        c
    }
}

fn raise_char(c: char) -> (r: char)
    ensures
        r == raised(c),
{
    if 'a' <= c && c <= 'z' {
        ((c as u8) - 32) as char
    } else {
        c
    }
}

fn snake_first_pass(v: &Vec<char>) -> (r: Vec<char>)
    ensures
        r@ == snake_scan(v@).out,
{
    let mut out: Vec<char> = Vec::new();
    let mut prev_lower = false;
    let mut i: usize = 0;
    while i < v.len()
        invariant
            i <= v.len(),
            out@ == snake_scan(v@.take(i as int)).out,
            prev_lower == snake_scan(v@.take(i as int)).prev_lower,
        decreases v.len() - i,
    {
        let c = v[i];
        proof {
            assert(v@.take(i as int + 1).drop_last() =~= v@.take(i as int));
            assert(v@.take(i as int + 1).last() == c);
        }
        if 'A' <= c && c <= 'Z' {
            if prev_lower {
                out.push('_');
            }
            out.push(lower_char(c));
            prev_lower = false;
        } else if ('a' <= c && c <= 'z') || ('0' <= c && c <= '9') {
            out.push(c);
            prev_lower = 'a' <= c && c <= 'z';
        } else if c == '-' || c == '_' || c == ' ' {
            let n = out.len();
            if n > 0 && out[n - 1] != '_' {
                out.push('_');
            }
            prev_lower = false;
        } else {
            prev_lower = false;
        }
        i += 1;
    }
    assert(v@.take(v@.len() as int) =~= v@);
    out
}

fn collapse_pass(v: &Vec<char>) -> (r: Vec<char>)
    ensures
        r@ == collapse_underscores(v@),
{
    let mut out: Vec<char> = Vec::new();
    let mut prev_underscore = false;
    let mut i: usize = 0;
    while i < v.len()
        invariant
            i <= v.len(),
            out@ == collapse_underscores(v@.take(i as int)),
            prev_underscore == (i > 0 && v@[i - 1] == '_'),
        decreases v.len() - i,
    {
        let c = v[i];
        proof {
            assert(v@.take(i as int + 1).drop_last() =~= v@.take(i as int));
            assert(v@.take(i as int + 1).last() == c);
        }
        if c == '_' {
            if !prev_underscore && out.len() > 0 {
                out.push(c);
            }
            prev_underscore = true;
        } else {
            out.push(c);
            prev_underscore = false;
        }
        i += 1;
    }
    assert(v@.take(v@.len() as int) =~= v@);
    out
}

fn trim_pass(v: &Vec<char>) -> (r: Vec<char>)
    ensures
        r@ == trim_underscores(v@),
{
    let front = chars_trim_start_char(v, '_');
    chars_trim_end_char(&front, '_')
}

/// Converts `s` to snake_case.
///
/// An underscore goes before a capital only when the character just before
/// it is a lowercase letter, so a run of capitals stays one word. Hyphens,
/// underscores and spaces separate words; runs of them count once. Every
/// character that is no ASCII letter or digit is dropped. The result holds
/// lowercase letters, digits and single underscores between them only.
pub fn to_snake_case(s: &str) -> (r: String)
    ensures
        r@ == snake_case(s@),
        is_snake_form(r@),
        r@.len() > 0 ==> r@[0] != '_',
{
    proof {
        lemma_snake_case_form(s@);
    }
    let v = to_chars(s);
    let first = snake_first_pass(&v);
    let collapsed = collapse_pass(&first);
    let trimmed = trim_pass(&collapsed);
    from_chars(&trimmed)
}

fn capitalize_pass(v: &Vec<char>) -> (r: Vec<char>)
    ensures
        r@ == capitalize_words(v@),
{
    let mut out: Vec<char> = Vec::new();
    let mut at_start = true;
    let mut i: usize = 0;
    while i < v.len()
        invariant
            i <= v.len(),
            out@ == camel_scan(v@.take(i as int)).out,
            at_start == camel_scan(v@.take(i as int)).at_start,
        decreases v.len() - i,
    {
        let c = v[i];
        proof {
            assert(v@.take(i as int + 1).drop_last() =~= v@.take(i as int));
            assert(v@.take(i as int + 1).last() == c);
        }
        if c == '_' {
            at_start = true;
        } else if at_start {
            out.push(raise_char(c));
            at_start = false;
        } else {
            out.push(c);
        }
        i += 1;
    }
    assert(v@.take(v@.len() as int) =~= v@);
    out
}

fn upper_camel_chars(s: &str) -> (r: Vec<char>)
    ensures
        r@ == upper_camel_case(s@),
{
    let snake = to_snake_case(s);
    let v = to_chars(snake.as_str());
    capitalize_pass(&v)
}

/// Converts `s` to UpperCamelCase: the snake-case form of `s`, each word with
/// its first character in uppercase, the words written without separators.
/// The result holds ASCII letters and digits only.
pub fn to_upper_camel_case(s: &str) -> (r: String)
    ensures
        r@ == upper_camel_case(s@),
        forall|j: int| 0 <= j < r@.len() ==> is_ascii_alnum(#[trigger] r@[j]),
{
    proof {
        lemma_upper_camel_case_alphabet(s@);
    }
    let out = upper_camel_chars(s);
    from_chars(&out)
}

/// Converts `s` to lowerCamelCase: the UpperCamelCase form of `s` with its
/// first character in lowercase. The result holds ASCII letters and digits
/// only, begins with no capital, and is empty exactly when the
/// UpperCamelCase form is.
pub fn to_lower_camel_case(s: &str) -> (r: String)
    ensures
        r@ == lower_camel_case(s@),
        forall|j: int| 0 <= j < r@.len() ==> is_ascii_alnum(#[trigger] r@[j]),
        r@.len() > 0 ==> !is_ascii_upper(r@[0]),
        r@.len() == 0 <==> upper_camel_case(s@).len() == 0,
{
    proof {
        lemma_lower_camel_case_alphabet(s@);
    }
    let upper = upper_camel_chars(s);
    if upper.len() == 0 {
        return from_chars(&upper);
    }
    let mut out: Vec<char> = Vec::new();
    out.push(lower_char(upper[0]));
    let rest = chars_skip(&upper, 1);
    chars_extend(&mut out, &rest);
    from_chars(&out)
}

/// A character of a snake-case form: an underscore, an ASCII lowercase
/// letter or a digit.
pub open spec fn is_snake_char(c: char) -> bool {
    c == '_' || is_ascii_lower(c) || is_ascii_digit(c)
}

/// No underscore stands at the start of `s` or right after another one.
pub open spec fn underscores_single(s: Seq<char>) -> bool {
    forall|i: int| 0 <= i < s.len() && #[trigger] s[i] == '_' ==> i > 0 && s[i - 1] != '_'
}

/// The shape of every snake-case result: lowercase letters, digits and
/// underscores only, the underscores single and only between words.
pub open spec fn is_snake_form(s: Seq<char>) -> bool {
    &&& forall|i: int| 0 <= i < s.len() ==> is_snake_char(#[trigger] s[i])
    &&& underscores_single(s)
    &&& s.len() > 0 ==> s.last() != '_'
}

/// `c` is written for some character of `s` that the first pass keeps: it is
/// the lowercase partner of an ASCII capital of `s`, or an ASCII lowercase
/// letter or digit of `s`.
pub open spec fn kept_from(s: Seq<char>, c: char) -> bool {
    exists|i: int|
        0 <= i < s.len() && (if is_ascii_upper(s[i]) {
            c == ascii_lower_of(s[i])
        } else {
            (is_ascii_lower(s[i]) || is_ascii_digit(s[i])) && c == s[i]
        })
}

proof fn lemma_kept_from_grows(s: Seq<char>, c: char)
    requires
        s.len() > 0,
        kept_from(s.drop_last(), c),
    ensures
        kept_from(s, c),
{
    let i = choose|i: int|
        0 <= i < s.drop_last().len() && (if is_ascii_upper(s.drop_last()[i]) {
            c == ascii_lower_of(s.drop_last()[i])
        } else {
            (is_ascii_lower(s.drop_last()[i]) || is_ascii_digit(s.drop_last()[i])) && c
                == s.drop_last()[i]
        });
    assert(s.drop_last()[i] == s[i]);
}

proof fn lemma_scan_sources(s: Seq<char>)
    ensures
        forall|j: int|
            0 <= j < snake_scan(s).out.len() ==> snake_scan(s).out[j] == '_' || kept_from(
                s,
                #[trigger] snake_scan(s).out[j],
            ),
    decreases s.len(),
{
    if s.len() > 0 {
        let prev = snake_scan(s.drop_last());
        let next = snake_scan(s);
        lemma_scan_sources(s.drop_last());
        assert forall|j: int| 0 <= j < next.out.len() implies next.out[j] == '_' || kept_from(
            s,
            #[trigger] next.out[j],
        ) by {
            if j < prev.out.len() {
                assert(next.out[j] == prev.out[j]);
                if prev.out[j] != '_' {
                    lemma_kept_from_grows(s, prev.out[j]);
                }
            } else if next.out[j] != '_' {
                assert(next.out[j] == if is_ascii_upper(s.last()) {
                    ascii_lower_of(s.last())
                } else {
                    s.last()
                });
                assert(s[s.len() - 1] == s.last());
            }
        }
    }
}

proof fn lemma_collapse_shape(s: Seq<char>)
    ensures
        underscores_single(collapse_underscores(s)),
        forall|j: int|
            0 <= j < collapse_underscores(s).len() ==> exists|i: int|
                0 <= i < s.len() && s[i] == #[trigger] collapse_underscores(s)[j],
        s.len() > 0 && s.last() != '_' ==> collapse_underscores(s).len() > 0
            && collapse_underscores(s).last() == s.last(),
    decreases s.len(),
{
    if s.len() > 0 {
        let head = collapse_underscores(s.drop_last());
        let all = collapse_underscores(s);
        lemma_collapse_shape(s.drop_last());
        assert forall|j: int| 0 <= j < all.len() implies exists|i: int|
            0 <= i < s.len() && s[i] == #[trigger] all[j] by {
            if j < head.len() {
                assert(all[j] == head[j]);
                let i = choose|i: int| 0 <= i < s.drop_last().len() && s.drop_last()[i] == head[j];
                assert(s[i] == all[j]);
            } else {
                assert(s[s.len() - 1] == all[j]);
            }
        }
        assert forall|i: int| 0 <= i < all.len() && #[trigger] all[i] == '_' implies i > 0 && all[i - 1]
            != '_' by {
            if i < head.len() {
                assert(all[i] == head[i]);
                if i > 0 {
                    assert(all[i - 1] == head[i - 1]);
                }
            } else {
                assert(s.drop_last().last() == s[s.len() - 2]);
                assert(all[i - 1] == head.last());
            }
        }
    }
}

proof fn lemma_trim_start_shape(s: Seq<char>)
    ensures
        exists|k: int| 0 <= k <= s.len() && trim_start_char(s, '_') == s.skip(k),
        trim_start_char(s, '_').len() > 0 ==> trim_start_char(s, '_')[0] != '_',
    decreases s.len(),
{
    if s.len() > 0 && s[0] == '_' {
        lemma_trim_start_shape(s.skip(1));
        let k = choose|k: int|
            0 <= k <= s.skip(1).len() && trim_start_char(s.skip(1), '_') == s.skip(1).skip(k);
        assert(s.skip(1).skip(k) =~= s.skip(k + 1));
    } else {
        assert(s.skip(0) =~= s);
    }
}

proof fn lemma_trim_end_shape(s: Seq<char>)
    ensures
        exists|k: int| 0 <= k <= s.len() && trim_end_char(s, '_') == s.take(k),
        trim_end_char(s, '_').len() > 0 ==> trim_end_char(s, '_').last() != '_',
    decreases s.len(),
{
    if s.len() > 0 && s.last() == '_' {
        lemma_trim_end_shape(s.drop_last());
        let k = choose|k: int|
            0 <= k <= s.drop_last().len() && trim_end_char(s.drop_last(), '_')
                == s.drop_last().take(k);
        assert(s.drop_last().take(k) =~= s.take(k));
    } else {
        assert(s.take(s.len() as int) =~= s);
    }
}

/// The trimmed text is a stretch of the given text that neither begins nor
/// ends with an underscore.
proof fn lemma_trim_shape(s: Seq<char>)
    ensures
        exists|a: int, b: int|
            0 <= a <= b <= s.len() && trim_underscores(s) == s.subrange(a, b),
        trim_underscores(s).len() > 0 ==> trim_underscores(s)[0] != '_' && trim_underscores(
            s,
        ).last() != '_',
{
    lemma_trim_start_shape(s);
    let mid = trim_start_char(s, '_');
    lemma_trim_end_shape(mid);
    let a = choose|k: int| 0 <= k <= s.len() && mid == s.skip(k);
    let n = choose|k: int| 0 <= k <= mid.len() && trim_end_char(mid, '_') == mid.take(k);
    assert(mid.take(n) =~= s.subrange(a, a + n));
    if trim_underscores(s).len() > 0 {
        assert(trim_underscores(s)[0] == mid[0]);
    }
}

/// Where every result character comes from: each one is an underscore, the
/// lowercase partner of an ASCII capital of `s`, or an ASCII lowercase
/// letter or digit of `s`. No other character of `s` adds anything.
pub proof fn lemma_snake_case_sources(s: Seq<char>)
    ensures
        forall|j: int|
            0 <= j < snake_case(s).len() ==> snake_case(s)[j] == '_' || kept_from(
                s,
                #[trigger] snake_case(s)[j],
            ),
{
    let first = snake_scan(s).out;
    let collapsed = collapse_underscores(first);
    let r = snake_case(s);
    lemma_scan_sources(s);
    lemma_collapse_shape(first);
    lemma_trim_shape(collapsed);
    let (a, b) = choose|a: int, b: int|
        0 <= a <= b <= collapsed.len() && r == collapsed.subrange(a, b);
    assert forall|j: int| 0 <= j < r.len() implies r[j] == '_' || kept_from(s, #[trigger] r[j]) by {
        assert(r[j] == collapsed[a + j]);
        let i = choose|i: int| 0 <= i < first.len() && first[i] == collapsed[a + j];
        assert(first[i] == '_' || kept_from(s, first[i]));
    }
}

/// Every snake-case result has the snake-case shape: only lowercase
/// letters, digits and underscores remain, whatever the input holds.
pub proof fn lemma_snake_case_form(s: Seq<char>)
    ensures
        is_snake_form(snake_case(s)),
        snake_case(s).len() > 0 ==> snake_case(s)[0] != '_',
{
    let first = snake_scan(s).out;
    let collapsed = collapse_underscores(first);
    let r = snake_case(s);
    lemma_snake_case_sources(s);
    lemma_collapse_shape(first);
    lemma_trim_shape(collapsed);
    let (a, b) = choose|a: int, b: int|
        0 <= a <= b <= collapsed.len() && r == collapsed.subrange(a, b);
    assert forall|j: int| 0 <= j < r.len() implies is_snake_char(r[j]) by {
        if r[j] != '_' {
            assert(kept_from(s, r[j]));
        }
    }
    assert forall|i: int| 0 <= i < r.len() && #[trigger] r[i] == '_' implies i > 0 && r[i - 1] != '_' by {
        assert(r[0] != '_');
        assert(r[i] == collapsed[a + i]);
        assert(r[i - 1] == collapsed[a + i - 1]);
    }
}

proof fn lemma_scan_fixes_form(s: Seq<char>, k: int)
    requires
        is_snake_form(s),
        0 <= k <= s.len(),
    ensures
        snake_scan(s.take(k)).out == s.take(k),
    decreases k,
{
    if k > 0 {
        lemma_scan_fixes_form(s, k - 1);
        assert(s.take(k).drop_last() =~= s.take(k - 1));
        assert(s.take(k).last() == s[k - 1]);
        assert(is_snake_char(s[k - 1]));
        if s[k - 1] == '_' {
            assert(s.take(k - 1).last() == s[k - 2]);
        }
        assert(s.take(k - 1).push(s[k - 1]) =~= s.take(k));
    } else {
        assert(s.take(0) =~= Seq::<char>::empty());
    }
}

proof fn lemma_collapse_fixes_form(s: Seq<char>, k: int)
    requires
        underscores_single(s),
        0 <= k <= s.len(),
    ensures
        collapse_underscores(s.take(k)) == s.take(k),
    decreases k,
{
    if k > 0 {
        lemma_collapse_fixes_form(s, k - 1);
        assert(s.take(k).drop_last() =~= s.take(k - 1));
        assert(s.take(k).last() == s[k - 1]);
        if s[k - 1] == '_' {
            assert(s.take(k)[k - 2] == s[k - 2]);
        }
        assert(s.take(k - 1).push(s[k - 1]) =~= s.take(k));
    } else {
        assert(s.take(0) =~= Seq::<char>::empty());
    }
}

/// A text of snake-case shape is its own snake-case form.
pub proof fn lemma_snake_form_is_fixed(s: Seq<char>)
    requires
        is_snake_form(s),
    ensures
        snake_case(s) == s,
{
    lemma_scan_fixes_form(s, s.len() as int);
    lemma_collapse_fixes_form(s, s.len() as int);
    assert(s.take(s.len() as int) =~= s);
    if s.len() > 0 {
        assert(s[0] != '_');
    }
}

/// Converting to snake case a second time changes nothing.
pub proof fn lemma_snake_case_idempotent(s: Seq<char>)
    ensures
        snake_case(snake_case(s)) == snake_case(s),
{
    lemma_snake_case_form(s);
    lemma_snake_form_is_fixed(snake_case(s));
}

/// Both camel-case forms of a text and of its snake-case form agree: each is
/// stable under a second normalization.
pub proof fn lemma_camel_case_of_snake_case(s: Seq<char>)
    ensures
        upper_camel_case(snake_case(s)) == upper_camel_case(s),
        lower_camel_case(snake_case(s)) == lower_camel_case(s),
{
    lemma_snake_case_idempotent(s);
}

proof fn lemma_camel_scan_alphabet(s: Seq<char>)
    requires
        forall|j: int| 0 <= j < s.len() ==> is_snake_char(#[trigger] s[j]),
    ensures
        forall|j: int|
            0 <= j < camel_scan(s).out.len() ==> is_ascii_alnum(#[trigger] camel_scan(s).out[j]),
    decreases s.len(),
{
    if s.len() > 0 {
        assert forall|j: int| 0 <= j < s.drop_last().len() implies is_snake_char(
            #[trigger] s.drop_last()[j],
        ) by {
            assert(s.drop_last()[j] == s[j]);
        }
        lemma_camel_scan_alphabet(s.drop_last());
        let prev = camel_scan(s.drop_last());
        let next = camel_scan(s);
        let c = s.last();
        assert(c == s[s.len() - 1]);
        assert(is_snake_char(c));
        assert forall|j: int| 0 <= j < next.out.len() implies is_ascii_alnum(
            #[trigger] next.out[j],
        ) by {
            if j < prev.out.len() {
                assert(next.out[j] == prev.out[j]);
            } else if is_ascii_lower(c) {
                assert(is_ascii_upper(ascii_upper_of(c)));
            }
        }
    }
}

/// The UpperCamelCase form holds ASCII letters and digits only, whatever the
/// input holds: no underscore, hyphen, space or other character remains.
pub proof fn lemma_upper_camel_case_alphabet(s: Seq<char>)
    ensures
        forall|j: int|
            0 <= j < upper_camel_case(s).len() ==> is_ascii_alnum(
                #[trigger] upper_camel_case(s)[j],
            ),
{
    lemma_snake_case_form(s);
    lemma_camel_scan_alphabet(snake_case(s));
}

/// The lowerCamelCase form holds ASCII letters and digits only, begins with
/// no capital, and is empty exactly when the UpperCamelCase form is.
pub proof fn lemma_lower_camel_case_alphabet(s: Seq<char>)
    ensures
        forall|j: int|
            0 <= j < lower_camel_case(s).len() ==> is_ascii_alnum(
                #[trigger] lower_camel_case(s)[j],
            ),
        lower_camel_case(s).len() > 0 ==> !is_ascii_upper(lower_camel_case(s)[0]),
        lower_camel_case(s).len() == 0 <==> upper_camel_case(s).len() == 0,
{
    lemma_upper_camel_case_alphabet(s);
    let u = upper_camel_case(s);
    if u.len() > 0 {
        let c = u[0];
        assert(is_ascii_alnum(c));
        if is_ascii_upper(c) {
            assert(is_ascii_lower(ascii_lower_of(c)));
        }
        assert(lower_camel_case(s)[0] == lowered(c));
        assert forall|j: int| 0 <= j < lower_camel_case(s).len() implies is_ascii_alnum(
            #[trigger] lower_camel_case(s)[j],
        ) by {
            if j >= 1 {
                assert(lower_camel_case(s)[j] == u[j]);
            }
        }
    }
}

} // verus!
