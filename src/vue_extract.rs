use vstd::prelude::*;
use vstd::slice::slice_subrange;
use vstd::slice::slice_to_vec;

verus! {

/// A character of Unicode's `White_Space` property: white space in a section header, in a
/// `lang` value and in trimming.
pub open spec fn is_space(b: char) -> bool {
    ('\t' <= b && b <= '\r') || b == ' ' || b == '\u{85}' || b == '\u{a0}' || b == '\u{1680}'
        || ('\u{2000}' <= b && b <= '\u{200a}') || b == '\u{2028}' || b == '\u{2029}' || b
        == '\u{202f}' || b == '\u{205f}' || b == '\u{3000}'
}

/// `p` occurs in `s` at position `i`.
pub open spec fn has_at(s: Seq<char>, p: Seq<char>, i: int) -> bool {
    0 <= i && i + p.len() <= s.len() && s.subrange(i, i + p.len()) == p
}

/// `<` followed by the tag name.
pub open spec fn open_prefix(tag: Seq<char>) -> Seq<char> {
    seq!['<'] + tag
}

/// `</`, the tag name, `>`.
pub open spec fn closing(tag: Seq<char>) -> Seq<char> {
    seq!['<', '/'] + tag + seq!['>']
}

/// An opening tag starts at `i`: `<tag` followed by `>` or by white space.
pub open spec fn opens_at(s: Seq<char>, tag: Seq<char>, i: int) -> bool {
    has_at(s, open_prefix(tag), i) && i + 1 + tag.len() < s.len() && (s[i + 1 + tag.len()] == '>'
        || is_space(s[i + 1 + tag.len()]))
}

/// `m` is the first `>` at or after `k`.
pub open spec fn first_gt(s: Seq<char>, k: int, m: int) -> bool {
    0 <= k <= m < s.len() && s[m] == '>' && forall|x: int| k <= x < m ==> s[x] != '>'
}

/// `e` is the first position at or after `k` where the closing tag occurs.
pub open spec fn first_close(s: Seq<char>, tag: Seq<char>, k: int, e: int) -> bool {
    0 <= k <= e && has_at(s, closing(tag), e) && forall|x: int|
        k <= x < e ==> !has_at(s, closing(tag), x)
}

/// A section starts at `i`: its opening tag ends with the `>` at `m`, its content is
/// not empty, and the first closing tag after the content's first byte starts at `e`.
pub open spec fn section_at(s: Seq<char>, tag: Seq<char>, i: int, m: int, e: int) -> bool {
    opens_at(s, tag, i) && first_gt(s, i + 1 + tag.len(), m) && first_close(s, tag, m + 2, e)
}

pub open spec fn has_section_at(s: Seq<char>, tag: Seq<char>, i: int) -> bool {
    exists|m: int, e: int| section_at(s, tag, i, m, e)
}

/// Drops the leading white space.
pub open spec fn trim_start(b: Seq<char>) -> Seq<char>
    decreases b.len(),
{
    if b.len() > 0 && is_space(b[0]) {
        trim_start(b.drop_first())
    } else {
        b
    }
}

/// Drops the trailing white space.
pub open spec fn trim_end(b: Seq<char>) -> Seq<char>
    decreases b.len(),
{
    if b.len() > 0 && is_space(b.last()) {
        trim_end(b.drop_last())
    } else {
        b
    }
}

pub open spec fn trimmed(b: Seq<char>) -> Seq<char> {
    trim_end(trim_start(b))
}

/// The number of line feeds in `b`.
pub open spec fn newlines(b: Seq<u8>) -> nat
    decreases b.len(),
{
    if b.len() == 0 {
        0
    } else {
        newlines(b.drop_last()) + if b.last() == 10 { 1nat } else { 0nat }
    }
}

/// The number of line feeds in `b`.
pub open spec fn line_feeds(b: Seq<char>) -> nat
    decreases b.len(),
{
    if b.len() == 0 {
        0
    } else {
        line_feeds(b.drop_last()) + if b.last() == '\n' { 1nat } else { 0nat }
    }
}

fn space_byte(b: char) -> (r: bool)
    ensures
        r == is_space(b),
{
    ('\t' <= b && b <= '\r') || b == ' ' || b == '\u{85}' || b == '\u{a0}' || b == '\u{1680}'
        || ('\u{2000}' <= b && b <= '\u{200a}') || b == '\u{2028}' || b == '\u{2029}' || b
        == '\u{202f}' || b == '\u{205f}' || b == '\u{3000}'
}

/// Whether `p` occurs in `s` at position `i`.
fn occurs_at(s: &[char], p: &[char], i: usize) -> (r: bool)
    ensures
        r == has_at(s@, p@, i as int),
{
    if i > s.len() || p.len() > s.len() - i {
        return false;
    }
    let mut k: usize = 0;
    while k < p.len()
        invariant
            i + p@.len() <= s@.len(),
            i + p.len() <= s.len(),
            k <= p@.len(),
            forall|x: int| 0 <= x < k ==> s@[i + x] == p@[x],
        decreases p@.len() - k,
    {
        if s[i + k] != p[k] {
            assert(s@.subrange(i as int, i + p@.len())[k as int] != p@[k as int]);
            return false;
        }
        k = k + 1;
    }
    assert(s@.subrange(i as int, i + p@.len()) =~= p@);
    true
}

/// The first `>` at or after `k`, if any.
fn find_gt(s: &[char], k: usize) -> (r: Option<usize>)
    requires
        k <= s@.len(),
    ensures
        r matches Some(m) ==> first_gt(s@, k as int, m as int),
        r is None ==> forall|x: int| k <= x < s@.len() ==> s@[x] != '>',
{
    let mut m: usize = k;
    while m < s.len()
        invariant
            k <= m <= s@.len(),
            forall|x: int| k <= x < m ==> s@[x] != '>',
        decreases s@.len() - m,
    {
        if s[m] == '>' {
            return Some(m);
        }
        m = m + 1;
    }
    None
}

/// The first position at or after `k` where `p` occurs, if any.
fn find_from(s: &[char], p: &[char], k: usize) -> (r: Option<usize>)
    requires
        k <= s@.len(),
        p@.len() > 0,
    ensures
        r matches Some(e) ==> k <= e && has_at(s@, p@, e as int) && forall|x: int|
            k <= x < e ==> !has_at(s@, p@, x),
        r is None ==> forall|x: int| k <= x ==> !has_at(s@, p@, x),
{
    let mut e: usize = k;
    while e < s.len()
        invariant
            k <= e <= s@.len(),
            forall|x: int| k <= x < e ==> !has_at(s@, p@, x),
        decreases s@.len() - e,
    {
        if occurs_at(s, p, e) {
            return Some(e);
        }
        e = e + 1;
    }
    None
}

/// A character that can stand in a `lang` value.
pub open spec fn lang_char(b: char) -> bool {
    b != '\"' && b != '\'' && !is_space(b) && b != '>'
}

/// `lang=`
pub open spec fn lang_key() -> Seq<char> {
    seq!['l', 'a', 'n', 'g', '=']
}

/// Where the value of a `lang=` at `p` starts: past one quote, if one follows.
pub open spec fn value_start(a: Seq<char>, p: int) -> int {
    if p + 5 < a.len() && (a[p + 5] == '\"' || a[p + 5] == '\'') {
        p + 6
    } else {
        p + 5
    }
}

/// A `lang` attribute with a value that is not empty starts at `p`.
pub open spec fn lang_at(a: Seq<char>, p: int) -> bool {
    has_at(a, lang_key(), p) && value_start(a, p) < a.len() && lang_char(a[value_start(a, p)])
}

/// `z` ends the run of value bytes that starts at `k`.
pub open spec fn run_end(a: Seq<char>, k: int, z: int) -> bool {
    0 <= k <= z <= a.len() && (forall|x: int| k <= x < z ==> lang_char(a[x])) && (z == a.len()
        || !lang_char(a[z]))
}

/// `k..z` is the value of the first `lang` attribute in `a`.
pub open spec fn lang_value_at(a: Seq<char>, k: int, z: int) -> bool {
    exists|p: int|
        0 <= p && lang_at(a, p) && (forall|q: int| 0 <= q < p ==> !lang_at(a, q)) && k
            == value_start(a, p) && run_end(a, k, z)
}

/// Text made from bytes, with each invalid UTF-8 sequence replaced by U+FFFD.
pub uninterp spec fn utf8_lossy(b: Seq<u8>) -> Seq<char>;

/// Relies on `String::from_utf8_lossy`: the text depends on the bytes alone.
#[verifier::external_body]
fn decode_lossy(b: &[u8]) -> (r: Vec<char>)
    ensures
        r@ == utf8_lossy(b@),
{
    String::from_utf8_lossy(b).chars().collect()
}

/// Relies on `String`'s `FromIterator<&char>`: the string holds the characters in order.
#[verifier::external_body]
fn string_of(c: &[char]) -> (r: String)
    ensures
        r@ == c@,
{
    c.iter().collect()
}

/// The UTF-8 encoding of a text.
pub uninterp spec fn utf8_encode(c: Seq<char>) -> Seq<u8>;

/// Relies on `String::into_bytes`: the bytes are the UTF-8 encoding of the characters,
/// which depends on them alone.
#[verifier::external_body]
fn encode_utf8(c: &[char]) -> (r: Vec<u8>)
    ensures
        r@ == utf8_encode(c@),
{
    c.iter().collect::<String>().into_bytes()
}

/// The language that the attribute text `a` names, if any.
pub open spec fn lang_of(a: Seq<char>, lang: Option<String>) -> bool {
    match lang {
        None => forall|p: int| !lang_at(a, p),
        Some(v) => exists|k: int, z: int|
            lang_value_at(a, k, z) && v@ == a.subrange(k, z),
    }
}

/// An opening tag with attributes starts at `q`, `<tag` and white space, before `lim`.
pub open spec fn attr_open_at(s: Seq<char>, tag: Seq<char>, q: int, lim: int) -> bool {
    has_at(s, open_prefix(tag), q) && q + 1 + tag.len() < lim && lim <= s.len() && is_space(
        s[q + 1 + tag.len()],
    )
}

/// `w` is the first byte at or after `k` that is not white space.
pub open spec fn first_non_space(s: Seq<char>, k: int, w: int) -> bool {
    0 <= k <= w <= s.len() && (forall|x: int| k <= x < w ==> is_space(s[x])) && (w == s.len()
        || !is_space(s[w]))
}

/// `w..g` is the attribute text of the first opening tag with attributes in `i..lim`.
pub open spec fn attributes_at(s: Seq<char>, tag: Seq<char>, i: int, lim: int, w: int, g: int) -> bool {
    exists|q: int|
        i <= q && attr_open_at(s, tag, q, lim) && (forall|x: int|
            i <= x < q ==> !attr_open_at(s, tag, x, lim)) && first_non_space(s, q + 1 + tag.len(), w)
            && first_gt(s, w, g) && g < lim
}

/// The language of a section whose text is `i..lim`: the `lang` attribute of the first
/// opening tag with attributes in that text.
pub open spec fn section_lang(s: Seq<char>, tag: Seq<char>, i: int, lim: int, lang: Option<String>) -> bool {
    ((forall|q: int| i <= q ==> !attr_open_at(s, tag, q, lim)) ==> lang is None) && forall|w: int, g: int|
        attributes_at(s, tag, i, lim, w, g) ==> lang_of(s.subrange(w, g), lang)
}

/// A section of a single-file component: the trimmed bytes between its opening and its
/// closing tag, the line of its opening tag, counted from 1, and its `lang` attribute.
#[derive(Debug, Clone)]
pub struct VueSection {
    pub content: Vec<u8>,
    pub start_line: usize,
    pub lang: Option<String>,
}

/// The three sections of a single-file component, each present where the file has it.
#[derive(Debug)]
pub struct VueSections {
    pub template: Option<VueSection>,
    pub script: Option<VueSection>,
    pub style: Option<VueSection>,
}

/// `template`
pub open spec fn template_tag() -> Seq<char> {
    seq!['t', 'e', 'm', 'p', 'l', 'a', 't', 'e']
}

/// `script`
pub open spec fn script_tag() -> Seq<char> {
    seq!['s', 'c', 'r', 'i', 'p', 't']
}

/// `style`
pub open spec fn style_tag() -> Seq<char> {
    seq!['s', 't', 'y', 'l', 'e']
}

/// `r` is the section for `tag` in `s`: absent when no section for `tag` is in `s`;
/// otherwise the leftmost one, its content trimmed, its line, and its language.
pub open spec fn section_of(s: Seq<char>, tag: Seq<char>, r: Option<VueSection>) -> bool {
    match r {
        None => forall|i: int| !has_section_at(s, tag, i),
        Some(sec) => exists|i: int, m: int, e: int|
            section_at(s, tag, i, m, e) && (forall|j: int| j < i ==> !has_section_at(s, tag, j))
                && sec.content@ == utf8_encode(trimmed(s.subrange(m + 1, e))) && sec.start_line == line_feeds(
                s.subrange(0, i),
            ) + 1 && section_lang(s, tag, i, e + closing(tag).len(), sec.lang),
    }
}

/// The attribute text of a section is determined by the section.
proof fn lemma_attributes_unique(
    s: Seq<char>,
    tag: Seq<char>,
    i: int,
    lim: int,
    w: int,
    g: int,
    w2: int,
    g2: int,
)
    requires
        attributes_at(s, tag, i, lim, w, g),
        attributes_at(s, tag, i, lim, w2, g2),
    ensures
        w == w2 && g == g2,
{
    let q = choose|q: int|
        i <= q && attr_open_at(s, tag, q, lim) && (forall|x: int|
            i <= x < q ==> !attr_open_at(s, tag, x, lim)) && first_non_space(s, q + 1 + tag.len(), w)
            && first_gt(s, w, g);
    let q2 = choose|q2: int|
        i <= q2 && attr_open_at(s, tag, q2, lim) && (forall|x: int|
            i <= x < q2 ==> !attr_open_at(s, tag, x, lim)) && first_non_space(s, q2 + 1 + tag.len(), w2)
            && first_gt(s, w2, g2);
    if q2 < q {
        assert(!attr_open_at(s, tag, q2, lim));
    }
    if q2 > q {
        assert(!attr_open_at(s, tag, q, lim));
    }
    if w2 < w {
        assert(is_space(s[w2]));
    }
    if w2 > w {
        assert(is_space(s[w]));
    }
    if g2 < g {
        assert(s[g2] != '>');
    }
    if g2 > g {
        assert(s[g] != '>');
    }
}

/// Joins two byte strings.
fn concat(a: &[char], b: &[char]) -> (r: Vec<char>)
    ensures
        r@ == a@ + b@,
{
    let mut r = slice_to_vec(a);
    let mut k: usize = 0;
    while k < b.len()
        invariant
            k <= b@.len(),
            r@ == a@ + b@.subrange(0, k as int),
        decreases b@.len() - k,
    {
        r.push(b[k]);
        k = k + 1;
        assert(r@ =~= a@ + b@.subrange(0, k as int));
    }
    assert(b@.subrange(0, b@.len() as int) =~= b@);
    r
}

/// Whether an opening tag starts at `i`.
fn opening_at(s: &[char], prefix: &[char], tag_len: usize, i: usize) -> (r: bool)
    requires
        prefix@.len() == tag_len + 1,
    ensures
        r == (has_at(s@, prefix@, i as int) && i + 1 + tag_len < s@.len() && (s@[i + 1 + tag_len]
            == '>' || is_space(s@[i + 1 + tag_len]))),
{
    if !occurs_at(s, prefix, i) {
        return false;
    }
    assert(i + prefix@.len() <= s@.len());
    assert(s@.len() == s.len() && prefix@.len() == prefix.len());
    let j = i + prefix.len();
    if j >= s.len() {
        return false;
    }
    s[j] == '>' || space_byte(s[j])
}

/// The leftmost section for `tag`, as the positions of its opening tag, of the `>` that
/// ends it, and of its closing tag.
fn find_section(s: &[char], tag: &[char]) -> (r: Option<(usize, usize, usize)>)
    requires
        tag@.len() > 0,
    ensures
        r is None ==> forall|i: int| !has_section_at(s@, tag@, i),
        r matches Some((i, m, e)) ==> section_at(s@, tag@, i as int, m as int, e as int)
            && forall|j: int| j < i ==> !has_section_at(s@, tag@, j),
{
    let lt = vec!['<'];
    let prefix = concat(&lt, tag);
    let lt_slash = vec!['<', '/'];
    let gt = vec!['>'];
    let head = concat(&lt_slash, tag);
    let close = concat(&head, &gt);
    assert(prefix@ =~= open_prefix(tag@));
    assert(close@ =~= closing(tag@));
    let mut i: usize = 0;
    while i < s.len()
        invariant
            prefix@ == open_prefix(tag@),
            close@ == closing(tag@),
            i <= s@.len(),
            forall|j: int| j < i ==> !has_section_at(s@, tag@, j),
        decreases s@.len() - i,
    {
        if opening_at(s, &prefix, tag.len(), i) {
            let k = i + 1 + tag.len();
            match find_gt(s, k) {
                Some(m) => {
                    if m + 1 < s.len() {
                        match find_from(s, &close, m + 2) {
                            Some(e) => {
                                return Some((i, m, e));
                            },
                            None => {
                                assert forall|m2: int, e2: int| !section_at(s@, tag@, i as int, m2, e2) by {
                                    if section_at(s@, tag@, i as int, m2, e2) {
                                        if m2 < m { assert(s@[m2] != '>'); }
                                        if m < m2 { assert(s@[m as int] != '>'); }
                                        assert(!has_at(s@, close@, e2));
                                    }
                                }
                            },
                        }
                    } else {
                        assert forall|m2: int, e2: int| !section_at(s@, tag@, i as int, m2, e2) by {
                            if section_at(s@, tag@, i as int, m2, e2) {
                                if m2 < m { assert(s@[m2] != '>'); }
                                if m < m2 { assert(s@[m as int] != '>'); }
                            }
                        }
                    }
                },
                None => {
                    assert forall|m2: int, e2: int| !section_at(s@, tag@, i as int, m2, e2) by {
                        if section_at(s@, tag@, i as int, m2, e2) {
                            assert(s@[m2] == '>');
                        }
                    }
                },
            }
        }
        i = i + 1;
    }
    assert forall|j: int| !has_section_at(s@, tag@, j) by {
        if j >= s@.len() && has_section_at(s@, tag@, j) {
            assert(has_at(s@, open_prefix(tag@), j));
        }
    }
    None
}

/// The bounds of the value of the first `lang` attribute in `a`.
fn find_lang(a: &[char]) -> (r: Option<(usize, usize)>)
    ensures
        r is None ==> forall|p: int| !lang_at(a@, p),
        r matches Some((k, z)) ==> lang_value_at(a@, k as int, z as int),
{
    let key = vec!['l', 'a', 'n', 'g', '='];
    assert(key@ =~= lang_key());
    let mut p: usize = 0;
    while p < a.len()
        invariant
            key@ == lang_key(),
            p <= a@.len(),
            forall|q: int| 0 <= q < p ==> !lang_at(a@, q),
        decreases a@.len() - p,
    {
        if occurs_at(a, &key, p) {
            let mut k: usize = p + 5;
            if k < a.len() && (a[k] == '\"' || a[k] == '\'') {
                k = k + 1;
            }
            assert(k == value_start(a@, p as int));
            if k < a.len() && lang_char_byte(a[k]) {
                let mut z: usize = k + 1;
                while z < a.len() && lang_char_byte(a[z])
                    invariant
                        k < z <= a@.len(),
                        forall|x: int| k <= x < z ==> lang_char(a@[x]),
                    decreases a@.len() - z,
                {
                    z = z + 1;
                }
                assert(lang_at(a@, p as int));
                assert(run_end(a@, k as int, z as int));
                return Some((k, z));
            }
        }
        p = p + 1;
    }
    assert forall|q: int| !lang_at(a@, q) by {
        if q >= a@.len() && lang_at(a@, q) {
            assert(has_at(a@, lang_key(), q));
        }
    }
    None
}

fn lang_char_byte(b: char) -> (r: bool)
    ensures
        r == lang_char(b),
{
    b != '\"' && b != '\'' && !space_byte(b) && b != '>'
}

/// The value of the first `lang` attribute in the attribute text `a`.
fn extract_lang_attribute(a: &[char]) -> (r: Option<String>)
    ensures
        lang_of(a@, r),
{
    match find_lang(a) {
        None => None,
        Some((k, z)) => {
            let v = string_of(slice_subrange(a, k, z));
            assert(lang_value_at(a@, k as int, z as int));
            Some(v)
        },
    }
}

/// The number of line feeds before position `i`.
pub(crate) fn count_newlines(s: &[u8], i: usize) -> (r: usize)
    requires
        i <= s@.len(),
    ensures
        r == newlines(s@.subrange(0, i as int)),
        r <= i,
{
    let mut n: usize = 0;
    let mut k: usize = 0;
    while k < i
        invariant
            k <= i <= s@.len(),
            n <= k,
            n == newlines(s@.subrange(0, k as int)),
        decreases i - k,
    {
        assert(s@.subrange(0, k + 1).drop_last() =~= s@.subrange(0, k as int));
        if s[k] == 10 {
            n = n + 1;
        }
        k = k + 1;
    }
    n
}

/// The number of line feeds before position `i`.
fn count_line_feeds(s: &[char], i: usize) -> (r: usize)
    requires
        i <= s@.len(),
    ensures
        r == line_feeds(s@.subrange(0, i as int)),
        r <= i,
{
    let mut n: usize = 0;
    let mut k: usize = 0;
    while k < i
        invariant
            k <= i <= s@.len(),
            n <= k,
            n == line_feeds(s@.subrange(0, k as int)),
        decreases i - k,
    {
        assert(s@.subrange(0, k + 1).drop_last() =~= s@.subrange(0, k as int));
        if s[k] == '\n' {
            n = n + 1;
        }
        k = k + 1;
    }
    n
}

/// The bounds of `lo..hi` without its leading and trailing white space.
fn trim_bounds(s: &[char], lo: usize, hi: usize) -> (r: (usize, usize))
    requires
        lo <= hi <= s@.len(),
    ensures
        lo <= r.0 <= r.1 <= hi,
        s@.subrange(r.0 as int, r.1 as int) == trimmed(s@.subrange(lo as int, hi as int)),
{
    let mut a: usize = lo;
    while a < hi && space_byte(s[a])
        invariant
            lo <= a <= hi <= s@.len(),
            trim_start(s@.subrange(lo as int, hi as int)) == trim_start(s@.subrange(a as int, hi as int)),
        decreases hi - a,
    {
        assert(s@.subrange(a as int, hi as int).drop_first() =~= s@.subrange(a + 1, hi as int));
        a = a + 1;
    }
    assert(trim_start(s@.subrange(a as int, hi as int)) == s@.subrange(a as int, hi as int));
    let mut z: usize = hi;
    while z > a && space_byte(s[z - 1])
        invariant
            lo <= a <= z <= hi <= s@.len(),
            trim_end(s@.subrange(a as int, hi as int)) == trim_end(s@.subrange(a as int, z as int)),
        decreases z - a,
    {
        assert(s@.subrange(a as int, z as int).drop_last() =~= s@.subrange(a as int, z - 1));
        z = z - 1;
    }
    assert(trim_end(s@.subrange(a as int, z as int)) == s@.subrange(a as int, z as int));
    (a, z)
}

/// The attribute text of the first opening tag with attributes in `i..lim`.
fn find_attributes(s: &[char], prefix: &[char], tag: &[char], i: usize, lim: usize) -> (r: Option<(usize, usize)>)
    requires
        prefix@ == open_prefix(tag@),
        i <= lim <= s@.len(),
        0 < lim && s@[lim - 1] == '>',
    ensures
        r is None ==> forall|w: int, g: int| !attributes_at(s@, tag@, i as int, lim as int, w, g),
        r matches Some((w, g)) ==> attributes_at(s@, tag@, i as int, lim as int, w as int, g as int),
{
    let mut q: usize = i;
    while q < lim
        invariant
            prefix@ == open_prefix(tag@),
            i <= q <= lim <= s@.len(),
            0 < lim && s@[lim - 1] == '>',
            forall|x: int| i <= x < q ==> !attr_open_at(s@, tag@, x, lim as int),
        decreases lim - q,
    {
        if occurs_at(s, prefix, q) {
            assert(s@.len() == s.len() && prefix@.len() == prefix.len());
            let k = q + prefix.len();
            if k < lim && space_byte(s[k]) {
                let mut w: usize = k;
                while w < s.len() && space_byte(s[w])
                    invariant
                        k <= w <= s@.len(),
                        forall|x: int| k <= x < w ==> is_space(s@[x]),
                    decreases s@.len() - w,
                {
                    w = w + 1;
                }
                assert(attr_open_at(s@, tag@, q as int, lim as int));
                assert(first_non_space(s@, k as int, w as int));
                if w >= lim {
                    assert(is_space(s@[lim - 1]));
                }
                match find_gt(s, w) {
                    Some(g) => {
                        if w > lim - 1 {
                            assert(is_space(s@[lim - 1]));
                        }
                        if g >= lim {
                            assert(s@[lim - 1] != '>');
                        }
                        assert(g < lim);
                        assert(i <= q && attr_open_at(s@, tag@, q as int, lim as int) && (forall|x: int|
                            i <= x < q ==> !attr_open_at(s@, tag@, x, lim as int)) && first_non_space(
                            s@, q + 1 + tag@.len(), w as int) && first_gt(s@, w as int, g as int) && g < lim);
                        return Some((w, g));
                    },
                    None => {
                        assert forall|w2: int, g2: int|
                            !attributes_at(s@, tag@, i as int, lim as int, w2, g2) by {
                            if attributes_at(s@, tag@, i as int, lim as int, w2, g2) {
                                let q2 = choose|q2: int|
                                    i <= q2 && attr_open_at(s@, tag@, q2, lim as int) && (forall|x: int|
                                        i <= x < q2 ==> !attr_open_at(s@, tag@, x, lim as int))
                                        && first_non_space(s@, q2 + 1 + tag@.len(), w2) && first_gt(s@, w2, g2);
                                if q2 < q {
                                    assert(!attr_open_at(s@, tag@, q2, lim as int));
                                }
                                if q2 > q {
                                    assert(!attr_open_at(s@, tag@, q as int, lim as int));
                                }
                                assert(q2 == q);
                                if w2 < w {
                                    assert(is_space(s@[w2]));
                                }
                                if w2 > w {
                                    assert(is_space(s@[w as int]));
                                }
                                assert(w2 == w);
                                assert(s@[g2] == '>');
                            }
                        }
                        return None;
                    },
                }
            }
        }
        q = q + 1;
    }
    assert forall|w2: int, g2: int| !attributes_at(s@, tag@, i as int, lim as int, w2, g2) by {
        if attributes_at(s@, tag@, i as int, lim as int, w2, g2) {
            let q2 = choose|q2: int|
                i <= q2 && attr_open_at(s@, tag@, q2, lim as int) && (forall|x: int|
                    i <= x < q2 ==> !attr_open_at(s@, tag@, x, lim as int))
                    && first_non_space(s@, q2 + 1 + tag@.len(), w2) && first_gt(s@, w2, g2);
            assert(q2 < lim);
        }
    }
    None
}

/// The leftmost section for `tag` in `s`.
fn extract_section(s: &[char], tag: &[char]) -> (r: Option<VueSection>)
    requires
        tag@.len() > 0,
    ensures
        section_of(s@, tag@, r),
{
    match find_section(s, tag) {
        None => None,
        Some((i, m, e)) => {
            let start_line = count_line_feeds(s, i) + 1;
            let (a, z) = trim_bounds(s, m + 1, e);
            let content = encode_utf8(slice_subrange(s, a, z));
            let lt = vec!['<'];
            let prefix = concat(&lt, tag);
            assert(prefix@ =~= open_prefix(tag@));
            assert(has_at(s@, closing(tag@), e as int));
            assert(s@.len() == s.len() && tag@.len() == tag.len());
            let lim = e + tag.len() + 3;
            assert(s@.subrange(e as int, lim as int)[(tag@.len() + 2) as int] == closing(tag@)[(tag@.len() + 2) as int]);
            let lang = match find_attributes(s, &prefix, tag, i, lim) {
                None => None,
                Some((w, g)) => {
                    let lang = extract_lang_attribute(slice_subrange(s, w, g));
                    assert forall|w2: int, g2: int|
                        attributes_at(s@, tag@, i as int, lim as int, w2, g2) implies lang_of(
                        s@.subrange(w2, g2),
                        lang,
                    ) by {
                        lemma_attributes_unique(s@, tag@, i as int, lim as int, w as int, g as int, w2, g2);
                    }
                    lang
                },
            };
            let sec = VueSection { content, start_line, lang };
            assert(section_lang(s@, tag@, i as int, e + closing(tag@).len(), sec.lang));
            Some(sec)
        },
    }
}

/// Splits a single-file component into its template, script and style sections, read from
/// its text with each invalid UTF-8 sequence replaced by U+FFFD.
pub fn extract_vue_sections(source: &[u8]) -> (r: VueSections)
    ensures
        section_of(utf8_lossy(source@), template_tag(), r.template),
        section_of(utf8_lossy(source@), script_tag(), r.script),
        section_of(utf8_lossy(source@), style_tag(), r.style),
{
    let text = decode_lossy(source);
    let template = vec!['t', 'e', 'm', 'p', 'l', 'a', 't', 'e'];
    let script = vec!['s', 'c', 'r', 'i', 'p', 't'];
    let style = vec!['s', 't', 'y', 'l', 'e'];
    assert(template@ =~= template_tag());
    assert(script@ =~= script_tag());
    assert(style@ =~= style_tag());
    VueSections {
        template: extract_section(text.as_slice(), &template),
        script: extract_section(text.as_slice(), &script),
        style: extract_section(text.as_slice(), &style),
    }
}

} // verus!
