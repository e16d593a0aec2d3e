//! DNS base-domain checks.
use vstd::prelude::*;
use crate::text::chars_of;

verus! {

/// Whether `c` has the Unicode `White_Space` property (what `char::is_whitespace` tests).
pub open spec fn is_unicode_whitespace(c: char) -> bool {
    ('\u{9}' <= c && c <= '\u{d}') || c == ' ' || c == '\u{85}' || c == '\u{a0}' || c == '\u{1680}'
        || ('\u{2000}' <= c && c <= '\u{200a}') || c == '\u{2028}' || c == '\u{2029}' || c == '\u{202f}'
        || c == '\u{205f}' || c == '\u{3000}'
}

/// `s` without its leading whitespace.
pub open spec fn trim_start(s: Seq<char>) -> Seq<char>
    decreases s.len(),
{
    if s.len() > 0 && is_unicode_whitespace(s[0]) {
        trim_start(s.drop_first())
    } else {
        s
    }
}

/// `s` without its trailing whitespace.
pub open spec fn trim_end(s: Seq<char>) -> Seq<char>
    decreases s.len(),
{
    if s.len() > 0 && is_unicode_whitespace(s.last()) {
        trim_end(s.drop_last())
    } else {
        s
    }
}

/// `s` without leading and trailing whitespace (what `str::trim` returns).
pub open spec fn trim(s: Seq<char>) -> Seq<char> {
    trim_end(trim_start(s))
}

fn is_whitespace_char(c: char) -> (r: bool)
    ensures
        r == is_unicode_whitespace(c),
{
    ('\u{9}' <= c && c <= '\u{d}') || c == ' ' || c == '\u{85}' || c == '\u{a0}' || c == '\u{1680}'
        || ('\u{2000}' <= c && c <= '\u{200a}') || c == '\u{2028}' || c == '\u{2029}' || c == '\u{202f}'
        || c == '\u{205f}' || c == '\u{3000}'
}

proof fn lemma_trim_start_skip(s: Seq<char>, i: int)
    requires
        0 <= i <= s.len(),
        forall|k: int| 0 <= k < i ==> is_unicode_whitespace(s[k]),
    ensures
        trim_start(s) == trim_start(s.subrange(i, s.len() as int)),
    decreases i,
{
    if i > 0 {
        lemma_trim_start_skip(s.drop_first(), i - 1);
        assert(s.drop_first().subrange(i - 1, s.drop_first().len() as int) =~= s.subrange(i, s.len() as int));
    } else {
        assert(s.subrange(0, s.len() as int) =~= s);
    }
}

proof fn lemma_trim_end_skip(s: Seq<char>, j: int)
    requires
        0 <= j <= s.len(),
        forall|k: int| j <= k < s.len() ==> is_unicode_whitespace(s[k]),
    ensures
        trim_end(s) == trim_end(s.subrange(0, j)),
    decreases s.len() - j,
{
    if j < s.len() {
        lemma_trim_end_skip(s.drop_last(), j);
        assert(s.drop_last().subrange(0, j) =~= s.subrange(0, j));
    } else {
        assert(s.subrange(0, j) =~= s);
    }
}

/// The characters of `s` without leading and trailing whitespace.
pub fn trim_chars(s: &str) -> (r: Vec<char>)
    ensures
        r@ == trim(s@),
{
    let v = chars_of(s);
    let mut i: usize = 0;
    while i < v.len() && is_whitespace_char(v[i])
        invariant
            v@ == s@,
            i <= v.len(),
            forall|k: int| 0 <= k < i ==> is_unicode_whitespace(v@[k]),
        decreases v.len() - i,
    {
        i = i + 1;
    }
    proof {
        lemma_trim_start_skip(s@, i as int);
    }
    let ghost rest = s@.subrange(i as int, s@.len() as int);
    assert(trim_start(rest) == rest);
    let mut j: usize = v.len();
    while j > i && is_whitespace_char(v[j - 1])
        invariant
            v@ == s@,
            i <= j <= v.len(),
            rest == s@.subrange(i as int, s@.len() as int),
            forall|k: int| j <= k < v.len() ==> is_unicode_whitespace(v@[k]),
        decreases j,
    {
        j = j - 1;
    }
    proof {
        lemma_trim_end_skip(rest, j - i);
        assert(rest.subrange(0, j - i) =~= s@.subrange(i as int, j as int));
    }
    let mut r: Vec<char> = Vec::new();
    let mut k: usize = i;
    while k < j
        invariant
            v@ == s@,
            i <= k <= j <= v.len(),
            r@ == s@.subrange(i as int, k as int),
        decreases j - k,
    {
        r.push(v[k]);
        assert(r@ =~= s@.subrange(i as int, k + 1));
        k = k + 1;
    }
    r
}

/// Whether `c` may occur in a domain name: an ASCII letter or digit, `-`, or `.`.
pub open spec fn domain_char(c: char) -> bool {
    ('a' <= c && c <= 'z') || ('A' <= c && c <= 'Z') || ('0' <= c && c <= '9') || c == '-' || c == '.'
}

/// Whether the characters `t[i..i + n]` hold no `.`.
pub open spec fn dot_free_run(t: Seq<char>, i: int, n: int) -> bool {
    0 <= i && i + n <= t.len() && forall|k: int| i <= k < i + n ==> t[k] != '.'
}

/// Whether `t`, split at `.`, consists of labels that are non-empty, at most 63 characters
/// long, made of ASCII letters, digits and `-`, and that neither begin nor end with `-`.
pub open spec fn labels_valid(t: Seq<char>) -> bool {
    &&& forall|k: int| 0 <= k < t.len() ==> domain_char(t[k])
    &&& t.len() > 0 ==> t[0] != '.' && t.last() != '.'
    &&& forall|k: int| 0 <= k < t.len() - 1 ==> !(#[trigger] t[k] == '.' && t[k + 1] == '.')
    &&& forall|k: int| 0 <= k < t.len() && #[trigger] t[k] == '-' ==> k != 0 && t[k - 1] != '.'
    &&& forall|k: int| 0 <= k < t.len() && #[trigger] t[k] == '-' ==> k != t.len() - 1 && t[k + 1] != '.'
    &&& forall|i: int| !dot_free_run(t, i, 64)
}

/// Whether `domain` is accepted as `deployer.base_domain`: once trimmed it is non-empty,
/// holds no `://`, `/` or space, and its labels are valid DNS labels.
pub open spec fn base_domain_valid(domain: Seq<char>) -> bool {
    let t = trim(domain);
    &&& t.len() > 0
    &&& !crate::text::contains_seq(t, "://"@)
    &&& !t.contains('/')
    &&& !t.contains(' ')
    &&& labels_valid(t)
}

fn is_domain_char(c: char) -> (r: bool)
    ensures
        r == domain_char(c),
{
    ('a' <= c && c <= 'z') || ('A' <= c && c <= 'Z') || ('0' <= c && c <= '9') || c == '-' || c == '.'
}

/// Whether the characters `t` split into valid labels.
fn check_labels(t: &Vec<char>) -> (r: bool)
    ensures
        r == labels_valid(t@),
{
    let n = t.len();
    if n == 0 {
        return true;
    }
    if t[0] == '.' || t[n - 1] == '.' {
        return false;
    }
    let mut run: usize = 0;
    let mut i: usize = 0;
    while i < n
        invariant
            n == t.len(),
            n > 0,
            t@[0] != '.',
            t@[n - 1] != '.',
            i <= n,
            run <= i,
            run <= 63,
            forall|k: int| 0 <= k < i ==> domain_char(t@[k]),
            forall|k: int| 0 <= k < i && k + 1 < n ==> !(#[trigger] t@[k] == '.' && t@[k + 1] == '.'),
            forall|k: int| 0 <= k < i && #[trigger] t@[k] == '-' ==> k != 0 && t@[k - 1] != '.',
            forall|k: int| 0 <= k < i && #[trigger] t@[k] == '-' ==> k != n - 1 && t@[k + 1] != '.',
            forall|k: int| i - run <= k < i ==> t@[k] != '.',
            run < i ==> t@[i - run - 1] == '.',
            forall|w: int| w + 64 <= i ==> !dot_free_run(t@, w, 64),
        decreases n - i,
    {
        let ghost r0 = run;
        let c = t[i];
        if !is_domain_char(c) {
            return false;
        }
        if c == '.' {
            if i + 1 < n && t[i + 1] == '.' {
                return false;
            }
            run = 0;
        } else {
            if c == '-' {
                if i == 0 || t[i - 1] == '.' {
                    return false;
                }
                if i == n - 1 || t[i + 1] == '.' {
                    return false;
                }
            }
            if run == 63 {
                assert(dot_free_run(t@, i - 63, 64));
                return false;
            }
            run = run + 1;
        }
        proof {
            assert forall|w: int| w + 64 <= i + 1 implies !dot_free_run(t@, w, 64) by {
                if w + 64 == i + 1 {
                    if t@[i as int] == '.' {
                        assert(!(t@[i as int] != '.'));
                    } else if r0 < i {
                        assert(t@[i - r0 - 1] == '.');
                        assert(w <= i - r0 - 1);
                    }
                }
            }
        }
        i = i + 1;
    }
    true
}

/// Whether `domain` is accepted as a deployer base domain.
pub fn base_domain_ok(domain: &str) -> (r: bool)
    ensures
        r == base_domain_valid(domain@),
{
    let t = trim_chars(domain);
    if t.len() == 0 {
        return false;
    }
    let sep = chars_of("://");
    if crate::text::contains_chars(&t, &sep) {
        return false;
    }
    let mut i: usize = 0;
    while i < t.len()
        invariant
            t@ == trim(domain@),
            i <= t.len(),
            forall|k: int| 0 <= k < i ==> t@[k] != '/' && t@[k] != ' ',
        decreases t.len() - i,
    {
        if t[i] == '/' {
            assert(t@.contains('/'));
            return false;
        }
        if t[i] == ' ' {
            assert(t@.contains(' '));
            return false;
        }
        i = i + 1;
    }
    assert(!t@.contains('/') && !t@.contains(' '));
    check_labels(&t)
}

/// A name made of domain characters, with its dots only between other characters and never
/// two in a row, with no `-`, and shorter than 64 characters, is a valid base domain.
pub proof fn lemma_plain_domain_valid(t: Seq<char>)
    requires
        0 < t.len() < 64,
        forall|k: int| 0 <= k < t.len() ==> #[trigger] t[k] != '-' && domain_char(t[k]),
        t[0] != '.' && t.last() != '.',
        forall|k: int| 0 <= k < t.len() - 1 ==> !(#[trigger] t[k] == '.' && t[k + 1] == '.'),
    ensures
        base_domain_valid(t),
{
    assert(trim_start(t) == t);
    assert(trim_end(t) == t);
    assert(!crate::text::contains_seq(t, "://"@)) by {
        reveal_strlit("://");
        if crate::text::contains_seq(t, "://"@) {
            let i = choose|i: int| crate::text::occurs_at(t, "://"@, i);
            assert(t.subrange(i, i + 3)[0] == ':');
            assert(t[i] == ':');
        }
    }
    assert(!t.contains('/'));
    assert(!t.contains(' '));
    assert forall|i: int| !dot_free_run(t, i, 64) by {}
}

/// The default deployer base domain is valid.
pub proof fn lemma_default_base_domain_valid()
    ensures
        base_domain_valid("deploy.greentic.ai"@),
{
    reveal_strlit("deploy.greentic.ai");
    let t = "deploy.greentic.ai"@;
    assert forall|k: int| 0 <= k < t.len() implies #[trigger] t[k] != '-' && domain_char(t[k]) by {
        assert(0 <= k < 18);
    }
    assert forall|k: int| 0 <= k < t.len() - 1 implies !(#[trigger] t[k] == '.' && t[k + 1] == '.') by {
        assert(0 <= k < 17);
    }
    lemma_plain_domain_valid(t);
}

} // verus!
