//! Key and path arithmetic for a flat namespace whose hierarchy is emulated
//! with the delimiter `/`.
//!
//! All functions are pure. Their meaning is given by spec functions over
//! sequences of characters; the executable functions are proved to compute
//! exactly those.

use vstd::prelude::*;
use vstd::string::*;
use crate::text::to_chars;

verus! {

/// `s` without its leading delimiters.
pub open spec fn trim_start(s: Seq<char>) -> Seq<char>
    decreases s.len(),
{
    if s.len() > 0 && s[0] == '/' {
        trim_start(s.drop_first())
    } else {
        s
    }
}

/// `s` without its trailing delimiters.
pub open spec fn trim_end(s: Seq<char>) -> Seq<char>
    decreases s.len(),
{
    if s.len() > 0 && s.last() == '/' {
        trim_end(s.drop_last())
    } else {
        s
    }
}

/// The normal form of a key: no delimiter at either end.
pub open spec fn normalize(s: Seq<char>) -> Seq<char> {
    trim_end(trim_start(s))
}

/// Whether the raw path asks to be read as a directory: it ends with the
/// delimiter.
pub open spec fn directory_hint(s: Seq<char>) -> bool {
    s.len() > 0 && s.last() == '/'
}

/// The part of `t` after its last delimiter; all of `t` where it has none.
pub open spec fn last_component(t: Seq<char>) -> Seq<char>
    decreases t.len(),
{
    if t.len() == 0 {
        t
    } else if t.last() == '/' {
        Seq::empty()
    } else {
        last_component(t.drop_last()).push(t.last())
    }
}

/// The last component of a path, trailing delimiters ignored.
pub open spec fn base_name(s: Seq<char>) -> Seq<char> {
    last_component(trim_end(s))
}

/// `s`, with a delimiter appended unless it already ends with one.
pub open spec fn with_trailing_slash(s: Seq<char>) -> Seq<char> {
    if directory_hint(s) {
        s
    } else {
        s.push('/')
    }
}

/// `name` placed under `base`, with exactly one delimiter at the joint. An
/// empty base contributes nothing, not even a delimiter.
pub open spec fn join_key(base: Seq<char>, name: Seq<char>) -> Seq<char> {
    if base.len() == 0 {
        name
    } else {
        trim_end(base).push('/') + trim_start(name)
    }
}

/// Whether a key holds two delimiters in a row.
pub open spec fn has_doubled_delimiter(key: Seq<char>) -> bool {
    exists|i: int| 0 <= i < key.len() - 1 && #[trigger] key[i] == '/' && key[i + 1] == '/'
}

/// Whether the normalised key `f` lies strictly below the normalised,
/// non-empty key `b`: `b` is a proper prefix of `f` that ends at a component
/// boundary.
pub open spec fn strictly_under(f: Seq<char>, b: Seq<char>) -> bool {
    &&& b.len() < f.len()
    &&& f.take(b.len() as int) == b
    &&& f[b.len() as int] == '/'
}

/// Whether `full` names `base` itself or something below it.
pub open spec fn under(full: Seq<char>, base: Seq<char>) -> bool {
    let f = normalize(full);
    let b = normalize(base);
    f == b || b.len() == 0 || strictly_under(f, b)
}

/// The path of `full` as seen from `base`.
///
/// Where both name the same key the result is the base name of `full`, so that
/// a single object keeps its name. Below `base` it is the remainder of the key.
/// Outside `base` it falls back to the base name of `full`.
pub open spec fn relative_to(full: Seq<char>, base: Seq<char>) -> Seq<char> {
    let f = normalize(full);
    let b = normalize(base);
    if f == b {
        base_name(full)
    } else if b.len() == 0 {
        f
    } else if strictly_under(f, b) {
        trim_start(f.skip(b.len() as int))
    } else {
        base_name(full)
    }
}

/// `trim_start` removes exactly the leading run of delimiters.
pub proof fn lemma_trim_start_at(s: Seq<char>, k: int)
    requires
        0 <= k <= s.len(),
        forall|i: int| 0 <= i < k ==> s[i] == '/',
        k == s.len() || s[k] != '/',
    ensures
        trim_start(s) == s.skip(k),
    decreases k,
{
    if k == 0 {
        assert(s.skip(0) =~= s);
    } else {
        let r = s.drop_first();
        assert forall|i: int| 0 <= i < k - 1 implies r[i] == '/' by {
            assert(r[i] == s[i + 1]);
        }
        lemma_trim_start_at(r, k - 1);
        assert(r.skip(k - 1) =~= s.skip(k));
    }
}

/// `trim_end` removes exactly the trailing run of delimiters.
pub proof fn lemma_trim_end_at(s: Seq<char>, k: int)
    requires
        0 <= k <= s.len(),
        forall|i: int| k <= i < s.len() ==> s[i] == '/',
        k == 0 || s[k - 1] != '/',
    ensures
        trim_end(s) == s.take(k),
    decreases s.len() - k,
{
    if k == s.len() {
        assert(s.take(k) =~= s);
    } else {
        let r = s.drop_last();
        lemma_trim_end_at(r, k);
        assert(r.take(k) =~= s.take(k));
    }
}

/// `last_component` starts right after the last delimiter.
pub proof fn lemma_last_component_at(t: Seq<char>, k: int)
    requires
        0 <= k <= t.len(),
        forall|i: int| k <= i < t.len() ==> t[i] != '/',
        k == 0 || t[k - 1] == '/',
    ensures
        last_component(t) == t.skip(k),
    decreases t.len() - k,
{
    if k == t.len() {
        assert(t.skip(k) =~= Seq::<char>::empty());
        if t.len() > 0 {
            assert(t.last() == '/');
        }
    } else {
        let r = t.drop_last();
        lemma_last_component_at(r, k);
        assert(r.skip(k).push(t.last()) =~= t.skip(k));
    }
}

/// A trimmed-at-the-front sequence is a suffix that does not start with the
/// delimiter.
pub proof fn lemma_trim_start_shape(s: Seq<char>)
    ensures
        trim_start(s).len() <= s.len(),
        trim_start(s) == s.skip(s.len() - trim_start(s).len()),
        trim_start(s).len() > 0 ==> trim_start(s)[0] != '/',
        forall|i: int| 0 <= i < s.len() - trim_start(s).len() ==> s[i] == '/',
    decreases s.len(),
{
    if s.len() > 0 && s[0] == '/' {
        let r = s.drop_first();
        lemma_trim_start_shape(r);
        let d = r.len() - trim_start(r).len();
        assert(r.skip(d) =~= s.skip(d + 1));
        assert forall|i: int| 0 <= i < s.len() - trim_start(s).len() implies s[i] == '/' by {
            if i > 0 {
                assert(s[i] == r[i - 1]);
            }
        }
    } else {
        assert(s.skip(0) =~= s);
    }
}

/// A trimmed-at-the-back sequence is a prefix that does not end with the
/// delimiter.
pub proof fn lemma_trim_end_shape(s: Seq<char>)
    ensures
        trim_end(s).len() <= s.len(),
        trim_end(s) == s.take(trim_end(s).len() as int),
        trim_end(s).len() > 0 ==> trim_end(s).last() != '/',
        forall|i: int| trim_end(s).len() <= i < s.len() ==> s[i] == '/',
    decreases s.len(),
{
    if s.len() > 0 && s.last() == '/' {
        let r = s.drop_last();
        lemma_trim_end_shape(r);
        assert(r.take(trim_end(r).len() as int) =~= s.take(trim_end(r).len() as int));
        assert forall|i: int| trim_end(s).len() <= i < s.len() implies s[i] == '/' by {
            if i < r.len() {
                assert(s[i] == r[i]);
            }
        }
    } else {
        assert(s.take(s.len() as int) =~= s);
    }
}

/// The last component holds no delimiter, and is empty only for an empty path
/// or one that ends with a delimiter.
pub proof fn lemma_last_component_shape(t: Seq<char>)
    ensures
        last_component(t).len() <= t.len(),
        last_component(t) == t.skip(t.len() - last_component(t).len()),
        forall|i: int| 0 <= i < last_component(t).len() ==> last_component(t)[i] != '/',
        last_component(t).len() == 0 <==> (t.len() == 0 || t.last() == '/'),
        last_component(t).len() < t.len() ==> t[t.len() - last_component(t).len() - 1] == '/',
    decreases t.len(),
{
    if t.len() == 0 {
        assert(t.skip(0) =~= t);
    } else if t.last() == '/' {
        assert(t.skip(t.len() as int) =~= Seq::<char>::empty());
    } else {
        let r = t.drop_last();
        lemma_last_component_shape(r);
        let d = r.len() - last_component(r).len();
        assert(r.skip(d).push(t.last()) =~= t.skip(d));
    }
}

/// Normalising is idempotent: a normal form is its own normal form.
pub proof fn lemma_normalize_idempotent(p: Seq<char>)
    ensures
        normalize(normalize(p)) == normalize(p),
{
    let u = trim_start(p);
    let t = trim_end(u);
    lemma_trim_start_shape(p);
    lemma_trim_end_shape(u);
    if t.len() > 0 {
        assert(t[0] == u[0]);
    }
    lemma_trim_start_at(t, 0);
    assert(t.skip(0) =~= t);
    lemma_trim_end_at(t, t.len() as int);
    assert(t.take(t.len() as int) =~= t);
}

/// A normal form has no delimiter at either end.
pub proof fn lemma_normalize_shape(p: Seq<char>)
    ensures
        normalize(p).len() > 0 ==> normalize(p)[0] != '/' && normalize(p).last() != '/',
        normalize(p).len() <= p.len(),
{
    let u = trim_start(p);
    let t = trim_end(u);
    lemma_trim_start_shape(p);
    lemma_trim_end_shape(u);
    if t.len() > 0 {
        assert(t[0] == u[0]);
    }
}

/// Trimming at the front does not change what is left after trimming at the
/// back, so the base name can be read off the normal form.
pub proof fn lemma_base_name_of_normal_form(p: Seq<char>)
    ensures
        base_name(p) == last_component(normalize(p)),
        base_name(p).len() == 0 <==> normalize(p).len() == 0,
{
    let e = trim_end(p);
    let u = trim_start(p);
    let n = trim_end(u);
    lemma_trim_end_shape(p);
    lemma_trim_start_shape(p);
    lemma_trim_end_shape(u);
    lemma_last_component_shape(e);
    lemma_last_component_shape(n);
    let lead = p.len() - u.len();
    if e.len() == 0 {
        // every character of p is a delimiter
        assert(u.len() == 0) by {
            if u.len() > 0 {
                assert(u[0] == p[lead]);
            }
        }
        assert(n =~= e);
    } else {
        // the last character of e is no delimiter, so the leading run ends before it
        assert(lead < e.len()) by {
            if lead >= e.len() {
                assert(p[e.len() - 1] == '/');
                assert(e.last() == p[e.len() - 1]);
            }
        }
        assert(n =~= p.subrange(lead, e.len() as int)) by {
            assert forall|i: int| e.len() - lead <= i < u.len() implies u[i] == '/' by {
                assert(u[i] == p[i + lead]);
            }
            assert(u[e.len() - lead - 1] == e.last()) by {
                assert(u[e.len() - lead - 1] == p[e.len() - 1]);
                assert(e.last() == p[e.len() - 1]);
            }
            lemma_trim_end_at(u, e.len() - lead);
            assert(u.take(e.len() - lead) =~= p.subrange(lead, e.len() as int));
        }
        // both last components start after the same delimiter
        let k = e.len() - last_component(e).len();
        assert(k >= lead) by {
            if k < lead {
                assert(last_component(e)[lead - 1 - k] == e[lead - 1]);
                assert(e[lead - 1] == p[lead - 1]);
            }
        }
        assert forall|i: int| k - lead <= i < n.len() implies n[i] != '/' by {
            assert(n[i] == e[i + lead]);
            assert(last_component(e)[i + lead - k] == e[i + lead]);
        }
        if k - lead > 0 {
            assert(n[k - lead - 1] == e[k - 1]);
        }
        lemma_last_component_at(n, k - lead);
        assert(n.skip(k - lead) =~= e.skip(k as int));
    }
}

/// The first index in `c[lo..hi]` that holds no delimiter (`hi` if all do).
fn skip_delimiters(c: &Vec<char>, lo: usize, hi: usize) -> (k: usize)
    requires
        lo <= hi <= c.len(),
    ensures
        lo <= k <= hi,
        c@.subrange(k as int, hi as int) == trim_start(c@.subrange(lo as int, hi as int)),
{
    let mut k: usize = lo;
    while k < hi && c[k] == '/'
        invariant
            lo <= k <= hi <= c.len(),
            forall|i: int| lo <= i < k ==> c@[i] == '/',
        decreases hi - k,
    {
        k += 1;
    }
    proof {
        let w = c@.subrange(lo as int, hi as int);
        assert forall|i: int| 0 <= i < k - lo implies w[i] == '/' by {
            assert(w[i] == c@[i + lo]);
        }
        lemma_trim_start_at(w, k - lo);
        assert(w.skip(k - lo) =~= c@.subrange(k as int, hi as int));
    }
    k
}

/// The end of `c[lo..hi]` once its trailing delimiters are dropped.
fn drop_delimiters(c: &Vec<char>, lo: usize, hi: usize) -> (e: usize)
    requires
        lo <= hi <= c.len(),
    ensures
        lo <= e <= hi,
        c@.subrange(lo as int, e as int) == trim_end(c@.subrange(lo as int, hi as int)),
{
    let mut e: usize = hi;
    while e > lo && c[e - 1] == '/'
        invariant
            lo <= e <= hi <= c.len(),
            forall|i: int| e <= i < hi ==> c@[i] == '/',
        decreases e - lo,
    {
        e -= 1;
    }
    proof {
        let w = c@.subrange(lo as int, hi as int);
        assert forall|i: int| e - lo <= i < w.len() implies w[i] == '/' by {
            assert(w[i] == c@[i + lo]);
        }
        if e > lo {
            assert(w[e - lo - 1] == c@[e - 1]);
        }
        lemma_trim_end_at(w, e - lo);
        assert(w.take(e - lo) =~= c@.subrange(lo as int, e as int));
    }
    e
}

/// The start of the last component of `c[lo..hi]`.
fn component_start(c: &Vec<char>, lo: usize, hi: usize) -> (k: usize)
    requires
        lo <= hi <= c.len(),
    ensures
        lo <= k <= hi,
        c@.subrange(k as int, hi as int) == last_component(c@.subrange(lo as int, hi as int)),
{
    let mut k: usize = hi;
    while k > lo && c[k - 1] != '/'
        invariant
            lo <= k <= hi <= c.len(),
            forall|i: int| k <= i < hi ==> c@[i] != '/',
        decreases k - lo,
    {
        k -= 1;
    }
    proof {
        let w = c@.subrange(lo as int, hi as int);
        assert forall|i: int| k - lo <= i < w.len() implies w[i] != '/' by {
            assert(w[i] == c@[i + lo]);
        }
        if k > lo {
            assert(w[k - lo - 1] == c@[k - 1]);
        }
        lemma_last_component_at(w, k - lo);
        assert(w.skip(k - lo) =~= c@.subrange(k as int, hi as int));
    }
    k
}

/// Whether two windows hold the same characters.
fn windows_equal(a: &Vec<char>, alo: usize, ahi: usize, b: &Vec<char>, blo: usize, bhi: usize) -> (r:
    bool)
    requires
        alo <= ahi <= a.len(),
        blo <= bhi <= b.len(),
    ensures
        r == (a@.subrange(alo as int, ahi as int) == b@.subrange(blo as int, bhi as int)),
{
    if ahi - alo != bhi - blo {
        assert(a@.subrange(alo as int, ahi as int).len() != b@.subrange(
            blo as int,
            bhi as int,
        ).len());
        return false;
    }
    let n: usize = ahi - alo;
    let ghost wa = a@.subrange(alo as int, ahi as int);
    let ghost wb = b@.subrange(blo as int, bhi as int);
    let mut i: usize = 0;
    while i < n
        invariant
            alo <= ahi <= a.len(),
            blo <= bhi <= b.len(),
            n == ahi - alo,
            n == bhi - blo,
            i <= n,
            wa == a@.subrange(alo as int, ahi as int),
            wb == b@.subrange(blo as int, bhi as int),
            forall|j: int| 0 <= j < i ==> wa[j] == wb[j],
        decreases n - i,
    {
        if a[alo + i] != b[blo + i] {
            assert(wa[i as int] != wb[i as int]);
            return false;
        }
        i += 1;
    }
    assert(wa =~= wb);
    true
}

/// Brings a key into normal form: the delimiters at both ends are removed.
pub fn normalize_path(path: &str) -> (r: String)
    ensures
        r@ == normalize(path@),
{
    let c = to_chars(path);
    let n: usize = c.len();
    let lo = skip_delimiters(&c, 0, n);
    let hi = drop_delimiters(&c, lo, n);
    proof {
        assert(c@.subrange(0, n as int) =~= c@);
    }
    String::from_str(path.substring_char(lo, hi))
}

/// Whether the raw path ends with the delimiter, which marks it as meant to
/// be a directory.
pub fn is_directory_hint(path: &str) -> (r: bool)
    ensures
        r == directory_hint(path@),
{
    let n: usize = path.unicode_len();
    n > 0 && path.get_char(n - 1) == '/'
}

/// Places `file_name` under `base`, with exactly one delimiter between them.
pub fn build_remote_path(base: &str, file_name: &str) -> (r: String)
    ensures
        r@ == join_key(base@, file_name@),
{
    let b = to_chars(base);
    if b.len() == 0 {
        return String::from_str(file_name);
    }
    let f = to_chars(file_name);
    let e = drop_delimiters(&b, 0, b.len());
    let k = skip_delimiters(&f, 0, f.len());
    proof {
        reveal_strlit("/");
        assert(b@.subrange(0, b.len() as int) =~= b@);
        assert(f@.subrange(0, f.len() as int) =~= f@);
    }
    let r = String::from_str(base.substring_char(0, e)).concat("/").concat(
        file_name.substring_char(k, f.len()),
    );
    assert(r@ =~= join_key(base@, file_name@));
    r
}

/// The last component of a path, with delimiters at its end ignored.
pub fn basename(path: &str) -> (r: String)
    ensures
        r@ == base_name(path@),
{
    let c = to_chars(path);
    let e = drop_delimiters(&c, 0, c.len());
    let k = component_start(&c, 0, e);
    proof {
        assert(c@.subrange(0, c.len() as int) =~= c@);
    }
    String::from_str(path.substring_char(k, e))
}

/// The path itself where it ends with the delimiter, else the path followed
/// by one.
pub fn ensure_trailing_slash(path: &str) -> (r: String)
    ensures
        r@ == with_trailing_slash(path@),
{
    if is_directory_hint(path) {
        String::from_str(path)
    } else {
        proof {
            reveal_strlit("/");
        }
        let r = String::from_str(path).concat("/");
        assert(r@ =~= path@.push('/'));
        r
    }
}

/// The path of `full_path` as seen from `base_path`.
pub fn get_root_relative_path(full_path: &str, base_path: &str) -> (r: String)
    ensures
        r@ == relative_to(full_path@, base_path@),
{
    let f = to_chars(full_path);
    let b = to_chars(base_path);
    let flo = skip_delimiters(&f, 0, f.len());
    let fhi = drop_delimiters(&f, flo, f.len());
    let blo = skip_delimiters(&b, 0, b.len());
    let bhi = drop_delimiters(&b, blo, b.len());
    let ghost nf = normalize(full_path@);
    let ghost nb = normalize(base_path@);
    proof {
        assert(f@.subrange(0, f.len() as int) =~= f@);
        assert(b@.subrange(0, b.len() as int) =~= b@);
        assert(nf == f@.subrange(flo as int, fhi as int));
        assert(nb == b@.subrange(blo as int, bhi as int));
    }
    let blen: usize = bhi - blo;
    let flen: usize = fhi - flo;
    if windows_equal(&f, flo, fhi, &b, blo, bhi) {
        basename(full_path)
    } else if blen == 0 {
        String::from_str(full_path.substring_char(flo, fhi))
    } else if blen < flen && f[flo + blen] == '/' && windows_equal(
        &f,
        flo,
        flo + blen,
        &b,
        blo,
        bhi,
    ) {
        let k = skip_delimiters(&f, flo + blen, fhi);
        proof {
            assert(nf.take(blen as int) =~= f@.subrange(flo as int, flo + blen));
            assert(nf.skip(blen as int) =~= f@.subrange(flo + blen, fhi as int));
            assert(nf[blen as int] == f@[flo + blen]);
        }
        String::from_str(full_path.substring_char(k, fhi))
    } else {
        proof {
            if blen < flen {
                assert(nf.take(blen as int) =~= f@.subrange(flo as int, flo + blen));
                assert(nf[blen as int] == f@[flo + blen]);
            }
        }
        basename(full_path)
    }
}

/// A relative path is never empty, whatever the base, unless the key itself
/// has an empty normal form (it holds nothing but delimiters).
pub proof fn lemma_relative_to_nonempty(full: Seq<char>, base: Seq<char>)
    requires
        normalize(full).len() > 0,
    ensures
        relative_to(full, base).len() > 0,
{
    let f = normalize(full);
    let b = normalize(base);
    lemma_base_name_of_normal_form(full);
    lemma_normalize_shape(full);
    if f != b && b.len() != 0 && strictly_under(f, b) {
        let rest = f.skip(b.len() as int);
        lemma_trim_start_shape(rest);
        let t = trim_start(rest);
        if t.len() == 0 {
            assert(rest[rest.len() - 1] == '/');
            assert(rest[rest.len() - 1] == f.last());
        }
    }
}

/// A key seen from a base it lies under is never empty, and a key seen from
/// itself is its base name. A key that holds nothing but delimiters is left
/// out: it has no name to give.
pub proof fn lemma_relative_to_under_base(full: Seq<char>, base: Seq<char>)
    requires
        under(full, base),
        normalize(full).len() > 0,
    ensures
        relative_to(full, base).len() > 0,
        full == base ==> relative_to(full, base) == base_name(full),
{
    lemma_relative_to_nonempty(full, base);
}

/// A key seen from any base that has the same normal form is its base name.
pub proof fn lemma_relative_to_same_key(full: Seq<char>, base: Seq<char>)
    requires
        normalize(full) == normalize(base),
    ensures
        relative_to(full, base) == base_name(full),
{
}

/// The relative path of a key that lies strictly below `base` is the end of
/// the key's normal form, and does not start with a delimiter.
pub proof fn lemma_relative_to_is_suffix(full: Seq<char>, base: Seq<char>)
    requires
        normalize(base).len() > 0,
        strictly_under(normalize(full), normalize(base)),
    ensures
        0 < relative_to(full, base).len() < normalize(full).len() - normalize(base).len(),
        relative_to(full, base) == normalize(full).skip(
            normalize(full).len() - relative_to(full, base).len(),
        ),
        relative_to(full, base)[0] != '/',
{
    let f = normalize(full);
    let b = normalize(base);
    lemma_normalize_shape(full);
    lemma_relative_to_nonempty(full, base);
    let rest = f.skip(b.len() as int);
    lemma_trim_start_shape(rest);
    let rel = trim_start(rest);
    assert(relative_to(full, base) == rel);
    assert(rest[0] == f[b.len() as int]);
    if rel.len() == rest.len() {
        assert(rest.skip(0) =~= rest);
    }
    assert(rest.skip(rest.len() - rel.len()) =~= f.skip(f.len() - rel.len()));
}

/// A normal form is a part of the key it came from: it holds a doubled
/// delimiter only if the key does.
pub proof fn lemma_normalize_keeps_single_delimiters(key: Seq<char>)
    requires
        !has_doubled_delimiter(key),
    ensures
        !has_doubled_delimiter(normalize(key)),
{
    let u = trim_start(key);
    let t = trim_end(u);
    lemma_trim_start_shape(key);
    lemma_trim_end_shape(u);
    let d = key.len() - u.len();
    if has_doubled_delimiter(t) {
        let i = choose|i: int| 0 <= i < t.len() - 1 && #[trigger] t[i] == '/' && t[i + 1] == '/';
        assert(t[i] == u[i] && t[i + 1] == u[i + 1]);
        assert(u[i] == key[i + d] && u[i + 1] == key[i + d + 1]);
        assert(key[i + d] == '/' && key[i + d + 1] == '/');
    }
}

/// Below a base, a key without doubled delimiters is the base, one
/// delimiter, and its relative path: nothing of the key is lost.
pub proof fn lemma_relative_to_completes_key(full: Seq<char>, base: Seq<char>)
    requires
        normalize(base).len() > 0,
        strictly_under(normalize(full), normalize(base)),
        !has_doubled_delimiter(full),
    ensures
        normalize(full) == normalize(base).push('/') + relative_to(full, base),
        join_key(normalize(base), relative_to(full, base)) == normalize(full),
{
    let f = normalize(full);
    let b = normalize(base);
    lemma_normalize_shape(full);
    lemma_normalize_shape(base);
    lemma_normalize_keeps_single_delimiters(full);
    let rest = f.skip(b.len() as int);
    assert(rest[0] == f[b.len() as int]);
    assert(rest.len() >= 2) by {
        if rest.len() == 1 {
            assert(rest[0] == f.last());
        }
    }
    assert(rest[1] != '/') by {
        assert(rest[1] == f[b.len() as int + 1]);
        if rest[1] == '/' {
            assert(f[b.len() as int] == '/' && f[b.len() as int + 1] == '/');
        }
    }
    lemma_trim_start_at(rest, 1);
    let rel = rest.skip(1);
    assert(relative_to(full, base) == rel);
    assert(f =~= b.push('/') + rel) by {
        assert(f.take(b.len() as int) == b);
    }
    lemma_trim_end_at(b, b.len() as int);
    assert(b.take(b.len() as int) =~= b);
    lemma_trim_start_at(rel, 0);
    assert(rel.skip(0) =~= rel);
}

/// Trimming one end leaves the other as it is: a key trimmed at the back and
/// then at the front is in normal form too.
pub proof fn lemma_normalize_trims_commute(p: Seq<char>)
    ensures
        trim_start(trim_end(p)) == normalize(p),
{
    let e = trim_end(p);
    let u = trim_start(p);
    let n = trim_end(u);
    lemma_trim_end_shape(p);
    lemma_trim_start_shape(p);
    lemma_trim_end_shape(u);
    let lead = p.len() - u.len();
    if e.len() == 0 {
        assert(u.len() == 0) by {
            if u.len() > 0 {
                assert(u[0] == p[lead]);
            }
        }
        assert(trim_start(e) =~= n);
    } else {
        assert(lead < e.len()) by {
            if lead >= e.len() {
                assert(p[e.len() - 1] == '/');
                assert(e.last() == p[e.len() - 1]);
            }
        }
        assert forall|i: int| e.len() - lead <= i < u.len() implies u[i] == '/' by {
            assert(u[i] == p[i + lead]);
        }
        assert(u[e.len() - lead - 1] != '/') by {
            assert(u[e.len() - lead - 1] == p[e.len() - 1]);
            assert(e.last() == p[e.len() - 1]);
        }
        lemma_trim_end_at(u, e.len() - lead);
        assert forall|i: int| 0 <= i < lead implies e[i] == '/' by {
            assert(e[i] == p[i]);
        }
        assert(e[lead] != '/') by {
            assert(e[lead] == p[lead]);
            assert(u[0] == p[lead]);
        }
        lemma_trim_start_at(e, lead);
        assert(e.skip(lead) =~= u.take(e.len() - lead));
    }
}

/// A relative path has no delimiter at either end.
pub proof fn lemma_relative_to_shape(full: Seq<char>, base: Seq<char>)
    ensures
        relative_to(full, base).len() > 0 ==> relative_to(full, base)[0] != '/' && relative_to(
            full,
            base,
        ).last() != '/',
{
    let f = normalize(full);
    let b = normalize(base);
    let r = relative_to(full, base);
    lemma_normalize_shape(full);
    lemma_base_name_of_normal_form(full);
    lemma_last_component_shape(f);
    if f != b && b.len() != 0 && strictly_under(f, b) {
        let rest = f.skip(b.len() as int);
        lemma_trim_start_shape(rest);
        if r.len() > 0 {
            assert(r.last() == rest.last());
            assert(rest.last() == f.last());
        }
    } else if f != b && b.len() == 0 {
    } else {
        // the base name is the last component of the normal form
        if r.len() > 0 {
            assert(r[0] != '/');
            assert(r.last() == r[r.len() - 1]);
        }
    }
}

} // verus!
