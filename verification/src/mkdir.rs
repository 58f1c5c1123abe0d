//! Creating directories in the remote namespace.
//!
//! A directory is marked by a key that ends with the delimiter. The root
//! always exists and is never created. With the `parents` flag every missing
//! directory on the way to the target is created first, from the top down.

use vstd::prelude::*;
use vstd::string::*;
use crate::error::{error_view, Error, ErrorView};
use crate::path::{normalize, normalize_path, trim_start, lemma_trim_start_at, lemma_trim_start_shape};
use crate::stat::line_views;
use crate::text::{contains_text, occurs_in, to_chars};

verus! {

/// One step of creating a directory.
#[derive(Debug, PartialEq, Eq)]
pub enum MkdirStep {
    /// Create the directory unless it exists already.
    Ensure { path: String },
    /// Create the directory.
    Create { path: String },
}

/// The mathematical value of a [`MkdirStep`].
pub enum MkdirStepView {
    Ensure { path: Seq<char> },
    Create { path: Seq<char> },
}

impl View for MkdirStep {
    type V = MkdirStepView;

    open spec fn view(&self) -> MkdirStepView {
        match self {
            MkdirStep::Ensure { path } => MkdirStepView::Ensure { path: path@ },
            MkdirStep::Create { path } => MkdirStepView::Create { path: path@ },
        }
    }
}

/// How an attempt to create a directory went.
#[derive(Debug, Clone, Copy, PartialEq, Eq, Structural)]
pub enum Creation {
    /// The directory was created.
    Created,
    /// The backend said that the directory exists already, which is as good.
    AlreadyExists,
}

/// The key of a directory: its normal form followed by one delimiter. The
/// root's key is empty.
pub open spec fn directory_key(path: Seq<char>) -> Seq<char> {
    if normalize(path).len() == 0 {
        Seq::empty()
    } else {
        normalize(path).push('/')
    }
}

/// The characters of `t` up to its first delimiter.
pub open spec fn first_component(t: Seq<char>) -> Seq<char>
    decreases t.len(),
{
    if t.len() == 0 || t[0] == '/' {
        Seq::empty()
    } else {
        seq![t[0]] + first_component(t.drop_first())
    }
}

/// The components of a path: the runs of characters between delimiters.
pub open spec fn components(s: Seq<char>) -> Seq<Seq<char>>
    decreases s.len(),
    via components_decreases
{
    let t = trim_start(s);
    if t.len() == 0 {
        Seq::empty()
    } else {
        seq![first_component(t)] + components(t.skip(first_component(t).len() as int))
    }
}

#[via_fn]
proof fn components_decreases(s: Seq<char>) {
    let t = trim_start(s);
    lemma_trim_start_shape(s);
    if t.len() != 0 {
        lemma_first_component_shape(t);
    }
}

/// The directory keys that lead to a path whose components are `comps`, when
/// `prefix` is the key of the directory reached so far: each is the one before
/// followed by the next component and a delimiter.
pub open spec fn chain_from(prefix: Seq<char>, comps: Seq<Seq<char>>) -> Seq<Seq<char>>
    decreases comps.len(),
{
    if comps.len() == 0 {
        Seq::empty()
    } else {
        let next = prefix + comps[0] + seq!['/'];
        seq![next] + chain_from(next, comps.drop_first())
    }
}

/// The keys of all directories on the way to a path, the path's own
/// included, from the top down.
pub open spec fn parent_chain(path: Seq<char>) -> Seq<Seq<char>> {
    chain_from(Seq::empty(), components(path))
}

/// The final creation of the target itself: nothing for the root.
pub open spec fn target_step(key: Seq<char>) -> Seq<MkdirStepView> {
    if key.len() == 0 {
        Seq::empty()
    } else {
        seq![MkdirStepView::Create { path: key }]
    }
}

/// The steps of a `mkdir`.
///
/// Without `parents` the target is created, and nothing else. With it, every
/// directory on the way is created unless it exists, and then the target.
pub open spec fn mkdir_steps(path: Seq<char>, parents: bool) -> Seq<MkdirStepView> {
    let key = directory_key(path);
    if parents {
        Seq::new(
            parent_chain(key).len(),
            |i: int| MkdirStepView::Ensure { path: parent_chain(key)[i] },
        ) + target_step(key)
    } else {
        target_step(key)
    }
}

/// Whether a backend's message says that what was to be created exists
/// already.
pub open spec fn says_already_exists(message: Seq<char>) -> bool {
    occurs_in(message, "already exists"@) || occurs_in(message, "BucketAlreadyOwnedByYou"@)
}

/// The values of a list of steps.
pub open spec fn step_views(v: Seq<MkdirStep>) -> Seq<MkdirStepView> {
    Seq::new(v.len(), |i: int| v[i]@)
}

/// The first component is a prefix without a delimiter, and is not empty
/// unless the text is empty or starts with a delimiter.
pub proof fn lemma_first_component_shape(t: Seq<char>)
    ensures
        first_component(t).len() <= t.len(),
        first_component(t) == t.take(first_component(t).len() as int),
        forall|i: int| 0 <= i < first_component(t).len() ==> first_component(t)[i] != '/',
        first_component(t).len() < t.len() ==> t[first_component(t).len() as int] == '/',
        t.len() > 0 && t[0] != '/' ==> first_component(t).len() > 0,
    decreases t.len(),
{
    if t.len() == 0 || t[0] == '/' {
        assert(t.take(0) =~= Seq::<char>::empty());
    } else {
        let r = t.drop_first();
        lemma_first_component_shape(r);
        let h = first_component(r);
        assert(seq![t[0]] + r.take(h.len() as int) =~= t.take(h.len() as int + 1));
        if h.len() < r.len() {
            assert(r[h.len() as int] == t[h.len() as int + 1]);
        }
    }
}

/// The first component ends at the first delimiter.
pub proof fn lemma_first_component_at(t: Seq<char>, e: int)
    requires
        0 <= e <= t.len(),
        forall|i: int| 0 <= i < e ==> t[i] != '/',
        e == t.len() || t[e] == '/',
    ensures
        first_component(t) == t.take(e),
    decreases e,
{
    if e == 0 {
        assert(t.take(0) =~= Seq::<char>::empty());
    } else {
        let r = t.drop_first();
        assert forall|i: int| 0 <= i < e - 1 implies r[i] != '/' by {
            assert(r[i] == t[i + 1]);
        }
        lemma_first_component_at(r, e - 1);
        assert(seq![t[0]] + r.take(e - 1) =~= t.take(e));
    }
}

/// Brings a directory path into the form of a directory key.
pub fn normalize_directory_path(path: &str) -> (r: String)
    ensures
        r@ == directory_key(path@),
{
    let trimmed = normalize_path(path);
    if trimmed.as_str().unicode_len() == 0 {
        let r = String::new();
        assert(r@ =~= directory_key(path@));
        r
    } else {
        proof {
            reveal_strlit("/");
        }
        let r = trimmed.concat("/");
        assert(r@ =~= directory_key(path@));
        r
    }
}

/// The keys of all directories on the way to a path, from the top down.
pub fn parent_directories(path: &str) -> (r: Vec<String>)
    ensures
        line_views(r@) == parent_chain(path@),
{
    let c = to_chars(path);
    let n: usize = c.len();
    let mut out: Vec<String> = Vec::new();
    let mut current = String::new();
    let mut i: usize = 0;
    proof {
        reveal_strlit("/");
        assert(c@.skip(0) =~= c@);
        assert(line_views(out@) + parent_chain(path@) =~= parent_chain(path@));
    }
    while i < n
        invariant
            c@ == path@,
            n == c.len(),
            i <= n,
            "/"@ == seq!['/'],
            line_views(out@) + chain_from(current@, components(c@.skip(i as int))) == parent_chain(
                path@,
            ),
        decreases n - i,
    {
        let ghost s = c@.skip(i as int);
        let mut k: usize = i;
        while k < n && c[k] == '/'
            invariant
                i <= k <= n,
                n == c.len(),
                forall|j: int| i <= j < k ==> c@[j] == '/',
            decreases n - k,
        {
            k += 1;
        }
        proof {
            assert forall|j: int| 0 <= j < k - i implies s[j] == '/' by {
                assert(s[j] == c@[j + i]);
            }
            lemma_trim_start_at(s, k - i);
            assert(s.skip(k - i) =~= c@.skip(k as int));
        }
        if k == n {
            proof {
                assert(trim_start(s).len() == 0);
                assert(components(s) =~= Seq::<Seq<char>>::empty());
                assert(components(c@.skip(n as int)) =~= Seq::<Seq<char>>::empty()) by {
                    assert(c@.skip(n as int).len() == 0);
                }
            }
            i = n;
        } else {
            let mut e: usize = k;
            while e < n && c[e] != '/'
                invariant
                    k <= e <= n,
                    n == c.len(),
                    forall|j: int| k <= j < e ==> c@[j] != '/',
                decreases n - e,
            {
                e += 1;
            }
            let ghost t = c@.skip(k as int);
            let ghost before = current@;
            proof {
                assert forall|j: int| 0 <= j < e - k implies t[j] != '/' by {
                    assert(t[j] == c@[j + k]);
                }
                if e < n {
                    assert(t[e - k] == c@[e as int]);
                }
                lemma_first_component_at(t, e - k);
                assert(t.take(e - k) =~= c@.subrange(k as int, e as int));
                assert(t.skip(e - k) =~= c@.skip(e as int));
                assert(t.len() > 0);
                assert(components(s) == seq![first_component(t)] + components(
                    t.skip(first_component(t).len() as int),
                ));
            }
            current.append(path.substring_char(k, e));
            current.append("/");
            let ghost old_out = line_views(out@);
            out.push(current.clone());
            proof {
                let h = c@.subrange(k as int, e as int);
                let rest = components(c@.skip(e as int));
                let comps = components(s);
                assert(comps == seq![h] + rest);
                assert(comps[0] == h);
                assert(comps.drop_first() =~= rest);
                assert(current@ =~= before + h + seq!['/']);
                assert(chain_from(before, comps) == seq![current@] + chain_from(current@, rest));
                assert(line_views(out@) =~= old_out + seq![current@]);
                assert(line_views(out@) + chain_from(current@, rest) =~= old_out + chain_from(
                    before,
                    comps,
                ));
            }
            i = e;
        }
    }
    proof {
        assert(c@.skip(n as int).len() == 0);
        assert(trim_start(c@.skip(n as int)).len() == 0);
        assert(components(c@.skip(n as int)) =~= Seq::<Seq<char>>::empty());
        assert(line_views(out@) + Seq::<Seq<char>>::empty() =~= line_views(out@));
    }
    out
}

/// Lays out a `mkdir` of `path`.
pub fn plan_mkdir(path: &str, parents: bool) -> (r: Vec<MkdirStep>)
    ensures
        step_views(r@) == mkdir_steps(path@, parents),
{
    let key = normalize_directory_path(path);
    let mut steps: Vec<MkdirStep> = Vec::new();
    if parents {
        let chain = parent_directories(key.as_str());
        let ghost keys = line_views(chain@);
        let total: usize = chain.len();
        let mut i: usize = 0;
        while i < total
            invariant
                i <= total,
                total == chain.len(),
                keys == line_views(chain@),
                steps@.len() == i,
                forall|j: int|
                    0 <= j < i ==> (#[trigger] steps@[j])@ == (MkdirStepView::Ensure {
                        path: keys[j],
                    }),
            decreases total - i,
        {
            steps.push(MkdirStep::Ensure { path: chain[i].clone() });
            i += 1;
        }
        assert(step_views(steps@) =~= Seq::new(
            parent_chain(key@).len(),
            |i: int| MkdirStepView::Ensure { path: parent_chain(key@)[i] },
        ));
    }
    let ghost before = step_views(steps@);
    if key.as_str().unicode_len() > 0 {
        steps.push(MkdirStep::Create { path: key });
        assert(step_views(steps@) =~= before + target_step(directory_key(path@)));
    } else {
        assert(step_views(steps@) =~= before + target_step(directory_key(path@)));
    }
    steps
}

/// Whether a directory exists. The root does; so does a key that a metadata
/// lookup finds; and so does one whose listing succeeds, which is consulted
/// where the lookup fails, for directories that exist without a marker.
pub fn directory_exists(path: &str, stat_found: bool, listing_succeeded: bool) -> (r: bool)
    ensures
        r == (path@.len() == 0 || stat_found || listing_succeeded),
{
    path.unicode_len() == 0 || stat_found || listing_succeeded
}

/// Judges an attempt to create the directory `path`. `failure` is the
/// backend's message if the attempt failed. A failure that only says that the
/// directory exists is no failure.
pub fn creation_outcome(path: &str, failure: Option<String>) -> (r: Result<Creation, Error>)
    ensures
        match failure {
            None => r == Ok::<Creation, Error>(Creation::Created),
            Some(message) => if says_already_exists(message@) {
                r == Ok::<Creation, Error>(Creation::AlreadyExists)
            } else {
                r is Err && r->Err_0@ == (ErrorView::DirectoryCreationFailed {
                    path: path@,
                    source: Box::new(ErrorView::OpenDal { not_found: false, message: message@ }),
                })
            },
        },
{
    proof {
        reveal_with_fuel(error_view, 2);
    }
    match failure {
        None => Ok(Creation::Created),
        Some(message) => {
            if contains_text(message.as_str(), "already exists") || contains_text(
                message.as_str(),
                "BucketAlreadyOwnedByYou",
            ) {
                Ok(Creation::AlreadyExists)
            } else {
                Err(
                    Error::DirectoryCreationFailed {
                        path: String::from_str(path),
                        source: Box::new(Error::OpenDal { not_found: false, message }),
                    },
                )
            }
        },
    }
}

/// Bringing a directory path into key form is idempotent.
pub proof fn lemma_directory_key_idempotent(path: Seq<char>)
    ensures
        directory_key(directory_key(path)) == directory_key(path),
{
    let n = normalize(path);
    crate::path::lemma_normalize_shape(path);
    crate::path::lemma_normalize_idempotent(path);
    if n.len() > 0 {
        let k = n.push('/');
        // the key starts like its normal form and ends with one delimiter
        crate::path::lemma_trim_start_at(k, 0);
        assert(k.skip(0) =~= k);
        assert(k[0] == n[0]);
        crate::path::lemma_trim_end_at(k, n.len() as int);
        assert(k.take(n.len() as int) =~= n);
        assert(k[n.len() - 1] == n.last());
        assert(normalize(k) == n);
    } else {
        assert(normalize(Seq::<char>::empty()) =~= Seq::<char>::empty());
    }
}

/// The chain of a path has one key per component, each ends with a delimiter,
/// and each extends the one before.
pub proof fn lemma_chain_shape(prefix: Seq<char>, comps: Seq<Seq<char>>)
    ensures
        chain_from(prefix, comps).len() == comps.len(),
        forall|i: int|
            0 <= i < comps.len() ==> (#[trigger] chain_from(prefix, comps)[i]).len() > 0
                && chain_from(prefix, comps)[i].last() == '/',
        forall|i: int|
            0 < i < comps.len() ==> #[trigger] chain_from(prefix, comps)[i] == chain_from(
                prefix,
                comps,
            )[i - 1] + comps[i] + seq!['/'],
        comps.len() > 0 ==> chain_from(prefix, comps)[0] == prefix + comps[0] + seq!['/'],
    decreases comps.len(),
{
    if comps.len() > 0 {
        let next = prefix + comps[0] + seq!['/'];
        let rest = comps.drop_first();
        lemma_chain_shape(next, rest);
        let chain = chain_from(prefix, comps);
        let tail = chain_from(next, rest);
        assert(chain == seq![next] + tail);
        assert forall|i: int| 0 <= i < comps.len() implies (#[trigger] chain[i]).len() > 0
            && chain[i].last() == '/' by {
            if i > 0 {
                assert(chain[i] == tail[i - 1]);
            }
        }
        assert forall|i: int| 0 < i < comps.len() implies #[trigger] chain[i] == chain[i - 1]
            + comps[i] + seq!['/'] by {
            assert(chain[i] == tail[i - 1]);
            assert(comps[i] == rest[i - 1]);
            if i == 1 {
                assert(chain[0] == next);
            } else {
                assert(chain[i - 1] == tail[i - 2]);
            }
        }
    }
}

} // verus!
