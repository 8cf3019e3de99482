use vstd::prelude::*;

use crate::args::str_equal;

verus! {

/// What the process environment says about where source paths live: the
/// user's home directory and the current directory, each where it is known.
pub struct SpanEnv {
    pub home_dir: Option<String>,
    pub current_dir: Option<String>,
}

/// The plain content of a `SpanEnv`.
pub struct SpanEnvView {
    pub home_dir: Option<Seq<char>>,
    pub current_dir: Option<Seq<char>>,
}

impl View for SpanEnv {
    type V = SpanEnvView;

    open spec fn view(&self) -> SpanEnvView {
        SpanEnvView {
            home_dir: match self.home_dir {
                Some(h) => Some(h@),
                None => None,
            },
            current_dir: match self.current_dir {
                Some(c) => Some(c@),
                None => None,
            },
        }
    }
}

/// `p` is a prefix of `s`.
pub open spec fn has_prefix(s: Seq<char>, p: Seq<char>) -> bool {
    p.len() <= s.len() && s.subrange(0, p.len() as int) == p
}

/// `p` is a suffix of `s`.
pub open spec fn has_suffix(s: Seq<char>, p: Seq<char>) -> bool {
    p.len() <= s.len() && s.subrange(s.len() - p.len(), s.len() as int) == p
}

/// The marker that rustc's debug form of a span ends with in the root syntax context.
pub open spec fn root_context_marker() -> Seq<char> {
    seq![' ', '(', '#', '0', ')']
}

/// `s` with every trailing copy of the root context marker removed.
pub open spec fn strip_root_context(s: Seq<char>) -> Seq<char>
    decreases s.len(),
{
    if has_suffix(s, root_context_marker()) {
        strip_root_context(s.subrange(0, s.len() - 5))
    } else {
        s
    }
}

/// A span's text is taken relative to the current directory when a home
/// directory is known and the text does not start with it.
pub open spec fn needs_current_dir(span: Seq<char>, env: SpanEnvView) -> bool {
    match env.home_dir {
        Some(home) => !has_prefix(span, home),
        None => false,
    }
}

/// The span cleaning can be carried out: a current directory is known
/// wherever one is needed.
pub open spec fn can_clean(span: Seq<char>, env: SpanEnvView) -> bool {
    needs_current_dir(span, env) ==> env.current_dir is Some
}

/// The path that joining `rel` onto `base` gives, by the Unix rule that
/// `std::path::PathBuf::push` follows there: an absolute `rel` replaces
/// `base`; otherwise `rel` follows `base`, with a `/` between them where
/// `base` is not empty and does not already end with one.
pub open spec fn joined_path(base: Seq<char>, rel: Seq<char>) -> Seq<char> {
    if rel.len() > 0 && rel[0] == '/' {
        rel
    } else if base.len() > 0 && base.last() != '/' {
        base + seq!['/'] + rel
    } else {
        base + rel
    }
}

/// The cleaned form of a span's debug text.
pub open spec fn clean_span_spec(span: Seq<char>, env: SpanEnvView) -> Seq<char> {
    let located = if needs_current_dir(span, env) {
        joined_path(env.current_dir->0, span)
    } else {
        span
    };
    strip_root_context(located)
}

/// Joins `rel` onto the path `base` (see `joined_path`).
pub fn join_path(base: &str, rel: &str) -> (res: String)
    ensures
        res@ == joined_path(base@, rel@),
{
    proof {
        reveal_strlit("/");
    }
    let rl = rel.unicode_len();
    if rl > 0 && rel.get_char(0) == '/' {
        return rel.to_owned();
    }
    let bl = base.unicode_len();
    let mut res = base.to_owned();
    if bl > 0 && base.get_char(bl - 1) != '/' {
        res.append("/");
    }
    res.append(rel);
    assert(res@ =~= joined_path(base@, rel@));
    res
}

/// Whether `s` starts with `p`.
pub fn starts_with(s: &str, p: &str) -> (res: bool)
    ensures
        res == has_prefix(s@, p@),
{
    let sl = s.unicode_len();
    let pl = p.unicode_len();
    if pl <= sl {
        str_equal(s.substring_char(0, pl), p)
    } else {
        false
    }
}

/// Removes every trailing copy of the root context marker ` (#0)`.
pub fn trim_root_context(s: &str) -> (res: String)
    ensures
        res@ == strip_root_context(s@),
{
    proof {
        reveal_strlit(" (#0)");
    }
    assert(" (#0)"@ =~= root_context_marker());
    let mut cur: String = s.to_owned();
    loop
        invariant
            strip_root_context(cur@) == strip_root_context(s@),
            " (#0)"@ == root_context_marker(),
        decreases cur@.len(),
    {
        let len = cur.as_str().unicode_len();
        if len >= 5 && str_equal(cur.as_str().substring_char(len - 5, len), " (#0)") {
            let shorter = cur.as_str().substring_char(0, len - 5).to_owned();
            cur = shorter;
        } else {
            return cur;
        }
    }
}

/// Turns the debug text of a span into the path-like form stored in the
/// outputs: a span outside the home directory is taken relative to the
/// current directory, and the trailing root context marker is dropped.
pub fn clean_span(span: &str, env: &SpanEnv) -> (res: String)
    requires
        can_clean(span@, env@),
    ensures
        res@ == clean_span_spec(span@, env@),
        span@.len() > 0 && span@[0] == '/' ==> res@ == strip_root_context(span@),
{
    let located = match &env.home_dir {
        Some(home) => {
            if !starts_with(span, home.as_str()) {
                match &env.current_dir {
                    Some(cwd) => join_path(cwd.as_str(), span),
                    None => span.to_owned(),
                }
            } else {
                span.to_owned()
            }
        },
        None => span.to_owned(),
    };
    trim_root_context(located.as_str())
}

/// A cleaned text never ends with the root context marker.
pub proof fn lemma_strip_leaves_no_marker(s: Seq<char>)
    ensures
        !has_suffix(strip_root_context(s), root_context_marker()),
    decreases s.len(),
{
    if has_suffix(s, root_context_marker()) {
        lemma_strip_leaves_no_marker(s.subrange(0, s.len() - 5));
    }
}

/// Removing the root context marker twice removes no more than doing it once.
pub proof fn lemma_strip_idempotent(s: Seq<char>)
    ensures
        strip_root_context(strip_root_context(s)) == strip_root_context(s),
{
    lemma_strip_leaves_no_marker(s);
}

/// A span inside the home directory keeps its place; only the marker goes.
pub proof fn lemma_clean_span_inside_home(span: Seq<char>, env: SpanEnvView)
    requires
        env.home_dir is Some,
        has_prefix(span, env.home_dir->0),
    ensures
        can_clean(span, env),
        clean_span_spec(span, env) == strip_root_context(span),
{
}

/// Joining a relative path onto a non-empty base keeps the base as a
/// prefix and the relative path as a suffix, and the result is longer
/// than the base; an absolute path is kept whole.
pub proof fn lemma_joined_path_keeps_base(base: Seq<char>, rel: Seq<char>)
    ensures
        rel.len() > 0 && rel[0] == '/' ==> joined_path(base, rel) == rel,
        base.len() > 0 && rel.len() > 0 && rel[0] != '/' ==> {
            &&& has_prefix(joined_path(base, rel), base)
            &&& has_suffix(joined_path(base, rel), rel)
            &&& joined_path(base, rel).len() > base.len()
        },
        base.len() > 0 && base.last() != '/' && rel.len() > 0 && rel[0] != '/' ==> joined_path(
            base,
            rel,
        )[base.len() as int] == '/',
{
    if base.len() > 0 && rel.len() > 0 && rel[0] != '/' {
        let j = joined_path(base, rel);
        if base.last() != '/' {
            assert(j.subrange(0, base.len() as int) =~= base);
            assert(j.subrange(j.len() - rel.len(), j.len() as int) =~= rel);
        } else {
            assert(j.subrange(0, base.len() as int) =~= base);
            assert(j.subrange(j.len() - rel.len(), j.len() as int) =~= rel);
        }
    }
}

/// A span outside the home directory is taken relative to the current
/// directory: its cleaned form is the joined path with the marker dropped;
/// with no home directory known, only the marker goes.
pub proof fn lemma_clean_span_outside_home(span: Seq<char>, env: SpanEnvView)
    ensures
        env.home_dir is Some && !has_prefix(span, env.home_dir->0) && env.current_dir is Some
            ==> clean_span_spec(span, env) == strip_root_context(
            joined_path(env.current_dir->0, span),
        ),
        env.home_dir is None ==> can_clean(span, env) && clean_span_spec(span, env)
            == strip_root_context(span),
{
}

} // verus!
