use crate::errors::ProvisionError;
use vstd::prelude::*;
use vstd::string::StrSliceExecFns;
use vstd::string::StringExecFns;

verus! {

/// True when `s` consists of path separators only (an empty `s` included):
/// such a URL has no path segment to resolve an organization from.
pub open spec fn all_slashes(s: Seq<char>) -> bool {
    forall|i: int| 0 <= i < s.len() ==> s[i] == '/'
}

/// `s` with every trailing '/' removed.
pub open spec fn strip_trailing_slashes(s: Seq<char>) -> Seq<char>
    decreases s.len(),
{
    if s.len() == 0 {
        s
    } else if s.last() == '/' {
        strip_trailing_slashes(s.drop_last())
    } else {
        s
    }
}

/// The maximal suffix of `s` that contains no '/'.
pub open spec fn trailing_run(s: Seq<char>) -> Seq<char>
    decreases s.len(),
{
    if s.len() == 0 || s.last() == '/' {
        Seq::empty()
    } else {
        trailing_run(s.drop_last()).push(s.last())
    }
}

/// The last non-empty '/'-separated segment of `s`: the run of non-'/'
/// characters that ends at the last non-'/' character.
pub open spec fn last_nonempty_segment(s: Seq<char>) -> Seq<char> {
    trailing_run(strip_trailing_slashes(s))
}

/// When every character past `e` is a '/', and `s[e]` is not, stripping the
/// trailing slashes keeps exactly the first `e + 1` characters.
proof fn lemma_strip_of_trailing(s: Seq<char>, e: int)
    requires
        0 <= e < s.len(),
        s[e] != '/',
        forall|k: int| e < k < s.len() ==> s[k] == '/',
    ensures
        strip_trailing_slashes(s) == s.subrange(0, e + 1),
    decreases s.len(),
{
    if s.len() == e + 1 {
        assert(s.subrange(0, e + 1) =~= s);
    } else {
        assert(s.last() == '/');
        lemma_strip_of_trailing(s.drop_last(), e);
        assert(s.drop_last().subrange(0, e + 1) =~= s.subrange(0, e + 1));
    }
}

/// When the characters from `b` to the end are all non-'/', and `b` is either
/// the start or preceded by a '/', the trailing run is exactly that suffix.
proof fn lemma_trailing_run_of(s: Seq<char>, b: int)
    requires
        0 <= b <= s.len(),
        forall|k: int| b <= k < s.len() ==> s[k] != '/',
        b == 0 || s[b - 1] == '/',
    ensures
        trailing_run(s) == s.subrange(b, s.len() as int),
    decreases s.len(),
{
    if b == s.len() {
        if s.len() > 0 {
            assert(s.last() == '/');
        }
        assert(trailing_run(s) =~= s.subrange(b, s.len() as int));
    } else {
        assert(s.last() != '/');
        lemma_trailing_run_of(s.drop_last(), b);
        assert(s.drop_last().subrange(b, s.len() - 1) =~= s.subrange(b, s.len() - 1));
        assert(trailing_run(s) =~= s.subrange(b, s.len() as int));
    }
}

/// Identity resolution returns exactly the last non-empty segment: whenever
/// the characters of `s` from `b` to `e` form a run of non-'/' characters
/// that is preceded by a '/' (or by nothing) and followed by '/' characters
/// only, `last_nonempty_segment(s)` is that very run, and it is non-empty
/// and free of separators.
pub proof fn lemma_identity_resolution(s: Seq<char>, b: int, e: int)
    requires
        0 <= b <= e < s.len(),
        forall|k: int| b <= k <= e ==> s[k] != '/',
        b == 0 || s[b - 1] == '/',
        forall|k: int| e < k < s.len() ==> s[k] == '/',
    ensures
        last_nonempty_segment(s) == s.subrange(b, e + 1),
        last_nonempty_segment(s).len() > 0,
        forall|k: int| 0 <= k < last_nonempty_segment(s).len() ==> last_nonempty_segment(s)[k]
            != '/',
        !all_slashes(s),
{
    lemma_strip_of_trailing(s, e);
    let t = s.subrange(0, e + 1);
    lemma_trailing_run_of(t, b);
    assert(t.subrange(b, t.len() as int) =~= s.subrange(b, e + 1));
}

/// Derives the owning organization from a base URL: the last non-empty
/// '/'-separated segment. A URL of separators only (the empty string
/// included) has no segment, and resolution fails.
pub fn resolve_organization(base_url: &str) -> (r: Result<String, ProvisionError>)
    ensures
        match r {
            Ok(seg) => !all_slashes(base_url@) && seg@ == last_nonempty_segment(base_url@),
            Err(e) => all_slashes(base_url@) && e@ is Configuration,
        },
{
    let n = base_url.unicode_len();
    let mut end: usize = n;
    while end > 0 && base_url.get_char(end - 1) == '/'
        invariant
            end <= n,
            n == base_url@.len(),
            forall|k: int| end <= k < n ==> base_url@[k] == '/',
        decreases end,
    {
        end = end - 1;
    }
    if end == 0 {
        proof {
            assert(all_slashes(base_url@));
        }
        return Err(
            ProvisionError::Configuration {
                message: String::from_str("could not resolve an organization from the base URL"),
            },
        );
    }
    let mut begin: usize = end;
    while begin > 0 && base_url.get_char(begin - 1) != '/'
        invariant
            begin <= end <= n,
            n == base_url@.len(),
            forall|k: int| begin <= k < end ==> base_url@[k] != '/',
            base_url@[end - 1] != '/',
        decreases begin,
    {
        begin = begin - 1;
    }
    let segment = base_url.substring_char(begin, end);
    proof {
        lemma_identity_resolution(base_url@, begin as int, end - 1);
    }
    Ok(String::from_str(segment))
}

/// The base URL of the organization that repositories are provisioned under.
pub fn repo_url() -> (r: &'static str)
    ensures
        r@ == "https://github.com/NextNodeSolutions"@,
{
    "https://github.com/NextNodeSolutions"
}

/// Resolves the organization from the configured base URL: always the
/// URL's final segment.
pub fn extract_organization_from_repo_url() -> (r: Result<String, ProvisionError>)
    ensures
        r matches Ok(seg) && seg@ == "NextNodeSolutions"@,
{
    let r = resolve_organization(repo_url());
    proof {
        reveal_strlit("https://github.com/NextNodeSolutions");
        reveal_strlit("NextNodeSolutions");
        lemma_identity_resolution("https://github.com/NextNodeSolutions"@, 19, 35);
        assert("https://github.com/NextNodeSolutions"@.subrange(19, 36)
            =~= "NextNodeSolutions"@);
    }
    r
}

} // verus!
