use vstd::prelude::*;
use vstd::string::StrSliceExecFns;

verus! {

/// `c` reads as `l` under ASCII case folding: either the same character, or
/// the uppercase ASCII letter whose lowercase form is `l`.
pub open spec fn char_lowers_to(c: char, l: char) -> bool {
    c == l || (65 <= c as u32 && c as u32 <= 90 && c as u32 + 32 == l as u32)
}

/// `v` equals the lowercase word `w` up to ASCII case.
pub open spec fn matches_ignore_ascii_case(v: Seq<char>, w: Seq<char>) -> bool {
    v.len() == w.len() && (forall|i: int| 0 <= i < v.len() ==> char_lowers_to(v[i], w[i]))
}

/// The opt-out values that disable deployment dispatch: "true", "1", "yes"
/// and "on", compared without regard to ASCII case.
pub open spec fn disables_deployment(v: Seq<char>) -> bool {
    ||| matches_ignore_ascii_case(v, "true"@)
    ||| matches_ignore_ascii_case(v, "1"@)
    ||| matches_ignore_ascii_case(v, "yes"@)
    ||| matches_ignore_ascii_case(v, "on"@)
}

/// Whether deployment may be dispatched, given the opt-out variable's value
/// (or its absence). Every value outside the disabling set allows dispatch,
/// and so does an unset variable.
pub open spec fn auto_deploy_allowed(no_deploy: Option<Seq<char>>) -> bool {
    match no_deploy {
        Some(v) => !disables_deployment(v),
        None => true,
    }
}

fn str_matches_ignore_ascii_case(v: &str, w: &str) -> (r: bool)
    ensures
        r == matches_ignore_ascii_case(v@, w@),
{
    let n = v.unicode_len();
    let m = w.unicode_len();
    if n != m {
        return false;
    }
    let mut i: usize = 0;
    while i < n
        invariant
            i <= n,
            n == v@.len(),
            n == w@.len(),
            forall|k: int| 0 <= k < i ==> char_lowers_to(v@[k], w@[k]),
        decreases n - i,
    {
        let c = v.get_char(i);
        let l = w.get_char(i);
        let cu = c as u32;
        let lu = l as u32;
        if !(c == l || (65 <= cu && cu <= 90 && cu + 32 == lu)) {
            return false;
        }
        i = i + 1;
    }
    true
}

/// True exactly when `value` is one of the opt-out values that disable
/// deployment dispatch, compared without regard to ASCII case.
pub fn opt_out_disables(value: &str) -> (r: bool)
    ensures
        r == disables_deployment(value@),
{
    str_matches_ignore_ascii_case(value, "true") || str_matches_ignore_ascii_case(value, "1")
        || str_matches_ignore_ascii_case(value, "yes") || str_matches_ignore_ascii_case(value, "on")
}

/// Resolves the opt-out variable into the request's auto-deploy choice: an
/// unset variable, and every value outside the disabling set, allows
/// dispatch.
pub fn resolve_auto_deploy(no_deploy: Option<&str>) -> (r: bool)
    ensures
        r == match no_deploy {
            Some(v) => !disables_deployment(v@),
            None => true,
        },
{
    match no_deploy {
        Some(v) => !opt_out_disables(v),
        None => true,
    }
}

} // verus!
