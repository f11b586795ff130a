//! The activity categorizer: a pure, deterministic, total function from the
//! foreground window's application name and title to a category label, by
//! case-insensitive substring matching in a fixed priority order — coding
//! tools, then communication tools, then leisure, then the default bucket.

use vstd::prelude::*;
use vstd::string::StrSliceExecFns;
use vstd::string::StringExecFns;

verus! {

/// `needle` occurs as a contiguous run of characters inside `hay`.
pub open spec fn seq_contains(hay: Seq<char>, needle: Seq<char>) -> bool {
    exists|i: int|
        0 <= i && i + needle.len() <= hay.len() && #[trigger] hay.subrange(
            i,
            i + needle.len() as int,
        ) == needle
}

fn match_at(hay: &str, needle: &str, i: usize) -> (r: bool)
    requires
        i + needle@.len() <= hay@.len(),
    ensures
        r == (hay@.subrange(i as int, i + needle@.len()) == needle@),
{
    let n = hay.unicode_len();
    let m = needle.unicode_len();
    let mut k: usize = 0;
    while k < m
        invariant
            n == hay@.len(),
            i + m <= n,
            m == needle@.len(),
            k <= m,
            forall|j: int| 0 <= j < k ==> hay@[i + j] == needle@[j],
        decreases m - k,
    {
        if hay.get_char(i + k) != needle.get_char(k) {
            proof {
                assert(hay@.subrange(i as int, i + needle@.len())[k as int] == hay@[i + k]);
            }
            return false;
        }
        k = k + 1;
    }
    proof {
        assert(hay@.subrange(i as int, i + needle@.len()) =~= needle@);
    }
    true
}

/// Whether `needle` occurs inside `hay`, character for character.
pub fn str_contains(hay: &str, needle: &str) -> (r: bool)
    ensures
        r == seq_contains(hay@, needle@),
{
    let n = hay.unicode_len();
    let m = needle.unicode_len();
    if m > n {
        return false;
    }
    if m == 0 {
        proof {
            assert(hay@.subrange(0, 0 + needle@.len() as int) =~= needle@);
        }
        return true;
    }
    let mut i: usize = 0;
    while i <= n - m
        invariant
            1 <= m <= n,
            n == hay@.len(),
            m == needle@.len(),
            i <= n - m + 1,
            forall|j: int|
                0 <= j < i ==> #[trigger] hay@.subrange(j, j + needle@.len()) != needle@,
        decreases n - m + 1 - i,
    {
        if match_at(hay, needle, i) {
            return true;
        }
        i = i + 1;
    }
    false
}

/// What `str::to_lowercase` returns for the given characters.
pub uninterp spec fn lower_of(s: Seq<char>) -> Seq<char>;

/// Relies on `str::to_lowercase`: the lowercased text is a function of the
/// input characters alone, and an empty string stays empty.
#[verifier::external_body]
fn to_lowercase(s: &str) -> (r: String)
    ensures
        r@ == lower_of(s@),
        s@.len() == 0 ==> r@.len() == 0,
{
    s.to_lowercase()
}

/// The category label for an already-lowercased application name and window
/// title: the first matching rule wins, and nothing matches more than one
/// bucket.
pub open spec fn spec_categorize(app: Seq<char>, title: Seq<char>) -> Seq<char> {
    if seq_contains(app, "code"@) || seq_contains(app, "intellij"@) || seq_contains(
        title,
        "visual studio"@,
    ) || seq_contains(app, "terminal"@) {
        "Work (Coding)"@
    } else if seq_contains(app, "zoom"@) || seq_contains(app, "teams"@) || seq_contains(
        app,
        "slack"@,
    ) || seq_contains(app, "discord"@) || seq_contains(app, "skype"@) {
        "Meeting/Communication"@
    } else if seq_contains(app, "spotify"@) || seq_contains(title, "netflix"@) || seq_contains(
        title,
        "youtube"@,
    ) || seq_contains(app, "steam"@) || seq_contains(app, "game"@) {
        "Break"@
    } else {
        "Work"@
    }
}

/// Categorizes an application name and title that are already lowercase;
/// the label is exactly [`spec_categorize`] of the two inputs.
pub fn categorize_lower(app_lower: &str, title_lower: &str) -> (r: String)
    ensures
        r@ == spec_categorize(app_lower@, title_lower@),
{
    if str_contains(app_lower, "code") || str_contains(app_lower, "intellij") || str_contains(
        title_lower,
        "visual studio",
    ) || str_contains(app_lower, "terminal") {
        String::from_str("Work (Coding)")
    } else if str_contains(app_lower, "zoom") || str_contains(app_lower, "teams") || str_contains(
        app_lower,
        "slack",
    ) || str_contains(app_lower, "discord") || str_contains(app_lower, "skype") {
        String::from_str("Meeting/Communication")
    } else if str_contains(app_lower, "spotify") || str_contains(title_lower, "netflix")
        || str_contains(title_lower, "youtube") || str_contains(app_lower, "steam")
        || str_contains(app_lower, "game") {
        String::from_str("Break")
    } else {
        String::from_str("Work")
    }
}

/// Categorizes the foreground window: case-insensitive substring matching of
/// the application name and title against the fixed rule table, first match
/// winning.
pub fn categorize_activity(app_name: &str, title: &str) -> (r: String)
    ensures
        r@ == spec_categorize(lower_of(app_name@), lower_of(title@)),
{
    let app_lower = to_lowercase(app_name);
    let title_lower = to_lowercase(title);
    categorize_lower(app_lower.as_str(), title_lower.as_str())
}

} // verus!
