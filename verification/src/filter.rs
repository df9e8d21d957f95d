//! The registry filter: which objects of the audio server's registry
//! count as votable input streams. Some mixer and volume-control
//! applications create shadow input-stream objects; the predicate here
//! is a conservative, documented heuristic that keeps them out of the
//! vote.

use vstd::prelude::*;

verus! {

/// Whether an object with the given declared class, category and
/// application name is tracked: it must be an audio input stream, must
/// not be tagged as a stream-management console, and must not come
/// from a known mixer-UI application.
pub open spec fn spec_should_track(
    media_class: Seq<char>,
    media_category: Seq<char>,
    application_name: Seq<char>,
) -> bool {
    &&& media_class == "Stream/Input/Audio"@
    &&& media_category != "Manager"@
    &&& application_name != "GNOME Settings"@
    &&& application_name != "PulseAudio Volume Control"@
}

/// The declared property, or the default a registry object without it
/// gets.
pub open spec fn prop_or(prop: Option<&str>, default: Seq<char>) -> Seq<char> {
    match prop {
        Some(s) => s@,
        None => default,
    }
}

fn bytes_eq(a: &[u8], b: &[u8]) -> (r: bool)
    ensures
        r == (a@ == b@),
{
    if a.len() != b.len() {
        return false;
    }
    let mut i: usize = 0;
    while i < a.len()
        invariant
            a@.len() == b@.len(),
            0 <= i <= a@.len(),
            forall|j: int| 0 <= j < i ==> a@[j] == b@[j],
        decreases a@.len() - i,
    {
        if a[i] != b[i] {
            return false;
        }
        i = i + 1;
    }
    proof {
        assert(a@ =~= b@);
    }
    true
}

/// Whole-string equality, proved through the injectivity of the UTF-8
/// encoding.
pub fn str_eq(a: &str, b: &str) -> (r: bool)
    ensures
        r == (a@ == b@),
{
    let r = bytes_eq(a.as_bytes(), b.as_bytes());
    proof {
        if r {
            vstd::utf8::encode_utf8_decode_utf8(a@);
            vstd::utf8::encode_utf8_decode_utf8(b@);
        }
    }
    r
}

/// Decides whether a registry object with these declared properties
/// joins the vote.
pub fn should_track(media_class: &str, media_category: &str, application_name: &str) -> (r: bool)
    ensures
        r == spec_should_track(media_class@, media_category@, application_name@),
{
    str_eq(media_class, "Stream/Input/Audio") && !str_eq(media_category, "Manager")
        && !str_eq(application_name, "GNOME Settings")
        && !str_eq(application_name, "PulseAudio Volume Control")
}

/// The same decision straight off a registry object's optional
/// properties: a missing class or category reads as empty, a missing
/// application name reads as unknown.
pub fn should_track_props(
    media_class: Option<&str>,
    media_category: Option<&str>,
    application_name: Option<&str>,
) -> (r: bool)
    ensures
        r == spec_should_track(
            prop_or(media_class, ""@),
            prop_or(media_category, ""@),
            prop_or(application_name, "UNKNOWN"@),
        ),
{
    let class: &str = match media_class {
        Some(s) => s,
        None => "",
    };
    let category: &str = match media_category {
        Some(s) => s,
        None => "",
    };
    let app: &str = match application_name {
        Some(s) => s,
        None => "UNKNOWN",
    };
    should_track(class, category, app)
}

} // verus!
