//! One scraped search result and how it is assembled from the raw field
//! texts read off a result container.
//!
//! Scraping the page is an outside concern: whatever reads the DOM hands
//! this module a [`RawContainer`] holding the four field texts, each `None`
//! where the corresponding sub-element was absent. Everything from there on
//! is pure: a missing field degrades to the empty string, never to a
//! failure, and the duration text is normalized to digits and colons only.

use vstd::prelude::*;
use vstd::string::StrSliceExecFns;

verus! {

/// One search-result video as presented to the user.
pub struct Candidate {
    /// Display title; empty if extraction failed.
    pub title: String,
    /// Uploader name; empty if extraction failed.
    pub channel: String,
    /// Normalized to ASCII digits and colons only; empty if unavailable.
    pub duration: String,
    /// Absolute URL of the video; empty if extraction failed.
    pub link: String,
}

/// The mathematical value of a [`Candidate`]: its fields as character
/// sequences.
#[verifier::ext_equal]
pub struct CandidateView {
    pub title: Seq<char>,
    pub channel: Seq<char>,
    pub duration: Seq<char>,
    pub link: Seq<char>,
}

impl View for Candidate {
    type V = CandidateView;

    open spec fn view(&self) -> CandidateView {
        CandidateView {
            title: self.title@,
            channel: self.channel@,
            duration: self.duration@,
            link: self.link@,
        }
    }
}

/// The raw field texts read off one result container, each `None` where the
/// sub-element lookup found nothing.
pub struct RawContainer {
    /// Rendered text of the time-overlay sub-element.
    pub duration_text: Option<String>,
    /// Title attribute of the title-link sub-element.
    pub title: Option<String>,
    /// Href attribute of the title-link sub-element.
    pub link: Option<String>,
    /// Rendered text of the channel-name sub-element.
    pub channel: Option<String>,
}

/// The mathematical value of a [`RawContainer`].
#[verifier::ext_equal]
pub struct RawContainerView {
    pub duration_text: Option<Seq<char>>,
    pub title: Option<Seq<char>>,
    pub link: Option<Seq<char>>,
    pub channel: Option<Seq<char>>,
}

impl View for RawContainer {
    type V = RawContainerView;

    open spec fn view(&self) -> RawContainerView {
        RawContainerView {
            duration_text: match self.duration_text {
                Option::Some(s) => Option::Some(s@),
                Option::None => Option::None,
            },
            title: match self.title {
                Option::Some(s) => Option::Some(s@),
                Option::None => Option::None,
            },
            link: match self.link {
                Option::Some(s) => Option::Some(s@),
                Option::None => Option::None,
            },
            channel: match self.channel {
                Option::Some(s) => Option::Some(s@),
                Option::None => Option::None,
            },
        }
    }
}

/// A field's text, or the empty sequence where the field was absent.
pub open spec fn text_or_empty(o: Option<Seq<char>>) -> Seq<char> {
    match o {
        Option::Some(s) => s,
        Option::None => Seq::empty(),
    }
}

/// Whether a character survives duration normalization: ASCII digits and the
/// colon.
pub open spec fn is_duration_char(c: char) -> bool {
    (('0' as u32) <= (c as u32) && (c as u32) <= ('9' as u32)) || c == ':'
}

/// The normalized form of a duration text: only its digits and colons, in
/// order; whitespace and any other markup artifact is discarded.
pub open spec fn spec_normalize_duration(s: Seq<char>) -> Seq<char>
    decreases s.len(),
{
    if s.len() == 0 {
        Seq::empty()
    } else {
        let front = spec_normalize_duration(s.drop_last());
        if is_duration_char(s.last()) {
            front.push(s.last())
        } else {
            front
        }
    }
}

/// Normalizes a rendered duration text, keeping only ASCII digits and colons.
pub fn normalize_duration(raw: &str) -> (r: String)
    ensures
        r@ == spec_normalize_duration(raw@),
{
    let n: usize = raw.unicode_len();
    let mut out: Vec<char> = Vec::new();
    let mut i: usize = 0;
    while i < n
        invariant
            n == raw@.len(),
            i <= n,
            out@ == spec_normalize_duration(raw@.take(i as int)),
        decreases n - i,
    {
        let c = raw.get_char(i);
        proof {
            assert(raw@.take(i as int + 1).drop_last() =~= raw@.take(i as int));
            assert(raw@.take(i as int + 1).last() == raw@[i as int]);
        }
        let u = c as u32;
        if (48 <= u && u <= 57) || c == ':' {
            out.push(c);
        }
        i = i + 1;
    }
    proof {
        assert(raw@.take(n as int) =~= raw@);
    }
    crate::chars_to_string(&out)
}

/// The substring that marks a short-form video URL.
pub open spec fn shorts_marker() -> Seq<char> {
    seq!['s', 'h', 'o', 'r', 't', 's']
}

/// Whether a link points at a short-form video: it contains the marker
/// substring somewhere.
pub open spec fn spec_is_short(link: Seq<char>) -> bool {
    exists|k: int|
        0 <= k && k + 6 <= link.len() && #[trigger] link.subrange(k, k + 6) == shorts_marker()
}

/// Reports whether a link contains the short-form marker substring.
pub fn contains_shorts(link: &str) -> (r: bool)
    ensures
        r == spec_is_short(link@),
{
    let n: usize = link.unicode_len();
    if n < 6 {
        return false;
    }
    let mut k: usize = 0;
    while k <= n - 6
        invariant
            6 <= n,
            n == link@.len(),
            k <= n - 6 + 1,
            forall|j: int|
                0 <= j < k ==> #[trigger] link@.subrange(j, j + 6) != shorts_marker(),
        decreases n - k,
    {
        let c0 = link.get_char(k);
        let c1 = link.get_char(k + 1);
        let c2 = link.get_char(k + 2);
        let c3 = link.get_char(k + 3);
        let c4 = link.get_char(k + 4);
        let c5 = link.get_char(k + 5);
        if c0 == 's' && c1 == 'h' && c2 == 'o' && c3 == 'r' && c4 == 't' && c5 == 's' {
            proof {
                assert(link@.subrange(k as int, k as int + 6) =~= shorts_marker());
            }
            return true;
        }
        proof {
            assert(link@.subrange(k as int, k as int + 6)[0] == c0);
            assert(link@.subrange(k as int, k as int + 6)[1] == c1);
            assert(link@.subrange(k as int, k as int + 6)[2] == c2);
            assert(link@.subrange(k as int, k as int + 6)[3] == c3);
            assert(link@.subrange(k as int, k as int + 6)[4] == c4);
            assert(link@.subrange(k as int, k as int + 6)[5] == c5);
            assert(link@.subrange(k as int, k as int + 6) != shorts_marker());
        }
        k = k + 1;
    }
    false
}

/// The candidate assembled from one container's raw fields: absent fields
/// degrade to the empty string and the duration text is normalized.
pub open spec fn spec_candidate_of(r: RawContainerView) -> CandidateView {
    CandidateView {
        title: text_or_empty(r.title),
        channel: text_or_empty(r.channel),
        duration: spec_normalize_duration(text_or_empty(r.duration_text)),
        link: text_or_empty(r.link),
    }
}

/// Assembles one candidate from a container's raw fields. A missing field
/// never fails the container: it yields the empty string.
pub fn assemble_candidate(raw: &RawContainer) -> (c: Candidate)
    ensures
        c@ == spec_candidate_of(raw@),
{
    let duration = match &raw.duration_text {
        Option::Some(s) => normalize_duration(s.as_str()),
        Option::None => String::new(),
    };
    let title = match &raw.title {
        Option::Some(s) => s.clone(),
        Option::None => String::new(),
    };
    let link = match &raw.link {
        Option::Some(s) => s.clone(),
        Option::None => String::new(),
    };
    let channel = match &raw.channel {
        Option::Some(s) => s.clone(),
        Option::None => String::new(),
    };
    let c = Candidate { title, channel, duration, link };
    proof {
        assert(c@ =~= spec_candidate_of(raw@));
    }
    c
}

/// Names one of the four per-container fields, for diagnostics about which
/// sub-element lookups came up empty.
#[derive(PartialEq, Eq, Structural, Clone, Copy, Debug)]
pub enum FieldName {
    Duration,
    Title,
    Link,
    Channel,
}

/// The fields absent from a container's raw data, in the fixed order
/// duration, title, link, channel.
pub open spec fn spec_absent_fields(r: RawContainerView) -> Seq<FieldName> {
    (if r.duration_text is None {
        seq![FieldName::Duration]
    } else {
        Seq::empty()
    }) + (if r.title is None {
        seq![FieldName::Title]
    } else {
        Seq::empty()
    }) + (if r.link is None {
        seq![FieldName::Link]
    } else {
        Seq::empty()
    }) + (if r.channel is None {
        seq![FieldName::Channel]
    } else {
        Seq::empty()
    })
}

/// Lists the fields whose sub-element lookup found nothing, so a caller can
/// log one diagnostic per missing field.
pub fn absent_fields(raw: &RawContainer) -> (v: Vec<FieldName>)
    ensures
        v@ == spec_absent_fields(raw@),
{
    let mut v: Vec<FieldName> = Vec::new();
    if raw.duration_text.is_none() {
        v.push(FieldName::Duration);
    }
    if raw.title.is_none() {
        v.push(FieldName::Title);
    }
    if raw.link.is_none() {
        v.push(FieldName::Link);
    }
    if raw.channel.is_none() {
        v.push(FieldName::Channel);
    }
    proof {
        assert(v@ =~= spec_absent_fields(raw@));
    }
    v
}

} // verus!
