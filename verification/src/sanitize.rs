//! Turning free-text song queries into URL-safe search strings.
//!
//! A fixed, ordered table of character substitutions makes the user's text
//! safe for embedding as a URL query parameter value. The table replaces each
//! special character with a percent-encoded form and, last of all, each space
//! with `+`. Because no replacement string contains a character that the
//! table itself replaces, running the table's passes in order over the whole
//! string is the same as encoding every character independently, and the
//! specification below states that per-character form.

use vstd::prelude::*;
use vstd::string::StrSliceExecFns;
use vstd::string::StringExecFns;

verus! {

/// The fixed encoding of one query character: characters with special meaning
/// inside a URL query value map to their percent-encoded form, a space maps
/// to `+`, and every other character passes through unchanged.
pub open spec fn char_encoding(c: char) -> Seq<char> {
    if c == ',' {
        seq!['%', '2', 'C']
    } else if c == '?' {
        seq!['%', '3', 'F']
    } else if c == '&' {
        seq!['%', '2', '6']
    } else if c == '/' {
        seq!['%', '2', 'F']
    } else if c == '+' {
        seq!['%', '3', 'D']
    } else if c == '=' {
        seq!['%', '2', 'B']
    } else if c == '$' {
        seq!['%', '2', '4']
    } else if c == '@' {
        seq!['%', '4', '0']
    } else if c == ' ' {
        seq!['+']
    } else {
        seq![c]
    }
}

/// The sanitized form of a whole query: the concatenation of the encodings of
/// its characters, in order.
pub open spec fn spec_sanitize(s: Seq<char>) -> Seq<char>
    decreases s.len(),
{
    if s.len() == 0 {
        Seq::empty()
    } else {
        spec_sanitize(s.drop_last()) + char_encoding(s.last())
    }
}

/// Applies the substitution table to a raw query, producing a string safe for
/// use as a URL query parameter value. Pure: characters outside the table
/// pass through unchanged and nothing else is escaped.
pub fn sanitize(raw: &str) -> (r: String)
    ensures
        r@ == spec_sanitize(raw@),
{
    let n: usize = raw.unicode_len();
    let mut out: Vec<char> = Vec::new();
    let mut i: usize = 0;
    while i < n
        invariant
            n == raw@.len(),
            i <= n,
            out@ == spec_sanitize(raw@.take(i as int)),
        decreases n - i,
    {
        let c = raw.get_char(i);
        proof {
            assert(raw@.take(i as int + 1).drop_last() =~= raw@.take(i as int));
            assert(raw@.take(i as int + 1).last() == raw@[i as int]);
        }
        match c {
            ',' => {
                out.push('%');
                out.push('2');
                out.push('C');
            },
            '?' => {
                out.push('%');
                out.push('3');
                out.push('F');
            },
            '&' => {
                out.push('%');
                out.push('2');
                out.push('6');
            },
            '/' => {
                out.push('%');
                out.push('2');
                out.push('F');
            },
            '+' => {
                out.push('%');
                out.push('3');
                out.push('D');
            },
            '=' => {
                out.push('%');
                out.push('2');
                out.push('B');
            },
            '$' => {
                out.push('%');
                out.push('2');
                out.push('4');
            },
            '@' => {
                out.push('%');
                out.push('4');
                out.push('0');
            },
            ' ' => {
                out.push('+');
            },
            _ => {
                out.push(c);
            },
        }
        proof {
            assert(out@ =~= spec_sanitize(raw@.take(i as int)) + char_encoding(c));
        }
        i = i + 1;
    }
    proof {
        assert(raw@.take(n as int) =~= raw@);
    }
    crate::chars_to_string(&out)
}

/// The full URL navigated to for a query: the fixed search endpoint prefix
/// with the sanitized query appended as the single query parameter value.
pub open spec fn spec_search_url(q: Seq<char>) -> Seq<char> {
    "https://www.youtube.com/results?search_query="@ + spec_sanitize(q)
}

/// Builds the search results URL for a raw query.
pub fn search_url(raw: &str) -> (r: String)
    ensures
        r@ == spec_search_url(raw@),
{
    let prefix = String::from_str("https://www.youtube.com/results?search_query=");
    let q = sanitize(raw);
    prefix.concat(q.as_str())
}

/// A character that the substitution table replaces and whose raw form never
/// survives sanitization. The `+` character is replaced too, but it can
/// reappear in output as the encoding of a space, so it is excluded here.
pub open spec fn is_erased_char(c: char) -> bool {
    c == ',' || c == '?' || c == '&' || c == '/' || c == '=' || c == '$' || c == '@' || c == ' '
}

/// For every raw query, the sanitized output contains none of the replaced
/// characters in their original form: every occurrence was substituted, and
/// no replacement string reintroduces one. (Of the table's characters only
/// `+` can appear in output at all, and only as the encoding of a space.)
pub proof fn lemma_sanitize_erases_specials(s: Seq<char>)
    ensures
        forall|i: int|
            0 <= i < spec_sanitize(s).len() ==> !is_erased_char(
                #[trigger] spec_sanitize(s)[i],
            ),
    decreases s.len(),
{
    if s.len() == 0 {
    } else {
        lemma_sanitize_erases_specials(s.drop_last());
        let front = spec_sanitize(s.drop_last());
        let e = char_encoding(s.last());
        assert forall|i: int| 0 <= i < spec_sanitize(s).len() implies !is_erased_char(
            spec_sanitize(s)[i],
        ) by {
            if i < front.len() {
                assert(spec_sanitize(s)[i] == front[i]);
            } else {
                assert(spec_sanitize(s)[i] == e[i - front.len()]);
            }
        }
    }
}

} // verus!
