//! Transcript post-processing: whitespace cleanup and sentence shaping for
//! raw engine output, duplicate suppression, and the selection rule that
//! decides which transcripts are forwarded to collaborators.

use vstd::prelude::*;

use crate::text::{
    chars_of, is_space, is_space_char, lower_of, push_char, to_lowercase, trim_spec, trim_str,
    upper_first_of, uppercase_char, view_opt_str, view_opt_string,
};

verus! {

/// One step of whitespace-run collapsing: whitespace becomes a single `' '`
/// separator between words; leading whitespace and repeated separators are
/// dropped.
pub open spec fn collapse_step(acc: Seq<char>, c: char) -> Seq<char> {
    if is_space_char(c) {
        if acc.len() > 0 && acc.last() != ' ' {
            acc.push(' ')
        } else {
            acc
        }
    } else {
        acc.push(c)
    }
}

/// Whitespace-run collapsing applied to the first `i` characters of `s`.
pub open spec fn collapse_prefix(s: Seq<char>, i: int) -> Seq<char>
    decreases i,
{
    if i <= 0 {
        Seq::empty()
    } else {
        collapse_step(collapse_prefix(s, i - 1), s[i - 1])
    }
}

/// The text with every whitespace run collapsed to a single space and the
/// ends trimmed.
pub open spec fn collapsed(s: Seq<char>) -> Seq<char> {
    let t = collapse_prefix(s, s.len() as int);
    if t.len() > 0 && t.last() == ' ' {
        t.drop_last()
    } else {
        t
    }
}

/// What [`normalize_transcript`] returns: collapsed whitespace, the first
/// character uppercased, and a terminal `'.'` appended unless the text
/// already ends in `'.'`, `'!'` or `'?'`.
pub open spec fn normalize_spec(s: Seq<char>) -> Seq<char> {
    let c = collapsed(s);
    if c.len() == 0 {
        Seq::empty()
    } else {
        let sentence = upper_first_of(c[0]) + c.drop_first();
        if sentence.len() > 0 && (sentence.last() == '.' || sentence.last() == '!'
            || sentence.last() == '?') {
            sentence
        } else {
            sentence.push('.')
        }
    }
}

/// Clean up a raw transcript: collapse internal whitespace runs to single
/// spaces, trim the ends, uppercase the first character, and close the
/// sentence with `'.'` when no terminal punctuation is present.
pub fn normalize_transcript(input: &str) -> (r: String)
    ensures
        r@ == normalize_spec(input@),
{
    let v = chars_of(input);
    let n = v.len();
    let mut col: Vec<char> = Vec::new();
    let mut i: usize = 0;
    while i < n
        invariant
            i <= n,
            n == v@.len(),
            v@ == input@,
            col@ == collapse_prefix(input@, i as int),
        decreases n - i,
    {
        let c = v[i];
        if is_space(c) {
            if col.len() > 0 && col[col.len() - 1] != ' ' {
                col.push(' ');
            }
        } else {
            col.push(c);
        }
        i += 1;
    }
    if col.len() > 0 && col[col.len() - 1] == ' ' {
        let _ = col.pop();
        assert(col@ =~= collapsed(input@));
    }
    assert(col@ == collapsed(input@));
    if col.len() == 0 {
        let r = String::new();
        assert(r@ =~= normalize_spec(input@));
        return r;
    }
    let mut out = uppercase_char(col[0]);
    let mut j: usize = 1;
    while j < col.len()
        invariant
            1 <= j <= col@.len(),
            col@ == collapsed(input@),
            col@.len() > 0,
            out@ == upper_first_of(col@[0]) + col@.subrange(1, j as int),
            out@.len() >= 1,
        decreases col@.len() - j,
    {
        push_char(&mut out, col[j]);
        assert(out@ =~= upper_first_of(col@[0]) + col@.subrange(1, j + 1));
        j += 1;
    }
    proof {
        assert(col@.subrange(1, col@.len() as int) =~= col@.drop_first());
    }
    let len = out.as_str().unicode_len();
    let last = out.as_str().get_char(len - 1);
    if last == '.' || last == '!' || last == '?' {
        out
    } else {
        push_char(&mut out, '.');
        out
    }
}

/// The key duplicate detection compares: the text trimmed, then lowercased.
pub open spec fn dup_key(s: Seq<char>) -> Seq<char> {
    lower_of(trim_spec(s))
}

/// What [`is_duplicate_transcript`] returns: an empty current value is
/// always a duplicate; otherwise the trimmed, lowercased texts must match.
pub open spec fn is_duplicate_spec(prev: Option<Seq<char>>, cur: Seq<char>) -> bool {
    if dup_key(cur).len() == 0 {
        true
    } else {
        match prev {
            Some(p) => dup_key(p) == dup_key(cur),
            None => false,
        }
    }
}

/// Case-insensitive, trimmed duplicate test against the previously accepted
/// transcript. An empty current value is always treated as a duplicate.
pub fn is_duplicate_transcript(previous: Option<&str>, current: &str) -> (r: bool)
    ensures
        r == is_duplicate_spec(view_opt_str(previous), current@),
{
    let current_trimmed = trim_str(current);
    let current_key = to_lowercase(current_trimmed.as_str());
    if current_key.as_str().unicode_len() == 0 {
        return true;
    }
    match previous {
        Some(p) => {
            let previous_trimmed = trim_str(p);
            let previous_key = to_lowercase(previous_trimmed.as_str());
            previous_key == current_key
        },
        None => false,
    }
}

/// Whether [`select_fresh_transcript`] forwards a raw transcript: it must be
/// present, normalize to non-empty text, and not duplicate the last accepted
/// transcript.
pub open spec fn is_fresh(last: Option<Seq<char>>, raw: Option<Seq<char>>) -> bool {
    match raw {
        Some(t) => {
            let nv = normalize_spec(t);
            nv.len() > 0 && !is_duplicate_spec(last, nv)
        },
        None => false,
    }
}

/// Normalize a raw transcript and forward it only when it is non-empty and
/// not a duplicate of the last accepted transcript; on acceptance the
/// retained transcript is updated.
pub fn select_fresh_transcript(
    last_transcript: &mut Option<String>,
    raw_transcript: Option<String>,
) -> (r: Option<String>)
    ensures
        is_fresh(view_opt_string(*old(last_transcript)), view_opt_string(raw_transcript)) ==> {
            &&& r is Some
            &&& raw_transcript is Some
            &&& r->0@ == normalize_spec(raw_transcript->0@)
            &&& *final(last_transcript) is Some
            &&& final(last_transcript)->0@ == normalize_spec(raw_transcript->0@)
        },
        !is_fresh(view_opt_string(*old(last_transcript)), view_opt_string(raw_transcript)) ==> {
            &&& r is None
            &&& *final(last_transcript) == *old(last_transcript)
        },
{
    match raw_transcript {
        Some(raw) => {
            let value = normalize_transcript(raw.as_str());
            if value.as_str().unicode_len() == 0 {
                return None;
            }
            let duplicate = is_duplicate_transcript(
                match last_transcript.as_ref() {
                    Some(l) => Some(l.as_str()),
                    None => None,
                },
                value.as_str(),
            );
            if duplicate {
                None
            } else {
                let forwarded = value.clone();
                *last_transcript = Some(value);
                Some(forwarded)
            }
        },
        None => None,
    }
}

} // verus!
