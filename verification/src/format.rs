//! Title-line rendering and the joining of caller-supplied passage words.
//! Body wrapping to the terminal width stays outside the library.

use vstd::prelude::*;
use vstd::string::StringExecFns;

verus! {

/// The label appended after the title: the translation when asked for,
/// the verse-of-the-day marker when no passage was named, nothing for an
/// explicit passage without the translation.
pub open spec fn spec_title_suffix(show_translation: bool, explicit_passage: bool) -> Seq<char> {
    if show_translation {
        if explicit_passage {
            " (NET)"@
        } else {
            " (Verse of the Day - NET)"@
        }
    } else if !explicit_passage {
        " (Verse of the Day)"@
    } else {
        Seq::empty()
    }
}

/// The full title line: the verse's title followed by its suffix.
pub fn title_line(title: &str, show_translation: bool, explicit_passage: bool) -> (r: String)
    ensures
        r@ == title@ + spec_title_suffix(show_translation, explicit_passage),
{
    let mut line = title.to_owned();
    if show_translation {
        if explicit_passage {
            line.append(" (NET)");
        } else {
            line.append(" (Verse of the Day - NET)");
        }
    } else if !explicit_passage {
        line.append(" (Verse of the Day)");
    }
    proof {
        assert(line@ =~= title@ + spec_title_suffix(show_translation, explicit_passage));
    }
    line
}

/// The title line, or nothing at all when the title is suppressed.
pub fn rendered_title(
    title: &str,
    suppress_title: bool,
    show_translation: bool,
    explicit_passage: bool,
) -> (r: Option<String>)
    ensures
        r is None <==> suppress_title,
        r is Some ==> r.unwrap()@ == title@ + spec_title_suffix(show_translation, explicit_passage),
{
    if suppress_title {
        None
    } else {
        Some(title_line(title, show_translation, explicit_passage))
    }
}

/// The words joined with single spaces, in order.
pub open spec fn spec_joined(words: Seq<Seq<char>>) -> Seq<char>
    decreases words.len(),
{
    if words.len() == 0 {
        Seq::empty()
    } else if words.len() == 1 {
        words[0]
    } else {
        spec_joined(words.drop_last()) + seq![' '] + words.last()
    }
}

/// Join the caller's free-form passage words into one passage string;
/// no words at all means the verse of the day.
pub fn join_words(words: &Vec<String>) -> (r: Option<String>)
    ensures
        r is None <==> words@.len() == 0,
        r is Some ==> r.unwrap()@ == spec_joined(words@.map_values(|w: String| w@)),
{
    if words.len() == 0 {
        return None;
    }
    let ghost ws = words@.map_values(|w: String| w@);
    let mut out = words[0].clone();
    proof {
        assert(ws[0] == words@[0]@);
        assert(ws.subrange(0, 1) =~= seq![ws[0]]);
    }
    let mut i: usize = 1;
    while i < words.len()
        invariant
            1 <= i <= words@.len(),
            ws == words@.map_values(|w: String| w@),
            out@ == spec_joined(ws.subrange(0, i as int)),
        decreases words@.len() - i,
    {
        out.append(" ");
        out.append(words[i].as_str());
        i = i + 1;
        proof {
            reveal_strlit(" ");
            let p = ws.subrange(0, i as int);
            assert(p.drop_last() =~= ws.subrange(0, i - 1));
            assert(p.last() == words@[i - 1]@);
            assert(out@ =~= spec_joined(p));
        }
    }
    proof {
        assert(ws.subrange(0, ws.len() as int) =~= ws);
    }
    Some(out)
}

} // verus!
