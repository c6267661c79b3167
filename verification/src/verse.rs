//! The verse data model and the merge of remote verse fragments into one
//! titled verse.

use vstd::prelude::*;
use vstd::string::StringExecFns;
use crate::numerals::{i32_dec_seq, i32_to_dec, numeral_val, parse_i32, parses_to_i32};

verus! {

/// A resolved verse: a display title and the passage text.
#[derive(Debug, Clone, PartialEq, Eq)]
pub struct Verse {
    pub title: String,
    pub text: String,
}

/// One verse-numbered unit of the remote response: book and chapter names
/// the fragment belongs to, its verse number (as a numeral string, like the
/// chapter), and its share of the passage text.
#[derive(Debug, Clone, PartialEq, Eq)]
pub struct Fragment {
    pub bookname: String,
    pub chapter: String,
    pub verse: String,
    pub text: String,
}

/// Why a fetch could not produce a verse.
#[derive(Debug, Clone, PartialEq, Eq)]
pub enum FetchError {
    /// The request exceeded the configured timeout.
    Timeout,
    /// The remote service answered with a failure status, typically for an
    /// unrecognized passage.
    RemoteRejected,
    /// The remote service could not be reached at all.
    ConnectionFailed,
    /// The response carried zero fragments.
    Empty,
    /// A chapter or verse field did not parse as an integer.
    MalformedData,
}

/// The numeric fields the title depends on all parse as 32-bit integers.
pub open spec fn frags_parseable(fs: Seq<Fragment>) -> bool {
    &&& parses_to_i32(fs[0].chapter@)
    &&& parses_to_i32(fs[0].verse@)
    &&& parses_to_i32(fs[fs.len() - 1].verse@)
}

/// The fixed title grammar: `"{book} {chapter}:{start}"` for a single verse,
/// `"{book} {chapter}:{start}-{end}"` for a range.
pub open spec fn spec_title(book: Seq<char>, chapter: int, vstart: int, vend: int) -> Seq<char> {
    if vstart == vend {
        book + seq![' '] + i32_dec_seq(chapter) + seq![':'] + i32_dec_seq(vstart)
    } else {
        book + seq![' '] + i32_dec_seq(chapter) + seq![':'] + i32_dec_seq(vstart) + seq!['-']
            + i32_dec_seq(vend)
    }
}

/// The title a fragment sequence yields: book and chapter from the first
/// fragment, the verse range from the first and last fragments.
pub open spec fn frags_title(fs: Seq<Fragment>) -> Seq<char> {
    spec_title(
        fs[0].bookname@,
        numeral_val(fs[0].chapter@),
        numeral_val(fs[0].verse@),
        numeral_val(fs[fs.len() - 1].verse@),
    )
}

/// The passage text: each fragment's text concatenated in response order,
/// with no added separator.
pub open spec fn frags_text(fs: Seq<Fragment>) -> Seq<char>
    decreases fs.len(),
{
    if fs.len() == 0 {
        Seq::empty()
    } else {
        frags_text(fs.drop_last()) + fs.last().text@
    }
}

/// Merge an ordered, non-empty fragment sequence into one verse. An empty
/// sequence is the remote contract violation `Empty`; a chapter or verse
/// field that is no integer numeral is `MalformedData`.
pub fn verse_from_fragments(fragments: &Vec<Fragment>) -> (r: Result<Verse, FetchError>)
    ensures
        r is Ok <==> fragments@.len() > 0 && frags_parseable(fragments@),
        fragments@.len() == 0 ==> r == Result::<Verse, FetchError>::Err(FetchError::Empty),
        fragments@.len() > 0 && !frags_parseable(fragments@) ==> r == Result::<
            Verse,
            FetchError,
        >::Err(FetchError::MalformedData),
        r is Ok ==> r.unwrap().title@ == frags_title(fragments@) && r.unwrap().text@ == frags_text(
            fragments@,
        ),
{
    if fragments.len() == 0 {
        return Err(FetchError::Empty);
    }
    let chapter = match parse_i32(fragments[0].chapter.as_str()) {
        Some(c) => c,
        None => {
            return Err(FetchError::MalformedData);
        },
    };
    let vstart = match parse_i32(fragments[0].verse.as_str()) {
        Some(v) => v,
        None => {
            return Err(FetchError::MalformedData);
        },
    };
    let vend = match parse_i32(fragments[fragments.len() - 1].verse.as_str()) {
        Some(v) => v,
        None => {
            return Err(FetchError::MalformedData);
        },
    };
    let mut title = fragments[0].bookname.clone();
    title.append(" ");
    let chapter_str = i32_to_dec(chapter);
    title.append(chapter_str.as_str());
    title.append(":");
    let vstart_str = i32_to_dec(vstart);
    title.append(vstart_str.as_str());
    if vstart != vend {
        title.append("-");
        let vend_str = i32_to_dec(vend);
        title.append(vend_str.as_str());
    }
    proof {
        reveal_strlit(" ");
        reveal_strlit(":");
        reveal_strlit("-");
        assert(title@ =~= frags_title(fragments@));
    }
    let mut text = String::new();
    let mut i: usize = 0;
    while i < fragments.len()
        invariant
            i <= fragments@.len(),
            text@ == frags_text(fragments@.subrange(0, i as int)),
        decreases fragments@.len() - i,
    {
        text.append(fragments[i].text.as_str());
        i = i + 1;
        proof {
            let p = fragments@.subrange(0, i as int);
            assert(p.drop_last() =~= fragments@.subrange(0, i - 1));
            assert(p.last() == fragments@[i - 1]);
        }
    }
    proof {
        assert(fragments@.subrange(0, fragments@.len() as int) =~= fragments@);
    }
    Ok(Verse { title, text })
}

/// The one-line diagnostic for a fetch failure.
pub open spec fn spec_error_message(e: FetchError) -> Seq<char> {
    match e {
        FetchError::Timeout => "Error: timeout exceeded"@,
        FetchError::RemoteRejected => "Server returned an error; is the verse you requested valid?"@,
        FetchError::ConnectionFailed => "Couldn't connect to server; are you connected to the Internet?"@,
        FetchError::Empty => "Error: no verses were returned"@,
        FetchError::MalformedData => "Error: chapter and verse numbers should be valid integers"@,
    }
}

pub fn error_message(e: &FetchError) -> (r: String)
    ensures
        r@ == spec_error_message(*e),
{
    match e {
        FetchError::Timeout => "Error: timeout exceeded".to_owned(),
        FetchError::RemoteRejected => "Server returned an error; is the verse you requested valid?".to_owned(),
        FetchError::ConnectionFailed => "Couldn't connect to server; are you connected to the Internet?".to_owned(),
        FetchError::Empty => "Error: no verses were returned".to_owned(),
        FetchError::MalformedData => "Error: chapter and verse numbers should be valid integers".to_owned(),
    }
}

} // verus!
