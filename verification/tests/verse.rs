use votd_cli::verse::{error_message, verse_from_fragments, FetchError, Fragment};

fn frag(bookname: &str, chapter: &str, verse: &str, text: &str) -> Fragment {
    Fragment {
        bookname: bookname.to_string(),
        chapter: chapter.to_string(),
        verse: verse.to_string(),
        text: text.to_string(),
    }
}

#[test]
fn single_fragment_title_has_no_range() {
    let frags = vec![frag("John", "3", "16", "For God so loved...")];
    let verse = verse_from_fragments(&frags).unwrap();
    assert_eq!(verse.title, "John 3:16");
    assert_eq!(verse.text, "For God so loved...");
}

#[test]
fn multi_fragment_title_spans_first_to_last() {
    let frags = vec![
        frag("John", "3", "16", "For God so loved the world... "),
        frag("John", "3", "17", "For God did not send his Son..."),
    ];
    let verse = verse_from_fragments(&frags).unwrap();
    assert_eq!(verse.title, "John 3:16-17");
    assert_eq!(
        verse.text,
        "For God so loved the world... For God did not send his Son..."
    );
}

#[test]
fn three_fragments_concatenate_in_order() {
    let frags = vec![
        frag("Psalms", "23", "1", "first "),
        frag("Psalms", "23", "2", "second "),
        frag("Psalms", "23", "3", "third"),
    ];
    let verse = verse_from_fragments(&frags).unwrap();
    assert_eq!(verse.title, "Psalms 23:1-3");
    assert_eq!(verse.text, "first second third");
}

#[test]
fn empty_response_is_empty_error() {
    let frags: Vec<Fragment> = vec![];
    assert_eq!(verse_from_fragments(&frags), Err(FetchError::Empty));
}

#[test]
fn unparsable_chapter_is_malformed() {
    let frags = vec![frag("John", "three", "16", "text")];
    assert_eq!(verse_from_fragments(&frags), Err(FetchError::MalformedData));
}

#[test]
fn unparsable_verse_number_is_malformed() {
    let frags = vec![
        frag("John", "3", "16", "a"),
        frag("John", "3", "x", "b"),
    ];
    assert_eq!(verse_from_fragments(&frags), Err(FetchError::MalformedData));
}

#[test]
fn numerals_are_normalized_in_title() {
    let frags = vec![frag("John", "03", "007", "text")];
    let verse = verse_from_fragments(&frags).unwrap();
    assert_eq!(verse.title, "John 3:7");
}

#[test]
fn equal_first_and_last_verse_numbers_collapse_range() {
    // both fragments carry the same verse number, so the range collapses
    let frags = vec![frag("John", "3", "16", "a"), frag("John", "3", "16", "b")];
    let verse = verse_from_fragments(&frags).unwrap();
    assert_eq!(verse.title, "John 3:16");
    assert_eq!(verse.text, "ab");
}

#[test]
fn error_messages_name_each_failure() {
    assert_eq!(error_message(&FetchError::Timeout), "Error: timeout exceeded");
    assert_eq!(
        error_message(&FetchError::RemoteRejected),
        "Server returned an error; is the verse you requested valid?"
    );
    assert_eq!(
        error_message(&FetchError::ConnectionFailed),
        "Couldn't connect to server; are you connected to the Internet?"
    );
    assert_eq!(error_message(&FetchError::Empty), "Error: no verses were returned");
    assert_eq!(
        error_message(&FetchError::MalformedData),
        "Error: chapter and verse numbers should be valid integers"
    );
}
