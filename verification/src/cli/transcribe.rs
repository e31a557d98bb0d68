//! From the segments that the recognition gives to the text that is shown.

use crate::text::{is_white_space, lemma_trimmed, texts, trim, trimmed};
use vstd::prelude::*;
use vstd::string::StringExecFns;

verus! {

/// The text that stands for a stretch of audio without speech.
pub const BLANK_AUDIO: &'static str = "[BLANK_AUDIO]";

/// Whether a trimmed segment goes into the text: it does unless it is empty
/// or the mark of blank audio.
pub open spec fn is_speech(piece: Seq<char>) -> bool {
    piece.len() > 0 && piece != BLANK_AUDIO@
}

/// The text with one more trimmed segment: where the segment is speech it is
/// added, behind a blank unless it is the first.
pub open spec fn with_piece(text: Seq<char>, piece: Seq<char>) -> Seq<char> {
    if !is_speech(piece) {
        text
    } else if text.len() == 0 {
        piece
    } else {
        text + " "@ + piece
    }
}

/// The segments that are speech, each trimmed, with one blank between two.
pub open spec fn joined(segments: Seq<Seq<char>>) -> Seq<char>
    decreases segments.len(),
{
    if segments.len() == 0 {
        Seq::empty()
    } else {
        with_piece(joined(segments.drop_last()), trimmed(segments.last()))
    }
}

/// Adds a trimmed segment to the text.
pub fn push_segment(text: &mut String, piece: &str)
    ensures
        final(text)@ == with_piece(old(text)@, piece@),
{
    if piece.is_empty() || String::from_str(piece) == String::from_str(BLANK_AUDIO) {
        return;
    }
    if !text.as_str().is_empty() {
        text.append(" ");
    }
    text.append(piece);
}

/// The text of a transcription: the segments that are speech, trimmed and
/// set apart by single blanks.
pub fn transcript(segments: &[String]) -> (text: String)
    ensures
        text@ == joined(texts(segments@)),
{
    let n = segments.len();
    let mut text = String::new();
    let mut i: usize = 0;
    while i < n
        invariant
            n == segments@.len(),
            i <= n,
            text@ == joined(texts(segments@).take(i as int)),
        decreases n - i,
    {
        push_segment(&mut text, trim(segments[i].as_str()));
        proof {
            let all = texts(segments@);
            assert(all.take(i + 1).drop_last() =~= all.take(i as int));
        }
        i += 1;
    }
    assert(texts(segments@).take(n as int) =~= texts(segments@));
    text
}

/// Speech is not lost and nothing is made up: with one segment more, the text
/// is what it was, or what it was with the segment's speech behind a blank.
pub proof fn lemma_joined_grows(segments: Seq<Seq<char>>, next: Seq<char>)
    ensures
        !is_speech(trimmed(next)) ==> joined(segments.push(next)) == joined(segments),
        is_speech(trimmed(next)) && joined(segments).len() == 0 ==> joined(segments.push(next))
            == trimmed(next),
        is_speech(trimmed(next)) && joined(segments).len() > 0 ==> joined(segments.push(next))
            == joined(segments) + " "@ + trimmed(next),
{
    assert(segments.push(next).drop_last() =~= segments);
}

/// The text has no white space at its ends.
pub proof fn lemma_joined_is_trimmed(segments: Seq<Seq<char>>)
    ensures
        joined(segments).len() > 0 ==> !is_white_space(joined(segments).first())
            && !is_white_space(joined(segments).last()),
    decreases segments.len(),
{
    if segments.len() > 0 {
        lemma_joined_is_trimmed(segments.drop_last());
        lemma_trimmed(segments.last());
        let before = joined(segments.drop_last());
        let piece = trimmed(segments.last());
        if is_speech(piece) && before.len() > 0 {
            assert((before + " "@ + piece).first() == before.first());
            assert((before + " "@ + piece).last() == piece.last());
        }
    }
}

} // verus!
