use vstd::prelude::*;
use vstd::string::StrSliceExecFns;
use vstd::string::StringExecFns;

verus! {

/// An encoded message as it goes on the wire: the text, then a line feed.
pub open spec fn framed(text: Seq<char>) -> Seq<char> {
    text.push('\n')
}

/// The text of a line as it came off the wire: the line without its last
/// character.
pub open spec fn unframed(line: Seq<char>) -> Seq<char> {
    if line.len() == 0 {
        line
    } else {
        line.drop_last()
    }
}

/// Frames an encoded message for the wire.
pub fn frame(encoded: String) -> (line: String)
    ensures
        line@ == framed(encoded@),
{
    proof {
        reveal_strlit("\n");
    }
    let mut line = encoded;
    line.append("\n");
    assert(line@ =~= framed(encoded@));
    line
}

/// Takes the frame off a line read from the wire.
pub fn unframe(line: &str) -> (encoded: String)
    ensures
        encoded@ == unframed(line@),
{
    let length = line.unicode_len();
    if length == 0 {
        return String::from_str(line);
    }
    let text = line.substring_char(0, length - 1);
    assert(text@ =~= line@.drop_last());
    String::from_str(text)
}

/// What is framed and then unframed is what it was.
pub proof fn lemma_unframe_frame(text: Seq<char>)
    ensures
        unframed(framed(text)) == text,
{
    assert(framed(text).drop_last() =~= text);
}

/// A frame holds one line: the line feed that ends it is the only one,
/// where the text holds none.
pub proof fn lemma_frame_is_one_line(text: Seq<char>)
    requires
        !text.contains('\n'),
    ensures
        framed(text).last() == '\n',
        forall|i: int| 0 <= i < framed(text).len() - 1 ==> framed(text)[i] != '\n',
{
    assert forall|i: int| 0 <= i < framed(text).len() - 1 implies framed(text)[i] != '\n' by {
        assert(framed(text)[i] == text[i]);
        assert(text.contains(text[i]));
    }
}

} // verus!
