//! The title of the track: decoding it and fitting it on the display.

use vstd::prelude::*;
use vstd::slice::slice_subrange;
use vstd::string::StringExecFns;
use vstd::utf8::{
    decode_utf8, decode_utf8_encode_utf8, decode_utf8_split, encode_utf8, encode_utf8_decode_utf8,
    encode_utf8_valid_utf8, is_ascii_chars_encode_utf8, is_char_boundary, valid_utf8,
    valid_utf8_split,
};

verus! {

/// Longest title, in bytes of UTF-8, that is shown whole.
pub const TITLE_MAX: usize = 15;

/// How many bytes of a longer title are shown, in front of an ellipsis.
pub const TITLE_KEPT: usize = 12;

/// Calls `core::str::from_utf8`. Taken on trust: it succeeds exactly on valid
/// UTF-8, and then gives the characters that the bytes encode.
#[verifier::external_body]
fn str_from_utf8(bytes: &[u8]) -> (text: Option<&str>)
    ensures
        text is Some <==> valid_utf8(bytes@),
        text matches Some(text) ==> text@ == decode_utf8(bytes@),
{
    core::str::from_utf8(bytes).ok()
}

/// The text that `bytes` encode in UTF-8; no text when they are not valid.
pub open spec fn text_of(bytes: Seq<u8>) -> Seq<char> {
    if valid_utf8(bytes) {
        decode_utf8(bytes)
    } else {
        Seq::empty()
    }
}

/// The title that was read into the first `amount` bytes of `data`, empty when
/// they are not valid UTF-8.
pub fn track_title(data: &[u8], amount: usize) -> (title: &str)
    requires
        amount <= data@.len(),
    ensures
        title@ == text_of(data@.subrange(0, amount as int)),
        valid_utf8(data@.subrange(0, amount as int)) ==> encode_utf8(title@) == data@.subrange(
            0,
            amount as int,
        ),
        !valid_utf8(data@.subrange(0, amount as int)) ==> title@.len() == 0,
{
    proof {
        if valid_utf8(data@.subrange(0, amount as int)) {
            decode_utf8_encode_utf8(data@.subrange(0, amount as int));
        }
    }
    match str_from_utf8(slice_subrange(data, 0, amount)) {
        Some(title) => title,
        None => {
            proof {
                reveal_strlit("");
            }
            ""
        },
    }
}

/// Whether the title can be shortened for the display: a title that is too long
/// has to have a character boundary where it is cut.
pub open spec fn can_show(title: Seq<char>) -> bool {
    let bytes = encode_utf8(title);
    bytes.len() > TITLE_MAX ==> is_char_boundary(bytes, TITLE_KEPT as int)
}

/// The text shown for a title.
pub open spec fn shown_title(title: Seq<char>) -> Seq<char> {
    let bytes = encode_utf8(title);
    if bytes.len() > TITLE_MAX {
        decode_utf8(bytes.subrange(0, TITLE_KEPT as int)) + seq!['.', '.', '.']
    } else {
        title
    }
}

/// The text shown for a title: the title itself, or its first bytes and an
/// ellipsis when it is too long.
pub fn display_text(title: &str) -> (text: String)
    requires
        can_show(title@),
    ensures
        text@ == shown_title(title@),
        encode_utf8(title@).len() <= 15 ==> text@ == title@,
        encode_utf8(title@).len() > 15 ==> encode_utf8(text@) == encode_utf8(title@).subrange(0, 12)
            + seq![0x2eu8, 0x2e, 0x2e],
{
    if title.as_bytes().len() > TITLE_MAX {
        let (head, _) = title.split_at(TITLE_KEPT);
        proof {
            reveal_strlit("...");
            encode_utf8_decode_utf8(head@);
            assert("..."@ =~= seq!['.', '.', '.']);
            encode_utf8_concat(head@, seq!['.', '.', '.']);
            ellipsis_bytes();
        }
        let mut text = head.to_owned();
        text.append("...");
        text
    } else {
        title.to_owned()
    }
}

/// UTF-8 encodes a text piece by piece.
proof fn encode_utf8_concat(front: Seq<char>, back: Seq<char>)
    ensures
        encode_utf8(front + back) == encode_utf8(front) + encode_utf8(back),
    decreases front.len(),
{
    if front.len() == 0 {
        assert(front + back =~= back);
        assert(encode_utf8(front) + encode_utf8(back) =~= encode_utf8(back));
    } else {
        assert((front + back).drop_first() =~= front.drop_first() + back);
        encode_utf8_concat(front.drop_first(), back);
        assert(encode_utf8(front + back) =~= encode_utf8(front) + encode_utf8(back));
    }
}

/// The ellipsis is three full stops in UTF-8.
proof fn ellipsis_bytes()
    ensures
        encode_utf8(seq!['.', '.', '.']) == seq![0x2eu8, 0x2e, 0x2e],
{
    is_ascii_chars_encode_utf8(seq!['.', '.', '.']);
    assert(encode_utf8(seq!['.', '.', '.']) =~= seq![0x2eu8, 0x2e, 0x2e]);
}

/// A text has no more characters than its UTF-8 form has bytes.
proof fn chars_within_bytes(text: Seq<char>)
    ensures
        text.len() <= encode_utf8(text).len(),
    decreases text.len(),
{
    if text.len() > 0 {
        chars_within_bytes(text.drop_first());
    }
}

/// What is shown for a title never takes more than `TITLE_MAX` bytes, and so
/// has at most that many characters.
pub proof fn shown_title_fits(title: Seq<char>)
    requires
        can_show(title),
    ensures
        encode_utf8(shown_title(title)).len() <= TITLE_MAX,
        shown_title(title).len() <= TITLE_MAX,
{
    let bytes = encode_utf8(title);
    if bytes.len() > TITLE_MAX {
        let kept = bytes.subrange(0, TITLE_KEPT as int);
        let dots = seq!['.', '.', '.'];
        encode_utf8_valid_utf8(title);
        valid_utf8_split(bytes, TITLE_KEPT as int);
        decode_utf8_encode_utf8(kept);
        encode_utf8_concat(decode_utf8(kept), dots);
        is_ascii_chars_encode_utf8(dots);
    }
    chars_within_bytes(shown_title(title));
}

/// What is shown for a title that is too long starts with characters of the
/// title and ends with an ellipsis.
pub proof fn shown_title_is_prefix(title: Seq<char>)
    requires
        can_show(title),
        encode_utf8(title).len() > TITLE_MAX,
    ensures
        exists|count: int|
            0 <= count <= title.len() && shown_title(title) == #[trigger] title.subrange(0, count)
                + seq!['.', '.', '.'],
{
    let bytes = encode_utf8(title);
    let kept = decode_utf8(bytes.subrange(0, TITLE_KEPT as int));
    encode_utf8_valid_utf8(title);
    encode_utf8_decode_utf8(title);
    decode_utf8_split(bytes, TITLE_KEPT as int);
    assert(title.subrange(0, kept.len() as int) =~= kept);
}

/// A title of ASCII characters can always be shown.
pub proof fn ascii_title_can_show(title: Seq<char>)
    requires
        vstd::utf8::is_ascii_chars(title),
    ensures
        can_show(title),
{
    let bytes = encode_utf8(title);
    is_ascii_chars_encode_utf8(title);
    encode_utf8_valid_utf8(title);
    if bytes.len() > TITLE_MAX {
        let cut = TITLE_KEPT as int;
        vstd::utf8::is_char_boundary_iff_is_leading_byte(bytes, cut);
        assert(title[cut] as u8 == bytes[cut]);
        assert(vstd::utf8::is_leading_byte_width_1(bytes[cut]));
    }
}

/// A title that the phone sent in UTF-8 is read as it was sent, whatever follows
/// it in the buffer.
pub proof fn title_read_as_sent(sent: Seq<char>, data: &[u8], amount: usize, title: &str)
    requires
        amount <= data@.len(),
        data@.subrange(0, amount as int) == encode_utf8(sent),
        call_ensures(track_title, (data, amount), title),
    ensures
        title@ == sent,
{
    encode_utf8_valid_utf8(sent);
    encode_utf8_decode_utf8(sent);
    encode_utf8_decode_utf8(title@);
}

/// The UTF-8 form of a text stands for that text.
pub proof fn text_as_sent(sent: Seq<char>)
    ensures
        text_of(encode_utf8(sent)) == sent,
{
    encode_utf8_valid_utf8(sent);
    encode_utf8_decode_utf8(sent);
}

/// Bytes that are the UTF-8 form of no text are read as an empty title.
pub proof fn no_title_in_other_bytes(data: &[u8], amount: usize, title: &str)
    requires
        amount <= data@.len(),
        forall|text: Seq<char>| #[trigger] encode_utf8(text) != data@.subrange(0, amount as int),
        call_ensures(track_title, (data, amount), title),
    ensures
        title@.len() == 0,
{
    let bytes = data@.subrange(0, amount as int);
    if valid_utf8(bytes) {
        assert(encode_utf8(title@) != bytes);
    }
}

/// A title of at most fifteen bytes is shown as it is. Of a longer one the first
/// twelve bytes are shown, and three full stops behind them.
pub proof fn title_shown_from_front(title: &str, text: String)
    requires
        can_show(title@),
        call_ensures(display_text, (title,), text),
    ensures
        encode_utf8(title@).len() <= 15 ==> text@ == title@,
        encode_utf8(title@).len() > 15 ==> {
            &&& encode_utf8(text@).len() == 15
            &&& forall|i: int| 0 <= i < 12 ==> encode_utf8(text@)[i] == encode_utf8(title@)[i]
            &&& forall|i: int| 12 <= i < 15 ==> encode_utf8(text@)[i] == 0x2e
        },
{
}

/// What is shown for a title of at most fifteen bytes is the title; what is shown
/// for a longer one has the title's first twelve bytes and three full stops.
pub proof fn shown_title_bytes(title: Seq<char>)
    requires
        can_show(title),
    ensures
        encode_utf8(title).len() <= 15 ==> shown_title(title) == title,
        encode_utf8(title).len() > 15 ==> encode_utf8(shown_title(title)) == encode_utf8(
            title,
        ).subrange(0, 12) + seq![0x2eu8, 0x2e, 0x2e],
{
    let bytes = encode_utf8(title);
    if bytes.len() > TITLE_MAX {
        let kept = bytes.subrange(0, TITLE_KEPT as int);
        encode_utf8_valid_utf8(title);
        valid_utf8_split(bytes, TITLE_KEPT as int);
        decode_utf8_encode_utf8(kept);
        encode_utf8_concat(decode_utf8(kept), seq!['.', '.', '.']);
        ellipsis_bytes();
    }
}

/// Every title of at most fifteen bytes can be shown. A longer one can be when
/// its thirteenth byte begins a character.
pub proof fn can_show_exactly(title: Seq<char>)
    ensures
        encode_utf8(title).len() <= 15 ==> can_show(title),
        encode_utf8(title).len() > 15 ==> (can_show(title) <==> !(0x80 <= encode_utf8(title)[12]
            <= 0xbf)),
{
    let bytes = encode_utf8(title);
    encode_utf8_valid_utf8(title);
    if bytes.len() > 15 {
        vstd::utf8::is_char_boundary_iff_not_is_continuation_byte(bytes, 12);
    }
}

/// A title that was sent in at most fifteen bytes is shown as it was sent.
pub proof fn short_title_shown_as_sent(
    sent: Seq<char>,
    data: &[u8],
    amount: usize,
    title: &str,
    text: String,
)
    requires
        amount <= data@.len(),
        amount <= 15,
        data@.subrange(0, amount as int) == encode_utf8(sent),
        call_ensures(track_title, (data, amount), title),
        call_ensures(display_text, (title,), text),
    ensures
        text@ == sent,
{
    title_read_as_sent(sent, data, amount, title);
}

} // verus!
