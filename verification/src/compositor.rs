//! What the compositor reports as text: the Vulkan extensions that it needs,
//! as one string of names with a space between each two.

use crate::c_string::{before_nul, read_utf8};
use vstd::prelude::*;
use vstd::string::{StrSliceExecFns, StringExecFns};
use vstd::utf8::{decode_utf8, valid_utf8};

verus! {

/// The pieces of `text` that its spaces separate, in order. Each space ends a
/// piece and begins the next, so there is one piece more than there are
/// spaces, and a piece is empty where two spaces meet or where the text
/// begins or ends with one.
pub open spec fn split_at_spaces(text: Seq<char>) -> Seq<Seq<char>>
    decreases text.len(),
{
    if text.len() == 0 {
        seq![Seq::empty()]
    } else {
        let before = split_at_spaces(text.drop_last());
        if text.last() == ' ' {
            before.push(Seq::empty())
        } else {
            before.drop_last().push(before.last().push(text.last()))
        }
    }
}

/// The pieces put together again, with a space between each two.
pub open spec fn join_with_spaces(pieces: Seq<Seq<char>>) -> Seq<char>
    decreases pieces.len(),
{
    if pieces.len() == 0 {
        Seq::empty()
    } else if pieces.len() == 1 {
        pieces[0]
    } else {
        join_with_spaces(pieces.drop_last()).push(' ') + pieces.last()
    }
}

/// The texts that a list of strings holds.
pub open spec fn texts(names: Seq<String>) -> Seq<Seq<char>> {
    Seq::new(names.len(), |i: int| names[i]@)
}

/// Splitting loses nothing and leaves no space behind: the pieces, joined
/// with spaces, are the text again, and no piece holds a space.
pub proof fn lemma_split_at_spaces(text: Seq<char>)
    ensures
        split_at_spaces(text).len() >= 1,
        join_with_spaces(split_at_spaces(text)) == text,
        forall|i: int|
            0 <= i < split_at_spaces(text).len() ==> !(#[trigger] split_at_spaces(text)[i]).contains(
                ' ',
            ),
    decreases text.len(),
{
    let pieces = split_at_spaces(text);
    if text.len() == 0 {
        assert(!pieces[0].contains(' '));
    } else {
        let shorter = text.drop_last();
        let before = split_at_spaces(shorter);
        lemma_split_at_spaces(shorter);
        if text.last() == ' ' {
            assert(pieces.drop_last() =~= before);
            assert(join_with_spaces(pieces) =~= text);
            assert forall|i: int| 0 <= i < pieces.len() implies !(#[trigger] pieces[i]).contains(
                ' ',
            ) by {
                if i < before.len() {
                    assert(pieces[i] == before[i]);
                }
            }
        } else {
            let last = before.last().push(text.last());
            assert(pieces.last() == last);
            if before.len() == 1 {
                assert(before[0] == shorter);
                assert(join_with_spaces(pieces) =~= text);
            } else {
                assert(pieces.drop_last() =~= before.drop_last());
                assert(join_with_spaces(pieces) =~= join_with_spaces(before).push(text.last()));
                assert(join_with_spaces(pieces) =~= text);
            }
            assert forall|i: int| 0 <= i < pieces.len() implies !(#[trigger] pieces[i]).contains(
                ' ',
            ) by {
                if i < before.len() - 1 {
                    assert(pieces[i] == before[i]);
                } else {
                    assert(!before.last().contains(' '));
                    if last.contains(' ') {
                        let j = choose|j: int| 0 <= j < last.len() && last[j] == ' ';
                        assert(before.last()[j] == ' ');
                    }
                }
            }
        }
    }
}

/// The names of the extensions that the compositor reports in `buf`, having
/// returned `len`. Where `len` is 0 it reported nothing and there are no
/// names. Otherwise `buf` holds a string, and the names are its pieces
/// between spaces; the result is `None` where the string is not well-formed
/// UTF-8.
pub fn extension_names(len: u32, buf: &[u8]) -> (r: Option<Vec<String>>)
    ensures
        len == 0 ==> (r matches Some(names) && names@.len() == 0),
        len != 0 ==> (r is Some <==> valid_utf8(before_nul(buf@))),
        len != 0 ==> (r matches Some(names) ==> texts(names@) == split_at_spaces(
            decode_utf8(before_nul(buf@)),
        )),
{
    let mut names: Vec<String> = Vec::new();
    if len == 0 {
        return Some(names);
    }
    let text = match read_utf8(buf) {
        Some(text) => text,
        None => {
            return None;
        },
    };
    let text = text.as_str();
    let n = text.unicode_len();
    let mut start: usize = 0;
    let mut i: usize = 0;
    assert(text@.take(0).len() == 0);
    assert(text@.subrange(0, 0) =~= Seq::<char>::empty());
    assert(texts(names@).push(text@.subrange(0, 0)) =~= seq![Seq::<char>::empty()]);
    while i < n
        invariant
            start <= i <= n,
            n == text@.len(),
            split_at_spaces(text@.take(i as int)) == texts(names@).push(
                text@.subrange(start as int, i as int),
            ),
        decreases n - i,
    {
        let ghost done = texts(names@);
        let ghost piece = text@.subrange(start as int, i as int);
        assert(text@.take(i + 1).drop_last() =~= text@.take(i as int));
        assert(done.push(piece).drop_last() =~= done);
        if text.get_char(i) == ' ' {
            names.push(String::from_str(text.substring_char(start, i)));
            start = i + 1;
            assert(texts(names@) =~= done.push(piece));
            assert(text@.subrange(start as int, i + 1) =~= Seq::<char>::empty());
        } else {
            assert(text@.subrange(start as int, i + 1) =~= piece.push(text@[i as int]));
        }
        i += 1;
    }
    assert(text@.take(n as int) =~= text@);
    let ghost done = texts(names@);
    names.push(String::from_str(text.substring_char(start, n)));
    assert(texts(names@) =~= done.push(text@.subrange(start as int, n as int)));
    Some(names)
}

} // verus!
