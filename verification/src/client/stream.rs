//! Result streams.
//!
//! The result of an instruction can also be fetched over HTTP, as a body that
//! arrives in chunks and holds one JSON message per line. The body is split
//! into lines at its line feeds, wherever the chunks end, and each line is read
//! as text, bytes that are no UTF-8 being replaced. A blank line holds nothing.
//! Every other line is one message of the service; a line that is none is an
//! item of its own, an error, and does not end the stream. No state of a
//! session is kept between lines: each message names its instruction.

use super::error::ClientError;
use crate::api::protocol::{MessageFromServer, MessageFromServerView};
use crate::api::wire::{
    decode_message_from_server, decoding_of, message_from_server_of, DecodeErrorView,
};
use crate::json::JsonValue;
use crate::text::{is_blank, str_is_blank, string_from_utf8_lossy, utf8_lossy};
use vstd::prelude::*;
use vstd::utf8::encode_utf8;

verus! {

/// One item of a result stream as a mathematical value: a message, or why a
/// line is none.
pub type StreamItemView = Result<MessageFromServerView, DecodeErrorView>;

/// An item of a result stream as a mathematical value. The only failure of an
/// item is that of decoding its line.
pub open spec fn item_view(item: Result<MessageFromServer, ClientError>) -> StreamItemView {
    match item {
        Ok(message) => Ok(message@),
        Err(ClientError::DeserializeError(error)) => Err(error@),
        Err(_) => Err(DecodeErrorView::Json),
    }
}

/// Whether an item is a message or the failure of decoding a line.
pub open spec fn is_stream_item(item: Result<MessageFromServer, ClientError>) -> bool {
    item matches Err(error) ==> error is DeserializeError
}

/// What one line of a stream holds: nothing where it is blank, else the
/// message that it carries, or the reason why it carries none.
pub open spec fn line_item_of(line: Seq<char>) -> Option<StreamItemView> {
    if is_blank(line) {
        None
    } else {
        Some(decoding_of(line, |document: JsonValue| message_from_server_of(document)))
    }
}

/// What lines hold, in their order.
pub open spec fn items_of(lines: Seq<Seq<char>>) -> Seq<StreamItemView>
    decreases lines.len(),
{
    if lines.len() == 0 {
        Seq::empty()
    } else {
        match line_item_of(lines.last()) {
            Some(item) => items_of(lines.drop_last()).push(item),
            None => items_of(lines.drop_last()),
        }
    }
}

/// Reads one line of a result stream.
pub fn decode_stream_line(line: &str) -> (r: Option<Result<MessageFromServer, ClientError>>)
    ensures
        match r {
            Some(item) => is_stream_item(item) && line_item_of(line@) == Some(item_view(item)),
            None => line_item_of(line@) is None,
        },
{
    if str_is_blank(line) {
        return None;
    }
    match decode_message_from_server(line) {
        Ok(message) => Some(Ok(message)),
        Err(error) => Some(Err(ClientError::DeserializeError(error))),
    }
}

/// Whether `items` are what `expected` says, one for one.
pub open spec fn items_are(
    items: Seq<Result<MessageFromServer, ClientError>>,
    expected: Seq<StreamItemView>,
) -> bool {
    &&& items.len() == expected.len()
    &&& forall|i: int|
        0 <= i < items.len() ==> is_stream_item(#[trigger] items[i]) && item_view(items[i])
            == expected[i]
}

/// The byte that ends a line.
pub const LINE_FEED: u8 = 10;

/// The bytes of the line that is not ended yet, after `bytes` have been read
/// while `line` held the bytes of the line that was being read.
pub open spec fn tail_after(line: Seq<u8>, bytes: Seq<u8>) -> Seq<u8>
    decreases bytes.len(),
{
    if bytes.len() == 0 {
        line
    } else if bytes.last() == LINE_FEED {
        Seq::empty()
    } else {
        tail_after(line, bytes.drop_last()).push(bytes.last())
    }
}

/// The lines that `bytes` end, in order and without the line feeds, where
/// `line` held the bytes of the line that was being read.
pub open spec fn lines_after(line: Seq<u8>, bytes: Seq<u8>) -> Seq<Seq<u8>>
    decreases bytes.len(),
{
    if bytes.len() == 0 {
        Seq::empty()
    } else if bytes.last() == LINE_FEED {
        lines_after(line, bytes.drop_last()).push(tail_after(line, bytes.drop_last()))
    } else {
        lines_after(line, bytes.drop_last())
    }
}

/// A line that is not ended, as the last line of a body: no line where it
/// holds nothing.
pub open spec fn last_line_of(tail: Seq<u8>) -> Seq<Seq<u8>> {
    if tail.len() == 0 {
        Seq::empty()
    } else {
        seq![tail]
    }
}

/// The lines of a body: each is ended by a line feed, which is no part of it;
/// the last need not be.
pub open spec fn byte_lines_of(bytes: Seq<u8>) -> Seq<Seq<u8>> {
    lines_after(Seq::empty(), bytes) + last_line_of(tail_after(Seq::empty(), bytes))
}

/// Lines as text, one for one: bytes that are no UTF-8 are replaced.
pub open spec fn texts_of(lines: Seq<Seq<u8>>) -> Seq<Seq<char>> {
    Seq::new(lines.len(), |i: int| utf8_lossy(lines[i]))
}

/// What the lines of a body hold, in their order.
pub open spec fn body_items_of(bytes: Seq<u8>) -> Seq<StreamItemView> {
    items_of(texts_of(byte_lines_of(bytes)))
}

/// Reads a result stream chunk by chunk. A line that a chunk does not end is
/// kept until a later chunk ends it, so that the items do not depend on where
/// the body was cut into chunks.
#[derive(Debug)]
pub struct StreamDecoder {
    pending: Vec<u8>,
}

impl StreamDecoder {
    /// The bytes of the line that is not ended yet.
    pub closed spec fn pending(&self) -> Seq<u8> {
        self.pending@
    }

    /// A decoder at the start of a body.
    pub fn new() -> (r: StreamDecoder)
        ensures
            r.pending() == Seq::<u8>::empty(),
    {
        StreamDecoder { pending: Vec::new() }
    }

    /// Reads one line after the lines `read`: no item where it is blank.
    fn read_line(
        line: &[u8],
        items: &mut Vec<Result<MessageFromServer, ClientError>>,
        Ghost(read): Ghost<Seq<Seq<char>>>,
    )
        requires
            items_are(old(items)@, items_of(read)),
        ensures
            items_are(final(items)@, items_of(read.push(utf8_lossy(line@)))),
    {
        assert(read.push(utf8_lossy(line@)).drop_last() =~= read);
        assert(read.push(utf8_lossy(line@)).last() == utf8_lossy(line@));
        let text = string_from_utf8_lossy(line);
        match decode_stream_line(text.as_str()) {
            Some(item) => {
                items.push(item);
            },
            None => {},
        }
    }

    /// Takes the next chunk of the body: returns the items of the lines that
    /// the chunk ends, the first of which may have begun in earlier chunks,
    /// and keeps what follows the last line feed.
    pub fn push(&mut self, chunk: &[u8]) -> (r: Vec<Result<MessageFromServer, ClientError>>)
        ensures
            items_are(r@, items_of(texts_of(lines_after(old(self).pending(), chunk@)))),
            final(self).pending() == tail_after(old(self).pending(), chunk@),
    {
        let ghost start = self.pending@;
        let mut items: Vec<Result<MessageFromServer, ClientError>> = Vec::new();
        let mut at: usize = 0;
        while at < chunk.len()
            invariant
                at <= chunk@.len(),
                self.pending@ == tail_after(start, chunk@.subrange(0, at as int)),
                items_are(
                    items@,
                    items_of(texts_of(lines_after(start, chunk@.subrange(0, at as int)))),
                ),
            decreases chunk@.len() - at,
        {
            let ghost before = chunk@.subrange(0, at as int);
            let ghost with_byte = chunk@.subrange(0, at as int + 1);
            assert(with_byte.drop_last() =~= before);
            assert(with_byte.last() == chunk@[at as int]);
            let byte = chunk[at];
            if byte == LINE_FEED {
                let ghost lines = lines_after(start, before);
                assert(texts_of(lines.push(self.pending@)) =~= texts_of(lines).push(
                    utf8_lossy(self.pending@),
                ));
                StreamDecoder::read_line(
                    self.pending.as_slice(),
                    &mut items,
                    Ghost(texts_of(lines)),
                );
                self.pending.clear();
            } else {
                self.pending.push(byte);
            }
            at = at + 1;
        }
        assert(chunk@.subrange(0, at as int) =~= chunk@);
        items
    }

    /// Ends the body: returns the item of the line that no line feed ended,
    /// where there is such a line.
    pub fn finish(self) -> (r: Vec<Result<MessageFromServer, ClientError>>)
        ensures
            items_are(r@, items_of(texts_of(last_line_of(self.pending())))),
    {
        let mut items: Vec<Result<MessageFromServer, ClientError>> = Vec::new();
        if self.pending.len() > 0 {
            assert(texts_of(seq![self.pending@]) =~= Seq::<Seq<char>>::empty().push(
                utf8_lossy(self.pending@),
            ));
            StreamDecoder::read_line(
                self.pending.as_slice(),
                &mut items,
                Ghost(Seq::<Seq<char>>::empty()),
            );
        } else {
            assert(texts_of(Seq::<Seq<u8>>::empty()) =~= Seq::<Seq<char>>::empty());
        }
        items
    }
}

/// Reads a whole body at once: the items that its lines hold, in order.
pub fn decode_stream_chunk(bytes: &[u8]) -> (r: Vec<Result<MessageFromServer, ClientError>>)
    ensures
        items_are(r@, body_items_of(bytes@)),
{
    let mut decoder = StreamDecoder::new();
    let mut items = decoder.push(bytes);
    let ghost ended = items@;
    let mut last = decoder.finish();
    let ghost tail = last@;
    proof {
        lemma_items_concat(
            texts_of(lines_after(Seq::empty(), bytes@)),
            texts_of(last_line_of(tail_after(Seq::empty(), bytes@))),
        );
        assert(texts_of(byte_lines_of(bytes@)) =~= texts_of(lines_after(Seq::empty(), bytes@))
            + texts_of(last_line_of(tail_after(Seq::empty(), bytes@))));
    }
    items.append(&mut last);
    assert(items@ =~= ended + tail);
    items
}

/// Reads a whole body that is text already: the items that the lines of its
/// UTF-8 form hold, in order.
pub fn decode_stream_text(text: &str) -> (r: Vec<Result<MessageFromServer, ClientError>>)
    ensures
        items_are(r@, body_items_of(encode_utf8(text@))),
{
    decode_stream_chunk(text.as_bytes())
}

/// What lines hold, taken together, is what the first of them hold and then
/// what the others hold.
pub proof fn lemma_items_concat(first: Seq<Seq<char>>, second: Seq<Seq<char>>)
    ensures
        items_of(first + second) == items_of(first) + items_of(second),
    decreases second.len(),
{
    if second.len() == 0 {
        assert(first + second =~= first);
        assert(items_of(first) + items_of(second) =~= items_of(first));
    } else {
        assert((first + second).drop_last() =~= first + second.drop_last());
        assert((first + second).last() == second.last());
        lemma_items_concat(first, second.drop_last());
        match line_item_of(second.last()) {
            Some(item) => {
                assert((items_of(first) + items_of(second.drop_last())).push(item) =~= items_of(
                    first,
                ) + items_of(second.drop_last()).push(item));
            },
            None => {},
        }
    }
}

/// Reading bytes in two parts is reading them in one: the lines that the
/// second part ends follow those that the first part ends, and the first of
/// them begins with what the first part left unended.
pub proof fn lemma_read_in_parts(line: Seq<u8>, first: Seq<u8>, second: Seq<u8>)
    ensures
        tail_after(line, first + second) == tail_after(tail_after(line, first), second),
        lines_after(line, first + second) == lines_after(line, first) + lines_after(
            tail_after(line, first),
            second,
        ),
    decreases second.len(),
{
    if second.len() == 0 {
        assert(first + second =~= first);
        assert(lines_after(line, first) + Seq::<Seq<u8>>::empty() =~= lines_after(line, first));
    } else {
        assert((first + second).drop_last() =~= first + second.drop_last());
        assert((first + second).last() == second.last());
        lemma_read_in_parts(line, first, second.drop_last());
        if second.last() == LINE_FEED {
            let ended = lines_after(tail_after(line, first), second.drop_last());
            let open = tail_after(tail_after(line, first), second.drop_last());
            assert((lines_after(line, first) + ended).push(open) =~= lines_after(line, first)
                + ended.push(open));
        }
    }
}

/// The bytes of chunks, one after another.
pub open spec fn joined(chunks: Seq<Seq<u8>>) -> Seq<u8>
    decreases chunks.len(),
{
    if chunks.len() == 0 {
        Seq::empty()
    } else {
        joined(chunks.drop_last()) + chunks.last()
    }
}

/// The items that a decoder returns for chunks, one `push` after another,
/// where the decoder held `line` before the first of them.
pub open spec fn items_pushed(line: Seq<u8>, chunks: Seq<Seq<u8>>) -> Seq<StreamItemView>
    decreases chunks.len(),
{
    if chunks.len() == 0 {
        Seq::empty()
    } else {
        items_pushed(line, chunks.drop_last()) + items_of(
            texts_of(lines_after(tail_after(line, joined(chunks.drop_last())), chunks.last())),
        )
    }
}

/// The items of a body do not depend on where the body is cut into chunks:
/// what a decoder returns for the chunks, one `push` after another and then
/// `finish`, is what the lines of the whole body hold. So two bodies with the
/// same bytes give the same items, however each was cut.
pub proof fn lemma_chunks_do_not_matter(chunks: Seq<Seq<u8>>)
    ensures
        items_pushed(Seq::empty(), chunks) == items_of(
            texts_of(lines_after(Seq::empty(), joined(chunks))),
        ),
        items_pushed(Seq::empty(), chunks) + items_of(
            texts_of(last_line_of(tail_after(Seq::empty(), joined(chunks)))),
        ) == body_items_of(joined(chunks)),
    decreases chunks.len(),
{
    let none = Seq::<u8>::empty();
    if chunks.len() == 0 {
        assert(texts_of(lines_after(none, joined(chunks))) =~= Seq::<Seq<char>>::empty());
    } else {
        let before = joined(chunks.drop_last());
        lemma_chunks_do_not_matter(chunks.drop_last());
        lemma_read_in_parts(none, before, chunks.last());
        let ended_before = lines_after(none, before);
        let ended_now = lines_after(tail_after(none, before), chunks.last());
        assert(texts_of(ended_before + ended_now) =~= texts_of(ended_before) + texts_of(
            ended_now,
        ));
        lemma_items_concat(texts_of(ended_before), texts_of(ended_now));
    }
    let ended = lines_after(none, joined(chunks));
    let last = last_line_of(tail_after(none, joined(chunks)));
    assert(texts_of(ended + last) =~= texts_of(ended) + texts_of(last));
    lemma_items_concat(texts_of(ended), texts_of(last));
}

} // verus!
