//! YAML event logs: several documents in one text, each a message.
//!
//! Two documents are parted by a line that holds `---` and nothing else. The
//! first document may come without such a line before it.

use crate::error::{Error, ErrorView, SchemaError};
use crate::json::codec::{decode, decode_spec, encode, encode_spec};
use crate::json::value::{yaml_text_value, yaml_value_text, Json};
use crate::json::{WsMessage, WsMessageView};
use crate::text::{chars_of, text_of};
use vstd::prelude::*;

verus! {

/// How many characters the separator has: a line break, three dashes and a
/// line break.
pub const SEPARATOR_LEN: usize = 5;

/// Whether the separator stands at `at`.
pub open spec fn separator_at(text: Seq<char>, at: int) -> bool {
    &&& 0 <= at
    &&& at + 5 <= text.len()
    &&& text[at] == '\n'
    &&& text[at + 1] == '-'
    &&& text[at + 2] == '-'
    &&& text[at + 3] == '-'
    &&& text[at + 4] == '\n'
}

/// The first place from `from` on at which the separator stands; the length
/// of the text where it stands nowhere.
pub open spec fn find_separator(text: Seq<char>, from: int) -> int
    decreases text.len() - from,
{
    if from < 0 || from >= text.len() {
        text.len() as int
    } else if separator_at(text, from) {
        from
    } else {
        find_separator(text, from + 1)
    }
}

/// The separator is found at or after the place where the search starts,
/// and not beyond the end; where it is found before the end, it stands
/// there.
pub proof fn lemma_find_separator(text: Seq<char>, from: int)
    requires
        0 <= from <= text.len(),
    ensures
        from <= find_separator(text, from) <= text.len(),
        find_separator(text, from) < text.len() ==> separator_at(text, find_separator(text, from)),
        forall|k: int| from <= k < find_separator(text, from) ==> !separator_at(text, k),
    decreases text.len() - from,
{
    if from < text.len() && !separator_at(text, from) {
        lemma_find_separator(text, from + 1);
    }
}

/// Where the document that starts at `pos` ends: at the first separator
/// that starts after `pos`, or at the end of the text.
pub open spec fn document_end(text: Seq<char>, pos: int) -> int {
    find_separator(text, pos + 1)
}

/// Where the document after the one that starts at `pos` starts: behind the
/// separator, or at the end of the text.
pub open spec fn next_start(text: Seq<char>, pos: int) -> int {
    if document_end(text, pos) >= text.len() {
        text.len() as int
    } else {
        document_end(text, pos) + 5
    }
}

/// The documents of a text from `pos` on, in order. A document is never
/// empty: it holds at least the character at which it starts.
pub open spec fn documents_from(text: Seq<char>, pos: int) -> Seq<Seq<char>>
    decreases text.len() - pos,
{
    if pos < 0 || pos >= text.len() {
        Seq::empty()
    } else {
        proof {
            lemma_find_separator(text, pos + 1);
        }
        seq![text.subrange(pos, document_end(text, pos))] + documents_from(
            text,
            next_start(text, pos),
        )
    }
}

/// The documents of a text, in order.
pub open spec fn documents(text: Seq<char>) -> Seq<Seq<char>> {
    documents_from(text, 0)
}

fn is_separator_at(chars: &Vec<char>, at: usize) -> (r: bool)
    requires
        at <= chars.len(),
    ensures
        r == separator_at(chars@, at as int),
{
    chars.len() - at >= 5 && chars[at] == '\n' && chars[at + 1] == '-' && chars[at + 2] == '-'
        && chars[at + 3] == '-' && chars[at + 4] == '\n'
}

/// Reader that hands out the documents of a text one after the other.
pub struct YamlDocuments {
    chars: Vec<char>,
    pos: usize,
}

impl YamlDocuments {
    /// The text that is read.
    pub closed spec fn text(&self) -> Seq<char> {
        self.chars@
    }

    /// The documents that are still to come.
    pub closed spec fn remaining(&self) -> Seq<Seq<char>> {
        documents_from(self.chars@, self.pos as int)
    }

    /// The reader stands inside its text.
    pub closed spec fn wf(&self) -> bool {
        self.pos <= self.chars@.len()
    }

    /// A reader at the start of `text`.
    pub fn new(text: &str) -> (r: YamlDocuments)
        ensures
            r.wf(),
            r.text() == text@,
            r.remaining() == documents(text@),
    {
        YamlDocuments { chars: chars_of(text), pos: 0 }
    }

    /// Reads up to the next separator, consumes it, and returns what was
    /// read; `None` at the end of the text.
    pub fn read_next_yaml(&mut self) -> (r: Option<String>)
        requires
            old(self).wf(),
        ensures
            final(self).wf(),
            final(self).text() == old(self).text(),
            match r {
                Some(doc) => old(self).remaining().len() > 0 && doc@ == old(self).remaining()[0]
                    && final(self).remaining() == old(self).remaining().drop_first(),
                None => old(self).remaining().len() == 0 && final(self).remaining().len() == 0,
            },
    {
        let n = self.chars.len();
        if self.pos >= n {
            return None;
        }
        let start = self.pos;
        let mut end: usize = start + 1;
        proof {
            lemma_find_separator(self.chars@, start + 1);
        }
        while end < n && !is_separator_at(&self.chars, end)
            invariant
                start < end <= n,
                n == self.chars@.len(),
                self.chars == old(self).chars,
                find_separator(self.chars@, start + 1) == find_separator(self.chars@, end as int),
            decreases n - end,
        {
            end += 1;
        }
        let doc = text_of(&self.chars, start, end);
        self.pos = if end >= n {
            n
        } else {
            end + SEPARATOR_LEN
        };
        proof {
            let text = self.chars@;
            let rest = documents_from(text, next_start(text, start as int));
            assert(old(self).remaining() == seq![text.subrange(start as int, end as int)] + rest);
            assert(old(self).remaining().drop_first() =~= rest);
        }
        Some(doc)
    }
}

/// Splits a text into its documents.
pub fn split_documents(text: &str) -> (r: Vec<String>)
    ensures
        r@.len() == documents(text@).len(),
        forall|i: int| 0 <= i < r@.len() ==> (#[trigger] r@[i])@ == documents(text@)[i],
{
    let mut reader = YamlDocuments::new(text);
    let mut out: Vec<String> = Vec::new();
    let ghost all = documents(text@);
    loop
        invariant
            reader.wf(),
            all == documents(text@),
            out@.len() + reader.remaining().len() == all.len(),
            forall|i: int| 0 <= i < out@.len() ==> (#[trigger] out@[i])@ == all[i],
            forall|i: int|
                0 <= i < reader.remaining().len() ==> reader.remaining()[i] == all[out@.len() + i],
        decreases reader.remaining().len(),
    {
        let ghost before = reader.remaining();
        match reader.read_next_yaml() {
            Some(doc) => {
                out.push(doc);
                assert forall|i: int| 0 <= i < reader.remaining().len() implies reader.remaining()[i]
                    == all[out@.len() + i] by {
                    assert(reader.remaining()[i] == before[i + 1]);
                }
            },
            None => {
                return out;
            },
        }
    }
}

/// What a document stands for: nothing where the document is not YAML, else
/// the message that its value stands for or the reason why it stands for
/// none.
pub open spec fn document_spec(document: Seq<char>) -> Option<Result<WsMessageView, SchemaError>> {
    match yaml_text_value(document) {
        Some(value) => Some(decode_spec(value)),
        None => None,
    }
}

/// Reads the message that one document holds.
pub fn read_message(document: &str) -> (r: Result<WsMessage, Error>)
    ensures
        match document_spec(document@) {
            Some(Ok(m)) => r matches Ok(msg) && msg@ == m,
            Some(Err(reason)) => r matches Err(e) && e@ == ErrorView::JsonParsing(reason),
            None => r matches Err(e) && e is YamlParsing,
        },
{
    match Json::from_yaml(document) {
        Ok(value) => match decode(&value) {
            Ok(msg) => Ok(msg),
            Err(reason) => Err(Error::JsonParsing(reason)),
        },
        Err(failure) => Err(Error::YamlParsing(failure)),
    }
}

/// Writes a message as one YAML document.
pub fn write_message(msg: &WsMessage) -> (r: Result<String, Error>)
    ensures
        match r {
            Ok(text) => yaml_value_text(encode_spec(msg@)) == Some(text@),
            Err(e) => yaml_value_text(encode_spec(msg@)) is None && e is YamlParsing,
        },
{
    let value = encode(msg);
    match value.to_yaml() {
        Ok(text) => Ok(text),
        Err(failure) => Err(Error::YamlParsing(failure)),
    }
}

/// Reads every document of an event log. Each document gives its message or
/// its own error, so that one bad document does not hide the others.
pub fn read_messages(text: &str) -> (r: Vec<Result<WsMessage, Error>>)
    ensures
        r@.len() == documents(text@).len(),
        forall|i: int|
            0 <= i < r@.len() ==> match document_spec(documents(text@)[i]) {
                Some(Ok(m)) => (#[trigger] r@[i]) matches Ok(msg) && msg@ == m,
                Some(Err(reason)) => r@[i] matches Err(e) && e@ == ErrorView::JsonParsing(reason),
                None => r@[i] matches Err(e) && e is YamlParsing,
            },
{
    let docs = split_documents(text);
    let mut out: Vec<Result<WsMessage, Error>> = Vec::new();
    let mut i: usize = 0;
    while i < docs.len()
        invariant
            i <= docs.len(),
            out@.len() == i,
            docs@.len() == documents(text@).len(),
            forall|k: int| 0 <= k < docs@.len() ==> (#[trigger] docs@[k])@ == documents(text@)[k],
            forall|k: int|
                0 <= k < i ==> match document_spec(documents(text@)[k]) {
                    Some(Ok(m)) => (#[trigger] out@[k]) matches Ok(msg) && msg@ == m,
                    Some(Err(reason)) => out@[k] matches Err(e) && e@ == ErrorView::JsonParsing(
                        reason,
                    ),
                    None => out@[k] matches Err(e) && e is YamlParsing,
                },
        decreases docs.len() - i,
    {
        let msg = read_message(docs[i].as_str());
        out.push(msg);
        i += 1;
    }
    out
}

} // verus!
