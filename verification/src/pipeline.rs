use vstd::prelude::*;
use crate::error::{fresh_context_view, Error};
use crate::item::DynamicItem;

verus! {

/// A no-op pipeline that passes items through unchanged
#[derive(Debug, Clone, Copy)]
pub struct DummyPipeline;

impl DummyPipeline {
    /// Create a new dummy pipeline
    pub fn new() -> (r: Self) {
        DummyPipeline
    }

    /// The item, unchanged.
    pub fn process_dynamic_item(&self, item: DynamicItem) -> (r: Result<DynamicItem, Error>)
        ensures
            r matches Ok(i) && i@ == item@,
    {
        Ok(item)
    }
}

impl Default for DummyPipeline {
    fn default() -> (r: Self) {
        Self::new()
    }
}

/// The levels a log pipeline can write at.
#[derive(Debug, Clone, Copy, PartialEq, Eq, Structural)]
pub enum Level {
    Error,
    Warn,
    Info,
    Debug,
    Trace,
}

/// Pipeline that logs items and passes them on unchanged
#[derive(Debug, Clone, Copy)]
pub struct LogPipeline {
    pub level: Level,
}

impl LogPipeline {
    /// Create a new log pipeline
    pub fn new(level: Level) -> (r: Self)
        ensures
            r.level == level,
    {
        LogPipeline { level }
    }

    /// Create a new log pipeline with INFO level
    pub fn info() -> (r: Self)
        ensures
            r.level == Level::Info,
    {
        Self::new(Level::Info)
    }

    /// Create a new log pipeline with DEBUG level
    pub fn debug() -> (r: Self)
        ensures
            r.level == Level::Debug,
    {
        Self::new(Level::Debug)
    }

    /// The item, unchanged (the caller writes the log line at `level`).
    pub fn process_dynamic_item(&self, item: DynamicItem) -> (r: Result<DynamicItem, Error>)
        ensures
            r matches Ok(i) && i@ == item@,
    {
        Ok(item)
    }
}

/// What a filter pipeline makes of an item, given whether its predicate keeps it: the item, or
/// an item error "Item filtered out".
pub fn filter_item(item: DynamicItem, keep: bool) -> (r: Result<DynamicItem, Error>)
    ensures
        keep ==> (r matches Ok(i) && i@ == item@),
        !keep ==> (r matches Err(e) && e matches Error::Item { message, context }
            && message@ == "Item filtered out"@ && context@ == fresh_context_view()),
{
    if keep {
        Ok(item)
    } else {
        Err(Error::item(String::from_str("Item filtered out")))
    }
}

/// The bytes "[\n" that open a JSON array file.
pub open spec fn array_open() -> Seq<u8> {
    seq![91u8, 10u8]
}

/// The bytes ",\n" that follow each item.
pub open spec fn item_separator() -> Seq<u8> {
    seq![44u8, 10u8]
}

/// The bytes "\n]" that close the array.
pub open spec fn array_close() -> Seq<u8> {
    seq![10u8, 93u8]
}

/// The items, each followed by ",\n".
pub open spec fn items_with_separators(items: Seq<Seq<u8>>) -> Seq<u8>
    decreases items.len(),
{
    if items.len() == 0 {
        Seq::empty()
    } else {
        items_with_separators(items.drop_last()) + items.last() + item_separator()
    }
}

/// The items joined by ",\n".
pub open spec fn items_joined(items: Seq<Seq<u8>>) -> Seq<u8>
    decreases items.len(),
{
    if items.len() == 0 {
        Seq::empty()
    } else if items.len() == 1 {
        items[0]
    } else {
        items_joined(items.drop_last()) + item_separator() + items.last()
    }
}

/// The file once closed: where it is longer than two bytes its last two are written over,
/// then "\n]" follows.
pub open spec fn closed_file(content: Seq<u8>) -> Seq<u8> {
    if content.len() > 2 {
        content.take(content.len() - 2) + array_close()
    } else {
        content + array_close()
    }
}

/// A JSON array file written item by item: what to write on opening, for each item and on
/// closing, and whether the file is open.
#[derive(Debug, Clone, Copy)]
pub struct JsonArrayFile {
    pub append: bool,
    pub is_open: bool,
}

/// What is written on opening: the array's opening bracket, unless appending.
pub open spec fn opening_bytes(append: bool) -> Seq<u8> {
    if append {
        Seq::<u8>::empty()
    } else {
        array_open()
    }
}

/// What closing a file of `len` bytes does: nothing where the file is not open; else whether
/// to step back over its last two bytes first, and what to write then ("\n]").
pub open spec fn close_outcome(f: JsonArrayFile, len: u64) -> Option<(bool, Seq<u8>)> {
    if f.is_open {
        Some((len > 2, array_close()))
    } else {
        None
    }
}

/// The framing once closed.
pub open spec fn after_close(f: JsonArrayFile) -> JsonArrayFile {
    JsonArrayFile { is_open: false, ..f }
}

impl JsonArrayFile {
    /// The framing of a file that is appended to or written afresh, not yet open.
    pub fn new(append: bool) -> (r: Self)
        ensures
            r.append == append,
            !r.is_open,
    {
        JsonArrayFile { append, is_open: false }
    }

    /// Opens the file: what to write then is the array's opening bracket, unless appending.
    pub fn opening(&mut self) -> (r: Vec<u8>)
        ensures
            *final(self) == (JsonArrayFile { is_open: true, ..*old(self) }),
            r@ == opening_bytes(old(self).append),
    {
        self.is_open = true;
        if self.append {
            Vec::new()
        } else {
            let r = vec![91u8, 10u8];
            proof {
                assert(r@ =~= array_open());
            }
            r
        }
    }

    /// What to write for an item: its JSON text followed by ",\n" while the file is open,
    /// nothing otherwise.
    pub fn item_chunk(&self, json: &Vec<u8>) -> (r: Option<Vec<u8>>)
        ensures
            self.is_open ==> (r matches Some(c) && c@ == json@ + item_separator()),
            !self.is_open ==> r is None,
    {
        if !self.is_open {
            return None;
        }
        let mut out: Vec<u8> = Vec::new();
        let mut i: usize = 0;
        while i < json.len()
            invariant
                i <= json@.len(),
                out@ == json@.take(i as int),
            decreases json@.len() - i,
        {
            out.push(json[i]);
            proof {
                assert(json@.take(i + 1) =~= json@.take(i as int).push(json@[i as int]));
            }
            i = i + 1;
        }
        out.push(44u8);
        out.push(10u8);
        proof {
            assert(json@.take(json@.len() as int) =~= json@);
            assert(out@ =~= json@ + item_separator());
        }
        Some(out)
    }

    /// Closes a file of `len` bytes: where it is open, whether to step back over its last two
    /// bytes first and what to write then ("\n]"); nothing where it is not open.
    pub fn closing(&mut self, len: u64) -> (r: Option<(bool, Vec<u8>)>)
        ensures
            *final(self) == after_close(*old(self)),
            close_outcome(*old(self), len) matches Some((b, t)) ==> (r matches Some((rb, rt)) && rb == b && rt@ == t),
            close_outcome(*old(self), len) is None ==> r is None,
    {
        if !self.is_open {
            return None;
        }
        self.is_open = false;
        let tail = vec![10u8, 93u8];
        proof {
            assert(tail@ =~= array_close());
        }
        Some((len > 2, tail))
    }
}

proof fn lemma_separated_joined(items: Seq<Seq<u8>>)
    requires
        items.len() >= 1,
    ensures
        items_with_separators(items) == items_joined(items) + item_separator(),
    decreases items.len(),
{
    if items.len() == 1 {
        assert(items.drop_last() =~= Seq::<Seq<u8>>::empty());
        assert(items.last() == items[0]);
        assert(items_with_separators(items.drop_last()) == Seq::<u8>::empty());
        assert(items_with_separators(items) =~= items[0] + item_separator());
    } else {
        lemma_separated_joined(items.drop_last());
        assert(items_with_separators(items) =~= items_joined(items) + item_separator());
    }
}

/// A file written afresh holds, once closed, exactly the JSON array of its items: "[\n",
/// the items joined by ",\n", then "\n]"; with no items, "[\n\n]".
pub proof fn law_json_array_file(items: Seq<Seq<u8>>)
    ensures
        closed_file(array_open() + items_with_separators(items)) == array_open() + items_joined(
            items,
        ) + array_close(),
{
    if items.len() == 0 {
        assert(array_open() + items_with_separators(items) =~= array_open());
        assert(array_open() + items_joined(items) + array_close() =~= array_open() + array_close());
    } else {
        lemma_separated_joined(items);
        let content = array_open() + items_with_separators(items);
        assert(content =~= array_open() + items_joined(items) + item_separator());
        assert(content.len() > 2);
        assert(content.take(content.len() - 2) =~= array_open() + items_joined(items));
    }
}

/// A file is closed once: closing it again writes nothing.
pub proof fn law_close_once(f: JsonArrayFile, len: u64)
    ensures
        close_outcome(after_close(f), len) is None,
{
}

} // verus!
