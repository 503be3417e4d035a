//! Small pieces that the rest of the layer is built from: the scoped native
//! buffer, C strings, and text decoded from engine-filled buffers.
use crate::host_module::ZenHostFuncDesc;
use vstd::prelude::*;
use vstd::slice::slice_subrange;
use vstd::slice::slice_to_vec;
use vstd::std_specs::cmp::PartialOrdIs;
use vstd::std_specs::cmp::PartialOrdSpec;
use vstd::string::StringSliceAdditionalSpecFns;
use vstd::utf8::decode_utf8;
use vstd::utf8::encode_utf8;
use vstd::utf8::valid_utf8;

verus! {

/// The larger of `value` and `min_value`; `value` where the two compare equal.
pub fn at_least<T: PartialOrd>(value: T, min_value: T) -> (r: T)
    ensures
        r == value || r == min_value,
        T::obeys_partial_cmp_spec() ==> r == (if value.is_ge(&min_value) {
            value
        } else {
            min_value
        }),
{
    if value >= min_value {
        value
    } else {
        min_value
    }
}

/// The bytes of the C string that carries `text`: its UTF-8 encoding and one
/// terminating NUL.
pub open spec fn c_str_bytes(text: Seq<char>) -> Seq<u8> {
    encode_utf8(text).push(0u8)
}

/// Encodes `s` as a C string: the bytes of `s` followed by a NUL.
pub fn rust_str_to_c_str(s: &str) -> (bytes: Vec<u8>)
    ensures
        bytes@ == c_str_bytes(s@),
{
    let mut str_bytes_with_null = slice_to_vec(s.as_bytes());
    str_bytes_with_null.push(0u8);
    str_bytes_with_null
}

/// Where a reader of a C string stops in `bytes`, scanning from `from`: the
/// position of the first NUL at or after `from`, or the end of `bytes`.
pub open spec fn c_str_end(bytes: Seq<u8>, from: int) -> int
    decreases bytes.len() - from,
{
    if from < 0 || from >= bytes.len() || bytes[from] == 0u8 {
        from
    } else {
        c_str_end(bytes, from + 1)
    }
}

/// What a reader of a C string sees in `bytes`: everything before the first NUL.
pub open spec fn c_str_text(bytes: Seq<u8>) -> Seq<u8> {
    bytes.subrange(0, c_str_end(bytes, 0))
}

/// `c_str_end` stays within `bytes`, passes over no NUL, and stops on one unless
/// it reaches the end.
pub proof fn lemma_c_str_end(bytes: Seq<u8>, from: int)
    requires
        0 <= from <= bytes.len(),
    ensures
        from <= c_str_end(bytes, from) <= bytes.len(),
        forall|i: int| from <= i < c_str_end(bytes, from) ==> bytes[i] != 0u8,
        c_str_end(bytes, from) < bytes.len() ==> bytes[c_str_end(bytes, from)] == 0u8,
    decreases bytes.len() - from,
{
    if from < bytes.len() && bytes[from] != 0u8 {
        lemma_c_str_end(bytes, from + 1);
    }
}

/// A reader of the C string made from `text` gets the bytes of `text` back,
/// provided `text` holds no NUL character.
pub proof fn lemma_c_str_round_trip(text: Seq<char>)
    requires
        forall|i: int| 0 <= i < encode_utf8(text).len() ==> encode_utf8(text)[i] != 0u8,
    ensures
        c_str_text(c_str_bytes(text)) == encode_utf8(text),
{
    let bytes = c_str_bytes(text);
    let n = encode_utf8(text).len() as int;
    lemma_c_str_end(bytes, 0);
    let end = c_str_end(bytes, 0);
    if end < n {
        assert(bytes[end] == encode_utf8(text)[end]);
    }
    if end > n {
        assert(bytes[n] == 0u8);
    }
    assert(c_str_text(bytes) =~= encode_utf8(text));
}

/// The length of the C string at the start of `bytes`.
pub fn c_str_len(bytes: &[u8]) -> (n: usize)
    ensures
        n == c_str_end(bytes@, 0),
        n <= bytes@.len(),
{
    let mut i: usize = 0;
    while i < bytes.len() && bytes[i] != 0u8
        invariant
            i <= bytes@.len(),
            c_str_end(bytes@, 0) == c_str_end(bytes@, i as int),
        decreases bytes@.len() - i,
    {
        i = i + 1;
    }
    i
}

/// `String::from_utf8` of std: the bytes become a string exactly when they are
/// valid UTF-8, and the string then holds the characters they encode. Believed
/// of std, not proved.
#[verifier::external_body]
pub(crate) fn string_from_utf8(bytes: Vec<u8>) -> (text: Option<String>)
    ensures
        text is Some <==> valid_utf8(bytes@),
        text is Some ==> text->0@ == decode_utf8(bytes@),
{
    String::from_utf8(bytes).ok()
}

/// Decodes `bytes` as UTF-8 text; `None` where they are not valid UTF-8.
pub fn text_of_bytes(bytes: &[u8]) -> (text: Option<String>)
    ensures
        text is Some <==> valid_utf8(bytes@),
        text is Some ==> text->0@ == decode_utf8(bytes@),
{
    string_from_utf8(slice_to_vec(bytes))
}

/// What stands for an engine message that is not valid UTF-8.
pub open spec fn undecodable_message() -> Seq<char> {
    "engine message is not valid UTF-8"@
}

/// The bytes of `bytes` that fit a buffer of `size` bytes.
pub open spec fn buffer_bytes(bytes: Seq<u8>, size: int) -> Seq<u8> {
    if bytes.len() > size {
        bytes.subrange(0, size)
    } else {
        bytes
    }
}

/// The message that an engine-filled buffer of `size` bytes holds: the C string
/// at its start, read as UTF-8.
pub open spec fn buffer_message(bytes: Seq<u8>, size: int) -> Seq<char> {
    let text = c_str_text(buffer_bytes(bytes, size));
    if valid_utf8(text) {
        decode_utf8(text)
    } else {
        undecodable_message()
    }
}

/// Reads the message that the engine wrote into a buffer of `size` bytes. Bytes
/// beyond `size` are not looked at; bytes that are not UTF-8 give a fixed message
/// in place of the engine's.
pub fn message_of_buffer(bytes: &[u8], size: usize) -> (message: String)
    ensures
        message@ == buffer_message(bytes@, size as int),
{
    let bound = if bytes.len() > size {
        size
    } else {
        bytes.len()
    };
    let bounded = slice_subrange(bytes, 0, bound);
    assert(bounded@ =~= buffer_bytes(bytes@, size as int));
    let end = c_str_len(bounded);
    let text = slice_subrange(bounded, 0, end);
    match text_of_bytes(text) {
        Some(message) => message,
        None => "engine message is not valid UTF-8".to_owned(),
    }
}

/// What an operation answers to a length that does not fit the 32 bits in which
/// the engine takes lengths.
pub open spec fn too_large_message() -> Seq<char> {
    "length does not fit in 32 bits"@
}

/// `length` as the engine takes it, in 32 bits; `None` for a length that does
/// not fit.
pub fn count_of(length: usize) -> (count: Option<u32>)
    ensures
        count is Some <==> length <= u32::MAX,
        count matches Some(c) ==> c == length,
{
    if length > u32::MAX as usize {
        None
    } else {
        Some(length as u32)
    }
}

/// A native buffer of cells of one type: zero-initialised, never resized, and
/// never without a cell, so that the engine gets a real address for an empty
/// array too. A cell that was not written is `None`: on the native side it reads
/// as zero. The buffer owns its cells, and they are released with it, once.
#[derive(Debug)]
pub struct ScopedMalloc<T> {
    cells: Vec<Option<T>>,
    element_count: usize,
}

/// How many cells a buffer for `element_count` elements has.
pub open spec fn buffer_capacity(element_count: int) -> int {
    if element_count >= 1 {
        element_count
    } else {
        1
    }
}

/// The cells of a buffer that was filled with `items` from its start: one cell
/// for each item, or a single zero cell where there is no item.
pub open spec fn packed<A>(items: Seq<A>) -> Seq<Option<A>> {
    if items.len() == 0 {
        seq![None]
    } else {
        Seq::new(items.len(), |i: int| Some(items[i]))
    }
}

impl<T> ScopedMalloc<T> {
    /// The cells of the buffer, in order.
    pub closed spec fn view(&self) -> Seq<Option<T>> {
        self.cells@
    }

    /// The number of elements that the buffer was asked for.
    pub closed spec fn requested(&self) -> int {
        self.element_count as int
    }

    /// The buffer has the cells that its element count calls for.
    pub open spec fn wf(&self) -> bool {
        self@.len() == buffer_capacity(self.requested())
    }

    /// A buffer for `element_count` elements, all cells zero. `element_count`
    /// counts
    /// elements, not bytes.
    pub fn new(element_count: usize) -> (buffer: ScopedMalloc<T>)
        ensures
            buffer.wf(),
            buffer.requested() == element_count,
            forall|i: int| 0 <= i < buffer@.len() ==> buffer@[i] is None,
    {
        let capacity = at_least(element_count, 1usize);
        let mut cells: Vec<Option<T>> = Vec::new();
        let mut i: usize = 0;
        while i < capacity
            invariant
                i <= capacity,
                cells@.len() == i,
                forall|j: int| 0 <= j < cells@.len() ==> cells@[j] is None,
            decreases capacity - i,
        {
            cells.push(None);
            i = i + 1;
        }
        ScopedMalloc { cells, element_count }
    }

    /// The cells of the buffer.
    pub fn data(&self) -> (cells: &Vec<Option<T>>)
        ensures
            cells@ == self@,
    {
        &self.cells
    }

    /// The number of elements that the buffer was asked for.
    pub fn len(&self) -> (n: usize)
        ensures
            n == self.requested(),
    {
        self.element_count
    }

    /// The number of cells that the buffer has.
    pub fn capacity(&self) -> (n: usize)
        ensures
            n == self@.len(),
    {
        self.cells.len()
    }

    /// Writes `value` into the cell at `index`, if the buffer has such a cell, and
    /// says whether it did.
    pub fn write(&mut self, index: usize, value: T) -> (written: bool)
        ensures
            written == (index < old(self)@.len()),
            written ==> final(self)@ == old(self)@.update(index as int, Some(value)),
            !written ==> final(self)@ == old(self)@,
            final(self).requested() == old(self).requested(),
    {
        if index < self.cells.len() {
            self.cells[index] = Some(value);
            true
        } else {
            false
        }
    }
}

/// References to the host functions in `hostapis`, in order.
pub fn get_all_hostapis_refs<'a>(hostapis: &'a [ZenHostFuncDesc]) -> (refs: Vec<
    &'a ZenHostFuncDesc,
>)
    ensures
        refs@.len() == hostapis@.len(),
        forall|i: int| 0 <= i < refs@.len() ==> *#[trigger] refs@[i] == hostapis@[i],
{
    let mut refs: Vec<&ZenHostFuncDesc> = Vec::new();
    let mut i: usize = 0;
    while i < hostapis.len()
        invariant
            i <= hostapis@.len(),
            refs@.len() == i,
            forall|j: int| 0 <= j < i ==> *#[trigger] refs@[j] == hostapis@[j],
        decreases hostapis@.len() - i,
    {
        refs.push(&hostapis[i]);
        i = i + 1;
    }
    refs
}

/// The names of the host functions in `hostapis`, in order.
pub fn get_hostapis_names<'a>(hostapis: &'a [ZenHostFuncDesc]) -> (names: Vec<&'a str>)
    ensures
        names@.len() == hostapis@.len(),
        forall|i: int| 0 <= i < names@.len() ==> (#[trigger] names@[i])@ == hostapis@[i].name@,
{
    let mut names: Vec<&str> = Vec::new();
    let mut i: usize = 0;
    while i < hostapis.len()
        invariant
            i <= hostapis@.len(),
            names@.len() == i,
            forall|j: int| 0 <= j < i ==> (#[trigger] names@[j])@ == hostapis@[j].name@,
        decreases hostapis@.len() - i,
    {
        names.push(hostapis[i].name.as_str());
        i = i + 1;
    }
    names
}

} // verus!
