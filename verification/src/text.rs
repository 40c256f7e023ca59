//! Text produced and read by the library: decimal numbers in messages,
//! and the decoding of the NUL-terminated strings that BASS reports.

use vstd::prelude::*;
use vstd::string::*;
use vstd::utf8::*;

verus! {

/// The character of a decimal digit.
pub open spec fn digit_char(d: nat) -> char {
    if d == 0 {
        '0'
    } else if d == 1 {
        '1'
    } else if d == 2 {
        '2'
    } else if d == 3 {
        '3'
    } else if d == 4 {
        '4'
    } else if d == 5 {
        '5'
    } else if d == 6 {
        '6'
    } else if d == 7 {
        '7'
    } else if d == 8 {
        '8'
    } else {
        '9'
    }
}

/// The decimal notation of a number, without leading zeros.
pub open spec fn decimal_text(n: nat) -> Seq<char>
    decreases n,
{
    if n < 10 {
        seq![digit_char(n)]
    } else {
        decimal_text(n / 10).push(digit_char(n % 10))
    }
}

/// The text of one decimal digit.
fn digit_text(d: u32) -> (text: &'static str)
    requires
        d < 10,
    ensures
        text@ == seq![digit_char(d as nat)],
{
    proof {
        reveal_strlit("0");
        reveal_strlit("1");
        reveal_strlit("2");
        reveal_strlit("3");
        reveal_strlit("4");
        reveal_strlit("5");
        reveal_strlit("6");
        reveal_strlit("7");
        reveal_strlit("8");
        reveal_strlit("9");
    }
    if d == 0 {
        "0"
    } else if d == 1 {
        "1"
    } else if d == 2 {
        "2"
    } else if d == 3 {
        "3"
    } else if d == 4 {
        "4"
    } else if d == 5 {
        "5"
    } else if d == 6 {
        "6"
    } else if d == 7 {
        "7"
    } else if d == 8 {
        "8"
    } else {
        "9"
    }
}

/// The decimal notation of `n`.
pub fn decimal_string(n: u32) -> (text: String)
    ensures
        text@ == decimal_text(n as nat),
    decreases n,
{
    if n < 10 {
        String::from_str(digit_text(n))
    } else {
        let head = decimal_string(n / 10);
        head.concat(digit_text(n % 10))
    }
}

/// The decimal notation of a signed number: a minus sign before the
/// notation of its magnitude when it is negative.
pub open spec fn signed_decimal_text(n: int) -> Seq<char> {
    if n < 0 {
        seq!['-'] + decimal_text((-n) as nat)
    } else {
        decimal_text(n as nat)
    }
}

/// The decimal notation of `n`, with a minus sign when it is negative.
pub fn signed_decimal_string(n: i32) -> (text: String)
    ensures
        text@ == signed_decimal_text(n as int),
{
    if n < 0 {
        let magnitude = (-(n as i64)) as u32;
        let digits = decimal_string(magnitude);
        let text = String::from_str("-");
        proof {
            reveal_strlit("-");
        }
        let text = text.concat(digits.as_str());
        assert(text@ =~= seq!['-'] + decimal_text((-n) as nat));
        text
    } else {
        decimal_string(n as u32)
    }
}

/// The character of a hexadecimal digit, in lower case.
pub open spec fn hex_digit_char(d: nat) -> char {
    if d < 10 {
        digit_char(d)
    } else if d == 10 {
        'a'
    } else if d == 11 {
        'b'
    } else if d == 12 {
        'c'
    } else if d == 13 {
        'd'
    } else if d == 14 {
        'e'
    } else {
        'f'
    }
}

/// The hexadecimal notation of a number, in lower case, without leading
/// zeros and without a prefix.
pub open spec fn hex_text(n: nat) -> Seq<char>
    decreases n,
{
    if n < 16 {
        seq![hex_digit_char(n)]
    } else {
        hex_text(n / 16).push(hex_digit_char(n % 16))
    }
}

/// The text of one hexadecimal digit.
fn hex_digit_text(d: u32) -> (text: &'static str)
    requires
        d < 16,
    ensures
        text@ == seq![hex_digit_char(d as nat)],
{
    if d < 10 {
        return digit_text(d);
    }
    proof {
        reveal_strlit("a");
        reveal_strlit("b");
        reveal_strlit("c");
        reveal_strlit("d");
        reveal_strlit("e");
        reveal_strlit("f");
    }
    if d == 10 {
        "a"
    } else if d == 11 {
        "b"
    } else if d == 12 {
        "c"
    } else if d == 13 {
        "d"
    } else if d == 14 {
        "e"
    } else {
        "f"
    }
}

/// The hexadecimal notation of `n`, in lower case.
pub fn hex_string(n: u32) -> (text: String)
    ensures
        text@ == hex_text(n as nat),
    decreases n,
{
    if n < 16 {
        String::from_str(hex_digit_text(n))
    } else {
        let head = hex_string(n / 16);
        head.concat(hex_digit_text(n % 16))
    }
}

/// The text that `String::from_utf8_lossy` makes of `bytes`: valid
/// sequences decoded, each invalid one replaced by U+FFFD.
pub uninterp spec fn utf8_lossy_text(bytes: Seq<u8>) -> Seq<char>;

/// `bytes` decoded by `String::from_utf8_lossy`. Valid UTF-8 comes back
/// decoded unchanged; of invalid input only the name of the result is
/// stated.
#[verifier::external_body]
fn utf8_lossy(bytes: &[u8]) -> (text: String)
    ensures
        text@ == utf8_lossy_text(bytes@),
        valid_utf8(bytes@) ==> text@ == decode_utf8(bytes@),
{
    String::from_utf8_lossy(bytes).into_owned()
}

/// `bytes` decoded by `std::str::from_utf8`, which accepts exactly the
/// valid UTF-8 encodings.
#[verifier::external_body]
fn utf8_strict(bytes: &[u8]) -> (text: Option<String>)
    ensures
        text is Some <==> valid_utf8(bytes@),
        text is Some ==> text.unwrap()@ == decode_utf8(bytes@),
{
    std::str::from_utf8(bytes).ok().map(|text| text.to_owned())
}

/// The text of a byte string reported by BASS: its UTF-8 decoding when it
/// is valid UTF-8, otherwise the text decoded by the system code page, when
/// there is one, otherwise the lossy UTF-8 decoding.
pub open spec fn native_text(bytes: Seq<u8>, code_page_text: Option<String>) -> Seq<char> {
    if valid_utf8(bytes) {
        decode_utf8(bytes)
    } else if code_page_text is Some {
        code_page_text.unwrap()@
    } else {
        utf8_lossy_text(bytes)
    }
}

/// Decodes a byte string reported by BASS. `code_page_text` gives its
/// decoding by the system code page, where the platform has one; it is
/// asked only when the bytes are not valid UTF-8.
pub fn decode_native_text<F: FnOnce() -> Option<String>>(bytes: &[u8], code_page_text: F) -> (text:
    String)
    requires
        call_requires(code_page_text, ()),
    ensures
        valid_utf8(bytes@) ==> text@ == decode_utf8(bytes@),
        !valid_utf8(bytes@) ==> exists|fallback: Option<String>|
            call_ensures(code_page_text, (), fallback) && text@ == native_text(bytes@, fallback),
{
    match utf8_strict(bytes) {
        Some(text) => text,
        None => {
            let fallback = code_page_text();
            let text = match fallback {
                Some(text) => text,
                None => utf8_lossy(bytes),
            };
            assert(text@ == native_text(bytes@, fallback));
            text
        },
    }
}

/// The text of a byte string decoded leniently: invalid UTF-8 sequences
/// are replaced by U+FFFD.
pub fn lossy_text(bytes: &[u8]) -> (text: String)
    ensures
        text@ == utf8_lossy_text(bytes@),
        valid_utf8(bytes@) ==> text@ == decode_utf8(bytes@),
{
    utf8_lossy(bytes)
}

/// The most entries read from one tag list.
pub const MAX_TAG_ENTRIES: usize = 4096;

/// The tags of a list of NUL-terminated entries: the entries before the
/// first empty one, each decoded leniently.
pub open spec fn tag_texts(entries: Seq<Seq<u8>>) -> Seq<Seq<char>>
    decreases entries.len(),
{
    if entries.len() == 0 || entries[0].len() == 0 {
        seq![]
    } else {
        seq![utf8_lossy_text(entries[0])] + tag_texts(entries.drop_first())
    }
}

/// The tags of a list of entries, at most `MAX_TAG_ENTRIES` of them.
pub open spec fn tag_list(entries: Seq<Seq<u8>>) -> Seq<Seq<char>> {
    let all = tag_texts(entries);
    if all.len() <= MAX_TAG_ENTRIES { all } else { all.take(MAX_TAG_ENTRIES as int) }
}

/// A tag list never holds more than `MAX_TAG_ENTRIES` tags, and each tag
/// comes from a nonempty entry before the first empty one.
pub proof fn lemma_tag_list_bounded(entries: Seq<Seq<u8>>)
    ensures
        tag_list(entries).len() <= MAX_TAG_ENTRIES,
        tag_list(entries).len() <= entries.len(),
        forall|i: int| 0 <= i < tag_list(entries).len() ==> entries[i].len() != 0,
{
    lemma_tag_texts_shape(entries);
    let all = tag_texts(entries);
    assert forall|i: int| 0 <= i < tag_list(entries).len() implies entries[i].len() != 0 by {
        assert(tag_list(entries)[i] == all[i]);
    }
}

/// The tags of a list are the lenient decodings of its entries up to the
/// first empty one.
proof fn lemma_tag_texts_shape(entries: Seq<Seq<u8>>)
    ensures
        tag_texts(entries).len() <= entries.len(),
        forall|i: int|
            #![trigger entries[i]]
            0 <= i < tag_texts(entries).len() ==> entries[i].len() != 0 && tag_texts(entries)[i]
                == utf8_lossy_text(entries[i]),
    decreases entries.len(),
{
    if entries.len() > 0 && entries[0].len() != 0 {
        let rest = entries.drop_first();
        lemma_tag_texts_shape(rest);
        let head = seq![utf8_lossy_text(entries[0])];
        assert(tag_texts(entries) == head + tag_texts(rest));
        assert forall|i: int|
            #![trigger entries[i]]
            0 <= i < tag_texts(entries).len() implies entries[i].len() != 0
            && tag_texts(entries)[i] == utf8_lossy_text(entries[i]) by {
            if i > 0 {
                assert(entries[i] == rest[i - 1]);
                assert((head + tag_texts(rest))[i] == tag_texts(rest)[i - 1]);
            }
        }
    } else {
        assert(tag_texts(entries) =~= Seq::<Seq<char>>::empty());
    }
}

/// Reads a tag list from BASS, which holds consecutive NUL-terminated
/// strings and ends with an empty one. The entries are handed in one at a
/// time; the reader says when to stop.
pub struct TagReader {
    tags: Vec<String>,
    done: bool,
    seen: Ghost<Seq<Seq<u8>>>,
}

impl TagReader {
    /// The entries handed in so far.
    pub closed spec fn entries(&self) -> Seq<Seq<u8>> {
        self.seen@
    }

    /// Whether the reader takes no more entries.
    pub closed spec fn is_done(&self) -> bool {
        self.done
    }

    /// The tags read so far.
    pub closed spec fn tags(&self) -> Seq<Seq<char>> {
        self.tags@.map_values(|t: String| t@)
    }

    /// The reader's state agrees with the entries handed in.
    #[verifier::type_invariant]
    closed spec fn wf(&self) -> bool {
        &&& self.tags() == tag_list(self.seen@)
        &&& self.done == (tag_texts(self.seen@).len() < self.seen@.len()
            || self.tags@.len() >= MAX_TAG_ENTRIES)
        &&& !self.done ==> tag_texts(self.seen@).len() == self.seen@.len()
        &&& self.tags@.len() <= MAX_TAG_ENTRIES
    }

    /// A reader that has seen nothing.
    pub fn new() -> (reader: Self)
        ensures
            reader.entries() == Seq::<Seq<u8>>::empty(),
            !reader.is_done(),
    {
        let tags: Vec<String> = Vec::new();
        assert(tag_texts(Seq::<Seq<u8>>::empty()) == Seq::<Seq<char>>::empty());
        assert(tags@.map_values(|t: String| t@) =~= tag_list(Seq::<Seq<u8>>::empty()));
        TagReader { tags, done: false, seen: Ghost(Seq::empty()) }
    }

    /// Hands in the next entry. Returns whether to read another one: not
    /// after an empty entry, nor once the reader holds `MAX_TAG_ENTRIES`
    /// tags. An entry handed in after that changes nothing.
    pub fn accept(&mut self, entry: &[u8]) -> (more: bool)
        ensures
            old(self).is_done() ==> final(self).entries() == old(self).entries() && !more,
            !old(self).is_done() ==> final(self).entries() == old(self).entries().push(entry@),
            more == !final(self).is_done(),
    {
        proof {
            use_type_invariant(&*self);
        }
        if self.done {
            return false;
        }
        proof {
            lemma_tag_texts_push(self.seen@, entry@);
        }
        let mut current = TagReader::new();
        std::mem::swap(self, &mut current);
        proof {
            use_type_invariant(&current);
        }
        let TagReader { mut tags, done, seen } = current;
        let ghost entries = seen@.push(entry@);
        if entry.len() == 0 {
            assert(tags@.map_values(|t: String| t@) =~= tag_list(entries));
            *self = TagReader { tags, done: true, seen: Ghost(entries) };
            return false;
        }
        let text = utf8_lossy(entry);
        let ghost old_tags = tags@;
        tags.push(text);
        assert(tags@.map_values(|t: String| t@) =~= old_tags.map_values(|t: String| t@).push(
            utf8_lossy_text(entry@),
        ));
        let finished = tags.len() >= MAX_TAG_ENTRIES;
        assert(tags@.map_values(|t: String| t@) =~= tag_list(entries));
        *self = TagReader { tags, done: finished, seen: Ghost(entries) };
        !finished
    }

    /// The tags read.
    pub fn into_tags(self) -> (tags: Vec<String>)
        ensures
            tags@.map_values(|t: String| t@) == tag_list(self.entries()),
    {
        proof {
            use_type_invariant(&self);
        }
        self.tags
    }
}

/// Extending a list all of whose entries are nonempty appends the new
/// entry's tag, or nothing when the new entry is empty.
proof fn lemma_tag_texts_push(entries: Seq<Seq<u8>>, entry: Seq<u8>)
    requires
        tag_texts(entries).len() == entries.len(),
    ensures
        entry.len() == 0 ==> tag_texts(entries.push(entry)) == tag_texts(entries),
        entry.len() != 0 ==> tag_texts(entries.push(entry)) == tag_texts(entries).push(
            utf8_lossy_text(entry),
        ),
    decreases entries.len(),
{
    if entries.len() == 0 {
        assert(entries.push(entry).drop_first() =~= Seq::<Seq<u8>>::empty());
        assert(entries.push(entry)[0] == entry);
        assert(tag_texts(Seq::<Seq<u8>>::empty()) == Seq::<Seq<char>>::empty());
        assert(tag_texts(entries) =~= Seq::<Seq<char>>::empty());
        if entry.len() != 0 {
            assert(tag_texts(entries.push(entry)) =~= seq![utf8_lossy_text(entry)]);
        }
    } else {
        let rest = entries.drop_first();
        assert(entries[0].len() != 0);
        assert(tag_texts(entries) == seq![utf8_lossy_text(entries[0])] + tag_texts(rest));
        assert(tag_texts(rest).len() == rest.len());
        lemma_tag_texts_push(rest, entry);
        assert(entries.push(entry).drop_first() =~= rest.push(entry));
        assert(entries.push(entry)[0] == entries[0]);
        assert(tag_texts(entries.push(entry)) == seq![utf8_lossy_text(entries[0])] + tag_texts(
            rest.push(entry),
        ));
        if entry.len() != 0 {
            assert(seq![utf8_lossy_text(entries[0])] + tag_texts(rest).push(utf8_lossy_text(entry))
                =~= (seq![utf8_lossy_text(entries[0])] + tag_texts(rest)).push(
                utf8_lossy_text(entry),
            ));
        }
    }
}

} // verus!
